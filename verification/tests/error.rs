use iloader::error::{CliError, IoKind};

#[test]
fn every_failure_has_its_words() {
    let t = || "x".to_string();
    assert_eq!(
        CliError::NoDevice.message(),
        "No hay dispositivos conectados. Conecta el iPhone y pulsa 'Confiar'."
    );
    assert_eq!(CliError::DeviceNotFound(t()).message(), "UDID 'x' no encontrado");
    assert_eq!(CliError::Usbmuxd(t()).message(), "usbmuxd: x");
    assert_eq!(CliError::Device(t()).message(), "Dispositivo: x");
    assert_eq!(CliError::Auth(t()).message(), "Apple ID: x");
    assert_eq!(CliError::Sideload(t()).message(), "Sideloading: x");
    assert_eq!(CliError::Pairing(t()).message(), "Pairing: x");
    assert_eq!(CliError::Download(t()).message(), "Descarga: x");
    assert_eq!(CliError::Io(IoKind::NotFound, t()).message(), "E/S: x");
    assert_eq!(CliError::Io(IoKind::System, t()).message(), "E/S: x");
    assert_eq!(CliError::Other(t()).message(), "x");
}

#[test]
fn a_failure_is_reported_on_a_line_of_its_own() {
    assert_eq!(CliError::Auth("no".to_string()).report(), "\n❌  Apple ID: no");
}
