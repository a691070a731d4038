use iloader::device::{
    connection_label, device_report, find_device, lockdown_info, select_device, text_answer, Answers,
    Connection, Device,
};
use iloader::error::CliError;
use plist::Value;

fn device(udid: &str) -> Device {
    Device { udid: udid.to_string(), connection: Connection::Usb }
}

fn text(s: &str) -> Option<Value> {
    Some(Value::String(s.to_string()))
}

#[test]
fn no_device_is_an_error() {
    let e = select_device(&vec![], None).unwrap_err();
    assert!(matches!(e, CliError::NoDevice));
    assert_eq!(e.message(), "No hay dispositivos conectados. Conecta el iPhone y pulsa 'Confiar'.");
    assert!(matches!(select_device(&vec![], Some("A")), Err(CliError::NoDevice)));
}

#[test]
fn the_only_device_is_taken() {
    let chosen = select_device(&vec![device("A")], None).unwrap();
    assert_eq!((chosen.index, chosen.udid.as_str(), chosen.notice), (0, "A", None));
}

#[test]
fn the_first_of_several_is_taken_with_a_notice() {
    let chosen = select_device(&vec![device("A"), device("B")], None).unwrap();
    assert_eq!((chosen.index, chosen.udid.as_str()), (0, "A"));
    assert_eq!(
        chosen.notice.as_deref(),
        Some("⚠️  Múltiples dispositivos. Usando A (usa --udid para elegir).")
    );
}

#[test]
fn the_device_asked_for_is_taken() {
    let devices = vec![device("A"), device("B"), device("B")];
    let chosen = select_device(&devices, Some("B")).unwrap();
    assert_eq!((chosen.index, chosen.udid.as_str(), chosen.notice), (1, "B", None));
}

#[test]
fn a_device_that_is_absent_is_not_found() {
    let e = select_device(&vec![device("A")], Some("a")).unwrap_err();
    assert!(matches!(e, CliError::DeviceNotFound(_)));
    assert_eq!(e.message(), "UDID 'a' no encontrado");
}

#[test]
fn devices_are_found_by_udid() {
    let devices = vec![device("A"), device("B"), device("A")];
    assert_eq!(find_device(&devices, "A"), Some(0));
    assert_eq!(find_device(&devices, "B"), Some(1));
    assert_eq!(find_device(&devices, ""), None);
}

#[test]
fn connections_have_words() {
    assert_eq!(connection_label(Connection::Usb), "USB");
    assert_eq!(connection_label(Connection::Network), "Red");
    assert_eq!(connection_label(Connection::Unknown), "Desconocido");
}

#[test]
fn answers_that_are_strings_are_shown() {
    assert_eq!(text_answer(&text("iPhone de Ana"), "?"), "iPhone de Ana");
    assert_eq!(text_answer(&Some(Value::Boolean(true)), "?"), "?");
    assert_eq!(text_answer(&None, ""), "");
}

#[test]
fn a_device_says_its_name_and_version() {
    let answers = Some(Answers { name: text("iPhone"), version: text("17.4") });
    assert_eq!(lockdown_info(&answers), ("iPhone".to_string(), "17.4".to_string()));
    let silent = Some(Answers { name: None, version: Some(Value::Integer(17.into())) });
    assert_eq!(lockdown_info(&silent), ("Desconocido".to_string(), "?".to_string()));
    assert_eq!(lockdown_info(&None), ("Desconocido".to_string(), "?".to_string()));
}

#[test]
fn a_device_is_shown_in_three_lines() {
    let answers = Some(Answers { name: text("iPhone"), version: text("17.4") });
    let d = Device { udid: "0001-AB".to_string(), connection: Connection::Network };
    assert_eq!(
        device_report(&d, &answers),
        "  📱 iPhone  (iOS 17.4)\n     UDID: 0001-AB\n     Tipo: Red\n"
    );
}
