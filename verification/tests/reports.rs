use iloader::auth::{certificates_to_revoke, Certificate};
use iloader::reports::{
    app_ids_heading, certificates_report, default_data_dir, log_level, revocation_report, revoked_message,
};
use iloader::requests::{CODE_PROMPT, REVOCATION_PROMPT};

fn cert(serial: &str, name: Option<&str>, machine: Option<&str>) -> Certificate {
    Certificate {
        serial_number: Some(serial.to_string()),
        name: name.map(|s| s.to_string()),
        machine_name: machine.map(|s| s.to_string()),
    }
}

#[test]
fn no_certificates_are_said_to_be_none() {
    assert_eq!(certificates_report(&vec![]), vec!["No hay certificados de desarrollo activos."]);
}

#[test]
fn certificates_are_listed_under_their_number() {
    let certs = vec![cert("AB12", Some("iOS Development"), Some("iloader")), cert("C", None, None)];
    assert_eq!(
        certificates_report(&certs),
        vec![
            "Certificados (2):\n",
            "  Serial:  AB12\n  Nombre:  iOS Development\n  Máquina: iloader\n",
            "  Serial:  C\n  Nombre:  ?\n  Máquina: ?\n",
        ]
    );
}

#[test]
fn certificates_are_numbered_for_revocation() {
    let mut certs = vec![cert("A", None, Some("Mac")), cert("B", None, None)];
    certs[1].serial_number = None;
    assert_eq!(
        revocation_report(&certs),
        vec![
            "\n⚠️  Límite de certificados alcanzado. Certificados activos:\n",
            "  [1] Serial: A  Máquina: Mac",
            "  [2] Serial: ?  Máquina: ?",
        ]
    );
}

#[test]
fn listed_numbers_revoke_the_listed_certificate() {
    let certs: Vec<Certificate> = (0..12).map(|i| cert(&format!("S{i}"), None, None)).collect();
    let lines = revocation_report(&certs);
    for i in 0..12 {
        let line = &lines[i + 1];
        let number = line.trim_start_matches("  [").split(']').next().unwrap();
        assert_eq!(certificates_to_revoke(Some(number), &certs), Some(vec![format!("S{i}")]));
    }
}

#[test]
fn app_ids_are_counted() {
    assert_eq!(app_ids_heading(3, Some(10), Some(7)), "App IDs (3 de 10 slots, 7 disponibles):\n");
    assert_eq!(app_ids_heading(11, Some(10), Some(-1)), "App IDs (11 de 10 slots, -1 disponibles):\n");
    assert_eq!(app_ids_heading(0, None, None), "App IDs (0 de ? slots, ? disponibles):\n");
}

#[test]
fn a_revoked_certificate_is_named() {
    assert_eq!(revoked_message("SERIAL123"), "✅ Certificado SERIAL123 revocado");
}

#[test]
fn flags_set_the_log_level() {
    assert_eq!(log_level(0), "warn");
    assert_eq!(log_level(1), "info");
    assert_eq!(log_level(2), "debug");
    assert_eq!(log_level(255), "debug");
}

#[test]
fn data_lies_below_the_home_directory() {
    for home in ["/home/ana", "/", "/root/", "", "rel"] {
        let expected = std::path::Path::new(home).join(".local").join("share").join("iloader");
        assert_eq!(std::path::PathBuf::from(default_data_dir(Some(home))), expected);
        assert_eq!(default_data_dir(Some(home)), expected.display().to_string());
    }
    assert_eq!(default_data_dir(None), "./.local/share/iloader");
}

#[test]
fn the_user_is_asked_in_these_words() {
    assert_eq!(CODE_PROMPT, "Código 2FA: ");
    assert_eq!(REVOCATION_PROMPT, "\nNúmeros a revocar (coma, Enter para cancelar): ");
}
