use iloader::auth::{account_settings, certificates_to_revoke, settings_for, tfa_code, Certificate};

fn cert(serial: Option<&str>) -> Certificate {
    Certificate {
        serial_number: serial.map(|s| s.to_string()),
        name: None,
        machine_name: None,
    }
}

fn certs() -> Vec<Certificate> {
    vec![cert(Some("S1")), cert(None), cert(Some("S3"))]
}

fn revoked(answer: &str) -> Option<Vec<String>> {
    certificates_to_revoke(Some(answer), &certs())
}

fn serials(list: &[&str]) -> Option<Vec<String>> {
    Some(list.iter().map(|s| s.to_string()).collect())
}

#[test]
fn accounts_are_addressed_in_lower_case() {
    let s = account_settings("Ana.ÑU@Example.COM", "ClaVe ÑU", "http://localhost:6969");
    assert_eq!(s.email, "ana.ñu@example.com");
    assert_eq!(s.anisette_url, "http://localhost:6969");
    assert_eq!(s.password, "ClaVe ÑU");
    assert_eq!(s.serial_number, "0");
    assert_eq!(s.machine_name, "iloader");
    assert_eq!(s.notice, "🔐 Autenticando Ana.ÑU@Example.COM…");
}

#[test]
fn settings_take_the_address_given() {
    let s = settings_for("A@B", "lower".to_string(), "PW", "url");
    assert_eq!((s.email.as_str(), s.notice.as_str()), ("lower", "🔐 Autenticando A@B…"));
    assert_eq!((s.password.as_str(), s.anisette_url.as_str()), ("PW", "url"));
}

#[test]
fn a_code_is_the_trimmed_line() {
    assert_eq!(tfa_code(Some("123456\n")).as_deref(), Some("123456"));
    assert_eq!(tfa_code(Some("  12 34\r\n")).as_deref(), Some("12 34"));
    assert_eq!(tfa_code(Some("\n")), None);
    assert_eq!(tfa_code(Some("")), None);
    assert_eq!(tfa_code(None), None);
}

#[test]
fn numbers_select_listed_certificates() {
    assert_eq!(revoked("1\n"), serials(&["S1"]));
    assert_eq!(revoked("3,1"), serials(&["S3", "S1"]));
    assert_eq!(revoked(" 1 , 3 \n"), serials(&["S1", "S3"]));
    assert_eq!(revoked("1,1"), serials(&["S1", "S1"]));
    assert_eq!(revoked("+3"), serials(&["S3"]));
}

#[test]
fn entries_that_select_nothing_are_skipped() {
    assert_eq!(revoked("x,3,9"), serials(&["S3"]));
    assert_eq!(revoked("2,1"), serials(&["S1"]));
    assert_eq!(revoked(",1,"), serials(&["S1"]));
    assert_eq!(revoked("0,1"), serials(&["S1"]));
}

#[test]
fn nothing_selected_revokes_nothing() {
    assert_eq!(revoked("\n"), None);
    assert_eq!(revoked("2"), None);
    assert_eq!(revoked("4"), None);
    assert_eq!(revoked("0"), None);
    assert_eq!(revoked("-1"), None);
    assert_eq!(revoked("1 3"), None);
    assert_eq!(revoked(","), None);
    assert_eq!(revoked("18446744073709551617"), None);
    assert_eq!(certificates_to_revoke(None, &certs()), None);
    assert_eq!(certificates_to_revoke(Some("1"), &vec![]), None);
}

#[test]
fn only_listed_serials_are_revoked() {
    let all: Vec<String> = certs().into_iter().filter_map(|c| c.serial_number).collect();
    for answer in ["1,2,3,4", "3,3,0", "9"] {
        for serial in revoked(answer).unwrap_or_default() {
            assert!(all.contains(&serial));
        }
    }
}
