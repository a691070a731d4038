use iloader::ipa::sidestore_release;
use iloader::pairing_apps::{
    display_name, document_directory, document_path, find_bundle, pairing_app, pairing_apps, InstalledApp,
};
use plist::{Dictionary, Value};

fn info(name: &str) -> Value {
    let mut d = Dictionary::new();
    d.insert("CFBundleDisplayName".to_string(), Value::String(name.to_string()));
    Value::Dictionary(d)
}

fn installed(bundle_id: &str, info: Value) -> InstalledApp {
    InstalledApp { bundle_id: bundle_id.to_string(), info }
}

#[test]
fn the_known_apps() {
    let rows: Vec<(&str, &str, &str, &str)> = pairing_apps()
        .iter()
        .map(|a| (a.key, a.display_name, a.bundle_fragment, a.file_path))
        .collect();
    assert_eq!(
        rows,
        vec![
            ("sidestore", "SideStore", "SideStore", "ALTPairingFile.mobiledevicepairing"),
            (
                "livecont",
                "LiveContainer",
                "livecontainer",
                "SideStore/Documents/ALTPairingFile.mobiledevicepairing"
            ),
            ("feather", "Feather", "crysalis.feather", "pairingFile.plist"),
            ("stikdebug", "StikDebug", "stik.stikdebug", "pairingFile.plist"),
            ("sparebox", "SparseBox", "Flintrules.SparseBox", "pairingFile.plist"),
            ("protokolle", "Protokolle", "khcrysalis.Protokolle", "pairingFile.plist"),
            ("antrag", "Antrag", "antrag", "pairingFile.plist"),
        ]
    );
}

#[test]
fn each_app_is_found_by_its_key() {
    for app in pairing_apps() {
        assert_eq!(pairing_app(app.key).unwrap().display_name, app.display_name);
    }
}

#[test]
fn app_keys_are_distinct() {
    let apps = pairing_apps();
    for i in 0..apps.len() {
        for j in 0..i {
            assert_ne!(apps[i].key, apps[j].key);
        }
    }
}

#[test]
fn an_unknown_key_is_answered_with_all_keys() {
    for key in ["altstore", "SideStore", ""] {
        assert_eq!(
            pairing_app(key).unwrap_err().message(),
            format!(
                "App '{key}' desconocida. Opciones: sidestore, livecont, feather, stikdebug, sparebox, protokolle, antrag"
            )
        );
    }
}

#[test]
fn releases_have_known_apps() {
    for nightly in [false, true] {
        for live_container in [false, true] {
            assert!(pairing_app(&sidestore_release(nightly, live_container).app_key).is_ok());
        }
    }
}

#[test]
fn display_names_are_strings_under_their_key() {
    assert_eq!(display_name(&info("Feather")), "Feather");
    assert_eq!(display_name(&Value::String("Feather".to_string())), "");
    assert_eq!(display_name(&Value::Dictionary(Dictionary::new())), "");
    let mut d = Dictionary::new();
    d.insert("CFBundleDisplayName".to_string(), Value::Boolean(true));
    assert_eq!(display_name(&Value::Dictionary(d)), "");
}

#[test]
fn apps_are_found_by_name_or_fragment() {
    let feather = pairing_app("feather").unwrap();
    let by_name = vec![installed("a.b", info("Otra")), installed("c.d", info("Feather"))];
    assert_eq!(find_bundle(&by_name, &feather).unwrap(), "c.d");
    let by_fragment = vec![installed("x.khcrysalis.feather.TEAM", Value::Boolean(false))];
    assert_eq!(find_bundle(&by_fragment, &feather).unwrap(), "x.khcrysalis.feather.TEAM");
}

#[test]
fn the_first_match_is_taken() {
    let sidestore = pairing_app("sidestore").unwrap();
    let apps = vec![
        installed("com.other", info("Other")),
        installed("com.SideStore.SideStore.T1", info("SS")),
        installed("com.second", info("SideStore")),
    ];
    assert_eq!(find_bundle(&apps, &sidestore).unwrap(), "com.SideStore.SideStore.T1");
}

#[test]
fn the_only_match_is_found_in_any_order() {
    let antrag = pairing_app("antrag").unwrap();
    for place in 0..3 {
        let mut apps = vec![installed("a", info("A")), installed("b", info("B"))];
        apps.insert(place, installed("wanted", info("Antrag")));
        assert_eq!(find_bundle(&apps, &antrag).unwrap(), "wanted");
    }
}

#[test]
fn an_app_that_is_absent_is_not_installed() {
    let livecont = pairing_app("livecont").unwrap();
    let apps = vec![installed("com.LiveContainer", info("livecontainer"))];
    assert_eq!(
        find_bundle(&apps, &livecont).unwrap_err().message(),
        "Dispositivo: 'LiveContainer' no está instalado. Instálalo primero."
    );
}

#[test]
fn files_lie_in_their_directory() {
    assert_eq!(document_directory("pairingFile.plist"), "/Documents/");
    assert_eq!(document_path("pairingFile.plist"), "/Documents/pairingFile.plist");
    let path = "SideStore/Documents/ALTPairingFile.mobiledevicepairing";
    assert_eq!(document_directory(path), "/Documents/SideStore/Documents");
    assert_eq!(
        document_path(path),
        "/Documents/SideStore/Documents/ALTPairingFile.mobiledevicepairing"
    );
}
