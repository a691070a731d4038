use iloader::error::{CliError, IoKind};
use iloader::ipa::{
    is_deleted_after_install, missing_file, normalize_url, resolve_ipa, sidestore_release, IpaSource,
};

#[test]
fn addresses_get_a_scheme() {
    assert_eq!(normalize_url("http://localhost:6969"), "http://localhost:6969");
    assert_eq!(normalize_url("https://ani.example.org"), "https://ani.example.org");
    assert_eq!(normalize_url("ani.example.org"), "https://ani.example.org");
    assert_eq!(normalize_url(""), "https://");
    assert_eq!(normalize_url("httpd.example.org"), "httpd.example.org");
    assert_eq!(normalize_url("HTTP://x"), "https://HTTP://x");
}

#[test]
fn normalizing_twice_changes_nothing() {
    for url in ["", "x", "http://x", "localhost:6969"] {
        let once = normalize_url(url);
        assert_eq!(normalize_url(&once), once);
    }
}

#[test]
fn addresses_are_downloaded() {
    match resolve_ipa("https://github.com/SideStore/SideStore/releases/latest/download/SideStore.ipa") {
        IpaSource::Download { stored_as, notice } => {
            assert_eq!(stored_as, "iloader_SideStore.ipa");
            assert_eq!(notice, "⬇️  Descargando SideStore.ipa…");
        }
        IpaSource::File => panic!("not a file"),
    }
    match resolve_ipa("http://host/dir/") {
        IpaSource::Download { stored_as, notice } => {
            assert_eq!(stored_as, "iloader_");
            assert_eq!(notice, "⬇️  Descargando …");
        }
        IpaSource::File => panic!("not a file"),
    }
}

#[test]
fn stored_names_have_no_slash() {
    for url in ["http://a/b/c.ipa", "https://", "https://a", "http:///"] {
        match resolve_ipa(url) {
            IpaSource::Download { stored_as, .. } => assert!(!stored_as.contains('/')),
            IpaSource::File => panic!("not a file"),
        }
    }
}

#[test]
fn paths_are_files() {
    for path in ["./MiApp.ipa", "", "httpd.ipa", "http:/x", "ftp://x/y.ipa", "/https://x"] {
        assert!(matches!(resolve_ipa(path), IpaSource::File), "{path}");
    }
}

#[test]
fn downloads_are_deleted() {
    for ipa in ["http://a/b.ipa", "https://a/b.ipa"] {
        assert!(matches!(resolve_ipa(ipa), IpaSource::Download { .. }));
        assert!(is_deleted_after_install(ipa));
    }
    assert!(!is_deleted_after_install("./MiApp.ipa"));
    assert!(!is_deleted_after_install("/tmp/http.ipa"));
    assert!(is_deleted_after_install("httpd.ipa"));
}

#[test]
fn a_missing_file_is_named() {
    assert_eq!(missing_file("./No.ipa").message(), "E/S: Archivo no encontrado: ./No.ipa");
    assert!(matches!(missing_file(""), CliError::Io(IoKind::NotFound, _)));
}

#[test]
fn releases_by_channel() {
    let r = sidestore_release(false, false);
    assert_eq!(r.file_name, "SideStore.ipa");
    assert_eq!(r.url, "https://github.com/SideStore/SideStore/releases/latest/download/SideStore.ipa");
    assert_eq!((r.label.as_str(), r.app_key.as_str()), ("SideStore", "sidestore"));

    let r = sidestore_release(true, false);
    assert_eq!(r.file_name, "SideStore-Nightly.ipa");
    assert_eq!(r.url, "https://github.com/SideStore/SideStore/releases/download/nightly/SideStore.ipa");
    assert_eq!((r.label.as_str(), r.app_key.as_str()), ("SideStore", "sidestore"));

    let r = sidestore_release(false, true);
    assert_eq!(r.file_name, "LiveContainerSideStore.ipa");
    assert_eq!(
        r.url,
        "https://github.com/LiveContainer/LiveContainer/releases/latest/download/LiveContainer+SideStore.ipa"
    );
    assert_eq!((r.label.as_str(), r.app_key.as_str()), ("LiveContainer+SideStore", "livecont"));

    let r = sidestore_release(true, true);
    assert_eq!(r.file_name, "LiveContainerSideStore-Nightly.ipa");
    assert_eq!(
        r.url,
        "https://github.com/LiveContainer/LiveContainer/releases/download/nightly/LiveContainer+SideStore.ipa"
    );
    assert_eq!((r.label.as_str(), r.app_key.as_str()), ("LiveContainer+SideStore", "livecont"));
}
