use iloader::auth::Certificate;
use iloader::error::{CliError, IoKind};
use iloader::ipa::IpaSource;
use iloader::jobs::account::{Account, AccountReply, AccountState, AccountTask, AppIdList};
use iloader::jobs::download::{Download, DownloadReply, DownloadState};
use iloader::jobs::installation::{Installation, InstallationReply, InstallationState};
use iloader::jobs::sidestore::{Sidestore, SidestoreEnd, SidestoreReply, SidestoreState};
use iloader::jobs::sign_in::{SignIn, SignInState};

fn download(good: usize) -> Download {
    let mut job = Download::new("https://h/a.ipa".to_string(), "iloader_a.ipa".to_string());
    for n in 0..good {
        job = job.advance(if n == 2 {
            DownloadReply::Body(vec![1, 2, 3])
        } else {
            DownloadReply::Done
        });
    }
    job
}

#[test]
fn a_download_takes_four_steps() {
    assert!(matches!(download(0).state, DownloadState::Request));
    assert!(matches!(download(1).state, DownloadState::CheckStatus));
    assert!(matches!(download(2).state, DownloadState::ReadBody));
    assert!(matches!(download(3).state, DownloadState::Store { .. }));
    assert!(matches!(download(4).state, DownloadState::Finished(Ok(()))));
    assert!(matches!(download(5).state, DownloadState::Finished(Ok(()))));
}

#[test]
fn the_body_of_the_address_goes_to_the_file() {
    let job = download(3);
    assert_eq!((job.url.as_str(), job.file_name.as_str()), ("https://h/a.ipa", "iloader_a.ipa"));
    match job.state {
        DownloadState::Store { body } => assert_eq!(body, vec![1, 2, 3]),
        other => panic!("{other:?}"),
    }
}

#[test]
fn a_download_can_fail_at_each_step() {
    for (good, expected) in ["Descarga: x", "Descarga: x", "Descarga: x", "E/S: x"].iter().enumerate() {
        match download(good).advance(DownloadReply::Failed("x".to_string())).state {
            DownloadState::Finished(Err(e)) => assert_eq!(e.message(), *expected),
            other => panic!("{other:?}"),
        }
    }
}

#[test]
fn a_body_that_was_not_asked_for_is_not_stored() {
    for good in 0..2 {
        let before = format!("{:?}", download(good).state);
        let job = download(good).advance(DownloadReply::Body(vec![9]));
        assert_eq!(format!("{:?}", job.state), before);
    }
}

fn sign_in(good: usize) -> SignIn {
    let mut job = SignIn::new("Ana@Example.com", "SecretO", "http://localhost:6969");
    for _ in 0..good {
        job = job.advance(Ok(()));
    }
    job
}

#[test]
fn signing_in_takes_three_steps() {
    assert!(matches!(sign_in(0).state, SignInState::PrepareAnisette));
    assert!(matches!(sign_in(1).state, SignInState::LogIn));
    assert!(matches!(sign_in(2).state, SignInState::OpenSession));
    assert!(matches!(sign_in(3).state, SignInState::Finished(Ok(()))));
    let notices: Vec<Option<String>> = (0..4).map(|n| sign_in(n).notice()).collect();
    assert_eq!(
        notices,
        vec![
            Some("🔐 Autenticando Ana@Example.com…".to_string()),
            None,
            None,
            Some("✅ Autenticado".to_string())
        ]
    );
    assert_eq!(sign_in(3).settings.email, "ana@example.com");
    assert_eq!(sign_in(3).settings.password, "SecretO");
}

#[test]
fn one_lower_case_is_one_account() {
    let mut a = SignIn::new("ANA@example.com", "Pw", "url");
    let mut b = SignIn::new("ana@EXAMPLE.com", "Pw", "url");
    for outcome in [Ok(()), Ok(()), Err("x".to_string())] {
        assert_eq!(a.settings.email, b.settings.email);
        assert_eq!(a.settings.password, b.settings.password);
        assert_eq!(a.settings.anisette_url, b.settings.anisette_url);
        a = a.advance(outcome.clone());
        b = b.advance(outcome);
        assert_eq!(format!("{:?}", a.state), format!("{:?}", b.state));
    }
}

#[test]
fn signing_in_can_fail_at_each_step() {
    for good in 0..3 {
        match sign_in(good).advance(Err("x".to_string())).state {
            SignInState::Finished(Err(e)) => assert_eq!(e.message(), "Apple ID: x"),
            other => panic!("{other:?}"),
        }
    }
}

fn installation(ipa: &str, replies: Vec<InstallationReply>) -> (Installation, Vec<String>) {
    let mut job = Installation::new(ipa.to_string());
    let mut shown = Vec::new();
    shown.extend(job.notice());
    for reply in replies {
        job = job.advance(reply);
        shown.extend(job.notice());
    }
    (job, shown)
}

fn up_to_install(ipa: &str) -> Vec<InstallationReply> {
    vec![
        if ipa.starts_with("http") {
            InstallationReply::Stored { directory: "/tmp".to_string() }
        } else {
            InstallationReply::Exists
        },
        InstallationReply::Device("A".to_string()),
        InstallationReply::Done,
    ]
}

fn installation_error(ipa: &str, replies: Vec<InstallationReply>) -> String {
    match installation(ipa, replies).0.state {
        InstallationState::Finished(Err(e)) => e.message(),
        other => panic!("{other:?}"),
    }
}

#[test]
fn a_file_is_installed() {
    let (job, _) = installation("./MiApp.ipa", vec![]);
    assert!(matches!(job.state, InstallationState::Fetch(IpaSource::File)));
    let mut replies = up_to_install("./MiApp.ipa");
    replies.push(InstallationReply::Done);
    let (job, shown) = installation("./MiApp.ipa", replies);
    assert!(matches!(job.state, InstallationState::Finished(Ok(()))));
    assert_eq!(
        shown,
        vec![
            "📱 Dispositivo: A",
            "📦 Instalando ./MiApp.ipa…",
            "✅ Instalado.\n   Ajustes → General → VPN y gestión de dispositivos → Confiar",
        ]
    );
}

#[test]
fn the_chosen_file_goes_to_the_chosen_device() {
    match installation("./MiApp.ipa", up_to_install("./MiApp.ipa")).0.state {
        InstallationState::Install { path, udid } => {
            assert_eq!((path.as_str(), udid.as_str()), ("./MiApp.ipa", "A"));
            assert!(!Installation::new("./MiApp.ipa".to_string()).more_memory);
        }
        other => panic!("{other:?}"),
    }
}

#[test]
fn a_download_is_installed_and_deleted() {
    let url = "https://host/dir/App.ipa";
    let path = "/tmp/iloader_App.ipa";
    let mut replies = up_to_install(url);
    replies.push(InstallationReply::Done);
    let (job, _) = installation(url, replies);
    match &job.state {
        InstallationState::Delete { path: p } => assert_eq!(p, path),
        other => panic!("{other:?}"),
    }
    assert!(matches!(
        job.advance(InstallationReply::Failed("ignored".to_string())).state,
        InstallationState::Finished(Ok(()))
    ));
    let mut replies = up_to_install(url);
    replies.push(InstallationReply::Done);
    replies.push(InstallationReply::Done);
    let (job, shown) = installation(url, replies);
    assert!(matches!(job.state, InstallationState::Finished(Ok(()))));
    assert_eq!(
        shown,
        vec![
            "⬇️  Descargando App.ipa…",
            "📱 Dispositivo: A",
            "📦 Instalando /tmp/iloader_App.ipa…",
            "✅ Instalado.\n   Ajustes → General → VPN y gestión de dispositivos → Confiar",
        ]
    );
}

#[test]
fn an_installation_can_fail_at_each_step() {
    assert_eq!(
        installation_error("./No.ipa", vec![InstallationReply::Missing]),
        "E/S: Archivo no encontrado: ./No.ipa"
    );
    for good in 0..3 {
        let mut replies: Vec<InstallationReply> =
            up_to_install("https://h/a.ipa").into_iter().take(good).collect();
        replies.push(InstallationReply::JobFailed(CliError::Auth("x".to_string())));
        assert_eq!(installation_error("https://h/a.ipa", replies), "Apple ID: x");
    }
    let mut replies = up_to_install("https://h/a.ipa");
    replies.push(InstallationReply::Failed("x".to_string()));
    assert_eq!(installation_error("https://h/a.ipa", replies), "Sideloading: x");
}

#[test]
fn a_local_path_is_taken_as_given() {
    let (job, _) = installation("./a/../MiApp.ipa", vec![InstallationReply::Exists]);
    match job.state {
        InstallationState::SelectDevice { path } => assert_eq!(path, "./a/../MiApp.ipa"),
        other => panic!("{other:?}"),
    }
    let failed = InstallationReply::JobFailed(CliError::NoDevice);
    let (job, _) = installation("./MiApp.ipa", vec![failed]);
    assert!(matches!(job.state, InstallationState::Fetch(IpaSource::File)));
    let (job, _) = installation("./MiApp.ipa", vec![InstallationReply::Missing]);
    assert!(matches!(
        job.state,
        InstallationState::Finished(Err(CliError::Io(IoKind::NotFound, _)))
    ));
}

#[test]
fn a_download_lies_in_its_directory() {
    for (directory, expected) in [("/tmp", "/tmp/iloader_a.ipa"), ("/t/", "/t/iloader_a.ipa")] {
        let stored = InstallationReply::Stored { directory: directory.to_string() };
        match installation("https://h/a.ipa", vec![stored]).0.state {
            InstallationState::SelectDevice { path } => assert_eq!(path, expected),
            other => panic!("{other:?}"),
        }
    }
    let (job, _) = installation("https://h/a.ipa", vec![InstallationReply::Exists]);
    assert!(matches!(job.state, InstallationState::Fetch(IpaSource::Download { .. })));
}

#[test]
fn only_files_can_be_missing() {
    let (job, _) = installation("https://h/a.ipa", vec![InstallationReply::Missing]);
    assert!(matches!(job.state, InstallationState::Fetch(IpaSource::Download { .. })));
}

fn sidestore(nightly: bool, live_container: bool, replies: Vec<SidestoreReply>) -> (Sidestore, Vec<String>) {
    let mut job = Sidestore::new(nightly, live_container);
    let mut shown = job.notice();
    for reply in replies {
        job = job.advance(reply);
        shown.extend(job.notice());
    }
    (job, shown)
}

fn up_to_pairing() -> Vec<SidestoreReply> {
    vec![
        SidestoreReply::Done,
        SidestoreReply::Device("A".to_string()),
        SidestoreReply::Done,
        SidestoreReply::Done,
        SidestoreReply::Failed("ignored".to_string()),
    ]
}

#[test]
fn sidestore_is_installed_and_paired() {
    let mut replies = up_to_pairing();
    replies.push(SidestoreReply::Done);
    let (job, shown) = sidestore(false, false, replies);
    assert!(matches!(job.state, SidestoreState::Finished(Ok(SidestoreEnd::Paired))));
    assert_eq!(
        shown,
        vec![
            "⬇️  Descargando SideStore…",
            "✅ Descarga completa",
            "📱 Dispositivo: A",
            "📦 Instalando SideStore…",
            "✅ IPA instalado",
            "🔗 Colocando pairing file en SideStore…",
            "✅ Pairing colocado",
            "\n🎉 Listo.\n   Ajustes → General → VPN y gestión de dispositivos → Confiar",
        ]
    );
}

#[test]
fn sidestore_without_pairing_is_still_installed() {
    let (job, _) = sidestore(true, true, up_to_pairing());
    assert!(matches!(&job.state, SidestoreState::PlacePairing { udid } if udid == "A"));
    let job = job.advance(SidestoreReply::JobFailed(CliError::Device("x".to_string())));
    assert!(matches!(
        &job.state,
        SidestoreState::Finished(Ok(SidestoreEnd::NotPaired(CliError::Device(_))))
    ));
    assert_eq!(
        job.notice(),
        vec![
            "⚠️  Pairing automático falló: Dispositivo: x",
            "   Ejecuta después: iloader pairing --app livecont",
            "\n🎉 Listo.\n   Ajustes → General → VPN y gestión de dispositivos → Confiar",
        ]
    );
}

#[test]
fn sidestore_can_fail_until_it_is_installed() {
    for good in 0..3 {
        let mut replies: Vec<SidestoreReply> = up_to_pairing().into_iter().take(good).collect();
        replies.push(SidestoreReply::JobFailed(CliError::NoDevice));
        let (job, _) = sidestore(false, false, replies);
        assert!(matches!(job.state, SidestoreState::Finished(Err(CliError::NoDevice))));
    }
    let mut replies: Vec<SidestoreReply> = up_to_pairing().into_iter().take(3).collect();
    replies.push(SidestoreReply::Failed("x".to_string()));
    match sidestore(false, false, replies).0.state {
        SidestoreState::Finished(Err(e)) => assert_eq!(e.message(), "Sideloading: x"),
        other => panic!("{other:?}"),
    }
}

fn account(task: AccountTask, replies: Vec<AccountReply>) -> (Account, Vec<String>) {
    let mut job = Account::new(task);
    let mut shown = Vec::new();
    for reply in replies {
        let (next, lines) = job.advance(reply);
        job = next;
        shown.extend(lines);
    }
    (job, shown)
}

#[test]
fn certificates_are_shown() {
    let cert = Certificate { serial_number: Some("AB".to_string()), name: None, machine_name: None };
    let (job, shown) = account(
        AccountTask::Certificates,
        vec![AccountReply::Done, AccountReply::Done, AccountReply::Certificates(vec![cert])],
    );
    assert!(matches!(job.state, AccountState::Finished(Ok(()))));
    assert_eq!(shown, vec!["Certificados (1):\n", "  Serial:  AB\n  Nombre:  ?\n  Máquina: ?\n"]);
}

#[test]
fn a_certificate_is_revoked() {
    let (job, shown) = account(
        AccountTask::Revoke("AB".to_string()),
        vec![AccountReply::Done, AccountReply::Done, AccountReply::Done],
    );
    assert!(matches!(job.state, AccountState::Finished(Ok(()))));
    assert_eq!(shown, vec!["✅ Certificado AB revocado"]);
}

#[test]
fn app_ids_are_shown() {
    let list = AppIdList {
        items: vec!["AppId { a }".to_string(), "AppId { b }".to_string()],
        max_quantity: Some(10),
        available_quantity: Some(8),
    };
    let (job, shown) = account(
        AccountTask::AppIds,
        vec![AccountReply::Done, AccountReply::Done, AccountReply::AppIds(list)],
    );
    assert!(matches!(job.state, AccountState::Finished(Ok(()))));
    assert_eq!(
        shown,
        vec!["App IDs (2 de 10 slots, 8 disponibles):\n", "AppId { a }", "AppId { b }"]
    );
}

#[test]
fn an_account_can_fail_at_each_step() {
    let (job, _) =
        account(AccountTask::AppIds, vec![AccountReply::JobFailed(CliError::Auth("x".to_string()))]);
    assert!(matches!(job.state, AccountState::Finished(Err(CliError::Auth(_)))));
    for good in 1..3 {
        let mut replies: Vec<AccountReply> = (0..good).map(|_| AccountReply::Done).collect();
        replies.push(AccountReply::Failed("x".to_string()));
        let (job, shown) = account(AccountTask::Certificates, replies);
        match job.state {
            AccountState::Finished(Err(e)) => assert_eq!(e.message(), "Apple ID: x"),
            other => panic!("{other:?}"),
        }
        assert_eq!(shown, Vec::<String>::new());
    }
}

#[test]
fn an_answer_to_another_question_is_no_answer() {
    let (job, shown) = account(
        AccountTask::Certificates,
        vec![AccountReply::Certificates(vec![]), AccountReply::Done, AccountReply::Done, AccountReply::Done],
    );
    assert!(matches!(job.state, AccountState::Perform));
    assert_eq!(shown, Vec::<String>::new());
}
