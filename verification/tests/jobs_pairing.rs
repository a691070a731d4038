use idevice::remote_pairing::RpPairingFile;
use iloader::device::{Connection, Device};
use iloader::documents::{lockdown_document, lockdown_pairing, PairRecord};
use iloader::error::CliError;
use iloader::jobs::file_placement::{FilePlacement, FilePlacementState, OpenMode};
use iloader::jobs::pairing_bytes::{PairingBytes, PairingBytesReply, PairingBytesState};
use iloader::jobs::pairing_command::{PairingCommand, PairingCommandReply, PairingCommandState, PairingEnd};
use iloader::jobs::placement::{Placement, PlacementReply, PlacementState};
use iloader::jobs::remote_pairing::{
    service_port, RemotePairing, RemotePairingReply, RemotePairingState, Service,
};
use iloader::pairing_apps::InstalledApp;
use iloader::requests::{HOST_NAME, PAIRING_PIN, TUNNEL_SERVICE, USER_APPS};
use plist::Value;

fn record() -> PairRecord {
    PairRecord {
        device_certificate: vec![1],
        host_private_key: vec![2],
        host_certificate: vec![3],
        root_private_key: vec![4],
        root_certificate: vec![5],
        system_buid: "BUID".to_string(),
        host_id: "HOST".to_string(),
        escrow_bag: None,
        wifi_mac_address: "aa:bb".to_string(),
        udid: None,
    }
}

fn devices() -> Vec<Device> {
    ["A", "B"].iter().map(|u| Device { udid: u.to_string(), connection: Connection::Usb }).collect()
}

fn failed(text: &str) -> PairingBytesReply {
    PairingBytesReply::Failed(text.to_string())
}

fn version(v: &str) -> PairingBytesReply {
    PairingBytesReply::Version(Value::String(v.to_string()))
}

/// The replies that bring a job to the question for the version.
fn up_to_version() -> Vec<PairingBytesReply> {
    vec![
        PairingBytesReply::Done,
        PairingBytesReply::Record(record()),
        PairingBytesReply::Devices(devices()),
        PairingBytesReply::Done,
        PairingBytesReply::Done,
        PairingBytesReply::Done,
        PairingBytesReply::Done,
    ]
}

fn pairing(udid: &str, replies: Vec<PairingBytesReply>) -> PairingBytes {
    let mut job = PairingBytes::new(udid.to_string());
    for reply in replies {
        job = job.advance(reply);
    }
    job
}

fn with(mut replies: Vec<PairingBytesReply>, more: PairingBytesReply) -> Vec<PairingBytesReply> {
    replies.push(more);
    replies
}

fn document(job: PairingBytes) -> Vec<u8> {
    match job.state {
        PairingBytesState::Finished(Ok(document)) => document,
        other => panic!("{other:?}"),
    }
}

fn pairing_error(udid: &str, replies: Vec<PairingBytesReply>) -> String {
    match pairing(udid, replies).state {
        PairingBytesState::Finished(Err(e)) => e.message(),
        other => panic!("{other:?}"),
    }
}

#[test]
fn a_pairing_goes_through_its_states() {
    let mut job = PairingBytes::new("B".to_string());
    assert!(matches!(job.state, PairingBytesState::Connect));
    job = job.advance(PairingBytesReply::Done);
    assert!(matches!(job.state, PairingBytesState::ReadRecord));
    job = job.advance(PairingBytesReply::Record(record()));
    match &job.state {
        PairingBytesState::ListDevices { record } => assert_eq!(record.udid.as_deref(), Some("B")),
        other => panic!("{other:?}"),
    }
    job = job.advance(PairingBytesReply::Devices(devices()));
    assert!(matches!(job.state, PairingBytesState::ResolveAddress { index: 1, .. }));
    job = job.advance(PairingBytesReply::Done);
    assert!(matches!(job.state, PairingBytesState::ConnectLockdown { .. }));
    job = job.advance(PairingBytesReply::Done);
    assert!(matches!(job.state, PairingBytesState::StartSession { .. }));
    job = job.advance(PairingBytesReply::Done);
    assert!(matches!(job.state, PairingBytesState::EnableWifiDebugging { .. }));
    assert_eq!(job.wifi_key, "EnableWifiDebugging");
    assert_eq!(job.wifi_domain, "com.apple.mobile.wireless_lockdown");
    assert_eq!((job.label, job.version_key), ("iloader", "ProductVersion"));
    job = job.advance(failed("ignored"));
    assert!(matches!(job.state, PairingBytesState::ReadVersion { .. }));
}

#[test]
fn below_17_4_the_lockdown_document_is_all() {
    let expected = lockdown_pairing(&lockdown_document(record(), "A").unwrap()).unwrap();
    for reply in [version("17.3.1"), version("16.0"), failed("no answer"), version(""), PairingBytesReply::Version(Value::Boolean(true))] {
        let job = pairing("A", with(up_to_version(), reply));
        assert_eq!(job.notice(), None);
        assert_eq!(document(job), expected);
    }
}

#[test]
fn from_17_4_on_a_remote_pairing_comes_next() {
    for v in ["17.4", "18.1"] {
        let job = pairing("A", with(up_to_version(), version(v)));
        assert_eq!(job.notice().as_deref(), Some("   Si el iPhone muestra un diálogo, pulsa Confiar."));
        assert!(matches!(&job.state, PairingBytesState::PairRemotely { host, .. } if host == "iloader"));
        let file = RpPairingFile::generate(HOST_NAME);
        let identifier = file.identifier.clone();
        let bytes = document(job.advance(PairingBytesReply::Paired(file)));
        let value = Value::from_reader_xml(bytes.as_slice()).unwrap();
        let d = value.as_dictionary().unwrap();
        assert_eq!(d.get("UDID"), Some(&Value::String("A".to_string())));
        assert_eq!(d.get("HostID"), Some(&Value::String("HOST".to_string())));
        assert_eq!(d.get("identifier"), Some(&Value::String(identifier)));
    }
}

#[test]
fn a_pairing_can_fail_at_each_step() {
    let words = [
        "usbmuxd: x",
        "Pairing: get_pair_record: x",
        "usbmuxd: x",
        "usbmuxd: x",
        "Pairing: lockdown: x",
        "Pairing: start_session: x",
    ];
    for (n, expected) in words.iter().enumerate() {
        let replies: Vec<PairingBytesReply> = up_to_version().into_iter().take(n).collect();
        assert_eq!(pairing_error("A", with(replies, failed("x"))), *expected);
    }
    let replies = with(up_to_version(), version("17.4"));
    assert_eq!(pairing_error("A", with(replies, failed("x"))), "Pairing: x");
}

#[test]
fn a_pairing_needs_a_connected_device() {
    let replies: Vec<PairingBytesReply> = up_to_version().into_iter().take(3).collect();
    assert_eq!(pairing_error("C", replies), "UDID 'C' no encontrado");
}

fn service(name: &str, port: u16) -> Service {
    Service { name: name.to_string(), port }
}

#[test]
fn services_are_found_by_name() {
    let services = vec![service("a", 1), service("b", 2), service("a", 3)];
    assert_eq!(service_port(&services, "a"), Some(1));
    assert_eq!(service_port(&services, "b"), Some(2));
    assert_eq!(service_port(&services, "c"), None);
}

#[test]
fn the_order_of_services_does_not_count() {
    let there = vec![service("a", 1), service(TUNNEL_SERVICE, 2)];
    let back = vec![service(TUNNEL_SERVICE, 2), service("a", 1)];
    assert_eq!(service_port(&there, TUNNEL_SERVICE), service_port(&back, TUNNEL_SERVICE));
}

fn discovered(services: Vec<Service>) -> RemotePairing {
    let job = RemotePairing::new("my-host".to_string());
    assert!(matches!(job.state, RemotePairingState::ConnectProxy));
    let job = job.advance(RemotePairingReply::Proxy { discovery: 5000 });
    assert!(matches!(job.state, RemotePairingState::CreateTunnel { discovery: 5000 }));
    let job = job.advance(RemotePairingReply::Done);
    assert!(matches!(job.state, RemotePairingState::ConnectDiscovery { discovery: 5000 }));
    let job = job.advance(RemotePairingReply::Done);
    assert!(matches!(job.state, RemotePairingState::Discover));
    job.advance(RemotePairingReply::Services(services))
}

#[test]
fn a_remote_pairing_takes_two_rounds() {
    let mut job = discovered(vec![service("x", 1), service(TUNNEL_SERVICE, 6001)]);
    let first = match &job.state {
        RemotePairingState::ConnectService(round) => {
            assert_eq!((round.port, round.number), (6001, 0));
            round.pairing.clone()
        }
        other => panic!("{other:?}"),
    };
    assert_eq!(first.identifier, RpPairingFile::generate("my-host").identifier);
    for number in 0..2 {
        assert!(matches!(&job.state, RemotePairingState::ConnectService(r) if r.number == number));
        job = job.advance(RemotePairingReply::Done);
        assert!(matches!(&job.state, RemotePairingState::OpenClient(r) if r.number == number));
        job = job.advance(RemotePairingReply::Done);
        assert!(matches!(&job.state, RemotePairingState::ShakeHands(r) if r.number == number));
        job = job.advance(RemotePairingReply::Done);
        assert!(matches!(&job.state, RemotePairingState::ReceiveFirst(r) if r.number == number));
        let first_message = if number == 0 {
            RemotePairingReply::Done
        } else {
            RemotePairingReply::Failed("ignored".to_string())
        };
        job = job.advance(first_message);
        let mut file = match &job.state {
            RemotePairingState::Pair(round) => {
                assert_eq!((round.port, round.number), (6001, number));
                assert_eq!((round.host.as_str(), round.pin.as_str()), ("my-host", "000000"));
                round.pairing.clone()
            }
            other => panic!("{other:?}"),
        };
        file.identifier = format!("{}+", file.identifier);
        job = job.advance(RemotePairingReply::Paired(file));
    }
    match job.state {
        RemotePairingState::Finished(Ok(file)) => {
            assert_eq!(file.identifier, format!("{}++", first.identifier));
            assert_eq!(file.public_key_bytes(), first.public_key_bytes());
        }
        other => panic!("{other:?}"),
    }
}

#[test]
fn without_the_tunnel_service_no_pairing_is_made() {
    match discovered(vec![service("x", 1)]).state {
        RemotePairingState::Finished(Err(words)) => assert_eq!(words, "internal error"),
        other => panic!("{other:?}"),
    }
}

#[test]
fn a_remote_pairing_can_fail_at_each_step() {
    let good = |n: usize| match n {
        0 => RemotePairingReply::Proxy { discovery: 1 },
        3 => RemotePairingReply::Services(vec![service(TUNNEL_SERVICE, 2)]),
        8 => RemotePairingReply::Paired(RpPairingFile::generate("h")),
        _ => RemotePairingReply::Done,
    };
    for n in [0, 1, 2, 3, 4, 5, 6, 8, 9] {
        let mut job = RemotePairing::new("h".to_string());
        for i in 0..n {
            job = job.advance(good(i));
        }
        match job.advance(RemotePairingReply::Failed("x".to_string())).state {
            RemotePairingState::Finished(Err(words)) => assert_eq!(words, "x", "{n}"),
            other => panic!("{n}: {other:?}"),
        }
    }
}

#[test]
fn a_pairing_is_answered_with_fixed_words() {
    assert_eq!((HOST_NAME, PAIRING_PIN, USER_APPS), ("iloader", "000000", "User"));
}

fn file_job(path: &str, good: usize) -> FilePlacement {
    let mut job = FilePlacement::new("com.app".to_string(), path.to_string(), vec![1, 2, 3]);
    for _ in 0..good {
        job = job.advance(Ok(()));
    }
    job
}

#[test]
fn a_file_is_placed_in_six_steps() {
    let path = "SideStore/Documents/ALTPairingFile.mobiledevicepairing";
    assert!(matches!(file_job(path, 0).state, FilePlacementState::Connect));
    assert!(matches!(file_job(path, 1).state, FilePlacementState::VendDocuments));
    match file_job(path, 2).state {
        FilePlacementState::MakeDirectory(d) => assert_eq!(d, "/Documents/SideStore/Documents"),
        other => panic!("{other:?}"),
    }
    match file_job(path, 3).state {
        FilePlacementState::Open { path, mode } => {
            assert_eq!(path, "/Documents/SideStore/Documents/ALTPairingFile.mobiledevicepairing");
            assert_eq!(mode, OpenMode::Wr);
        }
        other => panic!("{other:?}"),
    }
    assert!(matches!(file_job(path, 4).state, FilePlacementState::Write));
    assert_eq!(file_job(path, 4).document, vec![1, 2, 3]);
    assert!(matches!(file_job(path, 5).state, FilePlacementState::Close));
    assert!(matches!(file_job(path, 6).state, FilePlacementState::Finished(Ok(()))));
    assert_eq!(file_job(path, 6).bundle_id, "com.app");
}

#[test]
fn placing_a_file_can_fail_at_each_step() {
    let words = ["HouseArrest: x", "vend_documents: x", "mk_dir: x", "open: x", "write: x", "close: x"];
    for (good, expected) in words.iter().enumerate() {
        match file_job("f", good).advance(Err("x".to_string())).state {
            FilePlacementState::Finished(Err(e)) => assert_eq!(e.message(), format!("Pairing: {expected}")),
            other => panic!("{other:?}"),
        }
    }
}

fn app(bundle_id: &str) -> InstalledApp {
    InstalledApp { bundle_id: bundle_id.to_string(), info: Value::Boolean(false) }
}

fn placement(key: &str, replies: Vec<PlacementReply>) -> Placement {
    let mut job = Placement::new("A".to_string(), key);
    for reply in replies {
        job = job.advance(reply);
    }
    job
}

fn placement_error(key: &str, replies: Vec<PlacementReply>) -> String {
    match placement(key, replies).state {
        PlacementState::Finished(Err(e)) => e.message(),
        other => panic!("{other:?}"),
    }
}

#[test]
fn a_document_goes_to_the_named_app() {
    let job = placement(
        "stikdebug",
        vec![
            PlacementReply::Document(vec![7, 8]),
            PlacementReply::Done,
            PlacementReply::Done,
            PlacementReply::Apps(vec![app("com.other"), app("com.stik.stikdebug.T")]),
        ],
    );
    match &job.state {
        PlacementState::PlaceFile { document, bundle_id, path } => {
            assert_eq!(document, &vec![7, 8]);
            assert_eq!((bundle_id.as_str(), path.as_str()), ("com.stik.stikdebug.T", "pairingFile.plist"));
        }
        other => panic!("{other:?}"),
    }
    let job = job.advance(PlacementReply::Done);
    assert!(matches!(job.state, PlacementState::Finished(Ok(()))));
    assert_eq!((job.udid.as_str(), job.app_sort), ("A", "User"));
}

#[test]
fn placing_can_fail_at_each_step() {
    assert!(placement_error("nope", vec![]).starts_with("App 'nope' desconocida. Opciones: sidestore, "));
    let made = || PlacementReply::Document(vec![1]);
    let job_failed = || PlacementReply::JobFailed(CliError::Usbmuxd("x".to_string()));
    let fails = || PlacementReply::Failed("x".to_string());
    assert_eq!(placement_error("antrag", vec![job_failed()]), "usbmuxd: x");
    assert_eq!(placement_error("antrag", vec![made(), job_failed()]), "usbmuxd: x");
    assert_eq!(placement_error("antrag", vec![made(), PlacementReply::Done, fails()]), "Dispositivo: x");
    assert_eq!(
        placement_error("antrag", vec![made(), PlacementReply::Done, PlacementReply::Done, fails()]),
        "Dispositivo: x"
    );
    let none = PlacementReply::Apps(vec![app("com.other")]);
    assert_eq!(
        placement_error("antrag", vec![made(), PlacementReply::Done, PlacementReply::Done, none]),
        "Dispositivo: 'Antrag' no está instalado. Instálalo primero."
    );
    let found = PlacementReply::Apps(vec![app("antrag")]);
    assert_eq!(
        placement_error(
            "antrag",
            vec![made(), PlacementReply::Done, PlacementReply::Done, found, job_failed()]
        ),
        "usbmuxd: x"
    );
}

fn command(export: Option<&str>, replies: Vec<PairingCommandReply>) -> (PairingCommand, Vec<String>) {
    let mut job = PairingCommand::new("feather".to_string(), export.map(|e| e.to_string()));
    let mut shown = job.notice();
    for reply in replies {
        job = job.advance(reply);
        shown.extend(job.notice());
    }
    (job, shown)
}

fn generated() -> Vec<PairingCommandReply> {
    vec![
        PairingCommandReply::Device("A".to_string()),
        PairingCommandReply::Document(vec![0; 1234]),
    ]
}

#[test]
fn a_pairing_is_exported() {
    let mut replies = generated();
    replies.push(PairingCommandReply::Done);
    let (job, shown) = command(Some("~/pairing.plist"), replies);
    assert!(matches!(job.state, PairingCommandState::Finished(Ok(PairingEnd::Exported))));
    assert_eq!(
        shown,
        vec![
            "🔗 Generando pairing para A…",
            "   (Si el iPhone muestra un diálogo, pulsa Confiar)",
            "✅ Pairing generado (1234 bytes)",
            "💾 Guardado en ~/pairing.plist",
        ]
    );
}

#[test]
fn a_pairing_is_placed() {
    let (job, _) = command(None, generated());
    match &job.state {
        PairingCommandState::Place { udid, size } => assert_eq!((udid.as_str(), *size), ("A", 1234)),
        other => panic!("{other:?}"),
    }
    let mut replies = generated();
    replies.push(PairingCommandReply::Done);
    let (job, shown) = command(None, replies);
    assert!(matches!(job.state, PairingCommandState::Finished(Ok(PairingEnd::Placed))));
    assert_eq!(
        shown,
        vec![
            "🔗 Generando pairing para A…",
            "   (Si el iPhone muestra un diálogo, pulsa Confiar)",
            "✅ Pairing generado (1234 bytes)",
            "✅ Pairing colocado en 'feather'",
        ]
    );
}

#[test]
fn what_is_exported_is_what_was_made() {
    match command(Some("f"), generated()).0.state {
        PairingCommandState::Export { document } => assert_eq!(document, vec![0; 1234]),
        other => panic!("{other:?}"),
    }
}

#[test]
fn the_pairing_command_can_fail_at_each_step() {
    let job_failed = || PairingCommandReply::JobFailed(CliError::NoDevice);
    for (export, good) in [(None, 0), (None, 1), (None, 2)] {
        let mut replies: Vec<PairingCommandReply> = generated().into_iter().take(good).collect();
        replies.push(job_failed());
        let (job, _) = command(export, replies);
        assert!(matches!(job.state, PairingCommandState::Finished(Err(CliError::NoDevice))));
    }
    let mut replies = generated();
    replies.push(PairingCommandReply::Failed("lleno".to_string()));
    match command(Some("f"), replies).0.state {
        PairingCommandState::Finished(Err(e)) => assert_eq!(e.message(), "E/S: lleno"),
        other => panic!("{other:?}"),
    }
}
