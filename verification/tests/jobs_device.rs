use iloader::device::{Answers, Connection, Device};
use iloader::error::CliError;
use iloader::jobs::listing::{Listing, ListingReply, ListingState};
use iloader::jobs::selection::{Selection, SelectionReply, SelectionState};
use plist::Value;

fn device(udid: &str) -> Device {
    Device { udid: udid.to_string(), connection: Connection::Usb }
}

fn failed(text: &str) -> SelectionReply {
    SelectionReply::Failed(text.to_string())
}

fn selection(udid: Option<&str>, replies: Vec<SelectionReply>) -> Selection {
    let mut job = Selection::new(udid.map(|u| u.to_string()));
    for reply in replies {
        job = job.advance(reply);
    }
    job
}

fn selection_error(udid: Option<&str>, replies: Vec<SelectionReply>) -> String {
    match selection(udid, replies).state {
        SelectionState::Finished(Err(e)) => e.message(),
        other => panic!("{other:?}"),
    }
}

#[test]
fn a_device_is_selected_in_three_steps() {
    let job = Selection::new(Some("B".to_string()));
    assert_eq!(job.label, "iloader");
    assert!(matches!(job.state, SelectionState::Connect));
    let job = job.advance(SelectionReply::Done);
    assert!(matches!(job.state, SelectionState::ListDevices));
    let job = job.advance(SelectionReply::Devices(vec![device("A"), device("B")]));
    match &job.state {
        SelectionState::ResolveAddress(chosen) => assert_eq!((chosen.index, chosen.udid.as_str()), (1, "B")),
        other => panic!("{other:?}"),
    }
    match job.advance(SelectionReply::Done).state {
        SelectionState::Finished(Ok(chosen)) => {
            assert_eq!((chosen.index, chosen.udid.as_str(), chosen.notice), (1, "B", None))
        }
        other => panic!("{other:?}"),
    }
}

#[test]
fn usbmuxd_can_fail_at_each_step_of_a_selection() {
    assert_eq!(selection_error(None, vec![failed("a")]), "usbmuxd: a");
    assert_eq!(selection_error(None, vec![SelectionReply::Done, failed("b")]), "usbmuxd: b");
    assert_eq!(
        selection_error(
            None,
            vec![SelectionReply::Done, SelectionReply::Devices(vec![device("A")]), failed("c")]
        ),
        "usbmuxd: c"
    );
}

#[test]
fn a_selection_can_find_nothing() {
    let none = vec![SelectionReply::Done, SelectionReply::Devices(vec![])];
    assert_eq!(
        selection_error(None, none),
        "No hay dispositivos conectados. Conecta el iPhone y pulsa 'Confiar'."
    );
    let other = vec![SelectionReply::Done, SelectionReply::Devices(vec![device("A")])];
    assert_eq!(selection_error(Some("B"), other), "UDID 'B' no encontrado");
}

#[test]
fn a_reply_that_does_not_fit_changes_nothing() {
    let job = selection(None, vec![SelectionReply::Devices(vec![device("A")])]);
    assert!(matches!(job.state, SelectionState::Connect));
    let job = selection(None, vec![failed("a"), SelectionReply::Done]);
    assert!(matches!(job.state, SelectionState::Finished(Err(CliError::Usbmuxd(_)))));
}

fn list(replies: Vec<ListingReply>) -> (Listing, Vec<String>) {
    let mut job = Listing::new();
    let mut shown = Vec::new();
    for reply in replies {
        let (next, line) = job.advance(reply);
        job = next;
        shown.extend(line);
    }
    (job, shown)
}

#[test]
fn every_device_is_listed_in_order() {
    let named = Answers {
        name: Some(Value::String("iPhone".to_string())),
        version: Some(Value::String("17.4".to_string())),
    };
    let network = Device { udid: "B".to_string(), connection: Connection::Network };
    let (job, shown) = list(vec![
        ListingReply::Done,
        ListingReply::Devices(vec![device("A"), network]),
        ListingReply::Done,
        ListingReply::Answered(Some(named)),
        ListingReply::Answered(None),
    ]);
    assert!(matches!(job.state, ListingState::Finished(Ok(()))));
    assert_eq!((job.label, job.name_key, job.version_key), ("iloader", "DeviceName", "ProductVersion"));
    assert_eq!(
        shown,
        vec![
            "Dispositivos encontrados:\n",
            "  📱 iPhone  (iOS 17.4)\n     UDID: A\n     Tipo: USB\n",
            "  📱 Desconocido  (iOS ?)\n     UDID: B\n     Tipo: Red\n",
        ]
    );
}

#[test]
fn no_devices_are_said_to_be_none() {
    let (job, shown) = list(vec![ListingReply::Done, ListingReply::Devices(vec![])]);
    assert!(matches!(job.state, ListingState::Finished(Ok(()))));
    assert_eq!(shown, vec!["Sin dispositivos. Conecta el iPhone y pulsa 'Confiar'."]);
}

#[test]
fn usbmuxd_can_fail_at_each_step_of_a_listing() {
    let failed = |t: &str| ListingReply::Failed(t.to_string());
    for replies in [
        vec![failed("x")],
        vec![ListingReply::Done, failed("x")],
        vec![ListingReply::Done, ListingReply::Devices(vec![device("A")]), failed("x")],
    ] {
        let (job, shown) = list(replies);
        match job.state {
            ListingState::Finished(Err(e)) => assert_eq!(e.message(), "usbmuxd: x"),
            other => panic!("{other:?}"),
        }
        assert_eq!(shown, Vec::<String>::new());
    }
}

#[test]
fn a_listing_past_its_devices_ends() {
    let mut job = Listing::new();
    job.state = ListingState::Inspect { devices: vec![device("A")], next: 1 };
    let (job, shown) = job.advance(ListingReply::Answered(None));
    assert!(matches!(job.state, ListingState::Finished(Ok(()))));
    assert_eq!(shown, None);
}

#[test]
fn an_answer_that_is_not_asked_for_shows_nothing() {
    let (job, shown) = list(vec![ListingReply::Answered(None), ListingReply::Done, ListingReply::Done]);
    assert!(matches!(job.state, ListingState::ListDevices));
    assert_eq!(shown, Vec::<String>::new());
}
