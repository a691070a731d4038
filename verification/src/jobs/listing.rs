//! Listing the connected devices.

use vstd::prelude::*;
use vstd::string::*;

use crate::device;
use crate::device::{Answers, Device};
use crate::error;
use crate::error::{CliError, ErrorKind, ErrorView};
use crate::requests;

verus! {

/// What has to be done next.
#[derive(Debug)]
pub enum ListingState {
    /// Connect to usbmuxd.
    Connect,
    /// Ask for the connected devices.
    ListDevices,
    /// Find the address of usbmuxd.
    ResolveAddress(Vec<Device>),
    /// Ask the device at place `next` for its name and version.
    Inspect { devices: Vec<Device>, next: usize },
    Finished(Result<(), CliError>),
}

/// What came of it.
#[derive(Debug)]
pub enum ListingReply {
    Done,
    Failed(String),
    Devices(Vec<Device>),
    /// What a device answered; `None` where it could not be asked.
    Answered(Option<Answers>),
}

/// The listing of the connected devices.
#[derive(Debug)]
pub struct Listing {
    /// The name under which the devices are connected to.
    pub label: &'static str,
    /// The key of the question for a device's name.
    pub name_key: &'static str,
    /// The key of the question for a device's version.
    pub version_key: &'static str,
    pub state: ListingState,
}

/// Whether the device that is asked next is one of the list. So it is in every job that comes
/// from a new one.
pub open spec fn well_formed(job: Listing) -> bool {
    match job.state {
        ListingState::ResolveAddress(devices) => devices@.len() > 0,
        ListingState::Inspect { devices, next } => next < devices@.len(),
        _ => true,
    }
}

/// Whether the job ended in the given failure.
pub open spec fn failed_with(job: Listing, e: ErrorView) -> bool {
    job.state matches ListingState::Finished(Err(x)) && x@ == e
}

/// How a reply changes the job, and what is shown.
pub open spec fn listing_step(
    before: Listing,
    reply: ListingReply,
    after: Listing,
    shown: Option<Seq<char>>,
) -> bool {
    &&& after.label == before.label
    &&& after.name_key == before.name_key
    &&& after.version_key == before.version_key
    &&& match (before.state, reply) {
        (ListingState::Connect, ListingReply::Done) => {
            &&& after.state == ListingState::ListDevices
            &&& shown is None
        },
        (ListingState::ListDevices, ListingReply::Devices(devices)) => if devices@.len() == 0 {
            &&& after.state == ListingState::Finished(Ok(()))
            &&& shown == Some("Sin dispositivos. Conecta el iPhone y pulsa 'Confiar'."@)
        } else {
            &&& after.state == ListingState::ResolveAddress(devices)
            &&& shown is None
        },
        (ListingState::ResolveAddress(devices), ListingReply::Done) => {
            &&& after.state == ListingState::Inspect { devices, next: 0 }
            &&& shown == Some("Dispositivos encontrados:\n"@)
        },
        (ListingState::Inspect { devices, next }, ListingReply::Answered(answers)) => if next
            >= devices@.len() {
            &&& after.state == ListingState::Finished(Ok(()))
            &&& shown is None
        } else {
            &&& after.state == if next + 1 == devices@.len() {
                ListingState::Finished(Ok(()))
            } else {
                ListingState::Inspect { devices, next: (next + 1) as usize }
            }
            &&& shown == Some(device::device_lines(devices@[next as int], answers))
        },
        (ListingState::Connect, ListingReply::Failed(text)) => {
            &&& failed_with(after, error::failure(ErrorKind::Usbmuxd, text@))
            &&& shown is None
        },
        (ListingState::ListDevices, ListingReply::Failed(text)) => {
            &&& failed_with(after, error::failure(ErrorKind::Usbmuxd, text@))
            &&& shown is None
        },
        (ListingState::ResolveAddress(_), ListingReply::Failed(text)) => {
            &&& failed_with(after, error::failure(ErrorKind::Usbmuxd, text@))
            &&& shown is None
        },
        _ => {
            &&& after.state == before.state
            &&& shown is None
        },
    }
}

impl Listing {
    pub fn new() -> (job: Listing)
        ensures
            job.label@ == requests::HOST_NAME@,
            job.name_key@ == requests::DEVICE_NAME_KEY@,
            job.version_key@ == requests::VERSION_KEY@,
            job.state == ListingState::Connect,
            well_formed(job),
    {
        Listing {
            label: requests::HOST_NAME,
            name_key: requests::DEVICE_NAME_KEY,
            version_key: requests::VERSION_KEY,
            state: ListingState::Connect,
        }
    }

    /// Goes on after a reply. The second part of the result is what is shown.
    pub fn advance(self, reply: ListingReply) -> (r: (Listing, Option<String>))
        ensures
            well_formed(self) ==> well_formed(r.0),
            listing_step(self, reply, r.0, device::text_of(r.1)),
    {
        let Listing { label, name_key, version_key, state } = self;
        let mut shown: Option<String> = None;
        let state = match (state, reply) {
            (ListingState::Connect, ListingReply::Done) => ListingState::ListDevices,
            (ListingState::ListDevices, ListingReply::Devices(devices)) => {
                if devices.len() == 0 {
                    shown = Some(
                        "Sin dispositivos. Conecta el iPhone y pulsa 'Confiar'.".to_owned(),
                    );
                    ListingState::Finished(Ok(()))
                } else {
                    ListingState::ResolveAddress(devices)
                }
            },
            (ListingState::ResolveAddress(devices), ListingReply::Done) => {
                shown = Some("Dispositivos encontrados:\n".to_owned());
                ListingState::Inspect { devices, next: 0 }
            },
            (ListingState::Inspect { devices, next }, ListingReply::Answered(answers)) => {
                let count: usize = devices.len();
                if next >= count {
                    ListingState::Finished(Ok(()))
                } else {
                    shown = Some(device::device_report(&devices[next], &answers));
                    if next + 1 == count {
                        ListingState::Finished(Ok(()))
                    } else {
                        ListingState::Inspect { devices, next: next + 1 }
                    }
                }
            },
            (ListingState::Connect, ListingReply::Failed(text)) => ListingState::Finished(
                Err(CliError::Usbmuxd(text)),
            ),
            (ListingState::ListDevices, ListingReply::Failed(text)) => ListingState::Finished(
                Err(CliError::Usbmuxd(text)),
            ),
            (ListingState::ResolveAddress(_), ListingReply::Failed(text)) =>
                ListingState::Finished(Err(CliError::Usbmuxd(text))),
            (state, _) => state,
        };
        (Listing { label, name_key, version_key, state }, shown)
    }
}

/// The stage of the job, counted down to its end.
pub open spec fn stages_left(state: ListingState) -> nat {
    match state {
        ListingState::Connect => 4,
        ListingState::ListDevices => 3,
        ListingState::ResolveAddress(_) => 2,
        ListingState::Inspect { devices, next } => 1,
        ListingState::Finished(_) => 0,
    }
}

/// How many devices are still to be asked.
pub open spec fn devices_left(state: ListingState) -> nat {
    match state {
        ListingState::Inspect { devices, next } => if next < devices@.len() {
            (devices@.len() - next) as nat
        } else {
            0
        },
        _ => 0,
    }
}

/// Whether a reply is one that the work of a state can have.
pub open spec fn fits(state: ListingState, reply: ListingReply) -> bool {
    match state {
        ListingState::Connect => reply is Done || reply is Failed,
        ListingState::ListDevices => reply is Devices || reply is Failed,
        ListingState::ResolveAddress(_) => reply is Done || reply is Failed,
        ListingState::Inspect { devices, next } => reply is Answered,
        ListingState::Finished(_) => false,
    }
}

/// A reply that fits brings a job to a later stage, or leaves one device fewer to be asked; one
/// that does not fit leaves it as it is. Some reply fits at every point but the end.
pub proof fn law_job_comes_to_its_end(
    before: Listing,
    reply: ListingReply,
    after: Listing,
    shown: Option<Seq<char>>,
)
    requires
        listing_step(before, reply, after, shown),
    ensures
        fits(before.state, reply) ==> stages_left(after.state) < stages_left(before.state) || (
        stages_left(after.state) == stages_left(before.state) && devices_left(after.state)
            == devices_left(before.state) - 1),
        stages_left(before.state) == 0 <==> before.state is Finished,
        !fits(before.state, reply) ==> after.state == before.state,
        !(before.state is Finished) <==> exists|r: ListingReply|
            #[trigger] fits(before.state, r),
{
    if !(before.state is Finished) {
        let failed = ListingReply::Failed(arbitrary());
        let other = ListingReply::Answered(None);
        assert(fits(before.state, failed) || fits(before.state, other));
    }
    if let ListingState::Inspect { devices, next } = before.state {
        assert(devices.len() == devices@.len());
    }
}

/// Whether each job follows from the one before it by the reply between them, with what is
/// shown at each.
pub open spec fn is_run(
    jobs: Seq<Listing>,
    replies: Seq<ListingReply>,
    shown: Seq<Option<Seq<char>>>,
) -> bool {
    &&& jobs.len() == replies.len() + 1
    &&& shown.len() == replies.len()
    &&& forall|i: int|
        0 <= i < replies.len() ==> #[trigger] listing_step(
            jobs[i],
            replies[i],
            jobs[i + 1],
            shown[i],
        )
}

/// What is shown, without the steps that show nothing.
pub open spec fn visible(shown: Seq<Option<Seq<char>>>) -> Seq<Seq<char>>
    decreases shown.len(),
{
    if shown.len() == 0 {
        Seq::empty()
    } else {
        match shown.last() {
            Some(line) => visible(shown.drop_last()).push(line),
            None => visible(shown.drop_last()),
        }
    }
}

/// The heading, and the lines on each device with what it answered.
pub open spec fn device_list(devices: Seq<Device>, answers: Seq<Option<Answers>>) -> Seq<
    Seq<char>,
> {
    seq!["Dispositivos encontrados:\n"@] + Seq::new(
        answers.len(),
        |i: int| device::device_lines(devices[i], answers[i]),
    )
}

/// What the devices answered in the first `n` replies, in order.
pub open spec fn answers_before(
    jobs: Seq<Listing>,
    replies: Seq<ListingReply>,
    n: int,
) -> Seq<Option<Answers>>
    decreases n,
{
    if n <= 0 {
        Seq::empty()
    } else {
        let earlier = answers_before(jobs, replies, n - 1);
        match replies[n - 1] {
            ListingReply::Answered(answer) => if jobs[n - 1].state is Inspect {
                earlier.push(answer)
            } else {
                earlier
            },
            _ => earlier,
        }
    }
}

/// What a listing of these devices shows: that there is none, or each of them, with what it
/// answered, under a heading.
pub open spec fn shows(
    lines: Seq<Seq<char>>,
    devices: Seq<Device>,
    answers: Seq<Option<Answers>>,
) -> bool {
    if devices.len() == 0 {
        lines == seq!["Sin dispositivos. Conecta el iPhone y pulsa 'Confiar'."@]
    } else {
        answers.len() == devices.len() && lines == device_list(devices, answers)
    }
}

/// A listing that ends well shows that there is no device, or shows every device of the list
/// that came, once and in order, under a heading and each with what it answered.
pub proof fn law_every_device_is_listed(
    jobs: Seq<Listing>,
    replies: Seq<ListingReply>,
    shown: Seq<Option<Seq<char>>>,
)
    requires
        is_run(jobs, replies, shown),
        jobs[0].state == ListingState::Connect,
        jobs.last().state == ListingState::Finished(Ok(())),
    ensures
        exists|devices: Vec<Device>|
            came_before(replies, replies.len() as int, devices) && #[trigger] shows(
                visible(shown),
                devices@,
                answers_before(jobs, replies, replies.len() as int),
            ),
{
    lemma_shown(jobs, replies, shown, replies.len() as int);
    assert(shown.take(replies.len() as int) =~= shown);
}

/// Whether the list of devices came before reply `n`.
pub open spec fn came_before(replies: Seq<ListingReply>, n: int, devices: Vec<Device>) -> bool {
    exists|i: int|
        0 <= i < n && #[trigger] replies[i] == ListingReply::Devices(devices)
}

proof fn lemma_came_earlier(replies: Seq<ListingReply>, n: int, devices: Vec<Device>)
    requires
        came_before(replies, n, devices),
    ensures
        came_before(replies, n + 1, devices),
{
    let i = choose|i: int| 0 <= i < n && #[trigger] replies[i] == ListingReply::Devices(devices);
    assert(replies[i] == ListingReply::Devices(devices));
}

/// What has been shown in a state, after the given answers.
spec fn shown_in(
    state: ListingState,
    replies: Seq<ListingReply>,
    n: int,
    answers: Seq<Option<Answers>>,
    lines: Seq<Seq<char>>,
) -> bool {
    match state {
        ListingState::Connect => lines.len() == 0 && answers.len() == 0,
        ListingState::ListDevices => lines.len() == 0 && answers.len() == 0,
        ListingState::ResolveAddress(devices) => lines.len() == 0 && answers.len() == 0
            && devices@.len() > 0 && came_before(replies, n, devices),
        ListingState::Inspect { devices, next } => next < devices@.len() && answers.len() == next
            && lines == device_list(devices@, answers) && came_before(replies, n, devices),
        ListingState::Finished(Ok(_)) => exists|devices: Vec<Device>|
            came_before(replies, n, devices) && #[trigger] shows(lines, devices@, answers),
        ListingState::Finished(Err(_)) => true,
    }
}

proof fn lemma_shown(
    jobs: Seq<Listing>,
    replies: Seq<ListingReply>,
    shown: Seq<Option<Seq<char>>>,
    n: int,
)
    requires
        is_run(jobs, replies, shown),
        jobs[0].state == ListingState::Connect,
        0 <= n <= replies.len(),
    ensures
        shown_in(
            jobs[n].state,
            replies,
            n,
            answers_before(jobs, replies, n),
            visible(shown.take(n)),
        ),
    decreases n,
{
    if n > 0 {
        lemma_shown(jobs, replies, shown, n - 1);
        let before = jobs[n - 1].state;
        let reply = replies[n - 1];
        let lines = visible(shown.take(n - 1));
        let now = visible(shown.take(n));
        let earlier = answers_before(jobs, replies, n - 1);
        let answers = answers_before(jobs, replies, n);
        assert(listing_step(jobs[n - 1], reply, jobs[n - 1 + 1], shown[n - 1]));
        assert(shown.take(n).drop_last() =~= shown.take(n - 1));
        assert(shown.take(n).last() == shown[n - 1]);
        match before {
            ListingState::ListDevices => {
                if let ListingReply::Devices(devices) = reply {
                    assert(came_before(replies, n, devices));
                    if devices@.len() == 0 {
                        assert(now =~= seq![
                            "Sin dispositivos. Conecta el iPhone y pulsa 'Confiar'."@,
                        ]);
                        assert(shows(now, devices@, answers));
                    }
                }
            },
            ListingState::ResolveAddress(devices) => {
                lemma_came_earlier(replies, n - 1, devices);
                if reply is Done {
                    assert(now =~= device_list(devices@, answers));
                }
            },
            ListingState::Inspect { devices, next } => {
                lemma_came_earlier(replies, n - 1, devices);
                if let ListingReply::Answered(answer) = reply {
                    assert(now =~= device_list(devices@, earlier.push(answer)));
                    if next + 1 == devices.len() {
                        assert(shows(now, devices@, answers));
                    }
                }
            },
            ListingState::Finished(Ok(_)) => {
                let devices = choose|devices: Vec<Device>|
                    came_before(replies, n - 1, devices) && #[trigger] shows(
                        lines,
                        devices@,
                        earlier,
                    );
                lemma_came_earlier(replies, n - 1, devices);
                assert(shows(now, devices@, answers));
            },
            _ => {},
        }
    }
}

/// A failure of usbmuxd ends the listing in a failure with its words, and nothing more is shown.
pub proof fn law_a_failure_keeps_its_words(
    before: Listing,
    text: String,
    after: Listing,
    shown: Option<Seq<char>>,
)
    requires
        listing_step(before, ListingReply::Failed(text), after, shown),
        !(before.state is Finished),
        !(before.state is Inspect),
    ensures
        after.state matches ListingState::Finished(Err(e)) && e@.kind == ErrorKind::Usbmuxd
            && e@.detail == text@,
        shown is None,
{
}

/// The list has a heading and then one entry for each device, in its place and with its answer.
pub proof fn law_the_list_holds_each_device(
    devices: Seq<Device>,
    answers: Seq<Option<Answers>>,
    i: int,
)
    ensures
        device_list(devices, answers).len() == answers.len() + 1,
        device_list(devices, answers)[0] == "Dispositivos encontrados:\n"@,
        0 <= i < answers.len() ==> device_list(devices, answers)[i + 1] == device::device_lines(
            devices[i],
            answers[i],
        ),
{
}

/// What is shown is seen in the order in which it is shown.
pub proof fn law_what_is_shown_is_seen(shown: Seq<Option<Seq<char>>>, line: Seq<char>)
    ensures
        visible(Seq::empty()).len() == 0,
        visible(shown.push(Some(line))) == visible(shown).push(line),
        visible(shown.push(None)) == visible(shown),
{
    assert(shown.push(Some(line)).drop_last() =~= shown);
    assert(shown.push(None).drop_last() =~= shown);
}

/// A device that answers is shown at once, and the next one of the list is asked; the last one
/// ends the listing.
pub proof fn law_the_devices_are_asked_in_turn(
    before: Listing,
    devices: Vec<Device>,
    next: usize,
    answer: Option<Answers>,
    after: Listing,
    shown: Option<Seq<char>>,
)
    requires
        before.state == (ListingState::Inspect { devices, next }),
        next < devices@.len(),
        listing_step(before, ListingReply::Answered(answer), after, shown),
    ensures
        shown == Some(device::device_lines(devices@[next as int], answer)),
        next + 1 == devices@.len() ==> after.state == ListingState::Finished(Ok(())),
        next + 1 < devices@.len() ==> (after.state matches ListingState::Inspect {
            devices: d,
            next: n,
        } && d == devices && n == next + 1),
{
    assert(next < devices.len());
}

/// No reply changes what is asked of the devices.
pub proof fn law_what_was_asked_for_is_kept(
    before: Listing,
    reply: ListingReply,
    after: Listing,
    shown: Option<Seq<char>>,
)
    requires
        listing_step(before, reply, after, shown),
    ensures
        after.label == before.label,
        after.name_key == before.name_key,
        after.version_key == before.version_key,
{
}

/// Where no device is connected, the user is told so and the listing is at its end; else the
/// devices go on as they came, and are asked from the first one on under a heading.
pub proof fn law_the_devices_go_on(
    a: Listing,
    devices: Vec<Device>,
    b: Listing,
    shown_b: Option<Seq<char>>,
    c: Listing,
    shown_c: Option<Seq<char>>,
)
    requires
        a.state is ListDevices,
        listing_step(a, ListingReply::Devices(devices), b, shown_b),
        listing_step(b, ListingReply::Done, c, shown_c),
    ensures
        devices@.len() == 0 ==> b.state == ListingState::Finished(Ok(())) && shown_b == Some(
            "Sin dispositivos. Conecta el iPhone y pulsa 'Confiar'."@,
        ),
        devices@.len() > 0 ==> shown_b is None && c.state == (ListingState::Inspect {
            devices,
            next: 0,
        }) && shown_c == Some("Dispositivos encontrados:\n"@),
{
}

} // verus!
