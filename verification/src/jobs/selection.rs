//! Choosing a device among those that are connected.

use vstd::prelude::*;

use crate::device;
use crate::device::{Chosen, Device};
use crate::error;
use crate::error::{CliError, ErrorKind, ErrorView};
use crate::requests;

verus! {

/// What has to be done next.
#[derive(Debug)]
pub enum SelectionState {
    /// Connect to usbmuxd.
    Connect,
    /// Ask for the connected devices.
    ListDevices,
    /// Find the address of usbmuxd, for the chosen device.
    ResolveAddress(Chosen),
    Finished(Result<Chosen, CliError>),
}

/// What came of it.
#[derive(Debug)]
pub enum SelectionReply {
    Done,
    Failed(String),
    Devices(Vec<Device>),
}

/// The choice of a device.
#[derive(Debug)]
pub struct Selection {
    /// The UDID asked for.
    pub udid: Option<String>,
    /// The name under which the device is connected to.
    pub label: &'static str,
    pub state: SelectionState,
}

/// Whether the job ended in the given failure.
pub open spec fn failed_with(job: Selection, e: ErrorView) -> bool {
    job.state matches SelectionState::Finished(Err(x)) && x@ == e
}

/// How a reply changes the job.
pub open spec fn selection_step(
    before: Selection,
    reply: SelectionReply,
    after: Selection,
) -> bool {
    &&& after.udid == before.udid
    &&& after.label == before.label
    &&& match (before.state, reply) {
        (SelectionState::Connect, SelectionReply::Done) => after.state
            == SelectionState::ListDevices,
        (SelectionState::ListDevices, SelectionReply::Devices(devices)) => match after.state {
            SelectionState::ResolveAddress(chosen) => device::is_choice(
                Ok(chosen),
                devices@,
                device::text_of(before.udid),
            ),
            SelectionState::Finished(Err(e)) => device::is_choice(
                Err(e),
                devices@,
                device::text_of(before.udid),
            ),
            _ => false,
        },
        (SelectionState::ResolveAddress(chosen), SelectionReply::Done) => after.state
            == SelectionState::Finished(Ok(chosen)),
        (SelectionState::Connect, SelectionReply::Failed(text)) => failed_with(
            after,
            error::failure(ErrorKind::Usbmuxd, text@),
        ),
        (SelectionState::ListDevices, SelectionReply::Failed(text)) => failed_with(
            after,
            error::failure(ErrorKind::Usbmuxd, text@),
        ),
        (SelectionState::ResolveAddress(_), SelectionReply::Failed(text)) => failed_with(
            after,
            error::failure(ErrorKind::Usbmuxd, text@),
        ),
        _ => after.state == before.state,
    }
}

impl Selection {
    pub fn new(udid: Option<String>) -> (job: Selection)
        ensures
            job.udid == udid,
            job.label@ == requests::HOST_NAME@,
            job.state == SelectionState::Connect,
    {
        Selection { udid, label: requests::HOST_NAME, state: SelectionState::Connect }
    }

    /// Goes on after a reply.
    pub fn advance(self, reply: SelectionReply) -> (after: Selection)
        ensures
            selection_step(self, reply, after),
    {
        let Selection { udid, label, state } = self;
        let state = match (state, reply) {
            (SelectionState::Connect, SelectionReply::Done) => SelectionState::ListDevices,
            (SelectionState::ListDevices, SelectionReply::Devices(devices)) => {
                let wanted = match &udid {
                    Some(u) => Some(u.as_str()),
                    None => None,
                };
                match device::select_device(&devices, wanted) {
                    Ok(chosen) => SelectionState::ResolveAddress(chosen),
                    Err(e) => SelectionState::Finished(Err(e)),
                }
            },
            (SelectionState::ResolveAddress(chosen), SelectionReply::Done) =>
                SelectionState::Finished(Ok(chosen)),
            (SelectionState::Connect, SelectionReply::Failed(text)) => SelectionState::Finished(
                Err(CliError::Usbmuxd(text)),
            ),
            (SelectionState::ListDevices, SelectionReply::Failed(text)) =>
                SelectionState::Finished(Err(CliError::Usbmuxd(text))),
            (SelectionState::ResolveAddress(_), SelectionReply::Failed(text)) =>
                SelectionState::Finished(Err(CliError::Usbmuxd(text))),
            (state, _) => state,
        };
        Selection { udid, label, state }
    }
}

/// How many replies can still change the job, at most.
pub open spec fn steps_left(state: SelectionState) -> nat {
    match state {
        SelectionState::Connect => 3,
        SelectionState::ListDevices => 2,
        SelectionState::ResolveAddress(_) => 1,
        SelectionState::Finished(_) => 0,
    }
}

/// Whether a reply is one that the work of a state can have.
pub open spec fn fits(state: SelectionState, reply: SelectionReply) -> bool {
    match state {
        SelectionState::Connect => reply is Done || reply is Failed,
        SelectionState::ListDevices => reply is Devices || reply is Failed,
        SelectionState::ResolveAddress(_) => reply is Done || reply is Failed,
        SelectionState::Finished(_) => false,
    }
}

/// A reply that fits brings a job nearer to its end; one that does not fit leaves it as it is.
/// Some reply fits at every point but the end.
pub proof fn law_job_comes_to_its_end(
    before: Selection,
    reply: SelectionReply,
    after: Selection,
)
    requires
        selection_step(before, reply, after),
    ensures
        fits(before.state, reply) ==> steps_left(after.state) < steps_left(before.state),
        steps_left(before.state) == 0 <==> before.state is Finished,
        !fits(before.state, reply) ==> after.state == before.state,
        !(before.state is Finished) <==> exists|r: SelectionReply|
            #[trigger] fits(before.state, r),
{
    if !(before.state is Finished) {
        assert(fits(before.state, SelectionReply::Failed(arbitrary())));
    }
}

/// Whether each job follows from the one before it by the reply between them.
pub open spec fn is_run(jobs: Seq<Selection>, replies: Seq<SelectionReply>) -> bool {
    &&& jobs.len() == replies.len() + 1
    &&& forall|i: int|
        0 <= i < replies.len() ==> #[trigger] selection_step(jobs[i], replies[i], jobs[i + 1])
}

/// Whether a list of devices in the replies gives the choice.
pub open spec fn chosen_from(
    replies: Seq<SelectionReply>,
    udid: Option<Seq<char>>,
    chosen: Chosen,
) -> bool {
    exists|i: int|
        0 <= i < replies.len() && (#[trigger] replies[i] matches SelectionReply::Devices(devices)
            && device::is_choice(Ok(chosen), devices@, udid))
}

/// A device that a run ends with was chosen, as asked, from a list of devices that came.
pub proof fn law_device_comes_from_the_list(
    jobs: Seq<Selection>,
    replies: Seq<SelectionReply>,
    chosen: Chosen,
)
    requires
        is_run(jobs, replies),
        jobs[0].state == SelectionState::Connect,
        jobs.last().state == SelectionState::Finished(Ok(chosen)),
    ensures
        chosen_from(replies, device::text_of(jobs[0].udid), chosen),
{
    lemma_chosen(jobs, replies, replies.len() as int);
    assert(replies.take(replies.len() as int) =~= replies);
}

proof fn lemma_chosen(jobs: Seq<Selection>, replies: Seq<SelectionReply>, n: int)
    requires
        is_run(jobs, replies),
        jobs[0].state == SelectionState::Connect,
        0 <= n <= replies.len(),
    ensures
        jobs[n].udid == jobs[0].udid,
        match jobs[n].state {
            SelectionState::ResolveAddress(c) => chosen_from(
                replies.take(n),
                device::text_of(jobs[0].udid),
                c,
            ),
            SelectionState::Finished(Ok(c)) => chosen_from(
                replies.take(n),
                device::text_of(jobs[0].udid),
                c,
            ),
            _ => true,
        },
    decreases n,
{
    if n > 0 {
        lemma_chosen(jobs, replies, n - 1);
        assert(selection_step(jobs[n - 1], replies[n - 1], jobs[n - 1 + 1]));
        assert(replies.take(n)[n - 1] == replies[n - 1]);
        assert forall|i: int| 0 <= i < n - 1 implies #[trigger] replies.take(n - 1)[i]
            == replies.take(n)[i] by {
        }
        if jobs[n - 1].state is ResolveAddress || jobs[n - 1].state is Finished {
            let c = match jobs[n - 1].state {
                SelectionState::ResolveAddress(c) => c,
                SelectionState::Finished(Ok(c)) => c,
                _ => arbitrary(),
            };
            if chosen_from(replies.take(n - 1), device::text_of(jobs[0].udid), c) {
                let i = choose|i: int|
                    0 <= i < n - 1 && (#[trigger] replies.take(
                        n - 1,
                    )[i] matches SelectionReply::Devices(devices) && device::is_choice(
                        Ok(c),
                        devices@,
                        device::text_of(jobs[0].udid),
                    ));
                assert(replies.take(n)[i] == replies.take(n - 1)[i]);
            }
        }
    }
}

/// A failure of usbmuxd ends the choice, at every point, in a failure with its words.
pub proof fn law_a_failure_keeps_its_words(before: Selection, text: String, after: Selection)
    requires
        selection_step(before, SelectionReply::Failed(text), after),
        !(before.state is Finished),
    ensures
        after.state matches SelectionState::Finished(Err(e)) && e@.kind == ErrorKind::Usbmuxd
            && e@.detail == text@,
{
}

/// The list of devices decides: the device asked for is chosen where it is there, the first one
/// where none was asked for, and otherwise the failure says what is missing.
pub proof fn law_the_list_decides(
    before: Selection,
    devices: Vec<Device>,
    after: Selection,
    i: int,
)
    requires
        before.state is ListDevices,
        selection_step(before, SelectionReply::Devices(devices), after),
    ensures
        devices@.len() == 0 ==> (after.state matches SelectionState::Finished(Err(e)) && e@.kind
            == ErrorKind::NoDevice),
        before.udid is None && devices@.len() > 0 ==> (after.state
            matches SelectionState::ResolveAddress(chosen) && chosen.index == 0 && chosen.udid@
            == devices@[0].udid@),
        before.udid matches Some(u) ==> (0 <= i < devices@.len() && devices@[i].udid@ == u@ ==> (
        after.state matches SelectionState::ResolveAddress(chosen) && chosen.udid@ == u@
            && chosen.index <= i && devices@[chosen.index as int].udid@ == u@)),
        before.udid matches Some(u) ==> (devices@.len() > 0 && (forall|j: int|
            0 <= j < devices@.len() ==> (#[trigger] devices@[j]).udid@ != u@) ==> (after.state
            matches SelectionState::Finished(Err(e)) && e@.kind == ErrorKind::DeviceNotFound
            && e@.detail == u@)),
{
    let asked = device::text_of(before.udid);
    match after.state {
        SelectionState::ResolveAddress(chosen) => {
            device::law_a_choice_is_as_asked(chosen, devices@, asked);
        },
        SelectionState::Finished(Err(e)) => {
            device::law_a_choice_fails_for_want_of_a_device(e, devices@, asked);
        },
        _ => {},
    }
}

/// The device that was chosen is the one that the job ends with.
pub proof fn law_the_choice_is_kept(before: Selection, chosen: Chosen, after: Selection)
    requires
        before.state == SelectionState::ResolveAddress(chosen),
        selection_step(before, SelectionReply::Done, after),
    ensures
        after.state == SelectionState::Finished(Ok(chosen)),
        after.udid == before.udid,
        after.label == before.label,
{
}

/// No reply changes the UDID that was asked for, nor the name under which the device is connected
/// to.
pub proof fn law_what_was_asked_for_is_kept(
    before: Selection,
    reply: SelectionReply,
    after: Selection,
)
    requires
        selection_step(before, reply, after),
    ensures
        after.udid == before.udid,
        after.label == before.label,
{
}

} // verus!
