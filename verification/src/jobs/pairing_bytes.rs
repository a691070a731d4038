//! Making the pairing document of a device.

use vstd::prelude::*;
use vstd::string::*;

use crate::device;
use crate::device::Device;
use crate::documents;
use crate::documents::{LockdownDocument, PairRecord};
use crate::error;
use crate::error::{CliError, ErrorKind, ErrorView};
use crate::requests;
use crate::text;
use crate::version;

verus! {

/// What has to be done next.
#[derive(Debug)]
pub enum PairingBytesState {
    /// Connect to usbmuxd.
    Connect,
    /// Ask for the pair record of the device.
    ReadRecord,
    /// Ask for the connected devices. The record has the UDID filled in, here and further on.
    ListDevices { record: PairRecord },
    /// Find the address of usbmuxd, for the device at a place in the list.
    ResolveAddress { record: PairRecord, index: usize },
    /// Connect to the device's lockdown service.
    ConnectLockdown { record: PairRecord },
    /// Start a session with the pair record.
    StartSession { record: PairRecord },
    /// Switch debugging over WiFi on; it may fail.
    EnableWifiDebugging { record: PairRecord },
    /// Ask for the iOS version.
    ReadVersion { record: PairRecord },
    /// Make a remote pairing, for a host.
    PairRemotely { lockdown: LockdownDocument, host: String },
    Finished(Result<Vec<u8>, CliError>),
}

/// What came of it.
#[derive(Debug)]
pub enum PairingBytesReply {
    Done,
    Failed(String),
    Record(PairRecord),
    Devices(Vec<Device>),
    Version(plist::Value),
    Paired(idevice::remote_pairing::RpPairingFile),
}

/// The making of the pairing document of a device.
#[derive(Debug)]
pub struct PairingBytes {
    pub udid: String,
    /// The name under which the device is connected to.
    pub label: &'static str,
    /// The key, and the domain, of the switch for debugging over WiFi.
    pub wifi_key: &'static str,
    pub wifi_domain: &'static str,
    /// The key of the question for the version.
    pub version_key: &'static str,
    pub state: PairingBytesState,
}

/// Whether the job ended in the given failure.
pub open spec fn failed_with(job: PairingBytes, e: ErrorView) -> bool {
    job.state matches PairingBytesState::Finished(Err(x)) && x@ == e
}

/// Whether the job ended with the given outcome.
pub open spec fn ended_with(job: PairingBytes, r: Result<Seq<u8>, ErrorView>) -> bool {
    job.state matches PairingBytesState::Finished(x) && error::bytes_outcome(x) == r
}

/// The first iOS version with remote pairing is 17.4.
pub open spec fn without_remote_pairing(ios: Seq<char>) -> bool {
    version::below(ios, 17, 4)
}

/// Whether the job goes on as it should once the iOS version is known, empty where it is not:
/// the lockdown document is made; below 17.4 it is all there is, from 17.4 on a remote pairing
/// comes next.
pub open spec fn goes_on_with_version(
    before: PairingBytes,
    record: PairRecord,
    ios: Seq<char>,
    after: PairingBytes,
) -> bool {
    match documents::lockdown_value(record@, before.udid@) {
        Err(e) => failed_with(after, e),
        Ok(lockdown) => if without_remote_pairing(ios) {
            ended_with(after, documents::lockdown_only(lockdown))
        } else {
            after.state matches PairingBytesState::PairRemotely { lockdown: made, host } && made@
                == lockdown && host@ == requests::HOST_NAME@
        },
    }
}

/// How a reply changes the job.
pub open spec fn pairing_bytes_step(
    before: PairingBytes,
    reply: PairingBytesReply,
    after: PairingBytes,
) -> bool {
    &&& after.udid == before.udid
    &&& after.label == before.label
    &&& after.wifi_key == before.wifi_key
    &&& after.wifi_domain == before.wifi_domain
    &&& after.version_key == before.version_key
    &&& match (before.state, reply) {
        (PairingBytesState::Connect, PairingBytesReply::Done) => after.state
            == PairingBytesState::ReadRecord,
        (PairingBytesState::Connect, PairingBytesReply::Failed(text)) => failed_with(
            after,
            error::failure(ErrorKind::Usbmuxd, text@),
        ),
        (PairingBytesState::ReadRecord, PairingBytesReply::Record(record)) => after.state
            matches PairingBytesState::ListDevices { record: named } && named@
            == documents::named_record(record@, before.udid@),
        (PairingBytesState::ReadRecord, PairingBytesReply::Failed(text)) => failed_with(
            after,
            documents::pairing_failure("get_pair_record: "@ + text@),
        ),
        (PairingBytesState::ListDevices { record }, PairingBytesReply::Devices(devices)) =>
            match device::first_with_udid(devices@, before.udid@) {
            Some(i) => after.state == PairingBytesState::ResolveAddress {
                record,
                index: i as usize,
            },
            None => failed_with(
                after,
                error::failure(ErrorKind::DeviceNotFound, before.udid@),
            ),
        },
        (PairingBytesState::ListDevices { record }, PairingBytesReply::Failed(text)) =>
            failed_with(after, error::failure(ErrorKind::Usbmuxd, text@)),
        (PairingBytesState::ResolveAddress { record, index }, PairingBytesReply::Done) =>
            after.state == PairingBytesState::ConnectLockdown { record },
        (PairingBytesState::ResolveAddress { record, index }, PairingBytesReply::Failed(text)) =>
            failed_with(after, error::failure(ErrorKind::Usbmuxd, text@)),
        (PairingBytesState::ConnectLockdown { record }, PairingBytesReply::Done) => after.state
            == PairingBytesState::StartSession { record },
        (PairingBytesState::ConnectLockdown { record }, PairingBytesReply::Failed(text)) =>
            failed_with(after, documents::pairing_failure("lockdown: "@ + text@)),
        (PairingBytesState::StartSession { record }, PairingBytesReply::Done) => after.state
            == PairingBytesState::EnableWifiDebugging { record },
        (PairingBytesState::StartSession { record }, PairingBytesReply::Failed(text)) =>
            failed_with(after, documents::pairing_failure("start_session: "@ + text@)),
        (PairingBytesState::EnableWifiDebugging { record }, PairingBytesReply::Done) =>
            after.state == PairingBytesState::ReadVersion { record },
        (PairingBytesState::EnableWifiDebugging { record }, PairingBytesReply::Failed(_)) =>
            after.state == PairingBytesState::ReadVersion { record },
        (PairingBytesState::ReadVersion { record }, PairingBytesReply::Version(value)) =>
            goes_on_with_version(
            before,
            record,
            device::answer_text(Some(value), Seq::empty()),
            after,
        ),
        (PairingBytesState::ReadVersion { record }, PairingBytesReply::Failed(_)) =>
            goes_on_with_version(before, record, Seq::empty(), after),
        (PairingBytesState::PairRemotely { lockdown, host }, PairingBytesReply::Paired(pairing)) =>
            ended_with(
            after,
            documents::lockdown_and_remote(
                lockdown@,
                documents::xml_of_remote_pairing(pairing),
            ),
        ),
        (PairingBytesState::PairRemotely { lockdown, host }, PairingBytesReply::Failed(text)) =>
            failed_with(after, documents::pairing_failure(text@)),
        _ => after.state == before.state,
    }
}

fn pairing_error(work: &str, text: String) -> (r: PairingBytesState)
    ensures
        r matches PairingBytesState::Finished(Err(x)) && x@ == documents::pairing_failure(
            work@ + text@,
        ),
{
    PairingBytesState::Finished(Err(CliError::Pairing(text::concat2(work, text.as_str()))))
}

fn with_version(udid: &str, record: PairRecord, ios: &str) -> (r: PairingBytesState)
    ensures
        match documents::lockdown_value(record@, udid@) {
            Err(e) => r matches PairingBytesState::Finished(Err(x)) && x@ == e,
            Ok(lockdown) => if without_remote_pairing(ios@) {
                r matches PairingBytesState::Finished(x) && error::bytes_outcome(x)
                    == documents::lockdown_only(lockdown)
            } else {
                r matches PairingBytesState::PairRemotely { lockdown: made, host } && made@
                    == lockdown && host@ == requests::HOST_NAME@
            },
        },
{
    let lockdown = match documents::lockdown_document(record, udid) {
        Ok(v) => v,
        Err(e) => {
            return PairingBytesState::Finished(Err(e));
        },
    };
    if version::is_ios_below(ios, 17, 4) {
        PairingBytesState::Finished(documents::lockdown_pairing(&lockdown))
    } else {
        PairingBytesState::PairRemotely { lockdown, host: requests::HOST_NAME.to_owned() }
    }
}

/// What is shown on coming to a state.
pub open spec fn pairing_bytes_notice(job: PairingBytes) -> Option<Seq<char>> {
    match job.state {
        PairingBytesState::PairRemotely { lockdown, host } => Some(
            "   Si el iPhone muestra un diálogo, pulsa Confiar."@,
        ),
        _ => None,
    }
}

impl PairingBytes {
    pub fn new(udid: String) -> (job: PairingBytes)
        ensures
            job.udid == udid,
            job.label@ == requests::HOST_NAME@,
            job.wifi_key@ == requests::WIFI_DEBUGGING_KEY@,
            job.wifi_domain@ == requests::WIFI_DEBUGGING_DOMAIN@,
            job.version_key@ == requests::VERSION_KEY@,
            job.state == PairingBytesState::Connect,
    {
        PairingBytes {
            udid,
            label: requests::HOST_NAME,
            wifi_key: requests::WIFI_DEBUGGING_KEY,
            wifi_domain: requests::WIFI_DEBUGGING_DOMAIN,
            version_key: requests::VERSION_KEY,
            state: PairingBytesState::Connect,
        }
    }

    /// What is shown on coming to the present state.
    pub fn notice(&self) -> (r: Option<String>)
        ensures
            device::text_of(r) == pairing_bytes_notice(*self),
    {
        match &self.state {
            PairingBytesState::PairRemotely { lockdown: _, host: _ } => Some(
                "   Si el iPhone muestra un diálogo, pulsa Confiar.".to_owned(),
            ),
            _ => None,
        }
    }

    /// Goes on after a reply.
    pub fn advance(self, reply: PairingBytesReply) -> (after: PairingBytes)
        ensures
            pairing_bytes_step(self, reply, after),
    {
        let PairingBytes { udid, label, wifi_key, wifi_domain, version_key, state } = self;
        let state = match (state, reply) {
            (PairingBytesState::Connect, PairingBytesReply::Done) => PairingBytesState::ReadRecord,
            (PairingBytesState::Connect, PairingBytesReply::Failed(text)) =>
                PairingBytesState::Finished(Err(CliError::Usbmuxd(text))),
            (PairingBytesState::ReadRecord, PairingBytesReply::Record(record)) =>
                PairingBytesState::ListDevices {
                record: documents::name_record(record, udid.as_str()),
            },
            (PairingBytesState::ReadRecord, PairingBytesReply::Failed(text)) => pairing_error(
                "get_pair_record: ",
                text,
            ),
            (PairingBytesState::ListDevices { record }, PairingBytesReply::Devices(devices)) => {
                match device::find_device(&devices, udid.as_str()) {
                    Some(index) => PairingBytesState::ResolveAddress { record, index },
                    None => PairingBytesState::Finished(
                        Err(CliError::DeviceNotFound(udid.clone())),
                    ),
                }
            },
            (PairingBytesState::ListDevices { record: _ }, PairingBytesReply::Failed(text)) =>
                PairingBytesState::Finished(Err(CliError::Usbmuxd(text))),
            (PairingBytesState::ResolveAddress { record, index: _ }, PairingBytesReply::Done) =>
                PairingBytesState::ConnectLockdown { record },
            (
                PairingBytesState::ResolveAddress { record: _, index: _ },
                PairingBytesReply::Failed(text),
            ) => PairingBytesState::Finished(Err(CliError::Usbmuxd(text))),
            (PairingBytesState::ConnectLockdown { record }, PairingBytesReply::Done) =>
                PairingBytesState::StartSession { record },
            (PairingBytesState::ConnectLockdown { record: _ }, PairingBytesReply::Failed(text)) =>
                pairing_error("lockdown: ", text),
            (PairingBytesState::StartSession { record }, PairingBytesReply::Done) =>
                PairingBytesState::EnableWifiDebugging { record },
            (PairingBytesState::StartSession { record: _ }, PairingBytesReply::Failed(text)) =>
                pairing_error("start_session: ", text),
            (PairingBytesState::EnableWifiDebugging { record }, PairingBytesReply::Done) =>
                PairingBytesState::ReadVersion { record },
            (PairingBytesState::EnableWifiDebugging { record }, PairingBytesReply::Failed(_)) =>
                PairingBytesState::ReadVersion { record },
            (PairingBytesState::ReadVersion { record }, PairingBytesReply::Version(value)) => {
                let ios = device::text_answer(&Some(value), "");
                proof {
                    reveal_strlit("");
                    assert(""@ =~= Seq::<char>::empty());
                }
                with_version(udid.as_str(), record, ios.as_str())
            },
            (PairingBytesState::ReadVersion { record }, PairingBytesReply::Failed(_)) => {
                proof {
                    reveal_strlit("");
                    assert(""@ =~= Seq::<char>::empty());
                }
                with_version(udid.as_str(), record, "")
            },
            (
                PairingBytesState::PairRemotely { lockdown, host: _ },
                PairingBytesReply::Paired(pairing),
            ) => PairingBytesState::Finished(
                documents::remote_pairing_document(&lockdown, &pairing),
            ),
            (
                PairingBytesState::PairRemotely { lockdown: _, host: _ },
                PairingBytesReply::Failed(text),
            ) => PairingBytesState::Finished(Err(CliError::Pairing(text))),
            (state, _) => state,
        };
        PairingBytes { udid, label, wifi_key, wifi_domain, version_key, state }
    }
}

/// How many replies can still change the job, at most.
pub open spec fn steps_left(state: PairingBytesState) -> nat {
    match state {
        PairingBytesState::Connect => 9,
        PairingBytesState::ReadRecord => 8,
        PairingBytesState::ListDevices { record } => 7,
        PairingBytesState::ResolveAddress { record, index } => 6,
        PairingBytesState::ConnectLockdown { record } => 5,
        PairingBytesState::StartSession { record } => 4,
        PairingBytesState::EnableWifiDebugging { record } => 3,
        PairingBytesState::ReadVersion { record } => 2,
        PairingBytesState::PairRemotely { lockdown, host } => 1,
        PairingBytesState::Finished(_) => 0,
    }
}

/// Whether a reply is one that the work of a state can have.
pub open spec fn fits(state: PairingBytesState, reply: PairingBytesReply) -> bool {
    match state {
        PairingBytesState::Connect => reply is Done || reply is Failed,
        PairingBytesState::ReadRecord => reply is Record || reply is Failed,
        PairingBytesState::ListDevices { record } => reply is Devices || reply is Failed,
        PairingBytesState::ResolveAddress { record, index } => reply is Done || reply is Failed,
        PairingBytesState::ConnectLockdown { record } => reply is Done || reply is Failed,
        PairingBytesState::StartSession { record } => reply is Done || reply is Failed,
        PairingBytesState::EnableWifiDebugging { record } => reply is Done || reply is Failed,
        PairingBytesState::ReadVersion { record } => reply is Version || reply is Failed,
        PairingBytesState::PairRemotely { lockdown, host } => reply is Paired || reply is Failed,
        PairingBytesState::Finished(_) => false,
    }
}

/// A reply that fits brings a job nearer to its end; one that does not fit leaves it as it is.
/// Some reply fits at every point but the end.
pub proof fn law_job_comes_to_its_end(
    before: PairingBytes,
    reply: PairingBytesReply,
    after: PairingBytes,
)
    requires
        pairing_bytes_step(before, reply, after),
    ensures
        fits(before.state, reply) ==> steps_left(after.state) < steps_left(before.state),
        steps_left(before.state) == 0 <==> before.state is Finished,
        !fits(before.state, reply) ==> after.state == before.state,
        !(before.state is Finished) <==> exists|r: PairingBytesReply|
            #[trigger] fits(before.state, r),
{
    if !(before.state is Finished) {
        assert(fits(before.state, PairingBytesReply::Failed(arbitrary())));
    }
}

/// Whether each job follows from the one before it by the reply between them.
pub open spec fn is_run(jobs: Seq<PairingBytes>, replies: Seq<PairingBytesReply>) -> bool {
    &&& jobs.len() == replies.len() + 1
    &&& forall|i: int|
        0 <= i < replies.len() ==> #[trigger] pairing_bytes_step(jobs[i], replies[i], jobs[i + 1])
}

/// Whether the record came before reply `n`, and had the UDID filled in.
pub open spec fn record_before(
    jobs: Seq<PairingBytes>,
    replies: Seq<PairingBytesReply>,
    n: int,
    record: PairRecord,
) -> bool {
    exists|i: int|
        0 <= i < n && jobs[i].state is ReadRecord && (
        #[trigger] replies[i] matches PairingBytesReply::Record(read) && record@
            == documents::named_record(read@, jobs[0].udid@))
}

/// The iOS version in a reply: empty where none came.
pub open spec fn version_in(reply: PairingBytesReply) -> Seq<char> {
    match reply {
        PairingBytesReply::Version(value) => device::answer_text(Some(value), Seq::empty()),
        _ => Seq::empty(),
    }
}

/// Whether `lockdown` was made, before reply `n`, from the record that came, on a version that
/// is or is not one with remote pairing.
pub open spec fn lockdown_before(
    jobs: Seq<PairingBytes>,
    replies: Seq<PairingBytesReply>,
    n: int,
    lockdown: plist::Value,
    remote: bool,
) -> bool {
    exists|i: int|
        0 <= i < n && (jobs[i].state matches PairingBytesState::ReadVersion { record } && {
            &&& record_before(jobs, replies, i, record)
            &&& documents::lockdown_value(record@, jobs[0].udid@) == Ok::<plist::Value, ErrorView>(
                lockdown,
            )
        }) && (replies[i] is Version || replies[i] is Failed) && without_remote_pairing(
            version_in(#[trigger] replies[i]),
        ) == !remote
}

/// Whether the remote pairing came before reply `n`, on a version with remote pairing, and the
/// document was made of it and the lockdown document.
pub open spec fn combined_before(
    jobs: Seq<PairingBytes>,
    replies: Seq<PairingBytesReply>,
    n: int,
    document: Seq<u8>,
) -> bool {
    exists|i: int|
        0 <= i < n && (jobs[i].state matches PairingBytesState::PairRemotely { lockdown, host }
            && host@ == requests::HOST_NAME@ && lockdown_before(jobs, replies, i, lockdown@, true)
            && (#[trigger] replies[i] matches PairingBytesReply::Paired(pairing)
            && documents::lockdown_and_remote(
            lockdown@,
            documents::xml_of_remote_pairing(pairing),
        ) == Ok::<Seq<u8>, ErrorView>(document)))
}

/// Whether the document is the lockdown document, of a version without remote pairing.
pub open spec fn lockdown_alone_before(
    jobs: Seq<PairingBytes>,
    replies: Seq<PairingBytesReply>,
    n: int,
    document: Seq<u8>,
) -> bool {
    exists|lockdown: plist::Value|
        #[trigger] lockdown_before(jobs, replies, n, lockdown, false) && documents::lockdown_only(
            lockdown,
        ) == Ok::<Seq<u8>, ErrorView>(document)
}

/// A pairing document is made from the pair record of the device: below iOS 17.4 it is the
/// lockdown document, from 17.4 on the lockdown document with the remote pairing put in.
pub proof fn law_document_fits_the_version(
    jobs: Seq<PairingBytes>,
    replies: Seq<PairingBytesReply>,
    document: Vec<u8>,
)
    requires
        is_run(jobs, replies),
        jobs[0].state == PairingBytesState::Connect,
        jobs.last().state == PairingBytesState::Finished(Ok(document)),
    ensures
        lockdown_alone_before(jobs, replies, replies.len() as int, document@) || combined_before(
            jobs,
            replies,
            replies.len() as int,
            document@,
        ),
{
    lemma_progress(jobs, replies, replies.len() as int);
}

/// No remote pairing is made with a device below iOS 17.4.
pub proof fn law_remote_pairing_needs_its_version(
    jobs: Seq<PairingBytes>,
    replies: Seq<PairingBytesReply>,
    n: int,
)
    requires
        is_run(jobs, replies),
        jobs[0].state == PairingBytesState::Connect,
        0 <= n < jobs.len(),
        jobs[n].state is PairRemotely,
    ensures
        jobs[n].state matches PairingBytesState::PairRemotely { lockdown, host } && host@
            == requests::HOST_NAME@ && lockdown_before(jobs, replies, n, lockdown@, true),
{
    lemma_progress(jobs, replies, n);
}

/// The record that a state holds.
spec fn record_in(state: PairingBytesState) -> Option<PairRecord> {
    match state {
        PairingBytesState::ListDevices { record } => Some(record),
        PairingBytesState::ResolveAddress { record, index } => Some(record),
        PairingBytesState::ConnectLockdown { record } => Some(record),
        PairingBytesState::StartSession { record } => Some(record),
        PairingBytesState::EnableWifiDebugging { record } => Some(record),
        PairingBytesState::ReadVersion { record } => Some(record),
        _ => None,
    }
}

proof fn lemma_progress(jobs: Seq<PairingBytes>, replies: Seq<PairingBytesReply>, n: int)
    requires
        is_run(jobs, replies),
        jobs[0].state == PairingBytesState::Connect,
        0 <= n <= replies.len(),
    ensures
        jobs[n].udid == jobs[0].udid,
        record_in(jobs[n].state) matches Some(record) ==> record_before(jobs, replies, n, record),
        jobs[n].state matches PairingBytesState::PairRemotely { lockdown, host } ==> host@
            == requests::HOST_NAME@ && lockdown_before(jobs, replies, n, lockdown@, true),
        jobs[n].state matches PairingBytesState::Finished(Ok(document)) ==> lockdown_alone_before(
            jobs,
            replies,
            n,
            document@,
        ) || combined_before(jobs, replies, n, document@),
    decreases n,
{
    if n > 0 {
        lemma_progress(jobs, replies, n - 1);
        let before = jobs[n - 1];
        let reply = replies[n - 1];
        assert(pairing_bytes_step(before, reply, jobs[n - 1 + 1]));
        if let Some(record) = record_in(before.state) {
            assert(record_before(jobs, replies, n, record));
        }
        if let PairingBytesState::ReadVersion { record } = before.state {
            if let Ok(lockdown) = documents::lockdown_value(record@, before.udid@) {
                let remote = !without_remote_pairing(version_in(reply));
                if reply is Version || reply is Failed {
                    assert(lockdown_before(jobs, replies, n, lockdown, remote));
                }
            }
        }
        if let PairingBytesState::PairRemotely { lockdown, host } = before.state {
            assert(lockdown_before(jobs, replies, n, lockdown@, true));
        }
        if let PairingBytesState::Finished(Ok(document)) = before.state {
            if lockdown_alone_before(jobs, replies, n - 1, document@) {
                let lockdown = choose|lockdown: plist::Value|
                    #[trigger] lockdown_before(jobs, replies, n - 1, lockdown, false)
                        && documents::lockdown_only(lockdown) == Ok::<Seq<u8>, ErrorView>(
                        document@,
                    );
                assert(lockdown_before(jobs, replies, n, lockdown, false));
            }
        }
    }
}

/// A failure ends the making of the document with its words, behind the name of the step where it
/// has one. The switch for debugging and the question for the version may fail.
pub proof fn law_a_failure_keeps_its_words(
    before: PairingBytes,
    text: String,
    after: PairingBytes,
)
    requires
        pairing_bytes_step(before, PairingBytesReply::Failed(text), after),
        !(before.state is Finished),
    ensures
        before.state is Connect || before.state is ListDevices || before.state is ResolveAddress
            ==> (after.state matches PairingBytesState::Finished(Err(e)) && e@.kind
            == ErrorKind::Usbmuxd && e@.detail == text@),
        before.state is ReadRecord ==> (after.state matches PairingBytesState::Finished(Err(e))
            && e@.kind == ErrorKind::Pairing && e@.detail == "get_pair_record: "@ + text@),
        before.state is ConnectLockdown ==> (after.state matches PairingBytesState::Finished(Err(e))
            && e@.kind == ErrorKind::Pairing && e@.detail == "lockdown: "@ + text@),
        before.state is StartSession ==> (after.state matches PairingBytesState::Finished(Err(e))
            && e@.kind == ErrorKind::Pairing && e@.detail == "start_session: "@ + text@),
        before.state is PairRemotely ==> (after.state matches PairingBytesState::Finished(Err(e))
            && e@.kind == ErrorKind::Pairing && e@.detail == text@),
        before.state matches PairingBytesState::EnableWifiDebugging { record } ==> after.state == (
        PairingBytesState::ReadVersion { record }),
{
}

/// The device is the first one of the list with the UDID of the job; where there is none, the
/// failure names the UDID. The record goes on as it is.
pub proof fn law_the_device_of_the_job_is_paired(
    before: PairingBytes,
    record: PairRecord,
    devices: Vec<Device>,
    after: PairingBytes,
    i: int,
)
    requires
        before.state == (PairingBytesState::ListDevices { record }),
        pairing_bytes_step(before, PairingBytesReply::Devices(devices), after),
    ensures
        0 <= i < devices@.len() && devices@[i].udid@ == before.udid@ && (forall|j: int|
            0 <= j < i ==> (#[trigger] devices@[j]).udid@ != before.udid@) ==> (after.state
            matches PairingBytesState::ResolveAddress { record: r, index } && r == record && index
            == i),
        (forall|j: int|
            0 <= j < devices@.len() ==> (#[trigger] devices@[j]).udid@ != before.udid@) ==> (
        after.state matches PairingBytesState::Finished(Err(e)) && e@.kind
            == ErrorKind::DeviceNotFound && e@.detail == before.udid@),
{
    device::law_the_first_device_is_found(devices@, before.udid@);
    assert(devices.len() == devices@.len());
    if 0 <= i < devices@.len() && devices@[i].udid@ == before.udid@ {
        if let Some(k) = device::first_with_udid(devices@, before.udid@) {
            assert(devices@[k].udid@ == before.udid@);
        }
    }
}

/// The record stays the one that was read, with the UDID of the job, up to the question for the
/// version.
pub proof fn law_the_record_is_kept(
    before: PairingBytes,
    record: PairRecord,
    after: PairingBytes,
    index: usize,
)
    requires
        pairing_bytes_step(before, PairingBytesReply::Done, after),
    ensures
        before.state == (PairingBytesState::ResolveAddress { record, index }) ==> after.state == (
        PairingBytesState::ConnectLockdown { record }),
        before.state == (PairingBytesState::ConnectLockdown { record }) ==> after.state == (
        PairingBytesState::StartSession { record }),
        before.state == (PairingBytesState::StartSession { record }) ==> after.state == (
        PairingBytesState::EnableWifiDebugging { record }),
        before.state == (PairingBytesState::EnableWifiDebugging { record }) ==> after.state == (
        PairingBytesState::ReadVersion { record }),
        after.udid == before.udid,
{
}

/// The record that is read goes on field by field, with the UDID of the job in the place of its
/// own.
pub proof fn law_the_record_that_was_read_goes_on(
    before: PairingBytes,
    record: PairRecord,
    after: PairingBytes,
)
    requires
        before.state is ReadRecord,
        pairing_bytes_step(before, PairingBytesReply::Record(record), after),
    ensures
        after.state matches PairingBytesState::ListDevices { record: named } && {
            &&& named@.udid == Some(before.udid@)
            &&& named.device_certificate@ == record.device_certificate@
            &&& named.host_private_key@ == record.host_private_key@
            &&& named.host_certificate@ == record.host_certificate@
            &&& named.root_private_key@ == record.root_private_key@
            &&& named.root_certificate@ == record.root_certificate@
            &&& named.system_buid@ == record.system_buid@
            &&& named.host_id@ == record.host_id@
            &&& named@.escrow_bag == record@.escrow_bag
            &&& named.wifi_mac_address@ == record.wifi_mac_address@
        },
{
    if let PairingBytesState::ListDevices { record: named } = after.state {
        documents::law_only_the_udid_is_filled_in(record@, before.udid@);
        documents::law_a_record_is_seen_field_by_field(record);
        documents::law_a_record_is_seen_field_by_field(named);
    }
}

/// Remote pairing comes with iOS 17.4: a version written as numbers, whatever follows the first
/// two, is without it exactly below that.
pub proof fn law_remote_pairing_comes_with_17_4(major: nat, minor: nat, rest: Seq<char>)
    requires
        major <= u32::MAX,
        minor <= u32::MAX,
    ensures
        ({
            let ios = crate::numbers::decimal(major).push('.') + crate::numbers::decimal(minor);
            &&& without_remote_pairing(ios) <==> major < 17 || (major == 17 && minor < 4)
            &&& without_remote_pairing(ios.push('.') + rest) <==> major < 17 || (major == 17
                && minor < 4)
        }),
        without_remote_pairing(Seq::empty()),
{
    let a = crate::numbers::decimal(major);
    let b = crate::numbers::decimal(minor);
    let ios = a.push('.') + b;
    version::law_versions_compare_by_number(major, minor, 17, 4);
    text::lemma_first_pieces(a, b, '.');
    text::law_joining_undoes_splitting(a, '.');
    version::law_only_two_parts_count(ios, rest, 17, 4);
    version::law_no_version_is_oldest(17, 4);
}

/// Once the version is known the document is made as it asks for: the lockdown document alone, or
/// with a remote pairing as this host still to come. A version that is no string, or did not
/// come, is one without remote pairing.
pub proof fn law_the_version_decides(
    before: PairingBytes,
    record: PairRecord,
    value: plist::Value,
    ios: Seq<char>,
    lockdown: plist::Value,
    after: PairingBytes,
)
    requires
        before.state == (PairingBytesState::ReadVersion { record }),
        documents::lockdown_value(record@, before.udid@) == Ok::<plist::Value, ErrorView>(lockdown),
        pairing_bytes_step(before, PairingBytesReply::Version(value), after),
        crate::property_list::string_in(value) == Some(ios) || (
        crate::property_list::string_in(value) is None && ios.len() == 0),
    ensures
        without_remote_pairing(ios) ==> (after.state matches PairingBytesState::Finished(r)
            && match r {
            Ok(document) => documents::lockdown_only(lockdown) == Ok::<Seq<u8>, ErrorView>(
                document@,
            ),
            Err(e) => documents::lockdown_only(lockdown) == Err::<Seq<u8>, ErrorView>(e@),
        }),
        !without_remote_pairing(ios) ==> (after.state matches PairingBytesState::PairRemotely {
            lockdown: made,
            host,
        } && made@ == lockdown && host@ == "iloader"@),
{
    if crate::property_list::string_in(value) is None {
        assert(ios =~= Seq::<char>::empty());
    }
}

/// The remote pairing that was made goes into the document, together with the lockdown document
/// that was made before.
pub proof fn law_the_pairing_goes_into_the_document(
    before: PairingBytes,
    lockdown: LockdownDocument,
    host: String,
    pairing: idevice::remote_pairing::RpPairingFile,
    after: PairingBytes,
)
    requires
        before.state == (PairingBytesState::PairRemotely { lockdown, host }),
        pairing_bytes_step(before, PairingBytesReply::Paired(pairing), after),
    ensures
        after.state matches PairingBytesState::Finished(r) && match r {
            Ok(document) => documents::lockdown_and_remote(
                lockdown@,
                documents::xml_of_remote_pairing(pairing),
            ) == Ok::<Seq<u8>, ErrorView>(document@),
            Err(e) => documents::lockdown_and_remote(
                lockdown@,
                documents::xml_of_remote_pairing(pairing),
            ) == Err::<Seq<u8>, ErrorView>(e@),
        },
{
}

/// The user is told of the dialog on the device exactly where a remote pairing is made.
pub proof fn law_the_user_is_told_of_the_dialog(job: PairingBytes)
    ensures
        job.state is PairRemotely ==> pairing_bytes_notice(job) == Some(
            "   Si el iPhone muestra un diálogo, pulsa Confiar."@,
        ),
        !(job.state is PairRemotely) ==> pairing_bytes_notice(job) is None,
{
}

/// No reply changes the device that is paired with, nor what is asked of it.
pub proof fn law_what_was_asked_for_is_kept(
    before: PairingBytes,
    reply: PairingBytesReply,
    after: PairingBytes,
)
    requires
        pairing_bytes_step(before, reply, after),
    ensures
        after.udid == before.udid,
        after.label == before.label,
        after.wifi_key == before.wifi_key,
        after.wifi_domain == before.wifi_domain,
        after.version_key == before.version_key,
{
}

/// A version that does not come is one without remote pairing: the lockdown document is the whole
/// document. Where the record makes no lockdown document, the job ends in that failure, whatever
/// came.
pub proof fn law_a_version_may_fail_to_come(
    before: PairingBytes,
    record: PairRecord,
    text: String,
    value: plist::Value,
    after_failure: PairingBytes,
    after_version: PairingBytes,
)
    requires
        before.state == (PairingBytesState::ReadVersion { record }),
        pairing_bytes_step(before, PairingBytesReply::Failed(text), after_failure),
        pairing_bytes_step(before, PairingBytesReply::Version(value), after_version),
    ensures
        documents::lockdown_value(record@, before.udid@) matches Ok(lockdown) ==> (
        after_failure.state matches PairingBytesState::Finished(r) && match r {
            Ok(document) => documents::lockdown_only(lockdown) == Ok::<Seq<u8>, ErrorView>(
                document@,
            ),
            Err(e) => documents::lockdown_only(lockdown) == Err::<Seq<u8>, ErrorView>(e@),
        }),
        documents::lockdown_value(record@, before.udid@) matches Err(e) ==> (after_failure.state
            matches PairingBytesState::Finished(Err(x)) && x@ == e) && (after_version.state
            matches PairingBytesState::Finished(Err(y)) && y@ == e),
{
    version::law_no_version_is_oldest(17, 4);
}

} // verus!
