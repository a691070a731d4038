//! The command that downloads SideStore, installs it and gives it a pairing file.

use vstd::prelude::*;
use vstd::string::*;

use crate::error;
use crate::error::{CliError, ErrorKind, ErrorView};
use crate::ipa;
use crate::ipa::Release;
use crate::text;

verus! {

/// How the command ended well.
#[derive(Debug)]
pub enum SidestoreEnd {
    Paired,
    /// SideStore is installed, but its pairing file could not be placed.
    NotPaired(CliError),
}

/// What has to be done next.
#[derive(Debug)]
pub enum SidestoreState {
    /// Download the release.
    Download,
    /// Choose a device.
    SelectDevice,
    /// Sign in.
    SignIn { udid: String },
    /// Install the download.
    Install { udid: String },
    /// Delete the download; it may fail.
    Delete { udid: String },
    /// Place the pairing file; it may fail.
    PlacePairing { udid: String },
    Finished(Result<SidestoreEnd, CliError>),
}

/// What came of it.
#[derive(Debug)]
pub enum SidestoreReply {
    Done,
    /// The installation, or the deletion, failed.
    Failed(String),
    /// A job on the way failed.
    JobFailed(CliError),
    Device(String),
}

/// The installation of SideStore.
#[derive(Debug)]
pub struct Sidestore {
    pub release: Release,
    /// Whether the app is to get a higher limit on its memory.
    pub more_memory: bool,
    pub state: SidestoreState,
}

/// Whether the job ended in the given failure.
pub open spec fn failed_with(job: Sidestore, e: ErrorView) -> bool {
    job.state matches SidestoreState::Finished(Err(x)) && x@ == e
}

/// How a reply changes the job.
pub open spec fn sidestore_step(
    before: Sidestore,
    reply: SidestoreReply,
    after: Sidestore,
) -> bool {
    &&& after.release == before.release
    &&& after.more_memory == before.more_memory
    &&& match (before.state, reply) {
        (SidestoreState::Download, SidestoreReply::Done) => after.state
            == SidestoreState::SelectDevice,
        (SidestoreState::Download, SidestoreReply::JobFailed(e)) => after.state
            == SidestoreState::Finished(Err(e)),
        (SidestoreState::SelectDevice, SidestoreReply::Device(udid)) => after.state
            == SidestoreState::SignIn { udid },
        (SidestoreState::SelectDevice, SidestoreReply::JobFailed(e)) => after.state
            == SidestoreState::Finished(Err(e)),
        (SidestoreState::SignIn { udid }, SidestoreReply::Done) => after.state
            == SidestoreState::Install { udid },
        (SidestoreState::SignIn { udid }, SidestoreReply::JobFailed(e)) => after.state
            == SidestoreState::Finished(Err(e)),
        (SidestoreState::Install { udid }, SidestoreReply::Done) => after.state
            == SidestoreState::Delete { udid },
        (SidestoreState::Install { udid }, SidestoreReply::Failed(text)) => failed_with(
            after,
            error::failure(ErrorKind::Sideload, text@),
        ),
        (SidestoreState::Delete { udid }, SidestoreReply::Done) => after.state
            == SidestoreState::PlacePairing { udid },
        (SidestoreState::Delete { udid }, SidestoreReply::Failed(_)) => after.state
            == SidestoreState::PlacePairing { udid },
        (SidestoreState::PlacePairing { udid }, SidestoreReply::Done) => after.state
            == SidestoreState::Finished(Ok(SidestoreEnd::Paired)),
        (SidestoreState::PlacePairing { udid }, SidestoreReply::JobFailed(e)) => after.state
            == SidestoreState::Finished(Ok(SidestoreEnd::NotPaired(e))),
        _ => after.state == before.state,
    }
}

/// The last line of the command.
pub open spec fn ready_line() -> Seq<char> {
    "\n🎉 Listo.\n   Ajustes → General → VPN y gestión de dispositivos → Confiar"@
}

/// What is shown on coming to a state.
pub open spec fn sidestore_notice(job: Sidestore) -> Seq<Seq<char>> {
    match job.state {
        SidestoreState::Download => seq!["⬇️  Descargando "@ + job.release.label@ + "…"@],
        SidestoreState::SelectDevice => seq!["✅ Descarga completa"@],
        SidestoreState::SignIn { udid } => seq!["📱 Dispositivo: "@ + udid@],
        SidestoreState::Install { udid } => seq![
            "📦 Instalando "@ + job.release.label@ + "…"@,
        ],
        SidestoreState::Delete { udid } => seq!["✅ IPA instalado"@],
        SidestoreState::PlacePairing { udid } => seq![
            "🔗 Colocando pairing file en "@ + job.release.label@ + "…"@,
        ],
        SidestoreState::Finished(Ok(SidestoreEnd::Paired)) => seq![
            "✅ Pairing colocado"@,
            ready_line(),
        ],
        SidestoreState::Finished(Ok(SidestoreEnd::NotPaired(e))) => seq![
            "⚠️  Pairing automático falló: "@ + error::error_text(e@),
            "   Ejecuta después: iloader pairing --app "@ + job.release.app_key@,
            ready_line(),
        ],
        SidestoreState::Finished(Err(_)) => Seq::empty(),
    }
}

impl Sidestore {
    pub fn new(nightly: bool, live_container: bool) -> (job: Sidestore)
        ensures
            job.release@ == ipa::release(nightly, live_container),
            !job.more_memory,
            job.state == SidestoreState::Download,
    {
        Sidestore {
            release: ipa::sidestore_release(nightly, live_container),
            more_memory: false,
            state: SidestoreState::Download,
        }
    }

    /// What is shown on coming to the present state.
    pub fn notice(&self) -> (r: Vec<String>)
        ensures
            text::texts(r@) == sidestore_notice(*self),
    {
        let ready = "\n🎉 Listo.\n   Ajustes → General → VPN y gestión de dispositivos → Confiar";
        let label = self.release.label.as_str();
        let mut out: Vec<String> = Vec::new();
        match &self.state {
            SidestoreState::Download => {
                out.push(text::concat3("⬇️  Descargando ", label, "…"));
            },
            SidestoreState::SelectDevice => {
                out.push("✅ Descarga completa".to_owned());
            },
            SidestoreState::SignIn { udid } => {
                out.push(text::concat2("📱 Dispositivo: ", udid.as_str()));
            },
            SidestoreState::Install { udid: _ } => {
                out.push(text::concat3("📦 Instalando ", label, "…"));
            },
            SidestoreState::Delete { udid: _ } => {
                out.push("✅ IPA instalado".to_owned());
            },
            SidestoreState::PlacePairing { udid: _ } => {
                out.push(text::concat3("🔗 Colocando pairing file en ", label, "…"));
            },
            SidestoreState::Finished(Ok(SidestoreEnd::Paired)) => {
                out.push("✅ Pairing colocado".to_owned());
                out.push(ready.to_owned());
            },
            SidestoreState::Finished(Ok(SidestoreEnd::NotPaired(e))) => {
                out.push(
                    text::concat2("⚠️  Pairing automático falló: ", e.message().as_str()),
                );
                out.push(
                    text::concat2(
                        "   Ejecuta después: iloader pairing --app ",
                        self.release.app_key.as_str(),
                    ),
                );
                out.push(ready.to_owned());
            },
            SidestoreState::Finished(Err(_)) => {},
        }
        assert(text::texts(out@) =~= sidestore_notice(*self));
        out
    }

    /// Goes on after a reply.
    pub fn advance(self, reply: SidestoreReply) -> (after: Sidestore)
        ensures
            sidestore_step(self, reply, after),
    {
        let Sidestore { release, more_memory, state } = self;
        let state = match (state, reply) {
            (SidestoreState::Download, SidestoreReply::Done) => SidestoreState::SelectDevice,
            (SidestoreState::Download, SidestoreReply::JobFailed(e)) => SidestoreState::Finished(
                Err(e),
            ),
            (SidestoreState::SelectDevice, SidestoreReply::Device(udid)) =>
                SidestoreState::SignIn { udid },
            (SidestoreState::SelectDevice, SidestoreReply::JobFailed(e)) =>
                SidestoreState::Finished(Err(e)),
            (SidestoreState::SignIn { udid }, SidestoreReply::Done) => SidestoreState::Install {
                udid,
            },
            (SidestoreState::SignIn { udid: _ }, SidestoreReply::JobFailed(e)) =>
                SidestoreState::Finished(Err(e)),
            (SidestoreState::Install { udid }, SidestoreReply::Done) => SidestoreState::Delete {
                udid,
            },
            (SidestoreState::Install { udid: _ }, SidestoreReply::Failed(text)) =>
                SidestoreState::Finished(Err(CliError::Sideload(text))),
            (SidestoreState::Delete { udid }, SidestoreReply::Done) =>
                SidestoreState::PlacePairing { udid },
            (SidestoreState::Delete { udid }, SidestoreReply::Failed(_)) =>
                SidestoreState::PlacePairing { udid },
            (SidestoreState::PlacePairing { udid: _ }, SidestoreReply::Done) =>
                SidestoreState::Finished(Ok(SidestoreEnd::Paired)),
            (SidestoreState::PlacePairing { udid: _ }, SidestoreReply::JobFailed(e)) =>
                SidestoreState::Finished(Ok(SidestoreEnd::NotPaired(e))),
            (state, _) => state,
        };
        Sidestore { release, more_memory, state }
    }
}

/// How many replies can still change the job, at most.
pub open spec fn steps_left(state: SidestoreState) -> nat {
    match state {
        SidestoreState::Download => 6,
        SidestoreState::SelectDevice => 5,
        SidestoreState::SignIn { udid } => 4,
        SidestoreState::Install { udid } => 3,
        SidestoreState::Delete { udid } => 2,
        SidestoreState::PlacePairing { udid } => 1,
        SidestoreState::Finished(_) => 0,
    }
}

/// Whether a reply is one that the work of a state can have.
pub open spec fn fits(state: SidestoreState, reply: SidestoreReply) -> bool {
    match state {
        SidestoreState::Download => reply is Done || reply is JobFailed,
        SidestoreState::SelectDevice => reply is Device || reply is JobFailed,
        SidestoreState::SignIn { udid } => reply is Done || reply is JobFailed,
        SidestoreState::Install { udid } => reply is Done || reply is Failed,
        SidestoreState::Delete { udid } => reply is Done || reply is Failed,
        SidestoreState::PlacePairing { udid } => reply is Done || reply is JobFailed,
        SidestoreState::Finished(_) => false,
    }
}

/// A reply that fits brings a job nearer to its end; one that does not fit leaves it as it is.
/// Some reply fits at every point but the end.
pub proof fn law_job_comes_to_its_end(
    before: Sidestore,
    reply: SidestoreReply,
    after: Sidestore,
)
    requires
        sidestore_step(before, reply, after),
    ensures
        fits(before.state, reply) ==> steps_left(after.state) < steps_left(before.state),
        steps_left(before.state) == 0 <==> before.state is Finished,
        !fits(before.state, reply) ==> after.state == before.state,
        !(before.state is Finished) <==> exists|r: SidestoreReply|
            #[trigger] fits(before.state, r),
{
    if !(before.state is Finished) {
        let failed = SidestoreReply::Failed(arbitrary());
        let other = SidestoreReply::JobFailed(CliError::NoDevice);
        assert(fits(before.state, failed) || fits(before.state, other));
    }
}

/// Whether each job follows from the one before it by the reply between them.
pub open spec fn is_run(jobs: Seq<Sidestore>, replies: Seq<SidestoreReply>) -> bool {
    &&& jobs.len() == replies.len() + 1
    &&& forall|i: int|
        0 <= i < replies.len() ==> #[trigger] sidestore_step(jobs[i], replies[i], jobs[i + 1])
}

/// Whether the release was downloaded before reply `n`.
pub open spec fn downloaded_before(
    jobs: Seq<Sidestore>,
    replies: Seq<SidestoreReply>,
    n: int,
) -> bool {
    exists|i: int| 0 <= i < n && jobs[i].state is Download && (#[trigger] replies[i]) is Done
}

/// Whether the device was chosen, after the download, before reply `n`.
pub open spec fn selected_before(
    jobs: Seq<Sidestore>,
    replies: Seq<SidestoreReply>,
    n: int,
    udid: String,
) -> bool {
    exists|i: int|
        0 <= i < n && jobs[i].state is SelectDevice && #[trigger] replies[i]
            == SidestoreReply::Device(udid) && downloaded_before(jobs, replies, i)
}

/// Whether the user was signed in, after the device was chosen, before reply `n`.
pub open spec fn signed_in_before(
    jobs: Seq<Sidestore>,
    replies: Seq<SidestoreReply>,
    n: int,
    udid: String,
) -> bool {
    exists|i: int|
        0 <= i < n && jobs[i].state is SignIn && (#[trigger] replies[i]) is Done
            && selected_before(jobs, replies, i, udid)
}

/// Whether SideStore was installed, after the user was signed in, before reply `n`.
pub open spec fn installed_before(
    jobs: Seq<Sidestore>,
    replies: Seq<SidestoreReply>,
    n: int,
    udid: String,
) -> bool {
    exists|i: int|
        0 <= i < n && jobs[i].state is Install && (#[trigger] replies[i]) is Done
            && signed_in_before(jobs, replies, i, udid)
}

/// Whether the placing of the pairing file, on the device that SideStore was installed on, was
/// answered with `reply` before reply `n`.
pub open spec fn pairing_answered_before(
    jobs: Seq<Sidestore>,
    replies: Seq<SidestoreReply>,
    n: int,
    reply: SidestoreReply,
) -> bool {
    exists|i: int|
        0 <= i < n && #[trigger] replies[i] == reply && (jobs[i].state
            matches SidestoreState::PlacePairing { udid } && installed_before(
            jobs,
            replies,
            i,
            udid,
        ))
}

/// A command that ends well downloaded the release, chose a device, signed in, installed the
/// release and tried to place the pairing file, in that order and on one device. It reports the
/// pairing as that last answer has it.
pub proof fn law_all_in_one(jobs: Seq<Sidestore>, replies: Seq<SidestoreReply>, end: SidestoreEnd)
    requires
        is_run(jobs, replies),
        jobs[0].state == SidestoreState::Download,
        jobs.last().state == SidestoreState::Finished(Ok(end)),
    ensures
        pairing_answered_before(
            jobs,
            replies,
            replies.len() as int,
            match end {
                SidestoreEnd::Paired => SidestoreReply::Done,
                SidestoreEnd::NotPaired(e) => SidestoreReply::JobFailed(e),
            },
        ),
{
    lemma_progress(jobs, replies, replies.len() as int);
}

proof fn lemma_step(jobs: Seq<Sidestore>, replies: Seq<SidestoreReply>, i: int)
    requires
        is_run(jobs, replies),
        0 <= i < replies.len(),
    ensures
        sidestore_step(jobs[i], replies[i], jobs[i + 1]),
{
}

/// Where everything outside succeeds, the command ends with SideStore installed and paired.
pub proof fn law_good_replies_end_well(jobs: Seq<Sidestore>, replies: Seq<SidestoreReply>)
    requires
        is_run(jobs, replies),
        jobs[0].state == SidestoreState::Download,
        replies.len() == 6,
        replies[0] is Done,
        replies[1] is Device,
        replies[2] is Done,
        replies[3] is Done,
        replies[4] is Done,
        replies[5] is Done,
    ensures
        jobs.last().state == SidestoreState::Finished(Ok(SidestoreEnd::Paired)),
{
    lemma_step(jobs, replies, 0);
    lemma_step(jobs, replies, 1);
    lemma_step(jobs, replies, 2);
    lemma_step(jobs, replies, 3);
    lemma_step(jobs, replies, 4);
    lemma_step(jobs, replies, 5);
}

/// Once SideStore is installed, nothing that follows makes the command fail.
pub proof fn law_installed_sidestore_is_success(
    jobs: Seq<Sidestore>,
    replies: Seq<SidestoreReply>,
    n: int,
    m: int,
)
    requires
        is_run(jobs, replies),
        0 <= n < m < jobs.len(),
        jobs[n].state is Install,
        replies[n] is Done,
    ensures
        !(jobs[m].state matches SidestoreState::Finished(Err(_))),
{
    lemma_after_install(jobs, replies, n, m);
}

proof fn lemma_after_install(
    jobs: Seq<Sidestore>,
    replies: Seq<SidestoreReply>,
    n: int,
    m: int,
)
    requires
        is_run(jobs, replies),
        0 <= n < m < jobs.len(),
        jobs[n].state is Install,
        replies[n] is Done,
    ensures
        match jobs[m].state {
            SidestoreState::Delete { udid } => true,
            SidestoreState::PlacePairing { udid } => true,
            SidestoreState::Finished(Ok(_)) => true,
            _ => false,
        },
    decreases m - n,
{
    if m > n + 1 {
        lemma_after_install(jobs, replies, n, m - 1);
    }
    assert(sidestore_step(jobs[m - 1], replies[m - 1], jobs[m - 1 + 1]));
}

proof fn lemma_progress(jobs: Seq<Sidestore>, replies: Seq<SidestoreReply>, n: int)
    requires
        is_run(jobs, replies),
        jobs[0].state == SidestoreState::Download,
        0 <= n <= replies.len(),
    ensures
        match jobs[n].state {
            SidestoreState::Download => true,
            SidestoreState::SelectDevice => downloaded_before(jobs, replies, n),
            SidestoreState::SignIn { udid } => selected_before(jobs, replies, n, udid),
            SidestoreState::Install { udid } => signed_in_before(jobs, replies, n, udid),
            SidestoreState::Delete { udid } => installed_before(jobs, replies, n, udid),
            SidestoreState::PlacePairing { udid } => installed_before(jobs, replies, n, udid),
            SidestoreState::Finished(Ok(SidestoreEnd::Paired)) => pairing_answered_before(
                jobs,
                replies,
                n,
                SidestoreReply::Done,
            ),
            SidestoreState::Finished(Ok(SidestoreEnd::NotPaired(e))) => pairing_answered_before(
                jobs,
                replies,
                n,
                SidestoreReply::JobFailed(e),
            ),
            SidestoreState::Finished(Err(_)) => true,
        },
    decreases n,
{
    if n > 0 {
        lemma_progress(jobs, replies, n - 1);
        assert(sidestore_step(jobs[n - 1], replies[n - 1], jobs[n - 1 + 1]));
    }
}

/// The failure of a job on the way is the failure of the command, as it is; a failed installation
/// is one of sideloading with its words. Neither a file that cannot be deleted nor a pairing that
/// fails makes the command fail.
pub proof fn law_a_failure_keeps_its_words(
    before: Sidestore,
    udid: String,
    text: String,
    e: CliError,
    after_work: Sidestore,
    after_job: Sidestore,
)
    requires
        sidestore_step(before, SidestoreReply::Failed(text), after_work),
        sidestore_step(before, SidestoreReply::JobFailed(e), after_job),
    ensures
        before.state is Install ==> (after_work.state matches SidestoreState::Finished(Err(x))
            && x@.kind == ErrorKind::Sideload && x@.detail == text@),
        before.state == (SidestoreState::Delete { udid }) ==> after_work.state == (
        SidestoreState::PlacePairing { udid }),
        before.state is Download || before.state is SelectDevice || before.state is SignIn
            ==> after_job.state == SidestoreState::Finished(Err(e)),
        before.state is PlacePairing ==> after_job.state == SidestoreState::Finished(
            Ok(SidestoreEnd::NotPaired(e)),
        ),
        after_work.release == before.release,
        after_job.release == before.release,
{
}

/// The device that was chosen stays the same to the end.
pub proof fn law_the_device_stays(
    before: Sidestore,
    udid: String,
    after_device: Sidestore,
    after_done: Sidestore,
)
    requires
        sidestore_step(before, SidestoreReply::Device(udid), after_device),
        sidestore_step(before, SidestoreReply::Done, after_done),
    ensures
        before.state is SelectDevice ==> after_device.state == (SidestoreState::SignIn { udid }),
        before.state == (SidestoreState::SignIn { udid }) ==> after_done.state == (
        SidestoreState::Install { udid }),
        before.state == (SidestoreState::Install { udid }) ==> after_done.state == (
        SidestoreState::Delete { udid }),
        before.state == (SidestoreState::Delete { udid }) ==> after_done.state == (
        SidestoreState::PlacePairing { udid }),
{
}

/// The user is told at each point what is done, and with what: the release by its label, the
/// device by its UDID, and at the end how the pairing went and what to do where it failed.
pub proof fn law_the_user_is_told(job: Sidestore, udid: String, e: CliError)
    ensures
        ({
            let told = sidestore_notice(job);
            let label = job.release.label@;
            let ready =
                "\n🎉 Listo.\n   Ajustes → General → VPN y gestión de dispositivos → Confiar"@;
            &&& job.state is Download ==> told == seq!["⬇️  Descargando "@ + label + "…"@]
            &&& job.state is SelectDevice ==> told == seq!["✅ Descarga completa"@]
            &&& job.state == (SidestoreState::SignIn { udid }) ==> told == seq![
                "📱 Dispositivo: "@ + udid@,
            ]
            &&& job.state is Install ==> told == seq!["📦 Instalando "@ + label + "…"@]
            &&& job.state is Delete ==> told == seq!["✅ IPA instalado"@]
            &&& job.state is PlacePairing ==> told == seq![
                "🔗 Colocando pairing file en "@ + label + "…"@,
            ]
            &&& job.state == SidestoreState::Finished(Ok(SidestoreEnd::Paired)) ==> told == seq![
                "✅ Pairing colocado"@,
                ready,
            ]
            &&& job.state == SidestoreState::Finished(Ok(SidestoreEnd::NotPaired(e))) ==> told
                == seq![
                "⚠️  Pairing automático falló: "@ + error::error_text(e@),
                "   Ejecuta después: iloader pairing --app "@ + job.release.app_key@,
                ready,
            ]
            &&& job.state matches SidestoreState::Finished(Err(_)) ==> told.len() == 0
        }),
{
}

/// No reply changes the release, nor how it is installed.
pub proof fn law_what_was_asked_for_is_kept(
    before: Sidestore,
    reply: SidestoreReply,
    after: Sidestore,
)
    requires
        sidestore_step(before, reply, after),
    ensures
        after.release == before.release,
        after.more_memory == before.more_memory,
{
}

} // verus!
