//! The command that installs an IPA.

use vstd::prelude::*;
use vstd::string::*;

use crate::device;
use crate::error;
use crate::error::{CliError, ErrorKind, ErrorView, IoKind};
use crate::ipa;
use crate::ipa::IpaSource;
use crate::text;

verus! {

/// What has to be done next.
#[derive(Debug)]
pub enum InstallationState {
    /// Download the IPA, or see that the file exists.
    Fetch(IpaSource),
    /// Choose a device.
    SelectDevice { path: String },
    /// Sign in.
    SignIn { path: String, udid: String },
    /// Install the file on the device.
    Install { path: String, udid: String },
    /// Delete the file; it may fail.
    Delete { path: String },
    Finished(Result<(), CliError>),
}

/// What came of it.
#[derive(Debug)]
pub enum InstallationReply {
    Done,
    /// The installation, or the deletion, failed.
    Failed(String),
    /// A job on the way failed.
    JobFailed(CliError),
    /// The download is stored in a directory, as it is shown.
    Stored { directory: String },
    /// The local file is there.
    Exists,
    /// There is no such local file.
    Missing,
    Device(String),
}

/// The installation of an IPA.
#[derive(Debug)]
pub struct Installation {
    /// The address or the path of the IPA.
    pub ipa: String,
    /// Whether the app is to get a higher limit on its memory.
    pub more_memory: bool,
    pub state: InstallationState,
}

/// Whether the job ended in the given failure.
pub open spec fn failed_with(job: Installation, e: ErrorView) -> bool {
    job.state matches InstallationState::Finished(Err(x)) && x@ == e
}

/// How a reply changes the job.
pub open spec fn installation_step(
    before: Installation,
    reply: InstallationReply,
    after: Installation,
) -> bool {
    &&& after.ipa == before.ipa
    &&& after.more_memory == before.more_memory
    &&& match (before.state, reply) {
        (InstallationState::Fetch(IpaSource::File), InstallationReply::Exists) => after.state
            matches InstallationState::SelectDevice { path } && path@ == before.ipa@,
        (
            InstallationState::Fetch(IpaSource::Download { stored_as, notice }),
            InstallationReply::Stored { directory },
        ) => after.state matches InstallationState::SelectDevice { path } && path@
            == text::path_below(directory@, stored_as@),
        (InstallationState::Fetch(IpaSource::File), InstallationReply::Missing) => failed_with(
            after,
            error::failure(
                ErrorKind::Io(IoKind::NotFound),
                "Archivo no encontrado: "@ + before.ipa@,
            ),
        ),
        (
            InstallationState::Fetch(IpaSource::Download { stored_as, notice }),
            InstallationReply::JobFailed(e),
        ) => after.state == InstallationState::Finished(Err(e)),
        (InstallationState::SelectDevice { path }, InstallationReply::Device(udid)) => after.state
            == InstallationState::SignIn { path, udid },
        (InstallationState::SelectDevice { path }, InstallationReply::JobFailed(e)) => after.state
            == InstallationState::Finished(Err(e)),
        (InstallationState::SignIn { path, udid }, InstallationReply::Done) => after.state
            == InstallationState::Install { path, udid },
        (InstallationState::SignIn { path, udid }, InstallationReply::JobFailed(e)) => after.state
            == InstallationState::Finished(Err(e)),
        (InstallationState::Install { path, udid }, InstallationReply::Done) => after.state
            == if ipa::deleted_after_install(before.ipa@) {
            InstallationState::Delete { path }
        } else {
            InstallationState::Finished(Ok(()))
        },
        (InstallationState::Install { path, udid }, InstallationReply::Failed(text)) =>
            failed_with(after, error::failure(ErrorKind::Sideload, text@)),
        (InstallationState::Delete { path }, InstallationReply::Done) => after.state
            == InstallationState::Finished(Ok(())),
        (InstallationState::Delete { path }, InstallationReply::Failed(_)) => after.state
            == InstallationState::Finished(Ok(())),
        _ => after.state == before.state,
    }
}

/// What is shown on coming to a state.
pub open spec fn installation_notice(job: Installation) -> Option<Seq<char>> {
    match job.state {
        InstallationState::Fetch(IpaSource::Download { stored_as, notice }) => Some(notice@),
        InstallationState::SignIn { path, udid } => Some("📱 Dispositivo: "@ + udid@),
        InstallationState::Install { path, udid } => Some("📦 Instalando "@ + path@ + "…"@),
        InstallationState::Finished(Ok(_)) => Some(
            "✅ Instalado.\n   Ajustes → General → VPN y gestión de dispositivos → Confiar"@,
        ),
        _ => None,
    }
}

impl Installation {
    pub fn new(ipa: String) -> (job: Installation)
        ensures
            job.ipa == ipa,
            !job.more_memory,
            job.state matches InstallationState::Fetch(source) && ipa::is_source(source, ipa@),
    {
        let source = ipa::resolve_ipa(ipa.as_str());
        Installation { ipa, more_memory: false, state: InstallationState::Fetch(source) }
    }

    /// What is shown on coming to the present state.
    pub fn notice(&self) -> (r: Option<String>)
        ensures
            device::text_of(r) == installation_notice(*self),
    {
        match &self.state {
            InstallationState::Fetch(IpaSource::Download { stored_as: _, notice }) => Some(
                notice.clone(),
            ),
            InstallationState::SignIn { path: _, udid } => Some(
                text::concat2("📱 Dispositivo: ", udid.as_str()),
            ),
            InstallationState::Install { path, udid: _ } => Some(
                text::concat3("📦 Instalando ", path.as_str(), "…"),
            ),
            InstallationState::Finished(Ok(_)) => Some(
                "✅ Instalado.\n   Ajustes → General → VPN y gestión de dispositivos → Confiar".to_owned(),
            ),
            _ => None,
        }
    }

    /// Goes on after a reply.
    pub fn advance(self, reply: InstallationReply) -> (after: Installation)
        ensures
            installation_step(self, reply, after),
    {
        let Installation { ipa, more_memory, state } = self;
        let state = match (state, reply) {
            (InstallationState::Fetch(IpaSource::File), InstallationReply::Exists) =>
                InstallationState::SelectDevice { path: ipa.clone() },
            (
                InstallationState::Fetch(IpaSource::Download { stored_as, notice: _ }),
                InstallationReply::Stored { directory },
            ) => InstallationState::SelectDevice {
                path: text::join_path(directory.as_str(), stored_as.as_str()),
            },
            (InstallationState::Fetch(IpaSource::File), InstallationReply::Missing) =>
                InstallationState::Finished(Err(ipa::missing_file(ipa.as_str()))),
            (
                InstallationState::Fetch(IpaSource::Download { stored_as: _, notice: _ }),
                InstallationReply::JobFailed(e),
            ) => InstallationState::Finished(Err(e)),
            (InstallationState::SelectDevice { path }, InstallationReply::Device(udid)) =>
                InstallationState::SignIn { path, udid },
            (InstallationState::SelectDevice { path: _ }, InstallationReply::JobFailed(e)) =>
                InstallationState::Finished(Err(e)),
            (InstallationState::SignIn { path, udid }, InstallationReply::Done) =>
                InstallationState::Install { path, udid },
            (InstallationState::SignIn { path: _, udid: _ }, InstallationReply::JobFailed(e)) =>
                InstallationState::Finished(Err(e)),
            (InstallationState::Install { path, udid: _ }, InstallationReply::Done) => {
                if ipa::is_deleted_after_install(ipa.as_str()) {
                    InstallationState::Delete { path }
                } else {
                    InstallationState::Finished(Ok(()))
                }
            },
            (InstallationState::Install { path: _, udid: _ }, InstallationReply::Failed(text)) =>
                InstallationState::Finished(Err(CliError::Sideload(text))),
            (InstallationState::Delete { path: _ }, InstallationReply::Done) =>
                InstallationState::Finished(Ok(())),
            (InstallationState::Delete { path: _ }, InstallationReply::Failed(_)) =>
                InstallationState::Finished(Ok(())),
            (state, _) => state,
        };
        Installation { ipa, more_memory, state }
    }
}

/// How many replies can still change the job, at most.
pub open spec fn steps_left(state: InstallationState) -> nat {
    match state {
        InstallationState::Fetch(_) => 5,
        InstallationState::SelectDevice { path } => 4,
        InstallationState::SignIn { path, udid } => 3,
        InstallationState::Install { path, udid } => 2,
        InstallationState::Delete { path } => 1,
        InstallationState::Finished(_) => 0,
    }
}

/// Whether a reply is one that the work of a state can have.
pub open spec fn fits(state: InstallationState, reply: InstallationReply) -> bool {
    match state {
        InstallationState::Fetch(IpaSource::File) => reply is Exists || reply is Missing,
        InstallationState::Fetch(IpaSource::Download { stored_as, notice }) => reply is Stored
            || reply is JobFailed,
        InstallationState::SelectDevice { path } => reply is Device || reply is JobFailed,
        InstallationState::SignIn { path, udid } => reply is Done || reply is JobFailed,
        InstallationState::Install { path, udid } => reply is Done || reply is Failed,
        InstallationState::Delete { path } => reply is Done || reply is Failed,
        InstallationState::Finished(_) => false,
    }
}

/// A reply that fits brings a job nearer to its end; one that does not fit leaves it as it is.
/// Some reply fits at every point but the end.
pub proof fn law_job_comes_to_its_end(
    before: Installation,
    reply: InstallationReply,
    after: Installation,
)
    requires
        installation_step(before, reply, after),
    ensures
        fits(before.state, reply) ==> steps_left(after.state) < steps_left(before.state),
        steps_left(before.state) == 0 <==> before.state is Finished,
        !fits(before.state, reply) ==> after.state == before.state,
        !(before.state is Finished) <==> exists|r: InstallationReply|
            #[trigger] fits(before.state, r),
{
    if !(before.state is Finished) {
        let failed = InstallationReply::Failed(arbitrary());
        let other = InstallationReply::JobFailed(CliError::NoDevice);
        let missing = InstallationReply::Missing;
        assert(fits(before.state, failed) || fits(before.state, other) || fits(
            before.state,
            missing,
        ));
    }
}

/// Whether each job follows from the one before it by the reply between them.
pub open spec fn is_run(jobs: Seq<Installation>, replies: Seq<InstallationReply>) -> bool {
    &&& jobs.len() == replies.len() + 1
    &&& forall|i: int|
        0 <= i < replies.len() ==> #[trigger] installation_step(jobs[i], replies[i], jobs[i + 1])
}

/// Whether a reply says that the file of an IPA is there, at `path`: a local one at the path that
/// was given, a download below the directory in which it was stored.
pub open spec fn is_fetched(
    source: IpaSource,
    ipa: Seq<char>,
    reply: InstallationReply,
    path: Seq<char>,
) -> bool {
    match (source, reply) {
        (IpaSource::File, InstallationReply::Exists) => path == ipa,
        (
            IpaSource::Download { stored_as, notice },
            InstallationReply::Stored { directory },
        ) => path == text::path_below(directory@, stored_as@),
        _ => false,
    }
}

/// Whether the file at `path` was there before reply `n`.
pub open spec fn fetched_before(
    jobs: Seq<Installation>,
    replies: Seq<InstallationReply>,
    n: int,
    path: String,
) -> bool {
    exists|i: int|
        0 <= i < n && (jobs[i].state matches InstallationState::Fetch(source) && is_fetched(
            source,
            jobs[0].ipa@,
            #[trigger] replies[i],
            path@,
        ))
}

/// Whether the device was chosen, after the file was there, before reply `n`.
pub open spec fn selected_before(
    jobs: Seq<Installation>,
    replies: Seq<InstallationReply>,
    n: int,
    path: String,
    udid: String,
) -> bool {
    exists|i: int|
        0 <= i < n && jobs[i].state is SelectDevice && #[trigger] replies[i]
            == InstallationReply::Device(udid) && fetched_before(jobs, replies, i, path)
}

/// Whether the user was signed in, after the device was chosen, before reply `n`.
pub open spec fn signed_in_before(
    jobs: Seq<Installation>,
    replies: Seq<InstallationReply>,
    n: int,
    path: String,
    udid: String,
) -> bool {
    exists|i: int|
        0 <= i < n && jobs[i].state is SignIn && (#[trigger] replies[i]) is Done
            && selected_before(jobs, replies, i, path, udid)
}

/// Whether the file was installed on the device, after the user was signed in, before reply
/// `n`.
pub open spec fn installed_before(
    jobs: Seq<Installation>,
    replies: Seq<InstallationReply>,
    n: int,
    path: String,
    udid: String,
) -> bool {
    exists|i: int|
        0 <= i < n && (#[trigger] replies[i]) is Done && jobs[i].state == (
        InstallationState::Install { path, udid }) && signed_in_before(
            jobs,
            replies,
            i,
            path,
            udid,
        )
}

/// Whether the file was installed on some device before reply `n`.
pub open spec fn file_installed_before(
    jobs: Seq<Installation>,
    replies: Seq<InstallationReply>,
    n: int,
    path: String,
) -> bool {
    exists|udid: String| installed_before(jobs, replies, n, path, udid)
}

/// An installation that ends well fetched a file, chose a device, signed in and installed that
/// file on that device, in this order.
pub proof fn law_installation_takes_its_steps_in_order(
    jobs: Seq<Installation>,
    replies: Seq<InstallationReply>,
)
    requires
        is_run(jobs, replies),
        jobs[0].state is Fetch,
        jobs.last().state == InstallationState::Finished(Ok(())),
    ensures
        exists|path: String|
            #[trigger] file_installed_before(jobs, replies, replies.len() as int, path),
{
    lemma_progress(jobs, replies, replies.len() as int);
}

proof fn lemma_step(jobs: Seq<Installation>, replies: Seq<InstallationReply>, i: int)
    requires
        is_run(jobs, replies),
        0 <= i < replies.len(),
    ensures
        installation_step(jobs[i], replies[i], jobs[i + 1]),
{
}

/// Where everything outside succeeds, the installation ends well.
pub proof fn law_good_replies_end_well(jobs: Seq<Installation>, replies: Seq<InstallationReply>)
    requires
        is_run(jobs, replies),
        jobs[0].state is Fetch,
        replies.len() == 5,
        fits(jobs[0].state, replies[0]),
        replies[0] is Exists || replies[0] is Stored,
        replies[1] is Device,
        replies[2] is Done,
        replies[3] is Done,
        replies[4] is Done,
    ensures
        jobs.last().state == InstallationState::Finished(Ok(())),
{
    lemma_step(jobs, replies, 0);
    lemma_step(jobs, replies, 1);
    lemma_step(jobs, replies, 2);
    lemma_step(jobs, replies, 3);
    lemma_step(jobs, replies, 4);
}

/// The path that a state holds.
pub open spec fn path_in(state: InstallationState) -> Option<String> {
    match state {
        InstallationState::SelectDevice { path } => Some(path),
        InstallationState::SignIn { path, udid } => Some(path),
        InstallationState::Install { path, udid } => Some(path),
        InstallationState::Delete { path } => Some(path),
        _ => None,
    }
}

/// An IPA that is no address is not downloaded: at every point its path is the one that was
/// given, and what is installed is the file at that path.
pub proof fn law_local_file_is_taken_as_given(
    jobs: Seq<Installation>,
    replies: Seq<InstallationReply>,
    n: int,
)
    requires
        is_run(jobs, replies),
        jobs[0].state matches InstallationState::Fetch(source) && ipa::is_source(
            source,
            jobs[0].ipa@,
        ),
        !ipa::is_remote(jobs[0].ipa@),
        0 <= n < jobs.len(),
    ensures
        jobs[n].ipa == jobs[0].ipa,
        jobs[n].state matches InstallationState::Fetch(source) ==> source == IpaSource::File,
        path_in(jobs[n].state) matches Some(path) ==> path@ == jobs[0].ipa@,
        forall|path: String|
            #[trigger] file_installed_before(jobs, replies, n, path) ==> path@ == jobs[0].ipa@,
    decreases n,
{
    if n > 0 {
        law_local_file_is_taken_as_given(jobs, replies, n - 1);
        lemma_step(jobs, replies, n - 1);
    }
    assert forall|path: String| #[trigger]
        file_installed_before(jobs, replies, n, path) implies path@ == jobs[0].ipa@ by {
        let udid = choose|udid: String| installed_before(jobs, replies, n, path, udid);
        let i = choose|i: int|
            0 <= i < n && (#[trigger] replies[i]) is Done && jobs[i].state == (
            InstallationState::Install { path, udid }) && signed_in_before(
                jobs,
                replies,
                i,
                path,
                udid,
            );
        law_local_file_is_taken_as_given(jobs, replies, i);
    }
}

/// Whether a path is that of the download of an IPA, below some directory.
pub open spec fn is_download_path(path: Seq<char>, ipa: Seq<char>) -> bool {
    exists|directory: Seq<char>|
        path == #[trigger] text::path_below(directory, ipa::stored_name(ipa))
}

/// An IPA that is an address is taken from the file that its download is stored under.
pub proof fn law_download_is_taken_from_its_file(
    jobs: Seq<Installation>,
    replies: Seq<InstallationReply>,
    n: int,
)
    requires
        is_run(jobs, replies),
        jobs[0].state matches InstallationState::Fetch(source) && ipa::is_source(
            source,
            jobs[0].ipa@,
        ),
        ipa::is_remote(jobs[0].ipa@),
        0 <= n < jobs.len(),
    ensures
        jobs[n].ipa == jobs[0].ipa,
        jobs[n].state matches InstallationState::Fetch(source) ==> ipa::is_source(
            source,
            jobs[0].ipa@,
        ),
        path_in(jobs[n].state) matches Some(path) ==> is_download_path(path@, jobs[0].ipa@),
    decreases n,
{
    if n > 0 {
        law_download_is_taken_from_its_file(jobs, replies, n - 1);
        lemma_step(jobs, replies, n - 1);
    }
}

/// A local file that is missing ends the installation in the failure that names it.
pub proof fn law_missing_file_is_named(before: Installation, after: Installation)
    requires
        before.state matches InstallationState::Fetch(source) && ipa::is_source(
            source,
            before.ipa@,
        ),
        !ipa::is_remote(before.ipa@),
        installation_step(before, InstallationReply::Missing, after),
    ensures
        failed_with(
            after,
            error::failure(
                ErrorKind::Io(IoKind::NotFound),
                "Archivo no encontrado: "@ + before.ipa@,
            ),
        ),
{
}

/// A file is deleted only after it was installed, and only where the name of the IPA says so.
pub proof fn law_only_an_installed_file_is_deleted(
    jobs: Seq<Installation>,
    replies: Seq<InstallationReply>,
    n: int,
    path: String,
)
    requires
        is_run(jobs, replies),
        jobs[0].state is Fetch,
        0 <= n < jobs.len(),
        jobs[n].state == (InstallationState::Delete { path }),
    ensures
        file_installed_before(jobs, replies, n, path),
        ipa::deleted_after_install(jobs[0].ipa@),
{
    lemma_progress(jobs, replies, n);
}

/// Whether the file was to be deleted before reply `n`.
pub open spec fn deleted_before(
    jobs: Seq<Installation>,
    replies: Seq<InstallationReply>,
    n: int,
) -> bool {
    exists|i: int|
        0 <= i < n && (#[trigger] jobs[i]).state is Delete && (replies[i] is Done
            || replies[i] is Failed)
}

/// An installation from an address that ends well deleted the download, or tried to.
pub proof fn law_installed_download_is_deleted(
    jobs: Seq<Installation>,
    replies: Seq<InstallationReply>,
)
    requires
        is_run(jobs, replies),
        jobs[0].state is Fetch,
        jobs.last().state == InstallationState::Finished(Ok(())),
        ipa::is_remote(jobs[0].ipa@),
    ensures
        deleted_before(jobs, replies, replies.len() as int),
{
    ipa::law_downloads_are_deleted(jobs[0].ipa@);
    lemma_deleted(jobs, replies, replies.len() as int);
}

proof fn lemma_deleted(jobs: Seq<Installation>, replies: Seq<InstallationReply>, n: int)
    requires
        is_run(jobs, replies),
        jobs[0].state is Fetch,
        ipa::deleted_after_install(jobs[0].ipa@),
        0 <= n <= replies.len(),
    ensures
        jobs[n].ipa == jobs[0].ipa,
        jobs[n].state matches InstallationState::Finished(Ok(_)) ==> deleted_before(
            jobs,
            replies,
            n,
        ),
    decreases n,
{
    if n > 0 {
        let m = n - 1;
        lemma_deleted(jobs, replies, m);
        lemma_step(jobs, replies, m);
        if deleted_before(jobs, replies, m) {
            let i = choose|i: int|
                0 <= i < m && (#[trigger] jobs[i]).state is Delete && (replies[i] is Done
                    || replies[i] is Failed);
            assert(jobs[i].state is Delete);
        }
        if jobs[m].state is Delete && jobs[n].state is Finished {
            assert(deleted_before(jobs, replies, n));
        }
    }
}

/// An installation that fails deletes nothing.
pub proof fn law_failed_installation_deletes_nothing(
    jobs: Seq<Installation>,
    replies: Seq<InstallationReply>,
    n: int,
)
    requires
        is_run(jobs, replies),
        jobs.last().state matches InstallationState::Finished(Err(_)),
        0 <= n < jobs.len(),
    ensures
        !(jobs[n].state is Delete),
{
    if jobs[n].state is Delete {
        lemma_deleting_ends_well(jobs, replies, n, replies.len() as int);
    }
}

proof fn lemma_deleting_ends_well(
    jobs: Seq<Installation>,
    replies: Seq<InstallationReply>,
    n: int,
    m: int,
)
    requires
        is_run(jobs, replies),
        0 <= n <= m <= replies.len(),
        jobs[n].state is Delete,
    ensures
        jobs[m].state is Delete || jobs[m].state == InstallationState::Finished(Ok(())),
    decreases m - n,
{
    if m > n {
        lemma_deleting_ends_well(jobs, replies, n, m - 1);
        assert(installation_step(jobs[m - 1], replies[m - 1], jobs[m - 1 + 1]));
    }
}

proof fn lemma_progress(jobs: Seq<Installation>, replies: Seq<InstallationReply>, n: int)
    requires
        is_run(jobs, replies),
        jobs[0].state is Fetch,
        0 <= n <= replies.len(),
    ensures
        jobs[n].ipa == jobs[0].ipa,
        match jobs[n].state {
            InstallationState::Fetch(_) => true,
            InstallationState::SelectDevice { path } => fetched_before(jobs, replies, n, path),
            InstallationState::SignIn { path, udid } => selected_before(
                jobs,
                replies,
                n,
                path,
                udid,
            ),
            InstallationState::Install { path, udid } => signed_in_before(
                jobs,
                replies,
                n,
                path,
                udid,
            ),
            InstallationState::Delete { path } => file_installed_before(jobs, replies, n, path)
                && ipa::deleted_after_install(jobs[0].ipa@),
            InstallationState::Finished(Ok(_)) => exists|path: String|
                file_installed_before(jobs, replies, n, path),
            InstallationState::Finished(Err(_)) => true,
        },
    decreases n,
{
    if n > 0 {
        let m = n - 1;
        lemma_progress(jobs, replies, m);
        let before = jobs[m].state;
        assert(installation_step(jobs[n - 1], replies[n - 1], jobs[n - 1 + 1]));
        if let InstallationState::Install { path, udid } = before {
            if replies[m] is Done {
                assert(installed_before(jobs, replies, n, path, udid));
                assert(file_installed_before(jobs, replies, n, path));
            }
        }
        if let InstallationState::Delete { path } = before {
            lemma_installed_earlier(jobs, replies, m, path);
        }
        if let InstallationState::Finished(Ok(_)) = before {
            let path = choose|path: String| file_installed_before(jobs, replies, m, path);
            lemma_installed_earlier(jobs, replies, m, path);
        }
    }
}

proof fn lemma_installed_earlier(
    jobs: Seq<Installation>,
    replies: Seq<InstallationReply>,
    m: int,
    path: String,
)
    requires
        file_installed_before(jobs, replies, m, path),
    ensures
        file_installed_before(jobs, replies, m + 1, path),
{
    let udid = choose|udid: String| installed_before(jobs, replies, m, path, udid);
    assert(installed_before(jobs, replies, m + 1, path, udid));
}

/// A file whose name does not begin with the four characters h, t, t, p is never deleted: no run
/// on such an IPA comes to the point where it would be.
pub proof fn law_a_file_of_the_user_stays(
    jobs: Seq<Installation>,
    replies: Seq<InstallationReply>,
    n: int,
)
    requires
        is_run(jobs, replies),
        jobs[0].state is Fetch,
        0 <= n < jobs.len(),
        ({
            let ipa = jobs[0].ipa@;
            !(ipa.len() >= 4 && ipa[0] == 'h' && ipa[1] == 't' && ipa[2] == 't' && ipa[3] == 'p')
        }),
    ensures
        !(jobs[n].state is Delete),
{
    lemma_progress(jobs, replies, n);
    ipa::law_only_what_begins_with_http_is_deleted(jobs[0].ipa@);
}

/// After the installation a file is deleted exactly where the IPA begins with the four characters
/// h, t, t, p; else the command is at its end.
pub proof fn law_the_name_decides_on_deletion(
    before: Installation,
    path: String,
    udid: String,
    after: Installation,
)
    requires
        before.state == (InstallationState::Install { path, udid }),
        installation_step(before, InstallationReply::Done, after),
    ensures
        ({
            let ipa = before.ipa@;
            if ipa.len() >= 4 && ipa[0] == 'h' && ipa[1] == 't' && ipa[2] == 't' && ipa[3] == 'p' {
                after.state == (InstallationState::Delete { path })
            } else {
                after.state == InstallationState::Finished(Ok(()))
            }
        }),
{
    ipa::law_only_what_begins_with_http_is_deleted(before.ipa@);
}

/// The failure of a job on the way is the failure of the command, as it is; a failed installation
/// is one of sideloading with its words; that a file cannot be deleted is no failure.
pub proof fn law_a_failure_keeps_its_words(
    before: Installation,
    text: String,
    e: CliError,
    after_work: Installation,
    after_job: Installation,
)
    requires
        installation_step(before, InstallationReply::Failed(text), after_work),
        installation_step(before, InstallationReply::JobFailed(e), after_job),
    ensures
        before.state is Install ==> (after_work.state matches InstallationState::Finished(Err(x))
            && x@.kind == ErrorKind::Sideload && x@.detail == text@),
        before.state is Delete ==> after_work.state == InstallationState::Finished(Ok(())),
        before.state is SelectDevice || before.state is SignIn ==> after_job.state
            == InstallationState::Finished(Err(e)),
        before.state matches InstallationState::Fetch(source) && source is Download
            ==> after_job.state == InstallationState::Finished(Err(e)),
{
}

/// The user is told which file is downloaded, which device it is, which file is installed, and
/// that it is done; between, and of a failure, nothing.
pub proof fn law_the_user_is_told(
    job: Installation,
    source: IpaSource,
    before: Seq<char>,
    name: Seq<char>,
    path: String,
    udid: String,
)
    requires
        !name.contains('/'),
        ipa::is_source(source, before.push('/') + name),
    ensures
        job.state == InstallationState::Fetch(source) && ipa::is_remote(before.push('/') + name)
            ==> installation_notice(job) == Some("⬇️  Descargando "@ + name + "…"@),
        job.state == InstallationState::Fetch(IpaSource::File) ==> installation_notice(job) is None,
        job.state == (InstallationState::SignIn { path, udid }) ==> installation_notice(job)
            == Some("📱 Dispositivo: "@ + udid@),
        job.state == (InstallationState::Install { path, udid }) ==> installation_notice(job)
            == Some("📦 Instalando "@ + path@ + "…"@),
        job.state matches InstallationState::Finished(Ok(_)) ==> installation_notice(job) == Some(
            "✅ Instalado.\n   Ajustes → General → VPN y gestión de dispositivos → Confiar"@,
        ),
        job.state matches InstallationState::Finished(Err(_)) ==> installation_notice(job) is None,
        job.state is SelectDevice || job.state is Delete ==> installation_notice(job) is None,
{
    ipa::law_a_download_is_named_after_its_address(source, before, name);
}

/// No reply changes the IPA, nor how it is installed.
pub proof fn law_what_was_asked_for_is_kept(
    before: Installation,
    reply: InstallationReply,
    after: Installation,
)
    requires
        installation_step(before, reply, after),
    ensures
        after.ipa == before.ipa,
        after.more_memory == before.more_memory,
{
}

} // verus!
