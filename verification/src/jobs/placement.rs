//! Making the pairing document of a device and placing it in an app.

use vstd::prelude::*;
use vstd::string::*;

use crate::error;
use crate::error::{CliError, ErrorKind, ErrorView};
use crate::pairing_apps;
use crate::pairing_apps::{InstalledApp, PairingApp};
use crate::requests;

verus! {

/// What has to be done next.
#[derive(Debug)]
pub enum PlacementState {
    /// Make the pairing document of the device.
    Generate { app: PairingApp },
    /// Choose the device again.
    SelectDevice { app: PairingApp, document: Vec<u8> },
    /// Connect to the device's service for installed apps.
    ConnectProxy { app: PairingApp, document: Vec<u8> },
    /// Ask for the apps that the user installed.
    ListApps { app: PairingApp, document: Vec<u8> },
    /// Put the document into the app with a bundle identifier, under a path.
    PlaceFile { document: Vec<u8>, bundle_id: String, path: String },
    Finished(Result<(), CliError>),
}

/// What came of it.
#[derive(Debug)]
pub enum PlacementReply {
    Done,
    /// A service of the device failed.
    Failed(String),
    /// A job on the way failed.
    JobFailed(CliError),
    Document(Vec<u8>),
    Apps(Vec<InstalledApp>),
}

/// The placing of a pairing document.
#[derive(Debug)]
pub struct Placement {
    pub udid: String,
    /// The sort of apps that is asked for.
    pub app_sort: &'static str,
    pub state: PlacementState,
}

/// Whether the job ended in the given failure.
pub open spec fn failed_with(job: Placement, e: ErrorView) -> bool {
    job.state matches PlacementState::Finished(Err(x)) && x@ == e
}

/// How a reply changes the job.
pub open spec fn placement_step(
    before: Placement,
    reply: PlacementReply,
    after: Placement,
) -> bool {
    &&& after.udid == before.udid
    &&& after.app_sort == before.app_sort
    &&& match (before.state, reply) {
        (PlacementState::Finished(_), _) => after.state == before.state,
        (PlacementState::Generate { app }, PlacementReply::Document(document)) => after.state
            == PlacementState::SelectDevice { app, document },
        (PlacementState::Generate { app }, PlacementReply::JobFailed(e)) => after.state
            == PlacementState::Finished(Err(e)),
        (PlacementState::SelectDevice { app, document }, PlacementReply::Done) => after.state
            == PlacementState::ConnectProxy { app, document },
        (PlacementState::SelectDevice { app, document }, PlacementReply::JobFailed(e)) =>
            after.state == PlacementState::Finished(Err(e)),
        (PlacementState::ConnectProxy { app, document }, PlacementReply::Done) => after.state
            == PlacementState::ListApps { app, document },
        (PlacementState::ConnectProxy { app, document }, PlacementReply::Failed(text)) =>
            failed_with(after, error::failure(ErrorKind::Device, text@)),
        (PlacementState::ListApps { app, document }, PlacementReply::Apps(installed)) =>
            match pairing_apps::wanted_bundle(installed@, app@) {
            Ok(id) => after.state matches PlacementState::PlaceFile {
                document: d,
                bundle_id,
                path,
            } && d == document && bundle_id@ == id && path@ == app@.file_path,
            Err(e) => failed_with(after, e),
        },
        (PlacementState::ListApps { app, document }, PlacementReply::Failed(text)) => failed_with(
            after,
            error::failure(ErrorKind::Device, text@),
        ),
        (PlacementState::PlaceFile { document, bundle_id, path }, PlacementReply::Done) =>
            after.state == PlacementState::Finished(Ok(())),
        (PlacementState::PlaceFile { document, bundle_id, path }, PlacementReply::JobFailed(e)) =>
            after.state == PlacementState::Finished(Err(e)),
        _ => after.state == before.state,
    }
}

impl Placement {
    /// A job for the app that a key names. A key that names none ends the job at once.
    pub fn new(udid: String, app_key: &str) -> (job: Placement)
        ensures
            job.udid == udid,
            job.app_sort@ == requests::USER_APPS@,
            match pairing_apps::named_app(app_key@) {
                Ok(row) => job.state matches PlacementState::Generate { app } && app@ == row,
                Err(e) => failed_with(job, e),
            },
    {
        let state = match pairing_apps::pairing_app(app_key) {
            Ok(app) => PlacementState::Generate { app },
            Err(e) => PlacementState::Finished(Err(e)),
        };
        Placement { udid, app_sort: requests::USER_APPS, state }
    }

    /// Goes on after a reply.
    pub fn advance(self, reply: PlacementReply) -> (after: Placement)
        ensures
            placement_step(self, reply, after),
    {
        let Placement { udid, app_sort, state } = self;
        let state = match (state, reply) {
            (PlacementState::Generate { app }, PlacementReply::Document(document)) =>
                PlacementState::SelectDevice { app, document },
            (PlacementState::Generate { app: _ }, PlacementReply::JobFailed(e)) =>
                PlacementState::Finished(Err(e)),
            (PlacementState::SelectDevice { app, document }, PlacementReply::Done) =>
                PlacementState::ConnectProxy { app, document },
            (PlacementState::SelectDevice { app: _, document: _ }, PlacementReply::JobFailed(e)) =>
                PlacementState::Finished(Err(e)),
            (PlacementState::ConnectProxy { app, document }, PlacementReply::Done) =>
                PlacementState::ListApps { app, document },
            (PlacementState::ConnectProxy { app: _, document: _ }, PlacementReply::Failed(text)) =>
                PlacementState::Finished(Err(CliError::Device(text))),
            (PlacementState::ListApps { app, document }, PlacementReply::Apps(installed)) => {
                match pairing_apps::find_bundle(&installed, &app) {
                    Ok(bundle_id) => PlacementState::PlaceFile {
                        document,
                        bundle_id,
                        path: app.file_path.to_owned(),
                    },
                    Err(e) => PlacementState::Finished(Err(e)),
                }
            },
            (PlacementState::ListApps { app: _, document: _ }, PlacementReply::Failed(text)) =>
                PlacementState::Finished(Err(CliError::Device(text))),
            (
                PlacementState::PlaceFile { document: _, bundle_id: _, path: _ },
                PlacementReply::Done,
            ) => PlacementState::Finished(Ok(())),
            (
                PlacementState::PlaceFile { document: _, bundle_id: _, path: _ },
                PlacementReply::JobFailed(e),
            ) => PlacementState::Finished(Err(e)),
            (state, _) => state,
        };
        Placement { udid, app_sort, state }
    }
}

/// How many replies can still change the job, at most.
pub open spec fn steps_left(state: PlacementState) -> nat {
    match state {
        PlacementState::Generate { app } => 5,
        PlacementState::SelectDevice { app, document } => 4,
        PlacementState::ConnectProxy { app, document } => 3,
        PlacementState::ListApps { app, document } => 2,
        PlacementState::PlaceFile { document, bundle_id, path } => 1,
        PlacementState::Finished(_) => 0,
    }
}

/// Whether a reply is one that the work of a state can have.
pub open spec fn fits(state: PlacementState, reply: PlacementReply) -> bool {
    match state {
        PlacementState::Generate { app } => reply is Document || reply is JobFailed,
        PlacementState::SelectDevice { app, document } => reply is Done || reply is JobFailed,
        PlacementState::ConnectProxy { app, document } => reply is Done || reply is Failed,
        PlacementState::ListApps { app, document } => reply is Apps || reply is Failed,
        PlacementState::PlaceFile { document, bundle_id, path } => reply is Done
            || reply is JobFailed,
        PlacementState::Finished(_) => false,
    }
}

/// A reply that fits brings a job nearer to its end; one that does not fit leaves it as it is.
/// Some reply fits at every point but the end.
pub proof fn law_job_comes_to_its_end(
    before: Placement,
    reply: PlacementReply,
    after: Placement,
)
    requires
        placement_step(before, reply, after),
    ensures
        fits(before.state, reply) ==> steps_left(after.state) < steps_left(before.state),
        steps_left(before.state) == 0 <==> before.state is Finished,
        !fits(before.state, reply) ==> after.state == before.state,
        !(before.state is Finished) <==> exists|r: PlacementReply|
            #[trigger] fits(before.state, r),
{
    if !(before.state is Finished) {
        let failed = PlacementReply::Failed(arbitrary());
        let other = PlacementReply::JobFailed(CliError::NoDevice);
        assert(fits(before.state, failed) || fits(before.state, other));
    }
}

/// Whether each job follows from the one before it by the reply between them.
pub open spec fn is_run(jobs: Seq<Placement>, replies: Seq<PlacementReply>) -> bool {
    &&& jobs.len() == replies.len() + 1
    &&& forall|i: int|
        0 <= i < replies.len() ==> #[trigger] placement_step(jobs[i], replies[i], jobs[i + 1])
}

/// Whether the document was made before reply `n`.
pub open spec fn made_before(
    jobs: Seq<Placement>,
    replies: Seq<PlacementReply>,
    n: int,
    document: Vec<u8>,
) -> bool {
    exists|i: int|
        0 <= i < n && jobs[i].state is Generate && #[trigger] replies[i]
            == PlacementReply::Document(document)
}

/// Whether the app was found on the device, after the document was made, before reply `n`.
pub open spec fn found_before(
    jobs: Seq<Placement>,
    replies: Seq<PlacementReply>,
    n: int,
    app: pairing_apps::PairingAppView,
    document: Vec<u8>,
    bundle_id: Seq<char>,
) -> bool {
    exists|i: int|
        0 <= i < n && (#[trigger] replies[i] matches PlacementReply::Apps(installed)
            && pairing_apps::wanted_bundle(installed@, app) == Ok::<Seq<char>, ErrorView>(
            bundle_id,
        )) && made_before(jobs, replies, i, document)
}

/// The document that is placed is the one that was made, and it goes to the path of the app
/// that was named, in the bundle found on the device.
pub proof fn law_document_goes_to_the_named_app(
    jobs: Seq<Placement>,
    replies: Seq<PlacementReply>,
    app: PairingApp,
    n: int,
)
    requires
        is_run(jobs, replies),
        jobs[0].state == (PlacementState::Generate { app }),
        0 <= n < jobs.len(),
    ensures
        match jobs[n].state {
            PlacementState::Generate { app: a } => a == app,
            PlacementState::SelectDevice { app: a, document } => a == app && made_before(
                jobs,
                replies,
                n,
                document,
            ),
            PlacementState::ConnectProxy { app: a, document } => a == app && made_before(
                jobs,
                replies,
                n,
                document,
            ),
            PlacementState::ListApps { app: a, document } => a == app && made_before(
                jobs,
                replies,
                n,
                document,
            ),
            PlacementState::PlaceFile { document, bundle_id, path } => {
                &&& path@ == app@.file_path
                &&& found_before(jobs, replies, n, app@, document, bundle_id@)
            },
            PlacementState::Finished(_) => true,
        },
    decreases n,
{
    if n > 0 {
        law_document_goes_to_the_named_app(jobs, replies, app, n - 1);
        assert(placement_step(jobs[n - 1], replies[n - 1], jobs[n - 1 + 1]));
    }
}

proof fn lemma_step(jobs: Seq<Placement>, replies: Seq<PlacementReply>, i: int)
    requires
        is_run(jobs, replies),
        0 <= i < replies.len(),
    ensures
        placement_step(jobs[i], replies[i], jobs[i + 1]),
{
}

/// Where everything outside succeeds and the app is on the device, the placing ends well.
pub proof fn law_good_replies_end_well(
    jobs: Seq<Placement>,
    replies: Seq<PlacementReply>,
    app: PairingApp,
    installed: Vec<InstalledApp>,
)
    requires
        is_run(jobs, replies),
        jobs[0].state == (PlacementState::Generate { app }),
        replies.len() == 5,
        replies[0] is Document,
        replies[1] is Done,
        replies[2] is Done,
        replies[3] == PlacementReply::Apps(installed),
        pairing_apps::wanted_bundle(installed@, app@) is Ok,
        replies[4] is Done,
    ensures
        jobs.last().state == PlacementState::Finished(Ok(())),
{
    lemma_step(jobs, replies, 0);
    lemma_step(jobs, replies, 1);
    lemma_step(jobs, replies, 2);
    lemma_step(jobs, replies, 3);
    lemma_step(jobs, replies, 4);
}

/// Whether a file was placed before reply `n`.
pub open spec fn placed_before(
    jobs: Seq<Placement>,
    replies: Seq<PlacementReply>,
    n: int,
) -> bool {
    exists|i: int| 0 <= i < n && jobs[i].state is PlaceFile && (#[trigger] replies[i]) is Done
}

/// A placing ends well only after the file was placed.
pub proof fn law_success_means_placed(jobs: Seq<Placement>, replies: Seq<PlacementReply>, n: int)
    requires
        is_run(jobs, replies),
        !(jobs[0].state is Finished),
        0 <= n < jobs.len(),
    ensures
        jobs[n].state == PlacementState::Finished(Ok(())) ==> placed_before(jobs, replies, n),
    decreases n,
{
    if n > 0 {
        law_success_means_placed(jobs, replies, n - 1);
        assert(placement_step(jobs[n - 1], replies[n - 1], jobs[n - 1 + 1]));
    }
}

/// A failure of a service ends the placing in a failure of the device with its words; the failure
/// of a job on the way is the failure of the placing, as it is.
pub proof fn law_a_failure_keeps_its_words(
    before: Placement,
    text: String,
    e: CliError,
    after_service: Placement,
    after_job: Placement,
)
    requires
        placement_step(before, PlacementReply::Failed(text), after_service),
        placement_step(before, PlacementReply::JobFailed(e), after_job),
    ensures
        before.state is ConnectProxy || before.state is ListApps ==> (after_service.state
            matches PlacementState::Finished(Err(x)) && x@.kind == ErrorKind::Device && x@.detail
            == text@),
        before.state is Generate || before.state is SelectDevice || before.state is PlaceFile
            ==> after_job.state == PlacementState::Finished(Err(e)),
{
}

/// The apps on the device decide: the document goes, as it was made, to the bundle of the wanted
/// one and to its path; without it the placing fails.
pub proof fn law_the_apps_decide(
    before: Placement,
    app: PairingApp,
    document: Vec<u8>,
    installed: Vec<InstalledApp>,
    after: Placement,
)
    requires
        before.state == (PlacementState::ListApps { app, document }),
        placement_step(before, PlacementReply::Apps(installed), after),
    ensures
        pairing_apps::wanted_bundle(installed@, app@) matches Ok(id) ==> (after.state
            matches PlacementState::PlaceFile { document: d, bundle_id, path } && d@ == document@
            && bundle_id@ == id && path@ == app.file_path@),
        pairing_apps::wanted_bundle(installed@, app@) matches Err(e) ==> (after.state
            matches PlacementState::Finished(Err(x)) && x@ == e),
        after.udid == before.udid,
{
}

/// No reply changes the device, nor the sort of apps that are listed.
pub proof fn law_what_was_asked_for_is_kept(
    before: Placement,
    reply: PlacementReply,
    after: Placement,
)
    requires
        placement_step(before, reply, after),
    ensures
        after.udid == before.udid,
        after.app_sort == before.app_sort,
{
}

} // verus!
