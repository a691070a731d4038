//! Putting a pairing file into the documents of an app.

use vstd::prelude::*;

use crate::error::{CliError, ErrorView};
use crate::pairing_apps;
use crate::text;

verus! {

/// How a file is opened, in the ways of `fopen`.
#[derive(Debug, Clone, Copy, PartialEq, Eq, Structural)]
pub enum OpenMode {
    /// `r`
    RdOnly,
    /// `r+`
    Rw,
    /// `w`
    WrOnly,
    /// `w+`: for reading and writing, made where it is not there, emptied where it is.
    Wr,
    /// `a`
    Append,
    /// `a+`
    RdAppend,
}

/// What has to be done next.
#[derive(Debug)]
pub enum FilePlacementState {
    /// Connect to the service for app containers.
    Connect,
    /// Ask for the documents of the app with the job's bundle identifier.
    VendDocuments,
    /// Make a directory in them.
    MakeDirectory(String),
    /// Open a file.
    Open { path: String, mode: OpenMode },
    /// Write the job's document to it.
    Write,
    /// Close the file.
    Close,
    Finished(Result<(), CliError>),
}

/// The placing of a file.
#[derive(Debug)]
pub struct FilePlacement {
    pub bundle_id: String,
    /// The path of the file below the documents.
    pub path: String,
    pub document: Vec<u8>,
    pub state: FilePlacementState,
}

/// The word for the work of a state, in the words of its failure.
pub open spec fn work_word(state: FilePlacementState) -> Seq<char> {
    match state {
        FilePlacementState::Connect => "HouseArrest: "@,
        FilePlacementState::VendDocuments => "vend_documents: "@,
        FilePlacementState::MakeDirectory(_) => "mk_dir: "@,
        FilePlacementState::Open { path, mode } => "open: "@,
        FilePlacementState::Write => "write: "@,
        FilePlacementState::Close => "close: "@,
        FilePlacementState::Finished(_) => Seq::empty(),
    }
}

/// Whether the job ended in the given failure.
pub open spec fn failed_with(job: FilePlacement, e: ErrorView) -> bool {
    job.state matches FilePlacementState::Finished(Err(x)) && x@ == e
}

/// How an outcome changes the job.
pub open spec fn file_placement_step(
    before: FilePlacement,
    outcome: Result<(), String>,
    after: FilePlacement,
) -> bool {
    &&& after.bundle_id == before.bundle_id
    &&& after.path == before.path
    &&& after.document == before.document
    &&& match (before.state, outcome) {
        (FilePlacementState::Finished(_), _) => after.state == before.state,
        (_, Err(text)) => failed_with(
            after,
            crate::documents::pairing_failure(work_word(before.state) + text@),
        ),
        (FilePlacementState::Connect, Ok(_)) => after.state == FilePlacementState::VendDocuments,
        (FilePlacementState::VendDocuments, Ok(_)) => after.state
            matches FilePlacementState::MakeDirectory(d) && d@ == pairing_apps::directory_of(
            before.path@,
        ),
        (FilePlacementState::MakeDirectory(_), Ok(_)) => after.state
            matches FilePlacementState::Open { path, mode } && path@ == pairing_apps::document_at(
            before.path@,
        ) && mode == OpenMode::Wr,
        (FilePlacementState::Open { path, mode }, Ok(_)) => after.state
            == FilePlacementState::Write,
        (FilePlacementState::Write, Ok(_)) => after.state == FilePlacementState::Close,
        (FilePlacementState::Close, Ok(_)) => after.state == FilePlacementState::Finished(Ok(())),
    }
}

fn work_label(state: &FilePlacementState) -> (r: &'static str)
    requires
        !(state is Finished),
    ensures
        r@ == work_word(*state),
{
    match state {
        FilePlacementState::Connect => "HouseArrest: ",
        FilePlacementState::VendDocuments => "vend_documents: ",
        FilePlacementState::MakeDirectory(_) => "mk_dir: ",
        FilePlacementState::Open { path: _, mode: _ } => "open: ",
        FilePlacementState::Write => "write: ",
        FilePlacementState::Close => "close: ",
        FilePlacementState::Finished(_) => "",
    }
}

impl FilePlacement {
    /// A job that writes a document to the file with the given path below the documents of an
    /// app.
    pub fn new(bundle_id: String, path: String, document: Vec<u8>) -> (job: FilePlacement)
        ensures
            job.bundle_id == bundle_id,
            job.path == path,
            job.document == document,
            job.state == FilePlacementState::Connect,
    {
        FilePlacement { bundle_id, path, document, state: FilePlacementState::Connect }
    }

    /// Goes on after an outcome.
    pub fn advance(self, outcome: Result<(), String>) -> (after: FilePlacement)
        ensures
            file_placement_step(self, outcome, after),
    {
        let FilePlacement { bundle_id, path, document, state } = self;
        let state = match (state, outcome) {
            (FilePlacementState::Finished(r), _) => FilePlacementState::Finished(r),
            (state, Err(text)) => {
                let detail = text::concat2(work_label(&state), text.as_str());
                FilePlacementState::Finished(Err(CliError::Pairing(detail)))
            },
            (FilePlacementState::Connect, Ok(_)) => FilePlacementState::VendDocuments,
            (FilePlacementState::VendDocuments, Ok(_)) => FilePlacementState::MakeDirectory(
                pairing_apps::document_directory(path.as_str()),
            ),
            (FilePlacementState::MakeDirectory(_), Ok(_)) => FilePlacementState::Open {
                path: pairing_apps::document_path(path.as_str()),
                mode: OpenMode::Wr,
            },
            (FilePlacementState::Open { path: _, mode: _ }, Ok(_)) => FilePlacementState::Write,
            (FilePlacementState::Write, Ok(_)) => FilePlacementState::Close,
            (FilePlacementState::Close, Ok(_)) => FilePlacementState::Finished(Ok(())),
        };
        FilePlacement { bundle_id, path, document, state }
    }
}

/// How many outcomes can still change the job, at most.
pub open spec fn steps_left(state: FilePlacementState) -> nat {
    match state {
        FilePlacementState::Connect => 6,
        FilePlacementState::VendDocuments => 5,
        FilePlacementState::MakeDirectory(_) => 4,
        FilePlacementState::Open { path, mode } => 3,
        FilePlacementState::Write => 2,
        FilePlacementState::Close => 1,
        FilePlacementState::Finished(_) => 0,
    }
}

/// Every outcome brings a job nearer to its end, and a finished job stays as it is.
pub proof fn law_job_comes_to_its_end(
    before: FilePlacement,
    outcome: Result<(), String>,
    after: FilePlacement,
)
    requires
        file_placement_step(before, outcome, after),
    ensures
        steps_left(before.state) > 0 ==> steps_left(after.state) < steps_left(before.state),
        steps_left(before.state) == 0 ==> after.state == before.state,
        steps_left(before.state) == 0 <==> before.state is Finished,
{
}

/// Whether each job follows from the one before it by the outcome between them.
pub open spec fn is_run(jobs: Seq<FilePlacement>, outcomes: Seq<Result<(), String>>) -> bool {
    &&& jobs.len() == outcomes.len() + 1
    &&& forall|i: int|
        0 <= i < outcomes.len() ==> #[trigger] file_placement_step(
            jobs[i],
            outcomes[i],
            jobs[i + 1],
        )
}

/// A file is placed exactly by six outcomes that are all good: its directory is made before it
/// is opened, emptied, and it is closed after the document that the job was given was written.
pub proof fn law_file_is_placed_in_six_steps(
    jobs: Seq<FilePlacement>,
    outcomes: Seq<Result<(), String>>,
)
    requires
        is_run(jobs, outcomes),
        jobs[0].state == FilePlacementState::Connect,
    ensures
        jobs.last().state == FilePlacementState::Finished(Ok(())) <==> outcomes.len() >= 6
            && forall|i: int| 0 <= i < 6 ==> (#[trigger] outcomes[i]) is Ok,
        jobs.last().state == FilePlacementState::Finished(Ok(())) ==> {
            &&& jobs[1].state == FilePlacementState::VendDocuments
            &&& jobs[2].state matches FilePlacementState::MakeDirectory(d) && d@
                == pairing_apps::directory_of(jobs[0].path@)
            &&& jobs[3].state matches FilePlacementState::Open { path, mode } && path@
                == pairing_apps::document_at(jobs[0].path@) && mode == OpenMode::Wr
            &&& jobs[4].state == FilePlacementState::Write
            &&& jobs[4].document == jobs[0].document
            &&& jobs[1].bundle_id == jobs[0].bundle_id
            &&& jobs[5].state == FilePlacementState::Close
        },
{
    lemma_stage(jobs, outcomes, outcomes.len() as int);
    if outcomes.len() >= 2 {
        lemma_stage(jobs, outcomes, 1);
        lemma_stage(jobs, outcomes, 2);
    }
    if outcomes.len() >= 6 {
        lemma_stage(jobs, outcomes, 3);
        lemma_stage(jobs, outcomes, 4);
        lemma_stage(jobs, outcomes, 5);
        if forall|i: int| 0 <= i < 6 ==> (#[trigger] outcomes[i]) is Ok {
            assert(good_before(outcomes, outcomes.len() as int));
            assert(jobs.last().state->Finished_0->Ok_0 == ());
        }
    }
    if jobs.last().state == FilePlacementState::Finished(Ok(())) {
        assert(good_before(outcomes, outcomes.len() as int));
    }
}

/// Whether the first outcomes, six at most, are all good.
spec fn good_before(outcomes: Seq<Result<(), String>>, n: int) -> bool {
    forall|i: int| 0 <= i < n && i < 6 ==> (#[trigger] outcomes[i]) is Ok
}

proof fn lemma_stage(jobs: Seq<FilePlacement>, outcomes: Seq<Result<(), String>>, n: int)
    requires
        is_run(jobs, outcomes),
        jobs[0].state == FilePlacementState::Connect,
        0 <= n <= outcomes.len(),
    ensures
        jobs[n].path == jobs[0].path,
        jobs[n].bundle_id == jobs[0].bundle_id,
        jobs[n].document == jobs[0].document,
        good_before(outcomes, n) <==> !(jobs[n].state matches FilePlacementState::Finished(Err(_))),
        good_before(outcomes, n) ==> match jobs[n].state {
            FilePlacementState::Connect => n == 0,
            FilePlacementState::VendDocuments => n == 1,
            FilePlacementState::MakeDirectory(d) => n == 2 && d@ == pairing_apps::directory_of(
                jobs[0].path@,
            ),
            FilePlacementState::Open { path, mode } => n == 3 && path@
                == pairing_apps::document_at(jobs[0].path@) && mode == OpenMode::Wr,
            FilePlacementState::Write => n == 4,
            FilePlacementState::Close => n == 5,
            FilePlacementState::Finished(_) => n >= 6,
        },
    decreases n,
{
    if n > 0 {
        lemma_stage(jobs, outcomes, n - 1);
        assert(file_placement_step(jobs[n - 1], outcomes[n - 1], jobs[n - 1 + 1]));
        if good_before(outcomes, n - 1) && (n > 6 || outcomes[n - 1] is Ok) {
            assert(good_before(outcomes, n));
        }
        if good_before(outcomes, n) {
            assert(good_before(outcomes, n - 1));
            if n <= 6 {
                assert(outcomes[n - 1] is Ok);
            }
        }
    }
}

/// A failure ends the placing in a pairing failure that names the step and keeps its words.
pub proof fn law_a_failure_keeps_its_words(
    before: FilePlacement,
    text: String,
    after: FilePlacement,
)
    requires
        file_placement_step(before, Err(text), after),
        !(before.state is Finished),
    ensures
        after.state matches FilePlacementState::Finished(Err(e)) && e@.kind
            == crate::error::ErrorKind::Pairing && {
            &&& before.state is Connect ==> e@.detail == "HouseArrest: "@ + text@
            &&& before.state is VendDocuments ==> e@.detail == "vend_documents: "@ + text@
            &&& before.state is MakeDirectory ==> e@.detail == "mk_dir: "@ + text@
            &&& before.state is Open ==> e@.detail == "open: "@ + text@
            &&& before.state is Write ==> e@.detail == "write: "@ + text@
            &&& before.state is Close ==> e@.detail == "close: "@ + text@
        },
{
}

/// No outcome changes the app, the path or the document.
pub proof fn law_what_was_asked_for_is_kept(
    before: FilePlacement,
    reply: Result<(), String>,
    after: FilePlacement,
)
    requires
        file_placement_step(before, reply, after),
    ensures
        after.bundle_id == before.bundle_id,
        after.path == before.path,
        after.document == before.document,
{
}

/// Where nothing fails, the documents are asked for, the directory of the file is made below
/// `/Documents/`, the file is opened at `/Documents/` and its path, to be made or emptied, and it
/// is written and closed, in this order.
pub proof fn law_the_work_goes_in_order(before: FilePlacement, after: FilePlacement)
    requires
        file_placement_step(before, Ok(()), after),
    ensures
        before.state is Connect ==> after.state is VendDocuments,
        before.state is VendDocuments ==> (after.state
            matches FilePlacementState::MakeDirectory(directory) && "/Documents/"@.is_prefix_of(
            directory@,
        ) && (forall|parent: Seq<char>, name: Seq<char>|
            !name.contains('/') && before.path@ == #[trigger] (parent.push('/') + name)
                ==> directory@ == "/Documents/"@ + parent)),
        before.state is MakeDirectory ==> (after.state matches FilePlacementState::Open {
            path,
            mode,
        } && path@ == "/Documents/"@ + before.path@ && mode == OpenMode::Wr),
        before.state is Open ==> after.state is Write,
        before.state is Write ==> after.state is Close,
        before.state is Close ==> after.state == FilePlacementState::Finished(Ok(())),
{
    if let FilePlacementState::MakeDirectory(directory) = after.state {
        let documents = "/Documents/"@;
        assert(directory@ == documents + text::before_last(before.path@, '/'));
        assert(directory@.subrange(0, documents.len() as int) =~= documents);
        assert forall|parent: Seq<char>, name: Seq<char>|
            !name.contains('/') && before.path@ == #[trigger] (parent.push('/') + name) implies
            directory@ == documents + parent by {
            reveal_strlit("/Documents/");
            pairing_apps::law_files_go_into_the_documents(before.path@, parent, name);
            assert(directory@.skip(11) =~= text::before_last(before.path@, '/'));
        }
    }
}

} // verus!
