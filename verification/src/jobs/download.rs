//! Downloading a file.

use vstd::prelude::*;

use crate::error;
use crate::error::{CliError, ErrorKind, ErrorView, IoKind};

verus! {

/// What has to be done next.
#[derive(Debug)]
pub enum DownloadState {
    /// Send a request for the job's address.
    Request,
    /// Hold the status of the answer against an error.
    CheckStatus,
    /// Read the body.
    ReadBody,
    /// Write the body to the job's file.
    Store { body: Vec<u8> },
    Finished(Result<(), CliError>),
}

/// What came of it.
#[derive(Debug)]
pub enum DownloadReply {
    Done,
    Failed(String),
    /// The whole body.
    Body(Vec<u8>),
}

/// A download.
#[derive(Debug)]
pub struct Download {
    pub url: String,
    /// The name of the file, in the directory for temporary files.
    pub file_name: String,
    pub state: DownloadState,
}

/// Whether the job ended in the given failure.
pub open spec fn failed_with(job: Download, e: ErrorView) -> bool {
    job.state matches DownloadState::Finished(Err(x)) && x@ == e
}

/// How a reply changes the job. A failure to store the file is one of input and output, all
/// others are of the download.
pub open spec fn download_step(before: Download, reply: DownloadReply, after: Download) -> bool {
    &&& after.url == before.url
    &&& after.file_name == before.file_name
    &&& match (before.state, reply) {
        (DownloadState::Request, DownloadReply::Done) => after.state == DownloadState::CheckStatus,
        (DownloadState::CheckStatus, DownloadReply::Done) => after.state
            == DownloadState::ReadBody,
        (DownloadState::ReadBody, DownloadReply::Body(body)) => after.state
            == DownloadState::Store { body },
        (DownloadState::Store { body }, DownloadReply::Done) => after.state
            == DownloadState::Finished(Ok(())),
        (DownloadState::Request, DownloadReply::Failed(text)) => failed_with(
            after,
            error::failure(ErrorKind::Download, text@),
        ),
        (DownloadState::CheckStatus, DownloadReply::Failed(text)) => failed_with(
            after,
            error::failure(ErrorKind::Download, text@),
        ),
        (DownloadState::ReadBody, DownloadReply::Failed(text)) => failed_with(
            after,
            error::failure(ErrorKind::Download, text@),
        ),
        (DownloadState::Store { body }, DownloadReply::Failed(text)) => failed_with(
            after,
            error::failure(ErrorKind::Io(IoKind::System), text@),
        ),
        _ => after.state == before.state,
    }
}

impl Download {
    /// A download from an address to a file.
    pub fn new(url: String, file_name: String) -> (job: Download)
        ensures
            job.url == url,
            job.file_name == file_name,
            job.state == DownloadState::Request,
    {
        Download { url, file_name, state: DownloadState::Request }
    }

    /// Goes on after a reply.
    pub fn advance(self, reply: DownloadReply) -> (after: Download)
        ensures
            download_step(self, reply, after),
    {
        let Download { url, file_name, state } = self;
        let state = match (state, reply) {
            (DownloadState::Request, DownloadReply::Done) => DownloadState::CheckStatus,
            (DownloadState::CheckStatus, DownloadReply::Done) => DownloadState::ReadBody,
            (DownloadState::ReadBody, DownloadReply::Body(body)) => DownloadState::Store { body },
            (DownloadState::Store { body: _ }, DownloadReply::Done) => DownloadState::Finished(
                Ok(()),
            ),
            (DownloadState::Request, DownloadReply::Failed(text)) => DownloadState::Finished(
                Err(CliError::Download(text)),
            ),
            (DownloadState::CheckStatus, DownloadReply::Failed(text)) => DownloadState::Finished(
                Err(CliError::Download(text)),
            ),
            (DownloadState::ReadBody, DownloadReply::Failed(text)) => DownloadState::Finished(
                Err(CliError::Download(text)),
            ),
            (DownloadState::Store { body: _ }, DownloadReply::Failed(text)) =>
                DownloadState::Finished(Err(CliError::Io(IoKind::System, text))),
            (state, _) => state,
        };
        Download { url, file_name, state }
    }
}

/// How many replies can still change the job, at most.
pub open spec fn steps_left(state: DownloadState) -> nat {
    match state {
        DownloadState::Request => 4,
        DownloadState::CheckStatus => 3,
        DownloadState::ReadBody => 2,
        DownloadState::Store { body } => 1,
        DownloadState::Finished(_) => 0,
    }
}

/// Whether a reply is one that the work of a state can have.
pub open spec fn fits(state: DownloadState, reply: DownloadReply) -> bool {
    match state {
        DownloadState::Request => reply is Done || reply is Failed,
        DownloadState::CheckStatus => reply is Done || reply is Failed,
        DownloadState::ReadBody => reply is Body || reply is Failed,
        DownloadState::Store { body } => reply is Done || reply is Failed,
        DownloadState::Finished(_) => false,
    }
}

/// A reply that fits brings a job nearer to its end; one that does not fit leaves it as it is.
/// Some reply fits at every point but the end.
pub proof fn law_job_comes_to_its_end(
    before: Download,
    reply: DownloadReply,
    after: Download,
)
    requires
        download_step(before, reply, after),
    ensures
        fits(before.state, reply) ==> steps_left(after.state) < steps_left(before.state),
        steps_left(before.state) == 0 <==> before.state is Finished,
        !fits(before.state, reply) ==> after.state == before.state,
        !(before.state is Finished) <==> exists|r: DownloadReply|
            #[trigger] fits(before.state, r),
{
    if !(before.state is Finished) {
        assert(fits(before.state, DownloadReply::Failed(arbitrary())));
    }
}

/// Whether each job follows from the one before it by the reply between them.
pub open spec fn is_run(jobs: Seq<Download>, replies: Seq<DownloadReply>) -> bool {
    &&& jobs.len() == replies.len() + 1
    &&& forall|i: int|
        0 <= i < replies.len() ==> #[trigger] download_step(jobs[i], replies[i], jobs[i + 1])
}

/// Whether the request was answered before reply `n`.
pub open spec fn answered_before(jobs: Seq<Download>, replies: Seq<DownloadReply>, n: int) -> bool {
    exists|i: int| 0 <= i < n && jobs[i].state is Request && (#[trigger] replies[i]) is Done
}

/// Whether the answer had a good status before reply `n`.
pub open spec fn accepted_before(jobs: Seq<Download>, replies: Seq<DownloadReply>, n: int) -> bool {
    exists|i: int|
        0 <= i < n && jobs[i].state is CheckStatus && (#[trigger] replies[i]) is Done
            && answered_before(jobs, replies, i)
}

/// Whether the answer had the body, which was read before reply `n`.
pub open spec fn read_before(
    jobs: Seq<Download>,
    replies: Seq<DownloadReply>,
    n: int,
    body: Vec<u8>,
) -> bool {
    exists|i: int|
        0 <= i < n && jobs[i].state is ReadBody && #[trigger] replies[i] == DownloadReply::Body(
            body,
        ) && accepted_before(jobs, replies, i)
}

/// Whether the body that was read was stored before reply `n`.
pub open spec fn stored_before(jobs: Seq<Download>, replies: Seq<DownloadReply>, n: int) -> bool {
    exists|i: int|
        0 <= i < n && (#[trigger] replies[i]) is Done && (jobs[i].state
            matches DownloadState::Store { body } && read_before(jobs, replies, i, body))
}

/// What is stored is the whole body that was read from the job's address, after the request was
/// answered with a good status, and nothing is stored before. A download ends well only after
/// that was stored. Address and file stay those that the job was made with.
pub proof fn law_the_body_is_stored(jobs: Seq<Download>, replies: Seq<DownloadReply>, n: int)
    requires
        is_run(jobs, replies),
        jobs[0].state == DownloadState::Request,
        0 <= n < jobs.len(),
    ensures
        jobs[n].url == jobs[0].url,
        jobs[n].file_name == jobs[0].file_name,
        match jobs[n].state {
            DownloadState::Request => true,
            DownloadState::CheckStatus => answered_before(jobs, replies, n),
            DownloadState::ReadBody => accepted_before(jobs, replies, n),
            DownloadState::Store { body } => read_before(jobs, replies, n, body),
            DownloadState::Finished(Ok(_)) => stored_before(jobs, replies, n),
            DownloadState::Finished(Err(_)) => true,
        },
    decreases n,
{
    if n > 0 {
        law_the_body_is_stored(jobs, replies, n - 1);
        assert(download_step(jobs[n - 1], replies[n - 1], jobs[n - 1 + 1]));
    }
}

proof fn lemma_step(jobs: Seq<Download>, replies: Seq<DownloadReply>, i: int)
    requires
        is_run(jobs, replies),
        0 <= i < replies.len(),
    ensures
        download_step(jobs[i], replies[i], jobs[i + 1]),
{
}

/// Where everything outside succeeds, the download ends well.
pub proof fn law_good_replies_end_well(jobs: Seq<Download>, replies: Seq<DownloadReply>)
    requires
        is_run(jobs, replies),
        jobs[0].state == DownloadState::Request,
        replies.len() == 4,
        replies[0] is Done,
        replies[1] is Done,
        replies[2] is Body,
        replies[3] is Done,
    ensures
        jobs.last().state == DownloadState::Finished(Ok(())),
{
    lemma_step(jobs, replies, 0);
    lemma_step(jobs, replies, 1);
    lemma_step(jobs, replies, 2);
    lemma_step(jobs, replies, 3);
}

/// A failure ends the download with its words: while storing it is one of input and output, before
/// that one of the download.
pub proof fn law_a_failure_keeps_its_words(before: Download, text: String, after: Download)
    requires
        download_step(before, DownloadReply::Failed(text), after),
        !(before.state is Finished),
    ensures
        after.state matches DownloadState::Finished(Err(e)) && e@.detail == text@ && if before.state
            is Store {
            e@.kind == ErrorKind::Io(IoKind::System)
        } else {
            e@.kind == ErrorKind::Download
        },
{
}

/// No reply changes the address of a download, nor the name under which it is stored.
pub proof fn law_what_was_asked_for_is_kept(
    before: Download,
    reply: DownloadReply,
    after: Download,
)
    requires
        download_step(before, reply, after),
    ensures
        after.url == before.url,
        after.file_name == before.file_name,
{
}

} // verus!
