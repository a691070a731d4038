//! The command that makes a pairing document and exports it or places it in an app.

use vstd::prelude::*;
use vstd::string::*;

use crate::error;
use crate::error::{CliError, ErrorKind, ErrorView, IoKind};
use crate::numbers;
use crate::text;

verus! {

/// How the command ended well.
#[derive(Debug, Clone, Copy, PartialEq, Eq, Structural)]
pub enum PairingEnd {
    Exported,
    Placed,
}

/// What has to be done next.
#[derive(Debug)]
pub enum PairingCommandState {
    /// Choose a device.
    SelectDevice,
    /// Make the pairing document of the device.
    Generate { udid: String },
    /// Write the document to a file.
    Export { document: Vec<u8> },
    /// Place a pairing document of the device in the app; the first one had `size` bytes.
    Place { udid: String, size: usize },
    Finished(Result<PairingEnd, CliError>),
}

/// What came of it.
#[derive(Debug)]
pub enum PairingCommandReply {
    Done,
    /// The file could not be written.
    Failed(String),
    /// A job on the way failed.
    JobFailed(CliError),
    Device(String),
    Document(Vec<u8>),
}

/// The pairing command.
#[derive(Debug)]
pub struct PairingCommand {
    /// The key of the app.
    pub app: String,
    /// The file to export to, as it is shown.
    pub export: Option<String>,
    pub state: PairingCommandState,
}

/// Whether the job ended in the given failure.
pub open spec fn failed_with(job: PairingCommand, e: ErrorView) -> bool {
    job.state matches PairingCommandState::Finished(Err(x)) && x@ == e
}

/// How a reply changes the job.
pub open spec fn pairing_command_step(
    before: PairingCommand,
    reply: PairingCommandReply,
    after: PairingCommand,
) -> bool {
    &&& after.app == before.app
    &&& after.export == before.export
    &&& match (before.state, reply) {
        (PairingCommandState::SelectDevice, PairingCommandReply::JobFailed(e)) => after.state
            == PairingCommandState::Finished(Err(e)),
        (PairingCommandState::Generate { udid }, PairingCommandReply::JobFailed(e)) => after.state
            == PairingCommandState::Finished(Err(e)),
        (PairingCommandState::Place { udid, size }, PairingCommandReply::JobFailed(e)) =>
            after.state == PairingCommandState::Finished(Err(e)),
        (PairingCommandState::SelectDevice, PairingCommandReply::Device(udid)) => after.state
            == PairingCommandState::Generate { udid },
        (PairingCommandState::Generate { udid }, PairingCommandReply::Document(document)) =>
            after.state == if before.export is Some {
            PairingCommandState::Export { document }
        } else {
            PairingCommandState::Place { udid, size: document@.len() as usize }
        },
        (PairingCommandState::Export { document }, PairingCommandReply::Done) => after.state
            == PairingCommandState::Finished(Ok(PairingEnd::Exported)),
        (PairingCommandState::Export { document }, PairingCommandReply::Failed(text)) =>
            failed_with(after, error::failure(ErrorKind::Io(IoKind::System), text@)),
        (PairingCommandState::Place { udid, size }, PairingCommandReply::Done) => after.state
            == PairingCommandState::Finished(Ok(PairingEnd::Placed)),
        _ => after.state == before.state,
    }
}

/// The line on a document of the given size.
pub open spec fn generated_line(size: nat) -> Seq<char> {
    "✅ Pairing generado ("@ + numbers::decimal(size) + " bytes)"@
}

/// What is shown on coming to a state.
pub open spec fn pairing_command_notice(job: PairingCommand) -> Seq<Seq<char>> {
    match job.state {
        PairingCommandState::SelectDevice => Seq::empty(),
        PairingCommandState::Generate { udid } => seq![
            "🔗 Generando pairing para "@ + udid@ + "…"@,
            "   (Si el iPhone muestra un diálogo, pulsa Confiar)"@,
        ],
        PairingCommandState::Export { document } => seq![generated_line(document@.len())],
        PairingCommandState::Place { udid, size } => seq![generated_line(size as nat)],
        PairingCommandState::Finished(Ok(PairingEnd::Exported)) => match job.export {
            Some(path) => seq!["💾 Guardado en "@ + path@],
            None => Seq::empty(),
        },
        PairingCommandState::Finished(Ok(PairingEnd::Placed)) => seq![
            "✅ Pairing colocado en '"@ + job.app@ + "'"@,
        ],
        PairingCommandState::Finished(Err(_)) => Seq::empty(),
    }
}

fn generated_text(size: usize) -> (r: String)
    ensures
        r@ == generated_line(size as nat),
{
    let count = numbers::number_text(size as u64);
    text::concat3("✅ Pairing generado (", count.as_str(), " bytes)")
}

impl PairingCommand {
    pub fn new(app: String, export: Option<String>) -> (job: PairingCommand)
        ensures
            job.app == app,
            job.export == export,
            job.state == PairingCommandState::SelectDevice,
    {
        PairingCommand { app, export, state: PairingCommandState::SelectDevice }
    }

    /// What is shown on coming to the present state.
    pub fn notice(&self) -> (r: Vec<String>)
        ensures
            text::texts(r@) == pairing_command_notice(*self),
    {
        let mut out: Vec<String> = Vec::new();
        match &self.state {
            PairingCommandState::SelectDevice => {},
            PairingCommandState::Generate { udid } => {
                out.push(text::concat3("🔗 Generando pairing para ", udid.as_str(), "…"));
                out.push("   (Si el iPhone muestra un diálogo, pulsa Confiar)".to_owned());
            },
            PairingCommandState::Export { document } => {
                out.push(generated_text(document.len()));
            },
            PairingCommandState::Place { udid: _, size } => {
                out.push(generated_text(*size));
            },
            PairingCommandState::Finished(Ok(PairingEnd::Exported)) => {
                if let Some(path) = &self.export {
                    out.push(text::concat2("💾 Guardado en ", path.as_str()));
                }
            },
            PairingCommandState::Finished(Ok(PairingEnd::Placed)) => {
                out.push(text::concat3("✅ Pairing colocado en '", self.app.as_str(), "'"));
            },
            PairingCommandState::Finished(Err(_)) => {},
        }
        assert(text::texts(out@) =~= pairing_command_notice(*self));
        out
    }

    /// Goes on after a reply.
    pub fn advance(self, reply: PairingCommandReply) -> (after: PairingCommand)
        ensures
            pairing_command_step(self, reply, after),
    {
        let PairingCommand { app, export, state } = self;
        let state = match (state, reply) {
            (PairingCommandState::SelectDevice, PairingCommandReply::Device(udid)) =>
                PairingCommandState::Generate { udid },
            (PairingCommandState::Generate { udid }, PairingCommandReply::Document(document)) => {
                if export.is_some() {
                    PairingCommandState::Export { document }
                } else {
                    PairingCommandState::Place { udid, size: document.len() }
                }
            },
            (PairingCommandState::Export { document: _ }, PairingCommandReply::Done) =>
                PairingCommandState::Finished(Ok(PairingEnd::Exported)),
            (PairingCommandState::Export { document: _ }, PairingCommandReply::Failed(text)) =>
                PairingCommandState::Finished(Err(CliError::Io(IoKind::System, text))),
            (PairingCommandState::Place { udid: _, size: _ }, PairingCommandReply::Done) =>
                PairingCommandState::Finished(Ok(PairingEnd::Placed)),
            (PairingCommandState::SelectDevice, PairingCommandReply::JobFailed(e)) =>
                PairingCommandState::Finished(Err(e)),
            (PairingCommandState::Generate { udid: _ }, PairingCommandReply::JobFailed(e)) =>
                PairingCommandState::Finished(Err(e)),
            (
                PairingCommandState::Place { udid: _, size: _ },
                PairingCommandReply::JobFailed(e),
            ) => PairingCommandState::Finished(Err(e)),
            (state, _) => state,
        };
        PairingCommand { app, export, state }
    }
}

/// How many replies can still change the job, at most.
pub open spec fn steps_left(state: PairingCommandState) -> nat {
    match state {
        PairingCommandState::SelectDevice => 3,
        PairingCommandState::Generate { udid } => 2,
        PairingCommandState::Export { document } => 1,
        PairingCommandState::Place { udid, size } => 1,
        PairingCommandState::Finished(_) => 0,
    }
}

/// Whether a reply is one that the work of a state can have.
pub open spec fn fits(state: PairingCommandState, reply: PairingCommandReply) -> bool {
    match state {
        PairingCommandState::SelectDevice => reply is Device || reply is JobFailed,
        PairingCommandState::Generate { udid } => reply is Document || reply is JobFailed,
        PairingCommandState::Export { document } => reply is Done || reply is Failed,
        PairingCommandState::Place { udid, size } => reply is Done || reply is JobFailed,
        PairingCommandState::Finished(_) => false,
    }
}

/// A reply that fits brings a job nearer to its end; one that does not fit leaves it as it is.
/// Some reply fits at every point but the end.
pub proof fn law_job_comes_to_its_end(
    before: PairingCommand,
    reply: PairingCommandReply,
    after: PairingCommand,
)
    requires
        pairing_command_step(before, reply, after),
    ensures
        fits(before.state, reply) ==> steps_left(after.state) < steps_left(before.state),
        steps_left(before.state) == 0 <==> before.state is Finished,
        !fits(before.state, reply) ==> after.state == before.state,
        !(before.state is Finished) <==> exists|r: PairingCommandReply|
            #[trigger] fits(before.state, r),
{
    if !(before.state is Finished) {
        let failed = PairingCommandReply::Failed(arbitrary());
        let other = PairingCommandReply::JobFailed(CliError::NoDevice);
        assert(fits(before.state, failed) || fits(before.state, other));
    }
}

/// Whether each job follows from the one before it by the reply between them.
pub open spec fn is_run(jobs: Seq<PairingCommand>, replies: Seq<PairingCommandReply>) -> bool {
    &&& jobs.len() == replies.len() + 1
    &&& forall|i: int|
        0 <= i < replies.len() ==> #[trigger] pairing_command_step(
            jobs[i],
            replies[i],
            jobs[i + 1],
        )
}

/// Whether a document was made before reply `n`.
pub open spec fn made_before(
    jobs: Seq<PairingCommand>,
    replies: Seq<PairingCommandReply>,
    n: int,
    document: Vec<u8>,
) -> bool {
    exists|i: int|
        0 <= i < n && jobs[i].state is Generate && #[trigger] replies[i]
            == PairingCommandReply::Document(document)
}

/// With a file to export to, the document that was made is written there and nothing is placed
/// on the device; without one, nothing is exported.
pub proof fn law_export_or_place(
    jobs: Seq<PairingCommand>,
    replies: Seq<PairingCommandReply>,
    n: int,
)
    requires
        is_run(jobs, replies),
        jobs[0].state == PairingCommandState::SelectDevice,
        0 <= n < jobs.len(),
    ensures
        jobs[n].export == jobs[0].export,
        match jobs[n].state {
            PairingCommandState::Export { document } => jobs[0].export is Some && made_before(
                jobs,
                replies,
                n,
                document,
            ),
            PairingCommandState::Place { udid, size } => jobs[0].export is None,
            PairingCommandState::Finished(Ok(PairingEnd::Exported)) => jobs[0].export is Some,
            PairingCommandState::Finished(Ok(PairingEnd::Placed)) => jobs[0].export is None,
            _ => true,
        },
    decreases n,
{
    if n > 0 {
        law_export_or_place(jobs, replies, n - 1);
        assert(pairing_command_step(jobs[n - 1], replies[n - 1], jobs[n - 1 + 1]));
    }
}

/// What comes goes on as it is: the device that was chosen is the one paired with and placed on,
/// the document that was made is the one exported, and the size told is the document's.
pub proof fn law_what_comes_goes_on(
    before: PairingCommand,
    udid: String,
    document: Vec<u8>,
    after_device: PairingCommand,
    after_document: PairingCommand,
)
    requires
        pairing_command_step(before, PairingCommandReply::Device(udid), after_device),
        pairing_command_step(before, PairingCommandReply::Document(document), after_document),
    ensures
        before.state is SelectDevice ==> after_device.state == (PairingCommandState::Generate {
            udid,
        }),
        before.state == (PairingCommandState::Generate { udid }) && before.export is Some
            ==> after_document.state == (PairingCommandState::Export { document }),
        before.state == (PairingCommandState::Generate { udid }) && before.export is None ==> (
        after_document.state matches PairingCommandState::Place { udid: u, size } && u == udid
            && size == document@.len()),
        after_device.app == before.app,
        after_device.export == before.export,
        after_document.app == before.app,
        after_document.export == before.export,
{
    assert(document.len() == document@.len());
}

/// The failure of a job on the way is the failure of the command, as it is; a file that cannot be
/// written is a failure of input and output with its words.
pub proof fn law_a_failure_keeps_its_words(
    before: PairingCommand,
    text: String,
    e: CliError,
    after_file: PairingCommand,
    after_job: PairingCommand,
)
    requires
        pairing_command_step(before, PairingCommandReply::Failed(text), after_file),
        pairing_command_step(before, PairingCommandReply::JobFailed(e), after_job),
    ensures
        before.state is Export ==> (after_file.state
            matches PairingCommandState::Finished(Err(x)) && x@.kind == ErrorKind::Io(
            IoKind::System,
        ) && x@.detail == text@),
        before.state is SelectDevice || before.state is Generate || before.state is Place
            ==> after_job.state == PairingCommandState::Finished(Err(e)),
{
}

/// The user is told which device is paired with, how long the document is, and where it went.
pub proof fn law_the_user_is_told(job: PairingCommand, udid: String, size: usize, document: Vec<u8>)
    ensures
        job.state is SelectDevice ==> pairing_command_notice(job).len() == 0,
        job.state == (PairingCommandState::Generate { udid }) ==> pairing_command_notice(job)
            == seq![
            "🔗 Generando pairing para "@ + udid@ + "…"@,
            "   (Si el iPhone muestra un diálogo, pulsa Confiar)"@,
        ],
        job.state == (PairingCommandState::Place { udid, size }) ==> pairing_command_notice(job)
            == seq!["✅ Pairing generado ("@ + numbers::decimal(size as nat) + " bytes)"@],
        job.state == (PairingCommandState::Export { document }) ==> pairing_command_notice(job)
            == seq!["✅ Pairing generado ("@ + numbers::decimal(document@.len()) + " bytes)"@],
        job.state == PairingCommandState::Finished(Ok(PairingEnd::Placed))
            ==> pairing_command_notice(job) == seq![
            "✅ Pairing colocado en '"@ + job.app@ + "'"@,
        ],
        job.state == PairingCommandState::Finished(Ok(PairingEnd::Exported)) && job.export is Some
            ==> pairing_command_notice(job) == seq!["💾 Guardado en "@ + job.export->0@],
        job.state matches PairingCommandState::Finished(Err(_)) ==> pairing_command_notice(
            job,
        ).len() == 0,
{
}

/// No reply changes the app, nor the file to export to.
pub proof fn law_what_was_asked_for_is_kept(
    before: PairingCommand,
    reply: PairingCommandReply,
    after: PairingCommand,
)
    requires
        pairing_command_step(before, reply, after),
    ensures
        after.app == before.app,
        after.export == before.export,
{
}

} // verus!
