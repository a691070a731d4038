//! The commands on an account: its certificates and its App IDs.

use vstd::prelude::*;

use crate::auth::Certificate;
use crate::error;
use crate::error::{CliError, ErrorKind, ErrorView};
use crate::reports;
use crate::text;

verus! {

/// What is asked of the account.
#[derive(Debug)]
pub enum AccountTask {
    /// List its development certificates.
    Certificates,
    /// Revoke the certificate with a serial.
    Revoke(String),
    /// List its App IDs.
    AppIds,
}

/// What has to be done next.
#[derive(Debug)]
pub enum AccountState {
    /// Sign in.
    SignIn,
    /// Find the team of the account.
    FindTeam,
    /// Do what is asked.
    Perform,
    Finished(Result<(), CliError>),
}

/// The App IDs of an account.
#[derive(Debug)]
pub struct AppIdList {
    /// Each App ID, as it is shown.
    pub items: Vec<String>,
    pub max_quantity: Option<u64>,
    pub available_quantity: Option<i64>,
}

/// What came of it.
#[derive(Debug)]
pub enum AccountReply {
    Done,
    Failed(String),
    /// Signing in failed.
    JobFailed(CliError),
    Certificates(Vec<Certificate>),
    AppIds(AppIdList),
}

/// A command on an account.
#[derive(Debug)]
pub struct Account {
    pub task: AccountTask,
    pub state: AccountState,
}

/// Whether the job ended in the given failure.
pub open spec fn failed_with(job: Account, e: ErrorView) -> bool {
    job.state matches AccountState::Finished(Err(x)) && x@ == e
}

/// Whether a reply answers what is asked.
pub open spec fn answers(task: AccountTask, reply: AccountReply) -> bool {
    match (task, reply) {
        (AccountTask::Certificates, AccountReply::Certificates(_)) => true,
        (AccountTask::Revoke(_), AccountReply::Done) => true,
        (AccountTask::AppIds, AccountReply::AppIds(_)) => true,
        _ => false,
    }
}

/// What is shown of the answer.
pub open spec fn answer_lines(task: AccountTask, reply: AccountReply) -> Seq<Seq<char>> {
    match (task, reply) {
        (AccountTask::Certificates, AccountReply::Certificates(certs)) =>
            reports::certificate_list(certs@),
        (AccountTask::Revoke(serial), AccountReply::Done) => seq![
            "✅ Certificado "@ + serial@ + " revocado"@,
        ],
        (AccountTask::AppIds, AccountReply::AppIds(list)) => seq![
            reports::app_ids_line(
                list.items@.len(),
                list.max_quantity,
                list.available_quantity,
            ),
        ] + text::texts(list.items@),
        _ => Seq::empty(),
    }
}

/// How a reply changes the job, and what is shown.
pub open spec fn account_step(
    before: Account,
    reply: AccountReply,
    after: Account,
    shown: Seq<Seq<char>>,
) -> bool {
    &&& after.task == before.task
    &&& shown == if before.state is Perform {
        answer_lines(before.task, reply)
    } else {
        Seq::empty()
    }
    &&& match (before.state, reply) {
        (AccountState::SignIn, AccountReply::Done) => after.state == AccountState::FindTeam,
        (AccountState::SignIn, AccountReply::JobFailed(e)) => after.state
            == AccountState::Finished(Err(e)),
        (AccountState::FindTeam, AccountReply::Done) => after.state == AccountState::Perform,
        (AccountState::FindTeam, AccountReply::Failed(text)) => failed_with(
            after,
            error::failure(ErrorKind::Auth, text@),
        ),
        (AccountState::Perform, AccountReply::Failed(text)) => failed_with(
            after,
            error::failure(ErrorKind::Auth, text@),
        ),
        (AccountState::Perform, _) => after.state == if answers(before.task, reply) {
            AccountState::Finished(Ok(()))
        } else {
            before.state
        },
        _ => after.state == before.state,
    }
}

impl Account {
    pub fn new(task: AccountTask) -> (job: Account)
        ensures
            job.task == task,
            job.state == AccountState::SignIn,
    {
        Account { task, state: AccountState::SignIn }
    }

    /// Goes on after a reply. The second part of the result is what is shown.
    pub fn advance(self, reply: AccountReply) -> (r: (Account, Vec<String>))
        ensures
            account_step(self, reply, r.0, text::texts(r.1@)),
    {
        let Account { task, state } = self;
        let mut shown: Vec<String> = Vec::new();
        proof {
            assert(text::texts(shown@) =~= Seq::<Seq<char>>::empty());
        }
        let state = match (state, reply) {
            (AccountState::SignIn, AccountReply::Done) => AccountState::FindTeam,
            (AccountState::SignIn, AccountReply::JobFailed(e)) => AccountState::Finished(Err(e)),
            (AccountState::FindTeam, AccountReply::Done) => AccountState::Perform,
            (AccountState::FindTeam, AccountReply::Failed(text)) => AccountState::Finished(
                Err(CliError::Auth(text)),
            ),
            (AccountState::Perform, AccountReply::Failed(text)) => AccountState::Finished(
                Err(CliError::Auth(text)),
            ),
            (AccountState::Perform, reply) => match (&task, reply) {
                (AccountTask::Certificates, AccountReply::Certificates(certs)) => {
                    shown = reports::certificates_report(&certs);
                    AccountState::Finished(Ok(()))
                },
                (AccountTask::Revoke(serial), AccountReply::Done) => {
                    shown.push(reports::revoked_message(serial.as_str()));
                    proof {
                        assert(text::texts(shown@) =~= answer_lines(task, AccountReply::Done));
                    }
                    AccountState::Finished(Ok(()))
                },
                (AccountTask::AppIds, AccountReply::AppIds(list)) => {
                    shown = app_id_lines(list);
                    AccountState::Finished(Ok(()))
                },
                _ => AccountState::Perform,
            },
            (state, _) => state,
        };
        (Account { task, state }, shown)
    }
}

fn app_id_lines(list: AppIdList) -> (r: Vec<String>)
    ensures
        text::texts(r@) == answer_lines(AccountTask::AppIds, AccountReply::AppIds(list)),
{
    let AppIdList { items, max_quantity, available_quantity } = list;
    let mut out: Vec<String> = Vec::new();
    out.push(reports::app_ids_heading(items.len(), max_quantity, available_quantity));
    let mut items = items;
    out.append(&mut items);
    assert(text::texts(out@) =~= answer_lines(AccountTask::AppIds, AccountReply::AppIds(list)));
    out
}

/// How many replies can still change the job, at most.
pub open spec fn steps_left(state: AccountState) -> nat {
    match state {
        AccountState::SignIn => 3,
        AccountState::FindTeam => 2,
        AccountState::Perform => 1,
        AccountState::Finished(_) => 0,
    }
}

/// Whether a reply is one that the work of a state can have.
pub open spec fn fits(task: AccountTask, state: AccountState, reply: AccountReply) -> bool {
    match state {
        AccountState::SignIn => reply is Done || reply is JobFailed,
        AccountState::FindTeam => reply is Done || reply is Failed,
        AccountState::Perform => reply is Failed || answers(task, reply),
        AccountState::Finished(_) => false,
    }
}

/// A reply that fits brings a job nearer to its end; one that does not fit leaves it as it is.
/// Some reply fits at every point but the end.
pub proof fn law_job_comes_to_its_end(
    before: Account,
    reply: AccountReply,
    after: Account,
    shown: Seq<Seq<char>>,
)
    requires
        account_step(before, reply, after, shown),
    ensures
        fits(before.task, before.state, reply) ==> steps_left(after.state) < steps_left(
            before.state,
        ),
        steps_left(before.state) == 0 <==> before.state is Finished,
        !fits(before.task, before.state, reply) ==> after.state == before.state,
        !(before.state is Finished) <==> exists|r: AccountReply|
            #[trigger] fits(before.task, before.state, r),
{
    if !(before.state is Finished) {
        let failed = AccountReply::Failed(arbitrary());
        let other = AccountReply::JobFailed(CliError::NoDevice);
        assert(fits(before.task, before.state, failed) || fits(before.task, before.state, other));
    }
}

/// Whether each job follows from the one before it by the reply between them, with what is
/// shown at each.
pub open spec fn is_run(
    jobs: Seq<Account>,
    replies: Seq<AccountReply>,
    shown: Seq<Seq<Seq<char>>>,
) -> bool {
    &&& jobs.len() == replies.len() + 1
    &&& shown.len() == replies.len()
    &&& forall|i: int|
        0 <= i < replies.len() ==> #[trigger] account_step(
            jobs[i],
            replies[i],
            jobs[i + 1],
            shown[i],
        )
}

/// Whether the user was signed in before reply `n`.
pub open spec fn signed_in_before(jobs: Seq<Account>, replies: Seq<AccountReply>, n: int) -> bool {
    exists|i: int| 0 <= i < n && jobs[i].state is SignIn && (#[trigger] replies[i]) is Done
}

/// Whether the team was found, after the user was signed in, before reply `n`.
pub open spec fn team_before(jobs: Seq<Account>, replies: Seq<AccountReply>, n: int) -> bool {
    exists|i: int|
        0 <= i < n && jobs[i].state is FindTeam && (#[trigger] replies[i]) is Done
            && signed_in_before(jobs, replies, i)
}

/// Whether the task was answered, after the team was found, before reply `n`.
pub open spec fn answered_before(jobs: Seq<Account>, replies: Seq<AccountReply>, n: int) -> bool {
    exists|i: int|
        0 <= i < n && jobs[i].state is Perform && answers(jobs[0].task, #[trigger] replies[i])
            && team_before(jobs, replies, i)
}

/// A command on an account ends well only after the user was signed in, the team was found and
/// the task was answered, in that order; nothing is shown before the team was found.
pub proof fn law_account_takes_its_steps_in_order(
    jobs: Seq<Account>,
    replies: Seq<AccountReply>,
    shown: Seq<Seq<Seq<char>>>,
    n: int,
)
    requires
        is_run(jobs, replies, shown),
        jobs[0].state == AccountState::SignIn,
        0 <= n < jobs.len(),
    ensures
        jobs[n].task == jobs[0].task,
        match jobs[n].state {
            AccountState::SignIn => true,
            AccountState::FindTeam => signed_in_before(jobs, replies, n),
            AccountState::Perform => team_before(jobs, replies, n),
            AccountState::Finished(Ok(_)) => answered_before(jobs, replies, n),
            AccountState::Finished(Err(_)) => true,
        },
        n < replies.len() && shown[n].len() > 0 ==> team_before(jobs, replies, n),
    decreases n,
{
    if n > 0 {
        law_account_takes_its_steps_in_order(jobs, replies, shown, n - 1);
        assert(account_step(jobs[n - 1], replies[n - 1], jobs[n - 1 + 1], shown[n - 1]));
    }
    if n < replies.len() {
        assert(account_step(jobs[n], replies[n], jobs[n + 1], shown[n]));
    }
}

/// A failure ends the command with its words, and nothing is shown; that of the signing in is the
/// failure of the command, as it is.
pub proof fn law_a_failure_keeps_its_words(
    before: Account,
    text: String,
    e: CliError,
    after_work: Account,
    after_job: Account,
    shown: Seq<Seq<char>>,
    shown_job: Seq<Seq<char>>,
)
    requires
        account_step(before, AccountReply::Failed(text), after_work, shown),
        account_step(before, AccountReply::JobFailed(e), after_job, shown_job),
    ensures
        before.state is FindTeam || before.state is Perform ==> (after_work.state
            matches AccountState::Finished(Err(x)) && x@.kind == ErrorKind::Auth && x@.detail
            == text@),
        before.state is SignIn ==> after_job.state == AccountState::Finished(Err(e)),
        shown.len() == 0,
        shown_job.len() == 0,
{
}

/// What the account answers is shown whole and ends the command well: every certificate, the
/// serial that was revoked, or a heading with the numbers reported and then every App ID as it
/// is, in order.
pub proof fn law_the_answer_is_shown(
    before: Account,
    certs: Vec<Certificate>,
    serial: String,
    list: AppIdList,
    reply: AccountReply,
    after: Account,
    shown: Seq<Seq<char>>,
    i: int,
)
    requires
        before.state is Perform,
        account_step(before, reply, after, shown),
    ensures
        before.task is Certificates && reply == AccountReply::Certificates(certs) ==> shown
            == reports::certificate_list(certs@) && after.state == AccountState::Finished(Ok(())),
        before.task == AccountTask::Revoke(serial) && reply is Done ==> shown == seq![
            "✅ Certificado "@ + serial@ + " revocado"@,
        ] && after.state == AccountState::Finished(Ok(())),
        before.task is AppIds && reply == AccountReply::AppIds(list) ==> {
            &&& after.state == AccountState::Finished(Ok(()))
            &&& shown.len() == list.items@.len() + 1
            &&& shown[0] == reports::app_ids_line(
                list.items@.len(),
                list.max_quantity,
                list.available_quantity,
            )
            &&& 0 <= i < list.items@.len() ==> shown[i + 1] == list.items@[i]@
        },
        after.task == before.task,
{
}

/// A task is answered by its own answer and by no other.
pub proof fn law_a_task_has_its_own_answer(
    task: AccountTask,
    certs: Vec<Certificate>,
    list: AppIdList,
)
    ensures
        answers(task, AccountReply::Certificates(certs)) <==> task is Certificates,
        answers(task, AccountReply::Done) <==> task is Revoke,
        answers(task, AccountReply::AppIds(list)) <==> task is AppIds,
{
}

} // verus!
