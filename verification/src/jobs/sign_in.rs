//! Signing in to an Apple ID.

use vstd::prelude::*;
use vstd::string::*;

use crate::auth;
use crate::auth::AccountSettings;
use crate::device;
use crate::error;
use crate::error::{CliError, ErrorKind, ErrorView};

verus! {

/// What has to be done next.
#[derive(Debug)]
pub enum SignInState {
    /// Set up the anisette provider.
    PrepareAnisette,
    /// Log in to the account.
    LogIn,
    /// Open a developer session.
    OpenSession,
    Finished(Result<(), CliError>),
}

/// A signing in.
pub struct SignIn {
    pub settings: AccountSettings,
    pub state: SignInState,
}

/// Whether the job ended in the given failure.
pub open spec fn failed_with(job: SignIn, e: ErrorView) -> bool {
    job.state matches SignInState::Finished(Err(x)) && x@ == e
}

/// How an outcome changes the job.
pub open spec fn sign_in_step(
    before: SignIn,
    outcome: Result<(), String>,
    after: SignIn,
) -> bool {
    &&& after.settings == before.settings
    &&& match (before.state, outcome) {
        (SignInState::Finished(_), _) => after.state == before.state,
        (_, Err(text)) => failed_with(after, error::failure(ErrorKind::Auth, text@)),
        (SignInState::PrepareAnisette, Ok(_)) => after.state == SignInState::LogIn,
        (SignInState::LogIn, Ok(_)) => after.state == SignInState::OpenSession,
        (SignInState::OpenSession, Ok(_)) => after.state == SignInState::Finished(Ok(())),
    }
}

/// What is shown on coming to a state.
pub open spec fn sign_in_notice(job: SignIn) -> Option<Seq<char>> {
    match job.state {
        SignInState::PrepareAnisette => Some(job.settings.notice@),
        SignInState::Finished(Ok(_)) => Some("✅ Autenticado"@),
        _ => None,
    }
}

impl SignIn {
    pub fn new(email: &str, password: &str, anisette_url: &str) -> (job: SignIn)
        ensures
            auth::are_settings(
                job.settings,
                email@,
                auth::lowercase(email@),
                password@,
                anisette_url@,
            ),
            job.state == SignInState::PrepareAnisette,
    {
        SignIn {
            settings: auth::account_settings(email, password, anisette_url),
            state: SignInState::PrepareAnisette,
        }
    }

    /// What is shown on coming to the present state.
    pub fn notice(&self) -> (r: Option<String>)
        ensures
            device::text_of(r) == sign_in_notice(*self),
    {
        match &self.state {
            SignInState::PrepareAnisette => Some(self.settings.notice.clone()),
            SignInState::Finished(Ok(_)) => Some("✅ Autenticado".to_owned()),
            _ => None,
        }
    }

    /// Goes on after an outcome.
    pub fn advance(self, outcome: Result<(), String>) -> (after: SignIn)
        ensures
            sign_in_step(self, outcome, after),
    {
        let SignIn { settings, state } = self;
        let state = match (state, outcome) {
            (SignInState::Finished(r), _) => SignInState::Finished(r),
            (_, Err(text)) => SignInState::Finished(Err(CliError::Auth(text))),
            (SignInState::PrepareAnisette, Ok(_)) => SignInState::LogIn,
            (SignInState::LogIn, Ok(_)) => SignInState::OpenSession,
            (SignInState::OpenSession, Ok(_)) => SignInState::Finished(Ok(())),
        };
        SignIn { settings, state }
    }
}

/// How many outcomes can still change the job, at most.
pub open spec fn steps_left(state: SignInState) -> nat {
    match state {
        SignInState::PrepareAnisette => 3,
        SignInState::LogIn => 2,
        SignInState::OpenSession => 1,
        SignInState::Finished(_) => 0,
    }
}

/// Every outcome brings a job nearer to its end, and a finished job stays as it is.
pub proof fn law_job_comes_to_its_end(
    before: SignIn,
    outcome: Result<(), String>,
    after: SignIn,
)
    requires
        sign_in_step(before, outcome, after),
    ensures
        steps_left(before.state) > 0 ==> steps_left(after.state) < steps_left(before.state),
        steps_left(before.state) == 0 ==> after.state == before.state,
        steps_left(before.state) == 0 <==> before.state is Finished,
{
}

/// Whether each job follows from the one before it by the outcome between them.
pub open spec fn is_run(jobs: Seq<SignIn>, outcomes: Seq<Result<(), String>>) -> bool {
    &&& jobs.len() == outcomes.len() + 1
    &&& forall|i: int|
        0 <= i < outcomes.len() ==> #[trigger] sign_in_step(jobs[i], outcomes[i], jobs[i + 1])
}

/// Signing in succeeds exactly where the anisette provider, the login and the developer session
/// all did.
pub proof fn law_sign_in_takes_three_good_outcomes(
    jobs: Seq<SignIn>,
    outcomes: Seq<Result<(), String>>,
)
    requires
        is_run(jobs, outcomes),
        jobs[0].state == SignInState::PrepareAnisette,
    ensures
        jobs.last().state == SignInState::Finished(Ok(())) <==> outcomes.len() >= 3 && forall|
            i: int,
        |
            0 <= i < 3 ==> (#[trigger] outcomes[i]) is Ok,
{
    lemma_stage(jobs, outcomes, outcomes.len() as int);
    if outcomes.len() >= 3 && (forall|i: int| 0 <= i < 3 ==> (#[trigger] outcomes[i]) is Ok) {
        assert(good_before(outcomes, outcomes.len() as int));
        assert(jobs.last().state->Finished_0->Ok_0 == ());
    }
    if jobs.last().state == SignInState::Finished(Ok(())) {
        assert(good_before(outcomes, outcomes.len() as int));
    }
}

/// Whether two states are the same, with failures taken by their views.
pub open spec fn same_state(a: SignInState, b: SignInState) -> bool {
    match (a, b) {
        (SignInState::PrepareAnisette, SignInState::PrepareAnisette) => true,
        (SignInState::LogIn, SignInState::LogIn) => true,
        (SignInState::OpenSession, SignInState::OpenSession) => true,
        (SignInState::Finished(x), SignInState::Finished(y)) => error::outcome(x)
            == error::outcome(y),
        _ => false,
    }
}

/// Two addresses with one lower case sign in as the same account: with the same password, the
/// same anisette server and the same outcomes outside, all that is handed out is the same at
/// every point, the password and the server as they were given, and both end alike. Only the
/// notices may differ.
pub proof fn law_one_lower_case_is_one_account(
    a: Seq<SignIn>,
    b: Seq<SignIn>,
    outcomes: Seq<Result<(), String>>,
    email_a: Seq<char>,
    email_b: Seq<char>,
    password: Seq<char>,
    anisette_url: Seq<char>,
    n: int,
)
    requires
        auth::lowercase(email_a) == auth::lowercase(email_b),
        is_run(a, outcomes),
        is_run(b, outcomes),
        auth::are_settings(
            a[0].settings,
            email_a,
            auth::lowercase(email_a),
            password,
            anisette_url,
        ),
        auth::are_settings(
            b[0].settings,
            email_b,
            auth::lowercase(email_b),
            password,
            anisette_url,
        ),
        a[0].state == SignInState::PrepareAnisette,
        b[0].state == SignInState::PrepareAnisette,
        0 <= n < a.len(),
    ensures
        a[n].settings.email@ == auth::lowercase(email_a),
        a[n].settings.email@ == b[n].settings.email@,
        a[n].settings.password@ == password,
        b[n].settings.password@ == password,
        a[n].settings.anisette_url@ == anisette_url,
        b[n].settings.anisette_url@ == anisette_url,
        a[n].settings.serial_number@ == b[n].settings.serial_number@,
        a[n].settings.machine_name@ == b[n].settings.machine_name@,
        same_state(a[n].state, b[n].state),
    decreases n,
{
    if n > 0 {
        law_one_lower_case_is_one_account(
            a,
            b,
            outcomes,
            email_a,
            email_b,
            password,
            anisette_url,
            n - 1,
        );
        assert(sign_in_step(a[n - 1], outcomes[n - 1], a[n - 1 + 1]));
        assert(sign_in_step(b[n - 1], outcomes[n - 1], b[n - 1 + 1]));
    }
}

/// Whether the first outcomes, three at most, are all good.
spec fn good_before(outcomes: Seq<Result<(), String>>, n: int) -> bool {
    forall|i: int| 0 <= i < n && i < 3 ==> (#[trigger] outcomes[i]) is Ok
}

proof fn lemma_stage(jobs: Seq<SignIn>, outcomes: Seq<Result<(), String>>, n: int)
    requires
        is_run(jobs, outcomes),
        jobs[0].state == SignInState::PrepareAnisette,
        0 <= n <= outcomes.len(),
    ensures
        good_before(outcomes, n) <==> !(jobs[n].state matches SignInState::Finished(Err(_))),
        good_before(outcomes, n) ==> match jobs[n].state {
            SignInState::PrepareAnisette => n == 0,
            SignInState::LogIn => n == 1,
            SignInState::OpenSession => n == 2,
            SignInState::Finished(_) => n >= 3,
        },
    decreases n,
{
    if n > 0 {
        lemma_stage(jobs, outcomes, n - 1);
        assert(sign_in_step(jobs[n - 1], outcomes[n - 1], jobs[n - 1 + 1]));
        if good_before(outcomes, n) {
            assert(good_before(outcomes, n - 1));
            if n <= 3 {
                assert(outcomes[n - 1] is Ok);
            }
        }
        if good_before(outcomes, n - 1) && (n > 3 || outcomes[n - 1] is Ok) {
            assert(good_before(outcomes, n));
        }
    }
}

/// A failure ends the signing in, at every point, in a failure of the account with its words.
pub proof fn law_a_failure_keeps_its_words(before: SignIn, text: String, after: SignIn)
    requires
        sign_in_step(before, Err(text), after),
        !(before.state is Finished),
    ensures
        after.state matches SignInState::Finished(Err(e)) && e@.kind == ErrorKind::Auth && e@.detail
            == text@,
{
}

/// The user is told at the beginning which account it is, and at the end that it worked; of a
/// failure nothing is told here.
pub proof fn law_the_user_is_told_at_both_ends(
    job: SignIn,
    email: Seq<char>,
    lower: Seq<char>,
    password: Seq<char>,
    anisette_url: Seq<char>,
)
    requires
        auth::are_settings(job.settings, email, lower, password, anisette_url),
    ensures
        job.state is PrepareAnisette ==> sign_in_notice(job) == Some(
            "🔐 Autenticando "@ + email + "…"@,
        ),
        job.state matches SignInState::Finished(Ok(_)) ==> sign_in_notice(job) == Some(
            "✅ Autenticado"@,
        ),
        job.state matches SignInState::Finished(Err(_)) ==> sign_in_notice(job) is None,
        job.state is LogIn || job.state is OpenSession ==> sign_in_notice(job) is None,
{
}

/// No outcome changes the settings of the account.
pub proof fn law_what_was_asked_for_is_kept(
    before: SignIn,
    reply: Result<(), String>,
    after: SignIn,
)
    requires
        sign_in_step(before, reply, after),
    ensures
        after.settings == before.settings,
{
}

} // verus!
