//! Making a remote pairing with a device, through a tunnel to it.

use vstd::prelude::*;
use vstd::string::*;

use crate::requests;
use crate::text;

verus! {

/// A service that a device offers, and its port.
#[derive(Debug)]
pub struct Service {
    pub name: String,
    pub port: u16,
}

/// The port of the first service with the given name.
pub open spec fn port_of(services: Seq<Service>, name: Seq<char>) -> Option<u16>
    decreases services.len(),
{
    if services.len() == 0 {
        None
    } else {
        match port_of(services.drop_last(), name) {
            Some(port) => Some(port),
            None => if services.last().name@ == name {
                Some(services.last().port)
            } else {
                None
            },
        }
    }
}

/// Services further on do not change which one is first.
proof fn lemma_port_early(services: Seq<Service>, name: Seq<char>, n: int)
    requires
        0 <= n <= services.len(),
        port_of(services.take(n), name) is Some,
    ensures
        port_of(services, name) == port_of(services.take(n), name),
    decreases services.len() - n,
{
    if n == services.len() {
        assert(services.take(n) =~= services);
    } else {
        assert(services.take(n + 1).drop_last() =~= services.take(n));
        lemma_port_early(services, name, n + 1);
    }
}

/// The port of the first service with the given name.
pub fn service_port(services: &Vec<Service>, name: &str) -> (r: Option<u16>)
    ensures
        r == port_of(services@, name@),
{
    let mut i: usize = 0;
    while i < services.len()
        invariant
            i <= services@.len(),
            port_of(services@.take(i as int), name@) is None,
        decreases services@.len() - i,
    {
        proof {
            assert(services@.take(i + 1).drop_last() =~= services@.take(i as int));
        }
        if text::same_text(services[i].name.as_str(), name) {
            proof {
                lemma_port_early(services@, name@, i + 1);
            }
            return Some(services[i].port);
        }
        i = i + 1;
    }
    proof {
        assert(services@.take(i as int) =~= services@);
    }
    None
}

/// Where the names of services are distinct, the port found under a name is that of the service
/// with that name, in whatever order the services come.
pub proof fn law_port_does_not_depend_on_order(services: Seq<Service>, i: int)
    requires
        0 <= i < services.len(),
        forall|j: int|
            0 <= j < services.len() && j != i ==> (#[trigger] services[j]).name@
                != services[i].name@,
    ensures
        port_of(services, services[i].name@) == Some(services[i].port),
{
    let name = services[i].name@;
    lemma_no_port(services, name, i);
    assert(services.take(i + 1).drop_last() =~= services.take(i));
    assert(services.take(i + 1).last() == services[i]);
    lemma_port_early(services, name, i + 1);
}

proof fn lemma_no_port(services: Seq<Service>, name: Seq<char>, n: int)
    requires
        0 <= n <= services.len(),
        forall|j: int| 0 <= j < n ==> (#[trigger] services[j]).name@ != name,
    ensures
        port_of(services.take(n), name) is None,
    decreases n,
{
    if n > 0 {
        lemma_no_port(services, name, n - 1);
        assert(services.take(n).drop_last() =~= services.take(n - 1));
        assert(services.take(n).last() == services[n - 1]);
    }
}

/// Whether a pairing is one that `idevice::remote_pairing::RpPairingFile::generate` can give for a
/// host. It gives another one at each call: this is a relation, not its result.
pub uninterp spec fn made_for(
    pairing: idevice::remote_pairing::RpPairingFile,
    host: Seq<char>,
) -> bool;

/// `idevice::remote_pairing::RpPairingFile::generate` makes a pairing for a host, with keys drawn
/// at random. Nothing is said of the keys, nor that two pairings differ; the pairing is one made
/// for the host that is named.
pub assume_specification[ idevice::remote_pairing::RpPairingFile::generate ](
    sending_host: &str,
) -> (r: idevice::remote_pairing::RpPairingFile)
    ensures
        made_for(r, sending_host@),
;

/// The text of `idevice::IdeviceError::InternalError`, by its `Display`: the same two words
/// whatever the error carries.
#[verifier::external_body]
fn internal_error_text(detail: &str) -> (r: String)
    ensures
        r@ == "internal error"@,
{
    idevice::IdeviceError::InternalError(detail.to_owned()).to_string()
}

/// A round of pairing.
#[derive(Debug)]
pub struct Round {
    /// The port of the service.
    pub port: u16,
    /// How many rounds went before.
    pub number: u8,
    /// The host that the device is told it pairs with.
    pub host: String,
    /// The code that is given where the device asks for one.
    pub pin: String,
    /// The pairing as it stands.
    pub pairing: idevice::remote_pairing::RpPairingFile,
}

/// What has to be done next.
#[derive(Debug)]
pub enum RemotePairingState {
    /// Connect to the device's tunnel proxy.
    ConnectProxy,
    /// Set up the tunnel; service discovery is at a port.
    CreateTunnel { discovery: u16 },
    /// Connect, through the tunnel, to service discovery at its port.
    ConnectDiscovery { discovery: u16 },
    /// Ask which services there are.
    Discover,
    /// Connect to the service at its port.
    ConnectService(Round),
    /// Open an XPC client on the connection.
    OpenClient(Round),
    /// Shake hands.
    ShakeHands(Round),
    /// Receive the first message; it may fail to come.
    ReceiveFirst(Round),
    /// Pair: as the round's host, with its code, on its pairing.
    Pair(Round),
    /// The end: the pairing, or the words of the failure.
    Finished(Result<idevice::remote_pairing::RpPairingFile, String>),
}

/// What came of it.
#[derive(Debug)]
pub enum RemotePairingReply {
    Done,
    Failed(String),
    /// The proxy is connected; service discovery is at a port.
    Proxy { discovery: u16 },
    Services(Vec<Service>),
    /// The pairing after a round.
    Paired(idevice::remote_pairing::RpPairingFile),
}

/// The making of a remote pairing. The device is paired with in two rounds, over a connection
/// each.
#[derive(Debug)]
pub struct RemotePairing {
    pub host: String,
    pub state: RemotePairingState,
}

/// Whether the job ended with the given words.
pub open spec fn failed_with(job: RemotePairing, words: Seq<char>) -> bool {
    job.state matches RemotePairingState::Finished(Err(x)) && x@ == words
}

/// The state after a round that left the given pairing.
pub open spec fn after_round(
    round: Round,
    pairing: idevice::remote_pairing::RpPairingFile,
) -> RemotePairingState {
    if round.number == 0 {
        RemotePairingState::ConnectService(Round { number: 1, pairing, ..round })
    } else {
        RemotePairingState::Finished(Ok(pairing))
    }
}

/// Whether a round is the first one: at the port of the service, as the host and with a pairing
/// made for it, and with the fixed code.
pub open spec fn is_first_round(round: Round, port: u16, host: Seq<char>) -> bool {
    &&& round.port == port
    &&& round.number == 0
    &&& round.host@ == host
    &&& round.pin@ == requests::PAIRING_PIN@
    &&& made_for(round.pairing, host)
}

/// How a reply changes the job.
pub open spec fn remote_pairing_step(
    before: RemotePairing,
    reply: RemotePairingReply,
    after: RemotePairing,
) -> bool {
    &&& after.host == before.host
    &&& match (before.state, reply) {
        (RemotePairingState::ConnectProxy, RemotePairingReply::Proxy { discovery }) => after.state
            == RemotePairingState::CreateTunnel { discovery },
        (RemotePairingState::CreateTunnel { discovery }, RemotePairingReply::Done) => after.state
            == RemotePairingState::ConnectDiscovery { discovery },
        (RemotePairingState::ConnectDiscovery { discovery }, RemotePairingReply::Done) =>
            after.state == RemotePairingState::Discover,
        (RemotePairingState::Discover, RemotePairingReply::Services(services)) => match port_of(
            services@,
            requests::TUNNEL_SERVICE@,
        ) {
            Some(port) => after.state matches RemotePairingState::ConnectService(round)
                && is_first_round(round, port, before.host@),
            None => failed_with(after, "internal error"@),
        },
        (RemotePairingState::ConnectService(round), RemotePairingReply::Done) => after.state
            == RemotePairingState::OpenClient(round),
        (RemotePairingState::OpenClient(round), RemotePairingReply::Done) => after.state
            == RemotePairingState::ShakeHands(round),
        (RemotePairingState::ShakeHands(round), RemotePairingReply::Done) => after.state
            == RemotePairingState::ReceiveFirst(round),
        (RemotePairingState::ReceiveFirst(round), RemotePairingReply::Done) => after.state
            == RemotePairingState::Pair(round),
        (RemotePairingState::ReceiveFirst(round), RemotePairingReply::Failed(_)) => after.state
            == RemotePairingState::Pair(round),
        (RemotePairingState::Pair(round), RemotePairingReply::Paired(pairing)) => after.state
            == after_round(round, pairing),
        (RemotePairingState::Finished(_), _) => after.state == before.state,
        (_, RemotePairingReply::Failed(text)) => failed_with(after, text@),
        _ => after.state == before.state,
    }
}

impl RemotePairing {
    /// A remote pairing as a host.
    pub fn new(host: String) -> (job: RemotePairing)
        ensures
            job.host == host,
            job.state == RemotePairingState::ConnectProxy,
    {
        RemotePairing { host, state: RemotePairingState::ConnectProxy }
    }

    /// Goes on after a reply.
    pub fn advance(self, reply: RemotePairingReply) -> (after: RemotePairing)
        ensures
            remote_pairing_step(self, reply, after),
    {
        let RemotePairing { host, state } = self;
        let state = match (state, reply) {
            (RemotePairingState::ConnectProxy, RemotePairingReply::Proxy { discovery }) =>
                RemotePairingState::CreateTunnel { discovery },
            (RemotePairingState::CreateTunnel { discovery }, RemotePairingReply::Done) =>
                RemotePairingState::ConnectDiscovery { discovery },
            (RemotePairingState::ConnectDiscovery { discovery: _ }, RemotePairingReply::Done) =>
                RemotePairingState::Discover,
            (RemotePairingState::Discover, RemotePairingReply::Services(services)) => {
                match service_port(&services, requests::TUNNEL_SERVICE) {
                    Some(port) => {
                        let pairing = idevice::remote_pairing::RpPairingFile::generate(
                            host.as_str(),
                        );
                        RemotePairingState::ConnectService(
                            Round {
                                port,
                                number: 0,
                                host: host.clone(),
                                pin: requests::PAIRING_PIN.to_owned(),
                                pairing,
                            },
                        )
                    },
                    None => RemotePairingState::Finished(
                        Err(internal_error_text("Untrusted tunnel service not found")),
                    ),
                }
            },
            (RemotePairingState::ConnectService(round), RemotePairingReply::Done) =>
                RemotePairingState::OpenClient(round),
            (RemotePairingState::OpenClient(round), RemotePairingReply::Done) =>
                RemotePairingState::ShakeHands(round),
            (RemotePairingState::ShakeHands(round), RemotePairingReply::Done) =>
                RemotePairingState::ReceiveFirst(round),
            (RemotePairingState::ReceiveFirst(round), RemotePairingReply::Done) =>
                RemotePairingState::Pair(round),
            (RemotePairingState::ReceiveFirst(round), RemotePairingReply::Failed(_)) =>
                RemotePairingState::Pair(round),
            (RemotePairingState::Pair(round), RemotePairingReply::Paired(pairing)) => {
                if round.number == 0 {
                    RemotePairingState::ConnectService(Round { number: 1, pairing, ..round })
                } else {
                    RemotePairingState::Finished(Ok(pairing))
                }
            },
            (RemotePairingState::Finished(r), _) => RemotePairingState::Finished(r),
            (_, RemotePairingReply::Failed(text)) => RemotePairingState::Finished(Err(text)),
            (state, _) => state,
        };
        RemotePairing { host, state }
    }
}

/// How many replies can still change the job, at most.
pub open spec fn steps_left(state: RemotePairingState) -> nat {
    match state {
        RemotePairingState::ConnectProxy => 14,
        RemotePairingState::CreateTunnel { discovery } => 13,
        RemotePairingState::ConnectDiscovery { discovery } => 12,
        RemotePairingState::Discover => 11,
        RemotePairingState::ConnectService(round) => 5 + steps_after(round),
        RemotePairingState::OpenClient(round) => 4 + steps_after(round),
        RemotePairingState::ShakeHands(round) => 3 + steps_after(round),
        RemotePairingState::ReceiveFirst(round) => 2 + steps_after(round),
        RemotePairingState::Pair(round) => 1 + steps_after(round),
        RemotePairingState::Finished(_) => 0,
    }
}

/// How many replies can still change the job after a round, at most.
pub open spec fn steps_after(round: Round) -> nat {
    if round.number == 0 {
        5
    } else {
        0
    }
}

/// Whether a reply is one that the work of a state can have.
pub open spec fn fits(state: RemotePairingState, reply: RemotePairingReply) -> bool {
    match state {
        RemotePairingState::ConnectProxy => reply is Proxy || reply is Failed,
        RemotePairingState::CreateTunnel { discovery } => reply is Done || reply is Failed,
        RemotePairingState::ConnectDiscovery { discovery } => reply is Done || reply is Failed,
        RemotePairingState::Discover => reply is Services || reply is Failed,
        RemotePairingState::ConnectService(_) => reply is Done || reply is Failed,
        RemotePairingState::OpenClient(_) => reply is Done || reply is Failed,
        RemotePairingState::ShakeHands(_) => reply is Done || reply is Failed,
        RemotePairingState::ReceiveFirst(_) => reply is Done || reply is Failed,
        RemotePairingState::Pair(_) => reply is Paired || reply is Failed,
        RemotePairingState::Finished(_) => false,
    }
}

/// A reply that fits brings a job nearer to its end; one that does not fit leaves it as it is.
/// Some reply fits at every point but the end.
pub proof fn law_job_comes_to_its_end(
    before: RemotePairing,
    reply: RemotePairingReply,
    after: RemotePairing,
)
    requires
        remote_pairing_step(before, reply, after),
    ensures
        fits(before.state, reply) ==> steps_left(after.state) < steps_left(before.state),
        steps_left(before.state) == 0 <==> before.state is Finished,
        !fits(before.state, reply) ==> after.state == before.state,
        !(before.state is Finished) <==> exists|r: RemotePairingReply|
            #[trigger] fits(before.state, r),
{
    if !(before.state is Finished) {
        assert(fits(before.state, RemotePairingReply::Failed(arbitrary())));
    }
}

/// Whether each job follows from the one before it by the reply between them.
pub open spec fn is_run(jobs: Seq<RemotePairing>, replies: Seq<RemotePairingReply>) -> bool {
    &&& jobs.len() == replies.len() + 1
    &&& forall|i: int|
        0 <= i < replies.len() ==> #[trigger] remote_pairing_step(
            jobs[i],
            replies[i],
            jobs[i + 1],
        )
}

/// How many of the first `n` replies ended a round of pairing.
pub open spec fn rounds_done(
    jobs: Seq<RemotePairing>,
    replies: Seq<RemotePairingReply>,
    n: int,
) -> nat
    decreases n,
{
    if n <= 0 {
        0
    } else if jobs[n - 1].state is Pair && replies[n - 1] is Paired {
        rounds_done(jobs, replies, n - 1) + 1
    } else {
        rounds_done(jobs, replies, n - 1)
    }
}

/// Whether the service was found, at the port, before reply `n`.
pub open spec fn found_before(
    jobs: Seq<RemotePairing>,
    replies: Seq<RemotePairingReply>,
    n: int,
    port: u16,
) -> bool {
    exists|i: int|
        0 <= i < n && jobs[i].state is Discover && (
        #[trigger] replies[i] matches RemotePairingReply::Services(services) && port_of(
            services@,
            requests::TUNNEL_SERVICE@,
        ) == Some(port))
}

/// Whether the first round left the given pairing before reply `n`. It was one at the port at
/// which the service was found, as the host and with the fixed code, on a pairing made for the
/// host.
pub open spec fn first_round_before(
    jobs: Seq<RemotePairing>,
    replies: Seq<RemotePairingReply>,
    n: int,
    port: u16,
    pairing: idevice::remote_pairing::RpPairingFile,
) -> bool {
    exists|i: int|
        0 <= i < n && #[trigger] replies[i] == RemotePairingReply::Paired(pairing) && (
        jobs[i].state matches RemotePairingState::Pair(round) && is_first_round(
            round,
            port,
            jobs[0].host@,
        ) && found_before(jobs, replies, i, port))
}

/// Whether the second round left the given pairing before reply `n`. It was one at the same
/// port, as the same host and with the same code, on the pairing that the first one left.
pub open spec fn second_round_before(
    jobs: Seq<RemotePairing>,
    replies: Seq<RemotePairingReply>,
    n: int,
    pairing: idevice::remote_pairing::RpPairingFile,
) -> bool {
    exists|i: int|
        0 <= i < n && #[trigger] replies[i] == RemotePairingReply::Paired(pairing) && (
        jobs[i].state matches RemotePairingState::Pair(round) && round.host@ == jobs[0].host@
            && round.pin@ == requests::PAIRING_PIN@ && first_round_before(
            jobs,
            replies,
            i,
            round.port,
            round.pairing,
        ))
}

/// A remote pairing that succeeds took two rounds, no more and no fewer, both at the port at
/// which the service was found, as the job's host and with the fixed code. The first round
/// started from a pairing made for the host, the second went on with what the first one left,
/// and the result is what the second one left.
pub proof fn law_two_rounds(
    jobs: Seq<RemotePairing>,
    replies: Seq<RemotePairingReply>,
    pairing: idevice::remote_pairing::RpPairingFile,
)
    requires
        is_run(jobs, replies),
        jobs[0].state == RemotePairingState::ConnectProxy,
        jobs.last().state == RemotePairingState::Finished(Ok(pairing)),
    ensures
        rounds_done(jobs, replies, replies.len() as int) == 2,
        second_round_before(jobs, replies, replies.len() as int, pairing),
{
    lemma_rounds(jobs, replies, replies.len() as int);
}

/// The round that a state belongs to.
spec fn round_in(state: RemotePairingState) -> Option<Round> {
    match state {
        RemotePairingState::ConnectService(round) => Some(round),
        RemotePairingState::OpenClient(round) => Some(round),
        RemotePairingState::ShakeHands(round) => Some(round),
        RemotePairingState::ReceiveFirst(round) => Some(round),
        RemotePairingState::Pair(round) => Some(round),
        _ => None,
    }
}

proof fn lemma_rounds(jobs: Seq<RemotePairing>, replies: Seq<RemotePairingReply>, n: int)
    requires
        is_run(jobs, replies),
        jobs[0].state == RemotePairingState::ConnectProxy,
        0 <= n <= replies.len(),
    ensures
        jobs[n].host == jobs[0].host,
        match jobs[n].state {
            RemotePairingState::Finished(Ok(pairing)) => rounds_done(jobs, replies, n) == 2
                && second_round_before(jobs, replies, n, pairing),
            RemotePairingState::Finished(Err(_)) => true,
            state => match round_in(state) {
                Some(round) => rounds_done(jobs, replies, n) == round.number && if round.number
                    == 0 {
                    is_first_round(round, round.port, jobs[0].host@) && found_before(
                        jobs,
                        replies,
                        n,
                        round.port,
                    )
                } else {
                    round.number == 1 && round.host@ == jobs[0].host@ && round.pin@
                        == requests::PAIRING_PIN@ && first_round_before(
                        jobs,
                        replies,
                        n,
                        round.port,
                        round.pairing,
                    )
                },
                None => rounds_done(jobs, replies, n) == 0,
            },
        },
    decreases n,
{
    if n > 0 {
        lemma_rounds(jobs, replies, n - 1);
        assert(remote_pairing_step(jobs[n - 1], replies[n - 1], jobs[n - 1 + 1]));
    }
}

/// A failure ends the pairing with its words, but for the first message of a round, which may
/// fail to come.
pub proof fn law_a_failure_keeps_its_words(
    before: RemotePairing,
    text: String,
    after: RemotePairing,
)
    requires
        remote_pairing_step(before, RemotePairingReply::Failed(text), after),
        !(before.state is Finished),
    ensures
        before.state matches RemotePairingState::ReceiveFirst(round) ==> after.state
            == RemotePairingState::Pair(round),
        !(before.state is ReceiveFirst) ==> (after.state
            matches RemotePairingState::Finished(Err(words)) && words@ == text@),
{
}

/// The first round is at the port found, as the host that was named, with a pairing made for that
/// host and with the code 000000.
pub proof fn law_the_first_round_is_for_the_host(round: Round, port: u16, host: Seq<char>)
    requires
        is_first_round(round, port, host),
    ensures
        round.port == port,
        round.number == 0,
        round.host@ == host,
        round.pin@ == "000000"@,
        made_for(round.pairing, host),
{
}

/// The services decide: the pairing goes on at the port of the tunnel service where it is among
/// them, and otherwise ends in an internal error.
pub proof fn law_the_services_decide(
    before: RemotePairing,
    services: Vec<Service>,
    after: RemotePairing,
    i: int,
)
    requires
        before.state is Discover,
        remote_pairing_step(before, RemotePairingReply::Services(services), after),
    ensures
        0 <= i < services@.len() && services@[i].name@
            == "com.apple.internal.dt.coredevice.untrusted.tunnelservice"@ && (forall|j: int|
            0 <= j < services@.len() && j != i ==> (#[trigger] services@[j]).name@
                != services@[i].name@) ==> (after.state
            matches RemotePairingState::ConnectService(round) && is_first_round(
            round,
            services@[i].port,
            before.host@,
        )),
        (forall|j: int|
            0 <= j < services@.len() ==> (#[trigger] services@[j]).name@
                != "com.apple.internal.dt.coredevice.untrusted.tunnelservice"@) ==> (after.state
            matches RemotePairingState::Finished(Err(words)) && words@ == "internal error"@),
{
    if 0 <= i < services@.len() && (forall|j: int|
        0 <= j < services@.len() && j != i ==> (#[trigger] services@[j]).name@
            != services@[i].name@) {
        law_port_does_not_depend_on_order(services@, i);
    }
    if forall|j: int|
        0 <= j < services@.len() ==> (#[trigger] services@[j]).name@
            != "com.apple.internal.dt.coredevice.untrusted.tunnelservice"@ {
        lemma_no_port(services@, requests::TUNNEL_SERVICE@, services@.len() as int);
        assert(services@.take(services@.len() as int) =~= services@);
    }
}

/// The port of service discovery is the one that the proxy gave.
pub proof fn law_discovery_is_at_the_port_given(
    a: RemotePairing,
    b: RemotePairing,
    c: RemotePairing,
    discovery: u16,
)
    requires
        a.state is ConnectProxy,
        remote_pairing_step(a, RemotePairingReply::Proxy { discovery }, b),
        remote_pairing_step(b, RemotePairingReply::Done, c),
    ensures
        c.state == (RemotePairingState::ConnectDiscovery { discovery }),
        c.host == a.host,
{
}

/// No reply changes the host.
pub proof fn law_what_was_asked_for_is_kept(
    before: RemotePairing,
    reply: RemotePairingReply,
    after: RemotePairing,
)
    requires
        remote_pairing_step(before, reply, after),
    ensures
        after.host == before.host,
{
}

/// A round connects, opens a client, shakes hands, receives the first message and pairs, in this
/// order and with the same round throughout. The first round is followed by a second one, at the
/// same port, as the same host and with the same code, on the pairing that came; the second one
/// ends the job with the pairing that came.
pub proof fn law_a_round_goes_in_order(
    before: RemotePairing,
    round: Round,
    pairing: idevice::remote_pairing::RpPairingFile,
    after_done: RemotePairing,
    after_pairing: RemotePairing,
)
    requires
        remote_pairing_step(before, RemotePairingReply::Done, after_done),
        remote_pairing_step(before, RemotePairingReply::Paired(pairing), after_pairing),
    ensures
        before.state == RemotePairingState::ConnectService(round) ==> after_done.state
            == RemotePairingState::OpenClient(round),
        before.state == RemotePairingState::OpenClient(round) ==> after_done.state
            == RemotePairingState::ShakeHands(round),
        before.state == RemotePairingState::ShakeHands(round) ==> after_done.state
            == RemotePairingState::ReceiveFirst(round),
        before.state == RemotePairingState::ReceiveFirst(round) ==> after_done.state
            == RemotePairingState::Pair(round),
        before.state == RemotePairingState::Pair(round) && round.number == 0 ==> (
        after_pairing.state matches RemotePairingState::ConnectService(second) && second.number == 1
            && second.port == round.port && second.host == round.host && second.pin == round.pin
            && second.pairing == pairing),
        before.state == RemotePairingState::Pair(round) && round.number != 0 ==> after_pairing.state
            == RemotePairingState::Finished(Ok(pairing)),
        before.state is ConnectDiscovery ==> after_done.state is Discover,
{
}

/// The port under a name is that of the first service with the name; there is none where no
/// service has it.
pub proof fn law_the_first_service_is_taken(services: Seq<Service>, name: Seq<char>, i: int)
    requires
        forall|j: int| 0 <= j < i ==> (#[trigger] services[j]).name@ != name,
        0 <= i <= services.len(),
    ensures
        i < services.len() && services[i].name@ == name ==> port_of(services, name) == Some(
            services[i].port,
        ),
        i == services.len() ==> port_of(services, name) is None,
{
    lemma_no_port(services, name, i);
    if i < services.len() {
        assert(services.take(i + 1).drop_last() =~= services.take(i));
        assert(services.take(i + 1).last() == services[i]);
        if services[i].name@ == name {
            lemma_port_early(services, name, i + 1);
        }
    } else {
        assert(services.take(i) =~= services);
    }
}

} // verus!
