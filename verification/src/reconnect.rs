//! Reconnecting on request: one attempt, and attempts under a retry policy.

use core::time::Duration;
use vstd::prelude::*;
use vstd::string::*;

use crate::state::{ConnectionState, DisconnectionReason};
use crate::text::{contained_text_stands_between, contains_text, has_text, occurs_at};

verus! {

/// How one attempt to reconnect ended.
pub enum ReconnectOutcome {
    /// There is a connection: a new one, or one that was there before.
    Connected,
    /// The client no longer exists.
    ClientDropped,
    /// The user closed the connection.
    LocallyDisconnected,
    /// The server could not be reached, for the reason given.
    Failed(String),
}

/// What an attempt is answered once the client no longer exists.
pub open spec fn client_dropped_message() -> Seq<char> {
    "Client has been dropped"@
}

/// What an attempt is answered once the user has closed the connection.
pub open spec fn locally_disconnected_message() -> Seq<char> {
    "Client was locally disconnected"@
}

impl ReconnectOutcome {
    /// The outcome as the caller of an attempt sees it.
    pub open spec fn spec_result(self) -> Result<(), Seq<char>> {
        match self {
            ReconnectOutcome::Connected => Ok(()),
            ReconnectOutcome::ClientDropped => Err(client_dropped_message()),
            ReconnectOutcome::LocallyDisconnected => Err(locally_disconnected_message()),
            ReconnectOutcome::Failed(message) => Err(message@),
        }
    }

    /// Whether this is what the caller of an attempt is told of the outcome.
    pub open spec fn tells(self, result: Result<(), String>) -> bool {
        match self.spec_result() {
            Ok(_) => result is Ok,
            Err(text) => result matches Err(message) && message@ == text,
        }
    }

    /// The outcome as the caller of an attempt sees it.
    pub fn result(self) -> (result: Result<(), String>)
        ensures
            self.tells(result),
    {
        match self {
            ReconnectOutcome::Connected => Ok(()),
            ReconnectOutcome::ClientDropped => Err(String::from_str("Client has been dropped")),
            ReconnectOutcome::LocallyDisconnected => Err(
                String::from_str("Client was locally disconnected"),
            ),
            ReconnectOutcome::Failed(message) => Err(message),
        }
    }
}

/// What one attempt to reconnect waits for. The shared state is locked anew
/// for each phase that works on it, so other clients may change it between.
pub enum ReconnectPhase<C> {
    /// Whether the client still exists.
    FindClient,
    /// The locked state: a client that is connected needs no attempt.
    CheckConnected,
    /// The locked state: the attempt announces itself.
    MarkReconnecting,
    /// The outcome of dialing the server.
    Dial,
    /// The locked state: the new connection moves in.
    Install(C),
    /// The locked state: the failure is recorded.
    RecordFailure(String),
    /// Nothing: the attempt is over.
    Done(ReconnectOutcome),
}

impl<C> ReconnectPhase<C> {
    /// The phase after the search for the client.
    pub open spec fn after_search(self, found: bool) -> Self {
        match self {
            ReconnectPhase::FindClient => if found {
                ReconnectPhase::CheckConnected
            } else {
                ReconnectPhase::Done(ReconnectOutcome::ClientDropped)
            },
            _ => self,
        }
    }

    /// The phase and the shared state after the lock was held.
    pub open spec fn after_lock(self, state: ConnectionState<C>) -> (Self, ConnectionState<C>) {
        match self {
            ReconnectPhase::CheckConnected => if state is Connected {
                (ReconnectPhase::Done(ReconnectOutcome::Connected), state)
            } else {
                (ReconnectPhase::MarkReconnecting, state)
            },
            ReconnectPhase::MarkReconnecting => if state.locally_closed() {
                (ReconnectPhase::Done(ReconnectOutcome::LocallyDisconnected), state)
            } else {
                (
                    ReconnectPhase::Dial,
                    ConnectionState::NotConnected(DisconnectionReason::Reconnecting),
                )
            },
            ReconnectPhase::Install(connection) => if state.locally_closed() {
                (ReconnectPhase::Done(ReconnectOutcome::LocallyDisconnected), state)
            } else {
                (
                    ReconnectPhase::Done(ReconnectOutcome::Connected),
                    ConnectionState::Connected(connection),
                )
            },
            ReconnectPhase::RecordFailure(message) => (
                ReconnectPhase::Done(ReconnectOutcome::Failed(message)),
                ConnectionState::NotConnected(DisconnectionReason::RemoteClosed),
            ),
            _ => (self, state),
        }
    }

    /// The phase after the server was dialed.
    pub open spec fn after_dial(self, dialed: Result<C, String>) -> Self {
        match self {
            ReconnectPhase::Dial => match dialed {
                Ok(connection) => ReconnectPhase::Install(connection),
                Err(message) => ReconnectPhase::RecordFailure(message),
            },
            _ => self,
        }
    }

    /// Takes in whether the client still exists.
    pub fn client_found(self, found: bool) -> (next: Self)
        ensures
            next == self.after_search(found),
    {
        match self {
            ReconnectPhase::FindClient => if found {
                ReconnectPhase::CheckConnected
            } else {
                ReconnectPhase::Done(ReconnectOutcome::ClientDropped)
            },
            other => other,
        }
    }

    /// Works on the shared state while its lock is held.
    pub fn locked(self, state: &mut ConnectionState<C>) -> (next: Self)
        ensures
            (next, *final(state)) == self.after_lock(*old(state)),
    {
        match self {
            ReconnectPhase::CheckConnected => if state.is_connected() {
                ReconnectPhase::Done(ReconnectOutcome::Connected)
            } else {
                ReconnectPhase::MarkReconnecting
            },
            ReconnectPhase::MarkReconnecting => if state.is_locally_closed() {
                ReconnectPhase::Done(ReconnectOutcome::LocallyDisconnected)
            } else {
                *state = ConnectionState::NotConnected(DisconnectionReason::Reconnecting);
                ReconnectPhase::Dial
            },
            ReconnectPhase::Install(connection) => if state.is_locally_closed() {
                ReconnectPhase::Done(ReconnectOutcome::LocallyDisconnected)
            } else {
                *state = ConnectionState::Connected(connection);
                ReconnectPhase::Done(ReconnectOutcome::Connected)
            },
            ReconnectPhase::RecordFailure(message) => {
                *state = ConnectionState::NotConnected(DisconnectionReason::RemoteClosed);
                ReconnectPhase::Done(ReconnectOutcome::Failed(message))
            },
            other => other,
        }
    }

    /// The connection that moves in when the phase works on this state, if one
    /// does: it is to receive from then on.
    pub fn moving_in(&self, state: &ConnectionState<C>) -> (connection: Option<&C>)
        ensures
            match connection {
                Some(new) => *self == ReconnectPhase::Install(*new) && self.after_lock(*state) == (
                    ReconnectPhase::<C>::Done(ReconnectOutcome::Connected),
                    ConnectionState::Connected(*new),
                ),
                None => self.after_lock(*state).1 is Connected ==> self.after_lock(*state).1
                    == *state && !(*self is Install),
            },
    {
        match self {
            ReconnectPhase::Install(connection) => if state.is_locally_closed() {
                None
            } else {
                Some(connection)
            },
            _ => None,
        }
    }

    /// Takes in the outcome of dialing the server.
    pub fn dialed(self, dialed: Result<C, String>) -> (next: Self)
        ensures
            next == self.after_dial(dialed),
    {
        match self {
            ReconnectPhase::Dial => match dialed {
                Ok(connection) => ReconnectPhase::Install(connection),
                Err(message) => ReconnectPhase::RecordFailure(message),
            },
            other => other,
        }
    }
}

/// How an attempt ends, and the state that it leaves, where nobody else works
/// on the shared state meanwhile.
pub open spec fn undisturbed_attempt<C>(state: ConnectionState<C>, dialed: Result<C, String>) -> (
    ReconnectPhase<C>,
    ConnectionState<C>,
) {
    let checked = ReconnectPhase::FindClient.after_search(true).after_lock(state);
    let marked = checked.0.after_lock(checked.1);
    marked.0.after_dial(dialed).after_lock(marked.1)
}

/// An undisturbed attempt leaves a connection that is there, and a client that
/// its user closed, as they are. Otherwise it succeeds exactly when the server
/// can be reached: the client is then connected, and closed by the remote side
/// if not.
pub proof fn attempt_follows_the_dial<C>(state: ConnectionState<C>, dialed: Result<C, String>)
    ensures
        undisturbed_attempt(state, dialed) == match state {
            ConnectionState::Connected(_) => (
                ReconnectPhase::<C>::Done(ReconnectOutcome::Connected),
                state,
            ),
            ConnectionState::NotConnected(DisconnectionReason::LocalClosed) => (
                ReconnectPhase::<C>::Done(ReconnectOutcome::LocallyDisconnected),
                state,
            ),
            ConnectionState::NotConnected(_) => match dialed {
                Ok(connection) => (
                    ReconnectPhase::<C>::Done(ReconnectOutcome::Connected),
                    ConnectionState::Connected(connection),
                ),
                Err(message) => (
                    ReconnectPhase::<C>::Done(ReconnectOutcome::Failed(message)),
                    ConnectionState::NotConnected(DisconnectionReason::RemoteClosed),
                ),
            },
        },
{
}

/// A client that its user closed stays closed, whatever an attempt does while
/// it holds the lock; only the record of a failed dial overwrites the reason.
pub proof fn attempt_keeps_local_close<C>(phase: ReconnectPhase<C>, state: ConnectionState<C>)
    requires
        state.locally_closed(),
        !(phase is RecordFailure),
    ensures
        phase.after_lock(state).1 == state,
{
}

/// No attempt opens a connection on a client that its user closed, and none but
/// the one that it dialed.
pub proof fn attempt_opens_only_what_it_dialed<C>(
    phase: ReconnectPhase<C>,
    state: ConnectionState<C>,
    connection: C,
)
    requires
        phase.after_lock(state).1 == ConnectionState::Connected(connection),
    ensures
        !state.locally_closed(),
        state == ConnectionState::Connected(connection) || phase == ReconnectPhase::Install(
            connection,
        ),
{
}

/// An attempt that succeeds leaves a client that is connected.
pub proof fn success_means_connected<C>(phase: ReconnectPhase<C>, state: ConnectionState<C>)
    requires
        !(phase is Done),
        phase.after_lock(state).0 == ReconnectPhase::<C>::Done(ReconnectOutcome::Connected),
    ensures
        phase.after_lock(state).1 is Connected,
{
}

/// What a run of attempts under a retry policy waits for. `retries` counts the
/// attempts that failed so far.
pub enum RetryPhase {
    /// The policy's answer: the delay before the next attempt, if there may be one.
    AskPolicy { retries: u32 },
    /// The end of the delay.
    Sleep { retries: u32, delay: Duration },
    /// The result of an attempt to reconnect.
    Attempt { retries: u32 },
    /// Nothing: an attempt had the last word.
    Done(Result<(), String>),
    /// Nothing: the policy allows no further attempt.
    Exhausted,
}

/// What a run is answered when the policy allows no further attempt.
pub open spec fn attempts_exhausted_message() -> Seq<char> {
    "Reconnection attempts exhausted"@
}

/// Whether a failed attempt says that the user closed the connection, which
/// no further attempt can change.
pub open spec fn reports_local_disconnection(message: Seq<char>) -> bool {
    contains_text(message, "locally disconnected"@)
}

/// Whether a run goes on after an attempt with this result.
pub open spec fn may_retry(result: Result<(), String>) -> bool {
    result matches Err(message) && !reports_local_disconnection(message@)
}

impl RetryPhase {
    /// How many attempts have failed, while the run goes on.
    pub open spec fn spec_retries(self) -> Option<u32> {
        match self {
            RetryPhase::AskPolicy { retries } => Some(retries),
            RetryPhase::Sleep { retries, .. } => Some(retries),
            RetryPhase::Attempt { retries } => Some(retries),
            _ => None,
        }
    }

    /// The phase after the policy's answer: the first attempt starts at once,
    /// every later one after its delay.
    pub open spec fn after_answer(self, delay: Option<Duration>) -> Self {
        match self {
            RetryPhase::AskPolicy { retries } => match delay {
                Some(delay) => if retries > 0 {
                    RetryPhase::Sleep { retries, delay }
                } else {
                    RetryPhase::Attempt { retries }
                },
                None => RetryPhase::Exhausted,
            },
            _ => self,
        }
    }

    /// The phase after the delay.
    pub open spec fn after_sleep(self) -> Self {
        match self {
            RetryPhase::Sleep { retries, .. } => RetryPhase::Attempt { retries },
            _ => self,
        }
    }

    /// The phase after an attempt.
    pub open spec fn after_attempt(self, result: Result<(), String>) -> Self {
        match self {
            RetryPhase::Attempt { retries } => if may_retry(result) {
                RetryPhase::AskPolicy { retries: (retries + 1) as u32 }
            } else {
                RetryPhase::Done(result)
            },
            _ => self,
        }
    }

    /// The run's result, once it has one.
    pub open spec fn spec_result(self) -> Option<Result<(), Seq<char>>> {
        match self {
            RetryPhase::Done(Ok(_)) => Some(Ok(())),
            RetryPhase::Done(Err(message)) => Some(Err(message@)),
            RetryPhase::Exhausted => Some(Err(attempts_exhausted_message())),
            _ => None,
        }
    }

    /// A run that has made no attempt yet.
    pub fn start() -> (phase: Self)
        ensures
            phase == (RetryPhase::AskPolicy { retries: 0 }),
    {
        RetryPhase::AskPolicy { retries: 0 }
    }

    /// Takes in the policy's answer.
    pub fn policy_answered(self, delay: Option<Duration>) -> (next: Self)
        ensures
            next == self.after_answer(delay),
    {
        match self {
            RetryPhase::AskPolicy { retries } => match delay {
                Some(delay) => if retries > 0 {
                    RetryPhase::Sleep { retries, delay }
                } else {
                    RetryPhase::Attempt { retries }
                },
                None => RetryPhase::Exhausted,
            },
            other => other,
        }
    }

    /// Takes in that the delay is over.
    pub fn slept(self) -> (next: Self)
        ensures
            next == self.after_sleep(),
    {
        match self {
            RetryPhase::Sleep { retries, .. } => RetryPhase::Attempt { retries },
            other => other,
        }
    }

    /// Whether the result of an attempt can be taken in: not where one more
    /// failure is beyond what can be counted.
    pub fn can_take_in(&self, result: &Result<(), String>) -> (can: bool)
        ensures
            can == (may_retry(*result) ==> (*self matches RetryPhase::Attempt { retries }
                ==> retries < u32::MAX)),
    {
        match (self, result) {
            (RetryPhase::Attempt { retries }, Err(message)) => *retries < u32::MAX || has_text(
                message,
                "locally disconnected",
            ),
            _ => true,
        }
    }

    /// Takes in the result of an attempt.
    pub fn attempted(self, result: Result<(), String>) -> (next: Self)
        requires
            may_retry(result) ==> (self matches RetryPhase::Attempt { retries } ==> retries
                < u32::MAX),
        ensures
            next == self.after_attempt(result),
    {
        match self {
            RetryPhase::Attempt { retries } => {
                let stop = match &result {
                    Ok(_) => true,
                    Err(message) => has_text(message, "locally disconnected"),
                };
                if stop {
                    RetryPhase::Done(result)
                } else {
                    RetryPhase::AskPolicy { retries: retries + 1 }
                }
            },
            other => other,
        }
    }

    /// The run's result, once it has one.
    pub fn result(self) -> (result: Option<Result<(), String>>)
        ensures
            match self.spec_result() {
                None => result is None,
                Some(Ok(_)) => result matches Some(Ok(_)),
                Some(Err(text)) => result matches Some(Err(message)) && message@ == text,
            },
    {
        match self {
            RetryPhase::Done(result) => Some(result),
            RetryPhase::Exhausted => Some(
                Err(String::from_str("Reconnection attempts exhausted")),
            ),
            _ => None,
        }
    }
}

/// Where a run stands after `rounds` rounds, in each of which the policy is
/// asked, its delay is waited out and an attempt is made. `answers` and
/// `results` are what the policy and the attempts say, round by round.
pub open spec fn run_rounds(
    answers: Seq<Option<Duration>>,
    results: Seq<Result<(), String>>,
    rounds: nat,
) -> RetryPhase
    decreases rounds,
{
    if rounds == 0 {
        RetryPhase::AskPolicy { retries: 0 }
    } else {
        let last = (rounds - 1) as nat;
        run_rounds(answers, results, last).after_answer(answers[last as int]).after_sleep().after_attempt(
            results[last as int],
        )
    }
}

/// Whether the first `rounds` rounds all lead to a further one: the policy
/// granted each attempt, and each failed without a word of a local
/// disconnection.
pub open spec fn rounds_all_retry(
    answers: Seq<Option<Duration>>,
    results: Seq<Result<(), String>>,
    rounds: nat,
) -> bool {
    &&& rounds <= answers.len()
    &&& rounds <= results.len()
    &&& forall|i: int|
        #![trigger answers[i]]
        #![trigger results[i]]
        0 <= i < rounds ==> answers[i] is Some && may_retry(results[i])
}

/// The first attempt of a run is made at once; every later one is made after
/// exactly the delay that the policy gave.
pub proof fn delays_are_waited_out(retries: u32, delay: Duration)
    ensures
        (RetryPhase::AskPolicy { retries: 0 }).after_answer(Some(delay)) == (RetryPhase::Attempt {
            retries: 0,
        }),
        retries > 0 ==> (RetryPhase::AskPolicy { retries }).after_answer(Some(delay)) == (
        RetryPhase::Sleep { retries, delay }),
        (RetryPhase::Sleep { retries, delay }).after_sleep() == (RetryPhase::Attempt { retries }),
{
}

/// A run keeps asking the policy as long as every attempt that it grants fails
/// and none reports a local disconnection, and it counts those attempts.
pub proof fn failed_rounds_are_counted(
    answers: Seq<Option<Duration>>,
    results: Seq<Result<(), String>>,
    rounds: nat,
)
    requires
        rounds_all_retry(answers, results, rounds),
        rounds <= u32::MAX,
    ensures
        run_rounds(answers, results, rounds) == (RetryPhase::AskPolicy { retries: rounds as u32 }),
    decreases rounds,
{
    if rounds > 0 {
        let last = (rounds - 1) as nat;
        failed_rounds_are_counted(answers, results, last);
        assert(answers[last as int] is Some && may_retry(results[last as int]));
    }
}

/// A run succeeds as soon as an attempt does: with the first attempt that
/// succeeds, where the policy granted it and the attempts before it.
pub proof fn first_success_ends_the_run(
    answers: Seq<Option<Duration>>,
    results: Seq<Result<(), String>>,
    rounds: nat,
)
    requires
        rounds_all_retry(answers, results, rounds),
        rounds <= u32::MAX,
        rounds < answers.len(),
        rounds < results.len(),
        answers[rounds as int] is Some,
        results[rounds as int] is Ok,
    ensures
        run_rounds(answers, results, rounds + 1).spec_result() == Some(Ok::<(), Seq<char>>(())),
{
    failed_rounds_are_counted(answers, results, rounds);
}

/// A run that learns of a local disconnection stops there and hands on what
/// the attempt said.
pub proof fn local_disconnection_ends_the_run(
    answers: Seq<Option<Duration>>,
    results: Seq<Result<(), String>>,
    rounds: nat,
    message: String,
)
    requires
        rounds_all_retry(answers, results, rounds),
        rounds <= u32::MAX,
        rounds < answers.len(),
        rounds < results.len(),
        answers[rounds as int] is Some,
        results[rounds as int] == Err::<(), String>(message),
        reports_local_disconnection(message@),
    ensures
        run_rounds(answers, results, rounds + 1).spec_result() == Some(
            Err::<(), Seq<char>>(message@),
        ),
{
    failed_rounds_are_counted(answers, results, rounds);
}

/// A run whose policy grants no further attempt fails, after exactly the
/// attempts that the policy granted.
pub proof fn refusal_exhausts_the_run(
    answers: Seq<Option<Duration>>,
    results: Seq<Result<(), String>>,
    rounds: nat,
)
    requires
        rounds_all_retry(answers, results, rounds),
        rounds <= u32::MAX,
        rounds < answers.len(),
        answers[rounds as int] is None,
    ensures
        run_rounds(answers, results, rounds).spec_retries() == Some(rounds as u32),
        run_rounds(answers, results, rounds).after_answer(answers[rounds as int]).spec_result()
            == Some(Err::<(), Seq<char>>(attempts_exhausted_message())),
{
    failed_rounds_are_counted(answers, results, rounds);
}

/// Whether a round is the one that decides a run: all rounds before it led to a
/// further one, and it does not, because the policy grants no attempt or the
/// attempt succeeds or reports a local disconnection.
pub open spec fn decides(
    answers: Seq<Option<Duration>>,
    results: Seq<Result<(), String>>,
    round: nat,
) -> bool {
    &&& round < answers.len()
    &&& round < results.len()
    &&& rounds_all_retry(answers, results, round)
    &&& answers[round as int] is None || !may_retry(results[round as int])
}

/// Where a run ends that a round decides: with the policy's refusal, or with
/// the result of the attempt.
pub open spec fn decided_by(
    answers: Seq<Option<Duration>>,
    results: Seq<Result<(), String>>,
    round: nat,
) -> RetryPhase {
    if answers[round as int] is None {
        RetryPhase::Exhausted
    } else {
        RetryPhase::Done(results[round as int])
    }
}

/// A run goes on until a round decides it, and it ends as that round says,
/// whatever would come after.
pub proof fn one_round_decides_the_run(
    answers: Seq<Option<Duration>>,
    results: Seq<Result<(), String>>,
    rounds: nat,
)
    requires
        rounds <= answers.len(),
        rounds <= results.len(),
        rounds <= u32::MAX,
    ensures
        rounds_all_retry(answers, results, rounds) || exists|round: nat|
            round < rounds && #[trigger] decides(answers, results, round),
        rounds_all_retry(answers, results, rounds) ==> run_rounds(answers, results, rounds) == (
        RetryPhase::AskPolicy { retries: rounds as u32 }),
        forall|round: nat|
            round < rounds && #[trigger] decides(answers, results, round) ==> run_rounds(
                answers,
                results,
                rounds,
            ) == decided_by(answers, results, round),
    decreases rounds,
{
    if rounds > 0 {
        let last = (rounds - 1) as nat;
        one_round_decides_the_run(answers, results, last);
        if rounds_all_retry(answers, results, last) {
            if answers[last as int] is None || !may_retry(results[last as int]) {
                assert(decides(answers, results, last));
            } else {
                assert(rounds_all_retry(answers, results, rounds));
            }
        }
        assert forall|round: nat|
            round < rounds && #[trigger] decides(answers, results, round) implies run_rounds(
            answers,
            results,
            rounds,
        ) == decided_by(answers, results, round) by {
            if round < last {
                assert(run_rounds(answers, results, last) == decided_by(answers, results, round));
            }
        }
    }
    if rounds_all_retry(answers, results, rounds) {
        failed_rounds_are_counted(answers, results, rounds);
    }
}

/// Which outcomes of an attempt lead to a further one: a client that is gone
/// and a server that cannot be reached, but not a connection, and not a client
/// that its user closed.
pub proof fn outcomes_that_retry(outcome: ReconnectOutcome, result: Result<(), String>)
    requires
        outcome.tells(result),
    ensures
        may_retry(result) == match outcome {
            ReconnectOutcome::Connected => false,
            ReconnectOutcome::ClientDropped => true,
            ReconnectOutcome::LocallyDisconnected => false,
            ReconnectOutcome::Failed(message) => !reports_local_disconnection(message@),
        },
{
    reveal_strlit("Client was locally disconnected");
    reveal_strlit("locally disconnected");
    reveal_strlit("Client has been dropped");
    let closed = locally_disconnected_message();
    let gone = client_dropped_message();
    let needle = "locally disconnected"@;
    assert(closed.subrange(11, 31) =~= needle);
    assert(occurs_at(closed, needle, 11));
    assert forall|at: int| !occurs_at(gone, needle, at) by {
        if occurs_at(gone, needle, at) {
            let part = gone.subrange(at, at + needle.len());
            assert(part[0] == gone[at]);
            assert(part[1] == gone[at + 1]);
            assert(at == 0 || at == 1 || at == 2 || at == 3);
        }
    }
}

/// Where a run stands after `rounds` rounds, and the state that it has left,
/// where nobody else works on the shared state meanwhile. `dials` is what comes
/// of dialing the server, should an attempt get that far, and `results` what
/// the attempts tell. A round without an attempt leaves the state alone.
pub open spec fn undisturbed_run<C>(
    state: ConnectionState<C>,
    answers: Seq<Option<Duration>>,
    dials: Seq<Result<C, String>>,
    results: Seq<Result<(), String>>,
    rounds: nat,
) -> (RetryPhase, ConnectionState<C>)
    decreases rounds,
{
    if rounds == 0 {
        (RetryPhase::AskPolicy { retries: 0 }, state)
    } else {
        let last = (rounds - 1) as nat;
        let before = undisturbed_run(state, answers, dials, results, last);
        let ready = before.0.after_answer(answers[last as int]).after_sleep();
        (
            ready.after_attempt(results[last as int]),
            if ready is Attempt {
                undisturbed_attempt(before.1, dials[last as int]).1
            } else {
                before.1
            },
        )
    }
}

/// Whether the result of a round is what its attempt tells, where it makes one.
pub open spec fn round_tells<C>(
    state: ConnectionState<C>,
    answers: Seq<Option<Duration>>,
    dials: Seq<Result<C, String>>,
    results: Seq<Result<(), String>>,
    round: nat,
) -> bool {
    let before = undisturbed_run(state, answers, dials, results, round);
    before.0.after_answer(answers[round as int]).after_sleep() is Attempt ==> (
    undisturbed_attempt(before.1, dials[round as int]).0 matches ReconnectPhase::Done(outcome)
        && outcome.tells(results[round as int]))
}

/// A run leaves the client as it reports, where nobody else works on the shared
/// state meanwhile. One that succeeds leaves a connected client: by the
/// connection that was there before, or by one that was dialed. One that is
/// exhausted leaves the client closed by the remote side, if it made an attempt
/// at all, and so does one that still goes on. One that stops at a local
/// disconnection leaves a client without a connection.
pub proof fn run_leaves_what_it_reports<C>(
    state: ConnectionState<C>,
    answers: Seq<Option<Duration>>,
    dials: Seq<Result<C, String>>,
    results: Seq<Result<(), String>>,
    rounds: nat,
)
    requires
        rounds <= answers.len(),
        rounds <= dials.len(),
        rounds <= results.len(),
        rounds <= u32::MAX,
        forall|round: nat|
            round < rounds ==> #[trigger] round_tells(state, answers, dials, results, round),
    ensures
        ({
            let closed = ConnectionState::<C>::NotConnected(DisconnectionReason::RemoteClosed);
            let (run, left) = undisturbed_run(state, answers, dials, results, rounds);
            &&& run == run_rounds(answers, results, rounds)
            &&& run.spec_result() == Some(Ok::<(), Seq<char>>(())) ==> left is Connected
            &&& left matches ConnectionState::Connected(connection) ==> left == state || exists|
                i: int,
            |
                0 <= i < rounds && #[trigger] dials[i] == Ok::<C, String>(connection)
            &&& run matches RetryPhase::AskPolicy { retries } ==> retries == rounds && (rounds == 0
                || answers[0] is Some)
            &&& run is AskPolicy ==> left == if rounds == 0 {
                state
            } else {
                closed
            }
            &&& run is Exhausted ==> rounds > 0 && left == if answers[0] is None {
                state
            } else {
                closed
            }
            &&& run matches RetryPhase::Done(Err(message)) ==> reports_local_disconnection(message@)
                && !(left is Connected)
            &&& run is AskPolicy || run is Exhausted || run is Done
        }),
    decreases rounds,
{
    if rounds > 0 {
        let last = (rounds - 1) as nat;
        run_leaves_what_it_reports(state, answers, dials, results, last);
        let before = undisturbed_run(state, answers, dials, results, last);
        let dialed = dials[last as int];
        if before.0.after_answer(answers[last as int]).after_sleep() is Attempt {
            assert(round_tells(state, answers, dials, results, last));
            let outcome = undisturbed_attempt(before.1, dialed).0->Done_0;
            outcomes_that_retry(outcome, results[last as int]);
            attempt_follows_the_dial(before.1, dialed);
        }
    }
}

/// A failed attempt ends a run only where its message holds the words "locally
/// disconnected", and then with that message. After any other failure, such as
/// a connection that is refused, the policy is asked again, with the count one
/// higher.
pub proof fn failed_attempts_ask_again(retries: u32, message: String, next: RetryPhase)
    requires
        retries < u32::MAX,
        call_ensures(
            RetryPhase::attempted,
            (RetryPhase::Attempt { retries }, Err::<(), String>(message)),
            next,
        ),
    ensures
        (exists|before: Seq<char>, after: Seq<char>|
            message@ == #[trigger] (before + "locally disconnected"@ + after)) ==> next
            == RetryPhase::Done(Err(message)),
        !(exists|before: Seq<char>, after: Seq<char>|
            message@ == #[trigger] (before + "locally disconnected"@ + after)) ==> (
        next matches RetryPhase::AskPolicy { retries: count } && count == retries + 1),
{
    contained_text_stands_between(message@, "locally disconnected"@);
}

/// An attempt that succeeds ends the run with success.
pub proof fn successful_attempts_end_the_run(retries: u32, next: RetryPhase)
    requires
        call_ensures(
            RetryPhase::attempted,
            (RetryPhase::Attempt { retries }, Ok::<(), String>(())),
            next,
        ),
    ensures
        next matches RetryPhase::Done(Ok(_)),
{
}

/// In a run the policy's word is kept: the first attempt that it grants is made
/// at once, every later one waits for exactly the delay that it gave, and one
/// that it does not grant is not made.
pub proof fn granted_runs_wait_first(retries: u32, answer: Option<Duration>, next: RetryPhase)
    requires
        call_ensures(RetryPhase::policy_answered, (RetryPhase::AskPolicy { retries }, answer), next),
    ensures
        match answer {
            Some(delay) => next == if retries == 0 {
                RetryPhase::Attempt { retries: 0 }
            } else {
                RetryPhase::Sleep { retries, delay }
            },
            None => next is Exhausted,
        },
{
}

/// A run goes on to an attempt when a delay is over. No attempt but the first
/// comes from anywhere else.
pub proof fn later_attempts_come_out_of_a_wait(
    phase: RetryPhase,
    answer: Option<Duration>,
    result: Result<(), String>,
    asked: RetryPhase,
    slept: RetryPhase,
    tried: RetryPhase,
)
    requires
        !(phase is Attempt),
        call_ensures(RetryPhase::policy_answered, (phase, answer), asked),
        call_ensures(RetryPhase::slept, (phase,), slept),
        call_ensures(RetryPhase::attempted, (phase, result), tried),
    ensures
        match phase {
            RetryPhase::Sleep { retries, .. } => slept == (RetryPhase::Attempt { retries }),
            _ => !(slept is Attempt),
        },
        asked matches RetryPhase::Attempt { retries } ==> retries == 0,
        !(tried is Attempt),
{
}

/// A run has a result exactly when it is over: that of the attempt which ended
/// it, or that the policy granted no more.
pub proof fn runs_report_how_they_ended(phase: RetryPhase, result: Option<Result<(), String>>)
    requires
        call_ensures(RetryPhase::result, (phase,), result),
    ensures
        match phase {
            RetryPhase::Done(Ok(_)) => result matches Some(Ok(_)),
            RetryPhase::Done(Err(reason)) => result matches Some(Err(message)) && message@
                == reason@,
            RetryPhase::Exhausted => result matches Some(Err(message)) && message@
                == "Reconnection attempts exhausted"@,
            _ => result is None,
        },
{
}

/// A run can always take in how an attempt ended, but for one failure more than
/// can be counted; a failure with the words "locally disconnected" is not
/// counted.
pub proof fn only_countable_failures_are_taken_in(
    phase: RetryPhase,
    result: Result<(), String>,
    can: bool,
)
    requires
        call_ensures(RetryPhase::can_take_in, (&phase, &result), can),
    ensures
        !can <==> phase == (RetryPhase::Attempt { retries: u32::MAX }) && result is Err && !(exists|
            before: Seq<char>,
            after: Seq<char>,
        | result->Err_0@ == #[trigger] (before + "locally disconnected"@ + after)),
{
    if let Err(message) = result {
        contained_text_stands_between(message@, "locally disconnected"@);
    }
}

/// An attempt succeeds with a connection and fails with the reason otherwise:
/// that the client is gone, that its user closed it, or why the server could
/// not be reached.
pub proof fn attempts_report_how_they_ended(
    outcome: ReconnectOutcome,
    result: Result<(), String>,
)
    requires
        call_ensures(ReconnectOutcome::result, (outcome,), result),
    ensures
        match outcome {
            ReconnectOutcome::Connected => result is Ok,
            ReconnectOutcome::ClientDropped => result matches Err(message) && message@
                == "Client has been dropped"@,
            ReconnectOutcome::LocallyDisconnected => result matches Err(message) && message@
                == "Client was locally disconnected"@,
            ReconnectOutcome::Failed(reason) => result matches Err(message) && message@ == reason@,
        },
{
}

/// An attempt needs the client: without it nothing is dialed.
pub proof fn attempts_need_the_client<C>(found: bool, next: ReconnectPhase<C>)
    requires
        call_ensures(
            ReconnectPhase::<C>::client_found,
            (ReconnectPhase::<C>::FindClient, found),
            next,
        ),
    ensures
        found ==> next is CheckConnected,
        !found ==> next == ReconnectPhase::<C>::Done(ReconnectOutcome::ClientDropped),
{
}

/// A dial that succeeds brings its connection, and one that fails is recorded
/// with its reason.
pub proof fn attempts_take_the_dial_over<C>(
    dialed: Result<C, String>,
    next: ReconnectPhase<C>,
)
    requires
        call_ensures(ReconnectPhase::<C>::dialed, (ReconnectPhase::<C>::Dial, dialed), next),
    ensures
        match dialed {
            Ok(connection) => next == ReconnectPhase::Install(connection),
            Err(reason) => next == ReconnectPhase::<C>::RecordFailure(reason),
        },
{
}

/// What an attempt makes of the state that it finds each time that it holds the
/// lock, whatever others have done to it since the last time. A client that is
/// connected needs no attempt, one that its user closed allows none, and a dial
/// that failed leaves the client closed by the remote side.
pub proof fn attempts_heed_the_state<C>(
    state: ConnectionState<C>,
    connection: C,
    reason: String,
)
    ensures
        ({
            let closed = state == ConnectionState::<C>::NotConnected(
                DisconnectionReason::LocalClosed,
            );
            let refused = (
                ReconnectPhase::<C>::Done(ReconnectOutcome::LocallyDisconnected),
                state,
            );
            &&& ReconnectPhase::<C>::CheckConnected.after_lock(state) == if state is Connected {
                (ReconnectPhase::<C>::Done(ReconnectOutcome::Connected), state)
            } else {
                (ReconnectPhase::<C>::MarkReconnecting, state)
            }
            &&& ReconnectPhase::<C>::MarkReconnecting.after_lock(state) == if closed {
                refused
            } else {
                (
                    ReconnectPhase::<C>::Dial,
                    ConnectionState::<C>::NotConnected(DisconnectionReason::Reconnecting),
                )
            }
            &&& ReconnectPhase::Install(connection).after_lock(state) == if closed {
                refused
            } else {
                (
                    ReconnectPhase::<C>::Done(ReconnectOutcome::Connected),
                    ConnectionState::Connected(connection),
                )
            }
            &&& ReconnectPhase::<C>::RecordFailure(reason).after_lock(state) == (
                ReconnectPhase::<C>::Done(ReconnectOutcome::Failed(reason)),
                ConnectionState::<C>::NotConnected(DisconnectionReason::RemoteClosed),
            )
        }),
{
}

/// The connection that an attempt dialed is the one that receives, exactly
/// where it moves in.
pub proof fn dialed_connections_move_in<C>(
    phase: ReconnectPhase<C>,
    state: ConnectionState<C>,
    receiving: Option<&C>,
)
    requires
        call_ensures(ReconnectPhase::<C>::moving_in, (&phase, &state), receiving),
    ensures
        match phase {
            ReconnectPhase::Install(connection) => if state == ConnectionState::<C>::NotConnected(
                DisconnectionReason::LocalClosed,
            ) {
                receiving is None
            } else {
                receiving == Some(&connection)
            },
            _ => receiving is None,
        },
{
}

/// Attempts and runs take in only what they wait for; anything else leaves
/// them, and the state, as they are.
pub proof fn attempts_take_in_what_they_wait_for<C>(
    phase: ReconnectPhase<C>,
    run: RetryPhase,
    state: ConnectionState<C>,
    found: bool,
    dialed: Result<C, String>,
    answer: Option<Duration>,
    result: Result<(), String>,
)
    ensures
        !(phase is FindClient) ==> phase.after_search(found) == phase,
        !(phase is Dial) ==> phase.after_dial(dialed) == phase,
        phase is FindClient || phase is Dial || phase is Done ==> phase.after_lock(state) == (
            phase,
            state,
        ),
        !(run is AskPolicy) ==> run.after_answer(answer) == run,
        !(run is Sleep) ==> run.after_sleep() == run,
        !(run is Attempt) ==> run.after_attempt(result) == run,
{
}

} // verus!
