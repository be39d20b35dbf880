//! What happens when the receiving side of a connection ends.

use core::time::Duration;
use vstd::prelude::*;

use crate::state::{ConnectionState, DisconnectionReason};

verus! {

/// Who deals with a dropped connection.
#[derive(Clone, Copy, Debug, PartialEq, Eq, Structural)]
pub enum DropHandling {
    /// The user's handler, which is called.
    User,
    /// Automatic reconnection.
    Automatic,
    /// The user, who opened the connection by hand and is not called again.
    LeftToUser,
}

/// How the handling of a dropped connection ended.
#[derive(Clone, Copy, Debug, PartialEq, Eq, Structural)]
pub enum DroppedOutcome {
    /// The client no longer exists.
    ClientGone,
    /// The user had closed the connection.
    LocallyClosed,
    /// The user's handler has taken over.
    HandedOver,
    /// The user may reconnect by hand; nothing else will.
    LeftToUser,
    /// There is a new connection.
    Reconnected,
    /// The retry policy allows no further attempt.
    Exhausted,
}

/// What the handling of a dropped connection waits for. The shared state is
/// looked up and locked anew for each phase that works on it, so the client
/// may vanish or change between.
pub enum DroppedPhase<C> {
    /// The client: nothing is to be done for one that its user closed, and one
    /// whose drop is left to the user is marked as closed.
    CheckClosed { handling: DropHandling },
    /// The client: it is marked as closed before the user's handler is called.
    HandOver,
    /// The return of the user's handler.
    CallHandler,
    /// The client: it is marked as reconnecting.
    MarkReconnecting,
    /// The policy's answer: the delay before the next attempt, if there may be one.
    AskPolicy { retries: u32 },
    /// The end of the delay.
    Sleep { retries: u32, delay: Duration },
    /// The outcome of dialing the server.
    Dial { retries: u32 },
    /// The client: the new connection moves in.
    Install(C),
    /// The client: it is marked as closed for good.
    GiveUp,
    /// Nothing: the drop has been handled.
    Finished(DroppedOutcome),
}

impl<C> DroppedPhase<C> {
    /// The phase after the client turned out to be gone. What can be done
    /// without it goes on: the user's handler is called, the server is dialed.
    pub open spec fn after_loss(self) -> Self {
        match self {
            DroppedPhase::CheckClosed { .. } => DroppedPhase::Finished(DroppedOutcome::ClientGone),
            DroppedPhase::HandOver => DroppedPhase::CallHandler,
            DroppedPhase::MarkReconnecting => DroppedPhase::AskPolicy { retries: 0 },
            DroppedPhase::Install(_) => DroppedPhase::Finished(DroppedOutcome::ClientGone),
            DroppedPhase::GiveUp => DroppedPhase::Finished(DroppedOutcome::Exhausted),
            _ => self,
        }
    }

    /// The phase and the shared state after the lock was held.
    pub open spec fn after_lock(self, state: ConnectionState<C>) -> (Self, ConnectionState<C>) {
        match self {
            DroppedPhase::CheckClosed { handling } => if state.locally_closed() {
                (DroppedPhase::Finished(DroppedOutcome::LocallyClosed), state)
            } else {
                match handling {
                    DropHandling::User => (DroppedPhase::HandOver, state),
                    DropHandling::Automatic => (DroppedPhase::MarkReconnecting, state),
                    DropHandling::LeftToUser => (
                        DroppedPhase::Finished(DroppedOutcome::LeftToUser),
                        ConnectionState::NotConnected(DisconnectionReason::RemoteClosed),
                    ),
                }
            },
            DroppedPhase::HandOver => (
                DroppedPhase::CallHandler,
                ConnectionState::NotConnected(DisconnectionReason::RemoteClosed),
            ),
            DroppedPhase::MarkReconnecting => (
                DroppedPhase::AskPolicy { retries: 0 },
                ConnectionState::NotConnected(DisconnectionReason::Reconnecting),
            ),
            DroppedPhase::Install(connection) => if state.locally_closed() {
                (DroppedPhase::Finished(DroppedOutcome::LocallyClosed), state)
            } else {
                (
                    DroppedPhase::Finished(DroppedOutcome::Reconnected),
                    ConnectionState::Connected(connection),
                )
            },
            DroppedPhase::GiveUp => (
                DroppedPhase::Finished(DroppedOutcome::Exhausted),
                ConnectionState::NotConnected(DisconnectionReason::RemoteClosed),
            ),
            _ => (self, state),
        }
    }

    /// The phase after the user's handler returned.
    pub open spec fn after_handler(self) -> Self {
        match self {
            DroppedPhase::CallHandler => DroppedPhase::Finished(DroppedOutcome::HandedOver),
            _ => self,
        }
    }

    /// The phase after the policy's answer: every attempt waits out its delay,
    /// the first one too.
    pub open spec fn after_answer(self, delay: Option<Duration>) -> Self {
        match self {
            DroppedPhase::AskPolicy { retries } => match delay {
                Some(delay) => DroppedPhase::Sleep { retries, delay },
                None => DroppedPhase::GiveUp,
            },
            _ => self,
        }
    }

    /// The phase after the delay.
    pub open spec fn after_sleep(self) -> Self {
        match self {
            DroppedPhase::Sleep { retries, .. } => DroppedPhase::Dial { retries },
            _ => self,
        }
    }

    /// The phase after the server was dialed.
    pub open spec fn after_dial(self, dialed: Result<C, String>) -> Self {
        match self {
            DroppedPhase::Dial { retries } => match dialed {
                Ok(connection) => DroppedPhase::Install(connection),
                Err(_) => DroppedPhase::AskPolicy { retries: (retries + 1) as u32 },
            },
            _ => self,
        }
    }

    /// A drop that has just been noticed.
    pub fn start(handling: DropHandling) -> (phase: Self)
        ensures
            phase == (DroppedPhase::<C>::CheckClosed { handling }),
    {
        DroppedPhase::CheckClosed { handling }
    }

    /// Takes in that the client is gone.
    pub fn client_gone(self) -> (next: Self)
        ensures
            next == self.after_loss(),
    {
        match self {
            DroppedPhase::CheckClosed { .. } => DroppedPhase::Finished(DroppedOutcome::ClientGone),
            DroppedPhase::HandOver => DroppedPhase::CallHandler,
            DroppedPhase::MarkReconnecting => DroppedPhase::AskPolicy { retries: 0 },
            DroppedPhase::Install(_) => DroppedPhase::Finished(DroppedOutcome::ClientGone),
            DroppedPhase::GiveUp => DroppedPhase::Finished(DroppedOutcome::Exhausted),
            other => other,
        }
    }

    /// Works on the shared state while its lock is held.
    pub fn locked(self, state: &mut ConnectionState<C>) -> (next: Self)
        ensures
            (next, *final(state)) == self.after_lock(*old(state)),
    {
        match self {
            DroppedPhase::CheckClosed { handling } => if state.is_locally_closed() {
                DroppedPhase::Finished(DroppedOutcome::LocallyClosed)
            } else {
                match handling {
                    DropHandling::User => DroppedPhase::HandOver,
                    DropHandling::Automatic => DroppedPhase::MarkReconnecting,
                    DropHandling::LeftToUser => {
                        *state = ConnectionState::NotConnected(DisconnectionReason::RemoteClosed);
                        DroppedPhase::Finished(DroppedOutcome::LeftToUser)
                    },
                }
            },
            DroppedPhase::HandOver => {
                *state = ConnectionState::NotConnected(DisconnectionReason::RemoteClosed);
                DroppedPhase::CallHandler
            },
            DroppedPhase::MarkReconnecting => {
                *state = ConnectionState::NotConnected(DisconnectionReason::Reconnecting);
                DroppedPhase::AskPolicy { retries: 0 }
            },
            DroppedPhase::Install(connection) => if state.is_locally_closed() {
                DroppedPhase::Finished(DroppedOutcome::LocallyClosed)
            } else {
                *state = ConnectionState::Connected(connection);
                DroppedPhase::Finished(DroppedOutcome::Reconnected)
            },
            DroppedPhase::GiveUp => {
                *state = ConnectionState::NotConnected(DisconnectionReason::RemoteClosed);
                DroppedPhase::Finished(DroppedOutcome::Exhausted)
            },
            other => other,
        }
    }

    /// The connection that moves in when the phase works on this state, if one
    /// does: it is to receive from then on.
    pub fn moving_in(&self, state: &ConnectionState<C>) -> (connection: Option<&C>)
        ensures
            match connection {
                Some(new) => *self == DroppedPhase::Install(*new) && self.after_lock(*state) == (
                    DroppedPhase::<C>::Finished(DroppedOutcome::Reconnected),
                    ConnectionState::Connected(*new),
                ),
                None => self.after_lock(*state).1 is Connected ==> self.after_lock(*state).1
                    == *state && !(*self is Install),
            },
    {
        match self {
            DroppedPhase::Install(connection) => if state.is_locally_closed() {
                None
            } else {
                Some(connection)
            },
            _ => None,
        }
    }

    /// Takes in that the user's handler returned.
    pub fn handler_called(self) -> (next: Self)
        ensures
            next == self.after_handler(),
    {
        match self {
            DroppedPhase::CallHandler => DroppedPhase::Finished(DroppedOutcome::HandedOver),
            other => other,
        }
    }

    /// Takes in the policy's answer.
    pub fn policy_answered(self, delay: Option<Duration>) -> (next: Self)
        ensures
            next == self.after_answer(delay),
    {
        match self {
            DroppedPhase::AskPolicy { retries } => match delay {
                Some(delay) => DroppedPhase::Sleep { retries, delay },
                None => DroppedPhase::GiveUp,
            },
            other => other,
        }
    }

    /// Takes in that the delay is over.
    pub fn slept(self) -> (next: Self)
        ensures
            next == self.after_sleep(),
    {
        match self {
            DroppedPhase::Sleep { retries, .. } => DroppedPhase::Dial { retries },
            other => other,
        }
    }

    /// Whether the outcome of dialing the server can be taken in: not where one
    /// more failure is beyond what can be counted.
    pub fn can_take_in(&self, dialed: &Result<C, String>) -> (can: bool)
        ensures
            can == (dialed is Err ==> (*self matches DroppedPhase::Dial { retries } ==> retries
                < u32::MAX)),
    {
        match (self, dialed) {
            (DroppedPhase::Dial { retries }, Err(_)) => *retries < u32::MAX,
            _ => true,
        }
    }

    /// Takes in the outcome of dialing the server.
    pub fn dialed(self, dialed: Result<C, String>) -> (next: Self)
        requires
            dialed is Err ==> (self matches DroppedPhase::Dial { retries } ==> retries < u32::MAX),
        ensures
            next == self.after_dial(dialed),
    {
        match self {
            DroppedPhase::Dial { retries } => match dialed {
                Ok(connection) => DroppedPhase::Install(connection),
                Err(_) => DroppedPhase::AskPolicy { retries: retries + 1 },
            },
            other => other,
        }
    }
}

/// Whether a phase belongs to a drop that is handled in this way. The end
/// belongs to all.
pub open spec fn belongs_to<C>(phase: DroppedPhase<C>, handling: DropHandling) -> bool {
    match phase {
        DroppedPhase::CheckClosed { handling: chosen } => chosen == handling,
        DroppedPhase::HandOver => handling is User,
        DroppedPhase::CallHandler => handling is User,
        DroppedPhase::MarkReconnecting => handling is Automatic,
        DroppedPhase::AskPolicy { .. } => handling is Automatic,
        DroppedPhase::Sleep { .. } => handling is Automatic,
        DroppedPhase::Dial { .. } => handling is Automatic,
        DroppedPhase::Install(_) => handling is Automatic,
        DroppedPhase::GiveUp => handling is Automatic,
        DroppedPhase::Finished(_) => true,
    }
}

/// Each way to handle a drop keeps to itself. A user who has a handler has full
/// control: no step of such a drop asks the policy or dials. Automatic handling
/// calls no handler. A drop that is left to the user does neither.
pub proof fn handling_is_exclusive<C>(
    phase: DroppedPhase<C>,
    handling: DropHandling,
    state: ConnectionState<C>,
    delay: Option<Duration>,
    dialed: Result<C, String>,
)
    requires
        belongs_to(phase, handling),
    ensures
        belongs_to(phase.after_loss(), handling),
        belongs_to(phase.after_lock(state).0, handling),
        belongs_to(phase.after_handler(), handling),
        belongs_to(phase.after_answer(delay), handling),
        belongs_to(phase.after_sleep(), handling),
        belongs_to(phase.after_dial(dialed), handling),
{
}

/// Whether a phase is one of automatic reconnection.
pub open spec fn reconnects_automatically<C>(phase: DroppedPhase<C>) -> bool {
    match phase {
        DroppedPhase::MarkReconnecting => true,
        DroppedPhase::AskPolicy { .. } => true,
        DroppedPhase::Sleep { .. } => true,
        DroppedPhase::Dial { .. } => true,
        DroppedPhase::Install(_) => true,
        DroppedPhase::GiveUp => true,
        _ => false,
    }
}

/// A drop that is left to the user starts no automatic reconnection: no step of
/// it leads to one of its phases, and each leads to another such step.
pub proof fn left_drop_never_reconnects<C>(
    phase: DroppedPhase<C>,
    state: ConnectionState<C>,
    delay: Option<Duration>,
    dialed: Result<C, String>,
)
    requires
        belongs_to(phase, DropHandling::LeftToUser),
    ensures
        !reconnects_automatically(phase),
        forall|next: DroppedPhase<C>|
            next == phase.after_loss() || next == phase.after_lock(state).0 || next
                == phase.after_handler() || next == phase.after_answer(delay) || next
                == phase.after_sleep() || next == phase.after_dial(dialed) ==> belongs_to(
                next,
                DropHandling::LeftToUser,
            ) && !(#[trigger] reconnects_automatically(next)),
{
}

/// A drop that is left to the user ends at once, with a client that is closed
/// by the remote side.
pub proof fn left_drop_closes_the_client<C>(state: ConnectionState<C>)
    requires
        !state.locally_closed(),
    ensures
        (DroppedPhase::CheckClosed { handling: DropHandling::LeftToUser }).after_lock(state) == (
            DroppedPhase::<C>::Finished(DroppedOutcome::LeftToUser),
            ConnectionState::<C>::NotConnected(DisconnectionReason::RemoteClosed),
        ),
{
}

/// Nothing is done about the drop of a connection that its user closed.
pub proof fn local_close_is_left_alone<C>(handling: DropHandling, state: ConnectionState<C>)
    requires
        state.locally_closed(),
    ensures
        (DroppedPhase::CheckClosed { handling }).after_lock(state) == (
            DroppedPhase::<C>::Finished(DroppedOutcome::LocallyClosed),
            state,
        ),
{
}

/// A user who closes the client while the server is being dialed is heard:
/// the new connection does not move in, and the client stays closed.
pub proof fn local_close_refuses_the_new_connection<C>(connection: C, state: ConnectionState<C>)
    requires
        state.locally_closed(),
    ensures
        DroppedPhase::Install(connection).after_lock(state) == (
            DroppedPhase::<C>::Finished(DroppedOutcome::LocallyClosed),
            state,
        ),
{
}

/// A client that its user closed stays closed, whatever the handling of a drop
/// does while it holds the lock, but for the three phases that mark the client
/// without a look at why it is closed.
pub proof fn drop_keeps_local_close<C>(phase: DroppedPhase<C>, state: ConnectionState<C>)
    requires
        state.locally_closed(),
        !(phase is HandOver),
        !(phase is MarkReconnecting),
        !(phase is GiveUp),
    ensures
        phase.after_lock(state).1 == state,
{
}

/// Automatic reconnection that succeeds leaves a client that is connected, and
/// no other end of a drop opens a connection.
pub proof fn reconnected_means_connected<C>(phase: DroppedPhase<C>, state: ConnectionState<C>)
    requires
        phase.after_lock(state).0 is Finished,
        !(phase is Finished),
    ensures
        phase.after_lock(state).0 == DroppedPhase::<C>::Finished(DroppedOutcome::Reconnected)
            ==> phase.after_lock(state).1 is Connected,
        phase.after_lock(state).0 != DroppedPhase::<C>::Finished(DroppedOutcome::Reconnected)
            ==> !(phase.after_lock(state).1 is Connected),
{
}

/// With a handler of the user's, an undisturbed drop leaves the client closed
/// by the remote side, and the handler is called once.
pub proof fn manual_drop_is_handed_over<C>(state: ConnectionState<C>)
    requires
        !state.locally_closed(),
    ensures
        ({
            let noticed = DroppedPhase::CheckClosed { handling: DropHandling::User };
            let checked = noticed.after_lock(state);
            let handed = checked.0.after_lock(checked.1);
            &&& handed.0 is CallHandler
            &&& handed.1 == ConnectionState::<C>::NotConnected(DisconnectionReason::RemoteClosed)
            &&& handed.0.after_handler() == DroppedPhase::<C>::Finished(DroppedOutcome::HandedOver)
        }),
{
}

/// Where handling is automatic, an undisturbed drop marks the client as
/// reconnecting and asks the policy for the first attempt.
pub proof fn automatic_drop_starts_retrying<C>(state: ConnectionState<C>)
    requires
        !state.locally_closed(),
    ensures
        ({
            let noticed = DroppedPhase::CheckClosed { handling: DropHandling::Automatic };
            let checked = noticed.after_lock(state);
            checked.0.after_lock(checked.1) == (
                DroppedPhase::<C>::AskPolicy { retries: 0 },
                ConnectionState::<C>::NotConnected(DisconnectionReason::Reconnecting),
            )
        }),
{
}

/// Where automatic reconnection stands after `rounds` rounds, in each of which
/// the policy is asked, its delay is waited out and the server is dialed.
/// `answers` and `dials` are what comes back, round by round.
pub open spec fn retry_rounds<C>(
    answers: Seq<Option<Duration>>,
    dials: Seq<Result<C, String>>,
    rounds: nat,
) -> DroppedPhase<C>
    decreases rounds,
{
    if rounds == 0 {
        DroppedPhase::AskPolicy { retries: 0 }
    } else {
        let last = (rounds - 1) as nat;
        retry_rounds(answers, dials, last).after_answer(answers[last as int]).after_sleep().after_dial(
            dials[last as int],
        )
    }
}

/// Whether the policy granted each of the first `rounds` attempts and each of
/// them failed.
pub open spec fn rounds_all_fail<C>(
    answers: Seq<Option<Duration>>,
    dials: Seq<Result<C, String>>,
    rounds: nat,
) -> bool {
    &&& rounds <= answers.len()
    &&& rounds <= dials.len()
    &&& forall|i: int|
        #![trigger answers[i]]
        #![trigger dials[i]]
        0 <= i < rounds ==> answers[i] is Some && dials[i] is Err
}

/// Automatic reconnection keeps asking the policy as long as the dials that it
/// grants fail, and it counts them.
pub proof fn failed_dials_are_counted<C>(
    answers: Seq<Option<Duration>>,
    dials: Seq<Result<C, String>>,
    rounds: nat,
)
    requires
        rounds_all_fail(answers, dials, rounds),
        rounds <= u32::MAX,
    ensures
        retry_rounds(answers, dials, rounds) == (DroppedPhase::<C>::AskPolicy {
            retries: rounds as u32,
        }),
    decreases rounds,
{
    if rounds > 0 {
        let last = (rounds - 1) as nat;
        failed_dials_are_counted(answers, dials, last);
        assert(answers[last as int] is Some && dials[last as int] is Err);
    }
}

/// The first dial that succeeds ends automatic reconnection: its connection
/// moves in, unless the user has closed the client by then.
pub proof fn first_dial_reconnects<C>(
    answers: Seq<Option<Duration>>,
    dials: Seq<Result<C, String>>,
    rounds: nat,
    connection: C,
    state: ConnectionState<C>,
)
    requires
        rounds_all_fail(answers, dials, rounds),
        rounds <= u32::MAX,
        rounds < answers.len(),
        rounds < dials.len(),
        answers[rounds as int] is Some,
        dials[rounds as int] == Ok::<C, String>(connection),
    ensures
        retry_rounds(answers, dials, rounds + 1).after_lock(state) == if state.locally_closed() {
            (DroppedPhase::<C>::Finished(DroppedOutcome::LocallyClosed), state)
        } else {
            (
                DroppedPhase::<C>::Finished(DroppedOutcome::Reconnected),
                ConnectionState::Connected(connection),
            )
        },
{
    failed_dials_are_counted(answers, dials, rounds);
}

/// When the policy grants no further attempt, automatic reconnection ends and
/// leaves the client closed by the remote side.
pub proof fn refusal_exhausts_reconnection<C>(
    answers: Seq<Option<Duration>>,
    dials: Seq<Result<C, String>>,
    rounds: nat,
    state: ConnectionState<C>,
)
    requires
        rounds_all_fail(answers, dials, rounds),
        rounds <= u32::MAX,
        rounds < answers.len(),
        answers[rounds as int] is None,
    ensures
        retry_rounds(answers, dials, rounds).after_answer(answers[rounds as int]).after_lock(state)
            == (
            DroppedPhase::<C>::Finished(DroppedOutcome::Exhausted),
            ConnectionState::<C>::NotConnected(DisconnectionReason::RemoteClosed),
        ),
{
    failed_dials_are_counted(answers, dials, rounds);
}

/// Whether a round is the one that ends automatic reconnection: all dials
/// before it failed, and in it the policy grants none or the dial succeeds.
pub open spec fn ends_retrying<C>(
    answers: Seq<Option<Duration>>,
    dials: Seq<Result<C, String>>,
    round: nat,
) -> bool {
    &&& round < answers.len()
    &&& round < dials.len()
    &&& rounds_all_fail(answers, dials, round)
    &&& answers[round as int] is None || dials[round as int] is Ok
}

/// Automatic reconnection goes on until a round ends it: it gives up where the
/// policy grants no attempt, and brings the connection of the dial otherwise.
pub proof fn one_round_ends_retrying<C>(
    answers: Seq<Option<Duration>>,
    dials: Seq<Result<C, String>>,
    rounds: nat,
)
    requires
        rounds <= answers.len(),
        rounds <= dials.len(),
        rounds <= u32::MAX,
    ensures
        rounds_all_fail(answers, dials, rounds) || exists|round: nat|
            round < rounds && #[trigger] ends_retrying(answers, dials, round),
        rounds_all_fail(answers, dials, rounds) ==> retry_rounds(answers, dials, rounds) == (
        DroppedPhase::<C>::AskPolicy { retries: rounds as u32 }),
        forall|round: nat|
            round < rounds && #[trigger] ends_retrying(answers, dials, round) ==> retry_rounds(
                answers,
                dials,
                rounds,
            ) == if answers[round as int] is None {
                DroppedPhase::<C>::GiveUp
            } else {
                DroppedPhase::<C>::Install(dials[round as int]->Ok_0)
            },
    decreases rounds,
{
    if rounds > 0 {
        let last = (rounds - 1) as nat;
        one_round_ends_retrying(answers, dials, last);
        if rounds_all_fail(answers, dials, last) {
            if answers[last as int] is None || dials[last as int] is Ok {
                assert(ends_retrying(answers, dials, last));
            } else {
                assert(rounds_all_fail(answers, dials, rounds));
            }
        }
    }
    if rounds_all_fail(answers, dials, rounds) {
        failed_dials_are_counted(answers, dials, rounds);
    }
}

/// In automatic reconnection the policy's word is kept, for the first attempt
/// and every later one: an attempt that it grants waits for exactly the delay
/// that it gave, and one that it does not grant is not made.
pub proof fn granted_attempts_wait_first<C>(
    retries: u32,
    answer: Option<Duration>,
    next: DroppedPhase<C>,
)
    requires
        call_ensures(
            DroppedPhase::<C>::policy_answered,
            (DroppedPhase::<C>::AskPolicy { retries }, answer),
            next,
        ),
    ensures
        match answer {
            Some(delay) => next == (DroppedPhase::<C>::Sleep { retries, delay }),
            None => next is GiveUp,
        },
{
}

/// The server is dialed when a delay is over, and only then: whatever else
/// happens to a drop, no dial comes of it.
pub proof fn dials_come_out_of_a_wait<C>(
    phase: DroppedPhase<C>,
    state: ConnectionState<C>,
    answer: Option<Duration>,
    dialed: Result<C, String>,
    asked: DroppedPhase<C>,
    slept: DroppedPhase<C>,
    told: DroppedPhase<C>,
    lost: DroppedPhase<C>,
    tried: DroppedPhase<C>,
)
    requires
        !(phase is Dial),
        call_ensures(DroppedPhase::<C>::policy_answered, (phase, answer), asked),
        call_ensures(DroppedPhase::<C>::slept, (phase,), slept),
        call_ensures(DroppedPhase::<C>::handler_called, (phase,), told),
        call_ensures(DroppedPhase::<C>::client_gone, (phase,), lost),
        call_ensures(DroppedPhase::<C>::dialed, (phase, dialed), tried),
    ensures
        match phase {
            DroppedPhase::Sleep { retries, .. } => slept == (DroppedPhase::<C>::Dial { retries }),
            _ => !(slept is Dial),
        },
        !(asked is Dial),
        !(told is Dial),
        !(lost is Dial),
        !(tried is Dial),
        !(phase.after_lock(state).0 is Dial),
{
}

/// A dial that succeeds brings its connection; one that fails asks the policy
/// again, with the count one higher.
pub proof fn failed_dials_ask_again<C>(
    retries: u32,
    dialed: Result<C, String>,
    next: DroppedPhase<C>,
)
    requires
        retries < u32::MAX,
        call_ensures(
            DroppedPhase::<C>::dialed,
            (DroppedPhase::<C>::Dial { retries }, dialed),
            next,
        ),
    ensures
        match dialed {
            Ok(connection) => next == DroppedPhase::Install(connection),
            Err(_) => next matches DroppedPhase::AskPolicy { retries: count } && count == retries
                + 1,
        },
{
}

/// What a look at the client decides: a client that its user closed is left
/// alone, and one that was not goes the way of the handling. The look itself
/// changes the state only where the drop is left to the user.
pub proof fn noticed_drops_go_their_way<C>(
    handling: DropHandling,
    state: ConnectionState<C>,
    noticed: DroppedPhase<C>,
)
    requires
        call_ensures(DroppedPhase::<C>::start, (handling,), noticed),
    ensures
        ({
            let (next, left) = noticed.after_lock(state);
            match state {
                ConnectionState::NotConnected(DisconnectionReason::LocalClosed) => next
                    == DroppedPhase::<C>::Finished(DroppedOutcome::LocallyClosed) && left == state,
                _ => match handling {
                    DropHandling::User => next is HandOver && left == state,
                    DropHandling::Automatic => next is MarkReconnecting && left == state,
                    DropHandling::LeftToUser => next == DroppedPhase::<C>::Finished(
                        DroppedOutcome::LeftToUser,
                    ) && left == ConnectionState::<C>::NotConnected(
                        DisconnectionReason::RemoteClosed,
                    ),
                },
            }
        }),
{
}

/// How a client is marked, whatever its state: as closed by the remote side
/// before the user's handler is called and when automatic reconnection gives
/// up, as reconnecting before the policy is asked for the first time.
pub proof fn drops_mark_the_client<C>(state: ConnectionState<C>)
    ensures
        DroppedPhase::<C>::HandOver.after_lock(state) == (
            DroppedPhase::<C>::CallHandler,
            ConnectionState::<C>::NotConnected(DisconnectionReason::RemoteClosed),
        ),
        DroppedPhase::<C>::MarkReconnecting.after_lock(state) == (
            DroppedPhase::<C>::AskPolicy { retries: 0 },
            ConnectionState::<C>::NotConnected(DisconnectionReason::Reconnecting),
        ),
        DroppedPhase::<C>::GiveUp.after_lock(state) == (
            DroppedPhase::<C>::Finished(DroppedOutcome::Exhausted),
            ConnectionState::<C>::NotConnected(DisconnectionReason::RemoteClosed),
        ),
{
}

/// A new connection moves in unless the user has closed the client, and it is
/// the one that receives exactly where it does.
pub proof fn new_connections_move_in<C>(
    connection: C,
    state: ConnectionState<C>,
    receiving: Option<&C>,
)
    requires
        call_ensures(
            DroppedPhase::<C>::moving_in,
            (&DroppedPhase::Install(connection), &state),
            receiving,
        ),
    ensures
        ({
            let (next, left) = DroppedPhase::Install(connection).after_lock(state);
            if state == ConnectionState::<C>::NotConnected(DisconnectionReason::LocalClosed) {
                next == DroppedPhase::<C>::Finished(DroppedOutcome::LocallyClosed) && left == state
                    && receiving is None
            } else {
                next == DroppedPhase::<C>::Finished(DroppedOutcome::Reconnected) && left
                    == ConnectionState::Connected(connection) && receiving == Some(&connection)
            }
        }),
{
}

/// A drop whose client is gone is over where nothing is left to do. Where the
/// user's handler is still to be called or the server to be dialed, that is
/// done without the client.
pub proof fn drops_outlive_the_client<C>(phase: DroppedPhase<C>, next: DroppedPhase<C>)
    requires
        call_ensures(DroppedPhase::<C>::client_gone, (phase,), next),
    ensures
        match phase {
            DroppedPhase::CheckClosed { .. } => next == DroppedPhase::<C>::Finished(
                DroppedOutcome::ClientGone,
            ),
            DroppedPhase::Install(_) => next == DroppedPhase::<C>::Finished(
                DroppedOutcome::ClientGone,
            ),
            DroppedPhase::HandOver => next is CallHandler,
            DroppedPhase::MarkReconnecting => next == (DroppedPhase::<C>::AskPolicy { retries: 0 }),
            DroppedPhase::GiveUp => next == DroppedPhase::<C>::Finished(DroppedOutcome::Exhausted),
            _ => next == phase,
        },
{
}

/// Once the user's handler has returned, the drop is over.
pub proof fn handlers_have_the_last_word<C>(next: DroppedPhase<C>)
    requires
        call_ensures(
            DroppedPhase::<C>::handler_called,
            (DroppedPhase::<C>::CallHandler,),
            next,
        ),
    ensures
        next == DroppedPhase::<C>::Finished(DroppedOutcome::HandedOver),
{
}

/// A drop takes in only what it waits for; anything else leaves it, and the
/// state, as they are.
pub proof fn drops_take_in_what_they_wait_for<C>(
    phase: DroppedPhase<C>,
    state: ConnectionState<C>,
    answer: Option<Duration>,
    dialed: Result<C, String>,
)
    ensures
        !(phase is AskPolicy) ==> phase.after_answer(answer) == phase,
        !(phase is Sleep) ==> phase.after_sleep() == phase,
        !(phase is Dial) ==> phase.after_dial(dialed) == phase,
        !(phase is CallHandler) ==> phase.after_handler() == phase,
        phase is AskPolicy || phase is Sleep || phase is Dial || phase is CallHandler
            || phase is Finished ==> phase.after_lock(state) == (phase, state) && phase.after_loss()
            == phase,
{
}

} // verus!
