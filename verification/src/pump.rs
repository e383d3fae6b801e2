//! The pump of one connection: it subscribes once the connection stands,
//! waits for the bus to move, and forwards each change as one notification
//! until the connection fails.

use crate::bus::{advance_by, lemma_advance_by_is_modular_sum, Cursor, EventBus};
use crate::outcome::Outcome;
use vstd::prelude::*;

verus! {

/// What the driver of a connection has to do next.
#[derive(Clone, Copy, Debug, PartialEq, Eq, Structural)]
pub enum PumpAction {
    /// Complete the connection-level handshake. It fails when the transport
    /// says so.
    Handshake,
    /// Wait for the bus to move past the pump's cursor. A pump that is
    /// already behind the bus, because a publish arrived while it was busy
    /// with a notification, is answered at once: `Pump::is_behind` tells.
    /// Otherwise suspend until the bus is published on. The wait fails when
    /// the bus or the client is gone.
    Wait,
    /// Send one reload notification. It fails when the client has
    /// disconnected or the transport reports an error.
    Notify,
    /// Release everything the connection holds. Nothing follows.
    Release,
}

/// The state of a pump as contracts see it: a phase, and in the two live
/// phases the generation that the connection's cursor stands at.
pub enum PumpState {
    Init,
    Waiting(u64),
    Notifying(u64),
    Closed,
}

/// The pump of one connection.
#[derive(Debug, PartialEq, Eq, Structural)]
pub enum Pump {
    /// Accepted, not yet subscribed.
    Init,
    /// Subscribed and idle; the only phase in which the driver suspends.
    Waiting(Cursor),
    /// A change was observed and its notification is on the way out.
    Notifying(Cursor),
    /// Terminal.
    Closed,
}

impl View for Pump {
    type V = PumpState;

    open spec fn view(&self) -> PumpState {
        match self {
            Pump::Init => PumpState::Init,
            Pump::Waiting(cursor) => PumpState::Waiting(cursor@),
            Pump::Notifying(cursor) => PumpState::Notifying(cursor@),
            Pump::Closed => PumpState::Closed,
        }
    }
}

/// The transition of a pump when the action it was waiting for ends in
/// `outcome`, the bus standing at `generation`. A handshake that completes
/// subscribes the pump at the current generation. A wait that returns leads
/// to a notification when the bus has moved since the cursor's last
/// observation, and back to waiting when it has not. A failure of any kind
/// closes the pump, and a closed pump stays closed.
pub open spec fn next_state(state: PumpState, outcome: Outcome, generation: u64) -> PumpState {
    match (state, outcome) {
        (PumpState::Init, Outcome::Done) => PumpState::Waiting(generation),
        (PumpState::Waiting(seen), Outcome::Done) => if seen != generation {
            PumpState::Notifying(generation)
        } else {
            PumpState::Waiting(seen)
        },
        (PumpState::Notifying(seen), Outcome::Done) => PumpState::Waiting(seen),
        _ => PumpState::Closed,
    }
}

/// What the driver of a pump in `state` does next.
pub open spec fn action_for(state: PumpState) -> PumpAction {
    match state {
        PumpState::Init => PumpAction::Handshake,
        PumpState::Waiting(_) => PumpAction::Wait,
        PumpState::Notifying(_) => PumpAction::Notify,
        PumpState::Closed => PumpAction::Release,
    }
}

/// The text of the one message that a pump ever sends.
pub open spec fn reload_text() -> Seq<char> {
    seq!['r', 'e', 'l', 'o', 'a', 'd']
}

/// The payload of a reload notification.
pub fn reload_message() -> (text: &'static str)
    ensures
        text@ == reload_text(),
{
    proof {
        reveal_strlit("reload");
    }
    let text: &'static str = "reload";
    assert(text@ =~= reload_text());
    text
}

impl Pump {
    /// The pump of a connection that was just accepted.
    pub fn new() -> (pump: Pump)
        ensures
            pump@ == PumpState::Init,
    {
        Pump::Init
    }

    /// What the driver has to do for the pump as it stands.
    pub fn pending(&self) -> (action: PumpAction)
        ensures
            action == action_for(self@),
    {
        match self {
            Pump::Init => PumpAction::Handshake,
            Pump::Waiting(_) => PumpAction::Wait,
            Pump::Notifying(_) => PumpAction::Notify,
            Pump::Closed => PumpAction::Release,
        }
    }

    /// Whether the pump has reached its terminal phase.
    pub fn is_closed(&self) -> (closed: bool)
        ensures
            closed == (self@ is Closed),
    {
        match self {
            Pump::Closed => true,
            _ => false,
        }
    }

    /// Whether the pump has yet to tell its client of `bus` as it stands. A
    /// wait on a pump that is behind returns at once.
    pub fn is_behind(&self, bus: &EventBus) -> (b: bool)
        ensures
            b == behind(self@, bus@),
    {
        match self {
            Pump::Waiting(cursor) => bus.has_changed(cursor),
            Pump::Notifying(cursor) => bus.has_changed(cursor),
            _ => false,
        }
    }

    /// Takes the outcome of the pending action, moves the pump, and says what
    /// the driver does next. `bus` is the bus as it stands when the outcome
    /// is reported: a pump that connects subscribes at that generation, and
    /// a pump that is woken compares its cursor against it.
    pub fn step(&mut self, outcome: Outcome, bus: &EventBus) -> (action: PumpAction)
        ensures
            final(self)@ == next_state(old(self)@, outcome, bus@),
            action == action_for(final(self)@),
    {
        let mut current: Pump = Pump::Closed;
        std::mem::swap(self, &mut current);
        let next: Pump = match (current, outcome) {
            (Pump::Init, Outcome::Done) => Pump::Waiting(bus.subscribe()),
            (Pump::Waiting(cursor), Outcome::Done) => {
                let mut cursor: Cursor = cursor;
                if bus.try_wait_for_change(&mut cursor) {
                    Pump::Notifying(cursor)
                } else {
                    Pump::Waiting(cursor)
                }
            },
            (Pump::Notifying(cursor), Outcome::Done) => Pump::Waiting(cursor),
            _ => Pump::Closed,
        };
        *self = next;
        self.pending()
    }
}

/// Whether a pump in `state` has yet to tell its client of the bus at `generation`.
pub open spec fn behind(state: PumpState, generation: u64) -> bool {
    match state {
        PumpState::Waiting(seen) => seen != generation,
        PumpState::Notifying(seen) => seen != generation,
        _ => false,
    }
}

/// The state that `outcomes`, reported in order, lead to while the bus
/// stands at `generation`.
pub open spec fn run(state: PumpState, outcomes: Seq<Outcome>, generation: u64) -> PumpState
    decreases outcomes.len(),
{
    if outcomes.len() == 0 {
        state
    } else {
        run(next_state(state, outcomes[0], generation), outcomes.drop_first(), generation)
    }
}

/// How many times the driver is told to notify the client while `outcomes`
/// are reported in order and the bus stands at `generation`.
pub open spec fn notifications(state: PumpState, outcomes: Seq<Outcome>, generation: u64) -> nat
    decreases outcomes.len(),
{
    if outcomes.len() == 0 {
        0
    } else {
        let next = next_state(state, outcomes[0], generation);
        let told: nat = if action_for(next) == PumpAction::Notify {
            1
        } else {
            0
        };
        told + notifications(next, outcomes.drop_first(), generation)
    }
}

/// Whether nothing failed: every outcome of `outcomes` is `Done`.
pub open spec fn all_done(outcomes: Seq<Outcome>) -> bool {
    forall|k: int| 0 <= k < outcomes.len() ==> outcomes[k] == Outcome::Done
}

/// The connection set after the connection at `index` reported `outcome`.
pub open spec fn deliver(
    pumps: Seq<PumpState>,
    index: int,
    outcome: Outcome,
    generation: u64,
) -> Seq<PumpState> {
    pumps.update(index, next_state(pumps[index], outcome, generation))
}

/// Whatever the driver reports, a pump asks for at most one notification per
/// generation of the bus, and for none when it has nothing to catch up on. A
/// pump that connects after a publish starts from `Init`, is not behind, and
/// so never notifies its client of that publish.
pub proof fn lemma_at_most_one_notification(
    state: PumpState,
    outcomes: Seq<Outcome>,
    generation: u64,
)
    ensures
        notifications(state, outcomes, generation) <= 1,
        !behind(state, generation) ==> notifications(state, outcomes, generation) == 0,
        !behind(state, generation) ==> !behind(run(state, outcomes, generation), generation),
    decreases outcomes.len(),
{
    if outcomes.len() > 0 {
        lemma_at_most_one_notification(
            next_state(state, outcomes[0], generation),
            outcomes.drop_first(),
            generation,
        );
    }
}

/// A pump that is closed stays closed and asks for nothing but release.
pub proof fn lemma_closed_is_terminal(outcomes: Seq<Outcome>, generation: u64)
    ensures
        run(PumpState::Closed, outcomes, generation) == PumpState::Closed,
        notifications(PumpState::Closed, outcomes, generation) == 0,
    decreases outcomes.len(),
{
    if outcomes.len() > 0 {
        lemma_closed_is_terminal(outcomes.drop_first(), generation);
    }
}

/// While nothing fails, a pump that is open stays open.
pub proof fn lemma_done_keeps_open(state: PumpState, outcomes: Seq<Outcome>, generation: u64)
    requires
        !(state is Closed),
        all_done(outcomes),
    ensures
        !(run(state, outcomes, generation) is Closed),
    decreases outcomes.len(),
{
    if outcomes.len() > 0 {
        let rest = outcomes.drop_first();
        assert(outcomes[0] == Outcome::Done);
        assert forall|k: int| 0 <= k < rest.len() implies rest[k] == Outcome::Done by {
            assert(rest[k] == outcomes[k + 1]);
        }
        lemma_done_keeps_open(next_state(state, outcomes[0], generation), rest, generation);
    }
}

/// No lost wake-up, at the pump: a pump that is behind the bus, whether it
/// waits or is still busy with the notification before, asks for the
/// notification it owes within two reports, provided nothing fails.
pub proof fn lemma_behind_pump_notifies(state: PumpState, outcomes: Seq<Outcome>, generation: u64)
    requires
        behind(state, generation),
        all_done(outcomes),
        outcomes.len() >= 2,
    ensures
        notifications(state, outcomes, generation) == 1,
{
    let first = next_state(state, outcomes[0], generation);
    let second = next_state(first, outcomes[1], generation);
    let rest = outcomes.drop_first();
    let tail = rest.drop_first();
    assert(outcomes[0] == Outcome::Done && outcomes[1] == Outcome::Done);
    assert(rest[0] == outcomes[1]);
    assert(second == PumpState::Notifying(generation) || first == PumpState::Notifying(generation));
    lemma_at_most_one_notification(first, rest, generation);
    lemma_at_most_one_notification(second, tail, generation);
}

/// Isolation: whatever one connection reports, its closing included, leaves
/// every other connection as it was. A pump that is waiting keeps its cursor,
/// is not woken and does not fail because another connection went away.
pub proof fn lemma_isolation(
    pumps: Seq<PumpState>,
    a: int,
    b: int,
    outcome: Outcome,
    generation: u64,
)
    requires
        0 <= a < pumps.len(),
        0 <= b < pumps.len(),
        a != b,
    ensures
        deliver(pumps, a, outcome, generation).len() == pumps.len(),
        deliver(pumps, a, outcome, generation)[b] == pumps[b],
{
}

/// Fan-out: with any number of connections waiting, each driven at its own
/// pace, a single publish makes every pump whose connection stays up ask for
/// exactly one notification, however often it is woken afterwards, and
/// leaves it caught up with the bus. The same holds of a batch of publishes
/// that no pump observed in between: one notification for the batch, as long
/// as the batch is shorter than the counter has values.
pub proof fn lemma_fan_out(
    pumps: Seq<PumpState>,
    runs: Seq<Seq<Outcome>>,
    generation: u64,
    publishes: nat,
)
    requires
        0 < publishes <= u64::MAX,
        runs.len() == pumps.len(),
        forall|i: int| 0 <= i < pumps.len() ==> #[trigger] pumps[i] == PumpState::Waiting(generation),
        forall|i: int| 0 <= i < pumps.len() ==> (#[trigger] runs[i]).len() > 0 && all_done(runs[i]),
    ensures
        forall|i: int|
            0 <= i < pumps.len() ==> notifications(
                pumps[i],
                #[trigger] runs[i],
                advance_by(generation, publishes),
            ) == 1,
        forall|i: int|
            0 <= i < pumps.len() ==> !behind(
                run(pumps[i], #[trigger] runs[i], advance_by(generation, publishes)),
                advance_by(generation, publishes),
            ),
        forall|i: int|
            0 <= i < pumps.len() ==> !(run(
                pumps[i],
                #[trigger] runs[i],
                advance_by(generation, publishes),
            ) is Closed),
{
    let published = advance_by(generation, publishes);
    lemma_advance_by_is_modular_sum(generation, publishes);
    assert forall|i: int| 0 <= i < pumps.len() implies notifications(
        pumps[i],
        #[trigger] runs[i],
        published,
    ) == 1 && !behind(run(pumps[i], runs[i], published), published) && !(run(
        pumps[i],
        runs[i],
        published,
    ) is Closed) by {
        assert(pumps[i] == PumpState::Waiting(generation));
        assert(runs[i][0] == Outcome::Done);
        let rest = runs[i].drop_first();
        assert(all_done(rest)) by {
            assert forall|k: int| 0 <= k < rest.len() implies rest[k] == Outcome::Done by {
                assert(rest[k] == runs[i][k + 1]);
            }
        }
        lemma_at_most_one_notification(PumpState::Notifying(published), rest, published);
        lemma_done_keeps_open(PumpState::Notifying(published), rest, published);
    }
}

} // verus!
