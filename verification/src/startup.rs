//! The order in which the service comes up, and how it goes down when a step
//! fails: register for completion notifications, spawn the build watcher, bind
//! the listener, accept connections. A listener that cannot be bound takes the
//! watcher down with it. Once the listener is bound nothing ends the service:
//! an accept that fails is followed by the next accept.

use crate::outcome::Outcome;
use vstd::prelude::*;

verus! {

/// Why the service gave up.
#[derive(Clone, Copy, Debug, PartialEq, Eq, Structural)]
pub enum Fatal {
    /// The completion notification could not be registered for.
    Registration,
    /// The build watcher could not be spawned.
    Spawn,
    /// The listening address could not be bound; the watcher is terminated.
    Bind,
    /// The listening address could not be bound, and terminating the watcher
    /// failed as well.
    Kill,
}

/// What the driver of the service has to do next.
#[derive(Clone, Copy, Debug, PartialEq, Eq, Structural)]
pub enum StartupAction {
    /// Register for the completion notification and start publishing on it.
    Register,
    /// Spawn the build watcher.
    Spawn,
    /// Bind the listening address.
    Bind,
    /// Terminate the build watcher and wait until it is gone.
    Kill,
    /// Wait for the next connection and hand it to a pump of its own. It
    /// fails when the listener reports an error instead of a connection.
    Accept,
    /// Terminate the process with this error.
    Abort(Fatal),
}

/// Where the service stands.
#[derive(Debug, PartialEq, Eq, Structural)]
pub enum Startup {
    /// Registering for the completion notification.
    Registering,
    /// Spawning the build watcher.
    Spawning,
    /// Binding the listener; the watcher runs.
    Binding,
    /// Terminating the watcher after the listener could not be bound.
    Killing,
    /// Accepting connections, for as long as the process runs.
    Serving,
    /// Terminal: given up before any connection was accepted.
    Failed(Fatal),
}

/// The transition of the service when the action it was waiting for ends in
/// `outcome`. Only the steps before the first accept can fail for good; a
/// service that accepts connections goes on accepting whatever an accept
/// ends in.
pub open spec fn next_state(state: Startup, outcome: Outcome) -> Startup {
    match (state, outcome) {
        (Startup::Registering, Outcome::Done) => Startup::Spawning,
        (Startup::Registering, Outcome::Failed) => Startup::Failed(Fatal::Registration),
        (Startup::Spawning, Outcome::Done) => Startup::Binding,
        (Startup::Spawning, Outcome::Failed) => Startup::Failed(Fatal::Spawn),
        (Startup::Binding, Outcome::Done) => Startup::Serving,
        (Startup::Binding, Outcome::Failed) => Startup::Killing,
        (Startup::Killing, Outcome::Done) => Startup::Failed(Fatal::Bind),
        (Startup::Killing, Outcome::Failed) => Startup::Failed(Fatal::Kill),
        (Startup::Serving, _) => Startup::Serving,
        (Startup::Failed(fatal), _) => Startup::Failed(fatal),
    }
}

/// What the driver of a service in `state` does next.
pub open spec fn action_for(state: Startup) -> StartupAction {
    match state {
        Startup::Registering => StartupAction::Register,
        Startup::Spawning => StartupAction::Spawn,
        Startup::Binding => StartupAction::Bind,
        Startup::Killing => StartupAction::Kill,
        Startup::Serving => StartupAction::Accept,
        Startup::Failed(fatal) => StartupAction::Abort(fatal),
    }
}

/// Whether connections are accepted in `state`.
pub open spec fn accepting(state: Startup) -> bool {
    state == Startup::Serving
}

impl Startup {
    /// A service that has done nothing yet.
    pub fn new() -> (startup: Startup)
        ensures
            startup == Startup::Registering,
    {
        Startup::Registering
    }

    /// What the driver has to do for the service as it stands.
    pub fn pending(&self) -> (action: StartupAction)
        ensures
            action == action_for(*self),
    {
        match *self {
            Startup::Registering => StartupAction::Register,
            Startup::Spawning => StartupAction::Spawn,
            Startup::Binding => StartupAction::Bind,
            Startup::Killing => StartupAction::Kill,
            Startup::Serving => StartupAction::Accept,
            Startup::Failed(fatal) => StartupAction::Abort(fatal),
        }
    }

    /// Takes the outcome of the pending action, moves the service, and says
    /// what the driver does next.
    pub fn step(&mut self, outcome: Outcome) -> (action: StartupAction)
        ensures
            *final(self) == next_state(*old(self), outcome),
            action == action_for(*final(self)),
    {
        let next: Startup = match (&*self, outcome) {
            (Startup::Registering, Outcome::Done) => Startup::Spawning,
            (Startup::Registering, Outcome::Failed) => Startup::Failed(Fatal::Registration),
            (Startup::Spawning, Outcome::Done) => Startup::Binding,
            (Startup::Spawning, Outcome::Failed) => Startup::Failed(Fatal::Spawn),
            (Startup::Binding, Outcome::Done) => Startup::Serving,
            (Startup::Binding, Outcome::Failed) => Startup::Killing,
            (Startup::Killing, Outcome::Done) => Startup::Failed(Fatal::Bind),
            (Startup::Killing, Outcome::Failed) => Startup::Failed(Fatal::Kill),
            (Startup::Serving, _) => Startup::Serving,
            (Startup::Failed(fatal), _) => Startup::Failed(*fatal),
        };
        *self = next;
        self.pending()
    }
}

/// What the process says when it ends because the listener could not be
/// bound: a fixed opening, then the reason as the system gave it.
pub open spec fn bind_failure_text(reason: Seq<char>) -> Seq<char> {
    "Failed to bind: "@ + reason
}

/// The message of a bind failure.
pub fn bind_failure_message(reason: &str) -> (message: String)
    ensures
        message@ == bind_failure_text(reason@),
{
    let mut message: String = String::from_str("Failed to bind: ");
    message.append(reason);
    message
}

/// The state that `outcomes`, reported in order, lead to from `state`.
pub open spec fn run(state: Startup, outcomes: Seq<Outcome>) -> Startup
    decreases outcomes.len(),
{
    if outcomes.len() == 0 {
        state
    } else {
        run(next_state(state, outcomes[0]), outcomes.drop_first())
    }
}

/// Startup ordering, one step at a time: a listener that cannot be bound
/// leads to the termination of the watcher, not to the end of the process;
/// the process ends for the bind failure only once the watcher is reported
/// gone; and no other transition ends it for that reason.
pub proof fn lemma_bind_failure_kills_first(state: Startup, outcome: Outcome)
    ensures
        action_for(next_state(Startup::Binding, Outcome::Failed)) == StartupAction::Kill,
        action_for(next_state(Startup::Killing, Outcome::Done)) == StartupAction::Abort(Fatal::Bind),
        next_state(state, outcome) == Startup::Failed(Fatal::Bind) ==> (state == Startup::Killing
            && outcome == Outcome::Done) || state == Startup::Failed(Fatal::Bind),
        next_state(state, outcome) == Startup::Killing ==> state == Startup::Binding && outcome
            == Outcome::Failed,
{
}

/// Startup ordering, over whole runs: whenever the service, started afresh,
/// ends up aborting for a bind failure, it has before that asked for the
/// watcher to be terminated and was told that this was done.
pub proof fn lemma_no_orphan_on_bind_failure(outcomes: Seq<Outcome>)
    requires
        action_for(run(Startup::Registering, outcomes)) == StartupAction::Abort(Fatal::Bind),
    ensures
        exists|k: int|
            0 <= k < outcomes.len() && action_for(
                #[trigger] run(Startup::Registering, outcomes.take(k)),
            ) == StartupAction::Kill && outcomes[k] == Outcome::Done,
{
    lemma_kill_precedes_bind_abort(Startup::Registering, outcomes);
}

/// From any state that is not already the bind failure, a run that ends in it
/// passes through the termination of the watcher.
proof fn lemma_kill_precedes_bind_abort(state: Startup, outcomes: Seq<Outcome>)
    requires
        state != Startup::Failed(Fatal::Bind),
        run(state, outcomes) == Startup::Failed(Fatal::Bind),
    ensures
        exists|k: int|
            0 <= k < outcomes.len() && #[trigger] run(state, outcomes.take(k)) == Startup::Killing
                && outcomes[k] == Outcome::Done,
    decreases outcomes.len(),
{
    let rest = outcomes.drop_first();
    if state == Startup::Killing && outcomes[0] == Outcome::Done {
        assert(outcomes.take(0).len() == 0);
        assert(run(state, outcomes.take(0)) == Startup::Killing);
    } else {
        let next = next_state(state, outcomes[0]);
        lemma_kill_precedes_bind_abort(next, rest);
        let j = choose|j: int|
            0 <= j < rest.len() && #[trigger] run(next, rest.take(j)) == Startup::Killing && rest[j]
                == Outcome::Done;
        assert(outcomes.take(j + 1).drop_first() =~= rest.take(j));
        assert(outcomes.take(j + 1)[0] == outcomes[0]);
        assert(run(state, outcomes.take(j + 1)) == Startup::Killing);
    }
}

/// The acceptor never stops: once the service accepts connections it goes
/// on accepting, whether an accept handed out a connection or failed, and
/// whatever becomes of the connections it handed out.
pub proof fn lemma_accepting_continues(outcomes: Seq<Outcome>)
    ensures
        accepting(run(Startup::Serving, outcomes)),
        action_for(run(Startup::Serving, outcomes)) == StartupAction::Accept,
    decreases outcomes.len(),
{
    if outcomes.len() > 0 {
        lemma_accepting_continues(outcomes.drop_first());
    }
}

/// The service gives up only before it serves: a run that ends in an abort
/// has never accepted a connection.
pub proof fn lemma_abort_only_at_startup(outcomes: Seq<Outcome>, k: int)
    requires
        0 <= k <= outcomes.len(),
        run(Startup::Registering, outcomes) is Failed,
    ensures
        !accepting(run(Startup::Registering, outcomes.take(k))),
{
    if accepting(run(Startup::Registering, outcomes.take(k))) {
        lemma_run_splits(Startup::Registering, outcomes, k);
        lemma_accepting_continues(outcomes.skip(k));
    }
}

/// A run is its first `k` outcomes followed by the rest.
proof fn lemma_run_splits(state: Startup, outcomes: Seq<Outcome>, k: int)
    requires
        0 <= k <= outcomes.len(),
    ensures
        run(state, outcomes) == run(run(state, outcomes.take(k)), outcomes.skip(k)),
    decreases k,
{
    if k == 0 {
        assert(outcomes.take(0).len() == 0);
        assert(outcomes.skip(0) =~= outcomes);
    } else {
        let rest = outcomes.drop_first();
        lemma_run_splits(next_state(state, outcomes[0]), rest, k - 1);
        assert(outcomes.take(k).drop_first() =~= rest.take(k - 1));
        assert(outcomes.take(k)[0] == outcomes[0]);
        assert(outcomes.skip(k) =~= rest.skip(k - 1));
    }
}

} // verus!
