//! The event bus: a generation counter that publishers advance and that
//! subscribers compare against the generation they saw last.

use vstd::prelude::*;

verus! {

/// The generation that one publish leads to. The counter has no intrinsic
/// value, only identity, so after `u64::MAX` it starts over at zero.
pub open spec fn advance(generation: u64) -> u64 {
    if generation == u64::MAX {
        0
    } else {
        (generation + 1) as u64
    }
}

/// The generation reached from `generation` by `publishes` publishes in a row.
pub open spec fn advance_by(generation: u64, publishes: nat) -> u64
    decreases publishes,
{
    if publishes == 0 {
        generation
    } else {
        advance(advance_by(generation, (publishes - 1) as nat))
    }
}

/// Whether a subscriber that last saw `seen` is woken by a bus at `generation`.
pub open spec fn wakes(seen: u64, generation: u64) -> bool {
    seen != generation
}

/// One observation of a bus at `generation` by a subscriber that last saw
/// `seen`: whether it wakes, and the generation it has seen afterwards.
pub open spec fn observe(seen: u64, generation: u64) -> (bool, u64) {
    (wakes(seen, generation), generation)
}

/// The single-writer, multi-reader broadcast primitive. It carries no payload:
/// the only thing a subscriber can learn is that the generation moved.
#[derive(Debug)]
pub struct EventBus {
    generation: u64,
}

/// What one subscriber remembers: the generation it observed last. A cursor
/// belongs to one subscriber and is not duplicated.
#[derive(Debug, PartialEq, Eq, Structural)]
pub struct Cursor {
    seen: u64,
}

impl View for EventBus {
    type V = u64;

    closed spec fn view(&self) -> u64 {
        self.generation
    }
}

impl View for Cursor {
    type V = u64;

    closed spec fn view(&self) -> u64 {
        self.seen
    }
}

impl EventBus {
    /// A bus on which nothing was published yet.
    pub fn new() -> (bus: EventBus)
        ensures
            bus@ == 0,
    {
        EventBus { generation: 0 }
    }

    /// The current generation.
    pub fn generation(&self) -> (generation: u64)
        ensures
            generation == self@,
    {
        self.generation
    }

    /// Advances the bus by one generation. Never fails, whether or not anyone
    /// is subscribed.
    pub fn publish(&mut self)
        ensures
            final(self)@ == advance(old(self)@),
    {
        if self.generation == u64::MAX {
            self.generation = 0;
        } else {
            self.generation = self.generation + 1;
        }
    }

    /// A cursor that stands at the current generation: there is no backlog, so
    /// the subscriber is woken only by what is published from now on.
    pub fn subscribe(&self) -> (cursor: Cursor)
        ensures
            cursor@ == self@,
            !wakes(cursor@, self@),
    {
        Cursor { seen: self.generation }
    }

    /// Whether the bus has moved since the cursor's last observation, that is,
    /// whether a wait on this cursor returns at once. The cursor stays where
    /// it is.
    pub fn has_changed(&self, cursor: &Cursor) -> (changed: bool)
        ensures
            changed == wakes(cursor@, self@),
    {
        cursor.seen != self.generation
    }

    /// Waiting for a change, without the waiting. Returns `true` when the bus
    /// has moved since the cursor's last observation, however many publishes
    /// that took; the cursor then stands at the current generation. Returns
    /// `false` when the subscriber has to suspend until the next publish and
    /// try again.
    pub fn try_wait_for_change(&self, cursor: &mut Cursor) -> (woken: bool)
        ensures
            (woken, final(cursor)@) == observe(old(cursor)@, self@),
    {
        if cursor.seen != self.generation {
            cursor.seen = self.generation;
            true
        } else {
            false
        }
    }
}

impl Cursor {
    /// The generation this subscriber observed last.
    pub fn generation(&self) -> (generation: u64)
        ensures
            generation == self@,
    {
        self.seen
    }
}

/// The generation after `publishes` publishes is the start plus their
/// number, counted modulo the size of the counter.
pub proof fn lemma_advance_by_is_modular_sum(generation: u64, publishes: nat)
    ensures
        advance_by(generation, publishes) == (generation + publishes) % 0x1_0000_0000_0000_0000,
    decreases publishes,
{
    if publishes > 0 {
        lemma_advance_by_is_modular_sum(generation, (publishes - 1) as nat);
    }
}

/// Late-join exclusion: a subscriber created after an event was published is
/// not woken by that event. Its first observation of the bus, with nothing
/// published since it joined, does not wake it and leaves its cursor in place.
pub proof fn lemma_late_join_exclusion(before: EventBus, bus: EventBus, cursor: Cursor)
    requires
        bus@ == advance(before@),
        cursor@ == bus@,
    ensures
        observe(cursor@, bus@) == (false, cursor@),
{
}

/// No lost wake-up: a subscriber created before an event was published is
/// woken by its next observation, whether or not further publishes followed
/// the event, as long as fewer publishes than the counter has values happened
/// since the subscriber last looked.
pub proof fn lemma_no_lost_wakeup(joined: EventBus, cursor: Cursor, publishes: nat)
    requires
        cursor@ == joined@,
        0 < publishes <= u64::MAX,
    ensures
        observe(cursor@, advance_by(joined@, publishes)).0,
{
    lemma_advance_by_is_modular_sum(joined@, publishes);
}

/// Coalescing: a batch of publishes that nobody observed in between wakes a
/// subscriber at most once, not once per publish. The first observation moves
/// the cursor to the latest generation, and wakes unless the batch was empty
/// or as long as the counter; the observation after it does not wake.
pub proof fn lemma_coalescing(joined: EventBus, cursor: Cursor, publishes: nat)
    requires
        cursor@ == joined@,
    ensures
        ({
            let latest = advance_by(joined@, publishes);
            let first = observe(cursor@, latest);
            let second = observe(first.1, latest);
            &&& first.1 == latest
            &&& 0 < publishes <= u64::MAX ==> first.0
            &&& second == (false, latest)
        }),
{
    lemma_advance_by_is_modular_sum(joined@, publishes);
}

} // verus!
