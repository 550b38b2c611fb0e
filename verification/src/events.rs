//! A registry of checks that are run once per tick, each paired with the
//! effect to perform when its check fires.
//!
//! A check keeps what it has to remember between ticks in its own value.
//! The registry performs nothing itself: running it returns the effects
//! that fired, in the order in which their checks were registered, for the
//! caller to carry out.

use vstd::prelude::*;
use crate::resize::TerminalGeometry;

verus! {

/// A check that looks at an observation and may remember it.
pub trait Watch: Sized {
    /// What the check is shown on each tick.
    type Observation;

    /// Whether the check fires on `seen`.
    spec fn fires(&self, seen: &Self::Observation) -> bool;

    /// The check as it is after having been shown `seen`.
    spec fn after(&self, seen: &Self::Observation) -> Self;

    /// Shows `seen` to the check and tells whether it fired.
    fn check(&mut self, seen: &Self::Observation) -> (fired: bool)
        ensures
            fired == old(self).fires(seen),
            *final(self) == old(self).after(seen),
    ;
}

/// Fires when the terminal is not the size it was when last looked at.
#[derive(Clone, Copy, Debug, PartialEq, Eq, Structural)]
pub struct GeometryWatch {
    pub last_seen: TerminalGeometry,
}

impl Watch for GeometryWatch {
    type Observation = TerminalGeometry;

    open spec fn fires(&self, seen: &TerminalGeometry) -> bool {
        self.last_seen != *seen
    }

    open spec fn after(&self, seen: &TerminalGeometry) -> GeometryWatch {
        GeometryWatch { last_seen: *seen }
    }

    fn check(&mut self, seen: &TerminalGeometry) -> (fired: bool) {
        if self.last_seen.columns != seen.columns || self.last_seen.rows != seen.rows {
            self.last_seen = *seen;
            true
        } else {
            false
        }
    }
}

/// What the playback loop does when a check fires.
#[derive(Clone, Copy, Debug, PartialEq, Eq, Structural)]
pub enum Effect {
    /// Clear the whole screen.
    ClearScreen,
}

/// Checks and their effects, in the order in which they were registered.
pub struct EventManager<W: Watch, E: Copy> {
    events: Vec<(W, E)>,
}

/// The effects of those among the first `count` entries whose check fires
/// on `seen`, in registration order.
pub open spec fn fired_effects<W: Watch, E>(
    entries: Seq<(W, E)>,
    seen: &W::Observation,
    count: int,
) -> Seq<E>
    decreases count,
{
    if count <= 0 {
        Seq::empty()
    } else if entries[count - 1].0.fires(seen) {
        fired_effects(entries, seen, count - 1).push(entries[count - 1].1)
    } else {
        fired_effects(entries, seen, count - 1)
    }
}

/// The entries after every check has been shown `seen`.
pub open spec fn entries_after<W: Watch, E>(entries: Seq<(W, E)>, seen: &W::Observation) -> Seq<
    (W, E),
> {
    Seq::new(entries.len(), |i: int| (entries[i].0.after(seen), entries[i].1))
}

impl<W: Watch, E: Copy> EventManager<W, E> {
    /// The registered checks with their effects, first registered first.
    pub closed spec fn entries(&self) -> Seq<(W, E)> {
        self.events@
    }

    /// A registry with nothing registered.
    pub fn new() -> (made: Self)
        ensures
            made.entries() == Seq::<(W, E)>::empty(),
    {
        EventManager { events: Vec::new() }
    }

    /// Registers `test` with the effect `callback` after all earlier
    /// entries.
    pub fn append(self, test: W, callback: E) -> (made: Self)
        ensures
            made.entries() == self.entries().push((test, callback)),
    {
        let mut events = self.events;
        events.push((test, callback));
        EventManager { events }
    }

    /// Takes the entry at place `index` out of the registry; the entries
    /// registered after it keep their order. Returns `None`, and changes
    /// nothing, exactly when there is no entry at that place.
    pub fn remove(&mut self, index: usize) -> (removed: Option<(W, E)>)
        ensures
            removed is Some <==> index < old(self).entries().len(),
            removed matches Some(entry) ==> {
                &&& entry == old(self).entries()[index as int]
                &&& final(self).entries() == old(self).entries().remove(index as int)
            },
            removed is None ==> final(self).entries() == old(self).entries(),
    {
        if index < self.events.len() {
            Some(self.events.remove(index))
        } else {
            None
        }
    }

    /// Number of registered checks.
    pub fn len(&self) -> (n: usize)
        ensures
            n == self.entries().len(),
    {
        self.events.len()
    }

    /// Runs one tick: shows `seen` to every check in registration order and
    /// returns the effects of those that fired, in that order. Each check
    /// is run exactly once, whether an earlier one fired or not.
    pub fn run(&mut self, seen: &W::Observation) -> (fired: Vec<E>)
        ensures
            fired@ == fired_effects(old(self).entries(), seen, old(self).entries().len() as int),
            final(self).entries() == entries_after(old(self).entries(), seen),
    {
        let mut fired: Vec<E> = Vec::new();
        let mut i: usize = 0;
        let ghost before = self.events@;
        while i < self.events.len()
            invariant
                i <= self.events@.len(),
                self.events@.len() == before.len(),
                fired@ == fired_effects(before, seen, i as int),
                forall|k: int|
                    0 <= k < i ==> self.events@[k] == (before[k].0.after(seen), before[k].1),
                forall|k: int| i <= k < before.len() ==> self.events@[k] == before[k],
            decreases self.events@.len() - i,
        {
            let entry = &mut self.events[i];
            let effect = entry.1;
            if entry.0.check(seen) {
                fired.push(effect);
            }
            i = i + 1;
        }
        assert(self.events@ =~= entries_after(before, seen));
        fired
    }
}

impl<W: Watch, E: Copy> Default for EventManager<W, E> {
    fn default() -> (made: Self)
        ensures
            made.entries() == Seq::<(W, E)>::empty(),
    {
        EventManager { events: Vec::new() }
    }
}

/// A registry with a single check fires its effect exactly once on a tick
/// on which the check fires, and not at all on a tick on which it does
/// not.
pub proof fn lemma_single_check_fires_once<W: Watch, E>(test: W, callback: E, seen: &W::Observation)
    ensures
        test.fires(seen) ==> fired_effects(seq![(test, callback)], seen, 1) == seq![callback],
        !test.fires(seen) ==> fired_effects(seq![(test, callback)], seen, 1) == Seq::<E>::empty(),
{
    let entries = seq![(test, callback)];
    assert(fired_effects(entries, seen, 0) == Seq::<E>::empty());
    assert(entries[0] == (test, callback));
    if test.fires(seen) {
        assert(fired_effects(entries, seen, 1) =~= seq![callback]);
    }
}

/// On one tick no more effects fire than checks are registered, and none
/// fires where no check does.
pub proof fn lemma_fired_at_most_once_each<W: Watch, E>(
    entries: Seq<(W, E)>,
    seen: &W::Observation,
    count: int,
)
    requires
        0 <= count <= entries.len(),
    ensures
        fired_effects(entries, seen, count).len() <= count,
        (forall|i: int| 0 <= i < count ==> !(#[trigger] entries[i]).0.fires(seen))
            ==> fired_effects(entries, seen, count) == Seq::<E>::empty(),
        (forall|i: int| 0 <= i < count ==> (#[trigger] entries[i]).0.fires(seen))
            ==> fired_effects(entries, seen, count) == Seq::new(
            count as nat,
            |i: int| entries[i].1,
        ),
    decreases count,
{
    if count > 0 {
        lemma_fired_at_most_once_each(entries, seen, count - 1);
        if forall|i: int| 0 <= i < count ==> (#[trigger] entries[i]).0.fires(seen) {
            assert(fired_effects(entries, seen, count) =~= Seq::new(
                count as nat,
                |i: int| entries[i].1,
            ));
        }
    } else {
        assert(fired_effects(entries, seen, count) =~= Seq::new(
            count as nat,
            |i: int| entries[i].1,
        ));
    }
}

} // verus!
