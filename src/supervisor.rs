//! A fixed set of connection slots, each holding exactly one unit, and the
//! count of units that are alive.

use crate::unit::{step, step_spec, UnitAction, UnitEvent, UnitState};
use vstd::prelude::*;

verus! {

/// How many of the units in `s` are alive.
pub open spec fn alive_count(s: Seq<UnitState>) -> nat
    decreases s.len(),
{
    if s.len() == 0 {
        0
    } else {
        alive_count(s.drop_last()) + if s.last() == UnitState::Alive {
            1nat
        } else {
            0nat
        }
    }
}

/// How the live count moves when a unit goes from `s` to `t`.
pub open spec fn live_delta(s: UnitState, t: UnitState) -> int {
    if s != UnitState::Alive && t == UnitState::Alive {
        1
    } else if s == UnitState::Alive && t != UnitState::Alive {
        -1
    } else {
        0
    }
}

proof fn lemma_alive_count_bound(s: Seq<UnitState>)
    ensures
        alive_count(s) <= s.len(),
    decreases s.len(),
{
    if s.len() > 0 {
        lemma_alive_count_bound(s.drop_last());
    }
}

proof fn lemma_alive_count_update(s: Seq<UnitState>, i: int, v: UnitState)
    requires
        0 <= i < s.len(),
    ensures
        alive_count(s.update(i, v)) == alive_count(s) + live_delta(s[i], v),
    decreases s.len(),
{
    let t = s.update(i, v);
    if i == s.len() - 1 {
        assert(t.drop_last() =~= s.drop_last());
    } else {
        assert(t.drop_last() =~= s.drop_last().update(i, v));
        lemma_alive_count_update(s.drop_last(), i, v);
    }
}

/// Every slot alive: the count is the number of slots.
pub proof fn lemma_alive_count_all(s: Seq<UnitState>)
    requires
        forall|i: int| 0 <= i < s.len() ==> s[i] == UnitState::Alive,
    ensures
        alive_count(s) == s.len(),
    decreases s.len(),
{
    if s.len() > 0 {
        lemma_alive_count_all(s.drop_last());
    }
}

/// No slot alive: the count is zero.
pub proof fn lemma_alive_count_none(s: Seq<UnitState>)
    requires
        forall|i: int| 0 <= i < s.len() ==> s[i] != UnitState::Alive,
    ensures
        alive_count(s) == 0,
    decreases s.len(),
{
    if s.len() > 0 {
        lemma_alive_count_none(s.drop_last());
    }
}

/// The slots of a run and the live count that is reported.
pub struct Supervisor {
    slots: Vec<UnitState>,
    live: usize,
}

impl Supervisor {
    /// The state of each slot.
    pub closed spec fn slots(&self) -> Seq<UnitState> {
        self.slots@
    }

    /// The reported count of live connections.
    pub closed spec fn live(&self) -> nat {
        self.live as nat
    }

    /// The live count is the number of slots whose unit is alive.
    pub open spec fn wf(&self) -> bool {
        self.live() == alive_count(self.slots())
    }

    /// `count` slots, each with a unit that is connecting; nothing alive yet.
    pub fn new(count: usize) -> (r: Supervisor)
        ensures
            r.wf(),
            r.slots() == Seq::new(count as nat, |i: int| UnitState::Connecting),
            r.live() == 0,
    {
        let mut slots: Vec<UnitState> = Vec::new();
        let mut i: usize = 0;
        while i < count
            invariant
                i <= count,
                slots@ == Seq::new(i as nat, |j: int| UnitState::Connecting),
            decreases count - i,
        {
            slots.push(UnitState::Connecting);
            i = i + 1;
            assert(slots@ =~= Seq::new(i as nat, |j: int| UnitState::Connecting));
        }
        let r = Supervisor { slots, live: 0 };
        proof {
            lemma_alive_count_none(r.slots());
        }
        r
    }

    /// Hands `event` to the unit of `slot`: that unit, and no other, moves on
    /// by the transition table, and the live count goes up when it becomes
    /// alive and down when it stops being alive.
    pub fn handle(&mut self, slot: usize, event: UnitEvent) -> (r: UnitAction)
        requires
            old(self).wf(),
            slot < old(self).slots().len(),
        ensures
            final(self).wf(),
            final(self).slots() == old(self).slots().update(
                slot as int,
                step_spec(old(self).slots()[slot as int], event).0,
            ),
            r == step_spec(old(self).slots()[slot as int], event).1,
            final(self).live() == old(self).live() + live_delta(
                old(self).slots()[slot as int],
                step_spec(old(self).slots()[slot as int], event).0,
            ),
    {
        let s = self.slots[slot];
        let slot_total = self.slots.len();
        let (t, action) = step(s, event);
        proof {
            lemma_alive_count_update(self.slots@, slot as int, t);
            lemma_alive_count_bound(self.slots@.update(slot as int, t));
            assert(alive_count(self.slots@.update(slot as int, t)) <= slot_total);
        }
        if s != UnitState::Alive && t == UnitState::Alive {
            self.live = self.live + 1;
        } else if s == UnitState::Alive && t != UnitState::Alive {
            self.live = self.live - 1;
        }
        self.slots.set(slot, t);
        action
    }

    /// The number of live connections.
    pub fn live_count(&self) -> (r: usize)
        ensures
            r == self.live(),
    {
        self.live
    }

    /// The number of slots.
    pub fn slot_count(&self) -> (r: usize)
        ensures
            r == self.slots().len(),
    {
        self.slots.len()
    }

    /// The state of the unit in `slot`.
    pub fn slot_state(&self, slot: usize) -> (r: UnitState)
        requires
            slot < self.slots().len(),
        ensures
            r == self.slots()[slot as int],
    {
        self.slots[slot]
    }
}

/// The live count never exceeds the number of slots.
pub proof fn lemma_live_within_bounds(s: &Supervisor)
    requires
        s.wf(),
    ensures
        0 <= s.live() <= s.slots().len(),
{
    lemma_alive_count_bound(s.slots());
}

/// Once every slot holds a live unit, the live count is the number of slots.
pub proof fn lemma_live_full_when_all_alive(s: &Supervisor)
    requires
        s.wf(),
        forall|i: int| 0 <= i < s.slots().len() ==> s.slots()[i] == UnitState::Alive,
    ensures
        s.live() == s.slots().len(),
{
    lemma_alive_count_all(s.slots());
}

/// While no unit is alive, as against a target that cannot be reached, the
/// live count is zero.
pub proof fn lemma_live_zero_when_none_alive(s: &Supervisor)
    requires
        s.wf(),
        forall|i: int| 0 <= i < s.slots().len() ==> s.slots()[i] != UnitState::Alive,
    ensures
        s.live() == 0,
{
    lemma_alive_count_none(s.slots());
}

} // verus!
