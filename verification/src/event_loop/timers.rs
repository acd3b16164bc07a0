//! The timer table behind `setTimeout` / `setInterval`: timers keyed by id, each
//! with a due time, a period and a number of firings left, and the queue of ids
//! that have fired and wait to be polled.
//!
//! Times are nanoseconds on one monotonic clock; the caller reads the clock and
//! hands the reading in.

use vstd::prelude::*;
use crate::assoc::{
    assoc_map, keys_distinct, lemma_assoc_lookup, lemma_assoc_push, lemma_assoc_remove,
    lemma_assoc_update,
};

verus! {

/// One scheduled timer.
#[derive(Clone, Copy, Debug, PartialEq, Eq)]
pub struct TimerSlot {
    /// When the timer fires next.
    pub due: u64,
    /// The period (and, for a timeout, the delay it was scheduled with).
    pub delay: u64,
    /// How many firings are left.
    pub remaining: u32,
}

/// `a + b`, held at `u64::MAX`.
pub open spec fn sat_add(a: u64, b: u64) -> u64 {
    if a + b > u64::MAX {
        u64::MAX
    } else {
        (a + b) as u64
    }
}

/// The number of firings of an interval scheduled with `repeat_count`; zero
/// stands for "until cancelled".
pub open spec fn interval_firings(repeat_count: u32) -> u32 {
    if repeat_count == 0 {
        u32::MAX
    } else {
        repeat_count
    }
}

/// The table after one tick at `now`: every due timer with one firing left is
/// gone; every other due timer is due again one period after `now`, with one
/// firing less; timers not yet due are unchanged.
pub open spec fn after_tick(m: Map<u64, TimerSlot>, now: u64) -> Map<u64, TimerSlot> {
    Map::new(
        |id: u64| m.contains_key(id) && !(m[id].due <= now && m[id].remaining <= 1),
        |id: u64|
            if m[id].due <= now {
                TimerSlot {
                    due: sat_add(now, m[id].delay),
                    delay: m[id].delay,
                    remaining: (m[id].remaining - 1) as u32,
                }
            } else {
                m[id]
            },
    )
}

/// The ids of the timers that are due at `now`.
pub open spec fn is_due(m: Map<u64, TimerSlot>, now: u64, id: u64) -> bool {
    m.contains_key(id) && m[id].due <= now
}

/// Ascending order.
pub open spec fn sorted_ascending(s: Seq<u64>) -> bool {
    forall|i: int, j: int| 0 <= i <= j < s.len() ==> s[i] <= s[j]
}

/// The entry that a tick at `now` leaves in place of `slot`, if any.
fn step_slot(slot: TimerSlot, now: u64) -> (r: Option<TimerSlot>)
    ensures
        slot.due <= now && slot.remaining <= 1 ==> r is None,
        slot.due <= now && slot.remaining > 1 ==> r == Some(
            TimerSlot { due: sat_add(now, slot.delay), delay: slot.delay, remaining: (slot.remaining - 1) as u32 },
        ),
        slot.due > now ==> r == Some(slot),
{
    if slot.due <= now {
        if slot.remaining > 1 {
            Some(TimerSlot { due: now.saturating_add(slot.delay), delay: slot.delay, remaining: slot.remaining - 1 })
        } else {
            None
        }
    } else {
        Some(slot)
    }
}

/// Sorts a list of ids in ascending order.
pub fn sort_ids(v: Vec<u64>) -> (r: Vec<u64>)
    ensures
        sorted_ascending(r@),
        r@.to_multiset() == v@.to_multiset(),
{
    let mut r: Vec<u64> = Vec::new();
    let mut i: usize = 0;
    proof {
        assert(v@.take(0) =~= Seq::<u64>::empty());
        assert(r@ =~= Seq::<u64>::empty());
    }
    while i < v.len()
        invariant
            i <= v.len(),
            sorted_ascending(r@),
            r@.to_multiset() == v@.take(i as int).to_multiset(),
        decreases v.len() - i,
    {
        let x = v[i];
        let mut pos: usize = 0;
        while pos < r.len() && r[pos] <= x
            invariant
                pos <= r.len(),
                forall|k: int| 0 <= k < pos ==> r@[k] <= x,
            decreases r.len() - pos,
        {
            pos = pos + 1;
        }
        proof {
            assert(v@.take(i as int + 1) =~= v@.take(i as int).push(x));
            vstd::seq_lib::to_multiset_build(v@.take(i as int), x);
        }
        let ghost old_r = r@;
        r.insert(pos, x);
        proof {
            assert(r@ == old_r.insert(pos as int, x));
            vstd::seq_lib::to_multiset_insert(old_r, pos as int, x);
            assert(r@.to_multiset() == v@.take(i as int + 1).to_multiset());
            assert forall|a: int, b: int| 0 <= a <= b < r@.len() implies r@[a] <= r@[b] by {
                if b < pos {
                    assert(r@[a] == old_r[a] && r@[b] == old_r[b]);
                } else if b == pos {
                    if a < pos {
                        assert(r@[a] == old_r[a]);
                    }
                } else if a < pos {
                    assert(r@[a] == old_r[a] && r@[b] == old_r[b - 1]);
                    assert(old_r[a] <= x);
                    assert(pos < old_r.len());
                    assert(old_r[pos as int] > x);
                    assert(old_r[pos as int] <= old_r[b - 1]);
                } else if a == pos {
                    assert(r@[b] == old_r[b - 1]);
                    assert(old_r[pos as int] > x);
                    assert(old_r[pos as int] <= old_r[b - 1]);
                } else {
                    assert(r@[a] == old_r[a - 1] && r@[b] == old_r[b - 1]);
                }
            }
        }
        i = i + 1;
    }
    proof {
        assert(v@.take(v@.len() as int) =~= v@);
    }
    r
}

/// The timers of the event loop and the ids that have fired since the last poll.
pub struct TimerTable {
    entries: Vec<(u64, TimerSlot)>,
    fired: Vec<u64>,
}

impl TimerTable {
    #[verifier::type_invariant]
    closed spec fn inv(self) -> bool {
        keys_distinct(self.entries@)
    }

    /// The scheduled timers by id.
    pub closed spec fn timers(&self) -> Map<u64, TimerSlot> {
        assoc_map(self.entries@)
    }

    /// The ids fired and not yet polled, in firing order.
    pub closed spec fn fired(&self) -> Seq<u64> {
        self.fired@
    }

    /// An empty table.
    pub fn new() -> (t: TimerTable)
        ensures
            t.timers() == Map::<u64, TimerSlot>::empty(),
            t.fired() == Seq::<u64>::empty(),
    {
        let t = TimerTable { entries: Vec::new(), fired: Vec::new() };
        assert(assoc_map(t.entries@) =~= Map::<u64, TimerSlot>::empty());
        t
    }

    /// The position of the entry for `id`, if any.
    fn position(&self, id: u64) -> (r: Option<usize>)
        ensures
            match r {
                Some(i) => i < self.entries@.len() && self.entries@[i as int].0 == id,
                None => !self.timers().contains_key(id),
            },
    {
        let mut i: usize = 0;
        while i < self.entries.len()
            invariant
                i <= self.entries@.len(),
                forall|k: int| 0 <= k < i ==> self.entries@[k].0 != id,
            decreases self.entries@.len() - i,
        {
            if self.entries[i].0 == id {
                return Some(i);
            }
            i = i + 1;
        }
        None
    }

    /// Puts `slot` under `id`, replacing a timer of that id.
    fn put(&mut self, id: u64, slot: TimerSlot)
        ensures
            final(self).timers() == old(self).timers().insert(id, slot),
            final(self).fired() == old(self).fired(),
    {
        proof {
            use_type_invariant(&*self);
        }
        let found = self.position(id);
        let mut entries: Vec<(u64, TimerSlot)> = Vec::new();
        std::mem::swap(&mut entries, &mut self.entries);
        match found {
            Some(i) => {
                proof {
                    lemma_assoc_update(entries@, i as int, id, slot);
                }
                entries.set(i, (id, slot));
            },
            None => {
                proof {
                    lemma_assoc_push(entries@, id, slot);
                }
                entries.push((id, slot));
            },
        }
        self.entries = entries;
    }

    /// Schedules a one-shot timer `delay` after `now`, replacing a timer of the
    /// same id.
    pub fn schedule_timeout(&mut self, id: u64, delay: u64, now: u64)
        ensures
            final(self).timers() == old(self).timers().insert(
                id,
                TimerSlot { due: sat_add(now, delay), delay, remaining: 1 },
            ),
            final(self).fired() == old(self).fired(),
    {
        self.put(id, TimerSlot { due: now.saturating_add(delay), delay, remaining: 1 });
    }

    /// Schedules a timer that fires every `delay`, `repeat_count` times (zero:
    /// until cancelled), first `delay` after `now`.
    pub fn schedule_interval(&mut self, id: u64, delay: u64, repeat_count: u32, now: u64)
        ensures
            final(self).timers() == old(self).timers().insert(
                id,
                TimerSlot { due: sat_add(now, delay), delay, remaining: interval_firings(repeat_count) },
            ),
            final(self).fired() == old(self).fired(),
    {
        let repeats = if repeat_count == 0 { u32::MAX } else { repeat_count };
        self.put(id, TimerSlot { due: now.saturating_add(delay), delay, remaining: repeats });
    }

    /// Cancels the timer `id`. The id zero is never a timer's and is refused;
    /// any other request is accepted, whether or not the timer still exists.
    pub fn cancel(&mut self, id: u64) -> (accepted: bool)
        ensures
            accepted == (id != 0),
            accepted ==> final(self).timers() == old(self).timers().remove(id),
            !accepted ==> final(self).timers() == old(self).timers(),
            final(self).fired() == old(self).fired(),
    {
        if id == 0 {
            return false;
        }
        proof {
            use_type_invariant(&*self);
        }
        match self.position(id) {
            Some(i) => {
                let mut entries: Vec<(u64, TimerSlot)> = Vec::new();
                std::mem::swap(&mut entries, &mut self.entries);
                proof {
                    lemma_assoc_remove(entries@, i as int);
                }
                entries.remove(i);
                self.entries = entries;
            },
            None => {
                assert(self.timers() =~= self.timers().remove(id));
            },
        }
        true
    }

    /// Drops every timer and every fired id.
    pub fn clear(&mut self)
        ensures
            final(self).timers() == Map::<u64, TimerSlot>::empty(),
            final(self).fired() == Seq::<u64>::empty(),
    {
        self.entries = Vec::new();
        self.fired = Vec::new();
        assert(assoc_map(self.entries@) =~= Map::<u64, TimerSlot>::empty());
    }

    /// Drops the fired ids.
    pub fn clear_fired_timers(&mut self)
        ensures
            final(self).timers() == old(self).timers(),
            final(self).fired() == Seq::<u64>::empty(),
    {
        proof {
            use_type_invariant(&*self);
        }
        self.fired = Vec::new();
    }

    /// Fires every timer due at `now`: their ids join the fired queue, each once,
    /// and the table moves on as `after_tick` says.
    pub fn tick(&mut self, now: u64)
        ensures
            final(self).timers() == after_tick(old(self).timers(), now),
            final(self).fired().len() >= old(self).fired().len(),
            final(self).fired().subrange(0, old(self).fired().len() as int) == old(self).fired(),
            final(self).fired().skip(old(self).fired().len() as int).no_duplicates(),
            forall|id: u64|
                #![trigger is_due(old(self).timers(), now, id)]
                final(self).fired().skip(old(self).fired().len() as int).contains(id)
                    <==> is_due(old(self).timers(), now, id),
    {
        proof {
            use_type_invariant(&*self);
        }
        let mut entries: Vec<(u64, TimerSlot)> = Vec::new();
        std::mem::swap(&mut entries, &mut self.entries);
        let ghost s = entries@;
        let ghost m = assoc_map(s);
        let mut fired: Vec<u64> = Vec::new();
        std::mem::swap(&mut fired, &mut self.fired);
        let ghost f0 = fired@;
        let mut kept: Vec<(u64, TimerSlot)> = Vec::new();
        let mut i: usize = 0;
        while i < entries.len()
            invariant
                i <= entries@.len(),
                entries@ == s,
                m == assoc_map(s),
                keys_distinct(s),
                keys_distinct(kept@),
                forall|id: u64|
                    #[trigger] assoc_map(kept@).contains_key(id) <==> exists|j: int|
                        0 <= j < i && s[j].0 == id && !(s[j].1.due <= now && s[j].1.remaining <= 1),
                forall|j: int|
                    0 <= j < i && !(s[j].1.due <= now && s[j].1.remaining <= 1) ==> #[trigger] assoc_map(
                        kept@,
                    )[s[j].0] == after_tick(m, now)[s[j].0],
                fired@.len() >= f0.len(),
                fired@.subrange(0, f0.len() as int) == f0,
                fired@.skip(f0.len() as int).no_duplicates(),
                forall|id: u64|
                    #[trigger] fired@.skip(f0.len() as int).contains(id) <==> exists|j: int|
                        0 <= j < i && s[j].0 == id && s[j].1.due <= now,
            decreases entries@.len() - i,
        {
            let (id, slot) = entries[i];
            proof {
                lemma_assoc_lookup(s, i as int);
            }
            if slot.due <= now {
                let ghost fired_before = fired@;
                fired.push(id);
                proof {
                    let nb = fired_before.skip(f0.len() as int);
                    let na = fired@.skip(f0.len() as int);
                    assert(na =~= nb.push(id));
                    assert(fired@.subrange(0, f0.len() as int) =~= fired_before.subrange(0, f0.len() as int));
                    assert(!nb.contains(id)) by {
                        if nb.contains(id) {
                            let j = choose|j: int| 0 <= j < i && s[j].0 == id && s[j].1.due <= now;
                            assert(s[j].0 == s[i as int].0);
                        }
                    }
                    assert forall|x: u64| #[trigger] na.contains(x) <==> exists|j: int|
                        0 <= j < i + 1 && s[j].0 == x && s[j].1.due <= now by {
                        if na.contains(x) {
                            let k = choose|k: int| 0 <= k < na.len() && na[k] == x;
                            if k < nb.len() {
                                assert(nb[k] == x);
                                assert(nb.contains(x));
                            }
                        }
                        if exists|j: int| 0 <= j < i + 1 && s[j].0 == x && s[j].1.due <= now {
                            let j = choose|j: int| 0 <= j < i + 1 && s[j].0 == x && s[j].1.due <= now;
                            if j < i {
                                assert(nb.contains(x));
                                let k = choose|k: int| 0 <= k < nb.len() && nb[k] == x;
                                assert(na[k] == x);
                            } else {
                                assert(na[nb.len() as int] == x);
                            }
                        }
                    }
                }
            }
            let stepped = step_slot(slot, now);
            match stepped {
                Some(next) => {
                    proof {
                        assert(!assoc_map(kept@).contains_key(id)) by {
                            if assoc_map(kept@).contains_key(id) {
                                let j = choose|j: int|
                                    0 <= j < i && s[j].0 == id && !(s[j].1.due <= now && s[j].1.remaining <= 1);
                                assert(s[j].0 == s[i as int].0);
                            }
                        }
                        lemma_assoc_push(kept@, id, next);
                    }
                    let ghost kept_before = kept@;
                    kept.push((id, next));
                    proof {
                        assert(after_tick(m, now).contains_key(id));
                        assert(after_tick(m, now)[id] == next);
                        assert forall|x: u64| #[trigger] assoc_map(kept@).contains_key(x) <==> exists|j: int|
                            0 <= j < i + 1 && s[j].0 == x && !(s[j].1.due <= now && s[j].1.remaining <= 1) by {
                            if assoc_map(kept_before).contains_key(x) {
                                let j = choose|j: int|
                                    0 <= j < i && s[j].0 == x && !(s[j].1.due <= now && s[j].1.remaining <= 1);
                                assert(0 <= j < i + 1);
                            }
                            if exists|j: int| 0 <= j < i + 1 && s[j].0 == x && !(s[j].1.due <= now && s[j].1.remaining <= 1) {
                                let j = choose|j: int|
                                    0 <= j < i + 1 && s[j].0 == x && !(s[j].1.due <= now && s[j].1.remaining <= 1);
                                if j < i {
                                    assert(assoc_map(kept_before).contains_key(x));
                                }
                            }
                        }
                        assert forall|j: int|
                            0 <= j < i + 1 && !(s[j].1.due <= now && s[j].1.remaining <= 1) implies #[trigger] assoc_map(
                                kept@,
                            )[s[j].0] == after_tick(m, now)[s[j].0] by {
                            if j < i {
                                assert(s[j].0 != id);
                                assert(assoc_map(kept_before)[s[j].0] == after_tick(m, now)[s[j].0]);
                            }
                        }
                    }
                },
                None => {
                    proof {
                        assert forall|x: u64| #[trigger] assoc_map(kept@).contains_key(x) <==> exists|j: int|
                            0 <= j < i + 1 && s[j].0 == x && !(s[j].1.due <= now && s[j].1.remaining <= 1) by {
                            if exists|j: int| 0 <= j < i + 1 && s[j].0 == x && !(s[j].1.due <= now && s[j].1.remaining <= 1) {
                                let j = choose|j: int|
                                    0 <= j < i + 1 && s[j].0 == x && !(s[j].1.due <= now && s[j].1.remaining <= 1);
                                assert(j != i);
                                assert(exists|j2: int|
                                    0 <= j2 < i && s[j2].0 == x && !(s[j2].1.due <= now && s[j2].1.remaining <= 1));
                            }
                        }
                    }
                },
            }
            i = i + 1;
        }
        proof {
            assert forall|id: u64| #[trigger] assoc_map(kept@).contains_key(id) == after_tick(m, now).contains_key(id) by {
                if after_tick(m, now).contains_key(id) {
                    let j = choose|j: int| 0 <= j < s.len() && s[j].0 == id;
                    lemma_assoc_lookup(s, j);
                }
                if assoc_map(kept@).contains_key(id) {
                    let j = choose|j: int|
                        0 <= j < s.len() && s[j].0 == id && !(s[j].1.due <= now && s[j].1.remaining <= 1);
                    lemma_assoc_lookup(s, j);
                }
            }
            assert forall|id: u64| #[trigger] assoc_map(kept@).contains_key(id) implies assoc_map(kept@)[id]
                == after_tick(m, now)[id] by {
                let j = choose|j: int|
                    0 <= j < s.len() && s[j].0 == id && !(s[j].1.due <= now && s[j].1.remaining <= 1);
            }
            assert(assoc_map(kept@) =~= after_tick(m, now));
            assert forall|id: u64|
                #![trigger is_due(m, now, id)]
                fired@.skip(f0.len() as int).contains(id) <==> is_due(m, now, id) by {
                if is_due(m, now, id) {
                    let j = choose|j: int| 0 <= j < s.len() && s[j].0 == id;
                    lemma_assoc_lookup(s, j);
                }
                if fired@.skip(f0.len() as int).contains(id) {
                    let j = choose|j: int| 0 <= j < s.len() && s[j].0 == id && s[j].1.due <= now;
                    lemma_assoc_lookup(s, j);
                }
            }
        }
        self.entries = kept;
        self.fired = fired;
    }

    /// Hands out the fired ids in ascending order and empties the queue.
    pub fn poll_fired_timers(&mut self) -> (ids: Vec<u64>)
        ensures
            sorted_ascending(ids@),
            ids@.to_multiset() == old(self).fired().to_multiset(),
            final(self).fired() == Seq::<u64>::empty(),
            final(self).timers() == old(self).timers(),
    {
        proof {
            use_type_invariant(&*self);
        }
        let mut fired: Vec<u64> = Vec::new();
        std::mem::swap(&mut fired, &mut self.fired);
        sort_ids(fired)
    }

    /// Whether some fired id waits to be polled.
    pub fn has_fired_timers(&self) -> (r: bool)
        ensures
            r == (self.fired().len() > 0),
    {
        self.fired.len() > 0
    }

    /// Whether some timer is still scheduled.
    pub fn has_scheduled_timers(&self) -> (r: bool)
        ensures
            r == exists|id: u64| self.timers().contains_key(id),
    {
        proof {
            use_type_invariant(self);
        }
        if self.entries.len() > 0 {
            proof {
                lemma_assoc_lookup(self.entries@, 0);
                assert(self.timers().contains_key(self.entries@[0].0));
            }
            true
        } else {
            assert forall|id: u64| !self.timers().contains_key(id) by {
                assert(!(exists|i: int| 0 <= i < self.entries@.len() && self.entries@[i].0 == id));
            }
            false
        }
    }
}

/// A timeout fires at the first tick at or after its due time, and that tick
/// removes it: it fires once.
pub proof fn law_timeout_fires_once(m: Map<u64, TimerSlot>, id: u64, delay: u64, now: u64, later: u64)
    requires
        later >= sat_add(now, delay),
    ensures
        is_due(m.insert(id, TimerSlot { due: sat_add(now, delay), delay, remaining: 1 }), later, id),
        !after_tick(m.insert(id, TimerSlot { due: sat_add(now, delay), delay, remaining: 1 }), later).contains_key(id),
{
}

/// A due timer with more than one firing left stays scheduled, one period after
/// the tick, with one firing less.
pub proof fn law_interval_repeats(m: Map<u64, TimerSlot>, id: u64, now: u64)
    requires
        is_due(m, now, id),
        m[id].remaining > 1,
    ensures
        after_tick(m, now).contains_key(id),
        after_tick(m, now)[id].remaining == m[id].remaining - 1,
        after_tick(m, now)[id].due == sat_add(now, m[id].delay),
        after_tick(m, now)[id].delay == m[id].delay,
{
}

/// A tick never adds a timer, and leaves the timers that are not due untouched.
pub proof fn law_tick_keeps_pending(m: Map<u64, TimerSlot>, now: u64, id: u64)
    ensures
        after_tick(m, now).contains_key(id) ==> m.contains_key(id),
        m.contains_key(id) && !is_due(m, now, id) ==> after_tick(m, now).contains_key(id)
            && after_tick(m, now)[id] == m[id],
{
}

/// Cancelling a timer just scheduled under a fresh id restores the table.
pub proof fn law_cancel_undoes_schedule(m: Map<u64, TimerSlot>, id: u64, slot: TimerSlot)
    requires
        !m.contains_key(id),
    ensures
        m.insert(id, slot).remove(id) == m,
{
    assert(m.insert(id, slot).remove(id) =~= m);
}

} // verus!
