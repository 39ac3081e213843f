//! Two-sample watchers over polled values.
//!
//! A watcher keeps the two most recent successful readings of one polled
//! value and exposes edge predicates over them. Polling an external process
//! is intermittently unavailable, so a watcher can also be absent; the first
//! successful reading after such a gap initializes both samples to the new
//! value, which suppresses a false edge.

use vstd::prelude::*;

verus! {

/// The two most recent readings of one polled value, newest in `current`.
#[derive(Clone, Copy)]
pub struct Pair<T> {
    pub old: T,
    pub current: T,
}

/// A change-aware holder for one polled value.
///
/// `pair` is present only after at least one successful reading since the
/// last gap. Once present, `old` and `current` are the two most recent
/// readings in temporal order.
#[derive(Clone, Copy)]
pub struct Watcher<T> {
    pub pair: Option<Pair<T>>,
}

/// The watcher that results from feeding one reading (or one failed read)
/// into `w`.
pub open spec fn spec_update<T>(w: Watcher<T>, value: Option<T>) -> Watcher<T> {
    match value {
        Option::None => Watcher { pair: Option::None },
        Option::Some(v) => match w.pair {
            Option::None => Watcher { pair: Option::Some(Pair { old: v, current: v }) },
            Option::Some(p) => Watcher { pair: Option::Some(Pair { old: p.current, current: v }) },
        },
    }
}

/// The value changed between the two most recent readings.
pub open spec fn spec_changed<T>(w: Watcher<T>) -> bool {
    match w.pair {
        Option::Some(p) => p.current != p.old,
        Option::None => false,
    }
}

/// The value changed and the newest reading equals `v`.
pub open spec fn spec_changed_to<T>(w: Watcher<T>, v: T) -> bool {
    match w.pair {
        Option::Some(p) => p.current == v && p.old != v,
        Option::None => false,
    }
}

impl<T: Copy> Watcher<T> {
    /// A watcher that has not seen any reading yet.
    pub fn absent() -> (r: Self)
        ensures
            r.pair is None,
    {
        Watcher { pair: Option::None }
    }

    /// Feed one polled reading into the watcher. `None` records a failed
    /// read and clears the pair; the first present reading after that sets
    /// both samples to the new value.
    pub fn update(&mut self, value: Option<T>)
        ensures
            *final(self) == spec_update(*old(self), value),
    {
        match value {
            Option::None => {
                self.pair = Option::None;
            }
            Option::Some(v) => {
                match &self.pair {
                    Option::None => {
                        self.pair = Option::Some(Pair { old: v, current: v });
                    }
                    Option::Some(p) => {
                        let prev = p.current;
                        self.pair = Option::Some(Pair { old: prev, current: v });
                    }
                }
            }
        }
    }
}

impl Watcher<u32> {
    /// The newest reading is strictly above the previous one.
    pub open spec fn spec_increased(self) -> bool {
        match self.pair {
            Option::Some(p) => p.current > p.old,
            Option::None => false,
        }
    }

    /// The newest reading is strictly below the previous one.
    pub open spec fn spec_decreased(self) -> bool {
        match self.pair {
            Option::Some(p) => p.current < p.old,
            Option::None => false,
        }
    }

    pub fn increased(&self) -> (r: bool)
        ensures
            r == self.spec_increased(),
    {
        match &self.pair {
            Option::Some(p) => p.current > p.old,
            Option::None => false,
        }
    }

    pub fn decreased(&self) -> (r: bool)
        ensures
            r == self.spec_decreased(),
    {
        match &self.pair {
            Option::Some(p) => p.current < p.old,
            Option::None => false,
        }
    }

    pub fn changed(&self) -> (r: bool)
        ensures
            r == spec_changed(*self),
    {
        match &self.pair {
            Option::Some(p) => p.current != p.old,
            Option::None => false,
        }
    }

    /// The value changed and the newest reading equals `v`.
    pub fn changed_to(&self, v: u32) -> (r: bool)
        ensures
            r == spec_changed_to(*self, v),
    {
        match &self.pair {
            Option::Some(p) => p.current == v && p.old != v,
            Option::None => false,
        }
    }
}

impl Watcher<i32> {
    /// The newest reading is strictly above the previous one.
    pub open spec fn spec_increased(self) -> bool {
        match self.pair {
            Option::Some(p) => p.current > p.old,
            Option::None => false,
        }
    }

    /// The newest reading is strictly below the previous one.
    pub open spec fn spec_decreased(self) -> bool {
        match self.pair {
            Option::Some(p) => p.current < p.old,
            Option::None => false,
        }
    }

    pub fn increased(&self) -> (r: bool)
        ensures
            r == self.spec_increased(),
    {
        match &self.pair {
            Option::Some(p) => p.current > p.old,
            Option::None => false,
        }
    }

    pub fn decreased(&self) -> (r: bool)
        ensures
            r == self.spec_decreased(),
    {
        match &self.pair {
            Option::Some(p) => p.current < p.old,
            Option::None => false,
        }
    }

    pub fn changed(&self) -> (r: bool)
        ensures
            r == spec_changed(*self),
    {
        match &self.pair {
            Option::Some(p) => p.current != p.old,
            Option::None => false,
        }
    }

    /// The value changed and the newest reading equals `v`.
    pub fn changed_to(&self, v: i32) -> (r: bool)
        ensures
            r == spec_changed_to(*self, v),
    {
        match &self.pair {
            Option::Some(p) => p.current == v && p.old != v,
            Option::None => false,
        }
    }
}

impl Watcher<bool> {
    pub fn changed(&self) -> (r: bool)
        ensures
            r == spec_changed(*self),
    {
        match &self.pair {
            Option::Some(p) => p.current != p.old,
            Option::None => false,
        }
    }

    /// The value changed and the newest reading equals `v`.
    pub fn changed_to(&self, v: bool) -> (r: bool)
        ensures
            r == spec_changed_to(*self, v),
    {
        match &self.pair {
            Option::Some(p) => p.current == v && p.old != v,
            Option::None => false,
        }
    }
}

/// After a gap, the first present reading initializes both samples to the
/// new value and no change predicate fires.
pub proof fn law_first_sample_after_gap<T>(w: Watcher<T>, v: T)
    ensures
        spec_update(spec_update(w, Option::None), Option::Some(v)).pair == Option::Some(
            (Pair { old: v, current: v }),
        ),
        !spec_changed(spec_update(spec_update(w, Option::None), Option::Some(v))),
        forall|u: T| !spec_changed_to(spec_update(spec_update(w, Option::None), Option::Some(v)), u),
{
}

/// After a gap, the first present reading never registers as an increase or
/// a decrease.
pub proof fn law_first_sample_no_edge_u32(w: Watcher<u32>, v: u32)
    ensures
        !spec_update(spec_update(w, Option::None), Option::Some(v)).spec_increased(),
        !spec_update(spec_update(w, Option::None), Option::Some(v)).spec_decreased(),
{
}

/// After a gap, the first present reading never registers as an increase or
/// a decrease.
pub proof fn law_first_sample_no_edge_i32(w: Watcher<i32>, v: i32)
    ensures
        !spec_update(spec_update(w, Option::None), Option::Some(v)).spec_increased(),
        !spec_update(spec_update(w, Option::None), Option::Some(v)).spec_decreased(),
{
}

/// Two consecutive present readings leave exactly those two values in the
/// pair, and the value counts as changed precisely when they differ.
pub proof fn law_consecutive_samples<T>(w: Watcher<T>, v1: T, v2: T)
    ensures
        spec_update(spec_update(w, Option::Some(v1)), Option::Some(v2)).pair == Option::Some(
            (Pair { old: v1, current: v2 }),
        ),
        spec_changed(spec_update(spec_update(w, Option::Some(v1)), Option::Some(v2))) <==> v2 != v1,
{
}

/// Over two consecutive present readings, the ordering predicates agree with
/// the order of the two values.
pub proof fn law_consecutive_order_u32(w: Watcher<u32>, v1: u32, v2: u32)
    ensures
        spec_update(spec_update(w, Option::Some(v1)), Option::Some(v2)).spec_increased() <==> v2
            > v1,
        spec_update(spec_update(w, Option::Some(v1)), Option::Some(v2)).spec_decreased() <==> v2
            < v1,
{
}

/// Over two consecutive present readings, the ordering predicates agree with
/// the order of the two values.
pub proof fn law_consecutive_order_i32(w: Watcher<i32>, v1: i32, v2: i32)
    ensures
        spec_update(spec_update(w, Option::Some(v1)), Option::Some(v2)).spec_increased() <==> v2
            > v1,
        spec_update(spec_update(w, Option::Some(v1)), Option::Some(v2)).spec_decreased() <==> v2
            < v1,
{
}

} // verus!
