//! State published by the xdeskie virtual-desktop companion: the current
//! desktop, the desktop count, each window's assignment and per-desktop
//! stacking orders.
//!
//! Assignment 0 marks a sticky window that shows on every desktop; other
//! desktops are numbered from 1. Reading and parsing the companion's state
//! file happens outside the library.

use vstd::prelude::*;

use crate::idmap::contains_id;
use crate::idmap::lookup;

verus! {

/// The companion tool's state, as plain values.
#[derive(Clone, Debug)]
pub struct XdeskieState {
    /// Current desktop, 1-indexed.
    pub current: u32,
    /// Total number of desktops.
    pub desktops: u32,
    /// Window identifier to assignment: 0 is sticky, 1 and up a desktop.
    pub windows: Vec<(u32, u32)>,
    /// Stacking order per desktop, bottom to top.
    pub stacking: Vec<(u32, Vec<u32>)>,
}

/// Whether an assignment shows on a desktop: sticky or that desktop.
pub open spec fn shows_on(assignment: u32, desktop: u32) -> bool {
    assignment == 0 || assignment == desktop
}

/// The identifiers of a stacking order whose assignment shows on the
/// desktop, in stacking order.
pub open spec fn stacked_showing(order: Seq<u32>, windows: Seq<(u32, u32)>, desktop: u32) -> Seq<
    u32,
>
    decreases order.len(),
{
    if order.len() == 0 {
        Seq::empty()
    } else if ({
        let a = lookup(windows, order[0]);
        a is Some && shows_on(a.unwrap(), desktop)
    }) {
        seq![order[0]] + stacked_showing(order.drop_first(), windows, desktop)
    } else {
        stacked_showing(order.drop_first(), windows, desktop)
    }
}

/// Append each window showing on the desktop that the accumulator does not
/// already hold, in pair order.
pub open spec fn append_showing(acc: Seq<u32>, pairs: Seq<(u32, u32)>, desktop: u32) -> Seq<u32>
    decreases pairs.len(),
{
    if pairs.len() == 0 {
        acc
    } else if shows_on(pairs[0].1, desktop) && !acc.contains(pairs[0].0) {
        append_showing(acc.push(pairs[0].0), pairs.drop_first(), desktop)
    } else {
        append_showing(acc, pairs.drop_first(), desktop)
    }
}

impl XdeskieState {
    /// Where the companion tool publishes its state.
    pub fn state_path() -> (r: String)
        ensures
            r@ == "/tmp/xdeskie/state.json"@,
    {
        "/tmp/xdeskie/state.json".to_string()
    }

    /// A window's assignment: 0 for sticky, a desktop number otherwise,
    /// nothing for an unknown window.
    pub fn get_desktop(&self, window_id: u32) -> (r: Option<u32>)
        ensures
            r == lookup(self.windows@, window_id),
    {
        let n = self.windows.len();
        proof {
            assert(self.windows@.skip(0) =~= self.windows@);
        }
        for i in 0..n
            invariant
                n == self.windows@.len(),
                lookup(self.windows@, window_id) == lookup(
                    self.windows@.skip(i as int),
                    window_id,
                ),
        {
            proof {
                assert(self.windows@.skip(i as int)[0] == self.windows@[i as int]);
                assert(self.windows@.skip(i as int).drop_first() =~= self.windows@.skip(
                    i as int + 1,
                ));
            }
            if self.windows[i].0 == window_id {
                return Some(self.windows[i].1);
            }
        }
        proof {
            assert(self.windows@.skip(n as int) =~= Seq::<(u32, u32)>::empty());
        }
        None
    }

    /// The position of a desktop's stacking entry, if it has one.
    fn find_stacking(&self, desktop: u32) -> (r: Option<usize>)
        ensures
            match r {
                Some(i) => i < self.stacking@.len() && self.stacking@[i as int].0 == desktop
                    && lookup(self.stacking@, desktop) == Some(self.stacking@[i as int].1),
                None => lookup(self.stacking@, desktop) is None,
            },
    {
        let n = self.stacking.len();
        proof {
            assert(self.stacking@.skip(0) =~= self.stacking@);
        }
        for i in 0..n
            invariant
                n == self.stacking@.len(),
                lookup(self.stacking@, desktop) == lookup(self.stacking@.skip(i as int), desktop),
        {
            proof {
                assert(self.stacking@.skip(i as int)[0] == self.stacking@[i as int]);
                assert(self.stacking@.skip(i as int).drop_first() =~= self.stacking@.skip(
                    i as int + 1,
                ));
            }
            if self.stacking[i].0 == desktop {
                return Some(i);
            }
        }
        proof {
            assert(self.stacking@.skip(n as int) =~= Seq::<(u32, Vec<u32>)>::empty());
        }
        None
    }

    /// Every window showing on one desktop, sticky windows included: first
    /// those in the desktop's stacking order (bottom to top), then any
    /// other showing window not yet listed, in pair order.
    pub open spec fn spec_windows_on_desktop(self, desktop: u32) -> Seq<u32> {
        let base = match lookup(self.stacking@, desktop) {
            Some(order) => stacked_showing(order@, self.windows@, desktop),
            None => Seq::<u32>::empty(),
        };
        append_showing(base, self.windows@, desktop)
    }

    /// The windows to show on a desktop, in stacking order where one is
    /// known.
    pub fn windows_on_desktop(&self, desktop: u32) -> (r: Vec<u32>)
        ensures
            r@ == self.spec_windows_on_desktop(desktop),
    {
        let mut r: Vec<u32> = Vec::new();
        let found = self.find_stacking(desktop);
        if let Some(idx) = found {
            let order = &self.stacking[idx].1;
            let m = order.len();
            proof {
                assert(order@.skip(0) =~= order@);
            }
            for k in 0..m
                invariant
                    m == order@.len(),
                    r@ + stacked_showing(order@.skip(k as int), self.windows@, desktop)
                        == stacked_showing(order@, self.windows@, desktop),
            {
                proof {
                    assert(order@.skip(k as int)[0] == order@[k as int]);
                    assert(order@.skip(k as int).drop_first() =~= order@.skip(k as int + 1));
                }
                let id = order[k];
                match self.get_desktop(id) {
                    Some(a) if a == 0 || a == desktop => {
                        r.push(id);
                    },
                    _ => {},
                }
            }
            proof {
                assert(order@.skip(m as int) =~= Seq::<u32>::empty());
            }
        }
        let w = self.windows.len();
        proof {
            assert(self.windows@.skip(0) =~= self.windows@);
        }
        for i in 0..w
            invariant
                w == self.windows@.len(),
                append_showing(r@, self.windows@.skip(i as int), desktop)
                    == self.spec_windows_on_desktop(desktop),
        {
            proof {
                assert(self.windows@.skip(i as int)[0] == self.windows@[i as int]);
                assert(self.windows@.skip(i as int).drop_first() =~= self.windows@.skip(
                    i as int + 1,
                ));
            }
            let (id, a) = self.windows[i];
            if (a == 0 || a == desktop) && !contains_id(&r, id) {
                r.push(id);
            }
        }
        proof {
            assert(self.windows@.skip(w as int) =~= Seq::<(u32, u32)>::empty());
        }
        r
    }
}

} // verus!
