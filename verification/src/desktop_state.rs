//! Persistent virtual-desktop state: which desktop each window belongs to,
//! which windows the tool itself hid, and the per-desktop stacking order.
//!
//! Desktop numbers are 0-indexed. A window's binding is the first pair
//! carrying its identifier; loading, saving and synchronizing with the
//! display server happen outside the library.

use vstd::prelude::*;

use crate::idmap::contains_id;
use crate::idmap::lemma_lookup_push;
use crate::idmap::lemma_lookup_update_first;
use crate::idmap::lemma_lookup_update_other;
use crate::idmap::lookup;

verus! {

/// Desktops a fresh state starts with.
pub const DEFAULT_DESKTOP_COUNT: u32 = 4;

/// The virtual-desktop bookkeeping of one session.
#[derive(Clone, Debug)]
pub struct DesktopState {
    /// Current desktop (0-indexed).
    pub current: u32,
    /// Total number of desktops.
    pub desktops: u32,
    /// Window identifier to desktop number, first pair binding.
    pub windows: Vec<(u32, u32)>,
    /// Windows hidden by the tool itself, not by a desktop switch.
    pub app_hidden: Vec<u32>,
    /// Stacking order per desktop, bottom to top.
    pub stacking: Vec<(u32, Vec<u32>)>,
}

/// A sequence with every occurrence of one identifier removed.
pub open spec fn remove_id(s: Seq<u32>, id: u32) -> Seq<u32>
    decreases s.len(),
{
    if s.len() == 0 {
        Seq::empty()
    } else if s[0] == id {
        remove_id(s.drop_first(), id)
    } else {
        seq![s[0]] + remove_id(s.drop_first(), id)
    }
}

/// A sequence keeping only identifiers that are still live.
pub open spec fn keep_live(s: Seq<u32>, live: Seq<u32>) -> Seq<u32>
    decreases s.len(),
{
    if s.len() == 0 {
        Seq::empty()
    } else if live.contains(s[0]) {
        seq![s[0]] + keep_live(s.drop_first(), live)
    } else {
        keep_live(s.drop_first(), live)
    }
}

/// Window/desktop pairs keeping only windows that are still live.
pub open spec fn keep_live_pairs(pairs: Seq<(u32, u32)>, live: Seq<u32>) -> Seq<(u32, u32)>
    decreases pairs.len(),
{
    if pairs.len() == 0 {
        Seq::empty()
    } else if live.contains(pairs[0].0) {
        seq![pairs[0]] + keep_live_pairs(pairs.drop_first(), live)
    } else {
        keep_live_pairs(pairs.drop_first(), live)
    }
}

/// The identifiers of a stacking order whose binding is the given desktop,
/// in stacking order.
pub open spec fn stacked_on(order: Seq<u32>, windows: Seq<(u32, u32)>, desktop: u32) -> Seq<u32>
    decreases order.len(),
{
    if order.len() == 0 {
        Seq::empty()
    } else if lookup(windows, order[0]) == Some(desktop) {
        seq![order[0]] + stacked_on(order.drop_first(), windows, desktop)
    } else {
        stacked_on(order.drop_first(), windows, desktop)
    }
}

/// Append each window bound to the desktop that the accumulator does not
/// already hold, in pair order.
pub open spec fn append_assigned(acc: Seq<u32>, pairs: Seq<(u32, u32)>, desktop: u32) -> Seq<u32>
    decreases pairs.len(),
{
    if pairs.len() == 0 {
        acc
    } else if pairs[0].1 == desktop && !acc.contains(pairs[0].0) {
        append_assigned(acc.push(pairs[0].0), pairs.drop_first(), desktop)
    } else {
        append_assigned(acc, pairs.drop_first(), desktop)
    }
}

/// Remove every occurrence of an identifier from a list.
fn remove_id_exec(v: &Vec<u32>, id: u32) -> (r: Vec<u32>)
    ensures
        r@ == remove_id(v@, id),
{
    let mut r: Vec<u32> = Vec::new();
    let n = v.len();
    proof {
        assert(v@.skip(0) =~= v@);
    }
    for i in 0..n
        invariant
            n == v@.len(),
            r@ + remove_id(v@.skip(i as int), id) == remove_id(v@, id),
    {
        proof {
            assert(v@.skip(i as int)[0] == v@[i as int]);
            assert(v@.skip(i as int).drop_first() =~= v@.skip(i as int + 1));
        }
        if v[i] != id {
            r.push(v[i]);
        }
    }
    proof {
        assert(v@.skip(n as int) =~= Seq::<u32>::empty());
    }
    r
}

/// Keep only the identifiers that are still live.
fn keep_live_exec(v: &Vec<u32>, live: &Vec<u32>) -> (r: Vec<u32>)
    ensures
        r@ == keep_live(v@, live@),
{
    let mut r: Vec<u32> = Vec::new();
    let n = v.len();
    proof {
        assert(v@.skip(0) =~= v@);
    }
    for i in 0..n
        invariant
            n == v@.len(),
            r@ + keep_live(v@.skip(i as int), live@) == keep_live(v@, live@),
    {
        proof {
            assert(v@.skip(i as int)[0] == v@[i as int]);
            assert(v@.skip(i as int).drop_first() =~= v@.skip(i as int + 1));
        }
        if contains_id(live, v[i]) {
            r.push(v[i]);
        }
    }
    proof {
        assert(v@.skip(n as int) =~= Seq::<u32>::empty());
    }
    r
}

impl DesktopState {
    /// The fresh state a first run starts with.
    pub fn default_state() -> (s: DesktopState)
        ensures
            s.current == 0,
            s.desktops == DEFAULT_DESKTOP_COUNT,
            s.windows@ =~= Seq::<(u32, u32)>::empty(),
            s.app_hidden@ =~= Seq::<u32>::empty(),
            s.stacking@ =~= Seq::<(u32, Vec<u32>)>::empty(),
    {
        DesktopState {
            current: 0,
            desktops: DEFAULT_DESKTOP_COUNT,
            windows: Vec::new(),
            app_hidden: Vec::new(),
            stacking: Vec::new(),
        }
    }

    /// Where the state is persisted between sessions.
    pub fn state_path() -> (r: String)
        ensures
            r@ == "/tmp/xpose/desktop_state.json"@,
    {
        "/tmp/xpose/desktop_state.json".to_string()
    }

    /// The desktop a window is bound to, if any.
    pub fn get_window_desktop_assignment(&self, window_id: u32) -> (r: Option<u32>)
        ensures
            r == lookup(self.windows@, window_id),
    {
        let n = self.windows.len();
        proof {
            assert(self.windows@.skip(0) =~= self.windows@);
        }
        for i in 0..n
            invariant
                n == self.windows@.len(),
                lookup(self.windows@, window_id) == lookup(
                    self.windows@.skip(i as int),
                    window_id,
                ),
                forall|j: int| 0 <= j < i ==> self.windows@[j].0 != window_id,
        {
            proof {
                assert(self.windows@.skip(i as int)[0] == self.windows@[i as int]);
                assert(self.windows@.skip(i as int).drop_first() =~= self.windows@.skip(
                    i as int + 1,
                ));
            }
            if self.windows[i].0 == window_id {
                return Some(self.windows[i].1);
            }
        }
        proof {
            assert(self.windows@.skip(n as int) =~= Seq::<(u32, u32)>::empty());
        }
        None
    }

    /// The desktop a window is bound to, binding a new window to the
    /// current desktop.
    pub fn get_window_desktop(&mut self, window_id: u32, current_desktop: u32) -> (d: u32)
        ensures
            match lookup(old(self).windows@, window_id) {
                Some(a) => d == a && *final(self) == *old(self),
                None => ({
                    &&& d == current_desktop
                    &&& final(self).windows@ == old(self).windows@.push(
                        (window_id, current_desktop),
                    )
                    &&& final(self).app_hidden == old(self).app_hidden
                    &&& final(self).stacking == old(self).stacking
                    &&& final(self).current == old(self).current
                    &&& final(self).desktops == old(self).desktops
                }),
            },
            lookup(final(self).windows@, window_id) is Some,
    {
        if let Some(d) = self.get_window_desktop_assignment(window_id) {
            return d;
        }
        self.windows.push((window_id, current_desktop));
        proof {
            lemma_lookup_push(old(self).windows@, (window_id, current_desktop), window_id);
        }
        current_desktop
    }

    /// Bind a window to a desktop, replacing its previous binding.
    pub fn set_window_desktop(&mut self, window_id: u32, desktop: u32)
        ensures
            lookup(final(self).windows@, window_id) == Some(desktop),
            forall|other: u32|
                other != window_id ==> lookup(final(self).windows@, other) == lookup(
                    old(self).windows@,
                    other,
                ),
            final(self).app_hidden == old(self).app_hidden,
            final(self).stacking == old(self).stacking,
            final(self).current == old(self).current,
            final(self).desktops == old(self).desktops,
    {
        let n = self.windows.len();
        for i in 0..n
            invariant
                *self == *old(self),
                n == self.windows@.len(),
                forall|j: int| 0 <= j < i ==> self.windows@[j].0 != window_id,
        {
            if self.windows[i].0 == window_id {
                self.windows.set(i, (window_id, desktop));
                proof {
                    lemma_lookup_update_first(
                        old(self).windows@,
                        i as int,
                        (window_id, desktop),
                    );
                    assert forall|other: u32| other != window_id implies lookup(
                        self.windows@,
                        other,
                    ) == lookup(old(self).windows@, other) by {
                        lemma_lookup_update_other(
                            old(self).windows@,
                            i as int,
                            (window_id, desktop),
                            other,
                        );
                    }
                }
                return ;
            }
        }
        self.windows.push((window_id, desktop));
        proof {
            lemma_lookup_push(old(self).windows@, (window_id, desktop), window_id);
            assert(lookup(old(self).windows@, window_id) is None) by {
                lemma_lookup_none_when_no_key(old(self).windows@, window_id);
            }
            assert forall|other: u32| other != window_id implies lookup(self.windows@, other)
                == lookup(old(self).windows@, other) by {
                lemma_lookup_push(old(self).windows@, (window_id, desktop), other);
            }
        }
    }

    /// Whether a window should show on the given desktop: never when the
    /// tool hid it, otherwise when it is unbound or bound to that desktop.
    pub open spec fn spec_is_visible_on(self, window_id: u32, desktop: u32) -> bool {
        &&& !self.app_hidden@.contains(window_id)
        &&& match lookup(self.windows@, window_id) {
            Some(d) => d == desktop,
            None => true,
        }
    }

    /// Whether a window should be visible on a desktop.
    pub fn is_visible_on(&self, window_id: u32, desktop: u32) -> (r: bool)
        ensures
            r == self.spec_is_visible_on(window_id, desktop),
    {
        if contains_id(&self.app_hidden, window_id) {
            return false;
        }
        match self.get_window_desktop_assignment(window_id) {
            Some(d) => d == desktop,
            None => true,
        }
    }

    /// Mark or unmark a window as hidden by the tool itself.
    pub fn set_app_hidden(&mut self, window_id: u32, hidden: bool)
        ensures
            hidden ==> final(self).app_hidden@ == (if old(self).app_hidden@.contains(window_id) {
                old(self).app_hidden@
            } else {
                old(self).app_hidden@.push(window_id)
            }),
            !hidden ==> final(self).app_hidden@ == remove_id(old(self).app_hidden@, window_id),
            final(self).app_hidden@.contains(window_id) == hidden,
            final(self).windows == old(self).windows,
            final(self).stacking == old(self).stacking,
            final(self).current == old(self).current,
            final(self).desktops == old(self).desktops,
    {
        if hidden {
            if !contains_id(&self.app_hidden, window_id) {
                self.app_hidden.push(window_id);
                proof {
                    assert(self.app_hidden@[self.app_hidden@.len() - 1] == window_id);
                }
            }
        } else {
            let kept = remove_id_exec(&self.app_hidden, window_id);
            self.app_hidden = kept;
            proof {
                lemma_remove_id_not_contained(old(self).app_hidden@, window_id);
            }
        }
    }

    /// Whether the tool itself hid a window.
    pub fn is_app_hidden(&self, window_id: u32) -> (r: bool)
        ensures
            r == self.app_hidden@.contains(window_id),
    {
        contains_id(&self.app_hidden, window_id)
    }

    /// Drop bindings, hidden marks and stacking entries of windows that no
    /// longer exist.
    pub fn cleanup_dead_windows(&mut self, live_windows: &Vec<u32>)
        ensures
            final(self).windows@ == keep_live_pairs(old(self).windows@, live_windows@),
            final(self).app_hidden@ == keep_live(old(self).app_hidden@, live_windows@),
            final(self).stacking@.len() == old(self).stacking@.len(),
            forall|i: int|
                0 <= i < final(self).stacking@.len() ==> final(self).stacking@[i].0 == old(
                    self,
                ).stacking@[i].0 && final(self).stacking@[i].1@ == keep_live(
                    old(self).stacking@[i].1@,
                    live_windows@,
                ),
            final(self).current == old(self).current,
            final(self).desktops == old(self).desktops,
    {
        let mut kept_pairs: Vec<(u32, u32)> = Vec::new();
        let n = self.windows.len();
        proof {
            assert(self.windows@.skip(0) =~= self.windows@);
        }
        for i in 0..n
            invariant
                *self == *old(self),
                n == self.windows@.len(),
                kept_pairs@ + keep_live_pairs(self.windows@.skip(i as int), live_windows@)
                    == keep_live_pairs(self.windows@, live_windows@),
        {
            proof {
                assert(self.windows@.skip(i as int)[0] == self.windows@[i as int]);
                assert(self.windows@.skip(i as int).drop_first() =~= self.windows@.skip(
                    i as int + 1,
                ));
            }
            if contains_id(live_windows, self.windows[i].0) {
                kept_pairs.push(self.windows[i]);
            }
        }
        proof {
            assert(self.windows@.skip(n as int) =~= Seq::<(u32, u32)>::empty());
        }
        let kept_hidden = keep_live_exec(&self.app_hidden, live_windows);
        let mut kept_stacking: Vec<(u32, Vec<u32>)> = Vec::new();
        let m = self.stacking.len();
        for i in 0..m
            invariant
                *self == *old(self),
                m == self.stacking@.len(),
                kept_stacking@.len() == i,
                forall|j: int|
                    0 <= j < i ==> kept_stacking@[j].0 == self.stacking@[j].0
                        && kept_stacking@[j].1@ == keep_live(self.stacking@[j].1@, live_windows@),
        {
            let entry = &self.stacking[i];
            let filtered = keep_live_exec(&entry.1, live_windows);
            kept_stacking.push((entry.0, filtered));
        }
        self.windows = kept_pairs;
        self.app_hidden = kept_hidden;
        self.stacking = kept_stacking;
    }

    /// Remove a window from one desktop's stacking order.
    pub fn remove_from_stacking(&mut self, window_id: u32, desktop: u32)
        ensures
            final(self).stacking@.len() == old(self).stacking@.len(),
            forall|i: int|
                0 <= i < final(self).stacking@.len() ==> final(self).stacking@[i].0 == old(
                    self,
                ).stacking@[i].0,
            forall|i: int|
                0 <= i < final(self).stacking@.len() ==> final(self).stacking@[i].1@ == (
                if old(self).stacking@[i].0 == desktop && (forall|j: int|
                    0 <= j < i ==> old(self).stacking@[j].0 != desktop) {
                    remove_id(old(self).stacking@[i].1@, window_id)
                } else {
                    old(self).stacking@[i].1@
                }),
            final(self).windows == old(self).windows,
            final(self).app_hidden == old(self).app_hidden,
            final(self).current == old(self).current,
            final(self).desktops == old(self).desktops,
    {
        let n = self.stacking.len();
        for i in 0..n
            invariant
                *self == *old(self),
                n == self.stacking@.len(),
                forall|j: int| 0 <= j < i ==> self.stacking@[j].0 != desktop,
        {
            if self.stacking[i].0 == desktop {
                let filtered = remove_id_exec(&self.stacking[i].1, window_id);
                self.stacking.set(i, (desktop, filtered));
                return ;
            }
        }
    }

    /// Put a window at the top of one desktop's stacking order, creating
    /// the order if the desktop has none yet.
    pub fn add_to_stacking(&mut self, window_id: u32, desktop: u32)
        ensures
            ({
                let after = lookup(final(self).stacking@, desktop);
                &&& after is Some
                &&& after.unwrap()@ == (match lookup(old(self).stacking@, desktop) {
                    Some(l) => remove_id(l@, window_id),
                    None => Seq::<u32>::empty(),
                }).push(window_id)
            }),
            forall|other: u32|
                other != desktop ==> lookup(final(self).stacking@, other) == lookup(
                    old(self).stacking@,
                    other,
                ),
            final(self).windows == old(self).windows,
            final(self).app_hidden == old(self).app_hidden,
            final(self).current == old(self).current,
            final(self).desktops == old(self).desktops,
    {
        let n = self.stacking.len();
        proof {
            assert(self.stacking@.skip(0) =~= self.stacking@);
        }
        for i in 0..n
            invariant
                *self == *old(self),
                n == self.stacking@.len(),
                lookup(self.stacking@, desktop) == lookup(self.stacking@.skip(i as int), desktop),
                forall|j: int| 0 <= j < i ==> self.stacking@[j].0 != desktop,
        {
            proof {
                assert(self.stacking@.skip(i as int)[0] == self.stacking@[i as int]);
                assert(self.stacking@.skip(i as int).drop_first() =~= self.stacking@.skip(
                    i as int + 1,
                ));
            }
            if self.stacking[i].0 == desktop {
                let mut order = remove_id_exec(&self.stacking[i].1, window_id);
                order.push(window_id);
                self.stacking.set(i, (desktop, order));
                proof {
                    lemma_lookup_update_first(
                        old(self).stacking@,
                        i as int,
                        self.stacking@[i as int],
                    );
                    assert forall|other: u32| other != desktop implies lookup(
                        self.stacking@,
                        other,
                    ) == lookup(old(self).stacking@, other) by {
                        lemma_lookup_update_other(
                            old(self).stacking@,
                            i as int,
                            self.stacking@[i as int],
                            other,
                        );
                    }
                }
                return ;
            }
        }
        proof {
            assert(self.stacking@.skip(n as int) =~= Seq::<(u32, Vec<u32>)>::empty());
        }
        let mut order: Vec<u32> = Vec::new();
        order.push(window_id);
        self.stacking.push((desktop, order));
        proof {
            lemma_lookup_push(old(self).stacking@, self.stacking@[n as int], desktop);
            assert forall|other: u32| other != desktop implies lookup(self.stacking@, other)
                == lookup(old(self).stacking@, other) by {
                lemma_lookup_push(old(self).stacking@, self.stacking@[n as int], other);
            }
        }
    }

    /// Every window of one desktop: first those in the desktop's stacking
    /// order (bottom to top) that are bound to it, then any other bound
    /// window not yet listed, in binding order.
    pub open spec fn spec_windows_on_desktop(self, desktop: u32) -> Seq<u32> {
        let base = match lookup(self.stacking@, desktop) {
            Some(order) => stacked_on(order@, self.windows@, desktop),
            None => Seq::<u32>::empty(),
        };
        append_assigned(base, self.windows@, desktop)
    }

    /// The position of a desktop's stacking entry, if it has one.
    fn find_stacking(&self, desktop: u32) -> (r: Option<usize>)
        ensures
            match r {
                Some(i) => i < self.stacking@.len() && self.stacking@[i as int].0 == desktop
                    && lookup(self.stacking@, desktop) == Some(self.stacking@[i as int].1),
                None => lookup(self.stacking@, desktop) is None,
            },
    {
        let n = self.stacking.len();
        proof {
            assert(self.stacking@.skip(0) =~= self.stacking@);
        }
        for i in 0..n
            invariant
                n == self.stacking@.len(),
                lookup(self.stacking@, desktop) == lookup(self.stacking@.skip(i as int), desktop),
                forall|j: int| 0 <= j < i ==> self.stacking@[j].0 != desktop,
        {
            proof {
                assert(self.stacking@.skip(i as int)[0] == self.stacking@[i as int]);
                assert(self.stacking@.skip(i as int).drop_first() =~= self.stacking@.skip(
                    i as int + 1,
                ));
            }
            if self.stacking[i].0 == desktop {
                return Some(i);
            }
        }
        proof {
            assert(self.stacking@.skip(n as int) =~= Seq::<(u32, Vec<u32>)>::empty());
        }
        None
    }

    /// The windows to show on a desktop, in stacking order where one is
    /// known.
    pub fn windows_on_desktop(&self, desktop: u32) -> (r: Vec<u32>)
        ensures
            r@ == self.spec_windows_on_desktop(desktop),
    {
        let mut r: Vec<u32> = Vec::new();
        let found = self.find_stacking(desktop);
        if let Some(idx) = found {
            let order = &self.stacking[idx].1;
            let m = order.len();
            proof {
                assert(order@.skip(0) =~= order@);
            }
            for k in 0..m
                invariant
                    m == order@.len(),
                    r@ + stacked_on(order@.skip(k as int), self.windows@, desktop) == stacked_on(
                        order@,
                        self.windows@,
                        desktop,
                    ),
            {
                proof {
                    assert(order@.skip(k as int)[0] == order@[k as int]);
                    assert(order@.skip(k as int).drop_first() =~= order@.skip(k as int + 1));
                }
                let id = order[k];
                match self.get_window_desktop_assignment(id) {
                    Some(d) if d == desktop => {
                        r.push(id);
                    },
                    _ => {},
                }
            }
            proof {
                assert(order@.skip(m as int) =~= Seq::<u32>::empty());
            }
        }
        let w = self.windows.len();
        proof {
            assert(self.windows@.skip(0) =~= self.windows@);
        }
        for i in 0..w
            invariant
                w == self.windows@.len(),
                append_assigned(r@, self.windows@.skip(i as int), desktop)
                    == self.spec_windows_on_desktop(desktop),
        {
            proof {
                assert(self.windows@.skip(i as int)[0] == self.windows@[i as int]);
                assert(self.windows@.skip(i as int).drop_first() =~= self.windows@.skip(
                    i as int + 1,
                ));
            }
            let (id, d) = self.windows[i];
            if d == desktop && !contains_id(&r, id) {
                r.push(id);
            }
        }
        proof {
            assert(self.windows@.skip(w as int) =~= Seq::<(u32, u32)>::empty());
        }
        r
    }
}

/// A key that appears in no pair has no binding.
proof fn lemma_lookup_none_when_no_key<V>(pairs: Seq<(u32, V)>, key: u32)
    requires
        forall|j: int| 0 <= j < pairs.len() ==> pairs[j].0 != key,
    ensures
        lookup(pairs, key) is None,
    decreases pairs.len(),
{
    if pairs.len() > 0 {
        lemma_lookup_none_when_no_key(pairs.drop_first(), key);
    }
}

/// Removing an identifier removes every occurrence of it.
proof fn lemma_remove_id_not_contained(s: Seq<u32>, id: u32)
    ensures
        !remove_id(s, id).contains(id),
    decreases s.len(),
{
    if s.len() > 0 {
        lemma_remove_id_not_contained(s.drop_first(), id);
        if s[0] != id {
            assert forall|k: int|
                0 <= k < remove_id(s, id).len() implies remove_id(s, id)[k] != id by {
                if k > 0 {
                    assert(remove_id(s, id)[k] == remove_id(s.drop_first(), id)[k - 1]);
                    assert(remove_id(s.drop_first(), id).contains(remove_id(s, id)[k]) == false
                        || remove_id(s, id)[k] != id);
                }
            }
        }
    }
}

} // verus!
