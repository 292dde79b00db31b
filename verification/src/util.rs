//! A generic ordered list with an optional single selection index and
//! wraparound cursor movement, serving both the channel roster and the
//! per-chat message list.

use vstd::prelude::*;

verus! {

/// Returned by [`StatefulList::select`] when the requested index does not
/// point at an item.
#[derive(Debug)]
pub struct OutOfRange;

/// An ordered sequence of items with at most one selected index.
///
/// Invariant ([`StatefulList::wf`]): when a selection is present it points at
/// an item, so an empty list never carries a selection.
pub struct StatefulList<T> {
    pub items: Vec<T>,
    pub selected: Option<usize>,
}

/// One step of the cursor moving forward: an absent selection lands on the
/// first item, and the step past the last item wraps to the first.
/// A selection on an empty list is left as it is.
pub open spec fn next_sel(sel: Option<int>, len: int) -> Option<int> {
    if len <= 0 {
        sel
    } else {
        match sel {
            None => Some(0int),
            Some(i) => Some(if i + 1 < len { i + 1 } else { 0int }),
        }
    }
}

/// One step of the cursor moving backward: an absent selection lands on the
/// last item (the documented choice for the absent base case), and the step
/// before the first item wraps to the last.
/// A selection on an empty list is left as it is.
pub open spec fn prev_sel(sel: Option<int>, len: int) -> Option<int> {
    if len <= 0 {
        sel
    } else {
        match sel {
            None => Some(len - 1),
            Some(i) => Some(if i == 0 { len - 1 } else { i - 1 }),
        }
    }
}

/// The selection after `k` forward steps of the cursor on a list of
/// length `len`.
pub open spec fn iter_next_sel(sel: Option<int>, len: int, k: nat) -> Option<int>
    decreases k,
{
    if k == 0 {
        sel
    } else {
        next_sel(iter_next_sel(sel, len, (k - 1) as nat), len)
    }
}

/// The selection after `k` backward steps of the cursor on a list of
/// length `len`.
pub open spec fn iter_prev_sel(sel: Option<int>, len: int, k: nat) -> Option<int>
    decreases k,
{
    if k == 0 {
        sel
    } else {
        prev_sel(iter_prev_sel(sel, len, (k - 1) as nat), len)
    }
}

/// Stepping forward `a + b` times is stepping forward `a` times and then
/// `b` times.
pub proof fn lemma_iter_next_split(sel: Option<int>, len: int, a: nat, b: nat)
    ensures
        iter_next_sel(sel, len, a + b) == iter_next_sel(iter_next_sel(sel, len, a), len, b),
    decreases b,
{
    if b > 0 {
        lemma_iter_next_split(sel, len, a, (b - 1) as nat);
    }
}

/// Stepping backward `a + b` times is stepping backward `a` times and then
/// `b` times.
pub proof fn lemma_iter_prev_split(sel: Option<int>, len: int, a: nat, b: nat)
    ensures
        iter_prev_sel(sel, len, a + b) == iter_prev_sel(iter_prev_sel(sel, len, a), len, b),
    decreases b,
{
    if b > 0 {
        lemma_iter_prev_split(sel, len, a, (b - 1) as nat);
    }
}

/// As long as the cursor does not reach past the last item, `k` forward
/// steps from index `j` land on index `j + k`.
pub proof fn lemma_iter_next_no_wrap(j: int, len: int, k: nat)
    requires
        0 <= j,
        j + k < len,
    ensures
        iter_next_sel(Some(j), len, k) == Some(j + k),
    decreases k,
{
    if k > 0 {
        lemma_iter_next_no_wrap(j, len, (k - 1) as nat);
    }
}

/// As long as the cursor does not reach before the first item, `k` backward
/// steps from index `j` land on index `j - k`.
pub proof fn lemma_iter_prev_no_wrap(j: int, len: int, k: nat)
    requires
        k <= j < len,
    ensures
        iter_prev_sel(Some(j), len, k) == Some(j - k),
    decreases k,
{
    if k > 0 {
        lemma_iter_prev_no_wrap(j, len, (k - 1) as nat);
    }
}

/// Full wraparound cycle forward: on a list of length `len`, stepping the
/// cursor forward `len` times from any present selection returns it to
/// where it started.
pub proof fn lemma_next_full_cycle(j: int, len: int)
    requires
        0 <= j < len,
    ensures
        iter_next_sel(Some(j), len, len as nat) == Some(j),
{
    lemma_iter_next_no_wrap(j, len, (len - 1 - j) as nat);
    lemma_iter_next_split(Some(j), len, (len - 1 - j) as nat, 1nat);
    assert(iter_next_sel(Some(len - 1), len, 1nat) == next_sel(
        iter_next_sel(Some(len - 1), len, 0nat),
        len,
    ));
    assert(iter_next_sel(Some(j), len, (len - j) as nat) == Some(0int));
    lemma_iter_next_no_wrap(0, len, j as nat);
    lemma_iter_next_split(Some(j), len, (len - j) as nat, j as nat);
}

/// Full wraparound cycle backward: on a list of length `len`, stepping the
/// cursor backward `len` times from any present selection returns it to
/// where it started.
pub proof fn lemma_prev_full_cycle(j: int, len: int)
    requires
        0 <= j < len,
    ensures
        iter_prev_sel(Some(j), len, len as nat) == Some(j),
{
    lemma_iter_prev_no_wrap(j, len, j as nat);
    lemma_iter_prev_split(Some(j), len, j as nat, 1nat);
    assert(iter_prev_sel(Some(0int), len, 1nat) == prev_sel(
        iter_prev_sel(Some(0int), len, 0nat),
        len,
    ));
    assert(iter_prev_sel(Some(j), len, (j + 1) as nat) == Some(len - 1));
    lemma_iter_prev_no_wrap(len - 1, len, (len - 1 - j) as nat);
    lemma_iter_prev_split(Some(j), len, (j + 1) as nat, (len - 1 - j) as nat);
}

/// On a non-empty list of length `len`, stepping the cursor backward `len`
/// times from an absent selection lands on the first item: the first step
/// lands on the last item and the remaining `len - 1` steps walk back to
/// index 0.
pub proof fn lemma_prev_from_absent_cycle(len: int)
    requires
        0 < len,
    ensures
        iter_prev_sel(None, len, len as nat) == Some(0int),
{
    assert(iter_prev_sel(None, len, 1nat) == prev_sel(iter_prev_sel(None, len, 0nat), len));
    lemma_iter_prev_split(None, len, 1nat, (len - 1) as nat);
    lemma_iter_prev_no_wrap(len - 1, len, (len - 1) as nat);
}

/// On a non-empty list of length `len`, the first forward step from an
/// absent selection lands on the first item, and the `len` steps after it
/// walk the full cycle back to the first item: `len + 1` steps in all.
/// (After only `len` steps from an absent start the cursor sits on the last
/// item, not the first: the step that introduces the selection does not
/// advance it.)
pub proof fn lemma_next_from_absent_cycle(len: int)
    requires
        0 < len,
    ensures
        iter_next_sel(None, len, (len + 1) as nat) == Some(0int),
{
    assert(iter_next_sel(None, len, 1nat) == next_sel(iter_next_sel(None, len, 0nat), len));
    lemma_iter_next_split(None, len, 1nat, len as nat);
    lemma_next_full_cycle(0, len);
}

/// On an empty list a forward step never changes the selection.
pub proof fn lemma_next_empty_noop(sel: Option<int>)
    ensures
        next_sel(sel, 0) == sel,
{
}

/// On an empty list a backward step never changes the selection.
pub proof fn lemma_prev_empty_noop(sel: Option<int>)
    ensures
        prev_sel(sel, 0) == sel,
{
}

impl<T> StatefulList<T> {
    /// The selection as a mathematical index.
    pub open spec fn sel(&self) -> Option<int> {
        match self.selected {
            None => None,
            Some(i) => Some(i as int),
        }
    }

    /// Selection validity: a present selection points at an item.
    pub open spec fn wf(&self) -> bool {
        match self.selected {
            None => true,
            Some(i) => i < self.items@.len(),
        }
    }

    /// A new list over `items`; the selection starts absent even when
    /// `items` is non-empty.
    pub fn with_items(items: Vec<T>) -> (l: Self)
        ensures
            l.wf(),
            l.items@ == items@,
            l.selected is None,
    {
        StatefulList { items, selected: None }
    }

    /// Move the cursor forward one step with wraparound; a no-op on an
    /// empty list. The items themselves never change.
    pub fn next(&mut self)
        requires
            old(self).wf(),
        ensures
            final(self).wf(),
            final(self).items == old(self).items,
            final(self).sel() == next_sel(old(self).sel(), old(self).items@.len() as int),
    {
        let len = self.items.len();
        if len > 0 {
            let i: usize = match self.selected {
                None => 0,
                Some(i) => if i + 1 < len { i + 1 } else { 0 },
            };
            self.selected = Some(i);
        }
    }

    /// Move the cursor backward one step with wraparound; a no-op on an
    /// empty list. An absent selection lands on the last item. The items
    /// themselves never change.
    pub fn previous(&mut self)
        requires
            old(self).wf(),
        ensures
            final(self).wf(),
            final(self).items == old(self).items,
            final(self).sel() == prev_sel(old(self).sel(), old(self).items@.len() as int),
    {
        let len = self.items.len();
        if len > 0 {
            let i: usize = match self.selected {
                None => len - 1,
                Some(i) => if i == 0 { len - 1 } else { i - 1 },
            };
            self.selected = Some(i);
        }
    }

    /// Set the selection to `index` when it points at an item; otherwise
    /// fail with [`OutOfRange`] and leave the list untouched (the documented
    /// policy: fail, never clamp), so the invariant is never corrupted.
    pub fn select(&mut self, index: usize) -> (r: Result<(), OutOfRange>)
        requires
            old(self).wf(),
        ensures
            final(self).wf(),
            final(self).items == old(self).items,
            index < old(self).items@.len() ==> r is Ok && final(self).selected == Some(index),
            index >= old(self).items@.len() ==> r is Err && final(self).selected == old(
                self,
            ).selected,
    {
        if index < self.items.len() {
            self.selected = Some(index);
            Ok(())
        } else {
            Err(OutOfRange)
        }
    }
}

} // verus!
