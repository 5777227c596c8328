use vstd::prelude::*;
use vstd::pervasive::cloned;

verus! {

/// An ordered collection with at most one selected index. The selection,
/// when present, always points inside the items; navigation is cyclic in
/// both directions and none of the operations can fail.
pub struct StatefulList<T> {
    pub items: Vec<T>,
    pub selected: Option<usize>,
}

/// The selection as a mathematical option over `int`, for use in contracts.
pub open spec fn sel_model(sel: Option<usize>) -> Option<int> {
    match sel {
        Some(i) => Some(i as int),
        None => None,
    }
}

/// Where one cyclic forward step from selection `sel` lands in a list of
/// length `len`: the first index when nothing is selected, otherwise the next
/// index, wrapping from the last index back to the first.
pub open spec fn cyclic_next(sel: Option<int>, len: int) -> Option<int>
    recommends
        len > 0,
{
    match sel {
        None => Some(0),
        Some(i) => if i + 1 < len {
            Some(i + 1)
        } else {
            Some(0)
        },
    }
}

/// Where one cyclic backward step from selection `sel` lands in a list of
/// length `len`: the first index when nothing is selected, otherwise the
/// previous index, wrapping from the first index to the last.
pub open spec fn cyclic_prev(sel: Option<int>, len: int) -> Option<int>
    recommends
        len > 0,
{
    match sel {
        None => Some(0),
        Some(i) => if i == 0 {
            Some(len - 1)
        } else {
            Some(i - 1)
        },
    }
}

/// The selection after `k` cyclic forward steps.
pub open spec fn iter_cyclic_next(sel: Option<int>, len: int, k: nat) -> Option<int>
    decreases k,
{
    if k == 0 {
        sel
    } else {
        cyclic_next(iter_cyclic_next(sel, len, (k - 1) as nat), len)
    }
}

/// The selection after `k` cyclic backward steps.
pub open spec fn iter_cyclic_prev(sel: Option<int>, len: int, k: nat) -> Option<int>
    decreases k,
{
    if k == 0 {
        sel
    } else {
        cyclic_prev(iter_cyclic_prev(sel, len, (k - 1) as nat), len)
    }
}

/// After `k <= len` forward steps from index `i`, the selection sits at
/// `i + k`, reduced once by `len` when it passes the end.
proof fn lemma_iter_next_formula(i: int, len: int, k: nat)
    requires
        0 <= i < len,
        k <= len,
    ensures
        iter_cyclic_next(Some(i), len, k) == Some(
            if i + k < len {
                i + k
            } else {
                i + k - len
            },
        ),
    decreases k,
{
    if k > 0 {
        lemma_iter_next_formula(i, len, (k - 1) as nat);
    }
}

/// After `k <= len` backward steps from index `i`, the selection sits at
/// `i - k`, increased once by `len` when it passes the start.
proof fn lemma_iter_prev_formula(i: int, len: int, k: nat)
    requires
        0 <= i < len,
        k <= len,
    ensures
        iter_cyclic_prev(Some(i), len, k) == Some(
            if i - k >= 0 {
                i - k
            } else {
                i - k + len
            },
        ),
    decreases k,
{
    if k > 0 {
        lemma_iter_prev_formula(i, len, (k - 1) as nat);
    }
}

/// Repeated forward steps on a non-empty list cycle: starting from any valid
/// index, the selection returns to the start after exactly `len` steps and
/// not before, and every index of the list is visited along the way.
pub proof fn lemma_next_cycles(i: int, len: int)
    requires
        0 <= i < len,
    ensures
        iter_cyclic_next(Some(i), len, len as nat) == Some(i),
        forall|k: nat| 0 < k < len ==> iter_cyclic_next(Some(i), len, k) != Some(i),
{
    lemma_iter_next_formula(i, len, len as nat);
    assert forall|k: nat| 0 < k < len implies iter_cyclic_next(Some(i), len, k) != Some(i) by {
        lemma_iter_next_formula(i, len, k);
    }
}

/// Every index of a non-empty list is visited within the first `len` forward
/// steps from any valid starting index.
pub proof fn lemma_next_visits(i: int, len: int, j: int)
    requires
        0 <= i < len,
        0 <= j < len,
    ensures
        exists|k: nat| k < len && iter_cyclic_next(Some(i), len, k) == Some(j),
{
    let k: nat = if j >= i {
        (j - i) as nat
    } else {
        (j - i + len) as nat
    };
    lemma_iter_next_formula(i, len, k);
    assert(k < len && iter_cyclic_next(Some(i), len, k) == Some(j));
}

/// Repeated backward steps on a non-empty list cycle in the same way:
/// the selection returns to the start after exactly `len` steps and not
/// before, and every index of the list is visited along the way.
pub proof fn lemma_prev_cycles(i: int, len: int)
    requires
        0 <= i < len,
    ensures
        iter_cyclic_prev(Some(i), len, len as nat) == Some(i),
        forall|k: nat| 0 < k < len ==> iter_cyclic_prev(Some(i), len, k) != Some(i),
{
    lemma_iter_prev_formula(i, len, len as nat);
    assert forall|k: nat| 0 < k < len implies iter_cyclic_prev(Some(i), len, k) != Some(i) by {
        lemma_iter_prev_formula(i, len, k);
    }
}

/// Every index of a non-empty list is visited within the first `len`
/// backward steps from any valid starting index.
pub proof fn lemma_prev_visits(i: int, len: int, j: int)
    requires
        0 <= i < len,
        0 <= j < len,
    ensures
        exists|k: nat| k < len && iter_cyclic_prev(Some(i), len, k) == Some(j),
{
    let k: nat = if j <= i {
        (i - j) as nat
    } else {
        (i - j + len) as nat
    };
    lemma_iter_prev_formula(i, len, k);
    assert(k < len && iter_cyclic_prev(Some(i), len, k) == Some(j));
}

/// One backward step undoes one forward step, and the other way round:
/// the two directions wrap compatibly at both ends.
pub proof fn lemma_next_prev_inverse(i: int, len: int)
    requires
        0 <= i < len,
    ensures
        cyclic_prev(cyclic_next(Some(i), len), len) == Some(i),
        cyclic_next(cyclic_prev(Some(i), len), len) == Some(i),
{
}

impl<T: Clone> StatefulList<T> {
    /// Well-formed: the selection, when present, is a valid index.
    pub open spec fn wf(self) -> bool {
        self.selected matches Some(i) ==> (i as int) < self.items@.len()
    }

    /// A list over the given items with nothing selected.
    pub fn new(items: Vec<T>) -> (list: StatefulList<T>)
        ensures
            list.wf(),
            list.items == items,
            list.selected is None,
    {
        StatefulList { items, selected: None }
    }

    /// Move the selection one step forward, cyclically. On an empty list this
    /// is a no-op; on a non-empty list it always leaves a selection.
    pub fn next(&mut self)
        requires
            old(self).wf(),
        ensures
            final(self).wf(),
            final(self).items == old(self).items,
            old(self).items@.len() == 0 ==> *final(self) == *old(self),
            old(self).items@.len() > 0 ==> sel_model(final(self).selected) == cyclic_next(
                sel_model(old(self).selected),
                old(self).items@.len() as int,
            ),
    {
        let len = self.items.len();
        if len == 0 {
            return ;
        }
        let i: usize = match self.selected {
            Some(i) => if i >= len - 1 {
                0
            } else {
                i + 1
            },
            None => 0,
        };
        self.selected = Some(i);
    }

    /// Move the selection one step backward, cyclically. On an empty list
    /// this is a no-op; on a non-empty list it always leaves a selection.
    pub fn previous(&mut self)
        requires
            old(self).wf(),
        ensures
            final(self).wf(),
            final(self).items == old(self).items,
            old(self).items@.len() == 0 ==> *final(self) == *old(self),
            old(self).items@.len() > 0 ==> sel_model(final(self).selected) == cyclic_prev(
                sel_model(old(self).selected),
                old(self).items@.len() as int,
            ),
    {
        let len = self.items.len();
        if len == 0 {
            return ;
        }
        let i: usize = match self.selected {
            Some(i) => if i == 0 {
                len - 1
            } else {
                i - 1
            },
            None => 0,
        };
        self.selected = Some(i);
    }

    /// Select the given index directly.
    pub fn select(&mut self, index: usize)
        requires
            index < old(self).items@.len(),
        ensures
            final(self).wf(),
            final(self).items == old(self).items,
            final(self).selected == Some(index),
    {
        self.selected = Some(index);
    }

    /// Drop the selection. A no-op when nothing is selected.
    pub fn unselect(&mut self)
        ensures
            final(self).wf(),
            final(self).items == old(self).items,
            final(self).selected is None,
    {
        self.selected = None;
    }

    /// A copy of the selected item, or nothing when nothing is selected.
    /// A pure read: the list itself is untouched.
    pub fn get_selected(&self) -> (r: Option<T>)
        requires
            self.wf(),
        ensures
            r is Some <==> self.selected is Some,
            r matches Some(x) ==> cloned(self.items@[self.selected->0 as int], x),
    {
        match self.selected {
            Some(index) => Some(self.items[index].clone()),
            None => None,
        }
    }

    /// Remove the selected item and drop the selection; later items shift
    /// down one position. A no-op when the list is empty or nothing is
    /// selected.
    pub fn remove(&mut self)
        requires
            old(self).wf(),
        ensures
            final(self).wf(),
            old(self).selected is None ==> *final(self) == *old(self),
            old(self).selected matches Some(i) ==> {
                &&& final(self).items@ == old(self).items@.remove(i as int)
                &&& final(self).items@.len() == old(self).items@.len() - 1
                &&& final(self).selected is None
            },
    {
        if self.items.len() == 0 {
            return ;
        }
        let i = match self.selected {
            Some(i) => i,
            None => { return ; },
        };
        self.items.remove(i);
        self.selected = None;
    }
}

} // verus!
