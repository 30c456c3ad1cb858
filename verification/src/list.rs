//! A list with one selected position.

use vstd::prelude::*;

verus! {

/// The mathematical content of a [`ListState`].
#[verifier::ext_equal]
pub struct Selection<I> {
    pub items: Seq<I>,
    pub selected: nat,
}

/// An ordered collection with one active index.
///
/// "Next" moves the index towards zero and "previous" moves it towards the
/// end; both stop at the boundary.
#[derive(Debug, Clone)]
pub struct ListState<I> {
    pub items: Vec<I>,
    pub selected: usize,
}

impl<I> Selection<I> {
    /// The selected index points into the items; with no items it is zero.
    pub open spec fn wf(self) -> bool {
        if self.items.len() == 0 {
            self.selected == 0
        } else {
            self.selected < self.items.len()
        }
    }

    /// The selected item.
    pub open spec fn current(self) -> I {
        self.items[self.selected as int]
    }

    /// One step towards zero; an empty selection stays as it is.
    pub open spec fn next(self) -> Selection<I> {
        if self.items.len() > 0 {
            Selection { items: self.items, selected: step_next(self.selected) }
        } else {
            self
        }
    }

    /// One step towards the end; an empty selection stays as it is.
    pub open spec fn prev(self) -> Selection<I> {
        if self.items.len() > 0 {
            Selection { items: self.items, selected: step_prev(self.selected, self.items.len()) }
        } else {
            self
        }
    }

    /// The selection after a whole sequence of steps, `true` standing for
    /// "next" and `false` for "previous".
    pub open spec fn walked(self, steps: Seq<bool>) -> Selection<I>
        decreases steps.len(),
    {
        if steps.len() == 0 {
            self
        } else if steps.last() {
            self.walked(steps.drop_last()).next()
        } else {
            self.walked(steps.drop_last()).prev()
        }
    }

    /// The selection over other items, at their first position.
    pub open spec fn fresh(items: Seq<I>) -> Selection<I> {
        Selection { items, selected: 0 }
    }
}

impl<I> View for ListState<I> {
    type V = Selection<I>;

    open spec fn view(&self) -> Selection<I> {
        Selection { items: self.items@, selected: self.selected as nat }
    }
}

/// The index after one step towards zero.
pub open spec fn step_next(selected: nat) -> nat {
    if selected > 0 {
        (selected - 1) as nat
    } else {
        selected
    }
}

/// The index after one step towards the end of a list of `len` items.
pub open spec fn step_prev(selected: nat, len: nat) -> nat {
    if selected + 1 < len {
        selected + 1
    } else {
        selected
    }
}

/// However a non-empty list is navigated, its items stay what they are and
/// the selected index stays inside them.
pub proof fn lemma_walk_in_range<I>(list: Selection<I>, steps: Seq<bool>)
    requires
        list.items.len() > 0,
        list.selected < list.items.len(),
    ensures
        list.walked(steps).items == list.items,
        list.walked(steps).selected < list.items.len(),
    decreases steps.len(),
{
    if steps.len() > 0 {
        lemma_walk_in_range(list, steps.drop_last());
    }
}

impl<I> ListState<I> {
    /// The selected index points into the list; in an empty list it is zero.
    pub open spec fn wf(&self) -> bool {
        self@.wf()
    }

    /// A list over these items, with the first one selected.
    pub fn new(items: Vec<I>) -> (list: ListState<I>)
        ensures
            list@ == Selection::fresh(items@),
            list.wf(),
    {
        ListState { items, selected: 0 }
    }

    /// Swaps the backing sequence and selects its first position, whatever
    /// was selected before.
    pub fn replace(&mut self, items: Vec<I>)
        ensures
            final(self)@ == Selection::fresh(items@),
            final(self).wf(),
    {
        self.items = items;
        self.selected = 0;
    }

    /// Moves the selection one step towards zero; at zero it stays. The list
    /// must not be empty.
    pub fn select_next(&mut self)
        requires
            old(self).items@.len() > 0,
        ensures
            final(self)@ == old(self)@.next(),
            old(self).wf() ==> final(self).wf(),
    {
        if self.selected > 0 {
            self.selected -= 1
        }
    }

    /// Moves the selection one step towards the end; at the last item it
    /// stays. The list must not be empty.
    pub fn select_prev(&mut self)
        requires
            old(self).items@.len() > 0,
        ensures
            final(self)@ == old(self)@.prev(),
            old(self).wf() ==> final(self).wf(),
    {
        if self.selected < self.items.len() - 1 {
            self.selected += 1
        }
    }

    /// The selected item. The selection must point into the list, which a
    /// well-formed list that is not empty guarantees.
    pub fn get_selected_item(&self) -> (item: &I)
        requires
            self.selected < self.items.len(),
        ensures
            *item == self@.current(),
    {
        &self.items[self.selected]
    }

    /// The item after the selected one, which must exist.
    pub fn get_next_selected_item(&self) -> (item: &I)
        requires
            self.selected + 1 < self.items.len(),
        ensures
            *item == self.items@[self.selected + 1],
    {
        &self.items[self.selected + 1]
    }
}

} // verus!
