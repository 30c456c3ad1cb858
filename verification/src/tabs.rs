//! Tabs, and the two panels inside a tab.

use vstd::arithmetic::div_mod::lemma_mod_multiples_vanish;
use vstd::prelude::*;

verus! {

/// A two-way switch between sibling panels.
///
/// Switching is absolute: "previous" always selects the first panel and
/// "next" always selects the second.
pub struct ControlState<'a> {
    pub titles: Vec<&'a str>,
    pub index: usize,
}

impl<'a> ControlState<'a> {
    /// The index names one of the panels.
    pub open spec fn wf(&self) -> bool {
        self.index < self.titles@.len()
    }

    /// Panels with these titles, the first one active.
    pub fn new(titles: Vec<&'a str>) -> (panels: ControlState<'a>)
        ensures
            panels.titles@ == titles@,
            panels.index == 0,
    {
        ControlState { titles, index: 0 }
    }

    /// Makes the first panel the active one, whichever was.
    pub fn prev_panel(&mut self)
        ensures
            final(self).index == 0,
            final(self).titles@ == old(self).titles@,
    {
        self.index = 0;
    }

    /// Makes the second panel the active one, whichever was.
    pub fn next_panel(&mut self)
        ensures
            final(self).index == 1,
            final(self).titles@ == old(self).titles@,
    {
        self.index = 1;
    }

    /// The title of the active panel.
    pub fn get_title(&self) -> (title: &'a str)
        requires
            self.wf(),
        ensures
            title == self.titles@[self.index as int],
    {
        self.titles[self.index]
    }
}

/// The title that a tab index stands for: the index is read modulo the
/// number of tabs.
pub open spec fn title_at<'a>(titles: Seq<&'a str>, index: int) -> &'a str {
    titles[index % (titles.len() as int)]
}

/// The index that a one-based tab number selects. Number zero wraps around to
/// the largest index.
pub open spec fn index_of_tab(tab: usize) -> usize {
    if tab == 0 {
        usize::MAX
    } else {
        (tab - 1) as usize
    }
}

/// Moving the index by a whole number of rounds does not change the title
/// that it stands for.
pub proof fn lemma_title_cyclic<'a>(titles: Seq<&'a str>, index: int, rounds: int)
    requires
        titles.len() > 0,
    ensures
        title_at(titles, index + rounds * titles.len()) == title_at(titles, index),
{
    lemma_mod_multiples_vanish(rounds, index, titles.len() as int);
    assert(titles.len() * rounds + index == index + rounds * titles.len()) by (nonlinear_arith);
}

/// A cyclic selection over the top-level tabs, with the panels of the tab.
pub struct TabState<'a> {
    pub titles: Vec<&'a str>,
    pub index: usize,
    pub panels: ControlState<'a>,
}

impl<'a> TabState<'a> {
    /// Tabs with these titles and panels, the first tab active.
    pub fn new(title: Vec<&'a str>, panels: ControlState<'a>) -> (tabs: TabState<'a>)
        ensures
            tabs.titles@ == title@,
            tabs.index == 0,
            tabs.panels == panels,
    {
        TabState { titles: title, index: 0, panels }
    }

    /// The title of the active tab: the index is read modulo the number of
    /// tabs, of which there must be at least one.
    pub fn get_current_title(&self) -> (title: &'a str)
        requires
            self.titles@.len() > 0,
        ensures
            title == title_at(self.titles@, self.index as int),
    {
        self.titles[self.index % self.titles.len()]
    }

    /// Jumps to the tab with the given one-based number. A number outside the
    /// tabs is kept as it is; reading the title wraps it.
    pub fn set_tab_index(&mut self, tab: usize)
        ensures
            final(self).index == index_of_tab(tab),
            final(self).titles@ == old(self).titles@,
            final(self).panels == old(self).panels,
    {
        self.index = tab.wrapping_sub(1);
    }
}

} // verus!
