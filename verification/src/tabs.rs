use vstd::prelude::*;

verus! {

/// An ordered, non-empty sequence of view titles with exactly one active
/// index. The titles are fixed at construction; only the active index moves,
/// cyclically in both directions.
pub struct StatefulTabs {
    pub titles: Vec<String>,
    pub active: usize,
}

impl StatefulTabs {
    /// Well-formed: at least one title, and the active index is in range.
    pub open spec fn wf(self) -> bool {
        self.titles@.len() > 0 && self.active < self.titles@.len()
    }

    pub fn new(titles: Vec<String>) -> (tabs: StatefulTabs)
        requires
            titles@.len() > 0,
        ensures
            tabs.wf(),
            tabs.titles == titles,
            tabs.active == 0,
    {
        StatefulTabs { titles, active: 0 }
    }

    /// Advance to the next tab, wrapping from the last tab back to the first.
    pub fn next_tab(&mut self)
        requires
            old(self).wf(),
        ensures
            final(self).wf(),
            final(self).titles == old(self).titles,
            final(self).active == if old(self).active + 1 < old(self).titles@.len() {
                old(self).active + 1
            } else {
                0
            },
    {
        let len = self.titles.len();
        proof {
            if self.active + 1 < len {
                vstd::arithmetic::div_mod::lemma_small_mod((self.active + 1) as nat, len as nat);
            } else {
                vstd::arithmetic::div_mod::lemma_mod_self_0(len as int);
            }
        }
        self.active = (self.active + 1) % len;
    }

    /// Retreat to the previous tab, wrapping from the first tab to the last.
    pub fn prev_tab(&mut self)
        requires
            old(self).wf(),
        ensures
            final(self).wf(),
            final(self).titles == old(self).titles,
            final(self).active == if old(self).active > 0 {
                (old(self).active - 1) as int
            } else {
                old(self).titles@.len() - 1
            },
    {
        if self.active > 0 {
            self.active -= 1;
        } else {
            self.active = self.titles.len() - 1;
        }
    }
}

} // verus!
