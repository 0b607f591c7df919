use vstd::prelude::*;

use crate::icon::{ascii_lower, is_ascii_chars, category_of, category_of_lowered, glyphs_renderable, icon, icon_text, lower_of, can_render_glyphs};
use crate::tab::{next_tab, previous_tab, tab_at, tab_for_key, SelectedTab};
use crate::volume::{sort_by_name, sorted_by_name, with_name, Volume};

use vstd::arithmetic::div_mod::{lemma_mod_self_0, lemma_small_mod};

verus! {

/// The browser's selection model: the sorted volumes, the highlighted row and
/// the active tab.
pub struct TableState {
    pub selected: Option<usize>,
    pub items: Vec<Volume>,
    pub use_unicode: bool,
    pub selected_tab: SelectedTab,
}

/// The highlighted row after moving down one row, wrapping from last to first.
pub open spec fn next_index(sel: Option<usize>, n: nat) -> Option<usize> {
    if n == 0 {
        None
    } else {
        match sel {
            Some(i) => Some(((i + 1) % (n as int)) as usize),
            None => Some(0),
        }
    }
}

/// The highlighted row after moving up one row, wrapping from first to last.
pub open spec fn previous_index(sel: Option<usize>, n: nat) -> Option<usize> {
    if n == 0 {
        None
    } else {
        match sel {
            Some(i) => if i == 0 {
                Some((n - 1) as usize)
            } else {
                Some((i - 1) as usize)
            },
            None => Some(0),
        }
    }
}

/// The highlighted row after `k` moves down.
pub open spec fn next_index_times(sel: Option<usize>, n: nat, k: nat) -> Option<usize>
    decreases k,
{
    if k == 0 {
        sel
    } else {
        next_index(next_index_times(sel, n, (k - 1) as nat), n)
    }
}

/// The active tab after a shortcut character: its tab if it names one, else unchanged.
pub open spec fn tab_after_shortcut(t: SelectedTab, c: char) -> SelectedTab {
    match tab_for_key(c) {
        Some(u) => u,
        None => t,
    }
}

/// The active tab after a request for the tab at a position: unchanged where
/// no tab stands there.
pub open spec fn tab_after_index(t: SelectedTab, i: int) -> SelectedTab {
    match tab_at(i) {
        Some(u) => u,
        None => t,
    }
}

/// The highlighted row after a request for a row: unchanged where the row is
/// not an index of the list.
pub open spec fn index_after_row(sel: Option<usize>, row: int, n: nat) -> Option<usize> {
    if 0 <= row < n {
        Some(row as usize)
    } else {
        sel
    }
}

pub open spec fn placeholder_text(t: SelectedTab) -> Seq<char> {
    match t {
        SelectedTab::Scans => "Scans tab content coming soon..."@,
        _ => "Browse tab content coming soon..."@,
    }
}

impl TableState {
    /// The highlighted row is absent exactly when the list is empty, and is an
    /// index of the list otherwise.
    pub open spec fn wf(&self) -> bool {
        match self.selected {
            Some(i) => i < self.items@.len(),
            None => self.items@.len() == 0,
        }
    }

    /// Loads the fetched volumes: sorted by name, first row highlighted,
    /// first tab active.
    pub fn new(items: Vec<Volume>) -> (r: TableState)
        ensures
            r.wf(),
            sorted_by_name(r.items@),
            r.items@.to_multiset() == items@.to_multiset(),
            r.items@.len() == items@.len(),
            forall|n: Seq<char>| #[trigger] with_name(r.items@, n) == with_name(items@, n),
            r.selected == (if items@.len() == 0 { None } else { Some(0usize) }),
            r.selected_tab == SelectedTab::VolumeShow,
            r.use_unicode == glyphs_renderable(),
    {
        let items = sort_by_name(items);
        let use_unicode = can_render_glyphs();
        let selected = if items.len() == 0 { None } else { Some(0usize) };
        TableState { selected, items, use_unicode, selected_tab: SelectedTab::VolumeShow }
    }

    /// The icon drawn before a volume of the given type tag.
    pub fn get_os_icon(&self, vol_type: &str) -> (r: String)
        ensures
            r@ == icon_text(category_of_lowered(lower_of(vol_type@)), self.use_unicode),
            is_ascii_chars(vol_type@) ==> r@ == icon_text(
                category_of_lowered(ascii_lower(vol_type@)),
                self.use_unicode,
            ),
    {
        icon(category_of(vol_type), self.use_unicode)
    }

    /// The text of a row of the list: the icon, then the volume's name.
    pub fn row_text(&self, i: usize) -> (r: String)
        requires
            i < self.items@.len(),
        ensures
            r@ == icon_text(
                category_of_lowered(lower_of(self.items@[i as int].vol_type@)),
                self.use_unicode,
            ) + self.items@[i as int].name@,
            is_ascii_chars(self.items@[i as int].vol_type@) ==> r@ == icon_text(
                category_of_lowered(ascii_lower(self.items@[i as int].vol_type@)),
                self.use_unicode,
            ) + self.items@[i as int].name@,
    {
        let v = &self.items[i];
        let prefix = self.get_os_icon(v.vol_type.as_str());
        prefix.concat(v.name.as_str())
    }

    /// Moves the highlight one row down, wrapping from the last row to the first.
    pub fn next(&mut self)
        requires
            old(self).wf(),
        ensures
            final(self).wf(),
            final(self).selected == next_index(old(self).selected, old(self).items@.len()),
            final(self).items == old(self).items,
            final(self).selected_tab == old(self).selected_tab,
            final(self).use_unicode == old(self).use_unicode,
    {
        if self.items.len() == 0 {
            self.selected = None;
        } else {
            self.selected = Some(
                match self.selected {
                    Some(i) => (i + 1) % self.items.len(),
                    None => 0,
                },
            );
        }
    }

    /// Moves the highlight one row up, wrapping from the first row to the last.
    pub fn previous(&mut self)
        requires
            old(self).wf(),
        ensures
            final(self).wf(),
            final(self).selected == previous_index(old(self).selected, old(self).items@.len()),
            final(self).items == old(self).items,
            final(self).selected_tab == old(self).selected_tab,
            final(self).use_unicode == old(self).use_unicode,
    {
        if self.items.len() == 0 {
            self.selected = None;
        } else {
            self.selected = Some(
                match self.selected {
                    Some(i) => if i == 0 {
                        self.items.len() - 1
                    } else {
                        i - 1
                    },
                    None => 0,
                },
            );
        }
    }

    pub fn set_tab(&mut self, tab: SelectedTab)
        ensures
            final(self).selected_tab == tab,
            final(self).selected == old(self).selected,
            final(self).items == old(self).items,
            final(self).use_unicode == old(self).use_unicode,
    {
        self.selected_tab = tab;
    }

    /// Moves one tab right; stays on the last tab.
    pub fn tab_next(&mut self)
        ensures
            final(self).selected_tab == next_tab(old(self).selected_tab),
            final(self).selected == old(self).selected,
            final(self).items == old(self).items,
            final(self).use_unicode == old(self).use_unicode,
    {
        self.selected_tab = self.selected_tab.next();
    }

    /// Moves one tab left; stays on the first tab.
    pub fn tab_previous(&mut self)
        ensures
            final(self).selected_tab == previous_tab(old(self).selected_tab),
            final(self).selected == old(self).selected,
            final(self).items == old(self).items,
            final(self).use_unicode == old(self).use_unicode,
    {
        self.selected_tab = self.selected_tab.previous();
    }

    /// Highlights the given row if it is an index of the list.
    pub fn select_row(&mut self, row: usize)
        requires
            old(self).wf(),
        ensures
            final(self).wf(),
            final(self).selected == index_after_row(old(self).selected, row as int, old(self).items@.len()),
            final(self).selected_tab == old(self).selected_tab,
            final(self).items == old(self).items,
            final(self).use_unicode == old(self).use_unicode,
    {
        if row < self.items.len() {
            self.selected = Some(row);
        }
    }

    /// Activates the tab at the given position, if there is one.
    pub fn select_tab_by_index(&mut self, index: usize)
        ensures
            final(self).selected_tab == tab_after_index(old(self).selected_tab, index as int),
            final(self).selected == old(self).selected,
            final(self).items == old(self).items,
            final(self).use_unicode == old(self).use_unicode,
    {
        if let Some(tab) = SelectedTab::from_index(index) {
            self.selected_tab = tab;
        }
    }

    /// Activates the tab that a shortcut character names; other characters
    /// change nothing.
    pub fn select_tab_by_shortcut(&mut self, key: char)
        ensures
            final(self).selected_tab == tab_after_shortcut(old(self).selected_tab, key),
            final(self).selected == old(self).selected,
            final(self).items == old(self).items,
            final(self).use_unicode == old(self).use_unicode,
    {
        if let Some(tab) = SelectedTab::from_key(key) {
            self.selected_tab = tab;
        }
    }

    /// The text of the detail panel: the highlighted volume's record on the
    /// first tab, a placeholder otherwise.
    pub fn body_text(&self) -> (r: String)
        requires
            self.wf(),
        ensures
            self.selected_tab == SelectedTab::VolumeShow ==> r@ == match self.selected {
                Some(i) => self.items@[i as int].details@,
                None => "No volume selected"@,
            },
            self.selected_tab != SelectedTab::VolumeShow ==> r@ == placeholder_text(
                self.selected_tab,
            ),
    {
        match self.selected_tab {
            SelectedTab::VolumeShow => match self.selected {
                Some(i) => self.items[i].details.clone(),
                None => String::from_str("No volume selected"),
            },
            SelectedTab::Scans => String::from_str("Scans tab content coming soon..."),
            SelectedTab::Browse => String::from_str("Browse tab content coming soon..."),
        }
    }
}

/// From any row of a non-empty list, moving down then up, or up then down,
/// returns to that row.
pub proof fn lemma_next_previous_inverse(n: nat, i: usize)
    requires
        i < n,
        n <= usize::MAX,
    ensures
        previous_index(next_index(Some(i), n), n) == Some(i),
        next_index(previous_index(Some(i), n), n) == Some(i),
{
    if i + 1 < n {
        lemma_small_mod((i + 1) as nat, n);
    } else {
        lemma_mod_self_0(n as int);
    }
    if i == 0 {
        lemma_mod_self_0(n as int);
    } else {
        lemma_small_mod(i as nat, n);
    }
}

proof fn lemma_next_times_from_first(n: nat, k: nat)
    requires
        0 < n,
        k < n,
        n <= usize::MAX,
    ensures
        next_index_times(Some(0usize), n, k) == Some(k as usize),
    decreases k,
{
    if k > 0 {
        lemma_next_times_from_first(n, (k - 1) as nat);
        lemma_small_mod(k, n);
    }
}

/// On a list of `n` rows, `n` moves down from the first row come back to it.
pub proof fn lemma_next_wraps_around(n: nat)
    requires
        0 < n,
        n <= usize::MAX,
    ensures
        next_index_times(Some(0usize), n, n) == Some(0usize),
{
    lemma_next_times_from_first(n, (n - 1) as nat);
    lemma_mod_self_0(n as int);
}

/// The shortcut `'2'` always activates the scans tab, and a character that
/// names no tab never changes the active one.
pub proof fn lemma_shortcuts(t: SelectedTab, c: char)
    ensures
        tab_after_shortcut(t, '2') == SelectedTab::Scans,
        c != '1' && c != '2' && c != '3' ==> tab_after_shortcut(t, c) == t,
{
}

} // verus!
