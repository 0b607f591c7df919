use vstd::prelude::*;

verus! {

/// Width in columns of one tab title in the header row.
pub const TAB_WIDTH: u16 = 15;

/// The three views of the detail panel, in their fixed display order.
#[derive(Clone, Copy, Debug, PartialEq, Eq, Structural)]
pub enum SelectedTab {
    VolumeShow,
    Scans,
    Browse,
}

/// Position of a tab in the display order.
pub open spec fn tab_index(t: SelectedTab) -> nat {
    match t {
        SelectedTab::VolumeShow => 0,
        SelectedTab::Scans => 1,
        SelectedTab::Browse => 2,
    }
}

/// The tab at a position of the display order, if there is one.
pub open spec fn tab_at(i: int) -> Option<SelectedTab> {
    if i == 0 {
        Some(SelectedTab::VolumeShow)
    } else if i == 1 {
        Some(SelectedTab::Scans)
    } else if i == 2 {
        Some(SelectedTab::Browse)
    } else {
        None
    }
}

/// The tab one step to the right in display order; the last tab has none and stays.
pub open spec fn next_tab(t: SelectedTab) -> SelectedTab {
    match t {
        SelectedTab::VolumeShow => SelectedTab::Scans,
        SelectedTab::Scans => SelectedTab::Browse,
        SelectedTab::Browse => SelectedTab::Browse,
    }
}

/// The tab one step to the left in display order; the first tab has none and stays.
pub open spec fn previous_tab(t: SelectedTab) -> SelectedTab {
    match t {
        SelectedTab::VolumeShow => SelectedTab::VolumeShow,
        SelectedTab::Scans => SelectedTab::VolumeShow,
        SelectedTab::Browse => SelectedTab::Scans,
    }
}

/// The tab that a shortcut character selects, if any.
pub open spec fn tab_for_key(c: char) -> Option<SelectedTab> {
    if c == '1' {
        Some(SelectedTab::VolumeShow)
    } else if c == '2' {
        Some(SelectedTab::Scans)
    } else if c == '3' {
        Some(SelectedTab::Browse)
    } else {
        None
    }
}

/// Title text of a tab, padded to the tab width.
pub open spec fn title_of(t: SelectedTab) -> Seq<char> {
    match t {
        SelectedTab::VolumeShow => "Volume Show [1]"@,
        SelectedTab::Scans => "Scans [2]      "@,
        SelectedTab::Browse => "Browse [3]     "@,
    }
}

impl SelectedTab {
    /// The tab one step to the right; the last tab stays where it is.
    pub fn next(self) -> (r: SelectedTab)
        ensures
            r == next_tab(self),
            tab_index(self) < 2 ==> tab_index(r) == tab_index(self) + 1,
            tab_index(self) == 2 ==> r == self,
    {
        match self {
            SelectedTab::VolumeShow => SelectedTab::Scans,
            SelectedTab::Scans => SelectedTab::Browse,
            SelectedTab::Browse => SelectedTab::Browse,
        }
    }

    /// The tab one step to the left; the first tab stays where it is.
    pub fn previous(self) -> (r: SelectedTab)
        ensures
            r == previous_tab(self),
            tab_index(self) > 0 ==> tab_index(r) + 1 == tab_index(self),
            tab_index(self) == 0 ==> r == self,
    {
        match self {
            SelectedTab::VolumeShow => SelectedTab::VolumeShow,
            SelectedTab::Scans => SelectedTab::VolumeShow,
            SelectedTab::Browse => SelectedTab::Scans,
        }
    }

    /// All tabs in display order.
    pub fn all() -> (r: Vec<SelectedTab>)
        ensures
            r@ == seq![SelectedTab::VolumeShow, SelectedTab::Scans, SelectedTab::Browse],
    {
        vec![SelectedTab::VolumeShow, SelectedTab::Scans, SelectedTab::Browse]
    }

    pub fn to_index(&self) -> (r: usize)
        ensures
            r == tab_index(*self),
            tab_at(r as int) == Some(*self),
    {
        match self {
            SelectedTab::VolumeShow => 0,
            SelectedTab::Scans => 1,
            SelectedTab::Browse => 2,
        }
    }

    pub fn from_index(index: usize) -> (r: Option<SelectedTab>)
        ensures
            r == tab_at(index as int),
    {
        match index {
            0 => Some(SelectedTab::VolumeShow),
            1 => Some(SelectedTab::Scans),
            2 => Some(SelectedTab::Browse),
            _ => None,
        }
    }

    /// The header text of the tab, `TAB_WIDTH` columns wide.
    pub fn title(&self) -> (r: String)
        ensures
            r@ == title_of(*self),
            r@.len() == TAB_WIDTH,
    {
        proof {
            reveal_strlit("Volume Show [1]");
            reveal_strlit("Scans [2]      ");
            reveal_strlit("Browse [3]     ");
        }
        match self {
            SelectedTab::VolumeShow => String::from_str("Volume Show [1]"),
            SelectedTab::Scans => String::from_str("Scans [2]      "),
            SelectedTab::Browse => String::from_str("Browse [3]     "),
        }
    }

    pub fn from_key(key: char) -> (r: Option<SelectedTab>)
        ensures
            r == tab_for_key(key),
    {
        match key {
            '1' => Some(SelectedTab::VolumeShow),
            '2' => Some(SelectedTab::Scans),
            '3' => Some(SelectedTab::Browse),
            _ => None,
        }
    }
}

impl Default for SelectedTab {
    fn default() -> (r: SelectedTab)
        ensures
            r == SelectedTab::VolumeShow,
    {
        SelectedTab::VolumeShow
    }
}

/// Moving right from the last tab, or left from the first, changes nothing.
pub proof fn lemma_tab_moves_clamp()
    ensures
        next_tab(SelectedTab::Browse) == SelectedTab::Browse,
        previous_tab(SelectedTab::VolumeShow) == SelectedTab::VolumeShow,
{
}

} // verus!
