use vstd::prelude::*;

use crate::tab::{SelectedTab, next_tab, previous_tab, TAB_WIDTH};
use crate::table::{
    TableState, index_after_row, next_index, previous_index, tab_after_index, tab_after_shortcut,
};

verus! {

/// A rectangle of terminal cells: left column, top row, width and height.
#[derive(Clone, Copy, Debug, PartialEq, Eq, Structural)]
pub struct Rect {
    pub x: u16,
    pub y: u16,
    pub width: u16,
    pub height: u16,
}

/// `a + b`, held at the largest `u16`.
pub open spec fn sat_add(a: u16, b: u16) -> int {
    if a + b > u16::MAX {
        u16::MAX as int
    } else {
        a + b
    }
}

/// Whether the cell at `column`, `row` lies inside the rectangle.
pub open spec fn rect_contains(r: Rect, column: u16, row: u16) -> bool {
    r.x <= column && column < sat_add(r.x, r.width) && r.y <= row && row < sat_add(
        r.y,
        r.height,
    )
}

impl Rect {
    pub fn new(x: u16, y: u16, width: u16, height: u16) -> (r: Rect)
        ensures
            r == (Rect { x, y, width, height }),
    {
        Rect { x, y, width, height }
    }

    pub fn contains(&self, column: u16, row: u16) -> (r: bool)
        ensures
            r == rect_contains(*self, column, row),
    {
        column >= self.x && column < self.x.saturating_add(self.width) && row >= self.y && row
            < self.y.saturating_add(self.height)
    }
}

/// The screen regions of the last frame: the volume list on the left, and on the
/// right the panel whose first row holds the tab header.
#[derive(Clone, Copy, Debug, PartialEq, Eq, Structural)]
pub struct Geometry {
    pub list: Rect,
    pub panel: Rect,
}

/// The keys that the browser tells apart.
#[derive(Clone, Copy, Debug, PartialEq, Eq, Structural)]
pub enum Key {
    Char(char),
    Up,
    Down,
    Left,
    Right,
    Other,
}

/// One input event.
#[derive(Clone, Copy, Debug, PartialEq, Eq, Structural)]
pub enum InputEvent {
    Key(Key),
    /// A pointer button pressed at a cell.
    Press { column: u16, row: u16 },
    /// Any other pointer or terminal event.
    Other,
}

/// Whether the browser keeps running.
#[derive(Clone, Copy, Debug, PartialEq, Eq, Structural)]
pub enum LoopState {
    Running,
    Stopped,
}

/// The list row under a press inside the list region: the first row lies
/// below the top border.
pub open spec fn row_under(list: Rect, row: u16) -> int {
    row - (list.y + 1)
}

/// The tab position under a press in the header row: each title is followed
/// by a divider of two columns.
pub open spec fn tab_under(panel: Rect, column: u16) -> int {
    (column - panel.x) / (TAB_WIDTH + 2)
}

/// What one event does to the highlighted row, the active tab and the loop.
pub open spec fn step(
    sel: Option<usize>,
    tab: SelectedTab,
    n: nat,
    ev: InputEvent,
    g: Geometry,
) -> (Option<usize>, SelectedTab, LoopState) {
    match ev {
        InputEvent::Key(Key::Char(c)) => if c == 'q' {
            (sel, tab, LoopState::Stopped)
        } else if c == '1' || c == '2' || c == '3' {
            (sel, tab_after_shortcut(tab, c), LoopState::Running)
        } else if c == 'j' {
            (next_index(sel, n), tab, LoopState::Running)
        } else if c == 'k' {
            (previous_index(sel, n), tab, LoopState::Running)
        } else {
            (sel, tab, LoopState::Running)
        },
        InputEvent::Key(Key::Down) => (next_index(sel, n), tab, LoopState::Running),
        InputEvent::Key(Key::Up) => (previous_index(sel, n), tab, LoopState::Running),
        InputEvent::Key(Key::Right) => (sel, next_tab(tab), LoopState::Running),
        InputEvent::Key(Key::Left) => (sel, previous_tab(tab), LoopState::Running),
        InputEvent::Press { column, row } => if rect_contains(g.list, column, row) {
            (index_after_row(sel, row_under(g.list, row), n), tab, LoopState::Running)
        } else if rect_contains(g.panel, column, row) && row == g.panel.y {
            (sel, tab_after_index(tab, tab_under(g.panel, column)), LoopState::Running)
        } else {
            (sel, tab, LoopState::Running)
        },
        _ => (sel, tab, LoopState::Running),
    }
}

impl TableState {
    /// Applies one input event to the selection model and says whether the
    /// browser goes on.
    pub fn handle_event(&mut self, ev: InputEvent, g: Geometry) -> (r: LoopState)
        requires
            old(self).wf(),
        ensures
            final(self).wf(),
            (final(self).selected, final(self).selected_tab, r) == step(
                old(self).selected,
                old(self).selected_tab,
                old(self).items@.len(),
                ev,
                g,
            ),
            final(self).items == old(self).items,
            final(self).use_unicode == old(self).use_unicode,
    {
        match ev {
            InputEvent::Key(Key::Char(c)) => {
                if c == 'q' {
                    return LoopState::Stopped;
                } else if c == '1' || c == '2' || c == '3' {
                    self.select_tab_by_shortcut(c);
                } else if c == 'j' {
                    self.next();
                } else if c == 'k' {
                    self.previous();
                }
            },
            InputEvent::Key(Key::Down) => self.next(),
            InputEvent::Key(Key::Up) => self.previous(),
            InputEvent::Key(Key::Right) => self.tab_next(),
            InputEvent::Key(Key::Left) => self.tab_previous(),
            InputEvent::Key(Key::Other) => {},
            InputEvent::Press { column, row } => {
                if g.list.contains(column, row) {
                    if row > g.list.y {
                        let rel: u16 = row - g.list.y - 1;
                        self.select_row(rel as usize);
                    }
                } else if g.panel.contains(column, row) && row == g.panel.y {
                    let index: u16 = (column - g.panel.x) / (TAB_WIDTH + 2);
                    self.select_tab_by_index(index as usize);
                }
            },
            InputEvent::Other => {},
        }
        LoopState::Running
    }
}

} // verus!
