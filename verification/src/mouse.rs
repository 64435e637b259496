//! Where a mouse event goes: the open editor, a panel's scrolling, the
//! scrollbar drag, the tab bar, the sidebar or the grid, and what a click on
//! the grid does.

use vstd::prelude::*;
use crate::grid::view::{in_area, GridHit, Rect};

verus! {

/// A mouse button.
#[derive(PartialEq, Eq, Structural, Clone, Copy, Debug)]
pub enum MouseButton {
    Left,
    Right,
    Middle,
}

/// What the mouse did.
#[derive(PartialEq, Eq, Structural, Clone, Copy, Debug)]
pub enum MouseKind {
    Down(MouseButton),
    Up(MouseButton),
    Drag(MouseButton),
    ScrollDown,
    ScrollUp,
    Moved,
}

/// A mouse event at cell `(x, y)`, with whether Control was held.
#[derive(PartialEq, Eq, Structural, Clone, Copy, Debug)]
pub struct MouseInput {
    pub kind: MouseKind,
    pub x: u16,
    pub y: u16,
    pub ctrl: bool,
}

/// The popup that is open, as far as the mouse is concerned.
#[derive(PartialEq, Eq, Structural, Clone, Copy, Debug)]
pub enum OpenPopup {
    Nothing,
    FilterEditor,
    TextEditor,
    Other,
}

/// A click on the tab bar: activate or close a tab.
#[derive(PartialEq, Eq, Structural, Clone, Copy, Debug)]
pub enum TabClick {
    Activate(usize),
    Close(usize),
}

/// What the mouse routing looks at: the popup and mode, the panels' areas
/// (the area scrolled over the grid may be wider than the cells' area), and
/// what the tab bar found under a click.
#[derive(PartialEq, Eq, Structural, Clone, Copy, Debug)]
pub struct MouseContext {
    pub popup: OpenPopup,
    pub edit_mode: bool,
    pub sidebar_area: Option<Rect>,
    pub sidebar_visible: bool,
    pub grid_scroll_area: Option<Rect>,
    pub grid_area: Option<Rect>,
    pub tab_hit: Option<TabClick>,
}

/// Where a mouse event goes.
#[derive(PartialEq, Eq, Structural, Clone, Copy, Debug)]
pub enum MouseRoute {
    /// The filter editor handles it.
    FilterEditor,
    /// The text editor handles it.
    TextEditor,
    /// Nothing happens.
    Ignore,
    /// The sidebar takes focus and scrolls three lines.
    ScrollSidebar { down: bool },
    /// The grid takes focus and scrolls three rows.
    ScrollGrid { down: bool },
    /// A scrollbar drag in progress follows the pointer.
    DragScrollbar,
    /// A scrollbar drag ends.
    EndDrag,
    /// The grid takes focus and the tab is activated or closed.
    Tab(TabClick),
    /// The sidebar takes focus; a left click acts on its entry.
    Sidebar { left: bool },
    /// The grid takes focus; a left click acts on what lies under it.
    Grid { left: bool },
}

/// `(x, y)` lies in `area`, when there is one.
pub open spec fn in_opt_area(area: Option<Rect>, x: u16, y: u16) -> bool {
    match area {
        Some(a) => in_area(a, x as int, y as int),
        None => false,
    }
}

/// Where event `m` goes in context `c`.
pub open spec fn mouse_route(m: MouseInput, c: MouseContext) -> MouseRoute {
    if c.popup == OpenPopup::FilterEditor {
        MouseRoute::FilterEditor
    } else if c.popup == OpenPopup::TextEditor {
        MouseRoute::TextEditor
    } else if c.popup != OpenPopup::Nothing || c.edit_mode {
        MouseRoute::Ignore
    } else {
        match m.kind {
            MouseKind::ScrollDown | MouseKind::ScrollUp => {
                let down = m.kind == MouseKind::ScrollDown;
                if c.sidebar_visible && in_opt_area(c.sidebar_area, m.x, m.y) {
                    MouseRoute::ScrollSidebar { down }
                } else if in_opt_area(if c.grid_scroll_area is Some { c.grid_scroll_area } else { c.grid_area }, m.x, m.y) {
                    MouseRoute::ScrollGrid { down }
                } else {
                    MouseRoute::Ignore
                }
            },
            MouseKind::Drag(MouseButton::Left) => MouseRoute::DragScrollbar,
            MouseKind::Up(MouseButton::Left) => MouseRoute::EndDrag,
            MouseKind::Down(MouseButton::Left) | MouseKind::Down(MouseButton::Middle) => {
                let left = m.kind == MouseKind::Down(MouseButton::Left);
                if c.tab_hit is Some {
                    MouseRoute::Tab(c.tab_hit->0)
                } else if c.sidebar_visible && in_opt_area(c.sidebar_area, m.x, m.y) {
                    MouseRoute::Sidebar { left }
                } else if in_opt_area(c.grid_area, m.x, m.y) {
                    MouseRoute::Grid { left }
                } else {
                    MouseRoute::Ignore
                }
            },
            _ => MouseRoute::Ignore,
        }
    }
}

/// Whether `(x, y)` lies in `area`, when there is one.
fn inside(area: Option<Rect>, x: u16, y: u16) -> (r: bool)
    ensures
        r == in_opt_area(area, x, y),
{
    match area {
        Some(a) => {
            let (ax, ay, aw, ah) = (a.x as u32, a.y as u32, a.width as u32, a.height as u32);
            let (px, py) = (x as u32, y as u32);
            aw != 0 && ah != 0 && ax <= px && px < ax + aw && ay <= py && py < ay + ah
        },
        None => false,
    }
}

/// Where a mouse event goes: an open filter or text editor takes it; any
/// other popup, or edit mode, drops it. Otherwise the wheel scrolls the
/// sidebar or the grid under the pointer, a left drag moves the scrollbar,
/// releasing the left button ends the drag, and a left or middle click goes
/// to the tab bar when it found a tab there, else to the sidebar or the grid
/// under the pointer.
pub fn route_mouse(m: MouseInput, c: &MouseContext) -> (r: MouseRoute)
    ensures
        r == mouse_route(m, *c),
{
    match c.popup {
        OpenPopup::FilterEditor => return MouseRoute::FilterEditor,
        OpenPopup::TextEditor => return MouseRoute::TextEditor,
        OpenPopup::Other => return MouseRoute::Ignore,
        OpenPopup::Nothing => {},
    }
    if c.edit_mode {
        return MouseRoute::Ignore;
    }
    match m.kind {
        MouseKind::ScrollDown | MouseKind::ScrollUp => {
            let down = match m.kind {
                MouseKind::ScrollDown => true,
                _ => false,
            };
            if c.sidebar_visible && inside(c.sidebar_area, m.x, m.y) {
                MouseRoute::ScrollSidebar { down }
            } else {
                let area = match c.grid_scroll_area {
                    Some(a) => Some(a),
                    None => c.grid_area,
                };
                if inside(area, m.x, m.y) {
                    MouseRoute::ScrollGrid { down }
                } else {
                    MouseRoute::Ignore
                }
            }
        },
        MouseKind::Drag(MouseButton::Left) => MouseRoute::DragScrollbar,
        MouseKind::Up(MouseButton::Left) => MouseRoute::EndDrag,
        MouseKind::Down(MouseButton::Left) | MouseKind::Down(MouseButton::Middle) => {
            let left = match m.kind {
                MouseKind::Down(MouseButton::Left) => true,
                _ => false,
            };
            match c.tab_hit {
                Some(t) => MouseRoute::Tab(t),
                None => if c.sidebar_visible && inside(c.sidebar_area, m.x, m.y) {
                    MouseRoute::Sidebar { left }
                } else if inside(c.grid_area, m.x, m.y) {
                    MouseRoute::Grid { left }
                } else {
                    MouseRoute::Ignore
                },
            }
        },
        _ => MouseRoute::Ignore,
    }
}

/// What a left click on the grid does with what lies under it.
#[derive(PartialEq, Eq, Structural, Clone, Copy, Debug)]
pub enum GridClick {
    /// Focus the header's column in the focused row, then cycle its sort.
    SortColumn(usize),
    /// Select the row alone (with Control: toggle it) and focus it.
    SelectRow { row: usize, toggle: bool },
    /// Focus the cell.
    FocusCell { row: usize, col: usize },
    /// Jump to the first row starting with the letter.
    JumpToLetter(char),
    /// Start dragging the scrollbar.
    StartDrag,
    /// Nothing is under the pointer.
    Nothing,
}

/// What a left click on the grid does, given what `hit_test` found under it
/// and whether Control was held.
pub fn grid_click(hit: Option<GridHit>, ctrl: bool) -> (r: GridClick)
    ensures
        r == match hit {
            Some(GridHit::Header(col)) => GridClick::SortColumn(col),
            Some(GridHit::RowGutter(row)) => GridClick::SelectRow { row, toggle: ctrl },
            Some(GridHit::Cell { row, col }) => GridClick::FocusCell { row, col },
            Some(GridHit::AlphabetRail(letter)) => GridClick::JumpToLetter(letter),
            Some(GridHit::Scrollbar) => GridClick::StartDrag,
            None => GridClick::Nothing,
        },
{
    match hit {
        Some(GridHit::Header(col)) => GridClick::SortColumn(col),
        Some(GridHit::RowGutter(row)) => GridClick::SelectRow { row, toggle: ctrl },
        Some(GridHit::Cell { row, col }) => GridClick::FocusCell { row, col },
        Some(GridHit::AlphabetRail(letter)) => GridClick::JumpToLetter(letter),
        Some(GridHit::Scrollbar) => GridClick::StartDrag,
        None => GridClick::Nothing,
    }
}

} // verus!
