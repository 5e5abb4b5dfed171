//! The state machine of the interactive view: which tab is shown, which row of
//! each list is selected, and how keys and clicks change that. Drawing, the
//! terminal and the service are the caller's; the caller hands in what it
//! fetched and performs the action that a step returns.
use vstd::prelude::*;
use ratatui::layout::{Constraint, Layout};
use crate::cli::{add_field, fields, Field};
use crate::display::shown_debts;
use crate::models::{Debt, Expense, Friend, Group};
use crate::text::{decimal, to_owned, u64_to_string};

verus! {

// ───────────────────────── tabs ─────────────────────────

/// The tabs of the main view.
#[derive(Clone, Copy, Debug, PartialEq, Eq, Structural)]
pub enum Tab {
    Friends,
    Groups,
    Expenses,
}

/// The tabs of the view of one group.
#[derive(Clone, Copy, Debug, PartialEq, Eq, Structural)]
pub enum GroupTab {
    Members,
    Expenses,
    Debts,
}

pub open spec fn tab_index(t: Tab) -> nat {
    match t {
        Tab::Friends => 0,
        Tab::Groups => 1,
        Tab::Expenses => 2,
    }
}

/// The tab at a position of the tab bar.
pub open spec fn tab_at(i: nat) -> Tab {
    if i == 0 {
        Tab::Friends
    } else if i == 1 {
        Tab::Groups
    } else {
        Tab::Expenses
    }
}

pub open spec fn next_tab(t: Tab) -> Tab {
    match t {
        Tab::Friends => Tab::Groups,
        Tab::Groups => Tab::Expenses,
        Tab::Expenses => Tab::Friends,
    }
}

pub open spec fn prev_tab(t: Tab) -> Tab {
    match t {
        Tab::Friends => Tab::Expenses,
        Tab::Groups => Tab::Friends,
        Tab::Expenses => Tab::Groups,
    }
}

pub open spec fn group_tab_index(t: GroupTab) -> nat {
    match t {
        GroupTab::Members => 0,
        GroupTab::Expenses => 1,
        GroupTab::Debts => 2,
    }
}

pub open spec fn group_tab_at(i: nat) -> GroupTab {
    if i == 0 {
        GroupTab::Members
    } else if i == 1 {
        GroupTab::Expenses
    } else {
        GroupTab::Debts
    }
}

pub open spec fn next_group_tab(t: GroupTab) -> GroupTab {
    match t {
        GroupTab::Members => GroupTab::Expenses,
        GroupTab::Expenses => GroupTab::Debts,
        GroupTab::Debts => GroupTab::Members,
    }
}

pub open spec fn prev_group_tab(t: GroupTab) -> GroupTab {
    match t {
        GroupTab::Members => GroupTab::Debts,
        GroupTab::Expenses => GroupTab::Members,
        GroupTab::Debts => GroupTab::Expenses,
    }
}

impl Tab {
    /// The label of the tab.
    pub fn title(self) -> (r: &'static str)
        ensures
            r@ == match self {
                Tab::Friends => " Friends "@,
                Tab::Groups => " Groups "@,
                Tab::Expenses => " Expenses "@,
            },
    {
        match self {
            Tab::Friends => " Friends ",
            Tab::Groups => " Groups ",
            Tab::Expenses => " Expenses ",
        }
    }

    /// The position of the tab in the tab bar.
    pub fn index(self) -> (r: usize)
        ensures
            r == tab_index(self),
    {
        match self {
            Tab::Friends => 0,
            Tab::Groups => 1,
            Tab::Expenses => 2,
        }
    }

    /// The tab at a position of the tab bar.
    pub fn from_index(i: usize) -> (r: Tab)
        requires
            i < 3,
        ensures
            r == tab_at(i as nat),
    {
        if i == 0 {
            Tab::Friends
        } else if i == 1 {
            Tab::Groups
        } else {
            Tab::Expenses
        }
    }

    /// The tab to the right, wrapping around.
    pub fn next(self) -> (r: Tab)
        ensures
            r == next_tab(self),
    {
        match self {
            Tab::Friends => Tab::Groups,
            Tab::Groups => Tab::Expenses,
            Tab::Expenses => Tab::Friends,
        }
    }

    /// The tab to the left, wrapping around.
    pub fn prev(self) -> (r: Tab)
        ensures
            r == prev_tab(self),
    {
        match self {
            Tab::Friends => Tab::Expenses,
            Tab::Groups => Tab::Friends,
            Tab::Expenses => Tab::Groups,
        }
    }
}

impl GroupTab {
    /// The label of the tab.
    pub fn title(self) -> (r: &'static str)
        ensures
            r@ == match self {
                GroupTab::Members => " Members "@,
                GroupTab::Expenses => " Expenses "@,
                GroupTab::Debts => " Debts "@,
            },
    {
        match self {
            GroupTab::Members => " Members ",
            GroupTab::Expenses => " Expenses ",
            GroupTab::Debts => " Debts ",
        }
    }

    /// The position of the tab in the tab bar.
    pub fn index(self) -> (r: usize)
        ensures
            r == group_tab_index(self),
    {
        match self {
            GroupTab::Members => 0,
            GroupTab::Expenses => 1,
            GroupTab::Debts => 2,
        }
    }

    /// The tab at a position of the tab bar.
    pub fn from_index(i: usize) -> (r: GroupTab)
        requires
            i < 3,
        ensures
            r == group_tab_at(i as nat),
    {
        if i == 0 {
            GroupTab::Members
        } else if i == 1 {
            GroupTab::Expenses
        } else {
            GroupTab::Debts
        }
    }

    /// The tab to the right, wrapping around.
    pub fn next(self) -> (r: GroupTab)
        ensures
            r == next_group_tab(self),
    {
        match self {
            GroupTab::Members => GroupTab::Expenses,
            GroupTab::Expenses => GroupTab::Debts,
            GroupTab::Debts => GroupTab::Members,
        }
    }

    /// The tab to the left, wrapping around.
    pub fn prev(self) -> (r: GroupTab)
        ensures
            r == prev_group_tab(self),
    {
        match self {
            GroupTab::Members => GroupTab::Debts,
            GroupTab::Expenses => GroupTab::Members,
            GroupTab::Debts => GroupTab::Expenses,
        }
    }
}

// ───────────────────────── list selection ─────────────────────────

/// The selection of a list: the selected row, and the first row shown (which
/// drawing adjusts).
#[derive(Clone, Copy, Debug, PartialEq, Eq, Structural)]
pub struct ListSel {
    pub selected: Option<usize>,
    pub offset: usize,
}

/// `s` with `index` selected; selecting nothing also scrolls back to the top.
pub open spec fn select(s: ListSel, index: Option<usize>) -> ListSel {
    ListSel { selected: index, offset: if index is None { 0 } else { s.offset } }
}

/// The row below the selected one, wrapping around; the first when nothing is
/// selected.
pub open spec fn sel_down(s: ListSel, len: nat) -> ListSel {
    if len == 0 {
        s
    } else {
        select(
            s,
            Some(
                match s.selected {
                    Some(i) => ((i + 1) % (len as int)) as usize,
                    None => 0usize,
                },
            ),
        )
    }
}

/// The row above the selected one, wrapping around; the first when nothing is
/// selected.
pub open spec fn sel_up(s: ListSel, len: nat) -> ListSel {
    if len == 0 {
        s
    } else {
        select(
            s,
            Some(
                match s.selected {
                    Some(i) => if i == 0 {
                        (len - 1) as usize
                    } else {
                        (i - 1) as usize
                    },
                    None => 0usize,
                },
            ),
        )
    }
}

pub open spec fn sel_top(s: ListSel, len: nat) -> ListSel {
    if len == 0 {
        s
    } else {
        select(s, Some(0))
    }
}

pub open spec fn sel_bottom(s: ListSel, len: nat) -> ListSel {
    if len == 0 {
        s
    } else {
        select(s, Some((len - 1) as usize))
    }
}

/// The selection kept within a list of `len` rows that replaced the old one.
pub open spec fn sel_clamp(s: ListSel, len: nat) -> ListSel {
    if len == 0 {
        select(s, None)
    } else {
        match s.selected {
            None => select(s, Some(0)),
            Some(i) => if i >= len {
                select(s, Some((len - 1) as usize))
            } else {
                s
            },
        }
    }
}

/// The first row selected when the list is not empty, nothing otherwise.
pub open spec fn initial_sel(len: nat) -> ListSel {
    ListSel { selected: if len > 0 { Some(0) } else { None }, offset: 0 }
}

/// A selection fits a list of `len` rows: a row of it is selected, or the list
/// is empty and nothing is.
pub open spec fn sel_fits(s: ListSel, len: nat) -> bool {
    match s.selected {
        Some(i) => i < len,
        None => len == 0,
    }
}

impl ListSel {
    /// A selection of nothing, scrolled to the top.
    pub fn none() -> (r: ListSel)
        ensures
            r == (ListSel { selected: None, offset: 0 }),
    {
        ListSel { selected: None, offset: 0 }
    }

    /// The first row selected when the list is not empty.
    pub fn initial(len: usize) -> (r: ListSel)
        ensures
            r == initial_sel(len as nat),
    {
        ListSel { selected: if len > 0 { Some(0) } else { None }, offset: 0 }
    }

    /// Selects a row, or nothing (which also scrolls back to the top).
    pub fn select(&mut self, index: Option<usize>)
        ensures
            *final(self) == select(*old(self), index),
    {
        self.selected = index;
        if index.is_none() {
            self.offset = 0;
        }
    }

    pub fn move_down(&mut self, len: usize)
        ensures
            *final(self) == sel_down(*old(self), len as nat),
    {
        if len == 0 {
            return ;
        }
        let i = match self.selected {
            Some(i) => (i % len + 1) % len,
            None => 0,
        };
        proof {
            if let Some(j) = old(self).selected {
                assert((j % len + 1) % (len as int) == (j + 1) % (len as int)) by (nonlinear_arith)
                    requires
                        len > 0,
                ;
            }
        }
        self.select(Some(i));
    }

    pub fn move_up(&mut self, len: usize)
        ensures
            *final(self) == sel_up(*old(self), len as nat),
    {
        if len == 0 {
            return ;
        }
        let i = match self.selected {
            Some(i) => if i == 0 {
                len - 1
            } else {
                i - 1
            },
            None => 0,
        };
        self.select(Some(i));
    }

    pub fn jump_top(&mut self, len: usize)
        ensures
            *final(self) == sel_top(*old(self), len as nat),
    {
        if len > 0 {
            self.select(Some(0));
        }
    }

    pub fn jump_bottom(&mut self, len: usize)
        ensures
            *final(self) == sel_bottom(*old(self), len as nat),
    {
        if len > 0 {
            self.select(Some(len - 1));
        }
    }
}

/// Keeps a selection within a list of `len` rows that replaced the old one.
pub fn clamp_selection(state: &mut ListSel, len: usize)
    ensures
        *final(state) == sel_clamp(*old(state), len as nat),
{
    if len == 0 {
        state.select(None);
    } else if state.selected.is_none() {
        state.select(Some(0));
    } else if let Some(i) = state.selected {
        if i >= len {
            state.select(Some(len - 1));
        }
    }
}

// ───────────────────────── hit tests ─────────────────────────

/// A screen area, in terminal cells.
#[derive(Clone, Copy, Debug, PartialEq, Eq, Structural)]
pub struct Rect {
    pub x: u16,
    pub y: u16,
    pub width: u16,
    pub height: u16,
}

/// The areas drawn last, for telling where a click fell.
#[derive(Clone, Copy, Debug, PartialEq, Eq, Structural)]
pub struct Areas {
    pub tab_bar: Rect,
    pub list: Rect,
    pub gv_sub_tabs: Rect,
    pub gv_list: Rect,
}

// ───────────────────────── screen layout ─────────────────────────

/// How much of its side a part of a screen layout takes.
#[derive(Clone, Copy, Debug, PartialEq, Eq, Structural)]
pub enum Size {
    /// Exactly this many cells.
    Length(u16),
    /// At least this many cells.
    Min(u16),
    /// This percentage of the side.
    Percentage(u16),
}

/// Whether `parts` is one of the layouts that ratatui's solver may give when
/// it splits `area` by `sizes`, top to bottom when `vertical`, else left to
/// right. The solver's choice among equally good layouts can differ between
/// runs: this is the set of results it may give, not one result.
pub uninterp spec fn solver_layout(vertical: bool, area: Rect, sizes: Seq<Size>, parts: Seq<Rect>) -> bool;

/// `inner` lies within `outer`.
pub open spec fn within(inner: Rect, outer: Rect) -> bool {
    &&& outer.x <= inner.x
    &&& inner.x + inner.width <= outer.x + outer.width
    &&& outer.y <= inner.y
    &&& inner.y + inner.height <= outer.y + outer.height
}

/// `ratatui::layout::Layout::split`, trusted. What it gives is one of the
/// solver's layouts for these arguments, with one part for each size (its
/// source makes one segment per constraint). Every part lies within the area:
/// the solver holds each boundary between the area's ends as a required
/// constraint, and a top-to-bottom split copies the area's `x` and `width`
/// into each part, a left-to-right split its `y` and `height`. Where each part
/// starts and how long it is, and even whether the parts overlap (the gaps
/// between parts are not required to be empty), is left to the solver and not
/// stated.
#[verifier::external_body]
fn split_area(vertical: bool, area: Rect, sizes: &Vec<Size>) -> (r: Vec<Rect>)
    ensures
        solver_layout(vertical, area, sizes@, r@),
        r@.len() == sizes@.len(),
        forall|i: int|
            #![trigger r@[i]]
            0 <= i < r@.len() ==> within(r@[i], area) && if vertical {
                r@[i].x == area.x && r@[i].width == area.width
            } else {
                r@[i].y == area.y && r@[i].height == area.height
            },
{
    let mut cs: Vec<Constraint> = Vec::new();
    for s in sizes.iter() {
        cs.push(match *s {
            Size::Length(n) => Constraint::Length(n),
            Size::Min(n) => Constraint::Min(n),
            Size::Percentage(n) => Constraint::Percentage(n),
        });
    }
    let layout = if vertical { Layout::vertical(cs) } else { Layout::horizontal(cs) };
    let whole = ratatui::layout::Rect { x: area.x, y: area.y, width: area.width, height: area.height };
    layout.split(whole).iter().map(|a| Rect { x: a.x, y: a.y, width: a.width, height: a.height }).collect()
}

/// The sizes of the rows of the main view: the tab bar (three rows), the
/// middle, the status line (one row).
pub open spec fn main_rows() -> Seq<Size> {
    seq![Size::Length(3), Size::Min(0), Size::Length(1)]
}

/// The sizes of the columns of the main view's middle: the list (38%) and the
/// detail pane (62%).
pub open spec fn main_cols() -> Seq<Size> {
    seq![Size::Percentage(38), Size::Percentage(62)]
}

/// The sizes of the rows of a group's view: the header and the tab bar
/// (three rows each), the middle, the status line (one row).
pub open spec fn group_rows() -> Seq<Size> {
    seq![Size::Length(3), Size::Length(3), Size::Min(0), Size::Length(1)]
}

/// The sizes of the columns of a group view's middle: the list (42%) and the
/// detail pane (58%).
pub open spec fn group_cols() -> Seq<Size> {
    seq![Size::Percentage(42), Size::Percentage(58)]
}

/// `r` is (tab bar, list, detail pane, status line) of a layout the solver
/// may give for the main view in `frame`: the frame split into `main_rows`,
/// and the middle row into `main_cols`.
pub open spec fn main_areas(frame: Rect, r: (Rect, Rect, Rect, Rect)) -> bool {
    exists|rows: Seq<Rect>, cols: Seq<Rect>|
        #![trigger solver_layout(true, frame, main_rows(), rows), solver_layout(false, rows[1], main_cols(), cols)]
        {
            &&& rows.len() == 3
            &&& cols.len() == 2
            &&& solver_layout(true, frame, main_rows(), rows)
            &&& solver_layout(false, rows[1], main_cols(), cols)
            &&& r == (rows[0], cols[0], cols[1], rows[2])
        }
}

/// `r` is (header, tab bar, list, detail pane, status line) of a layout the
/// solver may give for a group's view in `frame`: the frame split into
/// `group_rows`, and the middle row into `group_cols`.
pub open spec fn group_areas(frame: Rect, r: (Rect, Rect, Rect, Rect, Rect)) -> bool {
    exists|rows: Seq<Rect>, cols: Seq<Rect>|
        #![trigger solver_layout(true, frame, group_rows(), rows), solver_layout(false, rows[2], group_cols(), cols)]
        {
            &&& rows.len() == 4
            &&& cols.len() == 2
            &&& solver_layout(true, frame, group_rows(), rows)
            &&& solver_layout(false, rows[2], group_cols(), cols)
            &&& r == (rows[0], rows[1], cols[0], cols[1], rows[3])
        }
}

/// The areas of the main view: tab bar, list, detail pane, status line. All
/// lie within the frame; the tab bar and the status line span its width, and
/// the list and the detail pane share their rows.
pub fn main_layout(frame: Rect) -> (r: (Rect, Rect, Rect, Rect))
    ensures
        main_areas(frame, r),
        within(r.0, frame) && within(r.1, frame) && within(r.2, frame) && within(r.3, frame),
        r.0.x == frame.x && r.0.width == frame.width,
        r.3.x == frame.x && r.3.width == frame.width,
        r.1.y == r.2.y && r.1.height == r.2.height,
{
    let row_sizes = vec![Size::Length(3), Size::Min(0), Size::Length(1)];
    assert(row_sizes@ =~= main_rows());
    let rows = split_area(true, frame, &row_sizes);
    let col_sizes = vec![Size::Percentage(38), Size::Percentage(62)];
    assert(col_sizes@ =~= main_cols());
    let cols = split_area(false, rows[1], &col_sizes);
    assert(within(rows@[0], frame) && within(rows@[1], frame) && within(rows@[2], frame));
    assert(within(cols@[0], rows@[1]) && within(cols@[1], rows@[1]));
    (rows[0], cols[0], cols[1], rows[2])
}

/// The areas of the view of a group: header, tab bar, list, detail pane,
/// status line. All lie within the frame; the header, the tab bar and the
/// status line span its width, and the list and the detail pane share their
/// rows.
pub fn group_layout(frame: Rect) -> (r: (Rect, Rect, Rect, Rect, Rect))
    ensures
        group_areas(frame, r),
        within(r.0, frame) && within(r.1, frame) && within(r.2, frame) && within(r.3, frame)
            && within(r.4, frame),
        r.0.x == frame.x && r.0.width == frame.width,
        r.1.x == frame.x && r.1.width == frame.width,
        r.4.x == frame.x && r.4.width == frame.width,
        r.2.y == r.3.y && r.2.height == r.3.height,
{
    let row_sizes = vec![Size::Length(3), Size::Length(3), Size::Min(0), Size::Length(1)];
    assert(row_sizes@ =~= group_rows());
    let rows = split_area(true, frame, &row_sizes);
    let col_sizes = vec![Size::Percentage(42), Size::Percentage(58)];
    assert(col_sizes@ =~= group_cols());
    let cols = split_area(false, rows[2], &col_sizes);
    assert(within(rows@[0], frame) && within(rows@[1], frame) && within(rows@[2], frame)
        && within(rows@[3], frame));
    assert(within(cols@[0], rows@[2]) && within(cols@[1], rows@[2]));
    (rows[0], rows[1], cols[0], cols[1], rows[3])
}

/// `n - 1`, or 0 for 0.
pub open spec fn less_one(n: u16) -> int {
    if n >= 1 {
        n - 1
    } else {
        0
    }
}

/// Whether the tab-bar hit test can be computed without overflow.
pub open spec fn tab_hit_defined(a: Rect, col: u16, row: u16, count: usize) -> bool {
    a.width == 0 || count == 0 || (a.y + 1 <= u16::MAX && (row < a.y + 1 || (a.y + less_one(
        a.height,
    ) <= u16::MAX && (row >= a.y + less_one(a.height) || col <= a.x || (a.x + less_one(a.width)
        <= u16::MAX && (col >= a.x + less_one(a.width) || (col - a.x - 1) * count
        <= usize::MAX))))))
}

/// The tab under a cell of a tab bar drawn in `a` with `count` tabs of equal
/// width inside its border, if any.
pub open spec fn tab_hit_at(a: Rect, col: u16, row: u16, count: usize) -> Option<usize> {
    if a.width == 0 || count == 0 {
        None
    } else if row < a.y + 1 || row >= a.y + less_one(a.height) {
        None
    } else if col <= a.x || col >= a.x + less_one(a.width) {
        None
    } else {
        let inner = if a.width >= 2 {
            a.width - 2
        } else {
            0
        };
        let idx = (col - a.x - 1) * count / inner;
        if idx < count {
            Some(idx as usize)
        } else {
            None
        }
    }
}

/// Whether the list hit test can be computed without overflow.
pub open spec fn list_hit_defined(a: Rect, col: u16, row: u16) -> bool {
    col <= a.x || (a.x + less_one(a.width) <= u16::MAX && (col >= a.x + less_one(a.width) || row
        <= a.y || a.y + less_one(a.height) <= u16::MAX))
}

/// The row (counted from the top of the list's inside) under a cell of a list
/// drawn in `a` inside a border, if any.
pub open spec fn list_hit_at(a: Rect, col: u16, row: u16) -> Option<usize> {
    if col <= a.x || col >= a.x + less_one(a.width) {
        None
    } else if row <= a.y || row >= a.y + less_one(a.height) {
        None
    } else {
        Some((row - a.y - 1) as usize)
    }
}

/// The tab under a cell of a tab bar, if any.
pub fn tab_hit(area: Rect, col: u16, row: u16, count: usize) -> (r: Option<usize>)
    requires
        tab_hit_defined(area, col, row, count),
    ensures
        r == tab_hit_at(area, col, row, count),
{
    if area.width == 0 || count == 0 {
        return None;
    }
    if row < area.y + 1 || row >= area.y + area.height.saturating_sub(1) {
        return None;
    }
    if col <= area.x || col >= area.x + area.width.saturating_sub(1) {
        return None;
    }
    let inner_w = area.width.saturating_sub(2) as usize;
    let x_in = (col - area.x - 1) as usize;
    assert(inner_w > 0);
    let idx = x_in * count / inner_w;
    if idx < count {
        Some(idx)
    } else {
        None
    }
}

/// The row under a cell of a list, if any.
pub fn list_hit(area: Rect, col: u16, row: u16) -> (r: Option<usize>)
    requires
        list_hit_defined(area, col, row),
    ensures
        r == list_hit_at(area, col, row),
{
    if col <= area.x || col >= area.x + area.width.saturating_sub(1) {
        return None;
    }
    if row <= area.y || row >= area.y + area.height.saturating_sub(1) {
        return None;
    }
    Some((row - area.y - 1) as usize)
}

/// Whether the hit tests can be computed for a cell, checked before a click is
/// handled.
pub fn tab_hit_ok(area: Rect, col: u16, row: u16, count: usize) -> (r: bool)
    ensures
        r == tab_hit_defined(area, col, row, count),
{
    if area.width == 0 || count == 0 {
        return true;
    }
    if area.y == u16::MAX {
        return false;
    }
    if row < area.y + 1 {
        return true;
    }
    let h = area.height.saturating_sub(1);
    if area.y as u32 + h as u32 > u16::MAX as u32 {
        return false;
    }
    if row >= area.y + h || col <= area.x {
        return true;
    }
    let w = area.width.saturating_sub(1);
    if area.x as u32 + w as u32 > u16::MAX as u32 {
        return false;
    }
    if col >= area.x + w {
        return true;
    }
    let x_in = (col - area.x - 1) as usize;
    x_in.checked_mul(count).is_some()
}

/// Whether the list hit test can be computed for a cell.
pub fn list_hit_ok(area: Rect, col: u16, row: u16) -> (r: bool)
    ensures
        r == list_hit_defined(area, col, row),
{
    if col <= area.x {
        return true;
    }
    let w = area.width.saturating_sub(1);
    if area.x as u32 + w as u32 > u16::MAX as u32 {
        return false;
    }
    if col >= area.x + w || row <= area.y {
        return true;
    }
    let h = area.height.saturating_sub(1);
    area.y as u32 + h as u32 <= u16::MAX as u32
}

// ───────────────────────── the view of a group ─────────────────────────

/// The view of one group, with its members, expenses and debts.
#[derive(Debug)]
pub struct GroupView {
    pub group: Group,
    pub expenses: Vec<Expense>,
    pub tab: GroupTab,
    pub member_state: ListSel,
    pub expense_state: ListSel,
    pub debt_idx: usize,
}

pub open spec fn new_group_view(group: Group, expenses: Vec<Expense>) -> GroupView {
    GroupView {
        group,
        expenses,
        tab: GroupTab::Members,
        member_state: initial_sel(group.members@.len()),
        expense_state: initial_sel(expenses@.len()),
        debt_idx: 0,
    }
}

/// The number of rows of the list that the view shows.
pub open spec fn gv_len(gv: GroupView) -> nat {
    match gv.tab {
        GroupTab::Members => gv.group.members@.len(),
        GroupTab::Expenses => gv.expenses@.len(),
        GroupTab::Debts => shown_debts(gv.group).len(),
    }
}

pub open spec fn gv_down(gv: GroupView) -> GroupView {
    let len = gv_len(gv);
    if len == 0 {
        gv
    } else {
        match gv.tab {
            GroupTab::Members => GroupView { member_state: sel_down(gv.member_state, len), ..gv },
            GroupTab::Expenses => GroupView { expense_state: sel_down(gv.expense_state, len), ..gv },
            GroupTab::Debts => GroupView {
                debt_idx: ((gv.debt_idx + 1) % (len as int)) as usize,
                ..gv
            },
        }
    }
}

pub open spec fn gv_up(gv: GroupView) -> GroupView {
    let len = gv_len(gv);
    if len == 0 {
        gv
    } else {
        match gv.tab {
            GroupTab::Members => GroupView { member_state: sel_up(gv.member_state, len), ..gv },
            GroupTab::Expenses => GroupView { expense_state: sel_up(gv.expense_state, len), ..gv },
            GroupTab::Debts => GroupView {
                debt_idx: if gv.debt_idx == 0 {
                    (len - 1) as usize
                } else {
                    (gv.debt_idx - 1) as usize
                },
                ..gv
            },
        }
    }
}

pub open spec fn gv_top(gv: GroupView) -> GroupView {
    let len = gv_len(gv);
    if len == 0 {
        gv
    } else {
        match gv.tab {
            GroupTab::Members => GroupView { member_state: select(gv.member_state, Some(0)), ..gv },
            GroupTab::Expenses => GroupView {
                expense_state: select(gv.expense_state, Some(0)),
                ..gv
            },
            GroupTab::Debts => GroupView { debt_idx: 0, ..gv },
        }
    }
}

pub open spec fn gv_bottom(gv: GroupView) -> GroupView {
    let len = gv_len(gv);
    if len == 0 {
        gv
    } else {
        match gv.tab {
            GroupTab::Members => GroupView {
                member_state: select(gv.member_state, Some((len - 1) as usize)),
                ..gv
            },
            GroupTab::Expenses => GroupView {
                expense_state: select(gv.expense_state, Some((len - 1) as usize)),
                ..gv
            },
            GroupTab::Debts => GroupView { debt_idx: (len - 1) as usize, ..gv },
        }
    }
}

/// The selections of a group view fit its lists.
pub open spec fn gv_wf(gv: GroupView) -> bool {
    &&& sel_fits(gv.member_state, gv.group.members@.len())
    &&& sel_fits(gv.expense_state, gv.expenses@.len())
    &&& (shown_debts(gv.group).len() == 0 || gv.debt_idx < shown_debts(gv.group).len())
}

impl GroupView {
    /// The view of a group, on its members, with the first row of each list
    /// selected.
    pub fn new(group: Group, expenses: Vec<Expense>) -> (r: GroupView)
        ensures
            r == new_group_view(group, expenses),
    {
        let member_state = ListSel::initial(group.members.len());
        let expense_state = ListSel::initial(expenses.len());
        GroupView {
            group,
            expenses,
            tab: GroupTab::Members,
            member_state,
            expense_state,
            debt_idx: 0,
        }
    }

    /// The debts shown: the simplified ones when there are any.
    pub fn debts(&self) -> (r: &Vec<Debt>)
        ensures
            r@ == shown_debts(self.group),
    {
        crate::display::group_debts(&self.group)
    }

    /// The number of rows of the list shown.
    pub fn list_len(&self) -> (r: usize)
        ensures
            r == gv_len(*self),
    {
        match self.tab {
            GroupTab::Members => self.group.members.len(),
            GroupTab::Expenses => self.expenses.len(),
            GroupTab::Debts => self.debts().len(),
        }
    }

    pub fn move_down(&mut self)
        ensures
            *final(self) == gv_down(*old(self)),
    {
        let len = self.list_len();
        if len == 0 {
            return ;
        }
        match self.tab {
            GroupTab::Members => self.member_state.move_down(len),
            GroupTab::Expenses => self.expense_state.move_down(len),
            GroupTab::Debts => {
                self.debt_idx = (self.debt_idx % len + 1) % len;
                proof {
                    let d = old(self).debt_idx;
                    assert((d % len + 1) % (len as int) == (d + 1) % (len as int)) by (nonlinear_arith)
                        requires
                            len > 0,
                    ;
                }
            },
        }
    }

    pub fn move_up(&mut self)
        ensures
            *final(self) == gv_up(*old(self)),
    {
        let len = self.list_len();
        if len == 0 {
            return ;
        }
        match self.tab {
            GroupTab::Members => self.member_state.move_up(len),
            GroupTab::Expenses => self.expense_state.move_up(len),
            GroupTab::Debts => {
                self.debt_idx = if self.debt_idx == 0 {
                    len - 1
                } else {
                    self.debt_idx - 1
                };
            },
        }
    }

    pub fn jump_top(&mut self)
        ensures
            *final(self) == gv_top(*old(self)),
    {
        if self.list_len() == 0 {
            return ;
        }
        match self.tab {
            GroupTab::Members => self.member_state.select(Some(0)),
            GroupTab::Expenses => self.expense_state.select(Some(0)),
            GroupTab::Debts => self.debt_idx = 0,
        }
    }

    pub fn jump_bottom(&mut self)
        ensures
            *final(self) == gv_bottom(*old(self)),
    {
        let len = self.list_len();
        if len == 0 {
            return ;
        }
        match self.tab {
            GroupTab::Members => self.member_state.select(Some(len - 1)),
            GroupTab::Expenses => self.expense_state.select(Some(len - 1)),
            GroupTab::Debts => self.debt_idx = len - 1,
        }
    }
}

// ───────────────────────── the main view ─────────────────────────

/// The state of the interactive view.
#[derive(Debug)]
pub struct App {
    pub tab: Tab,
    pub friends: Vec<Friend>,
    pub groups: Vec<Group>,
    pub expenses: Vec<Expense>,
    pub friend_state: ListSel,
    pub group_state: ListSel,
    pub expense_state: ListSel,
    pub group_view: Option<GroupView>,
    pub areas: Areas,
    pub should_quit: bool,
}

/// A key press, as the view distinguishes keys.
#[derive(Clone, Copy, Debug, PartialEq, Eq, Structural)]
pub enum Key {
    Char(char),
    Enter,
    Esc,
    Backspace,
    Tab,
    BackTab,
    Up,
    Down,
    Home,
    End,
    Other,
}

/// A mouse event, as the view distinguishes them.
#[derive(Clone, Copy, Debug, PartialEq, Eq, Structural)]
pub enum Mouse {
    LeftDown { column: u16, row: u16 },
    ScrollUp,
    ScrollDown,
    Other,
}

/// What the caller does after a step.
#[derive(Clone, Copy, Debug, PartialEq, Eq, Structural)]
pub enum Action {
    Nothing,
    /// Fetch again what `App::refresh_target` names and hand it in.
    Refresh,
    /// Fetch the group at this index of the group list (and its expenses) and
    /// hand them to `App::open_group`.
    EnterGroup(usize),
}

/// What a refresh fetches.
#[derive(Clone, Copy, Debug, PartialEq, Eq, Structural)]
pub enum RefreshTarget {
    Group(u64),
    Friends,
    Groups,
    Expenses,
}

pub open spec fn no_areas() -> Areas {
    let z = Rect { x: 0, y: 0, width: 0, height: 0 };
    Areas { tab_bar: z, list: z, gv_sub_tabs: z, gv_list: z }
}

pub open spec fn new_app(friends: Vec<Friend>, groups: Vec<Group>, expenses: Vec<Expense>) -> App {
    App {
        tab: Tab::Friends,
        friends,
        groups,
        expenses,
        friend_state: initial_sel(friends@.len()),
        group_state: initial_sel(groups@.len()),
        expense_state: initial_sel(expenses@.len()),
        group_view: None,
        areas: no_areas(),
        should_quit: false,
    }
}

/// The number of rows of the list that the main view shows.
pub open spec fn app_len(a: App) -> nat {
    match a.tab {
        Tab::Friends => a.friends@.len(),
        Tab::Groups => a.groups@.len(),
        Tab::Expenses => a.expenses@.len(),
    }
}

/// The selection of the list that the main view shows.
pub open spec fn app_sel(a: App) -> ListSel {
    match a.tab {
        Tab::Friends => a.friend_state,
        Tab::Groups => a.group_state,
        Tab::Expenses => a.expense_state,
    }
}

/// `a` with the selection of the list shown replaced.
pub open spec fn with_sel(a: App, s: ListSel) -> App {
    match a.tab {
        Tab::Friends => App { friend_state: s, ..a },
        Tab::Groups => App { group_state: s, ..a },
        Tab::Expenses => App { expense_state: s, ..a },
    }
}

pub open spec fn app_down(a: App) -> App {
    with_sel(a, sel_down(app_sel(a), app_len(a)))
}

pub open spec fn app_up(a: App) -> App {
    with_sel(a, sel_up(app_sel(a), app_len(a)))
}

pub open spec fn app_top(a: App) -> App {
    with_sel(a, sel_top(app_sel(a), app_len(a)))
}

pub open spec fn app_bottom(a: App) -> App {
    with_sel(a, sel_bottom(app_sel(a), app_len(a)))
}

/// The group that opening the selection would show: the selected row of the
/// group list, when that tab is shown and no group is open.
pub open spec fn group_to_open(a: App) -> Option<usize> {
    if a.tab == Tab::Groups && a.group_view is None {
        match a.group_state.selected {
            Some(i) => if i < a.groups@.len() {
                Some(i)
            } else {
                None
            },
            None => None,
        }
    } else {
        None
    }
}

/// The action of asking to open the selected group.
pub open spec fn enter_action(a: App) -> Action {
    match group_to_open(a) {
        Some(i) => Action::EnterGroup(i),
        None => Action::Nothing,
    }
}

pub open spec fn with_gv(a: App, gv: GroupView) -> App {
    App { group_view: Some(gv), ..a }
}

/// The step of a key press while a group is open.
pub open spec fn group_key_step(a: App, gv: GroupView, k: Key) -> (App, Action) {
    if k == Key::Esc || k == Key::Backspace {
        (App { group_view: None, ..a }, Action::Nothing)
    } else if k == Key::Char('q') {
        (App { should_quit: true, ..a }, Action::Nothing)
    } else if k == Key::Tab {
        (with_gv(a, GroupView { tab: next_group_tab(gv.tab), ..gv }), Action::Nothing)
    } else if k == Key::BackTab {
        (with_gv(a, GroupView { tab: prev_group_tab(gv.tab), ..gv }), Action::Nothing)
    } else if k == Key::Char('1') {
        (with_gv(a, GroupView { tab: GroupTab::Members, ..gv }), Action::Nothing)
    } else if k == Key::Char('2') {
        (with_gv(a, GroupView { tab: GroupTab::Expenses, ..gv }), Action::Nothing)
    } else if k == Key::Char('3') {
        (with_gv(a, GroupView { tab: GroupTab::Debts, ..gv }), Action::Nothing)
    } else if k == Key::Down || k == Key::Char('j') {
        (with_gv(a, gv_down(gv)), Action::Nothing)
    } else if k == Key::Up || k == Key::Char('k') {
        (with_gv(a, gv_up(gv)), Action::Nothing)
    } else if k == Key::Char('g') || k == Key::Home {
        (with_gv(a, gv_top(gv)), Action::Nothing)
    } else if k == Key::Char('G') || k == Key::End {
        (with_gv(a, gv_bottom(gv)), Action::Nothing)
    } else if k == Key::Char('r') {
        (a, Action::Refresh)
    } else {
        (a, Action::Nothing)
    }
}

/// The step of a key press in the main view.
pub open spec fn main_key_step(a: App, k: Key) -> (App, Action) {
    if k == Key::Char('q') || k == Key::Esc {
        (App { should_quit: true, ..a }, Action::Nothing)
    } else if k == Key::Enter {
        (a, enter_action(a))
    } else if k == Key::Tab {
        (App { tab: next_tab(a.tab), ..a }, Action::Nothing)
    } else if k == Key::BackTab {
        (App { tab: prev_tab(a.tab), ..a }, Action::Nothing)
    } else if k == Key::Char('1') {
        (App { tab: Tab::Friends, ..a }, Action::Nothing)
    } else if k == Key::Char('2') {
        (App { tab: Tab::Groups, ..a }, Action::Nothing)
    } else if k == Key::Char('3') {
        (App { tab: Tab::Expenses, ..a }, Action::Nothing)
    } else if k == Key::Down || k == Key::Char('j') {
        (app_down(a), Action::Nothing)
    } else if k == Key::Up || k == Key::Char('k') {
        (app_up(a), Action::Nothing)
    } else if k == Key::Char('g') || k == Key::Home {
        (app_top(a), Action::Nothing)
    } else if k == Key::Char('G') || k == Key::End {
        (app_bottom(a), Action::Nothing)
    } else if k == Key::Char('r') {
        (a, Action::Refresh)
    } else {
        (a, Action::Nothing)
    }
}

/// The step of a key press.
pub open spec fn key_step(a: App, k: Key) -> (App, Action) {
    match a.group_view {
        Some(gv) => group_key_step(a, gv, k),
        None => main_key_step(a, k),
    }
}

/// A list row clicked at `clicked` rows below the top of what is shown.
pub open spec fn clicked_row(s: ListSel, clicked: usize) -> int {
    clicked + s.offset
}

/// The step of a left click while a group is open.
pub open spec fn group_click_step(a: App, gv: GroupView, col: u16, row: u16) -> App {
    match tab_hit_at(a.areas.gv_sub_tabs, col, row, 3) {
        Some(i) => with_gv(a, GroupView { tab: group_tab_at(i as nat), ..gv }),
        None => match list_hit_at(a.areas.gv_list, col, row) {
            Some(clicked) => match gv.tab {
                GroupTab::Members => if clicked_row(gv.member_state, clicked)
                    < gv.group.members@.len() {
                    with_gv(
                        a,
                        GroupView {
                            member_state: select(
                                gv.member_state,
                                Some(clicked_row(gv.member_state, clicked) as usize),
                            ),
                            ..gv
                        },
                    )
                } else {
                    a
                },
                GroupTab::Expenses => if clicked_row(gv.expense_state, clicked)
                    < gv.expenses@.len() {
                    with_gv(
                        a,
                        GroupView {
                            expense_state: select(
                                gv.expense_state,
                                Some(clicked_row(gv.expense_state, clicked) as usize),
                            ),
                            ..gv
                        },
                    )
                } else {
                    a
                },
                GroupTab::Debts => {
                    let len = shown_debts(gv.group).len();
                    with_gv(
                        a,
                        GroupView {
                            debt_idx: if clicked < len {
                                clicked
                            } else if len >= 1 {
                                (len - 1) as usize
                            } else {
                                0
                            },
                            ..gv
                        },
                    )
                },
            },
            None => a,
        },
    }
}

/// The step of a left click in the main view: a tab of the tab bar, or a row
/// of the list; clicking the selected group opens it.
pub open spec fn main_click_step(a: App, col: u16, row: u16) -> (App, Action) {
    match tab_hit_at(a.areas.tab_bar, col, row, 3) {
        Some(i) => (App { tab: tab_at(i as nat), ..a }, Action::Nothing),
        None => match list_hit_at(a.areas.list, col, row) {
            Some(clicked) => {
                let s = app_sel(a);
                let idx = clicked_row(s, clicked);
                if idx < app_len(a) {
                    if a.tab == Tab::Groups && s.selected == Some(idx as usize) {
                        (a, enter_action(a))
                    } else {
                        (with_sel(a, select(s, Some(idx as usize))), Action::Nothing)
                    }
                } else {
                    (a, Action::Nothing)
                }
            },
            None => (a, Action::Nothing),
        },
    }
}

/// The step of a mouse event.
pub open spec fn mouse_step(a: App, m: Mouse) -> (App, Action) {
    match m {
        Mouse::LeftDown { column, row } => match a.group_view {
            Some(gv) => (group_click_step(a, gv, column, row), Action::Nothing),
            None => main_click_step(a, column, row),
        },
        Mouse::ScrollUp => match a.group_view {
            Some(gv) => (with_gv(a, gv_up(gv)), Action::Nothing),
            None => (app_up(a), Action::Nothing),
        },
        Mouse::ScrollDown => match a.group_view {
            Some(gv) => (with_gv(a, gv_down(gv)), Action::Nothing),
            None => (app_down(a), Action::Nothing),
        },
        Mouse::Other => (a, Action::Nothing),
    }
}

/// Whether a mouse event can be handled without overflow: the hit tests it
/// makes are defined.
pub open spec fn mouse_defined(a: App, m: Mouse) -> bool {
    match m {
        Mouse::LeftDown { column, row } => match a.group_view {
            Some(gv) => tab_hit_defined(a.areas.gv_sub_tabs, column, row, 3) && (tab_hit_at(
                a.areas.gv_sub_tabs,
                column,
                row,
                3,
            ) is None ==> list_hit_defined(a.areas.gv_list, column, row)),
            None => tab_hit_defined(a.areas.tab_bar, column, row, 3) && (tab_hit_at(
                a.areas.tab_bar,
                column,
                row,
                3,
            ) is None ==> list_hit_defined(a.areas.list, column, row)),
        },
        _ => true,
    }
}

/// The selections of the view fit its lists.
pub open spec fn app_wf(a: App) -> bool {
    &&& sel_fits(a.friend_state, a.friends@.len())
    &&& sel_fits(a.group_state, a.groups@.len())
    &&& sel_fits(a.expense_state, a.expenses@.len())
    &&& match a.group_view {
        Some(gv) => gv_wf(gv),
        None => true,
    }
}

impl App {
    /// The view after loading, on the friends tab, with the first row of each
    /// list selected.
    pub fn new(friends: Vec<Friend>, groups: Vec<Group>, expenses: Vec<Expense>) -> (r: App)
        ensures
            r == new_app(friends, groups, expenses),
    {
        let z = Rect { x: 0, y: 0, width: 0, height: 0 };
        let friend_state = ListSel::initial(friends.len());
        let group_state = ListSel::initial(groups.len());
        let expense_state = ListSel::initial(expenses.len());
        App {
            tab: Tab::Friends,
            friends,
            groups,
            expenses,
            friend_state,
            group_state,
            expense_state,
            group_view: None,
            areas: Areas { tab_bar: z, list: z, gv_sub_tabs: z, gv_list: z },
            should_quit: false,
        }
    }

    /// The number of rows of the list shown.
    pub fn list_len(&self) -> (r: usize)
        ensures
            r == app_len(*self),
    {
        match self.tab {
            Tab::Friends => self.friends.len(),
            Tab::Groups => self.groups.len(),
            Tab::Expenses => self.expenses.len(),
        }
    }

    /// The selected row of the list shown.
    pub fn selected(&self) -> (r: Option<usize>)
        ensures
            r == app_sel(*self).selected,
    {
        match self.tab {
            Tab::Friends => self.friend_state.selected,
            Tab::Groups => self.group_state.selected,
            Tab::Expenses => self.expense_state.selected,
        }
    }

    fn state_mut(&mut self) -> (r: &mut ListSel)
        ensures
            *r == app_sel(*old(self)),
            *final(self) == with_sel(*old(self), *final(r)),
    {
        match self.tab {
            Tab::Friends => &mut self.friend_state,
            Tab::Groups => &mut self.group_state,
            Tab::Expenses => &mut self.expense_state,
        }
    }

    pub fn move_down(&mut self)
        ensures
            *final(self) == app_down(*old(self)),
    {
        let len = self.list_len();
        if len == 0 {
            return ;
        }
        self.state_mut().move_down(len);
    }

    pub fn move_up(&mut self)
        ensures
            *final(self) == app_up(*old(self)),
    {
        let len = self.list_len();
        if len == 0 {
            return ;
        }
        self.state_mut().move_up(len);
    }

    pub fn jump_top(&mut self)
        ensures
            *final(self) == app_top(*old(self)),
    {
        let len = self.list_len();
        self.state_mut().jump_top(len);
    }

    pub fn jump_bottom(&mut self)
        ensures
            *final(self) == app_bottom(*old(self)),
    {
        let len = self.list_len();
        self.state_mut().jump_bottom(len);
    }

    /// The group that opening the selection would show, if any.
    pub fn group_to_open(&self) -> (r: Option<usize>)
        ensures
            r == group_to_open(*self),
    {
        if self.tab != Tab::Groups || self.group_view.is_some() {
            return None;
        }
        match self.group_state.selected {
            Some(i) => if i < self.groups.len() {
                Some(i)
            } else {
                None
            },
            None => None,
        }
    }

    fn enter_action(&self) -> (r: Action)
        ensures
            r == enter_action(*self),
    {
        match self.group_to_open() {
            Some(i) => Action::EnterGroup(i),
            None => Action::Nothing,
        }
    }

    /// Opens a group: the one fetched, or, when fetching failed, the copy
    /// from the group list.
    pub fn open_group(&mut self, fetched: Option<Group>, listed: Group, expenses: Vec<Expense>)
        ensures
            *final(self) == (App {
                group_view: Some(
                    new_group_view(
                        match fetched {
                            Some(g) => g,
                            None => listed,
                        },
                        expenses,
                    ),
                ),
                ..*old(self)
            }),
    {
        let group = match fetched {
            Some(g) => g,
            None => listed,
        };
        self.group_view = Some(GroupView::new(group, expenses));
    }

    /// Closes the group view.
    pub fn exit_group(&mut self)
        ensures
            *final(self) == (App { group_view: None, ..*old(self) }),
    {
        self.group_view = None;
    }

    /// What a refresh fetches: the open group, or the list shown.
    pub fn refresh_target(&self) -> (r: RefreshTarget)
        ensures
            r == match self.group_view {
                Some(gv) => RefreshTarget::Group(gv.group.id),
                None => match self.tab {
                    Tab::Friends => RefreshTarget::Friends,
                    Tab::Groups => RefreshTarget::Groups,
                    Tab::Expenses => RefreshTarget::Expenses,
                },
            },
    {
        match &self.group_view {
            Some(gv) => RefreshTarget::Group(gv.group.id),
            None => match self.tab {
                Tab::Friends => RefreshTarget::Friends,
                Tab::Groups => RefreshTarget::Groups,
                Tab::Expenses => RefreshTarget::Expenses,
            },
        }
    }

    /// Takes in a refreshed group: a fresh view of it when it could be
    /// fetched, the old view otherwise.
    pub fn refresh_group(&mut self, fetched: Option<Group>, expenses: Vec<Expense>)
        ensures
            *final(self) == match fetched {
                Some(g) => App { group_view: Some(new_group_view(g, expenses)), ..*old(self) },
                None => *old(self),
            },
    {
        match fetched {
            Some(g) => {
                self.group_view = Some(GroupView::new(g, expenses));
            },
            None => {},
        }
    }

    /// Takes in the refreshed friends, keeping the selection within them.
    pub fn refresh_friends(&mut self, friends: Vec<Friend>)
        ensures
            *final(self) == (App {
                friends,
                friend_state: sel_clamp(old(self).friend_state, friends@.len()),
                ..*old(self)
            }),
    {
        let len = friends.len();
        self.friends = friends;
        clamp_selection(&mut self.friend_state, len);
    }

    /// Takes in the refreshed groups, keeping the selection within them.
    pub fn refresh_groups(&mut self, groups: Vec<Group>)
        ensures
            *final(self) == (App {
                groups,
                group_state: sel_clamp(old(self).group_state, groups@.len()),
                ..*old(self)
            }),
    {
        let len = groups.len();
        self.groups = groups;
        clamp_selection(&mut self.group_state, len);
    }

    /// Takes in the refreshed expenses, keeping the selection within them.
    pub fn refresh_expenses(&mut self, expenses: Vec<Expense>)
        ensures
            *final(self) == (App {
                expenses,
                expense_state: sel_clamp(old(self).expense_state, expenses@.len()),
                ..*old(self)
            }),
    {
        let len = expenses.len();
        self.expenses = expenses;
        clamp_selection(&mut self.expense_state, len);
    }

    /// Handles a key press.
    pub fn handle_key(&mut self, key: Key) -> (r: Action)
        ensures
            (*final(self), r) == key_step(*old(self), key),
    {
        match &mut self.group_view {
            Some(gv) => {
                if key == Key::Esc || key == Key::Backspace {
                    self.group_view = None;
                } else if key == Key::Char('q') {
                    self.should_quit = true;
                } else if key == Key::Tab {
                    gv.tab = gv.tab.next();
                } else if key == Key::BackTab {
                    gv.tab = gv.tab.prev();
                } else if key == Key::Char('1') {
                    gv.tab = GroupTab::Members;
                } else if key == Key::Char('2') {
                    gv.tab = GroupTab::Expenses;
                } else if key == Key::Char('3') {
                    gv.tab = GroupTab::Debts;
                } else if key == Key::Down || key == Key::Char('j') {
                    gv.move_down();
                } else if key == Key::Up || key == Key::Char('k') {
                    gv.move_up();
                } else if key == Key::Char('g') || key == Key::Home {
                    gv.jump_top();
                } else if key == Key::Char('G') || key == Key::End {
                    gv.jump_bottom();
                } else if key == Key::Char('r') {
                    return Action::Refresh;
                }
                Action::Nothing
            },
            None => {
                if key == Key::Char('q') || key == Key::Esc {
                    self.should_quit = true;
                } else if key == Key::Enter {
                    return self.enter_action();
                } else if key == Key::Tab {
                    self.tab = self.tab.next();
                } else if key == Key::BackTab {
                    self.tab = self.tab.prev();
                } else if key == Key::Char('1') {
                    self.tab = Tab::Friends;
                } else if key == Key::Char('2') {
                    self.tab = Tab::Groups;
                } else if key == Key::Char('3') {
                    self.tab = Tab::Expenses;
                } else if key == Key::Down || key == Key::Char('j') {
                    self.move_down();
                } else if key == Key::Up || key == Key::Char('k') {
                    self.move_up();
                } else if key == Key::Char('g') || key == Key::Home {
                    self.jump_top();
                } else if key == Key::Char('G') || key == Key::End {
                    self.jump_bottom();
                } else if key == Key::Char('r') {
                    return Action::Refresh;
                }
                Action::Nothing
            },
        }
    }

    /// Whether a mouse event can be handled (its hit tests do not overflow).
    pub fn can_handle_mouse(&self, m: Mouse) -> (r: bool)
        ensures
            r == mouse_defined(*self, m),
    {
        match m {
            Mouse::LeftDown { column, row } => {
                let (tabs, list) = if self.group_view.is_some() {
                    (self.areas.gv_sub_tabs, self.areas.gv_list)
                } else {
                    (self.areas.tab_bar, self.areas.list)
                };
                if !tab_hit_ok(tabs, column, row, 3) {
                    return false;
                }
                if tab_hit(tabs, column, row, 3).is_some() {
                    return true;
                }
                list_hit_ok(list, column, row)
            },
            _ => true,
        }
    }

    /// Handles a mouse event.
    pub fn handle_mouse(&mut self, m: Mouse) -> (r: Action)
        requires
            mouse_defined(*old(self), m),
        ensures
            (*final(self), r) == mouse_step(*old(self), m),
    {
        match m {
            Mouse::LeftDown { column, row } => {
                let areas = self.areas;
                match &mut self.group_view {
                    Some(gv) => {
                        if let Some(idx) = tab_hit(areas.gv_sub_tabs, column, row, 3) {
                            gv.tab = GroupTab::from_index(idx);
                            return Action::Nothing;
                        }
                        if let Some(clicked) = list_hit(areas.gv_list, column, row) {
                            match gv.tab {
                                GroupTab::Members => {
                                    let len = gv.group.members.len();
                                    if let Some(idx) = clicked.checked_add(gv.member_state.offset) {
                                        if idx < len {
                                            gv.member_state.select(Some(idx));
                                        }
                                    }
                                },
                                GroupTab::Expenses => {
                                    let len = gv.expenses.len();
                                    if let Some(idx) = clicked.checked_add(
                                        gv.expense_state.offset,
                                    ) {
                                        if idx < len {
                                            gv.expense_state.select(Some(idx));
                                        }
                                    }
                                },
                                GroupTab::Debts => {
                                    let len = gv.debts().len();
                                    gv.debt_idx = if clicked < len {
                                        clicked
                                    } else {
                                        len.saturating_sub(1)
                                    };
                                },
                            }
                        }
                        Action::Nothing
                    },
                    None => {
                        if let Some(idx) = tab_hit(areas.tab_bar, column, row, 3) {
                            self.tab = Tab::from_index(idx);
                            return Action::Nothing;
                        }
                        if let Some(clicked) = list_hit(areas.list, column, row) {
                            let len = self.list_len();
                            let sel = match self.tab {
                                Tab::Friends => self.friend_state,
                                Tab::Groups => self.group_state,
                                Tab::Expenses => self.expense_state,
                            };
                            if let Some(idx) = clicked.checked_add(sel.offset) {
                                if idx < len {
                                    if self.tab == Tab::Groups && sel.selected == Some(idx) {
                                        return self.enter_action();
                                    }
                                    self.state_mut().select(Some(idx));
                                }
                            }
                        }
                        Action::Nothing
                    },
                }
            },
            Mouse::ScrollUp => {
                match &mut self.group_view {
                    Some(gv) => gv.move_up(),
                    None => self.move_up(),
                }
                Action::Nothing
            },
            Mouse::ScrollDown => {
                match &mut self.group_view {
                    Some(gv) => gv.move_down(),
                    None => self.move_down(),
                }
                Action::Nothing
            },
            Mouse::Other => Action::Nothing,
        }
    }
}

/// The query of the expense list of the main view.
pub open spec fn recent_expenses_query() -> Seq<Field> {
    seq![("limit"@, "50"@)]
}

/// The query of the expense list of a group.
pub open spec fn group_expenses_query(id: u64) -> Seq<Field> {
    seq![("group_id"@, decimal(id as nat)), ("limit"@, "50"@)]
}

/// The query of the expense list of the main view.
pub fn recent_expenses_params() -> (r: Vec<(String, String)>)
    ensures
        fields(r@) == recent_expenses_query(),
{
    let mut r: Vec<(String, String)> = Vec::new();
    assert(fields(r@) =~= Seq::<Field>::empty());
    add_field(&mut r, "limit", to_owned("50"));
    assert(fields(r@) =~= recent_expenses_query());
    r
}

/// The query of the expense list of a group.
pub fn group_expenses_params(id: u64) -> (r: Vec<(String, String)>)
    ensures
        fields(r@) == group_expenses_query(id),
{
    let mut r: Vec<(String, String)> = Vec::new();
    assert(fields(r@) =~= Seq::<Field>::empty());
    add_field(&mut r, "group_id", u64_to_string(id));
    add_field(&mut r, "limit", to_owned("50"));
    assert(fields(r@) =~= group_expenses_query(id));
    r
}

// ───────────────────────── laws ─────────────────────────

/// Switching tabs forward and back returns to the same tab, three steps
/// forward come around again, and a tab's position in the tab bar leads back
/// to it.
pub proof fn tab_cycle(t: Tab)
    ensures
        prev_tab(next_tab(t)) == t,
        next_tab(prev_tab(t)) == t,
        next_tab(next_tab(next_tab(t))) == t,
        tab_at(tab_index(t)) == t,
        tab_index(t) < 3,
{
}

/// The same laws for the tabs of a group view.
pub proof fn group_tab_cycle(t: GroupTab)
    ensures
        prev_group_tab(next_group_tab(t)) == t,
        next_group_tab(prev_group_tab(t)) == t,
        next_group_tab(next_group_tab(next_group_tab(t))) == t,
        group_tab_at(group_tab_index(t)) == t,
        group_tab_index(t) < 3,
{
}

/// Moving the selection down and then up (or up and then down) returns to
/// the row that was selected.
pub proof fn down_up_returns(s: ListSel, len: nat)
    requires
        s.selected matches Some(i) && i < len,
        len <= usize::MAX,
    ensures
        sel_up(sel_down(s, len), len) == s,
        sel_down(sel_up(s, len), len) == s,
{
    let i = s.selected->0;
    assert(len > 0);
    let d = sel_down(s, len);
    if i + 1 < len {
        assert((i + 1) % (len as int) == i + 1) by (nonlinear_arith)
            requires
                0 <= i + 1 < len,
        ;
        assert(d.selected == Some((i + 1) as usize));
    } else {
        assert((i + 1) % (len as int) == 0) by (nonlinear_arith)
            requires
                i + 1 == len,
                len > 0,
        ;
        assert(d.selected == Some(0usize));
    }
    assert(sel_up(d, len).selected == Some(i));
    assert(sel_up(d, len) == s);
    let u = sel_up(s, len);
    if i > 0 {
        assert(u.selected == Some((i - 1) as usize));
        assert(((i - 1) + 1) % (len as int) == i) by (nonlinear_arith)
            requires
                0 < i < len,
        ;
    } else {
        assert(u.selected == Some((len - 1) as usize));
        assert(((len - 1) + 1) % (len as int) == 0) by (nonlinear_arith)
            requires
                len > 0,
        ;
    }
    assert(sel_down(u, len).selected == Some(i));
    assert(sel_down(u, len) == s);
}

proof fn lemma_mod_below(a: int, len: int)
    requires
        len > 0,
        a >= 0,
    ensures
        0 <= a % len < len,
{
}

/// Every move keeps a fitting selection fitting.
pub proof fn moves_keep_fit(s: ListSel, len: nat)
    requires
        sel_fits(s, len),
    ensures
        sel_fits(sel_down(s, len), len),
        sel_fits(sel_up(s, len), len),
        sel_fits(sel_top(s, len), len),
        sel_fits(sel_bottom(s, len), len),
{
    if len > 0 {
        if let Some(i) = s.selected {
            lemma_mod_below(i + 1, len as int);
        }
    }
}

/// A selection kept within a new list always fits it.
pub proof fn clamp_fits(s: ListSel, len: nat)
    ensures
        sel_fits(sel_clamp(s, len), len),
{
}

proof fn lemma_gv_moves_wf(gv: GroupView)
    requires
        gv_wf(gv),
    ensures
        gv_wf(gv_down(gv)),
        gv_wf(gv_up(gv)),
        gv_wf(gv_top(gv)),
        gv_wf(gv_bottom(gv)),
        gv_wf(GroupView { tab: next_group_tab(gv.tab), ..gv }),
        gv_wf(GroupView { tab: prev_group_tab(gv.tab), ..gv }),
        gv_wf(GroupView { tab: GroupTab::Members, ..gv }),
        gv_wf(GroupView { tab: GroupTab::Expenses, ..gv }),
        gv_wf(GroupView { tab: GroupTab::Debts, ..gv }),
{
    moves_keep_fit(gv.member_state, gv.group.members@.len());
    moves_keep_fit(gv.expense_state, gv.expenses@.len());
    let len = shown_debts(gv.group).len();
    if len > 0 {
        lemma_mod_below(gv.debt_idx + 1, len as int);
    }
}

proof fn lemma_app_moves_wf(a: App)
    requires
        app_wf(a),
    ensures
        app_wf(app_down(a)),
        app_wf(app_up(a)),
        app_wf(app_top(a)),
        app_wf(app_bottom(a)),
{
    moves_keep_fit(app_sel(a), app_len(a));
}

/// A new view is well formed: each selection fits its list.
pub proof fn new_app_wf(friends: Vec<Friend>, groups: Vec<Group>, expenses: Vec<Expense>)
    ensures
        app_wf(new_app(friends, groups, expenses)),
{
}

/// A new view of a group is well formed.
pub proof fn new_group_view_wf(group: Group, expenses: Vec<Expense>)
    ensures
        gv_wf(new_group_view(group, expenses)),
{
}

/// Every key press keeps the view well formed.
pub proof fn key_step_keeps_wf(a: App, k: Key)
    requires
        app_wf(a),
    ensures
        app_wf(key_step(a, k).0),
{
    match a.group_view {
        Some(gv) => {
            lemma_gv_moves_wf(gv);
        },
        None => {
            lemma_app_moves_wf(a);
        },
    }
}

/// Every mouse event keeps the view well formed.
pub proof fn mouse_step_keeps_wf(a: App, m: Mouse)
    requires
        app_wf(a),
    ensures
        app_wf(mouse_step(a, m).0),
{
    match a.group_view {
        Some(gv) => {
            lemma_gv_moves_wf(gv);
        },
        None => {
            lemma_app_moves_wf(a);
        },
    }
}

/// A mouse event keeps the view well formed, and so does opening the group it
/// asks for, whatever the service answers for that group and its expenses.
pub proof fn mouse_event_keeps_wf(
    a: App,
    m: Mouse,
    fetched: Option<Group>,
    group_expenses: Vec<Expense>,
)
    requires
        app_wf(a),
    ensures
        app_wf(mouse_step(a, m).0),
        mouse_step(a, m).1 matches Action::EnterGroup(i) ==> {
            let b = mouse_step(a, m).0;
            &&& i < b.groups@.len()
            &&& app_wf(
                App {
                    group_view: Some(
                        new_group_view(
                            match fetched {
                                Some(g) => g,
                                None => b.groups@[i as int],
                            },
                            group_expenses,
                        ),
                    ),
                    ..b
                },
            )
        },
{
    mouse_step_keeps_wf(a, m);
}

/// Refreshing a list keeps the view well formed, whatever the new list holds.
pub proof fn refresh_keeps_wf(
    a: App,
    friends: Vec<Friend>,
    groups: Vec<Group>,
    expenses: Vec<Expense>,
    fetched: Option<Group>,
    group_expenses: Vec<Expense>,
)
    requires
        app_wf(a),
    ensures
        app_wf(
            App {
                friends,
                friend_state: sel_clamp(a.friend_state, friends@.len()),
                ..a
            },
        ),
        app_wf(App { groups, group_state: sel_clamp(a.group_state, groups@.len()), ..a }),
        app_wf(
            App {
                expenses,
                expense_state: sel_clamp(a.expense_state, expenses@.len()),
                ..a
            },
        ),
        app_wf(
            match fetched {
                Some(g) => App { group_view: Some(new_group_view(g, group_expenses)), ..a },
                None => a,
            },
        ),
{
}

/// Opening or closing a group keeps the view well formed.
pub proof fn open_close_keep_wf(a: App, group: Group, expenses: Vec<Expense>)
    requires
        app_wf(a),
    ensures
        app_wf(App { group_view: Some(new_group_view(group, expenses)), ..a }),
        app_wf(App { group_view: None, ..a }),
{
}

/// Closing a group view that was opened from the main view returns to the
/// main view as it was.
pub proof fn close_undoes_open(a: App, group: Group, expenses: Vec<Expense>)
    requires
        a.group_view is None,
    ensures
        key_step(App { group_view: Some(new_group_view(group, expenses)), ..a }, Key::Esc).0 == a,
{
}

/// A left click on list row `clicked` (counted from the first row shown) of
/// an open group's member or expense list selects row `clicked` plus the
/// list's scroll offset, when that row exists, and changes nothing when it
/// does not.
pub proof fn group_click_selects_clicked_row(a: App, column: u16, row: u16)
    requires
        a.group_view is Some,
        tab_hit_at(a.areas.gv_sub_tabs, column, row, 3) is None,
        list_hit_at(a.areas.gv_list, column, row) is Some,
    ensures
        ({
            let gv = a.group_view->0;
            let c = list_hit_at(a.areas.gv_list, column, row)->0;
            let (b, act) = mouse_step(a, Mouse::LeftDown { column, row });
            &&& act == Action::Nothing
            &&& b.group_view is Some
            &&& gv.tab == GroupTab::Expenses && c + gv.expense_state.offset < gv.expenses@.len()
                ==> b.group_view->0.expense_state.selected == Some(
                (c + gv.expense_state.offset) as usize,
            )
            &&& gv.tab == GroupTab::Expenses && c + gv.expense_state.offset >= gv.expenses@.len()
                ==> b == a
            &&& gv.tab == GroupTab::Members && c + gv.member_state.offset
                < gv.group.members@.len() ==> b.group_view->0.member_state.selected == Some(
                (c + gv.member_state.offset) as usize,
            )
            &&& gv.tab == GroupTab::Members && c + gv.member_state.offset
                >= gv.group.members@.len() ==> b == a
        }),
{
}

/// A left click on list row `clicked` of the main view's list selects row
/// `clicked` plus the list's scroll offset when that row exists (clicking the
/// selected group also asks to open it), and changes nothing when it does not.
pub proof fn main_click_selects_clicked_row(a: App, column: u16, row: u16)
    requires
        a.group_view is None,
        tab_hit_at(a.areas.tab_bar, column, row, 3) is None,
        list_hit_at(a.areas.list, column, row) is Some,
    ensures
        ({
            let c = list_hit_at(a.areas.list, column, row)->0;
            let s = app_sel(a);
            let (b, act) = mouse_step(a, Mouse::LeftDown { column, row });
            &&& c + s.offset < app_len(a) ==> app_sel(b).selected == Some((c + s.offset) as usize)
                && b.tab == a.tab
            &&& c + s.offset < app_len(a) && a.tab == Tab::Groups && s.selected == Some(
                (c + s.offset) as usize,
            ) ==> act == Action::EnterGroup((c + s.offset) as usize)
            &&& c + s.offset >= app_len(a) ==> b == a && act == Action::Nothing
        }),
{
}

} // verus!
