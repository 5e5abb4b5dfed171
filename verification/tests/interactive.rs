use ratatui::layout::{Constraint, Layout, Rect as R};
use splitwise_cli::models::{Balance, Debt, Expense, Friend, Group, GroupMember};
use splitwise_cli::tui::{
    group_layout, main_layout, clamp_selection, group_expenses_params, list_hit, list_hit_ok, recent_expenses_params,
    tab_hit, tab_hit_ok, Action, App, Areas, GroupTab, GroupView, Key, ListSel, Mouse, Rect,
    RefreshTarget, Tab,
};

fn s(x: &str) -> String {
    x.to_string()
}

fn friend(id: u64, first: &str) -> Friend {
    Friend { id, first_name: s(first), last_name: None, email: None, balance: vec![], groups: vec![] }
}

fn member(id: u64, first: &str) -> GroupMember {
    GroupMember { id, first_name: s(first), last_name: None, email: None, balance: vec![] }
}

fn debt(from: u64, to: u64) -> Debt {
    Debt { from, to, amount: s("1.00"), currency_code: s("USD") }
}

fn group(id: u64, name: &str, members: usize) -> Group {
    Group {
        id,
        name: s(name),
        group_type: None,
        simplify_by_default: None,
        invite_link: None,
        members: (0..members).map(|i| member(i as u64 + 1, "M")).collect(),
        original_debts: vec![],
        simplified_debts: vec![],
    }
}

fn expense(id: u64) -> Expense {
    Expense {
        id,
        description: s("E"),
        cost: s("1"),
        currency_code: s("USD"),
        date: None,
        created_by: None,
        category: None,
        deleted_at: None,
        repeat_interval: None,
        repayments: vec![],
        users: vec![],
        comments: vec![],
    }
}

fn app(friends: usize, groups: usize, expenses: usize) -> App {
    App::new(
        (0..friends).map(|i| friend(i as u64 + 1, "F")).collect(),
        (0..groups).map(|i| group(100 + i as u64, "G", 2)).collect(),
        (0..expenses).map(|i| expense(i as u64 + 1)).collect(),
    )
}

fn sel(selected: Option<usize>, offset: usize) -> ListSel {
    ListSel { selected, offset }
}

// ── tabs ──

#[test]
fn tab_titles_and_cycles() {
    assert_eq!(Tab::Friends.title(), " Friends ");
    assert_eq!(Tab::Groups.title(), " Groups ");
    assert_eq!(Tab::Expenses.title(), " Expenses ");
    assert_eq!(GroupTab::Members.title(), " Members ");
    assert_eq!(GroupTab::Expenses.title(), " Expenses ");
    assert_eq!(GroupTab::Debts.title(), " Debts ");
    for t in [Tab::Friends, Tab::Groups, Tab::Expenses] {
        assert_eq!(t.next().prev(), t);
        assert_eq!(t.prev().next(), t);
        assert_eq!(t.next().next().next(), t);
        assert_eq!(Tab::from_index(t.index()), t);
    }
    for t in [GroupTab::Members, GroupTab::Expenses, GroupTab::Debts] {
        assert_eq!(t.next().prev(), t);
        assert_eq!(t.next().next().next(), t);
        assert_eq!(GroupTab::from_index(t.index()), t);
    }
    assert_eq!(Tab::Friends.next(), Tab::Groups);
    assert_eq!(Tab::Friends.prev(), Tab::Expenses);
    assert_eq!(GroupTab::Members.next(), GroupTab::Expenses);
    assert_eq!(GroupTab::Members.prev(), GroupTab::Debts);
    assert_eq!(Tab::Expenses.index(), 2);
    assert_eq!(GroupTab::Debts.index(), 2);
}

// ── list selection ──

#[test]
fn selection_moves_wrap_around() {
    let mut x = ListSel::initial(3);
    assert_eq!(x, sel(Some(0), 0));
    x.move_up(3);
    assert_eq!(x.selected, Some(2));
    x.move_down(3);
    assert_eq!(x.selected, Some(0));
    x.move_down(3);
    x.move_down(3);
    assert_eq!(x.selected, Some(2));
    x.jump_top(3);
    assert_eq!(x.selected, Some(0));
    x.jump_bottom(3);
    assert_eq!(x.selected, Some(2));
    let mut e = ListSel::initial(0);
    assert_eq!(e, ListSel::none());
    e.move_down(0);
    e.move_up(0);
    e.jump_bottom(0);
    assert_eq!(e, ListSel::none());
    let mut n = sel(None, 0);
    n.move_up(4);
    assert_eq!(n.selected, Some(0));
}

#[test]
fn down_then_up_returns() {
    for len in 1..5usize {
        for i in 0..len {
            let mut x = sel(Some(i), 3);
            x.move_down(len);
            x.move_up(len);
            assert_eq!(x, sel(Some(i), 3));
        }
    }
}

#[test]
fn selecting_nothing_scrolls_to_the_top() {
    let mut x = sel(Some(4), 2);
    x.select(Some(1));
    assert_eq!(x, sel(Some(1), 2));
    x.select(None);
    assert_eq!(x, sel(None, 0));
}

#[test]
fn clamping_keeps_the_selection_in_the_list() {
    let mut x = sel(Some(7), 5);
    clamp_selection(&mut x, 3);
    assert_eq!(x, sel(Some(2), 5));
    clamp_selection(&mut x, 10);
    assert_eq!(x, sel(Some(2), 5));
    clamp_selection(&mut x, 0);
    assert_eq!(x, sel(None, 0));
    clamp_selection(&mut x, 4);
    assert_eq!(x, sel(Some(0), 0));
}

// ── hit tests ──

#[test]
fn tab_bar_hits() {
    let bar = Rect { x: 0, y: 0, width: 32, height: 3 };
    assert_eq!(tab_hit(bar, 1, 1, 3), Some(0));
    assert_eq!(tab_hit(bar, 10, 1, 3), Some(0));
    assert_eq!(tab_hit(bar, 11, 1, 3), Some(1));
    assert_eq!(tab_hit(bar, 21, 1, 3), Some(2));
    assert_eq!(tab_hit(bar, 30, 1, 3), Some(2));
    assert_eq!(tab_hit(bar, 31, 1, 3), None);
    assert_eq!(tab_hit(bar, 0, 1, 3), None);
    assert_eq!(tab_hit(bar, 5, 0, 3), None);
    assert_eq!(tab_hit(bar, 5, 2, 3), None);
    assert_eq!(tab_hit(bar, 5, 1, 0), None);
    assert_eq!(tab_hit(Rect { x: 0, y: 0, width: 0, height: 3 }, 5, 1, 3), None);
    assert!(tab_hit_ok(bar, 5, 1, 3));
    assert!(!tab_hit_ok(Rect { x: 0, y: u16::MAX, width: 5, height: 3 }, 1, 1, 3));
}

#[test]
fn list_hits() {
    let list = Rect { x: 0, y: 3, width: 20, height: 10 };
    assert_eq!(list_hit(list, 1, 4), Some(0));
    assert_eq!(list_hit(list, 18, 11), Some(7));
    assert_eq!(list_hit(list, 19, 5), None);
    assert_eq!(list_hit(list, 0, 5), None);
    assert_eq!(list_hit(list, 5, 3), None);
    assert_eq!(list_hit(list, 5, 12), None);
    assert!(list_hit_ok(list, 5, 5));
    assert!(!list_hit_ok(Rect { x: u16::MAX - 1, y: 0, width: 10, height: 3 }, u16::MAX, 1));
}

// ── the main view ──

#[test]
fn new_view_selects_first_rows() {
    let a = app(2, 0, 3);
    assert_eq!(a.tab, Tab::Friends);
    assert_eq!(a.friend_state, sel(Some(0), 0));
    assert_eq!(a.group_state, sel(None, 0));
    assert_eq!(a.expense_state, sel(Some(0), 0));
    assert!(a.group_view.is_none());
    assert!(!a.should_quit);
    assert_eq!(a.list_len(), 2);
    assert_eq!(a.selected(), Some(0));
}

#[test]
fn keys_switch_tabs_and_move() {
    let mut a = app(3, 2, 1);
    assert_eq!(a.handle_key(Key::Down), Action::Nothing);
    assert_eq!(a.selected(), Some(1));
    a.handle_key(Key::Char('j'));
    a.handle_key(Key::Char('j'));
    assert_eq!(a.selected(), Some(0));
    a.handle_key(Key::Char('k'));
    assert_eq!(a.selected(), Some(2));
    a.handle_key(Key::Char('g'));
    assert_eq!(a.selected(), Some(0));
    a.handle_key(Key::End);
    assert_eq!(a.selected(), Some(2));
    a.handle_key(Key::Tab);
    assert_eq!(a.tab, Tab::Groups);
    assert_eq!(a.selected(), Some(0));
    a.handle_key(Key::BackTab);
    assert_eq!(a.tab, Tab::Friends);
    a.handle_key(Key::Char('3'));
    assert_eq!(a.tab, Tab::Expenses);
    a.handle_key(Key::Char('1'));
    assert_eq!(a.tab, Tab::Friends);
    assert_eq!(a.handle_key(Key::Char('r')), Action::Refresh);
    assert_eq!(a.refresh_target(), RefreshTarget::Friends);
    assert_eq!(a.handle_key(Key::Char('x')), Action::Nothing);
    assert!(!a.should_quit);
    a.handle_key(Key::Esc);
    assert!(a.should_quit);
}

#[test]
fn enter_opens_the_selected_group() {
    let mut a = app(1, 3, 0);
    assert_eq!(a.handle_key(Key::Enter), Action::Nothing);
    a.handle_key(Key::Char('2'));
    a.handle_key(Key::Down);
    assert_eq!(a.group_to_open(), Some(1));
    assert_eq!(a.handle_key(Key::Enter), Action::EnterGroup(1));
    assert_eq!(a.refresh_target(), RefreshTarget::Groups);
    let listed = a.groups[1].clone();
    a.open_group(None, listed, vec![expense(5), expense(6)]);
    let gv = a.group_view.as_ref().unwrap();
    assert_eq!(gv.group.id, 101);
    assert_eq!(gv.tab, GroupTab::Members);
    assert_eq!(gv.member_state, sel(Some(0), 0));
    assert_eq!(gv.expense_state, sel(Some(0), 0));
    assert_eq!(a.group_to_open(), None);
    assert_eq!(a.refresh_target(), RefreshTarget::Group(101));
    let fetched = group(101, "Fresh", 0);
    let listed = a.groups[1].clone();
    a.open_group(Some(fetched), listed, vec![]);
    let gv = a.group_view.as_ref().unwrap();
    assert_eq!(gv.group.name, "Fresh");
    assert_eq!(gv.member_state, sel(None, 0));
    a.exit_group();
    assert!(a.group_view.is_none());
    assert_eq!(a.tab, Tab::Groups);
    assert_eq!(a.group_state.selected, Some(1));
}

#[test]
fn keys_in_a_group() {
    let mut a = app(0, 1, 0);
    let mut g = group(100, "G", 3);
    g.original_debts = vec![debt(1, 2), debt(2, 3)];
    a.tab = Tab::Groups;
    a.open_group(Some(g), group(100, "G", 0), vec![expense(1)]);
    a.handle_key(Key::Down);
    assert_eq!(a.group_view.as_ref().unwrap().member_state.selected, Some(1));
    a.handle_key(Key::Tab);
    assert_eq!(a.group_view.as_ref().unwrap().tab, GroupTab::Expenses);
    a.handle_key(Key::Down);
    assert_eq!(a.group_view.as_ref().unwrap().expense_state.selected, Some(0));
    a.handle_key(Key::Char('3'));
    let gv = a.group_view.as_ref().unwrap();
    assert_eq!(gv.tab, GroupTab::Debts);
    assert_eq!(gv.list_len(), 2);
    assert_eq!(gv.debts().len(), 2);
    a.handle_key(Key::Up);
    assert_eq!(a.group_view.as_ref().unwrap().debt_idx, 1);
    a.handle_key(Key::Down);
    assert_eq!(a.group_view.as_ref().unwrap().debt_idx, 0);
    a.handle_key(Key::Char('G'));
    assert_eq!(a.group_view.as_ref().unwrap().debt_idx, 1);
    a.handle_key(Key::Home);
    assert_eq!(a.group_view.as_ref().unwrap().debt_idx, 0);
    a.handle_key(Key::BackTab);
    assert_eq!(a.group_view.as_ref().unwrap().tab, GroupTab::Expenses);
    assert_eq!(a.handle_key(Key::Char('r')), Action::Refresh);
    assert_eq!(a.handle_key(Key::Enter), Action::Nothing);
    a.handle_key(Key::Backspace);
    assert!(a.group_view.is_none());
    assert!(!a.should_quit);
}

#[test]
fn quitting_from_a_group() {
    let mut a = app(0, 1, 0);
    a.open_group(None, group(100, "G", 1), vec![]);
    a.handle_key(Key::Char('q'));
    assert!(a.should_quit);
    assert!(a.group_view.is_some());
}

#[test]
fn debts_shown_prefer_simplified() {
    let mut g = group(1, "G", 2);
    g.original_debts = vec![debt(1, 2), debt(2, 1)];
    g.simplified_debts = vec![debt(1, 2)];
    let gv = GroupView::new(g, vec![]);
    assert_eq!(gv.debts().len(), 1);
}

#[test]
fn refreshing_keeps_selections_within_the_lists() {
    let mut a = app(5, 2, 4);
    a.handle_key(Key::End);
    assert_eq!(a.friend_state.selected, Some(4));
    a.refresh_friends(vec![friend(1, "A"), friend(2, "B")]);
    assert_eq!(a.friend_state.selected, Some(1));
    a.refresh_groups(vec![]);
    assert_eq!(a.group_state, sel(None, 0));
    a.refresh_groups(vec![group(9, "N", 0)]);
    assert_eq!(a.group_state.selected, Some(0));
    a.refresh_expenses((0..10).map(expense).collect());
    assert_eq!(a.expense_state.selected, Some(0));
    assert_eq!(a.expenses.len(), 10);
    a.open_group(None, group(9, "N", 2), vec![]);
    a.refresh_group(None, vec![expense(3)]);
    assert_eq!(a.group_view.as_ref().unwrap().expenses.len(), 0);
    a.refresh_group(Some(group(9, "M", 1)), vec![expense(3)]);
    let gv = a.group_view.as_ref().unwrap();
    assert_eq!(gv.group.name, "M");
    assert_eq!(gv.expenses.len(), 1);
}

fn laid_out(mut a: App) -> App {
    a.areas = Areas {
        tab_bar: Rect { x: 0, y: 0, width: 32, height: 3 },
        list: Rect { x: 0, y: 3, width: 20, height: 10 },
        gv_sub_tabs: Rect { x: 0, y: 3, width: 32, height: 3 },
        gv_list: Rect { x: 0, y: 6, width: 20, height: 10 },
    };
    a
}

fn click(a: &mut App, column: u16, row: u16) -> Action {
    let m = Mouse::LeftDown { column, row };
    assert!(a.can_handle_mouse(m));
    a.handle_mouse(m)
}

#[test]
fn clicks_in_the_main_view() {
    let mut a = laid_out(app(3, 2, 0));
    assert_eq!(click(&mut a, 11, 1), Action::Nothing);
    assert_eq!(a.tab, Tab::Groups);
    assert_eq!(click(&mut a, 5, 5), Action::Nothing);
    assert_eq!(a.group_state.selected, Some(1));
    assert_eq!(click(&mut a, 5, 5), Action::EnterGroup(1));
    assert_eq!(click(&mut a, 5, 9), Action::Nothing);
    assert_eq!(a.group_state.selected, Some(1));
    a.group_state.offset = 1;
    assert_eq!(click(&mut a, 5, 4), Action::EnterGroup(1));
    assert_eq!(click(&mut a, 1, 1), Action::Nothing);
    assert_eq!(a.tab, Tab::Friends);
    assert_eq!(click(&mut a, 5, 6), Action::Nothing);
    assert_eq!(a.friend_state.selected, Some(2));
    assert_eq!(a.handle_mouse(Mouse::ScrollDown), Action::Nothing);
    assert_eq!(a.friend_state.selected, Some(0));
    a.handle_mouse(Mouse::ScrollUp);
    assert_eq!(a.friend_state.selected, Some(2));
    a.handle_mouse(Mouse::Other);
    assert_eq!(a.friend_state.selected, Some(2));
}

#[test]
fn clicks_in_a_group() {
    let mut a = laid_out(app(0, 1, 0));
    let mut g = group(100, "G", 4);
    g.simplified_debts = vec![debt(1, 2), debt(3, 4)];
    a.open_group(Some(g), group(100, "G", 0), vec![expense(1), expense(2)]);
    click(&mut a, 5, 8);
    assert_eq!(a.group_view.as_ref().unwrap().member_state.selected, Some(1));
    click(&mut a, 5, 14);
    assert_eq!(a.group_view.as_ref().unwrap().member_state.selected, Some(1));
    click(&mut a, 11, 4);
    assert_eq!(a.group_view.as_ref().unwrap().tab, GroupTab::Expenses);
    click(&mut a, 5, 8);
    assert_eq!(a.group_view.as_ref().unwrap().expense_state.selected, Some(1));
    click(&mut a, 25, 4);
    assert_eq!(a.group_view.as_ref().unwrap().tab, GroupTab::Debts);
    click(&mut a, 5, 8);
    assert_eq!(a.group_view.as_ref().unwrap().debt_idx, 1);
    click(&mut a, 5, 12);
    assert_eq!(a.group_view.as_ref().unwrap().debt_idx, 1);
    click(&mut a, 5, 7);
    assert_eq!(a.group_view.as_ref().unwrap().debt_idx, 0);
    a.handle_mouse(Mouse::ScrollUp);
    assert_eq!(a.group_view.as_ref().unwrap().debt_idx, 1);
    a.handle_mouse(Mouse::ScrollDown);
    assert_eq!(a.group_view.as_ref().unwrap().debt_idx, 0);
}

#[test]
fn expense_queries() {
    assert_eq!(recent_expenses_params(), vec![(s("limit"), s("50"))]);
    assert_eq!(group_expenses_params(42), vec![(s("group_id"), s("42")), (s("limit"), s("50"))]);
}

#[test]
fn balances_in_members_do_not_change_navigation() {
    let mut g = group(1, "G", 0);
    g.members = vec![GroupMember {
        id: 1,
        first_name: s("A"),
        last_name: None,
        email: None,
        balance: vec![Balance { currency_code: s("USD"), amount: s("5.00") }],
    }];
    let mut gv = GroupView::new(g, vec![]);
    gv.move_down();
    assert_eq!(gv.member_state.selected, Some(0));
    gv.jump_bottom();
    assert_eq!(gv.member_state.selected, Some(0));
}

fn r(x: u16, y: u16, width: u16, height: u16) -> Rect {
    Rect { x, y, width, height }
}

#[test]
fn screen_layouts() {
    let (tabs, list, detail, status) = main_layout(r(0, 0, 100, 30));
    assert_eq!(tabs, r(0, 0, 100, 3));
    assert_eq!(list, r(0, 3, 38, 26));
    assert_eq!(detail, r(38, 3, 62, 26));
    assert_eq!(status, r(0, 29, 100, 1));
    let (header, tabs, list, detail, status) = group_layout(r(0, 0, 100, 40));
    assert_eq!(header, r(0, 0, 100, 3));
    assert_eq!(tabs, r(0, 3, 100, 3));
    assert_eq!(list, r(0, 6, 42, 33));
    assert_eq!(detail, r(42, 6, 58, 33));
    assert_eq!(status, r(0, 39, 100, 1));
}

#[test]
fn screen_layouts_agree_with_ratatui() {
    let frame = R { x: 2, y: 1, width: 87, height: 23 };
    let [t, m, st] =
        Layout::vertical([Constraint::Length(3), Constraint::Min(0), Constraint::Length(1)]).areas(frame);
    let [l, d] = Layout::horizontal([Constraint::Percentage(38), Constraint::Percentage(62)]).areas(m);
    let conv = |a: R| r(a.x, a.y, a.width, a.height);
    assert_eq!(main_layout(conv(frame)), (conv(t), conv(l), conv(d), conv(st)));
}
