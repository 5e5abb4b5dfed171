use splitwise_cli::models::{
    Balance, Debt, Expense, ExpenseCategory, ExpenseUser, Friend, Group, GroupBalance,
    GroupMember, Repayment, Share,
};
use splitwise_cli::panes::{
    bal_style, balance_text_of, debt_detail_of, debt_item_of, debts_title_of, expense_detail_of,
    expense_item_of, expense_pane, friend_detail_of, friend_item_of, friend_pane,
    group_bindings, group_detail_of, group_header_sub_of, group_item_of, group_pane,
    list_title_of, main_bindings, member_detail_of, member_item_of, member_pane,
    status_spans_of, Span, StyledLine, Tone,
};

type SpanT = (String, Tone, bool);
type LineT = (Vec<SpanT>, Option<Tone>);

fn s(x: &str) -> String {
    x.to_string()
}

fn span_t(sp: &Span) -> SpanT {
    (sp.text.clone(), sp.tone, sp.bar)
}

fn line_t(l: &StyledLine) -> LineT {
    (l.spans.iter().map(span_t).collect(), l.tone)
}

fn lines_t(v: &[StyledLine]) -> Vec<LineT> {
    v.iter().map(line_t).collect()
}

fn tx(text: &str, tone: Tone) -> SpanT {
    (s(text), tone, false)
}

fn ln(spans: Vec<SpanT>) -> LineT {
    (spans, None)
}

fn styled(text: &str, tone: Tone) -> LineT {
    (vec![tx(text, Tone::Plain)], Some(tone))
}

fn blank() -> LineT {
    (vec![tx("", Tone::Plain)], None)
}

fn label_val(label: &str, val: &str) -> LineT {
    ln(vec![tx(&format!("{label}: "), Tone::Fg2), tx(val, Tone::Fg)])
}

fn trunc(x: &str, max: usize) -> String {
    if x.chars().count() <= max {
        x.to_string()
    } else {
        let t: String = x.chars().take(max.saturating_sub(1)).collect();
        format!("{t}\u{2026}")
    }
}

fn bal(amount: &str, cur: &str) -> Balance {
    Balance { currency_code: s(cur), amount: s(amount) }
}

fn member(id: u64, first: &str, last: Option<&str>, balance: Vec<Balance>) -> GroupMember {
    GroupMember { id, first_name: s(first), last_name: last.map(s), email: None, balance }
}

fn debt(from: u64, to: u64, amount: &str) -> Debt {
    Debt { from, to, amount: s(amount), currency_code: s("USD") }
}

fn group(id: u64, name: &str) -> Group {
    Group {
        id,
        name: s(name),
        group_type: None,
        simplify_by_default: None,
        invite_link: None,
        members: vec![],
        original_debts: vec![],
        simplified_debts: vec![],
    }
}

fn friend(balance: Vec<Balance>) -> Friend {
    Friend {
        id: 7,
        first_name: s("Ann"),
        last_name: Some(s("Lee")),
        email: Some(s("ann@example.com")),
        balance,
        groups: vec![],
    }
}

fn expense() -> Expense {
    Expense {
        id: 31,
        description: s("A very long description here"),
        cost: s("80.00"),
        currency_code: s("USD"),
        date: Some(s("2024-03-05T10:00:00Z")),
        created_by: None,
        category: None,
        deleted_at: None,
        repeat_interval: None,
        repayments: vec![],
        users: vec![],
        comments: vec![],
    }
}

// ── balances ──

#[test]
fn balance_tones() {
    assert_eq!(bal_style("12.50"), (Tone::Green, "\u{25b2}"));
    assert_eq!(bal_style("1e3"), (Tone::Green, "\u{25b2}"));
    assert_eq!(bal_style("-0.01"), (Tone::Red, "\u{25bc}"));
    assert_eq!(bal_style("0.00"), (Tone::Fg3, "\u{2022}"));
    assert_eq!(bal_style("-0.00"), (Tone::Fg3, "\u{2022}"));
    assert_eq!(bal_style("abc"), (Tone::Fg3, "\u{2022}"));
    assert_eq!(bal_style(""), (Tone::Fg3, "\u{2022}"));
}

#[test]
fn balance_column() {
    let v = balance_text_of(&vec![bal("0.00", "USD")]);
    assert_eq!(v.iter().map(span_t).collect::<Vec<_>>(), vec![tx("\u{2714} settled", Tone::Fg3)]);
    let v = balance_text_of(&vec![]);
    assert_eq!(v.iter().map(span_t).collect::<Vec<_>>(), vec![tx("\u{2714} settled", Tone::Fg3)]);
    let v = balance_text_of(&vec![bal("10.00", "USD"), bal("0.00", "EUR"), bal("-5.50", "GBP")]);
    assert_eq!(
        v.iter().map(span_t).collect::<Vec<_>>(),
        vec![
            tx("\u{25b2} 10.00 USD", Tone::Green),
            tx("  ", Tone::Plain),
            tx("\u{25bc} -5.50 GBP", Tone::Red),
        ]
    );
}

// ── friends ──

#[test]
fn friend_row() {
    let f = friend(vec![bal("10.00", "USD"), bal("0.00", "EUR")]);
    assert_eq!(
        line_t(&friend_item_of(&f)),
        ln(vec![tx(&format!("{:<20} ", "Ann Lee"), Tone::Fg), tx("\u{25b2} 10.00 USD", Tone::Green)])
    );
    let mut g = friend(vec![]);
    g.first_name = s("Bartholomew-Alexander");
    g.last_name = Some(s("Smith"));
    assert_eq!(
        line_t(&friend_item_of(&g)),
        ln(vec![
            tx(&format!("{:<20} ", trunc("Bartholomew-Alexander Smith", 20)), Tone::Fg),
            tx("\u{2714} settled", Tone::Fg3),
        ])
    );
}

#[test]
fn friend_details_with_balances() {
    let mut f = friend(vec![bal("10.00", "USD"), bal("0.00", "EUR"), bal("-5.50", "GBP")]);
    f.groups = vec![
        GroupBalance { group_id: 1, balance: vec![] },
        GroupBalance { group_id: 2, balance: vec![] },
    ];
    assert_eq!(
        lines_t(&friend_detail_of(&f)),
        vec![
            styled("Ann Lee", Tone::FgBold),
            label_val("ID", "7"),
            label_val("Email", "ann@example.com"),
            blank(),
            styled("Balance", Tone::GreenBold),
            ln(vec![tx("  \u{25b2} ", Tone::Green), tx("owes you 10.00 USD", Tone::Green)]),
            ln(vec![tx("    ", Tone::Plain), (s("10.00"), Tone::Green, true)]),
            ln(vec![tx("  \u{25bc} ", Tone::Red), tx("you owe 5.50 GBP", Tone::Red)]),
            ln(vec![tx("    ", Tone::Plain), (s("-5.50"), Tone::Red, true)]),
            blank(),
            ln(vec![tx("Shared groups  ", Tone::Fg2), tx("2", Tone::Fg)]),
        ]
    );
}

#[test]
fn settled_friend_details() {
    let mut f = friend(vec![bal("0.00", "USD")]);
    f.email = None;
    assert_eq!(
        lines_t(&friend_detail_of(&f)),
        vec![
            styled("Ann Lee", Tone::FgBold),
            label_val("ID", "7"),
            blank(),
            styled("\u{2714} All settled up", Tone::GreenDim),
        ]
    );
}

#[test]
fn friend_pane_by_selection() {
    let fs = vec![friend(vec![])];
    assert_eq!(lines_t(&friend_pane(&fs, None)), vec![styled("No friend selected", Tone::Fg3)]);
    assert_eq!(lines_t(&friend_pane(&fs, Some(1))), vec![styled("No friend selected", Tone::Fg3)]);
    assert_eq!(lines_t(&friend_pane(&fs, Some(0))), lines_t(&friend_detail_of(&fs[0])));
}

// ── members ──

#[test]
fn member_row_and_details() {
    let m = member(3, "Cy", None, vec![bal("-2.00", "USD")]);
    assert_eq!(
        line_t(&member_item_of(&m)),
        ln(vec![tx(&format!("{:<20} ", "Cy"), Tone::Fg), tx("\u{25bc} -2.00 USD", Tone::Red)])
    );
    assert_eq!(
        lines_t(&member_detail_of(&m)),
        vec![
            styled("Cy", Tone::FgBold),
            label_val("ID", "3"),
            blank(),
            styled("Balance in group", Tone::GreenBold),
            ln(vec![tx("  \u{25bc} ", Tone::Red), tx("you owe 2.00 USD", Tone::Red)]),
            ln(vec![tx("    ", Tone::Plain), (s("-2.00"), Tone::Red, true)]),
        ]
    );
    let z = member(4, "Di", Some("Ng"), vec![]);
    assert_eq!(
        lines_t(&member_detail_of(&z)),
        vec![
            styled("Di Ng", Tone::FgBold),
            label_val("ID", "4"),
            blank(),
            styled("\u{2714} Settled up in this group", Tone::GreenDim),
        ]
    );
    let ms = vec![m];
    assert_eq!(lines_t(&member_pane(&ms, None)), vec![styled("No member selected", Tone::Fg3)]);
    assert_eq!(lines_t(&member_pane(&ms, Some(0))), lines_t(&member_detail_of(&ms[0])));
}

// ── groups ──

#[test]
fn group_row() {
    let mut g = group(1, "Trip to Japan");
    g.members = vec![member(1, "A", None, vec![]), member(2, "B", None, vec![])];
    assert_eq!(
        line_t(&group_item_of(&g)),
        ln(vec![
            tx(&format!("{:<22} ", "Trip to Japan"), Tone::Fg),
            tx("2", Tone::Cyan),
            tx(" members", Tone::Fg3),
        ])
    );
    let h = group(2, "An extremely long group name indeed");
    assert_eq!(
        line_t(&group_item_of(&h)).0[0],
        tx(&format!("{:<22} ", trunc("An extremely long group name indeed", 22)), Tone::Fg)
    );
}

#[test]
fn group_detail_pane() {
    let mut g = group(456, "Flat");
    g.group_type = Some(s("apartment"));
    g.simplify_by_default = Some(false);
    g.members = vec![
        member(1, "Ann", Some("Lee"), vec![bal("0.00", "EUR"), bal("10.00", "USD")]),
        member(2, "Bob", None, vec![bal("0.00", "USD")]),
    ];
    g.original_debts = vec![debt(2, 1, "10.00"), debt(9, 1, "1.00")];
    g.simplified_debts = vec![debt(2, 1, "9.00")];
    assert_eq!(
        lines_t(&group_detail_of(&g)),
        vec![
            styled("Flat", Tone::FgBold),
            label_val("ID", "456"),
            label_val("Type", "apartment"),
            label_val("Simplify", "false"),
            blank(),
            styled("Members (2)", Tone::GreenBold),
            ln(vec![
                tx("  \u{2022} ", Tone::Fg3),
                tx("Ann Lee  ", Tone::Fg),
                tx("10.00 USD", Tone::Fg3),
            ]),
            ln(vec![tx("  \u{2022} ", Tone::Fg3), tx("Bob", Tone::Fg)]),
            blank(),
            styled("Debts (simplified)", Tone::GreenBold),
            ln(vec![
                tx("  Bob ", Tone::Fg),
                tx("\u{2192}", Tone::Fg3),
                tx(" Ann Lee  ", Tone::Fg),
                tx("9.00 USD", Tone::Gold),
            ]),
        ]
    );
    g.simplified_debts = vec![];
    let lines = lines_t(&group_detail_of(&g));
    assert_eq!(lines[9], styled("Debts", Tone::GreenBold));
    assert_eq!(
        lines[11],
        ln(vec![
            tx("  ? ", Tone::Fg),
            tx("\u{2192}", Tone::Fg3),
            tx(" Ann Lee  ", Tone::Fg),
            tx("1.00 USD", Tone::Gold),
        ])
    );
    let gs = vec![g];
    assert_eq!(lines_t(&group_pane(&gs, None)), vec![styled("No group selected", Tone::Fg3)]);
    assert_eq!(lines_t(&group_pane(&gs, Some(0))), lines_t(&group_detail_of(&gs[0])));
}

#[test]
fn member_balances_take_the_tone_of_the_first() {
    let mut g = group(1, "G");
    g.members = vec![member(1, "Ann", None, vec![bal("-3.00", "USD"), bal("4.00", "EUR")])];
    let lines = lines_t(&group_detail_of(&g));
    assert_eq!(
        lines[4],
        ln(vec![
            tx("  \u{2022} ", Tone::Fg3),
            tx("Ann  ", Tone::Fg),
            tx("-3.00 USD, 4.00 EUR", Tone::Red),
        ])
    );
}

#[test]
fn group_titles() {
    let mut g = group(5, "G");
    assert_eq!(group_header_sub_of(&g), "ID: 5");
    g.group_type = Some(s(""));
    assert_eq!(group_header_sub_of(&g), "ID: 5");
    g.group_type = Some(s("trip"));
    assert_eq!(group_header_sub_of(&g), "ID: 5 \u{2022} trip");
    assert_eq!(list_title_of("Friends", 3), "Friends (3)");
    assert_eq!(list_title_of("Expenses", 0), "Expenses (0)");
    assert_eq!(debts_title_of(&g), "Debts (0)");
    g.original_debts = vec![debt(1, 2, "1.00"), debt(2, 1, "2.00")];
    assert_eq!(debts_title_of(&g), "Debts (2)");
    g.simplified_debts = vec![debt(1, 2, "1.00")];
    assert_eq!(debts_title_of(&g), "Debts \u{2022} simplified (1)");
}

// ── debts ──

#[test]
fn debt_rows_and_details() {
    let mut g = group(1, "G");
    g.members = vec![member(1, "Ann", Some("Lee"), vec![]), member(2, "Bob", None, vec![])];
    g.original_debts = vec![debt(2, 1, "10.00"), debt(3, 2, "4.00")];
    assert_eq!(
        line_t(&debt_item_of(&g.members, &g.original_debts[0])),
        ln(vec![
            tx("Bob", Tone::Fg),
            tx(" \u{2192} ", Tone::Fg3),
            tx("Ann Lee", Tone::Fg),
            tx("  ", Tone::Plain),
            tx("10.00 USD", Tone::Gold),
        ])
    );
    assert_eq!(line_t(&debt_item_of(&g.members, &g.original_debts[1])).0[0], tx("?", Tone::Fg));
    assert_eq!(
        lines_t(&debt_detail_of(&g, 0)),
        vec![
            ln(vec![tx("Bob", Tone::FgBold), tx(" \u{2192} ", Tone::Fg3), tx("Ann Lee", Tone::FgBold)]),
            blank(),
            ln(vec![tx("Amount  ", Tone::Fg2), tx("10.00 USD", Tone::GoldBold)]),
            blank(),
            label_val("From", "Bob (2)"),
            label_val("To", "Ann Lee (1)"),
        ]
    );
    assert_eq!(
        lines_t(&debt_detail_of(&g, 2)),
        vec![styled("\u{2714} No debts in this group", Tone::GreenDim)]
    );
    assert_eq!(
        lines_t(&debt_detail_of(&group(2, "Empty"), 0)),
        vec![styled("\u{2714} No debts in this group", Tone::GreenDim)]
    );
}

#[test]
fn member_names_use_the_last_entry_for_an_id() {
    let ms = vec![member(1, "Old", None, vec![]), member(1, "New", None, vec![])];
    let l = line_t(&debt_item_of(&ms, &debt(1, 1, "1.00")));
    assert_eq!(l.0[0], tx("New", Tone::Fg));
    assert_eq!(l.0[2], tx("New", Tone::Fg));
}

// ── expenses ──

#[test]
fn expense_rows() {
    let mut e = expense();
    let row = line_t(&expense_item_of(&e));
    assert_eq!(
        row,
        ln(vec![
            tx("2024-03-05 ", Tone::Fg3),
            tx(&format!("{:<18} ", trunc("A very long description here", 18)), Tone::Fg),
            tx("80.00", Tone::Cyan),
        ])
    );
    e.date = None;
    e.description = s("Tea");
    e.deleted_at = Some(s("2024-03-06"));
    assert_eq!(
        line_t(&expense_item_of(&e)),
        ln(vec![
            tx("--- ", Tone::Fg3),
            tx(&format!("{:<18} ", "Tea"), Tone::Fg),
            tx("80.00 \u{2716}", Tone::Cyan),
        ])
    );
    e.date = Some(s("2024"));
    assert_eq!(line_t(&expense_item_of(&e)).0[0], tx("2024 ", Tone::Fg3));
}

#[test]
fn expense_detail_pane() {
    let mut e = expense();
    e.description = s("Dinner");
    e.category = Some(ExpenseCategory { id: 2, name: s("Food") });
    e.created_by = Some(ExpenseUser { id: 1, first_name: s("Ann"), last_name: Some(s("Lee")) });
    e.deleted_at = Some(s("2024-03-06"));
    e.users = vec![
        Share {
            user_id: 1,
            first_name: Some(s("Ann")),
            last_name: Some(s("Lee")),
            paid_share: s("80.00"),
            owed_share: s("40.00"),
            net_balance: s("40.00"),
        },
        Share {
            user_id: 2,
            first_name: None,
            last_name: None,
            paid_share: s("0.00"),
            owed_share: s("40.00"),
            net_balance: s("-40.00"),
        },
    ];
    e.repayments = vec![Repayment { from: 2, to: 1, amount: s("40.00") }];
    let share = |name: &str, paid: &str, owed: &str, net: &str, tone: Tone| {
        ln(vec![
            tx(&format!("  {:<16} ", trunc(name, 16)), Tone::Fg),
            tx(&format!("{:>8} ", paid), Tone::Cyan),
            tx(&format!("{:>8} ", owed), Tone::Fg2),
            tx(&format!("{:>9}", net), tone),
        ])
    };
    assert_eq!(
        lines_t(&expense_detail_of(&e)),
        vec![
            styled("Dinner", Tone::FgBold),
            label_val("ID", "31"),
            ln(vec![tx("Cost: ", Tone::Fg2), tx("80.00 ", Tone::GoldBold), tx("USD", Tone::Fg2)]),
            label_val("Date", "2024-03-05"),
            label_val("Category", "Food"),
            label_val("Created by", "Ann Lee"),
            styled("\u{2716} DELETED", Tone::RedBold),
            blank(),
            styled("Shares", Tone::GreenBold),
            styled(&format!("  {:<16} {:>8} {:>8} {:>9}", "Name", "Paid", "Owed", "Net"), Tone::Fg3),
            styled(&format!("  {}", "\u{2500}".repeat(46)), Tone::Fg3),
            share("Ann Lee", "80.00", "40.00", "40.00", Tone::Green),
            share("?", "0.00", "40.00", "-40.00", Tone::Red),
            blank(),
            styled("Repayments", Tone::GreenBold),
            ln(vec![
                tx("  2 ", Tone::Fg),
                tx("\u{2192}", Tone::Fg3),
                tx(" 1  ", Tone::Fg),
                tx("40.00", Tone::Gold),
            ]),
        ]
    );
    let plain = Expense { date: None, ..expense() };
    assert_eq!(
        lines_t(&expense_detail_of(&plain)),
        vec![
            styled("A very long description here", Tone::FgBold),
            label_val("ID", "31"),
            ln(vec![tx("Cost: ", Tone::Fg2), tx("80.00 ", Tone::GoldBold), tx("USD", Tone::Fg2)]),
        ]
    );
    let es = vec![plain];
    assert_eq!(lines_t(&expense_pane(&es, Some(3))), vec![styled("No expense selected", Tone::Fg3)]);
    assert_eq!(lines_t(&expense_pane(&es, Some(0))), lines_t(&expense_detail_of(&es[0])));
}

// ── status bar ──

#[test]
fn status_bars() {
    let spans: Vec<SpanT> = status_spans_of(&main_bindings()).iter().map(span_t).collect();
    assert_eq!(
        spans,
        vec![
            tx(" ", Tone::Plain),
            tx(" \u{2190}\u{2191}\u{2193}\u{2192} ", Tone::GreenBold),
            tx("nav", Tone::Fg2),
            tx(" \u{2502} ", Tone::Fg3),
            tx(" \u{23ce} ", Tone::GreenBold),
            tx("open", Tone::Fg2),
            tx(" \u{2502} ", Tone::Fg3),
            tx(" Tab ", Tone::GreenBold),
            tx("switch", Tone::Fg2),
            tx(" \u{2502} ", Tone::Fg3),
            tx(" r ", Tone::GreenBold),
            tx("refresh", Tone::Fg2),
            tx(" \u{2502} ", Tone::Fg3),
            tx(" q ", Tone::GreenBold),
            tx("quit", Tone::Fg2),
        ]
    );
    let g = group_bindings();
    assert_eq!(g[3], ("Esc", "back"));
    assert_eq!(status_spans_of(&g).len(), 15);
    assert_eq!(status_spans_of(&vec![]).iter().map(span_t).collect::<Vec<_>>(), vec![tx(" ", Tone::Plain)]);
}
