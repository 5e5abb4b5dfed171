use splitwise_cli::display::{
    added_friends_lines_of, balances_lines_of, categories_lines_of, comment_lines_of,
    comments_lines_of, currencies_lines_of, expense_lines_of, expenses_lines_of,
    friend_lines_of, friends_lines_of, group_balances_lines_of, group_lines_of, groups_lines_of,
    notifications_lines_of, user_lines_of,
};
use splitwise_cli::models::{
    Balance, Category, Comment, CommentUser, Currency, Debt, Expense, ExpenseCategory,
    ExpenseUser, Friend, Group, GroupMember, Notification, Repayment, Share, SubCategory, User,
};

fn s(x: &str) -> String {
    x.to_string()
}

fn bal(amount: &str, cur: &str) -> Balance {
    Balance { currency_code: s(cur), amount: s(amount) }
}

fn member(id: u64, first: &str, last: Option<&str>, balance: Vec<Balance>) -> GroupMember {
    GroupMember { id, first_name: s(first), last_name: last.map(s), email: None, balance }
}

fn debt(from: u64, to: u64, amount: &str) -> Debt {
    Debt { from, to, amount: s(amount), currency_code: s("USD") }
}

fn group(id: u64, name: &str) -> Group {
    Group {
        id,
        name: s(name),
        group_type: None,
        simplify_by_default: None,
        invite_link: None,
        members: vec![],
        original_debts: vec![],
        simplified_debts: vec![],
    }
}

fn friend(id: u64, first: &str, last: Option<&str>, balance: Vec<Balance>) -> Friend {
    Friend { id, first_name: s(first), last_name: last.map(s), email: None, balance, groups: vec![] }
}

fn expense(id: u64, desc: &str) -> Expense {
    Expense {
        id,
        description: s(desc),
        cost: s("80.00"),
        currency_code: s("USD"),
        date: Some(s("2024-03-05T10:00:00Z")),
        created_by: None,
        category: None,
        deleted_at: None,
        repeat_interval: None,
        repayments: vec![],
        users: vec![],
        comments: vec![],
    }
}

#[test]
fn user_listing() {
    let u = User {
        id: 7,
        first_name: s("Ann"),
        last_name: Some(s("Lee")),
        email: Some(s("ann@example.com")),
        default_currency: Some(s("USD")),
        locale: None,
        notifications_count: Some(0),
    };
    assert_eq!(
        user_lines_of(&u),
        vec!["ID:       7", "Name:     Ann Lee", "Email:    ann@example.com", "Currency: USD"]
    );
    let u2 = User { notifications_count: Some(3), locale: Some(s("en")), email: None, ..u };
    assert_eq!(
        user_lines_of(&u2),
        vec!["ID:       7", "Name:     Ann Lee", "Currency: USD", "Locale:   en", "Notifications: 3"]
    );
}

#[test]
fn groups_listing() {
    assert_eq!(groups_lines_of(&vec![]), vec!["No groups found."]);
    let mut g = group(12, "Trip to Japan");
    g.members = vec![member(1, "Ann", None, vec![]), member(2, "Bob", None, vec![])];
    let mut h = group(3, "A group with a very long name that is cut");
    h.group_type = Some(s("trip"));
    let lines = groups_lines_of(&vec![g, h]);
    assert_eq!(lines[0], format!("{:<8}  {:<30}  {:<12}  Members", "ID", "Name", "Type"));
    assert_eq!(lines[1], "-".repeat(62));
    assert_eq!(lines[2], format!("{:<8}  {:<30}  {:<12}  {}", 12, "Trip to Japan", "-", 2));
    assert_eq!(
        lines[3],
        format!("{:<8}  {:<30}  {:<12}  {}", 3, "A group with a very long name ", "trip", 0)
    );
    assert_eq!(lines.len(), 4);
}

#[test]
fn group_details() {
    let mut g = group(456, "Flat");
    g.group_type = Some(s("apartment"));
    g.simplify_by_default = Some(true);
    g.members = vec![
        member(1, "Ann", Some("Lee"), vec![bal("10.00", "USD"), bal("0.00", "EUR")]),
        member(2, "Bob", None, vec![bal("0.00", "USD")]),
    ];
    g.original_debts = vec![debt(2, 1, "10.00")];
    assert_eq!(
        group_lines_of(&g),
        vec![
            "ID:       456",
            "Name:     Flat",
            "Type:     apartment",
            "Simplify: true",
            "",
            "Members:",
            "  Ann Lee (1) [10.00 USD]",
            "  Bob (2)",
            "",
            "Debts (original):",
            "  2 -> 1: 10.00 USD",
        ]
    );
    g.simplified_debts = vec![debt(2, 1, "9.00")];
    let lines = group_lines_of(&g);
    assert_eq!(lines[9], "Debts (simplified):");
    assert_eq!(lines[10], "  2 -> 1: 9.00 USD");
}

#[test]
fn friends_listing() {
    assert_eq!(friends_lines_of(&vec![]), vec!["No friends found."]);
    let fs = vec![
        friend(5, "Ann", Some("Lee"), vec![bal("10.00", "USD"), bal("-2.00", "EUR")]),
        friend(6, "Bob", None, vec![bal("0.00", "USD")]),
    ];
    let lines = friends_lines_of(&fs);
    assert_eq!(lines[0], format!("{:<8}  {:<25}  Balance", "ID", "Name"));
    assert_eq!(lines[1], "-".repeat(55));
    assert_eq!(lines[2], format!("{:<8}  {:<25}  10.00 USD, -2.00 EUR", 5, "Ann Lee"));
    assert_eq!(lines[3], format!("{:<8}  {:<25}  settled up", 6, "Bob"));
}

#[test]
fn friend_details() {
    let mut f = friend(5, "Ann", None, vec![bal("10.00", "USD"), bal("-5.00", "EUR"), bal("0.00", "GBP")]);
    f.email = Some(s("ann@example.com"));
    assert_eq!(
        friend_lines_of(&f),
        vec![
            "ID:    5",
            "Name:  Ann",
            "Email: ann@example.com",
            "",
            "Balance:",
            "  owes you 10.00 USD",
            "  you owe 5.00 EUR",
        ]
    );
    let g = friend(6, "Bob", None, vec![]);
    assert_eq!(friend_lines_of(&g), vec!["ID:    6", "Name:  Bob", "Balance: settled up"]);
}

#[test]
fn expenses_listing() {
    assert_eq!(expenses_lines_of(&vec![]), vec!["No expenses found."]);
    let mut e = expense(1001, "Dinner");
    let mut d = expense(1002, "Rent");
    d.date = None;
    d.deleted_at = Some(s("2024-03-06"));
    e.cost = s("80.00");
    let lines = expenses_lines_of(&vec![e, d]);
    assert_eq!(
        lines[0],
        format!("{:<8}  {:<30}  {:<10}  {:<5}  Date", "ID", "Description", "Cost", "Curr")
    );
    assert_eq!(lines[1], "-".repeat(72));
    assert_eq!(lines[2], format!("{:<8}  {:<30}  {:<10}  {:<5}  2024-03-05", 1001, "Dinner", "80.00", "USD"));
    assert_eq!(
        lines[3],
        format!("{:<8}  {:<30}  {:<10}  {:<5}  - [deleted]", 1002, "Rent", "80.00", "USD")
    );
}

#[test]
fn expense_details() {
    let mut e = expense(1001, "Dinner");
    e.category = Some(ExpenseCategory { id: 2, name: s("Dining out") });
    e.created_by = Some(ExpenseUser { id: 111, first_name: s("Ann"), last_name: Some(s("Lee")) });
    e.repeat_interval = Some(s("monthly"));
    e.users = vec![
        Share {
            user_id: 111,
            first_name: Some(s("Ann")),
            last_name: None,
            paid_share: s("80.00"),
            owed_share: s("40.00"),
            net_balance: s("40.00"),
        },
        Share {
            user_id: 222,
            first_name: None,
            last_name: None,
            paid_share: s("0.00"),
            owed_share: s("40.00"),
            net_balance: s("-40.00"),
        },
    ];
    e.repayments = vec![Repayment { from: 222, to: 111, amount: s("40.00") }];
    let lines = expense_lines_of(&e);
    let expected: Vec<String> = vec![
        s("ID:          1001"),
        s("Description: Dinner"),
        s("Cost:        80.00 USD"),
        s("Date:        2024-03-05"),
        s("Category:    Dining out"),
        s("Created by:  Ann Lee (111)"),
        s("Repeats:     monthly"),
        s(""),
        s("Shares:"),
        format!("  {:<8}  {:<20}  {:<10}  {:<10}  Net", "UserID", "Name", "Paid", "Owed"),
        format!("  {}", "-".repeat(58)),
        format!("  {:<8}  {:<20}  {:<10}  {:<10}  {}", 111, "Ann", "80.00", "40.00", "40.00"),
        format!("  {:<8}  {:<20}  {:<10}  {:<10}  {}", 222, "?", "0.00", "40.00", "-40.00"),
        s(""),
        s("Repayments:"),
        s("  222 -> 111: 40.00"),
    ];
    assert_eq!(lines, expected);
    let mut d = expense(9, "Gone");
    d.deleted_at = Some(s("2024-01-01"));
    d.date = None;
    assert_eq!(
        expense_lines_of(&d),
        vec!["ID:          9", "Description: Gone", "Cost:        80.00 USD", "Status:      DELETED"]
    );
}

#[test]
fn comments_listing() {
    assert_eq!(comments_lines_of(&vec![]), vec!["No comments."]);
    let c1 = Comment {
        id: 5001,
        content: s("Paid <b>in cash</b>"),
        created_at: Some(s("2024-03-05T10:00:00Z")),
        deleted_at: None,
        created_by: Some(CommentUser { id: 1, first_name: s("Ann"), last_name: None }),
    };
    let c2 = Comment {
        id: 5002,
        content: s("gone"),
        created_at: None,
        deleted_at: Some(s("2024-03-06")),
        created_by: None,
    };
    let c3 = Comment { id: 5003, content: s("hi"), created_at: None, deleted_at: None, created_by: None };
    assert_eq!(
        comments_lines_of(&vec![c1, c2, c3]),
        vec!["[5001] Ann (2024-03-05): Paid in cash", "[5003] Unknown (-): hi"]
    );
    let only_deleted = Comment {
        id: 1,
        content: s("x"),
        created_at: None,
        deleted_at: Some(s("now")),
        created_by: None,
    };
    assert!(comments_lines_of(&vec![only_deleted]).is_empty());
}

#[test]
fn comment_details() {
    let c = Comment {
        id: 5001,
        content: s("<p>Paid in cash</p>"),
        created_at: Some(s("2024-03-05T10:00:00Z")),
        deleted_at: None,
        created_by: None,
    };
    assert_eq!(
        comment_lines_of(&c),
        vec!["ID:      5001", "By:      Unknown", "Content: Paid in cash", "Date:    2024-03-05T10:00:00Z"]
    );
}

#[test]
fn overall_balances() {
    assert_eq!(balances_lines_of(&vec![]), vec!["All settled up!"]);
    let settled = vec![friend(1, "Ann", None, vec![bal("0.00", "USD")])];
    assert_eq!(balances_lines_of(&settled), vec!["All settled up!"]);
    let fs = vec![
        friend(1, "Ann", Some("Lee"), vec![bal("10.00", "USD"), bal("-5.00", "EUR")]),
        friend(2, "Bob", None, vec![bal("0.00", "USD")]),
        friend(3, "Cy", None, vec![bal("-1.50", "USD")]),
    ];
    assert_eq!(
        balances_lines_of(&fs),
        vec!["Ann Lee owes you 10.00 USD", "you owe Ann Lee 5.00 EUR", "you owe Cy 1.50 USD"]
    );
    let tiny = vec![friend(4, "X", None, vec![bal("1e-400", "USD")])];
    assert_eq!(balances_lines_of(&tiny), vec!["you owe X 1e-400 USD"]);
}

#[test]
fn group_balances() {
    let mut g = group(1, "Flat");
    assert_eq!(group_balances_lines_of(&g), vec!["All settled up!"]);
    g.members = vec![member(1, "Ann", None, vec![]), member(2, "Bob", Some("Ray"), vec![])];
    g.original_debts = vec![debt(1, 2, "5.00"), debt(3, 1, "2.00")];
    assert_eq!(
        group_balances_lines_of(&g),
        vec!["Ann owes Bob Ray 5.00 USD", "? owes Ann 2.00 USD"]
    );
    g.simplified_debts = vec![debt(2, 1, "1.00")];
    assert_eq!(group_balances_lines_of(&g), vec!["Bob Ray owes Ann 1.00 USD"]);
    g.members.push(member(1, "Annie", None, vec![]));
    assert_eq!(group_balances_lines_of(&g), vec!["Bob Ray owes Annie 1.00 USD"]);
}

#[test]
fn currencies_and_categories() {
    let cs = vec![Currency { currency_code: s("USD"), unit: s("$") }];
    assert_eq!(
        currencies_lines_of(&cs),
        vec![format!("{:<6}  Unit", "Code"), "-".repeat(30), format!("{:<6}  $", "USD")]
    );
    let cats = vec![
        Category {
            id: 1,
            name: s("Utilities"),
            subcategories: vec![SubCategory { id: 5, name: s("Electricity") }],
        },
        Category { id: 2, name: s("Other"), subcategories: vec![] },
    ];
    assert_eq!(
        categories_lines_of(&cats),
        vec!["Utilities (1)", "  Electricity (5)", "Other (2)"]
    );
}

#[test]
fn notifications_listing() {
    assert_eq!(notifications_lines_of(&vec![]), vec!["No notifications."]);
    let ns = vec![
        Notification {
            id: 9,
            notification_type: 0,
            content: Some(s("<strong>Ann</strong> added Dinner")),
            created_at: Some(s("2024-03-05T10:00:00Z")),
            created_by: Some(1),
            source: None,
        },
        Notification {
            id: 10,
            notification_type: 99,
            content: None,
            created_at: None,
            created_by: None,
            source: None,
        },
        Notification {
            id: 11,
            notification_type: 15,
            content: Some(s("x")),
            created_at: None,
            created_by: None,
            source: None,
        },
    ];
    assert_eq!(
        notifications_lines_of(&ns),
        vec![
            "[2024-03-05] Expense added | Ann added Dinner (9)",
            "[-] Unknown |  (10)",
            "[-] Friend currency conversion | x (11)",
        ]
    );
}

#[test]
fn added_friends() {
    let fs = vec![friend(5, "Ann", Some("Lee"), vec![])];
    assert_eq!(added_friends_lines_of(&fs), vec!["Added: Ann Lee (ID: 5)"]);
}
