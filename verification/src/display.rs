//! The text of the command-line listings, line by line. Each function here
//! returns the lines that the corresponding command prints.
use vstd::prelude::*;
use crate::amount::{amount_sign, is_listed, listed, sign_of, Sign};
use crate::models::{
    Balance, Category, Comment, Currency, Debt, Expense, Friend, Group, GroupMember,
    Notification, Repayment, Share, SubCategory, User,
};
use crate::text::{
    concat_map, cut_bytes, cuttable, date_short, decimal, display_name, emit, emit_str,
    full_name, join, join_strings, keep_map, name_of, opt_view, pad_right, push_decimal,
    push_padded, push_padded_u64, repeat_char, repeated, strip_html, strip_leading,
    strip_leading_char, strip_tags, to_owned, truncate, views,
};

verus! {

// ───────────────────────── shared pieces ─────────────────────────

/// A labelled line for an optional value: none when the value is absent.
pub open spec fn opt_line(label: Seq<char>, o: Option<String>) -> Seq<Seq<char>> {
    match o {
        Some(s) => seq![label + s@],
        None => Seq::empty(),
    }
}

/// `true` or `false`, as `{}` prints a boolean.
pub open spec fn bool_text(b: bool) -> Seq<char> {
    if b {
        "true"@
    } else {
        "false"@
    }
}

/// "amount currency".
pub open spec fn money(amount: Seq<char>, currency: Seq<char>) -> Seq<char> {
    amount.push(' ') + currency
}

/// A balance as "amount currency".
pub open spec fn balance_money(b: Balance) -> Seq<char> {
    money(b.amount@, b.currency_code@)
}

pub open spec fn listed_balance() -> spec_fn(Balance) -> bool {
    |b: Balance| is_listed(b.amount@)
}

pub open spec fn balance_money_fn() -> spec_fn(Balance) -> Seq<char> {
    |b: Balance| balance_money(b)
}

/// The listed balances (all but "0.00") as "amount currency" texts.
pub open spec fn listed_amounts(bs: Seq<Balance>) -> Seq<Seq<char>> {
    keep_map(bs, listed_balance(), balance_money_fn())
}

/// The name of the last member with the given id, if any member has it.
pub open spec fn member_name(ms: Seq<GroupMember>, id: u64) -> Option<Seq<char>>
    decreases ms.len(),
{
    if ms.len() == 0 {
        None
    } else if ms.last().id == id {
        Some(full_name(ms.last().first_name@, opt_view(ms.last().last_name)))
    } else {
        member_name(ms.drop_last(), id)
    }
}

/// The name of a member by id, or "?" for an unknown id.
pub open spec fn member_name_or_unknown(ms: Seq<GroupMember>, id: u64) -> Seq<char> {
    match member_name(ms, id) {
        Some(n) => n,
        None => "?"@,
    }
}

/// The debts that a group shows: `simplified_debts` when there are any,
/// else `original_debts`.
pub open spec fn shown_debts(g: Group) -> Seq<Debt> {
    if g.simplified_debts@.len() > 0 {
        g.simplified_debts@
    } else {
        g.original_debts@
    }
}

/// An optional date as its first ten bytes, or the placeholder `none`.
pub open spec fn short_date_or(d: Option<String>, none: Seq<char>) -> Seq<char> {
    match d {
        Some(s) => cut_bytes(s@, 10),
        None => none,
    }
}

/// Whether an optional date can be cut to its first ten bytes.
pub open spec fn date_cuttable(d: Option<String>) -> bool {
    match d {
        Some(s) => cuttable(s@, 10),
        None => true,
    }
}

/// Appends a labelled line for an optional value.
fn emit_opt(lines: &mut Vec<String>, label: &str, o: &Option<String>)
    ensures
        views(final(lines)@) == views(old(lines)@) + opt_line(label@, *o),
{
    let ghost before = views(lines@);
    match o {
        Some(s) => {
            let mut l = to_owned(label);
            l.append(s.as_str());
            emit(lines, l);
            assert(views(lines@) =~= before + opt_line(label@, *o));
        },
        None => {
            assert(before + opt_line(label@, *o) =~= before);
        },
    }
}

/// `true` or `false`.
pub fn bool_str(b: bool) -> (r: &'static str)
    ensures
        r@ == bool_text(b),
{
    if b {
        "true"
    } else {
        "false"
    }
}

/// Appends "amount currency".
fn push_money(out: &mut String, amount: &String, currency: &String)
    ensures
        final(out)@ == old(out)@ + money(amount@, currency@),
{
    let ghost start = out@;
    out.append(amount.as_str());
    out.push(' ');
    out.append(currency.as_str());
    assert(out@ =~= start + money(amount@, currency@));
}

/// The listed balances (all but "0.00") as "amount currency" texts.
pub fn listed_amount_texts(bs: &Vec<Balance>) -> (r: Vec<String>)
    ensures
        views(r@) == listed_amounts(bs@),
{
    let mut r: Vec<String> = Vec::new();
    let mut i: usize = 0;
    while i < bs.len()
        invariant
            i <= bs@.len(),
            views(r@) == listed_amounts(bs@.take(i as int)),
        decreases bs.len() - i,
    {
        assert(bs@.take(i + 1).drop_last() =~= bs@.take(i as int));
        assert(bs@.take(i + 1).last() == bs@[i as int]);
        let b = &bs[i];
        if listed(b.amount.as_str()) {
            let mut t = String::new();
            push_money(&mut t, &b.amount, &b.currency_code);
            emit(&mut r, t);
        }
        i += 1;
    }
    assert(bs@.take(bs@.len() as int) =~= bs@);
    r
}

/// The name of the last member with the given id, or "?".
pub fn member_name_lookup(ms: &Vec<GroupMember>, id: u64) -> (r: String)
    ensures
        r@ == member_name_or_unknown(ms@, id),
{
    let mut i = ms.len();
    assert(ms@.take(ms@.len() as int) =~= ms@);
    while i > 0
        invariant
            i <= ms@.len(),
            member_name(ms@, id) == member_name(ms@.take(i as int), id),
        decreases i,
    {
        assert(ms@.take(i as int).drop_last() =~= ms@.take(i - 1));
        assert(ms@.take(i as int).last() == ms@[i - 1]);
        if ms[i - 1].id == id {
            return name_of(&ms[i - 1].first_name, &ms[i - 1].last_name);
        }
        i -= 1;
    }
    to_owned("?")
}

/// The debts that a group shows: `simplified_debts` when there are any, else
/// `original_debts`.
pub fn group_debts(g: &Group) -> (r: &Vec<Debt>)
    ensures
        r@ == shown_debts(*g),
{
    if g.simplified_debts.len() > 0 {
        &g.simplified_debts
    } else {
        &g.original_debts
    }
}

// ───────────────────────── user ─────────────────────────

pub open spec fn user_lines(u: User) -> Seq<Seq<char>> {
    seq![
        "ID:       "@ + decimal(u.id as nat),
        "Name:     "@ + full_name(u.first_name@, opt_view(u.last_name)),
    ] + opt_line("Email:    "@, u.email) + opt_line("Currency: "@, u.default_currency)
        + opt_line("Locale:   "@, u.locale) + match u.notifications_count {
        Some(n) => if n > 0 {
            seq!["Notifications: "@ + decimal(n as nat)]
        } else {
            Seq::empty()
        },
        None => Seq::empty(),
    }
}

/// The lines that describe a user.
pub fn user_lines_of(user: &User) -> (r: Vec<String>)
    ensures
        views(r@) == user_lines(*user),
{
    let mut r: Vec<String> = Vec::new();
    let mut l = to_owned("ID:       ");
    push_decimal(&mut l, user.id);
    emit(&mut r, l);
    let mut l = to_owned("Name:     ");
    let n = name_of(&user.first_name, &user.last_name);
    l.append(n.as_str());
    emit(&mut r, l);
    emit_opt(&mut r, "Email:    ", &user.email);
    emit_opt(&mut r, "Currency: ", &user.default_currency);
    emit_opt(&mut r, "Locale:   ", &user.locale);
    let ghost before = views(r@);
    match user.notifications_count {
        Some(n) => {
            if n > 0 {
                let mut l = to_owned("Notifications: ");
                push_decimal(&mut l, n);
                emit(&mut r, l);
            }
        },
        None => {},
    }
    assert(views(r@) =~= user_lines(*user));
    r
}

// ───────────────────────── groups ─────────────────────────

pub open spec fn groups_header() -> Seq<char> {
    pad_right("ID"@, 8) + "  "@ + pad_right("Name"@, 30) + "  "@ + pad_right("Type"@, 12)
        + "  Members"@
}

pub open spec fn group_row(g: Group) -> Seq<char> {
    pad_right(decimal(g.id as nat), 8) + "  "@ + pad_right(cut_bytes(g.name@, 30), 30) + "  "@
        + pad_right(
        match g.group_type {
            Some(t) => t@,
            None => "-"@,
        },
        12,
    ) + "  "@ + decimal(g.members@.len())
}

pub open spec fn group_row_fn() -> spec_fn(Group) -> Seq<char> {
    |g: Group| group_row(g)
}

pub open spec fn groups_lines(gs: Seq<Group>) -> Seq<Seq<char>> {
    if gs.len() == 0 {
        seq!["No groups found."@]
    } else {
        seq![groups_header(), repeat_char('-', 62)] + gs.map_values(group_row_fn())
    }
}

/// Whether every group name can be cut to the listing's column.
pub open spec fn group_names_cuttable(gs: Seq<Group>) -> bool {
    forall|i: int| 0 <= i < gs.len() ==> cuttable(#[trigger] gs[i].name@, 30)
}

fn group_row_of(g: &Group) -> (r: String)
    requires
        cuttable(g.name@, 30),
    ensures
        r@ == group_row(*g),
{
    let mut l = String::new();
    push_padded_u64(&mut l, g.id, 8);
    l.append("  ");
    push_padded(&mut l, truncate(g.name.as_str(), 30), 30);
    l.append("  ");
    match &g.group_type {
        Some(t) => push_padded(&mut l, t.as_str(), 12),
        None => push_padded(&mut l, "-", 12),
    }
    l.append("  ");
    push_decimal(&mut l, g.members.len() as u64);
    l
}

/// The table of groups.
pub fn groups_lines_of(groups: &Vec<Group>) -> (r: Vec<String>)
    requires
        group_names_cuttable(groups@),
    ensures
        views(r@) == groups_lines(groups@),
{
    let mut r: Vec<String> = Vec::new();
    if groups.len() == 0 {
        emit_str(&mut r, "No groups found.");
        return r;
    }
    let mut h = String::new();
    push_padded(&mut h, "ID", 8);
    h.append("  ");
    push_padded(&mut h, "Name", 30);
    h.append("  ");
    push_padded(&mut h, "Type", 12);
    h.append("  Members");
    emit(&mut r, h);
    emit(&mut r, repeated('-', 62));
    let ghost head = views(r@);
    let mut i: usize = 0;
    while i < groups.len()
        invariant
            i <= groups@.len(),
            group_names_cuttable(groups@),
            views(r@) == head + groups@.take(i as int).map_values(group_row_fn()),
        decreases groups.len() - i,
    {
        let row = group_row_of(&groups[i]);
        emit(&mut r, row);
        assert(groups@.take(i + 1).map_values(group_row_fn()) =~= groups@.take(
            i as int,
        ).map_values(group_row_fn()).push(group_row(groups@[i as int])));
        i += 1;
    }
    assert(groups@.take(groups@.len() as int) =~= groups@);
    assert(views(r@) =~= groups_lines(groups@));
    r
}

pub open spec fn member_line(m: GroupMember) -> Seq<char> {
    let head = "  "@ + full_name(m.first_name@, opt_view(m.last_name)) + " ("@ + decimal(
        m.id as nat,
    ) + ")"@;
    let bals = listed_amounts(m.balance@);
    if bals.len() == 0 {
        head
    } else {
        head + " ["@ + join(bals, ", "@) + "]"@
    }
}

pub open spec fn member_line_fn() -> spec_fn(GroupMember) -> Seq<char> {
    |m: GroupMember| member_line(m)
}

pub open spec fn debt_line(d: Debt) -> Seq<char> {
    "  "@ + decimal(d.from as nat) + " -> "@ + decimal(d.to as nat) + ": "@ + money(
        d.amount@,
        d.currency_code@,
    )
}

pub open spec fn debt_line_fn() -> spec_fn(Debt) -> Seq<char> {
    |d: Debt| debt_line(d)
}

pub open spec fn group_fields(g: Group) -> Seq<Seq<char>> {
    seq!["ID:       "@ + decimal(g.id as nat), "Name:     "@ + g.name@] + opt_line(
        "Type:     "@,
        g.group_type,
    ) + match g.simplify_by_default {
        Some(s) => seq!["Simplify: "@ + bool_text(s)],
        None => Seq::empty(),
    } + opt_line("Invite:   "@, g.invite_link)
}

pub open spec fn members_section(g: Group) -> Seq<Seq<char>> {
    if g.members@.len() > 0 {
        seq![Seq::empty(), "Members:"@] + g.members@.map_values(member_line_fn())
    } else {
        Seq::empty()
    }
}

pub open spec fn debts_section(g: Group) -> Seq<Seq<char>> {
    if g.simplified_debts@.len() > 0 {
        seq![Seq::empty(), "Debts (simplified):"@] + g.simplified_debts@.map_values(debt_line_fn())
    } else if g.original_debts@.len() > 0 {
        seq![Seq::empty(), "Debts (original):"@] + g.original_debts@.map_values(debt_line_fn())
    } else {
        Seq::empty()
    }
}

pub open spec fn group_lines(g: Group) -> Seq<Seq<char>> {
    group_fields(g) + members_section(g) + debts_section(g)
}

fn member_line_of(m: &GroupMember) -> (r: String)
    ensures
        r@ == member_line(*m),
{
    let mut l = to_owned("  ");
    let n = name_of(&m.first_name, &m.last_name);
    l.append(n.as_str());
    l.append(" (");
    push_decimal(&mut l, m.id);
    l.append(")");
    let bals = listed_amount_texts(&m.balance);
    if bals.len() > 0 {
        l.append(" [");
        let j = join_strings(&bals, ", ");
        l.append(j.as_str());
        l.append("]");
    }
    l
}

fn debt_line_of(d: &Debt) -> (r: String)
    ensures
        r@ == debt_line(*d),
{
    let mut l = to_owned("  ");
    push_decimal(&mut l, d.from);
    l.append(" -> ");
    push_decimal(&mut l, d.to);
    l.append(": ");
    push_money(&mut l, &d.amount, &d.currency_code);
    l
}

fn emit_debt_lines(r: &mut Vec<String>, ds: &Vec<Debt>)
    ensures
        views(final(r)@) == views(old(r)@) + ds@.map_values(debt_line_fn()),
{
    let ghost head = views(r@);
    let mut i: usize = 0;
    while i < ds.len()
        invariant
            i <= ds@.len(),
            views(r@) == head + ds@.take(i as int).map_values(debt_line_fn()),
        decreases ds.len() - i,
    {
        let l = debt_line_of(&ds[i]);
        emit(r, l);
        assert(ds@.take(i + 1).map_values(debt_line_fn()) =~= ds@.take(i as int).map_values(
            debt_line_fn(),
        ).push(debt_line(ds@[i as int])));
        i += 1;
    }
    assert(ds@.take(ds@.len() as int) =~= ds@);
}

fn emit_member_lines(r: &mut Vec<String>, ms: &Vec<GroupMember>)
    ensures
        views(final(r)@) == views(old(r)@) + ms@.map_values(member_line_fn()),
{
    let ghost head = views(r@);
    let mut i: usize = 0;
    while i < ms.len()
        invariant
            i <= ms@.len(),
            views(r@) == head + ms@.take(i as int).map_values(member_line_fn()),
        decreases ms.len() - i,
    {
        let l = member_line_of(&ms[i]);
        emit(r, l);
        assert(ms@.take(i + 1).map_values(member_line_fn()) =~= ms@.take(i as int).map_values(
            member_line_fn(),
        ).push(member_line(ms@[i as int])));
        i += 1;
    }
    assert(ms@.take(ms@.len() as int) =~= ms@);
}

fn emit_group_fields(r: &mut Vec<String>, group: &Group)
    ensures
        views(final(r)@) == views(old(r)@) + group_fields(*group),
{
    let ghost start = views(r@);
    let mut l = to_owned("ID:       ");
    push_decimal(&mut l, group.id);
    emit(r, l);
    let mut l = to_owned("Name:     ");
    l.append(group.name.as_str());
    emit(r, l);
    emit_opt(r, "Type:     ", &group.group_type);
    let ghost a = views(r@);
    match group.simplify_by_default {
        Some(s) => {
            let mut l = to_owned("Simplify: ");
            l.append(bool_str(s));
            emit(r, l);
        },
        None => {},
    }
    let ghost b = views(r@);
    assert(b =~= a + match group.simplify_by_default {
        Some(s) => seq!["Simplify: "@ + bool_text(s)],
        None => Seq::<Seq<char>>::empty(),
    });
    emit_opt(r, "Invite:   ", &group.invite_link);
    assert(views(r@) =~= start + group_fields(*group));
}

fn emit_members_section(r: &mut Vec<String>, group: &Group)
    ensures
        views(final(r)@) == views(old(r)@) + members_section(*group),
{
    let ghost start = views(r@);
    if group.members.len() > 0 {
        emit(r, String::new());
        emit_str(r, "Members:");
        emit_member_lines(r, &group.members);
    }
    assert(views(r@) =~= start + members_section(*group));
}

fn emit_debts_section(r: &mut Vec<String>, group: &Group)
    ensures
        views(final(r)@) == views(old(r)@) + debts_section(*group),
{
    let ghost start = views(r@);
    if group.simplified_debts.len() > 0 {
        emit(r, String::new());
        emit_str(r, "Debts (simplified):");
        emit_debt_lines(r, &group.simplified_debts);
    } else if group.original_debts.len() > 0 {
        emit(r, String::new());
        emit_str(r, "Debts (original):");
        emit_debt_lines(r, &group.original_debts);
    }
    assert(views(r@) =~= start + debts_section(*group));
}

/// The lines that describe a group: its fields, members and debts.
pub fn group_lines_of(group: &Group) -> (r: Vec<String>)
    ensures
        views(r@) == group_lines(*group),
{
    let mut r: Vec<String> = Vec::new();
    assert(views(r@) =~= Seq::<Seq<char>>::empty());
    emit_group_fields(&mut r, group);
    emit_members_section(&mut r, group);
    emit_debts_section(&mut r, group);
    assert(views(r@) =~= group_lines(*group));
    r
}

// ───────────────────────── friends ─────────────────────────

pub open spec fn friend_name(f: Friend) -> Seq<char> {
    full_name(f.first_name@, opt_view(f.last_name))
}

pub open spec fn friends_header() -> Seq<char> {
    pad_right("ID"@, 8) + "  "@ + pad_right("Name"@, 25) + "  Balance"@
}

/// The balance column of a friend: the listed amounts, or "settled up".
pub open spec fn balance_summary(bs: Seq<Balance>) -> Seq<char> {
    let bals = listed_amounts(bs);
    if bals.len() == 0 {
        "settled up"@
    } else {
        join(bals, ", "@)
    }
}

pub open spec fn friend_row(f: Friend) -> Seq<char> {
    pad_right(decimal(f.id as nat), 8) + "  "@ + pad_right(cut_bytes(friend_name(f), 25), 25)
        + "  "@ + balance_summary(f.balance@)
}

pub open spec fn friend_row_fn() -> spec_fn(Friend) -> Seq<char> {
    |f: Friend| friend_row(f)
}

pub open spec fn friends_lines(fs: Seq<Friend>) -> Seq<Seq<char>> {
    if fs.len() == 0 {
        seq!["No friends found."@]
    } else {
        seq![friends_header(), repeat_char('-', 55)] + fs.map_values(friend_row_fn())
    }
}

/// Whether every friend's name can be cut to the listing's column.
pub open spec fn friend_names_cuttable(fs: Seq<Friend>) -> bool {
    forall|i: int| 0 <= i < fs.len() ==> cuttable(friend_name(#[trigger] fs[i]), 25)
}

fn balance_summary_of(bs: &Vec<Balance>) -> (r: String)
    ensures
        r@ == balance_summary(bs@),
{
    let bals = listed_amount_texts(bs);
    if bals.len() == 0 {
        to_owned("settled up")
    } else {
        join_strings(&bals, ", ")
    }
}

fn friend_row_of(f: &Friend) -> (r: String)
    requires
        cuttable(friend_name(*f), 25),
    ensures
        r@ == friend_row(*f),
{
    let name = name_of(&f.first_name, &f.last_name);
    let mut l = String::new();
    push_padded_u64(&mut l, f.id, 8);
    l.append("  ");
    push_padded(&mut l, truncate(name.as_str(), 25), 25);
    l.append("  ");
    let b = balance_summary_of(&f.balance);
    l.append(b.as_str());
    l
}

/// The table of friends with their balances.
pub fn friends_lines_of(friends: &Vec<Friend>) -> (r: Vec<String>)
    requires
        friend_names_cuttable(friends@),
    ensures
        views(r@) == friends_lines(friends@),
{
    let mut r: Vec<String> = Vec::new();
    if friends.len() == 0 {
        emit_str(&mut r, "No friends found.");
        return r;
    }
    let mut h = String::new();
    push_padded(&mut h, "ID", 8);
    h.append("  ");
    push_padded(&mut h, "Name", 25);
    h.append("  Balance");
    emit(&mut r, h);
    emit(&mut r, repeated('-', 55));
    let ghost head = views(r@);
    let mut i: usize = 0;
    while i < friends.len()
        invariant
            i <= friends@.len(),
            friend_names_cuttable(friends@),
            views(r@) == head + friends@.take(i as int).map_values(friend_row_fn()),
        decreases friends.len() - i,
    {
        let row = friend_row_of(&friends[i]);
        emit(&mut r, row);
        assert(friends@.take(i + 1).map_values(friend_row_fn()) =~= friends@.take(
            i as int,
        ).map_values(friend_row_fn()).push(friend_row(friends@[i as int])));
        i += 1;
    }
    assert(friends@.take(friends@.len() as int) =~= friends@);
    assert(views(r@) =~= friends_lines(friends@));
    r
}

/// "owes you ..." for a positive amount, "you owe ..." (without the minus
/// signs) for any other.
pub open spec fn owe_line(b: Balance) -> Seq<char> {
    if sign_of(b.amount@) == Sign::Positive {
        "  owes you "@ + balance_money(b)
    } else {
        "  you owe "@ + money(strip_leading(b.amount@, '-'), b.currency_code@)
    }
}

pub open spec fn owe_line_fn() -> spec_fn(Balance) -> Seq<char> {
    |b: Balance| owe_line(b)
}

pub open spec fn friend_lines(f: Friend) -> Seq<Seq<char>> {
    let owed = keep_map(f.balance@, listed_balance(), owe_line_fn());
    seq!["ID:    "@ + decimal(f.id as nat), "Name:  "@ + friend_name(f)] + opt_line(
        "Email: "@,
        f.email,
    ) + if owed.len() == 0 {
        seq!["Balance: settled up"@]
    } else {
        seq![Seq::empty(), "Balance:"@] + owed
    }
}

fn owe_line_of(b: &Balance) -> (r: String)
    ensures
        r@ == owe_line(*b),
{
    if amount_sign(b.amount.as_str()) == Sign::Positive {
        let mut l = to_owned("  owes you ");
        push_money(&mut l, &b.amount, &b.currency_code);
        l
    } else {
        let mut l = to_owned("  you owe ");
        let a = strip_leading_char(b.amount.as_str(), '-');
        push_money(&mut l, &a, &b.currency_code);
        l
    }
}

fn owe_lines_of(bs: &Vec<Balance>) -> (r: Vec<String>)
    ensures
        views(r@) == keep_map(bs@, listed_balance(), owe_line_fn()),
{
    let mut r: Vec<String> = Vec::new();
    let mut i: usize = 0;
    while i < bs.len()
        invariant
            i <= bs@.len(),
            views(r@) == keep_map(bs@.take(i as int), listed_balance(), owe_line_fn()),
        decreases bs.len() - i,
    {
        assert(bs@.take(i + 1).drop_last() =~= bs@.take(i as int));
        assert(bs@.take(i + 1).last() == bs@[i as int]);
        if listed(bs[i].amount.as_str()) {
            let l = owe_line_of(&bs[i]);
            emit(&mut r, l);
        }
        i += 1;
    }
    assert(bs@.take(bs@.len() as int) =~= bs@);
    r
}

/// The lines that describe a friend and what is owed either way.
pub fn friend_lines_of(friend: &Friend) -> (r: Vec<String>)
    ensures
        views(r@) == friend_lines(*friend),
{
    let mut r: Vec<String> = Vec::new();
    let mut l = to_owned("ID:    ");
    push_decimal(&mut l, friend.id);
    emit(&mut r, l);
    let mut l = to_owned("Name:  ");
    let n = name_of(&friend.first_name, &friend.last_name);
    l.append(n.as_str());
    emit(&mut r, l);
    emit_opt(&mut r, "Email: ", &friend.email);
    let owed = owe_lines_of(&friend.balance);
    if owed.len() == 0 {
        emit_str(&mut r, "Balance: settled up");
    } else {
        emit(&mut r, String::new());
        emit_str(&mut r, "Balance:");
        let ghost head = views(r@);
        let mut i: usize = 0;
        while i < owed.len()
            invariant
                i <= owed@.len(),
                views(r@) == head + views(owed@.take(i as int)),
            decreases owed.len() - i,
        {
            let l = to_owned(owed[i].as_str());
            emit(&mut r, l);
            assert(views(owed@.take(i + 1)) =~= views(owed@.take(i as int)).push(owed@[i as int]@));
            i += 1;
        }
        assert(owed@.take(owed@.len() as int) =~= owed@);
    }
    assert(views(r@) =~= friend_lines(*friend));
    r
}

// ───────────────────────── expenses ─────────────────────────

pub open spec fn expenses_header() -> Seq<char> {
    pad_right("ID"@, 8) + "  "@ + pad_right("Description"@, 30) + "  "@ + pad_right("Cost"@, 10)
        + "  "@ + pad_right("Curr"@, 5) + "  Date"@
}

pub open spec fn expense_row(e: Expense) -> Seq<char> {
    pad_right(decimal(e.id as nat), 8) + "  "@ + pad_right(cut_bytes(e.description@, 30), 30)
        + "  "@ + pad_right(e.cost@, 10) + "  "@ + pad_right(e.currency_code@, 5) + "  "@
        + short_date_or(e.date, "-"@) + if e.deleted_at is Some {
        " [deleted]"@
    } else {
        Seq::empty()
    }
}

pub open spec fn expense_row_fn() -> spec_fn(Expense) -> Seq<char> {
    |e: Expense| expense_row(e)
}

pub open spec fn expenses_lines(es: Seq<Expense>) -> Seq<Seq<char>> {
    if es.len() == 0 {
        seq!["No expenses found."@]
    } else {
        seq![expenses_header(), repeat_char('-', 72)] + es.map_values(expense_row_fn())
    }
}

/// Whether an expense's row can be laid out: its description can be cut to
/// the column and its date to ten bytes.
pub open spec fn expense_row_defined(e: Expense) -> bool {
    cuttable(e.description@, 30) && date_cuttable(e.date)
}

pub open spec fn expense_rows_defined(es: Seq<Expense>) -> bool {
    forall|i: int| 0 <= i < es.len() ==> expense_row_defined(#[trigger] es[i])
}

/// Appends an optional date cut to its first ten bytes, or a placeholder.
fn push_short_date_or(out: &mut String, d: &Option<String>, none: &str)
    requires
        date_cuttable(*d),
    ensures
        final(out)@ == old(out)@ + short_date_or(*d, none@),
{
    match d {
        Some(s) => out.append(date_short(s.as_str())),
        None => out.append(none),
    }
}

fn expense_row_of(e: &Expense) -> (r: String)
    requires
        expense_row_defined(*e),
    ensures
        r@ == expense_row(*e),
{
    let mut l = String::new();
    push_padded_u64(&mut l, e.id, 8);
    l.append("  ");
    push_padded(&mut l, truncate(e.description.as_str(), 30), 30);
    l.append("  ");
    push_padded(&mut l, e.cost.as_str(), 10);
    l.append("  ");
    push_padded(&mut l, e.currency_code.as_str(), 5);
    l.append("  ");
    push_short_date_or(&mut l, &e.date, "-");
    let ghost before = l@;
    if e.deleted_at.is_some() {
        l.append(" [deleted]");
    }
    assert(l@ =~= before + if e.deleted_at is Some {
        " [deleted]"@
    } else {
        Seq::empty()
    });
    l
}

/// The table of expenses.
pub fn expenses_lines_of(expenses: &Vec<Expense>) -> (r: Vec<String>)
    requires
        expense_rows_defined(expenses@),
    ensures
        views(r@) == expenses_lines(expenses@),
{
    let mut r: Vec<String> = Vec::new();
    if expenses.len() == 0 {
        emit_str(&mut r, "No expenses found.");
        return r;
    }
    let mut h = String::new();
    push_padded(&mut h, "ID", 8);
    h.append("  ");
    push_padded(&mut h, "Description", 30);
    h.append("  ");
    push_padded(&mut h, "Cost", 10);
    h.append("  ");
    push_padded(&mut h, "Curr", 5);
    h.append("  Date");
    emit(&mut r, h);
    emit(&mut r, repeated('-', 72));
    let ghost head = views(r@);
    let mut i: usize = 0;
    while i < expenses.len()
        invariant
            i <= expenses@.len(),
            expense_rows_defined(expenses@),
            views(r@) == head + expenses@.take(i as int).map_values(expense_row_fn()),
        decreases expenses.len() - i,
    {
        let row = expense_row_of(&expenses[i]);
        emit(&mut r, row);
        assert(expenses@.take(i + 1).map_values(expense_row_fn()) =~= expenses@.take(
            i as int,
        ).map_values(expense_row_fn()).push(expense_row(expenses@[i as int])));
        i += 1;
    }
    assert(expenses@.take(expenses@.len() as int) =~= expenses@);
    assert(views(r@) =~= expenses_lines(expenses@));
    r
}

pub open spec fn share_name(s: Share) -> Seq<char> {
    full_name(
        match s.first_name {
            Some(f) => f@,
            None => "?"@,
        },
        opt_view(s.last_name),
    )
}

pub open spec fn share_row(s: Share) -> Seq<char> {
    "  "@ + pad_right(decimal(s.user_id as nat), 8) + "  "@ + pad_right(
        cut_bytes(share_name(s), 20),
        20,
    ) + "  "@ + pad_right(s.paid_share@, 10) + "  "@ + pad_right(s.owed_share@, 10) + "  "@
        + s.net_balance@
}

pub open spec fn share_row_fn() -> spec_fn(Share) -> Seq<char> {
    |s: Share| share_row(s)
}

pub open spec fn repayment_line(r: Repayment) -> Seq<char> {
    "  "@ + decimal(r.from as nat) + " -> "@ + decimal(r.to as nat) + ": "@ + r.amount@
}

pub open spec fn repayment_line_fn() -> spec_fn(Repayment) -> Seq<char> {
    |r: Repayment| repayment_line(r)
}

pub open spec fn expense_fields(e: Expense) -> Seq<Seq<char>> {
    seq![
        "ID:          "@ + decimal(e.id as nat),
        "Description: "@ + e.description@,
        "Cost:        "@ + money(e.cost@, e.currency_code@),
    ] + match e.date {
        Some(d) => seq!["Date:        "@ + cut_bytes(d@, 10)],
        None => Seq::empty(),
    } + match e.category {
        Some(c) => seq!["Category:    "@ + c.name@],
        None => Seq::empty(),
    } + match e.created_by {
        Some(u) => seq![
            "Created by:  "@ + full_name(u.first_name@, opt_view(u.last_name)) + " ("@ + decimal(
                u.id as nat,
            ) + ")"@,
        ],
        None => Seq::empty(),
    } + (if e.deleted_at is Some {
        seq!["Status:      DELETED"@]
    } else {
        Seq::empty()
    }) + opt_line("Repeats:     "@, e.repeat_interval)
}

pub open spec fn shares_header() -> Seq<char> {
    "  "@ + pad_right("UserID"@, 8) + "  "@ + pad_right("Name"@, 20) + "  "@ + pad_right(
        "Paid"@,
        10,
    ) + "  "@ + pad_right("Owed"@, 10) + "  Net"@
}

pub open spec fn shares_section(e: Expense) -> Seq<Seq<char>> {
    if e.users@.len() > 0 {
        seq![Seq::empty(), "Shares:"@, shares_header(), "  "@ + repeat_char('-', 58)]
            + e.users@.map_values(share_row_fn())
    } else {
        Seq::empty()
    }
}

pub open spec fn repayments_section(e: Expense) -> Seq<Seq<char>> {
    if e.repayments@.len() > 0 {
        seq![Seq::empty(), "Repayments:"@] + e.repayments@.map_values(repayment_line_fn())
    } else {
        Seq::empty()
    }
}

pub open spec fn expense_lines(e: Expense) -> Seq<Seq<char>> {
    expense_fields(e) + shares_section(e) + repayments_section(e)
}

/// Whether an expense's details can be laid out: its date can be cut to ten
/// bytes and every share's name to its column.
pub open spec fn expense_lines_defined(e: Expense) -> bool {
    &&& date_cuttable(e.date)
    &&& forall|i: int| 0 <= i < e.users@.len() ==> cuttable(share_name(#[trigger] e.users@[i]), 20)
}

fn emit_expense_fields(r: &mut Vec<String>, e: &Expense)
    requires
        date_cuttable(e.date),
    ensures
        views(final(r)@) == views(old(r)@) + expense_fields(*e),
{
    let ghost start = views(r@);
    let mut l = to_owned("ID:          ");
    push_decimal(&mut l, e.id);
    emit(r, l);
    let mut l = to_owned("Description: ");
    l.append(e.description.as_str());
    emit(r, l);
    let mut l = to_owned("Cost:        ");
    push_money(&mut l, &e.cost, &e.currency_code);
    emit(r, l);
    let ghost a = views(r@);
    match &e.date {
        Some(d) => {
            let mut l = to_owned("Date:        ");
            l.append(date_short(d.as_str()));
            emit(r, l);
        },
        None => {},
    }
    let ghost b = views(r@);
    match &e.category {
        Some(c) => {
            let mut l = to_owned("Category:    ");
            l.append(c.name.as_str());
            emit(r, l);
        },
        None => {},
    }
    let ghost c = views(r@);
    match &e.created_by {
        Some(u) => {
            let mut l = to_owned("Created by:  ");
            let n = name_of(&u.first_name, &u.last_name);
            l.append(n.as_str());
            l.append(" (");
            push_decimal(&mut l, u.id);
            l.append(")");
            emit(r, l);
        },
        None => {},
    }
    let ghost d = views(r@);
    if e.deleted_at.is_some() {
        emit_str(r, "Status:      DELETED");
    }
    let ghost f = views(r@);
    emit_opt(r, "Repeats:     ", &e.repeat_interval);
    assert(a =~= start + seq![
        "ID:          "@ + decimal(e.id as nat),
        "Description: "@ + e.description@,
        "Cost:        "@ + money(e.cost@, e.currency_code@),
    ]);
    assert(b =~= a + match e.date {
        Some(dd) => seq!["Date:        "@ + cut_bytes(dd@, 10)],
        None => Seq::<Seq<char>>::empty(),
    });
    assert(c =~= b + match e.category {
        Some(cc) => seq!["Category:    "@ + cc.name@],
        None => Seq::<Seq<char>>::empty(),
    });
    assert(d =~= c + match e.created_by {
        Some(u) => seq![
            "Created by:  "@ + full_name(u.first_name@, opt_view(u.last_name)) + " ("@ + decimal(
                u.id as nat,
            ) + ")"@,
        ],
        None => Seq::<Seq<char>>::empty(),
    });
    assert(f =~= d + (if e.deleted_at is Some {
        seq!["Status:      DELETED"@]
    } else {
        Seq::<Seq<char>>::empty()
    }));
    assert(views(r@) =~= start + expense_fields(*e));
}

fn share_row_of(s: &Share) -> (r: String)
    requires
        cuttable(share_name(*s), 20),
    ensures
        r@ == share_row(*s),
{
    let name = match &s.first_name {
        Some(f) => display_name(f.as_str(), match &s.last_name {
            Some(l) => Some(l.as_str()),
            None => None,
        }),
        None => display_name("?", match &s.last_name {
            Some(l) => Some(l.as_str()),
            None => None,
        }),
    };
    let mut l = to_owned("  ");
    push_padded_u64(&mut l, s.user_id, 8);
    l.append("  ");
    push_padded(&mut l, truncate(name.as_str(), 20), 20);
    l.append("  ");
    push_padded(&mut l, s.paid_share.as_str(), 10);
    l.append("  ");
    push_padded(&mut l, s.owed_share.as_str(), 10);
    l.append("  ");
    l.append(s.net_balance.as_str());
    l
}

fn emit_shares_section(r: &mut Vec<String>, e: &Expense)
    requires
        expense_lines_defined(*e),
    ensures
        views(final(r)@) == views(old(r)@) + shares_section(*e),
{
    let ghost start = views(r@);
    if e.users.len() > 0 {
        emit(r, String::new());
        emit_str(r, "Shares:");
        let mut h = to_owned("  ");
        push_padded(&mut h, "UserID", 8);
        h.append("  ");
        push_padded(&mut h, "Name", 20);
        h.append("  ");
        push_padded(&mut h, "Paid", 10);
        h.append("  ");
        push_padded(&mut h, "Owed", 10);
        h.append("  Net");
        emit(r, h);
        let mut d = to_owned("  ");
        let dashes = repeated('-', 58);
        d.append(dashes.as_str());
        emit(r, d);
        let ghost head = views(r@);
        let mut i: usize = 0;
        while i < e.users.len()
            invariant
                i <= e.users@.len(),
                expense_lines_defined(*e),
                views(r@) == head + e.users@.take(i as int).map_values(share_row_fn()),
            decreases e.users.len() - i,
        {
            let row = share_row_of(&e.users[i]);
            emit(r, row);
            assert(e.users@.take(i + 1).map_values(share_row_fn()) =~= e.users@.take(
                i as int,
            ).map_values(share_row_fn()).push(share_row(e.users@[i as int])));
            i += 1;
        }
        assert(e.users@.take(e.users@.len() as int) =~= e.users@);
    }
    assert(views(r@) =~= start + shares_section(*e));
}

fn emit_repayments_section(r: &mut Vec<String>, e: &Expense)
    ensures
        views(final(r)@) == views(old(r)@) + repayments_section(*e),
{
    let ghost start = views(r@);
    if e.repayments.len() > 0 {
        emit(r, String::new());
        emit_str(r, "Repayments:");
        let ghost head = views(r@);
        let mut i: usize = 0;
        while i < e.repayments.len()
            invariant
                i <= e.repayments@.len(),
                views(r@) == head + e.repayments@.take(i as int).map_values(repayment_line_fn()),
            decreases e.repayments.len() - i,
        {
            let p = &e.repayments[i];
            let mut l = to_owned("  ");
            push_decimal(&mut l, p.from);
            l.append(" -> ");
            push_decimal(&mut l, p.to);
            l.append(": ");
            l.append(p.amount.as_str());
            emit(r, l);
            assert(e.repayments@.take(i + 1).map_values(repayment_line_fn()) =~= e.repayments@.take(
                i as int,
            ).map_values(repayment_line_fn()).push(repayment_line(e.repayments@[i as int])));
            i += 1;
        }
        assert(e.repayments@.take(e.repayments@.len() as int) =~= e.repayments@);
    }
    assert(views(r@) =~= start + repayments_section(*e));
}

/// The lines that describe an expense: its fields, shares and repayments.
pub fn expense_lines_of(expense: &Expense) -> (r: Vec<String>)
    requires
        expense_lines_defined(*expense),
    ensures
        views(r@) == expense_lines(*expense),
{
    let mut r: Vec<String> = Vec::new();
    assert(views(r@) =~= Seq::<Seq<char>>::empty());
    emit_expense_fields(&mut r, expense);
    emit_shares_section(&mut r, expense);
    emit_repayments_section(&mut r, expense);
    assert(views(r@) =~= expense_lines(*expense));
    r
}

// ───────────────────────── comments ─────────────────────────

pub open spec fn comment_author(c: Comment) -> Seq<char> {
    match c.created_by {
        Some(u) => full_name(u.first_name@, opt_view(u.last_name)),
        None => "Unknown"@,
    }
}

pub open spec fn comment_row(c: Comment) -> Seq<char> {
    "["@ + decimal(c.id as nat) + "] "@ + comment_author(c) + " ("@ + short_date_or(
        c.created_at,
        "-"@,
    ) + "): "@ + strip_tags(c.content@)
}

pub open spec fn comment_row_fn() -> spec_fn(Comment) -> Seq<char> {
    |c: Comment| comment_row(c)
}

pub open spec fn comment_shown() -> spec_fn(Comment) -> bool {
    |c: Comment| c.deleted_at is None
}

/// The comments that are not deleted, one per line; "No comments." for an
/// empty list.
pub open spec fn comments_lines(cs: Seq<Comment>) -> Seq<Seq<char>> {
    if cs.len() == 0 {
        seq!["No comments."@]
    } else {
        keep_map(cs, comment_shown(), comment_row_fn())
    }
}

/// Whether the date of every comment that is shown can be cut to ten bytes.
pub open spec fn comment_dates_cuttable(cs: Seq<Comment>) -> bool {
    forall|i: int|
        0 <= i < cs.len() && (#[trigger] cs[i]).deleted_at is None ==> date_cuttable(
            cs[i].created_at,
        )
}

fn comment_author_of(c: &Comment) -> (r: String)
    ensures
        r@ == comment_author(*c),
{
    match &c.created_by {
        Some(u) => name_of(&u.first_name, &u.last_name),
        None => to_owned("Unknown"),
    }
}

fn comment_row_of(c: &Comment) -> (r: String)
    requires
        date_cuttable(c.created_at),
    ensures
        r@ == comment_row(*c),
{
    let mut l = to_owned("[");
    push_decimal(&mut l, c.id);
    l.append("] ");
    let by = comment_author_of(c);
    l.append(by.as_str());
    l.append(" (");
    push_short_date_or(&mut l, &c.created_at, "-");
    l.append("): ");
    let content = strip_html(c.content.as_str());
    l.append(content.as_str());
    l
}

/// The comments of an expense, one line each.
pub fn comments_lines_of(comments: &Vec<Comment>) -> (r: Vec<String>)
    requires
        comment_dates_cuttable(comments@),
    ensures
        views(r@) == comments_lines(comments@),
{
    let mut r: Vec<String> = Vec::new();
    if comments.len() == 0 {
        emit_str(&mut r, "No comments.");
        return r;
    }
    let mut i: usize = 0;
    while i < comments.len()
        invariant
            i <= comments@.len(),
            comment_dates_cuttable(comments@),
            views(r@) == keep_map(comments@.take(i as int), comment_shown(), comment_row_fn()),
        decreases comments.len() - i,
    {
        assert(comments@.take(i + 1).drop_last() =~= comments@.take(i as int));
        assert(comments@.take(i + 1).last() == comments@[i as int]);
        if comments[i].deleted_at.is_none() {
            let l = comment_row_of(&comments[i]);
            emit(&mut r, l);
        }
        i += 1;
    }
    assert(comments@.take(comments@.len() as int) =~= comments@);
    r
}

pub open spec fn comment_lines(c: Comment) -> Seq<Seq<char>> {
    seq![
        "ID:      "@ + decimal(c.id as nat),
        "By:      "@ + comment_author(c),
        "Content: "@ + strip_tags(c.content@),
    ] + opt_line("Date:    "@, c.created_at)
}

/// The lines that describe one comment.
pub fn comment_lines_of(comment: &Comment) -> (r: Vec<String>)
    ensures
        views(r@) == comment_lines(*comment),
{
    let mut r: Vec<String> = Vec::new();
    let mut l = to_owned("ID:      ");
    push_decimal(&mut l, comment.id);
    emit(&mut r, l);
    let mut l = to_owned("By:      ");
    let by = comment_author_of(comment);
    l.append(by.as_str());
    emit(&mut r, l);
    let mut l = to_owned("Content: ");
    let content = strip_html(comment.content.as_str());
    l.append(content.as_str());
    emit(&mut r, l);
    emit_opt(&mut r, "Date:    ", &comment.created_at);
    assert(views(r@) =~= comment_lines(*comment));
    r
}

// ───────────────────────── balances ─────────────────────────

/// "NAME owes you ..." for a positive amount, "you owe NAME ..." (without the
/// minus signs) for any other.
pub open spec fn balance_sentence(name: Seq<char>, b: Balance) -> Seq<char> {
    if sign_of(b.amount@) == Sign::Positive {
        name + " owes you "@ + balance_money(b)
    } else {
        "you owe "@ + name + " "@ + money(strip_leading(b.amount@, '-'), b.currency_code@)
    }
}

pub open spec fn balance_sentence_fn(name: Seq<char>) -> spec_fn(Balance) -> Seq<char> {
    |b: Balance| balance_sentence(name, b)
}

pub open spec fn friend_sentences(f: Friend) -> Seq<Seq<char>> {
    keep_map(f.balance@, listed_balance(), balance_sentence_fn(friend_name(f)))
}

pub open spec fn friend_sentences_fn() -> spec_fn(Friend) -> Seq<Seq<char>> {
    |f: Friend| friend_sentences(f)
}

/// One sentence per listed balance of every friend, or "All settled up!" when
/// there is none.
pub open spec fn balances_lines(fs: Seq<Friend>) -> Seq<Seq<char>> {
    let ls = concat_map(fs, friend_sentences_fn());
    if ls.len() == 0 {
        seq!["All settled up!"@]
    } else {
        ls
    }
}

fn balance_sentence_of(name: &String, b: &Balance) -> (r: String)
    ensures
        r@ == balance_sentence(name@, *b),
{
    if amount_sign(b.amount.as_str()) == Sign::Positive {
        let mut l = to_owned(name.as_str());
        l.append(" owes you ");
        push_money(&mut l, &b.amount, &b.currency_code);
        l
    } else {
        let mut l = to_owned("you owe ");
        l.append(name.as_str());
        l.append(" ");
        let a = strip_leading_char(b.amount.as_str(), '-');
        push_money(&mut l, &a, &b.currency_code);
        l
    }
}

fn emit_friend_sentences(r: &mut Vec<String>, f: &Friend)
    ensures
        views(final(r)@) == views(old(r)@) + friend_sentences(*f),
{
    let ghost start = views(r@);
    let name = name_of(&f.first_name, &f.last_name);
    let mut i: usize = 0;
    while i < f.balance.len()
        invariant
            i <= f.balance@.len(),
            name@ == friend_name(*f),
            views(r@) == start + keep_map(
                f.balance@.take(i as int),
                listed_balance(),
                balance_sentence_fn(name@),
            ),
        decreases f.balance.len() - i,
    {
        assert(f.balance@.take(i + 1).drop_last() =~= f.balance@.take(i as int));
        assert(f.balance@.take(i + 1).last() == f.balance@[i as int]);
        let ghost before = views(r@);
        if listed(f.balance[i].amount.as_str()) {
            let l = balance_sentence_of(&name, &f.balance[i]);
            emit(r, l);
        }
        assert(views(r@) =~= start + keep_map(
            f.balance@.take(i + 1),
            listed_balance(),
            balance_sentence_fn(name@),
        ));
        i += 1;
    }
    assert(f.balance@.take(f.balance@.len() as int) =~= f.balance@);
}

/// What each friend owes or is owed, one sentence per listed balance.
pub fn balances_lines_of(friends: &Vec<Friend>) -> (r: Vec<String>)
    ensures
        views(r@) == balances_lines(friends@),
{
    let mut r: Vec<String> = Vec::new();
    let mut i: usize = 0;
    assert(views(r@) =~= Seq::<Seq<char>>::empty());
    while i < friends.len()
        invariant
            i <= friends@.len(),
            views(r@) == concat_map(friends@.take(i as int), friend_sentences_fn()),
        decreases friends.len() - i,
    {
        assert(friends@.take(i + 1).drop_last() =~= friends@.take(i as int));
        assert(friends@.take(i + 1).last() == friends@[i as int]);
        emit_friend_sentences(&mut r, &friends[i]);
        i += 1;
    }
    assert(friends@.take(friends@.len() as int) =~= friends@);
    if r.len() == 0 {
        emit_str(&mut r, "All settled up!");
        assert(views(r@) =~= balances_lines(friends@));
    }
    r
}

pub open spec fn group_owes_line(ms: Seq<GroupMember>, d: Debt) -> Seq<char> {
    member_name_or_unknown(ms, d.from) + " owes "@ + member_name_or_unknown(ms, d.to) + " "@
        + money(d.amount@, d.currency_code@)
}

pub open spec fn group_owes_line_fn(ms: Seq<GroupMember>) -> spec_fn(Debt) -> Seq<char> {
    |d: Debt| group_owes_line(ms, d)
}

/// Who owes whom in a group, by name; "All settled up!" without debts.
pub open spec fn group_balances_lines(g: Group) -> Seq<Seq<char>> {
    let ds = shown_debts(g);
    if ds.len() == 0 {
        seq!["All settled up!"@]
    } else {
        ds.map_values(group_owes_line_fn(g.members@))
    }
}

/// Who owes whom in a group.
pub fn group_balances_lines_of(group: &Group) -> (r: Vec<String>)
    ensures
        views(r@) == group_balances_lines(*group),
{
    let mut r: Vec<String> = Vec::new();
    let debts = group_debts(group);
    if debts.len() == 0 {
        emit_str(&mut r, "All settled up!");
        return r;
    }
    let mut i: usize = 0;
    assert(views(r@) =~= Seq::<Seq<char>>::empty());
    while i < debts.len()
        invariant
            i <= debts@.len(),
            debts@ == shown_debts(*group),
            views(r@) == debts@.take(i as int).map_values(group_owes_line_fn(group.members@)),
        decreases debts.len() - i,
    {
        let d = &debts[i];
        let mut l = member_name_lookup(&group.members, d.from);
        l.append(" owes ");
        let to = member_name_lookup(&group.members, d.to);
        l.append(to.as_str());
        l.append(" ");
        push_money(&mut l, &d.amount, &d.currency_code);
        emit(&mut r, l);
        assert(debts@.take(i + 1).map_values(group_owes_line_fn(group.members@)) =~= debts@.take(
            i as int,
        ).map_values(group_owes_line_fn(group.members@)).push(
            group_owes_line(group.members@, debts@[i as int]),
        ));
        i += 1;
    }
    assert(debts@.take(debts@.len() as int) =~= debts@);
    r
}

// ───────────────────────── currencies, categories ─────────────────────────

pub open spec fn currency_row(c: Currency) -> Seq<char> {
    pad_right(c.currency_code@, 6) + "  "@ + c.unit@
}

pub open spec fn currency_row_fn() -> spec_fn(Currency) -> Seq<char> {
    |c: Currency| currency_row(c)
}

pub open spec fn currencies_lines(cs: Seq<Currency>) -> Seq<Seq<char>> {
    seq![pad_right("Code"@, 6) + "  Unit"@, repeat_char('-', 30)] + cs.map_values(
        currency_row_fn(),
    )
}

/// The table of currencies.
pub fn currencies_lines_of(currencies: &Vec<Currency>) -> (r: Vec<String>)
    ensures
        views(r@) == currencies_lines(currencies@),
{
    let mut r: Vec<String> = Vec::new();
    let mut h = String::new();
    push_padded(&mut h, "Code", 6);
    h.append("  Unit");
    emit(&mut r, h);
    emit(&mut r, repeated('-', 30));
    let ghost head = views(r@);
    let mut i: usize = 0;
    while i < currencies.len()
        invariant
            i <= currencies@.len(),
            views(r@) == head + currencies@.take(i as int).map_values(currency_row_fn()),
        decreases currencies.len() - i,
    {
        let c = &currencies[i];
        let mut l = String::new();
        push_padded(&mut l, c.currency_code.as_str(), 6);
        l.append("  ");
        l.append(c.unit.as_str());
        emit(&mut r, l);
        assert(currencies@.take(i + 1).map_values(currency_row_fn()) =~= currencies@.take(
            i as int,
        ).map_values(currency_row_fn()).push(currency_row(currencies@[i as int])));
        i += 1;
    }
    assert(currencies@.take(currencies@.len() as int) =~= currencies@);
    assert(views(r@) =~= currencies_lines(currencies@));
    r
}

pub open spec fn subcategory_line(s: SubCategory) -> Seq<char> {
    "  "@ + s.name@ + " ("@ + decimal(s.id as nat) + ")"@
}

pub open spec fn subcategory_line_fn() -> spec_fn(SubCategory) -> Seq<char> {
    |s: SubCategory| subcategory_line(s)
}

pub open spec fn category_lines(c: Category) -> Seq<Seq<char>> {
    seq![c.name@ + " ("@ + decimal(c.id as nat) + ")"@] + c.subcategories@.map_values(
        subcategory_line_fn(),
    )
}

pub open spec fn category_lines_fn() -> spec_fn(Category) -> Seq<Seq<char>> {
    |c: Category| category_lines(c)
}

pub open spec fn categories_lines(cs: Seq<Category>) -> Seq<Seq<char>> {
    concat_map(cs, category_lines_fn())
}

fn emit_category(r: &mut Vec<String>, c: &Category)
    ensures
        views(final(r)@) == views(old(r)@) + category_lines(*c),
{
    let ghost start = views(r@);
    let mut l = to_owned(c.name.as_str());
    l.append(" (");
    push_decimal(&mut l, c.id);
    l.append(")");
    emit(r, l);
    let ghost head = views(r@);
    let mut i: usize = 0;
    while i < c.subcategories.len()
        invariant
            i <= c.subcategories@.len(),
            views(r@) == head + c.subcategories@.take(i as int).map_values(subcategory_line_fn()),
        decreases c.subcategories.len() - i,
    {
        let s = &c.subcategories[i];
        let mut l = to_owned("  ");
        l.append(s.name.as_str());
        l.append(" (");
        push_decimal(&mut l, s.id);
        l.append(")");
        emit(r, l);
        assert(c.subcategories@.take(i + 1).map_values(subcategory_line_fn())
            =~= c.subcategories@.take(i as int).map_values(subcategory_line_fn()).push(
            subcategory_line(c.subcategories@[i as int]),
        ));
        i += 1;
    }
    assert(c.subcategories@.take(c.subcategories@.len() as int) =~= c.subcategories@);
    assert(views(r@) =~= start + category_lines(*c));
}

/// The categories, each followed by its subcategories.
pub fn categories_lines_of(categories: &Vec<Category>) -> (r: Vec<String>)
    ensures
        views(r@) == categories_lines(categories@),
{
    let mut r: Vec<String> = Vec::new();
    let mut i: usize = 0;
    assert(views(r@) =~= Seq::<Seq<char>>::empty());
    while i < categories.len()
        invariant
            i <= categories@.len(),
            views(r@) == concat_map(categories@.take(i as int), category_lines_fn()),
        decreases categories.len() - i,
    {
        assert(categories@.take(i + 1).drop_last() =~= categories@.take(i as int));
        assert(categories@.take(i + 1).last() == categories@[i as int]);
        emit_category(&mut r, &categories[i]);
        i += 1;
    }
    assert(categories@.take(categories@.len() as int) =~= categories@);
    r
}

// ───────────────────────── notifications ─────────────────────────

/// The name of a notification type, or "Unknown".
pub open spec fn notification_type_name(t: u64) -> Seq<char> {
    if t == 0 {
        "Expense added"@
    } else if t == 1 {
        "Expense updated"@
    } else if t == 2 {
        "Expense deleted"@
    } else if t == 3 {
        "Comment added"@
    } else if t == 4 {
        "Added to group"@
    } else if t == 5 {
        "Removed from group"@
    } else if t == 6 {
        "Group deleted"@
    } else if t == 7 {
        "Group settings changed"@
    } else if t == 8 {
        "Added as friend"@
    } else if t == 9 {
        "Removed as friend"@
    } else if t == 10 {
        "News"@
    } else if t == 11 {
        "Debt simplification"@
    } else if t == 12 {
        "Group undeleted"@
    } else if t == 13 {
        "Expense undeleted"@
    } else if t == 14 {
        "Group currency conversion"@
    } else if t == 15 {
        "Friend currency conversion"@
    } else {
        "Unknown"@
    }
}

/// The name of a notification type, or "Unknown".
pub fn notification_type_str(t: u64) -> (r: &'static str)
    ensures
        r@ == notification_type_name(t),
{
    if t == 0 {
        "Expense added"
    } else if t == 1 {
        "Expense updated"
    } else if t == 2 {
        "Expense deleted"
    } else if t == 3 {
        "Comment added"
    } else if t == 4 {
        "Added to group"
    } else if t == 5 {
        "Removed from group"
    } else if t == 6 {
        "Group deleted"
    } else if t == 7 {
        "Group settings changed"
    } else if t == 8 {
        "Added as friend"
    } else if t == 9 {
        "Removed as friend"
    } else if t == 10 {
        "News"
    } else if t == 11 {
        "Debt simplification"
    } else if t == 12 {
        "Group undeleted"
    } else if t == 13 {
        "Expense undeleted"
    } else if t == 14 {
        "Group currency conversion"
    } else if t == 15 {
        "Friend currency conversion"
    } else {
        "Unknown"
    }
}

pub open spec fn notification_row(n: Notification) -> Seq<char> {
    "["@ + short_date_or(n.created_at, "-"@) + "] "@ + notification_type_name(n.notification_type)
        + " | "@ + match n.content {
        Some(c) => strip_tags(c@),
        None => Seq::empty(),
    } + " ("@ + decimal(n.id as nat) + ")"@
}

pub open spec fn notification_row_fn() -> spec_fn(Notification) -> Seq<char> {
    |n: Notification| notification_row(n)
}

pub open spec fn notifications_lines(ns: Seq<Notification>) -> Seq<Seq<char>> {
    if ns.len() == 0 {
        seq!["No notifications."@]
    } else {
        ns.map_values(notification_row_fn())
    }
}

pub open spec fn notification_dates_cuttable(ns: Seq<Notification>) -> bool {
    forall|i: int| 0 <= i < ns.len() ==> date_cuttable(#[trigger] ns[i].created_at)
}

fn notification_row_of(n: &Notification) -> (r: String)
    requires
        date_cuttable(n.created_at),
    ensures
        r@ == notification_row(*n),
{
    let mut l = to_owned("[");
    push_short_date_or(&mut l, &n.created_at, "-");
    l.append("] ");
    l.append(notification_type_str(n.notification_type));
    l.append(" | ");
    let ghost before = l@;
    match &n.content {
        Some(c) => {
            let t = strip_html(c.as_str());
            l.append(t.as_str());
        },
        None => {},
    }
    assert(l@ =~= before + match n.content {
        Some(c) => strip_tags(c@),
        None => Seq::<char>::empty(),
    });
    l.append(" (");
    push_decimal(&mut l, n.id);
    l.append(")");
    l
}

/// The notifications, one line each.
pub fn notifications_lines_of(notifications: &Vec<Notification>) -> (r: Vec<String>)
    requires
        notification_dates_cuttable(notifications@),
    ensures
        views(r@) == notifications_lines(notifications@),
{
    let mut r: Vec<String> = Vec::new();
    if notifications.len() == 0 {
        emit_str(&mut r, "No notifications.");
        return r;
    }
    let mut i: usize = 0;
    assert(views(r@) =~= Seq::<Seq<char>>::empty());
    while i < notifications.len()
        invariant
            i <= notifications@.len(),
            notification_dates_cuttable(notifications@),
            views(r@) == notifications@.take(i as int).map_values(notification_row_fn()),
        decreases notifications.len() - i,
    {
        let l = notification_row_of(&notifications[i]);
        emit(&mut r, l);
        assert(notifications@.take(i + 1).map_values(notification_row_fn())
            =~= notifications@.take(i as int).map_values(notification_row_fn()).push(
            notification_row(notifications@[i as int]),
        ));
        i += 1;
    }
    assert(notifications@.take(notifications@.len() as int) =~= notifications@);
    r
}

// ───────────────────────── added friends ─────────────────────────

pub open spec fn added_friend_line(f: Friend) -> Seq<char> {
    "Added: "@ + friend_name(f) + " (ID: "@ + decimal(f.id as nat) + ")"@
}

pub open spec fn added_friend_line_fn() -> spec_fn(Friend) -> Seq<char> {
    |f: Friend| added_friend_line(f)
}

/// One confirmation line per friend that was added.
pub fn added_friends_lines_of(friends: &Vec<Friend>) -> (r: Vec<String>)
    ensures
        views(r@) == friends@.map_values(added_friend_line_fn()),
{
    let mut r: Vec<String> = Vec::new();
    let mut i: usize = 0;
    assert(views(r@) =~= Seq::<Seq<char>>::empty());
    while i < friends.len()
        invariant
            i <= friends@.len(),
            views(r@) == friends@.take(i as int).map_values(added_friend_line_fn()),
        decreases friends.len() - i,
    {
        let f = &friends[i];
        let mut l = to_owned("Added: ");
        let n = name_of(&f.first_name, &f.last_name);
        l.append(n.as_str());
        l.append(" (ID: ");
        push_decimal(&mut l, f.id);
        l.append(")");
        emit(&mut r, l);
        assert(friends@.take(i + 1).map_values(added_friend_line_fn()) =~= friends@.take(
            i as int,
        ).map_values(added_friend_line_fn()).push(added_friend_line(friends@[i as int])));
        i += 1;
    }
    assert(friends@.take(friends@.len() as int) =~= friends@);
    r
}

// ───────────────────────── laws ─────────────────────────

proof fn lemma_keep_map_len<A, B, C>(
    s: Seq<A>,
    keep: spec_fn(A) -> bool,
    f: spec_fn(A) -> B,
    g: spec_fn(A) -> C,
)
    ensures
        keep_map(s, keep, f).len() == keep_map(s, keep, g).len(),
    decreases s.len(),
{
    if s.len() > 0 {
        lemma_keep_map_len(s.drop_last(), keep, f, g);
    }
}

proof fn lemma_concat_map_empty(fs: Seq<Friend>)
    ensures
        concat_map(fs, friend_sentences_fn()).len() == 0 <==> forall|i: int|
            0 <= i < fs.len() ==> (#[trigger] friend_sentences(fs[i])).len() == 0,
    decreases fs.len(),
{
    if fs.len() > 0 {
        let p = fs.drop_last();
        lemma_concat_map_empty(p);
        if concat_map(fs, friend_sentences_fn()).len() == 0 {
            assert forall|i: int| 0 <= i < fs.len() implies (#[trigger] friend_sentences(
                fs[i],
            )).len() == 0 by {
                if i < p.len() {
                    assert(p[i] == fs[i]);
                }
            }
        } else {
            if forall|i: int| 0 <= i < fs.len() ==> (#[trigger] friend_sentences(fs[i])).len() == 0 {
                assert forall|i: int| 0 <= i < p.len() implies (#[trigger] friend_sentences(
                    p[i],
                )).len() == 0 by {
                    assert(p[i] == fs[i]);
                    assert(friend_sentences(fs[i]).len() == 0);
                }
                assert(friend_sentences(fs[fs.len() - 1]).len() == 0);
            }
        }
    }
}

/// The overall balances read "All settled up!" exactly when no friend has a
/// balance other than "0.00"; otherwise they are one sentence per such
/// balance.
pub proof fn settled_up_exactly_when_nothing_owed(fs: Seq<Friend>)
    ensures
        (forall|i: int| 0 <= i < fs.len() ==> (#[trigger] listed_amounts(fs[i].balance@)).len()
            == 0) ==> balances_lines(fs) == seq!["All settled up!"@],
        !(forall|i: int| 0 <= i < fs.len() ==> (#[trigger] listed_amounts(fs[i].balance@)).len()
            == 0) ==> balances_lines(fs) == concat_map(fs, friend_sentences_fn())
            && balances_lines(fs).len() > 0,
{
    assert forall|i: int| 0 <= i < fs.len() implies (#[trigger] friend_sentences(fs[i])).len()
        == listed_amounts(fs[i].balance@).len() by {
        lemma_keep_map_len(
            fs[i].balance@,
            listed_balance(),
            balance_sentence_fn(friend_name(fs[i])),
            balance_money_fn(),
        );
    }
    lemma_concat_map_empty(fs);
    if !(forall|i: int| 0 <= i < fs.len() ==> (#[trigger] listed_amounts(fs[i].balance@)).len()
        == 0) {
        let i = choose|i: int| 0 <= i < fs.len() && (#[trigger] listed_amounts(fs[i].balance@)).len() != 0;
        assert(friend_sentences(fs[i]).len() != 0);
    }
}

/// A friend's balance column reads "settled up" exactly when no balance of
/// theirs is other than "0.00".
pub proof fn friend_settled_up(bs: Seq<Balance>)
    ensures
        listed_amounts(bs).len() == 0 ==> balance_summary(bs) == "settled up"@,
        listed_amounts(bs).len() > 0 ==> balance_summary(bs) == join(listed_amounts(bs), ", "@),
{
}

/// A comment's author is its creator's first name, followed by a space and
/// the last name when that is given and not empty; "Unknown" only when the
/// comment has no creator. The listing row and the detail lines show it.
pub proof fn comment_author_is_full_name(c: Comment)
    ensures
        comment_author(c) == match c.created_by {
            Some(u) => match u.last_name {
                Some(l) => if l@.len() > 0 {
                    u.first_name@ + " "@ + l@
                } else {
                    u.first_name@
                },
                None => u.first_name@,
            },
            None => "Unknown"@,
        },
        comment_lines(c)[1] == "By:      "@ + comment_author(c),
        comment_row(c) == "["@ + decimal(c.id as nat) + "] "@ + comment_author(c) + " ("@
            + short_date_or(c.created_at, "-"@) + "): "@ + strip_tags(c.content@),
{
    if let Some(u) = c.created_by {
        if let Some(l) = u.last_name {
            if l@.len() > 0 {
                assert(seq![' '] =~= " "@) by {
                    reveal_strlit(" ");
                }
            }
        }
    }
}

/// The name of each notification type, as the service numbers them, and
/// "Unknown" for any other number.
pub proof fn notification_type_names(t: u64)
    ensures
        notification_type_name(0) == "Expense added"@,
        notification_type_name(1) == "Expense updated"@,
        notification_type_name(2) == "Expense deleted"@,
        notification_type_name(3) == "Comment added"@,
        notification_type_name(4) == "Added to group"@,
        notification_type_name(5) == "Removed from group"@,
        notification_type_name(6) == "Group deleted"@,
        notification_type_name(7) == "Group settings changed"@,
        notification_type_name(8) == "Added as friend"@,
        notification_type_name(9) == "Removed as friend"@,
        notification_type_name(10) == "News"@,
        notification_type_name(11) == "Debt simplification"@,
        notification_type_name(12) == "Group undeleted"@,
        notification_type_name(13) == "Expense undeleted"@,
        notification_type_name(14) == "Group currency conversion"@,
        notification_type_name(15) == "Friend currency conversion"@,
        t > 15 ==> notification_type_name(t) == "Unknown"@,
{
}

/// A group's lines show its simplification setting whenever it has one:
/// "Simplify: true" or "Simplify: false".
pub proof fn group_lines_show_simplify(g: Group)
    ensures
        g.simplify_by_default matches Some(s) ==> group_lines(g).contains(
            "Simplify: "@ + if s {
                "true"@
            } else {
                "false"@
            },
        ),
{
    if let Some(s) = g.simplify_by_default {
        let i: int = if g.group_type is Some { 3 } else { 2 };
        let fs = group_fields(g);
        assert(fs[i] == "Simplify: "@ + bool_text(s));
        assert(group_lines(g)[i] == fs[i]);
    }
}

} // verus!
