//! The text of the interactive view: list rows, detail panes, titles and the
//! status bar, as lines of spans that each carry a tone. The caller maps the
//! tones to colours and draws the lines.
use vstd::prelude::*;
use crate::amount::{amount_sign, is_listed, listed, sign_of, Sign};
use crate::display::{
    balance_money, bool_str, bool_text, group_debts, listed_amount_texts, listed_amounts,
    listed_balance, member_name_lookup, member_name_or_unknown, money, share_name, shown_debts,
    friend_name,
};
use crate::models::{Balance, Debt, Expense, Friend, Group, GroupMember, Repayment, Share};
use crate::text::{
    cut_bytes, cuttable, date_short, decimal, display_name, full_name, join, join_strings, keep_map,
    name_of, opt_view, pad_left, pad_right, push_decimal, push_padded, push_padded_left,
    repeat_char, repeated, shorten, strip_leading, strip_leading_char, to_owned, trunc, views,
};

verus! {

/// The tones of the view's palette.
#[derive(Clone, Copy, Debug, PartialEq, Eq, Structural)]
pub enum Tone {
    /// The terminal's default.
    Plain,
    /// Main text.
    Fg,
    /// Main text, bold.
    FgBold,
    /// Secondary text.
    Fg2,
    /// Muted text.
    Fg3,
    Green,
    GreenBold,
    GreenDim,
    Red,
    RedBold,
    Gold,
    GoldBold,
    Cyan,
}

/// A piece of a line. A bar span stands for a bar whose length the amount in
/// `text` gives; any other span is its text.
#[derive(Debug)]
pub struct Span {
    pub text: String,
    pub tone: Tone,
    pub bar: bool,
}

/// A line: its spans, and the tone of the whole line, if it has one.
#[derive(Debug)]
pub struct StyledLine {
    pub spans: Vec<Span>,
    pub tone: Option<Tone>,
}

// ───────────────────────── views ─────────────────────────

/// A span as text, tone and whether it is a bar.
pub type SpanV = (Seq<char>, Tone, bool);

/// A line as its spans and its own tone.
pub type LineV = (Seq<SpanV>, Option<Tone>);

pub open spec fn span_view(s: Span) -> SpanV {
    (s.text@, s.tone, s.bar)
}

pub open spec fn span_view_fn() -> spec_fn(Span) -> SpanV {
    |s: Span| span_view(s)
}

pub open spec fn spans_view(v: Seq<Span>) -> Seq<SpanV> {
    v.map_values(span_view_fn())
}

pub open spec fn line_view(l: StyledLine) -> LineV {
    (spans_view(l.spans@), l.tone)
}

pub open spec fn line_view_fn() -> spec_fn(StyledLine) -> LineV {
    |l: StyledLine| line_view(l)
}

pub open spec fn lines_view(v: Seq<StyledLine>) -> Seq<LineV> {
    v.map_values(line_view_fn())
}

/// A text span.
pub open spec fn tx(text: Seq<char>, tone: Tone) -> SpanV {
    (text, tone, false)
}

/// A line of spans, without a tone of its own.
pub open spec fn ln(spans: Seq<SpanV>) -> LineV {
    (spans, None)
}

/// A line of one text in one tone.
pub open spec fn styled(text: Seq<char>, tone: Tone) -> LineV {
    (seq![tx(text, Tone::Plain)], Some(tone))
}

/// A line of plain text.
pub open spec fn raw(text: Seq<char>) -> LineV {
    (seq![tx(text, Tone::Plain)], None)
}

/// The empty line.
pub open spec fn blank() -> LineV {
    raw(Seq::empty())
}

/// "label: value", the label in the secondary tone.
pub open spec fn label_val(label: Seq<char>, val: Seq<char>) -> LineV {
    ln(seq![tx(label + ": "@, Tone::Fg2), tx(val, Tone::Fg)])
}

/// A section heading.
pub open spec fn section(text: Seq<char>) -> LineV {
    styled(text, Tone::GreenBold)
}

// ───────────────────────── building blocks ─────────────────────────

pub fn span(text: String, tone: Tone) -> (r: Span)
    ensures
        span_view(r) == tx(text@, tone),
{
    Span { text, tone, bar: false }
}

pub fn span_str(text: &str, tone: Tone) -> (r: Span)
    ensures
        span_view(r) == tx(text@, tone),
{
    Span { text: to_owned(text), tone, bar: false }
}

fn push_span(v: &mut Vec<Span>, s: Span)
    ensures
        spans_view(final(v)@) == spans_view(old(v)@).push(span_view(s)),
{
    let ghost before = v@;
    let ghost sv = span_view(s);
    v.push(s);
    assert(spans_view(v@) =~= spans_view(before).push(sv));
}

fn line_of(spans: Vec<Span>) -> (r: StyledLine)
    ensures
        line_view(r) == ln(spans_view(spans@)),
{
    StyledLine { spans, tone: None }
}

fn styled_line(text: String, tone: Tone) -> (r: StyledLine)
    ensures
        line_view(r) == styled(text@, tone),
{
    let mut v: Vec<Span> = Vec::new();
    push_span(&mut v, span(text, Tone::Plain));
    assert(spans_view(v@) =~= seq![tx(text@, Tone::Plain)]);
    StyledLine { spans: v, tone: Some(tone) }
}

fn styled_str(text: &str, tone: Tone) -> (r: StyledLine)
    ensures
        line_view(r) == styled(text@, tone),
{
    styled_line(to_owned(text), tone)
}

fn blank_line() -> (r: StyledLine)
    ensures
        line_view(r) == blank(),
{
    let mut v: Vec<Span> = Vec::new();
    push_span(&mut v, span(String::new(), Tone::Plain));
    assert(spans_view(v@) =~= seq![tx(Seq::empty(), Tone::Plain)]);
    StyledLine { spans: v, tone: None }
}

fn label_val_line(label: &str, val: String) -> (r: StyledLine)
    ensures
        line_view(r) == label_val(label@, val@),
{
    let mut l = to_owned(label);
    l.append(": ");
    let mut v: Vec<Span> = Vec::new();
    push_span(&mut v, span(l, Tone::Fg2));
    push_span(&mut v, span(val, Tone::Fg));
    assert(spans_view(v@) =~= seq![tx(label@ + ": "@, Tone::Fg2), tx(val@, Tone::Fg)]);
    line_of(v)
}

fn emit_line(lines: &mut Vec<StyledLine>, l: StyledLine)
    ensures
        lines_view(final(lines)@) == lines_view(old(lines)@).push(line_view(l)),
{
    let ghost before = lines@;
    let ghost lv = line_view(l);
    lines.push(l);
    assert(lines_view(lines@) =~= lines_view(before).push(lv));
}

// ───────────────────────── balances ─────────────────────────

/// The tone and arrow of an amount: up and green when positive, down and red
/// when negative, a muted dot for zero.
pub open spec fn amount_tone(amount: Seq<char>) -> (Tone, Seq<char>) {
    match sign_of(amount) {
        Sign::Positive => (Tone::Green, "\u{25b2}"@),
        Sign::Negative => (Tone::Red, "\u{25bc}"@),
        Sign::Zero => (Tone::Fg3, "\u{2022}"@),
    }
}

/// The tone and arrow of an amount.
pub fn bal_style(amount: &str) -> (r: (Tone, &'static str))
    ensures
        (r.0, r.1@) == amount_tone(amount@),
{
    match amount_sign(amount) {
        Sign::Positive => (Tone::Green, "\u{25b2}"),
        Sign::Negative => (Tone::Red, "\u{25bc}"),
        Sign::Zero => (Tone::Fg3, "\u{2022}"),
    }
}

pub open spec fn identity_balance() -> spec_fn(Balance) -> Balance {
    |b: Balance| b
}

/// The listed balances (all but "0.00"), in order.
pub open spec fn listed_balances(bs: Seq<Balance>) -> Seq<Balance> {
    keep_map(bs, listed_balance(), identity_balance())
}

/// The span of one balance: arrow, amount and currency in its tone.
pub open spec fn balance_span(b: Balance) -> SpanV {
    tx(amount_tone(b.amount@).1 + " "@ + balance_money(b), amount_tone(b.amount@).0)
}

/// The spans of the listed balances, two spaces between each two.
pub open spec fn balance_spans(bs: Seq<Balance>) -> Seq<SpanV>
    decreases bs.len(),
{
    if bs.len() == 0 {
        Seq::empty()
    } else if bs.len() == 1 {
        seq![balance_span(bs[0])]
    } else {
        balance_spans(bs.drop_last()) + seq![tx("  "@, Tone::Plain), balance_span(bs.last())]
    }
}

/// The balance column of a list row: the listed balances, or a settled mark.
pub open spec fn balance_text(bs: Seq<Balance>) -> Seq<SpanV> {
    let l = listed_balances(bs);
    if l.len() == 0 {
        seq![tx("\u{2714} settled"@, Tone::Fg3)]
    } else {
        balance_spans(l)
    }
}

/// The two lines of a balance in a detail pane: who owes whom, and a bar.
pub open spec fn balance_lines(b: Balance) -> Seq<LineV> {
    let positive = sign_of(b.amount@) == Sign::Positive;
    let tone = if positive {
        Tone::Green
    } else {
        Tone::Red
    };
    let arrow = if positive {
        "\u{25b2}"@
    } else {
        "\u{25bc}"@
    };
    let text = if positive {
        "owes you "@ + balance_money(b)
    } else {
        "you owe "@ + money(strip_leading(b.amount@, '-'), b.currency_code@)
    };
    seq![
        ln(seq![tx("  "@ + arrow + " "@, tone), tx(text, tone)]),
        ln(seq![tx("    "@, Tone::Plain), (b.amount@, tone, true)]),
    ]
}

pub open spec fn balance_lines_fn() -> spec_fn(Balance) -> Seq<LineV> {
    |b: Balance| balance_lines(b)
}

fn balance_span_of(b: &Balance) -> (r: Span)
    ensures
        span_view(r) == balance_span(*b),
{
    let (tone, arrow) = bal_style(b.amount.as_str());
    let mut t = to_owned(arrow);
    t.append(" ");
    t.append(b.amount.as_str());
    t.push(' ');
    t.append(b.currency_code.as_str());
    assert(t@ =~= amount_tone(b.amount@).1 + " "@ + balance_money(*b));
    span(t, tone)
}

/// The balance column of a list row.
pub fn balance_text_of(bs: &Vec<Balance>) -> (r: Vec<Span>)
    ensures
        spans_view(r@) == balance_text(bs@),
{
    let mut r: Vec<Span> = Vec::new();
    let mut count: usize = 0;
    let mut i: usize = 0;
    while i < bs.len()
        invariant
            i <= bs@.len(),
            count == listed_balances(bs@.take(i as int)).len(),
            count <= i,
            spans_view(r@) == balance_spans(listed_balances(bs@.take(i as int))),
        decreases bs.len() - i,
    {
        assert(bs@.take(i + 1).drop_last() =~= bs@.take(i as int));
        assert(bs@.take(i + 1).last() == bs@[i as int]);
        if listed(bs[i].amount.as_str()) {
            let ghost prev = listed_balances(bs@.take(i as int));
            let ghost next = prev.push(bs@[i as int]);
            assert(listed_balances(bs@.take(i + 1)) == next);
            assert(next.drop_last() =~= prev);
            if count > 0 {
                push_span(&mut r, span_str("  ", Tone::Plain));
            } else {
                assert(prev.len() == 0);
                assert(spans_view(r@) =~= Seq::<SpanV>::empty());
            }
            push_span(&mut r, balance_span_of(&bs[i]));
            assert(spans_view(r@) =~= balance_spans(next));
            count = count + 1;
        }
        i += 1;
    }
    assert(bs@.take(bs@.len() as int) =~= bs@);
    if count == 0 {
        let mut s: Vec<Span> = Vec::new();
        push_span(&mut s, span_str("\u{2714} settled", Tone::Fg3));
        assert(spans_view(s@) =~= seq![tx("\u{2714} settled"@, Tone::Fg3)]);
        return s;
    }
    r
}

fn emit_balance_lines(lines: &mut Vec<StyledLine>, b: &Balance)
    ensures
        lines_view(final(lines)@) == lines_view(old(lines)@) + balance_lines(*b),
{
    let ghost start = lines_view(lines@);
    let positive = amount_sign(b.amount.as_str()) == Sign::Positive;
    let tone = if positive {
        Tone::Green
    } else {
        Tone::Red
    };
    let mut head = to_owned("  ");
    head.append(if positive {
        "\u{25b2}"
    } else {
        "\u{25bc}"
    });
    head.append(" ");
    let text = if positive {
        let mut t = to_owned("owes you ");
        t.append(b.amount.as_str());
        t.push(' ');
        t.append(b.currency_code.as_str());
        t
    } else {
        let mut t = to_owned("you owe ");
        let a = strip_leading_char(b.amount.as_str(), '-');
        t.append(a.as_str());
        t.push(' ');
        t.append(b.currency_code.as_str());
        t
    };
    let ghost expected = balance_lines(*b);
    proof {
        if positive {
            assert(head@ =~= "  "@ + "\u{25b2}"@ + " "@);
            assert(text@ =~= "owes you "@ + balance_money(*b));
        } else {
            assert(head@ =~= "  "@ + "\u{25bc}"@ + " "@);
            assert(text@ =~= "you owe "@ + money(strip_leading(b.amount@, '-'), b.currency_code@));
        }
    }
    let mut v: Vec<Span> = Vec::new();
    push_span(&mut v, span(head, tone));
    push_span(&mut v, span(text, tone));
    assert(spans_view(v@) =~= expected[0].0);
    let first = line_of(v);
    let mut w: Vec<Span> = Vec::new();
    push_span(&mut w, span_str("    ", Tone::Plain));
    push_span(&mut w, Span { text: to_owned(b.amount.as_str()), tone, bar: true });
    assert(spans_view(w@) =~= expected[1].0);
    let second = line_of(w);
    emit_line(lines, first);
    emit_line(lines, second);
    assert(lines_view(lines@) =~= start + balance_lines(*b));
}

/// Appends the lines of every listed balance.
fn emit_listed_balance_lines(lines: &mut Vec<StyledLine>, bs: &Vec<Balance>)
    ensures
        lines_view(final(lines)@) == lines_view(old(lines)@) + crate::text::concat_map(
            listed_balances(bs@),
            balance_lines_fn(),
        ),
{
    let ghost start = lines_view(lines@);
    let mut i: usize = 0;
    assert(lines_view(lines@) =~= start + crate::text::concat_map(
        listed_balances(bs@.take(0)),
        balance_lines_fn(),
    ));
    while i < bs.len()
        invariant
            i <= bs@.len(),
            lines_view(lines@) == start + crate::text::concat_map(
                listed_balances(bs@.take(i as int)),
                balance_lines_fn(),
            ),
        decreases bs.len() - i,
    {
        assert(bs@.take(i + 1).drop_last() =~= bs@.take(i as int));
        assert(bs@.take(i + 1).last() == bs@[i as int]);
        if listed(bs[i].amount.as_str()) {
            let ghost prev = listed_balances(bs@.take(i as int));
            let ghost next = prev.push(bs@[i as int]);
            assert(next.drop_last() =~= prev);
            emit_balance_lines(lines, &bs[i]);
            assert(lines_view(lines@) =~= start + crate::text::concat_map(next, balance_lines_fn()));
        }
        i += 1;
    }
    assert(bs@.take(bs@.len() as int) =~= bs@);
}

// ───────────────────────── friends ─────────────────────────

/// The row of a friend in the friend list.
pub open spec fn friend_item(f: Friend) -> LineV {
    ln(seq![tx(pad_right(shorten(friend_name(f), 20), 20) + " "@, Tone::Fg)] + balance_text(
        f.balance@,
    ))
}

/// The row of a friend in the friend list.
pub fn friend_item_of(f: &Friend) -> (r: StyledLine)
    ensures
        line_view(r) == friend_item(*f),
{
    let name = name_of(&f.first_name, &f.last_name);
    let short = trunc(name.as_str(), 20);
    let mut t = String::new();
    push_padded(&mut t, short.as_str(), 20);
    t.append(" ");
    let mut v: Vec<Span> = Vec::new();
    push_span(&mut v, span(t, Tone::Fg));
    let mut rest = balance_text_of(&f.balance);
    let ghost head = v@;
    let ghost tail = rest@;
    v.append(&mut rest);
    assert(v@ == head + tail);
    assert(spans_view(v@) =~= spans_view(head) + spans_view(tail));
    line_of(v)
}

/// The detail pane of a friend.
pub open spec fn friend_detail(f: Friend) -> Seq<LineV> {
    let listed = listed_balances(f.balance@);
    seq![styled(friend_name(f), Tone::FgBold), label_val("ID"@, decimal(f.id as nat))]
        + match f.email {
        Some(e) => seq![label_val("Email"@, e@)],
        None => Seq::empty(),
    } + seq![blank()] + (if listed.len() == 0 {
        seq![styled("\u{2714} All settled up"@, Tone::GreenDim)]
    } else {
        seq![section("Balance"@)] + crate::text::concat_map(listed, balance_lines_fn())
    }) + if f.groups@.len() > 0 {
        seq![
            blank(),
            ln(seq![tx("Shared groups  "@, Tone::Fg2), tx(decimal(f.groups@.len()), Tone::Fg)]),
        ]
    } else {
        Seq::empty()
    }
}

/// Whether some balance is listed.
fn any_listed(bs: &Vec<Balance>) -> (r: bool)
    ensures
        r == (listed_balances(bs@).len() > 0),
{
    let mut i: usize = 0;
    while i < bs.len()
        invariant
            i <= bs@.len(),
            listed_balances(bs@.take(i as int)).len() == 0,
        decreases bs.len() - i,
    {
        assert(bs@.take(i + 1).drop_last() =~= bs@.take(i as int));
        assert(bs@.take(i + 1).last() == bs@[i as int]);
        if listed(bs[i].amount.as_str()) {
            proof {
                lemma_listed_prefix_grows(bs@, (i + 1) as nat);
            }
            return true;
        }
        i += 1;
    }
    assert(bs@.take(bs@.len() as int) =~= bs@);
    false
}

proof fn lemma_listed_prefix_grows(bs: Seq<Balance>, n: nat)
    requires
        n <= bs.len(),
        listed_balances(bs.take(n as int)).len() > 0,
    ensures
        listed_balances(bs).len() > 0,
    decreases bs.len() - n,
{
    if n < bs.len() {
        assert(bs.take(n as int + 1).drop_last() =~= bs.take(n as int));
        lemma_listed_prefix_grows(bs, n + 1);
    } else {
        assert(bs.take(n as int) =~= bs);
    }
}

/// The detail pane of a friend.
pub fn friend_detail_of(f: &Friend) -> (r: Vec<StyledLine>)
    ensures
        lines_view(r@) == friend_detail(*f),
{
    let mut r: Vec<StyledLine> = Vec::new();
    let name = name_of(&f.first_name, &f.last_name);
    emit_line(&mut r, styled_line(name, Tone::FgBold));
    emit_line(&mut r, label_val_line("ID", crate::text::u64_to_string(f.id)));
    let ghost a = lines_view(r@);
    match &f.email {
        Some(e) => emit_line(&mut r, label_val_line("Email", to_owned(e.as_str()))),
        None => {},
    }
    let ghost b = lines_view(r@);
    emit_line(&mut r, blank_line());
    let ghost c = lines_view(r@);
    if !any_listed(&f.balance) {
        emit_line(&mut r, styled_str("\u{2714} All settled up", Tone::GreenDim));
    } else {
        emit_line(&mut r, styled_str("Balance", Tone::GreenBold));
        emit_listed_balance_lines(&mut r, &f.balance);
    }
    let ghost d = lines_view(r@);
    assert(d =~= c + (if listed_balances(f.balance@).len() == 0 {
        seq![styled("\u{2714} All settled up"@, Tone::GreenDim)]
    } else {
        seq![section("Balance"@)] + crate::text::concat_map(
            listed_balances(f.balance@),
            balance_lines_fn(),
        )
    }));
    if f.groups.len() > 0 {
        emit_line(&mut r, blank_line());
        let mut v: Vec<Span> = Vec::new();
        push_span(&mut v, span_str("Shared groups  ", Tone::Fg2));
        push_span(&mut v, span(crate::text::u64_to_string(f.groups.len() as u64), Tone::Fg));
        assert(spans_view(v@) =~= seq![
            tx("Shared groups  "@, Tone::Fg2),
            tx(decimal(f.groups@.len()), Tone::Fg),
        ]);
        emit_line(&mut r, line_of(v));
    }
    assert(b =~= a + match f.email {
        Some(e) => seq![label_val("Email"@, e@)],
        None => Seq::<LineV>::empty(),
    });
    assert(lines_view(r@) =~= d + if f.groups@.len() > 0 {
        seq![
            blank(),
            ln(seq![tx("Shared groups  "@, Tone::Fg2), tx(decimal(f.groups@.len()), Tone::Fg)]),
        ]
    } else {
        Seq::<LineV>::empty()
    });
    assert(lines_view(r@) =~= friend_detail(*f));
    r
}

// ───────────────────────── group members ─────────────────────────

pub open spec fn member_name_of(m: GroupMember) -> Seq<char> {
    full_name(m.first_name@, opt_view(m.last_name))
}

/// The row of a member in the member list of a group.
pub open spec fn member_item(m: GroupMember) -> LineV {
    ln(seq![tx(pad_right(shorten(member_name_of(m), 20), 20) + " "@, Tone::Fg)] + balance_text(
        m.balance@,
    ))
}

/// The row of a member in the member list of a group.
pub fn member_item_of(m: &GroupMember) -> (r: StyledLine)
    ensures
        line_view(r) == member_item(*m),
{
    let name = name_of(&m.first_name, &m.last_name);
    let short = trunc(name.as_str(), 20);
    let mut t = String::new();
    push_padded(&mut t, short.as_str(), 20);
    t.append(" ");
    let mut v: Vec<Span> = Vec::new();
    push_span(&mut v, span(t, Tone::Fg));
    let mut rest = balance_text_of(&m.balance);
    let ghost head = v@;
    let ghost tail = rest@;
    v.append(&mut rest);
    assert(spans_view(v@) =~= spans_view(head) + spans_view(tail));
    line_of(v)
}

/// The detail pane of a group member.
pub open spec fn member_detail(m: GroupMember) -> Seq<LineV> {
    let listed = listed_balances(m.balance@);
    seq![styled(member_name_of(m), Tone::FgBold), label_val("ID"@, decimal(m.id as nat))]
        + match m.email {
        Some(e) => seq![label_val("Email"@, e@)],
        None => Seq::empty(),
    } + seq![blank()] + if listed.len() == 0 {
        seq![styled("\u{2714} Settled up in this group"@, Tone::GreenDim)]
    } else {
        seq![section("Balance in group"@)] + crate::text::concat_map(listed, balance_lines_fn())
    }
}

/// The detail pane of a group member.
pub fn member_detail_of(m: &GroupMember) -> (r: Vec<StyledLine>)
    ensures
        lines_view(r@) == member_detail(*m),
{
    let mut r: Vec<StyledLine> = Vec::new();
    let name = name_of(&m.first_name, &m.last_name);
    emit_line(&mut r, styled_line(name, Tone::FgBold));
    emit_line(&mut r, label_val_line("ID", crate::text::u64_to_string(m.id)));
    let ghost a = lines_view(r@);
    match &m.email {
        Some(e) => emit_line(&mut r, label_val_line("Email", to_owned(e.as_str()))),
        None => {},
    }
    let ghost b = lines_view(r@);
    emit_line(&mut r, blank_line());
    let ghost c = lines_view(r@);
    if !any_listed(&m.balance) {
        emit_line(&mut r, styled_str("\u{2714} Settled up in this group", Tone::GreenDim));
    } else {
        emit_line(&mut r, styled_str("Balance in group", Tone::GreenBold));
        emit_listed_balance_lines(&mut r, &m.balance);
    }
    assert(b =~= a + match m.email {
        Some(e) => seq![label_val("Email"@, e@)],
        None => Seq::<LineV>::empty(),
    });
    assert(lines_view(r@) =~= c + if listed_balances(m.balance@).len() == 0 {
        seq![styled("\u{2714} Settled up in this group"@, Tone::GreenDim)]
    } else {
        seq![section("Balance in group"@)] + crate::text::concat_map(
            listed_balances(m.balance@),
            balance_lines_fn(),
        )
    });
    assert(lines_view(r@) =~= member_detail(*m));
    r
}

// ───────────────────────── groups ─────────────────────────

/// The row of a group in the group list.
pub open spec fn group_item(g: Group) -> LineV {
    ln(
        seq![
            tx(pad_right(shorten(g.name@, 22), 22) + " "@, Tone::Fg),
            tx(decimal(g.members@.len()), Tone::Cyan),
            tx(" members"@, Tone::Fg3),
        ],
    )
}

/// The row of a group in the group list.
pub fn group_item_of(g: &Group) -> (r: StyledLine)
    ensures
        line_view(r) == group_item(*g),
{
    let short = trunc(g.name.as_str(), 22);
    let mut t = String::new();
    push_padded(&mut t, short.as_str(), 22);
    t.append(" ");
    let mut v: Vec<Span> = Vec::new();
    push_span(&mut v, span(t, Tone::Fg));
    push_span(&mut v, span(crate::text::u64_to_string(g.members.len() as u64), Tone::Cyan));
    push_span(&mut v, span_str(" members", Tone::Fg3));
    assert(spans_view(v@) =~= group_item(*g).0);
    line_of(v)
}

/// The amount whose tone a member's balances take: the first balance's, or "0".
pub open spec fn first_amount(m: GroupMember) -> Seq<char> {
    if m.balance@.len() > 0 {
        m.balance@[0].amount@
    } else {
        "0"@
    }
}

/// A member in the detail pane of a group: a bullet, the name, and the listed
/// balances in the tone of the first balance.
pub open spec fn member_row(m: GroupMember) -> LineV {
    let bals = listed_amounts(m.balance@);
    if bals.len() == 0 {
        ln(seq![tx("  \u{2022} "@, Tone::Fg3), tx(member_name_of(m), Tone::Fg)])
    } else {
        ln(
            seq![
                tx("  \u{2022} "@, Tone::Fg3),
                tx(member_name_of(m) + "  "@, Tone::Fg),
                tx(join(bals, ", "@), amount_tone(first_amount(m)).0),
            ],
        )
    }
}

pub open spec fn member_row_fn() -> spec_fn(GroupMember) -> LineV {
    |m: GroupMember| member_row(m)
}

/// A debt in the detail pane of a group, by the members' names.
pub open spec fn debt_row(ms: Seq<GroupMember>, d: Debt) -> LineV {
    ln(
        seq![
            tx("  "@ + member_name_or_unknown(ms, d.from) + " "@, Tone::Fg),
            tx("\u{2192}"@, Tone::Fg3),
            tx(" "@ + member_name_or_unknown(ms, d.to) + "  "@, Tone::Fg),
            tx(money(d.amount@, d.currency_code@), Tone::Gold),
        ],
    )
}

pub open spec fn debt_row_fn(ms: Seq<GroupMember>) -> spec_fn(Debt) -> LineV {
    |d: Debt| debt_row(ms, d)
}

pub open spec fn group_detail_fields(g: Group) -> Seq<LineV> {
    seq![styled(g.name@, Tone::FgBold), label_val("ID"@, decimal(g.id as nat))]
        + match g.group_type {
        Some(t) => seq![label_val("Type"@, t@)],
        None => Seq::empty(),
    } + match g.simplify_by_default {
        Some(b) => seq![label_val("Simplify"@, bool_text(b))],
        None => Seq::empty(),
    }
}

pub open spec fn group_detail_members(g: Group) -> Seq<LineV> {
    if g.members@.len() > 0 {
        seq![blank(), section("Members ("@ + decimal(g.members@.len()) + ")"@)]
            + g.members@.map_values(member_row_fn())
    } else {
        Seq::empty()
    }
}

pub open spec fn group_detail_debts(g: Group) -> Seq<LineV> {
    if g.simplified_debts@.len() > 0 {
        seq![blank(), section("Debts (simplified)"@)] + g.simplified_debts@.map_values(
            debt_row_fn(g.members@),
        )
    } else if g.original_debts@.len() > 0 {
        seq![blank(), section("Debts"@)] + g.original_debts@.map_values(debt_row_fn(g.members@))
    } else {
        Seq::empty()
    }
}

/// The detail pane of a group: its fields, members and debts.
pub open spec fn group_detail(g: Group) -> Seq<LineV> {
    group_detail_fields(g) + group_detail_members(g) + group_detail_debts(g)
}

fn member_row_of(m: &GroupMember) -> (r: StyledLine)
    ensures
        line_view(r) == member_row(*m),
{
    let name = name_of(&m.first_name, &m.last_name);
    let bals = listed_amount_texts(&m.balance);
    let mut v: Vec<Span> = Vec::new();
    push_span(&mut v, span_str("  \u{2022} ", Tone::Fg3));
    if bals.len() == 0 {
        push_span(&mut v, span(name, Tone::Fg));
    } else {
        let mut n = name;
        n.append("  ");
        push_span(&mut v, span(n, Tone::Fg));
        let first = if m.balance.len() > 0 {
            bal_style(m.balance[0].amount.as_str()).0
        } else {
            bal_style("0").0
        };
        push_span(&mut v, span(join_strings(&bals, ", "), first));
    }
    assert(spans_view(v@) =~= member_row(*m).0);
    line_of(v)
}

fn debt_row_of(ms: &Vec<GroupMember>, d: &Debt) -> (r: StyledLine)
    ensures
        line_view(r) == debt_row(ms@, *d),
{
    let from = member_name_lookup(ms, d.from);
    let to = member_name_lookup(ms, d.to);
    let mut a = to_owned("  ");
    a.append(from.as_str());
    a.append(" ");
    let mut b = to_owned(" ");
    b.append(to.as_str());
    b.append("  ");
    let mut c = to_owned(d.amount.as_str());
    c.push(' ');
    c.append(d.currency_code.as_str());
    let mut v: Vec<Span> = Vec::new();
    push_span(&mut v, span(a, Tone::Fg));
    push_span(&mut v, span_str("\u{2192}", Tone::Fg3));
    push_span(&mut v, span(b, Tone::Fg));
    push_span(&mut v, span(c, Tone::Gold));
    assert(spans_view(v@) =~= debt_row(ms@, *d).0);
    line_of(v)
}

fn emit_debt_rows(r: &mut Vec<StyledLine>, ms: &Vec<GroupMember>, ds: &Vec<Debt>)
    ensures
        lines_view(final(r)@) == lines_view(old(r)@) + ds@.map_values(debt_row_fn(ms@)),
{
    let ghost head = lines_view(r@);
    let mut i: usize = 0;
    while i < ds.len()
        invariant
            i <= ds@.len(),
            lines_view(r@) == head + ds@.take(i as int).map_values(debt_row_fn(ms@)),
        decreases ds.len() - i,
    {
        let l = debt_row_of(ms, &ds[i]);
        emit_line(r, l);
        assert(ds@.take(i + 1).map_values(debt_row_fn(ms@)) =~= ds@.take(i as int).map_values(
            debt_row_fn(ms@),
        ).push(debt_row(ms@, ds@[i as int])));
        i += 1;
    }
    assert(ds@.take(ds@.len() as int) =~= ds@);
}

fn emit_group_detail_fields(r: &mut Vec<StyledLine>, g: &Group)
    ensures
        lines_view(final(r)@) == lines_view(old(r)@) + group_detail_fields(*g),
{
    let ghost start = lines_view(r@);
    emit_line(r, styled_line(to_owned(g.name.as_str()), Tone::FgBold));
    emit_line(r, label_val_line("ID", crate::text::u64_to_string(g.id)));
    let ghost a = lines_view(r@);
    match &g.group_type {
        Some(t) => emit_line(r, label_val_line("Type", to_owned(t.as_str()))),
        None => {},
    }
    let ghost b = lines_view(r@);
    match g.simplify_by_default {
        Some(x) => emit_line(r, label_val_line("Simplify", to_owned(bool_str(x)))),
        None => {},
    }
    let ghost c = lines_view(r@);
    assert(b =~= a + match g.group_type {
        Some(t) => seq![label_val("Type"@, t@)],
        None => Seq::<LineV>::empty(),
    });
    assert(c =~= b + match g.simplify_by_default {
        Some(x) => seq![label_val("Simplify"@, bool_text(x))],
        None => Seq::<LineV>::empty(),
    });
    assert(c =~= start + group_detail_fields(*g));
}

fn emit_group_detail_members(r: &mut Vec<StyledLine>, g: &Group)
    ensures
        lines_view(final(r)@) == lines_view(old(r)@) + group_detail_members(*g),
{
    let ghost start = lines_view(r@);
    if g.members.len() > 0 {
        emit_line(r, blank_line());
        let mut h = to_owned("Members (");
        push_decimal(&mut h, g.members.len() as u64);
        h.append(")");
        emit_line(r, styled_line(h, Tone::GreenBold));
        let ghost head = lines_view(r@);
        let mut i: usize = 0;
        while i < g.members.len()
            invariant
                i <= g.members@.len(),
                lines_view(r@) == head + g.members@.take(i as int).map_values(member_row_fn()),
            decreases g.members.len() - i,
        {
            let l = member_row_of(&g.members[i]);
            emit_line(r, l);
            assert(g.members@.take(i + 1).map_values(member_row_fn()) =~= g.members@.take(
                i as int,
            ).map_values(member_row_fn()).push(member_row(g.members@[i as int])));
            i += 1;
        }
        assert(g.members@.take(g.members@.len() as int) =~= g.members@);
    }
    assert(lines_view(r@) =~= start + group_detail_members(*g));
}

fn emit_group_detail_debts(r: &mut Vec<StyledLine>, g: &Group)
    ensures
        lines_view(final(r)@) == lines_view(old(r)@) + group_detail_debts(*g),
{
    let ghost start = lines_view(r@);
    if g.simplified_debts.len() > 0 {
        emit_line(r, blank_line());
        emit_line(r, styled_str("Debts (simplified)", Tone::GreenBold));
        emit_debt_rows(r, &g.members, &g.simplified_debts);
    } else if g.original_debts.len() > 0 {
        emit_line(r, blank_line());
        emit_line(r, styled_str("Debts", Tone::GreenBold));
        emit_debt_rows(r, &g.members, &g.original_debts);
    }
    assert(lines_view(r@) =~= start + group_detail_debts(*g));
}

/// The detail pane of a group.
pub fn group_detail_of(g: &Group) -> (r: Vec<StyledLine>)
    ensures
        lines_view(r@) == group_detail(*g),
{
    let mut r: Vec<StyledLine> = Vec::new();
    assert(lines_view(r@) =~= Seq::<LineV>::empty());
    emit_group_detail_fields(&mut r, g);
    emit_group_detail_members(&mut r, g);
    emit_group_detail_debts(&mut r, g);
    assert(lines_view(r@) =~= group_detail(*g));
    r
}

// ───────────────────────── expenses ─────────────────────────

/// The row of an expense in an expense list: date, description and cost,
/// with a cross for a deleted expense.
pub open spec fn expense_item(e: Expense) -> LineV {
    ln(
        seq![
            tx(crate::display::short_date_or(e.date, "---"@) + " "@, Tone::Fg3),
            tx(pad_right(shorten(e.description@, 18), 18) + " "@, Tone::Fg),
            tx(
                e.cost@ + if e.deleted_at is Some {
                    " \u{2716}"@
                } else {
                    Seq::empty()
                },
                Tone::Cyan,
            ),
        ],
    )
}

/// The row of an expense in an expense list.
pub fn expense_item_of(e: &Expense) -> (r: StyledLine)
    requires
        crate::display::date_cuttable(e.date),
    ensures
        line_view(r) == expense_item(*e),
{
    let mut d = String::new();
    match &e.date {
        Some(x) => d.append(date_short(x.as_str())),
        None => d.append("---"),
    }
    d.append(" ");
    let short = trunc(e.description.as_str(), 18);
    let mut t = String::new();
    push_padded(&mut t, short.as_str(), 18);
    t.append(" ");
    let mut c = to_owned(e.cost.as_str());
    let ghost cost = c@;
    if e.deleted_at.is_some() {
        c.append(" \u{2716}");
    }
    assert(c@ =~= cost + if e.deleted_at is Some {
        " \u{2716}"@
    } else {
        Seq::empty()
    });
    let mut v: Vec<Span> = Vec::new();
    push_span(&mut v, span(d, Tone::Fg3));
    push_span(&mut v, span(t, Tone::Fg));
    push_span(&mut v, span(c, Tone::Cyan));
    assert(spans_view(v@) =~= expense_item(*e).0);
    line_of(v)
}

pub open spec fn expense_detail_fields(e: Expense) -> Seq<LineV> {
    seq![
        styled(e.description@, Tone::FgBold),
        label_val("ID"@, decimal(e.id as nat)),
        ln(
            seq![
                tx("Cost: "@, Tone::Fg2),
                tx(e.cost@ + " "@, Tone::GoldBold),
                tx(e.currency_code@, Tone::Fg2),
            ],
        ),
    ] + match e.date {
        Some(d) => seq![label_val("Date"@, cut_bytes(d@, 10))],
        None => Seq::empty(),
    } + match e.category {
        Some(c) => seq![label_val("Category"@, c.name@)],
        None => Seq::empty(),
    } + match e.created_by {
        Some(u) => seq![label_val("Created by"@, full_name(u.first_name@, opt_view(u.last_name)))],
        None => Seq::empty(),
    } + if e.deleted_at is Some {
        seq![styled("\u{2716} DELETED"@, Tone::RedBold)]
    } else {
        Seq::empty()
    }
}

pub open spec fn shares_heading() -> Seq<char> {
    "  "@ + pad_right("Name"@, 16) + " "@ + pad_left("Paid"@, 8) + " "@ + pad_left("Owed"@, 8) + " "@
        + pad_left("Net"@, 9)
}

/// A share in the detail pane of an expense: name, paid, owed and net, the
/// net in the tone of its sign.
pub open spec fn share_line(s: Share) -> LineV {
    ln(
        seq![
            tx("  "@ + pad_right(shorten(share_name(s), 16), 16) + " "@, Tone::Fg),
            tx(pad_left(s.paid_share@, 8) + " "@, Tone::Cyan),
            tx(pad_left(s.owed_share@, 8) + " "@, Tone::Fg2),
            tx(pad_left(s.net_balance@, 9), amount_tone(s.net_balance@).0),
        ],
    )
}

pub open spec fn share_line_fn() -> spec_fn(Share) -> LineV {
    |s: Share| share_line(s)
}

pub open spec fn expense_detail_shares(e: Expense) -> Seq<LineV> {
    if e.users@.len() > 0 {
        seq![
            blank(),
            section("Shares"@),
            styled(shares_heading(), Tone::Fg3),
            styled("  "@ + repeat_char('\u{2500}', 46), Tone::Fg3),
        ] + e.users@.map_values(share_line_fn())
    } else {
        Seq::empty()
    }
}

pub open spec fn repayment_row(r: Repayment) -> LineV {
    ln(
        seq![
            tx("  "@ + decimal(r.from as nat) + " "@, Tone::Fg),
            tx("\u{2192}"@, Tone::Fg3),
            tx(" "@ + decimal(r.to as nat) + "  "@, Tone::Fg),
            tx(r.amount@, Tone::Gold),
        ],
    )
}

pub open spec fn repayment_row_fn() -> spec_fn(Repayment) -> LineV {
    |r: Repayment| repayment_row(r)
}

pub open spec fn expense_detail_repayments(e: Expense) -> Seq<LineV> {
    if e.repayments@.len() > 0 {
        seq![blank(), section("Repayments"@)] + e.repayments@.map_values(repayment_row_fn())
    } else {
        Seq::empty()
    }
}

/// The detail pane of an expense: its fields, shares and repayments.
pub open spec fn expense_detail(e: Expense) -> Seq<LineV> {
    expense_detail_fields(e) + expense_detail_shares(e) + expense_detail_repayments(e)
}

fn emit_opt_label(r: &mut Vec<StyledLine>, label: &str, o: &Option<String>)
    ensures
        lines_view(final(r)@) == lines_view(old(r)@) + match *o {
            Some(v) => seq![label_val(label@, v@)],
            None => Seq::<LineV>::empty(),
        },
{
    let ghost start = lines_view(r@);
    match o {
        Some(v) => emit_line(r, label_val_line(label, to_owned(v.as_str()))),
        None => {},
    }
    assert(lines_view(r@) =~= start + match *o {
        Some(v) => seq![label_val(label@, v@)],
        None => Seq::<LineV>::empty(),
    });
}

fn emit_expense_detail_fields(r: &mut Vec<StyledLine>, e: &Expense)
    requires
        crate::display::date_cuttable(e.date),
    ensures
        lines_view(final(r)@) == lines_view(old(r)@) + expense_detail_fields(*e),
{
    let ghost start = lines_view(r@);
    emit_line(r, styled_line(to_owned(e.description.as_str()), Tone::FgBold));
    emit_line(r, label_val_line("ID", crate::text::u64_to_string(e.id)));
    let mut v: Vec<Span> = Vec::new();
    push_span(&mut v, span_str("Cost: ", Tone::Fg2));
    let mut c = to_owned(e.cost.as_str());
    c.append(" ");
    push_span(&mut v, span(c, Tone::GoldBold));
    push_span(&mut v, span(to_owned(e.currency_code.as_str()), Tone::Fg2));
    assert(spans_view(v@) =~= seq![
        tx("Cost: "@, Tone::Fg2),
        tx(e.cost@ + " "@, Tone::GoldBold),
        tx(e.currency_code@, Tone::Fg2),
    ]);
    emit_line(r, line_of(v));
    let ghost a = lines_view(r@);
    match &e.date {
        Some(d) => emit_line(r, label_val_line("Date", to_owned(date_short(d.as_str())))),
        None => {},
    }
    let ghost b = lines_view(r@);
    match &e.category {
        Some(c) => emit_line(r, label_val_line("Category", to_owned(c.name.as_str()))),
        None => {},
    }
    let ghost c2 = lines_view(r@);
    match &e.created_by {
        Some(u) => emit_line(r, label_val_line("Created by", name_of(&u.first_name, &u.last_name))),
        None => {},
    }
    let ghost d2 = lines_view(r@);
    if e.deleted_at.is_some() {
        emit_line(r, styled_str("\u{2716} DELETED", Tone::RedBold));
    }
    assert(b =~= a + match e.date {
        Some(d) => seq![label_val("Date"@, cut_bytes(d@, 10))],
        None => Seq::<LineV>::empty(),
    });
    assert(c2 =~= b + match e.category {
        Some(c) => seq![label_val("Category"@, c.name@)],
        None => Seq::<LineV>::empty(),
    });
    assert(d2 =~= c2 + match e.created_by {
        Some(u) => seq![label_val("Created by"@, full_name(u.first_name@, opt_view(u.last_name)))],
        None => Seq::<LineV>::empty(),
    });
    assert(lines_view(r@) =~= d2 + if e.deleted_at is Some {
        seq![styled("\u{2716} DELETED"@, Tone::RedBold)]
    } else {
        Seq::<LineV>::empty()
    });
    assert(lines_view(r@) =~= start + expense_detail_fields(*e));
}

fn share_line_of(s: &Share) -> (r: StyledLine)
    ensures
        line_view(r) == share_line(*s),
{
    let name = match &s.first_name {
        Some(f) => display_name(f.as_str(), match &s.last_name {
            Some(l) => Some(l.as_str()),
            None => None,
        }),
        None => display_name("?", match &s.last_name {
            Some(l) => Some(l.as_str()),
            None => None,
        }),
    };
    let short = trunc(name.as_str(), 16);
    let mut a = to_owned("  ");
    push_padded(&mut a, short.as_str(), 16);
    a.append(" ");
    let mut b = String::new();
    push_padded_left(&mut b, s.paid_share.as_str(), 8);
    b.append(" ");
    let mut c = String::new();
    push_padded_left(&mut c, s.owed_share.as_str(), 8);
    c.append(" ");
    let mut d = String::new();
    push_padded_left(&mut d, s.net_balance.as_str(), 9);
    let (tone, _) = bal_style(s.net_balance.as_str());
    let mut v: Vec<Span> = Vec::new();
    push_span(&mut v, span(a, Tone::Fg));
    push_span(&mut v, span(b, Tone::Cyan));
    push_span(&mut v, span(c, Tone::Fg2));
    push_span(&mut v, span(d, tone));
    assert(spans_view(v@) =~= share_line(*s).0);
    line_of(v)
}

fn emit_expense_detail_shares(r: &mut Vec<StyledLine>, e: &Expense)
    ensures
        lines_view(final(r)@) == lines_view(old(r)@) + expense_detail_shares(*e),
{
    let ghost start = lines_view(r@);
    if e.users.len() > 0 {
        emit_line(r, blank_line());
        emit_line(r, styled_str("Shares", Tone::GreenBold));
        let mut h = to_owned("  ");
        push_padded(&mut h, "Name", 16);
        h.append(" ");
        push_padded_left(&mut h, "Paid", 8);
        h.append(" ");
        push_padded_left(&mut h, "Owed", 8);
        h.append(" ");
        push_padded_left(&mut h, "Net", 9);
        emit_line(r, styled_line(h, Tone::Fg3));
        let mut rule = to_owned("  ");
        let dashes = repeated('\u{2500}', 46);
        rule.append(dashes.as_str());
        emit_line(r, styled_line(rule, Tone::Fg3));
        let ghost head = lines_view(r@);
        let mut i: usize = 0;
        while i < e.users.len()
            invariant
                i <= e.users@.len(),
                lines_view(r@) == head + e.users@.take(i as int).map_values(share_line_fn()),
            decreases e.users.len() - i,
        {
            let l = share_line_of(&e.users[i]);
            emit_line(r, l);
            assert(e.users@.take(i + 1).map_values(share_line_fn()) =~= e.users@.take(
                i as int,
            ).map_values(share_line_fn()).push(share_line(e.users@[i as int])));
            i += 1;
        }
        assert(e.users@.take(e.users@.len() as int) =~= e.users@);
    }
    assert(lines_view(r@) =~= start + expense_detail_shares(*e));
}

fn emit_expense_detail_repayments(r: &mut Vec<StyledLine>, e: &Expense)
    ensures
        lines_view(final(r)@) == lines_view(old(r)@) + expense_detail_repayments(*e),
{
    let ghost start = lines_view(r@);
    if e.repayments.len() > 0 {
        emit_line(r, blank_line());
        emit_line(r, styled_str("Repayments", Tone::GreenBold));
        let ghost head = lines_view(r@);
        let mut i: usize = 0;
        while i < e.repayments.len()
            invariant
                i <= e.repayments@.len(),
                lines_view(r@) == head + e.repayments@.take(i as int).map_values(
                    repayment_row_fn(),
                ),
            decreases e.repayments.len() - i,
        {
            let p = &e.repayments[i];
            let mut a = to_owned("  ");
            push_decimal(&mut a, p.from);
            a.append(" ");
            let mut b = to_owned(" ");
            push_decimal(&mut b, p.to);
            b.append("  ");
            let mut v: Vec<Span> = Vec::new();
            push_span(&mut v, span(a, Tone::Fg));
            push_span(&mut v, span_str("\u{2192}", Tone::Fg3));
            push_span(&mut v, span(b, Tone::Fg));
            push_span(&mut v, span(to_owned(p.amount.as_str()), Tone::Gold));
            assert(spans_view(v@) =~= repayment_row(*p).0);
            emit_line(r, line_of(v));
            assert(e.repayments@.take(i + 1).map_values(repayment_row_fn()) =~= e.repayments@.take(
                i as int,
            ).map_values(repayment_row_fn()).push(repayment_row(e.repayments@[i as int])));
            i += 1;
        }
        assert(e.repayments@.take(e.repayments@.len() as int) =~= e.repayments@);
    }
    assert(lines_view(r@) =~= start + expense_detail_repayments(*e));
}

/// The detail pane of an expense.
pub fn expense_detail_of(e: &Expense) -> (r: Vec<StyledLine>)
    requires
        crate::display::date_cuttable(e.date),
    ensures
        lines_view(r@) == expense_detail(*e),
{
    let mut r: Vec<StyledLine> = Vec::new();
    assert(lines_view(r@) =~= Seq::<LineV>::empty());
    emit_expense_detail_fields(&mut r, e);
    emit_expense_detail_shares(&mut r, e);
    emit_expense_detail_repayments(&mut r, e);
    assert(lines_view(r@) =~= expense_detail(*e));
    r
}

// ───────────────────────── debts of a group ─────────────────────────

/// A debt in the debt list of a group view.
pub open spec fn debt_item(ms: Seq<GroupMember>, d: Debt) -> LineV {
    ln(
        seq![
            tx(member_name_or_unknown(ms, d.from), Tone::Fg),
            tx(" \u{2192} "@, Tone::Fg3),
            tx(member_name_or_unknown(ms, d.to), Tone::Fg),
            tx("  "@, Tone::Plain),
            tx(money(d.amount@, d.currency_code@), Tone::Gold),
        ],
    )
}

/// A debt in the debt list of a group view.
pub fn debt_item_of(ms: &Vec<GroupMember>, d: &Debt) -> (r: StyledLine)
    ensures
        line_view(r) == debt_item(ms@, *d),
{
    let from = member_name_lookup(ms, d.from);
    let to = member_name_lookup(ms, d.to);
    let mut c = to_owned(d.amount.as_str());
    c.push(' ');
    c.append(d.currency_code.as_str());
    let mut v: Vec<Span> = Vec::new();
    push_span(&mut v, span(from, Tone::Fg));
    push_span(&mut v, span_str(" \u{2192} ", Tone::Fg3));
    push_span(&mut v, span(to, Tone::Fg));
    push_span(&mut v, span_str("  ", Tone::Plain));
    push_span(&mut v, span(c, Tone::Gold));
    assert(spans_view(v@) =~= debt_item(ms@, *d).0);
    line_of(v)
}

/// The title of the debt list of a group.
pub open spec fn debts_title(g: Group) -> Seq<char> {
    if g.simplified_debts@.len() > 0 {
        "Debts \u{2022} simplified ("@ + decimal(shown_debts(g).len()) + ")"@
    } else {
        "Debts ("@ + decimal(shown_debts(g).len()) + ")"@
    }
}

/// The title of the debt list of a group.
pub fn debts_title_of(g: &Group) -> (r: String)
    ensures
        r@ == debts_title(*g),
{
    let n = group_debts(g).len();
    let mut t = if g.simplified_debts.len() > 0 {
        to_owned("Debts \u{2022} simplified (")
    } else {
        to_owned("Debts (")
    };
    push_decimal(&mut t, n as u64);
    t.append(")");
    t
}

/// The detail pane of the selected debt of a group, or a note that the group
/// has none.
pub open spec fn debt_detail(g: Group, idx: usize) -> Seq<LineV> {
    let ds = shown_debts(g);
    if idx < ds.len() {
        let d = ds[idx as int];
        let from = member_name_or_unknown(g.members@, d.from);
        let to = member_name_or_unknown(g.members@, d.to);
        seq![
            ln(seq![tx(from, Tone::FgBold), tx(" \u{2192} "@, Tone::Fg3), tx(to, Tone::FgBold)]),
            blank(),
            ln(
                seq![
                    tx("Amount  "@, Tone::Fg2),
                    tx(money(d.amount@, d.currency_code@), Tone::GoldBold),
                ],
            ),
            blank(),
            label_val("From"@, from + " ("@ + decimal(d.from as nat) + ")"@),
            label_val("To"@, to + " ("@ + decimal(d.to as nat) + ")"@),
        ]
    } else {
        seq![styled("\u{2714} No debts in this group"@, Tone::GreenDim)]
    }
}

/// The detail pane of the selected debt of a group.
pub fn debt_detail_of(g: &Group, idx: usize) -> (r: Vec<StyledLine>)
    ensures
        lines_view(r@) == debt_detail(*g, idx),
{
    let ds = group_debts(g);
    let mut r: Vec<StyledLine> = Vec::new();
    if idx >= ds.len() {
        emit_line(&mut r, styled_str("\u{2714} No debts in this group", Tone::GreenDim));
        assert(lines_view(r@) =~= debt_detail(*g, idx));
        return r;
    }
    let d = &ds[idx];
    let from = member_name_lookup(&g.members, d.from);
    let to = member_name_lookup(&g.members, d.to);
    let mut v: Vec<Span> = Vec::new();
    push_span(&mut v, span(to_owned(from.as_str()), Tone::FgBold));
    push_span(&mut v, span_str(" \u{2192} ", Tone::Fg3));
    push_span(&mut v, span(to_owned(to.as_str()), Tone::FgBold));
    assert(spans_view(v@) =~= seq![
        tx(from@, Tone::FgBold),
        tx(" \u{2192} "@, Tone::Fg3),
        tx(to@, Tone::FgBold),
    ]);
    emit_line(&mut r, line_of(v));
    emit_line(&mut r, blank_line());
    let mut c = to_owned(d.amount.as_str());
    c.push(' ');
    c.append(d.currency_code.as_str());
    let mut w: Vec<Span> = Vec::new();
    push_span(&mut w, span_str("Amount  ", Tone::Fg2));
    push_span(&mut w, span(c, Tone::GoldBold));
    assert(spans_view(w@) =~= seq![
        tx("Amount  "@, Tone::Fg2),
        tx(money(d.amount@, d.currency_code@), Tone::GoldBold),
    ]);
    emit_line(&mut r, line_of(w));
    emit_line(&mut r, blank_line());
    let mut f = from;
    f.append(" (");
    push_decimal(&mut f, d.from);
    f.append(")");
    emit_line(&mut r, label_val_line("From", f));
    let mut t = to;
    t.append(" (");
    push_decimal(&mut t, d.to);
    t.append(")");
    emit_line(&mut r, label_val_line("To", t));
    assert(lines_view(r@) =~= debt_detail(*g, idx));
    r
}

// ───────────────────────── titles and bars ─────────────────────────

/// "label (count)", the title of a list.
pub open spec fn list_title(label: Seq<char>, n: nat) -> Seq<char> {
    label + " ("@ + decimal(n) + ")"@
}

/// "label (count)", the title of a list.
pub fn list_title_of(label: &str, n: usize) -> (r: String)
    ensures
        r@ == list_title(label@, n as nat),
{
    let mut t = to_owned(label);
    t.append(" (");
    push_decimal(&mut t, n as u64);
    t.append(")");
    t
}

/// The line under a group's name in its header: its id, and its type when it
/// has a type that is not empty.
pub open spec fn group_header_sub(g: Group) -> Seq<char> {
    let gtype = match g.group_type {
        Some(t) => t@,
        None => Seq::empty(),
    };
    if gtype.len() == 0 {
        "ID: "@ + decimal(g.id as nat)
    } else {
        "ID: "@ + decimal(g.id as nat) + " \u{2022} "@ + gtype
    }
}

/// The line under a group's name in its header.
pub fn group_header_sub_of(g: &Group) -> (r: String)
    ensures
        r@ == group_header_sub(*g),
{
    let mut t = to_owned("ID: ");
    push_decimal(&mut t, g.id);
    match &g.group_type {
        Some(gt) => {
            if !gt.as_str().is_empty() {
                t.append(" \u{2022} ");
                t.append(gt.as_str());
            }
        },
        None => {},
    }
    t
}

/// The spans of a status bar: a space, then each key and what it does,
/// separated by bars.
pub open spec fn status_spans(bindings: Seq<(Seq<char>, Seq<char>)>) -> Seq<SpanV>
    decreases bindings.len(),
{
    if bindings.len() == 0 {
        seq![tx(" "@, Tone::Plain)]
    } else {
        let prev = status_spans(bindings.drop_last());
        let b = bindings.last();
        prev + (if bindings.len() > 1 {
            seq![tx(" \u{2502} "@, Tone::Fg3)]
        } else {
            Seq::empty()
        }) + seq![tx(" "@ + b.0 + " "@, Tone::GreenBold), tx(b.1, Tone::Fg2)]
    }
}

pub open spec fn binding_view() -> spec_fn((&'static str, &'static str)) -> (Seq<char>, Seq<char>) {
    |b: (&'static str, &'static str)| (b.0@, b.1@)
}

/// The spans of a status bar.
pub fn status_spans_of(bindings: &Vec<(&'static str, &'static str)>) -> (r: Vec<Span>)
    ensures
        spans_view(r@) == status_spans(bindings@.map_values(binding_view())),
{
    let mut r: Vec<Span> = Vec::new();
    push_span(&mut r, span_str(" ", Tone::Plain));
    let mut i: usize = 0;
    assert(bindings@.take(0).map_values(binding_view()) =~= Seq::<(Seq<char>, Seq<char>)>::empty());
    assert(spans_view(r@) =~= seq![tx(" "@, Tone::Plain)]);
    while i < bindings.len()
        invariant
            i <= bindings@.len(),
            spans_view(r@) == status_spans(bindings@.take(i as int).map_values(binding_view())),
        decreases bindings.len() - i,
    {
        let ghost bs = bindings@.take(i + 1).map_values(binding_view());
        assert(bs.drop_last() =~= bindings@.take(i as int).map_values(binding_view()));
        assert(bs.last() == (bindings@[i as int].0@, bindings@[i as int].1@));
        let ghost before = spans_view(r@);
        if i > 0 {
            push_span(&mut r, span_str(" \u{2502} ", Tone::Fg3));
        }
        let (key, desc) = bindings[i];
        let mut k = to_owned(" ");
        k.append(key);
        k.append(" ");
        push_span(&mut r, span(k, Tone::GreenBold));
        push_span(&mut r, span_str(desc, Tone::Fg2));
        assert(spans_view(r@) =~= status_spans(bs));
        i += 1;
    }
    assert(bindings@.take(bindings@.len() as int) =~= bindings@);
    r
}

/// The keys of the main view.
pub fn main_bindings() -> (r: Vec<(&'static str, &'static str)>)
    ensures
        r@.map_values(binding_view()) == seq![
            ("\u{2190}\u{2191}\u{2193}\u{2192}"@, "nav"@),
            ("\u{23ce}"@, "open"@),
            ("Tab"@, "switch"@),
            ("r"@, "refresh"@),
            ("q"@, "quit"@),
        ],
{
    let r = vec![
        ("\u{2190}\u{2191}\u{2193}\u{2192}", "nav"),
        ("\u{23ce}", "open"),
        ("Tab", "switch"),
        ("r", "refresh"),
        ("q", "quit"),
    ];
    assert(r@.map_values(binding_view()) =~= seq![
        ("\u{2190}\u{2191}\u{2193}\u{2192}"@, "nav"@),
        ("\u{23ce}"@, "open"@),
        ("Tab"@, "switch"@),
        ("r"@, "refresh"@),
        ("q"@, "quit"@),
    ]);
    r
}

/// The keys of the view of a group.
pub fn group_bindings() -> (r: Vec<(&'static str, &'static str)>)
    ensures
        r@.map_values(binding_view()) == seq![
            ("\u{2190}\u{2191}\u{2193}\u{2192}"@, "nav"@),
            ("Tab"@, "switch"@),
            ("r"@, "refresh"@),
            ("Esc"@, "back"@),
            ("q"@, "quit"@),
        ],
{
    let r = vec![
        ("\u{2190}\u{2191}\u{2193}\u{2192}", "nav"),
        ("Tab", "switch"),
        ("r", "refresh"),
        ("Esc", "back"),
        ("q", "quit"),
    ];
    assert(r@.map_values(binding_view()) =~= seq![
        ("\u{2190}\u{2191}\u{2193}\u{2192}"@, "nav"@),
        ("Tab"@, "switch"@),
        ("r"@, "refresh"@),
        ("Esc"@, "back"@),
        ("q"@, "quit"@),
    ]);
    r
}

// ───────────────────────── detail panes by selection ─────────────────────────

/// The detail pane for a selection: the selected item's details, or a note
/// that nothing is selected.
pub open spec fn pane<T>(items: Seq<T>, sel: Option<usize>, detail: spec_fn(T) -> Seq<LineV>, none: Seq<char>) -> Seq<LineV> {
    match sel {
        Some(i) => if i < items.len() {
            detail(items[i as int])
        } else {
            seq![styled(none, Tone::Fg3)]
        },
        None => seq![styled(none, Tone::Fg3)],
    }
}

pub open spec fn friend_detail_fn() -> spec_fn(Friend) -> Seq<LineV> {
    |f: Friend| friend_detail(f)
}

pub open spec fn group_detail_fn() -> spec_fn(Group) -> Seq<LineV> {
    |g: Group| group_detail(g)
}

pub open spec fn expense_detail_fn() -> spec_fn(Expense) -> Seq<LineV> {
    |e: Expense| expense_detail(e)
}

pub open spec fn member_detail_fn() -> spec_fn(GroupMember) -> Seq<LineV> {
    |m: GroupMember| member_detail(m)
}

fn placeholder(none: &str) -> (r: Vec<StyledLine>)
    ensures
        lines_view(r@) == seq![styled(none@, Tone::Fg3)],
{
    let mut r: Vec<StyledLine> = Vec::new();
    emit_line(&mut r, styled_str(none, Tone::Fg3));
    assert(lines_view(r@) =~= seq![styled(none@, Tone::Fg3)]);
    r
}

/// The detail pane of the friends tab.
pub fn friend_pane(friends: &Vec<Friend>, sel: Option<usize>) -> (r: Vec<StyledLine>)
    ensures
        lines_view(r@) == pane(friends@, sel, friend_detail_fn(), "No friend selected"@),
{
    match sel {
        Some(i) => if i < friends.len() {
            friend_detail_of(&friends[i])
        } else {
            placeholder("No friend selected")
        },
        None => placeholder("No friend selected"),
    }
}

/// The detail pane of the groups tab.
pub fn group_pane(groups: &Vec<Group>, sel: Option<usize>) -> (r: Vec<StyledLine>)
    ensures
        lines_view(r@) == pane(groups@, sel, group_detail_fn(), "No group selected"@),
{
    match sel {
        Some(i) => if i < groups.len() {
            group_detail_of(&groups[i])
        } else {
            placeholder("No group selected")
        },
        None => placeholder("No group selected"),
    }
}

/// Whether the date of the selected expense, if any, can be cut to ten bytes.
pub open spec fn selected_date_cuttable(expenses: Seq<Expense>, sel: Option<usize>) -> bool {
    match sel {
        Some(i) => i < expenses.len() ==> crate::display::date_cuttable(expenses[i as int].date),
        None => true,
    }
}

/// The detail pane of an expense list.
pub fn expense_pane(expenses: &Vec<Expense>, sel: Option<usize>) -> (r: Vec<StyledLine>)
    requires
        selected_date_cuttable(expenses@, sel),
    ensures
        lines_view(r@) == pane(expenses@, sel, expense_detail_fn(), "No expense selected"@),
{
    match sel {
        Some(i) => if i < expenses.len() {
            expense_detail_of(&expenses[i])
        } else {
            placeholder("No expense selected")
        },
        None => placeholder("No expense selected"),
    }
}

/// The detail pane of the member list of a group.
pub fn member_pane(members: &Vec<GroupMember>, sel: Option<usize>) -> (r: Vec<StyledLine>)
    ensures
        lines_view(r@) == pane(members@, sel, member_detail_fn(), "No member selected"@),
{
    match sel {
        Some(i) => if i < members.len() {
            member_detail_of(&members[i])
        } else {
            placeholder("No member selected")
        },
        None => placeholder("No member selected"),
    }
}

} // verus!
