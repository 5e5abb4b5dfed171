//! What the command line turns into: `key=value` arguments, the query of the
//! expense and notification listings, and the forms of the expense commands.
use vstd::prelude::*;
use crate::text::{chars_of, decimal, push_decimal, string_of_chars, to_owned, u64_to_string, views};

verus! {

// ───────────────────────── pairs ─────────────────────────

/// A text pair (a form field or a query parameter).
pub type Field = (Seq<char>, Seq<char>);

pub open spec fn field_view() -> spec_fn((String, String)) -> Field {
    |p: (String, String)| (p.0@, p.1@)
}

/// The texts of a list of pairs.
pub open spec fn fields(v: Seq<(String, String)>) -> Seq<Field> {
    v.map_values(field_view())
}

/// A one-element list holding the pair for a present value.
pub open spec fn opt_field(key: Seq<char>, o: Option<String>) -> Seq<Field> {
    match o {
        Some(v) => seq![(key, v@)],
        None => Seq::empty(),
    }
}

/// A one-element list holding the pair for a present number.
pub open spec fn opt_num_field(key: Seq<char>, o: Option<u64>) -> Seq<Field> {
    match o {
        Some(v) => seq![(key, decimal(v as nat))],
        None => Seq::empty(),
    }
}

/// Appends a pair.
pub fn add_field(v: &mut Vec<(String, String)>, key: &str, value: String)
    ensures
        fields(final(v)@) == fields(old(v)@).push((key@, value@)),
{
    let ghost before = v@;
    v.push((to_owned(key), value));
    assert(fields(v@) =~= fields(before).push((key@, value@)));
}

/// Appends the pair for a present value.
pub fn add_opt_field(v: &mut Vec<(String, String)>, key: &str, o: Option<String>)
    ensures
        fields(final(v)@) == fields(old(v)@) + opt_field(key@, o),
{
    let ghost before = fields(v@);
    match o {
        Some(s) => add_field(v, key, s),
        None => {},
    }
    assert(fields(v@) =~= before + opt_field(key@, o));
}

/// Appends the pair for a present number.
pub fn add_opt_num_field(v: &mut Vec<(String, String)>, key: &str, o: Option<u64>)
    ensures
        fields(final(v)@) == fields(old(v)@) + opt_num_field(key@, o),
{
    let ghost before = fields(v@);
    match o {
        Some(n) => add_field(v, key, u64_to_string(n)),
        None => {},
    }
    assert(fields(v@) =~= before + opt_num_field(key@, o));
}

// ───────────────────────── key=value ─────────────────────────

/// The index of the first `c` in `s`, if any.
pub open spec fn find_char(s: Seq<char>, c: char) -> Option<nat>
    decreases s.len(),
{
    if s.len() == 0 {
        None
    } else if s[0] == c {
        Some(0)
    } else {
        match find_char(s.drop_first(), c) {
            Some(i) => Some(i + 1),
            None => None,
        }
    }
}

/// The outcome of reading `key=value`: the text before the first `=` and the
/// text after it, or a message when there is no `=`.
pub open spec fn key_val(s: Seq<char>) -> Result<(Seq<char>, Seq<char>), Seq<char>> {
    match find_char(s, '=') {
        Some(p) => Ok((s.take(p as int), s.skip(p as int + 1))),
        None => Err("invalid key=value: no `=` in `"@ + s + "`"@),
    }
}

/// The first index of `c` in `v`, if any.
pub fn find_in(v: &Vec<char>, c: char) -> (r: Option<usize>)
    ensures
        match r {
            Some(i) => find_char(v@, c) == Some(i as nat) && i < v@.len(),
            None => find_char(v@, c) is None,
        },
{
    let mut i: usize = 0;
    assert(v@.skip(0) =~= v@);
    while i < v.len()
        invariant
            i <= v@.len(),
            find_char(v@, c) == match find_char(v@.skip(i as int), c) {
                Some(j) => Some((j + i) as nat),
                None => None,
            },
        decreases v.len() - i,
    {
        assert(v@.skip(i as int)[0] == v@[i as int]);
        if v[i] == c {
            return Some(i);
        }
        assert(v@.skip(i as int).drop_first() =~= v@.skip(i + 1));
        i += 1;
    }
    assert(v@.skip(i as int) =~= Seq::<char>::empty());
    None
}

/// Reads a `key=value` argument.
pub fn parse_key_val(s: &str) -> (r: Result<(String, String), String>)
    ensures
        match r {
            Ok((k, v)) => key_val(s@) == Ok::<(Seq<char>, Seq<char>), Seq<char>>((k@, v@)),
            Err(e) => key_val(s@) == Err::<(Seq<char>, Seq<char>), Seq<char>>(e@),
        },
{
    let v = chars_of(s);
    let n = v.len();
    match find_in(&v, '=') {
        Some(p) => {
            assert(p < n);
            let k = string_of_chars(&v, 0, p);
            let val = string_of_chars(&v, p + 1, v.len());
            assert(v@.subrange(0, p as int) =~= v@.take(p as int));
            assert(v@.subrange(p + 1, v@.len() as int) =~= v@.skip(p + 1));
            Ok((k, val))
        },
        None => {
            let mut e = to_owned("invalid key=value: no `=` in `");
            e.append(s);
            e.append("`");
            Err(e)
        },
    }
}

// ───────────────────────── listings ─────────────────────────

/// The query of the expense listing.
pub open spec fn expenses_query(
    group_id: Option<u64>,
    friend_id: Option<u64>,
    after: Option<String>,
    before: Option<String>,
    limit: u64,
    offset: Option<u64>,
) -> Seq<Field> {
    seq![("limit"@, decimal(limit as nat))] + opt_num_field("group_id"@, group_id) + opt_num_field(
        "friend_id"@,
        friend_id,
    ) + opt_field("dated_after"@, after) + opt_field("dated_before"@, before) + opt_num_field(
        "offset"@,
        offset,
    )
}

/// The query of the expense listing.
pub fn expenses_params(
    group_id: Option<u64>,
    friend_id: Option<u64>,
    after: Option<String>,
    before: Option<String>,
    limit: u64,
    offset: Option<u64>,
) -> (r: Vec<(String, String)>)
    ensures
        fields(r@) == expenses_query(group_id, friend_id, after, before, limit, offset),
{
    let mut r: Vec<(String, String)> = Vec::new();
    assert(fields(r@) =~= Seq::<Field>::empty());
    add_field(&mut r, "limit", u64_to_string(limit));
    add_opt_num_field(&mut r, "group_id", group_id);
    add_opt_num_field(&mut r, "friend_id", friend_id);
    add_opt_field(&mut r, "dated_after", after);
    add_opt_field(&mut r, "dated_before", before);
    add_opt_num_field(&mut r, "offset", offset);
    assert(fields(r@) =~= expenses_query(group_id, friend_id, after, before, limit, offset));
    r
}

/// The query of the notification listing.
pub open spec fn notifications_query(after: Option<String>, limit: Option<u64>) -> Seq<Field> {
    opt_field("updated_after"@, after) + opt_num_field("limit"@, limit)
}

/// The query of the notification listing.
pub fn notifications_params(after: Option<String>, limit: Option<u64>) -> (r: Vec<(String, String)>)
    ensures
        fields(r@) == notifications_query(after, limit),
{
    let mut r: Vec<(String, String)> = Vec::new();
    assert(fields(r@) =~= Seq::<Field>::empty());
    add_opt_field(&mut r, "updated_after", after);
    add_opt_num_field(&mut r, "limit", limit);
    assert(fields(r@) =~= notifications_query(after, limit));
    r
}

// ───────────────────────── expense forms ─────────────────────────

/// `s` split at every `c` (what `str::split(c)` yields): one more piece than
/// there are copies of `c`.
pub open spec fn split_char(s: Seq<char>, c: char) -> Seq<Seq<char>>
    decreases s.len(),
{
    if s.len() == 0 {
        seq![Seq::empty()]
    } else {
        let p = split_char(s.drop_last(), c);
        if s.last() == c {
            p.push(Seq::empty())
        } else {
            p.drop_last().push(p.last().push(s.last()))
        }
    }
}

/// Splitting yields at least one piece.
pub proof fn lemma_split_nonempty(s: Seq<char>, c: char)
    ensures
        split_char(s, c).len() >= 1,
    decreases s.len(),
{
    if s.len() > 0 {
        lemma_split_nonempty(s.drop_last(), c);
    }
}

/// `s` split at every `c`.
pub fn split_on(s: &str, c: char) -> (r: Vec<String>)
    ensures
        views(r@) == split_char(s@, c),
{
    let v = chars_of(s);
    let mut r: Vec<String> = Vec::new();
    let mut cur = String::new();
    let mut i: usize = 0;
    assert(views(r@).push(cur@) =~= split_char(v@.take(0), c));
    while i < v.len()
        invariant
            i <= v@.len(),
            views(r@).push(cur@) == split_char(v@.take(i as int), c),
        decreases v.len() - i,
    {
        assert(v@.take(i + 1).drop_last() =~= v@.take(i as int));
        assert(v@.take(i + 1).last() == v@[i as int]);
        let ghost before = views(r@);
        if v[i] == c {
            let done = cur;
            r.push(done);
            cur = String::new();
            assert(views(r@) =~= before.push(done@));
            assert(views(r@).push(cur@) =~= before.push(done@).push(Seq::<char>::empty()));
        } else {
            let ghost old_cur = cur@;
            cur.push(v[i]);
            assert(before.push(old_cur).drop_last() =~= before);
        }
        i += 1;
    }
    assert(v@.take(v@.len() as int) =~= v@);
    let ghost before = views(r@);
    r.push(cur);
    assert(views(r@) =~= before.push(cur@));
    r
}

/// The fields that every new expense has.
pub open spec fn expense_base_form(
    description: Seq<char>,
    cost: Seq<char>,
    group_id: u64,
    currency: Option<String>,
    category_id: Option<u64>,
    date: Option<String>,
) -> Seq<Field> {
    seq![
        ("description"@, description),
        ("cost"@, cost),
        ("group_id"@, decimal(group_id as nat)),
    ] + opt_field("currency_code"@, currency) + opt_num_field("category_id"@, category_id)
        + opt_field("date"@, date)
}

/// The three fields of the `i`-th custom share `uid:paid_share:owed_share`.
pub open spec fn share_fields(i: nat, parts: Seq<Seq<char>>) -> Seq<Field> {
    seq![
        ("users__"@ + decimal(i) + "__user_id"@, parts[0]),
        ("users__"@ + decimal(i) + "__paid_share"@, parts[1]),
        ("users__"@ + decimal(i) + "__owed_share"@, parts[2]),
    ]
}

/// The fields of all custom shares, in order.
pub open spec fn shares_form(users: Seq<Seq<char>>) -> Seq<Field>
    decreases users.len(),
{
    if users.len() == 0 {
        Seq::empty()
    } else {
        shares_form(users.drop_last()) + share_fields(
            (users.len() - 1) as nat,
            split_char(users.last(), ':'),
        )
    }
}

/// The index of the first custom share that is not of the form `a:b:c`.
pub open spec fn first_bad_share(users: Seq<Seq<char>>) -> Option<nat>
    decreases users.len(),
{
    if users.len() == 0 {
        None
    } else {
        match first_bad_share(users.drop_last()) {
            Some(i) => Some(i),
            None => if split_char(users.last(), ':').len() != 3 {
                Some((users.len() - 1) as nat)
            } else {
                None
            },
        }
    }
}

/// The message for a custom share that is not of the form `a:b:c`.
pub open spec fn bad_share_message(u: Seq<char>) -> Seq<char> {
    "--user format: uid:paid_share:owed_share (got \""@ + u + "\")"@
}

/// The form of a new expense: the base fields, then either the request to
/// split equally, or the custom shares (refused when one is malformed), or
/// nothing more.
pub open spec fn create_expense_form(
    description: Seq<char>,
    cost: Seq<char>,
    group_id: u64,
    currency: Option<String>,
    category_id: Option<u64>,
    date: Option<String>,
    split_equally: bool,
    users: Seq<Seq<char>>,
) -> Result<Seq<Field>, Seq<char>> {
    let base = expense_base_form(description, cost, group_id, currency, category_id, date);
    if split_equally {
        Ok(base + seq![("split_equally"@, "true"@)])
    } else if users.len() > 0 {
        match first_bad_share(users) {
            Some(i) => Err(bad_share_message(users[i as int])),
            None => Ok(base + shares_form(users)),
        }
    } else {
        Ok(base)
    }
}

/// The form of a new expense.
pub fn expense_create_form(
    description: String,
    cost: String,
    group_id: u64,
    currency: Option<String>,
    category_id: Option<u64>,
    date: Option<String>,
    split_equally: bool,
    users: &Vec<String>,
) -> (r: Result<Vec<(String, String)>, String>)
    ensures
        match r {
            Ok(f) => create_expense_form(
                description@,
                cost@,
                group_id,
                currency,
                category_id,
                date,
                split_equally,
                views(users@),
            ) == Ok::<Seq<Field>, Seq<char>>(fields(f@)),
            Err(e) => create_expense_form(
                description@,
                cost@,
                group_id,
                currency,
                category_id,
                date,
                split_equally,
                views(users@),
            ) == Err::<Seq<Field>, Seq<char>>(e@),
        },
{
    let ghost d = description@;
    let ghost c = cost@;
    let mut form: Vec<(String, String)> = Vec::new();
    assert(fields(form@) =~= Seq::<Field>::empty());
    add_field(&mut form, "description", description);
    add_field(&mut form, "cost", cost);
    add_field(&mut form, "group_id", u64_to_string(group_id));
    add_opt_field(&mut form, "currency_code", currency);
    add_opt_num_field(&mut form, "category_id", category_id);
    add_opt_field(&mut form, "date", date);
    let ghost base = fields(form@);
    assert(base =~= expense_base_form(d, c, group_id, currency, category_id, date));
    if split_equally {
        add_field(&mut form, "split_equally", to_owned("true"));
        assert(fields(form@) =~= base + seq![("split_equally"@, "true"@)]);
        return Ok(form);
    }
    if users.len() == 0 {
        return Ok(form);
    }
    let mut i: usize = 0;
    while i < users.len()
        invariant
            i <= users@.len(),
            users@.len() > 0,
            !split_equally,
            d == description@,
            c == cost@,
            base == expense_base_form(d, c, group_id, currency, category_id, date),
            fields(form@) == base + shares_form(views(users@.take(i as int))),
            first_bad_share(views(users@.take(i as int))) is None,
        decreases users.len() - i,
    {
        let ghost us = views(users@.take(i + 1));
        assert(us.drop_last() =~= views(users@.take(i as int)));
        assert(us.last() == users@[i as int]@);
        let parts = split_on(users[i].as_str(), ':');
        if parts.len() != 3 {
            proof {
                assert(split_char(us.last(), ':').len() != 3);
                assert(first_bad_share(us) == Some(i as nat));
                assert(views(users@).take(i + 1) =~= us);
                lemma_first_bad_prefix(views(users@), (i + 1) as nat);
                assert(views(users@)[i as int] == users@[i as int]@);
            }
            let mut e = to_owned("--user format: uid:paid_share:owed_share (got \"");
            e.append(users[i].as_str());
            e.append("\")");
            assert(e@ == bad_share_message(views(users@)[i as int]));
            assert(first_bad_share(views(users@)) == Some(i as nat));
            assert(!split_equally);
            assert(views(users@).len() > 0);
            assert(create_expense_form(d, c, group_id, currency, category_id, date, split_equally, views(users@)) == Err::<Seq<Field>, Seq<char>>(e@));
            return Err(e);
        }
        let ghost before = fields(form@);
        let mut k = to_owned("users__");
        push_decimal(&mut k, i as u64);
        k.append("__user_id");
        form.push((k, to_owned(parts[0].as_str())));
        let mut k = to_owned("users__");
        push_decimal(&mut k, i as u64);
        k.append("__paid_share");
        form.push((k, to_owned(parts[1].as_str())));
        let mut k = to_owned("users__");
        push_decimal(&mut k, i as u64);
        k.append("__owed_share");
        form.push((k, to_owned(parts[2].as_str())));
        assert(fields(form@) =~= before + share_fields(i as nat, views(parts@)));
        i += 1;
    }
    proof {
        assert(users@.take(users@.len() as int) =~= users@);
    }
    Ok(form)
}

/// Where a prefix already holds a malformed share, the whole list reports
/// that same one first.
pub proof fn lemma_first_bad_prefix(users: Seq<Seq<char>>, n: nat)
    requires
        n <= users.len(),
        first_bad_share(users.take(n as int)) is Some,
    ensures
        first_bad_share(users) == first_bad_share(users.take(n as int)),
    decreases users.len() - n,
{
    if n < users.len() {
        lemma_first_bad_prefix_step(users, n);
        lemma_first_bad_prefix(users, n + 1);
    } else {
        assert(users.take(n as int) =~= users);
    }
}

proof fn lemma_first_bad_prefix_step(users: Seq<Seq<char>>, n: nat)
    requires
        n < users.len(),
        first_bad_share(users.take(n as int)) is Some,
    ensures
        first_bad_share(users.take(n as int + 1)) == first_bad_share(users.take(n as int)),
{
    assert(users.take(n as int + 1).drop_last() =~= users.take(n as int));
}

/// The form of an expense update: the fields given, in a fixed order.
pub open spec fn update_expense_form(
    description: Option<String>,
    cost: Option<String>,
    group_id: Option<u64>,
    currency: Option<String>,
    category_id: Option<u64>,
    date: Option<String>,
) -> Seq<Field> {
    opt_field("description"@, description) + opt_field("cost"@, cost) + opt_num_field(
        "group_id"@,
        group_id,
    ) + opt_field("currency_code"@, currency) + opt_num_field("category_id"@, category_id)
        + opt_field("date"@, date)
}

/// The form of an expense update.
pub fn expense_update_form(
    description: Option<String>,
    cost: Option<String>,
    group_id: Option<u64>,
    currency: Option<String>,
    category_id: Option<u64>,
    date: Option<String>,
) -> (r: Vec<(String, String)>)
    ensures
        fields(r@) == update_expense_form(description, cost, group_id, currency, category_id, date),
{
    let mut form: Vec<(String, String)> = Vec::new();
    assert(fields(form@) =~= Seq::<Field>::empty());
    add_opt_field(&mut form, "description", description);
    add_opt_field(&mut form, "cost", cost);
    add_opt_num_field(&mut form, "group_id", group_id);
    add_opt_field(&mut form, "currency_code", currency);
    add_opt_num_field(&mut form, "category_id", category_id);
    add_opt_field(&mut form, "date", date);
    assert(fields(form@) =~= update_expense_form(
        description,
        cost,
        group_id,
        currency,
        category_id,
        date,
    ));
    form
}

/// Adding someone to a group needs either a user id or an email address.
pub open spec fn add_to_group_allowed(user_id: Option<u64>, email: Option<String>) -> bool {
    user_id is Some || email is Some
}

/// Checks the arguments of adding someone to a group.
pub fn check_add_to_group(user_id: &Option<u64>, email: &Option<String>) -> (r: Result<(), String>)
    ensures
        r is Ok <==> add_to_group_allowed(*user_id, *email),
        r matches Err(e) ==> e@ == "provide --user-id or --email"@,
{
    if user_id.is_none() && email.is_none() {
        Err(to_owned("provide --user-id or --email"))
    } else {
        Ok(())
    }
}

// ───────────────────────── laws ─────────────────────────

/// Whether `c` does not occur in `s`.
pub open spec fn lacks(s: Seq<char>, c: char) -> bool {
    forall|i: int| 0 <= i < s.len() ==> s[i] != c
}

proof fn lemma_find_after_prefix(k: Seq<char>, rest: Seq<char>, c: char)
    requires
        lacks(k, c),
        rest.len() > 0,
        rest[0] == c,
    ensures
        find_char(k + rest, c) == Some(k.len()),
    decreases k.len(),
{
    if k.len() == 0 {
        assert(k + rest =~= rest);
    } else {
        let t = k.drop_first();
        assert(lacks(t, c));
        lemma_find_after_prefix(t, rest, c);
        assert((k + rest).drop_first() =~= t + rest);
        assert((k + rest)[0] == k[0]);
    }
}

/// Writing `key=value` with a key that holds no `=` and reading it back gives
/// the key and the value.
pub proof fn key_val_roundtrip(k: Seq<char>, v: Seq<char>)
    requires
        lacks(k, '='),
    ensures
        key_val(k + seq!['='] + v) == Ok::<(Seq<char>, Seq<char>), Seq<char>>((k, v)),
{
    let s = k + seq!['='] + v;
    assert(s =~= k + (seq!['='] + v));
    lemma_find_after_prefix(k, seq!['='] + v, '=');
    assert(s.take(k.len() as int) =~= k);
    assert(s.skip(k.len() as int + 1) =~= v);
}

/// Splitting a text that ends in a stretch without `c` extends the last piece
/// by that stretch.
proof fn lemma_split_append(p: Seq<char>, t: Seq<char>, c: char)
    requires
        lacks(t, c),
    ensures
        split_char(p + t, c) == split_char(p, c).drop_last().push(split_char(p, c).last() + t),
    decreases t.len(),
{
    lemma_split_nonempty(p, c);
    if t.len() == 0 {
        assert(p + t =~= p);
        assert(split_char(p, c).last() + t =~= split_char(p, c).last());
        assert(split_char(p, c).drop_last().push(split_char(p, c).last()) =~= split_char(p, c));
    } else {
        let u = t.drop_last();
        assert(lacks(u, c));
        lemma_split_append(p, u, c);
        assert((p + t).drop_last() =~= p + u);
        assert((p + t).last() == t.last());
        let q = split_char(p, c);
        let r = q.drop_last().push(q.last() + u);
        assert(r.drop_last() =~= q.drop_last());
        assert(r.last() == q.last() + u);
        assert((q.last() + u).push(t.last()) =~= q.last() + t);
    }
}

proof fn lemma_split_sep(p: Seq<char>, c: char)
    ensures
        split_char(p + seq![c], c) == split_char(p, c).push(Seq::empty()),
{
    assert((p + seq![c]).drop_last() =~= p);
}

/// A share written as `uid:paid:owed`, with no `:` inside the three parts,
/// splits into exactly those three parts.
pub proof fn share_split_roundtrip(a: Seq<char>, b: Seq<char>, c: Seq<char>)
    requires
        lacks(a, ':'),
        lacks(b, ':'),
        lacks(c, ':'),
    ensures
        split_char(a + seq![':'] + b + seq![':'] + c, ':') == seq![a, b, c],
{
    let e = Seq::<char>::empty();
    lemma_split_append(e, a, ':');
    assert(e + a =~= a);
    assert(split_char(e, ':') =~= seq![e]);
    assert(split_char(a, ':') =~= seq![a]);
    lemma_split_sep(a, ':');
    lemma_split_append(a + seq![':'], b, ':');
    let ab = a + seq![':'] + b;
    assert(split_char(ab, ':') =~= seq![a, b]);
    lemma_split_sep(ab, ':');
    lemma_split_append(ab + seq![':'], c, ':');
    assert(split_char(ab + seq![':'] + c, ':') =~= seq![a, b, c]);
}

/// When every custom share has three parts, none is refused.
pub proof fn well_formed_shares_accepted(users: Seq<Seq<char>>)
    requires
        forall|i: int| 0 <= i < users.len() ==> (#[trigger] split_char(users[i], ':')).len() == 3,
    ensures
        first_bad_share(users) is None,
    decreases users.len(),
{
    if users.len() > 0 {
        let u = users.drop_last();
        assert forall|i: int| 0 <= i < u.len() implies (#[trigger] split_char(u[i], ':')).len()
            == 3 by {
            assert(u[i] == users[i]);
        }
        well_formed_shares_accepted(u);
        assert(split_char(users[users.len() - 1], ':').len() == 3);
    }
}

/// Asking to split equally sends the base fields and the request to split,
/// whatever custom shares were given.
pub proof fn split_equally_ignores_shares(
    description: Seq<char>,
    cost: Seq<char>,
    group_id: u64,
    currency: Option<String>,
    category_id: Option<u64>,
    date: Option<String>,
    users: Seq<Seq<char>>,
)
    ensures
        create_expense_form(description, cost, group_id, currency, category_id, date, true, users)
            == create_expense_form(
            description,
            cost,
            group_id,
            currency,
            category_id,
            date,
            true,
            Seq::empty(),
        ),
{
}

/// Whatever the split, a new expense's form starts with its description,
/// cost and group, and carries every option given: the currency, the
/// category and the date; asking to split equally always succeeds and ends
/// the form with that request.
pub proof fn expense_form_sends_every_option(
    description: Seq<char>,
    cost: Seq<char>,
    group_id: u64,
    currency: Option<String>,
    category_id: Option<u64>,
    date: Option<String>,
    split_equally: bool,
    users: Seq<Seq<char>>,
)
    ensures
        split_equally ==> (create_expense_form(
            description,
            cost,
            group_id,
            currency,
            category_id,
            date,
            split_equally,
            users,
        ) matches Ok(f) && f.last() == ("split_equally"@, "true"@)),
        create_expense_form(
            description,
            cost,
            group_id,
            currency,
            category_id,
            date,
            split_equally,
            users,
        ) matches Ok(f) ==> {
            &&& f.len() >= 3
            &&& f[0] == ("description"@, description)
            &&& f[1] == ("cost"@, cost)
            &&& f[2] == ("group_id"@, decimal(group_id as nat))
            &&& currency matches Some(c) ==> f.contains(("currency_code"@, c@))
            &&& category_id matches Some(n) ==> f.contains(("category_id"@, decimal(n as nat)))
            &&& date matches Some(d) ==> f.contains(("date"@, d@))
        },
{
    let base = expense_base_form(description, cost, group_id, currency, category_id, date);
    let nc: int = if currency is Some { 1 } else { 0 };
    let nk: int = if category_id is Some { 1 } else { 0 };
    assert(base.len() == 3 + nc + nk + if date is Some { 1int } else { 0int });
    let r = create_expense_form(
        description,
        cost,
        group_id,
        currency,
        category_id,
        date,
        split_equally,
        users,
    );
    if let Ok(f) = r {
        let rest = f.skip(base.len() as int);
        assert(f =~= base + rest) by {
            if split_equally {
                assert(f == base + seq![("split_equally"@, "true"@)]);
            } else if users.len() > 0 {
                assert(f == base + shares_form(users));
            } else {
                assert(f =~= base + Seq::<Field>::empty());
            }
        }
        assert(f[0] == base[0] && f[1] == base[1] && f[2] == base[2]);
        if let Some(c) = currency {
            assert(f[3] == base[3]);
            assert(f[3] == ("currency_code"@, c@));
        }
        if let Some(n) = category_id {
            assert(f[3 + nc] == base[3 + nc]);
            assert(f[3 + nc] == ("category_id"@, decimal(n as nat)));
        }
        if let Some(d) = date {
            assert(f[3 + nc + nk] == base[3 + nc + nk]);
            assert(f[3 + nc + nk] == ("date"@, d@));
        }
    }
}

} // verus!
