use vstd::prelude::*;

verus! {

// ───────────────────────── specifications ─────────────────────────

/// The decimal digit `d` (0..=9) as a character.
pub open spec fn digit_char(d: nat) -> char {
    ((d + 48) as u8) as char
}

/// The decimal representation of `n`, without sign or leading zeros.
pub open spec fn decimal(n: nat) -> Seq<char>
    decreases n,
{
    if n < 10 {
        seq![digit_char(n)]
    } else {
        decimal(n / 10).push(digit_char(n % 10))
    }
}

/// `n` copies of the character `c`.
pub open spec fn repeat_char(c: char, n: nat) -> Seq<char> {
    Seq::new(n, |i: int| c)
}

/// `n` spaces.
pub open spec fn spaces(n: nat) -> Seq<char> {
    repeat_char(' ', n)
}

/// `s` left-aligned in a field of `w` characters (what `{:<w}` prints).
pub open spec fn pad_right(s: Seq<char>, w: nat) -> Seq<char> {
    if s.len() >= w {
        s
    } else {
        s + spaces((w - s.len()) as nat)
    }
}

/// `s` right-aligned in a field of `w` characters (what `{:>w}` prints).
pub open spec fn pad_left(s: Seq<char>, w: nat) -> Seq<char> {
    if s.len() >= w {
        s
    } else {
        spaces((w - s.len()) as nat) + s
    }
}

/// A person's name: the first name, then a space and the last name when the
/// last name is present and not empty.
pub open spec fn full_name(first: Seq<char>, last: Option<Seq<char>>) -> Seq<char> {
    match last {
        Some(l) => if l.len() > 0 { first + seq![' '] + l } else { first },
        None => first,
    }
}

/// Whether a tag is open after reading `s` from the start: the last of
/// `<` and `>` in `s` is a `<`.
pub open spec fn tag_open_after(s: Seq<char>) -> bool
    decreases s.len(),
{
    if s.len() == 0 {
        false
    } else if s.last() == '<' {
        true
    } else if s.last() == '>' {
        false
    } else {
        tag_open_after(s.drop_last())
    }
}

/// `s` with every `<...>` markup tag removed: the characters `<` and `>`
/// are dropped, and so is every character read while a tag is open.
pub open spec fn strip_tags(s: Seq<char>) -> Seq<char>
    decreases s.len(),
{
    if s.len() == 0 {
        Seq::empty()
    } else {
        let prev = strip_tags(s.drop_last());
        let c = s.last();
        if c == '<' || c == '>' || tag_open_after(s.drop_last()) {
            prev
        } else {
            prev.push(c)
        }
    }
}

/// The number of bytes of the UTF-8 encoding of `c`.
pub open spec fn char_width(c: char) -> nat {
    if (c as u32) < 0x80 {
        1
    } else if (c as u32) < 0x800 {
        2
    } else if (c as u32) < 0x10000 {
        3
    } else {
        4
    }
}

/// The number of bytes of the UTF-8 encoding of `s` (what `str::len` returns).
pub open spec fn utf8_len(s: Seq<char>) -> nat
    decreases s.len(),
{
    if s.len() == 0 {
        0
    } else {
        char_width(s[0]) + utf8_len(s.drop_first())
    }
}

/// The longest prefix of `s` whose UTF-8 encoding has at most `max` bytes.
pub open spec fn take_bytes(s: Seq<char>, max: nat) -> Seq<char>
    decreases s.len(),
{
    if s.len() == 0 || char_width(s[0]) > max {
        Seq::empty()
    } else {
        seq![s[0]] + take_bytes(s.drop_first(), (max - char_width(s[0])) as nat)
    }
}

/// Whether cutting `s` after `max` bytes is defined: either `s` is not longer
/// than that, or byte `max` falls on a character boundary.
pub open spec fn cuttable(s: Seq<char>, max: nat) -> bool {
    utf8_len(s) <= max || utf8_len(take_bytes(s, max)) == max
}

/// `s` cut to its first `max` bytes (defined where `cuttable(s, max)`).
pub open spec fn cut_bytes(s: Seq<char>, max: nat) -> Seq<char> {
    if utf8_len(s) <= max {
        s
    } else {
        take_bytes(s, max)
    }
}

/// The ellipsis character used to mark a shortened text.
pub open spec fn ellipsis() -> char {
    '\u{2026}'
}

/// `s` shortened to at most `max` characters: when it is longer, its first
/// `max - 1` characters followed by an ellipsis.
pub open spec fn shorten(s: Seq<char>, max: nat) -> Seq<char> {
    if s.len() <= max {
        s
    } else {
        s.take(if max >= 1 { max - 1 } else { 0 }).push(ellipsis())
    }
}

/// The characters that `char::is_whitespace` accepts (Unicode White_Space).
pub open spec fn is_space(c: char) -> bool {
    let v = c as u32;
    (0x9 <= v && v <= 0xd) || v == 0x20 || v == 0x85 || v == 0xa0 || v == 0x1680
        || (0x2000 <= v && v <= 0x200a) || v == 0x2028 || v == 0x2029 || v == 0x202f
        || v == 0x205f || v == 0x3000
}

/// `s` without its leading white space.
pub open spec fn trim_start(s: Seq<char>) -> Seq<char>
    decreases s.len(),
{
    if s.len() > 0 && is_space(s[0]) {
        trim_start(s.drop_first())
    } else {
        s
    }
}

/// `s` without its trailing white space.
pub open spec fn trim_end(s: Seq<char>) -> Seq<char>
    decreases s.len(),
{
    if s.len() > 0 && is_space(s.last()) {
        trim_end(s.drop_last())
    } else {
        s
    }
}

/// `s` without white space at either end (what `str::trim` returns).
pub open spec fn trim(s: Seq<char>) -> Seq<char> {
    trim_end(trim_start(s))
}

/// `s` without any of its leading copies of `c`.
pub open spec fn strip_leading(s: Seq<char>, c: char) -> Seq<char>
    decreases s.len(),
{
    if s.len() > 0 && s[0] == c {
        strip_leading(s.drop_first(), c)
    } else {
        s
    }
}

/// The parts joined with `sep` between each two of them.
pub open spec fn join(parts: Seq<Seq<char>>, sep: Seq<char>) -> Seq<char>
    decreases parts.len(),
{
    if parts.len() == 0 {
        Seq::empty()
    } else if parts.len() == 1 {
        parts[0]
    } else {
        join(parts.drop_last(), sep) + sep + parts.last()
    }
}

/// The character views of a sequence of strings.
pub open spec fn views(v: Seq<String>) -> Seq<Seq<char>> {
    v.map_values(|s: String| s@)
}

/// The text of an optional string.
pub open spec fn opt_view(o: Option<String>) -> Option<Seq<char>> {
    match o {
        Some(s) => Some(s@),
        None => None,
    }
}

/// The images under `f` of the elements of `s` that satisfy `keep`, in order.
pub open spec fn keep_map<A, B>(s: Seq<A>, keep: spec_fn(A) -> bool, f: spec_fn(A) -> B) -> Seq<B>
    decreases s.len(),
{
    if s.len() == 0 {
        Seq::empty()
    } else {
        let prev = keep_map(s.drop_last(), keep, f);
        if keep(s.last()) {
            prev.push(f(s.last()))
        } else {
            prev
        }
    }
}

/// The concatenation of the images under `f` of the elements of `s`.
pub open spec fn concat_map<A, B>(s: Seq<A>, f: spec_fn(A) -> Seq<B>) -> Seq<B>
    decreases s.len(),
{
    if s.len() == 0 {
        Seq::empty()
    } else {
        concat_map(s.drop_last(), f) + f(s.last())
    }
}

// ───────────────────────── lemmas ─────────────────────────

/// Cutting a text that already fits leaves it whole.
pub proof fn lemma_take_bytes_fits(s: Seq<char>, max: nat)
    requires
        utf8_len(s) <= max,
    ensures
        take_bytes(s, max) == s,
    decreases s.len(),
{
    if s.len() > 0 {
        lemma_take_bytes_fits(s.drop_first(), (max - char_width(s[0])) as nat);
        assert(seq![s[0]] + s.drop_first() =~= s);
    }
}

/// A padded field is as wide as the field, or as the text when the text is
/// wider, and starts with the text.
pub proof fn padding_width(s: Seq<char>, w: nat)
    ensures
        pad_right(s, w).len() == if s.len() >= w { s.len() } else { w },
        pad_left(s, w).len() == if s.len() >= w { s.len() } else { w },
        pad_right(s, w).take(s.len() as int) == s,
        pad_left(s, w).skip(pad_left(s, w).len() - s.len()) == s,
{
    assert(pad_right(s, w).take(s.len() as int) =~= s);
    assert(pad_left(s, w).skip(pad_left(s, w).len() - s.len()) =~= s);
}

/// Whether `s` holds neither `<` nor `>`.
pub open spec fn no_markup(s: Seq<char>) -> bool {
    forall|i: int| 0 <= i < s.len() ==> s[i] != '<' && s[i] != '>'
}

proof fn lemma_no_markup_no_tag(s: Seq<char>)
    requires
        no_markup(s),
    ensures
        !tag_open_after(s),
        strip_tags(s) == s,
    decreases s.len(),
{
    if s.len() > 0 {
        let t = s.drop_last();
        assert(no_markup(t));
        lemma_no_markup_no_tag(t);
        assert(t.push(s.last()) =~= s);
    }
}

proof fn lemma_strip_tags_no_markup(s: Seq<char>)
    ensures
        no_markup(strip_tags(s)),
    decreases s.len(),
{
    if s.len() > 0 {
        lemma_strip_tags_no_markup(s.drop_last());
    }
}

/// Removing markup leaves no `<` or `>`, leaves a text without them as it is,
/// and so removing it twice is removing it once.
pub proof fn strip_tags_laws(s: Seq<char>)
    ensures
        no_markup(strip_tags(s)),
        no_markup(s) ==> strip_tags(s) == s,
        strip_tags(strip_tags(s)) == strip_tags(s),
{
    lemma_strip_tags_no_markup(s);
    if no_markup(s) {
        lemma_no_markup_no_tag(s);
    }
    lemma_no_markup_no_tag(strip_tags(s));
}

/// A shortened text has at most `max` characters (for `max` at least 1) and
/// a text that fits is left as it is.
pub proof fn shorten_fits(s: Seq<char>, max: nat)
    ensures
        max >= 1 ==> shorten(s, max).len() <= max,
        s.len() <= max ==> shorten(s, max) == s,
{
}

proof fn lemma_take_bytes_prefix(s: Seq<char>, max: nat)
    ensures
        take_bytes(s, max).len() <= s.len(),
        take_bytes(s, max) == s.take(take_bytes(s, max).len() as int),
        utf8_len(take_bytes(s, max)) <= max,
    decreases s.len(),
{
    if s.len() > 0 && char_width(s[0]) <= max {
        let rest = take_bytes(s.drop_first(), (max - char_width(s[0])) as nat);
        lemma_take_bytes_prefix(s.drop_first(), (max - char_width(s[0])) as nat);
        assert(s.take(rest.len() as int + 1) =~= seq![s[0]] + s.drop_first().take(rest.len() as int));
        assert((seq![s[0]] + rest).drop_first() =~= rest);
    }
}

/// A cut text is a prefix of the text and has at most `max` bytes.
pub proof fn cut_fits(s: Seq<char>, max: nat)
    requires
        cuttable(s, max),
    ensures
        utf8_len(cut_bytes(s, max)) <= max,
        cut_bytes(s, max) == s.take(cut_bytes(s, max).len() as int),
{
    lemma_take_bytes_prefix(s, max);
    if utf8_len(s) <= max {
        assert(s.take(s.len() as int) =~= s);
    }
}

/// An empty last name is shown as no last name.
pub proof fn empty_last_name(first: Seq<char>)
    ensures
        full_name(first, Some(Seq::empty())) == full_name(first, None),
{
}

// ───────────────────────── executable code ─────────────────────────

/// `String::push` of std, trusted: afterwards the text is the old text with
/// `ch` appended at its end, as std documents ("Appends the given char to the
/// end of this String").
pub assume_specification[ String::push ](s: &mut String, ch: char)
    ensures
        final(s)@ == old(s)@.push(ch),
;

/// Appends a line to a list of lines.
pub fn emit(lines: &mut Vec<String>, line: String)
    ensures
        views(final(lines)@) == views(old(lines)@).push(line@),
{
    let ghost before = lines@;
    lines.push(line);
    assert(views(lines@) =~= views(before).push(line@));
}

/// Appends a copy of `s` as a line.
pub fn emit_str(lines: &mut Vec<String>, s: &str)
    ensures
        views(final(lines)@) == views(old(lines)@).push(s@),
{
    emit(lines, to_owned(s));
}

/// The characters of `s`, in order.
pub fn chars_of(s: &str) -> (v: Vec<char>)
    ensures
        v@ == s@,
{
    broadcast use vstd::string::group_string_axioms;

    let mut v: Vec<char> = Vec::new();
    for c in it: s.chars()
        invariant
            v@ == it.seq().take(it.index()),
            it.seq() == s@,
    {
        v.push(c);
    }
    v
}

/// A new string holding the characters `v[from..to]`.
pub fn string_of_chars(v: &Vec<char>, from: usize, to: usize) -> (r: String)
    requires
        from <= to <= v@.len(),
    ensures
        r@ == v@.subrange(from as int, to as int),
{
    let mut r = String::new();
    let mut i = from;
    while i < to
        invariant
            from <= i <= to <= v@.len(),
            r@ == v@.subrange(from as int, i as int),
        decreases to - i,
    {
        r.push(v[i]);
        assert(v@.subrange(from as int, i + 1) == v@.subrange(from as int, i as int).push(
            v@[i as int],
        ));
        i += 1;
    }
    r
}

/// An owned copy of `s`.
pub fn to_owned(s: &str) -> (r: String)
    ensures
        r@ == s@,
{
    let mut r = String::new();
    r.append(s);
    r
}

/// Whether two texts are equal, character for character.
pub fn same_text(a: &str, b: &str) -> (r: bool)
    ensures
        r == (a@ == b@),
{
    let va = chars_of(a);
    let vb = chars_of(b);
    if va.len() != vb.len() {
        return false;
    }
    let mut i: usize = 0;
    while i < va.len()
        invariant
            va@ == a@,
            vb@ == b@,
            va@.len() == vb@.len(),
            i <= va@.len(),
            forall|j: int| 0 <= j < i ==> va@[j] == vb@[j],
        decreases va.len() - i,
    {
        if va[i] != vb[i] {
            return false;
        }
        i += 1;
    }
    assert(va@ =~= vb@);
    true
}

/// The decimal digit `d` as a character.
pub fn digit(d: u64) -> (c: char)
    requires
        d < 10,
    ensures
        c == digit_char(d as nat),
{
    ((d as u8) + 48u8) as char
}

/// Appends the decimal representation of `n`.
pub fn push_decimal(out: &mut String, n: u64)
    ensures
        final(out)@ == old(out)@ + decimal(n as nat),
    decreases n,
{
    if n >= 10 {
        push_decimal(out, n / 10);
    }
    out.push(digit(n % 10));
    assert(decimal(n as nat) == (if n < 10 {
        seq![digit_char(n as nat)]
    } else {
        decimal((n / 10) as nat).push(digit_char((n % 10) as nat))
    }));
}

/// The decimal representation of `n` (what `n.to_string()` gives).
pub fn u64_to_string(n: u64) -> (r: String)
    ensures
        r@ == decimal(n as nat),
{
    let mut r = String::new();
    push_decimal(&mut r, n);
    r
}

/// Appends `n` copies of `c`.
pub fn push_repeat(out: &mut String, c: char, n: usize)
    ensures
        final(out)@ == old(out)@ + repeat_char(c, n as nat),
{
    let ghost start = out@;
    let mut i: usize = 0;
    while i < n
        invariant
            i <= n,
            out@ == start + repeat_char(c, i as nat),
        decreases n - i,
    {
        out.push(c);
        assert(start + repeat_char(c, (i + 1) as nat) =~= (start + repeat_char(c, i as nat)).push(
            c,
        ));
        i += 1;
    }
}

/// `n` copies of `c` as a new string (what `c.to_string().repeat(n)` gives).
pub fn repeated(c: char, n: usize) -> (r: String)
    ensures
        r@ == repeat_char(c, n as nat),
{
    let mut r = String::new();
    push_repeat(&mut r, c, n);
    assert(r@ =~= repeat_char(c, n as nat));
    r
}

/// Appends `s` left-aligned in a field of `w` characters.
pub fn push_padded(out: &mut String, s: &str, w: usize)
    ensures
        final(out)@ == old(out)@ + pad_right(s@, w as nat),
{
    let ghost start = out@;
    let n = s.unicode_len();
    out.append(s);
    if n < w {
        push_repeat(out, ' ', w - n);
    }
    assert(out@ =~= start + pad_right(s@, w as nat));
}

/// Appends `s` right-aligned in a field of `w` characters.
pub fn push_padded_left(out: &mut String, s: &str, w: usize)
    ensures
        final(out)@ == old(out)@ + pad_left(s@, w as nat),
{
    let ghost start = out@;
    let n = s.unicode_len();
    if n < w {
        push_repeat(out, ' ', w - n);
    }
    out.append(s);
    assert(out@ =~= start + pad_left(s@, w as nat));
}

/// Appends the decimal representation of `n` left-aligned in a field of `w`
/// characters.
pub fn push_padded_u64(out: &mut String, n: u64, w: usize)
    ensures
        final(out)@ == old(out)@ + pad_right(decimal(n as nat), w as nat),
{
    let d = u64_to_string(n);
    push_padded(out, d.as_str(), w);
}

/// A person's name as the listings show it: `first`, followed by a space and
/// `last` where `last` is present and not empty.
pub fn display_name(first: &str, last: Option<&str>) -> (r: String)
    ensures
        r@ == full_name(
            first@,
            match last {
                Some(l) => Some(l@),
                None => None,
            },
        ),
{
    let mut r = to_owned(first);
    match last {
        Some(l) => {
            if !l.is_empty() {
                r.push(' ');
                r.append(l);
            }
        },
        None => {},
    }
    r
}

/// `display_name` over an owned optional last name.
pub fn name_of(first: &String, last: &Option<String>) -> (r: String)
    ensures
        r@ == full_name(first@, opt_view(*last)),
{
    match last {
        Some(l) => display_name(first.as_str(), Some(l.as_str())),
        None => display_name(first.as_str(), None),
    }
}

/// `s` with its `<...>` markup tags removed.
pub fn strip_html(s: &str) -> (r: String)
    ensures
        r@ == strip_tags(s@),
{
    let v = chars_of(s);
    let mut r = String::new();
    let mut in_tag = false;
    let mut i: usize = 0;
    while i < v.len()
        invariant
            v@ == s@,
            i <= v@.len(),
            r@ == strip_tags(v@.take(i as int)),
            in_tag == tag_open_after(v@.take(i as int)),
        decreases v.len() - i,
    {
        let c = v[i];
        assert(v@.take(i + 1).drop_last() =~= v@.take(i as int));
        if c == '<' {
            in_tag = true;
        } else if c == '>' {
            in_tag = false;
        } else if !in_tag {
            r.push(c);
        }
        i += 1;
    }
    assert(v@.take(v@.len() as int) =~= v@);
    r
}

/// The number of bytes of the UTF-8 encoding of `c`.
pub fn utf8_width(c: char) -> (w: usize)
    ensures
        w == char_width(c),
{
    let v = c as u32;
    if v < 0x80 {
        1
    } else if v < 0x800 {
        2
    } else if v < 0x10000 {
        3
    } else {
        4
    }
}

/// Whether `cut_to_bytes(s, max)` is defined on `s`: it is when `s` has at
/// most `max` bytes, or byte `max` of `s` starts a character.
pub fn is_cuttable(s: &str, max: usize) -> (r: bool)
    ensures
        r == cuttable(s@, max as nat),
{
    let v = chars_of(s);
    let (i, used) = bytes_prefix(&v, max);
    if i == v.len() {
        proof {
            assert(v@.skip(i as int) =~= Seq::<char>::empty());
            lemma_utf8_len_split(v@, i as int);
        }
        true
    } else {
        proof {
            lemma_utf8_len_split(v@, i as int);
            lemma_utf8_len_split(v@, (i + 1) as int);
            assert(v@.skip(i as int).drop_first() =~= v@.skip(i + 1));
        }
        used == max
    }
}

/// `utf8_len` adds up over a split.
pub proof fn lemma_utf8_len_split(s: Seq<char>, k: int)
    requires
        0 <= k <= s.len(),
    ensures
        utf8_len(s) == utf8_len(s.take(k)) + utf8_len(s.skip(k)),
    decreases k,
{
    if k > 0 {
        lemma_utf8_len_split(s.drop_first(), k - 1);
        assert(s.take(k).drop_first() =~= s.drop_first().take(k - 1));
        assert(s.skip(k) =~= s.drop_first().skip(k - 1));
    } else {
        assert(s.skip(0) =~= s);
    }
}

/// The longest prefix `v[..i]` whose encoding has at most `max` bytes, and
/// its byte length.
fn bytes_prefix(v: &Vec<char>, max: usize) -> (res: (usize, usize))
    ensures
        res.0 <= v@.len(),
        res.1 <= max,
        res.1 == utf8_len(v@.take(res.0 as int)),
        take_bytes(v@, max as nat) == v@.take(res.0 as int),
        res.0 < v@.len() ==> res.1 + char_width(v@[res.0 as int]) > max,
{
    let mut i: usize = 0;
    let mut used: usize = 0;
    proof {
        assert(v@.skip(0) =~= v@);
        assert(v@.take(0) =~= Seq::<char>::empty());
    }
    while i < v.len() && utf8_width(v[i]) <= max - used
        invariant
            i <= v@.len(),
            used <= max,
            used == utf8_len(v@.take(i as int)),
            take_bytes(v@, max as nat) == v@.take(i as int) + take_bytes(
                v@.skip(i as int),
                (max - used) as nat,
            ),
        decreases v.len() - i,
    {
        let w = utf8_width(v[i]);
        proof {
            let rest = v@.skip(i as int);
            assert(rest[0] == v@[i as int]);
            assert(rest.drop_first() =~= v@.skip(i + 1));
            assert(v@.take(i + 1) =~= v@.take(i as int) + seq![v@[i as int]]);
            lemma_utf8_len_split(v@.take(i + 1), i as int);
            assert(v@.take(i + 1).take(i as int) =~= v@.take(i as int));
            assert(v@.take(i + 1).skip(i as int) =~= seq![v@[i as int]]);
            assert(seq![v@[i as int]].drop_first() =~= Seq::<char>::empty());
            assert(utf8_len(Seq::<char>::empty()) == 0);
            assert(utf8_len(seq![v@[i as int]]) == char_width(v@[i as int]));
        }
        used = used + w;
        i = i + 1;
    }
    proof {
        if i < v.len() {
            let rest = v@.skip(i as int);
            assert(rest[0] == v@[i as int]);
        } else {
            assert(v@.skip(i as int) =~= Seq::<char>::empty());
        }
        assert(v@.take(i as int) + Seq::<char>::empty() =~= v@.take(i as int));
    }
    (i, used)
}

/// `s` cut to its first `max` bytes, or `s` itself when it is not longer.
/// Defined only where byte `max` starts a character (`cuttable`).
pub fn cut_to_bytes(s: &str, max: usize) -> (r: &str)
    requires
        cuttable(s@, max as nat),
    ensures
        r@ == cut_bytes(s@, max as nat),
{
    let v = chars_of(s);
    let (i, used) = bytes_prefix(&v, max);
    proof {
        lemma_utf8_len_split(v@, i as int);
        if i == v.len() {
            assert(v@.skip(i as int) =~= Seq::<char>::empty());
            assert(v@.take(i as int) =~= v@);
            lemma_take_bytes_fits(v@, max as nat);
        }
    }
    s.substring_char(0, i)
}

/// `s` cut to at most `max` bytes (the listings' column cut).
pub fn truncate(s: &str, max: usize) -> (r: &str)
    requires
        cuttable(s@, max as nat),
    ensures
        r@ == cut_bytes(s@, max as nat),
{
    cut_to_bytes(s, max)
}

/// The date part (first ten bytes) of a timestamp.
pub fn date_short(s: &str) -> (r: &str)
    requires
        cuttable(s@, 10),
    ensures
        r@ == cut_bytes(s@, 10),
{
    cut_to_bytes(s, 10)
}

/// `s` shortened to at most `max` characters, marked with an ellipsis when
/// shortened.
pub fn trunc(s: &str, max: usize) -> (r: String)
    ensures
        r@ == shorten(s@, max as nat),
{
    let v = chars_of(s);
    if v.len() <= max {
        to_owned(s)
    } else {
        let keep = if max >= 1 { max - 1 } else { 0 };
        let mut r = string_of_chars(&v, 0, keep);
        r.push('\u{2026}');
        assert(v@.subrange(0, keep as int) =~= v@.take(keep as int));
        r
    }
}

/// `s` without white space at either end.
pub fn trim_text(s: &str) -> (r: String)
    ensures
        r@ == trim(s@),
{
    let v = chars_of(s);
    let mut a: usize = 0;
    assert(v@.skip(0) =~= v@);
    while a < v.len() && is_space_char(v[a])
        invariant
            a <= v@.len(),
            trim_start(v@) == trim_start(v@.skip(a as int)),
        decreases v.len() - a,
    {
        assert(v@.skip(a as int).drop_first() =~= v@.skip(a + 1));
        a += 1;
    }
    let mut b: usize = v.len();
    proof {
        if a < v.len() {
            assert(v@.skip(a as int)[0] == v@[a as int]);
        }
        assert(trim_start(v@.skip(a as int)) == v@.skip(a as int));
        assert(v@.skip(a as int) =~= v@.subrange(a as int, b as int));
    }
    while b > a && is_space_char(v[b - 1])
        invariant
            a <= b <= v@.len(),
            trim(v@) == trim_end(v@.subrange(a as int, b as int)),
        decreases b - a,
    {
        assert(v@.subrange(a as int, b as int).drop_last() =~= v@.subrange(a as int, b - 1));
        b -= 1;
    }
    proof {
        if b > a {
            assert(v@.subrange(a as int, b as int).last() == v@[b - 1]);
        }
    }
    string_of_chars(&v, a, b)
}

/// Whether `c` is white space in the sense of `char::is_whitespace`.
pub fn is_space_char(c: char) -> (r: bool)
    ensures
        r == is_space(c),
{
    let v = c as u32;
    (0x9 <= v && v <= 0xd) || v == 0x20 || v == 0x85 || v == 0xa0 || v == 0x1680 || (0x2000 <= v
        && v <= 0x200a) || v == 0x2028 || v == 0x2029 || v == 0x202f || v == 0x205f || v == 0x3000
}

/// `s` without its leading copies of `c` (what `trim_start_matches(c)` gives).
pub fn strip_leading_char(s: &str, c: char) -> (r: String)
    ensures
        r@ == strip_leading(s@, c),
{
    let v = chars_of(s);
    let mut a: usize = 0;
    assert(v@.skip(0) =~= v@);
    while a < v.len() && v[a] == c
        invariant
            a <= v@.len(),
            strip_leading(v@, c) == strip_leading(v@.skip(a as int), c),
        decreases v.len() - a,
    {
        assert(v@.skip(a as int).drop_first() =~= v@.skip(a + 1));
        a += 1;
    }
    proof {
        if a < v.len() {
            assert(v@.skip(a as int)[0] == v@[a as int]);
        }
        assert(v@.skip(a as int) =~= v@.subrange(a as int, v@.len() as int));
    }
    string_of_chars(&v, a, v.len())
}

/// The parts joined with `sep` between each two of them.
pub fn join_strings(parts: &Vec<String>, sep: &str) -> (r: String)
    ensures
        r@ == join(views(parts@), sep@),
{
    let mut r = String::new();
    let mut i: usize = 0;
    while i < parts.len()
        invariant
            i <= parts@.len(),
            r@ == join(views(parts@.take(i as int)), sep@),
        decreases parts.len() - i,
    {
        proof {
            assert(views(parts@.take(i + 1)).drop_last() =~= views(parts@.take(i as int)));
            assert(views(parts@.take(i + 1)).last() == parts@[i as int]@);
        }
        if i > 0 {
            r.append(sep);
        } else {
            assert(views(parts@.take(0)) =~= Seq::<Seq<char>>::empty());
        }
        r.append(parts[i].as_str());
        i += 1;
    }
    assert(parts@.take(parts@.len() as int) =~= parts@);
    r
}

} // verus!
