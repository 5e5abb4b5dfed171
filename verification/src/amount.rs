//! Amounts arrive from the service as decimal text ("12.50", "-3.00"). The
//! listings need to know whether such a text denotes a positive, a negative
//! or a zero amount. A text is read as `str::parse::<f64>` reads it; a text
//! that does not parse counts as zero, and so does a number too small for an
//! `f64` (at most 2^-1075, about 2.47e-324, such as "1e-400"), which that
//! reading rounds to zero. As in std's reader, exponent digits are passed
//! over once the exponent read so far reaches 65536.
use vstd::prelude::*;
use crate::text::chars_of;

verus! {

/// The sign of an amount.
#[derive(Clone, Copy, Debug, PartialEq, Eq, Structural)]
pub enum Sign {
    Positive,
    Negative,
    Zero,
}

// ───────────────────────── specifications ─────────────────────────

pub open spec fn is_digit(c: char) -> bool {
    '0' <= c && c <= '9'
}

/// ASCII lower case of `c`.
pub open spec fn lower(c: char) -> char {
    if 'A' <= c && c <= 'Z' {
        ((c as u32) + 32) as char
    } else {
        c
    }
}

pub open spec fn is_exp_mark(c: char) -> bool {
    c == 'e' || c == 'E'
}

/// The index of the first exponent mark of `s`, or its length.
pub open spec fn exp_index(s: Seq<char>) -> nat
    decreases s.len(),
{
    if s.len() == 0 || is_exp_mark(s[0]) {
        0
    } else {
        1 + exp_index(s.drop_first())
    }
}

/// `Digit+ | Digit+ '.' Digit* | Digit* '.' Digit+`: digits with at most
/// one point, and at least one digit.
pub open spec fn valid_mantissa(m: Seq<char>) -> bool {
    &&& forall|i: int| 0 <= i < m.len() ==> is_digit(#[trigger] m[i]) || m[i] == '.'
    &&& forall|i: int, j: int|
        0 <= i < m.len() && 0 <= j < m.len() && m[i] == '.' && m[j] == '.' ==> i == j
    &&& exists|i: int| 0 <= i < m.len() && is_digit(#[trigger] m[i])
}

/// `t` without one leading sign.
pub open spec fn sign_skipped(t: Seq<char>) -> Seq<char> {
    if t.len() > 0 && (t[0] == '+' || t[0] == '-') {
        t.drop_first()
    } else {
        t
    }
}

/// One or more digits.
pub open spec fn all_digits(u: Seq<char>) -> bool {
    u.len() > 0 && forall|i: int| 0 <= i < u.len() ==> is_digit(#[trigger] u[i])
}

/// Digits, possibly after one sign.
pub open spec fn signed_digits(t: Seq<char>) -> bool {
    all_digits(sign_skipped(t))
}

/// Either nothing, or an exponent mark followed by signed digits.
pub open spec fn valid_exponent(e: Seq<char>) -> bool {
    e.len() == 0 || (is_exp_mark(e[0]) && signed_digits(e.drop_first()))
}

/// The grammar of unsigned finite numbers that `f64::from_str` accepts.
pub open spec fn valid_number(b: Seq<char>) -> bool {
    valid_mantissa(b.take(exp_index(b) as int)) && valid_exponent(b.skip(exp_index(b) as int))
}

/// Whether some digit of `m` is not zero.
pub open spec fn has_nonzero_digit(m: Seq<char>) -> bool {
    exists|i: int| 0 <= i < m.len() && is_digit(#[trigger] m[i]) && m[i] != '0'
}

// ── the value of a number, and the least value an `f64` keeps ──

/// `10^n`.
pub open spec fn pow10(n: nat) -> nat
    decreases n,
{
    if n == 0 {
        1
    } else {
        10 * pow10((n - 1) as nat)
    }
}

/// `5^n`.
pub open spec fn pow5(n: nat) -> nat
    decreases n,
{
    if n == 0 {
        1
    } else {
        5 * pow5((n - 1) as nat)
    }
}

/// The value of a digit character.
pub open spec fn digit_of(c: char) -> u8 {
    ((c as u32) - 48) as u8
}

/// The digits of `m` in order, as numbers, its points left out.
pub open spec fn digits_of(m: Seq<char>) -> Seq<u8>
    decreases m.len(),
{
    if m.len() == 0 {
        Seq::empty()
    } else if m.last() == '.' {
        digits_of(m.drop_last())
    } else {
        digits_of(m.drop_last()).push(digit_of(m.last()))
    }
}

/// The number that a list of decimal digits spells, most significant first.
pub open spec fn digits_value(ds: Seq<u8>) -> nat
    decreases ds.len(),
{
    if ds.len() == 0 {
        0
    } else {
        10 * digits_value(ds.drop_last()) + ds.last() as nat
    }
}

/// The number of digits after the point of a mantissa.
pub open spec fn frac_count(m: Seq<char>) -> nat
    decreases m.len(),
{
    if m.len() == 0 || m.last() == '.' {
        0
    } else if m.drop_last().contains('.') {
        frac_count(m.drop_last()) + 1
    } else {
        0
    }
}

/// The value of exponent digits as std's float reader takes them: once the
/// value read so far reaches 65536, further digits are passed over.
pub open spec fn exponent_digits_value(ds: Seq<u8>) -> nat
    decreases ds.len(),
{
    if ds.len() == 0 {
        0
    } else {
        let p = exponent_digits_value(ds.drop_last());
        if p < 0x10000 {
            10 * p + ds.last() as nat
        } else {
            p
        }
    }
}

/// The value of the exponent part of a number, as std's float reader takes
/// it: 0 when there is none.
pub open spec fn exponent_value(x: Seq<char>) -> int {
    if x.len() == 0 {
        0
    } else {
        let t = x.drop_first();
        let v = exponent_digits_value(digits_of(sign_skipped(t))) as int;
        if t.len() > 0 && t[0] == '-' {
            -v
        } else {
            v
        }
    }
}

/// The exponent `k` with which the digits of a number spell its value as
/// `digits * 10^k`.
pub open spec fn scale(b: Seq<char>) -> int {
    let m = b.take(exp_index(b) as int);
    exponent_value(b.skip(exp_index(b) as int)) - frac_count(m)
}

/// Whether `d * 10^k` is more than `2^-1075`, half the least positive `f64`.
/// The correctly rounded reading of a decimal gives zero exactly when its
/// value is at most that (the tie goes to the even neighbour, zero). As
/// `2^-1075 == 5^1075 * 10^-1075`, this compares `d * 10^(k + 1075)` with
/// `5^1075`.
pub open spec fn above_underflow(d: nat, k: int) -> bool {
    if k + 1075 >= 0 {
        d * pow10((k + 1075) as nat) > pow5(1075)
    } else {
        d > pow5(1075) * pow10((-(k + 1075)) as nat)
    }
}

/// Whether the valid number `b` reads as an `f64` other than zero.
pub open spec fn reads_nonzero(b: Seq<char>) -> bool {
    above_underflow(digits_value(digits_of(b.take(exp_index(b) as int))), scale(b))
}

/// Whether `b` is `w` up to ASCII case.
pub open spec fn is_word(b: Seq<char>, w: Seq<char>) -> bool {
    b.len() == w.len() && forall|i: int| 0 <= i < b.len() ==> lower(#[trigger] b[i]) == w[i]
}

pub open spec fn is_infinity_word(b: Seq<char>) -> bool {
    is_word(b, seq!['i', 'n', 'f']) || is_word(b, seq!['i', 'n', 'f', 'i', 'n', 'i', 't', 'y'])
}

/// Whether the amount text starts with a minus sign.
pub open spec fn negated(s: Seq<char>) -> bool {
    s.len() > 0 && s[0] == '-'
}

/// The amount text without its sign.
pub open spec fn unsigned_part(s: Seq<char>) -> Seq<char> {
    if s.len() > 0 && (s[0] == '-' || s[0] == '+') {
        s.drop_first()
    } else {
        s
    }
}

/// Whether the amount text reads as an `f64` other than zero: an infinity,
/// or a valid number with a nonzero digit whose value does not round to zero.
pub open spec fn denotes_nonzero(s: Seq<char>) -> bool {
    let b = unsigned_part(s);
    is_infinity_word(b) || (valid_number(b) && has_nonzero_digit(b.take(exp_index(b) as int))
        && reads_nonzero(b))
}

/// The sign of the value that the amount text denotes; `Zero` for zero, for
/// "NaN" and for texts that are no number.
pub open spec fn sign_of(s: Seq<char>) -> Sign {
    if denotes_nonzero(s) {
        if negated(s) {
            Sign::Negative
        } else {
            Sign::Positive
        }
    } else {
        Sign::Zero
    }
}

/// The text the service uses for a zero balance.
pub open spec fn zero_text() -> Seq<char> {
    seq!['0', '.', '0', '0']
}

/// Whether a balance is listed: every amount but the literal "0.00".
pub open spec fn is_listed(amount: Seq<char>) -> bool {
    amount != zero_text()
}

// ───────────────────────── executable code ─────────────────────────

fn is_digit_char(c: char) -> (r: bool)
    ensures
        r == is_digit(c),
{
    '0' <= c && c <= '9'
}

fn lower_char(c: char) -> (r: char)
    ensures
        r == lower(c),
{
    if 'A' <= c && c <= 'Z' {
        ((c as u32) + 32) as u8 as char
    } else {
        c
    }
}

/// Whether `v[start..]` is `w` up to ASCII case.
fn word_at(v: &Vec<char>, start: usize, w: &Vec<char>) -> (r: bool)
    requires
        start <= v@.len(),
    ensures
        r == is_word(v@.skip(start as int), w@),
{
    if v.len() - start != w.len() {
        return false;
    }
    let mut i: usize = 0;
    while i < w.len()
        invariant
            start <= v@.len(),
            v@.len() <= usize::MAX,
            start + w@.len() == v@.len(),
            i <= w@.len(),
            forall|j: int| 0 <= j < i ==> lower(#[trigger] v@.skip(start as int)[j]) == w@[j],
        decreases w.len() - i,
    {
        if lower_char(v[start + i]) != w[i] {
            assert(v@.skip(start as int)[i as int] == v@[start + i]);
            return false;
        }
        i += 1;
    }
    true
}

/// The sign of the value that an amount text denotes.
pub fn amount_sign(a: &str) -> (r: Sign)
    ensures
        r == sign_of(a@),
{
    let v = chars_of(a);
    let neg = v.len() > 0 && v[0] == '-';
    let start: usize = if v.len() > 0 && (v[0] == '-' || v[0] == '+') {
        1
    } else {
        0
    };
    let ghost b = v@.skip(start as int);
    assert(b =~= unsigned_part(a@));
    let inf = vec!['i', 'n', 'f'];
    let infinity = vec!['i', 'n', 'f', 'i', 'n', 'i', 't', 'y'];
    assert(inf@ =~= seq!['i', 'n', 'f']);
    assert(infinity@ =~= seq!['i', 'n', 'f', 'i', 'n', 'i', 't', 'y']);
    let nonzero = if word_at(&v, start, &inf) || word_at(&v, start, &infinity) {
        true
    } else {
        number_nonzero(&v, start) && number_reads_nonzero(&v, start)
    };
    if nonzero {
        if neg {
            Sign::Negative
        } else {
            Sign::Positive
        }
    } else {
        Sign::Zero
    }
}

/// Whether `v[start..]` is a valid number with a nonzero digit before its
/// exponent.
fn number_nonzero(v: &Vec<char>, start: usize) -> (r: bool)
    requires
        start <= v@.len(),
    ensures
        r == ({
            let b = v@.skip(start as int);
            valid_number(b) && has_nonzero_digit(b.take(exp_index(b) as int))
        }),
{
    let ghost b = v@.skip(start as int);
    // Find the exponent mark.
    let mut e = start;
    assert(v@.skip(start as int) =~= b);
    while e < v.len() && !(v[e] == 'e' || v[e] == 'E')
        invariant
            start <= e <= v@.len(),
            b == v@.skip(start as int),
            exp_index(b) == (e - start) + exp_index(v@.skip(e as int)),
        decreases v.len() - e,
    {
        assert(v@.skip(e as int).drop_first() =~= v@.skip(e + 1));
        assert(v@.skip(e as int)[0] == v@[e as int]);
        e += 1;
    }
    proof {
        if e < v.len() {
            assert(v@.skip(e as int)[0] == v@[e as int]);
        }
    }
    assert(exp_index(b) == e - start);
    let ghost m = b.take(exp_index(b) as int);
    assert(m =~= v@.subrange(start as int, e as int));
    // Scan the mantissa.
    let mut i = start;
    let mut dots: usize = 0;
    let mut digits = false;
    let mut nonzero = false;
    let mut ok = true;
    while i < e
        invariant
            start <= i <= e <= v@.len(),
            m == v@.subrange(start as int, e as int),
            dots <= 1,
            ok ==> forall|j: int| start <= j < i ==> is_digit(#[trigger] v@[j]) || v@[j] == '.',
            ok ==> (dots == 0 ==> forall|j: int| start <= j < i ==> v@[j] != '.'),
            ok ==> (dots == 1 ==> exists|j: int| start <= j < i && v@[j] == '.'),
            ok ==> (dots == 1 ==> forall|j: int, k: int|
                start <= j < i && start <= k < i && v@[j] == '.' && v@[k] == '.' ==> j == k),
            !ok ==> !valid_mantissa(m),
            digits == exists|j: int| start <= j < i && is_digit(#[trigger] v@[j]),
            nonzero == exists|j: int| start <= j < i && is_digit(#[trigger] v@[j]) && v@[j] != '0',
        decreases e - i,
    {
        let c = v[i];
        if is_digit_char(c) {
            digits = true;
            if c != '0' {
                nonzero = true;
            }
        } else if c == '.' {
            if ok && dots == 1 {
                proof {
                    let j = choose|j: int| start <= j < i && v@[j] == '.';
                    assert(m[j - start] == '.' && m[i - start] == '.');
                }
                ok = false;
            } else if ok {
                dots = 1;
            }
        } else {
            assert(m[i - start] == c);
            ok = false;
        }
        i += 1;
    }
    proof {
        if ok {
            assert forall|j: int| 0 <= j < m.len() implies is_digit(#[trigger] m[j]) || m[j] == '.' by {
                assert(m[j] == v@[start + j]);
            }
            assert forall|j: int, k: int|
                0 <= j < m.len() && 0 <= k < m.len() && m[j] == '.' && m[k] == '.' implies j == k by {
                assert(m[j] == v@[start + j]);
                assert(m[k] == v@[start + k]);
            }
        }
        if digits {
            let j = choose|j: int| start <= j < e && is_digit(#[trigger] v@[j]);
            assert(m[j - start] == v@[j]);
            assert(is_digit(m[j - start]));
        } else {
            assert forall|j: int| 0 <= j < m.len() implies !is_digit(#[trigger] m[j]) by {
                assert(m[j] == v@[start + j]);
            }
        }
        if nonzero {
            let j = choose|j: int| start <= j < e && is_digit(#[trigger] v@[j]) && v@[j] != '0';
            assert(m[j - start] == v@[j]);
            assert(is_digit(m[j - start]));
        } else {
            assert forall|j: int| 0 <= j < m.len() implies !(is_digit(#[trigger] m[j]) && m[j] != '0') by {
                assert(m[j] == v@[start + j]);
            }
        }
    }
    let mantissa_ok = ok && digits;
    // Scan the exponent.
    let ghost x = b.skip(exp_index(b) as int);
    assert(x =~= v@.skip(e as int));
    proof {
        if e < v.len() {
            assert(x[0] == v@[e as int]);
        }
    }
    let exponent_ok = exponent_valid(v, e);
    proof {
        if e < v.len() {
            assert(x[0] == v@[e as int]);
            assert(is_exp_mark(x[0]));
        }
        assert(mantissa_ok == valid_mantissa(m));
        assert(exponent_ok == valid_exponent(x));
        assert(nonzero == has_nonzero_digit(m));
    }
    mantissa_ok && exponent_ok && nonzero
}

/// Whether `v[e..]` is empty or an exponent: a mark followed by signed digits.
fn exponent_valid(v: &Vec<char>, e: usize) -> (r: bool)
    requires
        e <= v@.len(),
        e < v@.len() ==> is_exp_mark(v@[e as int]),
    ensures
        r == valid_exponent(v@.skip(e as int)),
{
    let ghost x = v@.skip(e as int);
    if e == v.len() {
        assert(x.len() == 0);
        return true;
    }
    assert(x[0] == v@[e as int]);
    let ghost t = x.drop_first();
    assert(t =~= v@.skip(e + 1));
    let mut k = e + 1;
    if k < v.len() && (v[k] == '+' || v[k] == '-') {
        assert(t[0] == v@[k as int]);
        k = k + 1;
    } else if k < v.len() {
        assert(t[0] == v@[k as int]);
    }
    let ghost u = sign_skipped(t);
    assert(u =~= v@.skip(k as int));
    if k == v.len() {
        assert(u.len() == 0);
        return false;
    }
    let mut all = true;
    let mut j = k;
    while j < v.len()
        invariant
            k <= j <= v@.len(),
            all == forall|q: int| k <= q < j ==> is_digit(#[trigger] v@[q]),
        decreases v.len() - j,
    {
        if !is_digit_char(v[j]) {
            all = false;
        }
        j += 1;
    }
    proof {
        assert(u.len() > 0);
        assert(u == v@.skip(k as int));
        if all {
            assert forall|q: int| 0 <= q < u.len() implies is_digit(#[trigger] u[q]) by {
                assert(u[q] == v@[k + q]);
            }
            assert(signed_digits(t));
        } else {
            assert(j == v@.len());
            assert(exists|q: int| k <= q < v@.len() && !is_digit(#[trigger] v@[q]));
            let q = choose|q: int| k <= q < v@.len() && !is_digit(#[trigger] v@[q]);
            assert(u[q - k] == v@[q]);
            assert(!is_digit(u[q - k]));
            assert(!signed_digits(t));
        }
        assert(is_exp_mark(x[0]));
        assert(signed_digits(t) == all);
    }
    all
}

// ───────────────────────── the underflow limit ─────────────────────────

/// Decimal digits, each below ten.
pub open spec fn digits_ok(ds: Seq<u8>) -> bool {
    forall|i: int| 0 <= i < ds.len() ==> #[trigger] ds[i] < 10
}

/// `n` zero digits.
pub open spec fn zeros(n: nat) -> Seq<u8> {
    Seq::new(n, |i: int| 0u8)
}

proof fn lemma_pow10_pos(n: nat)
    ensures
        pow10(n) >= 1,
    decreases n,
{
    if n > 0 {
        lemma_pow10_pos((n - 1) as nat);
    }
}

proof fn lemma_pow10_add(a: nat, b: nat)
    ensures
        pow10(a + b) == pow10(a) * pow10(b),
    decreases b,
{
    if b == 0 {
        assert(pow10(0) == 1);
        assert(a + b == a);
        assert(pow10(a) * 1 == pow10(a));
    } else {
        let b1 = (b - 1) as nat;
        lemma_pow10_add(a, b1);
        let x = pow10(b1);
        assert(pow10(b) == 10 * x);
        assert((a + b1) as nat == (a + b - 1) as nat);
        assert(pow10(a + b) == 10 * pow10(a + b1));
        let y = pow10(a);
        let z = pow10(a + b1);
        assert(pow10(a + b) == y * pow10(b)) by (nonlinear_arith)
            requires
                pow10(a + b) == 10 * z,
                z == y * x,
                pow10(b) == 10 * x,
        ;
    }
}

proof fn lemma_pow10_mono(a: nat, b: nat)
    requires
        a <= b,
    ensures
        pow10(a) <= pow10(b),
    decreases b - a,
{
    if a < b {
        lemma_pow10_mono(a, (b - 1) as nat);
        lemma_pow10_pos((b - 1) as nat);
    }
}

proof fn lemma_pow5_add(a: nat, b: nat)
    ensures
        pow5(a + b) == pow5(a) * pow5(b),
    decreases b,
{
    if b == 0 {
        assert(pow5(0) == 1);
        assert(a + b == a);
        assert(pow5(a) * 1 == pow5(a));
    } else {
        let b1 = (b - 1) as nat;
        lemma_pow5_add(a, b1);
        let x = pow5(b1);
        assert(pow5(b) == 5 * x);
        assert(pow5(a + b) == 5 * pow5(a + b1));
        let y = pow5(a);
        let z = pow5(a + b1);
        assert(pow5(a + b) == y * pow5(b)) by (nonlinear_arith)
            requires
                pow5(a + b) == 5 * z,
                z == y * x,
                pow5(b) == 5 * x,
        ;
    }
}

proof fn lemma_pow5_grows(a: nat, b: nat)
    requires
        a < b,
    ensures
        pow5(a) < pow5(b),
    decreases b - a,
{
    if a + 1 < b {
        lemma_pow5_grows(a, (b - 1) as nat);
    }
    lemma_pow5_pos(a);
}

proof fn lemma_pow5_pos(n: nat)
    ensures
        pow5(n) >= 1,
    decreases n,
{
    if n > 0 {
        lemma_pow5_pos((n - 1) as nat);
    }
}

/// `5^(3k) >= 10^(2k)`, as `125 >= 100`.
proof fn lemma_pow5_lower(k: nat)
    ensures
        pow5(3 * k) >= pow10(2 * k),
    decreases k,
{
    if k > 0 {
        let k1 = (k - 1) as nat;
        lemma_pow5_lower(k1);
        lemma_pow5_add(3 * k1, 3);
        lemma_pow10_add(2 * k1, 2);
        assert(pow5(3) == 125) by {
            reveal_with_fuel(pow5, 4);
        }
        assert(pow10(2) == 100) by {
            reveal_with_fuel(pow10, 3);
        }
        assert(3 * k1 + 3 == 3 * k);
        assert(2 * k1 + 2 == 2 * k);
        assert(pow5(3 * k1) * 125 >= pow10(2 * k1) * 100) by (nonlinear_arith)
            requires
                pow5(3 * k1) >= pow10(2 * k1),
        ;
    }
}

/// `5^(10k) <= 10^(7k)`, as `9765625 <= 10000000`.
proof fn lemma_pow5_upper(k: nat)
    ensures
        pow5(10 * k) <= pow10(7 * k),
    decreases k,
{
    if k > 0 {
        let k1 = (k - 1) as nat;
        lemma_pow5_upper(k1);
        lemma_pow5_add(10 * k1, 10);
        lemma_pow10_add(7 * k1, 7);
        assert(pow5(10) == 9765625) by {
            reveal_with_fuel(pow5, 11);
        }
        assert(pow10(7) == 10000000) by {
            reveal_with_fuel(pow10, 8);
        }
        assert(10 * k1 + 10 == 10 * k);
        assert(7 * k1 + 7 == 7 * k);
        assert(pow5(10 * k1) * 9765625 <= pow10(7 * k1) * 10000000) by (nonlinear_arith)
            requires
                pow5(10 * k1) <= pow10(7 * k1),
        ;
    }
}

/// `10^716 <= 5^1075 < 10^756`.
proof fn lemma_limit_bounds()
    ensures
        pow10(716) <= pow5(1075),
        pow5(1075) < pow10(756),
{
    lemma_pow5_lower(358);
    lemma_pow5_grows(1074, 1075);
    lemma_pow5_upper(108);
    lemma_pow5_grows(1075, 1080);
}

/// `5^1075 < 10^752`, from `5^103 < 10^72` and `5^45 < 10^32`.
proof fn lemma_limit_below()
    ensures
        pow5(1075) < pow10(752),
{
    assert(pow5(45) == 28421709430404007434844970703125) by {
        reveal_with_fuel(pow5, 46);
    }
    assert(pow5(13) == 1220703125) by {
        reveal_with_fuel(pow5, 14);
    }
    assert(pow10(36) == 1000000000000000000000000000000000000) by {
        reveal_with_fuel(pow10, 37);
    }
    assert(pow5(45) < pow10(32)) by {
        reveal_with_fuel(pow10, 33);
    }
    lemma_pow5_add(45, 45);
    lemma_pow5_add(90, 13);
    lemma_pow10_add(36, 36);
    assert(pow5(103) < pow10(72));
    lemma_pow5_chunks(10);
    assert(pow5(1030) <= pow10(720));
    lemma_pow5_add(1030, 45);
    lemma_pow10_add(720, 32);
    lemma_pow5_pos(45);
    lemma_pow10_pos(720);
    let a = pow5(1030);
    let b = pow5(45);
    let c = pow10(720);
    let d = pow10(32);
    assert(a * b < c * d) by (nonlinear_arith)
        requires
            a <= c,
            b < d,
            b >= 1,
            c >= 1,
    ;
}

/// `5^(103k) <= 10^(72k)`.
proof fn lemma_pow5_chunks(k: nat)
    requires
        pow5(103) < pow10(72),
    ensures
        pow5(103 * k) <= pow10(72 * k),
    decreases k,
{
    if k == 0 {
        assert(pow5(0) == 1 && pow10(0) == 1);
    } else {
        let k1 = (k - 1) as nat;
        lemma_pow5_chunks(k1);
        lemma_pow5_add(103 * k1, 103);
        lemma_pow10_add(72 * k1, 72);
        assert(103 * k1 + 103 == 103 * k);
        assert(72 * k1 + 72 == 72 * k);
        assert(pow5(103 * k1) * pow5(103) <= pow10(72 * k1) * pow10(72)) by (nonlinear_arith)
            requires
                pow5(103 * k1) <= pow10(72 * k1),
                pow5(103) < pow10(72),
        ;
    }
}

/// A list of digits with a nonzero digit spells at least one.
proof fn lemma_value_positive(ds: Seq<u8>, i: int)
    requires
        0 <= i < ds.len(),
        ds[i] >= 1,
    ensures
        digits_value(ds) >= 1,
    decreases ds.len(),
{
    if i < ds.len() - 1 {
        lemma_value_positive(ds.drop_last(), i);
    }
}

/// A mantissa with a nonzero digit has a nonzero digit among its digits.
proof fn lemma_digits_nonzero(m: Seq<char>, i: int)
    requires
        0 <= i < m.len(),
        is_digit(m[i]),
        m[i] != '0',
    ensures
        digits_value(digits_of(m)) >= 1,
    decreases m.len(),
{
    if i < m.len() - 1 {
        lemma_digits_nonzero(m.drop_last(), i);
        if m.last() != '.' {
            let d = digits_of(m.drop_last());
            assert(digits_of(m).drop_last() =~= d);
        }
    } else {
        let d = digits_of(m.drop_last());
        assert(digits_of(m) == d.push(digit_of(m[i])));
        lemma_value_positive(d.push(digit_of(m[i])), d.len() as int);
    }
}

/// The digits after the point of `p.f`, where `f` has no point.
proof fn lemma_frac_count(p: Seq<char>, f: Seq<char>)
    requires
        forall|i: int| 0 <= i < f.len() ==> f[i] != '.',
    ensures
        frac_count(p + seq!['.'] + f) == f.len(),
    decreases f.len(),
{
    let b = p + seq!['.'] + f;
    if f.len() > 0 {
        let g = f.drop_last();
        lemma_frac_count(p, g);
        assert(b.drop_last() =~= p + seq!['.'] + g);
        assert(b.last() == f.last());
        assert(b.drop_last()[p.len() as int] == '.');
        assert(b.drop_last().contains('.'));
    } else {
        assert(b.last() == '.');
    }
}

proof fn lemma_value_single(d: u8)
    ensures
        digits_value(seq![d]) == d,
{
    assert(seq![d].drop_last() =~= Seq::<u8>::empty());
    assert(digits_value(Seq::<u8>::empty()) == 0);
    assert(seq![d].last() == d);
}

/// The value of two digit lists one after the other.
proof fn lemma_value_concat(a: Seq<u8>, b: Seq<u8>)
    ensures
        digits_value(a + b) == digits_value(a) * pow10(b.len()) + digits_value(b),
    decreases b.len(),
{
    if b.len() == 0 {
        assert(a + b =~= a);
        assert(pow10(0) == 1);
        assert(digits_value(b) == 0);
        assert(digits_value(a) * 1 == digits_value(a));
    } else {
        let c = b.drop_last();
        lemma_value_concat(a, c);
        assert((a + b).drop_last() =~= a + c);
        assert((a + b).last() == b.last());
        let x = digits_value(a);
        let p = pow10(c.len());
        assert(pow10(b.len()) == 10 * p);
        assert(digits_value(a + b) == 10 * digits_value(a + c) + b.last() as nat);
        assert(digits_value(b) == 10 * digits_value(c) + b.last() as nat);
        let vc = digits_value(c);
        let vac = digits_value(a + c);
        let l = b.last() as nat;
        assert(digits_value(a + b) == x * pow10(b.len()) + digits_value(b)) by (nonlinear_arith)
            requires
                digits_value(a + b) == 10 * vac + l,
                vac == x * p + vc,
                digits_value(b) == 10 * vc + l,
                pow10(b.len()) == 10 * p,
        ;
    }
}

proof fn lemma_value_below(ds: Seq<u8>)
    requires
        digits_ok(ds),
    ensures
        digits_value(ds) < pow10(ds.len()),
    decreases ds.len(),
{
    if ds.len() > 0 {
        let c = ds.drop_last();
        assert(digits_ok(c)) by {
            assert forall|i: int| 0 <= i < c.len() implies #[trigger] c[i] < 10 by {
                assert(c[i] == ds[i]);
            }
        }
        lemma_value_below(c);
        assert(ds.last() == ds[ds.len() - 1]);
    }
}

proof fn lemma_value_zeros(n: nat)
    ensures
        digits_value(zeros(n)) == 0,
    decreases n,
{
    if n > 0 {
        assert(zeros(n).drop_last() =~= zeros((n - 1) as nat));
        lemma_value_zeros((n - 1) as nat);
    }
}

/// Digits that start with a nonzero digit spell at least `10^(len - 1)`.
proof fn lemma_value_lead(ds: Seq<u8>)
    requires
        digits_ok(ds),
        ds.len() > 0,
        ds[0] >= 1,
    ensures
        digits_value(ds) >= pow10((ds.len() - 1) as nat),
{
    let rest = ds.drop_first();
    assert(ds =~= seq![ds[0]] + rest);
    lemma_value_concat(seq![ds[0]], rest);
    lemma_value_single(ds[0]);
    let p = pow10(rest.len());
    assert(ds[0] as nat * p >= p) by (nonlinear_arith)
        requires
            ds[0] >= 1,
    ;
}

/// Leading zeros do not change the value.
proof fn lemma_value_leading_zeros(ds: Seq<u8>, z: int)
    requires
        0 <= z <= ds.len(),
        forall|i: int| 0 <= i < z ==> ds[i] == 0,
    ensures
        digits_value(ds) == digits_value(ds.skip(z)),
{
    assert(ds =~= zeros(z as nat) + ds.skip(z));
    lemma_value_concat(zeros(z as nat), ds.skip(z));
    lemma_value_zeros(z as nat);
}

/// For digits that start with a nonzero digit, the comparison with the limit
/// is settled by their number alone, unless `716 < len + k + 1075 < 757`.
proof fn lemma_magnitude(ds: Seq<u8>, k: int)
    requires
        digits_ok(ds),
        ds.len() > 0,
        ds[0] >= 1,
    ensures
        ds.len() + k + 1075 >= 757 ==> above_underflow(digits_value(ds), k),
        ds.len() + k + 1075 <= 716 ==> !above_underflow(digits_value(ds), k),
{
    let n = ds.len();
    let d = digits_value(ds);
    let q = pow5(1075);
    let j = k + 1075;
    lemma_value_below(ds);
    lemma_value_lead(ds);
    lemma_limit_bounds();
    if n + j >= 757 {
        if j >= 0 {
            let jn = j as nat;
            lemma_pow10_add((n - 1) as nat, jn);
            lemma_pow10_mono(756, (n - 1 + jn) as nat);
            assert(d * pow10(jn) >= pow10((n - 1) as nat) * pow10(jn)) by (nonlinear_arith)
                requires
                    d >= pow10((n - 1) as nat),
            ;
        } else {
            let m = (-j) as nat;
            lemma_pow10_pos(m);
            lemma_pow10_add(756, m);
            lemma_pow10_mono((756 + m) as nat, (n - 1) as nat);
            assert(q * pow10(m) < pow10(756) * pow10(m)) by (nonlinear_arith)
                requires
                    q < pow10(756),
                    pow10(m) >= 1,
            ;
        }
    } else if n + j <= 716 {
        if j >= 0 {
            let jn = j as nat;
            lemma_pow10_pos(jn);
            lemma_pow10_add(n, jn);
            lemma_pow10_mono((n + jn) as nat, 716);
            assert(d * pow10(jn) < pow10(n) * pow10(jn)) by (nonlinear_arith)
                requires
                    d < pow10(n),
                    pow10(jn) >= 1,
            ;
        } else {
            let m = (-j) as nat;
            lemma_pow10_add(716, m);
            lemma_pow10_mono(n, (716 + m) as nat);
            assert(pow10(716) * pow10(m) <= q * pow10(m)) by (nonlinear_arith)
                requires
                    pow10(716) <= q,
            ;
        }
    }
}

/// Two digit lists of one length that agree up to `i`, where the first has
/// the greater digit at `i`: the first spells the greater number.
proof fn lemma_first_difference(a: Seq<u8>, b: Seq<u8>, i: int)
    requires
        a.len() == b.len(),
        digits_ok(a),
        digits_ok(b),
        0 <= i < a.len(),
        a.take(i) == b.take(i),
        a[i] > b[i],
    ensures
        digits_value(a) > digits_value(b),
{
    let l = a.len();
    let p = pow10((l - i - 1) as nat);
    assert(a =~= a.take(i + 1) + a.skip(i + 1));
    assert(b =~= b.take(i + 1) + b.skip(i + 1));
    lemma_value_concat(a.take(i + 1), a.skip(i + 1));
    lemma_value_concat(b.take(i + 1), b.skip(i + 1));
    assert(a.take(i + 1).drop_last() =~= a.take(i));
    assert(b.take(i + 1).drop_last() =~= b.take(i));
    let bs = b.skip(i + 1);
    assert(digits_ok(bs)) by {
        assert forall|j: int| 0 <= j < bs.len() implies #[trigger] bs[j] < 10 by {
            assert(bs[j] == b[i + 1 + j]);
        }
    }
    lemma_value_below(bs);
    let x = digits_value(a.take(i + 1));
    let y = digits_value(b.take(i + 1));
    assert(x >= y + 1);
    assert(x * p + digits_value(a.skip(i + 1)) > y * p + digits_value(bs)) by (nonlinear_arith)
        requires
            x >= y + 1,
            digits_value(bs) < p,
    ;
}

/// `x` with zeros in front, to the length `l`.
fn pad_front(x: &Vec<u8>, l: usize) -> (r: Vec<u8>)
    requires
        x@.len() <= l,
        digits_ok(x@),
    ensures
        r@ == zeros((l - x@.len()) as nat) + x@,
        digits_ok(r@),
        digits_value(r@) == digits_value(x@),
{
    let mut r: Vec<u8> = Vec::new();
    let z = l - x.len();
    while r.len() < z
        invariant
            r@ == zeros(r@.len()),
            r@.len() <= z,
        decreases z - r.len(),
    {
        r.push(0);
        assert(r@ =~= zeros(r@.len()));
    }
    let mut i: usize = 0;
    while i < x.len()
        invariant
            i <= x@.len(),
            r@ == zeros(z as nat) + x@.take(i as int),
        decreases x.len() - i,
    {
        r.push(x[i]);
        assert(r@ =~= zeros(z as nat) + x@.take(i + 1));
        i += 1;
    }
    proof {
        assert(x@.take(x@.len() as int) =~= x@);
        lemma_value_concat(zeros(z as nat), x@);
        lemma_value_zeros(z as nat);
        assert forall|j: int| 0 <= j < r@.len() implies #[trigger] r@[j] < 10 by {
            if j >= z {
                assert(r@[j] == x@[j - z]);
            }
        }
    }
    r
}

/// Whether the number that `x` spells is greater than the one `y` spells.
fn value_greater(x: &Vec<u8>, y: &Vec<u8>) -> (r: bool)
    requires
        digits_ok(x@),
        digits_ok(y@),
    ensures
        r == (digits_value(x@) > digits_value(y@)),
{
    let l = if x.len() > y.len() {
        x.len()
    } else {
        y.len()
    };
    let px = pad_front(x, l);
    let py = pad_front(y, l);
    let mut i: usize = 0;
    while i < l
        invariant
            i <= l,
            px@.len() == l,
            py@.len() == l,
            digits_ok(px@),
            digits_ok(py@),
            digits_value(px@) == digits_value(x@),
            digits_value(py@) == digits_value(y@),
            px@.take(i as int) == py@.take(i as int),
        decreases l - i,
    {
        let a = px[i];
        let b = py[i];
        if a != b {
            proof {
                if a > b {
                    lemma_first_difference(px@, py@, i as int);
                    assert(digits_value(px@) > digits_value(py@));
                } else {
                    lemma_first_difference(py@, px@, i as int);
                    assert(digits_value(py@) > digits_value(px@));
                }
            }
            assert(digits_value(px@) == digits_value(x@));
            assert(digits_value(py@) == digits_value(y@));
            return a > b;
        }
        assert(px@.take(i + 1) =~= px@.take(i as int).push(px@[i as int]));
        assert(py@.take(i + 1) =~= py@.take(i as int).push(py@[i as int]));
        i += 1;
    }
    assert(px@ =~= px@.take(l as int));
    assert(py@ =~= py@.take(l as int));
    false
}

/// The digits of five times a number, one digit longer.
fn times5(ds: &Vec<u8>) -> (r: Vec<u8>)
    requires
        digits_ok(ds@),
        ds@.len() < 2000,
    ensures
        digits_ok(r@),
        r@.len() == ds@.len() + 1,
        digits_value(r@) == 5 * digits_value(ds@),
{
    let n = ds.len();
    let mut out: Vec<u8> = Vec::new();
    while out.len() < n + 1
        invariant
            out@ == zeros(out@.len()),
            out@.len() <= n + 1,
            n == ds@.len(),
            n < 2000,
        decreases n + 1 - out.len(),
    {
        out.push(0);
        assert(out@ =~= zeros(out@.len()));
    }
    let mut carry: u8 = 0;
    let mut i: usize = n;
    assert(out@.skip(n + 1) =~= Seq::<u8>::empty());
    assert(ds@.skip(n as int) =~= Seq::<u8>::empty());
    while i > 0
        invariant
            n == ds@.len(),
            n < 2000,
            i <= n,
            out@.len() == n + 1,
            carry < 5,
            digits_ok(out@),
            digits_ok(ds@),
            digits_value(out@.skip(i + 1)) + carry * pow10((n - i) as nat) == 5 * digits_value(
                ds@.skip(i as int),
            ),
        decreases i,
    {
        let d = ds[i - 1];
        assert(d < 10);
        let x: u8 = 5 * d + carry;
        let ghost old_tail = out@.skip(i + 1);
        let ghost c = carry;
        out.set(i, x % 10);
        carry = x / 10;
        proof {
            let tail = out@.skip(i as int);
            assert(tail =~= seq![(x % 10) as u8] + old_tail);
            lemma_value_concat(seq![(x % 10) as u8], old_tail);
            lemma_value_single((x % 10) as u8);
            let s = ds@.skip(i - 1);
            assert(s =~= seq![d] + ds@.skip(i as int));
            lemma_value_concat(seq![d], ds@.skip(i as int));
            lemma_value_single(d);
            let p = pow10((n - i) as nat);
            assert(pow10((n - (i - 1)) as nat) == 10 * p);
            assert((x % 10) as nat * p + (x / 10) as nat * (10 * p) == x as nat * p)
                by (nonlinear_arith)
                requires
                    x == 10 * (x / 10) + x % 10,
            ;
            assert(x as nat * p == 5 * d as nat * p + c as nat * p) by (nonlinear_arith)
                requires
                    x == 5 * d + c,
            ;
            assert(5 * (d as nat * p + digits_value(ds@.skip(i as int))) == 5 * d as nat * p + 5
                * digits_value(ds@.skip(i as int))) by (nonlinear_arith);
        }
        i -= 1;
    }
    let ghost tail = out@.skip(1);
    out.set(0, carry);
    proof {
        assert(out@ =~= seq![carry] + tail);
        lemma_value_concat(seq![carry], tail);
        lemma_value_single(carry);
        assert(ds@.skip(0) =~= ds@);
    }
    out
}

/// The digits of `5^1075`, most significant first (with leading zeros).
fn limit_digits() -> (r: Vec<u8>)
    ensures
        digits_ok(r@),
        digits_value(r@) == pow5(1075),
{
    let mut ds: Vec<u8> = vec![1];
    proof {
        lemma_value_single(1);
        assert(ds@ =~= seq![1u8]);
    }
    let mut k: usize = 0;
    while k < 1075
        invariant
            k <= 1075,
            ds@.len() == k + 1,
            digits_ok(ds@),
            digits_value(ds@) == pow5(k as nat),
        decreases 1075 - k,
    {
        ds = times5(&ds);
        assert(pow5((k + 1) as nat) == 5 * pow5(k as nat));
        k += 1;
    }
    ds
}

/// `ds[from..]` followed by `extra` zeros.
fn digits_with_zeros(ds: &Vec<u8>, from: usize, extra: usize) -> (r: Vec<u8>)
    requires
        from <= ds@.len(),
        digits_ok(ds@),
    ensures
        r@ == ds@.skip(from as int) + zeros(extra as nat),
        digits_ok(r@),
{
    let mut r: Vec<u8> = Vec::new();
    let mut i = from;
    while i < ds.len()
        invariant
            from <= i <= ds@.len(),
            r@ == ds@.subrange(from as int, i as int),
        decreases ds.len() - i,
    {
        r.push(ds[i]);
        assert(r@ =~= ds@.subrange(from as int, i + 1));
        i += 1;
    }
    let mut z: usize = 0;
    while z < extra
        invariant
            z <= extra,
            from <= ds@.len(),
            r@ == ds@.subrange(from as int, ds@.len() as int) + zeros(z as nat),
        decreases extra - z,
    {
        r.push(0);
        assert(r@ =~= ds@.subrange(from as int, ds@.len() as int) + zeros((z + 1) as nat));
        z += 1;
    }
    assert(ds@.subrange(from as int, ds@.len() as int) =~= ds@.skip(from as int));
    assert forall|j: int| 0 <= j < r@.len() implies #[trigger] r@[j] < 10 by {
        if j < ds@.len() - from {
            assert(r@[j] == ds@[from + j]);
        }
    }
    r
}

proof fn lemma_contains_push(s: Seq<char>, c: char, x: char)
    ensures
        s.push(c).contains(x) == (s.contains(x) || c == x),
{
    let t = s.push(c);
    if s.contains(x) {
        let i = choose|i: int| 0 <= i < s.len() && s[i] == x;
        assert(t[i] == x);
    }
    if c == x {
        assert(t[s.len() as int] == x);
    }
    if t.contains(x) {
        let i = choose|i: int| 0 <= i < t.len() && t[i] == x;
        if i < s.len() {
            assert(s[i] == x);
        }
    }
}

/// Whether the valid number `v[start..]` reads as an `f64` other than zero.
fn number_reads_nonzero(v: &Vec<char>, start: usize) -> (r: bool)
    requires
        start <= v@.len(),
        valid_number(v@.skip(start as int)),
    ensures
        r == reads_nonzero(v@.skip(start as int)),
{
    let ghost b = v@.skip(start as int);
    // Find the exponent mark.
    let mut e = start;
    assert(v@.skip(start as int) =~= b);
    while e < v.len() && !(v[e] == 'e' || v[e] == 'E')
        invariant
            start <= e <= v@.len(),
            b == v@.skip(start as int),
            exp_index(b) == (e - start) + exp_index(v@.skip(e as int)),
        decreases v.len() - e,
    {
        assert(v@.skip(e as int).drop_first() =~= v@.skip(e + 1));
        assert(v@.skip(e as int)[0] == v@[e as int]);
        e += 1;
    }
    proof {
        if e < v.len() {
            assert(v@.skip(e as int)[0] == v@[e as int]);
        }
    }
    assert(exp_index(b) == e - start);
    let ghost m = b.take(exp_index(b) as int);
    assert(m =~= v@.subrange(start as int, e as int));
    assert forall|j: int| start <= j < e implies is_digit(#[trigger] v@[j]) || v@[j] == '.' by {
        assert(m[j - start] == v@[j]);
    }
    // The digits of the mantissa, and the number of them after the point.
    let mut ds: Vec<u8> = Vec::new();
    let mut point = false;
    let mut f: usize = 0;
    let mut i = start;
    assert(v@.subrange(start as int, start as int) =~= Seq::<char>::empty());
    while i < e
        invariant
            start <= i <= e <= v@.len(),
            forall|j: int| start <= j < e ==> is_digit(#[trigger] v@[j]) || v@[j] == '.',
            ds@ == digits_of(v@.subrange(start as int, i as int)),
            point == v@.subrange(start as int, i as int).contains('.'),
            f == frac_count(v@.subrange(start as int, i as int)),
            f <= i - start,
            ds@.len() <= i - start,
            digits_ok(ds@),
        decreases e - i,
    {
        let c = v[i];
        let ghost pre = v@.subrange(start as int, i as int);
        let ghost next = v@.subrange(start as int, i + 1);
        assert(next =~= pre.push(c));
        assert(next.drop_last() =~= pre);
        proof {
            lemma_contains_push(pre, c, '.');
        }
        if c == '.' {
            point = true;
            f = 0;
        } else {
            assert(is_digit(v@[i as int]));
            let d = ((c as u32) - 48) as u8;
            ds.push(d);
            if point {
                f = f + 1;
            } else {
                f = 0;
            }
        }
        i += 1;
    }
    assert(v@.subrange(start as int, e as int) == m);
    // Leading zeros.
    let mut z: usize = 0;
    while z < ds.len() && ds[z] == 0
        invariant
            z <= ds@.len(),
            forall|j: int| 0 <= j < z ==> ds@[j] == 0,
        decreases ds.len() - z,
    {
        z += 1;
    }
    proof {
        lemma_value_leading_zeros(ds@, z as int);
    }
    let ghost sd = ds@.skip(z as int);
    let ghost k = scale(b);
    assert(digits_ok(sd)) by {
        assert forall|j: int| 0 <= j < sd.len() implies #[trigger] sd[j] < 10 by {
            assert(sd[j] == ds@[z + j]);
        }
    }
    if z == ds.len() {
        proof {
            assert(sd.len() == 0);
            assert(digits_value(sd) == 0);
            lemma_limit_bounds();
            lemma_pow10_pos(716);
            if k + 1075 < 0 {
                lemma_pow10_pos((-(k + 1075)) as nat);
                assert(pow5(1075) * pow10((-(k + 1075)) as nat) >= 1) by (nonlinear_arith)
                    requires
                        pow5(1075) >= 1,
                        pow10((-(k + 1075)) as nat) >= 1,
                ;
            }
        }
        return false;
    }
    let n = ds.len() - z;
    assert(sd[0] == ds@[z as int]);
    // The exponent, its digits taken while its value is below 65536.
    let ghost x = b.skip(exp_index(b) as int);
    assert(x =~= v@.skip(e as int));
    let mut neg = false;
    let mut mag: u64 = 0;
    if e < v.len() {
        let ghost t = x.drop_first();
        assert(t =~= v@.skip(e + 1));
        assert(x[0] == v@[e as int]);
        let mut q = e + 1;
        if q < v.len() && (v[q] == '+' || v[q] == '-') {
            assert(t[0] == v@[q as int]);
            neg = v[q] == '-';
            q = q + 1;
        } else if q < v.len() {
            assert(t[0] == v@[q as int]);
        }
        let ghost u = sign_skipped(t);
        assert(u =~= v@.skip(q as int));
        assert(all_digits(u));
        assert forall|j: int| q <= j < v@.len() implies is_digit(#[trigger] v@[j]) by {
            assert(u[j - q] == v@[j]);
        }
        let mut p = q;
        assert(v@.subrange(q as int, q as int) =~= Seq::<char>::empty());
        while p < v.len()
            invariant
                q <= p <= v@.len(),
                forall|j: int| q <= j < v@.len() ==> is_digit(#[trigger] v@[j]),
                mag == exponent_digits_value(digits_of(v@.subrange(q as int, p as int))),
                mag < 0x10000 * 10 + 10,
            decreases v.len() - p,
        {
            let c = v[p];
            assert(is_digit(v@[p as int]));
            let ghost pre = v@.subrange(q as int, p as int);
            let ghost next = v@.subrange(q as int, p + 1);
            assert(next =~= pre.push(c));
            assert(next.drop_last() =~= pre);
            let d = ((c as u32) - 48) as u64;
            let ghost dp = digits_of(pre);
            assert(c != '.');
            assert(next.last() == c);
            assert(digits_of(next) == dp.push(digit_of(c)));
            assert(dp.push(digit_of(c)).drop_last() =~= dp);
            assert(digit_of(c) as u64 == d);
            assert(d < 10);
            if mag < 0x10000 {
                mag = mag * 10 + d;
            }
            p += 1;
        }
        assert(v@.subrange(q as int, v@.len() as int) =~= u);
        assert(neg == (t.len() > 0 && t[0] == '-'));
    } else {
        assert(x.len() == 0);
    }
    let ghost ev = exponent_value(x);
    assert(ev == if neg { -(mag as int) } else { mag as int });
    assert(k == ev - f);
    assert(n <= v@.len() && f <= v@.len());
    let ev_exec: i128 = if neg {
        -(mag as i128)
    } else {
        mag as i128
    };
    let t: i128 = n as i128 + ev_exec - f as i128 + 1075;
    proof {
        lemma_magnitude(sd, k);
    }
    if t >= 757 {
        return true;
    }
    if t <= 716 {
        return false;
    }
    // Near the limit: compare the digits.
    let limit = limit_digits();
    let j: i128 = t - n as i128;
    if j >= 0 {
        let xs = digits_with_zeros(&ds, z, j as usize);
        let ys = digits_with_zeros(&limit, 0, 0);
        proof {
            lemma_value_concat(sd, zeros(j as nat));
            lemma_value_zeros(j as nat);
            lemma_value_concat(limit@, zeros(0));
            lemma_value_zeros(0);
            assert(pow10(0) == 1);
            assert(limit@.skip(0) =~= limit@);
        }
        value_greater(&xs, &ys)
    } else {
        let mz = (n as i128 - t) as usize;
        let xs = digits_with_zeros(&ds, z, 0);
        let ys = digits_with_zeros(&limit, 0, mz);
        proof {
            lemma_value_concat(sd, zeros(0));
            lemma_value_zeros(0);
            lemma_value_concat(limit@, zeros(mz as nat));
            lemma_value_zeros(mz as nat);
            assert(pow10(0) == 1);
            assert(limit@.skip(0) =~= limit@);
        }
        value_greater(&xs, &ys)
    }
}

/// Whether a balance is listed (its amount text is not "0.00").
pub fn listed(amount: &str) -> (r: bool)
    ensures
        r == is_listed(amount@),
{
    let v = chars_of(amount);
    let ghost z = zero_text();
    assert(z.len() == 4);
    if v.len() != 4 {
        assert(amount@ != z);
        return true;
    }
    let r = v[0] == '0' && v[1] == '.' && v[2] == '0' && v[3] == '0';
    if r {
        assert(v@ =~= z);
    } else {
        assert(v@[0] != z[0] || v@[1] != z[1] || v@[2] != z[2] || v@[3] != z[3]);
    }
    !r
}

// ───────────────────────── laws ─────────────────────────

/// The opposite sign.
pub open spec fn flip(s: Sign) -> Sign {
    match s {
        Sign::Positive => Sign::Negative,
        Sign::Negative => Sign::Positive,
        Sign::Zero => Sign::Zero,
    }
}

/// Putting a minus sign before an unsigned amount flips its sign.
pub proof fn minus_flips_sign(s: Seq<char>)
    requires
        s.len() == 0 || (s[0] != '-' && s[0] != '+'),
    ensures
        sign_of(seq!['-'] + s) == flip(sign_of(s)),
{
    let m = seq!['-'] + s;
    assert(m[0] == '-');
    assert(m.drop_first() =~= s);
    assert(unsigned_part(m) == s);
    assert(unsigned_part(s) == s);
}

/// The service's zero balance "0.00" is not listed and counts as zero.
pub proof fn zero_text_is_zero()
    ensures
        !is_listed(zero_text()),
        sign_of(zero_text()) == Sign::Zero,
{
    let z = zero_text();
    assert(unsigned_part(z) == z);
    assert(forall|j: int| 0 <= j < z.len() ==> is_digit(#[trigger] z[j]) || z[j] == '.');
    lemma_exp_index_none(z, 0);
    assert(z.skip(0) =~= z);
    assert(exp_index(z) == 4);
    assert(z.take(4) =~= z);
    assert(!has_nonzero_digit(z));
    assert(!is_infinity_word(z)) by {
        assert(lower(z[0]) != 'i');
    }
}

/// A decimal amount of digits with a point, at least one of them nonzero and
/// at most 323 after the point (so at least `10^-323`, above what rounds to
/// zero), is positive; with a minus sign before it, negative.
pub proof fn plain_decimal_sign(int_part: Seq<char>, frac: Seq<char>)
    requires
        int_part.len() > 0,
        forall|i: int| 0 <= i < int_part.len() ==> is_digit(#[trigger] int_part[i]),
        forall|i: int| 0 <= i < frac.len() ==> is_digit(#[trigger] frac[i]),
        has_nonzero_digit(int_part) || has_nonzero_digit(frac),
        frac.len() <= 323,
    ensures
        sign_of(int_part + seq!['.'] + frac) == Sign::Positive,
        sign_of(seq!['-'] + int_part + seq!['.'] + frac) == Sign::Negative,
{
    let b = int_part + seq!['.'] + frac;
    assert forall|i: int| 0 <= i <= b.len() implies exp_index(b.skip(i)) == b.len() - i by {
        lemma_exp_index_none(b, i);
    }
    assert(b.skip(0) =~= b);
    assert(exp_index(b) == b.len());
    assert(b.take(b.len() as int) =~= b);
    assert(b.skip(b.len() as int) =~= Seq::<char>::empty());
    assert(b[int_part.len() as int] == '.');
    assert(is_digit(b[0]));
    assert forall|i: int| 0 <= i < b.len() implies is_digit(#[trigger] b[i]) || b[i] == '.' by {
        if i < int_part.len() {
            assert(b[i] == int_part[i]);
        } else if i > int_part.len() {
            assert(b[i] == frac[i - int_part.len() - 1]);
        }
    }
    assert forall|i: int, j: int|
        0 <= i < b.len() && 0 <= j < b.len() && b[i] == '.' && b[j] == '.' implies i == j by {
        if i < int_part.len() {
            assert(b[i] == int_part[i]);
        } else if i > int_part.len() {
            assert(b[i] == frac[i - int_part.len() - 1]);
        }
        if j < int_part.len() {
            assert(b[j] == int_part[j]);
        } else if j > int_part.len() {
            assert(b[j] == frac[j - int_part.len() - 1]);
        }
    }
    if has_nonzero_digit(int_part) {
        let k = choose|k: int| 0 <= k < int_part.len() && is_digit(#[trigger] int_part[k])
            && int_part[k] != '0';
        assert(b[k] == int_part[k]);
        assert(is_digit(b[k]));
        lemma_digits_nonzero(b, k);
    } else {
        let k = choose|k: int| 0 <= k < frac.len() && is_digit(#[trigger] frac[k]) && frac[k]
            != '0';
        assert(b[int_part.len() + 1 + k] == frac[k]);
        assert(is_digit(b[int_part.len() + 1 + k]));
        lemma_digits_nonzero(b, int_part.len() + 1 + k);
    }
    // The value is at least `10^-323`, above the limit.
    lemma_frac_count(int_part, frac);
    assert(scale(b) == -(frac.len() as int));
    let d = digits_value(digits_of(b));
    let j = (1075 - frac.len()) as nat;
    lemma_limit_below();
    lemma_pow10_mono(752, j);
    assert(d * pow10(j) >= pow10(j)) by (nonlinear_arith)
        requires
            d >= 1,
    ;
    assert(reads_nonzero(b));
    assert(int_part[0] != '-' && int_part[0] != '+');
    assert(b[0] == int_part[0]);
    assert(unsigned_part(b) == b);
    minus_flips_sign(b);
    assert(seq!['-'] + int_part + seq!['.'] + frac =~= seq!['-'] + b);
}

proof fn lemma_exp_index_none(b: Seq<char>, i: int)
    requires
        0 <= i <= b.len(),
        forall|j: int| 0 <= j < b.len() ==> is_digit(#[trigger] b[j]) || b[j] == '.',
    ensures
        exp_index(b.skip(i)) == b.len() - i,
    decreases b.len() - i,
{
    if i < b.len() {
        lemma_exp_index_none(b, i + 1);
        assert(b.skip(i).drop_first() =~= b.skip(i + 1));
        assert(b.skip(i)[0] == b[i]);
        assert(is_digit(b[i]) || b[i] == '.');
    }
}

} // verus!
