use splitwise_cli::amount::{amount_sign, listed, Sign};
use splitwise_cli::text::{
    date_short, display_name, is_cuttable, join_strings, repeated, strip_html, strip_leading_char,
    trim_text, trunc, truncate, u64_to_string,
};

#[test]
fn decimal_text_of_numbers() {
    assert_eq!(u64_to_string(0), "0");
    assert_eq!(u64_to_string(7), "7");
    assert_eq!(u64_to_string(1234567890), "1234567890");
    assert_eq!(u64_to_string(u64::MAX), u64::MAX.to_string());
}

#[test]
fn display_name_joins_first_and_last() {
    assert_eq!(display_name("Ann", Some("Lee")), "Ann Lee");
    assert_eq!(display_name("Ann", Some("")), "Ann");
    assert_eq!(display_name("Ann", None), "Ann");
}

#[test]
fn strip_html_removes_tags() {
    assert_eq!(strip_html("<b>Hi</b> there"), "Hi there");
    assert_eq!(strip_html("a > b"), "a  b");
    assert_eq!(strip_html("no tags"), "no tags");
    assert_eq!(strip_html("<unclosed tag"), "");
    assert_eq!(strip_html(&strip_html("<i>x</i>")), strip_html("<i>x</i>"));
}

#[test]
fn truncate_cuts_bytes() {
    assert_eq!(truncate("hello world", 5), "hello");
    assert_eq!(truncate("hi", 5), "hi");
    assert_eq!(truncate("héllo", 3), "hé");
    assert!(is_cuttable("héllo", 3));
    assert!(!is_cuttable("héllo", 2));
    assert!(is_cuttable("hé", 10));
}

#[test]
fn date_short_keeps_the_date() {
    assert_eq!(date_short("2024-03-05T10:00:00Z"), "2024-03-05");
    assert_eq!(date_short("2024"), "2024");
}

#[test]
fn trunc_marks_shortened_text() {
    assert_eq!(trunc("Alexander", 5), "Alex\u{2026}");
    assert_eq!(trunc("Bob", 5), "Bob");
    assert_eq!(trunc("Bobby", 5), "Bobby");
    assert_eq!(trunc("abc", 0), "\u{2026}");
    assert_eq!(trunc("Zoë Müller", 4), "Zoë\u{2026}");
    assert!(trunc("a very long group name indeed", 22).chars().count() <= 22);
}

#[test]
fn trim_and_strip() {
    assert_eq!(trim_text("  key\n"), "key");
    assert_eq!(trim_text("\u{3000}k e y\t"), "k e y");
    assert_eq!(trim_text("   "), "");
    assert_eq!(strip_leading_char("--5.00", '-'), "5.00");
    assert_eq!(strip_leading_char("5.00", '-'), "5.00");
}

#[test]
fn join_and_repeat() {
    let parts = vec!["10.00 USD".to_string(), "5.00 EUR".to_string()];
    assert_eq!(join_strings(&parts, ", "), "10.00 USD, 5.00 EUR");
    assert_eq!(join_strings(&vec![], ", "), "");
    assert_eq!(repeated('-', 4), "----");
}

#[test]
fn amount_signs() {
    assert_eq!(amount_sign("12.50"), Sign::Positive);
    assert_eq!(amount_sign("-3.00"), Sign::Negative);
    assert_eq!(amount_sign("0.00"), Sign::Zero);
    assert_eq!(amount_sign("-0.00"), Sign::Zero);
    assert_eq!(amount_sign("abc"), Sign::Zero);
    assert_eq!(amount_sign(""), Sign::Zero);
    assert_eq!(amount_sign("1e3"), Sign::Positive);
    assert_eq!(amount_sign("-2.5E-3"), Sign::Negative);
    assert_eq!(amount_sign("-inf"), Sign::Negative);
    assert_eq!(amount_sign("Infinity"), Sign::Positive);
    assert_eq!(amount_sign("NaN"), Sign::Zero);
    assert_eq!(amount_sign("+5"), Sign::Positive);
    assert_eq!(amount_sign(".5"), Sign::Positive);
    assert_eq!(amount_sign("5."), Sign::Positive);
    assert_eq!(amount_sign("."), Sign::Zero);
    assert_eq!(amount_sign("1.2.3"), Sign::Zero);
    assert_eq!(amount_sign("1e"), Sign::Zero);
    assert_eq!(amount_sign(" 5"), Sign::Zero);
}

#[test]
fn minus_flips_the_sign() {
    for s in ["12.50", "0.00", "7", "abc", "inf"] {
        let neg = format!("-{s}");
        let expected = match amount_sign(s) {
            Sign::Positive => Sign::Negative,
            Sign::Negative => Sign::Positive,
            Sign::Zero => Sign::Zero,
        };
        assert_eq!(amount_sign(&neg), expected);
    }
}

#[test]
fn amount_signs_agree_with_float_parsing() {
    for s in ["12.50", "-3.00", "0.00", "1e3", "-inf", "nan", "+5", ".5", "5.", "x", "1..2"] {
        let v: f64 = s.parse().unwrap_or(0.0);
        let expected = if v > 0.0 {
            Sign::Positive
        } else if v < 0.0 {
            Sign::Negative
        } else {
            Sign::Zero
        };
        assert_eq!(amount_sign(s), expected, "{s}");
    }
}

#[test]
fn zero_balance_is_not_listed() {
    assert!(!listed("0.00"));
    assert!(listed("0.0"));
    assert!(listed("-0.00"));
    assert!(listed("12.00"));
}

fn float_sign(s: &str) -> Sign {
    let v: f64 = s.parse().unwrap_or(0.0);
    if v > 0.0 {
        Sign::Positive
    } else if v < 0.0 {
        Sign::Negative
    } else {
        Sign::Zero
    }
}

/// The decimal digits of 5^1075, most significant first.
fn five_to_1075() -> String {
    let mut digits: Vec<u32> = vec![1];
    for _ in 0..1075 {
        let mut carry = 0;
        for d in digits.iter_mut() {
            let x = *d * 5 + carry;
            *d = x % 10;
            carry = x / 10;
        }
        if carry > 0 {
            digits.push(carry);
        }
    }
    digits.iter().rev().map(|d| char::from_digit(*d, 10).unwrap()).collect()
}

#[test]
fn tiny_amounts_round_to_zero() {
    assert_eq!(amount_sign("1e-400"), Sign::Zero);
    assert_eq!(amount_sign("-1e-400"), Sign::Zero);
    assert_eq!(amount_sign("1e-324"), Sign::Zero);
    assert_eq!(amount_sign("2.4e-324"), Sign::Zero);
    assert_eq!(amount_sign("2.5e-324"), Sign::Positive);
    assert_eq!(amount_sign("-1e-323"), Sign::Negative);
    assert_eq!(amount_sign("0.00000000000000000000000000000000000000000001"), Sign::Positive);
    assert_eq!(amount_sign("1e99999999999999999999999"), Sign::Positive);
    assert_eq!(amount_sign("-1e-99999999999999999999999"), Sign::Zero);
    assert_eq!(amount_sign("0e99999999999999999999999"), Sign::Zero);
    for s in [
        "1e-400", "1e-324", "2.4e-324", "2.47e-324", "2.48e-324", "5e-324", "1e-323", "-3e-324",
        "0.0000001e-317", "123e-326", "1e308", "1e309", "-1e400",
    ] {
        assert_eq!(amount_sign(s), float_sign(s), "{s}");
    }
}

#[test]
fn the_limit_itself_rounds_to_zero() {
    let limit = format!("{}e-1075", five_to_1075());
    assert_eq!(amount_sign(&limit), Sign::Zero);
    assert_eq!(amount_sign(&limit), float_sign(&limit));
    let above = format!("{}1e-1076", five_to_1075());
    assert_eq!(amount_sign(&above), Sign::Positive);
    assert_eq!(amount_sign(&above), float_sign(&above));
    let neg_above = format!("-0.{}1e-323", five_to_1075());
    assert_eq!(amount_sign(&neg_above), Sign::Negative);
    assert_eq!(amount_sign(&neg_above), float_sign(&neg_above));
    let shifted = format!("0.00{}e-321", five_to_1075());
    assert_eq!(amount_sign(&shifted), Sign::Zero);
    assert_eq!(amount_sign(&shifted), float_sign(&shifted));
}

#[test]
fn long_exponents_are_read_as_std_reads_them() {
    let tiny = format!("0.{}1e700000", "0".repeat(700000));
    assert_eq!(amount_sign(&tiny), Sign::Zero);
    assert_eq!(amount_sign(&tiny), float_sign(&tiny));
    let big = format!("1{}e-700000", "0".repeat(700000));
    assert_eq!(amount_sign(&big), Sign::Positive);
    assert_eq!(amount_sign(&big), float_sign(&big));
    for s in ["1e65535", "1e-65535", "1e655359", "-1e-655360", "1e-0000000000000000000001"] {
        assert_eq!(amount_sign(s), float_sign(s), "{s}");
    }
}
