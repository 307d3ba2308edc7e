use henflow::decimal::{decimal_string, parse_u64, push_decimal};
use henflow::identifier::{canonical_identifier, strip_scheme, IPFS_SCHEME};
use henflow::text::{chars_of, string_of};

#[test]
fn chars_and_back() {
    let chars = chars_of("a\u{e9}\u{1F600}z");
    assert_eq!(chars, vec!['a', '\u{e9}', '\u{1F600}', 'z']);
    assert_eq!(string_of(&chars), "a\u{e9}\u{1F600}z");
    assert_eq!(chars_of(""), Vec::<char>::new());
    assert_eq!(string_of(&Vec::new()), "");
}

#[test]
fn scheme_is_stripped_from_a_reference() {
    assert_eq!(IPFS_SCHEME, "ipfs://");
    assert_eq!(canonical_identifier("ipfs://QmYwAPJzv5CZsnA"), "QmYwAPJzv5CZsnA");
    assert_eq!(canonical_identifier("QmYwAPJzv5CZsnA"), "QmYwAPJzv5CZsnA");
    assert_eq!(canonical_identifier("ipfs://"), "");
    assert_eq!(canonical_identifier(""), "");
    assert_eq!(strip_scheme("proto://abc", "proto://"), "abc");
    assert_eq!(strip_scheme("proto://", "proto://"), "");
    assert_eq!(strip_scheme("proto://def", "proto://"), "def");
}

#[test]
fn only_the_prefix_is_stripped() {
    assert_eq!(canonical_identifier("ipfs://a/ipfs://b"), "a/ipfs://b");
    assert_eq!(canonical_identifier("abipfs://cd"), "abipfs://cd");
    assert_eq!(canonical_identifier("ipfs:/ipfs://"), "ipfs:/ipfs://");
    assert_eq!(canonical_identifier(" ipfs://abc"), " ipfs://abc");
    assert_eq!(canonical_identifier("IPFS://abc"), "IPFS://abc");
    assert_eq!(canonical_identifier("ipfs:/"), "ipfs:/");
}

#[test]
fn the_prefix_is_stripped_once() {
    assert_eq!(canonical_identifier("ipfs://ipfs://abc"), "ipfs://abc");
    assert_eq!(strip_scheme("aaa", "aa"), "a");
    assert_eq!(strip_scheme("aaaa", "aa"), "aa");
    assert_eq!(strip_scheme("abab", "ab"), "ab");
}

#[test]
fn an_empty_scheme_takes_nothing_out() {
    assert_eq!(strip_scheme("abc", ""), "abc");
    assert_eq!(strip_scheme("", ""), "");
}

#[test]
fn stripping_agrees_with_stripping_the_prefix() {
    let texts = [
        "", "a", "ipfs://", "ipfs://a", "aipfs://", "ipfs:/", "ipfs:///", "ipfipfs://s://",
        "ipfs://ipfs://", "xxipfs://yyipfs://zz", "ipfs://a/ipfs://b",
        "ip\u{e9}fs://\u{1F600}ipfs://", "\u{e9}\u{e9}x", "aaa", "aaaa", "ababa", "abcabcab",
    ];
    let schemes = ["ipfs://", "a", "aa", "ab", "aba", "abc", "/", "//", "\u{e9}", ""];
    for text in texts.iter() {
        for scheme in schemes.iter() {
            assert_eq!(
                strip_scheme(text, scheme),
                text.strip_prefix(scheme).unwrap_or(text),
                "{:?} {:?}",
                text,
                scheme
            );
        }
    }
}

#[test]
fn numbers_in_decimal() {
    assert_eq!(decimal_string(0), "0");
    assert_eq!(decimal_string(7), "7");
    assert_eq!(decimal_string(10), "10");
    assert_eq!(decimal_string(350), "350");
    assert_eq!(decimal_string(1_000_000), "1000000");
    assert_eq!(decimal_string(u64::MAX), "18446744073709551615");
    let mut text = String::from("n.");
    push_decimal(&mut text, 42);
    assert_eq!(text, "n.42");
}

#[test]
fn decimal_agrees_with_the_standard_notation() {
    let mut n: u64 = 1;
    for _ in 0..64 {
        assert_eq!(decimal_string(n), n.to_string());
        assert_eq!(decimal_string(n - 1), (n - 1).to_string());
        assert_eq!(parse_u64(&n.to_string()), Some(n));
        n = n.wrapping_mul(2);
    }
    for n in 0..2000u64 {
        assert_eq!(decimal_string(n), n.to_string());
    }
}

#[test]
fn numbers_are_read_from_decimal() {
    assert_eq!(parse_u64("0"), Some(0));
    assert_eq!(parse_u64("152"), Some(152));
    assert_eq!(parse_u64("+152"), Some(152));
    assert_eq!(parse_u64("000152"), Some(152));
    assert_eq!(parse_u64("18446744073709551615"), Some(u64::MAX));
    assert_eq!(parse_u64("00000000000000000000000018446744073709551615"), Some(u64::MAX));
}

#[test]
fn what_is_no_number_is_not_read() {
    assert_eq!(parse_u64(""), None);
    assert_eq!(parse_u64("+"), None);
    assert_eq!(parse_u64("-"), None);
    assert_eq!(parse_u64("-1"), None);
    assert_eq!(parse_u64("++1"), None);
    assert_eq!(parse_u64("1+"), None);
    assert_eq!(parse_u64(" 1"), None);
    assert_eq!(parse_u64("1 "), None);
    assert_eq!(parse_u64("12a"), None);
    assert_eq!(parse_u64("0x10"), None);
    assert_eq!(parse_u64("\u{661}"), None);
    assert_eq!(parse_u64("18446744073709551616"), None);
    assert_eq!(parse_u64("99999999999999999999999"), None);
}

#[test]
fn reading_agrees_with_the_standard_parser() {
    let texts = [
        "", "+", "-", "0", "+0", "-0", "1", "+1", "-1", "01", "+01", "++1", "+-1", "1+", " 1",
        "1 ", "1_000", "1.0", "1e3", "abc", "12a", "a12", "18446744073709551615",
        "18446744073709551616", "18446744073709551614", "184467440737095516150",
        "+18446744073709551615", "99999999999999999999", "00000000000000000000000001",
        "\u{661}\u{662}", "\u{ff11}",
    ];
    for text in texts.iter() {
        assert_eq!(parse_u64(text), text.parse::<u64>().ok(), "{:?}", text);
    }
}
