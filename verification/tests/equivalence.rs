//! `FlagName::new` accepts exactly the names that match `^[a-z][a-z0-9_]*$`.
//!
//! The oracle is the pattern itself, run by the `regex` crate; the tests
//! compare the two decisions on the curated valid/invalid sets, on every
//! one-character ASCII string, on every two-character string over a mixed
//! alphabet, and on structured adversarial cases.

use flag_kit::FlagName;

fn flag_kit_accepts(s: &str) -> bool {
    FlagName::new(s.to_string()).is_ok()
}

fn pattern_accepts(s: &str) -> bool {
    regex::Regex::new(r"^[a-z][a-z0-9_]*$").unwrap().is_match(s)
}

fn assert_equivalent(s: &str) {
    assert_eq!(
        flag_kit_accepts(s),
        pattern_accepts(s),
        "accept/reject disagreement on {s:?}: flag-kit={}, pattern={}",
        flag_kit_accepts(s),
        pattern_accepts(s)
    );
}

#[test]
fn oracle_valid_set_still_accepted_and_matches_validkit() {
    for valid in ["a", "abc", "my_flag", "flag_123", "a1_b2_c3"] {
        assert!(flag_kit_accepts(valid), "historically valid: {valid}");
        assert_equivalent(valid);
    }
}

#[test]
fn oracle_invalid_set_still_rejected_and_matches_validkit() {
    for invalid in ["", "A", "1abc", "_abc", "abc-def", "abc def", "ABC"] {
        assert!(
            !flag_kit_accepts(invalid),
            "historically invalid: {invalid}"
        );
        assert_equivalent(invalid);
    }
}

#[test]
fn exhaustive_single_char_ascii_agreement() {
    for b in 0u8..=127 {
        let s = b as char;
        assert_equivalent(&s.to_string());
    }
    for c in 'a'..='z' {
        assert!(flag_kit_accepts(&c.to_string()), "1-char a-z valid: {c}");
    }
    for b in 0u8..=127 {
        let c = b as char;
        if !c.is_ascii_lowercase() {
            assert!(
                !flag_kit_accepts(&c.to_string()),
                "1-char non-a-z must be rejected: {c:?}"
            );
        }
    }
}

#[test]
fn exhaustive_two_char_mixed_alphabet_agreement() {
    let alphabet: Vec<char> = vec!['a', 'z', 'f', '0', '9', '_', '-', 'A', 'Z', ' ', '\n'];
    for a in &alphabet {
        for b in &alphabet {
            let s: String = [*a, *b].iter().collect();
            assert_equivalent(&s);
        }
    }
}

#[test]
fn structured_cases_agreement() {
    let long_a = "a".repeat(256);
    let long_digits = format!("a{}", "0".repeat(1000));
    let cases = [
        "flag",
        "flag_name_2",
        "a",
        "a_",
        "_",
        "_a",
        "0a",
        "a-b",
        "a b",
        "Flag",
        "fLAG",
        "flag\r",
        "flag\n",
        "fla\rg",
        "\r",
        "\n",
        "\r\n",
        "café",
        "flag name",
        "flag\ttab",
        &long_a,
        &long_digits,
        "flag\x007f",
        "\u{00e9}abc",
        "abc\u{200b}",
    ];
    for s in cases {
        assert_equivalent(s);
    }
}

#[test]
fn accepted_values_roundtrip_identically() {
    for s in ["a", "my_flag", "flag_123", "a1_b2_c3"] {
        let mine = FlagName::new(s.to_string()).unwrap();
        assert_eq!(mine.as_str(), s);
        assert_eq!(mine.to_string(), s.to_string());
        assert_eq!(mine.into_inner(), s.to_string());
    }
}

#[test]
fn every_entry_point_uses_the_same_validator() {
    for s in ["good_name", "Bad-Name", ""] {
        let expected = flag_kit_accepts(s);
        assert_eq!(s.parse::<FlagName>().is_ok(), expected, "FromStr: {s:?}");
        assert_eq!(
            FlagName::try_from(s.to_string()).is_ok(),
            expected,
            "TryFrom<String>: {s:?}"
        );
        assert_eq!(
            FlagName::try_from(s).is_ok(),
            expected,
            "TryFrom<&str>: {s:?}"
        );
        assert_eq!(pattern_accepts(s), expected);
    }
}

#[test]
fn ordering_matches_validkit() {
    let pairs = [
        ("a", "b"),
        ("flag_a", "flag_b"),
        ("z9", "z_"),
        ("ab", "abc"),
    ];
    for (x, y) in pairs {
        let mx = FlagName::new(x).unwrap();
        let my = FlagName::new(y).unwrap();
        assert_eq!(mx.cmp(&my), x.cmp(y), "ordering mismatch {x:?} vs {y:?}");
    }
}

#[test]
fn generated_names_agree_with_pattern() {
    // A deterministic sweep over names of length 1..=4 built from a small
    // alphabet that covers every character class of the rule.
    let alphabet = ['a', 'q', '0', '_', 'B', '-', 'é'];
    let mut names: Vec<String> = alphabet.iter().map(|c| c.to_string()).collect();
    for _ in 0..3 {
        let mut next = Vec::new();
        for n in &names {
            for c in &alphabet {
                next.push(format!("{n}{c}"));
            }
        }
        names.extend(next.into_iter().filter(|s| s.chars().count() <= 4));
        names.sort();
        names.dedup();
    }
    for n in &names {
        assert_equivalent(n);
    }
}
