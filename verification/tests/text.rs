use webapp::text::{chars_of, decimal_i64, decimal_u64, find_chars, parse_i64_chars, split_chars, string_of, trim_chars};

fn s(v: &[char]) -> String {
    v.iter().collect()
}

#[test]
fn trimming_matches_str_trim() {
    for t in ["  a b  ", "\t\n x\u{a0}", "", "   ", "abc", "\u{3000}ā\u{3000}"] {
        assert_eq!(s(&trim_chars(&chars_of(t))), t.trim());
    }
}

#[test]
fn decimals_match_display() {
    for n in [0u64, 7, 10, 99, 12345, u64::MAX] {
        assert_eq!(s(&decimal_u64(n)), n.to_string());
    }
    for n in [0i64, -1, 42, -987, i64::MIN, i64::MAX] {
        assert_eq!(s(&decimal_i64(n)), n.to_string());
    }
}

#[test]
fn integer_parsing_matches_str_parse() {
    for t in [
        "0", "42", "+42", "-42", "", "+", "-", "4a", " 4", "007", "9223372036854775807",
        "9223372036854775808", "-9223372036854775808", "-9223372036854775809",
        "99999999999999999999999", "١٢",
    ] {
        assert_eq!(parse_i64_chars(&chars_of(t)), t.parse::<i64>().ok(), "input {:?}", t);
    }
}

#[test]
fn splitting_matches_str_split() {
    for t in ["a&b&&c", "", "&", "abc", "a&"] {
        let got: Vec<String> = split_chars(&chars_of(t), '&').iter().map(|p| s(p)).collect();
        let want: Vec<String> = t.split('&').map(|p| p.to_string()).collect();
        assert_eq!(got, want);
    }
}

#[test]
fn finding_matches_str_find() {
    for (h, n) in [("abcabc", "ca"), ("abc", "x"), ("", ""), ("ab", "abc"), ("a\r\n\r\nb", "\r\n\r\n")] {
        let got = find_chars(&chars_of(h), &chars_of(n));
        let want = h.find(n).map(|b| h[..b].chars().count());
        assert_eq!(got, want);
    }
}

#[test]
fn strings_round_trip_through_chars() {
    let t = "Rīga, iela 19 – ✓";
    assert_eq!(string_of(&chars_of(t)), t);
}
