use sorai::text::{
    chars_eq, decimal_string, decimal_string_wide, find_str, from_chars, holds, str_eq, to_chars,
    trimmed,
};

#[test]
fn decimal_strings() {
    assert_eq!(decimal_string(0), "0");
    assert_eq!(decimal_string(9), "9");
    assert_eq!(decimal_string(10), "10");
    assert_eq!(decimal_string(5173), "5173");
    assert_eq!(decimal_string(u64::MAX), "18446744073709551615");
    assert_eq!(decimal_string_wide(u128::MAX), "340282366920938463463374607431768211455");
}

#[test]
fn chars_round_trip() {
    let text = "héllo ➜ wörld";
    let chars = to_chars(text);
    assert_eq!(chars.len(), 13);
    assert_eq!(from_chars(&chars), text);
    assert!(str_eq("abc", "abc"));
    assert!(!str_eq("abc", "abd"));
    assert!(!str_eq("abc", "ab"));
    assert!(chars_eq(&to_chars(""), &to_chars("")));
}

#[test]
fn searching() {
    let hay = to_chars("a needle in a needle stack");
    assert_eq!(find_str(&hay, "needle"), Some(2));
    assert_eq!(find_str(&hay, "stack"), Some(21));
    assert_eq!(find_str(&hay, "stacks"), None);
    assert_eq!(find_str(&hay, ""), Some(0));
    assert!(holds(&hay, "in a"));
    assert!(!holds(&hay, "hay"));
    assert!(holds(&to_chars(""), ""));
}

#[test]
fn trimming_matches_std() {
    for text in ["", "  ", " a ", "\t\r\n x y \u{a0}\u{3000}", "none", "\u{2003}em\u{2003}"] {
        assert_eq!(trimmed(text), text.trim());
    }
}

fn has_white_space_property(c: char) -> bool {
    matches!(
        c,
        '\u{9}'..='\u{d}'
            | ' '
            | '\u{85}'
            | '\u{a0}'
            | '\u{1680}'
            | '\u{2000}'..='\u{200a}'
            | '\u{2028}'
            | '\u{2029}'
            | '\u{202f}'
            | '\u{205f}'
            | '\u{3000}'
    )
}

#[test]
fn white_space_is_the_same_for_every_character() {
    let mut count = 0;
    for code in 0..=0x10ffffu32 {
        let Some(c) = char::from_u32(code) else { continue };
        assert_eq!(c.is_whitespace(), has_white_space_property(c), "U+{:04X}", code);
        if has_white_space_property(c) {
            count += 1;
            let padded = format!("{}x{}", c, c);
            assert_eq!(trimmed(&padded), "x");
        }
    }
    assert_eq!(count, 25);
    assert_eq!(trimmed("\u{200b}x\u{feff}"), "\u{200b}x\u{feff}");
}
