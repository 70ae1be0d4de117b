// SPDX-License-Identifier: AGPL-3.0-only

use std::borrow::Cow;

use simple_statusbar::swaybar::json::EscapeJSONDecision;
use simple_statusbar::swaybar::json::EscapeJSONString;
use simple_statusbar::swaybar::json::EscapePolicy;
use simple_statusbar::swaybar::json::EscapePolicy::MinimalEscaping;
use simple_statusbar::swaybar::json::{
    escape_json, is_unchanged_by, minimal_escaping, rfc_single_char_escape,
};

fn escape(s: &str) -> String {
    EscapeJSONString::new_from_str(s, MinimalEscaping()).collect_string()
}

/// Reads the inside of a JSON string literal back into the text it stands for.
fn unescape(t: &str) -> Option<String> {
    let chars: Vec<char> = t.chars().collect();
    let mut out = String::new();
    let mut i = 0;
    let unit = |at: usize| -> Option<u32> {
        if at + 4 > chars.len() {
            return None;
        }
        let mut value = 0;
        for c in &chars[at..at + 4] {
            value = value * 16 + c.to_digit(16)?;
        }
        Some(value)
    };
    while i < chars.len() {
        let c = chars[i];
        if c != '\\' {
            if c == '"' || (c as u32) < 0x20 {
                return None;
            }
            out.push(c);
            i += 1;
            continue;
        }
        let kind = *chars.get(i + 1)?;
        if kind == 'u' {
            let high = unit(i + 2)?;
            if (0xD800..=0xDBFF).contains(&high) {
                if chars.get(i + 6) != Some(&'\\') || chars.get(i + 7) != Some(&'u') {
                    return None;
                }
                let low = unit(i + 8)?;
                if !(0xDC00..=0xDFFF).contains(&low) {
                    return None;
                }
                out.push(char::from_u32(0x10000 + (high - 0xD800) * 0x400 + (low - 0xDC00))?);
                i += 12;
            } else {
                out.push(char::from_u32(high)?);
                i += 6;
            }
            continue;
        }
        out.push(match kind {
            '"' => '"',
            '\\' => '\\',
            '/' => '/',
            'b' => '\x08',
            'f' => '\x0c',
            'n' => '\n',
            'r' => '\r',
            't' => '\t',
            _ => return None,
        });
        i += 2;
    }
    Some(out)
}

#[test]
fn literal_vectors() {
    assert_eq!(escape(""), "");
    assert_eq!(escape("some text"), "some text");
    assert_eq!(escape("\x00"), "\\u0000");
    assert_eq!(escape("some\x1btext"), "some\\u001Btext");
    assert_eq!(escape("\""), "\\\"");
    assert_eq!(escape("\\"), "\\\\");
}

#[test]
fn every_control_character_is_escaped_in_upper_case_hex() {
    for code in 0u32..0x20 {
        let c = char::from_u32(code).unwrap();
        let expected = format!("\\u{:04X}", code);
        assert_eq!(escape(&c.to_string()), expected);
    }
    assert_eq!(escape("\n"), "\\u000A");
    assert_eq!(escape("\x1f"), "\\u001F");
    assert_eq!(escape(" "), " ");
    assert_eq!(escape("\x7f"), "\x7f");
}

#[test]
fn text_beyond_ascii_passes_through() {
    assert_eq!(escape("Zürich"), "Zürich");
    assert_eq!(escape("日本語"), "日本語");
    assert_eq!(escape("\u{1F600}"), "\u{1F600}");
    assert_eq!(escape("/"), "/");
}

#[test]
fn round_trip_on_chosen_texts() {
    let texts = [
        "",
        "plain",
        "with \"quotes\" and \\ solidus",
        "\x00\x01\x02\x1e\x1f",
        "tab\there\nand\rthere",
        "Zürich 日本語 \u{ffff} \u{10000} \u{1F600} \u{10FFFF}",
        "\u{d7ff}\u{e000}",
        "100% | 2024-01-01 00:00",
    ];
    for text in texts {
        assert_eq!(unescape(&escape(text)), Some(text.to_string()));
    }
}

#[test]
fn safe_text_is_returned_unchanged() {
    for text in ["", "some text", " 82%", "2025-03-09 17:45", "Zürich \u{1F600}"] {
        assert_eq!(escape(text), text);
        assert!(is_unchanged_by(text, MinimalEscaping()));
    }
    assert!(!is_unchanged_by("a\"b", MinimalEscaping()));
    assert!(!is_unchanged_by("a\\b", MinimalEscaping()));
    assert!(!is_unchanged_by("a\x07b", MinimalEscaping()));
}

#[test]
fn fast_path_borrows_and_slow_path_owns() {
    let safe = "some text";
    match escape_json(safe, MinimalEscaping()) {
        Cow::Borrowed(same) => {
            assert_eq!(same, safe);
            assert!(std::ptr::eq(same, safe));
        }
        Cow::Owned(_) => panic!("a safe text was copied"),
    }
    match escape_json("", MinimalEscaping()) {
        Cow::Borrowed(same) => assert_eq!(same, ""),
        Cow::Owned(_) => panic!("the empty text was copied"),
    }
    match escape_json("say \"hi\"", MinimalEscaping()) {
        Cow::Borrowed(_) => panic!("a text with quotes was not escaped"),
        Cow::Owned(made) => assert_eq!(made, "say \\\"hi\\\""),
    }
}

#[test]
fn minimal_escaping_decides_by_character() {
    assert!(matches!(minimal_escaping(&'"'), EscapeJSONDecision::SelfEscape()));
    assert!(matches!(minimal_escaping(&'\\'), EscapeJSONDecision::SelfEscape()));
    assert!(matches!(minimal_escaping(&'\x00'), EscapeJSONDecision::UnicodeEscape()));
    assert!(matches!(minimal_escaping(&'\n'), EscapeJSONDecision::UnicodeEscape()));
    assert!(matches!(minimal_escaping(&'\x1f'), EscapeJSONDecision::UnicodeEscape()));
    assert!(matches!(minimal_escaping(&' '), EscapeJSONDecision::PrintDirectly()));
    assert!(matches!(minimal_escaping(&'/'), EscapeJSONDecision::PrintDirectly()));
    assert!(matches!(minimal_escaping(&'\u{1F600}'), EscapeJSONDecision::PrintDirectly()));
    assert_eq!(MinimalEscaping().decide(&'"'), EscapeJSONDecision::SelfEscape());
    assert_eq!(EscapePolicy::MinimalEscaping().decide(&'a'), EscapeJSONDecision::PrintDirectly());
}

#[test]
fn short_escapes_are_those_of_json() {
    assert_eq!(rfc_single_char_escape('"'), Some('"'));
    assert_eq!(rfc_single_char_escape('\\'), Some('\\'));
    assert_eq!(rfc_single_char_escape('/'), Some('/'));
    assert_eq!(rfc_single_char_escape('\x08'), Some('b'));
    assert_eq!(rfc_single_char_escape('\x0c'), Some('f'));
    assert_eq!(rfc_single_char_escape('\n'), Some('n'));
    assert_eq!(rfc_single_char_escape('\r'), Some('r'));
    assert_eq!(rfc_single_char_escape('\t'), Some('t'));
    assert_eq!(rfc_single_char_escape('a'), None);
    assert_eq!(rfc_single_char_escape('\x00'), None);
}

#[test]
fn characters_come_one_by_one_and_the_end_stays_the_end() {
    let mut escaper = EscapeJSONString::new_from_str("a\"\x01", MinimalEscaping());
    let expected = ['a', '\\', '"', '\\', 'u', '0', '0', '0', '1'];
    for c in expected {
        assert_eq!(escaper.next_char(), Some(c));
    }
    assert_eq!(escaper.next_char(), None);
    assert_eq!(escaper.next_char(), None);
    assert_eq!(escaper.next(), None);
}

#[test]
fn next_is_next_char() {
    let mut one = EscapeJSONString::new_from_str("x\\y", MinimalEscaping());
    let mut other = one;
    loop {
        let a = one.next();
        let b = other.next_char();
        assert_eq!(a, b);
        if a.is_none() {
            break;
        }
    }
}

#[test]
fn works_as_a_source_for_an_iterator() {
    let mut escaper = EscapeJSONString::new_from_str("some\x1btext", MinimalEscaping());
    let collected: String = std::iter::from_fn(|| escaper.next_char()).collect();
    assert_eq!(collected, "some\\u001Btext");
}

#[test]
fn a_copy_goes_on_where_the_first_stood() {
    let mut escaper = EscapeJSONString::new_from_str("\x02z", MinimalEscaping());
    assert_eq!(escaper.next_char(), Some('\\'));
    assert_eq!(escaper.next_char(), Some('u'));
    let copy = escaper;
    assert_eq!(copy.collect_string(), "0002z");
    assert_eq!(escaper.collect_string(), "0002z");
}

#[test]
fn size_hint_bounds_what_is_left() {
    let mut escaper = EscapeJSONString::new_from_str("ab\x01", MinimalEscaping());
    assert_eq!(escaper.size_hint(), (3, Some(36)));
    assert_eq!(escaper.next_char(), Some('a'));
    assert_eq!(escaper.size_hint(), (2, Some(24)));
    assert_eq!(escaper.next_char(), Some('b'));
    assert_eq!(escaper.size_hint(), (1, Some(12)));
    assert_eq!(escaper.next_char(), Some('\\'));
    assert_eq!(escaper.size_hint(), (5, Some(5)));
    assert_eq!(escaper.next_char(), Some('u'));
    assert_eq!(escaper.size_hint(), (4, Some(4)));
    assert_eq!(escaper.next_char(), Some('0'));
    assert_eq!(escaper.next_char(), Some('0'));
    assert_eq!(escaper.next_char(), Some('0'));
    assert_eq!(escaper.size_hint(), (1, Some(1)));
    assert_eq!(escaper.next_char(), Some('1'));
    assert_eq!(escaper.size_hint(), (0, Some(0)));
    assert_eq!(escaper.next_char(), None);
    assert_eq!(escaper.size_hint(), (0, Some(0)));
}

#[test]
fn size_hint_counts_a_pending_self_escape() {
    let mut escaper = EscapeJSONString::new_from_str("\"q", MinimalEscaping());
    assert_eq!(escaper.size_hint(), (2, Some(24)));
    assert_eq!(escaper.next_char(), Some('\\'));
    assert_eq!(escaper.size_hint(), (2, Some(13)));
    assert_eq!(escaper.next_char(), Some('"'));
    assert_eq!(escaper.size_hint(), (1, Some(12)));
}

#[test]
fn size_hint_holds_what_is_really_left() {
    for text in ["", "plain", "\"\\\x00\x1f", "mixed \"text\" with \x07 bell"] {
        let mut escaper = EscapeJSONString::new_from_str(text, MinimalEscaping());
        loop {
            let (least, most) = escaper.size_hint();
            let left = escaper.collect_string().chars().count();
            assert!(least <= left);
            assert!(left <= most.unwrap());
            if escaper.next_char().is_none() {
                break;
            }
        }
    }
}
