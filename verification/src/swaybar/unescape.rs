// SPDX-License-Identifier: AGPL-3.0-only

//! What a reader of JSON makes of the inside of a string literal, as a
//! mathematical function, and the proof that it gives back every text that
//! the escaper wrote.
//!
//! Nothing here runs: the reader exists to say what the escaper's output
//! means.

use super::json::{
    escape_char, escaped, hex_digit, high_surrogate, low_surrogate, needs_escape,
    single_char_escape_of, unicode_escape, unicode_escape_of, EscapeJSONDecision, EscapePolicy,
};
use vstd::prelude::*;

verus! {

/// The value of a hexadecimal digit, of either case.
pub open spec fn hex_value(c: char) -> Option<int> {
    if '0' <= c <= '9' {
        Some(c as int - '0' as int)
    } else if 'A' <= c <= 'F' {
        Some(c as int - 'A' as int + 10)
    } else if 'a' <= c <= 'f' {
        Some(c as int - 'a' as int + 10)
    } else {
        None
    }
}

/// The code unit that the four hexadecimal digits of `t` from place `at` on
/// spell, most significant digit first.
pub open spec fn code_unit_at(t: Seq<char>, at: int) -> Option<int> {
    if 0 <= at && at + 4 <= t.len() && hex_value(t[at]) is Some && hex_value(t[at + 1]) is Some
        && hex_value(t[at + 2]) is Some && hex_value(t[at + 3]) is Some {
        Some(
            hex_value(t[at]).unwrap() * 0x1000 + hex_value(t[at + 1]).unwrap() * 0x100 + hex_value(
                t[at + 2],
            ).unwrap() * 0x10 + hex_value(t[at + 3]).unwrap(),
        )
    } else {
        None
    }
}

/// The character that a short escape stands for, by the character that
/// follows the reverse solidus.
pub open spec fn short_escape_meaning(c: char) -> Option<char> {
    if c == '"' {
        Some('"')
    } else if c == '\\' {
        Some('\\')
    } else if c == '/' {
        Some('/')
    } else if c == 'b' {
        Some('\x08')
    } else if c == 'f' {
        Some('\x0c')
    } else if c == 'n' {
        Some('\n')
    } else if c == 'r' {
        Some('\r')
    } else if c == 't' {
        Some('\t')
    } else {
        None
    }
}

/// The character that a surrogate pair stands for.
pub open spec fn from_surrogates(high: int, low: int) -> char {
    (0x10000 + (high - 0xD800) * 0x400 + (low - 0xDC00)) as char
}

/// Reads one character off the front of the inside of a string literal: the
/// character read and how many characters of `t` spell it. `None` where `t`
/// does not begin with a character as JSON allows it: at the end, at an
/// unescaped quotation mark or control character, at an escape that JSON
/// does not know, and at a surrogate without its partner.
pub open spec fn read_char(t: Seq<char>) -> Option<(char, int)> {
    if t.len() == 0 {
        None
    } else if t[0] != '\\' {
        if needs_escape(t[0]) {
            None
        } else {
            Some((t[0], 1))
        }
    } else if t.len() < 2 {
        None
    } else if t[1] == 'u' {
        match code_unit_at(t, 2) {
            None => None,
            Some(unit) => if unit < 0xD800 || 0xDFFF < unit {
                Some((unit as char, 6))
            } else if unit <= 0xDBFF && t.len() >= 8 && t[6] == '\\' && t[7] == 'u' {
                match code_unit_at(t, 8) {
                    Some(low) => if 0xDC00 <= low <= 0xDFFF {
                        Some((from_surrogates(unit, low), 12))
                    } else {
                        None
                    },
                    None => None,
                }
            } else {
                None
            },
        }
    } else {
        match short_escape_meaning(t[1]) {
            Some(c) => Some((c, 2)),
            None => None,
        }
    }
}

/// The text that the inside of a JSON string literal stands for, or `None`
/// where `t` is not the inside of one.
pub open spec fn json_unescape(t: Seq<char>) -> Option<Seq<char>>
    decreases t.len(),
{
    if t.len() == 0 {
        Some(Seq::empty())
    } else {
        match read_char(t) {
            None => None,
            Some((c, used)) => if 0 < used <= t.len() {
                match json_unescape(t.skip(used)) {
                    Some(rest) => Some(seq![c] + rest),
                    None => None,
                }
            } else {
                None
            },
        }
    }
}

/// Whether a reader of JSON gets `c` back from what `decision` writes for
/// it: a character that must be escaped is not printed directly, and a
/// reverse solidus is put only before a character that JSON lets follow it.
pub open spec fn decision_is_readable(c: char, decision: EscapeJSONDecision) -> bool {
    match decision {
        EscapeJSONDecision::PrintDirectly() => !needs_escape(c),
        EscapeJSONDecision::SelfEscape() => c == '"' || c == '\\' || c == '/',
        EscapeJSONDecision::SingleCharEscape() => single_char_escape_of(c) is Some,
        EscapeJSONDecision::UnicodeEscape() => true,
    }
}

/// A digit written by the escaper reads as the value it was written for.
pub proof fn lemma_hex_digit_value(value: int)
    requires
        0 <= value < 16,
    ensures
        hex_value(hex_digit(value)) == Some(value),
{
}

/// The escape of a code unit, wherever it stands in a text, reads as that
/// code unit.
pub proof fn lemma_code_unit_reads_back(unit: int, before: Seq<char>, after: Seq<char>)
    requires
        0 <= unit <= 0xFFFF,
    ensures
        code_unit_at(before + unicode_escape(unit) + after, before.len() as int + 2) == Some(unit),
{
    let t = before + unicode_escape(unit) + after;
    let at = before.len() as int + 2;
    assert(t[at] == hex_digit(unit / 0x1000 % 16));
    assert(t[at + 1] == hex_digit(unit / 0x100 % 16));
    assert(t[at + 2] == hex_digit(unit / 0x10 % 16));
    assert(t[at + 3] == hex_digit(unit % 16));
    lemma_hex_digit_value(unit / 0x1000 % 16);
    lemma_hex_digit_value(unit / 0x100 % 16);
    lemma_hex_digit_value(unit / 0x10 % 16);
    lemma_hex_digit_value(unit % 16);
}

/// Whatever follows, a reader takes what the escaper wrote for one character
/// as that character, and takes all of it.
pub proof fn lemma_escape_char_reads_back(c: char, decision: EscapeJSONDecision, after: Seq<char>)
    requires
        decision_is_readable(c, decision),
    ensures
        read_char(escape_char(c, decision) + after) == Some(
            (c, escape_char(c, decision).len() as int),
        ),
{
    let t = escape_char(c, decision) + after;
    match decision {
        EscapeJSONDecision::PrintDirectly() => {
            assert(t[0] == c);
        },
        EscapeJSONDecision::SelfEscape() => {
            assert(t[0] == '\\' && t[1] == c);
        },
        EscapeJSONDecision::SingleCharEscape() => {
            assert(t[0] == '\\' && t[1] == single_char_escape_of(c).unwrap());
        },
        EscapeJSONDecision::UnicodeEscape() => {
            if c as int <= 0xFFFF {
                lemma_code_unit_reads_back(c as int, Seq::empty(), after);
                assert(Seq::<char>::empty() + unicode_escape(c as int) + after =~= t);
                assert(t[0] == '\\' && t[1] == 'u');
            } else {
                let high = high_surrogate(c);
                let low = low_surrogate(c);
                assert(t =~= Seq::<char>::empty() + unicode_escape(high) + (unicode_escape(low)
                    + after));
                assert(t =~= unicode_escape(high) + unicode_escape(low) + after);
                lemma_code_unit_reads_back(high, Seq::empty(), unicode_escape(low) + after);
                lemma_code_unit_reads_back(low, unicode_escape(high), after);
                assert(t[0] == '\\' && t[1] == 'u' && t[6] == '\\' && t[7] == 'u');
                assert(from_surrogates(high, low) == c);
            }
        },
    }
}

/// Every named policy writes each character so that a reader gets it back.
pub proof fn lemma_policy_is_readable(policy: EscapePolicy, c: char)
    ensures
        decision_is_readable(c, policy.decision(c)),
{
}

/// Reading what the escaper wrote gives back the text that it was given,
/// whatever the text: plain characters, control characters, quotation marks,
/// reverse solidi, and characters in or above the basic plane.
pub proof fn lemma_round_trip(s: Seq<char>, policy: EscapePolicy)
    ensures
        json_unescape(escaped(s, policy)) == Some(s),
    decreases s.len(),
{
    if s.len() == 0 {
        assert(s =~= Seq::<char>::empty());
    } else {
        let head = escape_char(s[0], policy.decision(s[0]));
        let tail = escaped(s.drop_first(), policy);
        lemma_policy_is_readable(policy, s[0]);
        lemma_escape_char_reads_back(s[0], policy.decision(s[0]), tail);
        lemma_round_trip(s.drop_first(), policy);
        assert((head + tail).skip(head.len() as int) =~= tail);
        assert(seq![s[0]] + s.drop_first() =~= s);
    }
}

} // verus!
