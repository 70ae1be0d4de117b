// SPDX-License-Identifier: AGPL-3.0-only

//! Escaping of text for use inside a double-quoted JSON string.
//!
//! The escaper is a small state machine that hands out one output character
//! per call. For every input character a policy picks one of four ways of
//! writing it; the machine then spells that choice out, character by
//! character, before it looks at the next input character.

use std::borrow::Cow;
use vstd::prelude::*;
use vstd::string::{StrSliceExecFns, StringSliceAdditionalSpecFns};
use vstd::utf8::{
    encode_scalar, encode_utf8, encode_utf8_decode_utf8, encode_utf8_first_scalar,
    encode_utf8_valid_utf8, is_char_boundary, pop_first_scalar,
};

verus! {

/// What to do next when evaluating an input char.
#[derive(Copy, Clone, Debug, PartialEq, Eq, Structural)]
pub enum EscapeJSONDecision {
    /// Print the input char out directly.
    PrintDirectly(),
    /// Print out a unicode escape sequence. It might be a surrogate pair.
    UnicodeEscape(),
    /// Print out a single char escape sequence with a different char
    /// substituting for the input char, e.g. `n` for a line feed.
    SingleCharEscape(),
    /// Print out a single char escape sequence with the input char in it,
    /// e.g. a quotation mark after the reverse solidus.
    SelfEscape(),
}

/// The character that follows the reverse solidus in the short escape of `c`,
/// for the characters that JSON gives a short escape.
pub open spec fn single_char_escape_of(c: char) -> Option<char> {
    if c == '"' {
        Some('"')
    } else if c == '\\' {
        Some('\\')
    } else if c == '/' {
        Some('/')
    } else if c == '\x08' {
        Some('b')
    } else if c == '\x0c' {
        Some('f')
    } else if c == '\n' {
        Some('n')
    } else if c == '\r' {
        Some('r')
    } else if c == '\t' {
        Some('t')
    } else {
        None
    }
}

/// Looks up the short escape of `c`, if JSON has one.
pub fn rfc_single_char_escape(c: char) -> (escape: Option<char>)
    ensures
        escape == single_char_escape_of(c),
{
    match c {
        '"' => Some('"'),
        '\\' => Some('\\'),
        '/' => Some('/'),
        '\x08' => Some('b'),
        '\x0c' => Some('f'),
        '\n' => Some('n'),
        '\r' => Some('r'),
        '\t' => Some('t'),
        _ => None,
    }
}

/// Whether JSON forbids `c` to stand unescaped inside a string: the quotation
/// mark, the reverse solidus and the control characters below U+0020.
pub open spec fn needs_escape(c: char) -> bool {
    c == '"' || c == '\\' || (c as u32) < 0x20
}

/// The choice that minimal escaping makes for `c`.
pub open spec fn minimal_decision(c: char) -> EscapeJSONDecision {
    if c == '"' || c == '\\' {
        EscapeJSONDecision::SelfEscape()
    } else if (c as u32) < 0x20 {
        EscapeJSONDecision::UnicodeEscape()
    } else {
        EscapeJSONDecision::PrintDirectly()
    }
}

/// Perform minimal escaping, according to IETF RFC 8259. This escapes
/// quotation mark, reverse solidus, and code points 0x00-0x1F. No other
/// characters are requested to be escaped.
pub fn minimal_escaping(c: &char) -> (decision: EscapeJSONDecision)
    ensures
        decision == minimal_decision(*c),
        decision is PrintDirectly <==> !needs_escape(*c),
{
    match *c {
        '"' | '\\' => EscapeJSONDecision::SelfEscape(),
        '\x00'..='\x1f' => EscapeJSONDecision::UnicodeEscape(),
        _ => EscapeJSONDecision::PrintDirectly(),
    }
}


/// The named ways of choosing how each character is written.
#[derive(Copy, Clone, Debug, PartialEq, Eq, Hash)]
pub enum EscapePolicy {
    /// Escape what JSON requires to be escaped and nothing else.
    MinimalEscaping(),
}

impl EscapePolicy {
    /// The choice that this policy makes for `c`.
    pub open spec fn decision(self, c: char) -> EscapeJSONDecision {
        match self {
            EscapePolicy::MinimalEscaping() => minimal_decision(c),
        }
    }

    /// Asks the policy how `c` is to be written.
    pub fn decide(&self, c: &char) -> (decision: EscapeJSONDecision)
        ensures
            decision == self.decision(*c),
            decision_applies(*c, decision),
    {
        match self {
            EscapePolicy::MinimalEscaping() => minimal_escaping(c),
        }
    }
}

/// Whether `decision` can be carried out for `c`: a short escape can only be
/// written for a character that has one.
pub open spec fn decision_applies(c: char, decision: EscapeJSONDecision) -> bool {
    decision is SingleCharEscape ==> single_char_escape_of(c) is Some
}

/// The upper-case hexadecimal digit for a value below sixteen.
pub open spec fn hex_digit(value: int) -> char {
    if value < 10 {
        ('0' as int + value) as char
    } else {
        ('A' as int + value - 10) as char
    }
}

/// The six characters of the `\uXXXX` escape of one UTF-16 code unit, most
/// significant digit first.
pub open spec fn unicode_escape(unit: int) -> Seq<char> {
    seq![
        '\\',
        'u',
        hex_digit(unit / 0x1000 % 16),
        hex_digit(unit / 0x100 % 16),
        hex_digit(unit / 0x10 % 16),
        hex_digit(unit % 16),
    ]
}

/// The first UTF-16 code unit of a character above U+FFFF.
pub open spec fn high_surrogate(c: char) -> int {
    0xD800 + (c as int - 0x10000) / 0x400
}

/// The second UTF-16 code unit of a character above U+FFFF.
pub open spec fn low_surrogate(c: char) -> int {
    0xDC00 + (c as int - 0x10000) % 0x400
}

/// The unicode escape of a character: one `\uXXXX` for a character of the
/// basic plane, two for a character above it, high surrogate first.
pub open spec fn unicode_escape_of(c: char) -> Seq<char> {
    if c as int <= 0xFFFF {
        unicode_escape(c as int)
    } else {
        unicode_escape(high_surrogate(c)) + unicode_escape(low_surrogate(c))
    }
}

/// What is written for the input character `c` under `decision`.
pub open spec fn escape_char(c: char, decision: EscapeJSONDecision) -> Seq<char> {
    match decision {
        EscapeJSONDecision::PrintDirectly() => seq![c],
        EscapeJSONDecision::SelfEscape() => seq!['\\', c],
        EscapeJSONDecision::SingleCharEscape() => seq!['\\', single_char_escape_of(c).unwrap()],
        EscapeJSONDecision::UnicodeEscape() => unicode_escape_of(c),
    }
}

/// What is written for the text `s` under `policy`: the escapes of its
/// characters, one after the other.
pub open spec fn escaped(s: Seq<char>, policy: EscapePolicy) -> Seq<char>
    decreases s.len(),
{
    if s.len() == 0 {
        Seq::empty()
    } else {
        escape_char(s[0], policy.decision(s[0])) + escaped(s.drop_first(), policy)
    }
}

/// The states for JSON string escapes.
#[derive(Copy, Clone, Debug)]
enum EscapeJSONState {
    /// We're not in an escape, we need to look at the next character before
    /// we know what to output next.
    NotEscaping(),
    /// We're in a `\uXXXX` sequence, possibly the first or second of a
    /// surrogate pair. The number says how many characters of the whole
    /// escape are out already; the char is the input char.
    InUnicodeEscape(u8, char),
    /// We've output a reverse solidus, and the next char is something besides
    /// the input char. The char is the input char.
    InSingleCharEscape(char),
    /// We've output a reverse solidus, and the next char to output is the
    /// input char itself.
    HaveEscaped(char),
    /// We've reached the end of the string.
    EndOfString(),
}

impl EscapeJSONState {
    /// The characters of the escape in progress that are still to come.
    spec fn pending(self) -> Seq<char> {
        match self {
            EscapeJSONState::NotEscaping() => Seq::empty(),
            EscapeJSONState::EndOfString() => Seq::empty(),
            EscapeJSONState::HaveEscaped(c) => seq![c],
            EscapeJSONState::InSingleCharEscape(c) => seq![single_char_escape_of(c).unwrap()],
            EscapeJSONState::InUnicodeEscape(count, c) => unicode_escape_of(c).skip(count as int),
        }
    }

    /// An escape in progress has begun and is not over, and is one that can
    /// be written.
    spec fn well_formed(self) -> bool {
        match self {
            EscapeJSONState::InUnicodeEscape(count, c) => 1 <= count < unicode_escape_of(c).len(),
            EscapeJSONState::InSingleCharEscape(c) => single_char_escape_of(c) is Some,
            _ => true,
        }
    }
}

/// Splits the first character off a text: the character and what follows it,
/// or `None` for the empty text.
pub fn split_first<'a>(s: &'a str) -> (parts: Option<(char, &'a str)>)
    ensures
        match parts {
            None => s@.len() == 0,
            Some((first, rest)) => s@.len() > 0 && first == s@[0] && rest@ == s@.drop_first(),
        },
{
    if s.is_empty() {
        return None;
    }
    let first = s.get_char(0);
    let width: usize = if first <= '\u{7f}' {
        1
    } else if first <= '\u{7ff}' {
        2
    } else if first <= '\u{ffff}' {
        3
    } else {
        4
    };
    proof {
        let bytes = s.spec_bytes();
        encode_utf8_first_scalar(s@);
        encode_utf8_valid_utf8(s@);
        assert(encode_scalar(first as u32).len() == width);
        assert(bytes =~= encode_scalar(first as u32) + encode_utf8(s@.drop_first()));
        assert(is_char_boundary(pop_first_scalar(bytes), 0));
        assert(is_char_boundary(bytes, width as int));
    }
    let (_, rest) = s.split_at(width);
    proof {
        assert(rest.spec_bytes() =~= encode_utf8(s@.drop_first()));
        encode_utf8_decode_utf8(rest@);
        encode_utf8_decode_utf8(s@.drop_first());
    }
    Some((first, rest))
}

/// Hands out, one character per call, the escaped form of a text.
#[derive(Copy, Clone, Debug)]
pub struct EscapeJSONString<'a> {
    input: &'a str,
    state: EscapeJSONState,
    policy: EscapePolicy,
}

impl<'a> View for EscapeJSONString<'a> {
    type V = Seq<char>;

    /// The characters that are still to be handed out, in order.
    closed spec fn view(&self) -> Seq<char> {
        self.state.pending() + escaped(self.input@, self.policy)
    }
}

impl<'a> EscapeJSONString<'a> {
    #[verifier::type_invariant]
    spec fn inv(self) -> bool {
        &&& self.state.well_formed()
        &&& self.state is EndOfString ==> self.input@.len() == 0
    }

    /// The policy that this escaper was made with.
    pub closed spec fn policy(self) -> EscapePolicy {
        self.policy
    }

    /// How many characters of the input have not been looked at yet.
    pub closed spec fn unread(self) -> nat {
        self.input@.len()
    }

    /// How many characters of an escape in progress are still to come.
    pub closed spec fn pending(self) -> nat {
        self.state.pending().len()
    }

    /// Starts escaping `s` under `policy`.
    pub fn new_from_str(s: &'a str, policy: EscapePolicy) -> (escaper: Self)
        ensures
            escaper@ == escaped(s@, policy),
            escaper.policy() == policy,
            escaper.unread() == s@.len(),
            escaper.pending() == 0,
    {
        EscapeJSONString { input: s, state: EscapeJSONState::NotEscaping(), policy }
    }

    /// Hands out the next character of the escaped text, or `None` when the
    /// text is at its end. After the end it stays at the end.
    pub fn next_char(&mut self) -> (next: Option<char>)
        ensures
            old(self)@.len() == 0 ==> next is None && final(self)@ == old(self)@,
            old(self)@.len() > 0 ==> next == Some(old(self)@[0]) && final(self)@ == old(
                self,
            )@.drop_first(),
            final(self).policy() == old(self).policy(),
    {
        proof {
            use_type_invariant(&*self);
        }
        let ghost tail = escaped(self.input@, self.policy);
        match self.state {
            EscapeJSONState::EndOfString() => None,
            EscapeJSONState::HaveEscaped(c) => {
                self.state = EscapeJSONState::NotEscaping();
                assert((seq![c] + tail).drop_first() =~= Seq::<char>::empty() + tail);
                Some(c)
            },
            EscapeJSONState::InSingleCharEscape(c) => {
                let escape = rfc_single_char_escape(c).unwrap();
                self.state = EscapeJSONState::NotEscaping();
                assert((seq![escape] + tail).drop_first() =~= Seq::<char>::empty() + tail);
                Some(escape)
            },
            EscapeJSONState::InUnicodeEscape(count, c) => {
                let ghost whole = unicode_escape_of(c);
                let out = unicode_escape_at(c, count);
                if count + 1 == unicode_escape_len(c) {
                    self.state = EscapeJSONState::NotEscaping();
                } else {
                    self.state = EscapeJSONState::InUnicodeEscape(count + 1, c);
                }
                assert((whole.skip(count as int) + tail).drop_first() =~= whole.skip(
                    count as int + 1,
                ) + tail);
                Some(out)
            },
            EscapeJSONState::NotEscaping() => match split_first(self.input) {
                None => {
                    self.state = EscapeJSONState::EndOfString();
                    None
                },
                Some((c, rest)) => {
                    self.input = rest;
                    let decision = self.policy.decide(&c);
                    let ghost later = escaped(rest@, self.policy);
                    assert(tail == escape_char(c, decision) + later);
                    match decision {
                        EscapeJSONDecision::PrintDirectly() => {
                            assert((seq![c] + later).drop_first() =~= later);
                            Some(c)
                        },
                        EscapeJSONDecision::UnicodeEscape() => {
                            self.state = EscapeJSONState::InUnicodeEscape(1, c);
                            assert((unicode_escape_of(c) + later).drop_first() =~= unicode_escape_of(
                                c,
                            ).skip(1) + later);
                            Some('\\')
                        },
                        EscapeJSONDecision::SingleCharEscape() => {
                            self.state = EscapeJSONState::InSingleCharEscape(c);
                            assert((escape_char(c, decision) + later).drop_first() =~= seq![
                                single_char_escape_of(c).unwrap(),
                            ] + later);
                            Some('\\')
                        },
                        EscapeJSONDecision::SelfEscape() => {
                            self.state = EscapeJSONState::HaveEscaped(c);
                            assert((seq!['\\', c] + later).drop_first() =~= seq![c] + later);
                            Some('\\')
                        },
                    }
                },
            },
        }
    }

    /// Hands out the next character, as `next_char` does.
    pub fn next(&mut self) -> (next: Option<char>)
        ensures
            old(self)@.len() == 0 ==> next is None && final(self)@ == old(self)@,
            old(self)@.len() > 0 ==> next == Some(old(self)@[0]) && final(self)@ == old(
                self,
            )@.drop_first(),
            final(self).policy() == old(self).policy(),
    {
        self.next_char()
    }

    /// Bounds on how many characters are still to come, for sizing a buffer.
    /// The lower bound takes each unread input character for one output
    /// character, the upper bound for twelve; both add what is pending of an
    /// escape in progress. The lower bound stops at `usize::MAX`, and there is
    /// no upper bound where it would not fit. The unread characters are
    /// counted by walking over them.
    pub fn size_hint(&self) -> (hint: (usize, Option<usize>))
        ensures
            hint.0 == if self.unread() + self.pending() <= usize::MAX {
                self.unread() + self.pending()
            } else {
                usize::MAX as nat
            },
            hint.1 == if self.unread() * 12 + self.pending() <= usize::MAX {
                Some((self.unread() * 12 + self.pending()) as usize)
            } else {
                None
            },
            hint.0 <= self@.len(),
            hint.1 matches Some(most) ==> self@.len() <= most,
    {
        proof {
            use_type_invariant(self);
            lemma_escaped_len(self.input@, self.policy);
        }
        let unread: usize = self.input.unicode_len();
        let remaining_from_current_state: usize = match self.state {
            EscapeJSONState::EndOfString() => 0,
            EscapeJSONState::NotEscaping() => 0,
            EscapeJSONState::HaveEscaped(_) => 1,
            EscapeJSONState::InSingleCharEscape(_) => 1,
            EscapeJSONState::InUnicodeEscape(count, c) => (unicode_escape_len(c) - count) as usize,
        };
        let min_remaining = unread.saturating_add(remaining_from_current_state);
        let max_remaining = match unread.checked_mul(12) {
            Some(amount) => amount.checked_add(remaining_from_current_state),
            None => None,
        };
        (min_remaining, max_remaining)
    }

    /// Runs the escaper to its end and gathers what it hands out.
    pub fn collect_string(self) -> (text: String)
        ensures
            text@ == self@,
    {
        let mut escaper = self;
        let mut text = String::new();
        loop
            invariant
                text@ + escaper@ == self@,
            ensures
                text@ == self@,
            decreases escaper@.len(),
        {
            match escaper.next_char() {
                Some(c) => {
                    let ghost before = text@;
                    text.push(c);
                    assert(before.push(c) + escaper@ =~= before + (seq![c] + escaper@));
                },
                None => {
                    assert(text@ + escaper@ =~= text@);
                    break ;
                },
            }
        }
        text
    }
}

/// How many characters the unicode escape of `c` has: six, or twelve for a
/// surrogate pair.
fn unicode_escape_len(c: char) -> (len: u8)
    ensures
        len == unicode_escape_of(c).len(),
        len == 6 || len == 12,
{
    if c <= '\u{ffff}' {
        6
    } else {
        12
    }
}

/// The character at place `index` of the unicode escape of `c`.
fn unicode_escape_at(c: char, index: u8) -> (out: char)
    requires
        index < unicode_escape_of(c).len(),
    ensures
        out == unicode_escape_of(c)[index as int],
{
    if c <= '\u{ffff}' {
        code_unit_escape_at(c as u32 as u16, index)
    } else {
        let (high, low) = surrogates(c);
        if index < 6 {
            code_unit_escape_at(high, index)
        } else {
            code_unit_escape_at(low, index - 6)
        }
    }
}

/// The two UTF-16 code units of a character above U+FFFF.
fn surrogates(c: char) -> (units: (u16, u16))
    requires
        c as int > 0xFFFF,
    ensures
        units.0 == high_surrogate(c),
        units.1 == low_surrogate(c),
        0xD800 <= units.0 <= 0xDBFF,
        0xDC00 <= units.1 <= 0xDFFF,
{
    let offset: u32 = c as u32 - 0x10000;
    assert(offset >> 10 == offset / 0x400 && offset & 0x3ff == offset % 0x400) by (bit_vector);
    let high: u32 = 0xD800 + (offset >> 10);
    let low: u32 = 0xDC00 + (offset & 0x3ff);
    (high as u16, low as u16)
}

/// The character at place `index` of the `\uXXXX` escape of `unit`.
fn code_unit_escape_at(unit: u16, index: u8) -> (out: char)
    requires
        index < 6,
    ensures
        out == unicode_escape(unit as int)[index as int],
{
    if index == 0 {
        '\\'
    } else if index == 1 {
        'u'
    } else {
        let shift: u16 = (5 - index) as u16 * 4;
        let value: u16 = (unit >> shift) & 0xf;
        assert(value < 16 && (shift == 12 ==> value == unit / 0x1000 % 16) && (shift == 8 ==> value
            == unit / 0x100 % 16) && (shift == 4 ==> value == unit / 0x10 % 16) && (shift == 0
            ==> value == unit % 16)) by (bit_vector)
            requires
                value == (unit >> shift) & 0xf,
        ;
        hex_digit_char(value)
    }
}

/// The upper-case hexadecimal digit for `value`.
fn hex_digit_char(value: u16) -> (digit: char)
    requires
        value < 16,
    ensures
        digit == hex_digit(value as int),
{
    if value < 10 {
        (0x30u8 + value as u8) as char
    } else {
        (0x41u8 + (value as u8 - 10)) as char
    }
}

/// `String::push` of std: the character is appended to the end of the string.
pub assume_specification[ String::push ](s: &mut String, ch: char)
    ensures
        final(s)@ == old(s)@.push(ch),
;

/// Whether `policy` lets every character of `s` through as it is.
pub open spec fn passes_unchanged(s: Seq<char>, policy: EscapePolicy) -> bool {
    forall|i: int| 0 <= i < s.len() ==> policy.decision(#[trigger] s[i]) is PrintDirectly
}

/// Whether `policy` lets every character of `s` through as it is.
pub fn is_unchanged_by(s: &str, policy: EscapePolicy) -> (unchanged: bool)
    ensures
        unchanged == passes_unchanged(s@, policy),
{
    let mut rest = s;
    let ghost mut seen: int = 0;
    loop
        invariant
            0 <= seen <= s@.len(),
            rest@ == s@.skip(seen),
            forall|i: int| 0 <= i < seen ==> policy.decision(#[trigger] s@[i]) is PrintDirectly,
        decreases rest@.len(),
    {
        match split_first(rest) {
            None => {
                return true;
            },
            Some((c, tail)) => {
                assert(c == s@[seen]);
                match policy.decide(&c) {
                    EscapeJSONDecision::PrintDirectly() => {},
                    _ => {
                        return false;
                    },
                }
                proof {
                    assert(s@.skip(seen).drop_first() =~= s@.skip(seen + 1));
                    seen = seen + 1;
                }
                rest = tail;
            },
        }
    }
}

/// Escapes `s` under `policy`. A text that the policy leaves as it is comes
/// back borrowed, with nothing allocated; any other comes back as a new
/// string.
pub fn escape_json<'a>(s: &'a str, policy: EscapePolicy) -> (out: Cow<'a, str>)
    ensures
        out@ == escaped(s@, policy),
        passes_unchanged(s@, policy) ==> out == Cow::<'a, str>::Borrowed(s),
        !passes_unchanged(s@, policy) ==> out is Owned,
{
    if is_unchanged_by(s, policy) {
        proof {
            lemma_unchanged_text(s@, policy);
        }
        Cow::Borrowed(s)
    } else {
        Cow::Owned(EscapeJSONString::new_from_str(s, policy).collect_string())
    }
}

/// A text that the policy lets through character by character is its own
/// escaped form.
pub proof fn lemma_unchanged_text(s: Seq<char>, policy: EscapePolicy)
    requires
        passes_unchanged(s, policy),
    ensures
        escaped(s, policy) == s,
    decreases s.len(),
{
    if s.len() > 0 {
        assert(policy.decision(s[0]) is PrintDirectly);
        assert forall|i: int| 0 <= i < s.drop_first().len() implies policy.decision(
            #[trigger] s.drop_first()[i],
        ) is PrintDirectly by {
            assert(s.drop_first()[i] == s[i + 1]);
        }
        lemma_unchanged_text(s.drop_first(), policy);
        assert(seq![s[0]] + s.drop_first() =~= s);
    } else {
        assert(s =~= Seq::<char>::empty());
    }
}

/// Every input character is written as at least one character and at most
/// twelve.
pub proof fn lemma_escape_char_len(c: char, decision: EscapeJSONDecision)
    ensures
        1 <= escape_char(c, decision).len() <= 12,
{
}

/// The escaped form of a text is at least as long as the text and at most
/// twelve times as long.
pub proof fn lemma_escaped_len(s: Seq<char>, policy: EscapePolicy)
    ensures
        s.len() <= escaped(s, policy).len() <= 12 * s.len(),
    decreases s.len(),
{
    if s.len() > 0 {
        lemma_escape_char_len(s[0], policy.decision(s[0]));
        lemma_escaped_len(s.drop_first(), policy);
    }
}

/// Under minimal escaping, a text without quotation mark, reverse solidus and
/// control character comes out as it went in, character for character.
pub proof fn lemma_safe_text_is_unchanged(s: Seq<char>)
    requires
        forall|i: int| 0 <= i < s.len() ==> !needs_escape(#[trigger] s[i]),
    ensures
        escaped(s, EscapePolicy::MinimalEscaping()) == s,
{
    assert forall|i: int| 0 <= i < s.len() implies EscapePolicy::MinimalEscaping().decision(
        #[trigger] s[i],
    ) is PrintDirectly by {
        assert(!needs_escape(s[i]));
    }
    lemma_unchanged_text(s, EscapePolicy::MinimalEscaping());
}

} // verus!
