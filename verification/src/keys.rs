//! The key resolver: named-key table, Unicode fallback, and chord parsing.
//!
//! A caller-supplied token resolves to exactly one key representation or
//! resolution fails; there is no silent best-effort mapping. Named keys are
//! matched by their exact lowercase spellings (no case folding is applied
//! here); alphanumeric characters additionally resolve to named codes on the
//! Windows platform family and fall through to the Unicode path elsewhere,
//! a capability difference this module exposes rather than hides. A chord
//! string holds at most one modifier before a single `+`; anything past a
//! second `+` is ignored, a preserved limitation of the chord grammar.

use vstd::prelude::*;

use crate::errors::Error;
use crate::text::str_eq;

verus! {

/// The platform families whose named-key tables differ.
///
/// Only the Windows family names its alphanumeric keys; every other family
/// reaches letters and digits through the Unicode fallback.
#[derive(Clone, Copy, Debug, PartialEq, Eq, Structural)]
pub enum Platform {
    /// The platform family whose table names alphanumeric keys.
    Windows,
    /// Every other platform family.
    Other,
}

/// A platform-recognized symbolic key.
///
/// The alphanumeric variants (`Num0` to `Num9`, `A` to `Z`) are reachable
/// only through the Windows table; the rest are recognized everywhere.
#[derive(Clone, Copy, Debug, PartialEq, Eq, Structural)]
pub enum NamedKey {
    Num0,
    Num1,
    Num2,
    Num3,
    Num4,
    Num5,
    Num6,
    Num7,
    Num8,
    Num9,
    A,
    B,
    C,
    D,
    E,
    F,
    G,
    H,
    I,
    J,
    K,
    L,
    M,
    N,
    O,
    P,
    Q,
    R,
    S,
    T,
    U,
    V,
    W,
    X,
    Y,
    Z,
    Alt,
    Backspace,
    CapsLock,
    Control,
    Delete,
    DownArrow,
    End,
    Escape,
    F1,
    F2,
    F3,
    F4,
    F5,
    F6,
    F7,
    F8,
    F9,
    F10,
    F11,
    F12,
    Home,
    LeftArrow,
    Meta,
    OptionKey,
    PageDown,
    PageUp,
    Return,
    RightArrow,
    Shift,
    Space,
    Tab,
    UpArrow,
}

/// A key token: a named key, or a single Unicode codepoint as fallback.
#[derive(Clone, Copy, Debug, PartialEq, Eq, Structural)]
pub enum KeyToken {
    /// A key the platform's named table recognizes.
    Named(NamedKey),
    /// A single-codepoint key outside the named table.
    Unicode(char),
}

/// The named key an alphanumeric spelling denotes on the Windows family:
/// a digit, or a letter in either case.
pub open spec fn alnum_named_key_of(s: Seq<char>) -> Option<NamedKey> {
    if s == "0"@ {
        Some(NamedKey::Num0)
    } else if s == "1"@ {
        Some(NamedKey::Num1)
    } else if s == "2"@ {
        Some(NamedKey::Num2)
    } else if s == "3"@ {
        Some(NamedKey::Num3)
    } else if s == "4"@ {
        Some(NamedKey::Num4)
    } else if s == "5"@ {
        Some(NamedKey::Num5)
    } else if s == "6"@ {
        Some(NamedKey::Num6)
    } else if s == "7"@ {
        Some(NamedKey::Num7)
    } else if s == "8"@ {
        Some(NamedKey::Num8)
    } else if s == "9"@ {
        Some(NamedKey::Num9)
    } else if s == "a"@ || s == "A"@ {
        Some(NamedKey::A)
    } else if s == "b"@ || s == "B"@ {
        Some(NamedKey::B)
    } else if s == "c"@ || s == "C"@ {
        Some(NamedKey::C)
    } else if s == "d"@ || s == "D"@ {
        Some(NamedKey::D)
    } else if s == "e"@ || s == "E"@ {
        Some(NamedKey::E)
    } else if s == "f"@ || s == "F"@ {
        Some(NamedKey::F)
    } else if s == "g"@ || s == "G"@ {
        Some(NamedKey::G)
    } else if s == "h"@ || s == "H"@ {
        Some(NamedKey::H)
    } else if s == "i"@ || s == "I"@ {
        Some(NamedKey::I)
    } else if s == "j"@ || s == "J"@ {
        Some(NamedKey::J)
    } else if s == "k"@ || s == "K"@ {
        Some(NamedKey::K)
    } else if s == "l"@ || s == "L"@ {
        Some(NamedKey::L)
    } else if s == "m"@ || s == "M"@ {
        Some(NamedKey::M)
    } else if s == "n"@ || s == "N"@ {
        Some(NamedKey::N)
    } else if s == "o"@ || s == "O"@ {
        Some(NamedKey::O)
    } else if s == "p"@ || s == "P"@ {
        Some(NamedKey::P)
    } else if s == "q"@ || s == "Q"@ {
        Some(NamedKey::Q)
    } else if s == "r"@ || s == "R"@ {
        Some(NamedKey::R)
    } else if s == "s"@ || s == "S"@ {
        Some(NamedKey::S)
    } else if s == "t"@ || s == "T"@ {
        Some(NamedKey::T)
    } else if s == "u"@ || s == "U"@ {
        Some(NamedKey::U)
    } else if s == "v"@ || s == "V"@ {
        Some(NamedKey::V)
    } else if s == "w"@ || s == "W"@ {
        Some(NamedKey::W)
    } else if s == "x"@ || s == "X"@ {
        Some(NamedKey::X)
    } else if s == "y"@ || s == "Y"@ {
        Some(NamedKey::Y)
    } else if s == "z"@ || s == "Z"@ {
        Some(NamedKey::Z)
    } else {
        None
    }
}

/// The named key a spelling denotes on every platform family.
pub open spec fn common_named_key_of(s: Seq<char>) -> Option<NamedKey> {
    if s == "alt"@ {
        Some(NamedKey::Alt)
    } else if s == "backspace"@ {
        Some(NamedKey::Backspace)
    } else if s == "capslock"@ {
        Some(NamedKey::CapsLock)
    } else if s == "control"@ || s == "ctrl"@ {
        Some(NamedKey::Control)
    } else if s == "delete"@ {
        Some(NamedKey::Delete)
    } else if s == "downarrow"@ || s == "down"@ {
        Some(NamedKey::DownArrow)
    } else if s == "end"@ {
        Some(NamedKey::End)
    } else if s == "escape"@ || s == "esc"@ {
        Some(NamedKey::Escape)
    } else if s == "f1"@ {
        Some(NamedKey::F1)
    } else if s == "f2"@ {
        Some(NamedKey::F2)
    } else if s == "f3"@ {
        Some(NamedKey::F3)
    } else if s == "f4"@ {
        Some(NamedKey::F4)
    } else if s == "f5"@ {
        Some(NamedKey::F5)
    } else if s == "f6"@ {
        Some(NamedKey::F6)
    } else if s == "f7"@ {
        Some(NamedKey::F7)
    } else if s == "f8"@ {
        Some(NamedKey::F8)
    } else if s == "f9"@ {
        Some(NamedKey::F9)
    } else if s == "f10"@ {
        Some(NamedKey::F10)
    } else if s == "f11"@ {
        Some(NamedKey::F11)
    } else if s == "f12"@ {
        Some(NamedKey::F12)
    } else if s == "home"@ {
        Some(NamedKey::Home)
    } else if s == "leftarrow"@ || s == "left"@ {
        Some(NamedKey::LeftArrow)
    } else if s == "meta"@ || s == "command"@ || s == "windows"@ || s == "super"@ {
        Some(NamedKey::Meta)
    } else if s == "option"@ {
        Some(NamedKey::OptionKey)
    } else if s == "pagedown"@ {
        Some(NamedKey::PageDown)
    } else if s == "pageup"@ {
        Some(NamedKey::PageUp)
    } else if s == "return"@ || s == "enter"@ {
        Some(NamedKey::Return)
    } else if s == "rightarrow"@ || s == "right"@ {
        Some(NamedKey::RightArrow)
    } else if s == "shift"@ {
        Some(NamedKey::Shift)
    } else if s == "space"@ {
        Some(NamedKey::Space)
    } else if s == "tab"@ {
        Some(NamedKey::Tab)
    } else if s == "uparrow"@ || s == "up"@ {
        Some(NamedKey::UpArrow)
    } else {
        None
    }
}

/// The named key a spelling denotes on the given platform family.
pub open spec fn named_key_of(s: Seq<char>, p: Platform) -> Option<NamedKey> {
    if p is Windows && alnum_named_key_of(s) is Some {
        alnum_named_key_of(s)
    } else {
        common_named_key_of(s)
    }
}

/// The token a spelling resolves to: its named key where the platform's
/// table has one, else the single codepoint itself, else nothing.
pub open spec fn token_of(s: Seq<char>, p: Platform) -> Option<KeyToken> {
    match named_key_of(s, p) {
        Some(k) => Some(KeyToken::Named(k)),
        None => if s.len() == 1 {
            Some(KeyToken::Unicode(s[0]))
        } else {
            None
        },
    }
}

/// Law: a token of exactly one codepoint always resolves, on every platform
/// family — the Unicode fallback never rejects a single character.
pub proof fn lemma_unicode_fallback(s: Seq<char>, p: Platform)
    requires
        s.len() == 1,
    ensures
        token_of(s, p) is Some,
{
}

/// Looks the token up in the Windows-only alphanumeric table.
fn resolve_alnum(name: &str) -> (r: Option<NamedKey>)
    ensures
        r == alnum_named_key_of(name@),
{
    if str_eq(name, "0") {
        return Some(NamedKey::Num0);
    }
    if str_eq(name, "1") {
        return Some(NamedKey::Num1);
    }
    if str_eq(name, "2") {
        return Some(NamedKey::Num2);
    }
    if str_eq(name, "3") {
        return Some(NamedKey::Num3);
    }
    if str_eq(name, "4") {
        return Some(NamedKey::Num4);
    }
    if str_eq(name, "5") {
        return Some(NamedKey::Num5);
    }
    if str_eq(name, "6") {
        return Some(NamedKey::Num6);
    }
    if str_eq(name, "7") {
        return Some(NamedKey::Num7);
    }
    if str_eq(name, "8") {
        return Some(NamedKey::Num8);
    }
    if str_eq(name, "9") {
        return Some(NamedKey::Num9);
    }
    if str_eq(name, "a") || str_eq(name, "A") {
        return Some(NamedKey::A);
    }
    if str_eq(name, "b") || str_eq(name, "B") {
        return Some(NamedKey::B);
    }
    if str_eq(name, "c") || str_eq(name, "C") {
        return Some(NamedKey::C);
    }
    if str_eq(name, "d") || str_eq(name, "D") {
        return Some(NamedKey::D);
    }
    if str_eq(name, "e") || str_eq(name, "E") {
        return Some(NamedKey::E);
    }
    if str_eq(name, "f") || str_eq(name, "F") {
        return Some(NamedKey::F);
    }
    if str_eq(name, "g") || str_eq(name, "G") {
        return Some(NamedKey::G);
    }
    if str_eq(name, "h") || str_eq(name, "H") {
        return Some(NamedKey::H);
    }
    if str_eq(name, "i") || str_eq(name, "I") {
        return Some(NamedKey::I);
    }
    if str_eq(name, "j") || str_eq(name, "J") {
        return Some(NamedKey::J);
    }
    if str_eq(name, "k") || str_eq(name, "K") {
        return Some(NamedKey::K);
    }
    if str_eq(name, "l") || str_eq(name, "L") {
        return Some(NamedKey::L);
    }
    if str_eq(name, "m") || str_eq(name, "M") {
        return Some(NamedKey::M);
    }
    if str_eq(name, "n") || str_eq(name, "N") {
        return Some(NamedKey::N);
    }
    if str_eq(name, "o") || str_eq(name, "O") {
        return Some(NamedKey::O);
    }
    if str_eq(name, "p") || str_eq(name, "P") {
        return Some(NamedKey::P);
    }
    if str_eq(name, "q") || str_eq(name, "Q") {
        return Some(NamedKey::Q);
    }
    if str_eq(name, "r") || str_eq(name, "R") {
        return Some(NamedKey::R);
    }
    if str_eq(name, "s") || str_eq(name, "S") {
        return Some(NamedKey::S);
    }
    if str_eq(name, "t") || str_eq(name, "T") {
        return Some(NamedKey::T);
    }
    if str_eq(name, "u") || str_eq(name, "U") {
        return Some(NamedKey::U);
    }
    if str_eq(name, "v") || str_eq(name, "V") {
        return Some(NamedKey::V);
    }
    if str_eq(name, "w") || str_eq(name, "W") {
        return Some(NamedKey::W);
    }
    if str_eq(name, "x") || str_eq(name, "X") {
        return Some(NamedKey::X);
    }
    if str_eq(name, "y") || str_eq(name, "Y") {
        return Some(NamedKey::Y);
    }
    if str_eq(name, "z") || str_eq(name, "Z") {
        return Some(NamedKey::Z);
    }
    None
}

/// Looks the token up in the table shared by every platform family.
fn resolve_common(name: &str) -> (r: Option<NamedKey>)
    ensures
        r == common_named_key_of(name@),
{
    if str_eq(name, "alt") {
        return Some(NamedKey::Alt);
    }
    if str_eq(name, "backspace") {
        return Some(NamedKey::Backspace);
    }
    if str_eq(name, "capslock") {
        return Some(NamedKey::CapsLock);
    }
    if str_eq(name, "control") || str_eq(name, "ctrl") {
        return Some(NamedKey::Control);
    }
    if str_eq(name, "delete") {
        return Some(NamedKey::Delete);
    }
    if str_eq(name, "downarrow") || str_eq(name, "down") {
        return Some(NamedKey::DownArrow);
    }
    if str_eq(name, "end") {
        return Some(NamedKey::End);
    }
    if str_eq(name, "escape") || str_eq(name, "esc") {
        return Some(NamedKey::Escape);
    }
    if str_eq(name, "f1") {
        return Some(NamedKey::F1);
    }
    if str_eq(name, "f2") {
        return Some(NamedKey::F2);
    }
    if str_eq(name, "f3") {
        return Some(NamedKey::F3);
    }
    if str_eq(name, "f4") {
        return Some(NamedKey::F4);
    }
    if str_eq(name, "f5") {
        return Some(NamedKey::F5);
    }
    if str_eq(name, "f6") {
        return Some(NamedKey::F6);
    }
    if str_eq(name, "f7") {
        return Some(NamedKey::F7);
    }
    if str_eq(name, "f8") {
        return Some(NamedKey::F8);
    }
    if str_eq(name, "f9") {
        return Some(NamedKey::F9);
    }
    if str_eq(name, "f10") {
        return Some(NamedKey::F10);
    }
    if str_eq(name, "f11") {
        return Some(NamedKey::F11);
    }
    if str_eq(name, "f12") {
        return Some(NamedKey::F12);
    }
    if str_eq(name, "home") {
        return Some(NamedKey::Home);
    }
    if str_eq(name, "leftarrow") || str_eq(name, "left") {
        return Some(NamedKey::LeftArrow);
    }
    if str_eq(name, "meta") || str_eq(name, "command") || str_eq(name, "windows") || str_eq(name, "super") {
        return Some(NamedKey::Meta);
    }
    if str_eq(name, "option") {
        return Some(NamedKey::OptionKey);
    }
    if str_eq(name, "pagedown") {
        return Some(NamedKey::PageDown);
    }
    if str_eq(name, "pageup") {
        return Some(NamedKey::PageUp);
    }
    if str_eq(name, "return") || str_eq(name, "enter") {
        return Some(NamedKey::Return);
    }
    if str_eq(name, "rightarrow") || str_eq(name, "right") {
        return Some(NamedKey::RightArrow);
    }
    if str_eq(name, "shift") {
        return Some(NamedKey::Shift);
    }
    if str_eq(name, "space") {
        return Some(NamedKey::Space);
    }
    if str_eq(name, "tab") {
        return Some(NamedKey::Tab);
    }
    if str_eq(name, "uparrow") || str_eq(name, "up") {
        return Some(NamedKey::UpArrow);
    }
    None
}

/// Looks the token up in the given platform family's named-key table.
pub fn resolve_named(name: &str, platform: Platform) -> (r: Option<NamedKey>)
    ensures
        r == named_key_of(name@, platform),
{
    match platform {
        Platform::Windows => {
            let alnum = resolve_alnum(name);
            if alnum.is_some() {
                return alnum;
            }
            resolve_common(name)
        },
        Platform::Other => resolve_common(name),
    }
}

/// Resolves one token: named key first, then the single-codepoint fallback;
/// anything else fails with `UnknownKey` carrying the token.
pub fn resolve_token(name: &str, platform: Platform) -> (r: Result<KeyToken, Error>)
    ensures
        r is Ok <==> token_of(name@, platform) is Some,
        r matches Ok(t) ==> token_of(name@, platform) == Some(t),
        r matches Err(e) ==> e matches Error::UnknownKey(t) && t@ == name@,
{
    match resolve_named(name, platform) {
        Some(k) => Ok(KeyToken::Named(k)),
        None => {
            if name.unicode_len() == 1 {
                Ok(KeyToken::Unicode(name.get_char(0)))
            } else {
                Err(Error::UnknownKey(name.to_owned()))
            }
        },
    }
}

/// The position of the first `+` at or past `from`, or the length of the
/// sequence where none follows.
pub open spec fn plus_index_from(s: Seq<char>, from: int) -> int
    decreases s.len() - from when 0 <= from <= s.len()
{
    if from >= s.len() {
        s.len() as int
    } else if s[from] == '+' {
        from
    } else {
        plus_index_from(s, from + 1)
    }
}

/// The position past which no `+` stands is exactly where the scan for one
/// ends.
proof fn lemma_plus_index_from_is(s: Seq<char>, from: int, idx: int)
    requires
        0 <= from <= idx <= s.len(),
        forall|k: int| from <= k < idx ==> s[k] != '+',
        idx < s.len() ==> s[idx] == '+',
    ensures
        plus_index_from(s, from) == idx,
    decreases idx - from,
{
    if from < idx {
        lemma_plus_index_from_is(s, from + 1, idx);
    }
}

/// How an input string splits into chord tokens: no `+` leaves the whole
/// string as the key with no modifier; otherwise the modifier is everything
/// before the first `+` and the key is everything between the first `+` and
/// the next one or the end. A third segment is ignored, a preserved
/// limitation: multi-modifier chords are out of this design's scope.
pub open spec fn spec_parse_chord(s: Seq<char>) -> (Option<Seq<char>>, Seq<char>) {
    let i = plus_index_from(s, 0);
    if i == s.len() {
        (None, s)
    } else {
        let j = plus_index_from(s, i + 1);
        (Some(s.subrange(0, i)), s.subrange(i + 1, j))
    }
}

/// Finds the first `+` at or past `from`, or the character length where none
/// follows.
fn find_plus(s: &str, from: usize) -> (r: usize)
    requires
        from <= s@.len(),
    ensures
        from <= r <= s@.len(),
        r == plus_index_from(s@, from as int),
{
    let len = s.unicode_len();
    let mut i: usize = from;
    while i < len
        invariant
            from <= i <= len,
            len == s@.len(),
            forall|k: int| from <= k < i ==> s@[k] != '+',
        decreases len - i,
    {
        if s.get_char(i) == '+' {
            proof {
                lemma_plus_index_from_is(s@, from as int, i as int);
            }
            return i;
        }
        i = i + 1;
    }
    proof {
        lemma_plus_index_from_is(s@, from as int, len as int);
    }
    len
}

/// Splits a chord string on its first `+` into an optional modifier token
/// and a key token, both spelled as the caller wrote them.
pub fn parse_chord(input: &str) -> (r: (Option<String>, String))
    ensures
        ({
            let (sm, sk) = spec_parse_chord(input@);
            &&& r.1@ == sk
            &&& match (r.0, sm) {
                (Some(m), Some(s)) => m@ == s,
                (None, None) => true,
                _ => false,
            }
        }),
{
    let len = input.unicode_len();
    let i = find_plus(input, 0);
    if i == len {
        (None, input.to_owned())
    } else {
        let modifier = input.substring_char(0, i).to_owned();
        let j = find_plus(input, i + 1);
        let key = input.substring_char(i + 1, j).to_owned();
        (Some(modifier), key)
    }
}

/// An ordered chord: at most one modifier held around a single key.
#[derive(Clone, Copy, Debug, PartialEq, Eq)]
pub struct KeyChord {
    /// The modifier held while the key is struck, if the chord names one.
    pub modifier: Option<KeyToken>,
    /// The key the chord strikes.
    pub key: KeyToken,
}

/// The chord a string denotes: both split tokens must resolve.
pub open spec fn chord_of(s: Seq<char>, p: Platform) -> Option<KeyChord> {
    let (sm, sk) = spec_parse_chord(s);
    match sm {
        None => match token_of(sk, p) {
            Some(t) => Some(KeyChord { modifier: None, key: t }),
            None => None,
        },
        Some(ms) => match (token_of(ms, p), token_of(sk, p)) {
            (Some(mt), Some(kt)) => Some(KeyChord { modifier: Some(mt), key: kt }),
            _ => None,
        },
    }
}

/// The token whose resolution fails first for a string that denotes no
/// chord: the modifier where the split names one that does not resolve,
/// else the key.
pub open spec fn failing_token(s: Seq<char>, p: Platform) -> Seq<char> {
    let (sm, sk) = spec_parse_chord(s);
    if sm is Some && token_of(sm->0, p) is None {
        sm->0
    } else {
        sk
    }
}

/// Parses and resolves a chord string: the modifier token is resolved
/// first, then the key token; the first token that resolves to nothing
/// fails the whole chord with `UnknownKey` carrying that token.
pub fn resolve_chord(input: &str, platform: Platform) -> (r: Result<KeyChord, Error>)
    ensures
        r is Ok <==> chord_of(input@, platform) is Some,
        r matches Ok(c) ==> chord_of(input@, platform) == Some(c),
        r matches Err(e) ==> e matches Error::UnknownKey(t) && t@ == failing_token(
            input@,
            platform,
        ),
{
    let (modifier, key) = parse_chord(input);
    match modifier {
        None => {
            let kt = resolve_token(key.as_str(), platform)?;
            Ok(KeyChord { modifier: None, key: kt })
        },
        Some(m) => {
            let mt = resolve_token(m.as_str(), platform)?;
            let kt = resolve_token(key.as_str(), platform)?;
            Ok(KeyChord { modifier: Some(mt), key: kt })
        },
    }
}

} // verus!
