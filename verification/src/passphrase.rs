use vstd::prelude::*;
use vstd::string::*;
use crate::text::{is_white_space, white_space};

verus! {

/// The passphrase used when the user gives none: the local device key.
pub open spec fn device_passphrase() -> Seq<char> {
    "mukalujauh_local_device_key"@
}

/// `s` is empty or only white space (what `trim` leaves empty).
pub open spec fn is_blank(s: Seq<char>) -> bool {
    forall|i: int| 0 <= i < s.len() ==> #[trigger] white_space(s[i])
}

/// The local device key passphrase.
pub fn device_key_passphrase() -> (p: String)
    ensures
        p@ == device_passphrase(),
{
    String::from_str("mukalujauh_local_device_key")
}

/// A passphrase that came with a request, or else the device key.
pub fn passphrase_or_device_key(given: Option<String>) -> (p: String)
    ensures
        p@ == (match given {
            Some(g) => g@,
            None => device_passphrase(),
        }),
{
    match given {
        Some(g) => g,
        None => device_key_passphrase(),
    }
}

/// The passphrase to use before prompting: the one given on the command
/// line, else the one from the environment; `None` means the user must be
/// asked.
pub fn preset_passphrase(provided: Option<String>, from_environment: Option<String>) -> (p: Option<
    String,
>)
    ensures
        p == (match provided {
            Some(g) => Some(g),
            None => from_environment,
        }),
{
    match provided {
        Some(g) => Some(g),
        None => from_environment,
    }
}

/// Whether `s` is empty or only white space.
pub fn is_blank_text(s: &str) -> (blank: bool)
    ensures
        blank == is_blank(s@),
        blank <==> forall|i: int| 0 <= i < s@.len() ==> #[trigger] white_space(s@[i]),
{
    let mut blank = true;
    for c in it: s.chars()
        invariant
            it.seq() == s@,
            blank == is_blank(s@.take(it.index())),
    {
        proof {
            assert(s@.take(it.index() + 1) == s@.take(it.index()).push(c));
            assert(s@.take(it.index() + 1)[it.index()] == c);
            if !is_blank(s@.take(it.index())) {
                let i: int = choose|i: int|
                    0 <= i < s@.take(it.index()).len() && !white_space(s@.take(it.index())[i]);
                assert(s@.take(it.index() + 1)[i] == s@.take(it.index())[i]);
            }
        }
        if !is_white_space(c) {
            blank = false;
        }
    }
    proof {
        assert(s@.take(s@.len() as int) == s@);
        lemma_blank_is_all_white_space(s@);
    }
    blank
}

/// A text is blank exactly when every one of its characters is Unicode
/// white space; one character that is not (a letter, a digit, a symbol)
/// makes it not blank.
pub proof fn lemma_blank_is_all_white_space(s: Seq<char>)
    ensures
        is_blank(s) <==> forall|i: int| 0 <= i < s.len() ==> #[trigger] white_space(s[i]),
        (exists|i: int| 0 <= i < s.len() && !white_space(#[trigger] s[i])) ==> !is_blank(s),
{
}

/// No ASCII letter, digit or punctuation character is white space.
pub proof fn lemma_visible_ascii_is_not_white_space(c: char)
    requires
        '!' <= c <= '~',
    ensures
        !white_space(c),
{
}

/// What a typed passphrase stands for: the typed text itself, or the
/// device key when nothing but white space was typed.
pub fn typed_passphrase_or_device_key(typed: String) -> (p: String)
    ensures
        p@ == (if is_blank(typed@) {
            device_passphrase()
        } else {
            typed@
        }),
        (exists|i: int| 0 <= i < typed@.len() && !white_space(#[trigger] typed@[i])) ==> p@
            == typed@,
        (forall|i: int| 0 <= i < typed@.len() ==> #[trigger] white_space(typed@[i])) ==> p@
            == device_passphrase(),
{
    if is_blank_text(typed.as_str()) {
        device_key_passphrase()
    } else {
        typed
    }
}

} // verus!
