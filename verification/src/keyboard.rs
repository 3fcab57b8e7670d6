//! Which code-styled text is shown as a keyboard key.

use vstd::prelude::*;
use vstd::string::*;

verus! {

/// What `str::to_lowercase` makes of `s`.
pub uninterp spec fn lowercase(s: Seq<char>) -> Seq<char>;

/// Lower-cases `s` with `str::to_lowercase`, which maps every character by the
/// Unicode lower-case rules. The contract gives that result its name and
/// claims nothing else of it.
#[verifier::external_body]
fn to_lowercase(s: &str) -> (r: String)
    ensures
        r@ == lowercase(s@),
{
    s.to_lowercase()
}

/// `key` is the lower-case name of a key: a modifier, a navigation or editing
/// key, one of F1 to F12, a lock key, the menu key or pause.
pub open spec fn is_named_key(key: Seq<char>) -> bool {
    ||| key == "ctrl"@
    ||| key == "shift"@
    ||| key == "alt"@
    ||| key == "meta"@
    ||| key == "escape"@
    ||| key == "tab"@
    ||| key == "capslock"@
    ||| key == "enter"@
    ||| key == "backspace"@
    ||| key == "space"@
    ||| key == "arrowup"@
    ||| key == "arrowdown"@
    ||| key == "arrowleft"@
    ||| key == "arrowright"@
    ||| key == "insert"@
    ||| key == "delete"@
    ||| key == "home"@
    ||| key == "end"@
    ||| key == "pageup"@
    ||| key == "pagedown"@
    ||| key == "f1"@
    ||| key == "f2"@
    ||| key == "f3"@
    ||| key == "f4"@
    ||| key == "f5"@
    ||| key == "f6"@
    ||| key == "f7"@
    ||| key == "f8"@
    ||| key == "f9"@
    ||| key == "f10"@
    ||| key == "f11"@
    ||| key == "f12"@
    ||| key == "contextmenu"@
    ||| key == "numlock"@
    ||| key == "scrolllock"@
    ||| key == "pause"@
}

/// Code-styled text is a keyboard key when it is a single character, or when
/// its lower-case form is the name of a key. Text that is not code-styled
/// never is.
pub open spec fn is_keyboard_text(plain_text: Seq<char>, is_code: bool) -> bool {
    is_code && (plain_text.len() == 1 || is_named_key(lowercase(plain_text)))
}

/// `a` and `b` hold the same text.
fn same(a: &String, b: &str) -> (r: bool)
    ensures
        r == (a@ == b@),
{
    let other = String::from_str(b);
    *a == other
}

/// Tells whether `key`, already in lower case, names a key.
pub fn names_key(key: &str) -> (r: bool)
    ensures
        r == is_named_key(key@),
{
    let k = String::from_str(key);
    same(&k, "ctrl") || same(&k, "shift") || same(&k, "alt") || same(&k, "meta") || same(
        &k,
        "escape",
    ) || same(&k, "tab") || same(&k, "capslock") || same(&k, "enter") || same(&k, "backspace")
        || same(&k, "space") || same(&k, "arrowup") || same(&k, "arrowdown") || same(
        &k,
        "arrowleft",
    ) || same(&k, "arrowright") || same(&k, "insert") || same(&k, "delete") || same(&k, "home")
        || same(&k, "end") || same(&k, "pageup") || same(&k, "pagedown") || same(&k, "f1") || same(
        &k,
        "f2",
    ) || same(&k, "f3") || same(&k, "f4") || same(&k, "f5") || same(&k, "f6") || same(&k, "f7")
        || same(&k, "f8") || same(&k, "f9") || same(&k, "f10") || same(&k, "f11") || same(
        &k,
        "f12",
    ) || same(&k, "contextmenu") || same(&k, "numlock") || same(&k, "scrolllock") || same(
        &k,
        "pause",
    )
}

/// Tells whether `plain_text`, code-styled or not as `is_code` says, is shown
/// as a keyboard key.
pub fn is_kbd(plain_text: &str, is_code: bool) -> (r: bool)
    ensures
        r == is_keyboard_text(plain_text@, is_code),
{
    if !is_code {
        return false;
    }
    if plain_text.unicode_len() == 1 {
        return true;
    }
    let lowered = to_lowercase(plain_text);
    names_key(lowered.as_str())
}

} // verus!
