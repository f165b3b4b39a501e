//! The rules of the software keyboard: which input it refuses, and what a
//! finished dialogue yields.

use crate::constant::INVALID_CHARS;
use vstd::prelude::*;
use vstd::string::StrSliceExecFns;

verus! {

/// The button that closed the keyboard.
#[derive(Clone, Copy, Debug, PartialEq, Eq)]
pub enum KeyboardButton {
    Left,
    Middle,
    Right,
}

/// `c` may not stand in a file name.
pub open spec fn is_invalid_char(c: char) -> bool {
    INVALID_CHARS@.contains(c)
}

/// Some character of `text` may not stand in a file name.
pub open spec fn has_invalid_char(text: Seq<char>) -> bool {
    exists|i: int| 0 <= i < text.len() && is_invalid_char(#[trigger] text[i])
}

/// Whether `c` may not stand in a file name.
pub fn invalid_char(c: char) -> (invalid: bool)
    ensures
        invalid == is_invalid_char(c),
{
    let mut k: usize = 0;
    while k < 10
        invariant
            k <= 10,
            forall|j: int| 0 <= j < k ==> INVALID_CHARS@[j] != c,
        decreases 10 - k,
    {
        if INVALID_CHARS[k] == c {
            return true;
        }
        k = k + 1;
    }
    false
}

/// The keyboard's input filter: whether the typed text holds a character
/// that a file name may not hold, so that the user is asked to type again.
pub fn contains_invalid_char(text: &str) -> (refused: bool)
    ensures
        refused == has_invalid_char(text@),
{
    let n = text.unicode_len();
    let mut i: usize = 0;
    while i < n
        invariant
            i <= n,
            n == text@.len(),
            forall|j: int| 0 <= j < i ==> !is_invalid_char(#[trigger] text@[j]),
        decreases n - i,
    {
        if invalid_char(text.get_char(i)) {
            return true;
        }
        i = i + 1;
    }
    false
}

/// What a closed keyboard yields: the text, where the right button accepted
/// it and it is not empty; nothing otherwise.
pub fn keyboard_result(button: KeyboardButton, text: String) -> (input: Option<String>)
    ensures
        input == if button == KeyboardButton::Right && text@.len() > 0 {
            Some(text)
        } else {
            None
        },
{
    match button {
        KeyboardButton::Right => {
            if text.as_str().unicode_len() == 0 {
                None
            } else {
                Some(text)
            }
        },
        KeyboardButton::Left => None,
        KeyboardButton::Middle => None,
    }
}

} // verus!
