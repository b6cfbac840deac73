use vstd::prelude::*;
use vstd::string::StringExecFns;
use vstd::utf8::{encode_utf8, is_ascii_chars, is_ascii_chars_encode_utf8};

verus! {

/// Number of bytes that the UTF-8 encoding of `text` takes: what `String::len` reports.
pub open spec fn utf8_len(text: Seq<char>) -> nat {
    encode_utf8(text).len()
}

/// The text that `change_mutable` appends.
pub open spec fn world_suffix() -> Seq<char> {
    ", world"@
}

/// Builds a fresh owned string holding `"yours"` and moves it out to the caller.
pub fn gives_ownership() -> (r: String)
    ensures
        r@ == "yours"@,
{
    let some_string = String::from_str("yours");
    some_string
}

/// Takes ownership of `a_string` and moves the very same value back out.
pub fn takes_and_gives_back(a_string: String) -> (r: String)
    ensures
        r == a_string,
{
    a_string
}

/// Byte length of the string behind a shared borrow.
fn byte_len(s: &String) -> (length: usize)
    ensures
        length == #[verifier::truncate] (utf8_len(s@) as usize),
        is_ascii_chars(s@) ==> length == #[verifier::truncate] (s@.len() as usize),
{
    proof {
        if is_ascii_chars(s@) {
            is_ascii_chars_encode_utf8(s@);
        }
    }
    s.as_str().len()
}

/// Takes ownership of `s`, measures it, and hands the string back together with its
/// byte length.
pub fn calculate_length(s: String) -> (r: (String, usize))
    ensures
        r.0 == s,
        r.1 == #[verifier::truncate] (utf8_len(s@) as usize),
        is_ascii_chars(s@) ==> r.1 == #[verifier::truncate] (s@.len() as usize),
{
    let length = byte_len(&s);
    (s, length)
}

/// Measures a borrowed string without taking ownership: the byte length of `s`.
pub fn calculate_length_2(s: &String) -> (length: usize)
    ensures
        length == #[verifier::truncate] (utf8_len(s@) as usize),
        is_ascii_chars(s@) ==> length == #[verifier::truncate] (s@.len() as usize),
{
    byte_len(s)
}

/// Receives a shared borrow, through which the string cannot be modified.
pub fn change(some_string: &String) {
}

/// Appends `", world"` to the string behind an exclusive borrow.
pub fn change_mutable(some_string: &mut String)
    ensures
        final(some_string)@ == old(some_string)@ + world_suffix(),
{
    some_string.append(", world");
}

/// Returns an owned string holding `"hello"` instead of a borrow of a local that
/// would not outlive the call.
pub fn dangle() -> (r: String)
    ensures
        r@ == "hello"@,
{
    let s = String::from_str("hello");
    s
}

} // verus!
