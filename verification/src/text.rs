//! Short texts in a fixed-capacity buffer: command lines and name filters.

use arrayvec::ArrayString;
use vstd::prelude::*;
use vstd::utf8::encode_utf8;

verus! {

/// Capacity of a text buffer in bytes of UTF-8.
pub const TEXT_CAPACITY: usize = 50;

/// arrayvec's fixed-capacity string, opaque to the verifier.
#[verifier::external_type_specification]
#[verifier::external_body]
pub struct ExArrayString<const CAP: usize>(ArrayString<CAP>);

/// The characters that a text buffer holds.
pub uninterp spec fn text_chars(text: ArrayString<50>) -> Seq<char>;

/// Whether a sequence of characters fits a text buffer.
pub open spec fn fits_text(chars: Seq<char>) -> bool {
    encode_utf8(chars).len() <= TEXT_CAPACITY
}

/// Calls `ArrayString::new`. Trusted: the new buffer is empty.
#[verifier::external_body]
pub(crate) fn text_new() -> (text: ArrayString<50>)
    ensures
        text_chars(text) == Seq::<char>::empty(),
{
    ArrayString::new()
}

/// Calls `ArrayString::clear`. Trusted: the buffer is empty afterwards.
#[verifier::external_body]
pub(crate) fn text_clear(text: &mut ArrayString<50>)
    ensures
        text_chars(*final(text)) == Seq::<char>::empty(),
{
    text.clear();
}

/// Calls `ArrayString::try_push`. Trusted: the character is appended where
/// its UTF-8 encoding still fits the capacity, and the buffer stays as it
/// was where it does not; the result says which.
#[verifier::external_body]
pub(crate) fn text_try_push(text: &mut ArrayString<50>, c: char) -> (pushed: bool)
    ensures
        pushed == fits_text(text_chars(*old(text)).push(c)),
        text_chars(*final(text)) == if pushed {
            text_chars(*old(text)).push(c)
        } else {
            text_chars(*old(text))
        },
{
    text.try_push(c).is_ok()
}

/// Calls `ArrayString::try_push_str`. Trusted: the string is appended where
/// its bytes still fit the capacity, and the buffer stays as it was where
/// they do not; the result says which.
#[verifier::external_body]
pub(crate) fn text_try_push_str(text: &mut ArrayString<50>, s: &str) -> (pushed: bool)
    ensures
        pushed == fits_text(text_chars(*old(text)) + s@),
        text_chars(*final(text)) == if pushed {
            text_chars(*old(text)) + s@
        } else {
            text_chars(*old(text))
        },
{
    text.try_push_str(s).is_ok()
}

/// Calls `ArrayString::pop`. Trusted: the last character leaves the buffer
/// and is returned; an empty buffer stays empty and gives nothing.
#[verifier::external_body]
pub(crate) fn text_pop(text: &mut ArrayString<50>) -> (last: Option<char>)
    ensures
        text_chars(*old(text)).len() == 0 ==> last is None && text_chars(*final(text))
            == text_chars(*old(text)),
        text_chars(*old(text)).len() > 0 ==> last == Some(text_chars(*old(text)).last())
            && text_chars(*final(text)) == text_chars(*old(text)).drop_last(),
{
    text.pop()
}

/// Calls `ArrayString::as_str`. Trusted: the slice holds the buffer's
/// characters.
#[verifier::external_body]
pub(crate) fn text_as_str(text: &ArrayString<50>) -> (s: &str)
    ensures
        s@ == text_chars(*text),
{
    text.as_str()
}

/// Calls `ArrayString::clone`. Trusted: the copy holds the same characters.
#[verifier::external_body]
pub(crate) fn text_copy(text: &ArrayString<50>) -> (copy: ArrayString<50>)
    ensures
        text_chars(copy) == text_chars(*text),
{
    text.clone()
}

} // verus!
