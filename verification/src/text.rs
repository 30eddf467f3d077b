//! Small operations on text.

use vstd::prelude::*;
use vstd::string::{StringExecFns, StringSliceAdditionalSpecFns};
use vstd::utf8::{
    decode_utf8, encode_utf8, encode_utf8_decode_utf8, encode_utf8_valid_utf8, is_ascii_chars,
    is_ascii_chars_encode_utf8, is_char_boundary, is_char_boundary_iff_not_is_continuation_byte,
};

verus! {

/// What `str::to_lowercase` makes of `text`.
pub uninterp spec fn lowercase_of(text: Seq<char>) -> Seq<char>;

/// Calls `str::to_lowercase`, which maps each character to its lowercase
/// form by the rules of Unicode: a function of the text alone.
#[verifier::external_body]
pub(crate) fn to_lowercase(text: &str) -> (lower: String)
    ensures
        lower@ == lowercase_of(text@),
{
    text.to_lowercase()
}

/// Calls `String::push`, which appends one character.
#[verifier::external_body]
pub(crate) fn push_char(text: &mut String, c: char)
    ensures
        final(text)@ == old(text)@.push(c),
{
    text.push(c);
}

/// Calls `String::pop`, which removes the last character, if there is one.
#[verifier::external_body]
pub(crate) fn pop_char(text: &mut String)
    ensures
        old(text)@.len() > 0 ==> final(text)@ == old(text)@.drop_last(),
        old(text)@.len() == 0 ==> final(text)@ == old(text)@,
{
    text.pop();
}

/// Whether two texts hold the same characters.
pub fn same_text(a: &str, b: &str) -> (same: bool)
    ensures
        same == (a@ == b@),
{
    let left = String::from_str(a);
    let right = String::from_str(b);
    left == right
}

/// `label` followed by `detail`.
pub fn labelled(label: &str, detail: &str) -> (text: String)
    ensures
        text@ == label@ + detail@,
{
    let mut text = String::from_str(label);
    text.append(detail);
    text
}

/// The words in a row, with one space between neighbours.
pub open spec fn joined(words: Seq<String>) -> Seq<char>
    decreases words.len(),
{
    if words.len() == 0 {
        Seq::empty()
    } else if words.len() == 1 {
        words[0]@
    } else {
        joined(words.drop_last()) + " "@ + words.last()@
    }
}

/// Joins the words with single spaces.
pub fn join_words(words: &Vec<String>) -> (text: String)
    ensures
        text@ == joined(words@),
{
    let mut text = String::new();
    let mut i: usize = 0;
    while i < words.len()
        invariant
            i <= words@.len(),
            text@ == joined(words@.take(i as int)),
        decreases words@.len() - i,
    {
        proof {
            assert(words@.take(i + 1).drop_last() == words@.take(i as int));
            assert(words@.take(i + 1).last() == words@[i as int]);
        }
        if i > 0 {
            text.append(" ");
        }
        text.append(words[i].as_str());
        i += 1;
    }
    assert(words@.take(i as int) == words@);
    text
}

/// The length of `text` in bytes.
pub fn byte_len(text: &str) -> (len: usize)
    ensures
        len == encode_utf8(text@).len(),
{
    text.as_bytes().len()
}

/// Whether `text` can be cut to `width` bytes: it fits as it is, or the cut,
/// three bytes short of the width, falls between two characters.
pub open spec fn can_truncate(text: Seq<char>, width: nat) -> bool {
    encode_utf8(text).len() <= width || (width >= 3 && is_char_boundary(
        encode_utf8(text),
        width - 3,
    ))
}

/// `text` cut to `width` bytes: the text itself where it fits, else its first
/// `width - 3` bytes and three dots.
pub open spec fn truncated(text: Seq<char>, width: nat) -> Seq<char> {
    if encode_utf8(text).len() > width {
        decode_utf8(encode_utf8(text).subrange(0, width - 3)) + "..."@
    } else {
        text
    }
}

/// Shortens `text` to `width` bytes, ending in three dots where it was
/// longer.
pub fn truncate(text: &str, width: usize) -> (short: String)
    requires
        can_truncate(text@, width as nat),
    ensures
        short@ == truncated(text@, width as nat),
{
    if byte_len(text) > width {
        let (head, _) = text.split_at(width - 3);
        proof {
            encode_utf8_decode_utf8(head@);
        }
        let mut short = String::from_str(head);
        short.append("...");
        short
    } else {
        String::from_str(text)
    }
}

/// Whether `text` can be cut to `width` bytes.
pub fn fits_or_cuts(text: &str, width: usize) -> (can: bool)
    ensures
        can == can_truncate(text@, width as nat),
{
    byte_len(text) <= width || (width >= 3 && text.is_char_boundary(width - 3))
}

/// A text of ASCII characters can be cut to any width of three or more, and
/// what is left of a longer one is exactly `width` characters long: its first
/// `width - 3` characters and three dots.
pub proof fn lemma_ascii_can_truncate(text: Seq<char>, width: nat)
    requires
        is_ascii_chars(text),
        width >= 3,
    ensures
        can_truncate(text, width),
        text.len() > width ==> truncated(text, width) == text.take(width - 3) + "..."@,
        text.len() <= width ==> truncated(text, width) == text,
{
    let bytes = encode_utf8(text);
    is_ascii_chars_encode_utf8(text);
    encode_utf8_valid_utf8(text);
    if bytes.len() > width {
        let cut = (width - 3) as int;
        assert(text[cut] as u8 == bytes[cut]);
        is_char_boundary_iff_not_is_continuation_byte(bytes, cut);
        let head = text.take(cut);
        assert(is_ascii_chars(head)) by {
            assert forall|i: int| 0 <= i < head.len() implies '\0' <= #[trigger] head[i]
                <= '\u{7f}' by {
                assert(head[i] == text[i]);
            }
        }
        is_ascii_chars_encode_utf8(head);
        assert(encode_utf8(head) =~= bytes.subrange(0, cut)) by {
            assert forall|i: int| 0 <= i < cut implies encode_utf8(head)[i] == bytes.subrange(
                0,
                cut,
            )[i] by {
                assert(head[i] as u8 == encode_utf8(head)[i]);
                assert(text[i] as u8 == bytes[i]);
            }
        }
        encode_utf8_decode_utf8(head);
    }
}

} // verus!
