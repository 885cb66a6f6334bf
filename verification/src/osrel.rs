//! The display label in an OS-release section.
//!
//! The section is a text of lines `KEY=value`. The label is the value of the
//! first line that starts with `PRETTY_NAME=`, without the quotes around it.

use vstd::prelude::*;
use vstd::utf8::valid_utf8;
use crate::text::is_utf8;
use crate::text::to_vec;

verus! {

/// The bytes of `PRETTY_NAME=`.
pub open spec fn pretty_key() -> Seq<u8> {
    seq![0x50u8, 0x52u8, 0x45u8, 0x54u8, 0x54u8, 0x59u8, 0x5fu8, 0x4eu8, 0x41u8, 0x4du8, 0x45u8, 0x3du8]
}

/// Whether a line starts at index `i` of `text`.
pub open spec fn line_starts_at(text: Seq<u8>, i: int) -> bool {
    0 <= i <= text.len() && (i == 0 || text[i - 1] == 0x0au8)
}

/// Whether a line that starts with `PRETTY_NAME=` starts at index `i`.
pub open spec fn pretty_line_at(text: Seq<u8>, i: int) -> bool {
    &&& line_starts_at(text, i)
    &&& i + 12 <= text.len()
    &&& text.subrange(i, i + 12) == pretty_key()
}

/// The start of the first `PRETTY_NAME=` line at or after index `i`.
pub open spec fn first_pretty_line_from(text: Seq<u8>, i: int) -> Option<int>
    decreases text.len() - i,
{
    if i < 0 || i + 12 > text.len() {
        None
    } else if pretty_line_at(text, i) {
        Some(i)
    } else {
        first_pretty_line_from(text, i + 1)
    }
}

/// Whether the byte ends a value: a line feed or a second `=`.
pub open spec fn ends_value(byte: u8) -> bool {
    byte == 0x0au8 || byte == 0x3du8
}

/// The index at which the value that starts at `i` ends: that of the first
/// line feed or `=` from `i` on, or the end of the text.
pub open spec fn value_end_from(text: Seq<u8>, i: int) -> int
    decreases text.len() - i,
{
    if i < 0 || i >= text.len() || ends_value(text[i]) {
        i
    } else {
        value_end_from(text, i + 1)
    }
}

/// Whether `text` holds a zero byte.
pub open spec fn has_nul(text: Seq<u8>) -> bool {
    exists|i: int| 0 <= i < text.len() && text[i] == 0u8
}

/// The label that an OS-release text gives, if it gives one.
///
/// A text with a zero byte or one that is not UTF-8 gives none. Otherwise the
/// first `PRETTY_NAME=` line decides: its value runs up to the next `=` or the
/// end of the line, must be longer than two bytes, and loses its first and
/// its last byte, the quotes. What is left must be UTF-8 by itself.
pub open spec fn label_of(text: Seq<u8>) -> Option<Seq<u8>> {
    if has_nul(text) || !valid_utf8(text) {
        None
    } else {
        match first_pretty_line_from(text, 0) {
            None => None,
            Some(line) => {
                let from = line + 12;
                let to = value_end_from(text, from);
                if to - from > 2 && valid_utf8(text.subrange(from + 1, to - 1)) {
                    Some(text.subrange(from + 1, to - 1))
                } else {
                    None
                }
            },
        }
    }
}

/// Tells whether `text` holds a zero byte.
pub fn contains_nul(text: &[u8]) -> (found: bool)
    ensures
        found == has_nul(text@),
{
    let mut i: usize = 0;
    while i < text.len()
        invariant
            0 <= i <= text@.len(),
            forall|j: int| 0 <= j < i ==> text@[j] != 0u8,
        decreases text@.len() - i,
    {
        if text[i] == 0 {
            return true;
        }
        i += 1;
    }
    false
}

/// Tells whether a `PRETTY_NAME=` line starts at index `i`.
fn is_pretty_line(text: &[u8], i: usize) -> (found: bool)
    requires
        i + 12 <= text@.len(),
    ensures
        found == pretty_line_at(text@, i as int),
{
    if i > 0 && text[i - 1] != 0x0a {
        return false;
    }
    let len: usize = text.len();
    let key: [u8; 12] = [0x50, 0x52, 0x45, 0x54, 0x54, 0x59, 0x5f, 0x4e, 0x41, 0x4d, 0x45, 0x3d];
    assert(key@ =~= pretty_key());
    let mut k: usize = 0;
    while k < 12
        invariant
            0 <= k <= 12,
            i + 12 <= text@.len(),
            text@.len() == len,
            key@ == pretty_key(),
            forall|j: int| 0 <= j < k ==> text@[i + j] == pretty_key()[j],
        decreases 12 - k,
    {
        if text[i + k] != key[k] {
            assert(text@.subrange(i as int, i + 12)[k as int] == text@[i + k]);
            return false;
        }
        k += 1;
    }
    assert(text@.subrange(i as int, i + 12) =~= pretty_key());
    true
}

/// The start of the first `PRETTY_NAME=` line of `text`.
pub fn find_pretty_line(text: &[u8]) -> (line: Option<usize>)
    ensures
        line is Some <==> first_pretty_line_from(text@, 0) is Some,
        line is Some ==> first_pretty_line_from(text@, 0) == Some(line->0 as int),
{
    let len: usize = text.len();
    if len < 12 {
        return None;
    }
    let mut i: usize = 0;
    while i <= len - 12
        invariant
            len == text@.len(),
            len >= 12,
            0 <= i <= len - 12 + 1,
            first_pretty_line_from(text@, 0) == first_pretty_line_from(text@, i as int),
        decreases len - i,
    {
        if is_pretty_line(text, i) {
            return Some(i);
        }
        i += 1;
    }
    None
}

/// The index at which the value that starts at `from` ends. A value that
/// starts at or behind the end of the text ends where it starts.
pub fn value_end(text: &[u8], from: usize) -> (to: usize)
    ensures
        to == value_end_from(text@, from as int),
        from <= to,
        from <= text@.len() ==> to <= text@.len(),
{
    if from >= text.len() {
        return from;
    }
    let mut i: usize = from;
    while i < text.len() && text[i] != 0x0a && text[i] != 0x3d
        invariant
            from <= i <= text@.len(),
            value_end_from(text@, from as int) == value_end_from(text@, i as int),
        decreases text@.len() - i,
    {
        i += 1;
    }
    i
}

/// Reads the label out of an OS-release text.
pub fn osrel_label(text: &[u8]) -> (label: Option<Vec<u8>>)
    ensures
        label is Some <==> label_of(text@) is Some,
        label is Some ==> label_of(text@) == Some(label->0@),
{
    if contains_nul(text) || !is_utf8(text) {
        return None;
    }
    let line: usize = match find_pretty_line(text) {
        Some(i) => i,
        None => { return None; },
    };
    proof {
        first_pretty_line_in_bounds(text@, 0);
    }
    let len: usize = text.len();
    assert(line + 12 <= len);
    let from: usize = line + 12;
    let to: usize = value_end(text, from);
    if to - from <= 2 {
        return None;
    }
    let inner: &[u8] = vstd::slice::slice_subrange(text, from + 1, to - 1);
    if !is_utf8(inner) {
        return None;
    }
    let label: Vec<u8> = to_vec(inner);
    Some(label)
}

/// A line that `first_pretty_line_from` finds is a `PRETTY_NAME=` line at or
/// after the index asked from, and none starts between the two.
pub proof fn first_pretty_line_in_bounds(text: Seq<u8>, i: int)
    requires
        0 <= i,
    ensures
        match first_pretty_line_from(text, i) {
            Some(line) => i <= line && pretty_line_at(text, line) && forall|j: int|
                i <= j < line ==> !pretty_line_at(text, j),
            None => forall|j: int| i <= j ==> !pretty_line_at(text, j),
        },
    decreases text.len() - i,
{
    if i + 12 > text.len() {
    } else if pretty_line_at(text, i) {
    } else {
        first_pretty_line_in_bounds(text, i + 1);
    }
}

} // verus!
