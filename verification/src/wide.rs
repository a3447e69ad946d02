//! Wide-character buffers as a host fills them: UTF-16 code units, ended by
//! a zero unit where the text is shorter than the buffer.

use vstd::prelude::*;
use vstd::slice::slice_subrange;

verus! {

/// The first index at or after `from` at which `units` holds a zero, or the
/// length of `units` where there is none.
pub open spec fn nul_from(units: Seq<u16>, from: int) -> int
    decreases units.len() - from,
{
    if from < 0 || from >= units.len() || units[from] == 0 {
        from
    } else {
        nul_from(units, from + 1)
    }
}

/// The length of the text in `units`: the index of its first zero unit, or
/// its whole length.
pub open spec fn text_len(units: Seq<u16>) -> int {
    nul_from(units, 0)
}

/// The units of the text in `units`: all those before the first zero unit.
pub open spec fn text_units(units: Seq<u16>) -> Seq<u16> {
    units.take(text_len(units))
}

/// What `String::from_utf16_lossy` makes of a sequence of UTF-16 code units:
/// the characters they encode, with the replacement character in the place
/// of each unit that belongs to no valid pair.
pub uninterp spec fn utf16_lossy(units: Seq<u16>) -> Seq<char>;

/// The text that a buffer holds: its units up to the first zero, decoded.
pub open spec fn buffer_text(units: Seq<u16>) -> Seq<char> {
    utf16_lossy(text_units(units))
}

/// Calls `String::from_utf16_lossy`. The result is a function of the units
/// alone and is known to the library only by the name `utf16_lossy`.
#[verifier::external_body]
fn decode_lossy(units: &[u16]) -> (s: String)
    ensures
        s@ == utf16_lossy(units@),
{
    String::from_utf16_lossy(units)
}

/// The search for the first zero stops where the text ends: every unit
/// before `text_len` is non-zero, and the unit at it, if any, is zero.
pub proof fn lemma_text_len(units: Seq<u16>)
    ensures
        0 <= text_len(units) <= units.len(),
        forall|i: int| 0 <= i < text_len(units) ==> #[trigger] units[i] != 0,
        text_len(units) < units.len() ==> units[text_len(units)] == 0,
        text_units(units).len() == text_len(units),
        forall|i: int| 0 <= i < text_len(units) ==> #[trigger] text_units(units)[i] != 0,
{
    lemma_nul_from(units, 0);
}

proof fn lemma_nul_from(units: Seq<u16>, from: int)
    requires
        0 <= from <= units.len(),
    ensures
        from <= nul_from(units, from) <= units.len(),
        forall|i: int| from <= i < nul_from(units, from) ==> #[trigger] units[i] != 0,
        nul_from(units, from) < units.len() ==> units[nul_from(units, from)] == 0,
    decreases units.len() - from,
{
    if from < units.len() && units[from] != 0 {
        lemma_nul_from(units, from + 1);
    }
}

/// The number of units before the first zero unit of `buffer`.
pub fn text_length(buffer: &[u16]) -> (n: usize)
    ensures
        n == text_len(buffer@),
        n <= buffer@.len(),
{
    let mut i: usize = 0;
    while i < buffer.len() && buffer[i] != 0
        invariant
            i <= buffer@.len(),
            nul_from(buffer@, i as int) == text_len(buffer@),
        decreases buffer@.len() - i,
    {
        i += 1;
    }
    i
}

/// The text that `buffer` holds, up to its first zero unit.
pub fn wide_text(buffer: &[u16]) -> (s: String)
    ensures
        s@ == buffer_text(buffer@),
{
    let n: usize = text_length(buffer);
    let units = slice_subrange(buffer, 0, n);
    decode_lossy(units)
}

} // verus!
