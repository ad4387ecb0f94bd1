//! Decoding the fixed UTF-16 name buffer a monitor reports.
//!
//! Hardware enumeration yields each monitor's description as a
//! nul-terminated UTF-16 string inside a fixed 128-unit buffer, with the
//! position of the nul unknown.  The buffer is cut at the first nul — or,
//! when no nul is present, before the final unit — and the cut prefix is
//! decoded leniently.

use vstd::prelude::*;

verus! {

use vstd::array::array_as_slice;
use vstd::slice::slice_subrange;

/// Where the buffer is cut: the index of the first nul unit, or the last
/// index when no unit is nul (so a completely full buffer loses its final
/// unit rather than being read past its end).
pub open spec fn nul_cut(units: Seq<u16>) -> int
    decreases units.len(),
{
    if units.len() <= 1 {
        0
    } else if units[0] == 0 {
        0
    } else {
        1 + nul_cut(units.drop_first())
    }
}

/// The cut sits at a nul if the buffer has one.
proof fn lemma_nul_cut_found(units: Seq<u16>, first_nul: int)
    requires
        0 <= first_nul < units.len(),
        units[first_nul] == 0,
        forall|j: int| 0 <= j < first_nul ==> units[j] != 0,
    ensures
        nul_cut(units) == first_nul,
    decreases units.len(),
{
    if first_nul > 0 {
        lemma_nul_cut_found(units.drop_first(), first_nul - 1);
    }
}

/// Without a nul, the cut sits before the final unit.
proof fn lemma_nul_cut_none(units: Seq<u16>)
    requires
        units.len() >= 1,
        forall|j: int| 0 <= j < units.len() ==> units[j] != 0,
    ensures
        nul_cut(units) == units.len() - 1,
    decreases units.len(),
{
    if units.len() > 1 {
        lemma_nul_cut_none(units.drop_first());
    }
}

/// What lenient UTF-16 decoding yields for a sequence of code units.
pub uninterp spec fn utf16_lossy_of(units: Seq<u16>) -> Seq<char>;

/// Relies on `String::from_utf16_lossy`: the decoding depends on the code
/// units alone, and an empty slice decodes to the empty string.
#[verifier::external_body]
fn utf16_lossy(units: &[u16]) -> (text: String)
    ensures
        text@ == utf16_lossy_of(units@),
        units@.len() == 0 ==> text@.len() == 0,
{
    String::from_utf16_lossy(units)
}

/// Decode a monitor's fixed name buffer: cut at the first nul (or before
/// the final unit if none) and decode the prefix leniently.
pub fn string_from_raw_utf16(array: &[u16; 128]) -> (text: String)
    ensures
        text@ == utf16_lossy_of(array@.take(nul_cut(array@))),
{
    let mut cut: usize = 0;
    while cut < 127 && array[cut] != 0
        invariant
            cut <= 127,
            forall|j: int| 0 <= j < cut ==> array@[j] != 0,
        decreases 127 - cut,
    {
        cut = cut + 1;
    }
    proof {
        if cut < 127 {
            lemma_nul_cut_found(array@, cut as int);
        } else if array@[127] == 0 {
            lemma_nul_cut_found(array@, 127);
        } else {
            lemma_nul_cut_none(array@);
        }
        assert(array@.take(cut as int) =~= array@.subrange(0, cut as int));
    }
    let prefix = slice_subrange(array_as_slice(array), 0, cut);
    utf16_lossy(prefix)
}

} // verus!
