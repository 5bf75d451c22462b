//! The laws the synthesized conversions obey, stated over the descriptor
//! sequence that the capabilities' contracts speak of and proved from the
//! validator's invariants.

use vstd::prelude::*;

use crate::descriptor::{
    all_tagged, first_value_of_char, has_char, parse_ok, tags_unique, VariantData,
};

verus! {

/// Round trip on a Total type: converting a variant to its tag character and
/// that character back to a value yields the same variant. `v` is any
/// variant, `Some(c)` its tag as the value-to-char conversion returns it,
/// and `i` any value the char-to-value conversion may yield for `c`.
pub proof fn lemma_round_trip_total(vd: Seq<VariantData>, v: int, c: char, i: int)
    requires
        tags_unique(vd),
        all_tagged(vd),
        0 <= v < vd.len(),
        vd[v].varchar == Some(c),
        first_value_of_char(vd, c, i),
    ensures
        i == v,
{
    if i < v {
        assert(vd[i].varchar != vd[v].varchar);
    }
    if v < i {
        assert(vd[v].varchar != vd[i].varchar);
    }
}

/// Injectivity: two distinct variants are never mapped to the same character
/// by the value-to-char conversion; their tags differ. Guaranteed by the
/// uniqueness invariant alone, Total or Partial.
pub proof fn lemma_value_to_char_injective(vd: Seq<VariantData>, v1: int, v2: int, c1: char, c2: char)
    requires
        tags_unique(vd),
        0 <= v1 < vd.len(),
        0 <= v2 < vd.len(),
        v1 != v2,
        vd[v1].varchar == Some(c1),
        vd[v2].varchar == Some(c2),
    ensures
        c1 != c2,
{
    if v1 < v2 {
        assert(vd[v1].varchar != vd[v2].varchar);
    } else {
        assert(vd[v2].varchar != vd[v1].varchar);
    }
}

/// Parse agrees with the char-to-value conversion, first half: for any
/// single-character string, the textual parse succeeds exactly when the
/// char-to-value conversion succeeds on its one character.
pub proof fn lemma_parse_iff_char_conversion(vd: Seq<VariantData>, s: Seq<char>)
    requires
        s.len() == 1,
    ensures
        parse_ok(vd, s) <==> has_char(vd, s[0]),
{
}

/// Parse agrees with the char-to-value conversion, second half: any value
/// the textual parse may yield for a single-character string and any value
/// the char-to-value conversion may yield for its one character are the
/// same. Both are pinned to the first variant carrying the character, so no
/// uniqueness assumption is needed.
pub proof fn lemma_parse_yields_char_conversion_value(
    vd: Seq<VariantData>,
    c: char,
    i: int,
    j: int,
)
    requires
        first_value_of_char(vd, c, i),
        first_value_of_char(vd, c, j),
    ensures
        i == j,
{
    if i < j {
        assert(vd[i].varchar != Some(c));
    }
    if j < i {
        assert(vd[j].varchar != Some(c));
    }
}

} // verus!
