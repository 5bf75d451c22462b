//! Validator: tag uniqueness over the descriptors in declaration order, and
//! the Total/Partial classification. Both are generation-time checks; the
//! synthesized conversions can never fail on uniqueness at runtime.

use vstd::prelude::*;

use crate::descriptor::{all_tagged, first_duplicate, tags_unique, unique_prefix, VariantData};
use crate::errors::GenError;

verus! {

/// Walks the descriptors in declaration order and fails at the first one
/// whose tag repeats an earlier variant's tag, naming both variants and the
/// shared character. Untagged descriptors are skipped entirely. Succeeds
/// exactly when invariant I1 holds.
pub fn check_enumchars_unique(vdata: &Vec<VariantData>) -> (r: Result<(), GenError>)
    ensures
        match r {
            Ok(_) => tags_unique(vdata@),
            Err(e) => {
                &&& !tags_unique(vdata@)
                &&& exists|i: int, j: int|
                    #![trigger vdata@[i], vdata@[j]]
                    {
                        &&& first_duplicate(vdata@, i, j)
                        &&& e matches GenError::DuplicateChar { ch, first, second }
                        &&& vdata@[i].varchar == Some(ch)
                        &&& first@ == vdata@[i].ident@
                        &&& second@ == vdata@[j].ident@
                    }
            },
        },
{
    let n = vdata.len();
    let mut j: usize = 0;
    while j < n
        invariant
            n == vdata@.len(),
            j <= n,
            unique_prefix(vdata@, j as int),
        decreases n - j,
    {
        if let Some(c) = vdata[j].varchar {
            let mut i: usize = 0;
            while i < j
                invariant
                    n == vdata@.len(),
                    i <= j < n,
                    vdata@[j as int].varchar == Some(c),
                    unique_prefix(vdata@, j as int),
                    forall|k: int| 0 <= k < i ==> (#[trigger] vdata@[k]).varchar != Some(c),
                decreases j - i,
            {
                let dup = match vdata[i].varchar {
                    Some(c2) => c2 == c,
                    None => false,
                };
                if dup {
                    proof {
                        assert(first_duplicate(vdata@, i as int, j as int));
                        assert(!tags_unique(vdata@));
                    }
                    return Err(GenError::DuplicateChar {
                        ch: c,
                        first: vdata[i].ident.clone(),
                        second: vdata[j].ident.clone(),
                    });
                }
                i += 1;
            }
        }
        proof {
            assert forall|k: int, l: int|
                0 <= k < l < j + 1 && (#[trigger] vdata@[k]).varchar is Some implies vdata@[k].varchar
                != (#[trigger] vdata@[l]).varchar by {
                if l < j {
                    assert(unique_prefix(vdata@, j as int));
                }
            }
        }
        j += 1;
    }
    Ok(())
}

/// Classification: reports whether some variant lacks a tag, making the type
/// Partial; a type with no untagged variant is Total.
pub fn has_variant_without_char(vdata: &Vec<VariantData>) -> (r: bool)
    ensures
        r == !all_tagged(vdata@),
{
    let n = vdata.len();
    let mut idx: usize = 0;
    while idx < n
        invariant
            n == vdata@.len(),
            idx <= n,
            forall|k: int| 0 <= k < idx ==> (#[trigger] vdata@[k]).varchar is Some,
        decreases n - idx,
    {
        if vdata[idx].varchar.is_none() {
            return true;
        }
        idx += 1;
    }
    false
}

} // verus!
