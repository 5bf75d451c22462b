//! AttributeExtractor: turns each variant's metadata entries into a
//! descriptor, honoring the first recognized entry per variant, and failing
//! at the first variant whose tag argument is not a character literal.

use vstd::prelude::*;

use crate::descriptor::{
    descriptors_of, extract_ok, extract_tag, extraction_ok, first_live, live_entry, MetaArg,
    MetaEntry, VariantData, VariantSource,
};
use crate::errors::GenError;

verus! {

/// When no entry before `i` takes part in extraction and entry `i` does,
/// the first-match scan lands on entry `i`.
proof fn lemma_first_live_at(attrs: Seq<MetaEntry>, i: int)
    requires
        0 <= i < attrs.len(),
        live_entry(attrs[i]),
        forall|k: int| 0 <= k < i ==> !live_entry(#[trigger] attrs[k]),
    ensures
        first_live(attrs) == Some(attrs[i].arg),
    decreases i,
{
    if i > 0 {
        lemma_first_live_at(attrs.drop_first(), i - 1);
    }
}

/// When no entry takes part in extraction, the first-match scan finds none.
proof fn lemma_first_live_none(attrs: Seq<MetaEntry>)
    requires
        forall|k: int| 0 <= k < attrs.len() ==> !live_entry(#[trigger] attrs[k]),
    ensures
        first_live(attrs) is None,
    decreases attrs.len(),
{
    if attrs.len() > 0 {
        lemma_first_live_none(attrs.drop_first());
    }
}

/// Extracts one variant's descriptor: scans its metadata entries in order
/// for the first one that takes part, takes its character if it is a
/// character literal, and fails otherwise. A variant with no participating
/// entry is valid and untagged.
fn variant_extract(v: &VariantSource) -> (r: Result<VariantData, GenError>)
    ensures
        extract_ok(*v) ==> (r matches Ok(vd) && vd.ident@ == v.name@ && vd.varchar
            == extract_tag(*v)),
        !extract_ok(*v) ==> (r matches Err(e) && e matches GenError::InvalidCharLiteral {
            variant,
        } && variant@ == v.name@),
{
    let n = v.attrs.len();
    let mut idx: usize = 0;
    while idx < n
        invariant
            n == v.attrs.len(),
            idx <= n,
            forall|k: int| 0 <= k < idx ==> !live_entry(#[trigger] v.attrs@[k]),
        decreases n - idx,
    {
        let e = v.attrs[idx];
        let live = e.is_tag && !matches!(e.arg, MetaArg::NoParse);
        if live {
            proof {
                lemma_first_live_at(v.attrs@, idx as int);
            }
            match e.arg {
                MetaArg::CharLit(c) => {
                    return Ok(VariantData { ident: v.name.clone(), varchar: Some(c) });
                },
                _ => {
                    return Err(GenError::InvalidCharLiteral { variant: v.name.clone() });
                },
            }
        }
        idx += 1;
    }
    proof {
        lemma_first_live_none(v.attrs@);
    }
    Ok(VariantData { ident: v.name.clone(), varchar: None })
}

/// Walks the variants in declaration order and produces their descriptors.
/// Succeeds exactly when extraction succeeds for every variant; otherwise
/// reports the first offending variant.
pub fn variantdata_get(variants: &Vec<VariantSource>) -> (r: Result<Vec<VariantData>, GenError>)
    ensures
        match r {
            Ok(vd) => extraction_ok(variants@) && descriptors_of(variants@, vd@),
            Err(e) => {
                &&& !extraction_ok(variants@)
                &&& exists|i: int|
                    #![trigger variants@[i]]
                    {
                        &&& 0 <= i < variants@.len()
                        &&& !extract_ok(variants@[i])
                        &&& forall|k: int| 0 <= k < i ==> extract_ok(#[trigger] variants@[k])
                        &&& e matches GenError::InvalidCharLiteral { variant } && variant@
                            == variants@[i].name@
                    }
            },
        },
{
    let n = variants.len();
    let mut vd: Vec<VariantData> = Vec::new();
    let mut idx: usize = 0;
    while idx < n
        invariant
            n == variants@.len(),
            idx <= n,
            vd@.len() == idx,
            forall|k: int| 0 <= k < idx ==> extract_ok(#[trigger] variants@[k]),
            forall|k: int|
                #![trigger vd@[k]]
                0 <= k < idx ==> vd@[k].ident@ == variants@[k].name@ && vd@[k].varchar
                    == extract_tag(variants@[k]),
        decreases n - idx,
    {
        match variant_extract(&variants[idx]) {
            Ok(d) => {
                vd.push(d);
            },
            Err(e) => {
                return Err(e);
            },
        }
        idx += 1;
    }
    Ok(vd)
}

} // verus!
