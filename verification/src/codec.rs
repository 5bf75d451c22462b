//! CodeSynthesizer: the conversion component built from a validated type
//! description. One derived lookup, the descriptor list, backs all four
//! capabilities: char to value, value to char (in its Total and Partial
//! shapes), textual parse, and display (Total only). `my_derive` is the
//! whole pipeline: extract, validate, classify, synthesize; any failure
//! aborts it and nothing is produced.

use vstd::prelude::*;

use crate::descriptor::{
    all_tagged, descriptors_of, extract_ok, extract_tag, extraction_ok, first_duplicate,
    first_value_of_char, has_char, tags_unique, unique_prefix, DataSource, DeriveSource,
    VariantData, VariantSource,
};
use crate::errors::{char_to_string, ConvError, GenError};
use crate::extract::variantdata_get;
use crate::validate::{check_enumchars_unique, has_variant_without_char};

verus! {

/// The synthesized conversion component for one enumerated type: its name,
/// its variant descriptors in declaration order, and its classification. A
/// value of the type is identified by its variant's position in the list.
#[derive(Debug)]
pub struct EnumCodec {
    pub name: String,
    pub variants: Vec<VariantData>,
    /// The classification: `true` for a Total type (every variant tagged).
    pub total: bool,
}

impl EnumCodec {
    /// Well-formedness: invariant I1 (no two variants share a tag) and
    /// invariant I2 (the classification matches the tag presence of all
    /// variants). `my_derive` establishes this; nothing mutates it after.
    pub open spec fn wf(self) -> bool {
        &&& tags_unique(self.variants@)
        &&& self.total == all_tagged(self.variants@)
    }

    /// The number of variants; values of the type are `0..len()`.
    pub fn len(&self) -> (n: usize)
        ensures
            n == self.variants@.len(),
    {
        self.variants.len()
    }

    /// char to value, emitted unconditionally: the first variant, in
    /// declaration order, whose tag is `c`; a character no variant carries
    /// is reported, never panicked on.
    pub fn try_from_char(&self, c: char) -> (r: Result<usize, ConvError>)
        ensures
            match r {
                Ok(i) => first_value_of_char(self.variants@, c, i as int),
                Err(e) => {
                    &&& !has_char(self.variants@, c)
                    &&& e matches ConvError::UnrecognizedChar { ch, typename }
                    &&& ch == c
                    &&& typename@ == self.name@
                },
            },
    {
        let n = self.variants.len();
        let mut idx: usize = 0;
        while idx < n
            invariant
                n == self.variants@.len(),
                idx <= n,
                forall|k: int| 0 <= k < idx ==> (#[trigger] self.variants@[k]).varchar != Some(c),
            decreases n - idx,
        {
            let hit = match self.variants[idx].varchar {
                Some(c2) => c2 == c,
                None => false,
            };
            if hit {
                return Ok(idx);
            }
            idx += 1;
        }
        Err(ConvError::UnrecognizedChar { ch: c, typename: self.name.clone() })
    }

    /// value to char in its Partial (fallible) shape: the variant's tag, or
    /// a report naming the untagged variant and the type.
    pub fn try_into_char(&self, v: usize) -> (r: Result<char, ConvError>)
        requires
            v < self.variants@.len(),
        ensures
            match r {
                Ok(c) => self.variants@[v as int].varchar == Some(c),
                Err(e) => {
                    &&& self.variants@[v as int].varchar is None
                    &&& e matches ConvError::NoCharRepresentation { variant, typename }
                    &&& variant@ == self.variants@[v as int].ident@
                    &&& typename@ == self.name@
                },
            },
    {
        match self.variants[v].varchar {
            Some(c) => Ok(c),
            None => Err(
                ConvError::NoCharRepresentation {
                    variant: self.variants[v].ident.clone(),
                    typename: self.name.clone(),
                },
            ),
        }
    }

    /// value to char in its Total (infallible) shape: every variant carries
    /// a tag, so the conversion cannot fail.
    pub fn into_char(&self, v: usize) -> (c: char)
        requires
            self.wf(),
            self.total,
            v < self.variants@.len(),
        ensures
            self.variants@[v as int].varchar == Some(c),
    {
        match self.variants[v].varchar {
            Some(c) => c,
            None => {
                proof {
                    assert(self.variants@[v as int].varchar is Some);
                }
                unreached()
            },
        }
    }

    /// Whether the display capability is part of the component: it is
    /// emitted only for a Total type.
    pub fn has_display(&self) -> (r: bool)
        ensures
            r == self.total,
    {
        self.total
    }

    /// display, Total only: the single-character text of the variant's tag.
    /// It delegates to the infallible value-to-char shape; a failure here is
    /// unreachable given the Total invariant.
    pub fn display(&self, v: usize) -> (r: String)
        requires
            self.wf(),
            self.total,
            v < self.variants@.len(),
        ensures
            self.variants@[v as int].varchar matches Some(c) && r@ == seq![c],
    {
        let c = self.into_char(v);
        char_to_string(c)
    }

    /// Textual parse: defined purely in terms of the char-to-value mapping.
    /// The input must be the one-character text of some variant's tag; any
    /// other input, wrong length included, is reported.
    pub fn from_str(&self, s: &str) -> (r: Result<usize, ConvError>)
        ensures
            match r {
                Ok(i) => s@.len() == 1 && first_value_of_char(self.variants@, s@[0], i as int),
                Err(e) => {
                    &&& (s@.len() != 1 || !has_char(self.variants@, s@[0]))
                    &&& e matches ConvError::UnableToParse { typename }
                    &&& typename@ == self.name@
                },
            },
    {
        let len = s.unicode_len();
        if len != 1 {
            return Err(ConvError::UnableToParse { typename: self.name.clone() });
        }
        let c = s.get_char(0);
        match self.try_from_char(c) {
            Ok(i) => Ok(i),
            Err(_) => Err(ConvError::UnableToParse { typename: self.name.clone() }),
        }
    }
}

/// The whole generation pass over one type description: extraction,
/// uniqueness validation, classification, synthesis. Succeeds exactly when
/// the description is an enumerated type, every tag argument is a character
/// literal, and no two variants share a tag; any failure aborts the pass
/// with its diagnostic and no component is produced.
pub fn my_derive(input: &DeriveSource) -> (r: Result<EnumCodec, GenError>)
    ensures
        input.data is NotEnumData ==> (r matches Err(e) && e matches GenError::NotAnEnum {
            typename,
        } && typename@ == input.name@),
        input.data matches DataSource::EnumData(vs) ==> match r {
            Ok(codec) => {
                &&& extraction_ok(vs@)
                &&& descriptors_of(vs@, codec.variants@)
                &&& tags_unique(codec.variants@)
                &&& codec.total == all_tagged(codec.variants@)
                &&& codec.name@ == input.name@
                &&& codec.wf()
            },
            Err(e) => {
                ||| {
                    &&& !extraction_ok(vs@)
                    &&& exists|i: int|
                        #![trigger vs@[i]]
                        {
                            &&& 0 <= i < vs@.len()
                            &&& !extract_ok(vs@[i])
                            &&& forall|k: int| 0 <= k < i ==> extract_ok(#[trigger] vs@[k])
                            &&& e matches GenError::InvalidCharLiteral { variant } && variant@
                                == vs@[i].name@
                        }
                }
                ||| {
                    &&& extraction_ok(vs@)
                    &&& exists|i: int, j: int|
                        #![trigger vs@[i], vs@[j]]
                        {
                            &&& 0 <= i < j < vs@.len()
                            &&& extract_tag(vs@[i]) is Some
                            &&& extract_tag(vs@[i]) == extract_tag(vs@[j])
                            &&& forall|k: int|
                                0 <= k < i ==> extract_tag(#[trigger] vs@[k]) != extract_tag(
                                    vs@[j],
                                )
                            &&& forall|k: int, l: int|
                                #![trigger vs@[k], vs@[l]]
                                0 <= k < l < j && extract_tag(vs@[k]) is Some ==> extract_tag(
                                    vs@[k],
                                ) != extract_tag(vs@[l])
                            &&& e matches GenError::DuplicateChar { ch, first, second }
                            &&& extract_tag(vs@[i]) == Some(ch)
                            &&& first@ == vs@[i].name@
                            &&& second@ == vs@[j].name@
                        }
                }
            },
        },
{
    let variants = match &input.data {
        DataSource::NotEnumData => {
            return Err(GenError::NotAnEnum { typename: input.name.clone() });
        },
        DataSource::EnumData(vs) => vs,
    };
    let vdata = match variantdata_get(variants) {
        Ok(vd) => vd,
        Err(e) => {
            return Err(e);
        },
    };
    match check_enumchars_unique(&vdata) {
        Ok(_) => {},
        Err(e) => {
            proof {
                lemma_duplicate_to_source(variants@, vdata@, e);
            }
            return Err(e);
        },
    }
    let total = !has_variant_without_char(&vdata);
    Ok(EnumCodec { name: input.name.clone(), variants: vdata, total })
}

/// Carries the duplicate-tag witness of the validator, stated over the
/// descriptors, back to the source variants through the extraction relation.
proof fn lemma_duplicate_to_source(vs: Seq<VariantSource>, vd: Seq<VariantData>, e: GenError)
    requires
        descriptors_of(vs, vd),
        exists|i: int, j: int|
            #![trigger vd[i], vd[j]]
            {
                &&& first_duplicate(vd, i, j)
                &&& e matches GenError::DuplicateChar { ch, first, second }
                &&& vd[i].varchar == Some(ch)
                &&& first@ == vd[i].ident@
                &&& second@ == vd[j].ident@
            },
    ensures
        exists|i: int, j: int|
            #![trigger vs[i], vs[j]]
            {
                &&& 0 <= i < j < vs.len()
                &&& extract_tag(vs[i]) is Some
                &&& extract_tag(vs[i]) == extract_tag(vs[j])
                &&& forall|k: int| 0 <= k < i ==> extract_tag(#[trigger] vs[k]) != extract_tag(vs[j])
                &&& forall|k: int, l: int|
                    #![trigger vs[k], vs[l]]
                    0 <= k < l < j && extract_tag(vs[k]) is Some ==> extract_tag(vs[k])
                        != extract_tag(vs[l])
                &&& e matches GenError::DuplicateChar { ch, first, second }
                &&& extract_tag(vs[i]) == Some(ch)
                &&& first@ == vs[i].name@
                &&& second@ == vs[j].name@
            },
{
    let (i, j) = choose|i: int, j: int|
        #![trigger vd[i], vd[j]]
        {
            &&& first_duplicate(vd, i, j)
            &&& e matches GenError::DuplicateChar { ch, first, second }
            &&& vd[i].varchar == Some(ch)
            &&& first@ == vd[i].ident@
            &&& second@ == vd[j].ident@
        };
    assert(first_duplicate(vd, i, j));
    assert forall|k: int| 0 <= k < i implies extract_tag(#[trigger] vs[k]) != extract_tag(
        vs[j],
    ) by {
        assert(vd[k].varchar != vd[j].varchar);
    }
    assert forall|k: int, l: int|
        0 <= k < l < j && extract_tag(#[trigger] vs[k]) is Some implies extract_tag(vs[k])
        != extract_tag(#[trigger] vs[l]) by {
        assert(unique_prefix(vd, j));
        assert(vd[k].varchar != vd[l].varchar);
    }
    assert({
        &&& 0 <= i < j < vs.len()
        &&& extract_tag(vs[i]) is Some
        &&& extract_tag(vs[i]) == extract_tag(vs[j])
        &&& e matches GenError::DuplicateChar { ch, first, second }
        &&& extract_tag(vs[i]) == Some(ch)
        &&& first@ == vs[i].name@
        &&& second@ == vs[j].name@
    });
}

} // verus!
