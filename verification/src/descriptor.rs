//! Data model of one generation pass: the structured type description the
//! host front end hands over, the per-variant descriptors the extractor
//! produces, and the spec-level functions the pipeline's contracts share.

use vstd::prelude::*;

verus! {

/// The argument of one metadata entry, as the host front end classified it:
/// it parsed to a character literal, to a literal of another kind, to a
/// non-literal expression, or it did not parse to an expression at all.
#[derive(Clone, Copy, PartialEq, Eq, Structural, Debug)]
pub enum MetaArg {
    CharLit(char),
    OtherLit,
    NonLit,
    NoParse,
}

/// One metadata entry attached to a variant.
#[derive(Clone, Copy, PartialEq, Eq, Structural, Debug)]
pub struct MetaEntry {
    /// Whether the entry's path is the recognized tag path.
    pub is_tag: bool,
    /// The entry's argument.
    pub arg: MetaArg,
}

/// One variant of the described type: its identifier and its attached
/// metadata entries, in order.
#[derive(Debug)]
pub struct VariantSource {
    pub name: String,
    pub attrs: Vec<MetaEntry>,
}

/// The body of the described type: an enumerated type with its ordered
/// variants, or something else entirely.
#[derive(Debug)]
pub enum DataSource {
    EnumData(Vec<VariantSource>),
    NotEnumData,
}

/// The full description of the annotated type.
#[derive(Debug)]
pub struct DeriveSource {
    pub name: String,
    pub data: DataSource,
}

/// One variant's descriptor after attribute extraction: its identifier and
/// its optional tag character. Immutable once produced.
#[derive(Debug)]
pub struct VariantData {
    pub ident: String,
    pub varchar: Option<char>,
}

/// A metadata entry that takes part in tag extraction: its path is the
/// recognized one and its argument parsed to an expression.
pub open spec fn live_entry(e: MetaEntry) -> bool {
    e.is_tag && !(e.arg is NoParse)
}

/// The argument of the first metadata entry that takes part in extraction,
/// if any: the first-match policy over the entries in order.
pub open spec fn first_live(attrs: Seq<MetaEntry>) -> Option<MetaArg>
    decreases attrs.len(),
{
    if attrs.len() == 0 {
        None
    } else if live_entry(attrs[0]) {
        Some(attrs[0].arg)
    } else {
        first_live(attrs.drop_first())
    }
}

/// Extraction succeeds for the variant: either no entry takes part, or the
/// first one that does carries a character literal.
pub open spec fn extract_ok(v: VariantSource) -> bool {
    match first_live(v.attrs@) {
        None => true,
        Some(a) => a is CharLit,
    }
}

/// The tag the variant's descriptor carries after extraction.
pub open spec fn extract_tag(v: VariantSource) -> Option<char> {
    match first_live(v.attrs@) {
        Some(MetaArg::CharLit(c)) => Some(c),
        _ => None,
    }
}

/// Extraction succeeds for every variant of the list.
pub open spec fn extraction_ok(vs: Seq<VariantSource>) -> bool {
    forall|i: int| 0 <= i < vs.len() ==> extract_ok(#[trigger] vs[i])
}

/// The descriptor list is exactly what extraction produces from the source
/// list: same length, same identifiers, and each tag as extracted.
pub open spec fn descriptors_of(vs: Seq<VariantSource>, vd: Seq<VariantData>) -> bool {
    &&& vd.len() == vs.len()
    &&& forall|i: int| #![trigger vd[i]] #![trigger vs[i]] 0 <= i < vs.len() ==> vd[i].ident@ == vs[i].name@
        && vd[i].varchar == extract_tag(vs[i])
}

/// No two tagged descriptors among the first `n` carry the same character.
pub open spec fn unique_prefix(vd: Seq<VariantData>, n: int) -> bool {
    forall|i: int, j: int| #![trigger vd[i], vd[j]] 0 <= i < j < n && vd[i].varchar is Some ==> vd[i].varchar != vd[j].varchar
}

/// Invariant I1: no two tagged descriptors carry the same character.
/// Untagged descriptors never take part.
pub open spec fn tags_unique(vd: Seq<VariantData>) -> bool {
    unique_prefix(vd, vd.len() as int)
}

/// Classification: the type is Total when every descriptor carries a tag.
pub open spec fn all_tagged(vd: Seq<VariantData>) -> bool {
    forall|i: int| 0 <= i < vd.len() ==> (#[trigger] vd[i]).varchar is Some
}

/// Some descriptor carries the character `c`: the char-to-value conversion
/// succeeds on `c`.
pub open spec fn has_char(vd: Seq<VariantData>, c: char) -> bool {
    exists|i: int| 0 <= i < vd.len() && (#[trigger] vd[i]).varchar == Some(c)
}

/// `i` is the value the char-to-value conversion yields for `c`: the first
/// descriptor, in declaration order, whose tag is `c`.
pub open spec fn first_value_of_char(vd: Seq<VariantData>, c: char, i: int) -> bool {
    &&& 0 <= i < vd.len()
    &&& vd[i].varchar == Some(c)
    &&& forall|k: int| 0 <= k < i ==> (#[trigger] vd[k]).varchar != Some(c)
}

/// The textual parse succeeds on `s`: a single character that some
/// descriptor carries.
pub open spec fn parse_ok(vd: Seq<VariantData>, s: Seq<char>) -> bool {
    s.len() == 1 && has_char(vd, s[0])
}

/// Tag uniqueness stated over the source variants, through extraction.
pub open spec fn src_tags_unique(vs: Seq<VariantSource>) -> bool {
    forall|i: int, j: int| #![trigger vs[i], vs[j]] 0 <= i < j < vs.len() && extract_tag(vs[i]) is Some
        ==> extract_tag(vs[i]) != extract_tag(vs[j])
}

/// The pair `(i, j)` witnesses the first duplicated tag the declaration-order
/// walk finds: `j` is the first descriptor that repeats an earlier tag, and
/// `i` is the first descriptor carrying that tag.
pub open spec fn first_duplicate(vd: Seq<VariantData>, i: int, j: int) -> bool {
    &&& 0 <= i < j < vd.len()
    &&& vd[i].varchar is Some
    &&& vd[i].varchar == vd[j].varchar
    &&& forall|k: int| 0 <= k < i ==> (#[trigger] vd[k]).varchar != vd[j].varchar
    &&& unique_prefix(vd, j)
}

} // verus!
