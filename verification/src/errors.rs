//! The two error classes, strictly separated by when they occur: failures of
//! the generation pass, which abort emission, and conversion failures of the
//! synthesized capabilities, which are ordinary result values. Each renders
//! to the diagnostic text the pipeline reports.

use vstd::prelude::*;

verus! {

/// A generation-time failure: any one of these discards the whole pass and
/// no conversion code is emitted. The carried identifiers name the source
/// location the diagnostic is bound to.
#[derive(Debug)]
pub enum GenError {
    /// The annotated type is not an enumerated type.
    NotAnEnum { typename: String },
    /// A tag entry's argument is not a single-character literal; bound to
    /// the offending variant.
    InvalidCharLiteral { variant: String },
    /// Two variants carry the same tag character; bound to the later of the
    /// two, and naming both.
    DuplicateChar { ch: char, first: String, second: String },
}

/// A conversion-time failure of a synthesized capability: always returned as
/// an explicit value, never a panic. The carried message data embeds the
/// type name and, where applicable, the offending character or variant.
#[derive(Debug)]
pub enum ConvError {
    /// The char-to-value conversion was given a character no variant carries.
    UnrecognizedChar { ch: char, typename: String },
    /// The value-to-char conversion was given an untagged variant.
    NoCharRepresentation { variant: String, typename: String },
    /// The textual parse was given input that matches no tag.
    UnableToParse { typename: String },
}

/// The diagnostic text of a generation-time failure.
pub open spec fn gen_error_message(e: GenError) -> Seq<char> {
    match e {
        GenError::NotAnEnum { .. } => "EnumChar can only be used with enums"@,
        GenError::InvalidCharLiteral { variant } => "variant "@ + variant@
            + " has invalid EnumChar char type"@,
        GenError::DuplicateChar { ch, first, second } => "EnumChar variants "@ + second@ + " and "@
            + first@ + " using the same char "@ + seq![ch],
    }
}

/// The message text of a conversion-time failure.
pub open spec fn conv_error_message(e: ConvError) -> Seq<char> {
    match e {
        ConvError::UnrecognizedChar { ch, typename } => "unable to convert "@ + seq![ch]
            + " into "@ + typename@,
        ConvError::NoCharRepresentation { variant, typename } => "variant "@ + typename@ + "::"@
            + variant@ + " has no char representation"@,
        ConvError::UnableToParse { typename } => "unable to parse str into "@ + typename@,
    }
}

/// Relies on `String::from` for `char` (std): the returned string holds
/// exactly the one character.
#[verifier::external_body]
pub(crate) fn char_to_string(c: char) -> (r: String)
    ensures
        r@ == seq![c],
{
    String::from(c)
}

impl GenError {
    /// Renders the diagnostic text this failure reports.
    pub fn message(&self) -> (r: String)
        ensures
            r@ == gen_error_message(*self),
    {
        match self {
            GenError::NotAnEnum { .. } => String::from_str("EnumChar can only be used with enums"),
            GenError::InvalidCharLiteral { variant } => {
                let mut s = String::from_str("variant ");
                s.append(variant.as_str());
                s.append(" has invalid EnumChar char type");
                s
            },
            GenError::DuplicateChar { ch, first, second } => {
                let mut s = String::from_str("EnumChar variants ");
                s.append(second.as_str());
                s.append(" and ");
                s.append(first.as_str());
                s.append(" using the same char ");
                let cs = char_to_string(*ch);
                s.append(cs.as_str());
                s
            },
        }
    }
}

impl ConvError {
    /// Renders the message text this failure carries.
    pub fn message(&self) -> (r: String)
        ensures
            r@ == conv_error_message(*self),
    {
        match self {
            ConvError::UnrecognizedChar { ch, typename } => {
                let mut s = String::from_str("unable to convert ");
                let cs = char_to_string(*ch);
                s.append(cs.as_str());
                s.append(" into ");
                s.append(typename.as_str());
                s
            },
            ConvError::NoCharRepresentation { variant, typename } => {
                let mut s = String::from_str("variant ");
                s.append(typename.as_str());
                s.append("::");
                s.append(variant.as_str());
                s.append(" has no char representation");
                s
            },
            ConvError::UnableToParse { typename } => {
                let mut s = String::from_str("unable to parse str into ");
                s.append(typename.as_str());
                s
            },
        }
    }
}

} // verus!
