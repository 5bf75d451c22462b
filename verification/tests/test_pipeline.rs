use enumchar::codec::{my_derive, EnumCodec};
use enumchar::descriptor::{DataSource, DeriveSource, MetaArg, MetaEntry, VariantSource};
use enumchar::errors::GenError;

fn tagged(name: &str, c: char) -> VariantSource {
    VariantSource {
        name: name.to_string(),
        attrs: vec![MetaEntry { is_tag: true, arg: MetaArg::CharLit(c) }],
    }
}

fn untagged(name: &str) -> VariantSource {
    VariantSource { name: name.to_string(), attrs: vec![] }
}

fn with_attrs(name: &str, attrs: Vec<MetaEntry>) -> VariantSource {
    VariantSource { name: name.to_string(), attrs }
}

fn enum_input(name: &str, variants: Vec<VariantSource>) -> DeriveSource {
    DeriveSource { name: name.to_string(), data: DataSource::EnumData(variants) }
}

fn cell_codec() -> EnumCodec {
    my_derive(&enum_input("Cell", vec![tagged("Wall", '#'), tagged("Empty", '.')])).unwrap()
}

// Scenario: a Total type {Wall: '#', Empty: '.'}.
#[test]
fn test_total_scenario() {
    let codec = cell_codec();
    assert!(codec.has_display());
    assert_eq!(codec.len(), 2);
    assert_eq!(codec.try_from_char('.').unwrap(), 1);
    assert_eq!(codec.try_from_char('#').unwrap(), 0);
    assert!(codec.try_from_char('z').is_err());
    assert_eq!(codec.into_char(0), '#');
    assert_eq!(codec.display(0), "#");
}

// Scenario: parsing against the Total type: "#" is Wall, "##" and "" fail.
#[test]
fn test_parse_scenario() {
    let codec = cell_codec();
    assert_eq!(codec.from_str("#").unwrap(), 0);
    let two = codec.from_str("##").unwrap_err();
    assert_eq!(two.message(), "unable to parse str into Cell");
    let empty = codec.from_str("").unwrap_err();
    assert_eq!(empty.message(), "unable to parse str into Cell");
}

// Scenario: a Partial type {Wall: '#', Empty: '.', Other}.
#[test]
fn test_partial_scenario() {
    let codec =
        my_derive(&enum_input("Cell", vec![tagged("Wall", '#'), tagged("Empty", '.'), untagged("Other")]))
            .unwrap();
    assert!(!codec.has_display());
    let err = codec.try_into_char(2).unwrap_err();
    assert_eq!(err.message(), "variant Cell::Other has no char representation");
    assert_eq!(codec.try_from_char('#').unwrap(), 0);
    let err = codec.try_from_char('z').unwrap_err();
    assert_eq!(err.message(), "unable to convert z into Cell");
}

// Scenario: duplicate tags {A: 'x', B: 'x'} fail generation, naming both
// variants and the shared character.
#[test]
fn test_duplicate_char_rejected() {
    let err = my_derive(&enum_input("E", vec![tagged("A", 'x'), tagged("B", 'x')])).unwrap_err();
    match &err {
        GenError::DuplicateChar { ch, first, second } => {
            assert_eq!(*ch, 'x');
            assert_eq!(first, "A");
            assert_eq!(second, "B");
        }
        other => panic!("wrong failure: {}", other.message()),
    }
    assert_eq!(err.message(), "EnumChar variants B and A using the same char x");
}

// The walk reports the first duplicating variant against the first holder of
// the character, even when they are not adjacent.
#[test]
fn test_duplicate_char_not_adjacent() {
    let err =
        my_derive(&enum_input("E", vec![tagged("A", 'x'), tagged("B", 'y'), tagged("C", 'x')]))
            .unwrap_err();
    assert_eq!(err.message(), "EnumChar variants C and A using the same char x");
}

// Untagged variants never take part in uniqueness: two of them do not clash.
#[test]
fn test_untagged_skip_uniqueness() {
    let codec =
        my_derive(&enum_input("E", vec![tagged("A", 'x'), untagged("B"), untagged("C")])).unwrap();
    assert!(!codec.has_display());
    assert_eq!(codec.try_from_char('x').unwrap(), 0);
}

// Scenario: a type with no tags at all {A} is Partial; char to value always
// fails, value to char fails, and no display capability exists.
#[test]
fn test_no_tags_at_all() {
    let codec = my_derive(&enum_input("E", vec![untagged("A")])).unwrap();
    assert!(!codec.has_display());
    assert!(codec.try_from_char('a').is_err());
    assert!(codec.try_from_char('z').is_err());
    assert!(codec.try_into_char(0).is_err());
    assert!(codec.from_str("a").is_err());
}

// A description that is not an enumerated type fails generation.
#[test]
fn test_not_an_enum() {
    let input = DeriveSource { name: "S".to_string(), data: DataSource::NotEnumData };
    let err = my_derive(&input).unwrap_err();
    assert!(matches!(err, GenError::NotAnEnum { .. }));
    assert_eq!(err.message(), "EnumChar can only be used with enums");
}

// A tag entry whose argument is a literal of another kind, or not a literal
// at all, fails generation at that variant.
#[test]
fn test_invalid_char_literal() {
    let bad_lit = with_attrs("A", vec![MetaEntry { is_tag: true, arg: MetaArg::OtherLit }]);
    let err = my_derive(&enum_input("E", vec![bad_lit])).unwrap_err();
    assert_eq!(err.message(), "variant A has invalid EnumChar char type");

    let not_lit = with_attrs("B", vec![MetaEntry { is_tag: true, arg: MetaArg::NonLit }]);
    let err = my_derive(&enum_input("E", vec![tagged("A", 'x'), not_lit])).unwrap_err();
    assert_eq!(err.message(), "variant B has invalid EnumChar char type");
}

// The first recognized entry of a variant is honored and the rest ignored;
// unrecognized entries and entries whose argument does not parse are skipped.
#[test]
fn test_first_match_policy() {
    let v = with_attrs(
        "A",
        vec![
            MetaEntry { is_tag: false, arg: MetaArg::OtherLit },
            MetaEntry { is_tag: true, arg: MetaArg::NoParse },
            MetaEntry { is_tag: true, arg: MetaArg::CharLit('a') },
            MetaEntry { is_tag: true, arg: MetaArg::CharLit('b') },
        ],
    );
    let codec = my_derive(&enum_input("E", vec![v])).unwrap();
    assert_eq!(codec.try_from_char('a').unwrap(), 0);
    assert!(codec.try_from_char('b').is_err());
    assert!(codec.has_display());
}

// A variant whose only recognized entry has an argument that does not parse
// to an expression is treated as untagged, not as a failure.
#[test]
fn test_unparseable_argument_is_untagged() {
    let v = with_attrs("A", vec![MetaEntry { is_tag: true, arg: MetaArg::NoParse }]);
    let codec = my_derive(&enum_input("E", vec![v])).unwrap();
    assert!(!codec.has_display());
    assert!(codec.try_into_char(0).is_err());
}

// Round trip on a Total type: every variant comes back from its own tag.
#[test]
fn test_round_trip_all_variants() {
    let codec = my_derive(&enum_input(
        "Grid",
        vec![tagged("Wall", '#'), tagged("Empty", '.'), tagged("Start", 'S'), tagged("End", 'E')],
    ))
    .unwrap();
    for v in 0..codec.len() {
        let c = codec.into_char(v);
        assert_eq!(codec.try_from_char(c).unwrap(), v);
    }
}

// Injectivity on concrete values: distinct variants carry distinct tags.
#[test]
fn test_injectivity_concrete() {
    let codec = cell_codec();
    let mut chars: Vec<char> = Vec::new();
    for v in 0..codec.len() {
        chars.push(codec.into_char(v));
    }
    for i in 0..chars.len() {
        for j in 0..chars.len() {
            if i != j {
                assert_ne!(chars[i], chars[j]);
            }
        }
    }
}

// Parse agrees with the char-to-value conversion on concrete inputs: each
// single-character string succeeds exactly when its character does, with the
// same value.
#[test]
fn test_parse_equals_char_conversion() {
    let codec = cell_codec();
    for c in ['#', '.', 'z', 'S'] {
        let s = c.to_string();
        match (codec.from_str(&s), codec.try_from_char(c)) {
            (Ok(i), Ok(j)) => assert_eq!(i, j),
            (Err(_), Err(_)) => {}
            _ => panic!("parse and char conversion disagree on {:?}", c),
        }
    }
}
