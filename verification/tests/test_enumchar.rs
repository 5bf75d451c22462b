use enumchar::codec::{my_derive, EnumCodec};
use enumchar::descriptor::{DataSource, DeriveSource, MetaArg, MetaEntry, VariantSource};
use enumchar::errors::GenError;

fn tagged(name: &str, c: char) -> VariantSource {
    VariantSource {
        name: name.to_string(),
        attrs: vec![MetaEntry { is_tag: true, arg: MetaArg::CharLit(c) }],
    }
}

fn untagged(name: &str) -> VariantSource {
    VariantSource { name: name.to_string(), attrs: vec![] }
}

fn enum_input(name: &str, variants: Vec<VariantSource>) -> DeriveSource {
    DeriveSource { name: name.to_string(), data: DataSource::EnumData(variants) }
}

fn derive_ok(name: &str, variants: Vec<VariantSource>) -> Result<EnumCodec, String> {
    my_derive(&enum_input(name, variants)).map_err(|e: GenError| e.message())
}

#[test]
pub fn test_allvariants_tryfrom_char() -> Result<(), String> {
    let codec = derive_ok("ECAllVariants", vec![tagged("Wall", '#'), tagged("Empty", '.')])?;
    let wall: usize = 0;
    let empty: usize = 1;
    assert_eq!(codec.try_from_char('.').map_err(|e| e.message())?, empty);
    assert_eq!(codec.try_from_char('#').map_err(|e| e.message())?, wall);
    assert_eq!(codec.from_str("#").map_err(|e| e.message())?, wall);
    assert!(matches!(codec.try_from_char('z'), Err(_)));
    assert!(matches!(codec.from_str("z"), Err(_)));
    assert_eq!(codec.try_into_char(empty).map_err(|e| e.message())?, '.');
    assert_eq!(codec.try_into_char(wall).map_err(|e| e.message())?, '#');
    // As every variant carries a char, the infallible shape exists too
    assert_eq!(codec.into_char(empty), '.');
    assert_eq!(codec.into_char(wall), '#');
    assert_eq!(codec.display(wall), "#");
    Ok(())
}

#[test]
pub fn test_somevariants_tryfrom_char() -> Result<(), String> {
    let codec = derive_ok(
        "ECSomeVariants",
        vec![tagged("Wall", '#'), tagged("Empty", '.'), untagged("Other")],
    )?;
    let wall: usize = 0;
    let empty: usize = 1;
    let other: usize = 2;
    assert_eq!(codec.try_from_char('.').map_err(|e| e.message())?, empty);
    assert_eq!(codec.try_from_char('#').map_err(|e| e.message())?, wall);
    assert_eq!(codec.from_str("#").map_err(|e| e.message())?, wall);
    assert!(matches!(codec.try_from_char('z'), Err(_)));
    assert!(matches!(codec.from_str("z"), Err(_)));
    assert_eq!(codec.try_into_char(empty).map_err(|e| e.message())?, '.');
    assert_eq!(codec.try_into_char(wall).map_err(|e| e.message())?, '#');
    assert!(matches!(codec.try_into_char(other), Err(_)));
    Ok(())
}
