use tpsecore::inter_stage::SoundEffect;
use tpsecore::radiance::{AtlasReadHelper, TetrioAssetMetadataParseFailure};
use tpsecore::text::{parse_bool, parse_u32, str_contains, str_equals, u32_decimal};

#[test]
fn parse_numbers_and_flags() {
    assert_eq!(parse_u32("20"), Some(20));
    assert_eq!(parse_u32("0"), Some(0));
    assert_eq!(parse_u32("4294967295"), Some(u32::MAX));
    assert_eq!(parse_u32("4294967296"), None);
    assert_eq!(parse_u32(""), None);
    assert_eq!(parse_u32("1a"), None);
    assert_eq!(parse_bool("true"), Some(true));
    assert_eq!(parse_bool("false"), Some(false));
    assert_eq!(parse_bool("True"), None);
}

#[test]
fn decimal_text() {
    assert_eq!(u32_decimal(0), "0");
    assert_eq!(u32_decimal(1024), "1024");
    assert_eq!(u32_decimal(u32::MAX), "4294967295");
}

#[test]
fn string_comparisons() {
    assert!(str_equals("abc", "abc"));
    assert!(!str_equals("abc", "abd"));
    assert!(str_contains("skin_old_tetrio.png", "_old_tetrio"));
    assert!(!str_contains("skin.png", "_old_tetrio"));
    assert!(str_contains("x", ""));
}

#[test]
fn sound_effect_extension() {
    let s = SoundEffect { name: "hold".to_string(), path: "sfx/hold.ogg".to_string(), binary: vec![] };
    assert_eq!(s.extension(), Some("ogg".to_string()));
    let t = SoundEffect { name: "x".to_string(), path: "sfx/x".to_string(), binary: vec![] };
    assert_eq!(t.extension(), None);
}

#[test]
fn atlas_reader() {
    let data = [1u8, 2, 3, 4, 5, 6];
    let mut reader = AtlasReadHelper { buffer: &data, position: 0 };
    assert_eq!(reader.read().ok(), Some([1, 2, 3, 4]));
    assert!(matches!(
        reader.assert_eof(),
        Err(TetrioAssetMetadataParseFailure::SoundEffectsAtlasExpectedEOF { position: 4, length: 6 })
    ));
    assert!(matches!(reader.read(), Err(TetrioAssetMetadataParseFailure::SoundEffectsAtlasEOF)));
    let mut again = AtlasReadHelper { buffer: &data, position: 4 };
    assert_eq!(again.read_n(2).ok(), Some(&[5u8, 6][..]));
    assert!(again.assert_eof().is_ok());
}
