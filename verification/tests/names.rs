use tpsecore::import_types::{
    AnimatedOptions, BackgroundType, ImportType, OtherSkinType, SkinType, SpecificImportType,
    TypeStage1,
};
use tpsecore::packjson::PackMetadata;

#[test]
fn other_skin_names() {
    assert_eq!(OtherSkinType::Board.name(), "board");
    assert_eq!(OtherSkinType::ParticleFBox.name(), "particle_f_box");
    assert_eq!(OtherSkinType::RankSPlus.name(), "rank_s_plus");
    assert_eq!(BackgroundType::Video.name(), "video");
}

#[test]
fn animated_options_describe() {
    let opts = AnimatedOptions { delay: Some(20), combine: Some(false) };
    assert_eq!(opts.describe(), "at a 20 frame delay and drawn unoptimized (replace)");
    let none = AnimatedOptions { delay: None, combine: None };
    assert_eq!(none.describe(), "at a unspecified delay and drawn unspecified");
    let combined = AnimatedOptions { delay: Some(0), combine: Some(true) };
    assert_eq!(combined.describe(), "at a 0 frame delay and drawn optimized (combine)");
}

#[test]
fn import_type_describe() {
    assert_eq!(ImportType::Automatic.describe(), "automatic");
    assert_eq!(ImportType::Skin { subtype: SkinType::JstrisRaster }.describe(), "jstris skin");
    assert_eq!(ImportType::OtherSkin { subtype: OtherSkinType::Grid }.describe(), "grid skin");
    assert_eq!(
        ImportType::Background { subtype: BackgroundType::Video }.describe(),
        "video background"
    );
    assert_eq!(
        ImportType::Skin {
            subtype: SkinType::TetrioAnimated { opts: AnimatedOptions { delay: Some(4), combine: None } }
        }
        .describe(),
        "old tetrio animated at a 4 frame delay and drawn unspecified skin"
    );
    assert_eq!(TypeStage1::Music.describe(), "music");
}

#[test]
fn specific_import_type_describe() {
    assert_eq!(SpecificImportType::SoundEffects.describe(), "sound effects");
    assert_eq!(SpecificImportType::Background(BackgroundType::Image).describe(), "image background");
    assert_eq!(SpecificImportType::Skin(SkinType::Tetrio61).describe(), "tetrio v6.1 unconnected minos skin");
}

#[test]
fn pack_metadata() {
    let empty = PackMetadata { title: None, author: None, version: None, description: None };
    assert!(!empty.has_data());
    assert_eq!(empty.describe(), "Untitled content pack (no description)");
    let full = PackMetadata {
        title: Some("Neon".to_string()),
        author: Some("someone".to_string()),
        version: Some("1.2".to_string()),
        description: Some("bright blocks".to_string()),
    };
    assert!(full.has_data());
    assert_eq!(full.describe(), "'Neon' (version 1.2) by someone: bright blocks");
}
