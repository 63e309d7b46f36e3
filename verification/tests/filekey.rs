use tpsecore::filekey::parse_filekey;
use tpsecore::import_types::{
    AnimatedOptions, BackgroundType, ImportType, OtherSkinType, SkinType, TypeStage1,
};

#[test]
fn from_filekey() {
    assert_eq!(ImportType::from_filekey("foo"), None);
    assert_eq!(
        ImportType::from_filekey("_animated_connected_minos_delay=20_combine=false"),
        Some(ImportType::Skin {
            subtype: SkinType::Tetrio61ConnectedAnimated {
                opts: AnimatedOptions { delay: Some(20), combine: Some(false) }
            }
        })
    );
}

#[test]
fn parse_filekey_test_parse_filekey() {
    assert_eq!(parse_filekey("foo"), None);
    assert_eq!(
        parse_filekey("_animated_connected_minos_delay=20_combine=false"),
        Some(ImportType::Skin {
            subtype: SkinType::Tetrio61ConnectedAnimated {
                opts: AnimatedOptions { delay: Some(20), combine: Some(false) }
            }
        })
    );
}

#[test]
fn import_type_test_parse_filekey() {
    assert_eq!(TypeStage1::parse_filekey("foo"), None);
    assert_eq!(
        TypeStage1::parse_filekey("_animated_connected_minos_delay=20_combine=false"),
        Some(TypeStage1::Skin {
            subtype: SkinType::Tetrio61ConnectedAnimated {
                opts: AnimatedOptions { delay: Some(20), combine: Some(false) }
            }
        })
    );
}

#[test]
fn longer_filekey_wins() {
    assert_eq!(
        TypeStage1::parse_filekey("skin_old_tetrio_svg.svg"),
        Some(TypeStage1::Skin { subtype: SkinType::TetrioSVG })
    );
    assert_eq!(
        TypeStage1::parse_filekey("skin_old_tetrio.png"),
        Some(TypeStage1::Skin { subtype: SkinType::TetrioRaster })
    );
    assert_eq!(
        TypeStage1::parse_filekey("a_rank_s_plus.png"),
        Some(TypeStage1::OtherSkin { subtype: OtherSkinType::RankSPlus })
    );
    assert_eq!(
        TypeStage1::parse_filekey("bg_video_background.mp4"),
        Some(TypeStage1::Background { subtype: BackgroundType::Video })
    );
}

#[test]
fn filekey_roundtrips_for_plain_types() {
    let types = [
        TypeStage1::TPSE,
        TypeStage1::Zip,
        TypeStage1::Music,
        TypeStage1::SoundEffects,
        TypeStage1::Skin { subtype: SkinType::Tetrio61 },
        TypeStage1::Skin { subtype: SkinType::Tetrio61ConnectedGhost },
        TypeStage1::Skin { subtype: SkinType::JstrisConnected },
        TypeStage1::OtherSkin { subtype: OtherSkinType::Board },
        TypeStage1::OtherSkin { subtype: OtherSkinType::ParticleBeamsBeam },
        TypeStage1::OtherSkin { subtype: OtherSkinType::RankZ },
        TypeStage1::Background { subtype: BackgroundType::Image },
    ];
    for t in types.iter() {
        assert_eq!(TypeStage1::parse_filekey(t.filekey()), Some(*t));
    }
}

#[test]
fn filekey_values() {
    assert_eq!(TypeStage1::TPSE.filekey(), "__tpse");
    assert_eq!(TypeStage1::Skin { subtype: SkinType::Tetrio61 }.filekey(), "_unconnected_minos");
    assert_eq!(
        TypeStage1::Skin { subtype: SkinType::JstrisAnimated { opts: AnimatedOptions { delay: None, combine: None } } }
            .filekey(),
        "_animated_jstris"
    );
}

#[test]
fn animated_options_from_filename() {
    assert_eq!(
        AnimatedOptions::from_filename("x_delay=7.gif"),
        AnimatedOptions { delay: Some(7), combine: None }
    );
    assert_eq!(
        AnimatedOptions::from_filename("x_combine=true"),
        AnimatedOptions { delay: None, combine: Some(true) }
    );
    assert_eq!(
        AnimatedOptions::from_filename("plain.gif"),
        AnimatedOptions { delay: None, combine: None }
    );
    assert!(!AnimatedOptions::from_filename("plain.gif").has_fields());
    assert!(AnimatedOptions::from_filename("a_delay=3").has_fields());
}

#[test]
fn animated_filekey_carries_options() {
    assert_eq!(
        TypeStage1::parse_filekey("s_animated_jstris_delay=5.gif"),
        Some(TypeStage1::Skin {
            subtype: SkinType::JstrisAnimated { opts: AnimatedOptions { delay: Some(5), combine: None } }
        })
    );
}

#[test]
fn every_filekey_parses_back_to_its_type() {
    let none = AnimatedOptions { delay: None, combine: None };
    let all = TypeStage1::possibilities_vec(none);
    assert_eq!(all.len(), 54);
    for (i, t) in all.iter().enumerate() {
        assert_eq!(TypeStage1::parse_filekey(t.filekey()), Some(*t));
        for u in all[i + 1..].iter() {
            assert_ne!(t.filekey(), u.filekey());
        }
    }
}
