use tpsecore::decide::{decide_audio_type, decide_image_type, decide_specific_type, Decision};
use tpsecore::guess::{AspectRatios, TextureGuess, TextureGuessKind};
use tpsecore::import_types::{BackgroundType, ImportType, OtherSkinType, SkinType};
use tpsecore::inter_stage::TypeStage2;
use tpsecore::radiance::{parse_radiance_sound_definition, TetrioAssetMetadataParseFailure};

fn no_ratios() -> AspectRatios {
    AspectRatios { near_12_4: false, near_9: false, near_9_20: false }
}

fn le(v: u32) -> [u8; 4] {
    v.to_le_bytes()
}

/// A sound definition with the given sprites (name, offset) and end offset, and audio bytes.
fn rsd(sprites: &[(&str, f32)], end: f32, audio: &[u8]) -> Vec<u8> {
    let mut out = b"tRSD".to_vec();
    out.extend_from_slice(&le(1));
    out.extend_from_slice(&le(0));
    for (name, offset) in sprites {
        out.extend_from_slice(&le(offset.to_bits()));
        out.extend_from_slice(&le(name.len() as u32));
        out.extend_from_slice(name.as_bytes());
    }
    out.extend_from_slice(&le(end.to_bits()));
    out.extend_from_slice(&le(0));
    out.extend_from_slice(&le(audio.len() as u32));
    out.extend_from_slice(audio);
    out
}

#[test]
fn decide_from_name() {
    assert_eq!(
        decide_specific_type(ImportType::Automatic, "x/skin_connected_minos.png"),
        Decision::Decided(TypeStage2::Skin { subtype: SkinType::Tetrio61Connected })
    );
    assert_eq!(decide_specific_type(ImportType::Automatic, "pack/pack.json"), Decision::Decided(TypeStage2::PackJson));
    assert_eq!(decide_specific_type(ImportType::Automatic, "a.zip"), Decision::Zip);
    assert_eq!(decide_specific_type(ImportType::Automatic, "a.png"), Decision::NeedsImageDimensions);
    assert_eq!(decide_specific_type(ImportType::Automatic, "a.ogg"), Decision::NeedsSoundEffectNames);
    assert_eq!(
        decide_specific_type(ImportType::Automatic, "a.mp4"),
        Decision::Decided(TypeStage2::Background { subtype: BackgroundType::Video })
    );
    assert_eq!(decide_specific_type(ImportType::Automatic, "readme.txt"), Decision::Decided(TypeStage2::Unknown));
    assert_eq!(decide_specific_type(ImportType::Music, "a.png"), Decision::Decided(TypeStage2::Music));
    // "pack.json" must be the whole file name.
    assert_eq!(decide_specific_type(ImportType::Automatic, "mypack.json"), Decision::Decided(TypeStage2::Unknown));
}

#[test]
fn decide_images() {
    assert_eq!(
        decide_image_type("bg.png", 1920, 1080, no_ratios()),
        TypeStage2::Background { subtype: BackgroundType::Image }
    );
    assert_eq!(
        decide_image_type("bg.gif", 1920, 1080, no_ratios()),
        TypeStage2::Background { subtype: BackgroundType::Video }
    );
    assert_eq!(decide_image_type("b.png", 12, 2, no_ratios()), TypeStage2::OtherSkin { subtype: OtherSkinType::ParticleBeam });
    assert_eq!(
        decide_image_type("t.png", 256, 256, no_ratios()),
        TypeStage2::WeakTexture {
            first_guess: TextureGuess { width: 256, height: 256, kind: TextureGuessKind::Skin(SkinType::Tetrio61) },
            second_guess: Some(TextureGuess {
                width: 256,
                height: 256,
                kind: TextureGuessKind::Skin(SkinType::Tetrio61ConnectedGhost)
            }),
            third_guess: None,
        }
    );
}

#[test]
fn parse_sound_definition() {
    let bytes = rsd(&[("hold", 0.0), ("harddrop", 0.5)], 1.5, &[7, 8, 9]);
    let def = parse_radiance_sound_definition(&bytes).ok().expect("well-formed definition");
    assert_eq!(def.version, (1, 0));
    assert_eq!(def.sprites.len(), 2);
    assert_eq!(def.sprites[0].name, "hold");
    assert_eq!(def.sprites[0].offset, 0.0f32.to_bits());
    assert_eq!(def.sprites[0].end, 0.5f32.to_bits());
    assert_eq!(def.sprites[1].name, "harddrop");
    assert_eq!(def.sprites[1].end, 1.5f32.to_bits());
    assert_eq!(def.audio_buffer, &[7, 8, 9]);
    assert_eq!(decide_audio_type("sfx/hold.ogg", &def), TypeStage2::SoundEffects);
    assert_eq!(decide_audio_type("music/theme.ogg", &def), TypeStage2::WeakAudio);
}

#[test]
fn sound_definition_errors() {
    let short = b"tRSD".to_vec();
    assert!(matches!(
        parse_radiance_sound_definition(&short),
        Err(TetrioAssetMetadataParseFailure::SoundEffectsAtlasEOF)
    ));
    let mut trailing = rsd(&[("a", 0.0)], 1.0, &[1]);
    trailing.push(0);
    let len = trailing.len();
    match parse_radiance_sound_definition(&trailing) {
        Err(TetrioAssetMetadataParseFailure::SoundEffectsAtlasExpectedEOF { position, length }) => {
            assert_eq!(position, len - 1);
            assert_eq!(length, len);
        },
        _ => panic!("expected a trailing data error"),
    }
    let mut long_name = b"tRSD".to_vec();
    long_name.extend_from_slice(&le(1));
    long_name.extend_from_slice(&le(0));
    long_name.extend_from_slice(&le(0));
    long_name.extend_from_slice(&le(1001));
    assert!(matches!(
        parse_radiance_sound_definition(&long_name),
        Err(TetrioAssetMetadataParseFailure::SoundEffectsAtlasNameTooLong { sprite: 0, length: 1001 })
    ));
    let mut bad_utf8 = b"tRSD".to_vec();
    bad_utf8.extend_from_slice(&le(1));
    bad_utf8.extend_from_slice(&le(0));
    bad_utf8.extend_from_slice(&le(0));
    bad_utf8.extend_from_slice(&le(1));
    bad_utf8.push(0xff);
    assert!(matches!(
        parse_radiance_sound_definition(&bad_utf8),
        Err(TetrioAssetMetadataParseFailure::SoundEffectsAtlasSpriteNameUTF8Error { sprite: 0, .. })
    ));
}
