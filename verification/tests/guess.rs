use tpsecore::guess::{
    guess_other, guess_skin, guess_texture_format, AspectRatios, FileType, TextureGuess,
    TextureGuessKind,
};
use tpsecore::import_types::{AnimatedOptions, OtherSkinType, SkinType};

fn no_ratios() -> AspectRatios {
    AspectRatios { near_12_4: false, near_9: false, near_9_20: false }
}

#[test]
fn file_type_from_extension() {
    assert_eq!(FileType::from_extension("pack.zip"), Some(FileType::Zip));
    assert_eq!(FileType::from_extension("content.tpse"), Some(FileType::TPSE));
    assert_eq!(FileType::from_extension("a/b/skin.jpeg"), Some(FileType::Image));
    assert_eq!(FileType::from_extension("clip.webm"), Some(FileType::Video));
    assert_eq!(FileType::from_extension("song.flac"), Some(FileType::Audio));
    assert_eq!(FileType::from_extension("notes.txt"), None);
    // A name without an extension is taken as the extension itself.
    assert_eq!(FileType::from_extension("png"), Some(FileType::Image));
}

#[test]
fn guess_other_by_dimensions() {
    assert_eq!(guess_other(512, 512), Some(OtherSkinType::Board));
    assert_eq!(guess_other(1024, 1024), Some(OtherSkinType::Grid));
    assert_eq!(guess_other(133, 4), Some(OtherSkinType::ParticleBeamsBeam));
    assert_eq!(guess_other(100, 100), None);
}

#[test]
fn guess_skin_by_dimensions() {
    let none = AnimatedOptions { delay: None, combine: None };
    let png = Some("png".to_string());
    let svg = Some("svg".to_string());
    assert_eq!(guess_skin(&png, 256, 256, false, false, none, no_ratios()), Some(SkinType::Tetrio61));
    assert_eq!(guess_skin(&png, 256, 256, false, true, none, no_ratios()), None);
    assert_eq!(guess_skin(&svg, 372, 30, false, false, none, no_ratios()), Some(SkinType::TetrioSVG));
    assert_eq!(guess_skin(&png, 372, 30, false, false, none, no_ratios()), Some(SkinType::TetrioRaster));
    assert_eq!(
        guess_skin(&png, 1024, 1024, true, false, none, no_ratios()),
        Some(SkinType::Tetrio61ConnectedAnimated { opts: none })
    );
    let ratios = AspectRatios { near_12_4: false, near_9: true, near_9_20: false };
    assert_eq!(guess_skin(&png, 90, 10, false, false, none, ratios), Some(SkinType::JstrisConnected));
    assert_eq!(
        guess_skin(&png, 90, 10, true, false, none, ratios),
        Some(SkinType::JstrisAnimated { opts: none })
    );
}

#[test]
fn guess_texture_format_lists_all_guesses_in_order() {
    let guesses = guess_texture_format("thing.png", 512, 512, no_ratios());
    let expected = [
        TextureGuess { width: 512, height: 512, kind: TextureGuessKind::Skin(SkinType::Tetrio61ConnectedGhost) },
        TextureGuess { width: 512, height: 512, kind: TextureGuessKind::Skin(SkinType::Tetrio61Connected) },
        TextureGuess { width: 512, height: 512, kind: TextureGuessKind::Other(OtherSkinType::Board) },
    ];
    assert_eq!(guesses.as_slice(), &expected[..]);
    assert_eq!(guesses[0].dim(), [512, 512]);
}

#[test]
fn guess_texture_format_animated_gif() {
    let none = AnimatedOptions { delay: None, combine: None };
    let guesses = guess_texture_format("anim.gif", 1024, 1024, no_ratios());
    let expected = [
        TextureGuess {
            width: 1024,
            height: 1024,
            kind: TextureGuessKind::Skin(SkinType::Tetrio61ConnectedAnimated { opts: none }),
        },
        TextureGuess { width: 1024, height: 1024, kind: TextureGuessKind::Other(OtherSkinType::Grid) },
    ];
    assert_eq!(guesses.as_slice(), &expected[..]);
    assert_eq!(guess_texture_format("x.png", 7, 7, no_ratios()).len(), 0);
}

#[test]
fn skin_guess_format() {
    assert_eq!(SkinType::guess_format("skin.svg", 372, 30, no_ratios()), Some(SkinType::TetrioSVG));
    assert_eq!(SkinType::guess_format("skin.png", 256, 256, no_ratios()), Some(SkinType::Tetrio61Connected));
    assert_eq!(
        SkinType::guess_format("skin_delay=4.png", 128, 128, no_ratios()),
        Some(SkinType::Tetrio61ConnectedGhostAnimated { opts: AnimatedOptions { delay: Some(4), combine: None } })
    );
}

#[test]
fn skin_type_properties() {
    let none = AnimatedOptions { delay: None, combine: None };
    assert_eq!(SkinType::Tetrio61.canonical_tex_size(), Some([256, 256]));
    assert_eq!(SkinType::Tetrio61Ghost.canonical_tex_size(), Some([128, 128]));
    assert_eq!(SkinType::Tetrio61ConnectedGhost.canonical_tex_size(), Some([512, 512]));
    assert_eq!(SkinType::JstrisRaster.canonical_tex_size(), None);
    assert_eq!(SkinType::Tetrio61.has_minos_and_ghost(), (true, false));
    assert_eq!(SkinType::Tetrio61Ghost.has_minos_and_ghost(), (false, true));
    assert_eq!(SkinType::TetrioRaster.has_minos_and_ghost(), (true, true));
    assert_eq!(SkinType::TetrioRaster.get_anim_options(), None);
    let opts = AnimatedOptions { delay: Some(3), combine: Some(true) };
    assert_eq!(SkinType::JstrisAnimated { opts }.get_anim_options(), Some(opts));
    assert_eq!(SkinType::TetrioAnimated { opts: none }.get_anim_options(), Some(none));
}
