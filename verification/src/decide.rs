//! Deciding the import type of a single file.
//!
//! A file's type is settled from its name alone where possible. An image needs its
//! dimensions and aspect ratios, and an audio file the names of the known sound
//! effects; the caller learns which it needs and supplies it to the matching function.
use vstd::prelude::*;

use crate::filekey::lemma_parse_filekey_unique;
use crate::guess::{
    AspectRatios, FileType, TextureGuessKind, effective_extension, guess_list, guess_texture_format,
    guesses_as_slice, opt_view, spec_texture_guesses,
};
use crate::import_types::{AnimatedOptions, BackgroundType, ImportType, TypeStage1};
use crate::inter_stage::TypeStage2;
use crate::paths::{extension_of, file_name_of, file_stem_of, path_extension, path_file_name, path_file_stem};
use crate::radiance::RadianceSoundDefinition;
use crate::text::str_equals;

verus! {

/// What deciding a file's type from its name gives.
#[derive(Debug, Clone, Copy, PartialEq, Eq, Structural)]
pub enum Decision {
    /// The type is decided.
    Decided(TypeStage2),
    /// The file is a zip archive whose files are to be explored.
    Zip,
    /// The file is an image; its type follows from its dimensions.
    NeedsImageDimensions,
    /// The file is audio; its type follows from whether it names a known sound effect.
    NeedsSoundEffectNames,
}

/// The decision a stage-one type stands for.
pub open spec fn stage1_decision(t: TypeStage1) -> Decision {
    match t {
        TypeStage1::Zip => Decision::Zip,
        TypeStage1::PackJson => Decision::Decided(TypeStage2::PackJson),
        TypeStage1::Unknown => Decision::Decided(TypeStage2::Unknown),
        TypeStage1::TPSE => Decision::Decided(TypeStage2::TPSE),
        TypeStage1::Skin { subtype } => Decision::Decided(TypeStage2::Skin { subtype }),
        TypeStage1::OtherSkin { subtype } => Decision::Decided(TypeStage2::OtherSkin { subtype }),
        TypeStage1::SoundEffects => Decision::Decided(TypeStage2::SoundEffects),
        TypeStage1::Background { subtype } => Decision::Decided(TypeStage2::Background { subtype }),
        TypeStage1::Music => Decision::Decided(TypeStage2::Music),
    }
}

fn stage1_decision_exec(t: TypeStage1) -> (r: Decision)
    ensures
        r == stage1_decision(t),
{
    match t {
        TypeStage1::Zip => Decision::Zip,
        TypeStage1::PackJson => Decision::Decided(TypeStage2::PackJson),
        TypeStage1::Unknown => Decision::Decided(TypeStage2::Unknown),
        TypeStage1::TPSE => Decision::Decided(TypeStage2::TPSE),
        TypeStage1::Skin { subtype } => Decision::Decided(TypeStage2::Skin { subtype }),
        TypeStage1::OtherSkin { subtype } => Decision::Decided(TypeStage2::OtherSkin { subtype }),
        TypeStage1::SoundEffects => Decision::Decided(TypeStage2::SoundEffects),
        TypeStage1::Background { subtype } => Decision::Decided(TypeStage2::Background { subtype }),
        TypeStage1::Music => Decision::Decided(TypeStage2::Music),
    }
}

/// Whether a path names a pack.json file: its last component is exactly `pack.json`.
pub open spec fn is_pack_json_name(path: Seq<char>) -> bool {
    path_file_name(path) == Some("pack.json"@)
}

/// What deciding a file's type from its import type and path gives. An automatic type
/// is read from the file keys of the path, else from its being a pack.json, else from
/// its extension.
pub open spec fn spec_decide(import_type: ImportType, path: Seq<char>) -> Decision {
    match import_type {
        ImportType::Automatic => match TypeStage1::parsed_filekey(path, AnimatedOptions::spec_from_filename(path)) {
            Some(k) => stage1_decision(k),
            None => if is_pack_json_name(path) {
                Decision::Decided(TypeStage2::PackJson)
            } else {
                match FileType::spec_from_ext(effective_extension(path)) {
                    None => Decision::Decided(TypeStage2::Unknown),
                    Some(FileType::Zip) => Decision::Zip,
                    Some(FileType::TPSE) => Decision::Decided(TypeStage2::TPSE),
                    Some(FileType::Image) => Decision::NeedsImageDimensions,
                    Some(FileType::Video) => Decision::Decided(TypeStage2::Background { subtype: BackgroundType::Video }),
                    Some(FileType::Audio) => Decision::NeedsSoundEffectNames,
                }
            },
        },
        ImportType::Zip => Decision::Zip,
        ImportType::PackJson => Decision::Decided(TypeStage2::PackJson),
        ImportType::Unknown => Decision::Decided(TypeStage2::Unknown),
        ImportType::TPSE => Decision::Decided(TypeStage2::TPSE),
        ImportType::Skin { subtype } => Decision::Decided(TypeStage2::Skin { subtype }),
        ImportType::OtherSkin { subtype } => Decision::Decided(TypeStage2::OtherSkin { subtype }),
        ImportType::SoundEffects => Decision::Decided(TypeStage2::SoundEffects),
        ImportType::Background { subtype } => Decision::Decided(TypeStage2::Background { subtype }),
        ImportType::Music => Decision::Decided(TypeStage2::Music),
    }
}

fn is_pack_json_name_exec(path: &str) -> (r: bool)
    ensures
        r == is_pack_json_name(path@),
{
    match file_name_of(path) {
        Some(name) => str_equals(name.as_str(), "pack.json"),
        None => false,
    }
}

/// Decides what a file of the given import type and path is, as far as its path tells.
pub fn decide_specific_type(import_type: ImportType, path: &str) -> (r: Decision)
    ensures
        r == spec_decide(import_type, path@),
{
    match import_type {
        ImportType::Automatic => {
            let parsed = TypeStage1::parse_filekey(path);
            proof {
                lemma_parse_filekey_unique(path@, AnimatedOptions::spec_from_filename(path@), parsed);
            }
            match parsed {
                Some(k) => stage1_decision_exec(k),
                None => {
                    if is_pack_json_name_exec(path) {
                        Decision::Decided(TypeStage2::PackJson)
                    } else {
                        match FileType::from_extension(path) {
                            None => Decision::Decided(TypeStage2::Unknown),
                            Some(FileType::Zip) => Decision::Zip,
                            Some(FileType::TPSE) => Decision::Decided(TypeStage2::TPSE),
                            Some(FileType::Image) => Decision::NeedsImageDimensions,
                            Some(FileType::Video) => Decision::Decided(
                                TypeStage2::Background { subtype: BackgroundType::Video },
                            ),
                            Some(FileType::Audio) => Decision::NeedsSoundEffectNames,
                        }
                    }
                },
            }
        },
        ImportType::Zip => Decision::Zip,
        ImportType::PackJson => Decision::Decided(TypeStage2::PackJson),
        ImportType::Unknown => Decision::Decided(TypeStage2::Unknown),
        ImportType::TPSE => Decision::Decided(TypeStage2::TPSE),
        ImportType::Skin { subtype } => Decision::Decided(TypeStage2::Skin { subtype }),
        ImportType::OtherSkin { subtype } => Decision::Decided(TypeStage2::OtherSkin { subtype }),
        ImportType::SoundEffects => Decision::Decided(TypeStage2::SoundEffects),
        ImportType::Background { subtype } => Decision::Decided(TypeStage2::Background { subtype }),
        ImportType::Music => Decision::Decided(TypeStage2::Music),
    }
}

/// The type of an image from its texture guesses: a background where nothing fits (a
/// video background for a gif), the single guess where one fits, and a weak guess
/// where several do.
pub open spec fn spec_image_type(path: Seq<char>, width: u32, height: u32, ratios: AspectRatios) -> TypeStage2 {
    let gs = spec_texture_guesses(
        path_extension(path),
        width,
        height,
        AnimatedOptions::spec_from_filename(path),
        ratios,
    );
    if gs.len() == 0 {
        TypeStage2::Background {
            subtype: if path_extension(path) == Some("gif"@) {
                BackgroundType::Video
            } else {
                BackgroundType::Image
            },
        }
    } else if gs.len() == 1 {
        match gs[0].kind {
            TextureGuessKind::Skin(s) => TypeStage2::Skin { subtype: s },
            TextureGuessKind::Other(o) => TypeStage2::OtherSkin { subtype: o },
        }
    } else {
        TypeStage2::WeakTexture {
            first_guess: gs[0],
            second_guess: Some(gs[1]),
            third_guess: if gs.len() > 2 {
                Some(gs[2])
            } else {
                None
            },
        }
    }
}

/// Decides the type of an image from its path, its dimensions and its aspect ratios.
pub fn decide_image_type(path: &str, width: u32, height: u32, ratios: AspectRatios) -> (r: TypeStage2)
    requires
        width <= u32::MAX / 2,
        height <= u32::MAX / 2,
    ensures
        r == spec_image_type(path@, width, height, ratios),
{
    let guesses = guess_texture_format(path, width, height, ratios);
    let gs = guesses_as_slice(&guesses);
    if gs.len() == 0 {
        let ext = extension_of(path);
        let gif = match &ext {
            Some(e) => str_equals(e.as_str(), "gif"),
            None => false,
        };
        assert(gif == (path_extension(path@) == Some("gif"@)));
        TypeStage2::Background {
            subtype: if gif {
                BackgroundType::Video
            } else {
                BackgroundType::Image
            },
        }
    } else if gs.len() == 1 {
        match gs[0].kind {
            TextureGuessKind::Skin(s) => TypeStage2::Skin { subtype: s },
            TextureGuessKind::Other(o) => TypeStage2::OtherSkin { subtype: o },
        }
    } else {
        let third = if gs.len() > 2 {
            Some(gs[2])
        } else {
            None
        };
        TypeStage2::WeakTexture { first_guess: gs[0], second_guess: Some(gs[1]), third_guess: third }
    }
}

/// The type of an audio file: a sound effect where its file stem names a sprite of the
/// sound definition, else audio of unknown purpose.
pub open spec fn spec_audio_type(path: Seq<char>, names: Seq<Seq<char>>) -> TypeStage2 {
    match path_file_stem(path) {
        Some(stem) => if names.contains(stem) {
            TypeStage2::SoundEffects
        } else {
            TypeStage2::WeakAudio
        },
        None => TypeStage2::WeakAudio,
    }
}

/// The sprite names of a sound definition.
pub open spec fn sprite_names(rsd: RadianceSoundDefinition) -> Seq<Seq<char>> {
    rsd.sprites@.map_values(|s: crate::radiance::RadianceSprite| s.name@)
}

/// Decides the type of an audio file from its path and the known sound effects.
pub fn decide_audio_type(path: &str, rsd: &RadianceSoundDefinition) -> (r: TypeStage2)
    ensures
        r == spec_audio_type(path@, sprite_names(*rsd)),
{
    match file_stem_of(path) {
        Some(stem) => {
            let mut i: usize = 0;
            while i < rsd.sprites.len()
                invariant
                    path_file_stem(path@) == Some(stem@),
                    i <= rsd.sprites.len(),
                    forall|k: int| 0 <= k < i ==> rsd.sprites@[k].name@ != stem@,
                decreases rsd.sprites.len() - i,
            {
                if str_equals(rsd.sprites[i].name, stem.as_str()) {
                    assert(sprite_names(*rsd)[i as int] == stem@);
                    assert(sprite_names(*rsd).contains(stem@));
                    return TypeStage2::SoundEffects;
                }
                i = i + 1;
            }
            proof {
                if sprite_names(*rsd).contains(stem@) {
                    let k = choose|k: int| 0 <= k < sprite_names(*rsd).len() && sprite_names(*rsd)[k] == stem@;
                    assert(rsd.sprites@[k].name@ == stem@);
                }
            }
            TypeStage2::WeakAudio
        },
        None => TypeStage2::WeakAudio,
    }
}

} // verus!
