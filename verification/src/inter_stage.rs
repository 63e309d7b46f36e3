//! The data handed from one import stage to the next.
use vstd::prelude::*;

use crate::guess::{TextureGuess, TextureGuessKind};
use crate::import_types::{BackgroundType, OtherSkinType, SkinType};
use crate::paths::{extension_of, path_extension};

verus! {

/// The import type of a file once its own type has been decided, before pack.json
/// files are applied: every import type but `Automatic` and `Zip`, and the weak
/// guesses that only the files around it can settle.
#[allow(inconsistent_fields)]
#[derive(Debug, Clone, Copy, PartialEq, Eq, Structural, Hash)]
pub enum TypeStage2 {
    PackJson,
    Unknown,
    TPSE,
    Skin { subtype: SkinType },
    OtherSkin { subtype: OtherSkinType },
    SoundEffects,
    Background { subtype: BackgroundType },
    Music,
    /// An image whose dimensions fit more than one texture; the guesses come in order.
    WeakTexture {
        first_guess: TextureGuess,
        second_guess: Option<TextureGuess>,
        third_guess: Option<TextureGuess>,
    },
    /// An audio file that names no known sound effect.
    WeakAudio,
}

/// The import type of a file after pack.json files were applied, as type reduction sees it.
#[allow(inconsistent_fields)]
#[derive(Debug, Clone, Copy, PartialEq, Eq, Structural, Hash)]
pub enum TypeStage3 {
    Unknown,
    /// A file that type reduction decided to leave out.
    Ignored,
    TPSE,
    Skin { subtype: SkinType },
    OtherSkin { subtype: OtherSkinType },
    SoundEffects,
    Background { subtype: BackgroundType },
    Music,
    WeakTexture {
        first_guess: TextureGuess,
        second_guess: Option<TextureGuess>,
        third_guess: Option<TextureGuess>,
    },
    WeakAudio,
}

/// The import type of a single file that an import task imports on its own.
#[allow(inconsistent_fields)]
#[derive(Debug, Clone, Copy, PartialEq, Eq, Structural, Hash)]
pub enum TypeStage4 {
    TPSE,
    Skin { subtype: SkinType },
    OtherSkin { subtype: OtherSkinType },
    Background { subtype: BackgroundType },
    Music,
}

/// The stage-three type that a stage-two type becomes; pack.json files have none.
pub open spec fn spec_stage3_of(t: TypeStage2) -> Option<TypeStage3> {
    match t {
        TypeStage2::PackJson => None,
        TypeStage2::Unknown => Some(TypeStage3::Unknown),
        TypeStage2::TPSE => Some(TypeStage3::TPSE),
        TypeStage2::Skin { subtype } => Some(TypeStage3::Skin { subtype }),
        TypeStage2::OtherSkin { subtype } => Some(TypeStage3::OtherSkin { subtype }),
        TypeStage2::SoundEffects => Some(TypeStage3::SoundEffects),
        TypeStage2::Background { subtype } => Some(TypeStage3::Background { subtype }),
        TypeStage2::Music => Some(TypeStage3::Music),
        TypeStage2::WeakTexture { first_guess, second_guess, third_guess } => Some(
            TypeStage3::WeakTexture { first_guess, second_guess, third_guess },
        ),
        TypeStage2::WeakAudio => Some(TypeStage3::WeakAudio),
    }
}

/// Narrows a stage-two type to a stage-three type; pack.json files have none.
pub fn stage3_of(t: TypeStage2) -> (r: Option<TypeStage3>)
    ensures
        r == spec_stage3_of(t),
{
    match t {
        TypeStage2::PackJson => None,
        TypeStage2::Unknown => Some(TypeStage3::Unknown),
        TypeStage2::TPSE => Some(TypeStage3::TPSE),
        TypeStage2::Skin { subtype } => Some(TypeStage3::Skin { subtype }),
        TypeStage2::OtherSkin { subtype } => Some(TypeStage3::OtherSkin { subtype }),
        TypeStage2::SoundEffects => Some(TypeStage3::SoundEffects),
        TypeStage2::Background { subtype } => Some(TypeStage3::Background { subtype }),
        TypeStage2::Music => Some(TypeStage3::Music),
        TypeStage2::WeakTexture { first_guess, second_guess, third_guess } => Some(
            TypeStage3::WeakTexture { first_guess, second_guess, third_guess },
        ),
        TypeStage2::WeakAudio => Some(TypeStage3::WeakAudio),
    }
}

/// A file on its way through the import stages, with the import type it has at that stage.
pub struct ImportFile<T> {
    pub path: String,
    pub binary: Vec<u8>,
    pub import_type: T,
}

/// One frame of an animated skin.
pub struct AnimatedSkinFrame {
    pub path: String,
    pub binary: Vec<u8>,
}

/// A custom sound effect.
pub struct SoundEffect {
    /// The name of the sound effect, usually the file name without its extension.
    pub name: String,
    pub path: String,
    pub binary: Vec<u8>,
}

impl SoundEffect {
    /// Returns the extension of the sound effect's file name.
    pub fn extension(&self) -> (r: Option<String>)
        ensures
            match r {
                Some(e) => path_extension(self.path@) == Some(e@),
                None => path_extension(self.path@) is None,
            },
    {
        extension_of(self.path.as_str())
    }
}

/// A collated unit of work that performs the actual import.
pub enum ImportTask {
    AnimatedSkinFrames(SkinType, Vec<AnimatedSkinFrame>),
    SoundEffects(Vec<SoundEffect>),
    Basic { import_type: TypeStage4, path: String, binary: Vec<u8> },
}

/// An import task seen through the paths, contents and names it carries.
pub enum TaskView {
    AnimatedSkinFrames(SkinType, Seq<(Seq<char>, Seq<u8>)>),
    /// Each sound effect as its name, path and contents.
    SoundEffects(Seq<(Seq<char>, Seq<char>, Seq<u8>)>),
    Basic(TypeStage4, Seq<char>, Seq<u8>),
}

/// A frame seen as its path and contents.
pub open spec fn frame_view(f: AnimatedSkinFrame) -> (Seq<char>, Seq<u8>) {
    (f.path@, f.binary@)
}

/// A sound effect seen as its name, path and contents.
pub open spec fn sound_effect_view(s: SoundEffect) -> (Seq<char>, Seq<char>, Seq<u8>) {
    (s.name@, s.path@, s.binary@)
}

/// What an import task carries.
pub open spec fn task_view(t: ImportTask) -> TaskView {
    match t {
        ImportTask::AnimatedSkinFrames(s, frames) => TaskView::AnimatedSkinFrames(
            s,
            frames@.map_values(|f: AnimatedSkinFrame| frame_view(f)),
        ),
        ImportTask::SoundEffects(sfx) => TaskView::SoundEffects(
            sfx@.map_values(|s: SoundEffect| sound_effect_view(s)),
        ),
        ImportTask::Basic { import_type, path, binary } => TaskView::Basic(import_type, path@, binary@),
    }
}

/// A list of import tasks seen through what they carry.
pub open spec fn tasks_view(ts: Seq<ImportTask>) -> Seq<TaskView> {
    ts.map_values(|t: ImportTask| task_view(t))
}

/// The kind of texture a guess names, as a stage-three type.
pub open spec fn guess_type(k: TextureGuessKind) -> TypeStage3 {
    match k {
        TextureGuessKind::Skin(s) => TypeStage3::Skin { subtype: s },
        TextureGuessKind::Other(o) => TypeStage3::OtherSkin { subtype: o },
    }
}

} // verus!
