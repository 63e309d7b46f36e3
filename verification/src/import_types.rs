//! The import types: what a file can be imported as, at each stage of the import.
use vstd::prelude::*;

verus! {

/// Animation settings parsed out of a file name.
#[derive(Debug, Clone, Copy, PartialEq, Eq, Structural, Hash, Default)]
pub struct AnimatedOptions {
    /// A frame rate to override with, in game frames per image frame.
    pub delay: Option<u32>,
    /// A combine frames setting to override with.
    pub combine: Option<bool>,
}

impl AnimatedOptions {
    /// No setting at all.
    pub open spec fn none() -> AnimatedOptions {
        AnimatedOptions { delay: None, combine: None }
    }

    /// Whether any setting is present.
    pub fn has_fields(&self) -> (r: bool)
        ensures
            r == (self.delay is Some || self.combine is Some),
    {
        self.delay.is_some() || self.combine.is_some()
    }
}

/// How a background should be imported.
#[derive(Debug, Clone, Copy, PartialEq, Eq, Structural, Hash)]
pub enum BackgroundType {
    Video,
    Image,
}

/// The block skin formats.
#[derive(Debug, Clone, Copy, PartialEq, Eq, Structural, Hash)]
pub enum SkinType {
    /// The unconnected minos format used after TETR.IO v6.1.0.
    Tetrio61,
    /// The unconnected ghost format used after TETR.IO v6.1.0.
    Tetrio61Ghost,
    /// The connected minos format used after TETR.IO v6.1.0.
    Tetrio61Connected,
    /// The connected ghost format used after TETR.IO v6.1.0.
    Tetrio61ConnectedGhost,
    Tetrio61ConnectedAnimated { opts: AnimatedOptions },
    Tetrio61ConnectedGhostAnimated { opts: AnimatedOptions },
    /// The vector format used before TETR.IO v6.1.0.
    TetrioSVG,
    /// The raster format used before TETR.IO v6.1.0.
    TetrioRaster,
    TetrioAnimated { opts: AnimatedOptions },
    /// The format used by jstris.
    JstrisRaster,
    JstrisAnimated { opts: AnimatedOptions },
    /// The connected format of the jstris connected textures userscript.
    JstrisConnected,
}

/// Textures other than block skins.
#[derive(Debug, Clone, Copy, PartialEq, Eq, Structural, Hash)]
pub enum OtherSkinType {
    Board,
    Queue,
    Grid,
    ParticleBeam,
    ParticleBeamsBeam,
    ParticleBigBox,
    ParticleBox,
    ParticleChip,
    ParticleChirp,
    ParticleDust,
    ParticleFBox,
    ParticleFire,
    ParticleParticle,
    ParticleSmoke,
    ParticleStar,
    ParticleFlake,
    RankD,
    RankDPlus,
    RankCMinus,
    RankC,
    RankCPlus,
    RankBMinus,
    RankB,
    RankBPlus,
    RankAMinus,
    RankA,
    RankAPlus,
    RankSMinus,
    RankS,
    RankSPlus,
    RankSS,
    RankU,
    RankX,
    RankZ,
}

/// Metadata describing how a single file should be imported.
#[allow(inconsistent_fields)]
#[derive(Debug, Clone, Copy, PartialEq, Eq, Structural, Hash)]
pub enum ImportType {
    /// The type is decided automatically.
    Automatic,
    Zip,
    PackJson,
    Unknown,
    TPSE,
    Skin { subtype: SkinType },
    OtherSkin { subtype: OtherSkinType },
    SoundEffects,
    Background { subtype: BackgroundType },
    Music,
}

/// An import type once a specific type has been decided: every import type but `Automatic`.
#[allow(inconsistent_fields)]
#[derive(Debug, Clone, Copy, PartialEq, Eq, Structural, Hash)]
pub enum TypeStage1 {
    Zip,
    PackJson,
    Unknown,
    TPSE,
    Skin { subtype: SkinType },
    OtherSkin { subtype: OtherSkinType },
    SoundEffects,
    Background { subtype: BackgroundType },
    Music,
}

/// A distilled copy of an import type rendered to a more specific form.
#[derive(Debug, Clone, Copy, PartialEq, Eq, Structural, Hash)]
pub enum SpecificImportType {
    Zip,
    TPSE,
    Skin(SkinType),
    OtherSkin(OtherSkinType),
    SoundEffects,
    Background(BackgroundType),
    Music,
}

impl TypeStage1 {
    /// The import type that a stage-one type stands for.
    pub open spec fn spec_to_import_type(self) -> ImportType {
        match self {
            TypeStage1::Zip => ImportType::Zip,
            TypeStage1::PackJson => ImportType::PackJson,
            TypeStage1::Unknown => ImportType::Unknown,
            TypeStage1::TPSE => ImportType::TPSE,
            TypeStage1::Skin { subtype } => ImportType::Skin { subtype },
            TypeStage1::OtherSkin { subtype } => ImportType::OtherSkin { subtype },
            TypeStage1::SoundEffects => ImportType::SoundEffects,
            TypeStage1::Background { subtype } => ImportType::Background { subtype },
            TypeStage1::Music => ImportType::Music,
        }
    }

    /// Widens a stage-one type back to an import type.
    pub fn to_import_type(self) -> (r: ImportType)
        ensures
            r == self.spec_to_import_type(),
    {
        match self {
            TypeStage1::Zip => ImportType::Zip,
            TypeStage1::PackJson => ImportType::PackJson,
            TypeStage1::Unknown => ImportType::Unknown,
            TypeStage1::TPSE => ImportType::TPSE,
            TypeStage1::Skin { subtype } => ImportType::Skin { subtype },
            TypeStage1::OtherSkin { subtype } => ImportType::OtherSkin { subtype },
            TypeStage1::SoundEffects => ImportType::SoundEffects,
            TypeStage1::Background { subtype } => ImportType::Background { subtype },
            TypeStage1::Music => ImportType::Music,
        }
    }

    /// Narrows an import type to a stage-one type; only `Automatic` has none.
    pub fn from_import_type(t: ImportType) -> (r: Option<TypeStage1>)
        ensures
            r is None <==> t is Automatic,
            r matches Some(s) ==> s.spec_to_import_type() == t,
    {
        match t {
            ImportType::Automatic => None,
            ImportType::Zip => Some(TypeStage1::Zip),
            ImportType::PackJson => Some(TypeStage1::PackJson),
            ImportType::Unknown => Some(TypeStage1::Unknown),
            ImportType::TPSE => Some(TypeStage1::TPSE),
            ImportType::Skin { subtype } => Some(TypeStage1::Skin { subtype }),
            ImportType::OtherSkin { subtype } => Some(TypeStage1::OtherSkin { subtype }),
            ImportType::SoundEffects => Some(TypeStage1::SoundEffects),
            ImportType::Background { subtype } => Some(TypeStage1::Background { subtype }),
            ImportType::Music => Some(TypeStage1::Music),
        }
    }
}

impl SkinType {
    /// The animation options carried by the animated formats.
    pub open spec fn spec_anim_options(self) -> Option<AnimatedOptions> {
        match self {
            SkinType::Tetrio61ConnectedAnimated { opts } => Some(opts),
            SkinType::Tetrio61ConnectedGhostAnimated { opts } => Some(opts),
            SkinType::TetrioAnimated { opts } => Some(opts),
            SkinType::JstrisAnimated { opts } => Some(opts),
            _ => None,
        }
    }

    /// Returns the animated options for this skin format.
    pub fn get_anim_options(&self) -> (r: Option<AnimatedOptions>)
        ensures
            r == self.spec_anim_options(),
    {
        match self {
            SkinType::Tetrio61 => None,
            SkinType::Tetrio61Ghost => None,
            SkinType::Tetrio61Connected => None,
            SkinType::Tetrio61ConnectedGhost => None,
            SkinType::Tetrio61ConnectedAnimated { opts } => Some(*opts),
            SkinType::Tetrio61ConnectedGhostAnimated { opts } => Some(*opts),
            SkinType::TetrioSVG => None,
            SkinType::TetrioRaster => None,
            SkinType::TetrioAnimated { opts } => Some(*opts),
            SkinType::JstrisRaster => None,
            SkinType::JstrisAnimated { opts } => Some(*opts),
            SkinType::JstrisConnected => None,
        }
    }

    /// The canonical texture size of the format, where it has one.
    pub open spec fn spec_canonical_tex_size(self) -> Option<(u32, u32)> {
        match self {
            SkinType::Tetrio61 => Some((256, 256)),
            SkinType::Tetrio61Ghost => Some((128, 128)),
            SkinType::Tetrio61Connected => Some((1024, 1024)),
            SkinType::Tetrio61ConnectedGhost => Some((512, 512)),
            SkinType::Tetrio61ConnectedAnimated { .. } => Some((1024, 1024)),
            SkinType::Tetrio61ConnectedGhostAnimated { .. } => Some((512, 512)),
            SkinType::TetrioSVG => Some((372, 30)),
            SkinType::TetrioRaster => Some((372, 30)),
            SkinType::TetrioAnimated { .. } => Some((372, 30)),
            SkinType::JstrisRaster => None,
            SkinType::JstrisAnimated { .. } => None,
            SkinType::JstrisConnected => None,
        }
    }

    /// Returns the canonical `[width, height]` of the format's texture, if it has a fixed one.
    pub fn canonical_tex_size(&self) -> (r: Option<[u32; 2]>)
        ensures
            match self.spec_canonical_tex_size() {
                Some((w, h)) => r matches Some(a) && a@ == seq![w, h],
                None => r is None,
            },
    {
        match self {
            SkinType::Tetrio61 => Some([256, 256]),
            SkinType::Tetrio61Ghost => Some([128, 128]),
            SkinType::Tetrio61Connected => Some([1024, 1024]),
            SkinType::Tetrio61ConnectedGhost => Some([512, 512]),
            SkinType::Tetrio61ConnectedAnimated { .. } => Some([1024, 1024]),
            SkinType::Tetrio61ConnectedGhostAnimated { .. } => Some([512, 512]),
            SkinType::TetrioSVG => Some([372, 30]),
            SkinType::TetrioRaster => Some([372, 30]),
            SkinType::TetrioAnimated { .. } => Some([372, 30]),
            SkinType::JstrisRaster => None,
            SkinType::JstrisAnimated { .. } => None,
            SkinType::JstrisConnected => None,
        }
    }

    /// Which of minos and ghost the format carries.
    pub open spec fn spec_has_minos_and_ghost(self) -> (bool, bool) {
        match self {
            SkinType::TetrioAnimated { .. } => (true, true),
            SkinType::Tetrio61ConnectedAnimated { .. } => (true, false),
            SkinType::Tetrio61ConnectedGhostAnimated { .. } => (false, true),
            SkinType::JstrisAnimated { .. } => (true, true),
            SkinType::TetrioSVG => (true, true),
            SkinType::TetrioRaster => (true, true),
            SkinType::Tetrio61 => (true, false),
            SkinType::Tetrio61Ghost => (false, true),
            SkinType::Tetrio61Connected => (true, false),
            SkinType::Tetrio61ConnectedGhost => (false, true),
            SkinType::JstrisRaster => (true, true),
            SkinType::JstrisConnected => (true, true),
        }
    }

    /// Returns whether the format holds mino textures and whether it holds ghost textures.
    pub fn has_minos_and_ghost(&self) -> (r: (bool, bool))
        ensures
            r == self.spec_has_minos_and_ghost(),
    {
        match self {
            SkinType::TetrioAnimated { .. } => (true, true),
            SkinType::Tetrio61ConnectedAnimated { .. } => (true, false),
            SkinType::Tetrio61ConnectedGhostAnimated { .. } => (false, true),
            SkinType::JstrisAnimated { .. } => (true, true),
            SkinType::TetrioSVG => (true, true),
            SkinType::TetrioRaster => (true, true),
            SkinType::Tetrio61 => (true, false),
            SkinType::Tetrio61Ghost => (false, true),
            SkinType::Tetrio61Connected => (true, false),
            SkinType::Tetrio61ConnectedGhost => (false, true),
            SkinType::JstrisRaster => (true, true),
            SkinType::JstrisConnected => (true, true),
        }
    }
}

/// Every block skin format carries minos, ghosts or both.
pub proof fn lemma_every_skin_has_minos_or_ghost(s: SkinType)
    ensures
        s.spec_has_minos_and_ghost().0 || s.spec_has_minos_and_ghost().1,
{
}

/// A skin format is animated exactly when it carries animation options.
pub open spec fn is_animated_skin(s: SkinType) -> bool {
    ||| s is Tetrio61ConnectedAnimated
    ||| s is Tetrio61ConnectedGhostAnimated
    ||| s is TetrioAnimated
    ||| s is JstrisAnimated
}

/// The animated formats are exactly those with animation options.
pub proof fn lemma_anim_options_iff_animated(s: SkinType)
    ensures
        s.spec_anim_options() is Some <==> is_animated_skin(s),
{
}

} // verus!
