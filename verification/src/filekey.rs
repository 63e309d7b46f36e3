//! File keys: markers in file names that name the import type of a file.
use vstd::prelude::*;

use crate::import_types::{AnimatedOptions, BackgroundType, ImportType, OtherSkinType, SkinType, TypeStage1};
use crate::pattern::{capture_group, compile_pattern, regex_capture, regex_is_valid};
use crate::sfx::sfx_key;
use crate::text::{chars_of, contains_seq, occurs_at, spec_parse_bool, spec_parse_u32, parse_bool, parse_u32, vec_contains};

verus! {

/// The character sequences of a list of string slices.
pub open spec fn str_views(ks: Seq<&str>) -> Seq<Seq<char>> {
    ks.map_values(|k: &str| k@)
}

/// Key `i` is the longest key contained in `name`, and among keys of that length the last.
pub open spec fn is_longest_last(name: Seq<char>, keys: Seq<Seq<char>>, i: int) -> bool {
    &&& 0 <= i < keys.len()
    &&& contains_seq(name, keys[i])
    &&& forall|j: int|
        0 <= j < keys.len() && #[trigger] contains_seq(name, keys[j]) ==> keys[j].len() <= keys[i].len()
            && (j > i ==> keys[j].len() < keys[i].len())
}

/// Key `i` is the longest key contained in `name`, and among keys of that length the first.
pub open spec fn is_longest_first(name: Seq<char>, keys: Seq<Seq<char>>, i: int) -> bool {
    &&& 0 <= i < keys.len()
    &&& contains_seq(name, keys[i])
    &&& forall|j: int|
        0 <= j < keys.len() && #[trigger] contains_seq(name, keys[j]) ==> keys[j].len() <= keys[i].len()
            && (j < i ==> keys[j].len() < keys[i].len())
}

/// No key is contained in `name`.
pub open spec fn no_key_matches(name: Seq<char>, keys: Seq<Seq<char>>) -> bool {
    forall|j: int| 0 <= j < keys.len() ==> !#[trigger] contains_seq(name, keys[j])
}

/// Finds the longest key contained in `name`; ties go to the last such key when
/// `prefer_later` holds and to the first otherwise.
pub fn longest_match(name: &Vec<char>, keys: &Vec<&str>, prefer_later: bool) -> (r: Option<usize>)
    ensures
        r is None <==> no_key_matches(name@, str_views(keys@)),
        r matches Some(i) ==> (if prefer_later {
            is_longest_last(name@, str_views(keys@), i as int)
        } else {
            is_longest_first(name@, str_views(keys@), i as int)
        }),
{
    let ghost ks = str_views(keys@);
    let mut best: Option<usize> = None;
    let mut best_len: usize = 0;
    let mut i: usize = 0;
    while i < keys.len()
        invariant
            ks == str_views(keys@),
            ks.len() == keys@.len(),
            i <= keys@.len(),
            best is None <==> (forall|j: int| 0 <= j < i ==> !#[trigger] contains_seq(name@, ks[j])),
            best matches Some(b) ==> {
                &&& b < i
                &&& best_len == ks[b as int].len()
                &&& contains_seq(name@, ks[b as int])
                &&& forall|j: int|
                    0 <= j < i && #[trigger] contains_seq(name@, ks[j]) ==> ks[j].len() <= best_len && (
                    if prefer_later {
                        j > b ==> ks[j].len() < best_len
                    } else {
                        j < b ==> ks[j].len() < best_len
                    })
            },
        decreases keys@.len() - i,
    {
        let key = chars_of(keys[i]);
        assert(key@ == ks[i as int]);
        if vec_contains(name, &key) {
            let better = match best {
                None => true,
                Some(_) => if prefer_later {
                    key.len() >= best_len
                } else {
                    key.len() > best_len
                },
            };
            if better {
                best = Some(i);
                best_len = key.len();
            }
        }
        i = i + 1;
    }
    best
}

impl TypeStage1 {
    /// The file key of each stage-one type.
    pub open spec fn spec_filekey(self) -> Seq<char> {
        match self {
            TypeStage1::Unknown => "__unknown"@,
            TypeStage1::PackJson => "__packjson"@,
            TypeStage1::TPSE => "__tpse"@,
            TypeStage1::Zip => "__zip"@,
            TypeStage1::Skin { subtype: SkinType::Tetrio61 } => "_unconnected_minos"@,
            TypeStage1::Skin { subtype: SkinType::Tetrio61Ghost } => "_unconnected_ghost"@,
            TypeStage1::Skin { subtype: SkinType::Tetrio61Connected } => "_connected_minos"@,
            TypeStage1::Skin { subtype: SkinType::Tetrio61ConnectedGhost } => "_connected_ghost"@,
            TypeStage1::Skin { subtype: SkinType::Tetrio61ConnectedAnimated { .. } } => "_animated_connected_minos"@,
            TypeStage1::Skin { subtype: SkinType::Tetrio61ConnectedGhostAnimated { .. } } => "_animated_connected_ghost"@,
            TypeStage1::Skin { subtype: SkinType::TetrioSVG } => "_old_tetrio_svg"@,
            TypeStage1::Skin { subtype: SkinType::TetrioRaster } => "_old_tetrio"@,
            TypeStage1::Skin { subtype: SkinType::TetrioAnimated { .. } } => "_animated_old_tetrio"@,
            TypeStage1::Skin { subtype: SkinType::JstrisRaster } => "_jstris"@,
            TypeStage1::Skin { subtype: SkinType::JstrisAnimated { .. } } => "_animated_jstris"@,
            TypeStage1::Skin { subtype: SkinType::JstrisConnected } => "_connected_jstris"@,
            TypeStage1::OtherSkin { subtype: OtherSkinType::Board } => "_board"@,
            TypeStage1::OtherSkin { subtype: OtherSkinType::Queue } => "_queue"@,
            TypeStage1::OtherSkin { subtype: OtherSkinType::Grid } => "_grid"@,
            TypeStage1::OtherSkin { subtype: OtherSkinType::ParticleBeam } => "_particle_beam"@,
            TypeStage1::OtherSkin { subtype: OtherSkinType::ParticleBeamsBeam } => "_particle_beams_beam"@,
            TypeStage1::OtherSkin { subtype: OtherSkinType::ParticleBigBox } => "_particle_bigbox"@,
            TypeStage1::OtherSkin { subtype: OtherSkinType::ParticleBox } => "_particle_box"@,
            TypeStage1::OtherSkin { subtype: OtherSkinType::ParticleChip } => "_particle_chip"@,
            TypeStage1::OtherSkin { subtype: OtherSkinType::ParticleChirp } => "_particle_chirp"@,
            TypeStage1::OtherSkin { subtype: OtherSkinType::ParticleDust } => "_particle_dust"@,
            TypeStage1::OtherSkin { subtype: OtherSkinType::ParticleFBox } => "_particle_fbox"@,
            TypeStage1::OtherSkin { subtype: OtherSkinType::ParticleFire } => "_particle_fire"@,
            TypeStage1::OtherSkin { subtype: OtherSkinType::ParticleParticle } => "_particle_particle"@,
            TypeStage1::OtherSkin { subtype: OtherSkinType::ParticleSmoke } => "_particle_smoke"@,
            TypeStage1::OtherSkin { subtype: OtherSkinType::ParticleStar } => "_particle_star"@,
            TypeStage1::OtherSkin { subtype: OtherSkinType::ParticleFlake } => "_particle_flake"@,
            TypeStage1::OtherSkin { subtype: OtherSkinType::RankD } => "_rank_d"@,
            TypeStage1::OtherSkin { subtype: OtherSkinType::RankDPlus } => "_rank_d_plus"@,
            TypeStage1::OtherSkin { subtype: OtherSkinType::RankCMinus } => "_rank_c_minus"@,
            TypeStage1::OtherSkin { subtype: OtherSkinType::RankC } => "_rank_c"@,
            TypeStage1::OtherSkin { subtype: OtherSkinType::RankCPlus } => "_rank_c_plus"@,
            TypeStage1::OtherSkin { subtype: OtherSkinType::RankBMinus } => "_rank_b_minus"@,
            TypeStage1::OtherSkin { subtype: OtherSkinType::RankB } => "_rank_b"@,
            TypeStage1::OtherSkin { subtype: OtherSkinType::RankBPlus } => "_rank_b_plus"@,
            TypeStage1::OtherSkin { subtype: OtherSkinType::RankAMinus } => "_rank_a_minus"@,
            TypeStage1::OtherSkin { subtype: OtherSkinType::RankA } => "_rank_a"@,
            TypeStage1::OtherSkin { subtype: OtherSkinType::RankAPlus } => "_rank_a_plus"@,
            TypeStage1::OtherSkin { subtype: OtherSkinType::RankSMinus } => "_rank_s_minus"@,
            TypeStage1::OtherSkin { subtype: OtherSkinType::RankS } => "_rank_s"@,
            TypeStage1::OtherSkin { subtype: OtherSkinType::RankSPlus } => "_rank_s_plus"@,
            TypeStage1::OtherSkin { subtype: OtherSkinType::RankSS } => "_rank_ss"@,
            TypeStage1::OtherSkin { subtype: OtherSkinType::RankU } => "_rank_u"@,
            TypeStage1::OtherSkin { subtype: OtherSkinType::RankX } => "_rank_x"@,
            TypeStage1::OtherSkin { subtype: OtherSkinType::RankZ } => "_rank_z"@,
            TypeStage1::SoundEffects => "_sfx"@,
            TypeStage1::Music => "_music"@,
            TypeStage1::Background { subtype: BackgroundType::Image } => "_background"@,
            TypeStage1::Background { subtype: BackgroundType::Video } => "_video_background"@,
        }
    }

    /// Returns the file key for the given import type.
    pub fn filekey(&self) -> (r: &'static str)
        ensures
            r@ == self.spec_filekey(),
    {
        match self {
            TypeStage1::Unknown => "__unknown",
            TypeStage1::PackJson => "__packjson",
            TypeStage1::TPSE => "__tpse",
            TypeStage1::Zip => "__zip",
            TypeStage1::Skin { subtype: SkinType::Tetrio61 } => "_unconnected_minos",
            TypeStage1::Skin { subtype: SkinType::Tetrio61Ghost } => "_unconnected_ghost",
            TypeStage1::Skin { subtype: SkinType::Tetrio61Connected } => "_connected_minos",
            TypeStage1::Skin { subtype: SkinType::Tetrio61ConnectedGhost } => "_connected_ghost",
            TypeStage1::Skin { subtype: SkinType::Tetrio61ConnectedAnimated { .. } } => "_animated_connected_minos",
            TypeStage1::Skin { subtype: SkinType::Tetrio61ConnectedGhostAnimated { .. } } => "_animated_connected_ghost",
            TypeStage1::Skin { subtype: SkinType::TetrioSVG } => "_old_tetrio_svg",
            TypeStage1::Skin { subtype: SkinType::TetrioRaster } => "_old_tetrio",
            TypeStage1::Skin { subtype: SkinType::TetrioAnimated { .. } } => "_animated_old_tetrio",
            TypeStage1::Skin { subtype: SkinType::JstrisRaster } => "_jstris",
            TypeStage1::Skin { subtype: SkinType::JstrisAnimated { .. } } => "_animated_jstris",
            TypeStage1::Skin { subtype: SkinType::JstrisConnected } => "_connected_jstris",
            TypeStage1::OtherSkin { subtype: OtherSkinType::Board } => "_board",
            TypeStage1::OtherSkin { subtype: OtherSkinType::Queue } => "_queue",
            TypeStage1::OtherSkin { subtype: OtherSkinType::Grid } => "_grid",
            TypeStage1::OtherSkin { subtype: OtherSkinType::ParticleBeam } => "_particle_beam",
            TypeStage1::OtherSkin { subtype: OtherSkinType::ParticleBeamsBeam } => "_particle_beams_beam",
            TypeStage1::OtherSkin { subtype: OtherSkinType::ParticleBigBox } => "_particle_bigbox",
            TypeStage1::OtherSkin { subtype: OtherSkinType::ParticleBox } => "_particle_box",
            TypeStage1::OtherSkin { subtype: OtherSkinType::ParticleChip } => "_particle_chip",
            TypeStage1::OtherSkin { subtype: OtherSkinType::ParticleChirp } => "_particle_chirp",
            TypeStage1::OtherSkin { subtype: OtherSkinType::ParticleDust } => "_particle_dust",
            TypeStage1::OtherSkin { subtype: OtherSkinType::ParticleFBox } => "_particle_fbox",
            TypeStage1::OtherSkin { subtype: OtherSkinType::ParticleFire } => "_particle_fire",
            TypeStage1::OtherSkin { subtype: OtherSkinType::ParticleParticle } => "_particle_particle",
            TypeStage1::OtherSkin { subtype: OtherSkinType::ParticleSmoke } => "_particle_smoke",
            TypeStage1::OtherSkin { subtype: OtherSkinType::ParticleStar } => "_particle_star",
            TypeStage1::OtherSkin { subtype: OtherSkinType::ParticleFlake } => "_particle_flake",
            TypeStage1::OtherSkin { subtype: OtherSkinType::RankD } => "_rank_d",
            TypeStage1::OtherSkin { subtype: OtherSkinType::RankDPlus } => "_rank_d_plus",
            TypeStage1::OtherSkin { subtype: OtherSkinType::RankCMinus } => "_rank_c_minus",
            TypeStage1::OtherSkin { subtype: OtherSkinType::RankC } => "_rank_c",
            TypeStage1::OtherSkin { subtype: OtherSkinType::RankCPlus } => "_rank_c_plus",
            TypeStage1::OtherSkin { subtype: OtherSkinType::RankBMinus } => "_rank_b_minus",
            TypeStage1::OtherSkin { subtype: OtherSkinType::RankB } => "_rank_b",
            TypeStage1::OtherSkin { subtype: OtherSkinType::RankBPlus } => "_rank_b_plus",
            TypeStage1::OtherSkin { subtype: OtherSkinType::RankAMinus } => "_rank_a_minus",
            TypeStage1::OtherSkin { subtype: OtherSkinType::RankA } => "_rank_a",
            TypeStage1::OtherSkin { subtype: OtherSkinType::RankAPlus } => "_rank_a_plus",
            TypeStage1::OtherSkin { subtype: OtherSkinType::RankSMinus } => "_rank_s_minus",
            TypeStage1::OtherSkin { subtype: OtherSkinType::RankS } => "_rank_s",
            TypeStage1::OtherSkin { subtype: OtherSkinType::RankSPlus } => "_rank_s_plus",
            TypeStage1::OtherSkin { subtype: OtherSkinType::RankSS } => "_rank_ss",
            TypeStage1::OtherSkin { subtype: OtherSkinType::RankU } => "_rank_u",
            TypeStage1::OtherSkin { subtype: OtherSkinType::RankX } => "_rank_x",
            TypeStage1::OtherSkin { subtype: OtherSkinType::RankZ } => "_rank_z",
            TypeStage1::SoundEffects => "_sfx",
            TypeStage1::Music => "_music",
            TypeStage1::Background { subtype: BackgroundType::Image } => "_background",
            TypeStage1::Background { subtype: BackgroundType::Video } => "_video_background",
        }
    }

    /// The stage-one type that file keys name at position `i` of the list of possibilities.
    pub open spec fn possibility(i: int, opts: AnimatedOptions) -> TypeStage1 {
        if i == 0 {
            TypeStage1::Unknown
        } else if i == 1 {
            TypeStage1::PackJson
        } else if i == 2 {
            TypeStage1::TPSE
        } else if i == 3 {
            TypeStage1::Zip
        } else if i == 4 {
            TypeStage1::Skin { subtype: SkinType::Tetrio61 }
        } else if i == 5 {
            TypeStage1::Skin { subtype: SkinType::Tetrio61Ghost }
        } else if i == 6 {
            TypeStage1::Skin { subtype: SkinType::Tetrio61Connected }
        } else if i == 7 {
            TypeStage1::Skin { subtype: SkinType::Tetrio61ConnectedGhost }
        } else if i == 8 {
            TypeStage1::Skin { subtype: SkinType::Tetrio61ConnectedAnimated { opts } }
        } else if i == 9 {
            TypeStage1::Skin { subtype: SkinType::Tetrio61ConnectedGhostAnimated { opts } }
        } else if i == 10 {
            TypeStage1::Skin { subtype: SkinType::TetrioSVG }
        } else if i == 11 {
            TypeStage1::Skin { subtype: SkinType::TetrioRaster }
        } else if i == 12 {
            TypeStage1::Skin { subtype: SkinType::TetrioAnimated { opts } }
        } else if i == 13 {
            TypeStage1::Skin { subtype: SkinType::JstrisRaster }
        } else if i == 14 {
            TypeStage1::Skin { subtype: SkinType::JstrisAnimated { opts } }
        } else if i == 15 {
            TypeStage1::Skin { subtype: SkinType::JstrisConnected }
        } else if i == 16 {
            TypeStage1::OtherSkin { subtype: OtherSkinType::Board }
        } else if i == 17 {
            TypeStage1::OtherSkin { subtype: OtherSkinType::Queue }
        } else if i == 18 {
            TypeStage1::OtherSkin { subtype: OtherSkinType::Grid }
        } else if i == 19 {
            TypeStage1::OtherSkin { subtype: OtherSkinType::ParticleBeam }
        } else if i == 20 {
            TypeStage1::OtherSkin { subtype: OtherSkinType::ParticleBeamsBeam }
        } else if i == 21 {
            TypeStage1::OtherSkin { subtype: OtherSkinType::ParticleBigBox }
        } else if i == 22 {
            TypeStage1::OtherSkin { subtype: OtherSkinType::ParticleBox }
        } else if i == 23 {
            TypeStage1::OtherSkin { subtype: OtherSkinType::ParticleChip }
        } else if i == 24 {
            TypeStage1::OtherSkin { subtype: OtherSkinType::ParticleChirp }
        } else if i == 25 {
            TypeStage1::OtherSkin { subtype: OtherSkinType::ParticleDust }
        } else if i == 26 {
            TypeStage1::OtherSkin { subtype: OtherSkinType::ParticleFBox }
        } else if i == 27 {
            TypeStage1::OtherSkin { subtype: OtherSkinType::ParticleFire }
        } else if i == 28 {
            TypeStage1::OtherSkin { subtype: OtherSkinType::ParticleParticle }
        } else if i == 29 {
            TypeStage1::OtherSkin { subtype: OtherSkinType::ParticleSmoke }
        } else if i == 30 {
            TypeStage1::OtherSkin { subtype: OtherSkinType::ParticleStar }
        } else if i == 31 {
            TypeStage1::OtherSkin { subtype: OtherSkinType::ParticleFlake }
        } else if i == 32 {
            TypeStage1::OtherSkin { subtype: OtherSkinType::RankD }
        } else if i == 33 {
            TypeStage1::OtherSkin { subtype: OtherSkinType::RankDPlus }
        } else if i == 34 {
            TypeStage1::OtherSkin { subtype: OtherSkinType::RankCMinus }
        } else if i == 35 {
            TypeStage1::OtherSkin { subtype: OtherSkinType::RankC }
        } else if i == 36 {
            TypeStage1::OtherSkin { subtype: OtherSkinType::RankCPlus }
        } else if i == 37 {
            TypeStage1::OtherSkin { subtype: OtherSkinType::RankBMinus }
        } else if i == 38 {
            TypeStage1::OtherSkin { subtype: OtherSkinType::RankB }
        } else if i == 39 {
            TypeStage1::OtherSkin { subtype: OtherSkinType::RankBPlus }
        } else if i == 40 {
            TypeStage1::OtherSkin { subtype: OtherSkinType::RankAMinus }
        } else if i == 41 {
            TypeStage1::OtherSkin { subtype: OtherSkinType::RankA }
        } else if i == 42 {
            TypeStage1::OtherSkin { subtype: OtherSkinType::RankAPlus }
        } else if i == 43 {
            TypeStage1::OtherSkin { subtype: OtherSkinType::RankSMinus }
        } else if i == 44 {
            TypeStage1::OtherSkin { subtype: OtherSkinType::RankS }
        } else if i == 45 {
            TypeStage1::OtherSkin { subtype: OtherSkinType::RankSPlus }
        } else if i == 46 {
            TypeStage1::OtherSkin { subtype: OtherSkinType::RankSS }
        } else if i == 47 {
            TypeStage1::OtherSkin { subtype: OtherSkinType::RankU }
        } else if i == 48 {
            TypeStage1::OtherSkin { subtype: OtherSkinType::RankX }
        } else if i == 49 {
            TypeStage1::OtherSkin { subtype: OtherSkinType::RankZ }
        } else if i == 50 {
            TypeStage1::SoundEffects
        } else if i == 51 {
            TypeStage1::Music
        } else if i == 52 {
            TypeStage1::Background { subtype: BackgroundType::Image }
        } else {
            TypeStage1::Background { subtype: BackgroundType::Video }
        }
    }

    /// The number of stage-one types that file keys can name.
    pub open spec fn possibility_count() -> nat {
        54
    }

    /// Every stage-one type that file keys can name, in order, with the given animation options.
    pub open spec fn possibilities(opts: AnimatedOptions) -> Seq<TypeStage1> {
        Seq::new(TypeStage1::possibility_count(), |i: int| TypeStage1::possibility(i, opts))
    }

    fn possibility_exec(i: usize, opts: AnimatedOptions) -> (r: TypeStage1)
        requires
            i < 54,
        ensures
            r == TypeStage1::possibility(i as int, opts),
    {
        match i {
            0 => TypeStage1::Unknown,
            1 => TypeStage1::PackJson,
            2 => TypeStage1::TPSE,
            3 => TypeStage1::Zip,
            4 => TypeStage1::Skin { subtype: SkinType::Tetrio61 },
            5 => TypeStage1::Skin { subtype: SkinType::Tetrio61Ghost },
            6 => TypeStage1::Skin { subtype: SkinType::Tetrio61Connected },
            7 => TypeStage1::Skin { subtype: SkinType::Tetrio61ConnectedGhost },
            8 => TypeStage1::Skin { subtype: SkinType::Tetrio61ConnectedAnimated { opts } },
            9 => TypeStage1::Skin { subtype: SkinType::Tetrio61ConnectedGhostAnimated { opts } },
            10 => TypeStage1::Skin { subtype: SkinType::TetrioSVG },
            11 => TypeStage1::Skin { subtype: SkinType::TetrioRaster },
            12 => TypeStage1::Skin { subtype: SkinType::TetrioAnimated { opts } },
            13 => TypeStage1::Skin { subtype: SkinType::JstrisRaster },
            14 => TypeStage1::Skin { subtype: SkinType::JstrisAnimated { opts } },
            15 => TypeStage1::Skin { subtype: SkinType::JstrisConnected },
            16 => TypeStage1::OtherSkin { subtype: OtherSkinType::Board },
            17 => TypeStage1::OtherSkin { subtype: OtherSkinType::Queue },
            18 => TypeStage1::OtherSkin { subtype: OtherSkinType::Grid },
            19 => TypeStage1::OtherSkin { subtype: OtherSkinType::ParticleBeam },
            20 => TypeStage1::OtherSkin { subtype: OtherSkinType::ParticleBeamsBeam },
            21 => TypeStage1::OtherSkin { subtype: OtherSkinType::ParticleBigBox },
            22 => TypeStage1::OtherSkin { subtype: OtherSkinType::ParticleBox },
            23 => TypeStage1::OtherSkin { subtype: OtherSkinType::ParticleChip },
            24 => TypeStage1::OtherSkin { subtype: OtherSkinType::ParticleChirp },
            25 => TypeStage1::OtherSkin { subtype: OtherSkinType::ParticleDust },
            26 => TypeStage1::OtherSkin { subtype: OtherSkinType::ParticleFBox },
            27 => TypeStage1::OtherSkin { subtype: OtherSkinType::ParticleFire },
            28 => TypeStage1::OtherSkin { subtype: OtherSkinType::ParticleParticle },
            29 => TypeStage1::OtherSkin { subtype: OtherSkinType::ParticleSmoke },
            30 => TypeStage1::OtherSkin { subtype: OtherSkinType::ParticleStar },
            31 => TypeStage1::OtherSkin { subtype: OtherSkinType::ParticleFlake },
            32 => TypeStage1::OtherSkin { subtype: OtherSkinType::RankD },
            33 => TypeStage1::OtherSkin { subtype: OtherSkinType::RankDPlus },
            34 => TypeStage1::OtherSkin { subtype: OtherSkinType::RankCMinus },
            35 => TypeStage1::OtherSkin { subtype: OtherSkinType::RankC },
            36 => TypeStage1::OtherSkin { subtype: OtherSkinType::RankCPlus },
            37 => TypeStage1::OtherSkin { subtype: OtherSkinType::RankBMinus },
            38 => TypeStage1::OtherSkin { subtype: OtherSkinType::RankB },
            39 => TypeStage1::OtherSkin { subtype: OtherSkinType::RankBPlus },
            40 => TypeStage1::OtherSkin { subtype: OtherSkinType::RankAMinus },
            41 => TypeStage1::OtherSkin { subtype: OtherSkinType::RankA },
            42 => TypeStage1::OtherSkin { subtype: OtherSkinType::RankAPlus },
            43 => TypeStage1::OtherSkin { subtype: OtherSkinType::RankSMinus },
            44 => TypeStage1::OtherSkin { subtype: OtherSkinType::RankS },
            45 => TypeStage1::OtherSkin { subtype: OtherSkinType::RankSPlus },
            46 => TypeStage1::OtherSkin { subtype: OtherSkinType::RankSS },
            47 => TypeStage1::OtherSkin { subtype: OtherSkinType::RankU },
            48 => TypeStage1::OtherSkin { subtype: OtherSkinType::RankX },
            49 => TypeStage1::OtherSkin { subtype: OtherSkinType::RankZ },
            50 => TypeStage1::SoundEffects,
            51 => TypeStage1::Music,
            52 => TypeStage1::Background { subtype: BackgroundType::Image },
            _ => TypeStage1::Background { subtype: BackgroundType::Video },
        }
    }

    /// Builds the list of stage-one types that file keys can name.
    pub fn possibilities_vec(opts: AnimatedOptions) -> (v: Vec<TypeStage1>)
        ensures
            v@ == TypeStage1::possibilities(opts),
    {
        let mut v: Vec<TypeStage1> = Vec::new();
        let mut i: usize = 0;
        while i < 54
            invariant
                i <= 54,
                v@ =~= TypeStage1::possibilities(opts).take(i as int),
            decreases 54 - i,
        {
            v.push(TypeStage1::possibility_exec(i, opts));
            i = i + 1;
        }
        v
    }}

/// The file keys that `ImportType::from_filekey` recognises, in order.
pub open spec fn legacy_filekeys() -> Seq<Seq<char>> {
    seq![
        "_unconnected_minos"@,
        "_unconnected_ghost"@,
        "_connected_minos"@,
        "_connected_ghost"@,
        "_animated_connected_minos"@,
        "_animated_connected_ghost"@,
        "_old_tetrio"@,
        "_animated_old_tetrio"@,
        "_jstris"@,
        "_animated_jstris"@,
        "_board"@,
        "_queue"@,
        "_grid"@,
        "_particle_beam"@,
        "_particle_beams_beam"@,
        "_particle_bigbox"@,
        "_particle_box"@,
        "_particle_chip"@,
        "_particle_chirp"@,
        "_particle_dust"@,
        "_particle_fbox"@,
        "_particle_fire"@,
        "_particle_particle"@,
        "_particle_smoke"@,
    ]
}

/// The import types that the keys of `legacy_filekeys` name, with the given animation options.
pub open spec fn legacy_types(opts: AnimatedOptions) -> Seq<ImportType> {
    seq![
        ImportType::Skin { subtype: SkinType::Tetrio61 },
        ImportType::Skin { subtype: SkinType::Tetrio61Ghost },
        ImportType::Skin { subtype: SkinType::Tetrio61Connected },
        ImportType::Skin { subtype: SkinType::Tetrio61ConnectedGhost },
        ImportType::Skin { subtype: SkinType::Tetrio61ConnectedAnimated { opts } },
        ImportType::Skin { subtype: SkinType::Tetrio61ConnectedGhostAnimated { opts } },
        ImportType::Skin { subtype: SkinType::TetrioRaster },
        ImportType::Skin { subtype: SkinType::TetrioAnimated { opts } },
        ImportType::Skin { subtype: SkinType::JstrisRaster },
        ImportType::Skin { subtype: SkinType::JstrisAnimated { opts } },
        ImportType::OtherSkin { subtype: OtherSkinType::Board },
        ImportType::OtherSkin { subtype: OtherSkinType::Queue },
        ImportType::OtherSkin { subtype: OtherSkinType::Grid },
        ImportType::OtherSkin { subtype: OtherSkinType::ParticleBeam },
        ImportType::OtherSkin { subtype: OtherSkinType::ParticleBeamsBeam },
        ImportType::OtherSkin { subtype: OtherSkinType::ParticleBigBox },
        ImportType::OtherSkin { subtype: OtherSkinType::ParticleBox },
        ImportType::OtherSkin { subtype: OtherSkinType::ParticleChip },
        ImportType::OtherSkin { subtype: OtherSkinType::ParticleChirp },
        ImportType::OtherSkin { subtype: OtherSkinType::ParticleDust },
        ImportType::OtherSkin { subtype: OtherSkinType::ParticleFBox },
        ImportType::OtherSkin { subtype: OtherSkinType::ParticleFire },
        ImportType::OtherSkin { subtype: OtherSkinType::ParticleParticle },
        ImportType::OtherSkin { subtype: OtherSkinType::ParticleSmoke },
    ]
}

fn legacy_filekeys_vec() -> (v: Vec<&'static str>)
    ensures
        str_views(v@) == legacy_filekeys(),
{
    let mut v: Vec<&'static str> = Vec::new();
    v.push("_unconnected_minos");
    v.push("_unconnected_ghost");
    v.push("_connected_minos");
    v.push("_connected_ghost");
    v.push("_animated_connected_minos");
    v.push("_animated_connected_ghost");
    v.push("_old_tetrio");
    v.push("_animated_old_tetrio");
    v.push("_jstris");
    v.push("_animated_jstris");
    v.push("_board");
    v.push("_queue");
    v.push("_grid");
    v.push("_particle_beam");
    v.push("_particle_beams_beam");
    v.push("_particle_bigbox");
    v.push("_particle_box");
    v.push("_particle_chip");
    v.push("_particle_chirp");
    v.push("_particle_dust");
    v.push("_particle_fbox");
    v.push("_particle_fire");
    v.push("_particle_particle");
    v.push("_particle_smoke");
    assert(str_views(v@) =~= legacy_filekeys());
    v
}

fn legacy_types_vec(opts: AnimatedOptions) -> (v: Vec<ImportType>)
    ensures
        v@ == legacy_types(opts),
{
    let mut v: Vec<ImportType> = Vec::new();
    v.push(ImportType::Skin { subtype: SkinType::Tetrio61 });
    v.push(ImportType::Skin { subtype: SkinType::Tetrio61Ghost });
    v.push(ImportType::Skin { subtype: SkinType::Tetrio61Connected });
    v.push(ImportType::Skin { subtype: SkinType::Tetrio61ConnectedGhost });
    v.push(ImportType::Skin { subtype: SkinType::Tetrio61ConnectedAnimated { opts } });
    v.push(ImportType::Skin { subtype: SkinType::Tetrio61ConnectedGhostAnimated { opts } });
    v.push(ImportType::Skin { subtype: SkinType::TetrioRaster });
    v.push(ImportType::Skin { subtype: SkinType::TetrioAnimated { opts } });
    v.push(ImportType::Skin { subtype: SkinType::JstrisRaster });
    v.push(ImportType::Skin { subtype: SkinType::JstrisAnimated { opts } });
    v.push(ImportType::OtherSkin { subtype: OtherSkinType::Board });
    v.push(ImportType::OtherSkin { subtype: OtherSkinType::Queue });
    v.push(ImportType::OtherSkin { subtype: OtherSkinType::Grid });
    v.push(ImportType::OtherSkin { subtype: OtherSkinType::ParticleBeam });
    v.push(ImportType::OtherSkin { subtype: OtherSkinType::ParticleBeamsBeam });
    v.push(ImportType::OtherSkin { subtype: OtherSkinType::ParticleBigBox });
    v.push(ImportType::OtherSkin { subtype: OtherSkinType::ParticleBox });
    v.push(ImportType::OtherSkin { subtype: OtherSkinType::ParticleChip });
    v.push(ImportType::OtherSkin { subtype: OtherSkinType::ParticleChirp });
    v.push(ImportType::OtherSkin { subtype: OtherSkinType::ParticleDust });
    v.push(ImportType::OtherSkin { subtype: OtherSkinType::ParticleFBox });
    v.push(ImportType::OtherSkin { subtype: OtherSkinType::ParticleFire });
    v.push(ImportType::OtherSkin { subtype: OtherSkinType::ParticleParticle });
    v.push(ImportType::OtherSkin { subtype: OtherSkinType::ParticleSmoke });
    assert(v@ =~= legacy_types(opts));
    v
}
impl AnimatedOptions {
    /// The pattern that finds a frame delay in a file name.
    pub open spec fn delay_pattern() -> Seq<char> {
        "_delay=(\\d+)"@
    }

    /// The pattern that finds a frame combination setting in a file name.
    pub open spec fn combine_pattern() -> Seq<char> {
        "_combine=(true|false)"@
    }

    /// The options that the captured texts of the two patterns denote.
    pub open spec fn spec_from_captures(delay: Option<Seq<char>>, combine: Option<Seq<char>>) -> AnimatedOptions {
        AnimatedOptions {
            delay: match delay {
                Some(d) => spec_parse_u32(d),
                None => None,
            },
            combine: match combine {
                Some(c) => spec_parse_bool(c),
                None => None,
            },
        }
    }

    /// Interprets the texts captured by the delay and combine patterns.
    pub fn from_captures(delay: Option<String>, combine: Option<String>) -> (r: AnimatedOptions)
        ensures
            r == AnimatedOptions::spec_from_captures(
                match delay { Some(d) => Some(d@), None => None },
                match combine { Some(c) => Some(c@), None => None },
            ),
    {
        let delay = match delay {
            Some(d) => parse_u32(d.as_str()),
            None => None,
        };
        let combine = match combine {
            Some(c) => parse_bool(c.as_str()),
            None => None,
        };
        AnimatedOptions { delay, combine }
    }

    /// What the regular expression engine captures for a pattern in a file name,
    /// or nothing if it rejects the pattern.
    pub open spec fn spec_capture(pattern: Seq<char>, filename: Seq<char>) -> Option<Seq<char>> {
        if regex_is_valid(pattern) {
            regex_capture(pattern, filename, 1)
        } else {
            None
        }
    }

    /// The animation options written in a file name.
    pub open spec fn spec_from_filename(filename: Seq<char>) -> AnimatedOptions {
        AnimatedOptions::spec_from_captures(
            AnimatedOptions::spec_capture(AnimatedOptions::delay_pattern(), filename),
            AnimatedOptions::spec_capture(AnimatedOptions::combine_pattern(), filename),
        )
    }

    /// Reads the animation options written in a file name: `_delay=<digits>` and
    /// `_combine=<true|false>`.
    pub fn from_filename(filename: &str) -> (r: AnimatedOptions)
        ensures
            r == AnimatedOptions::spec_from_filename(filename@),
    {
        let delay_source = String::from_str("_delay=(\\d+)");
        let combine_source = String::from_str("_combine=(true|false)");
        let delay = match compile_pattern(delay_source) {
            Some(p) => capture_group(&p, filename, 1),
            None => None,
        };
        let combine = match compile_pattern(combine_source) {
            Some(p) => capture_group(&p, filename, 1),
            None => None,
        };
        AnimatedOptions::from_captures(delay, combine)
    }
}

impl TypeStage1 {
    /// The file keys of the possibilities, in order.
    pub open spec fn possibility_keys(opts: AnimatedOptions) -> Seq<Seq<char>> {
        TypeStage1::possibilities(opts).map_values(|t: TypeStage1| t.spec_filekey())
    }

    /// What parsing file keys out of a file name gives, for given animation options:
    /// the possibility with the longest key contained in the name, the last one among equally long keys.
    pub open spec fn spec_parse_filekey_with(name: Seq<char>, opts: AnimatedOptions, r: Option<TypeStage1>) -> bool {
        let keys = TypeStage1::possibility_keys(opts);
        match r {
            None => no_key_matches(name, keys),
            Some(t) => exists|i: int| is_longest_last(name, keys, i) && t == TypeStage1::possibilities(opts)[i],
        }
    }

    /// Parses file keys out of a file name with the given animation options.
    /// Longer file keys win: `_old_tetrio_svg` beats `_old_tetrio`.
    pub fn parse_filekey_with(filename: &str, opts: AnimatedOptions) -> (r: Option<TypeStage1>)
        ensures
            TypeStage1::spec_parse_filekey_with(filename@, opts, r),
    {
        let poss = TypeStage1::possibilities_vec(opts);
        let mut keys: Vec<&'static str> = Vec::new();
        let mut i: usize = 0;
        while i < poss.len()
            invariant
                poss@ == TypeStage1::possibilities(opts),
                i <= poss@.len(),
                keys@.len() == i,
                forall|j: int| 0 <= j < i ==> (#[trigger] keys@[j])@ == poss@[j].spec_filekey(),
            decreases poss@.len() - i,
        {
            keys.push(poss[i].filekey());
            i = i + 1;
        }
        assert(str_views(keys@) =~= TypeStage1::possibility_keys(opts));
        let name = chars_of(filename);
        match longest_match(&name, &keys, true) {
            None => None,
            Some(i) => Some(poss[i]),
        }
    }

    /// Creates a stage-one type by parsing file keys from the given file name;
    /// the animation options are read from the same name.
    pub fn parse_filekey(filename: &str) -> (r: Option<TypeStage1>)
        ensures
            TypeStage1::spec_parse_filekey_with(filename@, AnimatedOptions::spec_from_filename(filename@), r),
    {
        let opts = AnimatedOptions::from_filename(filename);
        TypeStage1::parse_filekey_with(filename, opts)
    }
}

impl TypeStage1 {
    /// The type that parsing file keys out of `name` gives, with animation options `opts`.
    pub open spec fn parsed_filekey(name: Seq<char>, opts: AnimatedOptions) -> Option<TypeStage1> {
        let keys = TypeStage1::possibility_keys(opts);
        if exists|i: int| is_longest_last(name, keys, i) {
            Some(TypeStage1::possibilities(opts)[choose|i: int| is_longest_last(name, keys, i)])
        } else {
            None
        }
    }
}

/// At most one key is the longest contained in a name, the last of its length.
proof fn lemma_longest_last_unique(name: Seq<char>, keys: Seq<Seq<char>>, i: int, j: int)
    requires
        is_longest_last(name, keys, i),
        is_longest_last(name, keys, j),
    ensures
        i == j,
{
    assert(contains_seq(name, keys[i]));
    assert(contains_seq(name, keys[j]));
}

/// Parsing file keys gives one result only.
pub proof fn lemma_parse_filekey_unique(name: Seq<char>, opts: AnimatedOptions, r: Option<TypeStage1>)
    requires
        TypeStage1::spec_parse_filekey_with(name, opts, r),
    ensures
        r == TypeStage1::parsed_filekey(name, opts),
{
    let keys = TypeStage1::possibility_keys(opts);
    match r {
        Some(t) => {
            let i = choose|i: int| is_longest_last(name, keys, i) && t == TypeStage1::possibilities(opts)[i];
            let c = choose|c: int| is_longest_last(name, keys, c);
            lemma_longest_last_unique(name, keys, i, c);
        },
        None => {
            if exists|i: int| is_longest_last(name, keys, i) {
                let i = choose|i: int| is_longest_last(name, keys, i);
                assert(contains_seq(name, keys[i]));
            }
        },
    }
}

/// What the legacy file key parser gives, for given animation options: the type of the
/// longest key contained in the name, the first one among equally long keys.
pub open spec fn spec_legacy_filekey_with(name: Seq<char>, opts: AnimatedOptions, r: Option<ImportType>) -> bool {
    match r {
        None => no_key_matches(name, legacy_filekeys()),
        Some(t) => exists|i: int| is_longest_first(name, legacy_filekeys(), i) && t == legacy_types(opts)[i],
    }
}

/// Parses the legacy set of file keys out of a file name with the given animation options.
pub fn legacy_filekey_with(filename: &str, opts: AnimatedOptions) -> (r: Option<ImportType>)
    ensures
        spec_legacy_filekey_with(filename@, opts, r),
{
    let keys = legacy_filekeys_vec();
    let types = legacy_types_vec(opts);
    let name = chars_of(filename);
    match longest_match(&name, &keys, false) {
        None => None,
        Some(i) => Some(types[i]),
    }
}

impl ImportType {
    /// Reads an import type from the file keys of a file name, with the animation options
    /// written in the same name. Longer file keys win, so `_animated_connected_minos`
    /// beats `_connected_minos`.
    pub fn from_filekey(filename: &str) -> (r: Option<ImportType>)
        ensures
            spec_legacy_filekey_with(filename@, AnimatedOptions::spec_from_filename(filename@), r),
    {
        let opts = AnimatedOptions::from_filename(filename);
        legacy_filekey_with(filename, opts)
    }
}

/// Reads an import type from the file keys of a file name; the same as `ImportType::from_filekey`.
pub fn parse_filekey(filename: &str) -> (r: Option<ImportType>)
    ensures
        spec_legacy_filekey_with(filename@, AnimatedOptions::spec_from_filename(filename@), r),
{
    ImportType::from_filekey(filename)
}

/// A substring at least as long as the string it occurs in is that string.
proof fn lemma_long_substring_is_whole(hay: Seq<char>, needle: Seq<char>)
    requires
        contains_seq(hay, needle),
        needle.len() >= hay.len(),
    ensures
        needle == hay,
{
    let i = choose|i: int| occurs_at(hay, needle, i);
    assert(i == 0);
    assert(hay.subrange(0, hay.len() as int) =~= hay);
}

/// A string contains itself.
proof fn lemma_contains_self(s: Seq<char>)
    ensures
        contains_seq(s, s),
{
    assert(s.subrange(0, s.len() as int) =~= s);
    assert(occurs_at(s, s, 0));
}

/// The length of a file key, its seventh character and its third character from the
/// end: these tell the file keys of the possibilities apart.
spec fn filekey_fingerprint(key: Seq<char>) -> (nat, char, char) {
    (key.len(), if key.len() > 6 {
        key[6]
    } else {
        ' '
    }, if key.len() >= 3 {
        key[key.len() - 3]
    } else {
        ' '
    })
}

/// The position among the possibilities of the file key with fingerprint `f`.
spec fn fingerprint_position(f: (nat, char, char)) -> int {
    if f == (9nat, 'o', 'o') {
        0
    } else if f == (10nat, 'j', 's') {
        1
    } else if f == (6nat, ' ', 'p') {
        2
    } else if f == (5nat, ' ', 'z') {
        3
    } else if f == (18nat, 'n', 'n') {
        4
    } else if f == (18nat, 'n', 'o') {
        5
    } else if f == (16nat, 'c', 'n') {
        6
    } else if f == (16nat, 'c', 'o') {
        7
    } else if f == (25nat, 't', 'n') {
        8
    } else if f == (25nat, 't', 'o') {
        9
    } else if f == (15nat, 'e', 's') {
        10
    } else if f == (11nat, 'e', 'r') {
        11
    } else if f == (20nat, 't', 'r') {
        12
    } else if f == (7nat, 's', 'r') {
        13
    } else if f == (16nat, 't', 'r') {
        14
    } else if f == (17nat, 'c', 'r') {
        15
    } else if f == (6nat, ' ', 'a') {
        16
    } else if f == (6nat, ' ', 'e') {
        17
    } else if f == (5nat, ' ', 'r') {
        18
    } else if f == (14nat, 'c', 'e') {
        19
    } else if f == (20nat, 'c', 'e') {
        20
    } else if f == (16nat, 'c', 'b') {
        21
    } else if f == (13nat, 'c', 'b') {
        22
    } else if f == (14nat, 'c', 'h') {
        23
    } else if f == (15nat, 'c', 'i') {
        24
    } else if f == (14nat, 'c', 'u') {
        25
    } else if f == (14nat, 'c', 'b') {
        26
    } else if f == (14nat, 'c', 'i') {
        27
    } else if f == (18nat, 'c', 'c') {
        28
    } else if f == (15nat, 'c', 'o') {
        29
    } else if f == (14nat, 'c', 't') {
        30
    } else if f == (15nat, 'c', 'a') {
        31
    } else if f == (7nat, 'd', 'k') {
        32
    } else if f == (12nat, 'd', 'l') {
        33
    } else if f == (13nat, 'c', 'n') {
        34
    } else if f == (7nat, 'c', 'k') {
        35
    } else if f == (12nat, 'c', 'l') {
        36
    } else if f == (13nat, 'b', 'n') {
        37
    } else if f == (7nat, 'b', 'k') {
        38
    } else if f == (12nat, 'b', 'l') {
        39
    } else if f == (13nat, 'a', 'n') {
        40
    } else if f == (7nat, 'a', 'k') {
        41
    } else if f == (12nat, 'a', 'l') {
        42
    } else if f == (13nat, 's', 'n') {
        43
    } else if f == (7nat, 's', 'k') {
        44
    } else if f == (12nat, 's', 'l') {
        45
    } else if f == (8nat, 's', '_') {
        46
    } else if f == (7nat, 'u', 'k') {
        47
    } else if f == (7nat, 'x', 'k') {
        48
    } else if f == (7nat, 'z', 'k') {
        49
    } else if f == (4nat, ' ', 's') {
        50
    } else if f == (6nat, ' ', 's') {
        51
    } else if f == (11nat, 'r', 'u') {
        52
    } else if f == (17nat, '_', 'u') {
        53
    } else {
        -1
    }
}

proof fn lemma_fingerprint_position(opts: AnimatedOptions, i: int)
    requires
        0 <= i < TypeStage1::possibility_count(),
    ensures
        fingerprint_position(filekey_fingerprint(TypeStage1::possibility(i, opts).spec_filekey())) == i,
{
    reveal_strlit("__unknown");
    reveal_strlit("__packjson");
    reveal_strlit("__tpse");
    reveal_strlit("__zip");
    reveal_strlit("_unconnected_minos");
    reveal_strlit("_unconnected_ghost");
    reveal_strlit("_connected_minos");
    reveal_strlit("_connected_ghost");
    reveal_strlit("_animated_connected_minos");
    reveal_strlit("_animated_connected_ghost");
    reveal_strlit("_old_tetrio_svg");
    reveal_strlit("_old_tetrio");
    reveal_strlit("_animated_old_tetrio");
    reveal_strlit("_jstris");
    reveal_strlit("_animated_jstris");
    reveal_strlit("_connected_jstris");
    reveal_strlit("_board");
    reveal_strlit("_queue");
    reveal_strlit("_grid");
    reveal_strlit("_particle_beam");
    reveal_strlit("_particle_beams_beam");
    reveal_strlit("_particle_bigbox");
    reveal_strlit("_particle_box");
    reveal_strlit("_particle_chip");
    reveal_strlit("_particle_chirp");
    reveal_strlit("_particle_dust");
    reveal_strlit("_particle_fbox");
    reveal_strlit("_particle_fire");
    reveal_strlit("_particle_particle");
    reveal_strlit("_particle_smoke");
    reveal_strlit("_particle_star");
    reveal_strlit("_particle_flake");
    reveal_strlit("_rank_d");
    reveal_strlit("_rank_d_plus");
    reveal_strlit("_rank_c_minus");
    reveal_strlit("_rank_c");
    reveal_strlit("_rank_c_plus");
    reveal_strlit("_rank_b_minus");
    reveal_strlit("_rank_b");
    reveal_strlit("_rank_b_plus");
    reveal_strlit("_rank_a_minus");
    reveal_strlit("_rank_a");
    reveal_strlit("_rank_a_plus");
    reveal_strlit("_rank_s_minus");
    reveal_strlit("_rank_s");
    reveal_strlit("_rank_s_plus");
    reveal_strlit("_rank_ss");
    reveal_strlit("_rank_u");
    reveal_strlit("_rank_x");
    reveal_strlit("_rank_z");
    reveal_strlit("_sfx");
    reveal_strlit("_music");
    reveal_strlit("_background");
    reveal_strlit("_video_background");
}

/// No two of the types that file keys can name share a file key.
pub proof fn lemma_possibility_keys_distinct(opts: AnimatedOptions, i: int, j: int)
    requires
        0 <= i < TypeStage1::possibility_count(),
        0 <= j < TypeStage1::possibility_count(),
        i != j,
    ensures
        TypeStage1::possibility(i, opts).spec_filekey() != TypeStage1::possibility(j, opts).spec_filekey(),
{
    lemma_fingerprint_position(opts, i);
    lemma_fingerprint_position(opts, j);
}

/// Parsing the file key of a possibility back gives that very possibility.
pub proof fn lemma_filekey_roundtrip(opts: AnimatedOptions, k: int, r: Option<TypeStage1>)
    requires
        0 <= k < TypeStage1::possibility_count(),
        TypeStage1::spec_parse_filekey_with(TypeStage1::possibility(k, opts).spec_filekey(), opts, r),
    ensures
        r == Some(TypeStage1::possibility(k, opts)),
{
    let keys = TypeStage1::possibility_keys(opts);
    let name = TypeStage1::possibility(k, opts).spec_filekey();
    assert(keys[k] == name);
    lemma_contains_self(name);
    match r {
        None => {
            assert(contains_seq(name, keys[k]));
        },
        Some(u) => {
            let i = choose|i: int| is_longest_last(name, keys, i) && u == TypeStage1::possibilities(opts)[i];
            assert(contains_seq(name, keys[k]));
            assert(keys[k].len() <= keys[i].len());
            lemma_long_substring_is_whole(name, keys[i]);
            if i != k {
                lemma_possibility_keys_distinct(opts, i, k);
            }
        },
    }
}

/// The options read from a file name have a setting exactly when the delay pattern
/// captures digits that make a `u32`, or the combine pattern captures `true` or `false`.
pub proof fn lemma_filename_options_present(filename: Seq<char>)
    ensures
        ({
            let o = AnimatedOptions::spec_from_filename(filename);
            o.delay is Some || o.combine is Some
        }) <==> ((AnimatedOptions::spec_capture(AnimatedOptions::delay_pattern(), filename) matches Some(d)
            && spec_parse_u32(d) is Some) || (AnimatedOptions::spec_capture(
            AnimatedOptions::combine_pattern(),
            filename,
        ) matches Some(c) && spec_parse_bool(c) is Some)),
{
}

/// Whether the `j`th legacy file key is the file key of the `i`th possibility, naming
/// the same import type.
pub open spec fn legacy_agrees(opts: AnimatedOptions, j: int, i: int) -> bool {
    &&& 0 <= i < TypeStage1::possibility_count()
    &&& TypeStage1::possibility(i, opts).spec_filekey() == legacy_filekeys()[j]
    &&& TypeStage1::possibility(i, opts).spec_to_import_type() == legacy_types(opts)[j]
}

/// The file keys agree with the legacy file keys: each legacy key is the file key of a
/// type that stands for the import type the legacy key names.
pub proof fn lemma_filekeys_agree_with_legacy(opts: AnimatedOptions, j: int)
    requires
        0 <= j < legacy_filekeys().len(),
    ensures
        exists|i: int| legacy_agrees(opts, j, i),
{
    let i = if j < 6 {
        j + 4
    } else if j < 10 {
        j + 5
    } else {
        j + 6
    };
    assert(legacy_agrees(opts, j, i));
}

/// The file key of a texture other than a block skin is an underscore followed by the
/// texture's name; only the big box and f-box particles write their names without the
/// inner underscore.
pub proof fn lemma_texture_filekey_is_name(o: OtherSkinType)
    ensures
        !(o is ParticleBigBox || o is ParticleFBox) ==> (TypeStage1::OtherSkin { subtype: o }).spec_filekey()
            == "_"@ + o.spec_name(),
{
    reveal_strlit("_");
    match o {
        OtherSkinType::Board => {
            reveal_strlit("board");
            reveal_strlit("_board");
            assert("_"@ + "board"@ =~= "_board"@);
        },
        OtherSkinType::Queue => {
            reveal_strlit("queue");
            reveal_strlit("_queue");
            assert("_"@ + "queue"@ =~= "_queue"@);
        },
        OtherSkinType::Grid => {
            reveal_strlit("grid");
            reveal_strlit("_grid");
            assert("_"@ + "grid"@ =~= "_grid"@);
        },
        OtherSkinType::ParticleBeam => {
            reveal_strlit("particle_beam");
            reveal_strlit("_particle_beam");
            assert("_"@ + "particle_beam"@ =~= "_particle_beam"@);
        },
        OtherSkinType::ParticleBeamsBeam => {
            reveal_strlit("particle_beams_beam");
            reveal_strlit("_particle_beams_beam");
            assert("_"@ + "particle_beams_beam"@ =~= "_particle_beams_beam"@);
        },
        OtherSkinType::ParticleBigBox => {},
        OtherSkinType::ParticleBox => {
            reveal_strlit("particle_box");
            reveal_strlit("_particle_box");
            assert("_"@ + "particle_box"@ =~= "_particle_box"@);
        },
        OtherSkinType::ParticleChip => {
            reveal_strlit("particle_chip");
            reveal_strlit("_particle_chip");
            assert("_"@ + "particle_chip"@ =~= "_particle_chip"@);
        },
        OtherSkinType::ParticleChirp => {
            reveal_strlit("particle_chirp");
            reveal_strlit("_particle_chirp");
            assert("_"@ + "particle_chirp"@ =~= "_particle_chirp"@);
        },
        OtherSkinType::ParticleDust => {
            reveal_strlit("particle_dust");
            reveal_strlit("_particle_dust");
            assert("_"@ + "particle_dust"@ =~= "_particle_dust"@);
        },
        OtherSkinType::ParticleFBox => {},
        OtherSkinType::ParticleFire => {
            reveal_strlit("particle_fire");
            reveal_strlit("_particle_fire");
            assert("_"@ + "particle_fire"@ =~= "_particle_fire"@);
        },
        OtherSkinType::ParticleParticle => {
            reveal_strlit("particle_particle");
            reveal_strlit("_particle_particle");
            assert("_"@ + "particle_particle"@ =~= "_particle_particle"@);
        },
        OtherSkinType::ParticleSmoke => {
            reveal_strlit("particle_smoke");
            reveal_strlit("_particle_smoke");
            assert("_"@ + "particle_smoke"@ =~= "_particle_smoke"@);
        },
        OtherSkinType::ParticleStar => {
            reveal_strlit("particle_star");
            reveal_strlit("_particle_star");
            assert("_"@ + "particle_star"@ =~= "_particle_star"@);
        },
        OtherSkinType::ParticleFlake => {
            reveal_strlit("particle_flake");
            reveal_strlit("_particle_flake");
            assert("_"@ + "particle_flake"@ =~= "_particle_flake"@);
        },
        OtherSkinType::RankD => {
            reveal_strlit("rank_d");
            reveal_strlit("_rank_d");
            assert("_"@ + "rank_d"@ =~= "_rank_d"@);
        },
        OtherSkinType::RankDPlus => {
            reveal_strlit("rank_d_plus");
            reveal_strlit("_rank_d_plus");
            assert("_"@ + "rank_d_plus"@ =~= "_rank_d_plus"@);
        },
        OtherSkinType::RankCMinus => {
            reveal_strlit("rank_c_minus");
            reveal_strlit("_rank_c_minus");
            assert("_"@ + "rank_c_minus"@ =~= "_rank_c_minus"@);
        },
        OtherSkinType::RankC => {
            reveal_strlit("rank_c");
            reveal_strlit("_rank_c");
            assert("_"@ + "rank_c"@ =~= "_rank_c"@);
        },
        OtherSkinType::RankCPlus => {
            reveal_strlit("rank_c_plus");
            reveal_strlit("_rank_c_plus");
            assert("_"@ + "rank_c_plus"@ =~= "_rank_c_plus"@);
        },
        OtherSkinType::RankBMinus => {
            reveal_strlit("rank_b_minus");
            reveal_strlit("_rank_b_minus");
            assert("_"@ + "rank_b_minus"@ =~= "_rank_b_minus"@);
        },
        OtherSkinType::RankB => {
            reveal_strlit("rank_b");
            reveal_strlit("_rank_b");
            assert("_"@ + "rank_b"@ =~= "_rank_b"@);
        },
        OtherSkinType::RankBPlus => {
            reveal_strlit("rank_b_plus");
            reveal_strlit("_rank_b_plus");
            assert("_"@ + "rank_b_plus"@ =~= "_rank_b_plus"@);
        },
        OtherSkinType::RankAMinus => {
            reveal_strlit("rank_a_minus");
            reveal_strlit("_rank_a_minus");
            assert("_"@ + "rank_a_minus"@ =~= "_rank_a_minus"@);
        },
        OtherSkinType::RankA => {
            reveal_strlit("rank_a");
            reveal_strlit("_rank_a");
            assert("_"@ + "rank_a"@ =~= "_rank_a"@);
        },
        OtherSkinType::RankAPlus => {
            reveal_strlit("rank_a_plus");
            reveal_strlit("_rank_a_plus");
            assert("_"@ + "rank_a_plus"@ =~= "_rank_a_plus"@);
        },
        OtherSkinType::RankSMinus => {
            reveal_strlit("rank_s_minus");
            reveal_strlit("_rank_s_minus");
            assert("_"@ + "rank_s_minus"@ =~= "_rank_s_minus"@);
        },
        OtherSkinType::RankS => {
            reveal_strlit("rank_s");
            reveal_strlit("_rank_s");
            assert("_"@ + "rank_s"@ =~= "_rank_s"@);
        },
        OtherSkinType::RankSPlus => {
            reveal_strlit("rank_s_plus");
            reveal_strlit("_rank_s_plus");
            assert("_"@ + "rank_s_plus"@ =~= "_rank_s_plus"@);
        },
        OtherSkinType::RankSS => {
            reveal_strlit("rank_ss");
            reveal_strlit("_rank_ss");
            assert("_"@ + "rank_ss"@ =~= "_rank_ss"@);
        },
        OtherSkinType::RankU => {
            reveal_strlit("rank_u");
            reveal_strlit("_rank_u");
            assert("_"@ + "rank_u"@ =~= "_rank_u"@);
        },
        OtherSkinType::RankX => {
            reveal_strlit("rank_x");
            reveal_strlit("_rank_x");
            assert("_"@ + "rank_x"@ =~= "_rank_x"@);
        },
        OtherSkinType::RankZ => {
            reveal_strlit("rank_z");
            reveal_strlit("_rank_z");
            assert("_"@ + "rank_z"@ =~= "_rank_z"@);
        },
    }
}

/// The file keys of the other types follow their descriptions: an underscore before
/// the description for music and image backgrounds, two before it for the types that
/// only steer an import (unknown files, TPSE files and zip archives); sound effects carry
/// the key that sound effect names are cleaned of.
pub proof fn lemma_plain_filekeys_follow_descriptions()
    ensures
        TypeStage1::SoundEffects.spec_filekey() == sfx_key(),
        TypeStage1::Music.spec_filekey() == "_"@ + ImportType::Music.spec_describe(),
        (TypeStage1::Background { subtype: BackgroundType::Image }).spec_filekey() == "_"@
            + (ImportType::Background { subtype: BackgroundType::Image }).spec_describe(),
        TypeStage1::Unknown.spec_filekey() == "__"@ + ImportType::Unknown.spec_describe(),
        TypeStage1::TPSE.spec_filekey() == "__"@ + ImportType::TPSE.spec_describe(),
        TypeStage1::Zip.spec_filekey() == "__"@ + ImportType::Zip.spec_describe(),
{
    reveal_strlit("_");
    reveal_strlit("__");
    reveal_strlit("music");
    reveal_strlit("_music");
    reveal_strlit("background");
    reveal_strlit("_background");
    reveal_strlit("unknown");
    reveal_strlit("__unknown");
    reveal_strlit("tpse");
    reveal_strlit("__tpse");
    reveal_strlit("zip");
    reveal_strlit("__zip");
    assert("_"@ + "music"@ =~= "_music"@);
    assert("_"@ + "background"@ =~= "_background"@);
    assert("__"@ + "unknown"@ =~= "__unknown"@);
    assert("__"@ + "tpse"@ =~= "__tpse"@);
    assert("__"@ + "zip"@ =~= "__zip"@);
}

/// Reading file keys out of the file key of a possibility gives that possibility back,
/// wherever the animation options read from the key are the possibility's own.
pub proof fn lemma_parse_filekey_roundtrip(opts: AnimatedOptions, k: int, r: Option<TypeStage1>)
    requires
        0 <= k < TypeStage1::possibility_count(),
        AnimatedOptions::spec_from_filename(TypeStage1::possibility(k, opts).spec_filekey()) == opts,
        TypeStage1::spec_parse_filekey_with(
            TypeStage1::possibility(k, opts).spec_filekey(),
            AnimatedOptions::spec_from_filename(TypeStage1::possibility(k, opts).spec_filekey()),
            r,
        ),
    ensures
        r == Some(TypeStage1::possibility(k, opts)),
{
    lemma_filekey_roundtrip(opts, k, r);
}

/// Parsing a legacy file key back finds a type whose legacy file key is that same key.
pub proof fn lemma_legacy_filekey_roundtrip(opts: AnimatedOptions, k: int, r: Option<ImportType>)
    requires
        0 <= k < legacy_filekeys().len(),
        spec_legacy_filekey_with(legacy_filekeys()[k], opts, r),
    ensures
        r matches Some(u) && exists|i: int|
            0 <= i < legacy_filekeys().len() && legacy_filekeys()[i] == legacy_filekeys()[k]
                && u == legacy_types(opts)[i],
{
    let keys = legacy_filekeys();
    let name = keys[k];
    lemma_contains_self(name);
    match r {
        None => {
            assert(contains_seq(name, keys[k]));
        },
        Some(u) => {
            let i = choose|i: int| is_longest_first(name, keys, i) && u == legacy_types(opts)[i];
            assert(contains_seq(name, keys[k]));
            assert(keys[k].len() <= keys[i].len());
            lemma_long_substring_is_whole(name, keys[i]);
        },
    }
}

} // verus!
