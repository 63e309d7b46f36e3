//! How import types are written in messages.
use vstd::prelude::*;

use crate::import_types::{AnimatedOptions, BackgroundType, ImportType, OtherSkinType, SkinType, SpecificImportType, TypeStage1};
use crate::text::{decimal, u32_decimal};

verus! {

impl OtherSkinType {
    /// The name of the texture, as it is written in messages.
    pub open spec fn spec_name(self) -> Seq<char> {
        match self {
            OtherSkinType::Board => "board"@,
            OtherSkinType::Queue => "queue"@,
            OtherSkinType::Grid => "grid"@,
            OtherSkinType::ParticleBeam => "particle_beam"@,
            OtherSkinType::ParticleBeamsBeam => "particle_beams_beam"@,
            OtherSkinType::ParticleBigBox => "particle_big_box"@,
            OtherSkinType::ParticleBox => "particle_box"@,
            OtherSkinType::ParticleChip => "particle_chip"@,
            OtherSkinType::ParticleChirp => "particle_chirp"@,
            OtherSkinType::ParticleDust => "particle_dust"@,
            OtherSkinType::ParticleFBox => "particle_f_box"@,
            OtherSkinType::ParticleFire => "particle_fire"@,
            OtherSkinType::ParticleParticle => "particle_particle"@,
            OtherSkinType::ParticleSmoke => "particle_smoke"@,
            OtherSkinType::ParticleStar => "particle_star"@,
            OtherSkinType::ParticleFlake => "particle_flake"@,
            OtherSkinType::RankD => "rank_d"@,
            OtherSkinType::RankDPlus => "rank_d_plus"@,
            OtherSkinType::RankCMinus => "rank_c_minus"@,
            OtherSkinType::RankC => "rank_c"@,
            OtherSkinType::RankCPlus => "rank_c_plus"@,
            OtherSkinType::RankBMinus => "rank_b_minus"@,
            OtherSkinType::RankB => "rank_b"@,
            OtherSkinType::RankBPlus => "rank_b_plus"@,
            OtherSkinType::RankAMinus => "rank_a_minus"@,
            OtherSkinType::RankA => "rank_a"@,
            OtherSkinType::RankAPlus => "rank_a_plus"@,
            OtherSkinType::RankSMinus => "rank_s_minus"@,
            OtherSkinType::RankS => "rank_s"@,
            OtherSkinType::RankSPlus => "rank_s_plus"@,
            OtherSkinType::RankSS => "rank_ss"@,
            OtherSkinType::RankU => "rank_u"@,
            OtherSkinType::RankX => "rank_x"@,
            OtherSkinType::RankZ => "rank_z"@,
        }
    }

    /// Returns the name of the texture, as it is written in messages.
    pub fn name(&self) -> (r: &'static str)
        ensures
            r@ == self.spec_name(),
    {
        proof {
            reveal_strlit("board");
            reveal_strlit("queue");
            reveal_strlit("grid");
            reveal_strlit("particle_beam");
            reveal_strlit("particle_beams_beam");
            reveal_strlit("particle_big_box");
            reveal_strlit("particle_box");
            reveal_strlit("particle_chip");
            reveal_strlit("particle_chirp");
            reveal_strlit("particle_dust");
            reveal_strlit("particle_f_box");
            reveal_strlit("particle_fire");
            reveal_strlit("particle_particle");
            reveal_strlit("particle_smoke");
            reveal_strlit("particle_star");
            reveal_strlit("particle_flake");
            reveal_strlit("rank_d");
            reveal_strlit("rank_d_plus");
            reveal_strlit("rank_c_minus");
            reveal_strlit("rank_c");
            reveal_strlit("rank_c_plus");
            reveal_strlit("rank_b_minus");
            reveal_strlit("rank_b");
            reveal_strlit("rank_b_plus");
            reveal_strlit("rank_a_minus");
            reveal_strlit("rank_a");
            reveal_strlit("rank_a_plus");
            reveal_strlit("rank_s_minus");
            reveal_strlit("rank_s");
            reveal_strlit("rank_s_plus");
            reveal_strlit("rank_ss");
            reveal_strlit("rank_u");
            reveal_strlit("rank_x");
            reveal_strlit("rank_z");
        }
        match self {
            OtherSkinType::Board => "board",
            OtherSkinType::Queue => "queue",
            OtherSkinType::Grid => "grid",
            OtherSkinType::ParticleBeam => "particle_beam",
            OtherSkinType::ParticleBeamsBeam => "particle_beams_beam",
            OtherSkinType::ParticleBigBox => "particle_big_box",
            OtherSkinType::ParticleBox => "particle_box",
            OtherSkinType::ParticleChip => "particle_chip",
            OtherSkinType::ParticleChirp => "particle_chirp",
            OtherSkinType::ParticleDust => "particle_dust",
            OtherSkinType::ParticleFBox => "particle_f_box",
            OtherSkinType::ParticleFire => "particle_fire",
            OtherSkinType::ParticleParticle => "particle_particle",
            OtherSkinType::ParticleSmoke => "particle_smoke",
            OtherSkinType::ParticleStar => "particle_star",
            OtherSkinType::ParticleFlake => "particle_flake",
            OtherSkinType::RankD => "rank_d",
            OtherSkinType::RankDPlus => "rank_d_plus",
            OtherSkinType::RankCMinus => "rank_c_minus",
            OtherSkinType::RankC => "rank_c",
            OtherSkinType::RankCPlus => "rank_c_plus",
            OtherSkinType::RankBMinus => "rank_b_minus",
            OtherSkinType::RankB => "rank_b",
            OtherSkinType::RankBPlus => "rank_b_plus",
            OtherSkinType::RankAMinus => "rank_a_minus",
            OtherSkinType::RankA => "rank_a",
            OtherSkinType::RankAPlus => "rank_a_plus",
            OtherSkinType::RankSMinus => "rank_s_minus",
            OtherSkinType::RankS => "rank_s",
            OtherSkinType::RankSPlus => "rank_s_plus",
            OtherSkinType::RankSS => "rank_ss",
            OtherSkinType::RankU => "rank_u",
            OtherSkinType::RankX => "rank_x",
            OtherSkinType::RankZ => "rank_z",
        }
    }
}

/// The length of a texture's name, its sixth character and its third character from
/// the end: these tell the names of the textures apart.
spec fn name_fingerprint(name: Seq<char>) -> (nat, char, char) {
    (name.len(), if name.len() > 5 {
        name[5]
    } else {
        ' '
    }, if name.len() >= 3 {
        name[name.len() - 3]
    } else {
        ' '
    })
}

/// The position among the textures of the name with fingerprint `f`.
spec fn name_position(f: (nat, char, char)) -> int {
    if f == (5nat, ' ', 'a') {
        0
    } else if f == (5nat, ' ', 'e') {
        1
    } else if f == (4nat, ' ', 'r') {
        2
    } else if f == (13nat, 'c', 'e') {
        3
    } else if f == (19nat, 'c', 'e') {
        4
    } else if f == (16nat, 'c', 'b') {
        5
    } else if f == (12nat, 'c', 'b') {
        6
    } else if f == (13nat, 'c', 'h') {
        7
    } else if f == (14nat, 'c', 'i') {
        8
    } else if f == (13nat, 'c', 'u') {
        9
    } else if f == (14nat, 'c', 'b') {
        10
    } else if f == (13nat, 'c', 'i') {
        11
    } else if f == (17nat, 'c', 'c') {
        12
    } else if f == (14nat, 'c', 'o') {
        13
    } else if f == (13nat, 'c', 't') {
        14
    } else if f == (14nat, 'c', 'a') {
        15
    } else if f == (6nat, 'd', 'k') {
        16
    } else if f == (11nat, 'd', 'l') {
        17
    } else if f == (12nat, 'c', 'n') {
        18
    } else if f == (6nat, 'c', 'k') {
        19
    } else if f == (11nat, 'c', 'l') {
        20
    } else if f == (12nat, 'b', 'n') {
        21
    } else if f == (6nat, 'b', 'k') {
        22
    } else if f == (11nat, 'b', 'l') {
        23
    } else if f == (12nat, 'a', 'n') {
        24
    } else if f == (6nat, 'a', 'k') {
        25
    } else if f == (11nat, 'a', 'l') {
        26
    } else if f == (12nat, 's', 'n') {
        27
    } else if f == (6nat, 's', 'k') {
        28
    } else if f == (11nat, 's', 'l') {
        29
    } else if f == (7nat, 's', '_') {
        30
    } else if f == (6nat, 'u', 'k') {
        31
    } else if f == (6nat, 'x', 'k') {
        32
    } else if f == (6nat, 'z', 'k') {
        33
    } else {
        -1
    }
}

/// The position of a texture in the list of textures.
spec fn texture_position(o: OtherSkinType) -> int {
    match o {
        OtherSkinType::Board => 0,
        OtherSkinType::Queue => 1,
        OtherSkinType::Grid => 2,
        OtherSkinType::ParticleBeam => 3,
        OtherSkinType::ParticleBeamsBeam => 4,
        OtherSkinType::ParticleBigBox => 5,
        OtherSkinType::ParticleBox => 6,
        OtherSkinType::ParticleChip => 7,
        OtherSkinType::ParticleChirp => 8,
        OtherSkinType::ParticleDust => 9,
        OtherSkinType::ParticleFBox => 10,
        OtherSkinType::ParticleFire => 11,
        OtherSkinType::ParticleParticle => 12,
        OtherSkinType::ParticleSmoke => 13,
        OtherSkinType::ParticleStar => 14,
        OtherSkinType::ParticleFlake => 15,
        OtherSkinType::RankD => 16,
        OtherSkinType::RankDPlus => 17,
        OtherSkinType::RankCMinus => 18,
        OtherSkinType::RankC => 19,
        OtherSkinType::RankCPlus => 20,
        OtherSkinType::RankBMinus => 21,
        OtherSkinType::RankB => 22,
        OtherSkinType::RankBPlus => 23,
        OtherSkinType::RankAMinus => 24,
        OtherSkinType::RankA => 25,
        OtherSkinType::RankAPlus => 26,
        OtherSkinType::RankSMinus => 27,
        OtherSkinType::RankS => 28,
        OtherSkinType::RankSPlus => 29,
        OtherSkinType::RankSS => 30,
        OtherSkinType::RankU => 31,
        OtherSkinType::RankX => 32,
        OtherSkinType::RankZ => 33,
    }
}

proof fn lemma_name_position(o: OtherSkinType)
    ensures
        name_position(name_fingerprint(o.spec_name())) == texture_position(o),
{
    reveal_strlit("board");
    reveal_strlit("queue");
    reveal_strlit("grid");
    reveal_strlit("particle_beam");
    reveal_strlit("particle_beams_beam");
    reveal_strlit("particle_big_box");
    reveal_strlit("particle_box");
    reveal_strlit("particle_chip");
    reveal_strlit("particle_chirp");
    reveal_strlit("particle_dust");
    reveal_strlit("particle_f_box");
    reveal_strlit("particle_fire");
    reveal_strlit("particle_particle");
    reveal_strlit("particle_smoke");
    reveal_strlit("particle_star");
    reveal_strlit("particle_flake");
    reveal_strlit("rank_d");
    reveal_strlit("rank_d_plus");
    reveal_strlit("rank_c_minus");
    reveal_strlit("rank_c");
    reveal_strlit("rank_c_plus");
    reveal_strlit("rank_b_minus");
    reveal_strlit("rank_b");
    reveal_strlit("rank_b_plus");
    reveal_strlit("rank_a_minus");
    reveal_strlit("rank_a");
    reveal_strlit("rank_a_plus");
    reveal_strlit("rank_s_minus");
    reveal_strlit("rank_s");
    reveal_strlit("rank_s_plus");
    reveal_strlit("rank_ss");
    reveal_strlit("rank_u");
    reveal_strlit("rank_x");
    reveal_strlit("rank_z");
}

/// No two textures share a name.
pub proof fn lemma_texture_names_distinct(a: OtherSkinType, b: OtherSkinType)
    requires
        a != b,
    ensures
        a.spec_name() != b.spec_name(),
{
    lemma_name_position(a);
    lemma_name_position(b);
}

impl BackgroundType {
    /// The name of the background type.
    pub open spec fn spec_name(self) -> Seq<char> {
        match self {
            BackgroundType::Video => "video"@,
            BackgroundType::Image => "image"@,
        }
    }

    /// Returns the name of the background type.
    pub fn name(&self) -> (r: &'static str)
        ensures
            r@ == self.spec_name(),
    {
        proof {
            reveal_strlit("video");
            reveal_strlit("image");
        }
        match self {
            BackgroundType::Video => "video",
            BackgroundType::Image => "image",
        }
    }
}

impl AnimatedOptions {
    /// How the animation options are described: the delay in frames and whether frames
    /// are combined, each where given.
    pub open spec fn spec_describe(self) -> Seq<char> {
        "at a "@ + (match self.delay {
            Some(d) => decimal(d as nat) + " frame"@,
            None => "unspecified"@,
        }) + " delay and drawn "@ + (match self.combine {
            None => "unspecified"@,
            Some(true) => "optimized (combine)"@,
            Some(false) => "unoptimized (replace)"@,
        })
    }

    /// Describes the animation options.
    pub fn describe(&self) -> (r: String)
        ensures
            r@ == self.spec_describe(),
    {
        proof {
            reveal_strlit("at a ");
            reveal_strlit(" frame");
            reveal_strlit("unspecified");
            reveal_strlit(" delay and drawn ");
            reveal_strlit("optimized (combine)");
            reveal_strlit("unoptimized (replace)");
        }
        let mut out = String::new();
        out.append("at a ");
        match self.delay {
            Some(d) => {
                let digits = u32_decimal(d);
                out.append(digits.as_str());
                out.append(" frame");
            },
            None => {
                out.append("unspecified");
            },
        }
        out.append(" delay and drawn ");
        match self.combine {
            None => {
                out.append("unspecified");
            },
            Some(true) => {
                out.append("optimized (combine)");
            },
            Some(false) => {
                out.append("unoptimized (replace)");
            },
        }
        assert(out@ =~= self.spec_describe());
        out
    }
}

impl SkinType {
    /// How the block skin format is described.
    pub open spec fn spec_describe(self) -> Seq<char> {
        match self {
            SkinType::Tetrio61 => "tetrio v6.1 unconnected minos"@,
            SkinType::Tetrio61Ghost => "tetrio v6.1 unconnected ghost"@,
            SkinType::Tetrio61Connected => "tetrio v6.1 connected minos"@,
            SkinType::Tetrio61ConnectedGhost => "tetrio v6.1 connected ghost"@,
            SkinType::Tetrio61ConnectedAnimated { opts } => "tetrio v6.1 connected animated "@ + opts.spec_describe(),
            SkinType::Tetrio61ConnectedGhostAnimated { opts } => "tetrio v6.1 connected ghost animated "@
                + opts.spec_describe(),
            SkinType::TetrioSVG => "old tetrio svg"@,
            SkinType::TetrioRaster => "old tetrio raster"@,
            SkinType::TetrioAnimated { opts } => "old tetrio animated "@ + opts.spec_describe(),
            SkinType::JstrisRaster => "jstris"@,
            SkinType::JstrisAnimated { .. } => "jstris animated"@,
            SkinType::JstrisConnected => "jstris connected"@,
        }
    }

    /// Describes the block skin format.
    pub fn describe(&self) -> (r: String)
        ensures
            r@ == self.spec_describe(),
    {
        proof {
            reveal_strlit("tetrio v6.1 unconnected minos");
            reveal_strlit("tetrio v6.1 unconnected ghost");
            reveal_strlit("tetrio v6.1 connected minos");
            reveal_strlit("tetrio v6.1 connected ghost");
            reveal_strlit("tetrio v6.1 connected animated ");
            reveal_strlit("tetrio v6.1 connected ghost animated ");
            reveal_strlit("old tetrio svg");
            reveal_strlit("old tetrio raster");
            reveal_strlit("old tetrio animated ");
            reveal_strlit("jstris");
            reveal_strlit("jstris animated");
            reveal_strlit("jstris connected");
        }
        let mut out = String::new();
        match self {
            SkinType::Tetrio61 => out.append("tetrio v6.1 unconnected minos"),
            SkinType::Tetrio61Ghost => out.append("tetrio v6.1 unconnected ghost"),
            SkinType::Tetrio61Connected => out.append("tetrio v6.1 connected minos"),
            SkinType::Tetrio61ConnectedGhost => out.append("tetrio v6.1 connected ghost"),
            SkinType::Tetrio61ConnectedAnimated { opts } => {
                out.append("tetrio v6.1 connected animated ");
                let d = opts.describe();
                out.append(d.as_str());
            },
            SkinType::Tetrio61ConnectedGhostAnimated { opts } => {
                out.append("tetrio v6.1 connected ghost animated ");
                let d = opts.describe();
                out.append(d.as_str());
            },
            SkinType::TetrioSVG => out.append("old tetrio svg"),
            SkinType::TetrioRaster => out.append("old tetrio raster"),
            SkinType::TetrioAnimated { opts } => {
                out.append("old tetrio animated ");
                let d = opts.describe();
                out.append(d.as_str());
            },
            SkinType::JstrisRaster => out.append("jstris"),
            SkinType::JstrisAnimated { .. } => out.append("jstris animated"),
            SkinType::JstrisConnected => out.append("jstris connected"),
        }
        assert(out@ =~= self.spec_describe());
        out
    }
}

impl ImportType {
    /// How the import type is described.
    pub open spec fn spec_describe(self) -> Seq<char> {
        match self {
            ImportType::Automatic => "automatic"@,
            ImportType::PackJson => "pack.json"@,
            ImportType::Unknown => "unknown"@,
            ImportType::TPSE => "tpse"@,
            ImportType::Zip => "zip"@,
            ImportType::Skin { subtype } => subtype.spec_describe() + " skin"@,
            ImportType::OtherSkin { subtype } => subtype.spec_name() + " skin"@,
            ImportType::SoundEffects => "sound effect"@,
            ImportType::Background { subtype: BackgroundType::Video } => "video background"@,
            ImportType::Background { subtype: BackgroundType::Image } => "background"@,
            ImportType::Music => "music"@,
        }
    }

    /// Describes the import type.
    pub fn describe(&self) -> (r: String)
        ensures
            r@ == self.spec_describe(),
    {
        proof {
            reveal_strlit("automatic");
            reveal_strlit("pack.json");
            reveal_strlit("unknown");
            reveal_strlit("tpse");
            reveal_strlit("zip");
            reveal_strlit(" skin");
            reveal_strlit("sound effect");
            reveal_strlit("video background");
            reveal_strlit("background");
            reveal_strlit("music");
        }
        let mut out = String::new();
        match self {
            ImportType::Automatic => out.append("automatic"),
            ImportType::PackJson => out.append("pack.json"),
            ImportType::Unknown => out.append("unknown"),
            ImportType::TPSE => out.append("tpse"),
            ImportType::Zip => out.append("zip"),
            ImportType::Skin { subtype } => {
                let d = subtype.describe();
                out.append(d.as_str());
                out.append(" skin");
            },
            ImportType::OtherSkin { subtype } => {
                out.append(subtype.name());
                out.append(" skin");
            },
            ImportType::SoundEffects => out.append("sound effect"),
            ImportType::Background { subtype: BackgroundType::Video } => out.append("video background"),
            ImportType::Background { subtype: BackgroundType::Image } => out.append("background"),
            ImportType::Music => out.append("music"),
        }
        assert(out@ =~= self.spec_describe());
        out
    }
}

impl TypeStage1 {
    /// Describes the stage-one type as the import type it stands for.
    pub fn describe(&self) -> (r: String)
        ensures
            r@ == self.spec_to_import_type().spec_describe(),
    {
        self.to_import_type().describe()
    }
}

impl SpecificImportType {
    /// How the specific import type is described.
    pub open spec fn spec_describe(self) -> Seq<char> {
        match self {
            SpecificImportType::Zip => "zip"@,
            SpecificImportType::TPSE => "tpse"@,
            SpecificImportType::Skin(s) => s.spec_describe() + " skin"@,
            SpecificImportType::OtherSkin(o) => o.spec_name() + " skin"@,
            SpecificImportType::SoundEffects => "sound effects"@,
            SpecificImportType::Background(b) => b.spec_name() + " background"@,
            SpecificImportType::Music => "music"@,
        }
    }

    /// Describes the specific import type.
    pub fn describe(&self) -> (r: String)
        ensures
            r@ == self.spec_describe(),
    {
        proof {
            reveal_strlit("zip");
            reveal_strlit("tpse");
            reveal_strlit(" skin");
            reveal_strlit("sound effects");
            reveal_strlit(" background");
            reveal_strlit("music");
        }
        let mut out = String::new();
        match self {
            SpecificImportType::Zip => out.append("zip"),
            SpecificImportType::TPSE => out.append("tpse"),
            SpecificImportType::Skin(s) => {
                let d = s.describe();
                out.append(d.as_str());
                out.append(" skin");
            },
            SpecificImportType::OtherSkin(o) => {
                out.append(o.name());
                out.append(" skin");
            },
            SpecificImportType::SoundEffects => out.append("sound effects"),
            SpecificImportType::Background(b) => {
                out.append(b.name());
                out.append(" background");
            },
            SpecificImportType::Music => out.append("music"),
        }
        assert(out@ =~= self.spec_describe());
        out
    }
}

} // verus!
