//! A TPSE: the collection of custom content that an import produces.
use vstd::prelude::*;

use crate::import_types::{BackgroundType, OtherSkinType};
use crate::names::lemma_texture_names_distinct;

verus! {

/// A file of custom content: its bytes and its mime type.
pub struct File {
    pub binary: Vec<u8>,
    pub mime: String,
}

/// How an animated skin plays: how many frames it has and how many game frames each lasts.
#[derive(Debug, Clone, Copy, PartialEq, Eq, Structural)]
pub struct AnimMeta {
    pub frames: u32,
    pub delay: u32,
}

/// A custom background.
pub struct Background {
    /// The key under which the background's file is stored.
    pub id: String,
    pub filename: String,
    pub background_type: BackgroundType,
}

/// Metadata of a custom song.
pub struct SongMetadata {
    pub name: String,
}

/// A custom song.
pub struct Song {
    /// The key under which the song's file is stored.
    pub id: String,
    pub filename: String,
    pub song_override: Option<String>,
    pub metadata: SongMetadata,
}

/// A value stored under a key of a TPSE.
pub enum MiscTPSEValue {
    File(File),
}

/// Custom content.
pub struct TPSE {
    pub skin: Option<File>,
    /// The ghost skin texture.
    pub ghost_skin: Option<File>,
    pub skin_anim: Option<File>,
    pub skin_anim_meta: Option<AnimMeta>,
    pub ghost_anim: Option<File>,
    pub ghost_anim_meta: Option<AnimMeta>,
    pub board: Option<File>,
    pub queue: Option<File>,
    pub grid: Option<File>,
    pub particle_beam: Option<File>,
    pub particle_beams_beam: Option<File>,
    pub particle_bigbox: Option<File>,
    pub particle_box: Option<File>,
    pub particle_chip: Option<File>,
    pub particle_chirp: Option<File>,
    pub particle_dust: Option<File>,
    pub particle_fbox: Option<File>,
    pub particle_fire: Option<File>,
    pub particle_particle: Option<File>,
    pub particle_smoke: Option<File>,
    pub particle_star: Option<File>,
    pub particle_flake: Option<File>,
    pub rank_d: Option<File>,
    pub rank_dplus: Option<File>,
    pub rank_cminus: Option<File>,
    pub rank_c: Option<File>,
    pub rank_cplus: Option<File>,
    pub rank_bminus: Option<File>,
    pub rank_b: Option<File>,
    pub rank_bplus: Option<File>,
    pub rank_aminus: Option<File>,
    pub rank_a: Option<File>,
    pub rank_aplus: Option<File>,
    pub rank_sminus: Option<File>,
    pub rank_s: Option<File>,
    pub rank_splus: Option<File>,
    pub rank_ss: Option<File>,
    pub rank_u: Option<File>,
    pub rank_x: Option<File>,
    pub rank_z: Option<File>,
    pub custom_sounds: Option<File>,
    /// Files stored under keys, each key once.
    pub other: Vec<(String, MiscTPSEValue)>,
    pub backgrounds: Option<Vec<Background>>,
    pub music: Option<Vec<Song>>,
}

impl Default for TPSE {
    /// A TPSE with no content.
    fn default() -> (r: TPSE)
        ensures
            r.skin is None,
            r.ghost_skin is None,
            r.skin_anim is None,
            r.skin_anim_meta is None,
            r.ghost_anim is None,
            r.ghost_anim_meta is None,
            r.board is None,
            r.queue is None,
            r.grid is None,
            r.particle_beam is None,
            r.particle_beams_beam is None,
            r.particle_bigbox is None,
            r.particle_box is None,
            r.particle_chip is None,
            r.particle_chirp is None,
            r.particle_dust is None,
            r.particle_fbox is None,
            r.particle_fire is None,
            r.particle_particle is None,
            r.particle_smoke is None,
            r.particle_star is None,
            r.particle_flake is None,
            r.rank_d is None,
            r.rank_dplus is None,
            r.rank_cminus is None,
            r.rank_c is None,
            r.rank_cplus is None,
            r.rank_bminus is None,
            r.rank_b is None,
            r.rank_bplus is None,
            r.rank_aminus is None,
            r.rank_a is None,
            r.rank_aplus is None,
            r.rank_sminus is None,
            r.rank_s is None,
            r.rank_splus is None,
            r.rank_ss is None,
            r.rank_u is None,
            r.rank_x is None,
            r.rank_z is None,
            r.custom_sounds is None,
            r.other@.len() == 0,
            r.backgrounds is None,
            r.music is None,
    {
        TPSE {
            skin: None,
            ghost_skin: None,
            skin_anim: None,
            skin_anim_meta: None,
            ghost_anim: None,
            ghost_anim_meta: None,
            board: None,
            queue: None,
            grid: None,
            particle_beam: None,
            particle_beams_beam: None,
            particle_bigbox: None,
            particle_box: None,
            particle_chip: None,
            particle_chirp: None,
            particle_dust: None,
            particle_fbox: None,
            particle_fire: None,
            particle_particle: None,
            particle_smoke: None,
            particle_star: None,
            particle_flake: None,
            rank_d: None,
            rank_dplus: None,
            rank_cminus: None,
            rank_c: None,
            rank_cplus: None,
            rank_bminus: None,
            rank_b: None,
            rank_bplus: None,
            rank_aminus: None,
            rank_a: None,
            rank_aplus: None,
            rank_sminus: None,
            rank_s: None,
            rank_splus: None,
            rank_ss: None,
            rank_u: None,
            rank_x: None,
            rank_z: None,
            custom_sounds: None,
            other: Vec::new(),
            backgrounds: None,
            music: None,
        }
    }
}

impl OtherSkinType {
    /// The texture slot of a TPSE that this texture goes in.
    pub open spec fn spec_field(self, t: TPSE) -> Option<File> {
        match self {
            OtherSkinType::Board => t.board,
            OtherSkinType::Queue => t.queue,
            OtherSkinType::Grid => t.grid,
            OtherSkinType::ParticleBeam => t.particle_beam,
            OtherSkinType::ParticleBeamsBeam => t.particle_beams_beam,
            OtherSkinType::ParticleBigBox => t.particle_bigbox,
            OtherSkinType::ParticleBox => t.particle_box,
            OtherSkinType::ParticleChip => t.particle_chip,
            OtherSkinType::ParticleChirp => t.particle_chirp,
            OtherSkinType::ParticleDust => t.particle_dust,
            OtherSkinType::ParticleFBox => t.particle_fbox,
            OtherSkinType::ParticleFire => t.particle_fire,
            OtherSkinType::ParticleParticle => t.particle_particle,
            OtherSkinType::ParticleSmoke => t.particle_smoke,
            OtherSkinType::ParticleStar => t.particle_star,
            OtherSkinType::ParticleFlake => t.particle_flake,
            OtherSkinType::RankD => t.rank_d,
            OtherSkinType::RankDPlus => t.rank_dplus,
            OtherSkinType::RankCMinus => t.rank_cminus,
            OtherSkinType::RankC => t.rank_c,
            OtherSkinType::RankCPlus => t.rank_cplus,
            OtherSkinType::RankBMinus => t.rank_bminus,
            OtherSkinType::RankB => t.rank_b,
            OtherSkinType::RankBPlus => t.rank_bplus,
            OtherSkinType::RankAMinus => t.rank_aminus,
            OtherSkinType::RankA => t.rank_a,
            OtherSkinType::RankAPlus => t.rank_aplus,
            OtherSkinType::RankSMinus => t.rank_sminus,
            OtherSkinType::RankS => t.rank_s,
            OtherSkinType::RankSPlus => t.rank_splus,
            OtherSkinType::RankSS => t.rank_ss,
            OtherSkinType::RankU => t.rank_u,
            OtherSkinType::RankX => t.rank_x,
            OtherSkinType::RankZ => t.rank_z,
        }
    }

    /// A TPSE with the texture slot of this texture set to `f`.
    pub open spec fn spec_with_field(self, t: TPSE, f: Option<File>) -> TPSE {
        match self {
            OtherSkinType::Board => TPSE { board: f, ..t },
            OtherSkinType::Queue => TPSE { queue: f, ..t },
            OtherSkinType::Grid => TPSE { grid: f, ..t },
            OtherSkinType::ParticleBeam => TPSE { particle_beam: f, ..t },
            OtherSkinType::ParticleBeamsBeam => TPSE { particle_beams_beam: f, ..t },
            OtherSkinType::ParticleBigBox => TPSE { particle_bigbox: f, ..t },
            OtherSkinType::ParticleBox => TPSE { particle_box: f, ..t },
            OtherSkinType::ParticleChip => TPSE { particle_chip: f, ..t },
            OtherSkinType::ParticleChirp => TPSE { particle_chirp: f, ..t },
            OtherSkinType::ParticleDust => TPSE { particle_dust: f, ..t },
            OtherSkinType::ParticleFBox => TPSE { particle_fbox: f, ..t },
            OtherSkinType::ParticleFire => TPSE { particle_fire: f, ..t },
            OtherSkinType::ParticleParticle => TPSE { particle_particle: f, ..t },
            OtherSkinType::ParticleSmoke => TPSE { particle_smoke: f, ..t },
            OtherSkinType::ParticleStar => TPSE { particle_star: f, ..t },
            OtherSkinType::ParticleFlake => TPSE { particle_flake: f, ..t },
            OtherSkinType::RankD => TPSE { rank_d: f, ..t },
            OtherSkinType::RankDPlus => TPSE { rank_dplus: f, ..t },
            OtherSkinType::RankCMinus => TPSE { rank_cminus: f, ..t },
            OtherSkinType::RankC => TPSE { rank_c: f, ..t },
            OtherSkinType::RankCPlus => TPSE { rank_cplus: f, ..t },
            OtherSkinType::RankBMinus => TPSE { rank_bminus: f, ..t },
            OtherSkinType::RankB => TPSE { rank_b: f, ..t },
            OtherSkinType::RankBPlus => TPSE { rank_bplus: f, ..t },
            OtherSkinType::RankAMinus => TPSE { rank_aminus: f, ..t },
            OtherSkinType::RankA => TPSE { rank_a: f, ..t },
            OtherSkinType::RankAPlus => TPSE { rank_aplus: f, ..t },
            OtherSkinType::RankSMinus => TPSE { rank_sminus: f, ..t },
            OtherSkinType::RankS => TPSE { rank_s: f, ..t },
            OtherSkinType::RankSPlus => TPSE { rank_splus: f, ..t },
            OtherSkinType::RankSS => TPSE { rank_ss: f, ..t },
            OtherSkinType::RankU => TPSE { rank_u: f, ..t },
            OtherSkinType::RankX => TPSE { rank_x: f, ..t },
            OtherSkinType::RankZ => TPSE { rank_z: f, ..t },
        }
    }

    /// Returns the texture slot of `tpse` that this texture goes in.
    pub fn tpse_field<'a>(&self, tpse: &'a mut TPSE) -> (r: &'a mut Option<File>)
        ensures
            *r == self.spec_field(*old(tpse)),
            *final(tpse) == self.spec_with_field(*old(tpse), *final(r)),
    {
        match self {
            OtherSkinType::Board => &mut tpse.board,
            OtherSkinType::Queue => &mut tpse.queue,
            OtherSkinType::Grid => &mut tpse.grid,
            OtherSkinType::ParticleBeam => &mut tpse.particle_beam,
            OtherSkinType::ParticleBeamsBeam => &mut tpse.particle_beams_beam,
            OtherSkinType::ParticleBigBox => &mut tpse.particle_bigbox,
            OtherSkinType::ParticleBox => &mut tpse.particle_box,
            OtherSkinType::ParticleChip => &mut tpse.particle_chip,
            OtherSkinType::ParticleChirp => &mut tpse.particle_chirp,
            OtherSkinType::ParticleDust => &mut tpse.particle_dust,
            OtherSkinType::ParticleFBox => &mut tpse.particle_fbox,
            OtherSkinType::ParticleFire => &mut tpse.particle_fire,
            OtherSkinType::ParticleParticle => &mut tpse.particle_particle,
            OtherSkinType::ParticleSmoke => &mut tpse.particle_smoke,
            OtherSkinType::ParticleStar => &mut tpse.particle_star,
            OtherSkinType::ParticleFlake => &mut tpse.particle_flake,
            OtherSkinType::RankD => &mut tpse.rank_d,
            OtherSkinType::RankDPlus => &mut tpse.rank_dplus,
            OtherSkinType::RankCMinus => &mut tpse.rank_cminus,
            OtherSkinType::RankC => &mut tpse.rank_c,
            OtherSkinType::RankCPlus => &mut tpse.rank_cplus,
            OtherSkinType::RankBMinus => &mut tpse.rank_bminus,
            OtherSkinType::RankB => &mut tpse.rank_b,
            OtherSkinType::RankBPlus => &mut tpse.rank_bplus,
            OtherSkinType::RankAMinus => &mut tpse.rank_aminus,
            OtherSkinType::RankA => &mut tpse.rank_a,
            OtherSkinType::RankAPlus => &mut tpse.rank_aplus,
            OtherSkinType::RankSMinus => &mut tpse.rank_sminus,
            OtherSkinType::RankS => &mut tpse.rank_s,
            OtherSkinType::RankSPlus => &mut tpse.rank_splus,
            OtherSkinType::RankSS => &mut tpse.rank_ss,
            OtherSkinType::RankU => &mut tpse.rank_u,
            OtherSkinType::RankX => &mut tpse.rank_x,
            OtherSkinType::RankZ => &mut tpse.rank_z,
        }
    }
}

/// Each other-skin texture has a slot of its own: what is put in a texture's slot is read
/// back from it, and the slots of the other textures keep what they held.
#[verifier::rlimit(50)]
pub proof fn lemma_field_read_after_write(a: OtherSkinType, b: OtherSkinType, t: TPSE, f: Option<File>)
    ensures
        a.spec_field(a.spec_with_field(t, f)) == f,
        a != b ==> b.spec_field(a.spec_with_field(t, f)) == b.spec_field(t),
{
}

/// The texture slot of a TPSE that is named `name`.
pub open spec fn named_slot(t: TPSE, name: Seq<char>) -> Option<File> {
    if name == "board"@ {
        t.board
    } else if name == "queue"@ {
        t.queue
    } else if name == "grid"@ {
        t.grid
    } else if name == "particle_beam"@ {
        t.particle_beam
    } else if name == "particle_beams_beam"@ {
        t.particle_beams_beam
    } else if name == "particle_big_box"@ {
        t.particle_bigbox
    } else if name == "particle_box"@ {
        t.particle_box
    } else if name == "particle_chip"@ {
        t.particle_chip
    } else if name == "particle_chirp"@ {
        t.particle_chirp
    } else if name == "particle_dust"@ {
        t.particle_dust
    } else if name == "particle_f_box"@ {
        t.particle_fbox
    } else if name == "particle_fire"@ {
        t.particle_fire
    } else if name == "particle_particle"@ {
        t.particle_particle
    } else if name == "particle_smoke"@ {
        t.particle_smoke
    } else if name == "particle_star"@ {
        t.particle_star
    } else if name == "particle_flake"@ {
        t.particle_flake
    } else if name == "rank_d"@ {
        t.rank_d
    } else if name == "rank_d_plus"@ {
        t.rank_dplus
    } else if name == "rank_c_minus"@ {
        t.rank_cminus
    } else if name == "rank_c"@ {
        t.rank_c
    } else if name == "rank_c_plus"@ {
        t.rank_cplus
    } else if name == "rank_b_minus"@ {
        t.rank_bminus
    } else if name == "rank_b"@ {
        t.rank_b
    } else if name == "rank_b_plus"@ {
        t.rank_bplus
    } else if name == "rank_a_minus"@ {
        t.rank_aminus
    } else if name == "rank_a"@ {
        t.rank_a
    } else if name == "rank_a_plus"@ {
        t.rank_aplus
    } else if name == "rank_s_minus"@ {
        t.rank_sminus
    } else if name == "rank_s"@ {
        t.rank_s
    } else if name == "rank_s_plus"@ {
        t.rank_splus
    } else if name == "rank_ss"@ {
        t.rank_ss
    } else if name == "rank_u"@ {
        t.rank_u
    } else if name == "rank_x"@ {
        t.rank_x
    } else if name == "rank_z"@ {
        t.rank_z
    } else {
        None
    }
}

/// A TPSE with the texture slot named `name` set to `f`.
pub open spec fn with_named_slot(t: TPSE, name: Seq<char>, f: Option<File>) -> TPSE {
    if name == "board"@ {
        TPSE { board: f, ..t }
    } else if name == "queue"@ {
        TPSE { queue: f, ..t }
    } else if name == "grid"@ {
        TPSE { grid: f, ..t }
    } else if name == "particle_beam"@ {
        TPSE { particle_beam: f, ..t }
    } else if name == "particle_beams_beam"@ {
        TPSE { particle_beams_beam: f, ..t }
    } else if name == "particle_big_box"@ {
        TPSE { particle_bigbox: f, ..t }
    } else if name == "particle_box"@ {
        TPSE { particle_box: f, ..t }
    } else if name == "particle_chip"@ {
        TPSE { particle_chip: f, ..t }
    } else if name == "particle_chirp"@ {
        TPSE { particle_chirp: f, ..t }
    } else if name == "particle_dust"@ {
        TPSE { particle_dust: f, ..t }
    } else if name == "particle_f_box"@ {
        TPSE { particle_fbox: f, ..t }
    } else if name == "particle_fire"@ {
        TPSE { particle_fire: f, ..t }
    } else if name == "particle_particle"@ {
        TPSE { particle_particle: f, ..t }
    } else if name == "particle_smoke"@ {
        TPSE { particle_smoke: f, ..t }
    } else if name == "particle_star"@ {
        TPSE { particle_star: f, ..t }
    } else if name == "particle_flake"@ {
        TPSE { particle_flake: f, ..t }
    } else if name == "rank_d"@ {
        TPSE { rank_d: f, ..t }
    } else if name == "rank_d_plus"@ {
        TPSE { rank_dplus: f, ..t }
    } else if name == "rank_c_minus"@ {
        TPSE { rank_cminus: f, ..t }
    } else if name == "rank_c"@ {
        TPSE { rank_c: f, ..t }
    } else if name == "rank_c_plus"@ {
        TPSE { rank_cplus: f, ..t }
    } else if name == "rank_b_minus"@ {
        TPSE { rank_bminus: f, ..t }
    } else if name == "rank_b"@ {
        TPSE { rank_b: f, ..t }
    } else if name == "rank_b_plus"@ {
        TPSE { rank_bplus: f, ..t }
    } else if name == "rank_a_minus"@ {
        TPSE { rank_aminus: f, ..t }
    } else if name == "rank_a"@ {
        TPSE { rank_a: f, ..t }
    } else if name == "rank_a_plus"@ {
        TPSE { rank_aplus: f, ..t }
    } else if name == "rank_s_minus"@ {
        TPSE { rank_sminus: f, ..t }
    } else if name == "rank_s"@ {
        TPSE { rank_s: f, ..t }
    } else if name == "rank_s_plus"@ {
        TPSE { rank_splus: f, ..t }
    } else if name == "rank_ss"@ {
        TPSE { rank_ss: f, ..t }
    } else if name == "rank_u"@ {
        TPSE { rank_u: f, ..t }
    } else if name == "rank_x"@ {
        TPSE { rank_x: f, ..t }
    } else if name == "rank_z"@ {
        TPSE { rank_z: f, ..t }
    } else {
        t
    }
}

/// Each texture goes in the TPSE slot that carries the texture's own name.
pub proof fn lemma_texture_slot_is_named(o: OtherSkinType, t: TPSE, f: Option<File>)
    ensures
        o.spec_field(t) == named_slot(t, o.spec_name()),
        o.spec_with_field(t, f) == with_named_slot(t, o.spec_name(), f),
{
    if o != OtherSkinType::Board {
        lemma_texture_names_distinct(o, OtherSkinType::Board);
    }
    if o != OtherSkinType::Queue {
        lemma_texture_names_distinct(o, OtherSkinType::Queue);
    }
    if o != OtherSkinType::Grid {
        lemma_texture_names_distinct(o, OtherSkinType::Grid);
    }
    if o != OtherSkinType::ParticleBeam {
        lemma_texture_names_distinct(o, OtherSkinType::ParticleBeam);
    }
    if o != OtherSkinType::ParticleBeamsBeam {
        lemma_texture_names_distinct(o, OtherSkinType::ParticleBeamsBeam);
    }
    if o != OtherSkinType::ParticleBigBox {
        lemma_texture_names_distinct(o, OtherSkinType::ParticleBigBox);
    }
    if o != OtherSkinType::ParticleBox {
        lemma_texture_names_distinct(o, OtherSkinType::ParticleBox);
    }
    if o != OtherSkinType::ParticleChip {
        lemma_texture_names_distinct(o, OtherSkinType::ParticleChip);
    }
    if o != OtherSkinType::ParticleChirp {
        lemma_texture_names_distinct(o, OtherSkinType::ParticleChirp);
    }
    if o != OtherSkinType::ParticleDust {
        lemma_texture_names_distinct(o, OtherSkinType::ParticleDust);
    }
    if o != OtherSkinType::ParticleFBox {
        lemma_texture_names_distinct(o, OtherSkinType::ParticleFBox);
    }
    if o != OtherSkinType::ParticleFire {
        lemma_texture_names_distinct(o, OtherSkinType::ParticleFire);
    }
    if o != OtherSkinType::ParticleParticle {
        lemma_texture_names_distinct(o, OtherSkinType::ParticleParticle);
    }
    if o != OtherSkinType::ParticleSmoke {
        lemma_texture_names_distinct(o, OtherSkinType::ParticleSmoke);
    }
    if o != OtherSkinType::ParticleStar {
        lemma_texture_names_distinct(o, OtherSkinType::ParticleStar);
    }
    if o != OtherSkinType::ParticleFlake {
        lemma_texture_names_distinct(o, OtherSkinType::ParticleFlake);
    }
    if o != OtherSkinType::RankD {
        lemma_texture_names_distinct(o, OtherSkinType::RankD);
    }
    if o != OtherSkinType::RankDPlus {
        lemma_texture_names_distinct(o, OtherSkinType::RankDPlus);
    }
    if o != OtherSkinType::RankCMinus {
        lemma_texture_names_distinct(o, OtherSkinType::RankCMinus);
    }
    if o != OtherSkinType::RankC {
        lemma_texture_names_distinct(o, OtherSkinType::RankC);
    }
    if o != OtherSkinType::RankCPlus {
        lemma_texture_names_distinct(o, OtherSkinType::RankCPlus);
    }
    if o != OtherSkinType::RankBMinus {
        lemma_texture_names_distinct(o, OtherSkinType::RankBMinus);
    }
    if o != OtherSkinType::RankB {
        lemma_texture_names_distinct(o, OtherSkinType::RankB);
    }
    if o != OtherSkinType::RankBPlus {
        lemma_texture_names_distinct(o, OtherSkinType::RankBPlus);
    }
    if o != OtherSkinType::RankAMinus {
        lemma_texture_names_distinct(o, OtherSkinType::RankAMinus);
    }
    if o != OtherSkinType::RankA {
        lemma_texture_names_distinct(o, OtherSkinType::RankA);
    }
    if o != OtherSkinType::RankAPlus {
        lemma_texture_names_distinct(o, OtherSkinType::RankAPlus);
    }
    if o != OtherSkinType::RankSMinus {
        lemma_texture_names_distinct(o, OtherSkinType::RankSMinus);
    }
    if o != OtherSkinType::RankS {
        lemma_texture_names_distinct(o, OtherSkinType::RankS);
    }
    if o != OtherSkinType::RankSPlus {
        lemma_texture_names_distinct(o, OtherSkinType::RankSPlus);
    }
    if o != OtherSkinType::RankSS {
        lemma_texture_names_distinct(o, OtherSkinType::RankSS);
    }
    if o != OtherSkinType::RankU {
        lemma_texture_names_distinct(o, OtherSkinType::RankU);
    }
    if o != OtherSkinType::RankX {
        lemma_texture_names_distinct(o, OtherSkinType::RankX);
    }
    if o != OtherSkinType::RankZ {
        lemma_texture_names_distinct(o, OtherSkinType::RankZ);
    }
}

} // verus!
