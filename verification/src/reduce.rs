//! Type reduction: settles weak guesses by looking at the files around them, and
//! collates the files into import tasks.
use vstd::prelude::*;

use crate::guess::{TextureGuess, TextureGuessKind};
use crate::import_types::{OtherSkinType, SkinType};
use crate::guess::opt_view;
use crate::inter_stage::{
    AnimatedSkinFrame, ImportFile, ImportTask, SoundEffect, TaskView, TypeStage3, TypeStage4,
    guess_type, task_view, tasks_view,
};
use crate::paths::{file_stem_of, parent_of, path_file_stem, path_parent};
use crate::text::str_equals;

verus! {

/// The side of a square board or queue texture, in pixels.
pub const BOARD_SIDE: u32 = 512;

/// The side of a square grid texture, in pixels: twice that of a board.
pub const GRID_SIDE: u32 = 1024;

/// How the sound effect heuristics see a type: 0 for a sound effect, 1 for an audio
/// file of unknown purpose, 2 for a file of unknown type, 3 for anything else.
pub open spec fn audio_class(t: TypeStage3) -> int {
    match t {
        TypeStage3::SoundEffects => 0,
        TypeStage3::WeakAudio => 1,
        TypeStage3::Unknown => 2,
        _ => 3,
    }
}

/// How many of `ts` are of audio class `c`.
pub open spec fn count_class(ts: Seq<TypeStage3>, c: int) -> nat
    decreases ts.len(),
{
    if ts.len() == 0 {
        0
    } else {
        count_class(ts.drop_last(), c) + if audio_class(ts.last()) == c {
            1nat
        } else {
            0nat
        }
    }
}

/// The two sound effect rules of a directory: whether its audio files of unknown
/// purpose become sound effects, and whether its files of unknown type are ignored.
/// Both need a sound effect, fewer than three files of unknown type and nothing
/// but audio besides.
pub open spec fn audio_rules(ts: Seq<TypeStage3>) -> (bool, bool) {
    let sfx = count_class(ts, 0);
    let weak = count_class(ts, 1);
    let unknown = count_class(ts, 2);
    let other = count_class(ts, 3);
    (sfx > 0 && weak > 0 && unknown < 3 && other == 0, sfx > 0 && unknown > 0 && unknown < 3 && other
        == 0)
}

/// The type of one file after the sound effect rules.
pub open spec fn audio_step_one(t: TypeStage3, rules: (bool, bool)) -> TypeStage3 {
    if rules.0 && t is WeakAudio {
        TypeStage3::SoundEffects
    } else if rules.1 && t is Unknown {
        TypeStage3::Ignored
    } else {
        t
    }
}

/// The types of a directory after the sound effect rules.
pub open spec fn audio_step(ts: Seq<TypeStage3>) -> Seq<TypeStage3> {
    let rules = audio_rules(ts);
    ts.map_values(|t: TypeStage3| audio_step_one(t, rules))
}

proof fn lemma_count_class_step(ts: Seq<TypeStage3>, i: int, c: int)
    requires
        0 <= i < ts.len(),
    ensures
        count_class(ts.take(i + 1), c) == count_class(ts.take(i), c) + if audio_class(ts[i]) == c {
            1nat
        } else {
            0nat
        },
{
    assert(ts.take(i + 1).drop_last() =~= ts.take(i));
}

proof fn lemma_count_classes(ts: Seq<TypeStage3>)
    ensures
        count_class(ts, 0) + count_class(ts, 1) + count_class(ts, 2) + count_class(ts, 3) == ts.len(),
    decreases ts.len(),
{
    if ts.len() > 0 {
        lemma_count_classes(ts.drop_last());
    }
}

proof fn lemma_count_class_positive(ts: Seq<TypeStage3>, c: int)
    ensures
        count_class(ts, c) > 0 <==> exists|i: int| 0 <= i < ts.len() && audio_class(#[trigger] ts[i]) == c,
    decreases ts.len(),
{
    if ts.len() > 0 {
        let init = ts.drop_last();
        lemma_count_class_positive(init, c);
        if count_class(init, c) > 0 {
            let j = choose|j: int| 0 <= j < init.len() && audio_class(#[trigger] init[j]) == c;
            assert(ts[j] == init[j]);
        }
        if exists|i: int| 0 <= i < ts.len() && audio_class(#[trigger] ts[i]) == c {
            let i = choose|i: int| 0 <= i < ts.len() && audio_class(#[trigger] ts[i]) == c;
            if i < ts.len() - 1 {
                assert(init[i] == ts[i]);
            }
        }
    }
}

proof fn lemma_count_unknown_filter(ts: Seq<TypeStage3>)
    ensures
        count_class(ts, 2) == ts.filter(|t: TypeStage3| t is Unknown).len(),
    decreases ts.len(),
{
    reveal(Seq::filter);
    if ts.len() > 0 {
        lemma_count_unknown_filter(ts.drop_last());
    }
}

/// The sound effect rules of a directory. Where the directory holds a sound effect,
/// nothing but audio and files of unknown type besides, and at most two files of unknown
/// type, each audio file of unknown purpose becomes a sound effect and each file of
/// unknown type is ignored. Where it holds no sound effect, three or more files of
/// unknown type, or any other file, nothing changes.
pub proof fn lemma_sound_effect_directory(ts: Seq<TypeStage3>)
    ensures
        audio_step(ts).len() == ts.len(),
        ((exists|i: int| 0 <= i < ts.len() && ts[i] is SoundEffects) && (forall|i: int|
            0 <= i < ts.len() ==> ts[i] is SoundEffects || ts[i] is WeakAudio || ts[i] is Unknown)
            && ts.filter(|t: TypeStage3| t is Unknown).len() <= 2) ==> forall|i: int|
            0 <= i < ts.len() ==> #[trigger] audio_step(ts)[i] == (if ts[i] is WeakAudio {
                TypeStage3::SoundEffects
            } else if ts[i] is Unknown {
                TypeStage3::Ignored
            } else {
                ts[i]
            }),
        (!(exists|i: int| 0 <= i < ts.len() && ts[i] is SoundEffects) || (exists|i: int|
            0 <= i < ts.len() && !(ts[i] is SoundEffects || ts[i] is WeakAudio || ts[i] is Unknown))
            || ts.filter(|t: TypeStage3| t is Unknown).len() >= 3) ==> audio_step(ts) == ts,
{
    lemma_count_unknown_filter(ts);
    lemma_count_class_positive(ts, 0);
    lemma_count_class_positive(ts, 1);
    lemma_count_class_positive(ts, 3);
    if exists|i: int| 0 <= i < ts.len() && ts[i] is SoundEffects {
        let i = choose|i: int| 0 <= i < ts.len() && ts[i] is SoundEffects;
        assert(audio_class(ts[i]) == 0);
    }
    if exists|i: int| 0 <= i < ts.len() && !(ts[i] is SoundEffects || ts[i] is WeakAudio || ts[i] is Unknown) {
        let i = choose|i: int| 0 <= i < ts.len() && !(ts[i] is SoundEffects || ts[i] is WeakAudio || ts[i] is Unknown);
        assert(audio_class(ts[i]) == 3);
    }
    if forall|i: int| 0 <= i < ts.len() ==> ts[i] is SoundEffects || ts[i] is WeakAudio || ts[i] is Unknown {
        if count_class(ts, 3) > 0 {
            let j = choose|j: int| 0 <= j < ts.len() && audio_class(#[trigger] ts[j]) == 3;
            assert(ts[j] is SoundEffects || ts[j] is WeakAudio || ts[j] is Unknown);
        }
    }
    if count_class(ts, 0) > 0 {
        let j = choose|j: int| 0 <= j < ts.len() && audio_class(#[trigger] ts[j]) == 0;
        assert(ts[j] is SoundEffects);
    }
    lemma_count_class_positive(ts, 2);
    let rules = audio_rules(ts);
    assert forall|i: int| 0 <= i < ts.len() implies #[trigger] audio_step(ts)[i] == audio_step_one(
        ts[i],
        rules,
    ) && (ts[i] is WeakAudio ==> count_class(ts, 1) > 0) && (ts[i] is Unknown ==> count_class(ts, 2) > 0) by {
        if ts[i] is WeakAudio {
            assert(audio_class(ts[i]) == 1);
        }
        if ts[i] is Unknown {
            assert(audio_class(ts[i]) == 2);
        }
    }
    if !rules.0 && !rules.1 {
        assert(audio_step(ts) =~= ts);
    }
}

/// Applies the sound effect rules to the types of one directory.
fn audio_step_exec(ts: &mut Vec<TypeStage3>)
    ensures
        final(ts)@ == audio_step(old(ts)@),
        final(ts).len() == old(ts).len(),
{
    let ghost orig = ts@;
    let mut sfx: usize = 0;
    let mut weak: usize = 0;
    let mut unknown: usize = 0;
    let mut other: usize = 0;
    let mut i: usize = 0;
    while i < ts.len()
        invariant
            ts@ == orig,
            i <= ts.len(),
            sfx == count_class(orig.take(i as int), 0),
            weak == count_class(orig.take(i as int), 1),
            unknown == count_class(orig.take(i as int), 2),
            other == count_class(orig.take(i as int), 3),
        decreases ts.len() - i,
    {
        proof {
            lemma_count_class_step(orig, i as int, 0);
            lemma_count_class_step(orig, i as int, 1);
            lemma_count_class_step(orig, i as int, 2);
            lemma_count_class_step(orig, i as int, 3);
            lemma_count_classes(orig.take(i as int));
        }
        match ts[i] {
            TypeStage3::SoundEffects => {
                sfx = sfx + 1;
            },
            TypeStage3::WeakAudio => {
                weak = weak + 1;
            },
            TypeStage3::Unknown => {
                unknown = unknown + 1;
            },
            _ => {
                other = other + 1;
            },
        }
        i = i + 1;
    }
    assert(orig.take(orig.len() as int) =~= orig);
    let rule_weak = sfx > 0 && weak > 0 && unknown < 3 && other == 0;
    let rule_unknown = sfx > 0 && unknown > 0 && unknown < 3 && other == 0;
    let ghost rules = audio_rules(orig);
    assert(rules == (rule_weak, rule_unknown));
    let mut j: usize = 0;
    while j < ts.len()
        invariant
            ts.len() == orig.len(),
            j <= ts.len(),
            rules == (rule_weak, rule_unknown),
            forall|k: int| 0 <= k < j ==> ts@[k] == audio_step_one(orig[k], rules),
            forall|k: int| j <= k < ts.len() ==> ts@[k] == orig[k],
        decreases ts.len() - j,
    {
        let t = ts[j];
        if rule_weak && matches!(t, TypeStage3::WeakAudio) {
            ts.set(j, TypeStage3::SoundEffects);
        } else if rule_unknown && matches!(t, TypeStage3::Unknown) {
            ts.set(j, TypeStage3::Ignored);
        }
        j = j + 1;
    }
    assert(ts@ =~= audio_step(orig));
}

/// The board, queue and grid positions that the `p`th ordering of three files tries.
pub open spec fn perm3(p: int) -> (int, int, int) {
    if p == 0 {
        (0, 1, 2)
    } else if p == 1 {
        (0, 2, 1)
    } else if p == 2 {
        (1, 0, 2)
    } else if p == 3 {
        (1, 2, 0)
    } else if p == 4 {
        (2, 0, 1)
    } else {
        (2, 1, 0)
    }
}

/// Whether a file can be the texture `role`, whose side is `side`: `Some(true)` for
/// a weak guess of that size, `Some(false)` for a file known to be that texture.
pub open spec fn role_fit(t: TypeStage3, role: OtherSkinType, side: u32) -> Option<bool> {
    match t {
        TypeStage3::WeakTexture { first_guess, .. } => if first_guess.width == side
            && first_guess.height == side {
            Some(true)
        } else {
            None
        },
        TypeStage3::OtherSkin { subtype } => if subtype == role {
            Some(false)
        } else {
            None
        },
        _ => None,
    }
}

/// Whether the `p`th ordering makes a board, a queue and a grid of three files, and
/// which of them are weak guesses.
pub open spec fn trio_fit(ts: Seq<TypeStage3>, p: int) -> Option<(bool, bool, bool)> {
    let (b, q, g) = perm3(p);
    match (
        role_fit(ts[b], OtherSkinType::Board, BOARD_SIDE),
        role_fit(ts[q], OtherSkinType::Queue, BOARD_SIDE),
        role_fit(ts[g], OtherSkinType::Grid, GRID_SIDE),
    ) {
        (Some(x), Some(y), Some(z)) => Some((x, y, z)),
        _ => None,
    }
}

/// The first ordering from the `p`th on that makes a board, a queue and a grid.
pub open spec fn first_trio(ts: Seq<TypeStage3>, p: int) -> Option<int>
    decreases 6 - p,
{
    if p >= 6 {
        None
    } else if trio_fit(ts, p) is Some {
        Some(p)
    } else {
        first_trio(ts, p + 1)
    }
}

/// The outcome of the heuristics for one directory: its new types, or the two files
/// (by position in the directory) whose opacities must be measured first.
pub enum DirStep {
    Types(Seq<TypeStage3>),
    Measure(int, int),
}

/// The board, queue and grid heuristic. Of a board and a queue, which have the same
/// size, the more opaque is taken to be the queue. `op` holds the measured opacity
/// of each file as a key that orders as the opacity does.
pub open spec fn trio_step(ts: Seq<TypeStage3>, op: Seq<Option<u32>>) -> DirStep {
    if ts.len() != 3 {
        DirStep::Types(ts)
    } else {
        match first_trio(ts, 0) {
            None => DirStep::Types(ts),
            Some(p) => {
                let (b, q, g) = perm3(p);
                let (bw, qw, gw) = trio_fit(ts, p)->Some_0;
                let board = TypeStage3::OtherSkin { subtype: OtherSkinType::Board };
                let queue = TypeStage3::OtherSkin { subtype: OtherSkinType::Queue };
                let grid = TypeStage3::OtherSkin { subtype: OtherSkinType::Grid };
                if !bw && !qw && !gw {
                    DirStep::Types(ts)
                } else if bw || qw {
                    match (op[b], op[q]) {
                        (Some(ob), Some(oq)) => if ob > oq {
                            DirStep::Types(ts.update(q, board).update(b, queue).update(g, grid))
                        } else {
                            DirStep::Types(ts.update(b, board).update(q, queue).update(g, grid))
                        },
                        _ => DirStep::Measure(b, q),
                    }
                } else {
                    DirStep::Types(ts.update(g, grid))
                }
            },
        }
    }
}

/// How a file can be the minos of a block skin: whether it is a weak guess, its
/// width and height, and whether it is a connected skin.
pub open spec fn minos_fit(t: TypeStage3) -> Option<(bool, u32, u32, bool)> {
    match t {
        TypeStage3::WeakTexture { first_guess, .. } => Some(
            (true, first_guess.width, first_guess.height, false),
        ),
        TypeStage3::Skin { subtype: SkinType::Tetrio61Connected } => Some((false, 1024, 1024, true)),
        TypeStage3::Skin { subtype: SkinType::Tetrio61 } => Some((false, 256, 256, false)),
        _ => None,
    }
}

/// How a file can be the ghost of a block skin, as `minos_fit` tells it.
pub open spec fn ghost_fit(t: TypeStage3) -> Option<(bool, u32, u32, bool)> {
    match t {
        TypeStage3::WeakTexture { first_guess, .. } => Some(
            (true, first_guess.width, first_guess.height, false),
        ),
        TypeStage3::Skin { subtype: SkinType::Tetrio61ConnectedGhost } => Some(
            (false, 512, 512, true),
        ),
        TypeStage3::Skin { subtype: SkinType::Tetrio61Ghost } => Some((false, 128, 128, false)),
        _ => None,
    }
}

/// The new types of a minos file `m` and a ghost file `g` that fit each other.
pub open spec fn duo_apply(
    ts: Seq<TypeStage3>,
    m: int,
    g: int,
    mf: (bool, u32, u32, bool),
    gf: (bool, u32, u32, bool),
) -> Seq<TypeStage3> {
    if !mf.0 && !gf.0 {
        ts
    } else if mf.0 && gf.0 {
        if mf.1 < 1024 {
            ts.update(m, TypeStage3::Skin { subtype: SkinType::Tetrio61 }).update(
                g,
                TypeStage3::Skin { subtype: SkinType::Tetrio61Ghost },
            )
        } else {
            ts.update(m, TypeStage3::Skin { subtype: SkinType::Tetrio61Connected }).update(
                g,
                TypeStage3::Skin { subtype: SkinType::Tetrio61ConnectedGhost },
            )
        }
    } else if mf.0 {
        ts.update(
            m,
            TypeStage3::Skin {
                subtype: if gf.3 {
                    SkinType::Tetrio61Connected
                } else {
                    SkinType::Tetrio61
                },
            },
        )
    } else {
        ts.update(
            g,
            TypeStage3::Skin {
                subtype: if mf.3 {
                    SkinType::Tetrio61ConnectedGhost
                } else {
                    SkinType::Tetrio61Ghost
                },
            },
        )
    }
}

/// The minos and ghost heuristic for a directory of two files, trying the `k`th
/// ordering and those after it. A minos texture that is not square ends the search;
/// a ghost must be half the size of the minos.
pub open spec fn duo_from(ts: Seq<TypeStage3>, k: int) -> Seq<TypeStage3>
    decreases 2 - k,
{
    if k >= 2 || ts.len() != 2 {
        ts
    } else {
        let m: int = if k == 0 {
            0
        } else {
            1
        };
        let g: int = 1 - m;
        match (minos_fit(ts[m]), ghost_fit(ts[g])) {
            (Some(mf), Some(gf)) => if mf.1 != mf.2 {
                ts
            } else if mf.1 != 2 * gf.1 || mf.2 != 2 * gf.2 {
                duo_from(ts, k + 1)
            } else {
                duo_apply(ts, m, g, mf, gf)
            },
            _ => duo_from(ts, k + 1),
        }
    }
}

/// All the heuristics for the types `ts` of one directory, with the measured opacities `op`.
pub open spec fn dir_step(ts: Seq<TypeStage3>, op: Seq<Option<u32>>) -> DirStep {
    match trio_step(audio_step(ts), op) {
        DirStep::Measure(b, q) => DirStep::Measure(b, q),
        DirStep::Types(t) => DirStep::Types(duo_from(t, 0)),
    }
}

fn role_fit_exec(t: &TypeStage3, role: OtherSkinType, side: u32) -> (r: Option<bool>)
    ensures
        r == role_fit(*t, role, side),
{
    match t {
        TypeStage3::WeakTexture { first_guess, .. } => if first_guess.width == side
            && first_guess.height == side {
            Some(true)
        } else {
            None
        },
        TypeStage3::OtherSkin { subtype } => if *subtype == role {
            Some(false)
        } else {
            None
        },
        _ => None,
    }
}

fn perm3_exec(p: usize) -> (r: (usize, usize, usize))
    requires
        p < 6,
    ensures
        r.0 == perm3(p as int).0,
        r.1 == perm3(p as int).1,
        r.2 == perm3(p as int).2,
{
    if p == 0 {
        (0, 1, 2)
    } else if p == 1 {
        (0, 2, 1)
    } else if p == 2 {
        (1, 0, 2)
    } else if p == 3 {
        (1, 2, 0)
    } else if p == 4 {
        (2, 0, 1)
    } else {
        (2, 1, 0)
    }
}

/// Applies the board, queue and grid heuristic to the types of one directory, or
/// names the board and queue files whose opacities it needs first.
fn trio_exec(ts: &mut Vec<TypeStage3>, op: &Vec<Option<u32>>) -> (r: Option<(usize, usize)>)
    requires
        op.len() == old(ts).len(),
    ensures
        match trio_step(old(ts)@, op@) {
            DirStep::Types(t) => r is None && final(ts)@ == t,
            DirStep::Measure(b, q) => r == Some((b as usize, q as usize)) && final(ts)@ == old(ts)@,
        },
        final(ts).len() == old(ts).len(),
{
    if ts.len() != 3 {
        return None;
    }
    let ghost orig = ts@;
    let mut p: usize = 0;
    while p < 6
        invariant
            ts@ == orig,
            old(ts)@ == orig,
            orig.len() == 3,
            op.len() == 3,
            p <= 6,
            first_trio(orig, 0) == first_trio(orig, p as int),
        decreases 6 - p,
    {
        let (b, q, g) = perm3_exec(p);
        let bf = role_fit_exec(&ts[b], OtherSkinType::Board, BOARD_SIDE);
        let qf = role_fit_exec(&ts[q], OtherSkinType::Queue, BOARD_SIDE);
        let gf = role_fit_exec(&ts[g], OtherSkinType::Grid, GRID_SIDE);
        assert(perm3(p as int) == (b as int, q as int, g as int));
        match (bf, qf, gf) {
            (Some(bw), Some(qw), Some(gw)) => {
                assert(trio_fit(orig, p as int) == Some((bw, qw, gw)));
                assert(first_trio(orig, p as int) == Some(p as int));
                if !bw && !qw && !gw {
                    return None;
                }
                let board = TypeStage3::OtherSkin { subtype: OtherSkinType::Board };
                let queue = TypeStage3::OtherSkin { subtype: OtherSkinType::Queue };
                let grid = TypeStage3::OtherSkin { subtype: OtherSkinType::Grid };
                if bw || qw {
                    match (op[b], op[q]) {
                        (Some(ob), Some(oq)) => {
                            if ob > oq {
                                ts.set(q, board);
                                ts.set(b, queue);
                                ts.set(g, grid);
                                assert(ts@ =~= orig.update(q as int, board).update(b as int, queue).update(
                                    g as int,
                                    grid,
                                ));
                            } else {
                                ts.set(b, board);
                                ts.set(q, queue);
                                ts.set(g, grid);
                                assert(ts@ =~= orig.update(b as int, board).update(q as int, queue).update(
                                    g as int,
                                    grid,
                                ));
                            }
                            return None;
                        },
                        _ => {
                            return Some((b, q));
                        },
                    }
                } else {
                    ts.set(g, grid);
                    return None;
                }
            },
            _ => {
                assert(trio_fit(orig, p as int) is None);
            },
        }
        p = p + 1;
    }
    None
}

fn minos_fit_exec(t: &TypeStage3) -> (r: Option<(bool, u32, u32, bool)>)
    ensures
        r == minos_fit(*t),
{
    match t {
        TypeStage3::WeakTexture { first_guess, .. } => Some(
            (true, first_guess.width, first_guess.height, false),
        ),
        TypeStage3::Skin { subtype: SkinType::Tetrio61Connected } => Some((false, 1024, 1024, true)),
        TypeStage3::Skin { subtype: SkinType::Tetrio61 } => Some((false, 256, 256, false)),
        _ => None,
    }
}

fn ghost_fit_exec(t: &TypeStage3) -> (r: Option<(bool, u32, u32, bool)>)
    ensures
        r == ghost_fit(*t),
{
    match t {
        TypeStage3::WeakTexture { first_guess, .. } => Some(
            (true, first_guess.width, first_guess.height, false),
        ),
        TypeStage3::Skin { subtype: SkinType::Tetrio61ConnectedGhost } => Some(
            (false, 512, 512, true),
        ),
        TypeStage3::Skin { subtype: SkinType::Tetrio61Ghost } => Some((false, 128, 128, false)),
        _ => None,
    }
}

/// Applies the minos and ghost heuristic to the types of one directory.
fn duo_exec(ts: &mut Vec<TypeStage3>)
    ensures
        final(ts)@ == duo_from(old(ts)@, 0),
        final(ts).len() == old(ts).len(),
{
    if ts.len() != 2 {
        return ;
    }
    let ghost orig = ts@;
    let mut k: usize = 0;
    while k < 2
        invariant
            ts@ == orig,
            old(ts)@ == orig,
            orig.len() == 2,
            k <= 2,
            duo_from(orig, 0) == duo_from(orig, k as int),
        decreases 2 - k,
    {
        let m: usize = if k == 0 {
            0
        } else {
            1
        };
        let g: usize = 1 - m;
        let mfit = minos_fit_exec(&ts[m]);
        let gfit = ghost_fit_exec(&ts[g]);
        assert(minos_fit(orig[m as int]) == mfit);
        assert(ghost_fit(orig[g as int]) == gfit);
        match (mfit, gfit) {
            (Some(mf), Some(gf)) => {
                if mf.1 != mf.2 {
                    assert(duo_from(orig, k as int) == orig);
                    return ;
                }
                if (mf.1 as u64) == 2 * (gf.1 as u64) && (mf.2 as u64) == 2 * (gf.2 as u64) {
                    assert(duo_from(orig, k as int) == duo_apply(orig, m as int, g as int, mf, gf));
                    if !mf.0 && !gf.0 {
                    } else if mf.0 && gf.0 {
                        if mf.1 < 1024 {
                            ts.set(m, TypeStage3::Skin { subtype: SkinType::Tetrio61 });
                            ts.set(g, TypeStage3::Skin { subtype: SkinType::Tetrio61Ghost });
                        } else {
                            ts.set(m, TypeStage3::Skin { subtype: SkinType::Tetrio61Connected });
                            ts.set(g, TypeStage3::Skin { subtype: SkinType::Tetrio61ConnectedGhost });
                        }
                    } else if mf.0 {
                        let subtype = if gf.3 {
                            SkinType::Tetrio61Connected
                        } else {
                            SkinType::Tetrio61
                        };
                        ts.set(m, TypeStage3::Skin { subtype });
                    } else {
                        let subtype = if mf.3 {
                            SkinType::Tetrio61ConnectedGhost
                        } else {
                            SkinType::Tetrio61Ghost
                        };
                        ts.set(g, TypeStage3::Skin { subtype });
                    }
                    assert(ts@ =~= duo_apply(orig, m as int, g as int, mf, gf));
                    return ;
                }
            },
            _ => {},
        }
        k = k + 1;
    }
}

/// Applies all the heuristics to the types of one directory, or names the two files
/// (by position in the directory) whose opacities must be measured first.
fn decide_directory(ts: Vec<TypeStage3>, op: &Vec<Option<u32>>) -> (r: Result<
    Vec<TypeStage3>,
    (usize, usize),
>)
    requires
        op.len() == ts.len(),
    ensures
        match dir_step(ts@, op@) {
            DirStep::Types(t) => r matches Ok(v) && v@ == t,
            DirStep::Measure(b, q) => r == Err::<Vec<TypeStage3>, (usize, usize)>((b as usize, q as usize)),
        },
        r matches Err((b, q)) ==> b < ts.len() && q < ts.len(),
        r matches Ok(v) ==> v.len() == ts.len(),
{
    let mut ts = ts;
    audio_step_exec(&mut ts);
    match trio_exec(&mut ts, op) {
        Some(pair) => Err(pair),
        None => {
            duo_exec(&mut ts);
            Ok(ts)
        },
    }
}

/// The parent directory of each of `paths`.
pub open spec fn parents_of(paths: Seq<Seq<char>>) -> Seq<Option<Seq<char>>> {
    paths.map_values(|p: Seq<char>| path_parent(p))
}

/// The paths of a list of files.
pub open spec fn paths_of<T>(fs: Seq<ImportFile<T>>) -> Seq<Seq<char>> {
    fs.map_values(|f: ImportFile<T>| f.path@)
}

/// The import types of a list of files.
pub open spec fn types_of<T>(fs: Seq<ImportFile<T>>) -> Seq<T> {
    fs.map_values(|f: ImportFile<T>| f.import_type)
}

/// The positions among the first `n` of `pars` that hold `d`, in increasing order:
/// the files of one directory.
pub open spec fn members(pars: Seq<Option<Seq<char>>>, d: Option<Seq<char>>, n: int) -> Seq<int>
    decreases n,
{
    if n <= 0 {
        seq![]
    } else if pars[n - 1] == d {
        members(pars, d, n - 1).push(n - 1)
    } else {
        members(pars, d, n - 1)
    }
}

/// The measured opacity of file `j`, where one was measured.
pub open spec fn opacity_at(op: Seq<Option<u32>>, j: int) -> Option<u32> {
    if 0 <= j < op.len() {
        op[j]
    } else {
        None
    }
}

/// The outcome of the heuristics for the directory `d`, whose files are those whose
/// parent is `d`.
pub open spec fn dir_outcome(
    pars: Seq<Option<Seq<char>>>,
    ts: Seq<TypeStage3>,
    op: Seq<Option<u32>>,
    d: Option<Seq<char>>,
) -> DirStep {
    let mem = members(pars, d, pars.len() as int);
    dir_step(mem.map_values(|j: int| ts[j]), mem.map_values(|j: int| opacity_at(op, j)))
}

/// Whether the heuristics settle the directory `d` without a measurement, and `v`
/// holds the types they give its files.
pub open spec fn dir_settled(
    pars: Seq<Option<Seq<char>>>,
    ts: Seq<TypeStage3>,
    op: Seq<Option<u32>>,
    d: Option<Seq<char>>,
    v: Seq<TypeStage3>,
) -> bool {
    let mem = members(pars, d, pars.len() as int);
    match dir_outcome(pars, ts, op, d) {
        DirStep::Types(t) => forall|k: int| 0 <= k < mem.len() ==> v[mem[k]] == t[k],
        DirStep::Measure(_, _) => false,
    }
}

proof fn lemma_members(pars: Seq<Option<Seq<char>>>, d: Option<Seq<char>>, n: int)
    requires
        0 <= n <= pars.len(),
    ensures
        forall|k: int|
            0 <= k < members(pars, d, n).len() ==> 0 <= #[trigger] members(pars, d, n)[k] < n
                && pars[members(pars, d, n)[k]] == d,
        forall|k1: int, k2: int|
            0 <= k1 < k2 < members(pars, d, n).len() ==> members(pars, d, n)[k1] < members(
                pars,
                d,
                n,
            )[k2],
        forall|j: int| 0 <= j < n && pars[j] == d ==> members(pars, d, n).contains(j),
    decreases n,
{
    if n > 0 {
        lemma_members(pars, d, n - 1);
        if pars[n - 1] == d {
            let m = members(pars, d, n - 1);
            assert(members(pars, d, n) == m.push(n - 1));
            assert forall|j: int| 0 <= j < n && pars[j] == d implies members(pars, d, n).contains(
                j,
            ) by {
                if j < n - 1 {
                    let k = choose|k: int| 0 <= k < m.len() && m[k] == j;
                    assert(m.push(n - 1)[k] == j);
                } else {
                    assert(m.push(n - 1)[m.len() as int] == j);
                }
            }
        }
    }
}

/// The first file of directory `d` comes no later than any of its files.
proof fn lemma_first_member(pars: Seq<Option<Seq<char>>>, j: int)
    requires
        0 <= j < pars.len(),
    ensures
        members(pars, pars[j], pars.len() as int).len() > 0,
        members(pars, pars[j], pars.len() as int)[0] <= j,
{
    lemma_members(pars, pars[j], pars.len() as int);
    let m = members(pars, pars[j], pars.len() as int);
    assert(m.contains(j));
    let k = choose|k: int| 0 <= k < m.len() && m[k] == j;
    if k > 0 {
        assert(m[0] < m[k]);
    }
}

fn opt_str_equals(a: &Option<String>, b: &Option<String>) -> (r: bool)
    ensures
        r == (opt_view(*a) == opt_view(*b)),
{
    match (a, b) {
        (Some(x), Some(y)) => str_equals(x.as_str(), y.as_str()),
        (None, None) => true,
        _ => false,
    }
}

/// The positions of the files in the same directory as file `i`.
fn dir_members(pars: &Vec<Option<String>>, i: usize) -> (r: Vec<usize>)
    requires
        i < pars.len(),
    ensures
        r.len() == members(pars@.map_values(|p: Option<String>| opt_view(p)), opt_view(pars@[i as int]), pars.len() as int).len(),
        forall|k: int|
            0 <= k < r.len() ==> r@[k] as int == members(
                pars@.map_values(|p: Option<String>| opt_view(p)),
                opt_view(pars@[i as int]),
                pars.len() as int,
            )[k],
{
    let ghost pv = pars@.map_values(|p: Option<String>| opt_view(p));
    let ghost d = opt_view(pars@[i as int]);
    let mut r: Vec<usize> = Vec::new();
    let mut j: usize = 0;
    while j < pars.len()
        invariant
            i < pars.len(),
            pv == pars@.map_values(|p: Option<String>| opt_view(p)),
            d == opt_view(pars@[i as int]),
            j <= pars.len(),
            r.len() == members(pv, d, j as int).len(),
            forall|k: int| 0 <= k < r.len() ==> r@[k] as int == members(pv, d, j as int)[k],
        decreases pars.len() - j,
    {
        if opt_str_equals(&pars[j], &pars[i]) {
            r.push(j);
        }
        j = j + 1;
    }
    r
}

/// The parent directory of each file.
pub open spec fn file_parents<T>(fs: Seq<ImportFile<T>>) -> Seq<Option<Seq<char>>> {
    parents_of(paths_of(fs))
}

/// Applies the heuristics to each directory of `files`, where a directory is the set of
/// files with one parent. Gives the new type of each file, or, where a directory needs
/// the opacities of two of its files before it can be settled, the positions of those
/// two files. `opacity` holds the opacities measured so far, by position, as keys that
/// order as the opacities do.
pub fn disambiguate(files: &Vec<ImportFile<TypeStage3>>, opacity: &Vec<Option<u32>>) -> (r: Result<
    Vec<TypeStage3>,
    (usize, usize),
>)
    ensures
        r is Ok <==> forall|i: int|
            0 <= i < files.len() ==> dir_outcome(
                file_parents(files@),
                types_of(files@),
                opacity@,
                file_parents(files@)[i],
            ) is Types,
        r matches Ok(v) ==> v.len() == files.len() && forall|i: int|
            0 <= i < files.len() ==> dir_settled(
                file_parents(files@),
                types_of(files@),
                opacity@,
                file_parents(files@)[i],
                v@,
            ),
        r matches Err((a, b)) ==> exists|i: int, x: int, y: int|
            0 <= i < files.len() && dir_outcome(
                file_parents(files@),
                types_of(files@),
                opacity@,
                file_parents(files@)[i],
            ) == DirStep::Measure(x, y) && a == members(
                file_parents(files@),
                file_parents(files@)[i],
                files.len() as int,
            )[x] && b == members(file_parents(files@), file_parents(files@)[i], files.len() as int)[y],
{
    let n = files.len();
    let ghost pv = file_parents(files@);
    let ghost ts = types_of(files@);
    let ghost op = opacity@;
    let mut pars: Vec<Option<String>> = Vec::new();
    let mut out: Vec<TypeStage3> = Vec::new();
    let mut i: usize = 0;
    while i < n
        invariant
            n == files.len(),
            i <= n,
            pars.len() == i,
            out.len() == i,
            ts == types_of(files@),
            forall|k: int| 0 <= k < i ==> opt_view(#[trigger] pars@[k]) == path_parent(files@[k].path@),
            forall|k: int| 0 <= k < i ==> #[trigger] out@[k] == files@[k].import_type,
        decreases n - i,
    {
        pars.push(parent_of(files[i].path.as_str()));
        out.push(files[i].import_type);
        i = i + 1;
    }
    assert(pars@.map_values(|p: Option<String>| opt_view(p)) =~= pv);
    assert forall|j: int| 0 <= j < n && members(pv, pv[j], n as int).len() > 0 implies members(
        pv,
        pv[j],
        n as int,
    )[0] >= 0 by {
        lemma_members(pv, pv[j], n as int);
    }
    i = 0;
    while i < n
        invariant
            n == files.len(),
            i <= n,
            pars.len() == n,
            out.len() == n,
            pv == file_parents(files@),
            ts == types_of(files@),
            op == opacity@,
            pars@.map_values(|p: Option<String>| opt_view(p)) == pv,
            forall|j: int|
                0 <= j < n && members(pv, pv[j], n as int).len() > 0 && members(pv, pv[j], n as int)[0] < i ==> dir_settled(
                    pv,
                    ts,
                    op,
                    #[trigger] pv[j],
                    out@,
                ),
        decreases n - i,
    {
        let mem = dir_members(&pars, i);
        let ghost d = pv[i as int];
        let ghost ms = members(pv, d, n as int);
        proof {
            lemma_first_member(pv, i as int);
            lemma_members(pv, d, n as int);
            assert(ms.contains(i as int));
        }
        if mem[0] == i {
            let mut dts: Vec<TypeStage3> = Vec::new();
            let mut dop: Vec<Option<u32>> = Vec::new();
            let mut k: usize = 0;
            while k < mem.len()
                invariant
                    n == files.len(),
                    mem.len() == ms.len(),
                    forall|k2: int| 0 <= k2 < mem.len() ==> mem@[k2] as int == ms[k2],
                    forall|k2: int| 0 <= k2 < ms.len() ==> 0 <= #[trigger] ms[k2] < n,
                    ts == types_of(files@),
                    op == opacity@,
                    k <= mem.len(),
                    dts.len() == k,
                    dop.len() == k,
                    forall|k2: int| 0 <= k2 < k ==> #[trigger] dts@[k2] == ts[ms[k2]],
                    forall|k2: int| 0 <= k2 < k ==> #[trigger] dop@[k2] == opacity_at(op, ms[k2]),
                decreases mem.len() - k,
            {
                let j = mem[k];
                assert(mem@[k as int] as int == ms[k as int]);
                dts.push(files[j].import_type);
                if j < opacity.len() {
                    dop.push(opacity[j]);
                } else {
                    dop.push(None);
                }
                k = k + 1;
            }
            assert(dts@ =~= ms.map_values(|j: int| ts[j]));
            assert(dop@ =~= ms.map_values(|j: int| opacity_at(op, j)));
            match decide_directory(dts, &dop) {
                Err((b, q)) => {
                    assert(dir_outcome(pv, ts, op, pv[i as int]) == DirStep::Measure(b as int, q as int));
                    return Err((mem[b], mem[q]));
                },
                Ok(v) => {
                    let ghost before = out@;
                    let ghost t = dir_outcome(pv, ts, op, d)->Types_0;
                    let mut k: usize = 0;
                    while k < mem.len()
                        invariant
                            n == files.len(),
                            mem.len() == ms.len(),
                            v.len() == ms.len(),
                            v@ == t,
                            forall|k2: int| 0 <= k2 < mem.len() ==> mem@[k2] as int == ms[k2],
                            forall|k2: int| 0 <= k2 < ms.len() ==> 0 <= #[trigger] ms[k2] < n && pv[ms[k2]] == d,
                            forall|k1: int, k2: int| 0 <= k1 < k2 < ms.len() ==> #[trigger] ms[k1] < #[trigger] ms[k2],
                            out.len() == n,
                            before.len() == n,
                            k <= mem.len(),
                            forall|k2: int| 0 <= k2 < k ==> out@[#[trigger] ms[k2]] == t[k2],
                            forall|x: int| 0 <= x < n && pv[x] != d ==> out@[x] == before[x],
                        decreases mem.len() - k,
                    {
                        assert(mem@[k as int] as int == ms[k as int]);
                        out.set(mem[k], v[k]);
                        k = k + 1;
                    }
                    assert forall|j: int|
                        0 <= j < n && members(pv, pv[j], n as int).len() > 0 && members(pv, pv[j], n as int)[0] < i + 1 implies dir_settled(
                        pv,
                        ts,
                        op,
                        #[trigger] pv[j],
                        out@,
                    ) by {
                        lemma_members(pv, pv[j], n as int);
                        lemma_first_member(pv, j);
                        if pv[j] != d {
                            let mj = members(pv, pv[j], n as int);
                            if mj[0] == i {
                                assert(pv[i as int] == pv[j]);
                            }
                            assert forall|k2: int| 0 <= k2 < mj.len() implies out@[mj[k2]] == before[mj[k2]] by {
                            }
                        }
                    }
                },
            }
        } else {
            assert forall|j: int|
                0 <= j < n && members(pv, pv[j], n as int).len() > 0 && members(pv, pv[j], n as int)[0] < i + 1 implies dir_settled(
                pv,
                ts,
                op,
                #[trigger] pv[j],
                out@,
            ) by {
                lemma_members(pv, pv[j], n as int);
                lemma_first_member(pv, j);
                let mj = members(pv, pv[j], n as int);
                if mj[0] == i {
                    assert(pv[i as int] == pv[j]);
                    assert(ms[0] < i);
                }
            }
        }
        i = i + 1;
    }
    assert forall|j: int| 0 <= j < n implies dir_settled(pv, ts, op, #[trigger] pv[j], out@) by {
        lemma_first_member(pv, j);
    }
    Ok(out)
}

/// The type a file is imported as once a weak texture guess falls back on its first guess.
pub open spec fn resolved(t: TypeStage3) -> TypeStage3 {
    match t {
        TypeStage3::WeakTexture { first_guess, .. } => guess_type(first_guess.kind),
        _ => t,
    }
}

/// The types of files once weak texture guesses fall back on their first guesses.
pub open spec fn resolved_types(ts: Seq<TypeStage3>) -> Seq<TypeStage3> {
    ts.map_values(|t: TypeStage3| resolved(t))
}

/// How many of `rs` are `t`.
pub open spec fn count_type(rs: Seq<TypeStage3>, t: TypeStage3) -> nat
    decreases rs.len(),
{
    if rs.len() == 0 {
        0
    } else {
        count_type(rs.drop_last(), t) + if rs.last() == t {
            1nat
        } else {
            0nat
        }
    }
}

/// Whether the files of block skin format `s` are frames of an animation: the format
/// carries animation options, or two or more files have it.
pub open spec fn animated_skin(rs: Seq<TypeStage3>, s: SkinType) -> bool {
    s.spec_anim_options() is Some || count_type(rs, TypeStage3::Skin { subtype: s }) >= 2
}

/// Whether `s` is the format of animation frames for minos (or, with `ghost`, for ghosts).
pub open spec fn frame_skin(rs: Seq<TypeStage3>, s: SkinType, ghost: bool) -> bool {
    &&& rs.contains(TypeStage3::Skin { subtype: s })
    &&& animated_skin(rs, s)
    &&& if ghost {
        s.spec_has_minos_and_ghost().1
    } else {
        s.spec_has_minos_and_ghost().0
    }
}

/// Whether two different formats compete to be the animation frames for minos (or ghosts).
pub open spec fn ambiguous_frames(rs: Seq<TypeStage3>, ghost: bool) -> bool {
    exists|s1: SkinType, s2: SkinType| s1 != s2 && frame_skin(rs, s1, ghost) && frame_skin(rs, s2, ghost)
}

/// The format of the animation frames for minos (or ghosts), where there is one.
pub open spec fn frame_slot(rs: Seq<TypeStage3>, ghost: bool) -> Option<SkinType> {
    if exists|s: SkinType| frame_skin(rs, s, ghost) {
        Some(choose|s: SkinType| frame_skin(rs, s, ghost))
    } else {
        None
    }
}

/// The type a file of resolved type `t` is imported as on its own, if it is.
pub open spec fn basic_type(rs: Seq<TypeStage3>, t: TypeStage3) -> Option<TypeStage4> {
    match t {
        TypeStage3::TPSE => Some(TypeStage4::TPSE),
        TypeStage3::Skin { subtype } => if animated_skin(rs, subtype) {
            None
        } else {
            Some(TypeStage4::Skin { subtype })
        },
        TypeStage3::OtherSkin { subtype } => Some(TypeStage4::OtherSkin { subtype }),
        TypeStage3::Background { subtype } => Some(TypeStage4::Background { subtype }),
        TypeStage3::Music => Some(TypeStage4::Music),
        TypeStage3::WeakAudio => Some(TypeStage4::Music),
        _ => None,
    }
}

/// The import tasks of the first `n` files that are imported on their own, in order.
pub open spec fn basic_tasks(fs: Seq<ImportFile<TypeStage3>>, rs: Seq<TypeStage3>, n: int) -> Seq<
    TaskView,
>
    decreases n,
{
    if n <= 0 {
        seq![]
    } else {
        let prev = basic_tasks(fs, rs, n - 1);
        match basic_type(rs, rs[n - 1]) {
            Some(t) => prev.push(TaskView::Basic(t, fs[n - 1].path@, fs[n - 1].binary@)),
            None => prev,
        }
    }
}

/// The name of a sound effect file: its file stem, or its whole path where it has none.
pub open spec fn sound_name(path: Seq<char>) -> Seq<char> {
    match path_file_stem(path) {
        Some(stem) => stem,
        None => path,
    }
}

/// The sound effects among the first `n` files, in order, as names, paths and contents.
pub open spec fn sound_effects(fs: Seq<ImportFile<TypeStage3>>, rs: Seq<TypeStage3>, n: int) -> Seq<
    (Seq<char>, Seq<char>, Seq<u8>),
>
    decreases n,
{
    if n <= 0 {
        seq![]
    } else {
        let prev = sound_effects(fs, rs, n - 1);
        if rs[n - 1] is SoundEffects {
            prev.push((sound_name(fs[n - 1].path@), fs[n - 1].path@, fs[n - 1].binary@))
        } else {
            prev
        }
    }
}

/// The frames of format `s` among the first `n` files, in order: those that were typed
/// as `s` (or, with `weak`, those whose first guess was `s`).
pub open spec fn frames_where(
    fs: Seq<ImportFile<TypeStage3>>,
    ts: Seq<TypeStage3>,
    s: SkinType,
    weak: bool,
    n: int,
) -> Seq<(Seq<char>, Seq<u8>)>
    decreases n,
{
    if n <= 0 {
        seq![]
    } else {
        let prev = frames_where(fs, ts, s, weak, n - 1);
        if resolved(ts[n - 1]) == (TypeStage3::Skin { subtype: s }) && (ts[n - 1] is WeakTexture)
            == weak {
            prev.push((fs[n - 1].path@, fs[n - 1].binary@))
        } else {
            prev
        }
    }
}

/// The frames of format `s`: those typed as `s`, then those guessed to be `s`.
pub open spec fn frames_of(fs: Seq<ImportFile<TypeStage3>>, ts: Seq<TypeStage3>, s: SkinType) -> Seq<
    (Seq<char>, Seq<u8>),
> {
    frames_where(fs, ts, s, false, fs.len() as int) + frames_where(fs, ts, s, true, fs.len() as int)
}

/// The import tasks that the files `fs`, of types `ts`, are collated into: the files
/// imported on their own in order, then all sound effects together, then the ghost
/// animation where it has another format than the mino animation, then the mino animation.
pub open spec fn collated_tasks(fs: Seq<ImportFile<TypeStage3>>, ts: Seq<TypeStage3>) -> Seq<TaskView> {
    let rs = resolved_types(ts);
    let n = fs.len() as int;
    let sfx = sound_effects(fs, rs, n);
    let m = frame_slot(rs, false);
    let g = frame_slot(rs, true);
    basic_tasks(fs, rs, n) + (if sfx.len() > 0 {
        seq![TaskView::SoundEffects(sfx)]
    } else {
        seq![]
    }) + (match g {
        Some(gs) => if m != g {
            seq![TaskView::AnimatedSkinFrames(gs, frames_of(fs, ts, gs))]
        } else {
            seq![]
        },
        None => seq![],
    }) + (match m {
        Some(ms) => seq![TaskView::AnimatedSkinFrames(ms, frames_of(fs, ts, ms))],
        None => seq![],
    })
}

/// Which animation a set of competing formats was found for.
#[derive(Debug, Clone, Copy, PartialEq, Eq, Structural, Hash)]
pub enum SkinPart {
    Minos,
    Ghosts,
}

/// Why files could not be collated into import tasks.
#[derive(Debug)]
pub enum ReduceError {
    /// Some file's type could not be determined.
    UnknownFileType,
    /// Files of two or more formats qualify as the frames of one animation.
    AmbiguousAnimatedSkinResults { part: SkinPart, types: Vec<SkinType> },
}

proof fn lemma_count_type_step(rs: Seq<TypeStage3>, i: int, t: TypeStage3)
    requires
        0 <= i < rs.len(),
    ensures
        count_type(rs.take(i + 1), t) == count_type(rs.take(i), t) + if rs[i] == t {
            1nat
        } else {
            0nat
        },
{
    assert(rs.take(i + 1).drop_last() =~= rs.take(i));
}

/// Counts the files of type `t`.
fn count_eq(rs: &Vec<TypeStage3>, t: TypeStage3) -> (c: usize)
    ensures
        c == count_type(rs@, t),
{
    let mut c: usize = 0;
    let mut i: usize = 0;
    while i < rs.len()
        invariant
            i <= rs.len(),
            c == count_type(rs@.take(i as int), t),
            c <= i,
        decreases rs.len() - i,
    {
        proof {
            lemma_count_type_step(rs@, i as int, t);
        }
        if rs[i] == t {
            c = c + 1;
        }
        i = i + 1;
    }
    assert(rs@.take(rs.len() as int) =~= rs@);
    c
}

fn resolved_exec(t: TypeStage3) -> (r: TypeStage3)
    ensures
        r == resolved(t),
{
    match t {
        TypeStage3::WeakTexture { first_guess, .. } => match first_guess.kind {
            TextureGuessKind::Skin(s) => TypeStage3::Skin { subtype: s },
            TextureGuessKind::Other(o) => TypeStage3::OtherSkin { subtype: o },
        },
        _ => t,
    }
}

fn sound_name_exec(path: &String) -> (r: String)
    ensures
        r@ == sound_name(path@),
{
    match file_stem_of(path.as_str()) {
        Some(stem) => stem,
        None => path.clone(),
    }
}

/// Whether `s` occurs in `v`.
fn skin_listed(v: &Vec<SkinType>, s: SkinType) -> (r: bool)
    ensures
        r == v@.contains(s),
{
    let mut i: usize = 0;
    while i < v.len()
        invariant
            i <= v.len(),
            forall|k: int| 0 <= k < i ==> v@[k] != s,
        decreases v.len() - i,
    {
        if v[i] == s {
            return true;
        }
        i = i + 1;
    }
    false
}

/// The distinct formats of animation frames for minos (or ghosts), given the resolved
/// types and which files belong to animations.
fn collect_frame_skins(rs: &Vec<TypeStage3>, anim: &Vec<bool>, ghost: bool) -> (r: Vec<SkinType>)
    requires
        anim.len() == rs.len(),
        forall|i: int|
            0 <= i < rs.len() ==> (#[trigger] anim@[i] <==> (rs@[i] matches TypeStage3::Skin { subtype }
                && animated_skin(rs@, subtype))),
    ensures
        forall|k1: int, k2: int| 0 <= k1 < k2 < r.len() ==> r@[k1] != r@[k2],
        forall|s: SkinType| r@.contains(s) <==> frame_skin(rs@, s, ghost),
{
    let mut r: Vec<SkinType> = Vec::new();
    let mut i: usize = 0;
    while i < rs.len()
        invariant
            anim.len() == rs.len(),
            forall|i: int|
                0 <= i < rs.len() ==> (#[trigger] anim@[i] <==> (rs@[i] matches TypeStage3::Skin { subtype }
                    && animated_skin(rs@, subtype))),
            i <= rs.len(),
            forall|k1: int, k2: int| 0 <= k1 < k2 < r.len() ==> r@[k1] != r@[k2],
            forall|s: SkinType|
                r@.contains(s) <==> (exists|j: int|
                    0 <= j < i && rs@[j] == TypeStage3::Skin { subtype: s } && frame_skin(
                        rs@,
                        s,
                        ghost,
                    )),
        decreases rs.len() - i,
    {
        let ghost old_r = r@;
        let mut pushed = false;
        match rs[i] {
            TypeStage3::Skin { subtype } => {
                let (has_minos, has_ghost) = subtype.has_minos_and_ghost();
                let wanted = if ghost {
                    has_ghost
                } else {
                    has_minos
                };
                if anim[i] && wanted && !skin_listed(&r, subtype) {
                    r.push(subtype);
                    pushed = true;
                }
                proof {
                    assert(rs@[i as int] == (TypeStage3::Skin { subtype }));
                    assert(rs@.contains(TypeStage3::Skin { subtype }));
                    assert(frame_skin(rs@, subtype, ghost) == (anim@[i as int] && wanted));
                }
            },
            _ => {},
        }
        proof {
            assert forall|s: SkinType|
                r@.contains(s) <==> (old_r.contains(s) || (pushed && rs@[i as int] == TypeStage3::Skin { subtype: s })) by {
                if pushed {
                    assert(r@ == old_r.push(r@[r.len() - 1]));
                    if rs@[i as int] == (TypeStage3::Skin { subtype: s }) {
                        assert(r@[r.len() - 1] == s);
                    }
                    if old_r.contains(s) {
                        let k = choose|k: int| 0 <= k < old_r.len() && old_r[k] == s;
                        assert(r@[k] == s);
                    }
                    if r@.contains(s) {
                        let k = choose|k: int| 0 <= k < r.len() && r@[k] == s;
                        if k < old_r.len() {
                            assert(old_r[k] == s);
                        }
                    }
                }
            }
            assert forall|s: SkinType|
                r@.contains(s) <==> (exists|j: int|
                    0 <= j < i + 1 && rs@[j] == TypeStage3::Skin { subtype: s } && frame_skin(
                        rs@,
                        s,
                        ghost,
                    )) by {
                if rs@[i as int] == (TypeStage3::Skin { subtype: s }) && frame_skin(rs@, s, ghost) {
                    if !old_r.contains(s) {
                        assert(pushed);
                    }
                }
                if old_r.contains(s) {
                    let j = choose|j: int|
                        0 <= j < i && rs@[j] == TypeStage3::Skin { subtype: s } && frame_skin(
                            rs@,
                            s,
                            ghost,
                        );
                    assert(0 <= j < i + 1);
                }
            }
        }
        i = i + 1;
    }
    assert forall|s: SkinType| frame_skin(rs@, s, ghost) implies r@.contains(s) by {
        let j = choose|j: int| 0 <= j < rs.len() && rs@[j] == TypeStage3::Skin { subtype: s };
    }
    r
}

/// The frames of a list, as paths and contents.
pub open spec fn frames_view(v: Seq<AnimatedSkinFrame>) -> Seq<(Seq<char>, Seq<u8>)> {
    v.map_values(|f: AnimatedSkinFrame| crate::inter_stage::frame_view(f))
}

/// The sound effects of a list, as names, paths and contents.
pub open spec fn sound_effects_view(v: Seq<SoundEffect>) -> Seq<(Seq<char>, Seq<char>, Seq<u8>)> {
    v.map_values(|e: SoundEffect| crate::inter_stage::sound_effect_view(e))
}

/// Whether some file's type could not be determined.
pub open spec fn has_unknown(ts: Seq<TypeStage3>) -> bool {
    exists|i: int| 0 <= i < ts.len() && ts[i] is Unknown
}

/// Whether `r` reports that two or more formats compete to be the frames of one
/// animation (`part` says which), and names exactly those formats, each once.
pub open spec fn ambiguity_reported(
    r: Result<Vec<ImportTask>, ReduceError>,
    rs: Seq<TypeStage3>,
    part: SkinPart,
) -> bool {
    match r {
        Err(ReduceError::AmbiguousAnimatedSkinResults { part: p, types }) => {
            &&& p == part
            &&& forall|s: SkinType| types@.contains(s) <==> frame_skin(rs, s, part == SkinPart::Ghosts)
            &&& forall|k1: int, k2: int| 0 <= k1 < k2 < types.len() ==> types@[k1] != types@[k2]
        },
        _ => false,
    }
}

/// What collating the files `fs`, of types `ts`, gives: an error where some type is
/// unknown, else where two formats compete for the mino animation, else where two
/// compete for the ghost animation; otherwise the collated tasks.
pub open spec fn collation_result(
    fs: Seq<ImportFile<TypeStage3>>,
    ts: Seq<TypeStage3>,
    r: Result<Vec<ImportTask>, ReduceError>,
) -> bool {
    let rs = resolved_types(ts);
    if has_unknown(ts) {
        r matches Err(ReduceError::UnknownFileType)
    } else if ambiguous_frames(rs, false) {
        ambiguity_reported(r, rs, SkinPart::Minos)
    } else if ambiguous_frames(rs, true) {
        ambiguity_reported(r, rs, SkinPart::Ghosts)
    } else {
        r matches Ok(tasks) && tasks_view(tasks@) == collated_tasks(fs, ts)
    }
}

fn basic_type_exec(t: TypeStage3, animated: bool) -> (r: Option<TypeStage4>)
    ensures
        forall|rs: Seq<TypeStage3>|
            (t matches TypeStage3::Skin { subtype } ==> animated == animated_skin(rs, subtype)) ==> r
                == basic_type(rs, t),
{
    match t {
        TypeStage3::TPSE => Some(TypeStage4::TPSE),
        TypeStage3::Skin { subtype } => if animated {
            None
        } else {
            Some(TypeStage4::Skin { subtype })
        },
        TypeStage3::OtherSkin { subtype } => Some(TypeStage4::OtherSkin { subtype }),
        TypeStage3::Background { subtype } => Some(TypeStage4::Background { subtype }),
        TypeStage3::Music => Some(TypeStage4::Music),
        TypeStage3::WeakAudio => Some(TypeStage4::Music),
        _ => None,
    }
}

proof fn lemma_slot(rs: Seq<TypeStage3>, v: Seq<SkinType>, ghost: bool)
    requires
        forall|k1: int, k2: int| 0 <= k1 < k2 < v.len() ==> v[k1] != v[k2],
        forall|s: SkinType| v.contains(s) <==> frame_skin(rs, s, ghost),
    ensures
        ambiguous_frames(rs, ghost) <==> v.len() >= 2,
        v.len() == 0 ==> frame_slot(rs, ghost) is None,
        v.len() == 1 ==> frame_slot(rs, ghost) == Some(v[0]),
{
    if v.len() >= 2 {
        assert(v.contains(v[0]));
        assert(v.contains(v[1]));
        assert(frame_skin(rs, v[0], ghost) && frame_skin(rs, v[1], ghost));
    } else {
        if ambiguous_frames(rs, ghost) {
            let (s1, s2) = choose|s1: SkinType, s2: SkinType|
                s1 != s2 && frame_skin(rs, s1, ghost) && frame_skin(rs, s2, ghost);
            assert(v.contains(s1) && v.contains(s2));
        }
    }
    if v.len() == 0 {
        if exists|s: SkinType| frame_skin(rs, s, ghost) {
            let s = choose|s: SkinType| frame_skin(rs, s, ghost);
            assert(v.contains(s));
        }
    }
    if v.len() == 1 {
        assert(v.contains(v[0]));
        let s = choose|s: SkinType| frame_skin(rs, s, ghost);
        assert(v.contains(s));
    }
}

/// Collates files into import tasks; `ts` holds the type of each file as the
/// heuristics left it. Weak texture guesses fall back on their first guess. Files of
/// a block skin format that carries animation options, or that two or more files
/// share, are frames of an animation; the others are imported on their own, as are
/// all files but sound effects and ignored files. Audio files of unknown purpose are
/// imported as music.
pub fn collate_tasks(files: Vec<ImportFile<TypeStage3>>, ts: &Vec<TypeStage3>) -> (r: Result<
    Vec<ImportTask>,
    ReduceError,
>)
    requires
        ts.len() == files.len(),
    ensures
        collation_result(files@, ts@, r),
{
    let n = files.len();
    let mut i: usize = 0;
    while i < n
        invariant
            n == ts.len(),
            i <= n,
            forall|k: int| 0 <= k < i ==> !(ts@[k] is Unknown),
        decreases n - i,
    {
        if matches!(ts[i], TypeStage3::Unknown) {
            assert(has_unknown(ts@));
            return Err(ReduceError::UnknownFileType);
        }
        i = i + 1;
    }
    let mut rs: Vec<TypeStage3> = Vec::new();
    i = 0;
    while i < n
        invariant
            n == ts.len(),
            i <= n,
            rs.len() == i,
            forall|k: int| 0 <= k < i ==> rs@[k] == resolved(ts@[k]),
        decreases n - i,
    {
        rs.push(resolved_exec(ts[i]));
        i = i + 1;
    }
    assert(rs@ =~= resolved_types(ts@));
    let mut anim: Vec<bool> = Vec::new();
    i = 0;
    while i < n
        invariant
            n == ts.len(),
            rs.len() == n,
            i <= n,
            anim.len() == i,
            forall|k: int|
                0 <= k < i ==> (#[trigger] anim@[k] <==> (rs@[k] matches TypeStage3::Skin { subtype }
                    && animated_skin(rs@, subtype))),
        decreases n - i,
    {
        match rs[i] {
            TypeStage3::Skin { subtype } => {
                let a = subtype.get_anim_options().is_some() || count_eq(&rs, rs[i]) >= 2;
                anim.push(a);
            },
            _ => {
                anim.push(false);
            },
        }
        i = i + 1;
    }
    let minos = collect_frame_skins(&rs, &anim, false);
    let ghosts = collect_frame_skins(&rs, &anim, true);
    proof {
        lemma_slot(rs@, minos@, false);
        lemma_slot(rs@, ghosts@, true);
    }
    if minos.len() >= 2 {
        return Err(ReduceError::AmbiguousAnimatedSkinResults { part: SkinPart::Minos, types: minos });
    }
    if ghosts.len() >= 2 {
        return Err(ReduceError::AmbiguousAnimatedSkinResults { part: SkinPart::Ghosts, types: ghosts });
    }
    let mslot: Option<SkinType> = if minos.len() == 1 {
        Some(minos[0])
    } else {
        None
    };
    let gslot: Option<SkinType> = if ghosts.len() == 1 {
        Some(ghosts[0])
    } else {
        None
    };
    let emit_ghost = match (gslot, mslot) {
        (Some(g), Some(m)) => g != m,
        (Some(_), None) => true,
        _ => false,
    };
    let ghost m_spec = frame_slot(rs@, false);
    let ghost g_spec = frame_slot(rs@, true);
    assert(mslot == m_spec);
    assert(gslot == g_spec);
    let ghost orig = files@;
    let mut files = files;
    let mut basic: Vec<ImportTask> = Vec::new();
    let mut sfx: Vec<SoundEffect> = Vec::new();
    let mut mino_strong: Vec<AnimatedSkinFrame> = Vec::new();
    let mut mino_weak: Vec<AnimatedSkinFrame> = Vec::new();
    let mut ghost_strong: Vec<AnimatedSkinFrame> = Vec::new();
    let mut ghost_weak: Vec<AnimatedSkinFrame> = Vec::new();
    i = 0;
    while i < n
        invariant
            n == ts.len(),
            n == orig.len(),
            rs.len() == n,
            anim.len() == n,
            rs@ == resolved_types(ts@),
            forall|k: int|
                0 <= k < n ==> (#[trigger] anim@[k] <==> (rs@[k] matches TypeStage3::Skin { subtype }
                    && animated_skin(rs@, subtype))),
            i <= n,
            files@ == orig.subrange(i as int, n as int),
            tasks_view(basic@) == basic_tasks(orig, rs@, i as int),
            sound_effects_view(sfx@) == sound_effects(orig, rs@, i as int),
            mslot matches Some(m) ==> frames_view(mino_strong@) == frames_where(
                orig,
                ts@,
                m,
                false,
                i as int,
            ) && frames_view(mino_weak@) == frames_where(orig, ts@, m, true, i as int),
            emit_ghost ==> (gslot matches Some(g) && frames_view(ghost_strong@) == frames_where(
                orig,
                ts@,
                g,
                false,
                i as int,
            ) && frames_view(ghost_weak@) == frames_where(orig, ts@, g, true, i as int)),
            emit_ghost <==> (gslot is Some && gslot != mslot),
            mslot matches Some(m) ==> animated_skin(rs@, m),
            gslot matches Some(g) ==> animated_skin(rs@, g),
        decreases n - i,
    {
        assert(orig.subrange(i as int, n as int)[0] == orig[i as int]);
        let f = files.remove(0);
        assert(files@ =~= orig.subrange(i as int + 1, n as int));
        let ImportFile { path, binary, import_type: _ } = f;
        let t = rs[i];
        let ghost fi = orig[i as int];
        match basic_type_exec(t, anim[i]) {
            Some(t4) => {
                let ghost before = basic@;
                basic.push(ImportTask::Basic { import_type: t4, path, binary });
                assert(tasks_view(basic@) =~= tasks_view(before).push(
                    TaskView::Basic(t4, fi.path@, fi.binary@),
                ));
            },
            None => {
                if matches!(t, TypeStage3::SoundEffects) {
                    let name = sound_name_exec(&path);
                    let ghost before = sfx@;
                    sfx.push(SoundEffect { name, path, binary });
                    assert(sound_effects_view(sfx@) =~= sound_effects_view(before).push(
                        (sound_name(fi.path@), fi.path@, fi.binary@),
                    ));
                } else {
                    match t {
                        TypeStage3::Skin { subtype } => {
                            let weak = matches!(ts[i], TypeStage3::WeakTexture { .. });
                            let frame = AnimatedSkinFrame { path, binary };
                            if mslot == Some(subtype) {
                                if weak {
                                    let ghost before = mino_weak@;
                                    mino_weak.push(frame);
                                    assert(frames_view(mino_weak@) =~= frames_view(before).push(
                                        (fi.path@, fi.binary@),
                                    ));
                                } else {
                                    let ghost before = mino_strong@;
                                    mino_strong.push(frame);
                                    assert(frames_view(mino_strong@) =~= frames_view(before).push(
                                        (fi.path@, fi.binary@),
                                    ));
                                }
                            } else if emit_ghost && gslot == Some(subtype) {
                                if weak {
                                    let ghost before = ghost_weak@;
                                    ghost_weak.push(frame);
                                    assert(frames_view(ghost_weak@) =~= frames_view(before).push(
                                        (fi.path@, fi.binary@),
                                    ));
                                } else {
                                    let ghost before = ghost_strong@;
                                    ghost_strong.push(frame);
                                    assert(frames_view(ghost_strong@) =~= frames_view(before).push(
                                        (fi.path@, fi.binary@),
                                    ));
                                }
                            }
                        },
                        _ => {},
                    }
                }
            },
        }
        i = i + 1;
    }
    let mut tasks = basic;
    let ghost sfx_seq = sfx@;
    let ghost sfx_tail: Seq<TaskView> = if sfx.len() > 0 {
        seq![TaskView::SoundEffects(sound_effects(orig, rs@, n as int))]
    } else {
        seq![]
    };
    let ghost before_sfx = tasks_view(tasks@);
    if sfx.len() > 0 {
        let task = ImportTask::SoundEffects(sfx);
        let ghost tv = task_view(task);
        assert(tv == TaskView::SoundEffects(sound_effects(orig, rs@, n as int))) by {
            assert(sfx_seq.map_values(|e: SoundEffect| crate::inter_stage::sound_effect_view(e))
                =~= sound_effects_view(sfx_seq));
        }
        let ghost prev = tasks@;
        tasks.push(task);
        assert(tasks_view(tasks@) =~= tasks_view(prev).push(tv));
    }
    assert(tasks_view(tasks@) =~= before_sfx + sfx_tail);
    let ghost before_ghost = tasks_view(tasks@);
    let ghost ghost_tail: Seq<TaskView> = match g_spec {
        Some(gs) => if m_spec != g_spec {
            seq![TaskView::AnimatedSkinFrames(gs, frames_of(orig, ts@, gs))]
        } else {
            seq![]
        },
        None => seq![],
    };
    if emit_ghost {
        match gslot {
            Some(g) => {
                let mut frames = ghost_strong;
                let mut rest = ghost_weak;
                frames.append(&mut rest);
                let ghost fseq = frames@;
                assert(frames_view(fseq) =~= frames_of(orig, ts@, g));
                let task = ImportTask::AnimatedSkinFrames(g, frames);
                let ghost tv = task_view(task);
                assert(tv == TaskView::AnimatedSkinFrames(g, frames_of(orig, ts@, g))) by {
                    assert(fseq.map_values(|f: AnimatedSkinFrame| crate::inter_stage::frame_view(f))
                        =~= frames_view(fseq));
                }
                let ghost prev = tasks@;
                tasks.push(task);
                assert(tasks_view(tasks@) =~= tasks_view(prev).push(tv));
            },
            None => {},
        }
    }
    assert(tasks_view(tasks@) =~= before_ghost + ghost_tail);
    let ghost before_mino = tasks_view(tasks@);
    let ghost mino_tail: Seq<TaskView> = match m_spec {
        Some(ms) => seq![TaskView::AnimatedSkinFrames(ms, frames_of(orig, ts@, ms))],
        None => seq![],
    };
    match mslot {
        Some(m) => {
            let mut frames = mino_strong;
            let mut rest = mino_weak;
            frames.append(&mut rest);
            let ghost fseq = frames@;
            assert(frames_view(fseq) =~= frames_of(orig, ts@, m));
            let task = ImportTask::AnimatedSkinFrames(m, frames);
            let ghost tv = task_view(task);
            assert(tv == TaskView::AnimatedSkinFrames(m, frames_of(orig, ts@, m))) by {
                assert(fseq.map_values(|f: AnimatedSkinFrame| crate::inter_stage::frame_view(f))
                    =~= frames_view(fseq));
            }
            let ghost prev = tasks@;
            tasks.push(task);
            assert(tasks_view(tasks@) =~= tasks_view(prev).push(tv));
        },
        None => {},
    }
    assert(tasks_view(tasks@) =~= before_mino + mino_tail);
    assert(tasks_view(tasks@) =~= collated_tasks(orig, ts@));
    Ok(tasks)
}

/// Whether `v` holds the type that the heuristics give each of `fs`, with no
/// measurement left to make.
pub open spec fn all_settled(fs: Seq<ImportFile<TypeStage3>>, op: Seq<Option<u32>>, v: Seq<TypeStage3>) -> bool {
    &&& v.len() == fs.len()
    &&& forall|i: int|
        0 <= i < fs.len() ==> dir_settled(file_parents(fs), types_of(fs), op, file_parents(fs)[i], v)
}

/// Whether some directory of `fs` needs two opacities measured before it can be settled.
pub open spec fn needs_measurement(fs: Seq<ImportFile<TypeStage3>>, op: Seq<Option<u32>>) -> bool {
    exists|i: int|
        0 <= i < fs.len() && dir_outcome(file_parents(fs), types_of(fs), op, file_parents(fs)[i]) is Measure
}

/// The heuristics settle each file's type in one way only.
pub proof fn lemma_settled_unique(
    fs: Seq<ImportFile<TypeStage3>>,
    op: Seq<Option<u32>>,
    v1: Seq<TypeStage3>,
    v2: Seq<TypeStage3>,
)
    requires
        all_settled(fs, op, v1),
        all_settled(fs, op, v2),
    ensures
        v1 == v2,
{
    let pv = file_parents(fs);
    assert forall|j: int| 0 <= j < fs.len() implies v1[j] == v2[j] by {
        assert(pv.len() == fs.len());
        lemma_members(pv, pv[j], pv.len() as int);
        let mem = members(pv, pv[j], pv.len() as int);
        assert(mem.contains(j));
        let k = choose|k: int| 0 <= k < mem.len() && mem[k] == j;
        assert(dir_settled(pv, types_of(fs), op, pv[j], v1));
        assert(dir_settled(pv, types_of(fs), op, pv[j], v2));
        match dir_outcome(pv, types_of(fs), op, pv[j]) {
            DirStep::Types(t) => {
                assert(v1[mem[k]] == t[k]);
                assert(v2[mem[k]] == t[k]);
            },
            DirStep::Measure(_, _) => {},
        }
    }
    assert(v1 =~= v2);
}

/// What one round of type reduction gives: the files back with the positions of a
/// board and a queue whose opacities are needed, or the outcome of collation.
pub enum ReduceStep {
    NeedsOpacity { files: Vec<ImportFile<TypeStage3>>, board: usize, queue: usize },
    Done(Result<Vec<ImportTask>, ReduceError>),
}

/// Collates files into import tasks, settling weak guesses by looking at the other
/// files of the same directory first. `opacity` holds the opacities measured so far,
/// by position, as keys that order as the opacities do; where a directory needs
/// another, the files come back with the two positions to measure, and the caller
/// measures them and calls again.
pub fn reduce_types(files: Vec<ImportFile<TypeStage3>>, opacity: &Vec<Option<u32>>) -> (r: ReduceStep)
    ensures
        needs_measurement(files@, opacity@) <==> r is NeedsOpacity,
        r matches ReduceStep::NeedsOpacity { files: back, board, queue } ==> back@ == files@
            && exists|i: int, x: int, y: int|
            0 <= i < files.len() && dir_outcome(
                file_parents(files@),
                types_of(files@),
                opacity@,
                file_parents(files@)[i],
            ) == DirStep::Measure(x, y) && board == members(
                file_parents(files@),
                file_parents(files@)[i],
                files.len() as int,
            )[x] && queue == members(file_parents(files@), file_parents(files@)[i], files.len() as int)[y],
        r matches ReduceStep::Done(res) ==> exists|v: Seq<TypeStage3>|
            all_settled(files@, opacity@, v) && collation_result(files@, v, res),
{
    match disambiguate(&files, opacity) {
        Err((board, queue)) => ReduceStep::NeedsOpacity { files, board, queue },
        Ok(ts) => {
            let ghost v = ts@;
            let ghost fs = files@;
            let res = collate_tasks(files, &ts);
            assert(all_settled(fs, opacity@, v));
            ReduceStep::Done(res)
        },
    }
}

} // verus!
