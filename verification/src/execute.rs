//! The parts of executing import tasks that decide where content goes: the layout of
//! animation frames, the delay of an animation, how the files of a zip archive are
//! grouped by folder, and how files are stored into a TPSE.
use vstd::prelude::*;

use crate::accel::{new_texture_command, overlay_command, WasmAcceleratorState, WasmTextureHandle};
use crate::import_types::{BackgroundType, OtherSkinType};
use crate::text::str_equals;
use crate::tpse::{AnimMeta, Background, File, MiscTPSEValue, Song, SongMetadata, TPSE};

verus! {

/// The side of one frame of an animated skin, in pixels.
pub const FRAME_SIDE: u32 = 1024;

/// How many frames a row of an animation sheet holds.
pub const FRAMES_PER_ROW: usize = 16;

/// The width and height of the sheet that holds `n` animation frames: rows of up to
/// sixteen frames, each frame 1024 pixels square.
pub open spec fn spec_canvas_size(n: nat) -> (int, int) {
    (1024 * (if n < 16 {
        n as int
    } else {
        16
    }), (1024 * ((n + 15) / 16)) as int)
}

/// Computes the size of the sheet that holds `frame_count` animation frames.
pub fn animated_canvas_size(frame_count: usize) -> (r: (u32, u32))
    requires
        frame_count <= 16 * 4194303,
    ensures
        r.0 as int == spec_canvas_size(frame_count as nat).0,
        r.1 as int == spec_canvas_size(frame_count as nat).1,
{
    let columns: u32 = if frame_count < FRAMES_PER_ROW {
        frame_count as u32
    } else {
        16
    };
    let rows: u32 = ((frame_count + 15) / FRAMES_PER_ROW) as u32;
    (FRAME_SIDE * columns, FRAME_SIDE * rows)
}

/// Where frame `i` lies on the animation sheet: its column and row, each 1024 pixels on.
pub fn frame_position(i: usize) -> (r: (i64, i64))
    requires
        i / 16 <= i64::MAX / 1024,
    ensures
        r.0 as int == 1024 * (i % 16),
        r.1 as int == 1024 * (i / 16),
{
    let x = (i % FRAMES_PER_ROW) as i64 * 1024;
    let y = (i / FRAMES_PER_ROW) as i64 * 1024;
    (x, y)
}

/// Every frame of an animation lies wholly on the sheet made for it, and no two frames
/// share a place on the sheet.
pub proof fn lemma_frames_fit_canvas(n: nat, i: nat, j: nat)
    requires
        i < n,
        j < n,
    ensures
        1024 * (i % 16) + 1024 <= spec_canvas_size(n).0,
        1024 * (i / 16) + 1024 <= spec_canvas_size(n).1,
        i != j ==> (i % 16 != j % 16 || i / 16 != j / 16),
{
    assert(i % 16 < 16 && (n < 16 ==> i % 16 == i)) by (nonlinear_arith)
        requires
            i < n,
    ;
    assert(i / 16 < (n + 15) / 16) by (nonlinear_arith)
        requires
            i < n,
    ;
    assert(i == 16 * (i / 16) + i % 16 && j == 16 * (j / 16) + j % 16) by (nonlinear_arith);
}

/// The commands that draw each present frame of `frames` on the sheet `canvas`, at its
/// place, in frame order.
pub open spec fn frame_overlays(canvas: u64, frames: Seq<Option<WasmTextureHandle>>) -> Seq<u8>
    decreases frames.len(),
{
    if frames.len() == 0 {
        seq![]
    } else {
        let i = frames.len() - 1;
        frame_overlays(canvas, frames.drop_last()) + match frames.last() {
            Some(f) => overlay_command(canvas, f.id, (1024 * (i % 16)) as i64, (1024 * (i / 16)) as i64),
            None => seq![],
        }
    }
}

proof fn lemma_no_frames_no_overlays(canvas: u64, frames: Seq<Option<WasmTextureHandle>>)
    requires
        forall|j: int| 0 <= j < frames.len() ==> frames[j] is None,
    ensures
        frame_overlays(canvas, frames) == Seq::<u8>::empty(),
    decreases frames.len(),
{
    if frames.len() > 0 {
        lemma_no_frames_no_overlays(canvas, frames.drop_last());
        assert(frame_overlays(canvas, frames) =~= Seq::<u8>::empty());
    }
}

/// Lays the frames of an animation out on one sheet. `frames[i]` is frame `i` in the
/// target format, or `None` where the source format had nothing to give for it. The
/// sheet, sized for all the frames, is made when the first present frame comes, and
/// each present frame is drawn at its place; with no frame present there is no sheet
/// and nothing is recorded.
pub fn compose_animation(state: &mut WasmAcceleratorState, frames: &Vec<Option<WasmTextureHandle>>) -> (r:
    Option<WasmTextureHandle>)
    requires
        old(state).id_counter < u64::MAX,
        frames.len() <= 16 * 4194303,
    ensures
        final(state).arcs_in_command_buffer == old(state).arcs_in_command_buffer,
        r is None <==> forall|j: int| 0 <= j < frames.len() ==> frames@[j] is None,
        r is None ==> final(state).id_counter == old(state).id_counter
            && final(state).command_buffer@ == old(state).command_buffer@,
        r matches Some(c) ==> {
            let (w, h) = c.dimensions->Some_0;
            &&& c.id == old(state).id_counter
            &&& final(state).id_counter == old(state).id_counter + 1
            &&& c.dimensions is Some
            &&& w as int == spec_canvas_size(frames.len() as nat).0
            &&& h as int == spec_canvas_size(frames.len() as nat).1
            &&& final(state).command_buffer@ == old(state).command_buffer@ + new_texture_command(c.id, w, h)
                + frame_overlays(c.id, frames@)
        },
{
    let (width, height) = animated_canvas_size(frames.len());
    let mut canvas: Option<WasmTextureHandle> = None;
    let mut i: usize = 0;
    while i < frames.len()
        invariant
            i <= frames.len(),
            frames.len() <= 16 * 4194303,
            old(state).id_counter < u64::MAX,
            width as int == spec_canvas_size(frames.len() as nat).0,
            height as int == spec_canvas_size(frames.len() as nat).1,
            state.arcs_in_command_buffer == old(state).arcs_in_command_buffer,
            canvas is None ==> (forall|j: int| 0 <= j < i ==> frames@[j] is None)
                && state.id_counter == old(state).id_counter
                && state.command_buffer@ == old(state).command_buffer@,
            canvas matches Some(c) ==> (exists|j: int| 0 <= j < i && frames@[j] is Some)
                && c.id == old(state).id_counter
                && state.id_counter == old(state).id_counter + 1
                && c.dimensions == Some((width, height))
                && state.command_buffer@ == old(state).command_buffer@ + new_texture_command(c.id, width, height)
                    + frame_overlays(c.id, frames@.take(i as int)),
        decreases frames.len() - i,
    {
        assert(frames@.take(i + 1).drop_last() =~= frames@.take(i as int));
        match &frames[i] {
            Some(frame) => {
                if canvas.is_none() {
                    proof {
                        lemma_no_frames_no_overlays(old(state).id_counter, frames@.take(i as int));
                    }
                    let made = state.new_texture(width, height);
                    assert(state.command_buffer@ =~= old(state).command_buffer@ + new_texture_command(made.id, width, height)
                        + frame_overlays(made.id, frames@.take(i as int)));
                    canvas = Some(made);
                }
                let sheet = canvas.unwrap();
                let (x, y) = frame_position(i);
                state.overlay(&sheet, frame, x, y);
                assert(state.command_buffer@ =~= old(state).command_buffer@ + new_texture_command(sheet.id, width, height)
                    + frame_overlays(sheet.id, frames@.take(i + 1)));
            },
            None => {
                if let Some(c) = canvas {
                    assert(frame_overlays(c.id, frames@.take(i + 1)) =~= frame_overlays(c.id, frames@.take(i as int)));
                }
            },
        }
        i = i + 1;
    }
    assert(frames@.take(frames.len() as int) =~= frames@);
    canvas
}

/// The mime type of the PNG files that an animated skin is stored as.
fn png_mime() -> (r: String)
    ensures
        r@ == "image/png"@,
{
    proof {
        reveal_strlit("image/png");
    }
    String::from_str("image/png")
}

/// Whether `f` is a PNG file with the bytes `bytes`.
pub open spec fn is_png_file(f: Option<File>, bytes: Seq<u8>) -> bool {
    f matches Some(file) && file.binary@ == bytes && file.mime@ == "image/png"@
}

/// Stores an animated skin into a TPSE: the sheet of its frames, how it plays, and its
/// first frame as the still skin, for the minos (`ghost` false) or the ghost. The
/// animation has as many frames as `frame_delays` lists; it plays at `delay` game frames
/// a frame where that is given, else at the shortest of the frame delays.
pub fn store_animation(
    tpse: &mut TPSE,
    ghost: bool,
    sheet_png: Vec<u8>,
    still_png: Vec<u8>,
    delay: Option<u32>,
    frame_delays: &Vec<u32>,
)
    requires
        0 < frame_delays.len() <= u32::MAX,
    ensures
        ({
            let meta = Some(
                AnimMeta {
                    frames: frame_delays.len() as u32,
                    delay: match delay {
                        Some(d) => d,
                        None => min_delay(frame_delays@, frame_delays.len() as int),
                    },
                },
            );
            if ghost {
                &&& is_png_file(final(tpse).ghost_anim, sheet_png@)
                &&& final(tpse).ghost_anim_meta == meta
                &&& is_png_file(final(tpse).ghost_skin, still_png@)
                &&& *final(tpse) == (TPSE {
                    ghost_anim: final(tpse).ghost_anim,
                    ghost_anim_meta: final(tpse).ghost_anim_meta,
                    ghost_skin: final(tpse).ghost_skin,
                    ..*old(tpse)
                })
            } else {
                &&& is_png_file(final(tpse).skin_anim, sheet_png@)
                &&& final(tpse).skin_anim_meta == meta
                &&& is_png_file(final(tpse).skin, still_png@)
                &&& *final(tpse) == (TPSE {
                    skin_anim: final(tpse).skin_anim,
                    skin_anim_meta: final(tpse).skin_anim_meta,
                    skin: final(tpse).skin,
                    ..*old(tpse)
                })
            }
        }),
{
    let meta = AnimMeta { frames: frame_delays.len() as u32, delay: animation_delay(delay, frame_delays) };
    let sheet = File { binary: sheet_png, mime: png_mime() };
    let still = File { binary: still_png, mime: png_mime() };
    if ghost {
        tpse.ghost_anim = Some(sheet);
        tpse.ghost_anim_meta = Some(meta);
        tpse.ghost_skin = Some(still);
    } else {
        tpse.skin_anim = Some(sheet);
        tpse.skin_anim_meta = Some(meta);
        tpse.skin = Some(still);
    }
}

/// Stores a still skin into a TPSE: the minos and the ghost textures, as PNG files, for
/// those of the two that the skin has; the other slot keeps what it held.
pub fn store_skin(tpse: &mut TPSE, minos_png: Option<Vec<u8>>, ghost_png: Option<Vec<u8>>)
    ensures
        match minos_png {
            Some(b) => is_png_file(final(tpse).skin, b@),
            None => final(tpse).skin == old(tpse).skin,
        },
        match ghost_png {
            Some(b) => is_png_file(final(tpse).ghost_skin, b@),
            None => final(tpse).ghost_skin == old(tpse).ghost_skin,
        },
        *final(tpse) == (TPSE { skin: final(tpse).skin, ghost_skin: final(tpse).ghost_skin, ..*old(tpse) }),
{
    if let Some(binary) = minos_png {
        tpse.skin = Some(File { binary, mime: png_mime() });
    }
    if let Some(binary) = ghost_png {
        tpse.ghost_skin = Some(File { binary, mime: png_mime() });
    }
}

/// The smallest of the first `n` delays.
pub open spec fn min_delay(ds: Seq<u32>, n: int) -> u32
    decreases n,
{
    if n <= 1 {
        ds[0]
    } else if ds[n - 1] < min_delay(ds, n - 1) {
        ds[n - 1]
    } else {
        min_delay(ds, n - 1)
    }
}

/// The delay of an animation in game frames: the delay its options give, else the
/// shortest delay of its frames.
pub fn animation_delay(delay: Option<u32>, frame_delays: &Vec<u32>) -> (r: u32)
    requires
        delay is Some || frame_delays.len() > 0,
    ensures
        r == match delay {
            Some(d) => d,
            None => min_delay(frame_delays@, frame_delays.len() as int),
        },
{
    match delay {
        Some(d) => d,
        None => {
            let mut best = frame_delays[0];
            let mut i: usize = 1;
            while i < frame_delays.len()
                invariant
                    1 <= i <= frame_delays.len(),
                    best == min_delay(frame_delays@, i as int),
                decreases frame_delays.len() - i,
            {
                if frame_delays[i] < best {
                    best = frame_delays[i];
                }
                i = i + 1;
            }
            best
        },
    }
}

/// Where the last `/` of `name` is, if any.
pub open spec fn last_slash(name: Seq<char>, n: int) -> Option<int>
    decreases n,
{
    if n <= 0 {
        None
    } else if name[n - 1] == '/' {
        Some(n - 1)
    } else {
        last_slash(name, n - 1)
    }
}

/// The folder and file name of an entry name: the parts before and after its last
/// `/`, or no folder where it has none.
pub open spec fn split_folder(name: Seq<char>) -> (Seq<char>, Seq<char>) {
    match last_slash(name, name.len() as int) {
        Some(k) => (name.subrange(0, k), name.subrange(k + 1, name.len() as int)),
        None => (seq![], name),
    }
}

proof fn lemma_last_slash_range(name: Seq<char>, n: int)
    requires
        n <= name.len(),
    ensures
        last_slash(name, n) matches Some(k) ==> 0 <= k < n && name[k] == '/',
    decreases n,
{
    if n > 0 {
        lemma_last_slash_range(name, n - 1);
    }
}

/// Splits an entry name into its folder and file name.
pub fn split_folder_exec(name: &str) -> (r: (String, String))
    ensures
        r.0@ == split_folder(name@).0,
        r.1@ == split_folder(name@).1,
{
    let n = name.unicode_len();
    let mut i: usize = n;
    while i > 0
        invariant
            n == name@.len(),
            i <= n,
            last_slash(name@, n as int) == last_slash(name@, i as int),
        decreases i,
    {
        if name.get_char(i - 1) == '/' {
            proof {
                lemma_last_slash_range(name@, n as int);
            }
            let folder = name.substring_char(0, i - 1);
            let file = name.substring_char(i, n);
            return (String::from_str(folder), String::from_str(file));
        }
        i = i - 1;
    }
    (String::new(), String::from_str(name))
}

/// The entries of an archive grouped by folder, folders in the order they first occur;
/// each entry keeps its file name and contents, in order.
pub open spec fn spec_groups(entries: Seq<(Seq<char>, Seq<u8>)>, n: int) -> Seq<(Seq<char>, Seq<(Seq<char>, Seq<u8>)>)>
    decreases n,
{
    if n <= 0 {
        seq![]
    } else {
        let prev = spec_groups(entries, n - 1);
        let (folder, file) = split_folder(entries[n - 1].0);
        let item = (file, entries[n - 1].1);
        if exists|g: int| 0 <= g < prev.len() && prev[g].0 == folder {
            let g = choose|g: int| 0 <= g < prev.len() && prev[g].0 == folder;
            prev.update(g, (folder, prev[g].1.push(item)))
        } else {
            prev.push((folder, seq![item]))
        }
    }
}

/// An archive entry as its name and contents.
pub open spec fn entry_view(e: (String, Vec<u8>)) -> (Seq<char>, Seq<u8>) {
    (e.0@, e.1@)
}

/// Folder groups as folder names and entries.
pub open spec fn groups_view(gs: Seq<(String, Vec<(String, Vec<u8>)>)>) -> Seq<(Seq<char>, Seq<(Seq<char>, Seq<u8>)>)> {
    gs.map_values(|g: (String, Vec<(String, Vec<u8>)>)| (g.0@, g.1@.map_values(|e: (String, Vec<u8>)| entry_view(e))))
}

/// Groups the files of an archive by the folder they are in.
pub fn group_zip_entries(entries: Vec<(String, Vec<u8>)>) -> (r: Vec<(String, Vec<(String, Vec<u8>)>)>)
    ensures
        groups_view(r@) == spec_groups(entries@.map_values(|e: (String, Vec<u8>)| entry_view(e)), entries.len() as int),
{
    let ghost ev = entries@.map_values(|e: (String, Vec<u8>)| entry_view(e));
    let ghost orig = entries@;
    let n = entries.len();
    let mut entries = entries;
    let mut groups: Vec<(String, Vec<(String, Vec<u8>)>)> = Vec::new();
    let mut i: usize = 0;
    while i < n
        invariant
            n == orig.len(),
            ev == orig.map_values(|e: (String, Vec<u8>)| entry_view(e)),
            i <= n,
            entries@ == orig.subrange(i as int, n as int),
            groups_view(groups@) == spec_groups(ev, i as int),
            forall|g1: int, g2: int| 0 <= g1 < g2 < groups.len() ==> (#[trigger] groups@[g1]).0@ != (#[trigger] groups@[g2]).0@,
        decreases n - i,
    {
        assert(entries@[0] == orig[i as int]);
        let (name, bytes) = entries.remove(0);
        assert(entries@ =~= orig.subrange(i as int + 1, n as int));
        let (folder, file) = split_folder_exec(name.as_str());
        assert(ev[i as int] == (name@, bytes@));
        let ghost prev = spec_groups(ev, i as int);
        let ghost item = (file@, bytes@);
        let mut g: usize = 0;
        while g < groups.len() && !str_equals(groups[g].0.as_str(), folder.as_str())
            invariant
                g <= groups.len(),
                forall|g2: int| 0 <= g2 < g ==> (#[trigger] groups@[g2]).0@ != folder@,
            decreases groups.len() - g,
        {
            g = g + 1;
        }
        let ghost gv = groups_view(groups@);
        if g < groups.len() {
            assert(groups@[g as int].0@ == folder@);
            assert(gv[g as int].0 == folder@);
            proof {
                let c = choose|c: int| 0 <= c < prev.len() && prev[c].0 == folder@;
                if c != g as int {
                    assert(groups@[c].0@ == folder@);
                }
            }
            let ghost before = groups@;
            let (gname, mut gitems) = groups.remove(g);
            let ghost old_items = gitems@;
            assert(gname@ == folder@);
            assert(old_items.map_values(|e: (String, Vec<u8>)| entry_view(e)) == prev[g as int].1);
            gitems.push((file, bytes));
            assert(gitems@.map_values(|e: (String, Vec<u8>)| entry_view(e)) =~= old_items.map_values(
                |e: (String, Vec<u8>)| entry_view(e),
            ).push(item));
            groups.insert(g, (gname, gitems));
            assert(groups@ =~= before.update(g as int, groups@[g as int]));
            assert(groups_view(groups@) =~= prev.update(g as int, (folder@, prev[g as int].1.push(item))));
        } else {
            proof {
                if exists|c: int| 0 <= c < prev.len() && prev[c].0 == folder@ {
                    let c = choose|c: int| 0 <= c < prev.len() && prev[c].0 == folder@;
                    assert(groups@[c].0@ == folder@);
                }
            }
            let mut items: Vec<(String, Vec<u8>)> = Vec::new();
            items.push((file, bytes));
            assert(items@.map_values(|e: (String, Vec<u8>)| entry_view(e)) =~= seq![item]);
            let ghost before = groups@;
            groups.push((folder, items));
            assert(groups@ == before.push(groups@[groups.len() - 1]));
            assert(groups_view(groups@) =~= prev.push((folder@, seq![item])));
        }
        i = i + 1;
    }
    groups
}

/// Puts a texture in its slot of a TPSE, replacing what was there.
pub fn set_other_skin(tpse: &mut TPSE, subtype: OtherSkinType, file: File)
    ensures
        *final(tpse) == subtype.spec_with_field(*old(tpse), Some(file)),
{
    let slot = subtype.tpse_field(tpse);
    *slot = Some(file);
}

/// The position of the first entry stored under the key `id`, if any.
pub open spec fn key_pos(other: Seq<(String, MiscTPSEValue)>, id: Seq<char>, n: int) -> Option<int>
    decreases n,
{
    if n <= 0 {
        None
    } else {
        match key_pos(other, id, n - 1) {
            Some(k) => Some(k),
            None => if other[n - 1].0@ == id {
                Some(n - 1)
            } else {
                None
            },
        }
    }
}

/// What storing `value` under `id` makes of the stored entries: the entry under that key
/// is replaced, or a new entry is added.
pub open spec fn stored(other: Seq<(String, MiscTPSEValue)>, id: String, value: MiscTPSEValue) -> Seq<(String, MiscTPSEValue)> {
    match key_pos(other, id@, other.len() as int) {
        Some(k) => other.update(k, (id, value)),
        None => other.push((id, value)),
    }
}

proof fn lemma_key_pos_found(other: Seq<(String, MiscTPSEValue)>, id: Seq<char>, m1: int, m2: int)
    requires
        0 <= m1 <= m2,
        key_pos(other, id, m1) is Some,
    ensures
        key_pos(other, id, m2) == key_pos(other, id, m1),
    decreases m2 - m1,
{
    if m1 < m2 {
        lemma_key_pos_found(other, id, m1, m2 - 1);
    }
}

proof fn lemma_key_pos_range(other: Seq<(String, MiscTPSEValue)>, id: Seq<char>, n: int)
    ensures
        key_pos(other, id, n) matches Some(k) ==> 0 <= k < n && other[k].0@ == id
            && forall|j: int| 0 <= j < k ==> other[j].0@ != id,
        key_pos(other, id, n) is None ==> forall|j: int| 0 <= j < n ==> other[j].0@ != id,
    decreases n,
{
    if n > 0 {
        lemma_key_pos_range(other, id, n - 1);
    }
}

/// Whether `id` names the entry at `k`, the first one stored under that key.
pub open spec fn first_under(other: Seq<(String, MiscTPSEValue)>, id: Seq<char>, k: int) -> bool {
    &&& 0 <= k < other.len()
    &&& other[k].0@ == id
    &&& forall|j: int| 0 <= j < k ==> other[j].0@ != id
}

proof fn lemma_key_pos_first(other: Seq<(String, MiscTPSEValue)>, id: Seq<char>, k: int)
    requires
        first_under(other, id, k),
    ensures
        key_pos(other, id, other.len() as int) == Some(k),
{
    lemma_key_pos_range(other, id, other.len() as int);
    match key_pos(other, id, other.len() as int) {
        Some(m) => {
            assert(!(m < k));
            assert(!(k < m));
        },
        None => {},
    }
}

/// A value stored under a key is what is found first under that key afterwards; entries
/// under other keys stay where they were; and storing under a key that is already used
/// adds no entry. So a file stored twice under the same key is kept once.
pub proof fn lemma_stored_read_back(
    other: Seq<(String, MiscTPSEValue)>,
    id: String,
    value: MiscTPSEValue,
)
    ensures
        key_pos(stored(other, id, value), id@, stored(other, id, value).len() as int) matches Some(k)
            && stored(other, id, value)[k] == (id, value),
        forall|j: int|
            0 <= j < other.len() && other[j].0@ != id@ ==> stored(other, id, value)[j] == other[j],
        stored(other, id, value).len() == other.len() + (if key_pos(other, id@, other.len() as int) is Some {
            0int
        } else {
            1int
        }),
{
    lemma_key_pos_range(other, id@, other.len() as int);
    let st = stored(other, id, value);
    match key_pos(other, id@, other.len() as int) {
        Some(k) => {
            assert(first_under(st, id@, k));
            lemma_key_pos_first(st, id@, k);
        },
        None => {
            assert(first_under(st, id@, other.len() as int));
            lemma_key_pos_first(st, id@, other.len() as int);
        },
    }
}

/// Storing twice under the same key leaves as many entries as storing once, with the
/// second value in the place of the first.
pub proof fn lemma_stored_twice(
    other: Seq<(String, MiscTPSEValue)>,
    id: String,
    first: MiscTPSEValue,
    second: MiscTPSEValue,
)
    ensures
        stored(stored(other, id, first), id, second) == stored(other, id, second),
{
    lemma_key_pos_range(other, id@, other.len() as int);
    let st = stored(other, id, first);
    match key_pos(other, id@, other.len() as int) {
        Some(k) => {
            assert(first_under(st, id@, k));
            lemma_key_pos_first(st, id@, k);
            assert(stored(st, id, second) =~= stored(other, id, second));
        },
        None => {
            assert(first_under(st, id@, other.len() as int));
            lemma_key_pos_first(st, id@, other.len() as int);
            assert(stored(st, id, second) =~= stored(other, id, second));
        },
    }
}

/// Stores a value under a key of a TPSE, replacing what was stored under it.
pub fn store_value(tpse: &mut TPSE, id: String, value: MiscTPSEValue)
    ensures
        final(tpse).other@ == stored(old(tpse).other@, id, value),
        same_except_other(*old(tpse), *final(tpse)),
{
    let mut k: usize = 0;
    while k < tpse.other.len()
        invariant
            k <= tpse.other.len(),
            tpse.other@ == old(tpse).other@,
            *tpse == *old(tpse),
            key_pos(tpse.other@, id@, k as int) is None,
        decreases tpse.other.len() - k,
    {
        if str_equals(tpse.other[k].0.as_str(), id.as_str()) {
            proof {
                lemma_key_pos_found(tpse.other@, id@, k as int + 1, tpse.other.len() as int);
            }
            tpse.other.set(k, (id, value));
            return ;
        }
        k = k + 1;
    }
    tpse.other.push((id, value));
}


/// Whether two TPSEs agree on everything but the stored values.
pub open spec fn same_except_other(a: TPSE, b: TPSE) -> bool {
    &&& a.skin == b.skin
    &&& a.ghost_skin == b.ghost_skin
    &&& a.skin_anim == b.skin_anim
    &&& a.skin_anim_meta == b.skin_anim_meta
    &&& a.ghost_anim == b.ghost_anim
    &&& a.ghost_anim_meta == b.ghost_anim_meta
    &&& a.board == b.board
    &&& a.queue == b.queue
    &&& a.grid == b.grid
    &&& a.particle_beam == b.particle_beam
    &&& a.particle_beams_beam == b.particle_beams_beam
    &&& a.particle_bigbox == b.particle_bigbox
    &&& a.particle_box == b.particle_box
    &&& a.particle_chip == b.particle_chip
    &&& a.particle_chirp == b.particle_chirp
    &&& a.particle_dust == b.particle_dust
    &&& a.particle_fbox == b.particle_fbox
    &&& a.particle_fire == b.particle_fire
    &&& a.particle_particle == b.particle_particle
    &&& a.particle_smoke == b.particle_smoke
    &&& a.particle_star == b.particle_star
    &&& a.particle_flake == b.particle_flake
    &&& a.rank_d == b.rank_d
    &&& a.rank_dplus == b.rank_dplus
    &&& a.rank_cminus == b.rank_cminus
    &&& a.rank_c == b.rank_c
    &&& a.rank_cplus == b.rank_cplus
    &&& a.rank_bminus == b.rank_bminus
    &&& a.rank_b == b.rank_b
    &&& a.rank_bplus == b.rank_bplus
    &&& a.rank_aminus == b.rank_aminus
    &&& a.rank_a == b.rank_a
    &&& a.rank_aplus == b.rank_aplus
    &&& a.rank_sminus == b.rank_sminus
    &&& a.rank_s == b.rank_s
    &&& a.rank_splus == b.rank_splus
    &&& a.rank_ss == b.rank_ss
    &&& a.rank_u == b.rank_u
    &&& a.rank_x == b.rank_x
    &&& a.rank_z == b.rank_z
    &&& a.custom_sounds == b.custom_sounds
    &&& a.backgrounds == b.backgrounds
    &&& a.music == b.music
}

/// Whether two TPSEs agree on everything but the stored values and the backgrounds.
pub open spec fn same_except_backgrounds(a: TPSE, b: TPSE) -> bool {
    &&& a.skin == b.skin
    &&& a.ghost_skin == b.ghost_skin
    &&& a.skin_anim == b.skin_anim
    &&& a.skin_anim_meta == b.skin_anim_meta
    &&& a.ghost_anim == b.ghost_anim
    &&& a.ghost_anim_meta == b.ghost_anim_meta
    &&& a.board == b.board
    &&& a.queue == b.queue
    &&& a.grid == b.grid
    &&& a.particle_beam == b.particle_beam
    &&& a.particle_beams_beam == b.particle_beams_beam
    &&& a.particle_bigbox == b.particle_bigbox
    &&& a.particle_box == b.particle_box
    &&& a.particle_chip == b.particle_chip
    &&& a.particle_chirp == b.particle_chirp
    &&& a.particle_dust == b.particle_dust
    &&& a.particle_fbox == b.particle_fbox
    &&& a.particle_fire == b.particle_fire
    &&& a.particle_particle == b.particle_particle
    &&& a.particle_smoke == b.particle_smoke
    &&& a.particle_star == b.particle_star
    &&& a.particle_flake == b.particle_flake
    &&& a.rank_d == b.rank_d
    &&& a.rank_dplus == b.rank_dplus
    &&& a.rank_cminus == b.rank_cminus
    &&& a.rank_c == b.rank_c
    &&& a.rank_cplus == b.rank_cplus
    &&& a.rank_bminus == b.rank_bminus
    &&& a.rank_b == b.rank_b
    &&& a.rank_bplus == b.rank_bplus
    &&& a.rank_aminus == b.rank_aminus
    &&& a.rank_a == b.rank_a
    &&& a.rank_aplus == b.rank_aplus
    &&& a.rank_sminus == b.rank_sminus
    &&& a.rank_s == b.rank_s
    &&& a.rank_splus == b.rank_splus
    &&& a.rank_ss == b.rank_ss
    &&& a.rank_u == b.rank_u
    &&& a.rank_x == b.rank_x
    &&& a.rank_z == b.rank_z
    &&& a.custom_sounds == b.custom_sounds
    &&& a.music == b.music
}

/// Whether two TPSEs agree on everything but the stored values and the music.
pub open spec fn same_except_music(a: TPSE, b: TPSE) -> bool {
    &&& a.skin == b.skin
    &&& a.ghost_skin == b.ghost_skin
    &&& a.skin_anim == b.skin_anim
    &&& a.skin_anim_meta == b.skin_anim_meta
    &&& a.ghost_anim == b.ghost_anim
    &&& a.ghost_anim_meta == b.ghost_anim_meta
    &&& a.board == b.board
    &&& a.queue == b.queue
    &&& a.grid == b.grid
    &&& a.particle_beam == b.particle_beam
    &&& a.particle_beams_beam == b.particle_beams_beam
    &&& a.particle_bigbox == b.particle_bigbox
    &&& a.particle_box == b.particle_box
    &&& a.particle_chip == b.particle_chip
    &&& a.particle_chirp == b.particle_chirp
    &&& a.particle_dust == b.particle_dust
    &&& a.particle_fbox == b.particle_fbox
    &&& a.particle_fire == b.particle_fire
    &&& a.particle_particle == b.particle_particle
    &&& a.particle_smoke == b.particle_smoke
    &&& a.particle_star == b.particle_star
    &&& a.particle_flake == b.particle_flake
    &&& a.rank_d == b.rank_d
    &&& a.rank_dplus == b.rank_dplus
    &&& a.rank_cminus == b.rank_cminus
    &&& a.rank_c == b.rank_c
    &&& a.rank_cplus == b.rank_cplus
    &&& a.rank_bminus == b.rank_bminus
    &&& a.rank_b == b.rank_b
    &&& a.rank_bplus == b.rank_bplus
    &&& a.rank_aminus == b.rank_aminus
    &&& a.rank_a == b.rank_a
    &&& a.rank_aplus == b.rank_aplus
    &&& a.rank_sminus == b.rank_sminus
    &&& a.rank_s == b.rank_s
    &&& a.rank_splus == b.rank_splus
    &&& a.rank_ss == b.rank_ss
    &&& a.rank_u == b.rank_u
    &&& a.rank_x == b.rank_x
    &&& a.rank_z == b.rank_z
    &&& a.custom_sounds == b.custom_sounds
    &&& a.backgrounds == b.backgrounds
}

/// Adds a background to a TPSE: its file is stored under `background-` followed by the
/// hex digest of its contents, and a background record names that key.
pub fn add_background(tpse: &mut TPSE, filename: String, file: File, background_type: BackgroundType, digest_hex: &str)
    ensures
        same_except_backgrounds(*old(tpse), *final(tpse)),
        final(tpse).backgrounds matches Some(v) && v@.len() == old_list(old(tpse).backgrounds).len() + 1
            && v@.subrange(0, v@.len() - 1) == old_list(old(tpse).backgrounds)
            && v@.last().id@ == "background-"@ + digest_hex@
            && v@.last().filename == filename
            && v@.last().background_type == background_type
            && final(tpse).other@ == stored(old(tpse).other@, v@.last().id, MiscTPSEValue::File(file)),
{
    proof {
        reveal_strlit("background-");
    }
    let mut id = String::from_str("background-");
    id.append(digest_hex);
    let key = id.clone();
    store_value(tpse, key, MiscTPSEValue::File(file));
    let mut current: Option<Vec<Background>> = None;
    std::mem::swap(&mut current, &mut tpse.backgrounds);
    let mut list = match current {
        Some(v) => v,
        None => Vec::new(),
    };
    list.push(Background { id, filename, background_type });
    tpse.backgrounds = Some(list);
    proof {
        let v = tpse.backgrounds->Some_0@;
        assert(v.subrange(0, v.len() - 1) =~= old_list(old(tpse).backgrounds));
    }
}

/// The entries of an optional list, none where there is no list.
pub open spec fn old_list<T>(l: Option<Vec<T>>) -> Seq<T> {
    match l {
        Some(v) => v@,
        None => seq![],
    }
}

/// Adds a song to a TPSE: its file is stored under `song-` followed by the hex digest of
/// its contents, and a song record names that key, with the file name as the song's name.
pub fn add_music(tpse: &mut TPSE, filename: String, file: File, digest_hex: &str)
    ensures
        same_except_music(*old(tpse), *final(tpse)),
        final(tpse).music matches Some(v) && v@.len() == old_list(old(tpse).music).len() + 1
            && v@.subrange(0, v@.len() - 1) == old_list(old(tpse).music)
            && v@.last().id@ == "song-"@ + digest_hex@
            && v@.last().filename == filename
            && v@.last().song_override is None
            && v@.last().metadata.name == filename
            && final(tpse).other@ == stored(old(tpse).other@, v@.last().id, MiscTPSEValue::File(file)),
{
    proof {
        reveal_strlit("song-");
    }
    let mut id = String::from_str("song-");
    id.append(digest_hex);
    let key = id.clone();
    store_value(tpse, key, MiscTPSEValue::File(file));
    let mut current: Option<Vec<Song>> = None;
    std::mem::swap(&mut current, &mut tpse.music);
    let mut list = match current {
        Some(v) => v,
        None => Vec::new(),
    };
    let name = filename.clone();
    list.push(Song { id, filename, song_override: None, metadata: SongMetadata { name } });
    tpse.music = Some(list);
    proof {
        let v = tpse.music->Some_0@;
        assert(v.subrange(0, v.len() - 1) =~= old_list(old(tpse).music));
    }
}

} // verus!
