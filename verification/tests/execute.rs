use tpsecore::execute::{
    add_background, add_music, animated_canvas_size, compose_animation, store_animation, animation_delay, frame_position,
    group_zip_entries, set_other_skin, split_folder_exec, store_value, FRAME_SIDE,
    FRAMES_PER_ROW,
};
use tpsecore::import_types::{BackgroundType, OtherSkinType};
use tpsecore::accel::{WasmAcceleratorState, WasmTextureHandle};
use tpsecore::tpse::{AnimMeta, File, MiscTPSEValue, TPSE};

fn file(bytes: &[u8], mime: &str) -> File {
    File { binary: bytes.to_vec(), mime: mime.to_string() }
}

#[test]
fn canvas_and_frame_layout() {
    assert_eq!(FRAME_SIDE, 1024);
    assert_eq!(FRAMES_PER_ROW, 16);
    assert_eq!(animated_canvas_size(0), (0, 0));
    assert_eq!(animated_canvas_size(1), (1024, 1024));
    assert_eq!(animated_canvas_size(16), (16384, 1024));
    assert_eq!(animated_canvas_size(17), (16384, 2048));
    assert_eq!(frame_position(0), (0, 0));
    assert_eq!(frame_position(15), (15 * 1024, 0));
    assert_eq!(frame_position(17), (1024, 1024));
    // Every frame of an animation lies on its sheet.
    let n = 37;
    let (w, h) = animated_canvas_size(n);
    for i in 0..n {
        let (x, y) = frame_position(i);
        assert!(x + 1024 <= w as i64 && y + 1024 <= h as i64);
    }
}

#[test]
fn delays() {
    assert_eq!(animation_delay(Some(5), &vec![]), 5);
    assert_eq!(animation_delay(Some(5), &vec![1, 2]), 5);
    assert_eq!(animation_delay(None, &vec![4, 2, 9]), 2);
    assert_eq!(animation_delay(None, &vec![7]), 7);
}

#[test]
fn folders_of_zip_entries() {
    assert_eq!(split_folder_exec("a/b/c.png"), ("a/b".to_string(), "c.png".to_string()));
    assert_eq!(split_folder_exec("c.png"), (String::new(), "c.png".to_string()));
    let groups = group_zip_entries(vec![
        ("x/1.png".to_string(), vec![1]),
        ("2.png".to_string(), vec![2]),
        ("x/3.png".to_string(), vec![3]),
    ]);
    assert_eq!(groups.len(), 2);
    assert_eq!(groups[0].0, "x");
    assert_eq!(groups[0].1, vec![("1.png".to_string(), vec![1]), ("3.png".to_string(), vec![3])]);
    assert_eq!(groups[1].0, "");
    assert_eq!(groups[1].1, vec![("2.png".to_string(), vec![2])]);
}

#[test]
fn other_skin_slots() {
    let mut tpse = TPSE::default();
    set_other_skin(&mut tpse, OtherSkinType::RankZ, file(&[1], "image/png"));
    assert_eq!(tpse.rank_z.as_ref().map(|f| f.binary.clone()), Some(vec![1]));
    assert!(tpse.board.is_none());
    {
        let slot = OtherSkinType::Board.tpse_field(&mut tpse);
        assert!(slot.is_none());
        *slot = Some(file(&[2], "image/png"));
    }
    assert_eq!(tpse.board.as_ref().map(|f| f.binary.clone()), Some(vec![2]));
    assert_eq!(tpse.rank_z.as_ref().map(|f| f.binary.clone()), Some(vec![1]));
}

fn stored_bytes(tpse: &TPSE, key: &str) -> Vec<Vec<u8>> {
    tpse.other
        .iter()
        .filter(|(k, _)| k == key)
        .map(|(_, v)| match v {
            MiscTPSEValue::File(f) => f.binary.clone(),
        })
        .collect()
}

#[test]
fn storing_under_a_key_replaces() {
    let mut tpse = TPSE::default();
    store_value(&mut tpse, "k".to_string(), MiscTPSEValue::File(file(&[1], "a")));
    store_value(&mut tpse, "j".to_string(), MiscTPSEValue::File(file(&[2], "a")));
    store_value(&mut tpse, "k".to_string(), MiscTPSEValue::File(file(&[3], "a")));
    assert_eq!(tpse.other.len(), 2);
    assert_eq!(tpse.other[0].0, "k");
    assert_eq!(stored_bytes(&tpse, "k"), vec![vec![3]]);
    assert_eq!(stored_bytes(&tpse, "j"), vec![vec![2]]);
}

#[test]
fn songs_and_backgrounds_are_keyed_by_digest() {
    let mut tpse = TPSE::default();
    add_music(&mut tpse, "theme.ogg".to_string(), file(&[1, 2], "audio/ogg"), "abc123");
    add_music(&mut tpse, "theme copy.ogg".to_string(), file(&[1, 2], "audio/ogg"), "abc123");
    let music = tpse.music.as_ref().expect("songs were added");
    assert_eq!(music.len(), 2);
    assert_eq!(music[0].id, "song-abc123");
    assert_eq!(music[1].id, "song-abc123");
    assert_eq!(music[1].filename, "theme copy.ogg");
    assert_eq!(music[1].metadata.name, "theme copy.ogg");
    assert!(music[1].song_override.is_none());
    // The same contents are stored once.
    assert_eq!(tpse.other.len(), 1);
    assert_eq!(stored_bytes(&tpse, "song-abc123"), vec![vec![1, 2]]);

    add_background(&mut tpse, "bg.png".to_string(), file(&[9], "image/png"), BackgroundType::Image, "ff00");
    let backgrounds = tpse.backgrounds.as_ref().expect("a background was added");
    assert_eq!(backgrounds.len(), 1);
    assert_eq!(backgrounds[0].id, "background-ff00");
    assert_eq!(backgrounds[0].background_type, BackgroundType::Image);
    assert_eq!(stored_bytes(&tpse, "background-ff00"), vec![vec![9]]);
    assert_eq!(tpse.other.len(), 2);
}

#[test]
fn animation_sheet_is_made_at_first_frame() {
    let mut state = WasmAcceleratorState::new();
    let frame = |id: u64| Some(WasmTextureHandle { id, dimensions: Some((1024, 1024)) });
    state.id_counter = 5;
    let mut frames = vec![None, frame(1)];
    frames.extend((2..17).map(|i| frame(i)));
    let sheet = compose_animation(&mut state, &frames).expect("a sheet");
    assert_eq!(sheet.id, 5);
    assert_eq!(sheet.dimensions, Some((16384, 2048)));
    assert_eq!(state.id_counter, 6);
    let buf = &state.command_buffer;
    assert_eq!(buf[0], 1);
    assert_eq!(&buf[1..9], &5u64.to_be_bytes());
    assert_eq!(&buf[9..13], &16384u32.to_be_bytes());
    assert_eq!(&buf[13..17], &2048u32.to_be_bytes());
    // 16 overlays of 33 bytes each; frame 1 lands at (1024, 0), frame 16 at (0, 1024).
    assert_eq!(buf.len(), 17 + 16 * 33);
    assert_eq!(buf[17], 7);
    assert_eq!(&buf[18..26], &5u64.to_be_bytes());
    assert_eq!(&buf[26..34], &1u64.to_be_bytes());
    assert_eq!(&buf[34..42], &1024i64.to_be_bytes());
    assert_eq!(&buf[42..50], &0i64.to_be_bytes());
    let last = 17 + 15 * 33;
    assert_eq!(&buf[last + 9..last + 17], &16u64.to_be_bytes());
    assert_eq!(&buf[last + 17..last + 25], &0i64.to_be_bytes());
    assert_eq!(&buf[last + 25..last + 33], &1024i64.to_be_bytes());
}

#[test]
fn animation_without_frames_makes_no_sheet() {
    let mut state = WasmAcceleratorState::new();
    assert!(compose_animation(&mut state, &vec![None, None]).is_none());
    assert_eq!(state.id_counter, 0);
    assert!(state.command_buffer.is_empty());
}

#[test]
fn animations_are_stored_with_their_meta() {
    let mut tpse = TPSE::default();
    store_animation(&mut tpse, false, vec![1, 2], vec![3], None, &vec![60, 30, 45]);
    assert_eq!(tpse.skin_anim_meta, Some(AnimMeta { frames: 3, delay: 30 }));
    assert_eq!(tpse.skin_anim.as_ref().map(|f| (f.binary.clone(), f.mime.clone())), Some((vec![1, 2], "image/png".to_string())));
    assert_eq!(tpse.skin.as_ref().map(|f| f.binary.clone()), Some(vec![3]));
    assert!(tpse.ghost_anim.is_none() && tpse.ghost_skin.is_none());
    store_animation(&mut tpse, true, vec![4], vec![5], Some(7), &vec![60]);
    assert_eq!(tpse.ghost_anim_meta, Some(AnimMeta { frames: 1, delay: 7 }));
    assert_eq!(tpse.ghost_skin.as_ref().map(|f| f.mime.clone()), Some("image/png".to_string()));
    assert_eq!(tpse.skin_anim_meta, Some(AnimMeta { frames: 3, delay: 30 }));
}

#[test]
fn files_get_the_mime_type_of_their_extension() {
    let f = tpsecore::mime::file_for("skin/board.png", vec![1, 2]);
    assert_eq!(f.binary, vec![1, 2]);
    assert_eq!(f.mime, "image/png");
    assert_eq!(tpsecore::mime::file_for("music/song.ogg", vec![]).mime, "audio/ogg");
    assert_eq!(tpsecore::mime::file_for("notes.unknownext", vec![]).mime, "application/octet-stream");
}

#[test]
fn still_skins_fill_only_their_slots() {
    let mut tpse = TPSE::default();
    tpsecore::execute::store_skin(&mut tpse, Some(vec![1]), None);
    assert_eq!(tpse.skin.as_ref().map(|f| (f.binary.clone(), f.mime.clone())), Some((vec![1], "image/png".to_string())));
    assert!(tpse.ghost_skin.is_none());
    tpsecore::execute::store_skin(&mut tpse, None, Some(vec![2]));
    assert_eq!(tpse.skin.as_ref().map(|f| f.binary.clone()), Some(vec![1]));
    assert_eq!(tpse.ghost_skin.as_ref().map(|f| f.binary.clone()), Some(vec![2]));
}
