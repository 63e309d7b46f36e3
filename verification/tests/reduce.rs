use tpsecore::guess::{TextureGuess, TextureGuessKind};
use tpsecore::import_types::{OtherSkinType, SkinType};
use tpsecore::inter_stage::{ImportFile, ImportTask, TypeStage3, TypeStage4};
use tpsecore::reduce::{reduce_types, ReduceError, ReduceStep, SkinPart};

fn f(path: &str, t: TypeStage3) -> ImportFile<TypeStage3> {
    ImportFile { path: path.to_string(), binary: path.as_bytes().to_vec(), import_type: t }
}

fn weak(side: u32, kind: TextureGuessKind) -> TypeStage3 {
    TypeStage3::WeakTexture {
        first_guess: TextureGuess { width: side, height: side, kind },
        second_guess: None,
        third_guess: None,
    }
}

fn basic(task: &ImportTask) -> Option<(TypeStage4, String)> {
    match task {
        ImportTask::Basic { import_type, path, .. } => Some((*import_type, path.clone())),
        _ => None,
    }
}

#[test]
fn sound_effect_directory() {
    let files = vec![
        f("sfx/hold.ogg", TypeStage3::SoundEffects),
        f("sfx/custom.ogg", TypeStage3::WeakAudio),
        f("sfx/readme.txt", TypeStage3::Unknown),
        f("music/theme.ogg", TypeStage3::WeakAudio),
    ];
    match reduce_types(files, &vec![None; 4]) {
        ReduceStep::Done(Ok(tasks)) => {
            assert_eq!(tasks.len(), 2);
            assert_eq!(basic(&tasks[0]), Some((TypeStage4::Music, "music/theme.ogg".to_string())));
            match &tasks[1] {
                ImportTask::SoundEffects(effects) => {
                    let names: Vec<&str> = effects.iter().map(|e| e.name.as_str()).collect();
                    assert_eq!(names, vec!["hold", "custom"]);
                    assert_eq!(effects[1].path, "sfx/custom.ogg");
                    assert_eq!(effects[1].binary, b"sfx/custom.ogg".to_vec());
                },
                _ => panic!("expected the sound effects task"),
            }
        },
        _ => panic!("expected collated tasks"),
    }
}

#[test]
fn board_queue_grid_needs_opacity_then_settles() {
    let skin = TextureGuessKind::Skin(SkinType::Tetrio61ConnectedGhost);
    let files = vec![
        f("ui/a.png", weak(512, skin)),
        f("ui/b.png", weak(512, skin)),
        f("ui/c.png", weak(1024, TextureGuessKind::Skin(SkinType::Tetrio61Connected))),
    ];
    let files = match reduce_types(files, &vec![None; 3]) {
        ReduceStep::NeedsOpacity { files, board, queue } => {
            assert_eq!((board, queue), (0, 1));
            files
        },
        _ => panic!("expected a request for opacities"),
    };
    // The more opaque of the two is the queue.
    match reduce_types(files, &vec![Some(10), Some(20), None]) {
        ReduceStep::Done(Ok(tasks)) => {
            let kinds: Vec<_> = tasks.iter().map(|t| basic(t)).collect();
            assert_eq!(
                kinds,
                vec![
                    Some((TypeStage4::OtherSkin { subtype: OtherSkinType::Board }, "ui/a.png".to_string())),
                    Some((TypeStage4::OtherSkin { subtype: OtherSkinType::Queue }, "ui/b.png".to_string())),
                    Some((TypeStage4::OtherSkin { subtype: OtherSkinType::Grid }, "ui/c.png".to_string())),
                ]
            );
        },
        _ => panic!("expected collated tasks"),
    }
}

#[test]
fn queue_more_opaque_swaps_roles() {
    let skin = TextureGuessKind::Skin(SkinType::Tetrio61ConnectedGhost);
    let files = vec![
        f("ui/a.png", weak(512, skin)),
        f("ui/b.png", weak(512, skin)),
        f("ui/c.png", TypeStage3::OtherSkin { subtype: OtherSkinType::Grid }),
    ];
    match reduce_types(files, &vec![Some(30), Some(20), None]) {
        ReduceStep::Done(Ok(tasks)) => {
            assert_eq!(basic(&tasks[0]).map(|b| b.0), Some(TypeStage4::OtherSkin { subtype: OtherSkinType::Queue }));
            assert_eq!(basic(&tasks[1]).map(|b| b.0), Some(TypeStage4::OtherSkin { subtype: OtherSkinType::Board }));
        },
        _ => panic!("expected collated tasks"),
    }
}

#[test]
fn minos_and_ghost_pair() {
    let files = vec![
        f("skin/minos.png", weak(1024, TextureGuessKind::Skin(SkinType::Tetrio61Connected))),
        f("skin/ghost.png", weak(512, TextureGuessKind::Skin(SkinType::Tetrio61ConnectedGhost))),
    ];
    match reduce_types(files, &vec![None, None]) {
        ReduceStep::Done(Ok(tasks)) => {
            let kinds: Vec<_> = tasks.iter().map(|t| basic(t).map(|b| b.0)).collect();
            assert_eq!(
                kinds,
                vec![
                    Some(TypeStage4::Skin { subtype: SkinType::Tetrio61Connected }),
                    Some(TypeStage4::Skin { subtype: SkinType::Tetrio61ConnectedGhost }),
                ]
            );
        },
        _ => panic!("expected collated tasks"),
    }
}

#[test]
fn weak_minos_pairs_with_typed_ghost() {
    let files = vec![
        f("skin/minos.png", weak(256, TextureGuessKind::Skin(SkinType::Tetrio61))),
        f("skin/ghost.png", TypeStage3::Skin { subtype: SkinType::Tetrio61Ghost }),
    ];
    match reduce_types(files, &vec![None, None]) {
        ReduceStep::Done(Ok(tasks)) => {
            let kinds: Vec<_> = tasks.iter().map(|t| basic(t).map(|b| b.0)).collect();
            assert_eq!(
                kinds,
                vec![
                    Some(TypeStage4::Skin { subtype: SkinType::Tetrio61 }),
                    Some(TypeStage4::Skin { subtype: SkinType::Tetrio61Ghost }),
                ]
            );
        },
        _ => panic!("expected collated tasks"),
    }
}

#[test]
fn animation_frames_are_collected() {
    let files = vec![
        f("anim/1.png", TypeStage3::Skin { subtype: SkinType::Tetrio61Connected }),
        f("anim/2.png", TypeStage3::Skin { subtype: SkinType::Tetrio61Connected }),
        f("anim/3.png", TypeStage3::Skin { subtype: SkinType::Tetrio61Connected }),
    ];
    match reduce_types(files, &vec![None; 3]) {
        ReduceStep::Done(Ok(tasks)) => {
            assert_eq!(tasks.len(), 1);
            match &tasks[0] {
                ImportTask::AnimatedSkinFrames(s, frames) => {
                    assert_eq!(*s, SkinType::Tetrio61Connected);
                    let paths: Vec<&str> = frames.iter().map(|fr| fr.path.as_str()).collect();
                    assert_eq!(paths, vec!["anim/1.png", "anim/2.png", "anim/3.png"]);
                },
                _ => panic!("expected animation frames"),
            }
        },
        _ => panic!("expected collated tasks"),
    }
}

#[test]
fn unknown_file_is_an_error() {
    let files = vec![f("x/notes.txt", TypeStage3::Unknown), f("y/song.mp3", TypeStage3::Music)];
    assert!(matches!(reduce_types(files, &vec![None, None]), ReduceStep::Done(Err(ReduceError::UnknownFileType))));
}

#[test]
fn competing_animations_are_an_error() {
    let files = vec![
        f("a/1.png", TypeStage3::Skin { subtype: SkinType::JstrisRaster }),
        f("a/2.png", TypeStage3::Skin { subtype: SkinType::JstrisRaster }),
        f("b/1.png", TypeStage3::Skin { subtype: SkinType::TetrioRaster }),
        f("b/2.png", TypeStage3::Skin { subtype: SkinType::TetrioRaster }),
    ];
    match reduce_types(files, &vec![None; 4]) {
        ReduceStep::Done(Err(ReduceError::AmbiguousAnimatedSkinResults { part, types })) => {
            assert_eq!(part, SkinPart::Minos);
            assert_eq!(types.len(), 2);
            assert!(types.contains(&SkinType::JstrisRaster));
            assert!(types.contains(&SkinType::TetrioRaster));
        },
        _ => panic!("expected an ambiguity error"),
    }
}
