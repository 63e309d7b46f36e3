use std::io::{Cursor, Write};

use tpsecore::explore::{explore_files, ExploreError, ExploreFacts, ExploreStep, ImageFacts};
use tpsecore::guess::AspectRatios;
use tpsecore::import_types::{BackgroundType, ImportType, SkinType};
use tpsecore::inter_stage::{ImportFile, TypeStage2};

fn auto(path: &str, binary: Vec<u8>) -> ImportFile<ImportType> {
    ImportFile { path: path.to_string(), binary, import_type: ImportType::Automatic }
}

fn no_facts() -> ExploreFacts {
    ExploreFacts { images: vec![], sound_effect_names: None }
}

fn zip_of(entries: &[(&str, &[u8])], dirs: &[&str]) -> Vec<u8> {
    let mut writer = zip::ZipWriter::new(Cursor::new(Vec::new()));
    let options = zip::write::SimpleFileOptions::default().compression_method(zip::CompressionMethod::Stored);
    for d in dirs {
        writer.add_directory(*d, options).expect("directory entry");
    }
    for (name, data) in entries {
        writer.start_file(*name, options).expect("file entry");
        writer.write_all(data).expect("entry contents");
    }
    writer.finish().expect("finished archive").into_inner()
}

fn typed(step: ExploreStep) -> Vec<(String, TypeStage2)> {
    match step {
        ExploreStep::Files(files) => files.into_iter().map(|f| (f.path, f.import_type)).collect(),
        _ => panic!("expected explored files"),
    }
}

#[test]
fn files_are_typed_and_sorted() {
    let queue = vec![auto("z_music.ogg", vec![]), auto("a.tpse", vec![1]), auto("m.mp4", vec![])];
    let facts = ExploreFacts { images: vec![], sound_effect_names: Some(vec![]) };
    assert_eq!(
        typed(explore_files(queue, &facts, 0, 4)),
        vec![
            ("a.tpse".to_string(), TypeStage2::TPSE),
            ("m.mp4".to_string(), TypeStage2::Background { subtype: BackgroundType::Video }),
            ("z_music.ogg".to_string(), TypeStage2::Music),
        ]
    );
}

#[test]
fn measurements_are_asked_for() {
    match explore_files(vec![auto("b.png", vec![5])], &no_facts(), 0, 4) {
        ExploreStep::NeedsImageDimensions { path, binary } => {
            assert_eq!(path, "b.png");
            assert_eq!(binary, vec![5]);
        },
        _ => panic!("expected a request for dimensions"),
    }
    let facts = ExploreFacts {
        images: vec![ImageFacts {
            path: "b.png".to_string(),
            width: 1920,
            height: 1080,
            ratios: AspectRatios { near_12_4: false, near_9: false, near_9_20: false },
        }],
        sound_effect_names: None,
    };
    assert_eq!(
        typed(explore_files(vec![auto("b.png", vec![5])], &facts, 0, 4)),
        vec![("b.png".to_string(), TypeStage2::Background { subtype: BackgroundType::Image })]
    );
    assert!(matches!(
        explore_files(vec![auto("sfx/hold.ogg", vec![])], &facts, 0, 4),
        ExploreStep::NeedsSoundEffectNames
    ));
    let named = ExploreFacts { images: vec![], sound_effect_names: Some(vec!["hold".to_string()]) };
    assert_eq!(
        typed(explore_files(vec![auto("sfx/hold.ogg", vec![]), auto("sfx/other.ogg", vec![])], &named, 0, 4)),
        vec![
            ("sfx/hold.ogg".to_string(), TypeStage2::SoundEffects),
            ("sfx/other.ogg".to_string(), TypeStage2::WeakAudio),
        ]
    );
}

#[test]
fn zip_archives_are_opened() {
    let archive = zip_of(&[("skin_connected_minos.png", b"png"), ("readme.txt", b"hi")], &["folder/"]);
    let files = match explore_files(vec![auto("pack.zip", archive)], &no_facts(), 0, 4) {
        ExploreStep::Files(files) => files,
        _ => panic!("expected explored files"),
    };
    assert_eq!(files.len(), 2);
    assert_eq!(files[0].path, "pack.zip/readme.txt");
    assert_eq!(files[0].import_type, TypeStage2::Unknown);
    assert_eq!(files[0].binary, b"hi".to_vec());
    assert_eq!(files[1].path, "pack.zip/skin_connected_minos.png");
    assert_eq!(files[1].import_type, TypeStage2::Skin { subtype: SkinType::Tetrio61Connected });
    assert_eq!(files[1].binary, b"png".to_vec());
}

#[test]
fn zip_errors() {
    match explore_files(vec![auto("broken.zip", vec![1, 2, 3])], &no_facts(), 0, 4) {
        ExploreStep::Failed(ExploreError::InvalidZip { path }) => assert_eq!(path, "broken.zip"),
        _ => panic!("expected an unreadable archive"),
    }
    let archive = zip_of(&[("a.tpse", b"{}")], &[]);
    assert!(matches!(
        explore_files(vec![auto("pack.zip", archive.clone())], &no_facts(), 0, 1),
        ExploreStep::Failed(ExploreError::TooMuchNesting)
    ));
    assert!(matches!(
        explore_files(vec![auto("a.tpse", vec![])], &no_facts(), 3, 3),
        ExploreStep::Failed(ExploreError::TooMuchNesting)
    ));
    assert_eq!(
        typed(explore_files(vec![auto("pack.zip", archive)], &no_facts(), 0, 2)),
        vec![("pack.zip/a.tpse".to_string(), TypeStage2::TPSE)]
    );
}

#[test]
fn files_are_sorted_by_path_components() {
    let queue = vec![auto("a.b.tpse", vec![]), auto("a/b.tpse", vec![])];
    assert_eq!(
        typed(explore_files(queue, &no_facts(), 0, 4)),
        vec![("a/b.tpse".to_string(), TypeStage2::TPSE), ("a.b.tpse".to_string(), TypeStage2::TPSE)]
    );
}

#[test]
fn zip_folders_group_files_by_folder() {
    let archive = zip_of(
        &[("a/one.png", b"1"), ("b/two.png", b"2"), ("top.ogg", b"3"), ("a/three.png", b"4")],
        &["a/", "empty/"],
    );
    let groups = tpsecore::explore::zip_folders(&archive).expect("readable archive");
    let names: Vec<(String, Vec<(String, Vec<u8>)>)> = groups;
    assert_eq!(
        names,
        vec![
            ("a".to_string(), vec![("one.png".to_string(), b"1".to_vec()), ("three.png".to_string(), b"4".to_vec())]),
            ("b".to_string(), vec![("two.png".to_string(), b"2".to_vec())]),
            ("".to_string(), vec![("top.ogg".to_string(), b"3".to_vec())]),
        ]
    );
    assert!(tpsecore::explore::zip_folders(&b"not a zip".to_vec()).is_none());
}
