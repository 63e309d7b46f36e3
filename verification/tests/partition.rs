use tpsecore::decision::{collect_decided_files, DefaultDecisionMaker};
use tpsecore::import_types::SkinType;
use tpsecore::inter_stage::{ImportFile, TypeStage2};
use tpsecore::packjson::{
    ImportGroup, ImportGroupPattern, ImportSet, ImportSetOption, PackJson, PackMetadata,
};
use tpsecore::partition::{nested_packs_reached_once, partition_import_groups, PartitionError};

fn f(path: &str, t: TypeStage2) -> ImportFile<TypeStage2> {
    ImportFile { path: path.to_string(), binary: vec![], import_type: t }
}

fn skin() -> TypeStage2 {
    TypeStage2::Skin { subtype: SkinType::Tetrio61 }
}

fn group(name: &str, patterns: &[&str]) -> ImportGroup {
    ImportGroup {
        name: name.to_string(),
        patterns: patterns
            .iter()
            .map(|p| ImportGroupPattern { pattern: p.to_string(), override_type: None })
            .collect(),
    }
}

fn pack(groups: Vec<ImportGroup>, sets: Option<Vec<ImportSet>>) -> PackJson {
    PackJson {
        data_version: 1,
        metadata: PackMetadata { title: None, author: None, version: None, description: None },
        import_groups: groups,
        import_sets: sets,
    }
}

#[test]
fn without_pack_json_everything_is_one_option() {
    let files = vec![f("a.png", skin()), f("b.ogg", TypeStage2::Music)];
    let forest = partition_import_groups(&files, &vec![None, None]).ok().expect("no pack.json to fail");
    assert_eq!(forest.trees.len(), 1);
    assert_eq!(forest.roots, vec![0]);
    let tree = &forest.trees[0];
    assert_eq!(tree.id, 0);
    assert_eq!(tree.description, "content pack");
    assert_eq!(tree.options.len(), 1);
    assert_eq!(tree.options[0].description, "all content pack data");
    assert_eq!(tree.options[0].files, vec![0, 1]);
    let decisions = DefaultDecisionMaker.decide(&forest).ok().expect("single options only");
    assert_eq!(decisions, vec![(0, 0)]);
    assert_eq!(collect_decided_files(&forest, &decisions), vec![0, 1]);
}

#[test]
fn pack_json_groups_and_loose_files() {
    let files = vec![
        f("pack/pack.json", TypeStage2::PackJson),
        f("pack/skins/a.png", skin()),
        f("pack/skins/b.png", skin()),
        f("pack/sfx/x.ogg", TypeStage2::SoundEffects),
        f("other.png", skin()),
        f("pack/notes.txt", TypeStage2::Unknown),
    ];
    let p = pack(vec![group("skins", &["skins/*.png"]), group("sounds", &["sfx/*"])], None);
    let packs = vec![Some(p), None, None, None, None, None];
    let forest = partition_import_groups(&files, &packs).ok().expect("usable pack.json");
    assert_eq!(forest.trees.len(), 2);
    let tree = &forest.trees[0];
    assert_eq!(tree.description, "all content");
    assert_eq!(tree.options.len(), 1);
    assert_eq!(tree.options[0].description, "all files");
    assert_eq!(tree.options[0].files, vec![1, 2, 3]);
    let loose = &forest.trees[1];
    assert_eq!(loose.id, 1);
    assert_eq!(loose.description, "content pack");
    assert_eq!(loose.options[0].description, "loose files");
    assert_eq!(loose.options[0].files, vec![4, 5]);
    assert_eq!(forest.roots, vec![0, 1]);
    let decisions = DefaultDecisionMaker.decide(&forest).ok().expect("single options only");
    assert_eq!(collect_decided_files(&forest, &decisions), vec![1, 2, 3, 4, 5]);
}

#[test]
fn import_sets_become_decisions() {
    let files = vec![
        f("p/pack.json", TypeStage2::PackJson),
        f("p/light/a.png", skin()),
        f("p/dark/a.png", skin()),
    ];
    let sets = vec![ImportSet {
        title: "theme".to_string(),
        required: true,
        options: vec![
            ImportSetOption { description: "light".to_string(), enables_groups: vec!["light".to_string()] },
            ImportSetOption { description: "dark".to_string(), enables_groups: vec!["dark".to_string()] },
        ],
    }];
    let p = pack(vec![group("light", &["light/**"]), group("dark", &["dark/**"])], Some(sets));
    let forest = partition_import_groups(&files, &vec![Some(p), None, None]).ok().expect("usable pack.json");
    assert_eq!(forest.trees.len(), 1);
    assert_eq!(forest.trees[0].description, "theme");
    assert_eq!(forest.trees[0].options[0].files, vec![1]);
    assert_eq!(forest.trees[0].options[1].files, vec![2]);
    // Two options: the default decision maker cannot choose.
    match DefaultDecisionMaker.decide(&forest) {
        Err(e) => assert_eq!(e.describe(), "encountered a decision with two or more options"),
        Ok(_) => panic!("a decision with two options needs a choice"),
    }
    assert_eq!(collect_decided_files(&forest, &vec![(0, 1)]), vec![2]);
}

#[test]
fn unusable_pack_json_is_reported() {
    let files = vec![f("p/pack.json", TypeStage2::PackJson), f("p/a.png", skin())];
    match partition_import_groups(&files, &vec![None, None]) {
        Err(PartitionError::InvalidPackJson { file }) => assert_eq!(file, 0),
        _ => panic!("an unparsed pack.json cannot be used"),
    }
    let bad_glob = pack(vec![group("g", &["[unclosed"])], None);
    match partition_import_groups(&files, &vec![Some(bad_glob), None]) {
        Err(PartitionError::InvalidPackJson { file }) => assert_eq!(file, 0),
        _ => panic!("an invalid pattern makes the pack.json unusable"),
    }
}

#[test]
fn nested_pack_below_two_options_is_detected() {
    let files = vec![
        f("p/pack.json", TypeStage2::PackJson),
        f("p/sub/pack.json", TypeStage2::PackJson),
        f("p/sub/a.png", skin()),
    ];
    let sets = vec![ImportSet {
        title: "which".to_string(),
        required: false,
        options: vec![
            ImportSetOption { description: "one".to_string(), enables_groups: vec!["a".to_string()] },
            ImportSetOption { description: "two".to_string(), enables_groups: vec!["b".to_string()] },
        ],
    }];
    let outer = pack(vec![group("a", &["sub/**"]), group("b", &["sub/**"])], Some(sets));
    let inner = pack(vec![group("all", &["*"])], None);
    let packs = vec![Some(outer), Some(inner), None];
    assert!(!nested_packs_reached_once(&files, &packs));

    let sets_once = vec![ImportSet {
        title: "which".to_string(),
        required: false,
        options: vec![
            ImportSetOption { description: "one".to_string(), enables_groups: vec!["a".to_string()] },
            ImportSetOption { description: "none".to_string(), enables_groups: vec![] },
        ],
    }];
    let outer_once = pack(vec![group("a", &["sub/**"]), group("b", &["other/**"])], Some(sets_once));
    let inner_once = pack(vec![group("all", &["*"])], None);
    let packs_once = vec![Some(outer_once), Some(inner_once), None];
    assert!(nested_packs_reached_once(&files, &packs_once));
    let forest = partition_import_groups(&files, &packs_once).ok().expect("usable pack.json files");
    // The nested pack.json's tree hangs below the first option of the outer one.
    assert_eq!(forest.trees.len(), 2);
    assert_eq!(forest.trees[0].options[0].subtrees, vec![1]);
    assert!(forest.trees[0].options[1].subtrees.is_empty());
    assert_eq!(forest.trees[1].options[0].files, vec![2]);
    assert_eq!(forest.roots, vec![0]);
}
