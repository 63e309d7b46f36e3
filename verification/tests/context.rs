use std::collections::HashMap;
use tpsecore::assets::{Asset, CachedAssetProvider, CachedAssetProviderError, DefaultAssetProvider};
use tpsecore::context::{
    ImportContext, ImportContextEntry, ImportResult, ImportFlags, ImportTaskContextEntry, ModifiedSoundEffects, RenderFailure, StorageMethod,
    StorageSide,
};
use tpsecore::import_types::{SkinType, SpecificImportType};
use tpsecore::inter_stage::{AnimatedSkinFrame, ImportTask, SoundEffect, TypeStage4};
use tpsecore::splicer::{ConnectionSubmap, Piece};

#[test]
fn asset_numbers_and_names() {
    assert_eq!(Asset::try_from(0), Ok(Asset::TetrioJS));
    assert_eq!(Asset::try_from(1), Ok(Asset::TetrioRSD));
    assert_eq!(Asset::try_from(2), Err(()));
    assert_eq!(Asset::try_from(255), Err(()));
    assert_eq!(Asset::TetrioJS.name(), "tetrio.js");
    assert_eq!(Asset::TetrioRSD.name(), "tetrio.opus.rsd");
}

#[test]
fn cached_provider_hands_out_cached_assets() {
    let mut cache = HashMap::new();
    cache.insert(0u8, vec![1, 2]);
    let provider = CachedAssetProvider { cache };
    assert_eq!(provider.provide(Asset::TetrioJS).ok(), Some(vec![1, 2]));
    assert_eq!(provider.provide(Asset::TetrioRSD).err(), Some(CachedAssetProviderError(Asset::TetrioRSD)));
    assert_eq!(
        CachedAssetProviderError(Asset::TetrioRSD).describe(),
        "the tetrio.opus.rsd asset was not preloaded and the cached asset provider cannot fetch it"
    );
}

#[test]
fn default_provider_reads_back_what_was_preloaded() {
    let mut provider = DefaultAssetProvider::new();
    assert_eq!(provider.provide(Asset::TetrioJS), None);
    provider.preload(Asset::TetrioJS, vec![1, 2, 3]);
    provider.preload(Asset::TetrioRSD, vec![4]);
    provider.preload(Asset::TetrioJS, vec![5]);
    assert_eq!(provider.provide(Asset::TetrioJS), Some(vec![5]));
    assert_eq!(provider.provide(Asset::TetrioRSD), Some(vec![4]));
}

#[test]
fn task_context_entry_names_file_paths() {
    let frames = ImportTask::AnimatedSkinFrames(
        SkinType::Tetrio61,
        vec![
            AnimatedSkinFrame { path: "a/1.png".to_string(), binary: vec![] },
            AnimatedSkinFrame { path: "a/2.png".to_string(), binary: vec![1] },
        ],
    );
    match ImportTaskContextEntry::from(&frames) {
        ImportTaskContextEntry::AnimatedSkinFrames { skin_type, frame_files } => {
            assert_eq!(skin_type, SkinType::Tetrio61);
            assert_eq!(frame_files, vec!["a/1.png".to_string(), "a/2.png".to_string()]);
        },
        _ => panic!("wrong entry kind"),
    }
    let sfx = ImportTask::SoundEffects(vec![SoundEffect {
        name: "hold".to_string(),
        path: "sfx/hold.ogg".to_string(),
        binary: vec![],
    }]);
    match ImportTaskContextEntry::from(&sfx) {
        ImportTaskContextEntry::SoundEffects { files } => assert_eq!(files, vec!["sfx/hold.ogg".to_string()]),
        _ => panic!("wrong entry kind"),
    }
    let basic = ImportTask::Basic { import_type: TypeStage4::Music, path: "song.ogg".to_string(), binary: vec![] };
    let entry: ImportContextEntry = ImportTaskContextEntry::from(&basic).into();
    assert!(matches!(entry, ImportContextEntry::Task { task: ImportTaskContextEntry::Basic { .. } }));
    match ImportTaskContextEntry::from(&basic) {
        ImportTaskContextEntry::Basic { as_type, file } => {
            assert_eq!(as_type, TypeStage4::Music);
            assert_eq!(file, "song.ogg");
        },
        _ => panic!("wrong entry kind"),
    }
}

#[test]
fn modified_sound_effects_add() {
    let mut m = ModifiedSoundEffects::default();
    m.add("hold".to_string());
    m.add("harddrop".to_string());
    match &m {
        ModifiedSoundEffects::Listed { modified_sound_effects } => {
            assert_eq!(modified_sound_effects, &vec!["hold".to_string(), "harddrop".to_string()]);
        },
        _ => panic!("expected a list"),
    }
    let mut all = ModifiedSoundEffects::All;
    all.add("hold".to_string());
    assert!(matches!(all, ModifiedSoundEffects::All));
    let flags = ImportFlags::default();
    assert!(flags.metadata.is_none());
    assert!(flags.guessed_files.is_empty());
}

#[test]
fn storage_and_render_messages() {
    assert_eq!(StorageSide::Base.name(), "base");
    assert_eq!(StorageSide::Source.name(), "source");
    assert_eq!(StorageMethod::Get.name(), "get");
    assert_eq!(StorageMethod::Put.name(), "set");
    assert_eq!(RenderFailure::NoSoundEffectsConfiguration.describe(), "tpse has no sound effect configuration");
    assert_eq!(
        RenderFailure::NoSoundSoundEffect("boom".to_string()).describe(),
        "tpse has no such sound effect boom"
    );
}

#[test]
fn pieces_parse_from_names() {
    assert_eq!(Piece::values().len(), 12);
    assert_eq!(Piece::values()[0], Piece::Z);
    assert_eq!(Piece::values()[11], Piece::Topout);
    assert_eq!(Piece::parse("Z").ok(), Some(Piece::Z));
    assert_eq!(Piece::parse("t").ok(), Some(Piece::T));
    assert_eq!(Piece::parse("hold").ok(), Some(Piece::HoldDisabled));
    assert_eq!(Piece::parse("#").ok(), Some(Piece::Garbage));
    assert_eq!(Piece::parse("dark garbage").ok(), Some(Piece::DarkGarbage));
    assert_eq!(Piece::parse("@").ok(), Some(Piece::DarkGarbage));
    assert_eq!(Piece::parse("ghost").ok(), Some(Piece::GhostBlock));
    assert_eq!("topout".parse::<Piece>().ok(), Some(Piece::Topout));
    match Piece::parse("HOLD") {
        Err(e) => assert_eq!(e.0, "HOLD"),
        Ok(_) => panic!("HOLD is not a piece name"),
    }
}

#[test]
fn connection_submap_extents() {
    let mut map = ConnectionSubmap::new(0b00000, vec![(0, 3)]);
    assert_eq!((map.max_x, map.max_y), (0, 3));
    assert_eq!(map.default, 0);
    map.insert(0b00110, vec![(1, 0)]);
    map.insert(0b01111, vec![(0, 15), (0, 19)]);
    assert_eq!((map.max_x, map.max_y), (1, 19));
    assert_eq!(map.get(0b00110), Some(&vec![(1, 0)]));
    assert_eq!(map.get(0b00000), Some(&vec![(0, 3)]));
    assert_eq!(map.get(0b11111), None);
    map.insert(0b00110, vec![(3, 1)]);
    assert_eq!(map.get(0b00110), Some(&vec![(3, 1)]));
    assert_eq!((map.max_x, map.max_y), (3, 19));
}

#[test]
fn import_context_stack_and_depth() {
    let ctx = ImportContext::new();
    assert_eq!(ctx.depth_limit, 15);
    assert!(!ctx.is_too_deep());
    let mut ctx = ctx.with_depth_limit(2);
    ctx.enter_context(ImportContextEntry::ExploreFiles);
    assert!(!ctx.is_too_deep());
    ctx.enter_context(ImportContextEntry::ZipFolder { folder: "a".to_string() });
    assert!(ctx.is_too_deep());
    match ctx.leave_context() {
        Some(ImportContextEntry::ZipFolder { folder }) => assert_eq!(folder, "a"),
        _ => panic!("expected the zip folder entry"),
    }
    assert_eq!(ctx.context.len(), 1);
    assert!(matches!(ctx.leave_context(), Some(ImportContextEntry::ExploreFiles)));
    assert!(ctx.leave_context().is_none());
    assert_eq!(ctx.cached_asset(Asset::TetrioRSD), None);
    ctx.cache_asset(Asset::TetrioRSD, vec![7]);
    assert_eq!(ctx.cached_asset(Asset::TetrioRSD), Some(vec![7]));
    assert_eq!(ctx.cached_asset(Asset::TetrioJS), None);
}

#[test]
fn import_results_carry_the_guessed_mime_type() {
    let r = ImportResult::new("skins/board.png", vec![1, 2], SpecificImportType::Music);
    assert_eq!(r.filename, "skins/board.png");
    assert_eq!(r.file.binary, vec![1, 2]);
    assert_eq!(r.file.mime, "image/png");
    assert!(matches!(r.specific_import_type, SpecificImportType::Music));
}

#[test]
fn providing_an_asset_fetches_it_once() {
    let mut ctx = ImportContext::new();
    ctx.enter_context(ImportContextEntry::ExploreFiles);
    assert_eq!(ctx.begin_provide_asset(Asset::TetrioRSD), None);
    assert_eq!(ctx.context.len(), 2);
    assert!(matches!(ctx.context[1], ImportContextEntry::ProvideAsset { asset: Asset::TetrioRSD }));
    assert_eq!(ctx.finish_provide_asset(Asset::TetrioRSD, Some(vec![3, 4])), Some(vec![3, 4]));
    assert_eq!(ctx.context.len(), 1);
    assert_eq!(ctx.begin_provide_asset(Asset::TetrioRSD), Some(vec![3, 4]));
    assert_eq!(ctx.context.len(), 1);
    assert_eq!(ctx.begin_provide_asset(Asset::TetrioJS), None);
    assert_eq!(ctx.finish_provide_asset(Asset::TetrioJS, None), None);
    assert_eq!(ctx.context.len(), 1);
    assert_eq!(ctx.cached_asset(Asset::TetrioJS), None);
}
