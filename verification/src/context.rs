//! What an import records about where it is and what it found: context entries for
//! logs and errors, flags, log levels and results.
use vstd::prelude::*;

use crate::assets::{Asset, DefaultAssetProvider};
use crate::import_types::{ImportType, SkinType, SpecificImportType, TypeStage1};
use crate::inter_stage::{AnimatedSkinFrame, ImportTask, SoundEffect, TypeStage4};
use crate::packjson::PackMetadata;
use crate::mime::{file_for, guessed_mime};
use crate::tpse::File;

verus! {

/// A list of strings seen as character sequences.
pub open spec fn strings_view(v: Seq<String>) -> Seq<Seq<char>> {
    v.map_values(|s: String| s@)
}

/// One level of the context an import is working in, innermost last.
pub enum ImportContextEntry {
    ImportFile { file: String, as_type: ImportType },
    WithFiles { files: Vec<String> },
    FrameSource { frame: usize, file: String },
    ZipFolder { folder: String },
    WithFilekey { filekey: ImportType },
    WithGuessedType { as_type: ImportType },
    Task { task: ImportTaskContextEntry },
    ProvideAsset { asset: Asset },
    PackJson { pack_json_file: String },
    ExploreFiles,
    PartitionGroups,
    ReduceTypes,
}

/// The import task an import is running, as its context shows it.
pub enum ImportTaskContextEntry {
    AnimatedSkinFrames { skin_type: SkinType, frame_files: Vec<String> },
    SoundEffects { files: Vec<String> },
    Basic { as_type: TypeStage4, file: String },
}

impl From<ImportTaskContextEntry> for ImportContextEntry {
    fn from(task: ImportTaskContextEntry) -> (r: ImportContextEntry) {
        ImportContextEntry::Task { task }
    }
}

impl vstd::std_specs::convert::FromSpecImpl<ImportTaskContextEntry> for ImportContextEntry {
    open spec fn obeys_from_spec() -> bool {
        true
    }

    open spec fn from_spec(task: ImportTaskContextEntry) -> ImportContextEntry {
        ImportContextEntry::Task { task }
    }
}

/// What a context entry names: the task's kind, its skin type or file type, and its files.
pub enum TaskEntryView {
    AnimatedSkinFrames(SkinType, Seq<Seq<char>>),
    SoundEffects(Seq<Seq<char>>),
    Basic(TypeStage4, Seq<char>),
}

impl ImportTaskContextEntry {
    /// The entry seen through what it names.
    pub open spec fn entry_view(self) -> TaskEntryView {
        match self {
            ImportTaskContextEntry::AnimatedSkinFrames { skin_type, frame_files } =>
                TaskEntryView::AnimatedSkinFrames(skin_type, strings_view(frame_files@)),
            ImportTaskContextEntry::SoundEffects { files } => TaskEntryView::SoundEffects(
                strings_view(files@),
            ),
            ImportTaskContextEntry::Basic { as_type, file } => TaskEntryView::Basic(as_type, file@),
        }
    }

    /// What the context entry of a task names: the paths of its files, in their order.
    pub open spec fn spec_from(task: ImportTask) -> TaskEntryView {
        match task {
            ImportTask::AnimatedSkinFrames(skin_type, frames) => TaskEntryView::AnimatedSkinFrames(
                skin_type,
                frames@.map_values(|f: AnimatedSkinFrame| f.path@),
            ),
            ImportTask::SoundEffects(effects) => TaskEntryView::SoundEffects(
                effects@.map_values(|e: SoundEffect| e.path@),
            ),
            ImportTask::Basic { import_type, path, .. } => TaskEntryView::Basic(import_type, path@),
        }
    }

    /// The context entry of a task, naming the paths of its files.
    pub fn from(task: &ImportTask) -> (r: ImportTaskContextEntry)
        ensures
            r.entry_view() == Self::spec_from(*task),
    {
        match task {
            ImportTask::AnimatedSkinFrames(skin_type, frames) => {
                let mut files: Vec<String> = Vec::new();
                let mut i: usize = 0;
                while i < frames.len()
                    invariant
                        i <= frames@.len(),
                        strings_view(files@) =~= frames@.take(i as int).map_values(
                            |f: AnimatedSkinFrame| f.path@,
                        ),
                    decreases frames@.len() - i,
                {
                    let ghost before = files@;
                    files.push(frames[i].path.clone());
                    assert(frames@.take(i + 1) =~= frames@.take(i as int).push(frames@[i as int]));
                    assert(strings_view(files@) =~= strings_view(before).push(frames@[i as int].path@));
                    i = i + 1;
                }
                assert(frames@.take(frames@.len() as int) =~= frames@);
                ImportTaskContextEntry::AnimatedSkinFrames { skin_type: *skin_type, frame_files: files }
            },
            ImportTask::SoundEffects(effects) => {
                let mut files: Vec<String> = Vec::new();
                let mut i: usize = 0;
                while i < effects.len()
                    invariant
                        i <= effects@.len(),
                        strings_view(files@) =~= effects@.take(i as int).map_values(
                            |e: SoundEffect| e.path@,
                        ),
                    decreases effects@.len() - i,
                {
                    let ghost before = files@;
                    files.push(effects[i].path.clone());
                    assert(effects@.take(i + 1) =~= effects@.take(i as int).push(effects@[i as int]));
                    assert(strings_view(files@) =~= strings_view(before).push(effects@[i as int].path@));
                    i = i + 1;
                }
                assert(effects@.take(effects@.len() as int) =~= effects@);
                ImportTaskContextEntry::SoundEffects { files }
            },
            ImportTask::Basic { import_type, path, .. } => {
                ImportTaskContextEntry::Basic { as_type: *import_type, file: path.clone() }
            },
        }
    }
}

/// Which sound effects an import changed.
pub enum ModifiedSoundEffects {
    /// No sound effect was changed.
    Unchanged,
    /// The listed sound effects were changed.
    Listed { modified_sound_effects: Vec<String> },
    /// Every sound effect was changed.
    All,
}

/// Which sound effects were changed, as a view.
pub enum ModifiedView {
    Unchanged,
    Listed(Seq<Seq<char>>),
    All,
}

impl ModifiedSoundEffects {
    /// The changed sound effects, seen as names.
    pub open spec fn modified_view(self) -> ModifiedView {
        match self {
            ModifiedSoundEffects::Unchanged => ModifiedView::Unchanged,
            ModifiedSoundEffects::Listed { modified_sound_effects } => ModifiedView::Listed(
                strings_view(modified_sound_effects@),
            ),
            ModifiedSoundEffects::All => ModifiedView::All,
        }
    }

    /// Records that `sound` was changed; where all sound effects were changed, nothing changes.
    pub fn add(&mut self, sound: String)
        ensures
            final(self).modified_view() == (match old(self).modified_view() {
                ModifiedView::Unchanged => ModifiedView::Listed(seq![sound@]),
                ModifiedView::Listed(names) => ModifiedView::Listed(names.push(sound@)),
                ModifiedView::All => ModifiedView::All,
            }),
    {
        match self {
            ModifiedSoundEffects::Unchanged => {
                let mut names: Vec<String> = Vec::new();
                let ghost s = sound@;
                names.push(sound);
                assert(strings_view(names@) =~= seq![s]);
                *self = ModifiedSoundEffects::Listed { modified_sound_effects: names };
            },
            ModifiedSoundEffects::Listed { modified_sound_effects } => {
                let ghost before = modified_sound_effects@;
                let ghost s = sound@;
                modified_sound_effects.push(sound);
                assert(strings_view(modified_sound_effects@) =~= strings_view(before).push(s));
            },
            ModifiedSoundEffects::All => {},
        }
    }
}

impl Default for ModifiedSoundEffects {
    fn default() -> (r: ModifiedSoundEffects)
        ensures
            r is Unchanged,
    {
        ModifiedSoundEffects::Unchanged
    }
}

/// Flags raised during an import, which supplement its logs.
pub struct ImportFlags {
    pub metadata: Option<PackMetadata>,
    pub modified_sound_effects: ModifiedSoundEffects,
    /// The first type guessed for each file, by its path.
    pub guessed_files: Vec<(String, TypeStage1)>,
}

impl Default for ImportFlags {
    fn default() -> (r: ImportFlags)
        ensures
            r.metadata is None,
            r.modified_sound_effects is Unchanged,
            r.guessed_files@.len() == 0,
    {
        ImportFlags {
            metadata: None,
            modified_sound_effects: ModifiedSoundEffects::Unchanged,
            guessed_files: Vec::new(),
        }
    }
}

/// What an import keeps while it runs: the stack of context it is working in, how deep
/// that stack may grow, the base game assets fetched so far, and the flags raised.
pub struct ImportContext {
    /// The maximum depth the context stack may reach before the import gives up.
    pub depth_limit: usize,
    /// The context the import is working in, outermost first.
    pub context: Vec<ImportContextEntry>,
    /// The base game assets fetched so far.
    pub asset_cache: DefaultAssetProvider,
    pub flags: ImportFlags,
}

/// The depth limit of a new import context.
pub const DEFAULT_DEPTH_LIMIT: usize = 15;

impl ImportContext {
    /// A context with no entries, no assets, no flags and a depth limit of fifteen.
    pub fn new() -> (r: ImportContext)
        ensures
            r.depth_limit == 15,
            r.context@.len() == 0,
            r.asset_cache.view_map() == Map::<Asset, Seq<u8>>::empty(),
            r.flags.metadata is None,
            r.flags.modified_sound_effects is Unchanged,
            r.flags.guessed_files@.len() == 0,
    {
        ImportContext {
            depth_limit: DEFAULT_DEPTH_LIMIT,
            context: Vec::new(),
            asset_cache: DefaultAssetProvider::new(),
            flags: ImportFlags::default(),
        }
    }

    /// The same context with another depth limit.
    pub fn with_depth_limit(self, limit: usize) -> (r: ImportContext)
        ensures
            r == (ImportContext { depth_limit: limit, ..self }),
    {
        ImportContext { depth_limit: limit, ..self }
    }

    /// Whether the context stack is at or beyond its depth limit.
    pub fn is_too_deep(&self) -> (r: bool)
        ensures
            r == (self.context@.len() >= self.depth_limit),
    {
        self.context.len() >= self.depth_limit
    }

    /// Enters a new context, innermost.
    pub fn enter_context(&mut self, entry: ImportContextEntry)
        ensures
            final(self).context@ == old(self).context@.push(entry),
            final(self).depth_limit == old(self).depth_limit,
            final(self).asset_cache == old(self).asset_cache,
            final(self).flags == old(self).flags,
    {
        self.context.push(entry);
    }

    /// Leaves the innermost context and hands it back; `None` where there is none.
    pub fn leave_context(&mut self) -> (r: Option<ImportContextEntry>)
        ensures
            old(self).context@.len() == 0 ==> r is None && final(self).context@ == old(self).context@,
            old(self).context@.len() > 0 ==> r == Some(old(self).context@.last())
                && final(self).context@ == old(self).context@.drop_last(),
            final(self).depth_limit == old(self).depth_limit,
            final(self).asset_cache == old(self).asset_cache,
            final(self).flags == old(self).flags,
    {
        self.context.pop()
    }

    /// The asset fetched before, if it was.
    pub fn cached_asset(&self, asset: Asset) -> (r: Option<Vec<u8>>)
        ensures
            match r {
                Some(v) => self.asset_cache.view_map().contains_key(asset) && v@
                    == self.asset_cache.view_map()[asset],
                None => !self.asset_cache.view_map().contains_key(asset),
            },
    {
        self.asset_cache.provide(asset)
    }

    /// Keeps a fetched asset for later calls.
    pub fn cache_asset(&mut self, asset: Asset, data: Vec<u8>)
        ensures
            final(self).asset_cache.view_map() == old(self).asset_cache.view_map().insert(asset, data@),
            final(self).context == old(self).context,
            final(self).depth_limit == old(self).depth_limit,
            final(self).flags == old(self).flags,
    {
        self.asset_cache.preload(asset, data);
    }

    /// Starts providing a base game asset: one fetched before is handed out at once;
    /// otherwise the import enters the context of providing it, and it is to be fetched
    /// and handed to `finish_provide_asset`.
    pub fn begin_provide_asset(&mut self, asset: Asset) -> (r: Option<Vec<u8>>)
        ensures
            (final(self).context@, match r {
                Some(v) => Some(v@),
                None => None,
            }) == begin_provide(old(self).context@, old(self).asset_cache.view_map(), asset),
            final(self).asset_cache == old(self).asset_cache,
            final(self).depth_limit == old(self).depth_limit,
            final(self).flags == old(self).flags,
    {
        match self.asset_cache.provide(asset) {
            Some(bytes) => Some(bytes),
            None => {
                self.context.push(ImportContextEntry::ProvideAsset { asset });
                None
            },
        }
    }

    /// Finishes providing an asset with what fetching it gave: leaves the context of
    /// providing it, keeps the asset where it was fetched, and hands it out.
    pub fn finish_provide_asset(&mut self, asset: Asset, fetched: Option<Vec<u8>>) -> (r: Option<Vec<u8>>)
        ensures
            (final(self).context@, final(self).asset_cache.view_map()) == finish_provide(
                old(self).context@,
                old(self).asset_cache.view_map(),
                asset,
                match fetched {
                    Some(v) => Some(v@),
                    None => None,
                },
            ),
            match (r, fetched) {
                (Some(v), Some(f)) => v@ == f@,
                (None, None) => true,
                _ => false,
            },
            final(self).depth_limit == old(self).depth_limit,
            final(self).flags == old(self).flags,
    {
        self.context.pop();
        match fetched {
            Some(bytes) => {
                let kept = bytes.clone();
                assert(kept@ =~= bytes@);
                self.asset_cache.preload(asset, kept);
                Some(bytes)
            },
            None => None,
        }
    }
}

/// What starting to provide an asset does to the context stack, and what it hands out:
/// an asset in the cache comes at once, with the stack unchanged; any other is to be
/// fetched, in the context of providing it.
pub open spec fn begin_provide(
    stack: Seq<ImportContextEntry>,
    cache: Map<Asset, Seq<u8>>,
    asset: Asset,
) -> (Seq<ImportContextEntry>, Option<Seq<u8>>) {
    if cache.contains_key(asset) {
        (stack, Some(cache[asset]))
    } else {
        (stack.push(ImportContextEntry::ProvideAsset { asset }), None)
    }
}

/// What finishing to provide an asset does to the context stack and the cache: the
/// innermost context is left, and a fetched asset is kept.
pub open spec fn finish_provide(
    stack: Seq<ImportContextEntry>,
    cache: Map<Asset, Seq<u8>>,
    asset: Asset,
    fetched: Option<Seq<u8>>,
) -> (Seq<ImportContextEntry>, Map<Asset, Seq<u8>>) {
    (if stack.len() > 0 {
        stack.drop_last()
    } else {
        stack
    }, match fetched {
        Some(d) => cache.insert(asset, d),
        None => cache,
    })
}

/// Providing an asset that was not fetched before: the fetch happens in the context of
/// providing that asset, one level below the stack the import was in; afterwards the
/// stack is as it was. A successful fetch is kept, so the next request for the asset is
/// answered from the cache with the same bytes and without fetching; a failed one keeps
/// nothing.
pub proof fn lemma_provide_asset(
    stack: Seq<ImportContextEntry>,
    cache: Map<Asset, Seq<u8>>,
    asset: Asset,
    fetched: Option<Seq<u8>>,
)
    requires
        !cache.contains_key(asset),
    ensures
        begin_provide(stack, cache, asset) == (
            stack.push(ImportContextEntry::ProvideAsset { asset }),
            None::<Seq<u8>>,
        ),
        finish_provide(begin_provide(stack, cache, asset).0, cache, asset, fetched).0 == stack,
        fetched is None ==> finish_provide(begin_provide(stack, cache, asset).0, cache, asset, fetched).1 == cache,
        fetched matches Some(d) ==> {
            let after = finish_provide(begin_provide(stack, cache, asset).0, cache, asset, fetched);
            begin_provide(after.0, after.1, asset) == (stack, Some(d))
        },
{
    assert(stack.push(ImportContextEntry::ProvideAsset { asset }).drop_last() =~= stack);
}

/// Leaving a context after entering one gives back the entry entered and the stack as it
/// was before.
pub proof fn lemma_leave_undoes_enter(stack: Seq<ImportContextEntry>, entry: ImportContextEntry)
    ensures
        stack.push(entry).len() > 0,
        stack.push(entry).last() == entry,
        stack.push(entry).drop_last() == stack,
{
    assert(stack.push(entry).drop_last() =~= stack);
}

/// How important a log message is.
#[derive(Debug, Clone, Copy, PartialEq, Eq, Structural)]
pub enum LogLevel {
    /// Messages describing a direct cause of an import failure
    Error,
    /// Messages describing a significant possible problem that does not make the import fail
    Warn,
    /// Informational messages about the import that a content developer may be interested in
    Info,
    /// Messages that tell only how far along the import is
    Status,
    /// Messages mainly of use when troubleshooting the importer
    Debug,
    /// Messages of use when troubleshooting the importer, at a very high verbosity
    Trace,
}

/// An outlet for the diagnostic and progress messages of an import.
pub trait ImportLogger {
    fn log(&self, level: LogLevel, context: &[ImportContextEntry], msg: &str);
}

/// A file that an import produced, with the name and the type it was imported under.
pub struct ImportResult {
    pub filename: String,
    pub file: File,
    pub specific_import_type: SpecificImportType,
}

impl ImportResult {
    /// The result of importing the bytes of the file `filename` as `specific_import_type`:
    /// the file's mime type is the one its extension gives.
    pub fn new(filename: &str, bytes: Vec<u8>, specific_import_type: SpecificImportType) -> (r: ImportResult)
        ensures
            r.filename@ == filename@,
            r.file.binary@ == bytes@,
            r.file.mime@ == guessed_mime(filename@),
            r.specific_import_type == specific_import_type,
    {
        ImportResult { filename: String::from_str(filename), file: file_for(filename, bytes), specific_import_type }
    }
}

/// Which side of a merge a storage operation worked on.
#[derive(Debug, Clone, Copy, PartialEq, Eq, Structural)]
pub enum StorageSide {
    Base,
    Source,
}

impl StorageSide {
    /// The side's name, as it is shown in error messages.
    pub fn name(&self) -> (r: &'static str)
        ensures
            r@ == (match self {
                StorageSide::Base => "base"@,
                StorageSide::Source => "source"@,
            }),
    {
        match self {
            StorageSide::Base => "base",
            StorageSide::Source => "source",
        }
    }
}

/// Which storage operation failed.
#[derive(Debug, Clone, Copy, PartialEq, Eq, Structural)]
pub enum StorageMethod {
    Get,
    /// Storing a value.
    Put,
}

impl StorageMethod {
    /// The operation's name, as it is shown in error messages.
    pub fn name(&self) -> (r: &'static str)
        ensures
            r@ == (match self {
                StorageMethod::Get => "get"@,
                StorageMethod::Put => "set"@,
            }),
    {
        match self {
            StorageMethod::Get => "get",
            StorageMethod::Put => "set",
        }
    }
}

/// Why rendering a TPSE failed.
pub enum RenderFailure {
    NoSoundEffectsConfiguration,
    NoSoundSoundEffect(String),
}

impl RenderFailure {
    /// The failure's message.
    pub open spec fn spec_describe(self) -> Seq<char> {
        match self {
            RenderFailure::NoSoundEffectsConfiguration => "tpse has no sound effect configuration"@,
            RenderFailure::NoSoundSoundEffect(name) => "tpse has no such sound effect "@ + name@,
        }
    }

    /// The failure's message.
    pub fn describe(&self) -> (r: String)
        ensures
            r@ == self.spec_describe(),
    {
        match self {
            RenderFailure::NoSoundEffectsConfiguration => {
                let mut s = String::new();
                s.append("tpse has no sound effect configuration");
                s
            },
            RenderFailure::NoSoundSoundEffect(name) => {
                let mut s = String::new();
                s.append("tpse has no such sound effect ");
                s.append(name.as_str());
                s
            },
        }
    }
}

} // verus!
