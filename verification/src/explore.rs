//! Exploring the files of an import: deciding each file's type and opening zip
//! archives, whose files are explored in turn.
use vstd::prelude::*;

use crate::execute::{entry_view, group_zip_entries, groups_view, spec_groups};
use crate::decide::{Decision, decide_audio_type, decide_image_type, decide_specific_type, spec_audio_type, spec_decide, spec_image_type};
use crate::guess::AspectRatios;
use crate::import_types::ImportType;
use crate::inter_stage::{ImportFile, TypeStage2};
use crate::path_order::{ComponentView, components_lt, lemma_components_lt_order, path_components, path_less, path_lt};
use crate::paths::{join_path, path_join};
use crate::text::str_equals;

verus! {

/// How many entries the `zip` crate finds in an archive; `None` where it cannot read it.
pub uninterp spec fn zip_entry_count(bytes: Seq<u8>) -> Option<nat>;

/// Whether entry `i` of an archive is a plain file, and its name with special path
/// components removed, as the `zip` crate reads them; `None` where it cannot.
pub uninterp spec fn zip_entry_info(bytes: Seq<u8>, i: nat) -> Option<(bool, Seq<char>)>;

/// The contents of entry `i` of an archive as the `zip` crate reads them; `None` where it cannot.
pub uninterp spec fn zip_entry_data(bytes: Seq<u8>, i: nat) -> Option<Seq<u8>>;

/// The name of entry `i` of an archive as it is written there, as the `zip` crate reads
/// it; `None` where it cannot.
pub uninterp spec fn zip_entry_name(bytes: Seq<u8>, i: nat) -> Option<Seq<char>>;

/// Calls `zip::ZipArchive::new` and `len`; trusted to give `zip_entry_count`.
#[verifier::external_body]
fn zip_count(bytes: &[u8]) -> (r: Option<usize>)
    ensures
        match r {
            Some(n) => zip_entry_count(bytes@) == Some(n as nat),
            None => zip_entry_count(bytes@) is None,
        },
{
    zip::ZipArchive::new(std::io::Cursor::new(bytes)).ok().map(|z| z.len())
}

/// Calls `zip::ZipArchive::by_index` and reads whether the entry is a plain file and
/// its mangled name; trusted to give `zip_entry_info`.
#[verifier::external_body]
fn zip_info(bytes: &[u8], i: usize) -> (r: Option<(bool, String)>)
    ensures
        match r {
            Some((f, name)) => zip_entry_info(bytes@, i as nat) == Some((f, name@)),
            None => zip_entry_info(bytes@, i as nat) is None,
        },
{
    let mut z = zip::ZipArchive::new(std::io::Cursor::new(bytes)).ok()?;
    let e = z.by_index(i).ok()?;
    Some((e.is_file(), e.mangled_name().to_string_lossy().into_owned()))
}

/// Calls `zip::ZipArchive::by_index` and reads the entry to its end; trusted to give
/// `zip_entry_data`.
#[verifier::external_body]
fn zip_data(bytes: &[u8], i: usize) -> (r: Option<Vec<u8>>)
    ensures
        match r {
            Some(d) => zip_entry_data(bytes@, i as nat) == Some(d@),
            None => zip_entry_data(bytes@, i as nat) is None,
        },
{
    let mut z = zip::ZipArchive::new(std::io::Cursor::new(bytes)).ok()?;
    let mut e = z.by_index(i).ok()?;
    let mut data = Vec::new();
    std::io::Read::read_to_end(&mut e, &mut data).ok()?;
    Some(data)
}

/// Calls `zip::ZipArchive::by_index` and reads the entry's name as the archive writes it;
/// trusted to give `zip_entry_name`.
#[verifier::external_body]
fn zip_name(bytes: &[u8], i: usize) -> (r: Option<String>)
    ensures
        match r {
            Some(name) => zip_entry_name(bytes@, i as nat) == Some(name@),
            None => zip_entry_name(bytes@, i as nat) is None,
        },
{
    let mut z = zip::ZipArchive::new(std::io::Cursor::new(bytes)).ok()?;
    let e = z.by_index(i).ok()?;
    Some(e.name().to_string())
}

/// The plain files among the first `k` entries of the archive `bytes`, each with its
/// name as the archive writes it and its contents; `None` where an entry cannot be read.
pub open spec fn zip_named_files(bytes: Seq<u8>, k: nat) -> Option<Seq<(Seq<char>, Seq<u8>)>>
    decreases k,
{
    if k == 0 {
        Some(seq![])
    } else {
        match zip_named_files(bytes, (k - 1) as nat) {
            None => None,
            Some(prev) => match zip_entry_info(bytes, (k - 1) as nat) {
                None => None,
                Some((is_file, _)) => if !is_file {
                    Some(prev)
                } else {
                    match (zip_entry_name(bytes, (k - 1) as nat), zip_entry_data(bytes, (k - 1) as nat)) {
                        (Some(name), Some(data)) => Some(prev.push((name, data))),
                        _ => None,
                    }
                },
            },
        }
    }
}

/// The plain files of the archive `bytes` by their names in it; `None` where it cannot be read.
pub open spec fn archive_named_files(bytes: Seq<u8>) -> Option<Seq<(Seq<char>, Seq<u8>)>> {
    match zip_entry_count(bytes) {
        None => None,
        Some(n) => zip_named_files(bytes, n),
    }
}

proof fn lemma_zip_named_files_none(bytes: Seq<u8>, k1: nat, k2: nat)
    requires
        k1 <= k2,
        zip_named_files(bytes, k1) is None,
    ensures
        zip_named_files(bytes, k2) is None,
    decreases k2 - k1,
{
    if k1 < k2 {
        lemma_zip_named_files_none(bytes, k1, (k2 - 1) as nat);
    }
}

/// Reads the plain files of an archive, by their names in it, and groups them by the
/// folder they are in, folders in the order they first occur; `None` where the archive
/// or one of its files cannot be read.
pub fn zip_folders(bytes: &Vec<u8>) -> (r: Option<Vec<(String, Vec<(String, Vec<u8>)>)>>)
    ensures
        match archive_named_files(bytes@) {
            Some(es) => r matches Some(g) && groups_view(g@) == spec_groups(es, es.len() as int),
            None => r is None,
        },
{
    let n = match zip_count(bytes.as_slice()) {
        Some(n) => n,
        None => {
            return None;
        },
    };
    let mut out: Vec<(String, Vec<u8>)> = Vec::new();
    let mut i: usize = 0;
    while i < n
        invariant
            i <= n,
            zip_entry_count(bytes@) == Some(n as nat),
            zip_named_files(bytes@, i as nat) == Some(out@.map_values(|e: (String, Vec<u8>)| entry_view(e))),
        decreases n - i,
    {
        let ghost before = out@;
        match zip_info(bytes.as_slice(), i) {
            None => {
                proof {
                    lemma_zip_named_files_none(bytes@, (i + 1) as nat, n as nat);
                }
                return None;
            },
            Some((is_file, _)) => {
                if is_file {
                    let name = zip_name(bytes.as_slice(), i);
                    let data = zip_data(bytes.as_slice(), i);
                    match (name, data) {
                        (Some(name), Some(data)) => {
                            out.push((name, data));
                            assert(out@.map_values(|e: (String, Vec<u8>)| entry_view(e)) =~= before.map_values(
                                |e: (String, Vec<u8>)| entry_view(e),
                            ).push((zip_entry_name(bytes@, i as nat)->Some_0, zip_entry_data(bytes@, i as nat)->Some_0)));
                        },
                        _ => {
                            proof {
                                lemma_zip_named_files_none(bytes@, (i + 1) as nat, n as nat);
                            }
                            return None;
                        },
                    }
                }
            },
        }
        i = i + 1;
    }
    Some(group_zip_entries(out))
}

/// The plain files among the first `k` entries of the archive `bytes` found at `path`,
/// each with its path under `path` and its contents; `None` where an entry cannot be read.
pub open spec fn zip_files(path: Seq<char>, bytes: Seq<u8>, k: nat) -> Option<Seq<(Seq<char>, Seq<u8>)>>
    decreases k,
{
    if k == 0 {
        Some(seq![])
    } else {
        match zip_files(path, bytes, (k - 1) as nat) {
            None => None,
            Some(prev) => match zip_entry_info(bytes, (k - 1) as nat) {
                None => None,
                Some((is_file, name)) => if !is_file {
                    Some(prev)
                } else {
                    match zip_entry_data(bytes, (k - 1) as nat) {
                        None => None,
                        Some(data) => Some(prev.push((path_join(path, name), data))),
                    }
                },
            },
        }
    }
}

/// The plain files of the archive `bytes` found at `path`; `None` where it cannot be read.
pub open spec fn archive_files(path: Seq<char>, bytes: Seq<u8>) -> Option<Seq<(Seq<char>, Seq<u8>)>> {
    match zip_entry_count(bytes) {
        None => None,
        Some(n) => zip_files(path, bytes, n),
    }
}

proof fn lemma_zip_files_none(path: Seq<char>, bytes: Seq<u8>, k1: nat, k2: nat)
    requires
        k1 <= k2,
        zip_files(path, bytes, k1) is None,
    ensures
        zip_files(path, bytes, k2) is None,
    decreases k2 - k1,
{
    if k1 < k2 {
        lemma_zip_files_none(path, bytes, k1, (k2 - 1) as nat);
    }
}

proof fn lemma_explore_stops(
    q: Seq<(ImportType, Seq<char>, Seq<u8>)>,
    facts: ExploreFacts,
    depth: int,
    limit: int,
    k1: int,
    k2: int,
)
    requires
        0 <= k1 <= k2,
        !(explore_queue(q, k1, facts, depth, limit) is Files),
    ensures
        explore_queue(q, k2, facts, depth, limit) == explore_queue(q, k1, facts, depth, limit),
    decreases k2 - k1,
{
    if k1 < k2 {
        lemma_explore_stops(q, facts, depth, limit, k1, k2 - 1);
    }
}

/// Reads the plain files of the archive `bytes` found at `path`.
fn read_archive(path: &str, bytes: &Vec<u8>) -> (r: Option<Vec<ImportFile<ImportType>>>)
    ensures
        match r {
            Some(v) => archive_files(path@, bytes@) == Some(
                v@.map_values(|f: ImportFile<ImportType>| (f.path@, f.binary@)),
            ) && forall|k: int| 0 <= k < v.len() ==> (#[trigger] v@[k]).import_type == ImportType::Automatic,
            None => archive_files(path@, bytes@) is None,
        },
{
    let n = match zip_count(bytes.as_slice()) {
        Some(n) => n,
        None => {
            return None;
        },
    };
    let mut out: Vec<ImportFile<ImportType>> = Vec::new();
    let mut i: usize = 0;
    while i < n
        invariant
            i <= n,
            zip_entry_count(bytes@) == Some(n as nat),
            zip_files(path@, bytes@, i as nat) == Some(
                out@.map_values(|f: ImportFile<ImportType>| (f.path@, f.binary@)),
            ),
            forall|k: int| 0 <= k < out.len() ==> (#[trigger] out@[k]).import_type == ImportType::Automatic,
        decreases n - i,
    {
        let ghost before = out@;
        match zip_info(bytes.as_slice(), i) {
            None => {
                proof {
                    lemma_zip_files_none(path@, bytes@, (i + 1) as nat, n as nat);
                }
                return None;
            },
            Some((is_file, name)) => {
                if is_file {
                    match zip_data(bytes.as_slice(), i) {
                        None => {
                            proof {
                                lemma_zip_files_none(path@, bytes@, (i + 1) as nat, n as nat);
                            }
                            return None;
                        },
                        Some(data) => {
                            let p = join_path(path, name.as_str());
                            out.push(ImportFile { path: p, binary: data, import_type: ImportType::Automatic });
                            assert(out@.map_values(|f: ImportFile<ImportType>| (f.path@, f.binary@)) =~= before.map_values(
                                |f: ImportFile<ImportType>| (f.path@, f.binary@),
                            ).push((path_join(path@, name@), zip_entry_data(bytes@, i as nat)->Some_0)));
                        },
                    }
                }
            },
        }
        i = i + 1;
    }
    Some(out)
}

/// The dimensions and aspect ratios measured for an image.
pub struct ImageFacts {
    pub path: String,
    pub width: u32,
    pub height: u32,
    pub ratios: AspectRatios,
}

/// What the caller has measured so far: image dimensions by path, and the names of the
/// known sound effects once they are known.
pub struct ExploreFacts {
    pub images: Vec<ImageFacts>,
    pub sound_effect_names: Option<Vec<String>>,
}

/// The dimensions measured for the image at `path`: those of the first entry for it.
pub open spec fn image_facts_for(images: Seq<ImageFacts>, path: Seq<char>, n: int) -> Option<(u32, u32, AspectRatios)>
    decreases n,
{
    if n <= 0 {
        None
    } else {
        match image_facts_for(images, path, n - 1) {
            Some(x) => Some(x),
            None => if images[n - 1].path@ == path {
                Some((images[n - 1].width, images[n - 1].height, images[n - 1].ratios))
            } else {
                None
            },
        }
    }
}

/// Whether every measured image fits the texture guesses, which look at twice its size.
pub open spec fn facts_in_range(facts: ExploreFacts) -> bool {
    forall|k: int|
        0 <= k < facts.images.len() ==> (#[trigger] facts.images@[k]).width <= u32::MAX / 2 && facts.images@[k].height
            <= u32::MAX / 2
}

/// The names of the known sound effects, once known.
pub open spec fn names_view(facts: ExploreFacts) -> Option<Seq<Seq<char>>> {
    match facts.sound_effect_names {
        Some(v) => Some(v@.map_values(|s: String| s@)),
        None => None,
    }
}

/// Why files could not be explored.
#[derive(Debug)]
pub enum ExploreError {
    /// Zip archives are nested too deep.
    TooMuchNesting,
    /// The zip archive at this path could not be read.
    InvalidZip { path: String },
}

/// What exploring gives: a file whose type needs a measurement first, an error, or the
/// files with their types.
pub enum ExploreView {
    NeedsImageDimensions(Seq<char>, Seq<u8>),
    NeedsSoundEffectNames,
    TooMuchNesting,
    InvalidZip(Seq<char>),
    Files(Seq<(Seq<char>, Seq<u8>, TypeStage2)>),
}

/// Exploring one file at nesting depth `depth`.
pub open spec fn explore_one(
    item: (ImportType, Seq<char>, Seq<u8>),
    facts: ExploreFacts,
    depth: int,
    limit: int,
) -> ExploreView
    decreases limit - depth, 0int,
{
    let (t, path, bytes) = item;
    match spec_decide(t, path) {
        Decision::Decided(s) => ExploreView::Files(seq![(path, bytes, s)]),
        Decision::NeedsImageDimensions => match image_facts_for(facts.images@, path, facts.images.len() as int) {
            Some((w, h, r)) => ExploreView::Files(seq![(path, bytes, spec_image_type(path, w, h, r))]),
            None => ExploreView::NeedsImageDimensions(path, bytes),
        },
        Decision::NeedsSoundEffectNames => match names_view(facts) {
            Some(names) => ExploreView::Files(seq![(path, bytes, spec_audio_type(path, names))]),
            None => ExploreView::NeedsSoundEffectNames,
        },
        Decision::Zip => match archive_files(path, bytes) {
            None => ExploreView::InvalidZip(path),
            Some(entries) => if depth + 1 >= limit || depth < 0 {
                ExploreView::TooMuchNesting
            } else {
                explore_queue(
                    entries.map_values(|e: (Seq<char>, Seq<u8>)| (ImportType::Automatic, e.0, e.1)),
                    entries.len() as int,
                    facts,
                    depth + 1,
                    limit,
                )
            },
        },
    }
}

/// Exploring the first `k` files of a queue at nesting depth `depth`, in order; the
/// first file that needs a measurement or fails stops it.
pub open spec fn explore_queue(
    q: Seq<(ImportType, Seq<char>, Seq<u8>)>,
    k: int,
    facts: ExploreFacts,
    depth: int,
    limit: int,
) -> ExploreView
    decreases limit - depth, k + 1,
{
    if k <= 0 || depth >= limit || depth < 0 {
        ExploreView::Files(seq![])
    } else {
        match explore_queue(q, k - 1, facts, depth, limit) {
            ExploreView::Files(prev) => match explore_one(q[k - 1], facts, depth, limit) {
                ExploreView::Files(more) => ExploreView::Files(prev + more),
                other => other,
            },
            other => other,
        }
    }
}

/// A queue of files seen as import types, paths and contents.
pub open spec fn queue_view(q: Seq<ImportFile<ImportType>>) -> Seq<(ImportType, Seq<char>, Seq<u8>)> {
    q.map_values(|f: ImportFile<ImportType>| (f.import_type, f.path@, f.binary@))
}

/// Typed files seen as paths, contents and types.
pub open spec fn typed_view(v: Seq<ImportFile<TypeStage2>>) -> Seq<(Seq<char>, Seq<u8>, TypeStage2)> {
    v.map_values(|f: ImportFile<TypeStage2>| (f.path@, f.binary@, f.import_type))
}

/// What exploring a queue gives, before sorting.
pub enum ExploreStep {
    /// The image at this path needs its dimensions measured.
    NeedsImageDimensions { path: String, binary: Vec<u8> },
    /// An audio file needs the names of the known sound effects.
    NeedsSoundEffectNames,
    Failed(ExploreError),
    Files(Vec<ImportFile<TypeStage2>>),
}

/// Whether an exploration step is what exploring gives.
pub open spec fn step_matches(s: ExploreStep, v: ExploreView) -> bool {
    match v {
        ExploreView::NeedsImageDimensions(p, b) => s matches ExploreStep::NeedsImageDimensions { path, binary } && path@ == p && binary@ == b,
        ExploreView::NeedsSoundEffectNames => s is NeedsSoundEffectNames,
        ExploreView::TooMuchNesting => s matches ExploreStep::Failed(ExploreError::TooMuchNesting),
        ExploreView::InvalidZip(p) => s matches ExploreStep::Failed(ExploreError::InvalidZip { path }) && path@ == p,
        ExploreView::Files(fs) => s matches ExploreStep::Files(v) && typed_view(v@) == fs,
    }
}

fn find_image_facts(facts: &ExploreFacts, path: &str) -> (r: Option<(u32, u32, AspectRatios)>)
    ensures
        r == image_facts_for(facts.images@, path@, facts.images.len() as int),
{
    let mut i: usize = 0;
    while i < facts.images.len()
        invariant
            i <= facts.images.len(),
            image_facts_for(facts.images@, path@, i as int) is None,
        decreases facts.images.len() - i,
    {
        let f = &facts.images[i];
        if str_equals(f.path.as_str(), path) {
            proof {
                lemma_image_facts_found(facts.images@, path@, i as int + 1, facts.images.len() as int);
            }
            return Some((f.width, f.height, f.ratios));
        }
        i = i + 1;
    }
    None
}

proof fn lemma_image_facts_found(images: Seq<ImageFacts>, path: Seq<char>, m1: int, m2: int)
    requires
        0 <= m1 <= m2,
        image_facts_for(images, path, m1) is Some,
    ensures
        image_facts_for(images, path, m2) == image_facts_for(images, path, m1),
    decreases m2 - m1,
{
    if m1 < m2 {
        lemma_image_facts_found(images, path, m1, m2 - 1);
    }
}

proof fn lemma_image_facts_in(images: Seq<ImageFacts>, path: Seq<char>, n: int)
    requires
        0 <= n <= images.len(),
    ensures
        image_facts_for(images, path, n) matches Some((w, h, r)) ==> exists|k: int|
            0 <= k < n && (#[trigger] images[k]).width == w && images[k].height == h,
    decreases n,
{
    if n > 0 {
        lemma_image_facts_in(images, path, n - 1);
    }
}

/// Explores one file at nesting depth `depth`.
fn explore_one_exec(file: ImportFile<ImportType>, facts: &ExploreFacts, depth: usize, limit: usize) -> (r: ExploreStep)
    requires
        facts_in_range(*facts),
        depth < limit,
    ensures
        step_matches(r, explore_one((file.import_type, file.path@, file.binary@), *facts, depth as int, limit as int)),
    decreases limit - depth, 0int,
{
    let ImportFile { path, binary, import_type } = file;
    match decide_specific_type(import_type, path.as_str()) {
        Decision::Decided(s) => {
            let mut out: Vec<ImportFile<TypeStage2>> = Vec::new();
            out.push(ImportFile { path, binary, import_type: s });
            assert(typed_view(out@) =~= seq![(out@[0].path@, out@[0].binary@, s)]);
            ExploreStep::Files(out)
        },
        Decision::NeedsImageDimensions => {
            match find_image_facts(facts, path.as_str()) {
                Some((w, h, r)) => {
                    proof {
                        lemma_image_facts_in(facts.images@, path@, facts.images.len() as int);
                    }
                    let s = decide_image_type(path.as_str(), w, h, r);
                    let mut out: Vec<ImportFile<TypeStage2>> = Vec::new();
                    out.push(ImportFile { path, binary, import_type: s });
                    assert(typed_view(out@) =~= seq![(out@[0].path@, out@[0].binary@, s)]);
                    ExploreStep::Files(out)
                },
                None => ExploreStep::NeedsImageDimensions { path, binary },
            }
        },
        Decision::NeedsSoundEffectNames => {
            match &facts.sound_effect_names {
                Some(names) => {
                    let s = audio_type_from_names(path.as_str(), names);
                    let mut out: Vec<ImportFile<TypeStage2>> = Vec::new();
                    out.push(ImportFile { path, binary, import_type: s });
                    assert(typed_view(out@) =~= seq![(out@[0].path@, out@[0].binary@, s)]);
                    ExploreStep::Files(out)
                },
                None => ExploreStep::NeedsSoundEffectNames,
            }
        },
        Decision::Zip => {
            match read_archive(path.as_str(), &binary) {
                None => ExploreStep::Failed(ExploreError::InvalidZip { path }),
                Some(entries) => {
                    if depth + 1 >= limit {
                        ExploreStep::Failed(ExploreError::TooMuchNesting)
                    } else {
                        proof {
                            let ev = entries@.map_values(|f: ImportFile<ImportType>| (f.path@, f.binary@));
                            assert(queue_view(entries@) =~= ev.map_values(
                                |e: (Seq<char>, Seq<u8>)| (ImportType::Automatic, e.0, e.1),
                            ));
                        }
                        explore_queue_exec(entries, facts, depth + 1, limit)
                    }
                },
            }
        },
    }
}

/// The type of an audio file given the names of the known sound effects.
fn audio_type_from_names(path: &str, names: &Vec<String>) -> (r: TypeStage2)
    ensures
        r == spec_audio_type(path@, names@.map_values(|s: String| s@)),
{
    let ghost nv = names@.map_values(|s: String| s@);
    match crate::paths::file_stem_of(path) {
        Some(stem) => {
            let mut i: usize = 0;
            while i < names.len()
                invariant
                    crate::paths::path_file_stem(path@) == Some(stem@),
                    nv == names@.map_values(|s: String| s@),
                    i <= names.len(),
                    forall|k: int| 0 <= k < i ==> names@[k]@ != stem@,
                decreases names.len() - i,
            {
                if str_equals(names[i].as_str(), stem.as_str()) {
                    assert(nv[i as int] == stem@);
                    assert(nv.contains(stem@));
                    return TypeStage2::SoundEffects;
                }
                i = i + 1;
            }
            proof {
                if nv.contains(stem@) {
                    let k = choose|k: int| 0 <= k < nv.len() && nv[k] == stem@;
                    assert(names@[k]@ == stem@);
                }
            }
            TypeStage2::WeakAudio
        },
        None => TypeStage2::WeakAudio,
    }
}

/// Explores a queue of files at nesting depth `depth`, in order.
fn explore_queue_exec(queue: Vec<ImportFile<ImportType>>, facts: &ExploreFacts, depth: usize, limit: usize) -> (r:
    ExploreStep)
    requires
        facts_in_range(*facts),
        depth < limit,
    ensures
        step_matches(r, explore_queue(queue_view(queue@), queue.len() as int, *facts, depth as int, limit as int)),
    decreases limit - depth, queue.len() + 1,
{
    let ghost qv = queue_view(queue@);
    let n = queue.len();
    let ghost orig = queue@;
    let mut rest = queue;
    let mut out: Vec<ImportFile<TypeStage2>> = Vec::new();
    assert(typed_view(out@) =~= Seq::<(Seq<char>, Seq<u8>, TypeStage2)>::empty());
    let mut i: usize = 0;
    while i < n
        invariant
            facts_in_range(*facts),
            depth < limit,
            n == orig.len(),
            qv == queue_view(orig),
            orig == queue@,
            i <= n,
            rest@ == orig.subrange(i as int, n as int),
            explore_queue(qv, i as int, *facts, depth as int, limit as int) == ExploreView::Files(typed_view(out@)),
        decreases n - i,
    {
        assert(rest@[0] == orig[i as int]);
        let file = rest.remove(0);
        assert(rest@ =~= orig.subrange(i as int + 1, n as int));
        assert(qv[i as int] == (file.import_type, file.path@, file.binary@));
        let ghost one = explore_one(qv[i as int], *facts, depth as int, limit as int);
        let step = explore_one_exec(file, facts, depth, limit);
        assert(step_matches(step, one));
        match step {
            ExploreStep::Files(more) => {
                let ghost before = typed_view(out@);
                let ghost mv = typed_view(more@);
                let mut more = more;
                out.append(&mut more);
                assert(typed_view(out@) =~= before + mv);
            },
            other => {
                proof {
                    assert(!(one is Files));
                    assert(explore_queue(qv, i as int + 1, *facts, depth as int, limit as int) == one);
                    lemma_explore_stops(qv, *facts, depth as int, limit as int, i as int + 1, n as int);
                }
                return other;
            },
        }
        i = i + 1;
    }
    ExploreStep::Files(out)
}

/// Whether typed files are in order of their paths.
pub open spec fn sorted_by_path(fs: Seq<(Seq<char>, Seq<u8>, TypeStage2)>) -> bool {
    forall|i: int, j: int| 0 <= i < j < fs.len() ==> !path_lt(#[trigger] fs[j].0, #[trigger] fs[i].0)
}

/// The typed files among `fs` whose paths have the components `k`, in order.
pub open spec fn with_components(
    fs: Seq<(Seq<char>, Seq<u8>, TypeStage2)>,
    k: Seq<ComponentView>,
) -> Seq<(Seq<char>, Seq<u8>, TypeStage2)> {
    fs.filter(|f: (Seq<char>, Seq<u8>, TypeStage2)| path_components(f.0) == k)
}

proof fn lemma_with_components_push(
    fs: Seq<(Seq<char>, Seq<u8>, TypeStage2)>,
    x: (Seq<char>, Seq<u8>, TypeStage2),
    k: Seq<ComponentView>,
)
    ensures
        with_components(fs.push(x), k) == if path_components(x.0) == k {
            with_components(fs, k).push(x)
        } else {
            with_components(fs, k)
        },
{
    reveal(Seq::filter);
    assert(fs.push(x).drop_last() =~= fs);
}

proof fn lemma_with_components_none(fs: Seq<(Seq<char>, Seq<u8>, TypeStage2)>, k: Seq<ComponentView>)
    requires
        forall|m: int| 0 <= m < fs.len() ==> path_components(#[trigger] fs[m].0) != k,
    ensures
        with_components(fs, k) == Seq::<(Seq<char>, Seq<u8>, TypeStage2)>::empty(),
    decreases fs.len(),
{
    reveal(Seq::filter);
    if fs.len() > 0 {
        assert(path_components(fs[fs.len() - 1].0) != k);
        lemma_with_components_none(fs.drop_last(), k);
    }
}

proof fn lemma_with_components_insert(
    fs: Seq<(Seq<char>, Seq<u8>, TypeStage2)>,
    p: int,
    x: (Seq<char>, Seq<u8>, TypeStage2),
    k: Seq<ComponentView>,
)
    requires
        0 <= p <= fs.len(),
        forall|m: int| p <= m < fs.len() ==> path_lt(x.0, #[trigger] fs[m].0),
    ensures
        with_components(fs.insert(p, x), k) == with_components(fs.push(x), k),
{
    let pred = |f: (Seq<char>, Seq<u8>, TypeStage2)| path_components(f.0) == k;
    let head = fs.take(p);
    let tail = fs.skip(p);
    assert(fs =~= head + tail);
    assert(fs.insert(p, x) =~= head.push(x) + tail);
    Seq::filter_distributes_over_add(head.push(x), tail, pred);
    Seq::filter_distributes_over_add(head, tail, pred);
    lemma_with_components_push(head, x, k);
    lemma_with_components_push(fs, x, k);
    if path_components(x.0) == k {
        assert forall|m: int| 0 <= m < tail.len() implies path_components(#[trigger] tail[m].0) != k by {
            assert(tail[m] == fs[p + m]);
            assert(path_lt(x.0, fs[p + m].0));
            lemma_components_lt_order(k, k, k);
        }
        lemma_with_components_none(tail, k);
        assert(with_components(fs.insert(p, x), k) =~= with_components(head, k).push(x));
        assert(with_components(fs, k) =~= with_components(head, k));
    }
}

proof fn lemma_with_components_first(fs: Seq<(Seq<char>, Seq<u8>, TypeStage2)>, k: Seq<ComponentView>)
    requires
        fs.len() > 0,
    ensures
        with_components(fs, k) == (if path_components(fs[0].0) == k {
            seq![fs[0]]
        } else {
            Seq::empty()
        }) + with_components(fs.drop_first(), k),
{
    let pred = |f: (Seq<char>, Seq<u8>, TypeStage2)| path_components(f.0) == k;
    fs.drop_first().lemma_filter_prepend(fs[0], pred);
    assert(seq![fs[0]] + fs.drop_first() =~= fs);
}

/// Where the files of `fs` with the components `k` are not none, one of them has them.
proof fn lemma_with_components_witness(fs: Seq<(Seq<char>, Seq<u8>, TypeStage2)>, k: Seq<ComponentView>)
    requires
        with_components(fs, k).len() > 0,
    ensures
        exists|j: int| 0 <= j < fs.len() && path_components(#[trigger] fs[j].0) == k,
{
    let pred = |f: (Seq<char>, Seq<u8>, TypeStage2)| path_components(f.0) == k;
    let x = with_components(fs, k)[0];
    fs.lemma_filter_pred(pred, 0);
    assert(fs.filter(pred).contains(x));
    fs.lemma_filter_contains_rev(pred, x);
    let j = choose|j: int| 0 <= j < fs.len() && fs[j] == x;
    assert(path_components(fs[j].0) == k);
}

proof fn lemma_sorted_tail(a: Seq<(Seq<char>, Seq<u8>, TypeStage2)>)
    requires
        a.len() > 0,
        sorted_by_path(a),
    ensures
        sorted_by_path(a.drop_first()),
{
    assert forall|i: int, j: int| 0 <= i < j < a.drop_first().len() implies !path_lt(
        #[trigger] a.drop_first()[j].0,
        #[trigger] a.drop_first()[i].0,
    ) by {
        assert(a.drop_first()[j] == a[j + 1] && a.drop_first()[i] == a[i + 1]);
    }
}

proof fn lemma_nonempty_class(c: Seq<(Seq<char>, Seq<u8>, TypeStage2)>)
    requires
        c.len() > 0,
    ensures
        with_components(c, path_components(c[0].0)).len() > 0,
{
    lemma_with_components_first(c, path_components(c[0].0));
}

proof fn lemma_empty_class(k: Seq<ComponentView>)
    ensures
        with_components(Seq::<(Seq<char>, Seq<u8>, TypeStage2)>::empty(), k).len() == 0,
{
    reveal(Seq::filter);
}

proof fn lemma_first_keys_equal(a: Seq<(Seq<char>, Seq<u8>, TypeStage2)>, b: Seq<(Seq<char>, Seq<u8>, TypeStage2)>)
    requires
        a.len() > 0,
        b.len() > 0,
        sorted_by_path(b),
        forall|k: Seq<ComponentView>| #[trigger] with_components(a, k) == with_components(b, k),
    ensures
        !components_lt(path_components(a[0].0), path_components(b[0].0)),
{
    let ka = path_components(a[0].0);
    let kb = path_components(b[0].0);
    if components_lt(ka, kb) {
        lemma_components_lt_order(ka, kb, ka);
        lemma_nonempty_class(a);
        assert(with_components(b, ka).len() > 0);
        lemma_with_components_first(b, ka);
        assert(with_components(b.drop_first(), ka).len() > 0);
        lemma_with_components_witness(b.drop_first(), ka);
        let j = choose|j: int| 0 <= j < b.drop_first().len() && path_components(#[trigger] b.drop_first()[j].0) == ka;
        assert(b.drop_first()[j] == b[j + 1]);
        assert(!path_lt(b[j + 1].0, b[0].0));
    }
}

proof fn lemma_tails_match(a: Seq<(Seq<char>, Seq<u8>, TypeStage2)>, b: Seq<(Seq<char>, Seq<u8>, TypeStage2)>)
    requires
        a.len() > 0,
        b.len() > 0,
        path_components(a[0].0) == path_components(b[0].0),
        forall|k: Seq<ComponentView>| #[trigger] with_components(a, k) == with_components(b, k),
    ensures
        a[0] == b[0],
        forall|k: Seq<ComponentView>| #[trigger] with_components(a.drop_first(), k) == with_components(b.drop_first(), k),
{
    let ka = path_components(a[0].0);
    lemma_with_components_first(a, ka);
    lemma_with_components_first(b, ka);
    assert(with_components(a, ka)[0] == a[0]);
    assert(with_components(b, ka)[0] == b[0]);
    assert forall|k: Seq<ComponentView>| #[trigger] with_components(a.drop_first(), k) == with_components(
        b.drop_first(),
        k,
    ) by {
        lemma_with_components_first(a, k);
        lemma_with_components_first(b, k);
        if k == ka {
            assert(with_components(a.drop_first(), k) =~= with_components(a, k).drop_first());
            assert(with_components(b.drop_first(), k) =~= with_components(b, k).drop_first());
        } else {
            assert(with_components(a.drop_first(), k) =~= with_components(a, k));
            assert(with_components(b.drop_first(), k) =~= with_components(b, k));
        }
    }
}

/// Sorting by path keeping files with the same components in their order has one
/// result: two lists in order of their paths that hold, for all components, the same
/// files with those components in the same order are the same list.
pub proof fn lemma_sorted_unique(a: Seq<(Seq<char>, Seq<u8>, TypeStage2)>, b: Seq<(Seq<char>, Seq<u8>, TypeStage2)>)
    requires
        sorted_by_path(a),
        sorted_by_path(b),
        forall|k: Seq<ComponentView>| #[trigger] with_components(a, k) == with_components(b, k),
    ensures
        a == b,
    decreases a.len() + b.len(),
{
    if a.len() == 0 && b.len() == 0 {
        assert(a =~= b);
    } else if a.len() == 0 {
        lemma_nonempty_class(b);
        lemma_empty_class(path_components(b[0].0));
        assert(a =~= Seq::<(Seq<char>, Seq<u8>, TypeStage2)>::empty());
        assert(with_components(a, path_components(b[0].0)) == with_components(b, path_components(b[0].0)));
    } else if b.len() == 0 {
        lemma_nonempty_class(a);
        lemma_empty_class(path_components(a[0].0));
        assert(b =~= Seq::<(Seq<char>, Seq<u8>, TypeStage2)>::empty());
        assert(with_components(a, path_components(a[0].0)) == with_components(b, path_components(a[0].0)));
    } else {
        let ka = path_components(a[0].0);
        let kb = path_components(b[0].0);
        lemma_first_keys_equal(a, b);
        lemma_first_keys_equal(b, a);
        lemma_components_lt_order(ka, kb, ka);
        lemma_tails_match(a, b);
        lemma_sorted_tail(a);
        lemma_sorted_tail(b);
        lemma_sorted_unique(a.drop_first(), b.drop_first());
        assert(a =~= seq![a[0]] + a.drop_first());
        assert(b =~= seq![b[0]] + b.drop_first());
    }
}

/// Sorts typed files by path.
fn sort_by_path(files: Vec<ImportFile<TypeStage2>>) -> (r: Vec<ImportFile<TypeStage2>>)
    ensures
        sorted_by_path(typed_view(r@)),
        typed_view(r@).to_multiset() == typed_view(files@).to_multiset(),
        forall|k: Seq<ComponentView>| #[trigger] with_components(typed_view(r@), k) == with_components(
            typed_view(files@),
            k,
        ),
{
    broadcast use vstd::seq_lib::to_multiset_build, vstd::seq_lib::to_multiset_insert;

    let ghost orig = files@;
    let ghost ov = typed_view(orig);
    let n = files.len();
    let mut rest = files;
    let mut out: Vec<ImportFile<TypeStage2>> = Vec::new();
    assert(typed_view(out@) =~= ov.take(0));
    let mut i: usize = 0;
    while i < n
        invariant
            n == orig.len(),
            ov == typed_view(orig),
            i <= n,
            rest@ == orig.subrange(i as int, n as int),
            sorted_by_path(typed_view(out@)),
            typed_view(out@).to_multiset() == ov.take(i as int).to_multiset(),
            forall|k: Seq<ComponentView>| #[trigger] with_components(typed_view(out@), k) == with_components(
                ov.take(i as int),
                k,
            ),
        decreases n - i,
    {
        assert(rest@[0] == orig[i as int]);
        let item = rest.remove(0);
        assert(rest@ =~= orig.subrange(i as int + 1, n as int));
        let ghost iv = (item.path@, item.binary@, item.import_type);
        assert(ov[i as int] == iv);
        let ghost ovw = typed_view(out@);
        let mut p: usize = out.len();
        while p > 0 && path_less(item.path.as_str(), out[p - 1].path.as_str())
            invariant
                p <= out.len(),
                ovw == typed_view(out@),
                iv == (item.path@, item.binary@, item.import_type),
                forall|k: int| p <= k < out.len() ==> path_lt(iv.0, #[trigger] ovw[k].0),
            decreases p,
        {
            p = p - 1;
        }
        proof {
            if p > 0 {
                assert(!path_lt(iv.0, ovw[p - 1].0));
            }
        }
        out.insert(p, item);
        let ghost nv = typed_view(out@);
        assert(nv =~= ovw.insert(p as int, iv));
        proof {
            assert forall|a: int, b: int| 0 <= a < b < nv.len() implies !path_lt(#[trigger] nv[b].0, #[trigger] nv[a].0) by {
                if a < p && b < p {
                    assert(nv[a] == ovw[a] && nv[b] == ovw[b]);
                } else if a < p && b == p {
                    let ki = path_components(iv.0);
                    let kp = path_components(ovw[p - 1].0);
                    let ka = path_components(ovw[a].0);
                    assert(nv[a] == ovw[a]);
                    assert(!path_lt(iv.0, ovw[p - 1].0));
                    if a < p - 1 {
                        assert(!path_lt(ovw[p - 1].0, ovw[a].0));
                    }
                    lemma_components_lt_order(kp, ki, ka);
                    lemma_components_lt_order(ka, ka, ka);
                } else if a < p && b > p {
                    assert(nv[a] == ovw[a] && nv[b] == ovw[b - 1]);
                } else if a == p {
                    assert(nv[a] == iv && nv[b] == ovw[b - 1]);
                    assert(path_lt(iv.0, ovw[b - 1].0));
                    lemma_components_lt_order(path_components(iv.0), path_components(ovw[b - 1].0), path_components(iv.0));
                } else {
                    assert(nv[a] == ovw[a - 1] && nv[b] == ovw[b - 1]);
                }
            }
            assert(ov.take(i as int + 1) =~= ov.take(i as int).push(iv));
            assert forall|k: Seq<ComponentView>| #[trigger] with_components(nv, k) == with_components(
                ov.take(i as int + 1),
                k,
            ) by {
                lemma_with_components_insert(ovw, p as int, iv, k);
                lemma_with_components_push(ovw, iv, k);
                lemma_with_components_push(ov.take(i as int), iv, k);
            }
            vstd::seq_lib::to_multiset_insert(ovw, p as int, iv);
            vstd::seq_lib::to_multiset_build(ov.take(i as int), iv);
            assert(nv.to_multiset() == ovw.to_multiset().insert(iv));
            assert(ov.take(i as int + 1).to_multiset() == ov.take(i as int).to_multiset().insert(iv));
        }
        i = i + 1;
    }
    assert(ov.take(n as int) =~= ov);
    out
}

/// Explores a queue of files at nesting depth `depth`: decides each file's type and
/// explores the files of each zip archive one level deeper, then sorts the files by
/// path, keeping files whose paths have the same components in the order found. At depth `depth_limit` or deeper, zip archives are nested too deep. Where a
/// file needs a measurement, the caller makes it, adds it to `facts` and explores again.
pub fn explore_files(queue: Vec<ImportFile<ImportType>>, facts: &ExploreFacts, depth: usize, depth_limit: usize) -> (r:
    ExploreStep)
    requires
        facts_in_range(*facts),
    ensures
        depth >= depth_limit ==> r matches ExploreStep::Failed(ExploreError::TooMuchNesting),
        depth < depth_limit ==> match explore_queue(
            queue_view(queue@),
            queue.len() as int,
            *facts,
            depth as int,
            depth_limit as int,
        ) {
            ExploreView::Files(fs) => r matches ExploreStep::Files(v) && sorted_by_path(typed_view(v@))
                && typed_view(v@).to_multiset() == fs.to_multiset() && forall|k: Seq<ComponentView>|
                #[trigger] with_components(typed_view(v@), k) == with_components(fs, k),
            other => step_matches(r, other),
        },
{
    if depth >= depth_limit {
        return ExploreStep::Failed(ExploreError::TooMuchNesting);
    }
    match explore_queue_exec(queue, facts, depth, depth_limit) {
        ExploreStep::Files(files) => ExploreStep::Files(sort_by_path(files)),
        other => other,
    }
}

} // verus!
