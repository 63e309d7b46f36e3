//! Partitions the files of a content pack into decision trees: each pack.json file
//! offers its import sets as choices over the files in its directory, and pack.json
//! files in subdirectories hang below the options that include them.
use vstd::prelude::*;

use crate::glob::{CompiledGlob, compile_glob, glob_is_match, glob_match, glob_valid};
use crate::inter_stage::{ImportFile, TypeStage2};
use crate::packjson::{ImportGroup, ImportSet, ImportSetOption, PackJson};
use crate::text::str_equals;
use crate::paths::{
    parent_of, path_eq, path_parent, path_starts_with, path_strip_prefix, paths_equal,
    starts_with_path, strip_prefix_of,
};

verus! {

/// Whether file `i` is a pack.json file.
pub open spec fn is_pack_file(fs: Seq<ImportFile<TypeStage2>>, i: int) -> bool {
    0 <= i < fs.len() && fs[i].import_type is PackJson
}

/// The parsed contents given for file `i`, if any.
pub open spec fn pack_at(packs: Seq<Option<PackJson>>, i: int) -> Option<PackJson> {
    if 0 <= i < packs.len() {
        packs[i]
    } else {
        None
    }
}

/// Whether every pattern of a group is a valid glob.
pub open spec fn group_patterns_valid(g: ImportGroup) -> bool {
    forall|k: int| 0 <= k < g.patterns.len() ==> glob_valid(#[trigger] g.patterns@[k].pattern@)
}

/// Whether every pattern of every group of a pack.json is a valid glob.
pub open spec fn patterns_valid(p: PackJson) -> bool {
    forall|g: int| 0 <= g < p.import_groups.len() ==> group_patterns_valid(#[trigger] p.import_groups@[g])
}

/// Whether pack.json file `i` was parsed, has valid patterns and has a parent directory.
pub open spec fn pack_usable(fs: Seq<ImportFile<TypeStage2>>, packs: Seq<Option<PackJson>>, i: int) -> bool {
    &&& pack_at(packs, i) matches Some(p)
    &&& patterns_valid(p)
    &&& path_parent(fs[i].path@) is Some
}

/// The positions of the pack.json files among the first `n` files, in order.
pub open spec fn roots_of(fs: Seq<ImportFile<TypeStage2>>, n: int) -> Seq<int>
    decreases n,
{
    if n <= 0 {
        seq![]
    } else if is_pack_file(fs, n - 1) {
        roots_of(fs, n - 1).push(n - 1)
    } else {
        roots_of(fs, n - 1)
    }
}

/// The directory of the pack.json file at position `f`.
pub open spec fn pack_dir(fs: Seq<ImportFile<TypeStage2>>, f: int) -> Seq<char> {
    path_parent(fs[f].path@)->Some_0
}

/// Why the files could not be partitioned.
#[derive(Debug)]
pub enum PartitionError {
    /// The pack.json file at this position could not be parsed, has an invalid
    /// pattern, or lies in no directory.
    InvalidPackJson { file: usize },
}

/// Why the files could not be partitioned, where a nested pack.json may also hang below
/// two options.
enum PartitionFault {
    InvalidPackJson { file: usize },
    NestedPackReachedTwice { file: usize },
}

/// The compiled globs of the groups of a pack, by group and pattern.
pub open spec fn globs_compiled(p: PackJson, gs: Seq<Vec<CompiledGlob>>) -> bool {
    &&& gs.len() == p.import_groups.len()
    &&& forall|g: int|
        0 <= g < gs.len() ==> #[trigger] gs[g].len() == p.import_groups@[g].patterns.len()
    &&& forall|g: int, k: int|
        0 <= g < gs.len() && 0 <= k < gs[g].len() ==> (#[trigger] gs[g]@[k]).source()
            == p.import_groups@[g].patterns@[k].pattern@
}

fn compile_group_globs(p: &PackJson) -> (r: Option<Vec<Vec<CompiledGlob>>>)
    ensures
        r is Some <==> patterns_valid(*p),
        r matches Some(gs) ==> globs_compiled(*p, gs@),
{
    let mut out: Vec<Vec<CompiledGlob>> = Vec::new();
    let mut g: usize = 0;
    while g < p.import_groups.len()
        invariant
            g <= p.import_groups.len(),
            out.len() == g,
            forall|g2: int|
                0 <= g2 < g ==> #[trigger] out@[g2].len() == p.import_groups@[g2].patterns.len(),
            forall|g2: int, k: int|
                0 <= g2 < g && 0 <= k < out@[g2].len() ==> (#[trigger] out@[g2]@[k]).source()
                    == p.import_groups@[g2].patterns@[k].pattern@,
            forall|g2: int| 0 <= g2 < g ==> group_patterns_valid(#[trigger] p.import_groups@[g2]),
        decreases p.import_groups.len() - g,
    {
        let group = &p.import_groups[g];
        let mut row: Vec<CompiledGlob> = Vec::new();
        let mut k: usize = 0;
        while k < group.patterns.len()
            invariant
                k <= group.patterns.len(),
                row.len() == k,
                forall|k2: int| 0 <= k2 < k ==> (#[trigger] row@[k2]).source() == group.patterns@[k2].pattern@,
                forall|k2: int| 0 <= k2 < k ==> glob_valid(#[trigger] group.patterns@[k2].pattern@),
                g < p.import_groups.len(),
                *group == p.import_groups@[g as int],
            decreases group.patterns.len() - k,
        {
            match compile_glob(group.patterns[k].pattern.as_str()) {
                Some(c) => {
                    row.push(c);
                },
                None => {
                    assert(!group_patterns_valid(p.import_groups@[g as int]));
                    return None;
                },
            }
            k = k + 1;
        }
        assert(group_patterns_valid(p.import_groups@[g as int]));
        out.push(row);
        g = g + 1;
    }
    Some(out)
}

/// The pack.json files in order, with their directories, parsed contents and
/// compiled globs.
struct Roots {
    files: Vec<usize>,
    dirs: Vec<String>,
    globs: Vec<Vec<Vec<CompiledGlob>>>,
}

/// Whether `r` holds, in order, the pack.json files among `fs`, with their directories
/// and the compiled globs of their contents.
spec fn roots_collected(fs: Seq<ImportFile<TypeStage2>>, packs: Seq<Option<PackJson>>, r: Roots) -> bool {
    &&& r.files@.map_values(|f: usize| f as int) == roots_of(fs, fs.len() as int)
    &&& r.dirs.len() == r.files.len()
    &&& r.globs.len() == r.files.len()
    &&& forall|k: int| 0 <= k < r.files.len() ==> pack_usable(fs, packs, #[trigger] r.files@[k] as int)
    &&& forall|k: int| 0 <= k < r.files.len() ==> #[trigger] r.dirs@[k]@ == pack_dir(fs, r.files@[k] as int)
    &&& forall|k: int|
        0 <= k < r.files.len() ==> globs_compiled(
            pack_at(packs, r.files@[k] as int)->Some_0,
            #[trigger] r.globs@[k]@,
        )
}

/// Collects the pack.json files, or names the first that cannot be used.
fn collect_roots(fs: &Vec<ImportFile<TypeStage2>>, packs: &Vec<Option<PackJson>>) -> (r: Result<Roots, usize>)
    ensures
        r matches Ok(roots) ==> roots_collected(fs@, packs@, roots),
        r matches Err(i) ==> 0 <= i < fs.len() && is_pack_file(fs@, i as int) && !pack_usable(
            fs@,
            packs@,
            i as int,
        ) && forall|j: int| 0 <= j < i && is_pack_file(fs@, j) ==> pack_usable(fs@, packs@, j),
        r is Ok <==> forall|j: int| 0 <= j < fs.len() && is_pack_file(fs@, j) ==> pack_usable(fs@, packs@, j),
{
    let mut roots = Roots { files: Vec::new(), dirs: Vec::new(), globs: Vec::new() };
    let mut i: usize = 0;
    while i < fs.len()
        invariant
            i <= fs.len(),
            roots.files@.map_values(|f: usize| f as int) == roots_of(fs@, i as int),
            roots.dirs.len() == roots.files.len(),
            roots.globs.len() == roots.files.len(),
            forall|k: int| 0 <= k < roots.files.len() ==> #[trigger] roots.files@[k] < i,
            forall|k: int| 0 <= k < roots.files.len() ==> pack_usable(fs@, packs@, #[trigger] roots.files@[k] as int),
            forall|k: int|
                0 <= k < roots.files.len() ==> #[trigger] roots.dirs@[k]@ == pack_dir(fs@, roots.files@[k] as int),
            forall|k: int|
                0 <= k < roots.files.len() ==> globs_compiled(
                    pack_at(packs@, roots.files@[k] as int)->Some_0,
                    #[trigger] roots.globs@[k]@,
                ),
            forall|j: int| 0 <= j < i && is_pack_file(fs@, j) ==> pack_usable(fs@, packs@, j),
        decreases fs.len() - i,
    {
        if matches!(fs[i].import_type, TypeStage2::PackJson) {
            assert(is_pack_file(fs@, i as int));
            if i >= packs.len() {
                assert(!pack_usable(fs@, packs@, i as int));
                return Err(i);
            }
            match &packs[i] {
                None => {
                    assert(!pack_usable(fs@, packs@, i as int));
                    return Err(i);
                },
                Some(p) => {
                    let globs = match compile_group_globs(p) {
                        Some(g) => g,
                        None => {
                            assert(!pack_usable(fs@, packs@, i as int));
                            return Err(i);
                        },
                    };
                    let dir = match parent_of(fs[i].path.as_str()) {
                        Some(d) => d,
                        None => {
                            assert(!pack_usable(fs@, packs@, i as int));
                            return Err(i);
                        },
                    };
                    let ghost before = roots.files@;
                    roots.files.push(i);
                    roots.dirs.push(dir);
                    roots.globs.push(globs);
                    assert(roots.files@.map_values(|f: usize| f as int) =~= before.map_values(
                        |f: usize| f as int,
                    ).push(i as int));
                },
            }
        }
        i = i + 1;
    }
    Ok(roots)
}

/// The length of a path in bytes, as a `usize`.
pub open spec fn byte_len(s: Seq<char>) -> usize {
    vstd::utf8::encode_utf8(s).len() as usize
}

/// The path by which file `i` finds its pack.json: its own path, or for a pack.json
/// file its directory, so that a pack.json stands for its whole directory.
pub open spec fn effective_path(fs: Seq<ImportFile<TypeStage2>>, i: int) -> Seq<char> {
    if is_pack_file(fs, i) {
        pack_dir(fs, i)
    } else {
        fs[i].path@
    }
}

/// Whether a pack.json in directory `d` has the path `e` under its influence: `e`
/// lies under `d` and is not `d` itself.
pub open spec fn pack_candidate(e: Seq<char>, d: Seq<char>) -> bool {
    !path_eq(e, d) && path_starts_with(e, d)
}

/// The nearest of the first `k` directories `ds` that has `e` under its influence: the
/// longest, and of equally long ones the last.
pub open spec fn nearest(e: Seq<char>, ds: Seq<Seq<char>>, k: int) -> Option<int>
    decreases k,
{
    if k <= 0 {
        None
    } else {
        let prev = nearest(e, ds, k - 1);
        if pack_candidate(e, ds[k - 1]) && (match prev {
            None => true,
            Some(b) => byte_len(ds[k - 1]) >= byte_len(ds[b]),
        }) {
            Some(k - 1)
        } else {
            prev
        }
    }
}

/// The directories of the pack.json files at positions `rts`.
pub open spec fn root_dirs(fs: Seq<ImportFile<TypeStage2>>, rts: Seq<int>) -> Seq<Seq<char>> {
    rts.map_values(|f: int| pack_dir(fs, f))
}

/// The pack.json (by its place among the pack.json files) whose influence file `i` is under.
pub open spec fn nearest_root(fs: Seq<ImportFile<TypeStage2>>, i: int) -> Option<int> {
    let rts = roots_of(fs, fs.len() as int);
    nearest(effective_path(fs, i), root_dirs(fs, rts), rts.len() as int)
}

/// The files among the first `n` that are under the influence of the `r`th pack.json, in order.
pub open spec fn children_of(fs: Seq<ImportFile<TypeStage2>>, r: int, n: int) -> Seq<int>
    decreases n,
{
    if n <= 0 {
        seq![]
    } else if nearest_root(fs, n - 1) == Some(r) {
        children_of(fs, r, n - 1).push(n - 1)
    } else {
        children_of(fs, r, n - 1)
    }
}

/// The files among the first `n` under no pack.json's influence, pack.json files aside.
pub open spec fn unowned_files(fs: Seq<ImportFile<TypeStage2>>, n: int) -> Seq<int>
    decreases n,
{
    if n <= 0 {
        seq![]
    } else if nearest_root(fs, n - 1) is None && !is_pack_file(fs, n - 1) {
        unowned_files(fs, n - 1).push(n - 1)
    } else {
        unowned_files(fs, n - 1)
    }
}

/// Finds the nearest of `dirs` that has `e` under its influence.
fn nearest_exec(e: &str, dirs: &Vec<String>) -> (r: Option<usize>)
    ensures
        match r {
            Some(b) => nearest(e@, dirs@.map_values(|d: String| d@), dirs.len() as int) == Some(b as int),
            None => nearest(e@, dirs@.map_values(|d: String| d@), dirs.len() as int) is None,
        },
{
    let ghost ds = dirs@.map_values(|d: String| d@);
    let mut best: Option<usize> = None;
    let mut longest: usize = 0;
    let mut k: usize = 0;
    while k < dirs.len()
        invariant
            ds == dirs@.map_values(|d: String| d@),
            k <= dirs.len(),
            match best {
                Some(b) => nearest(e@, ds, k as int) == Some(b as int) && b < k && longest == byte_len(ds[b as int]),
                None => nearest(e@, ds, k as int) is None && longest == 0,
            },
        decreases dirs.len() - k,
    {
        let d = dirs[k].as_str();
        let len = d.len();
        assert(len == byte_len(ds[k as int]));
        if !paths_equal(e, d) && starts_with_path(e, d) {
            if len >= longest {
                best = Some(k);
                longest = len;
            }
        }
        k = k + 1;
    }
    best
}

/// Finds, for each file, the pack.json whose influence it is under.
fn nearest_roots(fs: &Vec<ImportFile<TypeStage2>>, roots: &Roots, Ghost(packs): Ghost<Seq<Option<PackJson>>>) -> (r: Vec<Option<usize>>)
    requires
        roots_collected(fs@, packs, *roots),
        forall|j: int| 0 <= j < fs.len() && is_pack_file(fs@, j) ==> pack_usable(fs@, packs, j),
    ensures
        r.len() == fs.len(),
        forall|i: int|
            0 <= i < fs.len() ==> match #[trigger] r@[i] {
                Some(b) => nearest_root(fs@, i) == Some(b as int),
                None => nearest_root(fs@, i) is None,
            },
{
    let ghost rts = roots_of(fs@, fs.len() as int);
    proof {
        assert(roots.dirs@.map_values(|d: String| d@) =~= root_dirs(fs@, rts));
    }
    let mut out: Vec<Option<usize>> = Vec::new();
    let mut i: usize = 0;
    while i < fs.len()
        invariant
            roots_collected(fs@, packs, *roots),
            forall|j: int| 0 <= j < fs.len() && is_pack_file(fs@, j) ==> pack_usable(fs@, packs, j),
            rts == roots_of(fs@, fs.len() as int),
            roots.dirs@.map_values(|d: String| d@) == root_dirs(fs@, rts),
            i <= fs.len(),
            out.len() == i,
            forall|k: int|
                0 <= k < i ==> match #[trigger] out@[k] {
                    Some(b) => nearest_root(fs@, k) == Some(b as int),
                    None => nearest_root(fs@, k) is None,
                },
        decreases fs.len() - i,
    {
        let found = if matches!(fs[i].import_type, TypeStage2::PackJson) {
            assert(is_pack_file(fs@, i as int));
            assert(pack_usable(fs@, packs, i as int));
            match parent_of(fs[i].path.as_str()) {
                Some(d) => nearest_exec(d.as_str(), &roots.dirs),
                None => None,
            }
        } else {
            nearest_exec(fs[i].path.as_str(), &roots.dirs)
        };
        out.push(found);
        i = i + 1;
    }
    out
}

/// Whether pattern `pat` matches file `c` by its path relative to the directory `dir`.
pub open spec fn rel_match(fs: Seq<ImportFile<TypeStage2>>, dir: Seq<char>, c: int, pat: Seq<char>) -> bool {
    match path_strip_prefix(fs[c].path@, dir) {
        Some(rel) => glob_match(pat, rel),
        None => false,
    }
}

/// How many of the first `k` patterns of group `g` match file `c`.
pub open spec fn match_count(
    fs: Seq<ImportFile<TypeStage2>>,
    dir: Seq<char>,
    c: int,
    g: ImportGroup,
    k: int,
) -> nat
    decreases k,
{
    if k <= 0 {
        0
    } else {
        match_count(fs, dir, c, g, k - 1) + if rel_match(fs, dir, c, g.patterns@[k - 1].pattern@) {
            1nat
        } else {
            0nat
        }
    }
}

/// How many patterns of group `g` match file `c`.
pub open spec fn group_count(fs: Seq<ImportFile<TypeStage2>>, dir: Seq<char>, c: int, g: ImportGroup) -> nat {
    match_count(fs, dir, c, g, g.patterns.len() as int)
}

/// The files of group `g` among the first `m` of `ch`: each file once for every
/// pattern of the group that matches it, in order.
pub open spec fn group_list(
    fs: Seq<ImportFile<TypeStage2>>,
    dir: Seq<char>,
    g: ImportGroup,
    ch: Seq<int>,
    m: int,
) -> Seq<int>
    decreases m,
{
    if m <= 0 {
        seq![]
    } else {
        group_list(fs, dir, g, ch, m - 1) + Seq::new(
            group_count(fs, dir, ch[m - 1], g),
            |_j: int| ch[m - 1],
        )
    }
}

/// Whether no group of `p` matches file `c`.
pub open spec fn matches_no_group(fs: Seq<ImportFile<TypeStage2>>, dir: Seq<char>, p: PackJson, c: int) -> bool {
    forall|gi: int| 0 <= gi < p.import_groups.len() ==> group_count(fs, dir, c, #[trigger] p.import_groups@[gi]) == 0
}

/// The files among the first `m` of `ch` that no group of `p` matches, in order.
pub open spec fn unmatched_children(
    fs: Seq<ImportFile<TypeStage2>>,
    dir: Seq<char>,
    p: PackJson,
    ch: Seq<int>,
    m: int,
) -> Seq<int>
    decreases m,
{
    if m <= 0 {
        seq![]
    } else if matches_no_group(fs, dir, p, ch[m - 1]) {
        unmatched_children(fs, dir, p, ch, m - 1).push(ch[m - 1])
    } else {
        unmatched_children(fs, dir, p, ch, m - 1)
    }
}

/// The first `m` of `s` that are pack.json files (or, without `packs`, that are not).
pub open spec fn keep(fs: Seq<ImportFile<TypeStage2>>, s: Seq<int>, packs: bool, m: int) -> Seq<int>
    decreases m,
{
    if m <= 0 {
        seq![]
    } else if is_pack_file(fs, s[m - 1]) == packs {
        keep(fs, s, packs, m - 1).push(s[m - 1])
    } else {
        keep(fs, s, packs, m - 1)
    }
}

/// Counts how many patterns of each group of a pack match file `c`.
fn group_counts(
    fs: &Vec<ImportFile<TypeStage2>>,
    dir: &String,
    c: usize,
    globs: &Vec<Vec<CompiledGlob>>,
    Ghost(p): Ghost<PackJson>,
) -> (r: Vec<usize>)
    requires
        c < fs.len(),
        globs_compiled(p, globs@),
    ensures
        r.len() == p.import_groups.len(),
        forall|gi: int| 0 <= gi < r.len() ==> #[trigger] r@[gi] == group_count(fs@, dir@, c as int, p.import_groups@[gi]),
{
    let rel = strip_prefix_of(fs[c].path.as_str(), dir.as_str());
    let mut out: Vec<usize> = Vec::new();
    let mut gi: usize = 0;
    while gi < globs.len()
        invariant
            c < fs.len(),
            globs_compiled(p, globs@),
            match rel {
                Some(x) => path_strip_prefix(fs@[c as int].path@, dir@) == Some(x@),
                None => path_strip_prefix(fs@[c as int].path@, dir@) is None,
            },
            gi <= globs.len(),
            out.len() == gi,
            forall|g2: int| 0 <= g2 < gi ==> #[trigger] out@[g2] == group_count(fs@, dir@, c as int, p.import_groups@[g2]),
        decreases globs.len() - gi,
    {
        let row = &globs[gi];
        let ghost g = p.import_groups@[gi as int];
        assert(row.len() == g.patterns.len());
        let mut count: usize = 0;
        let mut k: usize = 0;
        while k < row.len()
            invariant
                c < fs.len(),
                gi < globs.len(),
                globs_compiled(p, globs@),
                *row == globs@[gi as int],
                g == p.import_groups@[gi as int],
                row.len() == g.patterns.len(),
                match rel {
                    Some(x) => path_strip_prefix(fs@[c as int].path@, dir@) == Some(x@),
                    None => path_strip_prefix(fs@[c as int].path@, dir@) is None,
                },
                k <= row.len(),
                count == match_count(fs@, dir@, c as int, g, k as int),
                count <= k,
            decreases row.len() - k,
        {
            assert(row@[k as int].source() == g.patterns@[k as int].pattern@);
            let hit = match &rel {
                Some(x) => glob_is_match(&row[k], x.as_str()),
                None => false,
            };
            if hit {
                count = count + 1;
            }
            k = k + 1;
        }
        out.push(count);
        gi = gi + 1;
    }
    out
}

/// A list of positions as integers.
pub open spec fn ints(v: Seq<usize>) -> Seq<int> {
    v.map_values(|x: usize| x as int)
}

/// Lists the files of a group: each child once for every pattern of the group that matches it.
fn group_list_exec(ch: &Vec<usize>, cnts: &Vec<Vec<usize>>, gi: usize, Ghost(fs): Ghost<Seq<ImportFile<TypeStage2>>>, Ghost(dir): Ghost<Seq<char>>, Ghost(g): Ghost<ImportGroup>) -> (r: Vec<usize>)
    requires
        cnts.len() == ch.len(),
        forall|m: int| 0 <= m < ch.len() ==> gi < (#[trigger] cnts@[m]).len() && cnts@[m]@[gi as int] == group_count(fs, dir, ch@[m] as int, g),
        forall|m: int| 0 <= m < ch.len() ==> #[trigger] ch@[m] < fs.len(),
    ensures
        ints(r@) == group_list(fs, dir, g, ints(ch@), ch.len() as int),
        forall|k: int| 0 <= k < r.len() ==> #[trigger] r@[k] < fs.len(),
{
    let ghost chs = ints(ch@);
    let mut out: Vec<usize> = Vec::new();
    let mut m: usize = 0;
    while m < ch.len()
        invariant
            chs == ints(ch@),
            cnts.len() == ch.len(),
            forall|m2: int| 0 <= m2 < ch.len() ==> gi < (#[trigger] cnts@[m2]).len() && cnts@[m2]@[gi as int] == group_count(fs, dir, ch@[m2] as int, g),
            forall|m2: int| 0 <= m2 < ch.len() ==> #[trigger] ch@[m2] < fs.len(),
            forall|k: int| 0 <= k < out.len() ==> #[trigger] out@[k] < fs.len(),
            m <= ch.len(),
            ints(out@) == group_list(fs, dir, g, chs, m as int),
        decreases ch.len() - m,
    {
        let c = ch[m];
        let count = cnts[m][gi];
        let ghost before = ints(out@);
        let mut j: usize = 0;
        while j < count
            invariant
                j <= count,
                c < fs.len(),
                forall|k: int| 0 <= k < out.len() ==> #[trigger] out@[k] < fs.len(),
                ints(out@) == before + Seq::new(j as nat, |_j: int| c as int),
            decreases count - j,
        {
            let ghost prev = out@;
            out.push(c);
            assert(ints(out@) =~= ints(prev).push(c as int));
            j = j + 1;
            assert(ints(out@) =~= before + Seq::new(j as nat, |_j: int| c as int));
        }
        assert(group_list(fs, dir, g, chs, m as int + 1) =~= before + Seq::new(count as nat, |_j: int| c as int));
        m = m + 1;
    }
    out
}

/// Keeps the pack.json files of a list (or, without `packs`, the other files).
fn keep_exec(fs: &Vec<ImportFile<TypeStage2>>, v: &Vec<usize>, packs: bool) -> (r: Vec<usize>)
    requires
        forall|k: int| 0 <= k < v.len() ==> #[trigger] v@[k] < fs.len(),
    ensures
        ints(r@) == keep(fs@, ints(v@), packs, v.len() as int),
        forall|k: int| 0 <= k < r.len() ==> #[trigger] r@[k] < fs.len(),
{
    let mut out: Vec<usize> = Vec::new();
    let mut k: usize = 0;
    while k < v.len()
        invariant
            forall|k2: int| 0 <= k2 < v.len() ==> #[trigger] v@[k2] < fs.len(),
            k <= v.len(),
            ints(out@) == keep(fs@, ints(v@), packs, k as int),
            forall|k2: int| 0 <= k2 < out.len() ==> #[trigger] out@[k2] < fs.len(),
        decreases v.len() - k,
    {
        let x = v[k];
        let is_pack = matches!(fs[x].import_type, TypeStage2::PackJson);
        let ghost before = out@;
        if is_pack == packs {
            out.push(x);
            assert(ints(out@) =~= ints(before).push(x as int));
        }
        k = k + 1;
    }
    out
}

/// An import set as its title and its options, each as its description and the
/// names of the groups it enables.
pub open spec fn set_view(s: ImportSet) -> (Seq<char>, Seq<(Seq<char>, Seq<Seq<char>>)>) {
    (
        s.title@,
        s.options@.map_values(
            |o: ImportSetOption| (o.description@, o.enables_groups@.map_values(|g: String| g@)),
        ),
    )
}

/// The names of the groups of a pack.json, in order.
pub open spec fn group_names(p: PackJson) -> Seq<Seq<char>> {
    p.import_groups@.map_values(|g: ImportGroup| g.name@)
}

/// The import sets of a pack.json; where it gives none, one required set titled
/// "all content" with one option, "all files", that enables every group.
pub open spec fn set_views(p: PackJson) -> Seq<(Seq<char>, Seq<(Seq<char>, Seq<Seq<char>>)>)> {
    match p.import_sets {
        Some(sets) => sets@.map_values(|s: ImportSet| set_view(s)),
        None => seq![("all content"@, seq![("all files"@, group_names(p))])],
    }
}

/// Whether the groups of a pack.json have distinct names and every group that an
/// option enables exists.
pub open spec fn groups_resolvable(p: PackJson) -> bool {
    &&& forall|i: int, j: int|
        0 <= i < j < p.import_groups.len() ==> #[trigger] group_names(p)[i] != #[trigger] group_names(p)[j]
    &&& forall|s: int, o: int, k: int|
        0 <= s < set_views(p).len() && 0 <= o < set_views(p)[s].1.len() && 0 <= k
            < set_views(p)[s].1[o].1.len() ==> group_names(p).contains(
            #[trigger] set_views(p)[s].1[o].1[k],
        )
}

/// The position of the group named `name`.
pub open spec fn group_named(p: PackJson, name: Seq<char>) -> int {
    choose|gi: int| 0 <= gi < p.import_groups.len() && group_names(p)[gi] == name
}

/// The files that the first `k` of the groups `names` bring in, group by group, that
/// are pack.json files (or, without `packs`, that are not).
pub open spec fn option_members(
    fs: Seq<ImportFile<TypeStage2>>,
    dir: Seq<char>,
    p: PackJson,
    ch: Seq<int>,
    names: Seq<Seq<char>>,
    k: int,
    packs: bool,
) -> Seq<int>
    decreases k,
{
    if k <= 0 {
        seq![]
    } else {
        let gl = group_list(fs, dir, p.import_groups@[group_named(p, names[k - 1])], ch, ch.len() as int);
        option_members(fs, dir, p, ch, names, k - 1, packs) + keep(fs, gl, packs, gl.len() as int)
    }
}

/// The options of one import set, each as its description, its files and the
/// pack.json files that hang below it.
pub open spec fn expected_options(
    fs: Seq<ImportFile<TypeStage2>>,
    dir: Seq<char>,
    p: PackJson,
    ch: Seq<int>,
    opts: Seq<(Seq<char>, Seq<Seq<char>>)>,
) -> Seq<(Seq<char>, Seq<int>, Seq<int>)> {
    opts.map_values(
        |o: (Seq<char>, Seq<Seq<char>>)|
            (
                o.0,
                option_members(fs, dir, p, ch, o.1, o.1.len() as int, false),
                option_members(fs, dir, p, ch, o.1, o.1.len() as int, true),
            ),
    )
}

/// The branches of a pack.json in directory `dir` with children `ch`: one per import set.
pub open spec fn expected_branches(
    fs: Seq<ImportFile<TypeStage2>>,
    dir: Seq<char>,
    p: PackJson,
    ch: Seq<int>,
) -> Seq<(Seq<char>, Seq<(Seq<char>, Seq<int>, Seq<int>)>)> {
    set_views(p).map_values(
        |sv: (Seq<char>, Seq<(Seq<char>, Seq<Seq<char>>)>)| (sv.0, expected_options(fs, dir, p, ch, sv.1)),
    )
}

/// One option of an import set, before subtrees are given ids.
struct FlatOption {
    description: String,
    files: Vec<usize>,
    subs: Vec<usize>,
}

/// One import set of a pack.json, before subtrees are given ids.
struct FlatBranch {
    title: String,
    options: Vec<FlatOption>,
}

spec fn flat_option_view(o: FlatOption) -> (Seq<char>, Seq<int>, Seq<int>) {
    (o.description@, ints(o.files@), ints(o.subs@))
}

spec fn flat_branch_view(b: FlatBranch) -> (Seq<char>, Seq<(Seq<char>, Seq<int>, Seq<int>)>) {
    (b.title@, b.options@.map_values(|o: FlatOption| flat_option_view(o)))
}

/// Finds the group named `name`.
fn find_group(p: &PackJson, name: &String) -> (r: usize)
    requires
        group_names(*p).contains(name@),
        forall|i: int, j: int|
            0 <= i < j < p.import_groups.len() ==> #[trigger] group_names(*p)[i] != #[trigger] group_names(*p)[j],
    ensures
        r == group_named(*p, name@),
        r < p.import_groups.len(),
{
    let ghost names = group_names(*p);
    let mut gi: usize = 0;
    while gi < p.import_groups.len()
        invariant
            names == group_names(*p),
            names.contains(name@),
            forall|i: int, j: int|
                0 <= i < j < p.import_groups.len() ==> #[trigger] group_names(*p)[i] != #[trigger] group_names(*p)[j],
            gi <= p.import_groups.len(),
            forall|k: int| 0 <= k < gi ==> names[k] != name@,
        decreases p.import_groups.len() - gi,
    {
        if str_equals(p.import_groups[gi].name.as_str(), name.as_str()) {
            assert(names[gi as int] == name@);
            proof {
                let chosen = group_named(*p, name@);
                assert(0 <= chosen < p.import_groups.len() && names[chosen] == name@);
                if chosen != gi as int {
                    if chosen > gi as int {
                        assert(group_names(*p)[gi as int] != group_names(*p)[chosen]);
                    }
                }
            }
            return gi;
        }
        gi = gi + 1;
    }
    proof {
        let k = choose|k: int| 0 <= k < names.len() && names[k] == name@;
        assert(names[k] != name@);
    }
    0
}

/// Whether `cnts` holds, for each child and group, how many patterns of the group match it.
spec fn counts_hold(
    fs: Seq<ImportFile<TypeStage2>>,
    dir: Seq<char>,
    p: PackJson,
    ch: Seq<usize>,
    cnts: Seq<Vec<usize>>,
) -> bool {
    &&& cnts.len() == ch.len()
    &&& forall|m: int| 0 <= m < ch.len() ==> #[trigger] ch[m] < fs.len()
    &&& forall|m: int| 0 <= m < ch.len() ==> (#[trigger] cnts[m]).len() == p.import_groups.len()
    &&& forall|m: int, gi: int|
        0 <= m < ch.len() && 0 <= gi < p.import_groups.len() ==> #[trigger] cnts[m]@[gi] == group_count(
            fs,
            dir,
            ch[m] as int,
            p.import_groups@[gi],
        )
}

/// Gathers the files and the nested pack.json files that the groups `names` bring in.
fn option_contents(
    fs: &Vec<ImportFile<TypeStage2>>,
    Ghost(dir): Ghost<Seq<char>>,
    p: &PackJson,
    ch: &Vec<usize>,
    cnts: &Vec<Vec<usize>>,
    names: &Vec<String>,
) -> (r: (Vec<usize>, Vec<usize>))
    requires
        counts_hold(fs@, dir, *p, ch@, cnts@),
        forall|i: int, j: int|
            0 <= i < j < p.import_groups.len() ==> #[trigger] group_names(*p)[i] != #[trigger] group_names(*p)[j],
        forall|k: int| 0 <= k < names.len() ==> group_names(*p).contains(#[trigger] names@[k]@),
    ensures
        ints(r.0@) == option_members(fs@, dir, *p, ints(ch@), names@.map_values(|g: String| g@), names.len() as int, false),
        ints(r.1@) == option_members(fs@, dir, *p, ints(ch@), names@.map_values(|g: String| g@), names.len() as int, true),
{
    let ghost nv = names@.map_values(|g: String| g@);
    let mut files: Vec<usize> = Vec::new();
    let mut subs: Vec<usize> = Vec::new();
    let mut k: usize = 0;
    while k < names.len()
        invariant
            counts_hold(fs@, dir, *p, ch@, cnts@),
            forall|i: int, j: int|
                0 <= i < j < p.import_groups.len() ==> #[trigger] group_names(*p)[i] != #[trigger] group_names(*p)[j],
            forall|k2: int| 0 <= k2 < names.len() ==> group_names(*p).contains(#[trigger] names@[k2]@),
            nv == names@.map_values(|g: String| g@),
            k <= names.len(),
            ints(files@) == option_members(fs@, dir, *p, ints(ch@), nv, k as int, false),
            ints(subs@) == option_members(fs@, dir, *p, ints(ch@), nv, k as int, true),
        decreases names.len() - k,
    {
        assert(group_names(*p).contains(names@[k as int]@));
        let gi = find_group(p, &names[k]);
        let gl = group_list_exec(ch, cnts, gi, Ghost(fs@), Ghost(dir), Ghost(p.import_groups@[gi as int]));
        let mut f = keep_exec(fs, &gl, false);
        let mut sb = keep_exec(fs, &gl, true);
        let ghost f0 = files@;
        let ghost s0 = subs@;
        let ghost fk = f@;
        let ghost sk = sb@;
        files.append(&mut f);
        subs.append(&mut sb);
        assert(ints(files@) =~= ints(f0) + ints(fk));
        assert(ints(subs@) =~= ints(s0) + ints(sk));
        k = k + 1;
    }
    (files, subs)
}

/// Builds the branches of one pack.json: one per import set, each option with its
/// files and the nested pack.json files below it.
fn pack_branches(
    fs: &Vec<ImportFile<TypeStage2>>,
    Ghost(dir): Ghost<Seq<char>>,
    p: &PackJson,
    ch: &Vec<usize>,
    cnts: &Vec<Vec<usize>>,
) -> (r: Vec<FlatBranch>)
    requires
        counts_hold(fs@, dir, *p, ch@, cnts@),
        groups_resolvable(*p),
    ensures
        r@.map_values(|b: FlatBranch| flat_branch_view(b)) == expected_branches(fs@, dir, *p, ints(ch@)),
{
    let ghost sv = set_views(*p);
    let mut out: Vec<FlatBranch> = Vec::new();
    match &p.import_sets {
        Some(sets) => {
            assert(sv == sets@.map_values(|s: ImportSet| set_view(s)));
            let mut si: usize = 0;
            while si < sets.len()
                invariant
                    counts_hold(fs@, dir, *p, ch@, cnts@),
                    groups_resolvable(*p),
                    p.import_sets == Some(*sets),
                    sv == set_views(*p),
                    sv == sets@.map_values(|s: ImportSet| set_view(s)),
                    si <= sets.len(),
                    out.len() == si,
                    forall|k: int| 0 <= k < si ==> flat_branch_view(#[trigger] out@[k]) == expected_branches(fs@, dir, *p, ints(ch@))[k],
                decreases sets.len() - si,
            {
                let set = &sets[si];
                let mut options: Vec<FlatOption> = Vec::new();
                let mut oi: usize = 0;
                while oi < set.options.len()
                    invariant
                        counts_hold(fs@, dir, *p, ch@, cnts@),
                        groups_resolvable(*p),
                        sv == set_views(*p),
                        si < sets.len(),
                        sv == sets@.map_values(|s: ImportSet| set_view(s)),
                        *set == sets@[si as int],
                        oi <= set.options.len(),
                        options.len() == oi,
                        forall|k: int| 0 <= k < oi ==> flat_option_view(#[trigger] options@[k]) == expected_options(fs@, dir, *p, ints(ch@), sv[si as int].1)[k],
                    decreases set.options.len() - oi,
                {
                    let opt = &set.options[oi];
                    assert(sv[si as int].1[oi as int].1 == opt.enables_groups@.map_values(|g: String| g@));
                    assert forall|k: int| 0 <= k < opt.enables_groups.len() implies group_names(*p).contains(#[trigger] opt.enables_groups@[k]@) by {
                        assert(sv[si as int].1[oi as int].1[k] == opt.enables_groups@[k]@);
                    }
                    let (files, subs) = option_contents(fs, Ghost(dir), p, ch, cnts, &opt.enables_groups);
                    options.push(FlatOption { description: opt.description.clone(), files, subs });
                    oi = oi + 1;
                }
                let ghost ov = options@.map_values(|o: FlatOption| flat_option_view(o));
                assert(ov =~= expected_options(fs@, dir, *p, ints(ch@), sv[si as int].1));
                out.push(FlatBranch { title: set.title.clone(), options });
                si = si + 1;
            }
        },
        None => {
            let mut names: Vec<String> = Vec::new();
            let mut gi: usize = 0;
            while gi < p.import_groups.len()
                invariant
                    gi <= p.import_groups.len(),
                    names.len() == gi,
                    forall|k: int| 0 <= k < gi ==> (#[trigger] names@[k])@ == group_names(*p)[k],
                decreases p.import_groups.len() - gi,
            {
                names.push(p.import_groups[gi].name.clone());
                gi = gi + 1;
            }
            assert(names@.map_values(|g: String| g@) =~= group_names(*p));
            assert forall|k: int| 0 <= k < names.len() implies group_names(*p).contains(#[trigger] names@[k]@) by {
                assert(group_names(*p)[k] == names@[k]@);
            }
            let (files, subs) = option_contents(fs, Ghost(dir), p, ch, cnts, &names);
            let mut options: Vec<FlatOption> = Vec::new();
            options.push(FlatOption { description: String::from_str("all files"), files, subs });
            let ghost ov = options@.map_values(|o: FlatOption| flat_option_view(o));
            let ghost opts: Seq<(Seq<char>, Seq<Seq<char>>)> = seq![("all files"@, group_names(*p))];
            assert(ov =~= expected_options(fs@, dir, *p, ints(ch@), opts));
            out.push(FlatBranch { title: String::from_str("all content"), options });
            assert(out@.map_values(|b: FlatBranch| flat_branch_view(b)) =~= expected_branches(fs@, dir, *p, ints(ch@)));
        },
    }
    assert(out@.map_values(|b: FlatBranch| flat_branch_view(b)) =~= expected_branches(fs@, dir, *p, ints(ch@)));
    out
}

/// The pack.json files, by position.
pub open spec fn pack_roots(fs: Seq<ImportFile<TypeStage2>>) -> Seq<int> {
    roots_of(fs, fs.len() as int)
}

/// The contents of the `r`th pack.json file.
pub open spec fn root_pack(fs: Seq<ImportFile<TypeStage2>>, packs: Seq<Option<PackJson>>, r: int) -> PackJson {
    pack_at(packs, pack_roots(fs)[r])->Some_0
}

/// The directory of the `r`th pack.json file.
pub open spec fn root_dir(fs: Seq<ImportFile<TypeStage2>>, r: int) -> Seq<char> {
    pack_dir(fs, pack_roots(fs)[r])
}

/// The files under the influence of the `r`th pack.json file.
pub open spec fn root_children(fs: Seq<ImportFile<TypeStage2>>, r: int) -> Seq<int> {
    children_of(fs, r, fs.len() as int)
}

/// The branches of the `r`th pack.json file.
pub open spec fn root_branches(fs: Seq<ImportFile<TypeStage2>>, packs: Seq<Option<PackJson>>, r: int) -> Seq<
    (Seq<char>, Seq<(Seq<char>, Seq<int>, Seq<int>)>),
> {
    expected_branches(fs, root_dir(fs, r), root_pack(fs, packs, r), root_children(fs, r))
}

/// The branches of the first `k` pack.json files, in order, each with the place of
/// its pack.json among the pack.json files.
pub open spec fn all_branches(fs: Seq<ImportFile<TypeStage2>>, packs: Seq<Option<PackJson>>, k: int) -> Seq<
    (int, (Seq<char>, Seq<(Seq<char>, Seq<int>, Seq<int>)>)),
>
    decreases k,
{
    if k <= 0 {
        seq![]
    } else {
        all_branches(fs, packs, k - 1) + root_branches(fs, packs, k - 1).map_values(
            |b: (Seq<char>, Seq<(Seq<char>, Seq<int>, Seq<int>)>)| (k - 1, b),
        )
    }
}

/// The ids of the trees of the `q`th pack.json file: one per branch, numbered on from
/// those of the pack.json files before it.
pub open spec fn root_ids(fs: Seq<ImportFile<TypeStage2>>, packs: Seq<Option<PackJson>>, q: int) -> Seq<int> {
    Seq::new(root_branches(fs, packs, q).len(), |j: int| all_branches(fs, packs, q).len() + j)
}

/// The place among the pack.json files of the pack.json file at position `f`.
pub open spec fn root_pos(fs: Seq<ImportFile<TypeStage2>>, f: int) -> int {
    choose|q: int| 0 <= q < pack_roots(fs).len() && pack_roots(fs)[q] == f
}

/// The ids of the trees of the first `k` nested pack.json files `subs`.
pub open spec fn sub_ids(fs: Seq<ImportFile<TypeStage2>>, packs: Seq<Option<PackJson>>, subs: Seq<int>, k: int) -> Seq<int>
    decreases k,
{
    if k <= 0 {
        seq![]
    } else {
        sub_ids(fs, packs, subs, k - 1) + root_ids(fs, packs, root_pos(fs, subs[k - 1]))
    }
}

/// A decision tree as its id, description and options, each option as its
/// description, its files and the ids of the trees below it.
pub struct TreeView {
    pub id: int,
    pub description: Seq<char>,
    pub options: Seq<(Seq<char>, Seq<int>, Seq<int>)>,
}

/// The tree that the `b`th branch becomes.
pub open spec fn expected_tree(fs: Seq<ImportFile<TypeStage2>>, packs: Seq<Option<PackJson>>, b: int) -> TreeView {
    let br = all_branches(fs, packs, pack_roots(fs).len() as int)[b].1;
    TreeView {
        id: b,
        description: br.0,
        options: br.1.map_values(
            |o: (Seq<char>, Seq<int>, Seq<int>)| (o.0, o.1, sub_ids(fs, packs, o.2, o.2.len() as int)),
        ),
    }
}

/// The nested pack.json files below the options of the first `k` of `opts`.
pub open spec fn option_subs(opts: Seq<(Seq<char>, Seq<int>, Seq<int>)>, k: int) -> Seq<int>
    decreases k,
{
    if k <= 0 {
        seq![]
    } else {
        option_subs(opts, k - 1) + opts[k - 1].2
    }
}

/// The nested pack.json files below the first `k` branches, with repeats.
pub open spec fn branch_subs(bs: Seq<(int, (Seq<char>, Seq<(Seq<char>, Seq<int>, Seq<int>)>))>, k: int) -> Seq<int>
    decreases k,
{
    if k <= 0 {
        seq![]
    } else {
        branch_subs(bs, k - 1) + option_subs(bs[k - 1].1.1, bs[k - 1].1.1.len() as int)
    }
}

/// The nested pack.json files below all branches, with repeats.
pub open spec fn all_subs(fs: Seq<ImportFile<TypeStage2>>, packs: Seq<Option<PackJson>>) -> Seq<int> {
    let bs = all_branches(fs, packs, pack_roots(fs).len() as int);
    branch_subs(bs, bs.len() as int)
}

/// How often `x` occurs among the first `k` of `s`.
pub open spec fn occurrences(s: Seq<int>, x: int, k: int) -> nat
    decreases k,
{
    if k <= 0 {
        0
    } else {
        occurrences(s, x, k - 1) + if s[k - 1] == x {
            1nat
        } else {
            0nat
        }
    }
}

/// Whether the `q`th pack.json file has branches and hangs below two options.
pub open spec fn reached_twice(fs: Seq<ImportFile<TypeStage2>>, packs: Seq<Option<PackJson>>, q: int) -> bool {
    root_branches(fs, packs, q).len() >= 1 && occurrences(
        all_subs(fs, packs),
        pack_roots(fs)[q],
        all_subs(fs, packs).len() as int,
    ) >= 2
}

/// The ids of the trees of the first `k` pack.json files that hang below no option.
pub open spec fn forest_roots(fs: Seq<ImportFile<TypeStage2>>, packs: Seq<Option<PackJson>>, k: int) -> Seq<int>
    decreases k,
{
    if k <= 0 {
        seq![]
    } else if all_subs(fs, packs).contains(pack_roots(fs)[k - 1]) {
        forest_roots(fs, packs, k - 1)
    } else {
        forest_roots(fs, packs, k - 1) + root_ids(fs, packs, k - 1)
    }
}

/// The loose files: those under no pack.json's influence, then, pack.json by pack.json,
/// those that no group of their pack.json matches.
pub open spec fn loose_files(fs: Seq<ImportFile<TypeStage2>>, packs: Seq<Option<PackJson>>, k: int) -> Seq<int>
    decreases k,
{
    if k <= 0 {
        unowned_files(fs, fs.len() as int)
    } else {
        loose_files(fs, packs, k - 1) + unmatched_children(
            fs,
            root_dir(fs, k - 1),
            root_pack(fs, packs, k - 1),
            root_children(fs, k - 1),
            root_children(fs, k - 1).len() as int,
        )
    }
}

/// The branches of all pack.json files, before subtrees are given ids, with the
/// loose files.
struct Layout {
    /// The branches, pack.json by pack.json.
    flat: Vec<FlatBranch>,
    /// The place among the pack.json files of the pack.json of each branch.
    owner: Vec<usize>,
    /// For each pack.json, the position of its first branch.
    offsets: Vec<usize>,
    /// For each pack.json, how many branches it has.
    sizes: Vec<usize>,
    loose: Vec<usize>,
}

/// Whether `near` holds the pack.json whose influence each file is under.
spec fn nearest_hold(fs: Seq<ImportFile<TypeStage2>>, near: Seq<Option<usize>>) -> bool {
    &&& near.len() == fs.len()
    &&& forall|i: int|
        0 <= i < fs.len() ==> match #[trigger] near[i] {
            Some(b) => nearest_root(fs, i) == Some(b as int),
            None => nearest_root(fs, i) is None,
        }
}

/// Whether every parsed pack.json has distinct group names and enables only groups it has.
pub open spec fn packs_resolvable(packs: Seq<Option<PackJson>>) -> bool {
    forall|i: int| 0 <= i < packs.len() ==> (#[trigger] packs[i] matches Some(p) ==> groups_resolvable(p))
}

/// The files under the influence of the `r`th pack.json file.
fn children_exec(near: &Vec<Option<usize>>, r: usize, Ghost(fs): Ghost<Seq<ImportFile<TypeStage2>>>) -> (ch: Vec<usize>)
    requires
        nearest_hold(fs, near@),
    ensures
        ints(ch@) == children_of(fs, r as int, fs.len() as int),
        forall|m: int| 0 <= m < ch.len() ==> #[trigger] ch@[m] < fs.len(),
{
    let mut ch: Vec<usize> = Vec::new();
    let mut i: usize = 0;
    while i < near.len()
        invariant
            nearest_hold(fs, near@),
            i <= near.len(),
            ints(ch@) == children_of(fs, r as int, i as int),
            forall|m: int| 0 <= m < ch.len() ==> #[trigger] ch@[m] < fs.len(),
        decreases near.len() - i,
    {
        let ghost before = ch@;
        assert(near@[i as int] matches Some(b) ==> nearest_root(fs, i as int) == Some(b as int));
        if near[i] == Some(r) {
            ch.push(i);
            assert(ints(ch@) =~= ints(before).push(i as int));
        }
        i = i + 1;
    }
    ch
}

/// A branch without the place of its pack.json.
pub open spec fn branch_body(x: (int, (Seq<char>, Seq<(Seq<char>, Seq<int>, Seq<int>)>))) -> (Seq<char>, Seq<(Seq<char>, Seq<int>, Seq<int>)>) {
    x.1
}

proof fn lemma_all_branches_len(fs: Seq<ImportFile<TypeStage2>>, packs: Seq<Option<PackJson>>, k: int)
    requires
        k >= 0,
    ensures
        all_branches(fs, packs, k + 1).len() == all_branches(fs, packs, k).len() + root_branches(fs, packs, k).len(),
        all_branches(fs, packs, k + 1).map_values(|x: (int, (Seq<char>, Seq<(Seq<char>, Seq<int>, Seq<int>)>))| branch_body(x))
            == all_branches(fs, packs, k).map_values(|x: (int, (Seq<char>, Seq<(Seq<char>, Seq<int>, Seq<int>)>))| branch_body(x))
            + root_branches(fs, packs, k),
        forall|j: int| 0 <= j < all_branches(fs, packs, k).len() ==> #[trigger] all_branches(fs, packs, k + 1)[j] == all_branches(fs, packs, k)[j],
        forall|j: int| 0 <= j < root_branches(fs, packs, k).len() ==> all_branches(fs, packs, k + 1)[all_branches(fs, packs, k).len() + j] == (k, #[trigger] root_branches(fs, packs, k)[j]),
{
    assert(all_branches(fs, packs, k + 1).map_values(|x: (int, (Seq<char>, Seq<(Seq<char>, Seq<int>, Seq<int>)>))| branch_body(x))
        =~= all_branches(fs, packs, k).map_values(|x: (int, (Seq<char>, Seq<(Seq<char>, Seq<int>, Seq<int>)>))| branch_body(x))
        + root_branches(fs, packs, k));
}

/// Lays out the branches of all pack.json files and gathers the loose files.
fn layout(
    fs: &Vec<ImportFile<TypeStage2>>,
    packs: &Vec<Option<PackJson>>,
    roots: &Roots,
    near: &Vec<Option<usize>>,
) -> (l: Layout)
    requires
        roots_collected(fs@, packs@, *roots),
        forall|j: int| 0 <= j < fs.len() && is_pack_file(fs@, j) ==> pack_usable(fs@, packs@, j),
        nearest_hold(fs@, near@),
        packs_resolvable(packs@),
    ensures
        l.flat@.map_values(|b: FlatBranch| flat_branch_view(b)) == all_branches(fs@, packs@, pack_roots(fs@).len() as int).map_values(
            |x: (int, (Seq<char>, Seq<(Seq<char>, Seq<int>, Seq<int>)>))| branch_body(x),
        ),
        l.owner.len() == l.flat.len(),
        forall|b: int| 0 <= b < l.owner.len() ==> #[trigger] l.owner@[b] as int == all_branches(fs@, packs@, pack_roots(fs@).len() as int)[b].0,
        l.offsets.len() == pack_roots(fs@).len(),
        l.sizes.len() == pack_roots(fs@).len(),
        forall|r: int| 0 <= r < l.offsets.len() ==> #[trigger] l.offsets@[r] as int == all_branches(fs@, packs@, r).len(),
        forall|r: int| 0 <= r < l.sizes.len() ==> #[trigger] l.sizes@[r] as int == root_branches(fs@, packs@, r).len(),
        ints(l.loose@) == loose_files(fs@, packs@, pack_roots(fs@).len() as int),
{
    let ghost rts = pack_roots(fs@);
    let mut loose: Vec<usize> = Vec::new();
    let mut i: usize = 0;
    while i < fs.len()
        invariant
            nearest_hold(fs@, near@),
            i <= fs.len(),
            ints(loose@) == unowned_files(fs@, i as int),
        decreases fs.len() - i,
    {
        let ghost before = loose@;
        assert(near@[i as int] matches Some(b) ==> nearest_root(fs@, i as int) == Some(b as int));
        if near[i].is_none() && !matches!(fs[i].import_type, TypeStage2::PackJson) {
            loose.push(i);
            assert(ints(loose@) =~= ints(before).push(i as int));
        }
        i = i + 1;
    }
    let mut flat: Vec<FlatBranch> = Vec::new();
    let mut owner: Vec<usize> = Vec::new();
    let mut offsets: Vec<usize> = Vec::new();
    let mut sizes: Vec<usize> = Vec::new();
    let mut r: usize = 0;
    while r < roots.files.len()
        invariant
            roots_collected(fs@, packs@, *roots),
            forall|j: int| 0 <= j < fs.len() && is_pack_file(fs@, j) ==> pack_usable(fs@, packs@, j),
            nearest_hold(fs@, near@),
            packs_resolvable(packs@),
            rts == pack_roots(fs@),
            ints(roots.files@) == rts,
            r <= roots.files.len(),
            flat@.map_values(|b: FlatBranch| flat_branch_view(b)) == all_branches(fs@, packs@, r as int).map_values(|x: (int, (Seq<char>, Seq<(Seq<char>, Seq<int>, Seq<int>)>))| branch_body(x)),
            owner.len() == flat.len(),
            forall|b: int| 0 <= b < owner.len() ==> #[trigger] owner@[b] as int == all_branches(fs@, packs@, r as int)[b].0,
            offsets.len() == r,
            sizes.len() == r,
            forall|r2: int| 0 <= r2 < r ==> #[trigger] offsets@[r2] as int == all_branches(fs@, packs@, r2).len(),
            forall|r2: int| 0 <= r2 < r ==> #[trigger] sizes@[r2] as int == root_branches(fs@, packs@, r2).len(),
            ints(loose@) == loose_files(fs@, packs@, r as int),
        decreases roots.files.len() - r,
    {
        let f = roots.files[r];
        assert(ints(roots.files@)[r as int] == f as int);
        assert(pack_usable(fs@, packs@, f as int));
        let p = match &packs[f] {
            Some(p) => p,
            None => {
                proof {
                    assert(pack_at(packs@, f as int) is None);
                }
                return Layout { flat, owner, offsets, sizes, loose };
            },
        };
        assert(groups_resolvable(*p)) by {
            assert(packs@[f as int] matches Some(q) ==> groups_resolvable(q));
        }
        let dir = &roots.dirs[r];
        assert(dir@ == root_dir(fs@, r as int));
        assert(*p == root_pack(fs@, packs@, r as int));
        let globs = &roots.globs[r];
        assert(globs_compiled(*p, globs@));
        let ch = children_exec(near, r, Ghost(fs@));
        let mut cnts: Vec<Vec<usize>> = Vec::new();
        let mut m: usize = 0;
        while m < ch.len()
            invariant
                globs_compiled(*p, globs@),
                forall|m2: int| 0 <= m2 < ch.len() ==> #[trigger] ch@[m2] < fs.len(),
                m <= ch.len(),
                cnts.len() == m,
                forall|m2: int| 0 <= m2 < m ==> (#[trigger] cnts@[m2]).len() == p.import_groups.len(),
                forall|m2: int, gi: int|
                    0 <= m2 < m && 0 <= gi < p.import_groups.len() ==> #[trigger] cnts@[m2]@[gi] == group_count(
                        fs@,
                        dir@,
                        ch@[m2] as int,
                        p.import_groups@[gi],
                    ),
            decreases ch.len() - m,
        {
            let row = group_counts(fs, dir, ch[m], globs, Ghost(*p));
            cnts.push(row);
            m = m + 1;
        }
        assert(counts_hold(fs@, dir@, *p, ch@, cnts@));
        let ghost loose_before = loose@;
        m = 0;
        while m < ch.len()
            invariant
                counts_hold(fs@, dir@, *p, ch@, cnts@),
                m <= ch.len(),
                ints(loose@) == ints(loose_before) + unmatched_children(fs@, dir@, *p, ints(ch@), m as int),
            decreases ch.len() - m,
        {
            let row = &cnts[m];
            let mut all_zero = true;
            let mut gi: usize = 0;
            while gi < row.len()
                invariant
                    counts_hold(fs@, dir@, *p, ch@, cnts@),
                    m < ch.len(),
                    *row == cnts@[m as int],
                    gi <= row.len(),
                    all_zero <==> forall|g2: int| 0 <= g2 < gi ==> group_count(fs@, dir@, ch@[m as int] as int, #[trigger] p.import_groups@[g2]) == 0,
                decreases row.len() - gi,
            {
                if row[gi] != 0 {
                    all_zero = false;
                }
                gi = gi + 1;
            }
            assert(all_zero == matches_no_group(fs@, dir@, *p, ints(ch@)[m as int]));
            let ghost before = loose@;
            if all_zero {
                loose.push(ch[m]);
                assert(ints(loose@) =~= ints(before).push(ch@[m as int] as int));
            }
            proof {
                assert(ints(loose@) =~= ints(loose_before) + unmatched_children(fs@, dir@, *p, ints(ch@), m as int + 1));
            }
            m = m + 1;
        }
        let bs = pack_branches(fs, Ghost(dir@), p, &ch, &cnts);
        let ghost flat_before = flat@;
        let ghost owner_before = owner@;
        assert(flat_before.map_values(|b: FlatBranch| flat_branch_view(b)) == all_branches(fs@, packs@, r as int).map_values(|x: (int, (Seq<char>, Seq<(Seq<char>, Seq<int>, Seq<int>)>))| branch_body(x)));
        assert(bs@.map_values(|b: FlatBranch| flat_branch_view(b)) == root_branches(fs@, packs@, r as int));
        offsets.push(flat.len());
        sizes.push(bs.len());
        let mut bs = bs;
        let ghost bsv = bs@;
        let mut k: usize = 0;
        let n_bs = bs.len();
        proof {
            lemma_all_branches_len(fs@, packs@, r as int);
        }
        let mut rest = bs;
        let mut taken: Vec<FlatBranch> = Vec::new();
        while k < n_bs
            invariant
                n_bs == bsv.len(),
                k <= n_bs,
                rest@ == bsv.subrange(k as int, n_bs as int),
                flat@ == flat_before + bsv.subrange(0, k as int),
                owner@ == owner_before + Seq::new(k as nat, |_j: int| r),
            decreases n_bs - k,
        {
            let b = rest.remove(0);
            flat.push(b);
            owner.push(r);
            k = k + 1;
            assert(flat@ =~= flat_before + bsv.subrange(0, k as int));
            assert(owner@ =~= owner_before + Seq::new(k as nat, |_j: int| r));
        }
        assert(bsv.subrange(0, n_bs as int) =~= bsv);
        assert(flat@ == flat_before + bsv);
        let ghost nb = all_branches(fs@, packs@, r as int + 1);
        let ghost ob = all_branches(fs@, packs@, r as int);
        assert(flat_before.map_values(|b: FlatBranch| flat_branch_view(b)).len() == flat_before.len());
        assert(ob.map_values(|x: (int, (Seq<char>, Seq<(Seq<char>, Seq<int>, Seq<int>)>))| branch_body(x)).len() == ob.len());
        assert(flat_before.len() == ob.len());
        assert forall|j: int| 0 <= j < flat.len() implies flat_branch_view(#[trigger] flat@[j]) == nb[j].1 by {
            if j < flat_before.len() {
                assert(flat_before.map_values(|b: FlatBranch| flat_branch_view(b))[j] == ob.map_values(|x: (int, (Seq<char>, Seq<(Seq<char>, Seq<int>, Seq<int>)>))| branch_body(x))[j]);
                assert(nb[j] == ob[j]);
            } else {
                let k = j - flat_before.len();
                assert(flat@[j] == bsv[k]);
                assert(bsv.map_values(|b: FlatBranch| flat_branch_view(b))[k] == root_branches(fs@, packs@, r as int)[k]);
                assert(nb[ob.len() + k] == (r as int, root_branches(fs@, packs@, r as int)[k]));
            }
        }
        assert(flat@.map_values(|b: FlatBranch| flat_branch_view(b)) =~= nb.map_values(|x: (int, (Seq<char>, Seq<(Seq<char>, Seq<int>, Seq<int>)>))| branch_body(x)));
        assert forall|b: int| 0 <= b < owner.len() implies #[trigger] owner@[b] as int == nb[b].0 by {
            if b >= owner_before.len() {
                let j = b - owner_before.len();
                assert(owner@[b] == r);
                assert(nb[ob.len() + j] == (r as int, root_branches(fs@, packs@, r as int)[j]));
            } else {
                assert(owner@[b] == owner_before[b]);
                assert(nb[b] == ob[b]);
            }
        }
        assert(ints(loose@) =~= loose_files(fs@, packs@, r as int + 1));
        r = r + 1;
    }
    Layout { flat, owner, offsets, sizes, loose }
}

proof fn lemma_roots_of(fs: Seq<ImportFile<TypeStage2>>, n: int)
    requires
        0 <= n <= fs.len(),
    ensures
        forall|k: int| 0 <= k < roots_of(fs, n).len() ==> 0 <= #[trigger] roots_of(fs, n)[k] < n && is_pack_file(fs, roots_of(fs, n)[k]),
        forall|k1: int, k2: int| 0 <= k1 < k2 < roots_of(fs, n).len() ==> roots_of(fs, n)[k1] < roots_of(fs, n)[k2],
        forall|j: int| 0 <= j < n && is_pack_file(fs, j) ==> roots_of(fs, n).contains(j),
    decreases n,
{
    if n > 0 {
        lemma_roots_of(fs, n - 1);
        if is_pack_file(fs, n - 1) {
            let m = roots_of(fs, n - 1);
            assert(roots_of(fs, n) == m.push(n - 1));
            assert forall|k: int| 0 <= k < m.push(n - 1).len() implies 0 <= #[trigger] m.push(n - 1)[k] < n && is_pack_file(fs, m.push(n - 1)[k]) by {
                if k < m.len() {
                    assert(m.push(n - 1)[k] == m[k]);
                }
            }
            assert forall|k1: int, k2: int| 0 <= k1 < k2 < m.push(n - 1).len() implies #[trigger] m.push(n - 1)[k1] < #[trigger] m.push(n - 1)[k2] by {
                assert(m.push(n - 1)[k1] == m[k1]);
                if k2 < m.len() {
                    assert(m.push(n - 1)[k2] == m[k2]);
                }
            }
            assert forall|j: int| 0 <= j < n && is_pack_file(fs, j) implies roots_of(fs, n).contains(j) by {
                if j < n - 1 {
                    let k = choose|k: int| 0 <= k < m.len() && m[k] == j;
                    assert(m.push(n - 1)[k] == j);
                } else {
                    assert(m.push(n - 1)[m.len() as int] == j);
                }
            }
        } else {
            assert(roots_of(fs, n) == roots_of(fs, n - 1));
        }
    }
}

proof fn lemma_keep(fs: Seq<ImportFile<TypeStage2>>, s: Seq<int>, packs: bool, m: int)
    ensures
        forall|k: int| 0 <= k < keep(fs, s, packs, m).len() ==> is_pack_file(fs, #[trigger] keep(fs, s, packs, m)[k]) == packs,
    decreases m,
{
    if m > 0 {
        lemma_keep(fs, s, packs, m - 1);
        let prev = keep(fs, s, packs, m - 1);
        if is_pack_file(fs, s[m - 1]) == packs {
            assert(keep(fs, s, packs, m) == prev.push(s[m - 1]));
            assert forall|k: int| 0 <= k < prev.push(s[m - 1]).len() implies is_pack_file(fs, #[trigger] prev.push(s[m - 1])[k]) == packs by {
                if k < prev.len() {
                    assert(prev.push(s[m - 1])[k] == prev[k]);
                }
            }
        }
    }
}

proof fn lemma_option_members(
    fs: Seq<ImportFile<TypeStage2>>,
    dir: Seq<char>,
    p: PackJson,
    ch: Seq<int>,
    names: Seq<Seq<char>>,
    k: int,
    packs: bool,
)
    ensures
        forall|j: int|
            0 <= j < option_members(fs, dir, p, ch, names, k, packs).len() ==> is_pack_file(
                fs,
                #[trigger] option_members(fs, dir, p, ch, names, k, packs)[j],
            ) == packs,
    decreases k,
{
    if k > 0 {
        lemma_option_members(fs, dir, p, ch, names, k - 1, packs);
        let gl = group_list(fs, dir, p.import_groups@[group_named(p, names[k - 1])], ch, ch.len() as int);
        lemma_keep(fs, gl, packs, gl.len() as int);
        let a = option_members(fs, dir, p, ch, names, k - 1, packs);
        let b = keep(fs, gl, packs, gl.len() as int);
        assert(option_members(fs, dir, p, ch, names, k, packs) == a + b);
        assert forall|j: int| 0 <= j < (a + b).len() implies is_pack_file(fs, #[trigger] (a + b)[j]) == packs by {
            if j >= a.len() {
                assert((a + b)[j] == b[j - a.len()]);
            }
        }
    }
}

/// Whether every nested pack.json below an option of the branches `bs` is a pack.json file.
spec fn subs_are_packs(fs: Seq<ImportFile<TypeStage2>>, bs: Seq<(Seq<char>, Seq<(Seq<char>, Seq<int>, Seq<int>)>)>) -> bool {
    forall|b: int, o: int, j: int|
        0 <= b < bs.len() && 0 <= o < bs[b].1.len() && 0 <= j < bs[b].1[o].2.len() ==> is_pack_file(
            fs,
            #[trigger] bs[b].1[o].2[j],
        )
}

proof fn lemma_all_subs_are_packs(fs: Seq<ImportFile<TypeStage2>>, packs: Seq<Option<PackJson>>, k: int)
    requires
        k >= 0,
    ensures
        subs_are_packs(fs, all_branches(fs, packs, k).map_values(|x: (int, (Seq<char>, Seq<(Seq<char>, Seq<int>, Seq<int>)>))| branch_body(x))),
    decreases k,
{
    if k > 0 {
        lemma_all_subs_are_packs(fs, packs, k - 1);
        lemma_all_branches_len(fs, packs, k - 1);
        let prev = all_branches(fs, packs, k - 1).map_values(|x: (int, (Seq<char>, Seq<(Seq<char>, Seq<int>, Seq<int>)>))| branch_body(x));
        let rb = root_branches(fs, packs, k - 1);
        let cur = all_branches(fs, packs, k).map_values(|x: (int, (Seq<char>, Seq<(Seq<char>, Seq<int>, Seq<int>)>))| branch_body(x));
        assert(cur == prev + rb);
        let dir = root_dir(fs, k - 1);
        let p = root_pack(fs, packs, k - 1);
        let ch = root_children(fs, k - 1);
        assert forall|b: int, o: int, j: int|
            0 <= b < cur.len() && 0 <= o < cur[b].1.len() && 0 <= j < cur[b].1[o].2.len() implies is_pack_file(
                fs,
                #[trigger] cur[b].1[o].2[j],
            ) by {
            if b >= prev.len() {
                let s = b - prev.len();
                assert(cur[b] == rb[s]);
                let sv = set_views(p)[s];
                assert(rb[s] == (sv.0, expected_options(fs, dir, p, ch, sv.1)));
                let names = sv.1[o].1;
                lemma_option_members(fs, dir, p, ch, names, names.len() as int, true);
            } else {
                assert(cur[b] == prev[b]);
            }
        }
    }
}

/// One option of a decision: a description, the files it imports and the ids of the
/// decisions it opens.
pub struct DecisionTreeOption {
    pub description: String,
    /// The files, by position among the partitioned files.
    pub files: Vec<usize>,
    /// The ids of the trees below this option.
    pub subtrees: Vec<u64>,
}

/// A decision between options.
pub struct DecisionTree {
    pub id: u64,
    pub description: String,
    pub options: Vec<DecisionTreeOption>,
}

/// Decision trees, each at the position of its id, and the ids of those that hang
/// below no option.
pub struct DecisionForest {
    pub trees: Vec<DecisionTree>,
    pub roots: Vec<u64>,
}

/// A list of ids as integers.
pub open spec fn ids_view(v: Seq<u64>) -> Seq<int> {
    v.map_values(|x: u64| x as int)
}

/// An option as its description, files and subtree ids.
pub open spec fn option_view(o: DecisionTreeOption) -> (Seq<char>, Seq<int>, Seq<int>) {
    (o.description@, ints(o.files@), ids_view(o.subtrees@))
}

/// A tree as its id, description and options.
pub open spec fn tree_view(t: DecisionTree) -> TreeView {
    TreeView {
        id: t.id as int,
        description: t.description@,
        options: t.options@.map_values(|o: DecisionTreeOption| option_view(o)),
    }
}

/// The trees of a forest.
pub open spec fn trees_view(ts: Seq<DecisionTree>) -> Seq<TreeView> {
    ts.map_values(|t: DecisionTree| tree_view(t))
}

/// The trees that partitioning gives: where there is no pack.json, one tree that
/// imports all files; otherwise one tree per import set of each pack.json, then, where
/// there are loose files, one tree that imports them.
pub open spec fn expected_forest_trees(fs: Seq<ImportFile<TypeStage2>>, packs: Seq<Option<PackJson>>) -> Seq<TreeView> {
    let nr = pack_roots(fs).len() as int;
    let nb = all_branches(fs, packs, nr).len();
    let loose = loose_files(fs, packs, nr);
    if nr == 0 {
        seq![TreeView {
            id: 0,
            description: "content pack"@,
            options: seq![("all content pack data"@, unowned_files(fs, fs.len() as int), seq![])],
        }]
    } else {
        Seq::new(nb, |b: int| expected_tree(fs, packs, b)) + if loose.len() > 0 {
            seq![TreeView {
                id: nb as int,
                description: "content pack"@,
                options: seq![("loose files"@, loose, seq![])],
            }]
        } else {
            seq![]
        }
    }
}

/// The ids of the trees that hang below no option.
pub open spec fn expected_forest_roots(fs: Seq<ImportFile<TypeStage2>>, packs: Seq<Option<PackJson>>) -> Seq<int> {
    let nr = pack_roots(fs).len() as int;
    let nb = all_branches(fs, packs, nr).len();
    let loose = loose_files(fs, packs, nr);
    if nr == 0 {
        seq![0]
    } else {
        forest_roots(fs, packs, nr) + if loose.len() > 0 {
            seq![nb as int]
        } else {
            seq![]
        }
    }
}

/// The trees of a partition have their positions as ids.
pub proof fn lemma_forest_ids_are_positions(
    fs: Seq<ImportFile<TypeStage2>>,
    packs: Seq<Option<PackJson>>,
    trees: Seq<DecisionTree>,
)
    requires
        trees_view(trees) == expected_forest_trees(fs, packs),
    ensures
        forall|t: int| 0 <= t < trees.len() ==> #[trigger] trees[t].id == t,
{
    let nr = pack_roots(fs).len() as int;
    let nb = all_branches(fs, packs, nr).len();
    let loose = loose_files(fs, packs, nr);
    let ex = expected_forest_trees(fs, packs);
    assert(trees_view(trees).len() == trees.len());
    assert forall|t: int| 0 <= t < trees.len() implies #[trigger] trees[t].id == t by {
        assert(trees_view(trees)[t] == tree_view(trees[t]));
        assert(ex[t].id == trees[t].id as int);
        if nr == 0 {
            assert(ex.len() == 1);
        } else {
            let head = Seq::new(nb, |b: int| expected_tree(fs, packs, b));
            if t < nb {
                assert(ex[t] == head[t]);
                assert(head[t].id == t);
            } else {
                assert(loose.len() > 0);
                assert(ex.len() == nb + 1);
                assert(ex[t].id == nb);
            }
        }
    }
}

proof fn lemma_all_branches_mono(fs: Seq<ImportFile<TypeStage2>>, packs: Seq<Option<PackJson>>, k1: int, k2: int)
    requires
        0 <= k1 <= k2,
    ensures
        all_branches(fs, packs, k1).len() <= all_branches(fs, packs, k2).len(),
        forall|j: int| 0 <= j < all_branches(fs, packs, k1).len() ==> all_branches(fs, packs, k2)[j] == #[trigger] all_branches(fs, packs, k1)[j],
    decreases k2 - k1,
{
    if k1 < k2 {
        lemma_all_branches_mono(fs, packs, k1, k2 - 1);
        lemma_all_branches_len(fs, packs, k2 - 1);
    }
}

/// The ids of the trees of the nested pack.json files `subs`.
fn sub_ids_exec(
    subs: &Vec<usize>,
    roots: &Roots,
    offsets: &Vec<usize>,
    sizes: &Vec<usize>,
    nb: usize,
    Ghost(fs): Ghost<Seq<ImportFile<TypeStage2>>>,
    Ghost(packs): Ghost<Seq<Option<PackJson>>>,
) -> (r: Vec<u64>)
    requires
        roots_collected(fs, packs, *roots),
        forall|k: int| 0 <= k < subs.len() ==> is_pack_file(fs, #[trigger] subs@[k] as int),
        offsets.len() == roots.files.len(),
        sizes.len() == roots.files.len(),
        forall|q: int| 0 <= q < offsets.len() ==> #[trigger] offsets@[q] as int == all_branches(fs, packs, q).len(),
        forall|q: int| 0 <= q < sizes.len() ==> #[trigger] sizes@[q] as int == root_branches(fs, packs, q).len(),
        nb as int == all_branches(fs, packs, pack_roots(fs).len() as int).len(),
    ensures
        ids_view(r@) == sub_ids(fs, packs, ints(subs@), subs.len() as int),
{
    let ghost rts = pack_roots(fs);
    proof {
        lemma_roots_of(fs, fs.len() as int);
    }
    let mut out: Vec<u64> = Vec::new();
    let mut k: usize = 0;
    while k < subs.len()
        invariant
            roots_collected(fs, packs, *roots),
            rts == pack_roots(fs),
            ints(roots.files@) == rts,
            forall|k2: int| 0 <= k2 < rts.len() ==> 0 <= #[trigger] rts[k2] < fs.len() && is_pack_file(fs, rts[k2]),
            forall|k1: int, k2: int| 0 <= k1 < k2 < rts.len() ==> rts[k1] < rts[k2],
            forall|j: int| 0 <= j < fs.len() && is_pack_file(fs, j) ==> rts.contains(j),
            forall|k2: int| 0 <= k2 < subs.len() ==> is_pack_file(fs, #[trigger] subs@[k2] as int),
            offsets.len() == roots.files.len(),
            sizes.len() == roots.files.len(),
            forall|q: int| 0 <= q < offsets.len() ==> #[trigger] offsets@[q] as int == all_branches(fs, packs, q).len(),
            forall|q: int| 0 <= q < sizes.len() ==> #[trigger] sizes@[q] as int == root_branches(fs, packs, q).len(),
            nb as int == all_branches(fs, packs, pack_roots(fs).len() as int).len(),
            k <= subs.len(),
            ids_view(out@) == sub_ids(fs, packs, ints(subs@), k as int),
        decreases subs.len() - k,
    {
        let f = subs[k];
        assert(is_pack_file(fs, f as int));
        assert(rts.contains(f as int));
        let mut q: usize = 0;
        while q < roots.files.len() && roots.files[q] != f
            invariant
                ints(roots.files@) == rts,
                rts.contains(f as int),
                q <= roots.files.len(),
                forall|q2: int| 0 <= q2 < q ==> rts[q2] != f,
            decreases roots.files.len() - q,
        {
            q = q + 1;
        }
        if q >= roots.files.len() {
            proof {
                let w = choose|w: int| 0 <= w < rts.len() && rts[w] == f as int;
                assert(rts[w] != f);
            }
            return out;
        }
        assert(rts[q as int] == f as int);
        proof {
            let c = root_pos(fs, f as int);
            assert(0 <= c < rts.len() && rts[c] == f as int);
            if c < q as int {
                assert(rts[c] < rts[q as int]);
            } else if c > q as int {
                assert(rts[q as int] < rts[c]);
            }
            assert(c == q as int);
            lemma_all_branches_len(fs, packs, q as int);
            lemma_all_branches_mono(fs, packs, q as int + 1, rts.len() as int);
        }
        let base = offsets[q];
        let size = sizes[q];
        assert(base + size <= nb);
        let ghost before = ids_view(out@);
        let mut j: usize = 0;
        while j < size
            invariant
                base + size <= nb,
                j <= size,
                ids_view(out@) == before + Seq::new(j as nat, |i: int| base + i),
            decreases size - j,
        {
            let ghost prev = out@;
            out.push((base + j) as u64);
            assert(ids_view(out@) =~= ids_view(prev).push((base + j) as int));
            j = j + 1;
            assert(ids_view(out@) =~= before + Seq::new(j as nat, |i: int| base + i));
        }
        assert(root_ids(fs, packs, q as int) =~= Seq::new(size as nat, |i: int| base + i));
        assert(sub_ids(fs, packs, ints(subs@), k as int + 1) == before + root_ids(fs, packs, q as int));
        k = k + 1;
    }
    out
}

/// Whether every pack.json file was parsed, has valid patterns and lies in a directory.
pub open spec fn all_packs_usable(fs: Seq<ImportFile<TypeStage2>>, packs: Seq<Option<PackJson>>) -> bool {
    forall|j: int| 0 <= j < fs.len() && is_pack_file(fs, j) ==> pack_usable(fs, packs, j)
}

/// Partitions the files into decision trees, or finds the first unusable pack.json, or a
/// nested pack.json that hangs below two options.
fn partition_checked(fs: &Vec<ImportFile<TypeStage2>>, packs: &Vec<Option<PackJson>>) -> (r: Result<
    DecisionForest,
    PartitionFault,
>)
    requires
        packs_resolvable(packs@),
    ensures
        match r {
            Err(PartitionFault::InvalidPackJson { file }) => is_pack_file(fs@, file as int) && !pack_usable(
                fs@,
                packs@,
                file as int,
            ) && forall|j: int| 0 <= j < file && is_pack_file(fs@, j) ==> pack_usable(fs@, packs@, j),
            Err(PartitionFault::NestedPackReachedTwice { file }) => all_packs_usable(fs@, packs@) && exists|q: int|
                0 <= q < pack_roots(fs@).len() && reached_twice(fs@, packs@, q) && file as int == pack_roots(
                    fs@,
                )[q],
            Ok(forest) => all_packs_usable(fs@, packs@) && (forall|q: int|
                0 <= q < pack_roots(fs@).len() ==> !reached_twice(fs@, packs@, q)) && trees_view(forest.trees@)
                == expected_forest_trees(fs@, packs@) && ids_view(forest.roots@) == expected_forest_roots(
                fs@,
                packs@,
            ),
        },
{
    let roots = match collect_roots(fs, packs) {
        Err(i) => {
            return Err(PartitionFault::InvalidPackJson { file: i });
        },
        Ok(r) => r,
    };
    let near = nearest_roots(fs, &roots, Ghost(packs@));
    let l = layout(fs, packs, &roots, &near);
    let ghost rts = pack_roots(fs@);
    let ghost nr = rts.len() as int;
    let ghost bs = all_branches(fs@, packs@, nr);
    let ghost bodies = bs.map_values(|x: (int, (Seq<char>, Seq<(Seq<char>, Seq<int>, Seq<int>)>))| branch_body(x));
    assert(ints(roots.files@) == rts);
    assert(roots.files.len() == rts.len());
    if roots.files.len() == 0 {
        let mut options: Vec<DecisionTreeOption> = Vec::new();
        options.push(DecisionTreeOption {
            description: String::from_str("all content pack data"),
            files: l.loose,
            subtrees: Vec::new(),
        });
        let mut trees: Vec<DecisionTree> = Vec::new();
        trees.push(DecisionTree { id: 0, description: String::from_str("content pack"), options });
        let mut roots_out: Vec<u64> = Vec::new();
        roots_out.push(0);
        proof {
            reveal_strlit("all content pack data");
            reveal_strlit("content pack");
            assert(ids_view(trees@[0].options@[0].subtrees@) =~= Seq::<int>::empty());
            assert(trees@[0].options@.map_values(|o: DecisionTreeOption| option_view(o)) =~= seq![
                ("all content pack data"@, unowned_files(fs@, fs.len() as int), Seq::<int>::empty()),
            ]);
            assert(trees_view(trees@) =~= expected_forest_trees(fs@, packs@));
            assert(ids_view(roots_out@) =~= expected_forest_roots(fs@, packs@));
            assert forall|q: int| 0 <= q < pack_roots(fs@).len() implies !reached_twice(fs@, packs@, q) by {}
        }
        return Ok(DecisionForest { trees, roots: roots_out });
    }
    proof {
        lemma_all_subs_are_packs(fs@, packs@, nr);
        assert(l.flat@.map_values(|b: FlatBranch| flat_branch_view(b)) == bodies);
    }
    let nb = l.flat.len();
    proof {
        assert(l.flat@.map_values(|b: FlatBranch| flat_branch_view(b)).len() == l.flat.len());
        assert(bodies.len() == bs.len());
    }
    assert(nb as int == bs.len());
    // gather every nested pack.json below an option
    let mut subs_all: Vec<usize> = Vec::new();
    let mut b: usize = 0;
    while b < nb
        invariant
            nb == l.flat.len(),
            nb as int == bs.len(),
            bodies == bs.map_values(|x: (int, (Seq<char>, Seq<(Seq<char>, Seq<int>, Seq<int>)>))| branch_body(x)),
            l.flat@.map_values(|b: FlatBranch| flat_branch_view(b)) == bodies,
            b <= nb,
            ints(subs_all@) == branch_subs(bs, b as int),
        decreases nb - b,
    {
        let br = &l.flat[b];
        assert(flat_branch_view(*br) == bodies[b as int]);
        assert(bodies[b as int] == bs[b as int].1);
        let ghost opts = bs[b as int].1.1;
        assert(br.options@.map_values(|o: FlatOption| flat_option_view(o)) == opts);
        let ghost start = ints(subs_all@);
        let mut o: usize = 0;
        while o < br.options.len()
            invariant
                br.options@.map_values(|o: FlatOption| flat_option_view(o)) == opts,
                o <= br.options.len(),
                ints(subs_all@) == start + option_subs(opts, o as int),
            decreases br.options.len() - o,
        {
            let opt = &br.options[o];
            assert(flat_option_view(*opt) == opts[o as int]);
            let ghost before = ints(subs_all@);
            let mut j: usize = 0;
            while j < opt.subs.len()
                invariant
                    j <= opt.subs.len(),
                    ints(subs_all@) == before + ints(opt.subs@).subrange(0, j as int),
                decreases opt.subs.len() - j,
            {
                let ghost prev = subs_all@;
                subs_all.push(opt.subs[j]);
                assert(ints(subs_all@) =~= ints(prev).push(opt.subs@[j as int] as int));
                j = j + 1;
                assert(ints(subs_all@) =~= before + ints(opt.subs@).subrange(0, j as int));
            }
            assert(ints(opt.subs@).subrange(0, opt.subs.len() as int) =~= ints(opt.subs@));
            assert(ints(subs_all@) =~= start + option_subs(opts, o as int + 1));
            o = o + 1;
        }
        assert(ints(subs_all@) =~= branch_subs(bs, b as int + 1));
        b = b + 1;
    }
    assert(ints(subs_all@) == all_subs(fs@, packs@));
    // a nested pack.json with branches may hang below one option only
    let mut q: usize = 0;
    while q < roots.files.len()
        invariant
            all_packs_usable(fs@, packs@),
            rts == pack_roots(fs@),
            ints(roots.files@) == rts,
            l.sizes.len() == rts.len(),
            forall|r2: int| 0 <= r2 < l.sizes.len() ==> #[trigger] l.sizes@[r2] as int == root_branches(fs@, packs@, r2).len(),
            ints(subs_all@) == all_subs(fs@, packs@),
            q <= roots.files.len(),
            forall|q2: int| 0 <= q2 < q ==> !reached_twice(fs@, packs@, q2),
        decreases roots.files.len() - q,
    {
        let f = roots.files[q];
        assert(rts[q as int] == f as int);
        let mut count: usize = 0;
        let mut j: usize = 0;
        while j < subs_all.len()
            invariant
                j <= subs_all.len(),
                count <= j,
                count == occurrences(ints(subs_all@), f as int, j as int),
            decreases subs_all.len() - j,
        {
            if subs_all[j] == f {
                count = count + 1;
            }
            j = j + 1;
        }
        assert(count == occurrences(ints(subs_all@), f as int, subs_all.len() as int));
        if l.sizes[q] >= 1 && count >= 2 {
            assert(rts[q as int] == f as int);
            assert(ints(subs_all@) == all_subs(fs@, packs@));
            assert(l.sizes@[q as int] as int == root_branches(fs@, packs@, q as int).len());
            assert(ints(subs_all@).len() == subs_all.len());
            assert(all_subs(fs@, packs@).len() == subs_all.len());
            assert(occurrences(all_subs(fs@, packs@), pack_roots(fs@)[q as int], all_subs(fs@, packs@).len() as int) == count);
            assert(reached_twice(fs@, packs@, q as int));
            return Err(PartitionFault::NestedPackReachedTwice { file: f });
        }
        q = q + 1;
    }
    // the trees, one per branch
    let mut trees: Vec<DecisionTree> = Vec::new();
    let mut flat = l.flat;
    let ghost flat0 = flat@;
    b = 0;
    while b < nb
        invariant
            roots_collected(fs@, packs@, roots),
            nb == flat0.len(),
            nb as int == bs.len(),
            bs == all_branches(fs@, packs@, pack_roots(fs@).len() as int),
            bodies == bs.map_values(|x: (int, (Seq<char>, Seq<(Seq<char>, Seq<int>, Seq<int>)>))| branch_body(x)),
            flat0.map_values(|b: FlatBranch| flat_branch_view(b)) == bodies,
            subs_are_packs(fs@, bodies),
            flat@ == flat0.subrange(b as int, nb as int),
            l.offsets.len() == roots.files.len(),
            l.sizes.len() == roots.files.len(),
            forall|q2: int| 0 <= q2 < l.offsets.len() ==> #[trigger] l.offsets@[q2] as int == all_branches(fs@, packs@, q2).len(),
            forall|q2: int| 0 <= q2 < l.sizes.len() ==> #[trigger] l.sizes@[q2] as int == root_branches(fs@, packs@, q2).len(),
            b <= nb,
            trees.len() == b,
            forall|k: int| 0 <= k < b ==> #[trigger] tree_view(trees@[k]) == expected_tree(fs@, packs@, k),
        decreases nb - b,
    {
        assert(flat@[0] == flat0[b as int]);
        let br = flat.remove(0);
        assert(flat@ =~= flat0.subrange(b as int + 1, nb as int));
        assert(flat_branch_view(br) == bodies[b as int]);
        let FlatBranch { title, options } = br;
        let ghost opts = bodies[b as int].1;
        assert(options@.map_values(|o: FlatOption| flat_option_view(o)) == opts);
        let ghost opts0 = options@;
        let n_opts = options.len();
        let mut options = options;
        let mut out_opts: Vec<DecisionTreeOption> = Vec::new();
        let mut o: usize = 0;
        while o < n_opts
            invariant
                roots_collected(fs@, packs@, roots),
                n_opts == opts0.len(),
                opts0.map_values(|o: FlatOption| flat_option_view(o)) == opts,
                b < nb,
                nb as int == bs.len(),
                bs == all_branches(fs@, packs@, pack_roots(fs@).len() as int),
                subs_are_packs(fs@, bodies),
                bodies.len() == nb,
                opts == bodies[b as int].1,
                options@ == opts0.subrange(o as int, n_opts as int),
                l.offsets.len() == roots.files.len(),
                l.sizes.len() == roots.files.len(),
                forall|q2: int| 0 <= q2 < l.offsets.len() ==> #[trigger] l.offsets@[q2] as int == all_branches(fs@, packs@, q2).len(),
                forall|q2: int| 0 <= q2 < l.sizes.len() ==> #[trigger] l.sizes@[q2] as int == root_branches(fs@, packs@, q2).len(),
                o <= n_opts,
                out_opts.len() == o,
                forall|k: int| 0 <= k < o ==> #[trigger] option_view(out_opts@[k]) == (opts[k].0, opts[k].1, sub_ids(fs@, packs@, opts[k].2, opts[k].2.len() as int)),
            decreases n_opts - o,
        {
            assert(options@[0] == opts0[o as int]);
            let fo = options.remove(0);
            assert(options@ =~= opts0.subrange(o as int + 1, n_opts as int));
            assert(flat_option_view(fo) == opts[o as int]);
            assert forall|k: int| 0 <= k < fo.subs.len() implies is_pack_file(fs@, #[trigger] fo.subs@[k] as int) by {
                assert(bodies[b as int].1[o as int].2[k] == fo.subs@[k] as int);
            }
            let ids = sub_ids_exec(&fo.subs, &roots, &l.offsets, &l.sizes, nb, Ghost(fs@), Ghost(packs@));
            let FlatOption { description, files, subs } = fo;
            out_opts.push(DecisionTreeOption { description, files, subtrees: ids });
            o = o + 1;
        }
        let ghost ov = out_opts@.map_values(|x: DecisionTreeOption| option_view(x));
        assert(ov =~= opts.map_values(
            |x: (Seq<char>, Seq<int>, Seq<int>)| (x.0, x.1, sub_ids(fs@, packs@, x.2, x.2.len() as int)),
        ));
        trees.push(DecisionTree { id: b as u64, description: title, options: out_opts });
        b = b + 1;
    }
    // the roots
    let mut roots_out: Vec<u64> = Vec::new();
    let mut r2: usize = 0;
    while r2 < roots.files.len()
        invariant
            ints(roots.files@) == rts,
            nr == rts.len(),
            rts == pack_roots(fs@),
            nb as int == all_branches(fs@, packs@, nr).len(),
            ints(subs_all@) == all_subs(fs@, packs@),
            l.offsets.len() == roots.files.len(),
            l.sizes.len() == roots.files.len(),
            forall|q2: int| 0 <= q2 < l.offsets.len() ==> #[trigger] l.offsets@[q2] as int == all_branches(fs@, packs@, q2).len(),
            forall|q2: int| 0 <= q2 < l.sizes.len() ==> #[trigger] l.sizes@[q2] as int == root_branches(fs@, packs@, q2).len(),
            r2 <= roots.files.len(),
            ids_view(roots_out@) == forest_roots(fs@, packs@, r2 as int),
        decreases roots.files.len() - r2,
    {
        let f = roots.files[r2];
        assert(rts[r2 as int] == f as int);
        let mut found = false;
        let mut j: usize = 0;
        while j < subs_all.len()
            invariant
                j <= subs_all.len(),
                found <==> exists|x: int| 0 <= x < j && #[trigger] subs_all@[x] == f,
            decreases subs_all.len() - j,
        {
            if subs_all[j] == f {
                found = true;
            }
            j = j + 1;
        }
        proof {
            if found {
                let x = choose|x: int| 0 <= x < subs_all.len() && #[trigger] subs_all@[x] == f;
                assert(ints(subs_all@)[x] == f as int);
            } else {
                if ints(subs_all@).contains(f as int) {
                    let x = choose|x: int| 0 <= x < subs_all.len() && ints(subs_all@)[x] == f as int;
                    assert(subs_all@[x] == f);
                }
            }
            assert(found == all_subs(fs@, packs@).contains(rts[r2 as int]));
        }
        if !found {
            let base = l.offsets[r2];
            let size = l.sizes[r2];
            proof {
                lemma_all_branches_len(fs@, packs@, r2 as int);
                lemma_all_branches_mono(fs@, packs@, r2 as int + 1, nr);
            }
            let ghost before = ids_view(roots_out@);
            let mut k: usize = 0;
            while k < size
                invariant
                    base + size <= nb,
                    k <= size,
                    ids_view(roots_out@) == before + Seq::new(k as nat, |i: int| base + i),
                decreases size - k,
            {
                let ghost prev = roots_out@;
                roots_out.push((base + k) as u64);
                assert(ids_view(roots_out@) =~= ids_view(prev).push((base + k) as int));
                k = k + 1;
                assert(ids_view(roots_out@) =~= before + Seq::new(k as nat, |i: int| base + i));
            }
            assert(root_ids(fs@, packs@, r2 as int) =~= Seq::new(size as nat, |i: int| base + i));
        }
        r2 = r2 + 1;
    }
    let ghost loose_v = loose_files(fs@, packs@, nr);
    if l.loose.len() > 0 {
        let mut options: Vec<DecisionTreeOption> = Vec::new();
        options.push(DecisionTreeOption {
            description: String::from_str("loose files"),
            files: l.loose,
            subtrees: Vec::new(),
        });
        trees.push(DecisionTree { id: nb as u64, description: String::from_str("content pack"), options });
        roots_out.push(nb as u64);
        proof {
            reveal_strlit("loose files");
            reveal_strlit("content pack");
            assert(ids_view(trees@[nb as int].options@[0].subtrees@) =~= Seq::<int>::empty());
            assert(trees@[nb as int].options@.map_values(|o: DecisionTreeOption| option_view(o)) =~= seq![
                ("loose files"@, loose_v, Seq::<int>::empty()),
            ]);
        }
    }
    assert(trees_view(trees@) =~= expected_forest_trees(fs@, packs@));
    assert(ids_view(roots_out@) =~= expected_forest_roots(fs@, packs@));
    Ok(DecisionForest { trees, roots: roots_out })
}

/// Whether no nested pack.json hangs below two options, where every pack.json is usable.
/// Partitioning needs this.
pub open spec fn nested_packs_once(fs: Seq<ImportFile<TypeStage2>>, packs: Seq<Option<PackJson>>) -> bool {
    all_packs_usable(fs, packs) ==> forall|q: int| 0 <= q < pack_roots(fs).len() ==> !reached_twice(fs, packs, q)
}

/// Checks that no nested pack.json hangs below two options, where every pack.json is usable.
pub fn nested_packs_reached_once(fs: &Vec<ImportFile<TypeStage2>>, packs: &Vec<Option<PackJson>>) -> (r: bool)
    requires
        packs_resolvable(packs@),
    ensures
        r == nested_packs_once(fs@, packs@),
{
    match partition_checked(fs, packs) {
        Err(PartitionFault::NestedPackReachedTwice { .. }) => false,
        Err(PartitionFault::InvalidPackJson { .. }) => true,
        Ok(_) => true,
    }
}

/// Partitions the files into decision trees. `packs` holds, at the position of each
/// pack.json file, its parsed contents (`None` where it could not be parsed). No nested
/// pack.json may hang below two options.
///
/// Each file belongs to the nearest pack.json whose directory holds it; a pack.json
/// belongs to the nearest one above its own directory. A file of a pack.json joins
/// each group once for every pattern of the group that matches its path relative to
/// the pack.json's directory. Each import set of a pack.json becomes a tree whose
/// options import the files of the groups they enable; nested pack.json files hang
/// below the options that include them. Files of no pack.json, and files that no
/// group matches, are loose and imported by a tree of their own.
pub fn partition_import_groups(fs: &Vec<ImportFile<TypeStage2>>, packs: &Vec<Option<PackJson>>) -> (r: Result<
    DecisionForest,
    PartitionError,
>)
    requires
        packs_resolvable(packs@),
        nested_packs_once(fs@, packs@),
    ensures
        match r {
            Err(PartitionError::InvalidPackJson { file }) => is_pack_file(fs@, file as int) && !pack_usable(
                fs@,
                packs@,
                file as int,
            ) && forall|j: int| 0 <= j < file && is_pack_file(fs@, j) ==> pack_usable(fs@, packs@, j),
            Ok(forest) => all_packs_usable(fs@, packs@) && trees_view(forest.trees@) == expected_forest_trees(
                fs@,
                packs@,
            ) && ids_view(forest.roots@) == expected_forest_roots(fs@, packs@),
        },
{
    match partition_checked(fs, packs) {
        Ok(forest) => Ok(forest),
        Err(PartitionFault::InvalidPackJson { file }) => Err(PartitionError::InvalidPackJson { file }),
        Err(PartitionFault::NestedPackReachedTwice { file }) => {
            // Ruled out by the precondition.
            proof {
                let q = choose|q: int| 0 <= q < pack_roots(fs@).len() && reached_twice(fs@, packs@, q) && file as int == pack_roots(fs@)[q];
                assert(false);
            }
            Err(PartitionError::InvalidPackJson { file })
        },
    }
}

} // verus!
