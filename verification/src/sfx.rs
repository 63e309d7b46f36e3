//! Matching custom sound effects against the sprites of the base game's sound
//! definition: which sprite each custom sound replaces, which custom sounds replace
//! nothing, and which sprites keep the base game's sound.
use vstd::prelude::*;

use crate::text::{chars_of, matches_at, str_equals};

verus! {

/// `s` with every occurrence of `key` taken out, occurrences found from the left
/// without overlapping.
pub open spec fn remove_all(s: Seq<char>, key: Seq<char>) -> Seq<char>
    decreases s.len(),
{
    if key.len() == 0 || s.len() < key.len() {
        s
    } else if s.take(key.len() as int) == key {
        remove_all(s.skip(key.len() as int), key)
    } else {
        seq![s[0]] + remove_all(s.skip(1), key)
    }
}

/// The file key of sound effects, which a sound effect's name may carry.
pub open spec fn sfx_key() -> Seq<char> {
    "_sfx"@
}

/// Takes every occurrence of `key` out of `name`; `key` must not be empty.
pub fn remove_key(name: &str, key: &str) -> (r: String)
    requires
        key@.len() > 0,
    ensures
        r@ == remove_all(name@, key@),
{
    let hay = chars_of(name);
    let needle = chars_of(key);
    let n = hay.len();
    let k = needle.len();
    let mut out = String::new();
    let mut i: usize = 0;
    assert(name@.skip(0) =~= name@);
    assert(out@ + remove_all(name@, key@) =~= remove_all(name@, key@));
    while i < n
        invariant
            hay@ == name@,
            needle@ == key@,
            n == name@.len(),
            k == key@.len(),
            k > 0,
            i <= n,
            out@ + remove_all(name@.skip(i as int), key@) == remove_all(name@, key@),
        decreases n - i,
    {
        let ghost rest = name@.skip(i as int);
        if k <= n - i && matches_at(&hay, &needle, i) {
            assert(rest.take(k as int) =~= name@.subrange(i as int, i + k));
            assert(rest.skip(k as int) =~= name@.skip(i + k));
            i = i + k;
        } else {
            if k <= n - i {
                assert(rest.take(k as int) =~= name@.subrange(i as int, i + k));
            }
            assert(rest.skip(1) =~= name@.skip(i + 1));
            let piece = name.substring_char(i, i + 1);
            let ghost before = out@;
            out.append(piece);
            assert(piece@ =~= seq![rest[0]]);
            assert(out@ + remove_all(name@.skip(i + 1), key@) =~= before + (seq![rest[0]] + remove_all(
                rest.skip(1),
                key@,
            )));
            i = i + 1;
        }
    }
    assert(name@.skip(n as int) =~= Seq::<char>::empty());
    assert(out@ + remove_all(name@.skip(n as int), key@) =~= out@);
    out
}

/// The position of the last of the first `n` sprites named `name`.
pub open spec fn last_named(sprites: Seq<Seq<char>>, name: Seq<char>, n: int) -> Option<int>
    decreases n,
{
    if n <= 0 {
        None
    } else if sprites[n - 1] == name {
        Some(n - 1)
    } else {
        last_named(sprites, name, n - 1)
    }
}

/// The sprite that the sound effect named `name` replaces, before any is taken: the last
/// sprite with the name it has once its file key is taken out.
pub open spec fn target_sprite(sprites: Seq<Seq<char>>, name: Seq<char>) -> Option<int> {
    last_named(sprites, remove_all(name, sfx_key()), sprites.len() as int)
}

/// The replacements the first `k` sound effects make, in order, as pairs of sound effect
/// and sprite. A sound effect replaces its target sprite unless an earlier one already did.
pub open spec fn replacements(names: Seq<Seq<char>>, sprites: Seq<Seq<char>>, k: int) -> Seq<(int, int)>
    decreases k,
{
    if k <= 0 {
        seq![]
    } else {
        let prev = replacements(names, sprites, k - 1);
        match target_sprite(sprites, names[k - 1]) {
            Some(j) => if exists|m: int| 0 <= m < prev.len() && #[trigger] prev[m].1 == j {
                prev
            } else {
                prev.push((k - 1, j))
            },
            None => prev,
        }
    }
}

/// Whether sprite `j` is the last sprite with its name.
pub open spec fn last_of_its_name(sprites: Seq<Seq<char>>, j: int) -> bool {
    forall|m: int| j < m < sprites.len() ==> sprites[m] != sprites[j]
}

/// Whether a replacement takes sprite `j`.
pub open spec fn replaced(used: Seq<(int, int)>, j: int) -> bool {
    exists|m: int| 0 <= m < used.len() && #[trigger] used[m].1 == j
}

/// The sprites among the first `n` that keep the base game's sound, in order: of each
/// name the last sprite, where no sound effect replaces it.
pub open spec fn kept_sprites(sprites: Seq<Seq<char>>, used: Seq<(int, int)>, n: int) -> Seq<int>
    decreases n,
{
    if n <= 0 {
        seq![]
    } else if last_of_its_name(sprites, n - 1) && !replaced(used, n - 1) {
        kept_sprites(sprites, used, n - 1).push(n - 1)
    } else {
        kept_sprites(sprites, used, n - 1)
    }
}

/// How the custom sound effects and the base game's sprites combine.
pub struct SoundEffectPlan {
    /// Pairs of a sound effect and the sprite it replaces, in the order of the sound effects.
    pub replacements: Vec<(usize, usize)>,
    /// The sprites that keep the base game's sound.
    pub kept: Vec<usize>,
}

/// Positions as integers.
pub open spec fn pair_ints(v: Seq<(usize, usize)>) -> Seq<(int, int)> {
    v.map_values(|p: (usize, usize)| (p.0 as int, p.1 as int))
}

/// Positions as integers.
pub open spec fn index_ints(v: Seq<usize>) -> Seq<int> {
    v.map_values(|x: usize| x as int)
}

/// The names of a list of strings.
pub open spec fn names_of(v: Seq<String>) -> Seq<Seq<char>> {
    v.map_values(|s: String| s@)
}

proof fn lemma_last_named(sprites: Seq<Seq<char>>, name: Seq<char>, n: int)
    requires
        0 <= n <= sprites.len(),
    ensures
        last_named(sprites, name, n) matches Some(j) ==> 0 <= j < n && sprites[j] == name
            && forall|m: int| j < m < n ==> sprites[m] != name,
        last_named(sprites, name, n) is None ==> forall|m: int| 0 <= m < n ==> sprites[m] != name,
    decreases n,
{
    if n > 0 {
        lemma_last_named(sprites, name, n - 1);
    }
}

/// Finds the last sprite named `name`.
fn find_last(sprites: &Vec<String>, name: &str) -> (r: Option<usize>)
    ensures
        match last_named(names_of(sprites@), name@, sprites@.len() as int) {
            Some(j) => r == Some(j as usize),
            None => r is None,
        },
{
    let ghost ns = names_of(sprites@);
    let mut i: usize = sprites.len();
    while i > 0
        invariant
            i <= sprites@.len(),
            ns == names_of(sprites@),
            last_named(ns, name@, sprites@.len() as int) == last_named(ns, name@, i as int),
        decreases i,
    {
        if str_equals(sprites[i - 1].as_str(), name) {
            assert(ns[i - 1] == name@);
            return Some(i - 1);
        }
        i = i - 1;
    }
    None
}

/// Plans which sprite each custom sound effect replaces, by name with its file key taken
/// out, and which sprites keep the base game's sound. A sound effect whose sprite is
/// unknown, or was already replaced by an earlier one, replaces nothing.
pub fn plan_sound_effects(names: &Vec<String>, sprites: &Vec<String>) -> (r: SoundEffectPlan)
    ensures
        pair_ints(r.replacements@) == replacements(names_of(names@), names_of(sprites@), names@.len() as int),
        index_ints(r.kept@) == kept_sprites(
            names_of(sprites@),
            replacements(names_of(names@), names_of(sprites@), names@.len() as int),
            sprites@.len() as int,
        ),
{
    let ghost ns = names_of(names@);
    let ghost ss = names_of(sprites@);
    let mut taken: Vec<bool> = Vec::new();
    let mut t: usize = 0;
    while t < sprites.len()
        invariant
            t <= sprites@.len(),
            taken@.len() == t,
            forall|m: int| 0 <= m < t ==> !taken@[m],
        decreases sprites@.len() - t,
    {
        taken.push(false);
        t = t + 1;
    }
    let mut used: Vec<(usize, usize)> = Vec::new();
    let mut i: usize = 0;
    assert(pair_ints(used@) =~= Seq::<(int, int)>::empty());
    while i < names.len()
        invariant
            ns == names_of(names@),
            ss == names_of(sprites@),
            i <= names@.len(),
            taken@.len() == sprites@.len(),
            pair_ints(used@) == replacements(ns, ss, i as int),
            forall|m: int| 0 <= m < used@.len() ==> (#[trigger] used@[m]).1 < sprites@.len(),
            forall|j: int| 0 <= j < sprites@.len() ==> (#[trigger] taken@[j] <==> replaced(pair_ints(used@), j)),
        decreases names@.len() - i,
    {
        proof {
            reveal_strlit("_sfx");
        }
        let stripped = remove_key(names[i].as_str(), "_sfx");
        assert(target_sprite(ss, ns[i as int]) == last_named(ss, stripped@, ss.len() as int));
        assert(ns[i as int] == names@[i as int]@);
        let found = find_last(sprites, stripped.as_str());
        let ghost prev = pair_ints(used@);
        match found {
            Some(j) => {
                proof {
                    lemma_last_named(ss, stripped@, ss.len() as int);
                    assert(ss.len() == sprites@.len() && sprites@.len() == sprites.len());
                    match last_named(ss, stripped@, ss.len() as int) {
                        Some(k) => {
                            assert(0 <= k < sprites.len());
                            assert(found == Some(k as usize));
                            assert(k == j as int);
                        },
                        None => {
                            assert(found is None);
                        },
                    }
                }
                assert(target_sprite(ss, ns[i as int]) == Some(j as int));
                if !taken[j] {
                    assert(!replaced(prev, j as int));
                    used.push((i, j));
                    taken.set(j, true);
                    assert(pair_ints(used@) =~= prev.push((i as int, j as int)));
                    assert(pair_ints(used@)[prev.len() as int].1 == j);
                    assert forall|j2: int| 0 <= j2 < sprites@.len() implies (#[trigger] taken@[j2] <==> replaced(
                        pair_ints(used@),
                        j2,
                    )) by {
                        let now = pair_ints(used@);
                        if j2 == j {
                            assert(now[prev.len() as int].1 == j2);
                        } else {
                            if replaced(now, j2) {
                                let m = choose|m: int| 0 <= m < now.len() && #[trigger] now[m].1 == j2;
                                assert(m < prev.len());
                                assert(prev[m].1 == j2);
                            }
                            if replaced(prev, j2) {
                                let m = choose|m: int| 0 <= m < prev.len() && #[trigger] prev[m].1 == j2;
                                assert(now[m].1 == j2);
                            }
                        }
                    }
                    assert(pair_ints(used@) == replacements(ns, ss, i + 1));
                } else {
                    assert(replaced(prev, j as int));
                    assert(prev == replacements(ns, ss, i + 1));
                }
            },
            None => {
                assert(prev == replacements(ns, ss, i + 1));
            },
        }
        i = i + 1;
    }
    let ghost all_used = pair_ints(used@);
    let mut kept: Vec<usize> = Vec::new();
    let mut j: usize = 0;
    while j < sprites.len()
        invariant
            ss == names_of(sprites@),
            all_used == pair_ints(used@),
            taken@.len() == sprites@.len(),
            forall|j2: int| 0 <= j2 < sprites@.len() ==> (#[trigger] taken@[j2] <==> replaced(all_used, j2)),
            j <= sprites@.len(),
            index_ints(kept@) == kept_sprites(ss, all_used, j as int),
        decreases sprites@.len() - j,
    {
        let mut last = true;
        let mut m: usize = j + 1;
        while m < sprites.len()
            invariant
                ss == names_of(sprites@),
                j < sprites@.len(),
                j + 1 <= m <= sprites@.len(),
                last == forall|m2: int| j < m2 < m ==> ss[m2] != ss[j as int],
            decreases sprites@.len() - m,
        {
            assert(ss[m as int] == sprites@[m as int]@ && ss[j as int] == sprites@[j as int]@);
            if str_equals(sprites[m].as_str(), sprites[j].as_str()) {
                last = false;
            }
            m = m + 1;
        }
        let ghost before = index_ints(kept@);
        if last && !taken[j] {
            kept.push(j);
            assert(index_ints(kept@) =~= before.push(j as int));
        }
        j = j + 1;
    }
    SoundEffectPlan { replacements: used, kept }
}

/// No sprite is replaced twice, each sound effect replaces at most one sprite (the sound
/// effects come in order), and each replaced sprite has the name of the sound effect
/// that replaces it, once its file key is taken out.
pub proof fn lemma_replacements_distinct(names: Seq<Seq<char>>, sprites: Seq<Seq<char>>, k: int)
    requires
        0 <= k <= names.len(),
    ensures
        forall|a: int, b: int|
            0 <= a < b < replacements(names, sprites, k).len() ==> replacements(names, sprites, k)[a].1
                != replacements(names, sprites, k)[b].1 && replacements(names, sprites, k)[a].0
                < replacements(names, sprites, k)[b].0,
        forall|a: int|
            0 <= a < replacements(names, sprites, k).len() ==> {
                let (i, j) = #[trigger] replacements(names, sprites, k)[a];
                &&& 0 <= i < k
                &&& 0 <= j < sprites.len()
                &&& sprites[j] == remove_all(names[i], sfx_key())
            },
    decreases k,
{
    if k > 0 {
        lemma_replacements_distinct(names, sprites, k - 1);
        lemma_last_named(sprites, remove_all(names[k - 1], sfx_key()), sprites.len() as int);
        let prev = replacements(names, sprites, k - 1);
        let cur = replacements(names, sprites, k);
        if cur != prev {
            let j = target_sprite(sprites, names[k - 1])->Some_0;
            assert(cur == prev.push((k - 1, j)));
            assert(!exists|m: int| 0 <= m < prev.len() && #[trigger] prev[m].1 == j);
            assert forall|a: int, b: int| 0 <= a < b < cur.len() implies cur[a].1 != cur[b].1 && cur[a].0
                < cur[b].0 by {
                if b == prev.len() {
                    assert(cur[a] == prev[a]);
                    assert(prev[a].1 != j);
                } else {
                    assert(cur[a] == prev[a] && cur[b] == prev[b]);
                }
            }
            assert forall|a: int| 0 <= a < cur.len() implies {
                let (i, j2) = #[trigger] cur[a];
                &&& 0 <= i < k
                &&& 0 <= j2 < sprites.len()
                &&& sprites[j2] == remove_all(names[i], sfx_key())
            } by {
                if a < prev.len() {
                    assert(cur[a] == prev[a]);
                }
            }
        }
    }
}

proof fn lemma_kept_sprites(sprites: Seq<Seq<char>>, used: Seq<(int, int)>, n: int)
    requires
        0 <= n <= sprites.len(),
    ensures
        forall|j: int|
            0 <= j < n ==> (kept_sprites(sprites, used, n).contains(j) <==> last_of_its_name(sprites, j)
                && !replaced(used, j)),
        forall|m: int|
            0 <= m < kept_sprites(sprites, used, n).len() ==> 0 <= #[trigger] kept_sprites(sprites, used, n)[m] < n,
    decreases n,
{
    if n > 0 {
        lemma_kept_sprites(sprites, used, n - 1);
        let prev = kept_sprites(sprites, used, n - 1);
        let cur = kept_sprites(sprites, used, n);
        assert forall|j: int| 0 <= j < n implies (cur.contains(j) <==> last_of_its_name(sprites, j)
            && !replaced(used, j)) by {
            if cur != prev {
                assert(cur == prev.push(n - 1));
                if cur.contains(j) && j != n - 1 {
                    let m = choose|m: int| 0 <= m < cur.len() && cur[m] == j;
                    assert(m < prev.len());
                    assert(prev[m] == j);
                }
                if j == n - 1 {
                    assert(cur[prev.len() as int] == j);
                } else if prev.contains(j) {
                    let m = choose|m: int| 0 <= m < prev.len() && prev[m] == j;
                    assert(cur[m] == j);
                }
            } else if j == n - 1 {
                if prev.contains(j) {
                    let m = choose|m: int| 0 <= m < prev.len() && prev[m] == j;
                }
            }
        }
    }
}

/// Every name of the sound definition ends up once in the new atlas: the last sprite of
/// each name is either replaced by a custom sound effect or kept, never both, and no other
/// sprite is replaced or kept.
pub proof fn lemma_each_name_once(names: Seq<Seq<char>>, sprites: Seq<Seq<char>>, j: int)
    requires
        0 <= j < sprites.len(),
    ensures
        ({
            let used = replacements(names, sprites, names.len() as int);
            let kept = kept_sprites(sprites, used, sprites.len() as int);
            &&& last_of_its_name(sprites, j) ==> (replaced(used, j) != kept.contains(j))
            &&& !last_of_its_name(sprites, j) ==> !replaced(used, j) && !kept.contains(j)
        }),
{
    let used = replacements(names, sprites, names.len() as int);
    lemma_replacements_distinct(names, sprites, names.len() as int);
    lemma_kept_sprites(sprites, used, sprites.len() as int);
    if replaced(used, j) {
        let m = choose|m: int| 0 <= m < used.len() && #[trigger] used[m].1 == j;
        let i = used[m].0;
        lemma_replacements_target(names, sprites, names.len() as int, m);
        lemma_last_named(sprites, remove_all(names[i], sfx_key()), sprites.len() as int);
    }
}

proof fn lemma_replacements_target(names: Seq<Seq<char>>, sprites: Seq<Seq<char>>, k: int, m: int)
    requires
        0 <= k <= names.len(),
        0 <= m < replacements(names, sprites, k).len(),
    ensures
        target_sprite(sprites, names[replacements(names, sprites, k)[m].0]) == Some(replacements(names, sprites, k)[m].1),
    decreases k,
{
    let prev = replacements(names, sprites, k - 1);
    if m < prev.len() {
        lemma_replacements_target(names, sprites, k - 1, m);
        assert(replacements(names, sprites, k)[m] == prev[m]);
    }
}

} // verus!
