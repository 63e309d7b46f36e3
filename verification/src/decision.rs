//! Deciding between the options of decision trees, and gathering the files that the
//! decisions select.
use vstd::prelude::*;

use crate::partition::{DecisionForest, DecisionTree};

verus! {

/// Takes every decision that has a single option and fails on any with more.
#[derive(Debug)]
pub struct DefaultDecisionMaker;

/// The default decision maker met a decision with two or more options.
#[derive(Debug)]
pub struct DefaultDecisionMakerError;

impl DefaultDecisionMakerError {
    /// The error's message.
    pub fn describe(&self) -> (r: &'static str)
        ensures
            r@ == "encountered a decision with two or more options"@,
    {
        "encountered a decision with two or more options"
    }
}

/// Whether the tree at position `u` has exactly one option and tree `t` hangs below it.
pub open spec fn single_parent(f: DecisionForest, u: int, t: int) -> bool {
    &&& 0 <= u < f.trees.len()
    &&& f.trees@[u].options.len() == 1
    &&& f.trees@[u].options@[0].subtrees@.contains(t as u64)
}

/// The trees reached from the marked trees `marks` by one more step: a tree below the
/// single option of a reached tree is reached.
pub open spec fn step_reach(f: DecisionForest, marks: Seq<bool>) -> Seq<bool> {
    Seq::new(
        f.trees@.len(),
        |t: int| marks[t] || exists|u: int| 0 <= u < f.trees.len() && marks[u] && #[trigger] single_parent(f, u, t),
    )
}

/// The trees reached in `k` steps from the roots, by position.
pub open spec fn reach(f: DecisionForest, k: nat) -> Seq<bool>
    decreases k,
{
    if k == 0 {
        Seq::new(f.trees@.len(), |t: int| f.roots@.contains(t as u64))
    } else {
        step_reach(f, reach(f, (k - 1) as nat))
    }
}

/// Whether the default decision maker reaches the tree at position `t`: it starts from
/// the roots and goes below every tree with a single option. Every tree it reaches is
/// reached within as many steps as there are trees.
pub open spec fn reached(f: DecisionForest, t: int) -> bool {
    0 <= t < f.trees.len() && reach(f, f.trees.len() as nat)[t]
}

/// One step of reaching trees.
fn step_exec(f: &DecisionForest, marks: &Vec<bool>) -> (r: Vec<bool>)
    requires
        marks.len() == f.trees.len(),
    ensures
        r@ == step_reach(*f, marks@),
{
    let n = f.trees.len();
    let mut out: Vec<bool> = Vec::new();
    let mut i: usize = 0;
    while i < n
        invariant
            n == f.trees.len(),
            marks.len() == n,
            i <= n,
            out.len() == i,
            forall|t: int| 0 <= t < i ==> #[trigger] out@[t] == marks@[t],
        decreases n - i,
    {
        out.push(marks[i]);
        i = i + 1;
    }
    let mut u: usize = 0;
    while u < n
        invariant
            n == f.trees.len(),
            marks.len() == n,
            out.len() == n,
            u <= n,
            forall|t: int|
                0 <= t < n ==> (#[trigger] out@[t] <==> (marks@[t] || exists|u2: int|
                    0 <= u2 < u && marks@[u2] && #[trigger] single_parent(*f, u2, t))),
        decreases n - u,
    {
        let tree = &f.trees[u];
        if marks[u] && tree.options.len() == 1 {
            let subs = &tree.options[0].subtrees;
            let ghost before = out@;
            let mut j: usize = 0;
            while j < subs.len()
                invariant
                    n == f.trees.len(),
                    u < n,
                    *tree == f.trees@[u as int],
                    tree.options.len() == 1,
                    *subs == tree.options@[0].subtrees,
                    out.len() == n,
                    j <= subs.len(),
                    forall|t: int|
                        0 <= t < n ==> (#[trigger] out@[t] <==> (before[t] || exists|j2: int|
                            0 <= j2 < j && subs@[j2] == t as u64)),
                decreases subs.len() - j,
            {
                let s = subs[j];
                if s < n as u64 {
                    out.set(s as usize, true);
                }
                proof {
                    assert forall|t: int|
                        0 <= t < n implies (#[trigger] out@[t] <==> (before[t] || exists|j2: int|
                            0 <= j2 < j + 1 && subs@[j2] == t as u64)) by {
                        if subs@[j as int] == t as u64 {
                            assert(s as int == t);
                        }
                        if exists|j2: int| 0 <= j2 < j + 1 && subs@[j2] == t as u64 {
                            let j2 = choose|j2: int| 0 <= j2 < j + 1 && subs@[j2] == t as u64;
                            if j2 < j {
                            }
                        }
                    }
                }
                j = j + 1;
            }
            proof {
                assert forall|t: int|
                    0 <= t < n implies (#[trigger] out@[t] <==> (marks@[t] || exists|u2: int|
                        0 <= u2 < u + 1 && marks@[u2] && #[trigger] single_parent(*f, u2, t))) by {
                    if single_parent(*f, u as int, t) {
                        let j2 = choose|j2: int| 0 <= j2 < subs.len() && subs@[j2] == t as u64;
                    }
                    if exists|j2: int| 0 <= j2 < subs.len() && subs@[j2] == t as u64 {
                        let j2 = choose|j2: int| 0 <= j2 < subs.len() && subs@[j2] == t as u64;
                        assert(subs@.contains(t as u64));
                        assert(single_parent(*f, u as int, t));
                    }
                }
            }
        } else {
            proof {
                assert forall|t: int|
                    0 <= t < n implies (#[trigger] out@[t] <==> (marks@[t] || exists|u2: int|
                        0 <= u2 < u + 1 && marks@[u2] && #[trigger] single_parent(*f, u2, t))) by {
                    if exists|u2: int| 0 <= u2 < u + 1 && marks@[u2] && #[trigger] single_parent(*f, u2, t) {
                        let u2 = choose|u2: int| 0 <= u2 < u + 1 && marks@[u2] && #[trigger] single_parent(*f, u2, t);
                        assert(u2 < u);
                    }
                }
            }
        }
        u = u + 1;
    }
    assert(out@ =~= step_reach(*f, marks@));
    out
}

/// The trees the default decision maker reaches, by position.
fn reached_exec(f: &DecisionForest) -> (r: Vec<bool>)
    ensures
        r.len() == f.trees.len(),
        forall|t: int| 0 <= t < f.trees.len() ==> (#[trigger] r@[t] <==> reached(*f, t)),
{
    let n = f.trees.len();
    let mut marks: Vec<bool> = Vec::new();
    let mut i: usize = 0;
    while i < n
        invariant
            n == f.trees.len(),
            i <= n,
            marks.len() == i,
            forall|t: int| 0 <= t < i ==> #[trigger] marks@[t] == f.roots@.contains(t as u64),
        decreases n - i,
    {
        let mut found = false;
        let mut j: usize = 0;
        while j < f.roots.len()
            invariant
                j <= f.roots.len(),
                found <==> exists|j2: int| 0 <= j2 < j && f.roots@[j2] == i as u64,
            decreases f.roots.len() - j,
        {
            if f.roots[j] == i as u64 {
                found = true;
            }
            j = j + 1;
        }
        proof {
            if f.roots@.contains(i as u64) {
                let j2 = choose|j2: int| 0 <= j2 < f.roots.len() && f.roots@[j2] == i as u64;
            }
        }
        marks.push(found);
        i = i + 1;
    }
    assert(marks@ =~= reach(*f, 0));
    let mut k: usize = 0;
    while k < n
        invariant
            n == f.trees.len(),
            k <= n,
            marks@ == reach(*f, k as nat),
            marks.len() == n,
        decreases n - k,
    {
        marks = step_exec(f, &marks);
        k = k + 1;
    }
    marks
}

/// The decisions taken among the first `n` trees, by position: option 0 of each reached
/// tree with exactly one option.
pub open spec fn default_decisions(f: DecisionForest, n: int) -> Seq<(u64, usize)>
    decreases n,
{
    if n <= 0 {
        seq![]
    } else if reached(f, n - 1) && f.trees@[n - 1].options.len() == 1 {
        default_decisions(f, n - 1).push(((n - 1) as u64, 0usize))
    } else {
        default_decisions(f, n - 1)
    }
}

impl DefaultDecisionMaker {
    /// Takes option 0 of every reached decision that has exactly one option, starting from
    /// the roots and going below each decision taken; fails where a reached decision has
    /// two or more options. Gives the decisions as pairs of tree id and option.
    pub fn decide(&self, f: &DecisionForest) -> (r: Result<Vec<(u64, usize)>, DefaultDecisionMakerError>)
        ensures
            r is Err <==> exists|t: int| reached(*f, t) && #[trigger] f.trees@[t].options.len() >= 2,
            r matches Ok(d) ==> (forall|k: int|
                0 <= k < d.len() ==> #[trigger] d@[k].1 == 0 && reached(*f, d@[k].0 as int)
                    && f.trees@[d@[k].0 as int].options.len() == 1) && (forall|t: int|
                reached(*f, t) && f.trees@[t].options.len() == 1 ==> d@.contains((t as u64, 0usize))),
            r matches Ok(d) ==> d@ == default_decisions(*f, f.trees.len() as int),
    {
        let marks = reached_exec(f);
        let n = f.trees.len();
        let mut out: Vec<(u64, usize)> = Vec::new();
        let mut t: usize = 0;
        while t < n
            invariant
                n == f.trees.len(),
                marks.len() == n,
                forall|t2: int| 0 <= t2 < n ==> (#[trigger] marks@[t2] <==> reached(*f, t2)),
                t <= n,
                forall|t2: int| 0 <= t2 < t && reached(*f, t2) ==> #[trigger] f.trees@[t2].options.len() < 2,
                forall|k: int|
                    0 <= k < out.len() ==> (#[trigger] out@[k]).1 == 0 && reached(*f, out@[k].0 as int)
                        && f.trees@[out@[k].0 as int].options.len() == 1 && out@[k].0 < t,
                forall|t2: int|
                    0 <= t2 < t && reached(*f, t2) && f.trees@[t2].options.len() == 1 ==> out@.contains(
                        (t2 as u64, 0usize),
                    ),
                out@ == default_decisions(*f, t as int),
            decreases n - t,
        {
            if marks[t] {
                let count = f.trees[t].options.len();
                if count >= 2 {
                    assert(reached(*f, t as int) && f.trees@[t as int].options.len() >= 2);
                    return Err(DefaultDecisionMakerError);
                }
                if count == 1 {
                    let ghost before = out@;
                    out.push((t as u64, 0));
                    proof {
                        assert(out@[out.len() - 1] == (t as u64, 0usize));
                        assert((t as u64) as int == t as int);
                        assert forall|k: int| 0 <= k < out.len() implies (#[trigger] out@[k]).1 == 0 && reached(*f, out@[k].0 as int)
                            && f.trees@[out@[k].0 as int].options.len() == 1 && out@[k].0 < t + 1 by {
                            if k < before.len() {
                                assert(out@[k] == before[k]);
                            }
                        }
                        assert forall|t2: int|
                            0 <= t2 < t + 1 && reached(*f, t2) && f.trees@[t2].options.len() == 1 implies out@.contains(
                                (t2 as u64, 0usize),
                            ) by {
                            if t2 < t {
                                let k = choose|k: int| 0 <= k < before.len() && before[k] == (t2 as u64, 0usize);
                                assert(out@[k] == before[k]);
                            }
                        }
                    }
                }
            }
            t = t + 1;
        }
        Ok(out)
    }
}

/// The option decided for the tree with id `id` among the first `m` decisions: that of
/// the first pair with the id, if any.
pub open spec fn decision_for(d: Seq<(u64, usize)>, id: u64, m: int) -> Option<usize>
    decreases m,
{
    if m <= 0 {
        None
    } else {
        match decision_for(d, id, m - 1) {
            Some(k) => Some(k),
            None => if d[m - 1].0 == id {
                Some(d[m - 1].1)
            } else {
                None
            },
        }
    }
}

/// Whether every decision names an option that its tree has.
pub open spec fn decisions_in_range(f: DecisionForest, d: Seq<(u64, usize)>) -> bool {
    forall|t: int|
        0 <= t < f.trees.len() ==> match decision_for(d, #[trigger] f.trees@[t].id, d.len() as int) {
            Some(k) => k < f.trees@[t].options.len(),
            None => true,
        }
}

/// The files that the decisions select among the first `n` trees, tree by tree: the
/// files of the option decided for each tree that has a decision.
pub open spec fn decided_files(f: DecisionForest, d: Seq<(u64, usize)>, n: int) -> Seq<int>
    decreases n,
{
    if n <= 0 {
        seq![]
    } else {
        decided_files(f, d, n - 1) + match decision_for(d, f.trees@[n - 1].id, d.len() as int) {
            Some(k) => f.trees@[n - 1].options@[k as int].files@.map_values(|x: usize| x as int),
            None => seq![],
        }
    }
}

fn decision_for_exec(d: &Vec<(u64, usize)>, id: u64) -> (r: Option<usize>)
    ensures
        r == decision_for(d@, id, d.len() as int),
{
    let mut i: usize = 0;
    while i < d.len()
        invariant
            i <= d.len(),
            decision_for(d@, id, i as int) is None,
        decreases d.len() - i,
    {
        if d[i].0 == id {
            proof {
                lemma_decision_found(d@, id, i as int + 1, d.len() as int);
            }
            return Some(d[i].1);
        }
        i = i + 1;
    }
    None
}

proof fn lemma_decision_found(d: Seq<(u64, usize)>, id: u64, m1: int, m2: int)
    requires
        0 <= m1 <= m2,
        decision_for(d, id, m1) is Some,
    ensures
        decision_for(d, id, m2) == decision_for(d, id, m1),
    decreases m2 - m1,
{
    if m1 < m2 {
        lemma_decision_found(d, id, m1, m2 - 1);
    }
}

proof fn lemma_decision_source(d: Seq<(u64, usize)>, id: u64, m: int)
    requires
        0 <= m <= d.len(),
    ensures
        decision_for(d, id, m) matches Some(k) ==> exists|i: int| 0 <= i < m && #[trigger] d[i] == (id, k),
    decreases m,
{
    if m > 0 {
        lemma_decision_source(d, id, m - 1);
        if decision_for(d, id, m - 1) is None && d[m - 1].0 == id {
            assert(d[m - 1] == (id, d[m - 1].1));
        }
    }
}

/// In a forest whose trees have their positions as ids, as partitioning makes them, the
/// decisions the default decision maker takes name options that their trees have, so the
/// files they select can be gathered.
pub proof fn lemma_default_decisions_in_range(f: DecisionForest, d: Seq<(u64, usize)>)
    requires
        forall|t: int| 0 <= t < f.trees.len() ==> #[trigger] f.trees@[t].id == t,
        forall|k: int|
            0 <= k < d.len() ==> #[trigger] d[k].1 == 0 && reached(f, d[k].0 as int)
                && f.trees@[d[k].0 as int].options.len() == 1,
    ensures
        decisions_in_range(f, d),
{
    assert forall|t: int| 0 <= t < f.trees.len() implies match decision_for(d, #[trigger] f.trees@[t].id, d.len() as int) {
        Some(k) => k < f.trees@[t].options.len(),
        None => true,
    } by {
        let id = f.trees@[t].id;
        lemma_decision_source(d, id, d.len() as int);
        if let Some(k) = decision_for(d, id, d.len() as int) {
            let i = choose|i: int| 0 <= i < d.len() && #[trigger] d[i] == (id, k);
            assert(d[i].1 == 0);
            assert(d[i].0 as int == t);
        }
    }
}

/// Gathers the files that the decisions select, tree by tree; `decisions` pairs a
/// tree id with the option taken.
pub fn collect_decided_files(f: &DecisionForest, decisions: &Vec<(u64, usize)>) -> (r: Vec<usize>)
    requires
        decisions_in_range(*f, decisions@),
    ensures
        r@.map_values(|x: usize| x as int) == decided_files(*f, decisions@, f.trees.len() as int),
{
    let mut out: Vec<usize> = Vec::new();
    let mut t: usize = 0;
    while t < f.trees.len()
        invariant
            decisions_in_range(*f, decisions@),
            t <= f.trees.len(),
            out@.map_values(|x: usize| x as int) == decided_files(*f, decisions@, t as int),
        decreases f.trees.len() - t,
    {
        let tree = &f.trees[t];
        match decision_for_exec(decisions, tree.id) {
            Some(k) => {
                assert(k < tree.options.len());
                let files = &tree.options[k].files;
                let ghost before = out@;
                let mut j: usize = 0;
                while j < files.len()
                    invariant
                        j <= files.len(),
                        out@ == before + files@.subrange(0, j as int),
                    decreases files.len() - j,
                {
                    out.push(files[j]);
                    j = j + 1;
                    assert(out@ =~= before + files@.subrange(0, j as int));
                }
                assert(files@.subrange(0, files.len() as int) =~= files@);
                assert(out@.map_values(|x: usize| x as int) =~= before.map_values(|x: usize| x as int)
                    + files@.map_values(|x: usize| x as int));
            },
            None => {
                assert(out@.map_values(|x: usize| x as int) =~= decided_files(*f, decisions@, t as int + 1));
            },
        }
        t = t + 1;
    }
    out
}

} // verus!
