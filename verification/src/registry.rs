//! The set of pipelines the daemon tracks, keyed by issue number, and the
//! changes a poll cycle makes to it.

use vstd::prelude::*;
use std::collections::HashMap;
use std::path::PathBuf;
use crate::pipeline::{is_fresh_pipeline, Pipeline};

verus! {

broadcast use vstd::std_specs::hash::group_hash_axioms;

/// The issue numbers that key `m`, each once, in the map's own order.
pub fn key_list(m: &HashMap<u64, Pipeline>) -> (ks: Vec<u64>)
    ensures
        ks@.no_duplicates(),
        ks@.to_set() == m@.dom(),
        ks@.len() == m@.len(),
{
    let mut ks: Vec<u64> = Vec::new();
    for k in it: m.keys()
        invariant
            ks@ == it.seq().unref().take(it.index()),
            it.seq().unref().to_set() == m@.dom(),
            it.seq().unref().no_duplicates(),
            it.seq().len() == m@.dom().len(),
            it.index() == it.seq().len() ==> ks@ == it.seq().unref(),
    {
        ks.push(*k);
        assert(it.seq().unref().take(it.seq().len() as int) =~= it.seq().unref());
    }
    ks
}

/// `new` is `old` after the issues in `numbers` were registered: every listed
/// issue has a pipeline, the pipelines already there are untouched, and each
/// added one is freshly opened for `repo` under `runs_dir`.
pub open spec fn registered(
    old: Map<u64, Pipeline>,
    new: Map<u64, Pipeline>,
    numbers: Seq<u64>,
    repo: Seq<char>,
    runs_dir: PathBuf,
) -> bool {
    &&& new.dom() == old.dom() + numbers.to_set()
    &&& forall|k: u64| #[trigger] old.contains_key(k) ==> new[k] == old[k]
    &&& forall|k: u64|
        #[trigger] new.contains_key(k) && !old.contains_key(k) ==> is_fresh_pipeline(
            new[k],
            k,
            repo,
            runs_dir,
        )
}

/// Appending an element to a sequence adds it to the sequence's set.
proof fn lemma_push_to_set(s: Seq<u64>, a: u64)
    ensures
        s.push(a).to_set() == s.to_set().insert(a),
{
    assert forall|x: u64| s.push(a).to_set().contains(x) <==> s.to_set().insert(a).contains(x) by {
        if s.push(a).contains(x) {
            let t = choose|t: int| 0 <= t < s.len() + 1 && s.push(a)[t] == x;
            if t < s.len() {
                assert(s[t] == x);
                assert(s.contains(x));
            }
        }
        if s.contains(x) {
            let t = choose|t: int| 0 <= t < s.len() && s[t] == x;
            assert(s.push(a)[t] == x);
        }
        if x == a {
            assert(s.push(a)[s.len() as int] == a);
        }
    }
    assert(s.push(a).to_set() =~= s.to_set().insert(a));
}

/// Walking a list without repeats: the next key is not among those seen so
/// far, and seeing it extends the prefix by one.
proof fn lemma_next_key(keys: Seq<u64>, i: int)
    requires
        keys.no_duplicates(),
        0 <= i < keys.len(),
    ensures
        keys.take(i + 1) == keys.take(i).push(keys[i]),
        !keys.take(i).contains(keys[i]),
        keys.to_set().contains(keys[i]),
{
    let pre = keys.take(i);
    assert(keys.take(i + 1) =~= pre.push(keys[i]));
    if pre.contains(keys[i]) {
        let t = choose|t: int| 0 <= t < pre.len() && pre[t] == keys[i];
        assert(keys[t] == keys[i]);
    }
    assert(keys.contains(keys[i]));
}

/// Opens a pipeline for each issue in `numbers` that has none yet.
pub fn register_new_issues(
    pipelines: &mut HashMap<u64, Pipeline>,
    numbers: &Vec<u64>,
    repo: &String,
    runs_dir: &PathBuf,
)
    ensures
        registered(old(pipelines)@, final(pipelines)@, numbers@, repo@, *runs_dir),
{
    let ghost start = pipelines@;
    proof {
        assert(numbers@.take(0) =~= Seq::<u64>::empty());
        assert(pipelines@.dom() =~= start.dom() + numbers@.take(0).to_set());
    }
    for i in 0..numbers.len()
        invariant
            registered(start, pipelines@, numbers@.take(i as int), repo@, *runs_dir),
    {
        let n = numbers[i];
        proof {
            assert(numbers@.take(i + 1) =~= numbers@.take(i as int).push(n));
            lemma_push_to_set(numbers@.take(i as int), n);
        }
        if !pipelines.contains_key(&n) {
            let p = Pipeline::new(n, repo.clone(), runs_dir);
            pipelines.insert(n, p);
        }
        proof {
            assert(pipelines@.dom() =~= start.dom() + numbers@.take(i + 1).to_set());
        }
    }
    proof {
        assert(numbers@.take(numbers@.len() as int) =~= numbers@);
    }
}

/// Registering the same issues a second time changes nothing: an issue that
/// is already tracked keeps its pipeline.
pub proof fn lemma_register_idempotent(
    m0: Map<u64, Pipeline>,
    m1: Map<u64, Pipeline>,
    m2: Map<u64, Pipeline>,
    numbers: Seq<u64>,
    repo: Seq<char>,
    runs_dir: PathBuf,
)
    requires
        registered(m0, m1, numbers, repo, runs_dir),
        registered(m1, m2, numbers, repo, runs_dir),
    ensures
        m2 == m1,
{
    assert(m2.dom() =~= m1.dom());
    assert(m2 =~= m1);
}

/// A pipeline is worked on while it is neither done nor failed.
pub open spec fn is_active(p: Pipeline) -> bool {
    !(p.stage is Done) && !(p.stage is Failed)
}

/// The issue numbers of the pipelines in `m` that are still active.
pub open spec fn active_issues(m: Map<u64, Pipeline>) -> Set<u64> {
    Set::new(|k: u64| m.contains_key(k) && is_active(m[k]))
}

/// Which pipelines a cycle advances: every tracked pipeline at a working
/// stage, `Ingest` through `Fix`, and none that is `Done` or `Failed`.
pub proof fn lemma_working_pipelines_advance(m: Map<u64, Pipeline>, k: u64)
    requires
        m.contains_key(k),
    ensures
        m[k].stage is Ingest || m[k].stage is Understand || m[k].stage is Plan
            || m[k].stage is Implement || m[k].stage is Verify || m[k].stage is Submit
            || m[k].stage is Watch || m[k].stage is Fix ==> active_issues(m).contains(k),
        m[k].stage is Done || m[k].stage is Failed ==> !active_issues(m).contains(k),
{
}

/// The issues whose pipelines a poll cycle advances: those neither done nor
/// failed, each once.
pub fn pipelines_to_advance(pipelines: &HashMap<u64, Pipeline>) -> (ks: Vec<u64>)
    ensures
        ks@.no_duplicates(),
        ks@.to_set() == active_issues(pipelines@),
        forall|k: u64|
            #[trigger] ks@.contains(k) <==> pipelines@.contains_key(k) && !(
            pipelines@[k].stage is Done) && !(pipelines@[k].stage is Failed),
{
    let keys = key_list(pipelines);
    let mut ks: Vec<u64> = Vec::new();
    for i in 0..keys.len()
        invariant
            keys@.no_duplicates(),
            keys@.to_set() == pipelines@.dom(),
            ks@.no_duplicates(),
            ks@.to_set() == keys@.take(i as int).to_set().filter(
                |k: u64| is_active(pipelines@[k]),
            ),
    {
        let k = keys[i];
        proof {
            lemma_next_key(keys@, i as int);
            lemma_push_to_set(keys@.take(i as int), k);
        }
        let p = pipelines.get(&k).unwrap();
        if !p.is_done() && !p.is_failed() {
            proof {
                assert(!ks@.contains(k)) by {
                    if ks@.contains(k) {
                        assert(ks@.to_set().contains(k));
                    }
                }
            }
            let ghost before = ks@;
            ks.push(k);
            proof {
                lemma_push_to_set(before, k);
            }
        }
        proof {
            let f = |x: u64| is_active(pipelines@[x]);
            assert(ks@.to_set() =~= keys@.take(i + 1).to_set().filter(f));
        }
    }
    proof {
        assert(keys@.take(keys@.len() as int) =~= keys@);
        assert(ks@.to_set() =~= active_issues(pipelines@));
        assert forall|k: u64| #[trigger] ks@.contains(k) <==> active_issues(pipelines@).contains(k) by {
            if ks@.contains(k) {
                assert(ks@.to_set().contains(k));
            }
            if active_issues(pipelines@).contains(k) {
                assert(ks@.to_set().contains(k));
            }
        }
    }
    ks
}

/// `new` is `old` without the pipelines that are done; every other pipeline,
/// a failed one too, stays as it was.
pub open spec fn pruned(old: Map<u64, Pipeline>, new: Map<u64, Pipeline>) -> bool {
    &&& forall|k: u64|
        #[trigger] new.contains_key(k) <==> old.contains_key(k) && !(old[k].stage is Done)
    &&& forall|k: u64| #[trigger] new.contains_key(k) ==> new[k] == old[k]
}

/// Drops the pipelines that are done.
pub fn remove_done(pipelines: &mut HashMap<u64, Pipeline>)
    ensures
        pruned(old(pipelines)@, final(pipelines)@),
{
    let ghost start = pipelines@;
    let keys = key_list(pipelines);
    for i in 0..keys.len()
        invariant
            keys@.no_duplicates(),
            keys@.to_set() == start.dom(),
            forall|k: u64|
                #[trigger] pipelines@.contains_key(k) <==> start.contains_key(k) && !(
                keys@.take(i as int).contains(k) && start[k].stage is Done),
            forall|k: u64| #[trigger] pipelines@.contains_key(k) ==> pipelines@[k] == start[k],
    {
        let k = keys[i];
        proof {
            lemma_next_key(keys@, i as int);
        }
        let done = pipelines.get(&k).unwrap().is_done();
        if done {
            pipelines.remove(&k);
        }
        proof {
            assert forall|x: u64| #[trigger] pipelines@.contains_key(x) <==> start.contains_key(x)
                && !(keys@.take(i + 1).contains(x) && start[x].stage is Done) by {
                if x == k {
                    assert(keys@.take(i + 1)[i as int] == k);
                }
            }
        }
    }
    proof {
        assert(keys@.take(keys@.len() as int) =~= keys@);
        assert forall|x: u64| start.contains_key(x) implies keys@.contains(x) by {
            assert(keys@.to_set().contains(x));
        }
    }
}

/// After pruning, no pipeline is done, and a failed pipeline is kept as it
/// was, so a failed issue stays on the dashboard.
pub proof fn lemma_pruned_keeps_failed(old: Map<u64, Pipeline>, new: Map<u64, Pipeline>, k: u64)
    requires
        pruned(old, new),
    ensures
        new.contains_key(k) ==> !(new[k].stage is Done),
        old.contains_key(k) && old[k].stage is Failed ==> new.contains_key(k) && new[k] == old[k],
{
}

} // verus!
