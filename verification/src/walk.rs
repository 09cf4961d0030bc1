//! The path walker: descends the base directory along the URL layers,
//! rejecting hidden segments and escapes from the base, hands the terminal
//! to the stage builder, and checks for `.base` markers on the way back up.
//!
//! The filesystem is consulted once, up front (`gather_probes`, through
//! trusted wrappers); everything decided from those observations is the
//! pure, fully specified `walk_core`.

use vstd::prelude::*;
use crate::stage::{
    FileOutcome, TermProbe, file_decision, plan_file, outcome_equiv, state_equiv,
    lemma_file_decision_functional,
};
use crate::state::{Halted, OriginPath, ProcessingState};
use crate::text::{
    spec_hidden, spec_join_path, spec_under, seg_hidden, join_seg, under_base,
    lemma_join_path_under_base, lemma_join_seg_preserves_under,
};

verus! {

/// What the filesystem says about one descent level: the canonical form
/// of the prefix path (when it exists and can be rendered), and whether
/// the prefix directory holds a `.base` marker.
pub struct LayerProbe {
    pub canon: Option<String>,
    pub base_mark: bool,
}

/// Every observation a walk needs: the `.base` marker of the base
/// directory itself, one probe per layer, and the terminal probe.
pub struct Probes {
    pub root_mark: bool,
    pub levels: Vec<LayerProbe>,
    pub term: TermProbe,
}

/// What a walk returns: the stage builder's verdict, and whether a
/// `.base` marker was met on the way back up (the *Done* flag, which
/// freezes any outer post-processing).
pub struct WalkOutcome<F, C> {
    pub outcome: FileOutcome<F, C>,
    pub done: bool,
}

/// Relies on `std::path::Path::exists`: whether the path points at an
/// existing entity on disk.
#[verifier::external_body]
fn path_exists(p: &str) -> bool {
    std::path::Path::new(p).exists()
}

/// Relies on `std::path::Path::is_dir`: whether the path points at a
/// directory on disk.
#[verifier::external_body]
fn path_is_dir(p: &str) -> bool {
    std::path::Path::new(p).is_dir()
}

/// Relies on `is_executable::is_executable`: whether a file exists at the
/// path and is executable.
#[verifier::external_body]
fn file_is_executable(p: &str) -> bool {
    is_executable::is_executable(p)
}

/// Relies on `std::path::Path::canonicalize`: the canonical absolute form
/// of an existing path, when it can be obtained and rendered as text.
#[verifier::external_body]
fn canonical_form(p: &str) -> Option<String> {
    match std::path::Path::new(p).canonicalize() {
        Ok(c) => match c.to_str() {
            Some(s) => Some(s.to_string()),
            None => None,
        },
        Err(_) => None,
    }
}

/// A level escapes when its prefix has a canonical form that does not lie
/// under the base directory.
pub open spec fn level_escapes(base: Seq<char>, lp: LayerProbe) -> bool {
    match lp.canon {
        Some(c) => !spec_under(base, c@),
        None => false,
    }
}

/// Descent stops at a layer that is hidden or escapes the base.
pub open spec fn stop_cond(base: Seq<char>, layer: Seq<char>, lp: LayerProbe) -> bool {
    spec_hidden(layer) || level_escapes(base, lp)
}

/// The first layer at which descent stops, if any.
pub open spec fn spec_stop(base: Seq<char>, layers: Seq<Seq<char>>, levels: Seq<LayerProbe>) ->
    Option<int>
    decreases layers.len(),
{
    if layers.len() == 0 {
        None
    } else if stop_cond(base, layers[0], levels[0]) {
        Some(0int)
    } else {
        match spec_stop(base, layers.drop_first(), levels.drop_first()) {
            None => None,
            Some(i) => Some(i + 1),
        }
    }
}

proof fn lemma_stop_hit(base: Seq<char>, layers: Seq<Seq<char>>, levels: Seq<LayerProbe>, i: int)
    requires
        levels.len() == layers.len(),
        0 <= i < layers.len(),
        stop_cond(base, layers[i], levels[i]),
        forall|j: int| 0 <= j < i ==> !stop_cond(base, layers[j], levels[j]),
    ensures
        spec_stop(base, layers, levels) == Some(i),
    decreases i,
{
    if i == 0 {
    } else {
        assert(forall|j: int|
            0 <= j < i - 1 ==> !stop_cond(base, layers.drop_first()[j], levels.drop_first()[j]));
        lemma_stop_hit(base, layers.drop_first(), levels.drop_first(), i - 1);
    }
}

proof fn lemma_stop_miss(base: Seq<char>, layers: Seq<Seq<char>>, levels: Seq<LayerProbe>)
    requires
        levels.len() == layers.len(),
        forall|j: int| 0 <= j < layers.len() ==> !stop_cond(base, layers[j], levels[j]),
    ensures
        spec_stop(base, layers, levels) is None,
    decreases layers.len(),
{
    if layers.len() > 0 {
        lemma_stop_miss(base, layers.drop_first(), levels.drop_first());
    }
}

proof fn lemma_some_stop(base: Seq<char>, layers: Seq<Seq<char>>, levels: Seq<LayerProbe>, i: int)
    requires
        levels.len() == layers.len(),
        0 <= i < layers.len(),
        stop_cond(base, layers[i], levels[i]),
    ensures
        spec_stop(base, layers, levels) is Some,
    decreases i,
{
    if stop_cond(base, layers[0], levels[0]) {
    } else {
        lemma_some_stop(base, layers.drop_first(), levels.drop_first(), i - 1);
    }
}

/// The `.base` marker at prefix depth `d`: depth 0 is the base directory
/// itself, depth `d` the directory after `d` layers.
pub open spec fn mark_at(pr: Probes, d: int) -> bool {
    if d == 0 {
        pr.root_mark
    } else {
        pr.levels@[d - 1].base_mark
    }
}

/// Whether any prefix at depth 0 through `k` carries a `.base` marker:
/// the walk's *Done* flag when the result arose at depth `k`.
pub open spec fn spec_done_upto(pr: Probes, k: int) -> bool {
    exists|d: int| 0 <= d <= k && #[trigger] mark_at(pr, d)
}

fn scan_marks(pr: &Probes, k: usize) -> (r: bool)
    requires
        k <= pr.levels@.len(),
        k < usize::MAX,
    ensures
        r == spec_done_upto(*pr, k as int),
{
    let mut d: usize = 0;
    while d <= k
        invariant
            d <= k + 1,
            k < usize::MAX,
            k <= pr.levels@.len(),
            forall|x: int| 0 <= x < d ==> !mark_at(*pr, x),
        decreases k + 1 - d,
    {
        let m = if d == 0 {
            pr.root_mark
        } else {
            pr.levels[d - 1].base_mark
        };
        if m {
            proof {
                assert(mark_at(*pr, d as int));
            }
            return true;
        }
        d += 1;
    }
    false
}

/// What a walk outcome must satisfy, given the observations `pr`: either
/// descent stopped and the result is a bare 403 with the incoming state's
/// children scheduled for the kill, or the terminal was reached and the
/// stage builder's decision table applies at the joined path. The *Done*
/// flag reflects exactly the `.base` markers at or above the stopping
/// depth.
pub open spec fn walk_rel<F, C>(
    base: Seq<char>,
    layers: Seq<Seq<char>>,
    pr: Probes,
    s: ProcessingState<F, C>,
    r: WalkOutcome<F, C>,
) -> bool {
    &&& pr.levels@.len() == layers.len()
    &&& match spec_stop(base, layers, pr.levels@) {
        Some(i) => {
            &&& r.outcome matches FileOutcome::Settled(h) && h.kills@ == s.spec_stages()
                && h.state == ProcessingState::<F, C>::ErrorCode(403u16)
            &&& r.done == spec_done_upto(pr, i)
        },
        None => {
            &&& file_decision(
                spec_join_path(base, layers),
                layers.len() as int,
                pr.term,
                s,
                r.outcome,
            )
            &&& r.done == spec_done_upto(pr, layers.len() as int)
        },
    }
}

/// The pure walk: decides everything from the gathered observations.
pub fn walk_core<F, C>(
    base: &String,
    layers: &Vec<String>,
    pr: &Probes,
    s: ProcessingState<F, C>,
) -> (r: WalkOutcome<F, C>)
    requires
        pr.levels@.len() == layers@.len(),
        layers@.len() < usize::MAX,
    ensures
        walk_rel(base@, layers.deep_view(), *pr, s, r),
{
    let n = layers.len();
    match find_stop(base, layers, pr) {
        Some(k) => {
            let done = scan_marks(pr, k);
            WalkOutcome {
                outcome: FileOutcome::Settled(
                    Halted { kills: s.halt_processing(), state: ProcessingState::ErrorCode(403) },
                ),
                done,
            }
        },
        None => {
            let cur = join_path(base, layers);
            let p = OriginPath { text: cur, depth: n };
            let out = plan_file(p, &pr.term, s);
            let done = scan_marks(pr, n);
            WalkOutcome { outcome: out, done }
        },
    }
}

/// The first layer at which this descent stops, per `stop_cond`.
fn find_stop(base: &String, layers: &Vec<String>, pr: &Probes) -> (r: Option<usize>)
    requires
        pr.levels@.len() == layers@.len(),
    ensures
        match r {
            Some(k) => k < layers@.len() && spec_stop(base@, layers.deep_view(), pr.levels@)
                == Some(k as int),
            None => spec_stop(base@, layers.deep_view(), pr.levels@) is None,
        },
{
    let n = layers.len();
    let mut i: usize = 0;
    while i < n
        invariant
            i <= n,
            n == layers@.len(),
            pr.levels@.len() == n,
            layers.deep_view().len() == n,
            forall|j: int| 0 <= j < n ==> layers.deep_view()[j] == layers@[j]@,
            forall|j: int| 0 <= j < i ==> !stop_cond(base@, layers.deep_view()[j], pr.levels@[j]),
        decreases n - i,
    {
        if seg_hidden(&layers[i]) {
            proof {
                lemma_stop_hit(base@, layers.deep_view(), pr.levels@, i as int);
            }
            return Some(i);
        }
        let escaped = match &pr.levels[i].canon {
            Some(c) => !under_base(base, c),
            None => false,
        };
        if escaped {
            proof {
                lemma_stop_hit(base@, layers.deep_view(), pr.levels@, i as int);
            }
            return Some(i);
        }
        i += 1;
    }
    proof {
        lemma_stop_miss(base@, layers.deep_view(), pr.levels@);
    }
    None
}

/// Joins the base path and every layer, in order.
fn join_path(base: &String, layers: &Vec<String>) -> (r: String)
    ensures
        r@ == spec_join_path(base@, layers.deep_view()),
{
    let mut cur = base.clone();
    let mut i: usize = 0;
    let n = layers.len();
    while i < n
        invariant
            i <= n,
            n == layers@.len(),
            layers.deep_view().len() == n,
            forall|j: int| 0 <= j < n ==> layers.deep_view()[j] == layers@[j]@,
            cur@ == spec_join_path(base@, layers.deep_view().take(i as int)),
        decreases n - i,
    {
        cur = join_seg(&cur, &layers[i]);
        proof {
            assert(layers.deep_view().take(i + 1).drop_last() =~= layers.deep_view().take(
                i as int,
            ));
        }
        i += 1;
    }
    proof {
        assert(layers.deep_view().take(n as int) =~= layers.deep_view());
    }
    cur
}

/// Gathers every observation a walk over `layers` under `base` needs.
fn gather_probes(base: &String, layers: &Vec<String>) -> (pr: Probes)
    ensures
        pr.levels@.len() == layers@.len(),
{
    let base_name = String::from_str(".base");
    let index_name = String::from_str(".index");
    let root_path = join_seg(base, &base_name);
    let root_mark = path_exists(root_path.as_str());
    let mut levels: Vec<LayerProbe> = Vec::new();
    let mut cur = base.clone();
    let mut i: usize = 0;
    let n = layers.len();
    while i < n
        invariant
            i <= n,
            n == layers@.len(),
            levels@.len() == i,
        decreases n - i,
    {
        cur = join_seg(&cur, &layers[i]);
        let canon = canonical_form(cur.as_str());
        let mark_path = join_seg(&cur, &base_name);
        let base_mark = path_exists(mark_path.as_str());
        levels.push(LayerProbe { canon, base_mark });
        i += 1;
    }
    let is_dir0 = path_is_dir(cur.as_str());
    let eff = if is_dir0 {
        join_seg(&cur, &index_name)
    } else {
        cur
    };
    let eff_s = eff.as_str();
    Probes {
        root_mark,
        levels,
        term: TermProbe {
            is_dir: is_dir0,
            eff_exists: path_exists(eff_s),
            eff_is_dir: path_is_dir(eff_s),
            eff_is_exec: file_is_executable(eff_s),
        },
    }
}

/// Walks `layers` under `base` with the incoming state `s`: observes the
/// filesystem once and decides by `walk_rel`. Whatever the filesystem
/// said, a request with a hidden segment resolves to a bare 403 and no
/// stage is planned.
pub fn walk<F, C>(base: &String, layers: &Vec<String>, s: ProcessingState<F, C>) -> (r: WalkOutcome<
    F,
    C,
>)
    requires
        layers@.len() < usize::MAX,
    ensures
        exists|pr: Probes| #[trigger] walk_rel(base@, layers.deep_view(), pr, s, r),
        (exists|i: int|
            0 <= i < layers.deep_view().len() && spec_hidden(layers.deep_view()[i])) ==> (
        r.outcome matches FileOutcome::Settled(h) && h.state == ProcessingState::<F,
            C,
        >::ErrorCode(403u16)),
{
    let ghost s0 = s;
    let pr = gather_probes(base, layers);
    let r = walk_core(base, layers, &pr, s);
    proof {
        assert(walk_rel(base@, layers.deep_view(), pr, s0, r));
        if exists|i: int|
            0 <= i < layers.deep_view().len() && spec_hidden(layers.deep_view()[i]) {
            let i = choose|i: int|
                0 <= i < layers.deep_view().len() && spec_hidden(layers.deep_view()[i]);
            lemma_some_stop(base@, layers.deep_view(), pr.levels@, i);
        }
    }
    r
}

/// Path safety: under any filesystem observations, a request whose URL
/// contains a hidden segment (one beginning with `.`, which covers `..`)
/// resolves to a bare 403, no stage is planned, and no child is spawned.
pub proof fn lemma_hidden_segment_rejected<F, C>(
    base: Seq<char>,
    layers: Seq<Seq<char>>,
    pr: Probes,
    s: ProcessingState<F, C>,
    r: WalkOutcome<F, C>,
)
    requires
        walk_rel(base, layers, pr, s, r),
        exists|i: int| 0 <= i < layers.len() && spec_hidden(layers[i]),
    ensures
        r.outcome matches FileOutcome::Settled(h) && h.state == ProcessingState::<F,
            C,
        >::ErrorCode(403u16),
{
    let i = choose|i: int| 0 <= i < layers.len() && spec_hidden(layers[i]);
    lemma_some_stop(base, layers, pr.levels@, i);
}

proof fn lemma_stop_same(
    base: Seq<char>,
    layers: Seq<Seq<char>>,
    l1: Seq<LayerProbe>,
    l2: Seq<LayerProbe>,
)
    requires
        l1.len() == l2.len(),
        layers.len() <= l1.len(),
        forall|i: int| 0 <= i < l1.len() ==> l1[i].canon == l2[i].canon,
    ensures
        spec_stop(base, layers, l1) == spec_stop(base, layers, l2),
    decreases layers.len(),
{
    if layers.len() > 0 {
        assert(stop_cond(base, layers[0], l1[0]) == stop_cond(base, layers[0], l2[0]));
        assert(forall|i: int|
            0 <= i < l1.drop_first().len() ==> l1.drop_first()[i].canon
                == l2.drop_first()[i].canon);
        lemma_stop_same(base, layers.drop_first(), l1.drop_first(), l2.drop_first());
    }
}

/// A `.base` marker freezes backtracking (the *Done* flag) but never
/// changes the resolved outcome: two walks over the same layers, the
/// same state and the same filesystem observations apart from the
/// `.base` markers admit observably equal outcomes; only the flag may
/// differ.
pub proof fn lemma_base_marker_preserves_outcome<F, C>(
    base: Seq<char>,
    layers: Seq<Seq<char>>,
    p1: Probes,
    p2: Probes,
    s: ProcessingState<F, C>,
    r1: WalkOutcome<F, C>,
    r2: WalkOutcome<F, C>,
)
    requires
        walk_rel(base, layers, p1, s, r1),
        walk_rel(base, layers, p2, s, r2),
        p1.levels@.len() == p2.levels@.len(),
        forall|i: int| 0 <= i < p1.levels@.len() ==> p1.levels@[i].canon == p2.levels@[i].canon,
        p1.term == p2.term,
    ensures
        outcome_equiv(r1.outcome, r2.outcome),
{
    lemma_stop_same(base, layers, p1.levels@, p2.levels@);
    match spec_stop(base, layers, p1.levels@) {
        Some(i) => {
            assert(state_equiv::<F, C>(
                ProcessingState::ErrorCode(403u16),
                ProcessingState::ErrorCode(403u16),
            ));
        },
        None => {
            lemma_file_decision_functional(
                spec_join_path(base, layers),
                layers.len() as int,
                p1.term,
                s,
                r1.outcome,
                r2.outcome,
            );
        },
    }
}

/// Path safety: when any visited prefix resolved to a canonical path that
/// escapes the canonical base directory, the request resolves to a bare
/// 403 and no stage is planned.
pub proof fn lemma_escape_rejected<F, C>(
    base: Seq<char>,
    layers: Seq<Seq<char>>,
    pr: Probes,
    s: ProcessingState<F, C>,
    r: WalkOutcome<F, C>,
)
    requires
        walk_rel(base, layers, pr, s, r),
        exists|i: int| 0 <= i < layers.len() && level_escapes(base, pr.levels@[i]),
    ensures
        r.outcome matches FileOutcome::Settled(h) && h.state == ProcessingState::<F,
            C,
        >::ErrorCode(403u16),
{
    let i = choose|i: int| 0 <= i < layers.len() && level_escapes(base, pr.levels@[i]);
    lemma_some_stop(base, layers, pr.levels@, i);
}

/// Path containment: every plan a walk emits names a path at or under
/// the base directory — the terminal joined path, with `.index` appended
/// when the terminal was a directory. Together with the 403 on hidden
/// segments and on canonical escapes, nothing outside the base is ever
/// opened or spawned.
pub proof fn lemma_planned_path_under_base<F, C>(
    base: Seq<char>,
    layers: Seq<Seq<char>>,
    pr: Probes,
    s: ProcessingState<F, C>,
    r: WalkOutcome<F, C>,
)
    requires
        walk_rel(base, layers, pr, s, r),
    ensures
        r.outcome matches FileOutcome::Spawn(pl) ==> spec_under(base, pl.exec_path.text@),
        r.outcome matches FileOutcome::Open(op) ==> spec_under(base, op.path.text@),
{
    match spec_stop(base, layers, pr.levels@) {
        Some(_) => {
        },
        None => {
            let joined = spec_join_path(base, layers);
            lemma_join_path_under_base(base, layers);
            if pr.term.is_dir {
                lemma_join_seg_preserves_under(base, joined, ".index"@);
            }
        },
    }
}

} // verus!
