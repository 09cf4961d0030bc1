//! The stage builder: given what the filesystem says about the terminal
//! path and the state carried down the walk, decide the next step.
//!
//! The decision itself is pure and fully specified by `file_decision`.
//! Steps that need an effect (spawning a child, opening a file) come back
//! as plans; the verified continuations below say exactly what state each
//! possible result of the effect leads to.

use vstd::prelude::*;
use crate::state::{ChainState, Halted, OriginPath, ProcessingState, Stage, StaticFile};
use crate::text::{spec_join_seg, spec_parent, join_seg, parent_of};

verus! {

/// What the filesystem says about the terminal path `p` and about the
/// effective path (`p/.index` when `p` is a directory, else `p` itself).
pub struct TermProbe {
    /// `p` is a directory.
    pub is_dir: bool,
    /// The effective path exists.
    pub eff_exists: bool,
    /// The effective path is (still) a directory.
    pub eff_is_dir: bool,
    /// The effective path is an executable file.
    pub eff_is_exec: bool,
}

/// Where the new child's stdin comes from.
pub enum StdinSpec<F> {
    /// The stdout of the last child of the previous chain.
    LastStdout,
    /// This file handle (the previous state was a static byte source).
    Body(F),
    /// A fresh empty temporary file.
    Fresh,
}

/// Everything needed to spawn the next stage: the executable, its working
/// directory (the parent of the executable), where its stdin comes from,
/// the stages collected so far, and the status carried forward.
pub struct SpawnPlan<F, C> {
    pub exec_path: OriginPath,
    pub work_dir: String,
    pub stdin: StdinSpec<F>,
    pub prev: Vec<Stage<C>>,
    pub status: u16,
}

/// Everything needed to open a static terminal file: its path, the status
/// the response will carry, and a diagnostic to log when the state that
/// reached it was an internal error.
pub struct OpenPlan {
    pub path: OriginPath,
    pub status: u16,
    pub log: Option<String>,
}

/// The stage builder's verdict.
pub enum FileOutcome<F, C> {
    /// No effect needed: kill the listed children, then the state stands.
    Settled(Halted<F, C>),
    /// Spawn a child as the plan says.
    Spawn(SpawnPlan<F, C>),
    /// Open a static file as the plan says.
    Open(OpenPlan),
}

pub open spec fn spec_effective_text(p_text: Seq<char>, is_dir: bool) -> Seq<char> {
    if is_dir {
        spec_join_seg(p_text, ".index"@)
    } else {
        p_text
    }
}

pub open spec fn spec_effective_depth(p_depth: int, is_dir: bool) -> int {
    if is_dir {
        p_depth + 1
    } else {
        p_depth
    }
}

/// The stdin wiring rule: a chain feeds its last stdout onward and its
/// stages are carried over; a static source is consumed as stdin; any
/// other state contributes an empty fresh input.
pub open spec fn stdin_choice<F, C>(s: ProcessingState<F, C>, pl: SpawnPlan<F, C>) -> bool {
    match s {
        ProcessingState::Chain(ch) => pl.stdin is LastStdout && pl.prev@ == ch.stages@,
        ProcessingState::Static(st) => pl.stdin matches StdinSpec::Body(f) && f == st.handle
            && pl.prev@.len() == 0,
        _ => pl.stdin is Fresh && pl.prev@.len() == 0,
    }
}

/// The diagnostic an internal error leaves behind when it is routed into
/// a static error document.
pub open spec fn spec_log_of<F, C>(s: ProcessingState<F, C>) -> Option<String> {
    match s {
        ProcessingState::InternalError(_, m) => Some(m),
        _ => None,
    }
}

/// The stage builder's decision table, evaluated in order:
/// an engine error is forwarded untouched; a missing effective path turns
/// a successful state into 404 but lets an error state pass through to an
/// outer handler; an effective path that is itself a directory is 418; an
/// executable becomes a spawn plan wired by `stdin_choice`; any other
/// existing file becomes an open plan carrying the state's status, unless
/// the state is a live chain, which cannot feed a static terminal.
pub open spec fn file_decision<F, C>(
    p_text: Seq<char>,
    p_depth: int,
    t: TermProbe,
    s: ProcessingState<F, C>,
    out: FileOutcome<F, C>,
) -> bool {
    let e_text = spec_effective_text(p_text, t.is_dir);
    let e_depth = spec_effective_depth(p_depth, t.is_dir);
    if s is HttpError {
        out matches FileOutcome::Settled(h) && h.kills@.len() == 0 && h.state == s
    } else if !t.eff_exists {
        if s.spec_is_ok() {
            out matches FileOutcome::Settled(h) && h.kills@ == s.spec_stages() && h.state
                == ProcessingState::<F, C>::ErrorCode(404u16)
        } else {
            out matches FileOutcome::Settled(h) && h.kills@.len() == 0 && h.state == s
        }
    } else if t.eff_is_dir {
        out matches FileOutcome::Settled(h) && h.kills@ == s.spec_stages() && h.state
            == ProcessingState::<F, C>::ErrorCode(418u16)
    } else if t.eff_is_exec {
        match spec_parent(e_text) {
            None => out matches FileOutcome::Settled(h) && h.kills@ == s.spec_stages() && (
            h.state matches ProcessingState::InternalError(c, m) && c == 500 && m@
                == "Could not determine parent folder of "@ + e_text),
            Some(wd) => out matches FileOutcome::Spawn(pl) && pl.exec_path.text@ == e_text
                && pl.exec_path.depth == e_depth && pl.work_dir@ == wd && pl.status
                == s.spec_status() && stdin_choice(s, pl),
        }
    } else {
        match s.spec_handle_code() {
            None => out matches FileOutcome::Settled(h) && h.kills@ == s.spec_stages() && (
            h.state matches ProcessingState::InternalError(c, m) && c == 500 && m@
                == "direct-chain-into-static"@),
            Some(code) => out matches FileOutcome::Open(op) && op.path.text@ == e_text
                && op.path.depth == e_depth && op.status == code && op.log == spec_log_of(s),
        }
    }
}

/// Decides what to do at the terminal path `p`, given the probe `t` and
/// the incoming state `s`.
pub fn plan_file<F, C>(p: OriginPath, t: &TermProbe, s: ProcessingState<F, C>) -> (out:
    FileOutcome<F, C>)
    requires
        p.depth < usize::MAX,
    ensures
        file_decision(p.text@, p.depth as int, *t, s, out),
{
    let e = if t.is_dir {
        let index_name = String::from_str(".index");
        OriginPath { text: join_seg(&p.text, &index_name), depth: p.depth + 1 }
    } else {
        p
    };
    if matches!(&s, ProcessingState::HttpError(_)) {
        return FileOutcome::Settled(Halted { kills: Vec::new(), state: s });
    }
    if !t.eff_exists {
        if s.is_ok() {
            let kills = s.halt_processing();
            return FileOutcome::Settled(
                Halted { kills, state: ProcessingState::ErrorCode(404) },
            );
        } else {
            return FileOutcome::Settled(Halted { kills: Vec::new(), state: s });
        }
    }
    if t.eff_is_dir {
        let kills = s.halt_processing();
        return FileOutcome::Settled(Halted { kills, state: ProcessingState::ErrorCode(418) });
    }
    if t.eff_is_exec {
        match parent_of(&e.text) {
            None => {
                let mut m = String::from_str("Could not determine parent folder of ");
                m.append(e.text.as_str());
                let kills = s.halt_processing();
                return FileOutcome::Settled(
                    Halted { kills, state: ProcessingState::InternalError(500, m) },
                );
            },
            Some(wd) => {
                let status = s.status();
                let (stdin, prev) = match s {
                    ProcessingState::Chain(ch) => (StdinSpec::LastStdout, ch.stages),
                    ProcessingState::Static(st) => (StdinSpec::Body(st.handle), Vec::new()),
                    _ => (StdinSpec::Fresh, Vec::new()),
                };
                return FileOutcome::Spawn(
                    SpawnPlan { exec_path: e, work_dir: wd, stdin, prev, status },
                );
            },
        }
    }
    match s.handle_code() {
        None => {
            let m = String::from_str("direct-chain-into-static");
            let kills = s.halt_processing();
            FileOutcome::Settled(Halted { kills, state: ProcessingState::InternalError(500, m) })
        },
        Some(code) => {
            let log = match s {
                ProcessingState::InternalError(_, m) => Some(m),
                _ => None,
            };
            FileOutcome::Open(OpenPlan { path: e, status: code, log })
        },
    }
}

/// Stdin choices that agree observably.
pub open spec fn stdin_equiv<F>(a: StdinSpec<F>, b: StdinSpec<F>) -> bool {
    match (a, b) {
        (StdinSpec::LastStdout, StdinSpec::LastStdout) => true,
        (StdinSpec::Body(f1), StdinSpec::Body(f2)) => f1 == f2,
        (StdinSpec::Fresh, StdinSpec::Fresh) => true,
        _ => false,
    }
}

/// States that agree observably: same variant, and the same carried
/// values up to the text of diagnostics.
pub open spec fn state_equiv<F, C>(a: ProcessingState<F, C>, b: ProcessingState<F, C>) -> bool {
    match (a, b) {
        (ProcessingState::ErrorCode(e1), ProcessingState::ErrorCode(e2)) => e1 == e2,
        (
            ProcessingState::InternalError(c1, m1),
            ProcessingState::InternalError(c2, m2),
        ) => c1 == c2 && m1@ == m2@,
        (ProcessingState::Static(s1), ProcessingState::Static(s2)) => s1.handle == s2.handle
            && s1.origin.text@ == s2.origin.text@ && s1.origin.depth == s2.origin.depth
            && s1.status == s2.status,
        (ProcessingState::Chain(c1), ProcessingState::Chain(c2)) => c1.stages@ == c2.stages@
            && c1.status == c2.status,
        (ProcessingState::HttpError(_), ProcessingState::HttpError(_)) => a == b,
        _ => false,
    }
}

/// Outcomes that agree observably: same verdict, and the same children
/// to kill, state to stand, or plan to carry out.
pub open spec fn outcome_equiv<F, C>(a: FileOutcome<F, C>, b: FileOutcome<F, C>) -> bool {
    match (a, b) {
        (FileOutcome::Settled(x), FileOutcome::Settled(y)) => x.kills@ == y.kills@ && state_equiv(
            x.state,
            y.state,
        ),
        (FileOutcome::Spawn(x), FileOutcome::Spawn(y)) => x.exec_path.text@ == y.exec_path.text@
            && x.exec_path.depth == y.exec_path.depth && x.work_dir@ == y.work_dir@ && x.status
            == y.status && stdin_equiv(x.stdin, y.stdin) && x.prev@ == y.prev@,
        (FileOutcome::Open(x), FileOutcome::Open(y)) => x.path.text@ == y.path.text@
            && x.path.depth == y.path.depth && x.status == y.status && x.log == y.log,
        _ => false,
    }
}

/// The decision table is a function of its inputs: any two outcomes it
/// admits for the same path, probe and state agree observably. Together
/// with the response builders' own uniqueness, this is why two identical
/// requests over pure stages resolve alike.
pub proof fn lemma_file_decision_functional<F, C>(
    p_text: Seq<char>,
    p_depth: int,
    t: TermProbe,
    s: ProcessingState<F, C>,
    o1: FileOutcome<F, C>,
    o2: FileOutcome<F, C>,
)
    requires
        file_decision(p_text, p_depth, t, s, o1),
        file_decision(p_text, p_depth, t, s, o2),
    ensures
        outcome_equiv(o1, o2),
{
    match (o1, o2) {
        (FileOutcome::Settled(h1), FileOutcome::Settled(h2)) => {
            assert(h1.kills@ =~= h2.kills@);
            if h1.state == h2.state {
                lemma_state_equiv_refl(h1.state);
            }
            assert(state_equiv(h1.state, h2.state));
        },
        (FileOutcome::Spawn(p1), FileOutcome::Spawn(p2)) => {
            assert(stdin_equiv(p1.stdin, p2.stdin));
            assert(p1.prev@ =~= p2.prev@);
        },
        (FileOutcome::Open(x), FileOutcome::Open(y)) => {
        },
        _ => {
            assert(false);
        },
    }
}

/// Observable agreement of states is reflexive.
pub proof fn lemma_state_equiv_refl<F, C>(s: ProcessingState<F, C>)
    ensures
        state_equiv(s, s),
{
}

/// How the attempt to carry out a spawn plan failed.
pub enum SpawnFailure {
    /// The temporary file for the child's stderr could not be created.
    Headers,
    /// No stdin source could be obtained from the previous state.
    Input,
    /// The spawn itself failed.
    Spawn,
}

pub open spec fn spawn_failure_msg(path: Seq<char>, f: SpawnFailure) -> Seq<char> {
    match f {
        SpawnFailure::Headers => "Could not create header tempfile"@,
        SpawnFailure::Input => "Could not ascertain input from previous processing state"@,
        SpawnFailure::Spawn => "Error running command "@ + path,
    }
}

/// A failed spawn plan: every collected child must be killed, and the
/// result is an internal error naming what went wrong.
pub fn spawn_failed<F, C>(pl: SpawnPlan<F, C>, f: SpawnFailure) -> (h: Halted<F, C>)
    ensures
        h.kills@ == pl.prev@,
        h.state matches ProcessingState::InternalError(c, m) && c == 500 && m@
            == spawn_failure_msg(pl.exec_path.text@, f),
{
    let m = match f {
        SpawnFailure::Headers => String::from_str("Could not create header tempfile"),
        SpawnFailure::Input => String::from_str(
            "Could not ascertain input from previous processing state",
        ),
        SpawnFailure::Spawn => {
            let mut m = String::from_str("Error running command ");
            m.append(pl.exec_path.text.as_str());
            m
        },
    };
    Halted { kills: pl.prev, state: ProcessingState::InternalError(500, m) }
}

/// A successful spawn: the new stage joins the chain, and the plan's
/// status is carried forward.
pub fn spawn_succeeded<F, C>(pl: SpawnPlan<F, C>, child: C) -> (s: ProcessingState<F, C>)
    ensures
        s matches ProcessingState::Chain(ch) && ch.status == pl.status && ch.stages@
            == pl.prev@.push((Stage { child, origin: pl.exec_path })),
{
    let mut stages = pl.prev;
    stages.push(Stage { child, origin: pl.exec_path });
    ProcessingState::Chain(ChainState { stages, status: pl.status })
}

/// A successfully opened static terminal.
pub fn open_succeeded<F, C>(op: OpenPlan, handle: F) -> (s: ProcessingState<F, C>)
    ensures
        s matches ProcessingState::Static(st) && st.handle == handle && st.origin == op.path
            && st.status == op.status,
{
    ProcessingState::Static(StaticFile { handle, origin: op.path, status: op.status })
}

/// A static terminal that could not be opened.
pub fn open_failed<F, C>(op: OpenPlan) -> (s: ProcessingState<F, C>)
    ensures
        s matches ProcessingState::InternalError(c, m) && c == 500 && m@ == "Couldn't open file "@
            + op.path.text@,
{
    let mut m = String::from_str("Couldn't open file ");
    m.append(op.path.text.as_str());
    ProcessingState::InternalError(500, m)
}

} // verus!
