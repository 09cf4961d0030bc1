//! The resolver: turns a pipeline state into a response, re-entering the
//! walk when a stage reported an error.
//!
//! The binary drives the loop (waiting on children is an effect); every
//! decision in it — what each state variant becomes, which truncated
//! path an error re-walks, what a finished chain responds — is a
//! verified function here.

use vstd::prelude::*;
use crate::response::{HttpResponse, error_response, is_error_response};
use crate::state::{ChainState, OriginPath, ProcessingState, Stage, StaticFile};

verus! {

/// What resolving one state requires next.
pub enum ResolveTask<F, C> {
    /// The response is complete; the optional diagnostic is logged.
    Respond(HttpResponse, Option<String>),
    /// An HTTP-engine error, surfaced verbatim.
    Forward(http::Error),
    /// Rewind and read this static terminal, detect its media type.
    ReadStatic(StaticFile<F>),
    /// Wait on this chain's stages in order.
    RunChain(ChainState<C>),
}

/// Dispatches one state: the bare and internal errors respond with the
/// default error document at their status (the internal error also hands
/// its diagnostic out for logging); a static terminal must be read; a
/// chain must be run; an engine error is forwarded.
pub fn resolve_dispatch<F, C>(s: ProcessingState<F, C>) -> (t: ResolveTask<F, C>)
    ensures
        match s {
            ProcessingState::ErrorCode(e) => t matches ResolveTask::Respond(r, log)
                && is_error_response(e, r) && log is None,
            ProcessingState::InternalError(e, m) => t matches ResolveTask::Respond(r, log)
                && is_error_response(e, r) && log == Some(m),
            ProcessingState::Static(st) => t matches ResolveTask::ReadStatic(st2) && st2 == st,
            ProcessingState::Chain(ch) => t matches ResolveTask::RunChain(ch2) && ch2 == ch,
            ProcessingState::HttpError(e) => t matches ResolveTask::Forward(e2) && e2 == e,
        },
{
    match s {
        ProcessingState::ErrorCode(e) => ResolveTask::Respond(error_response(e), None),
        ProcessingState::InternalError(e, m) => ResolveTask::Respond(error_response(e), Some(m)),
        ProcessingState::Static(st) => ResolveTask::ReadStatic(st),
        ProcessingState::Chain(ch) => ResolveTask::RunChain(ch),
        ProcessingState::HttpError(e) => ResolveTask::Forward(e),
    }
}

/// How many layers an error at a stage with `origin_depth` components
/// below the base re-walks: one less than the depth (the failing stage's
/// own directory), clamped to the layers present.
pub open spec fn spec_redo_depth(origin_depth: int, layers_len: int) -> int {
    let d = if origin_depth >= 1 {
        origin_depth - 1
    } else {
        0
    };
    if d <= layers_len {
        d
    } else {
        layers_len
    }
}

/// When the stage at `origin` reported the non-success status `code`,
/// resolution re-walks the truncated path with a bare error state,
/// looking for the nearest error handler along the way.
pub fn chain_failure_restart<F, C>(origin: &OriginPath, code: u16, layers: &Vec<String>) -> (r: (
    Vec<String>,
    ProcessingState<F, C>,
))
    ensures
        r.0.deep_view() == layers.deep_view().take(
            spec_redo_depth(origin.depth as int, layers@.len() as int),
        ),
        r.1 == ProcessingState::<F, C>::ErrorCode(code),
{
    let d0: usize = if origin.depth >= 1 {
        origin.depth - 1
    } else {
        0
    };
    let d: usize = if d0 <= layers.len() {
        d0
    } else {
        layers.len()
    };
    let mut out: Vec<String> = Vec::new();
    let mut i: usize = 0;
    while i < d
        invariant
            i <= d,
            d <= layers@.len(),
            layers.deep_view().len() == layers@.len(),
            forall|j: int| 0 <= j < layers@.len() ==> layers.deep_view()[j] == layers@[j]@,
            out.deep_view() =~= layers.deep_view().take(i as int),
        decreases d - i,
    {
        let seg = layers[i].clone();
        proof {
            assert(seg@ == layers.deep_view()[i as int]);
            assert(layers.deep_view().take(i + 1) =~= layers.deep_view().take(i as int).push(
                seg@,
            ));
        }
        out.push(seg);
        proof {
            assert(out.deep_view() =~= layers.deep_view().take(i + 1));
        }
        i += 1;
    }
    proof {
        assert(out.deep_view() =~= layers.deep_view().take(
            spec_redo_depth(origin.depth as int, layers@.len() as int),
        ));
    }
    (out, ProcessingState::ErrorCode(code))
}

/// Takes the last stage of a fully successful chain: its output becomes
/// the response. A chain with no stages is a server-side fault.
pub fn chain_finish<F, C>(stages: Vec<Stage<C>>) -> (r: Result<Stage<C>, ProcessingState<F, C>>)
    ensures
        match r {
            Ok(last) => stages@.len() > 0 && last == stages@.last(),
            Err(s) => stages@.len() == 0 && (
            s matches ProcessingState::InternalError(c, m) && c == 500 && m@
                == "Resolving empty chain"@),
        },
{
    let mut stages = stages;
    match stages.pop() {
        Some(last) => Ok(last),
        None => Err(
            ProcessingState::InternalError(500, String::from_str("Resolving empty chain")),
        ),
    }
}

} // verus!
