//! The pipeline state: the sum type that the walker threads through the
//! layers and that the resolver turns into a response.
//!
//! The type is generic over the two resource handles the library never
//! opens itself: `F`, a seekable file (the buffered request body, or an
//! opened static file), and `C`, a live child process. The binary
//! instantiates them with its real handles; the logic here never looks
//! inside them.

use vstd::prelude::*;
use crate::codes::{spec_status_ok, status_is_ok};

verus! {

/// An absolute path under the base directory, together with how many
/// components it has beyond the base. The component count is what error
/// backtracking truncates the layer list by.
pub struct OriginPath {
    pub text: String,
    pub depth: usize,
}

/// One live stage of a pipeline: a spawned child and the path of the
/// executable it runs.
pub struct Stage<C> {
    pub child: C,
    pub origin: OriginPath,
}

/// A terminal byte source: an open, rewindable file, the path it came
/// from (used for content-type detection), and the status to respond with.
pub struct StaticFile<F> {
    pub handle: F,
    pub origin: OriginPath,
    pub status: u16,
}

/// An ordered pipeline of live children. The last child's stdout is the
/// body source; `status` is used when every stage exits successfully.
pub struct ChainState<C> {
    pub stages: Vec<Stage<C>>,
    pub status: u16,
}

/// Relies on the `http` crate's `Error` type: an HTTP-engine error that
/// the library only carries through, never inspects.
#[verifier::external_type_specification]
#[verifier::external_body]
pub struct ExHttpError(http::Error);

/// The state passed through the walker.
pub enum ProcessingState<F, C> {
    /// A bare HTTP error: no body beyond the default message.
    ErrorCode(u16),
    /// A server-side failure: the message is logged, the status returned.
    InternalError(u16, String),
    /// A terminal static byte source.
    Static(StaticFile<F>),
    /// A pipeline of live children.
    Chain(ChainState<C>),
    /// An HTTP-engine error, forwarded verbatim.
    HttpError(http::Error),
}

impl<F, C> ProcessingState<F, C> {
    /// The HTTP status this state carries; an engine error counts as 500.
    pub open spec fn spec_status(&self) -> u16 {
        match self {
            ProcessingState::ErrorCode(e) => *e,
            ProcessingState::InternalError(e, _) => *e,
            ProcessingState::Static(st) => st.status,
            ProcessingState::Chain(ch) => ch.status,
            ProcessingState::HttpError(_) => 500u16,
        }
    }

    pub open spec fn spec_is_ok(&self) -> bool {
        spec_status_ok(self.spec_status())
    }

    /// The stages a state owns: those of a chain, and none otherwise.
    pub open spec fn spec_stages(self) -> Seq<Stage<C>> {
        match self {
            ProcessingState::Chain(ch) => ch.stages@,
            _ => Seq::empty(),
        }
    }

    /// The status a static terminal would carry forward: present for the
    /// plain-value states, absent for a live chain or an engine error.
    pub open spec fn spec_handle_code(&self) -> Option<u16> {
        match self {
            ProcessingState::ErrorCode(e) => Some(*e),
            ProcessingState::InternalError(e, _) => Some(*e),
            ProcessingState::Static(st) => Some(st.status),
            ProcessingState::Chain(_) => None,
            ProcessingState::HttpError(_) => None,
        }
    }

    pub fn status(&self) -> (r: u16)
        ensures
            r == self.spec_status(),
    {
        match self {
            ProcessingState::ErrorCode(e) => *e,
            ProcessingState::InternalError(e, _) => *e,
            ProcessingState::Static(st) => st.status,
            ProcessingState::Chain(ch) => ch.status,
            ProcessingState::HttpError(_) => 500,
        }
    }

    pub fn is_ok(&self) -> (r: bool)
        ensures
            r == self.spec_is_ok(),
    {
        status_is_ok(self.status())
    }

    pub fn handle_code(&self) -> (r: Option<u16>)
        ensures
            r == self.spec_handle_code(),
    {
        match self {
            ProcessingState::ErrorCode(e) => Some(*e),
            ProcessingState::InternalError(e, _) => Some(*e),
            ProcessingState::Static(st) => Some(st.status),
            ProcessingState::Chain(_) => None,
            ProcessingState::HttpError(_) => None,
        }
    }

    /// Dismantles the state for disposal: returns every child the state
    /// owned, so the caller can deliver the kill the lifecycle demands.
    /// Everything else the state held is dropped.
    pub fn halt_processing(self) -> (r: Vec<Stage<C>>)
        ensures
            r@ == self.spec_stages(),
    {
        match self {
            ProcessingState::Chain(ch) => ch.stages,
            _ => Vec::new(),
        }
    }
}

/// A settled step: the children that must now be killed, and the state
/// that stands afterwards.
pub struct Halted<F, C> {
    pub kills: Vec<Stage<C>>,
    pub state: ProcessingState<F, C>,
}

/// A server-side failure, ready for the resolver.
pub fn internal_error<F, C>(msg: String) -> (r: ProcessingState<F, C>)
    ensures
        r == ProcessingState::<F, C>::InternalError(500u16, msg),
{
    ProcessingState::InternalError(500, msg)
}

/// The state a request starts in: the buffered request body as a static
/// byte source with status 200, under the synthetic origin `incoming`.
pub fn initial_state<F, C>(body: F) -> (r: ProcessingState<F, C>)
    ensures
        r matches ProcessingState::Static(st) && st.handle == body && st.origin.text@
            == "incoming"@ && st.origin.depth == 0 && st.status == 200,
{
    ProcessingState::Static(
        StaticFile {
            handle: body,
            origin: OriginPath { text: String::from_str("incoming"), depth: 0 },
            status: 200,
        },
    )
}

/// A startup failure: what the binary reports when it cannot begin
/// serving. It carries only the message.
pub struct ServeError {
    pub message: String,
}

/// Wraps a diagnostic message as a startup failure.
pub fn error(err: String) -> (r: ServeError)
    ensures
        r.message == err,
{
    ServeError { message: err }
}

} // verus!
