//! The order of calls into the track engine, as a state machine.
//!
//! A session asks which engine call comes next, the caller performs it and
//! hands back the engine's reply, and the session moves on. Every decision
//! (what comes next, what to unwind after a failure, which buffers to
//! release) is made here; performing the calls is left to the caller.
use vstd::prelude::*;

verus! {

/// Size of the engine's internal buffer, handed to its global initialisation.
pub const ENGINE_BUFFER_SIZE: u32 = 131072;

/// Upper bound on the number of zoom levels that a header may hold.
pub const MAX_ZOOM_LEVELS: i32 = 10;

/// A call into the track engine.
#[derive(Clone, Copy, Debug, PartialEq, Eq, Structural)]
pub enum EngineCall {
    /// Process-wide initialisation, with `ENGINE_BUFFER_SIZE`.
    GlobalInit,
    /// Open the output path for writing.
    Open,
    /// Create the header, with room for `MAX_ZOOM_LEVELS` zoom levels.
    CreateHeader,
    /// Build the chromosome catalog from one name buffer per chromosome.
    CreateCatalog,
    /// Release every name buffer made for the catalog.
    ReleaseNameBuffers,
    /// Write the header to the output.
    WriteHeader,
    /// Append a fixed-step block.
    AppendFixedStep,
    /// Append a variable-step block.
    AppendVariableStep,
    /// Release the name buffer made for one append.
    ReleaseNameBuffer,
    /// Close the session handle.
    Close,
    /// Process-wide cleanup.
    GlobalCleanup,
}

/// What the engine answered to a call.
#[derive(Clone, Copy, Debug, PartialEq, Eq, Structural)]
pub enum Reply {
    /// A return code; zero means success.
    Status { code: i32 },
    /// A handle or pointer, which the engine signals failure with by being null.
    Handle { is_null: bool },
    /// A call that reports nothing.
    Done,
}

/// The setup step that failed.
#[derive(Clone, Copy, Debug, PartialEq, Eq, Structural)]
pub enum Failure {
    Init { code: i32 },
    Open,
    CreateHeader { code: i32 },
    CreateCatalog,
    WriteHeader { code: i32 },
}

/// Where a session stands.
#[derive(Clone, Copy, Debug, PartialEq, Eq, Structural)]
pub enum Stage {
    Init,
    Open,
    CreateHeader,
    CreateCatalog,
    /// The catalog call has returned; its name buffers are still held.
    ReleaseNames { catalog_ok: bool },
    WriteHeader,
    /// Setup failed with an open handle: close it.
    UnwindClose { failure: Failure },
    /// Setup failed after a successful global initialisation: clean up.
    UnwindCleanup { failure: Failure },
    /// Setup failed and everything it acquired is released.
    Failed { failure: Failure },
    /// The session is open: appends and closing are allowed.
    Ready,
    /// An append call is due.
    Appending { variable: bool },
    /// The append call has returned `code`; its name buffer is still held.
    ReleasingName { variable: bool, code: i32 },
    Closing,
    CleaningUp,
    Closed,
}

/// The return code that a reply stands for: a null handle is -1.
pub open spec fn status_of(r: Reply) -> int {
    match r {
        Reply::Status { code } => code as int,
        Reply::Handle { is_null } => if is_null { -1 } else { 0 },
        Reply::Done => 0,
    }
}

pub open spec fn succeeded(r: Reply) -> bool {
    status_of(r) == 0
}

pub open spec fn append_call(variable: bool) -> EngineCall {
    if variable { EngineCall::AppendVariableStep } else { EngineCall::AppendFixedStep }
}

/// The call that is due at a stage; `None` where the session waits for its owner.
pub open spec fn call_of(s: Stage) -> Option<EngineCall> {
    match s {
        Stage::Init => Some(EngineCall::GlobalInit),
        Stage::Open => Some(EngineCall::Open),
        Stage::CreateHeader => Some(EngineCall::CreateHeader),
        Stage::CreateCatalog => Some(EngineCall::CreateCatalog),
        Stage::ReleaseNames { .. } => Some(EngineCall::ReleaseNameBuffers),
        Stage::WriteHeader => Some(EngineCall::WriteHeader),
        Stage::UnwindClose { .. } => Some(EngineCall::Close),
        Stage::UnwindCleanup { .. } => Some(EngineCall::GlobalCleanup),
        Stage::Appending { variable } => Some(append_call(variable)),
        Stage::ReleasingName { .. } => Some(EngineCall::ReleaseNameBuffer),
        Stage::Closing => Some(EngineCall::Close),
        Stage::CleaningUp => Some(EngineCall::GlobalCleanup),
        Stage::Failed { .. } => None,
        Stage::Ready => None,
        Stage::Closed => None,
    }
}

/// The stage after the call due at `s` was answered with `r`.
pub open spec fn after(s: Stage, r: Reply) -> Stage {
    let ok = succeeded(r);
    let code = status_of(r) as i32;
    match s {
        Stage::Init => if ok {
            Stage::Open
        } else {
            Stage::Failed { failure: Failure::Init { code } }
        },
        Stage::Open => if ok {
            Stage::CreateHeader
        } else {
            Stage::UnwindCleanup { failure: Failure::Open }
        },
        Stage::CreateHeader => if ok {
            Stage::CreateCatalog
        } else {
            Stage::UnwindClose { failure: Failure::CreateHeader { code } }
        },
        Stage::CreateCatalog => Stage::ReleaseNames { catalog_ok: ok },
        Stage::ReleaseNames { catalog_ok } => if catalog_ok {
            Stage::WriteHeader
        } else {
            Stage::UnwindClose { failure: Failure::CreateCatalog }
        },
        Stage::WriteHeader => if ok {
            Stage::Ready
        } else {
            Stage::UnwindClose { failure: Failure::WriteHeader { code } }
        },
        Stage::UnwindClose { failure } => Stage::UnwindCleanup { failure },
        Stage::UnwindCleanup { failure } => Stage::Failed { failure },
        Stage::Appending { variable } => Stage::ReleasingName { variable, code },
        Stage::ReleasingName { .. } => Stage::Ready,
        Stage::Closing => Stage::CleaningUp,
        Stage::CleaningUp => Stage::Closed,
        Stage::Failed { .. } => s,
        Stage::Ready => s,
        Stage::Closed => s,
    }
}

/// Runs a session from `s` on the replies `rs`, one per call, until no call
/// is due or the replies run out: the stage reached and the calls made.
pub open spec fn run(s: Stage, rs: Seq<Reply>) -> (Stage, Seq<EngineCall>)
    decreases rs.len(),
{
    if rs.len() == 0 || call_of(s).is_none() {
        (s, Seq::empty())
    } else {
        let (t, cs) = run(after(s, rs[0]), rs.drop_first());
        (t, seq![call_of(s).unwrap()] + cs)
    }
}

/// How often `c` occurs in `cs`.
pub open spec fn occurrences(cs: Seq<EngineCall>, c: EngineCall) -> nat
    decreases cs.len(),
{
    if cs.len() == 0 {
        0
    } else {
        (if cs[0] == c { 1nat } else { 0nat }) + occurrences(cs.drop_first(), c)
    }
}

pub fn status_code(r: Reply) -> (code: i32)
    ensures
        code as int == status_of(r),
{
    match r {
        Reply::Status { code } => code,
        Reply::Handle { is_null } => if is_null { -1 } else { 0 },
        Reply::Done => 0,
    }
}

/// The call that is due at `s`.
pub fn next_call_at(s: Stage) -> (r: Option<EngineCall>)
    ensures
        r == call_of(s),
{
    match s {
        Stage::Init => Some(EngineCall::GlobalInit),
        Stage::Open => Some(EngineCall::Open),
        Stage::CreateHeader => Some(EngineCall::CreateHeader),
        Stage::CreateCatalog => Some(EngineCall::CreateCatalog),
        Stage::ReleaseNames { .. } => Some(EngineCall::ReleaseNameBuffers),
        Stage::WriteHeader => Some(EngineCall::WriteHeader),
        Stage::UnwindClose { .. } => Some(EngineCall::Close),
        Stage::UnwindCleanup { .. } => Some(EngineCall::GlobalCleanup),
        Stage::Appending { variable } => Some(
            if variable { EngineCall::AppendVariableStep } else { EngineCall::AppendFixedStep },
        ),
        Stage::ReleasingName { .. } => Some(EngineCall::ReleaseNameBuffer),
        Stage::Closing => Some(EngineCall::Close),
        Stage::CleaningUp => Some(EngineCall::GlobalCleanup),
        Stage::Failed { .. } => None,
        Stage::Ready => None,
        Stage::Closed => None,
    }
}

/// The stage after the call due at `s` was answered with `r`.
pub fn advance(s: Stage, r: Reply) -> (t: Stage)
    ensures
        t == after(s, r),
{
    let code = status_code(r);
    let ok = code == 0;
    match s {
        Stage::Init => if ok {
            Stage::Open
        } else {
            Stage::Failed { failure: Failure::Init { code } }
        },
        Stage::Open => if ok {
            Stage::CreateHeader
        } else {
            Stage::UnwindCleanup { failure: Failure::Open }
        },
        Stage::CreateHeader => if ok {
            Stage::CreateCatalog
        } else {
            Stage::UnwindClose { failure: Failure::CreateHeader { code } }
        },
        Stage::CreateCatalog => Stage::ReleaseNames { catalog_ok: ok },
        Stage::ReleaseNames { catalog_ok } => if catalog_ok {
            Stage::WriteHeader
        } else {
            Stage::UnwindClose { failure: Failure::CreateCatalog }
        },
        Stage::WriteHeader => if ok {
            Stage::Ready
        } else {
            Stage::UnwindClose { failure: Failure::WriteHeader { code } }
        },
        Stage::UnwindClose { failure } => Stage::UnwindCleanup { failure },
        Stage::UnwindCleanup { failure } => Stage::Failed { failure },
        Stage::Appending { variable } => Stage::ReleasingName { variable, code },
        Stage::ReleasingName { .. } => Stage::Ready,
        Stage::Closing => Stage::CleaningUp,
        Stage::CleaningUp => Stage::Closed,
        Stage::Failed { .. } => s,
        Stage::Ready => s,
        Stage::Closed => s,
    }
}

} // verus!
