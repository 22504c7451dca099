//! The internal vocabulary spoken between the adapter and the hardware
//! debug engine: commands the adapter issues, and the replies and
//! unsolicited events the engine delivers back.

use vstd::prelude::*;
use vstd::string::StringExecFns;
use crate::msg::{BreakpointInfo, ScopeInfo, SourceBreakpoint, SourceInfo, StackFrameInfo,
    VariableEntry};

verus! {

/// One operation the engine can perform.  Each variant carries exactly the
/// data that operation needs.
#[derive(Clone, Debug)]
pub enum EngineCommand {
    SetBinary { path: String },
    SetChip { chip: String },
    SetCwd { cwd: String },
    Flash { reset_and_halt: bool },
    Attach { reset: bool, reset_and_halt: bool },
    Halt,
    Continue,
    Step,
    StackFrames,
    Scopes { frame_id: i64 },
    Variables { id: i64 },
    SetBreakpoints {
        source_file: String,
        source_breakpoints: Vec<SourceBreakpoint>,
        source: Option<SourceInfo>,
    },
    Exit,
}

/// Why the target halted.
#[derive(Clone, Copy, Debug, PartialEq, Eq, Structural)]
pub enum HaltKind {
    Breakpoint,
    Exception,
    Watchpoint,
    Step,
    Request,
    External,
    Unknown,
}

/// An unsolicited halt notification from the engine.
#[derive(Clone, Debug)]
pub struct HaltEvent {
    pub pc: u64,
    pub reason: HaltKind,
    pub hit_breakpoint_ids: Option<Vec<u32>>,
}

/// The engine's answer to the most recently issued command: an
/// acknowledgement, a payload, or an error outcome.
#[derive(Clone, Debug)]
pub enum EngineReply {
    Ack,
    StackFrames { stack_frames: Vec<StackFrameInfo> },
    Scopes { scopes: Vec<ScopeInfo> },
    Variables { variables: Vec<VariableEntry> },
    SetBreakpoints { breakpoints: Vec<BreakpointInfo> },
    Error { message: String },
}

/// Everything that travels on the result queue: a correlated reply or an
/// unsolicited event.
#[derive(Clone, Debug)]
pub enum EngineItem {
    Reply(EngineReply),
    Event(HaltEvent),
}

/// The reason string the halt notification is rendered with.
pub open spec fn halt_reason_sv(k: HaltKind) -> Seq<char> {
    match k {
        HaltKind::Breakpoint => "breakpoint"@,
        HaltKind::Exception => "Exception"@,
        HaltKind::Watchpoint => "Watchpoint"@,
        HaltKind::Step => "Step"@,
        HaltKind::Request => "Request"@,
        HaltKind::External => "External"@,
        HaltKind::Unknown => "Unknown"@,
    }
}

/// The reason string of a halt, as an owned value.
pub fn halt_reason_name(k: HaltKind) -> (r: String)
    ensures
        r@ == halt_reason_sv(k),
{
    match k {
        HaltKind::Breakpoint => String::from_str("breakpoint"),
        HaltKind::Exception => String::from_str("Exception"),
        HaltKind::Watchpoint => String::from_str("Watchpoint"),
        HaltKind::Step => String::from_str("Step"),
        HaltKind::Request => String::from_str("Request"),
        HaltKind::External => String::from_str("External"),
        HaltKind::Unknown => String::from_str("Unknown"),
    }
}

} // verus!
