//! Model of the wire-protocol messages the adapter exchanges with its
//! client.  Incoming requests arrive with their command-specific arguments
//! already decoded into plain values; outgoing messages carry plain values
//! that the transport layer serializes.

use vstd::prelude::*;
use vstd::string::StringExecFns;

verus! {

broadcast use vstd::string::group_string_axioms;

// ---------------------------------------------------------------------------
// Incoming messages
// ---------------------------------------------------------------------------

/// Closed enumeration of the request command names the adapter knows.
#[derive(Clone, Copy, Debug, PartialEq, Eq, Structural)]
pub enum CommandKind {
    Initialize,
    Launch,
    Attach,
    SetBreakpoints,
    Threads,
    ConfigurationDone,
    Pause,
    StackTrace,
    Disconnect,
    Continue,
    Scopes,
    Source,
    Variables,
    Next,
    StepIn,
    StepOut,
    Evaluate,
    Unknown,
}

/// Arguments of an `attach` request.
#[derive(Clone, Debug)]
pub struct AttachRequestArguments {
    pub program: String,
    pub chip: String,
    pub cwd: Option<String>,
    pub reset: Option<bool>,
    pub halt_after_reset: Option<bool>,
    pub flash: Option<bool>,
}

/// The source descriptor of a `setBreakpoints` request.
#[derive(Clone, Debug)]
pub struct SourceInfo {
    pub name: Option<String>,
    pub path: Option<String>,
}

/// One requested line breakpoint.
#[derive(Clone, Debug)]
pub struct SourceBreakpoint {
    pub line: i64,
    pub column: Option<i64>,
}

/// Arguments of a `setBreakpoints` request.
#[derive(Clone, Debug)]
pub struct SetBreakpointsRequestArguments {
    pub source: SourceInfo,
    pub breakpoints: Option<Vec<SourceBreakpoint>>,
}

/// A request's command together with its decoded arguments.  `BadArguments`
/// stands for a request whose arguments were missing or did not match the
/// shape its command requires; it carries the decoder's message.
#[derive(Debug)]
pub enum RequestOp {
    Initialize,
    Launch,
    Attach(AttachRequestArguments),
    SetBreakpoints(SetBreakpointsRequestArguments),
    Threads,
    ConfigurationDone,
    Pause,
    StackTrace,
    Disconnect,
    Continue,
    Scopes { frame_id: i64 },
    Variables { variables_reference: i64 },
    Step,
    Evaluate,
    Unsupported,
    BadArguments { message: String },
}

/// One decoded client request.
#[derive(Debug)]
pub struct IncomingRequest {
    pub seq: i64,
    pub command: String,
    pub op: RequestOp,
}

/// One decoded client message, tagged by its `type` discriminator.
#[derive(Debug)]
pub enum DebugAdapterMessage {
    Request(IncomingRequest),
    Response,
    Event,
}

// ---------------------------------------------------------------------------
// Outgoing messages
// ---------------------------------------------------------------------------

/// One thread, for the `threads` reply.
#[derive(Clone, Debug)]
pub struct ThreadInfo {
    pub id: i64,
    pub name: String,
}

/// One stack frame handed back by the engine, in wire shape.
#[derive(Clone, Debug)]
pub struct StackFrameInfo {
    pub id: i64,
    pub name: String,
    pub line: i64,
    pub column: i64,
    pub source: Option<SourceInfo>,
}

/// One scope handed back by the engine, in wire shape.
#[derive(Clone, Debug)]
pub struct ScopeInfo {
    pub name: String,
    pub variables_reference: i64,
    pub expensive: bool,
}

/// One variable as the engine holds it: the display value and the child
/// counts come from the engine's own formatting, and the name may be
/// absent.
#[derive(Clone, Debug)]
pub struct VariableEntry {
    pub id: i64,
    pub name: Option<String>,
    pub type_: String,
    pub value: String,
    pub indexed_child_count: i64,
    pub named_child_count: i64,
}

/// One variable as the reply presents it.
#[derive(Clone, Debug)]
pub struct VariableOut {
    pub name: String,
    pub value: String,
    pub type_: Option<String>,
    pub variables_reference: i64,
    pub indexed_variables: Option<i64>,
    pub named_variables: Option<i64>,
}

/// One breakpoint as the engine accepted it.
#[derive(Clone, Debug)]
pub struct BreakpointInfo {
    pub id: Option<i64>,
    pub verified: bool,
    pub line: Option<i64>,
    pub message: Option<String>,
}

/// Body of the `stopped` event.
#[derive(Clone, Debug)]
pub struct StoppedEventBody {
    pub all_threads_stopped: Option<bool>,
    pub description: Option<String>,
    pub preserve_focus_hint: Option<bool>,
    pub reason: String,
    pub text: Option<String>,
    pub thread_id: Option<i64>,
    pub hit_breakpoint_ids: Option<Vec<u32>>,
}

/// Body of an outgoing response, one shape per command family.
#[derive(Debug)]
pub enum ResponseBody {
    Empty,
    Capabilities { supports_configuration_done_request: bool },
    Threads { threads: Vec<ThreadInfo> },
    Continued { all_threads_continued: Option<bool> },
    Evaluate { result: String, variables_reference: i64 },
    StackTrace { stack_frames: Vec<StackFrameInfo>, total_frames: Option<i64> },
    Scopes { scopes: Vec<ScopeInfo> },
    Variables { variables: Vec<VariableOut> },
    SetBreakpoints { breakpoints: Vec<BreakpointInfo> },
}

/// An outgoing response.  `request_seq` echoes the request answered;
/// `seq` is stamped from the session's outbound counter.
#[derive(Debug)]
pub struct OutResponse {
    pub seq: i64,
    pub request_seq: i64,
    pub command: String,
    pub success: bool,
    pub message: Option<String>,
    pub body: ResponseBody,
}

/// Body of an outgoing event.
#[derive(Debug)]
pub enum EventBody {
    Initialized,
    Stopped(StoppedEventBody),
}

/// An outgoing event, stamped like a response.
#[derive(Debug)]
pub struct OutEvent {
    pub seq: i64,
    pub body: EventBody,
}

/// Everything the adapter sends to the client.
#[derive(Debug)]
pub enum OutgoingMessage {
    Response(OutResponse),
    Event(OutEvent),
}

/// The sequence number an outgoing message is stamped with.
pub open spec fn msg_seq(m: OutgoingMessage) -> int {
    match m {
        OutgoingMessage::Response(r) => r.seq as int,
        OutgoingMessage::Event(e) => e.seq as int,
    }
}

// ---------------------------------------------------------------------------
// Dispatch by command name
// ---------------------------------------------------------------------------

/// Maps a request's command name to the closed command enumeration; every
/// unrecognized name maps to `Unknown`.
#[verifier::rlimit(60)]
pub fn command_kind_of(command: &String) -> (r: CommandKind)
    ensures
        r == CommandKind::Initialize <==> command@ == "initialize"@,
        r == CommandKind::Launch <==> command@ == "launch"@,
        r == CommandKind::Attach <==> command@ == "attach"@,
        r == CommandKind::SetBreakpoints <==> command@ == "setBreakpoints"@,
        r == CommandKind::Threads <==> command@ == "threads"@,
        r == CommandKind::ConfigurationDone <==> command@ == "configurationDone"@,
        r == CommandKind::Pause <==> command@ == "pause"@,
        r == CommandKind::StackTrace <==> command@ == "stackTrace"@,
        r == CommandKind::Disconnect <==> command@ == "disconnect"@,
        r == CommandKind::Continue <==> command@ == "continue"@,
        r == CommandKind::Scopes <==> command@ == "scopes"@,
        r == CommandKind::Source <==> command@ == "source"@,
        r == CommandKind::Variables <==> command@ == "variables"@,
        r == CommandKind::Next <==> command@ == "next"@,
        r == CommandKind::StepIn <==> command@ == "stepIn"@,
        r == CommandKind::StepOut <==> command@ == "stepOut"@,
        r == CommandKind::Evaluate <==> command@ == "evaluate"@,
{
    proof {
        reveal_strlit("initialize");
        reveal_strlit("launch");
        reveal_strlit("attach");
        reveal_strlit("setBreakpoints");
        reveal_strlit("threads");
        reveal_strlit("configurationDone");
        reveal_strlit("pause");
        reveal_strlit("stackTrace");
        reveal_strlit("disconnect");
        reveal_strlit("continue");
        reveal_strlit("scopes");
        reveal_strlit("source");
        reveal_strlit("variables");
        reveal_strlit("next");
        reveal_strlit("stepIn");
        reveal_strlit("stepOut");
        reveal_strlit("evaluate");
        broadcast use vstd::string::group_string_axioms;
        // Command names of different lengths are told apart by length ...
        assert("initialize"@.len() == 10);
        assert("launch"@.len() == 6);
        assert("attach"@.len() == 6);
        assert("setBreakpoints"@.len() == 14);
        assert("threads"@.len() == 7);
        assert("configurationDone"@.len() == 17);
        assert("pause"@.len() == 5);
        assert("stackTrace"@.len() == 10);
        assert("disconnect"@.len() == 10);
        assert("continue"@.len() == 8);
        assert("scopes"@.len() == 6);
        assert("source"@.len() == 6);
        assert("variables"@.len() == 9);
        assert("next"@.len() == 4);
        assert("stepIn"@.len() == 6);
        assert("stepOut"@.len() == 7);
        assert("evaluate"@.len() == 8);
        // ... and same-length names by a distinguishing character.
        assert("launch"@ != "attach"@) by { assert("launch"@[0] != "attach"@[0]); }
        assert("launch"@ != "scopes"@) by { assert("launch"@[0] != "scopes"@[0]); }
        assert("launch"@ != "source"@) by { assert("launch"@[0] != "source"@[0]); }
        assert("launch"@ != "stepIn"@) by { assert("launch"@[0] != "stepIn"@[0]); }
        assert("attach"@ != "scopes"@) by { assert("attach"@[0] != "scopes"@[0]); }
        assert("attach"@ != "source"@) by { assert("attach"@[0] != "source"@[0]); }
        assert("attach"@ != "stepIn"@) by { assert("attach"@[0] != "stepIn"@[0]); }
        assert("scopes"@ != "source"@) by { assert("scopes"@[1] != "source"@[1]); }
        assert("scopes"@ != "stepIn"@) by { assert("scopes"@[1] != "stepIn"@[1]); }
        assert("source"@ != "stepIn"@) by { assert("source"@[1] != "stepIn"@[1]); }
        assert("initialize"@ != "stackTrace"@) by {
            assert("initialize"@[0] != "stackTrace"@[0]);
        }
        assert("initialize"@ != "disconnect"@) by {
            assert("initialize"@[0] != "disconnect"@[0]);
        }
        assert("stackTrace"@ != "disconnect"@) by {
            assert("stackTrace"@[0] != "disconnect"@[0]);
        }
        assert("threads"@ != "stepOut"@) by { assert("threads"@[1] != "stepOut"@[1]); }
        assert("continue"@ != "evaluate"@) by { assert("continue"@[0] != "evaluate"@[0]); }
    }
    if *command == String::from_str("initialize") {
        CommandKind::Initialize
    } else if *command == String::from_str("launch") {
        CommandKind::Launch
    } else if *command == String::from_str("attach") {
        CommandKind::Attach
    } else if *command == String::from_str("setBreakpoints") {
        CommandKind::SetBreakpoints
    } else if *command == String::from_str("threads") {
        CommandKind::Threads
    } else if *command == String::from_str("configurationDone") {
        CommandKind::ConfigurationDone
    } else if *command == String::from_str("pause") {
        CommandKind::Pause
    } else if *command == String::from_str("stackTrace") {
        CommandKind::StackTrace
    } else if *command == String::from_str("disconnect") {
        CommandKind::Disconnect
    } else if *command == String::from_str("continue") {
        CommandKind::Continue
    } else if *command == String::from_str("scopes") {
        CommandKind::Scopes
    } else if *command == String::from_str("source") {
        CommandKind::Source
    } else if *command == String::from_str("variables") {
        CommandKind::Variables
    } else if *command == String::from_str("next") {
        CommandKind::Next
    } else if *command == String::from_str("stepIn") {
        CommandKind::StepIn
    } else if *command == String::from_str("stepOut") {
        CommandKind::StepOut
    } else if *command == String::from_str("evaluate") {
        CommandKind::Evaluate
    } else {
        CommandKind::Unknown
    }
}

} // verus!
