//! The per-connection session state machine.  It owns the outbound
//! sequence counter and the channel endpoints to the engine worker, and it
//! decides, for every decoded client message and every engine item, which
//! messages go to the client, which commands go to the engine, and what
//! state the session moves to.  The surrounding transport loop performs the
//! reads and writes and feeds the results back in.

use vstd::prelude::*;
use vstd::string::StringExecFns;
use crate::engine::{halt_reason_name, halt_reason_sv, EngineCommand, EngineItem, EngineReply,
    HaltEvent, HaltKind};
use crate::error::AdapterError;
use crate::msg::{msg_seq, AttachRequestArguments, DebugAdapterMessage, EventBody, IncomingRequest,
    OutEvent, OutResponse, OutgoingMessage, RequestOp, ResponseBody, SourceBreakpoint,
    StoppedEventBody, ThreadInfo, VariableEntry, VariableOut};

verus! {

// ---------------------------------------------------------------------------
// Session state
// ---------------------------------------------------------------------------

/// What kind of reply the session owes the client once the engine answers
/// the outstanding command.
#[derive(Debug)]
pub enum PendingKind {
    /// An attach sequence; the commands not yet issued follow in order.
    Attach { remaining: Vec<EngineCommand> },
    /// A bare acknowledgement reply with no body.
    Ack,
    /// The `continue` reply.
    Continue,
    /// The `disconnect` reply; the session ends after it.
    Disconnect,
    StackTrace,
    Scopes,
    Variables,
    SetBreakpoints,
}

/// The one outstanding engine command's bookkeeping: which request it
/// serves and what reply shape it owes.
#[derive(Debug)]
pub struct Pending {
    pub request_seq: i64,
    pub command: String,
    pub kind: PendingKind,
}

/// The session's lifecycle.  At most one engine command is outstanding at
/// any time: `Waiting` is the only state in which the result queue owes a
/// correlated reply.
#[derive(Debug)]
pub enum SessionState {
    AwaitingInit,
    Idle,
    Waiting(Pending),
    Terminated,
}

/// What one step of the machine asks the surrounding loop to do: write
/// these messages to the client, in order, then send these commands to the
/// engine.
#[derive(Debug)]
pub struct StepOutput {
    pub messages: Vec<OutgoingMessage>,
    pub engine_commands: Vec<EngineCommand>,
}

/// The adapter side of one session: sequence counter, lifecycle state, and
/// the two queue endpoints to the engine worker.
pub struct DebugAdapter {
    pub seq: i64,
    pub state: SessionState,
    pub sender: crossbeam_channel::Sender<EngineCommand>,
    pub receiver: crossbeam_channel::Receiver<EngineItem>,
}

// ---------------------------------------------------------------------------
// Spec helpers
// ---------------------------------------------------------------------------

/// The single response of a step, when the step emits exactly one.
pub open spec fn first_response(out: StepOutput) -> OutResponse {
    match out.messages@[0] {
        OutgoingMessage::Response(r) => r,
        OutgoingMessage::Event(_) => arbitrary(),
    }
}

/// The step emits exactly one client message, a response answering request
/// `rsq` with command echo `cmd`, and no engine command.
pub open spec fn sole_response(out: StepOutput, q: int, rsq: int, cmd: String) -> bool {
    &&& out.messages@.len() == 1
    &&& out.engine_commands@.len() == 0
    &&& out.messages@[0] is Response
    &&& first_response(out).seq == q
    &&& first_response(out).request_seq == rsq
    &&& first_response(out).command == cmd
}

/// A `sole_response` that reports success and carries no error message.
pub open spec fn sole_success(out: StepOutput, q: int, rsq: int, cmd: String) -> bool {
    &&& sole_response(out, q, rsq, cmd)
    &&& first_response(out).success
    &&& first_response(out).message is None
}

/// A `sole_response` that reports failure with an empty body.
pub open spec fn sole_failure(out: StepOutput, q: int, rsq: int, cmd: String) -> bool {
    &&& sole_response(out, q, rsq, cmd)
    &&& !first_response(out).success
    &&& first_response(out).body is Empty
}

/// The step emits no client message and exactly the engine command `c`.
pub open spec fn sole_command(out: StepOutput, c: EngineCommand) -> bool {
    &&& out.messages@.len() == 0
    &&& out.engine_commands@.len() == 1
    &&& out.engine_commands@[0] == c
}

/// The step emits nothing at all.
pub open spec fn no_output(out: StepOutput) -> bool {
    out.messages@.len() == 0 && out.engine_commands@.len() == 0
}

/// The adapter is blocked on request `rsq` (command echo `cmd`).
pub open spec fn now_waiting(s: DebugAdapter, rsq: int, cmd: String) -> bool {
    s.state matches SessionState::Waiting(p) && p.request_seq == rsq && p.command == cmd
}

/// The outstanding command's reply shape.
pub open spec fn pending_kind(s: DebugAdapter) -> PendingKind {
    match s.state {
        SessionState::Waiting(p) => p.kind,
        _ => arbitrary(),
    }
}

/// How a halt notification is rendered for the client: the reason string
/// names the halt kind, a breakpoint halt carries the fixed description,
/// the thread id is always the single fixed thread `0`, and the breakpoint
/// ids pass through unchanged.
pub open spec fn stopped_matches(b: StoppedEventBody, h: HaltEvent) -> bool {
    &&& b.reason@ == halt_reason_sv(h.reason)
    &&& (h.reason is Breakpoint ==> (b.description matches Some(d) && d@
        == "Target stopped due to breakpoint."@))
    &&& (!(h.reason is Breakpoint) ==> b.description is None)
    &&& b.thread_id == Some(0i64)
    &&& b.hit_breakpoint_ids == h.hit_breakpoint_ids
}

/// How one engine-side variable is rendered in the reply: the engine's own
/// child counts and display value pass through, and a nameless entry gets
/// the `<unknown>` label.
pub open spec fn var_out_matches(o: VariableOut, v: VariableEntry) -> bool {
    &&& (v.name matches Some(n) ==> o.name == n)
    &&& (v.name is None ==> o.name@ == "<unknown>"@)
    &&& o.value == v.value
    &&& o.type_ == Some(v.type_)
    &&& o.variables_reference == v.id
    &&& o.indexed_variables == Some(v.indexed_child_count)
    &&& o.named_variables == Some(v.named_child_count)
}

/// Element-wise `var_out_matches` over a whole reply.
pub open spec fn vars_reply_matches(outv: Seq<VariableOut>, inv: Seq<VariableEntry>) -> bool {
    &&& outv.len() == inv.len()
    &&& forall|i: int| 0 <= i < inv.len() ==> var_out_matches(#[trigger] outv[i], inv[i])
}

/// The ordered engine commands an `attach` request issues: select the
/// binary, select the chip, optionally set the working directory, then
/// either flash (when the flash flag is set) or attach.  Absent reset and
/// halt-after-reset flags default to false.
pub open spec fn attach_plan(args: AttachRequestArguments) -> Seq<EngineCommand> {
    let head = seq![
        EngineCommand::SetBinary { path: args.program },
        EngineCommand::SetChip { chip: args.chip },
    ];
    let mid = match args.cwd {
        Some(cwd) => head.push(EngineCommand::SetCwd { cwd }),
        None => head,
    };
    let last = if args.flash == Some(true) {
        EngineCommand::Flash { reset_and_halt: args.halt_after_reset == Some(true) }
    } else {
        EngineCommand::Attach {
            reset: args.reset == Some(true),
            reset_and_halt: args.halt_after_reset == Some(true),
        }
    };
    mid.push(last)
}

/// With the flash flag set, the attach sequence is SetBinary, SetChip,
/// (SetCwd,) Flash, and never contains an Attach command; with the flag
/// absent or false it ends in Attach and never contains a Flash command.
pub proof fn lemma_attach_plan_order(args: AttachRequestArguments)
    ensures
        3 <= attach_plan(args).len() <= 4,
        attach_plan(args)[0] == (EngineCommand::SetBinary { path: args.program }),
        attach_plan(args)[1] == (EngineCommand::SetChip { chip: args.chip }),
        args.cwd matches Some(cwd) ==> attach_plan(args).len() == 4 && attach_plan(args)[2]
            == (EngineCommand::SetCwd { cwd }),
        args.cwd is None ==> attach_plan(args).len() == 3,
        args.flash == Some(true) ==> attach_plan(args).last() == (EngineCommand::Flash {
            reset_and_halt: args.halt_after_reset == Some(true),
        }) && (forall|i: int|
            0 <= i < attach_plan(args).len() ==> !(#[trigger] attach_plan(args)[i] is Attach)),
        args.flash != Some(true) ==> attach_plan(args).last() == (EngineCommand::Attach {
            reset: args.reset == Some(true),
            reset_and_halt: args.halt_after_reset == Some(true),
        }) && (forall|i: int|
            0 <= i < attach_plan(args).len() ==> !(#[trigger] attach_plan(args)[i] is Flash)),
{
}

// ---------------------------------------------------------------------------
// Exec helpers
// ---------------------------------------------------------------------------

fn quiet() -> (out: StepOutput)
    ensures
        no_output(out),
{
    StepOutput { messages: Vec::new(), engine_commands: Vec::new() }
}

/// Builds the `threads` reply body: the single fixed thread.
fn threads_body() -> (b: ResponseBody)
    ensures
        b matches ResponseBody::Threads { threads } && threads@.len() == 1 && threads@[0].id == 0
            && threads@[0].name@ == "Main Thread"@,
{
    let mut threads: Vec<ThreadInfo> = Vec::new();
    threads.push(ThreadInfo { id: 0, name: String::from_str("Main Thread") });
    ResponseBody::Threads { threads }
}

/// Renders the engine's variable entries for the reply.
fn variables_body(vars: Vec<VariableEntry>) -> (b: ResponseBody)
    ensures
        b matches ResponseBody::Variables { variables } && vars_reply_matches(variables@, vars@),
{
    let mut variables: Vec<VariableOut> = Vec::new();
    let mut i: usize = 0;
    while i < vars.len()
        invariant
            i <= vars.len(),
            variables@.len() == i as int,
            forall|j: int| 0 <= j < i as int ==> var_out_matches(#[trigger] variables@[j], vars@[j]),
        decreases vars.len() - i,
    {
        let v = &vars[i];
        let name = match &v.name {
            Some(n) => n.clone(),
            None => String::from_str("<unknown>"),
        };
        variables.push(
            VariableOut {
                name: name,
                value: v.value.clone(),
                type_: Some(v.type_.clone()),
                variables_reference: v.id,
                indexed_variables: Some(v.indexed_child_count),
                named_variables: Some(v.named_child_count),
            },
        );
        i = i + 1;
    }
    ResponseBody::Variables { variables }
}

/// Renders a halt notification as the `stopped` event body.
fn stopped_body(halt: HaltEvent) -> (b: StoppedEventBody)
    ensures
        stopped_matches(b, halt),
        b.all_threads_stopped is None,
        b.preserve_focus_hint is None,
        b.text is None,
{
    let description = if matches!(halt.reason, HaltKind::Breakpoint) {
        Some(String::from_str("Target stopped due to breakpoint."))
    } else {
        None
    };
    StoppedEventBody {
        all_threads_stopped: None,
        description: description,
        preserve_focus_hint: None,
        reason: halt_reason_name(halt.reason),
        text: None,
        thread_id: Some(0),
        hit_breakpoint_ids: halt.hit_breakpoint_ids,
    }
}

/// Builds the ordered engine commands of one `attach` request.
fn attach_commands(args: AttachRequestArguments) -> (v: Vec<EngineCommand>)
    ensures
        v@ == attach_plan(args),
{
    let mut v: Vec<EngineCommand> = Vec::new();
    v.push(EngineCommand::SetBinary { path: args.program.clone() });
    v.push(EngineCommand::SetChip { chip: args.chip.clone() });
    match &args.cwd {
        Some(cwd) => {
            v.push(EngineCommand::SetCwd { cwd: cwd.clone() });
        },
        None => {},
    }
    let reset_and_halt = matches!(args.halt_after_reset, Some(true));
    if matches!(args.flash, Some(true)) {
        v.push(EngineCommand::Flash { reset_and_halt: reset_and_halt });
    } else {
        let reset = matches!(args.reset, Some(true));
        v.push(EngineCommand::Attach { reset: reset, reset_and_halt: reset_and_halt });
    }
    proof {
        assert(v@ =~= attach_plan(args));
    }
    v
}

impl DebugAdapter {
    /// A fresh session: counter at zero, handshake not yet seen.
    pub fn new(
        sender: crossbeam_channel::Sender<EngineCommand>,
        receiver: crossbeam_channel::Receiver<EngineItem>,
    ) -> (da: DebugAdapter)
        ensures
            da.seq == 0,
            da.state is AwaitingInit,
    {
        DebugAdapter { seq: 0, state: SessionState::AwaitingInit, sender: sender, receiver: receiver }
    }

    /// Hands one command to the engine's queue.  Relies on the trusted
    /// channel boundary; a send against a stopped engine is a channel
    /// error, fatal to the session.
    pub fn send_engine(&self, cmd: EngineCommand) -> (r: Result<(), AdapterError>)
        ensures
            r matches Err(e) ==> e is Channel,
    {
        match self.sender.send(cmd) {
            Ok(()) => Ok(()),
            Err(_) => Err(AdapterError::Channel),
        }
    }

    /// Non-blocking probe of the result queue; `None` when nothing is
    /// ready (or the engine is gone, which the next send surfaces).
    pub fn poll_engine(&self) -> (r: Option<EngineItem>) {
        match self.receiver.try_recv() {
            Ok(item) => Some(item),
            Err(_) => None,
        }
    }

    /// Blocking read of the result queue.
    pub fn recv_engine(&self) -> (r: Result<EngineItem, AdapterError>)
        ensures
            r matches Err(e) ==> e is Channel,
    {
        match self.receiver.recv() {
            Ok(item) => Ok(item),
            Err(_) => Err(AdapterError::Channel),
        }
    }

    /// Stamps and emits one response, advancing the counter.
    fn respond(
        &mut self,
        request_seq: i64,
        command: String,
        success: bool,
        message: Option<String>,
        body: ResponseBody,
    ) -> (out: StepOutput)
        requires
            old(self).seq < i64::MAX,
        ensures
            final(self).seq == old(self).seq + 1,
            final(self).state == old(self).state,
            out.messages@.len() == 1,
            out.engine_commands@.len() == 0,
            out.messages@[0] matches OutgoingMessage::Response(r) && r == (OutResponse {
                seq: old(self).seq,
                request_seq: request_seq,
                command: command,
                success: success,
                message: message,
                body: body,
            }),
    {
        let m = OutgoingMessage::Response(
            OutResponse {
                seq: self.seq,
                request_seq: request_seq,
                command: command,
                success: success,
                message: message,
                body: body,
            },
        );
        self.seq = self.seq + 1;
        let mut messages: Vec<OutgoingMessage> = Vec::new();
        messages.push(m);
        StepOutput { messages: messages, engine_commands: Vec::new() }
    }

    /// Records the outstanding command and asks the loop to send it.
    fn defer(
        &mut self,
        request_seq: i64,
        command: String,
        kind: PendingKind,
        cmd: EngineCommand,
    ) -> (out: StepOutput)
        ensures
            final(self).seq == old(self).seq,
            now_waiting(*final(self), request_seq as int, command),
            pending_kind(*final(self)) == kind,
            sole_command(out, cmd),
    {
        self.state = SessionState::Waiting(
            Pending { request_seq: request_seq, command: command, kind: kind },
        );
        let mut engine_commands: Vec<EngineCommand> = Vec::new();
        engine_commands.push(cmd);
        StepOutput { messages: Vec::new(), engine_commands: engine_commands }
    }

    /// One step of the machine for one decoded client message.
    ///
    /// The first message of a session must be an `initialize` request: it
    /// is answered with the capabilities response and then the
    /// `initialized` event, in that order; any other first message ends
    /// the session with nothing sent.  After the handshake, requests are
    /// served by command; incoming responses and events are fatal;
    /// unknown commands are ignored without ending the session.  Messages
    /// are stamped with consecutive sequence numbers from the session
    /// counter, which advances by exactly the number of messages emitted.
    pub fn handle_message(&mut self, msg: DebugAdapterMessage) -> (out: StepOutput)
        requires
            !(old(self).state is Waiting),
            old(self).seq <= i64::MAX - 2,
        ensures
            final(self).seq == old(self).seq + out.messages@.len(),
            forall|i: int|
                0 <= i < out.messages@.len() ==> msg_seq(#[trigger] out.messages@[i]) == old(self).seq + i,
            out.messages@.len() <= 2,
            out.engine_commands@.len() <= 1,
            old(self).state is Terminated ==> final(self).state is Terminated && no_output(out),
            old(self).state is AwaitingInit && !(msg is Request) ==> final(self).state
                is Terminated && no_output(out),
            old(self).state is AwaitingInit ==> (msg matches DebugAdapterMessage::Request(r) ==> (
            r.command@ != "initialize"@ ==> final(self).state is Terminated && no_output(out))),
            old(self).state is AwaitingInit ==> (msg matches DebugAdapterMessage::Request(r) ==> (
            r.command@ == "initialize"@ ==> final(self).state is Idle && out.engine_commands@.len()
                == 0 && out.messages@.len() == 2 && (out.messages@[0]
                matches OutgoingMessage::Response(resp) && resp.request_seq == r.seq && resp.command
                == r.command && resp.success && resp.message is None && resp.body
                == (ResponseBody::Capabilities { supports_configuration_done_request: true })) && (
            out.messages@[1] matches OutgoingMessage::Event(ev) && ev.body is Initialized))),
            old(self).state is Idle && (msg is Response || msg is Event) ==> final(self).state
                is Terminated && no_output(out),
            old(self).state is Idle ==> (msg matches DebugAdapterMessage::Request(r) ==> {
                &&& (r.op is Initialize || r.op is Unsupported) ==> final(self).state is Idle
                    && no_output(out)
                &&& r.op is Launch ==> final(self).state is Idle && sole_failure(
                    out,
                    old(self).seq as int,
                    r.seq as int,
                    r.command,
                ) && (first_response(out).message matches Some(t) && t@ == "Unimplemented"@)
                &&& r.op matches RequestOp::BadArguments { message } ==> final(self).state is Idle
                    && sole_failure(out, old(self).seq as int, r.seq as int, r.command)
                    && first_response(out).message == Some(message)
                &&& r.op is Threads ==> final(self).state is Idle && sole_success(
                    out,
                    old(self).seq as int,
                    r.seq as int,
                    r.command,
                ) && (first_response(out).body matches ResponseBody::Threads { threads }
                    && threads@.len() == 1 && threads@[0].id == 0 && threads@[0].name@
                    == "Main Thread"@)
                &&& r.op is ConfigurationDone ==> final(self).state is Idle && sole_success(
                    out,
                    old(self).seq as int,
                    r.seq as int,
                    r.command,
                ) && first_response(out).body is Empty
                &&& r.op is Evaluate ==> final(self).state is Idle && sole_success(
                    out,
                    old(self).seq as int,
                    r.seq as int,
                    r.command,
                ) && (first_response(out).body matches ResponseBody::Evaluate {
                    result,
                    variables_reference,
                } && result@ == "This feature is not yet implemented"@ && variables_reference == 0)
                &&& r.op matches RequestOp::Attach(args) ==> now_waiting(
                    *final(self),
                    r.seq as int,
                    r.command,
                ) && (pending_kind(*final(self)) matches PendingKind::Attach { remaining }
                    && remaining@ == attach_plan(args).skip(1)) && sole_command(
                    out,
                    attach_plan(args)[0],
                )
                &&& r.op matches RequestOp::SetBreakpoints(args) ==> {
                    &&& args.source.path is None ==> final(self).state is Idle && sole_success(
                        out,
                        old(self).seq as int,
                        r.seq as int,
                        r.command,
                    ) && (first_response(out).body matches ResponseBody::SetBreakpoints {
                        breakpoints,
                    } && breakpoints@.len() == 0)
                    &&& args.source.path matches Some(path) ==> now_waiting(
                        *final(self),
                        r.seq as int,
                        r.command,
                    ) && pending_kind(*final(self)) is SetBreakpoints && out.engine_commands@.len()
                        == 1 && out.messages@.len() == 0 && (out.engine_commands@[0]
                        matches EngineCommand::SetBreakpoints {
                        source_file,
                        source_breakpoints,
                        source,
                    } && source_file == path && source == Some(args.source) && (args.breakpoints
                        matches Some(b) ==> source_breakpoints == b) && (args.breakpoints is None
                        ==> source_breakpoints@.len() == 0))
                }
                &&& r.op is Pause ==> now_waiting(*final(self), r.seq as int, r.command)
                    && pending_kind(*final(self)) is Ack && sole_command(out, EngineCommand::Halt)
                &&& r.op is Step ==> now_waiting(*final(self), r.seq as int, r.command)
                    && pending_kind(*final(self)) is Ack && sole_command(out, EngineCommand::Step)
                &&& r.op is Continue ==> now_waiting(*final(self), r.seq as int, r.command)
                    && pending_kind(*final(self)) is Continue && sole_command(
                    out,
                    EngineCommand::Continue,
                )
                &&& r.op is StackTrace ==> now_waiting(*final(self), r.seq as int, r.command)
                    && pending_kind(*final(self)) is StackTrace && sole_command(
                    out,
                    EngineCommand::StackFrames,
                )
                &&& r.op matches RequestOp::Scopes { frame_id } ==> now_waiting(
                    *final(self),
                    r.seq as int,
                    r.command,
                ) && pending_kind(*final(self)) is Scopes && sole_command(
                    out,
                    (EngineCommand::Scopes { frame_id }),
                )
                &&& r.op matches RequestOp::Variables { variables_reference } ==> now_waiting(
                    *final(self),
                    r.seq as int,
                    r.command,
                ) && pending_kind(*final(self)) is Variables && sole_command(
                    out,
                    (EngineCommand::Variables { id: variables_reference }),
                )
                &&& r.op is Disconnect ==> now_waiting(*final(self), r.seq as int, r.command)
                    && pending_kind(*final(self)) is Disconnect && sole_command(
                    out,
                    EngineCommand::Exit,
                )
            }),
    {
        if matches!(self.state, SessionState::Terminated) {
            return quiet();
        }
        if matches!(self.state, SessionState::AwaitingInit) {
            match msg {
                DebugAdapterMessage::Request(req) => {
                    if req.command == String::from_str("initialize") {
                        let resp = OutgoingMessage::Response(
                            OutResponse {
                                seq: self.seq,
                                request_seq: req.seq,
                                command: req.command,
                                success: true,
                                message: None,
                                body: ResponseBody::Capabilities {
                                    supports_configuration_done_request: true,
                                },
                            },
                        );
                        let ev = OutgoingMessage::Event(
                            OutEvent { seq: self.seq + 1, body: EventBody::Initialized },
                        );
                        self.seq = self.seq + 2;
                        self.state = SessionState::Idle;
                        let mut messages: Vec<OutgoingMessage> = Vec::new();
                        messages.push(resp);
                        messages.push(ev);
                        return StepOutput { messages: messages, engine_commands: Vec::new() };
                    } else {
                        self.state = SessionState::Terminated;
                        return quiet();
                    }
                },
                _ => {
                    self.state = SessionState::Terminated;
                    return quiet();
                },
            }
        }
        // Steady state.
        let req = match msg {
            DebugAdapterMessage::Request(req) => req,
            _ => {
                self.state = SessionState::Terminated;
                return quiet();
            },
        };
        let IncomingRequest { seq: rseq, command, op } = req;
        match op {
            RequestOp::Initialize => quiet(),
            RequestOp::Unsupported => quiet(),
            RequestOp::Launch => self.respond(
                rseq,
                command,
                false,
                Some(String::from_str("Unimplemented")),
                ResponseBody::Empty,
            ),
            RequestOp::BadArguments { message } => self.respond(
                rseq,
                command,
                false,
                Some(message),
                ResponseBody::Empty,
            ),
            RequestOp::Threads => {
                let b = threads_body();
                self.respond(rseq, command, true, None, b)
            },
            RequestOp::ConfigurationDone => self.respond(
                rseq,
                command,
                true,
                None,
                ResponseBody::Empty,
            ),
            RequestOp::Evaluate => self.respond(
                rseq,
                command,
                true,
                None,
                ResponseBody::Evaluate {
                    result: String::from_str("This feature is not yet implemented"),
                    variables_reference: 0,
                },
            ),
            RequestOp::Attach(args) => {
                let mut plan = attach_commands(args);
                proof {
                    lemma_attach_plan_order(args);
                }
                let head = plan.remove(0);
                proof {
                    assert(plan@ =~= attach_plan(args).skip(1));
                }
                self.defer(rseq, command, PendingKind::Attach { remaining: plan }, head)
            },
            RequestOp::SetBreakpoints(args) => {
                let path_opt: Option<String> = match &args.source.path {
                    Some(p) => Some(p.clone()),
                    None => None,
                };
                match path_opt {
                    None => {
                        let b = ResponseBody::SetBreakpoints { breakpoints: Vec::new() };
                        self.respond(rseq, command, true, None, b)
                    },
                    Some(path) => {
                        let source_breakpoints: Vec<SourceBreakpoint> = match args.breakpoints {
                            Some(b) => b,
                            None => Vec::new(),
                        };
                        let cmd = EngineCommand::SetBreakpoints {
                            source_file: path,
                            source_breakpoints: source_breakpoints,
                            source: Some(args.source),
                        };
                        self.defer(rseq, command, PendingKind::SetBreakpoints, cmd)
                    },
                }
            },
            RequestOp::Pause => self.defer(rseq, command, PendingKind::Ack, EngineCommand::Halt),
            RequestOp::Step => self.defer(rseq, command, PendingKind::Ack, EngineCommand::Step),
            RequestOp::Continue => self.defer(
                rseq,
                command,
                PendingKind::Continue,
                EngineCommand::Continue,
            ),
            RequestOp::StackTrace => self.defer(
                rseq,
                command,
                PendingKind::StackTrace,
                EngineCommand::StackFrames,
            ),
            RequestOp::Scopes { frame_id } => self.defer(
                rseq,
                command,
                PendingKind::Scopes,
                EngineCommand::Scopes { frame_id: frame_id },
            ),
            RequestOp::Variables { variables_reference } => self.defer(
                rseq,
                command,
                PendingKind::Variables,
                EngineCommand::Variables { id: variables_reference },
            ),
            RequestOp::Disconnect => self.defer(
                rseq,
                command,
                PendingKind::Disconnect,
                EngineCommand::Exit,
            ),
        }
    }

    /// One step of the machine for one item from the result queue.
    ///
    /// An unsolicited halt event is rendered and forwarded to the client
    /// at once, in every live state, without disturbing the outstanding
    /// command: a halt that arrives while the adapter waits for a
    /// correlated reply therefore goes out before that reply's own
    /// response.  A correlated reply resolves the outstanding command: an
    /// engine error becomes a failure response and the session continues;
    /// a reply of the wrong variant ends the session as an internal
    /// contract violation; otherwise the owed reply is built from the
    /// payload.  A reply that arrives with no command outstanding is
    /// ignored.
    pub fn on_engine_item(&mut self, item: EngineItem) -> (out: StepOutput)
        requires
            old(self).seq <= i64::MAX - 2,
        ensures
            final(self).seq == old(self).seq + out.messages@.len(),
            forall|i: int|
                0 <= i < out.messages@.len() ==> msg_seq(#[trigger] out.messages@[i]) == old(self).seq + i,
            out.messages@.len() <= 1,
            out.engine_commands@.len() <= 1,
            old(self).state is Terminated ==> final(self).state is Terminated && no_output(out),
            !(old(self).state is Terminated) ==> (item matches EngineItem::Event(h) ==> final(self).state == old(self).state && out.engine_commands@.len() == 0 && out.messages@.len()
                == 1 && (out.messages@[0] matches OutgoingMessage::Event(ev) && ev.seq == old(self).seq && (ev.body matches EventBody::Stopped(b) && stopped_matches(b, h)))),
            (old(self).state is Idle || old(self).state is AwaitingInit) ==> (item
                matches EngineItem::Reply(rep) ==> final(self).state == old(self).state
                && no_output(out)),
            old(self).state matches SessionState::Waiting(p) ==> (item matches EngineItem::Reply(
                rep,
            ) ==> {
                &&& rep matches EngineReply::Error { message } ==> final(self).state is Idle
                    && sole_failure(out, old(self).seq as int, p.request_seq as int, p.command)
                    && first_response(out).message == Some(message)
                &&& !(rep is Error) ==> {
                    &&& p.kind is Ack ==> final(self).state is Idle && sole_success(
                        out,
                        old(self).seq as int,
                        p.request_seq as int,
                        p.command,
                    ) && first_response(out).body is Empty
                    &&& p.kind is Continue ==> final(self).state is Idle && sole_success(
                        out,
                        old(self).seq as int,
                        p.request_seq as int,
                        p.command,
                    ) && first_response(out).body == (ResponseBody::Continued {
                        all_threads_continued: Some(true),
                    })
                    &&& p.kind is Disconnect ==> final(self).state is Terminated && sole_success(
                        out,
                        old(self).seq as int,
                        p.request_seq as int,
                        p.command,
                    ) && first_response(out).body is Empty
                    &&& p.kind matches PendingKind::Attach { remaining } ==> {
                        &&& remaining@.len() > 0 ==> now_waiting(
                            *final(self),
                            p.request_seq as int,
                            p.command,
                        ) && (pending_kind(*final(self)) matches PendingKind::Attach {
                            remaining: rem2,
                        } && rem2@ == remaining@.skip(1)) && sole_command(out, remaining@[0])
                        &&& remaining@.len() == 0 ==> final(self).state is Idle && sole_success(
                            out,
                            old(self).seq as int,
                            p.request_seq as int,
                            p.command,
                        ) && first_response(out).body is Empty
                    }
                    &&& p.kind is StackTrace ==> {
                        &&& rep matches EngineReply::StackFrames { stack_frames } ==> final(self).state is Idle && sole_success(
                            out,
                            old(self).seq as int,
                            p.request_seq as int,
                            p.command,
                        ) && (first_response(out).body matches ResponseBody::StackTrace {
                            stack_frames: f,
                            total_frames,
                        } && f == stack_frames && (stack_frames@.len() <= i64::MAX ==> total_frames
                            == Some(stack_frames@.len() as i64)))
                        &&& !(rep is StackFrames) ==> final(self).state is Terminated && no_output(
                            out,
                        )
                    }
                    &&& p.kind is Scopes ==> {
                        &&& rep matches EngineReply::Scopes { scopes } ==> final(self).state
                            is Idle && sole_success(
                            out,
                            old(self).seq as int,
                            p.request_seq as int,
                            p.command,
                        ) && (first_response(out).body matches ResponseBody::Scopes { scopes: s }
                            && s == scopes)
                        &&& !(rep is Scopes) ==> final(self).state is Terminated && no_output(out)
                    }
                    &&& p.kind is Variables ==> {
                        &&& rep matches EngineReply::Variables { variables } ==> final(self).state
                            is Idle && sole_success(
                            out,
                            old(self).seq as int,
                            p.request_seq as int,
                            p.command,
                        ) && (first_response(out).body matches ResponseBody::Variables {
                            variables: vs,
                        } && vars_reply_matches(vs@, variables@))
                        &&& !(rep is Variables) ==> final(self).state is Terminated && no_output(
                            out,
                        )
                    }
                    &&& p.kind is SetBreakpoints ==> {
                        &&& rep matches EngineReply::SetBreakpoints { breakpoints } ==> final(self).state is Idle && sole_success(
                            out,
                            old(self).seq as int,
                            p.request_seq as int,
                            p.command,
                        ) && (first_response(out).body matches ResponseBody::SetBreakpoints {
                            breakpoints: bs,
                        } && bs == breakpoints)
                        &&& !(rep is SetBreakpoints) ==> final(self).state is Terminated
                            && no_output(out)
                    }
                }
            }),
    {
        if matches!(self.state, SessionState::Terminated) {
            return quiet();
        }
        let rep = match item {
            EngineItem::Event(h) => {
                let b = stopped_body(h);
                let ev = OutgoingMessage::Event(
                    OutEvent { seq: self.seq, body: EventBody::Stopped(b) },
                );
                self.seq = self.seq + 1;
                let mut messages: Vec<OutgoingMessage> = Vec::new();
                messages.push(ev);
                return StepOutput { messages: messages, engine_commands: Vec::new() };
            },
            EngineItem::Reply(rep) => rep,
        };
        // Take the pending bookkeeping out of the state.
        let mut st = SessionState::Idle;
        core::mem::swap(&mut st, &mut self.state);
        let pending = match st {
            SessionState::Waiting(p) => p,
            other => {
                // No command outstanding: put the state back and ignore.
                self.state = other;
                return quiet();
            },
        };
        let Pending { request_seq, command, kind } = pending;
        if let EngineReply::Error { message } = rep {
            self.state = SessionState::Idle;
            return self.respond(request_seq, command, false, Some(message), ResponseBody::Empty);
        }
        match kind {
            PendingKind::Ack => {
                self.state = SessionState::Idle;
                self.respond(request_seq, command, true, None, ResponseBody::Empty)
            },
            PendingKind::Continue => {
                self.state = SessionState::Idle;
                self.respond(
                    request_seq,
                    command,
                    true,
                    None,
                    ResponseBody::Continued { all_threads_continued: Some(true) },
                )
            },
            PendingKind::Disconnect => {
                let out = self.respond(request_seq, command, true, None, ResponseBody::Empty);
                self.state = SessionState::Terminated;
                out
            },
            PendingKind::Attach { remaining } => {
                let mut remaining = remaining;
                let ghost rem0 = remaining@;
                if remaining.len() > 0 {
                    let head = remaining.remove(0);
                    proof {
                        assert(remaining@ =~= rem0.skip(1));
                    }
                    self.defer(
                        request_seq,
                        command,
                        PendingKind::Attach { remaining: remaining },
                        head,
                    )
                } else {
                    self.state = SessionState::Idle;
                    self.respond(request_seq, command, true, None, ResponseBody::Empty)
                }
            },
            PendingKind::StackTrace => {
                match rep {
                    EngineReply::StackFrames { stack_frames } => {
                        let n = stack_frames.len();
                        let total: i64 = if n as u64 <= i64::MAX as u64 {
                            n as i64
                        } else {
                            i64::MAX
                        };
                        self.state = SessionState::Idle;
                        self.respond(
                            request_seq,
                            command,
                            true,
                            None,
                            ResponseBody::StackTrace {
                                stack_frames: stack_frames,
                                total_frames: Some(total),
                            },
                        )
                    },
                    _ => {
                        self.state = SessionState::Terminated;
                        quiet()
                    },
                }
            },
            PendingKind::Scopes => {
                match rep {
                    EngineReply::Scopes { scopes } => {
                        self.state = SessionState::Idle;
                        self.respond(
                            request_seq,
                            command,
                            true,
                            None,
                            ResponseBody::Scopes { scopes: scopes },
                        )
                    },
                    _ => {
                        self.state = SessionState::Terminated;
                        quiet()
                    },
                }
            },
            PendingKind::Variables => {
                match rep {
                    EngineReply::Variables { variables } => {
                        let b = variables_body(variables);
                        self.state = SessionState::Idle;
                        self.respond(request_seq, command, true, None, b)
                    },
                    _ => {
                        self.state = SessionState::Terminated;
                        quiet()
                    },
                }
            },
            PendingKind::SetBreakpoints => {
                match rep {
                    EngineReply::SetBreakpoints { breakpoints } => {
                        self.state = SessionState::Idle;
                        self.respond(
                            request_seq,
                            command,
                            true,
                            None,
                            ResponseBody::SetBreakpoints { breakpoints: breakpoints },
                        )
                    },
                    _ => {
                        self.state = SessionState::Terminated;
                        quiet()
                    },
                }
            },
        }
    }
}

} // verus!
