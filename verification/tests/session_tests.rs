use crossbeam_channel::unbounded;
use debug_adapter::engine::{EngineCommand, EngineItem, EngineReply, HaltEvent, HaltKind};
use debug_adapter::msg::{
    AttachRequestArguments, DebugAdapterMessage, EventBody, IncomingRequest, OutgoingMessage,
    RequestOp, ResponseBody, SetBreakpointsRequestArguments, SourceBreakpoint, SourceInfo,
    VariableEntry,
};
use debug_adapter::session::{DebugAdapter, SessionState, StepOutput};

fn fresh_adapter() -> (
    DebugAdapter,
    crossbeam_channel::Receiver<EngineCommand>,
    crossbeam_channel::Sender<EngineItem>,
) {
    let (cmd_tx, cmd_rx) = unbounded::<EngineCommand>();
    let (item_tx, item_rx) = unbounded::<EngineItem>();
    (DebugAdapter::new(cmd_tx, item_rx), cmd_rx, item_tx)
}

fn request(seq: i64, command: &str, op: RequestOp) -> DebugAdapterMessage {
    DebugAdapterMessage::Request(IncomingRequest {
        seq,
        command: command.to_string(),
        op,
    })
}

fn initialized(adapter: &mut DebugAdapter) {
    let out = adapter.handle_message(request(1, "initialize", RequestOp::Initialize));
    assert_eq!(out.messages.len(), 2);
}

fn sole_response(out: &StepOutput) -> &debug_adapter::msg::OutResponse {
    assert_eq!(out.messages.len(), 1);
    match &out.messages[0] {
        OutgoingMessage::Response(r) => r,
        OutgoingMessage::Event(_) => panic!("expected a response"),
    }
}

#[test]
fn handshake_replies_with_capabilities_then_initialized_event() {
    let (mut adapter, _cmd_rx, _item_tx) = fresh_adapter();
    assert_eq!(adapter.seq, 0);
    let out = adapter.handle_message(request(1, "initialize", RequestOp::Initialize));
    assert_eq!(out.messages.len(), 2);
    assert!(out.engine_commands.is_empty());
    match &out.messages[0] {
        OutgoingMessage::Response(r) => {
            assert_eq!(r.seq, 0);
            assert_eq!(r.request_seq, 1);
            assert_eq!(r.command, "initialize");
            assert!(r.success);
            match &r.body {
                ResponseBody::Capabilities {
                    supports_configuration_done_request,
                } => assert!(*supports_configuration_done_request),
                _ => panic!("expected capabilities body"),
            }
        }
        _ => panic!("expected a response first"),
    }
    match &out.messages[1] {
        OutgoingMessage::Event(e) => {
            assert_eq!(e.seq, 1);
            assert!(matches!(e.body, EventBody::Initialized));
        }
        _ => panic!("expected the initialized event second"),
    }
    assert!(matches!(adapter.state, SessionState::Idle));
}

#[test]
fn non_initialize_first_request_ends_session_silently() {
    let (mut adapter, _cmd_rx, _item_tx) = fresh_adapter();
    let out = adapter.handle_message(request(1, "launch", RequestOp::Launch));
    assert!(out.messages.is_empty());
    assert!(out.engine_commands.is_empty());
    assert!(matches!(adapter.state, SessionState::Terminated));
}

#[test]
fn non_request_first_message_ends_session_silently() {
    let (mut adapter, _cmd_rx, _item_tx) = fresh_adapter();
    let out = adapter.handle_message(DebugAdapterMessage::Response);
    assert!(out.messages.is_empty());
    assert!(matches!(adapter.state, SessionState::Terminated));
}

#[test]
fn sequence_numbers_increase_by_one_per_message() {
    let (mut adapter, _cmd_rx, _item_tx) = fresh_adapter();
    initialized(&mut adapter);
    assert_eq!(adapter.seq, 2);
    let out = adapter.handle_message(request(2, "threads", RequestOp::Threads));
    assert_eq!(sole_response(&out).seq, 2);
    assert_eq!(adapter.seq, 3);
    let out = adapter.handle_message(request(3, "configurationDone", RequestOp::ConfigurationDone));
    assert_eq!(sole_response(&out).seq, 3);
    assert_eq!(adapter.seq, 4);
}

#[test]
fn breakpoints_without_path_reply_empty_without_engine_contact() {
    let (mut adapter, cmd_rx, _item_tx) = fresh_adapter();
    initialized(&mut adapter);
    let args = SetBreakpointsRequestArguments {
        source: SourceInfo {
            name: Some("main.rs".to_string()),
            path: None,
        },
        breakpoints: Some(vec![SourceBreakpoint {
            line: 10,
            column: None,
        }]),
    };
    let out = adapter.handle_message(request(2, "setBreakpoints", RequestOp::SetBreakpoints(args)));
    assert!(out.engine_commands.is_empty());
    let r = sole_response(&out);
    assert!(r.success);
    match &r.body {
        ResponseBody::SetBreakpoints { breakpoints } => assert!(breakpoints.is_empty()),
        _ => panic!("expected a breakpoints body"),
    }
    assert!(matches!(adapter.state, SessionState::Idle));
    assert!(cmd_rx.try_recv().is_err());
}

#[test]
fn breakpoints_with_path_forward_the_request_to_the_engine() {
    let (mut adapter, _cmd_rx, _item_tx) = fresh_adapter();
    initialized(&mut adapter);
    let args = SetBreakpointsRequestArguments {
        source: SourceInfo {
            name: None,
            path: Some("/tmp/main.rs".to_string()),
        },
        breakpoints: Some(vec![SourceBreakpoint {
            line: 3,
            column: Some(1),
        }]),
    };
    let out = adapter.handle_message(request(2, "setBreakpoints", RequestOp::SetBreakpoints(args)));
    assert!(out.messages.is_empty());
    assert_eq!(out.engine_commands.len(), 1);
    match &out.engine_commands[0] {
        EngineCommand::SetBreakpoints {
            source_file,
            source_breakpoints,
            source,
        } => {
            assert_eq!(source_file, "/tmp/main.rs");
            assert_eq!(source_breakpoints.len(), 1);
            assert_eq!(source_breakpoints[0].line, 3);
            assert!(source.is_some());
        }
        other => panic!("expected a SetBreakpoints command, got {:?}", other),
    }
}

fn attach_args(flash: Option<bool>, cwd: Option<String>) -> AttachRequestArguments {
    AttachRequestArguments {
        program: "firmware.elf".to_string(),
        chip: "nrf52832".to_string(),
        cwd,
        reset: None,
        halt_after_reset: None,
        flash,
    }
}

fn drive_attach(adapter: &mut DebugAdapter, first: StepOutput) -> Vec<EngineCommand> {
    let mut issued = Vec::new();
    let mut out = first;
    loop {
        assert!(out.engine_commands.len() <= 1);
        if out.engine_commands.is_empty() {
            break;
        }
        issued.push(out.engine_commands.into_iter().next().unwrap());
        out = adapter.on_engine_item(EngineItem::Reply(EngineReply::Ack));
    }
    let r = match &out.messages[0] {
        OutgoingMessage::Response(r) => r,
        _ => panic!("expected the attach response"),
    };
    assert!(r.success);
    issued
}

#[test]
fn attach_with_flash_issues_set_binary_set_chip_flash() {
    let (mut adapter, _cmd_rx, _item_tx) = fresh_adapter();
    initialized(&mut adapter);
    let out = adapter.handle_message(request(
        2,
        "attach",
        RequestOp::Attach(attach_args(Some(true), None)),
    ));
    let issued = drive_attach(&mut adapter, out);
    assert_eq!(issued.len(), 3);
    assert!(matches!(&issued[0], EngineCommand::SetBinary { path } if path == "firmware.elf"));
    assert!(matches!(&issued[1], EngineCommand::SetChip { chip } if chip == "nrf52832"));
    assert!(matches!(issued[2], EngineCommand::Flash { reset_and_halt: false }));
    assert!(!issued
        .iter()
        .any(|c| matches!(c, EngineCommand::Attach { .. })));
}

#[test]
fn attach_without_flash_issues_set_binary_set_chip_attach() {
    let (mut adapter, _cmd_rx, _item_tx) = fresh_adapter();
    initialized(&mut adapter);
    let out = adapter.handle_message(request(
        2,
        "attach",
        RequestOp::Attach(attach_args(None, None)),
    ));
    let issued = drive_attach(&mut adapter, out);
    assert_eq!(issued.len(), 3);
    assert!(matches!(issued[0], EngineCommand::SetBinary { .. }));
    assert!(matches!(issued[1], EngineCommand::SetChip { .. }));
    assert!(matches!(
        issued[2],
        EngineCommand::Attach {
            reset: false,
            reset_and_halt: false
        }
    ));
    assert!(!issued.iter().any(|c| matches!(c, EngineCommand::Flash { .. })));
}

#[test]
fn attach_with_cwd_inserts_set_cwd_before_the_final_step() {
    let (mut adapter, _cmd_rx, _item_tx) = fresh_adapter();
    initialized(&mut adapter);
    let out = adapter.handle_message(request(
        2,
        "attach",
        RequestOp::Attach(attach_args(Some(true), Some("/work".to_string()))),
    ));
    let issued = drive_attach(&mut adapter, out);
    assert_eq!(issued.len(), 4);
    assert!(matches!(&issued[2], EngineCommand::SetCwd { cwd } if cwd == "/work"));
    assert!(matches!(issued[3], EngineCommand::Flash { .. }));
}

#[test]
fn halt_event_while_waiting_goes_out_before_the_pending_response() {
    let (mut adapter, _cmd_rx, _item_tx) = fresh_adapter();
    initialized(&mut adapter);
    let out = adapter.handle_message(request(2, "pause", RequestOp::Pause));
    assert!(out.messages.is_empty());
    assert_eq!(out.engine_commands.len(), 1);
    assert!(matches!(out.engine_commands[0], EngineCommand::Halt));

    // An unsolicited halt lands while the adapter waits for the pause ack.
    let out = adapter.on_engine_item(EngineItem::Event(HaltEvent {
        pc: 0x2000_0000,
        reason: HaltKind::Breakpoint,
        hit_breakpoint_ids: Some(vec![4]),
    }));
    assert_eq!(out.messages.len(), 1);
    let event_seq = match &out.messages[0] {
        OutgoingMessage::Event(e) => {
            match &e.body {
                EventBody::Stopped(b) => {
                    assert_eq!(b.reason, "breakpoint");
                    assert_eq!(
                        b.description.as_deref(),
                        Some("Target stopped due to breakpoint.")
                    );
                    assert_eq!(b.thread_id, Some(0));
                    assert_eq!(b.hit_breakpoint_ids, Some(vec![4]));
                }
                _ => panic!("expected a stopped body"),
            }
            e.seq
        }
        _ => panic!("expected the stopped event"),
    };

    // Only then does the correlated ack produce the pause response.
    let out = adapter.on_engine_item(EngineItem::Reply(EngineReply::Ack));
    let r = sole_response(&out);
    assert!(r.success);
    assert_eq!(r.command, "pause");
    assert!(event_seq < r.seq);
}

#[test]
fn non_breakpoint_halt_uses_kind_name_and_no_description() {
    let (mut adapter, _cmd_rx, _item_tx) = fresh_adapter();
    initialized(&mut adapter);
    let out = adapter.on_engine_item(EngineItem::Event(HaltEvent {
        pc: 0,
        reason: HaltKind::Exception,
        hit_breakpoint_ids: None,
    }));
    match &out.messages[0] {
        OutgoingMessage::Event(e) => match &e.body {
            EventBody::Stopped(b) => {
                assert_eq!(b.reason, "Exception");
                assert!(b.description.is_none());
            }
            _ => panic!("expected a stopped body"),
        },
        _ => panic!("expected an event"),
    }
}

#[test]
fn variables_with_nameless_entry_get_the_unknown_label() {
    let (mut adapter, _cmd_rx, _item_tx) = fresh_adapter();
    initialized(&mut adapter);
    let out = adapter.handle_message(request(
        2,
        "variables",
        RequestOp::Variables {
            variables_reference: 7,
        },
    ));
    assert!(matches!(
        out.engine_commands[0],
        EngineCommand::Variables { id: 7 }
    ));
    let out = adapter.on_engine_item(EngineItem::Reply(EngineReply::Variables {
        variables: vec![
            VariableEntry {
                id: 11,
                name: Some("count".to_string()),
                type_: "u32".to_string(),
                value: "3".to_string(),
                indexed_child_count: 0,
                named_child_count: 2,
            },
            VariableEntry {
                id: 12,
                name: None,
                type_: "u8".to_string(),
                value: "0".to_string(),
                indexed_child_count: 1,
                named_child_count: 0,
            },
        ],
    }));
    let r = sole_response(&out);
    assert!(r.success);
    match &r.body {
        ResponseBody::Variables { variables } => {
            assert_eq!(variables.len(), 2);
            assert_eq!(variables[0].name, "count");
            assert_eq!(variables[0].named_variables, Some(2));
            assert_eq!(variables[1].name, "<unknown>");
            assert_eq!(variables[1].value, "0");
            assert_eq!(variables[1].variables_reference, 12);
        }
        _ => panic!("expected a variables body"),
    }
}

#[test]
fn disconnect_sends_exit_and_terminates_after_ack() {
    let (mut adapter, _cmd_rx, _item_tx) = fresh_adapter();
    initialized(&mut adapter);
    // No attach happened; disconnect still goes through the engine.
    let out = adapter.handle_message(request(2, "disconnect", RequestOp::Disconnect));
    assert!(out.messages.is_empty());
    assert!(matches!(out.engine_commands[0], EngineCommand::Exit));
    let out = adapter.on_engine_item(EngineItem::Reply(EngineReply::Ack));
    let r = sole_response(&out);
    assert!(r.success);
    assert_eq!(r.command, "disconnect");
    assert!(matches!(adapter.state, SessionState::Terminated));
}

#[test]
fn engine_error_reply_becomes_failure_response_and_session_continues() {
    let (mut adapter, _cmd_rx, _item_tx) = fresh_adapter();
    initialized(&mut adapter);
    adapter.handle_message(request(2, "continue", RequestOp::Continue));
    let out = adapter.on_engine_item(EngineItem::Reply(EngineReply::Error {
        message: "core is locked".to_string(),
    }));
    let r = sole_response(&out);
    assert!(!r.success);
    assert_eq!(r.message.as_deref(), Some("core is locked"));
    assert!(matches!(adapter.state, SessionState::Idle));
    // The session still serves requests afterwards.
    let out = adapter.handle_message(request(3, "threads", RequestOp::Threads));
    assert!(sole_response(&out).success);
}

#[test]
fn wrong_variant_reply_is_fatal() {
    let (mut adapter, _cmd_rx, _item_tx) = fresh_adapter();
    initialized(&mut adapter);
    adapter.handle_message(request(2, "stackTrace", RequestOp::StackTrace));
    let out = adapter.on_engine_item(EngineItem::Reply(EngineReply::Scopes { scopes: vec![] }));
    assert!(out.messages.is_empty());
    assert!(matches!(adapter.state, SessionState::Terminated));
}

#[test]
fn stack_trace_reports_total_frames() {
    let (mut adapter, _cmd_rx, _item_tx) = fresh_adapter();
    initialized(&mut adapter);
    adapter.handle_message(request(2, "stackTrace", RequestOp::StackTrace));
    let out = adapter.on_engine_item(EngineItem::Reply(EngineReply::StackFrames {
        stack_frames: vec![
            debug_adapter::msg::StackFrameInfo {
                id: 1,
                name: "main".to_string(),
                line: 10,
                column: 1,
                source: None,
            },
            debug_adapter::msg::StackFrameInfo {
                id: 2,
                name: "loop".to_string(),
                line: 20,
                column: 1,
                source: None,
            },
        ],
    }));
    let r = sole_response(&out);
    match &r.body {
        ResponseBody::StackTrace {
            stack_frames,
            total_frames,
        } => {
            assert_eq!(stack_frames.len(), 2);
            assert_eq!(*total_frames, Some(2));
        }
        _ => panic!("expected a stack trace body"),
    }
}

#[test]
fn bad_arguments_become_failure_response() {
    let (mut adapter, _cmd_rx, _item_tx) = fresh_adapter();
    initialized(&mut adapter);
    let out = adapter.handle_message(request(
        2,
        "scopes",
        RequestOp::BadArguments {
            message: "missing field frameId".to_string(),
        },
    ));
    let r = sole_response(&out);
    assert!(!r.success);
    assert_eq!(r.message.as_deref(), Some("missing field frameId"));
    assert!(matches!(adapter.state, SessionState::Idle));
}

#[test]
fn launch_fails_as_unimplemented() {
    let (mut adapter, _cmd_rx, _item_tx) = fresh_adapter();
    initialized(&mut adapter);
    let out = adapter.handle_message(request(2, "launch", RequestOp::Launch));
    let r = sole_response(&out);
    assert!(!r.success);
    assert_eq!(r.message.as_deref(), Some("Unimplemented"));
}

#[test]
fn evaluate_replies_with_the_stub_result() {
    let (mut adapter, _cmd_rx, _item_tx) = fresh_adapter();
    initialized(&mut adapter);
    let out = adapter.handle_message(request(2, "evaluate", RequestOp::Evaluate));
    let r = sole_response(&out);
    assert!(r.success);
    match &r.body {
        ResponseBody::Evaluate {
            result,
            variables_reference,
        } => {
            assert_eq!(result, "This feature is not yet implemented");
            assert_eq!(*variables_reference, 0);
        }
        _ => panic!("expected an evaluate body"),
    }
}

#[test]
fn threads_reply_holds_the_single_fixed_thread() {
    let (mut adapter, _cmd_rx, _item_tx) = fresh_adapter();
    initialized(&mut adapter);
    let out = adapter.handle_message(request(2, "threads", RequestOp::Threads));
    let r = sole_response(&out);
    match &r.body {
        ResponseBody::Threads { threads } => {
            assert_eq!(threads.len(), 1);
            assert_eq!(threads[0].id, 0);
            assert_eq!(threads[0].name, "Main Thread");
        }
        _ => panic!("expected a threads body"),
    }
}

#[test]
fn unknown_commands_are_ignored_without_ending_the_session() {
    let (mut adapter, _cmd_rx, _item_tx) = fresh_adapter();
    initialized(&mut adapter);
    let out = adapter.handle_message(request(2, "setDataBreakpoints", RequestOp::Unsupported));
    assert!(out.messages.is_empty());
    assert!(out.engine_commands.is_empty());
    assert!(matches!(adapter.state, SessionState::Idle));
    let out = adapter.handle_message(request(3, "threads", RequestOp::Threads));
    assert!(sole_response(&out).success);
}

#[test]
fn incoming_response_or_event_after_handshake_is_fatal() {
    let (mut adapter, _cmd_rx, _item_tx) = fresh_adapter();
    initialized(&mut adapter);
    let out = adapter.handle_message(DebugAdapterMessage::Event);
    assert!(out.messages.is_empty());
    assert!(matches!(adapter.state, SessionState::Terminated));
}

#[test]
fn send_engine_really_delivers_the_command() {
    let (adapter, cmd_rx, _item_tx) = fresh_adapter();
    adapter.send_engine(EngineCommand::Halt).expect("send should work");
    let got = cmd_rx.recv().expect("engine side should see the command");
    assert!(matches!(got, EngineCommand::Halt));
}

#[test]
fn poll_engine_sees_queued_items_in_order() {
    let (adapter, _cmd_rx, item_tx) = fresh_adapter();
    assert!(adapter.poll_engine().is_none());
    item_tx
        .send(EngineItem::Reply(EngineReply::Ack))
        .expect("queue is open");
    item_tx
        .send(EngineItem::Event(HaltEvent {
            pc: 1,
            reason: HaltKind::Request,
            hit_breakpoint_ids: None,
        }))
        .expect("queue is open");
    assert!(matches!(
        adapter.poll_engine(),
        Some(EngineItem::Reply(EngineReply::Ack))
    ));
    assert!(matches!(
        adapter.poll_engine(),
        Some(EngineItem::Event(_))
    ));
    assert!(adapter.poll_engine().is_none());
}

#[test]
fn recv_engine_reports_a_stopped_peer_as_channel_error() {
    let (adapter, _cmd_rx, item_tx) = fresh_adapter();
    drop(item_tx);
    let err = adapter.recv_engine().expect_err("peer is gone");
    assert_eq!(err, debug_adapter::AdapterError::Channel);
}

#[test]
fn scopes_reply_passes_through() {
    let (mut adapter, _cmd_rx, _item_tx) = fresh_adapter();
    initialized(&mut adapter);
    let out = adapter.handle_message(request(2, "scopes", RequestOp::Scopes { frame_id: 5 }));
    assert!(matches!(
        out.engine_commands[0],
        EngineCommand::Scopes { frame_id: 5 }
    ));
    let out = adapter.on_engine_item(EngineItem::Reply(EngineReply::Scopes {
        scopes: vec![debug_adapter::msg::ScopeInfo {
            name: "Locals".to_string(),
            variables_reference: 9,
            expensive: false,
        }],
    }));
    let r = sole_response(&out);
    match &r.body {
        ResponseBody::Scopes { scopes } => {
            assert_eq!(scopes.len(), 1);
            assert_eq!(scopes[0].name, "Locals");
        }
        _ => panic!("expected a scopes body"),
    }
}
