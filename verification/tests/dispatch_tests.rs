use debug_adapter::engine::{halt_reason_name, HaltKind};
use debug_adapter::{command_kind_of, CommandKind};

fn kind(name: &str) -> CommandKind {
    command_kind_of(&name.to_string())
}

#[test]
fn every_known_command_name_maps_to_its_kind() {
    assert_eq!(kind("initialize"), CommandKind::Initialize);
    assert_eq!(kind("launch"), CommandKind::Launch);
    assert_eq!(kind("attach"), CommandKind::Attach);
    assert_eq!(kind("setBreakpoints"), CommandKind::SetBreakpoints);
    assert_eq!(kind("threads"), CommandKind::Threads);
    assert_eq!(kind("configurationDone"), CommandKind::ConfigurationDone);
    assert_eq!(kind("pause"), CommandKind::Pause);
    assert_eq!(kind("stackTrace"), CommandKind::StackTrace);
    assert_eq!(kind("disconnect"), CommandKind::Disconnect);
    assert_eq!(kind("continue"), CommandKind::Continue);
    assert_eq!(kind("scopes"), CommandKind::Scopes);
    assert_eq!(kind("source"), CommandKind::Source);
    assert_eq!(kind("variables"), CommandKind::Variables);
    assert_eq!(kind("next"), CommandKind::Next);
    assert_eq!(kind("stepIn"), CommandKind::StepIn);
    assert_eq!(kind("stepOut"), CommandKind::StepOut);
    assert_eq!(kind("evaluate"), CommandKind::Evaluate);
}

#[test]
fn unrecognized_names_map_to_unknown() {
    assert_eq!(kind(""), CommandKind::Unknown);
    assert_eq!(kind("Initialize"), CommandKind::Unknown);
    assert_eq!(kind("restart"), CommandKind::Unknown);
    assert_eq!(kind("setDataBreakpoints"), CommandKind::Unknown);
}

#[test]
fn halt_reason_names_match_their_kinds() {
    assert_eq!(halt_reason_name(HaltKind::Breakpoint), "breakpoint");
    assert_eq!(halt_reason_name(HaltKind::Exception), "Exception");
    assert_eq!(halt_reason_name(HaltKind::Watchpoint), "Watchpoint");
    assert_eq!(halt_reason_name(HaltKind::Step), "Step");
    assert_eq!(halt_reason_name(HaltKind::Request), "Request");
    assert_eq!(halt_reason_name(HaltKind::External), "External");
    assert_eq!(halt_reason_name(HaltKind::Unknown), "Unknown");
}
