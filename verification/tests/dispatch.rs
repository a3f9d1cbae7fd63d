use hyprland_ipc::dispatch::{Dispatcher, WorkspaceSpec};
use hyprland_ipc::WorkspaceId;

#[test]
fn workspace_spec() {
    assert_eq!(WorkspaceSpec::Id(WorkspaceId(1)).to_string(), "1");
    assert_eq!(WorkspaceSpec::RelativeId(1).to_string(), "+1");
    assert_eq!(WorkspaceSpec::MonitorRelativeId(1).to_string(), "m+1");
    assert_eq!(WorkspaceSpec::MonitorRelativeId(-1).to_string(), "m-1");
    assert_eq!(WorkspaceSpec::MonitorAbsoluteId(1).to_string(), "m~1");
}

#[test]
fn every_selector_is_written_as_the_grammar_says() {
    assert_eq!(WorkspaceSpec::Id(WorkspaceId(1)).to_string(), "1");
    assert_eq!(WorkspaceSpec::Id(WorkspaceId(-7)).to_string(), "-7");
    assert_eq!(WorkspaceSpec::Id(WorkspaceId(0)).to_string(), "0");
    assert_eq!(WorkspaceSpec::RelativeId(1).to_string(), "+1");
    assert_eq!(WorkspaceSpec::RelativeId(-1).to_string(), "-1");
    assert_eq!(WorkspaceSpec::RelativeId(0).to_string(), "+0");
    assert_eq!(WorkspaceSpec::MonitorRelativeId(1).to_string(), "m+1");
    assert_eq!(WorkspaceSpec::MonitorAbsoluteId(1).to_string(), "m~1");
    assert_eq!(WorkspaceSpec::MonitorIncludingEmptyRelativeId(1).to_string(), "r+1");
    assert_eq!(WorkspaceSpec::MonitorIncludingEmptyRelativeId(-12).to_string(), "r-12");
    assert_eq!(WorkspaceSpec::MonitorIncludingEmptyAbsoluteId(1).to_string(), "r~1");
    assert_eq!(WorkspaceSpec::OpenRelativeId(1).to_string(), "e+1");
    assert_eq!(WorkspaceSpec::OpenRelativeId(-3).to_string(), "e-3");
    assert_eq!(WorkspaceSpec::OpenAbsoluteId(1).to_string(), "e~1");
    assert_eq!(WorkspaceSpec::Name("web".to_string()).to_string(), "name:web");
    assert_eq!(WorkspaceSpec::Name(String::new()).to_string(), "name:");
    assert_eq!(WorkspaceSpec::Previous.to_string(), "previous");
    assert_eq!(WorkspaceSpec::PreviousPerMonitor.to_string(), "previous_per_monitor");
    assert_eq!(WorkspaceSpec::Special(None).to_string(), "special");
    assert_eq!(WorkspaceSpec::Special(Some("scratch".to_string())).to_string(), "special:scratch");
}

#[test]
fn empty_takes_its_letters_in_a_fixed_order() {
    assert_eq!(WorkspaceSpec::Empty { next: false, monitor: false }.to_string(), "empty");
    assert_eq!(WorkspaceSpec::Empty { next: true, monitor: false }.to_string(), "emptyn");
    assert_eq!(WorkspaceSpec::Empty { next: false, monitor: true }.to_string(), "emptym");
    assert_eq!(WorkspaceSpec::Empty { next: true, monitor: true }.to_string(), "emptymn");
}

#[test]
fn numbers_are_written_as_the_standard_library_writes_them() {
    for n in [0, 1, -1, 10, -10, 255, 1000, -99999, i32::MAX, i32::MIN] {
        assert_eq!(WorkspaceSpec::Id(WorkspaceId(n)).to_string(), format!("{}", n));
        assert_eq!(WorkspaceSpec::RelativeId(n).to_string(), format!("{:+}", n));
        assert_eq!(WorkspaceSpec::MonitorRelativeId(n).to_string(), format!("m{:+}", n));
        assert_eq!(WorkspaceSpec::OpenRelativeId(n).to_string(), format!("e{:+}", n));
    }
    for n in [0u32, 1, 9, 10, 11, 4096, u32::MAX] {
        assert_eq!(WorkspaceSpec::MonitorAbsoluteId(n).to_string(), format!("m~{}", n));
        assert_eq!(WorkspaceSpec::MonitorIncludingEmptyAbsoluteId(n).to_string(), format!("r~{}", n));
        assert_eq!(WorkspaceSpec::OpenAbsoluteId(n).to_string(), format!("e~{}", n));
    }
}

#[test]
fn an_id_becomes_a_selector() {
    let spec: WorkspaceSpec = WorkspaceId(4).into();
    assert_eq!(spec.to_string(), "4");
}

#[test]
fn a_dispatcher_names_its_action() {
    let dispatcher = Dispatcher::ChangeWorkspace(WorkspaceSpec::Id(WorkspaceId(3)));
    assert_eq!(dispatcher.to_string(), "workspace 3");
    let dispatcher = Dispatcher::ChangeWorkspace(WorkspaceSpec::Empty { next: true, monitor: true });
    assert_eq!(dispatcher.to_string(), "workspace emptymn");
}
