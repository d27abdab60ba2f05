use emulator::control::{start_emulation, stop_emulation, SessionCall};

#[test]
fn start_issues_native_start() {
    assert_eq!(start_emulation(), SessionCall::Start);
}

#[test]
fn stop_issues_native_stop() {
    assert_eq!(stop_emulation(), SessionCall::Stop);
}

#[test]
fn start_then_stop_in_order() {
    let calls = vec![start_emulation(), stop_emulation()];
    assert_eq!(calls, vec![SessionCall::Start, SessionCall::Stop]);
}
