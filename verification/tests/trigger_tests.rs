use processdumper::cli::ExecutionMode;
use processdumper::debug::{DumpAction, DumpError, DumpResult};
use processdumper::error::DumperError;
use processdumper::integrity::QueryError;
use processdumper::privilege::{PrivilegeError, PrivilegeResult};
use processdumper::process::{SnapshotError, RECORD_SIZE};
use processdumper::trigger::{
    find_and_dump_dwm, firing_outcome, Controller, ControllerAction, ControllerInput,
    ControllerPhase, RunResult, TriggerEvent, HOT_KEY,
};
use processdumper::{IntegrityLevel, Outcome};
use windows::Win32::UI::Input::KeyboardAndMouse::{MOD_CONTROL, MOD_SHIFT};
use windows::Win32::UI::WindowsAndMessaging::WM_HOTKEY;

const BASE: u64 = 0x1000_0000;

fn push_named(buffer: &mut Vec<u8>, last: bool, process_id: u32, session_id: u32, name: &str) {
    let units: Vec<u16> = name.encode_utf16().collect();
    let at = buffer.len();
    let mut size = RECORD_SIZE + 2 * units.len();
    while size % 8 != 0 {
        size += 1;
    }
    let mut record = vec![0u8; size];
    let next: u32 = if last { 0 } else { size as u32 };
    record[0..4].copy_from_slice(&next.to_le_bytes());
    record[56..58].copy_from_slice(&(units.len() as u16).to_le_bytes());
    let pointer = BASE + (at + RECORD_SIZE) as u64;
    record[64..72].copy_from_slice(&pointer.to_le_bytes());
    record[80..88].copy_from_slice(&(process_id as u64).to_le_bytes());
    record[100..104].copy_from_slice(&session_id.to_le_bytes());
    for (i, unit) in units.iter().enumerate() {
        let place = RECORD_SIZE + 2 * i;
        record[place..place + 2].copy_from_slice(&unit.to_le_bytes());
    }
    buffer.extend_from_slice(&record);
}

fn fixture() -> Vec<u8> {
    let mut buffer = Vec::new();
    push_named(&mut buffer, false, 0, 0, "");
    push_named(&mut buffer, false, 1180, 3, "dwm.exe");
    push_named(&mut buffer, false, 2264, 5, "dwm.exe");
    push_named(&mut buffer, true, 5120, 5, "explorer.exe");
    buffer
}

/// Feeds the inputs to a fresh run and gives the actions asked for.
fn drive(mode: ExecutionMode, inputs: &[ControllerInput]) -> (Controller, Vec<ControllerAction>) {
    let (mut controller, action) = Controller::start(mode);
    let mut actions = vec![action];
    for input in inputs {
        let (next, action) = controller.step(*input);
        assert_eq!(next.mode, mode);
        controller = next;
        actions.push(action);
    }
    (controller, actions)
}

fn admin() -> ControllerInput {
    ControllerInput::TrustLevel(Ok(IntegrityLevel::High))
}

fn elevated() -> ControllerInput {
    ControllerInput::Elevated(PrivilegeResult::Adjusted)
}

#[test]
fn immediate_mode_fires_once_and_exits_with_status_0() {
    let (controller, actions) = drive(
        ExecutionMode::Immediate,
        &[admin(), elevated(), ControllerInput::Session(Ok(5)), ControllerInput::Fired(Ok(true))],
    );
    assert_eq!(
        actions,
        vec![
            ControllerAction::QueryTrustLevel,
            ControllerAction::EnableDebugPrivilege,
            ControllerAction::QuerySession,
            ControllerAction::FindAndDump { session_id: 5 },
            ControllerAction::Exit { status: 0 },
        ]
    );
    assert!(controller.is_finished());
    assert_eq!(controller.phase, ControllerPhase::Finished { result: RunResult::Completed });
}

#[test]
fn immediate_acquisition_with_valid_target_succeeds() {
    let (acquirer, action) = find_and_dump_dwm(fixture(), BASE, 5, "C:\\out\\dwm.dmp").unwrap();
    assert_eq!(action, DumpAction::OpenProcess { process_id: 2264, access: 0x410 });
    assert_eq!(acquirer.file_name(), "C:\\out\\dwm.dmp");
    let mut acquirer = acquirer;
    let mut last = action;
    let mut closed = Vec::new();
    while !acquirer.is_finished() {
        let (next, action) = acquirer.step(Outcome::Succeeded);
        if action == DumpAction::CloseFile || action == DumpAction::CloseProcess {
            closed.push(action);
        }
        acquirer = next;
        last = action;
    }
    assert_eq!(closed, vec![DumpAction::CloseFile, DumpAction::CloseProcess]);
    assert_eq!(last, DumpAction::Done { result: DumpResult::Written });
    assert_eq!(firing_outcome(DumpResult::Written), Ok(true));
}

#[test]
fn missing_target_surfaces_not_found_and_a_non_zero_status() {
    let not_found = find_and_dump_dwm(fixture(), BASE, 9, "out.dmp").err();
    assert_eq!(not_found, Some(DumperError::NotFound));
    for mode in [ExecutionMode::Immediate, ExecutionMode::KeyCombo] {
        let mut inputs = vec![admin(), elevated(), ControllerInput::Session(Ok(9))];
        if mode == ExecutionMode::KeyCombo {
            inputs.push(ControllerInput::HotKey(Outcome::Succeeded));
            inputs.push(ControllerInput::Message(Some(0x312)));
        }
        inputs.push(ControllerInput::Fired(Err(DumperError::NotFound)));
        if mode == ExecutionMode::KeyCombo {
            inputs.push(ControllerInput::HotKey(Outcome::Succeeded));
        }
        let (controller, actions) = drive(mode, &inputs);
        assert_eq!(actions.last(), Some(&ControllerAction::Exit { status: 1 }));
        assert_eq!(
            controller.phase,
            ControllerPhase::Finished { result: RunResult::Failed(DumperError::NotFound) }
        );
    }
}

#[test]
fn undecodable_snapshot_fails_the_firing() {
    assert_eq!(
        find_and_dump_dwm(vec![0u8; 10], BASE, 5, "out.dmp").err(),
        Some(DumperError::Snapshot(SnapshotError::RecordOutOfBounds { offset: 0 }))
    );
}

#[test]
fn failed_dump_fails_the_firing() {
    assert_eq!(
        firing_outcome(DumpResult::Failed(DumpError::OpenProcess(5))),
        Err(DumperError::Dump(DumpError::OpenProcess(5)))
    );
    assert_eq!(
        firing_outcome(DumpResult::Failed(DumpError::WriteDump(87))),
        Err(DumperError::Dump(DumpError::WriteDump(87)))
    );
}

#[test]
fn unprivileged_caller_is_refused_with_status_1() {
    for level in [
        IntegrityLevel::Untrusted,
        IntegrityLevel::Low,
        IntegrityLevel::Medium,
        IntegrityLevel::MediumPlus,
    ] {
        let (controller, actions) =
            drive(ExecutionMode::KeyCombo, &[ControllerInput::TrustLevel(Ok(level))]);
        assert_eq!(actions[1], ControllerAction::Exit { status: 1 });
        assert_eq!(
            controller.phase,
            ControllerPhase::Finished { result: RunResult::Refused(level) }
        );
    }
    let (controller, actions) = drive(
        ExecutionMode::Immediate,
        &[ControllerInput::TrustLevel(Err(QueryError::Os(5)))],
    );
    assert_eq!(actions[1], ControllerAction::Exit { status: 1 });
    assert_eq!(
        controller.phase,
        ControllerPhase::Finished { result: RunResult::Refused(IntegrityLevel::Untrusted) }
    );
}

#[test]
fn privileged_levels_pass_the_check() {
    for level in [IntegrityLevel::High, IntegrityLevel::System, IntegrityLevel::ProtectedProcess] {
        let (_, actions) =
            drive(ExecutionMode::KeyCombo, &[ControllerInput::TrustLevel(Ok(level))]);
        assert_eq!(actions[1], ControllerAction::EnableDebugPrivilege);
    }
}

#[test]
fn failed_elevation_ends_the_run() {
    let fault = PrivilegeError::AdjustPrivileges(1300);
    let (controller, actions) = drive(
        ExecutionMode::KeyCombo,
        &[admin(), ControllerInput::Elevated(PrivilegeResult::Failed(fault))],
    );
    assert_eq!(actions[2], ControllerAction::Exit { status: 1 });
    assert_eq!(
        controller.phase,
        ControllerPhase::Finished { result: RunResult::Failed(DumperError::Privilege(fault)) }
    );
}

#[test]
fn failed_session_query_ends_the_run() {
    let (controller, actions) =
        drive(ExecutionMode::KeyCombo, &[admin(), elevated(), ControllerInput::Session(Err(87))]);
    assert_eq!(actions[3], ControllerAction::Exit { status: 1 });
    assert_eq!(
        controller.phase,
        ControllerPhase::Finished {
            result: RunResult::Failed(DumperError::SystemQuery(QueryError::Os(87))),
        }
    );
}

#[test]
fn key_combo_mode_waits_dispatches_and_fires() {
    let (controller, actions) = drive(
        ExecutionMode::KeyCombo,
        &[
            admin(),
            elevated(),
            ControllerInput::Session(Ok(5)),
            ControllerInput::HotKey(Outcome::Succeeded),
            ControllerInput::Message(Some(0x0113)),
            ControllerInput::Dispatched,
            ControllerInput::Message(Some(WM_HOTKEY)),
            ControllerInput::Fired(Ok(true)),
            ControllerInput::HotKey(Outcome::Succeeded),
        ],
    );
    assert_eq!(
        actions,
        vec![
            ControllerAction::QueryTrustLevel,
            ControllerAction::EnableDebugPrivilege,
            ControllerAction::QuerySession,
            ControllerAction::RegisterHotKey { modifiers: 0x6, key: 0x44 },
            ControllerAction::WaitForMessage,
            ControllerAction::DispatchMessage,
            ControllerAction::WaitForMessage,
            ControllerAction::FindAndDump { session_id: 5 },
            ControllerAction::UnregisterHotKey,
            ControllerAction::Exit { status: 0 },
        ]
    );
    assert!(controller.is_finished());
}

#[test]
fn hot_key_is_shift_control_d() {
    let (_, actions) = drive(
        ExecutionMode::KeyCombo,
        &[admin(), elevated(), ControllerInput::Session(Ok(1))],
    );
    assert_eq!(
        actions[3],
        ControllerAction::RegisterHotKey { modifiers: (MOD_SHIFT | MOD_CONTROL).0, key: 'D' as u32 }
    );
    assert_eq!(HOT_KEY, 0x44);
}

#[test]
fn unfinished_firing_goes_back_to_waiting() {
    let (controller, actions) = drive(
        ExecutionMode::KeyCombo,
        &[
            admin(),
            elevated(),
            ControllerInput::Session(Ok(5)),
            ControllerInput::HotKey(Outcome::Succeeded),
            ControllerInput::Message(Some(786)),
            ControllerInput::Fired(Ok(false)),
            ControllerInput::Dispatched,
        ],
    );
    assert_eq!(actions[6], ControllerAction::DispatchMessage);
    assert_eq!(actions[7], ControllerAction::WaitForMessage);
    assert_eq!(controller.phase, ControllerPhase::Waiting { session_id: 5 });
}

#[test]
fn quit_request_releases_the_hot_key_and_completes() {
    let (controller, actions) = drive(
        ExecutionMode::KeyCombo,
        &[
            admin(),
            elevated(),
            ControllerInput::Session(Ok(5)),
            ControllerInput::HotKey(Outcome::Succeeded),
            ControllerInput::Message(None),
            ControllerInput::HotKey(Outcome::Failed(1419)),
        ],
    );
    assert_eq!(actions[5], ControllerAction::UnregisterHotKey);
    assert_eq!(actions[6], ControllerAction::Exit { status: 0 });
    assert!(controller.is_finished());
}

#[test]
fn failed_registration_ends_the_run() {
    let (controller, actions) = drive(
        ExecutionMode::KeyCombo,
        &[
            admin(),
            elevated(),
            ControllerInput::Session(Ok(5)),
            ControllerInput::HotKey(Outcome::Failed(1409)),
        ],
    );
    assert_eq!(actions[4], ControllerAction::Exit { status: 1 });
    assert_eq!(
        controller.phase,
        ControllerPhase::Finished { result: RunResult::Failed(DumperError::HotKey(1409)) }
    );
}

#[test]
fn input_that_answers_nothing_is_ignored() {
    let (controller, actions) = drive(
        ExecutionMode::KeyCombo,
        &[ControllerInput::Dispatched, ControllerInput::Fired(Ok(true)), admin(), admin()],
    );
    assert_eq!(
        actions,
        vec![
            ControllerAction::QueryTrustLevel,
            ControllerAction::QueryTrustLevel,
            ControllerAction::QueryTrustLevel,
            ControllerAction::EnableDebugPrivilege,
            ControllerAction::EnableDebugPrivilege,
        ]
    );
    assert_eq!(controller.phase, ControllerPhase::Elevating);
}

#[test]
fn immediate_firing_is_triggered_by_the_run_itself() {
    let (controller, _) =
        drive(ExecutionMode::Immediate, &[admin(), elevated(), ControllerInput::Session(Ok(2))]);
    assert_eq!(
        controller.phase,
        ControllerPhase::Firing { session_id: 2, trigger: TriggerEvent::Immediate }
    );
    let (controller, action) = controller.step(ControllerInput::Fired(Ok(false)));
    assert_eq!(action, ControllerAction::Exit { status: 0 });
    assert!(controller.is_finished());
}
