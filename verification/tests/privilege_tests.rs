use processdumper::privilege::{
    get_debug_privilege_name, set_debug_privilege, set_privilege, PrivilegeAction, PrivilegeError,
    PrivilegeResult,
};
use processdumper::Outcome;
use windows::Win32::Security::{SE_PRIVILEGE_ENABLED, TOKEN_ADJUST_PRIVILEGES};

fn run_elevation(enable: bool, outcomes: &[Outcome]) -> Vec<PrivilegeAction> {
    let (mut elevator, action) = set_debug_privilege(enable);
    let mut actions = vec![action];
    for outcome in outcomes {
        assert!(!elevator.is_finished());
        assert_eq!(elevator.privilege_name(), "SeDebugPrivilege");
        let (next, action) = elevator.step(*outcome);
        elevator = next;
        actions.push(action);
    }
    assert!(elevator.is_finished());
    actions
}

const OK: Outcome = Outcome::Succeeded;

#[test]
fn debug_privilege_name() {
    assert_eq!(get_debug_privilege_name(), "SeDebugPrivilege");
}

#[test]
fn enabling_runs_open_lookup_adjust_close() {
    assert_eq!(
        run_elevation(true, &[OK, OK, OK, OK]),
        vec![
            PrivilegeAction::OpenProcessToken { access: 0x20 },
            PrivilegeAction::LookupPrivilegeValue,
            PrivilegeAction::AdjustTokenPrivileges { attributes: 2 },
            PrivilegeAction::CloseToken,
            PrivilegeAction::Done { result: PrivilegeResult::Adjusted },
        ]
    );
}

#[test]
fn disabling_asks_for_no_attributes() {
    let actions = run_elevation(false, &[OK, OK, OK, OK]);
    assert_eq!(actions[2], PrivilegeAction::AdjustTokenPrivileges { attributes: 0 });
    assert_eq!(actions[4], PrivilegeAction::Done { result: PrivilegeResult::Adjusted });
}

#[test]
fn constants_are_those_of_the_platform() {
    let actions = run_elevation(true, &[OK, OK, OK, OK]);
    assert_eq!(actions[0], PrivilegeAction::OpenProcessToken { access: TOKEN_ADJUST_PRIVILEGES.0 });
    assert_eq!(
        actions[2],
        PrivilegeAction::AdjustTokenPrivileges { attributes: SE_PRIVILEGE_ENABLED.0 }
    );
}

#[test]
fn failed_token_open_is_reported_without_release() {
    assert_eq!(
        run_elevation(true, &[Outcome::Failed(5)]),
        vec![
            PrivilegeAction::OpenProcessToken { access: 0x20 },
            PrivilegeAction::Done {
                result: PrivilegeResult::Failed(PrivilegeError::OpenToken(5)),
            },
        ]
    );
}

#[test]
fn failed_lookup_releases_the_token() {
    assert_eq!(
        run_elevation(true, &[OK, Outcome::Failed(1313), OK]),
        vec![
            PrivilegeAction::OpenProcessToken { access: 0x20 },
            PrivilegeAction::LookupPrivilegeValue,
            PrivilegeAction::CloseToken,
            PrivilegeAction::Done {
                result: PrivilegeResult::Failed(PrivilegeError::LookupPrivilege(1313)),
            },
        ]
    );
}

#[test]
fn failed_adjustment_releases_the_token() {
    let actions = run_elevation(true, &[OK, OK, Outcome::Failed(1300), Outcome::Failed(6)]);
    assert_eq!(actions[3], PrivilegeAction::CloseToken);
    assert_eq!(
        actions[4],
        PrivilegeAction::Done {
            result: PrivilegeResult::Failed(PrivilegeError::AdjustPrivileges(1300)),
        }
    );
    let releases = actions.iter().filter(|action| **action == PrivilegeAction::CloseToken).count();
    assert_eq!(releases, 1);
}

#[test]
fn any_privilege_can_be_named() {
    let (elevator, action) = set_privilege("SeShutdownPrivilege", false);
    assert_eq!(action, PrivilegeAction::OpenProcessToken { access: 0x20 });
    assert_eq!(elevator.privilege_name(), "SeShutdownPrivilege");
    let (elevator, _) = elevator.step(OK);
    let (elevator, action) = elevator.step(OK);
    assert_eq!(action, PrivilegeAction::AdjustTokenPrivileges { attributes: 0 });
    assert_eq!(elevator.privilege_name(), "SeShutdownPrivilege");
}
