//! The trigger controller: the top-level driver of a run.
//!
//! A run first checks the caller's trust level and refuses to go on unless
//! it is privileged, then enables the debug privilege and asks for the
//! caller's session. After that it fires once at once, or registers a key
//! combination and waits, on one thread, for the message that reports it;
//! a firing looks for the target process and takes the dump. Any failure
//! ends the run, also that of a firing in the waiting mode.
//!
//! The controller decides; the caller acts. [`Controller::start`] names the
//! first action and [`Controller::step`] takes what came of the action last
//! asked for and names the next.

use vstd::prelude::*;
use crate::cli::ExecutionMode;
use crate::debug::{
    action_of as dump_action_of, take_memory_dump, DumpAcquirer, DumpAction, DumpPhase,
    DumpResult,
};
use crate::error::DumperError;
use crate::integrity::{IntegrityLevel, QueryError};
use crate::privilege::PrivilegeResult;
use crate::process::{dwm_name, find_dwm_process_id_in_session, search_result};
use crate::status::Outcome;
use crate::win32::{mod_control, mod_shift, wm_hotkey};

verus! {

/// The virtual key of the key combination: the letter D.
pub const HOT_KEY: u32 = 0x44;

/// The modifiers of the key combination: shift and control.
pub open spec fn hot_key_modifiers() -> u32 {
    0x6
}

/// The identifier of the message that reports the key combination.
pub open spec fn hot_key_message() -> u32 {
    0x312
}

/// What sets off a firing.
#[derive(Clone, Copy, Debug, PartialEq, Eq, Structural)]
pub enum TriggerEvent {
    /// The run itself, in the immediate mode.
    Immediate,
    /// The key combination.
    HotKeyFired,
}

/// How a run ended.
#[derive(Clone, Copy, Debug, PartialEq, Eq, Structural)]
pub enum RunResult {
    /// The dump was written, or the wait was ended from outside.
    Completed,
    /// The caller's trust level, given here, is not privileged.
    Refused(IntegrityLevel),
    /// The run failed.
    Failed(DumperError),
}

/// Where a run stands: the action that is under way.
#[derive(Clone, Copy, Debug, PartialEq, Eq, Structural)]
pub enum ControllerPhase {
    CheckingTrust,
    Elevating,
    FindingSession,
    Registering { session_id: u32 },
    Waiting { session_id: u32 },
    Dispatching { session_id: u32 },
    Firing { session_id: u32, trigger: TriggerEvent },
    Unregistering { result: RunResult },
    Finished { result: RunResult },
}

/// What the caller is to do next.
#[derive(Clone, Copy, Debug, PartialEq, Eq, Structural)]
pub enum ControllerAction {
    /// Read the trust level of the caller's own token.
    QueryTrustLevel,
    /// Enable the debug privilege in the caller's own token.
    EnableDebugPrivilege,
    /// Ask for the session of the caller's own process.
    QuerySession,
    /// Register the key combination `modifiers` + `key` for this thread.
    RegisterHotKey { modifiers: u32, key: u32 },
    /// Block until the next message for this thread arrives.
    WaitForMessage,
    /// Hand the message just received on to its window.
    DispatchMessage,
    /// Take a fresh snapshot of the processes, look for the target in
    /// session `session_id` and take its dump.
    FindAndDump { session_id: u32 },
    /// Release the key combination.
    UnregisterHotKey,
    /// End the program with the status `status`.
    Exit { status: i32 },
}

/// What came of the action last asked for.
#[derive(Clone, Copy, Debug)]
pub enum ControllerInput {
    /// The trust level that was read, or why none was.
    TrustLevel(Result<IntegrityLevel, QueryError>),
    /// How enabling the privilege ended.
    Elevated(PrivilegeResult),
    /// The session, or the code with which the query failed.
    Session(Result<u32, u32>),
    /// How registering or releasing the key combination ended.
    HotKey(Outcome),
    /// The identifier of the message that arrived, or `None` where the wait
    /// was ended by a request to quit.
    Message(Option<u32>),
    /// That the message was handed on.
    Dispatched,
    /// Whether a firing completed the run, or why it failed.
    Fired(Result<bool, DumperError>),
}

/// The level that a caller is taken to have: a failed query counts as
/// `Untrusted`.
pub open spec fn assumed_level(queried: Result<IntegrityLevel, QueryError>) -> IntegrityLevel {
    match queried {
        Ok(level) => level,
        Err(_) => IntegrityLevel::Untrusted,
    }
}

/// The phase in which a firing's end leaves a run in mode `mode`: in the
/// waiting mode the key combination is released first.
pub open spec fn wind_up(mode: ExecutionMode, result: RunResult) -> ControllerPhase {
    match mode {
        ExecutionMode::Immediate => ControllerPhase::Finished { result },
        ExecutionMode::KeyCombo => ControllerPhase::Unregistering { result },
    }
}

/// The phase that follows `phase` on `input` in a run in mode `mode`. An
/// input that does not answer the action under way changes nothing.
pub open spec fn next_phase(
    mode: ExecutionMode,
    phase: ControllerPhase,
    input: ControllerInput,
) -> ControllerPhase {
    match (phase, input) {
        (ControllerPhase::CheckingTrust, ControllerInput::TrustLevel(queried)) => {
            if assumed_level(queried).privileged() {
                ControllerPhase::Elevating
            } else {
                ControllerPhase::Finished { result: RunResult::Refused(assumed_level(queried)) }
            }
        },
        (ControllerPhase::Elevating, ControllerInput::Elevated(ended)) => match ended {
            PrivilegeResult::Adjusted => ControllerPhase::FindingSession,
            PrivilegeResult::Failed(fault) => ControllerPhase::Finished {
                result: RunResult::Failed(DumperError::Privilege(fault)),
            },
        },
        (ControllerPhase::FindingSession, ControllerInput::Session(found)) => match found {
            Err(code) => ControllerPhase::Finished {
                result: RunResult::Failed(DumperError::SystemQuery(QueryError::Os(code))),
            },
            Ok(session_id) => match mode {
                ExecutionMode::Immediate => ControllerPhase::Firing {
                    session_id,
                    trigger: TriggerEvent::Immediate,
                },
                ExecutionMode::KeyCombo => ControllerPhase::Registering { session_id },
            },
        },
        (ControllerPhase::Registering { session_id }, ControllerInput::HotKey(ended)) => {
            match ended {
                Outcome::Succeeded => ControllerPhase::Waiting { session_id },
                Outcome::Failed(code) => ControllerPhase::Finished {
                    result: RunResult::Failed(DumperError::HotKey(code)),
                },
            }
        },
        (ControllerPhase::Waiting { session_id }, ControllerInput::Message(message)) => {
            match message {
                None => ControllerPhase::Unregistering { result: RunResult::Completed },
                Some(id) => if id == hot_key_message() {
                    ControllerPhase::Firing { session_id, trigger: TriggerEvent::HotKeyFired }
                } else {
                    ControllerPhase::Dispatching { session_id }
                },
            }
        },
        (ControllerPhase::Dispatching { session_id }, ControllerInput::Dispatched) => {
            ControllerPhase::Waiting { session_id }
        },
        (ControllerPhase::Firing { session_id, trigger }, ControllerInput::Fired(ended)) => {
            match ended {
                Err(fault) => wind_up(mode, RunResult::Failed(fault)),
                Ok(completed) => if completed || trigger == TriggerEvent::Immediate {
                    wind_up(mode, RunResult::Completed)
                } else {
                    ControllerPhase::Dispatching { session_id }
                },
            }
        },
        (ControllerPhase::Unregistering { result }, ControllerInput::HotKey(_)) => {
            ControllerPhase::Finished { result }
        },
        _ => phase,
    }
}

/// The status that the program ends with: 0 where the run completed, 1
/// where it was refused or failed.
pub open spec fn status_of(result: RunResult) -> i32 {
    if result == RunResult::Completed {
        0
    } else {
        1
    }
}

/// The action that is under way in `phase`.
pub open spec fn action_of(phase: ControllerPhase) -> ControllerAction {
    match phase {
        ControllerPhase::CheckingTrust => ControllerAction::QueryTrustLevel,
        ControllerPhase::Elevating => ControllerAction::EnableDebugPrivilege,
        ControllerPhase::FindingSession => ControllerAction::QuerySession,
        ControllerPhase::Registering { .. } => ControllerAction::RegisterHotKey {
            modifiers: hot_key_modifiers(),
            key: HOT_KEY,
        },
        ControllerPhase::Waiting { .. } => ControllerAction::WaitForMessage,
        ControllerPhase::Dispatching { .. } => ControllerAction::DispatchMessage,
        ControllerPhase::Firing { session_id, .. } => ControllerAction::FindAndDump { session_id },
        ControllerPhase::Unregistering { .. } => ControllerAction::UnregisterHotKey,
        ControllerPhase::Finished { result } => ControllerAction::Exit {
            status: status_of(result),
        },
    }
}

/// A run under way.
#[derive(Clone, Copy, Debug, PartialEq, Eq, Structural)]
pub struct Controller {
    pub mode: ExecutionMode,
    pub phase: ControllerPhase,
}

/// The action that is under way in `phase`.
fn action_for(phase: ControllerPhase) -> (action: ControllerAction)
    ensures
        action == action_of(phase),
{
    match phase {
        ControllerPhase::CheckingTrust => ControllerAction::QueryTrustLevel,
        ControllerPhase::Elevating => ControllerAction::EnableDebugPrivilege,
        ControllerPhase::FindingSession => ControllerAction::QuerySession,
        ControllerPhase::Registering { .. } => {
            assert(0x4u32 | 0x2 == 0x6) by (bit_vector);
            ControllerAction::RegisterHotKey {
                modifiers: mod_shift() | mod_control(),
                key: HOT_KEY,
            }
        },
        ControllerPhase::Waiting { .. } => ControllerAction::WaitForMessage,
        ControllerPhase::Dispatching { .. } => ControllerAction::DispatchMessage,
        ControllerPhase::Firing { session_id, .. } => ControllerAction::FindAndDump { session_id },
        ControllerPhase::Unregistering { .. } => ControllerAction::UnregisterHotKey,
        ControllerPhase::Finished { result } => {
            let status: i32 = match result {
                RunResult::Completed => 0,
                _ => 1,
            };
            ControllerAction::Exit { status }
        },
    }
}

/// The phase in which a firing's end leaves a run in mode `mode`.
fn wind_up_for(mode: ExecutionMode, result: RunResult) -> (phase: ControllerPhase)
    ensures
        phase == wind_up(mode, result),
{
    match mode {
        ExecutionMode::Immediate => ControllerPhase::Finished { result },
        ExecutionMode::KeyCombo => ControllerPhase::Unregistering { result },
    }
}

impl Controller {
    /// Begins a run in mode `mode`. The first action is the check of the
    /// caller's trust level.
    pub fn start(mode: ExecutionMode) -> (begun: (Controller, ControllerAction))
        ensures
            begun.0 == (Controller { mode, phase: ControllerPhase::CheckingTrust }),
            begun.1 == ControllerAction::QueryTrustLevel,
    {
        (
            Controller { mode, phase: ControllerPhase::CheckingTrust },
            ControllerAction::QueryTrustLevel,
        )
    }

    /// Takes what came of the action last asked for and names the next.
    pub fn step(self, input: ControllerInput) -> (stepped: (Controller, ControllerAction))
        ensures
            stepped.0.mode == self.mode,
            stepped.0.phase == next_phase(self.mode, self.phase, input),
            stepped.1 == action_of(stepped.0.phase),
    {
        let mode = self.mode;
        let phase = match (self.phase, input) {
            (ControllerPhase::CheckingTrust, ControllerInput::TrustLevel(queried)) => {
                let level = crate::integrity::effective_level(queried);
                if level.is_admin() {
                    ControllerPhase::Elevating
                } else {
                    ControllerPhase::Finished { result: RunResult::Refused(level) }
                }
            },
            (ControllerPhase::Elevating, ControllerInput::Elevated(ended)) => match ended {
                PrivilegeResult::Adjusted => ControllerPhase::FindingSession,
                PrivilegeResult::Failed(fault) => ControllerPhase::Finished {
                    result: RunResult::Failed(DumperError::Privilege(fault)),
                },
            },
            (ControllerPhase::FindingSession, ControllerInput::Session(found)) => match found {
                Err(code) => ControllerPhase::Finished {
                    result: RunResult::Failed(DumperError::SystemQuery(QueryError::Os(code))),
                },
                Ok(session_id) => match mode {
                    ExecutionMode::Immediate => ControllerPhase::Firing {
                        session_id,
                        trigger: TriggerEvent::Immediate,
                    },
                    ExecutionMode::KeyCombo => ControllerPhase::Registering { session_id },
                },
            },
            (ControllerPhase::Registering { session_id }, ControllerInput::HotKey(ended)) => {
                match ended {
                    Outcome::Succeeded => ControllerPhase::Waiting { session_id },
                    Outcome::Failed(code) => ControllerPhase::Finished {
                        result: RunResult::Failed(DumperError::HotKey(code)),
                    },
                }
            },
            (ControllerPhase::Waiting { session_id }, ControllerInput::Message(message)) => {
                match message {
                    None => ControllerPhase::Unregistering { result: RunResult::Completed },
                    Some(id) => {
                        if id == wm_hotkey() {
                            ControllerPhase::Firing {
                                session_id,
                                trigger: TriggerEvent::HotKeyFired,
                            }
                        } else {
                            ControllerPhase::Dispatching { session_id }
                        }
                    },
                }
            },
            (ControllerPhase::Dispatching { session_id }, ControllerInput::Dispatched) => {
                ControllerPhase::Waiting { session_id }
            },
            (ControllerPhase::Firing { session_id, trigger }, ControllerInput::Fired(ended)) => {
                match ended {
                    Err(fault) => wind_up_for(mode, RunResult::Failed(fault)),
                    Ok(completed) => {
                        let immediate = match trigger {
                            TriggerEvent::Immediate => true,
                            TriggerEvent::HotKeyFired => false,
                        };
                        if completed || immediate {
                            wind_up_for(mode, RunResult::Completed)
                        } else {
                            ControllerPhase::Dispatching { session_id }
                        }
                    },
                }
            },
            (ControllerPhase::Unregistering { result }, ControllerInput::HotKey(_)) => {
                ControllerPhase::Finished { result }
            },
            (phase, _) => phase,
        };
        (Controller { mode, phase }, action_for(phase))
    }

    /// Whether the run is over.
    pub fn is_finished(&self) -> (over: bool)
        ensures
            over == (self.phase is Finished),
    {
        match self.phase {
            ControllerPhase::Finished { .. } => true,
            _ => false,
        }
    }
}

/// What the first step of a firing comes to, given the snapshot: the fault
/// that makes the snapshot undecodable, the lack of a target, or the
/// identifier of the target.
pub open spec fn firing_target(data: Seq<u8>, base: u64, session_id: u32) -> Result<
    u32,
    DumperError,
> {
    match search_result(data, base, dwm_name(), session_id) {
        Err(fault) => Err(DumperError::Snapshot(fault)),
        Ok(None) => Err(DumperError::NotFound),
        Ok(Some(process_id)) => Ok(process_id),
    }
}

/// Looks in a fresh snapshot for the desktop window manager of session
/// `session_id` and begins the acquisition of its dump into `file_name`.
/// Without such a process the firing fails: there is nothing to dump.
pub fn find_and_dump_dwm(data: Vec<u8>, base: u64, session_id: u32, file_name: &str) -> (begun:
    Result<(DumpAcquirer, DumpAction), DumperError>)
    ensures
        match begun {
            Err(fault) => firing_target(data@, base, session_id) == Err::<u32, DumperError>(fault),
            Ok((acquirer, action)) => {
                &&& firing_target(data@, base, session_id) == Ok::<u32, DumperError>(
                    acquirer.target(),
                )
                &&& acquirer.destination() == file_name@
                &&& acquirer.phase() == DumpPhase::OpeningProcess
                &&& action == dump_action_of(DumpPhase::OpeningProcess, acquirer.target())
            },
        },
{
    match find_dwm_process_id_in_session(data, base, session_id) {
        Err(fault) => Err(DumperError::Snapshot(fault)),
        Ok(None) => Err(DumperError::NotFound),
        Ok(Some(process_id)) => Ok(take_memory_dump(process_id, file_name)),
    }
}

/// What a firing reports to the controller once its acquisition is over: a
/// written dump completes the run, a failed one fails it.
pub fn firing_outcome(ended: DumpResult) -> (reported: Result<bool, DumperError>)
    ensures
        reported == match ended {
            DumpResult::Written => Ok::<bool, DumperError>(true),
            DumpResult::Failed(fault) => Err::<bool, DumperError>(DumperError::Dump(fault)),
        },
{
    match ended {
        DumpResult::Written => Ok(true),
        DumpResult::Failed(fault) => Err(DumperError::Dump(fault)),
    }
}

/// How often the key combination was registered and released.
pub struct Bindings {
    pub registered: nat,
    pub released: nat,
}

/// The count after `input` was taken in `phase`: a registration counts
/// where it succeeded, a release once it was made.
pub open spec fn account(
    bindings: Bindings,
    phase: ControllerPhase,
    input: ControllerInput,
) -> Bindings {
    match (phase, input) {
        (ControllerPhase::Registering { .. }, ControllerInput::HotKey(Outcome::Succeeded)) => {
            Bindings { registered: bindings.registered + 1, ..bindings }
        },
        (ControllerPhase::Unregistering { .. }, ControllerInput::HotKey(_)) => Bindings {
            released: bindings.released + 1,
            ..bindings
        },
        _ => bindings,
    }
}

/// The phase and the count after the inputs `inputs`, taken in order from
/// `phase` on in a run in mode `mode`.
pub open spec fn run(
    mode: ExecutionMode,
    phase: ControllerPhase,
    bindings: Bindings,
    inputs: Seq<ControllerInput>,
) -> (ControllerPhase, Bindings)
    decreases inputs.len(),
{
    if inputs.len() == 0 {
        (phase, bindings)
    } else {
        run(
            mode,
            next_phase(mode, phase, inputs[0]),
            account(bindings, phase, inputs[0]),
            inputs.skip(1),
        )
    }
}

/// Whether the key combination is registered in `phase`.
pub open spec fn holds_hot_key(phase: ControllerPhase) -> bool {
    match phase {
        ControllerPhase::Waiting { .. } => true,
        ControllerPhase::Dispatching { .. } => true,
        ControllerPhase::Unregistering { .. } => true,
        ControllerPhase::Firing { trigger, .. } => trigger == TriggerEvent::HotKeyFired,
        _ => false,
    }
}

/// What holds of a run's phase and count at every point.
pub open spec fn consistent(
    mode: ExecutionMode,
    phase: ControllerPhase,
    bindings: Bindings,
) -> bool {
    &&& bindings.released <= bindings.registered <= 1
    &&& holds_hot_key(phase) ==> mode == ExecutionMode::KeyCombo && bindings.registered == 1
        && bindings.released == 0
    &&& !holds_hot_key(phase) ==> bindings.released == bindings.registered
    &&& phase is Registering ==> mode == ExecutionMode::KeyCombo && bindings.registered == 0
    &&& phase matches ControllerPhase::Firing { trigger, .. } ==> (trigger
        == TriggerEvent::Immediate <==> mode == ExecutionMode::Immediate)
    &&& mode == ExecutionMode::Immediate ==> bindings.registered == 0
    &&& !(phase is Finished) && !holds_hot_key(phase) ==> bindings.registered == 0
}

/// A run stays consistent, whatever the inputs are.
pub proof fn lemma_run_stays_consistent(
    mode: ExecutionMode,
    phase: ControllerPhase,
    bindings: Bindings,
    inputs: Seq<ControllerInput>,
)
    requires
        consistent(mode, phase, bindings),
    ensures
        consistent(
            mode,
            run(mode, phase, bindings, inputs).0,
            run(mode, phase, bindings, inputs).1,
        ),
    decreases inputs.len(),
{
    if inputs.len() > 0 {
        lemma_run_stays_consistent(
            mode,
            next_phase(mode, phase, inputs[0]),
            account(bindings, phase, inputs[0]),
            inputs.skip(1),
        );
    }
}

/// The key combination is registered at most once in a run, only in the
/// waiting mode, and never released unless registered; when the run is over
/// it has been released exactly once if it was registered.
pub proof fn lemma_hot_key_released_once(mode: ExecutionMode, inputs: Seq<ControllerInput>)
    ensures
        ({
            let (end, bindings) = run(
                mode,
                ControllerPhase::CheckingTrust,
                Bindings { registered: 0, released: 0 },
                inputs,
            );
            &&& bindings.released <= bindings.registered <= 1
            &&& mode == ExecutionMode::Immediate ==> bindings.registered == 0
            &&& end is Finished ==> bindings.released == bindings.registered
        }),
{
    lemma_run_stays_consistent(
        mode,
        ControllerPhase::CheckingTrust,
        Bindings { registered: 0, released: 0 },
        inputs,
    );
}

/// A run goes past the check of the trust level exactly when the level is
/// privileged; otherwise it is over at once, with status 1, and a
/// query that failed counts as the lowest level.
pub proof fn lemma_unprivileged_caller_is_refused(
    mode: ExecutionMode,
    queried: Result<IntegrityLevel, QueryError>,
)
    ensures
        ({
            let next = next_phase(
                mode,
                ControllerPhase::CheckingTrust,
                ControllerInput::TrustLevel(queried),
            );
            &&& assumed_level(queried).privileged() ==> next == ControllerPhase::Elevating
            &&& !assumed_level(queried).privileged() ==> next == (ControllerPhase::Finished {
                result: RunResult::Refused(assumed_level(queried)),
            }) && action_of(next) == (ControllerAction::Exit { status: 1 })
            &&& queried is Err ==> !(next is Elevating)
        }),
{
}

/// A failed firing ends the run: the wait is not taken up again. In the
/// waiting mode the key combination is released, and then the program ends
/// with status 1; in the immediate mode it ends so at once.
pub proof fn lemma_failed_firing_ends_run(
    mode: ExecutionMode,
    session_id: u32,
    trigger: TriggerEvent,
    fault: DumperError,
    release: Outcome,
)
    ensures
        ({
            let failed = next_phase(
                mode,
                ControllerPhase::Firing { session_id, trigger },
                ControllerInput::Fired(Err(fault)),
            );
            let over = ControllerPhase::Finished { result: RunResult::Failed(fault) };
            &&& action_of(over) == (ControllerAction::Exit { status: 1 })
            &&& mode == ExecutionMode::Immediate ==> failed == over
            &&& mode == ExecutionMode::KeyCombo ==> failed == (ControllerPhase::Unregistering {
                result: RunResult::Failed(fault),
            }) && next_phase(mode, failed, ControllerInput::HotKey(release)) == over
        }),
{
}

/// The program ends with status 0 exactly when the run completed.
pub proof fn lemma_status_zero_means_completed(result: RunResult)
    ensures
        status_of(result) == 0 <==> result == RunResult::Completed,
        status_of(result) == 0 || status_of(result) == 1,
{
}

/// Once over, a run stays over.
pub proof fn lemma_finished_run_stays(
    mode: ExecutionMode,
    phase: ControllerPhase,
    bindings: Bindings,
    inputs: Seq<ControllerInput>,
)
    requires
        phase is Finished,
    ensures
        run(mode, phase, bindings, inputs) == (phase, bindings),
    decreases inputs.len(),
{
    if inputs.len() > 0 {
        lemma_finished_run_stays(mode, phase, bindings, inputs.skip(1));
    }
}

} // verus!
