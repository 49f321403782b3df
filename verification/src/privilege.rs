//! The privilege elevator: switching a named privilege on or off in the
//! caller's own security token.
//!
//! The token is opened for the adjustment of privileges only, the
//! privilege's name is resolved to its local identifier, and the adjustment
//! is asked for. The token is released on every path on which it was
//! opened. The calls are made by the caller: [`set_privilege`] names the
//! first one, and [`PrivilegeElevator::step`] takes each call's outcome and
//! names the next.

use vstd::prelude::*;
use crate::status::Outcome;
use crate::win32::{se_privilege_enabled, token_adjust_privileges};

verus! {

/// The name of the privilege that allows the inspection of any process.
pub open spec fn debug_privilege_name() -> Seq<char> {
    "SeDebugPrivilege"@
}

/// The access that the token is opened with: the adjustment of privileges.
pub open spec fn token_access() -> u32 {
    0x20
}

/// The attributes that an adjustment asks for: enabled, or none.
pub open spec fn privilege_attributes(enable: bool) -> u32 {
    if enable {
        2
    } else {
        0
    }
}

/// Which step of the elevation failed, with the operating system's code.
#[derive(Clone, Copy, Debug, PartialEq, Eq, Structural)]
pub enum PrivilegeError {
    /// The caller's token could not be opened.
    OpenToken(u32),
    /// The privilege's name could not be resolved.
    LookupPrivilege(u32),
    /// The token's privileges could not be adjusted.
    AdjustPrivileges(u32),
}

/// How an elevation ended.
#[derive(Clone, Copy, Debug, PartialEq, Eq, Structural)]
pub enum PrivilegeResult {
    Adjusted,
    Failed(PrivilegeError),
}

/// Where an elevation stands: the call that is under way.
#[derive(Clone, Copy, Debug, PartialEq, Eq, Structural)]
pub enum PrivilegePhase {
    OpeningToken,
    LookingUp,
    Adjusting,
    ClosingToken { result: PrivilegeResult },
    Finished { result: PrivilegeResult },
}

/// What the caller is to do next.
#[derive(Clone, Copy, Debug, PartialEq, Eq, Structural)]
pub enum PrivilegeAction {
    /// Open the token of the caller's own process with the access `access`.
    OpenProcessToken { access: u32 },
    /// Resolve the privilege's name to its identifier on the local system.
    LookupPrivilegeValue,
    /// Adjust the opened token: one privilege, the one just resolved, with
    /// the attributes `attributes`; no other privilege is touched.
    AdjustTokenPrivileges { attributes: u32 },
    /// Release the token.
    CloseToken,
    /// Nothing is held any more; the elevation ended with `result`.
    Done { result: PrivilegeResult },
}

/// The phase that follows `phase` when the call under way ends with
/// `outcome`. A failure is reported, not retried.
pub open spec fn next_phase(phase: PrivilegePhase, outcome: Outcome) -> PrivilegePhase {
    match phase {
        PrivilegePhase::OpeningToken => match outcome {
            Outcome::Succeeded => PrivilegePhase::LookingUp,
            Outcome::Failed(code) => PrivilegePhase::Finished {
                result: PrivilegeResult::Failed(PrivilegeError::OpenToken(code)),
            },
        },
        PrivilegePhase::LookingUp => match outcome {
            Outcome::Succeeded => PrivilegePhase::Adjusting,
            Outcome::Failed(code) => PrivilegePhase::ClosingToken {
                result: PrivilegeResult::Failed(PrivilegeError::LookupPrivilege(code)),
            },
        },
        PrivilegePhase::Adjusting => match outcome {
            Outcome::Succeeded => PrivilegePhase::ClosingToken {
                result: PrivilegeResult::Adjusted,
            },
            Outcome::Failed(code) => PrivilegePhase::ClosingToken {
                result: PrivilegeResult::Failed(PrivilegeError::AdjustPrivileges(code)),
            },
        },
        PrivilegePhase::ClosingToken { result } => PrivilegePhase::Finished { result },
        PrivilegePhase::Finished { result } => PrivilegePhase::Finished { result },
    }
}

/// The call that is under way in `phase` of an elevation that is to enable
/// the privilege (`enable`) or to disable it.
pub open spec fn action_of(phase: PrivilegePhase, enable: bool) -> PrivilegeAction {
    match phase {
        PrivilegePhase::OpeningToken => PrivilegeAction::OpenProcessToken {
            access: token_access(),
        },
        PrivilegePhase::LookingUp => PrivilegeAction::LookupPrivilegeValue,
        PrivilegePhase::Adjusting => PrivilegeAction::AdjustTokenPrivileges {
            attributes: privilege_attributes(enable),
        },
        PrivilegePhase::ClosingToken { .. } => PrivilegeAction::CloseToken,
        PrivilegePhase::Finished { result } => PrivilegeAction::Done { result },
    }
}

/// An elevation under way.
pub struct PrivilegeElevator {
    privilege_name: String,
    enable: bool,
    phase: PrivilegePhase,
}

/// The call that is under way in `phase`.
fn action_for(phase: PrivilegePhase, enable: bool) -> (action: PrivilegeAction)
    ensures
        action == action_of(phase, enable),
{
    match phase {
        PrivilegePhase::OpeningToken => PrivilegeAction::OpenProcessToken {
            access: token_adjust_privileges(),
        },
        PrivilegePhase::LookingUp => PrivilegeAction::LookupPrivilegeValue,
        PrivilegePhase::Adjusting => {
            let attributes = if enable {
                se_privilege_enabled()
            } else {
                0
            };
            PrivilegeAction::AdjustTokenPrivileges { attributes }
        },
        PrivilegePhase::ClosingToken { .. } => PrivilegeAction::CloseToken,
        PrivilegePhase::Finished { result } => PrivilegeAction::Done { result },
    }
}

impl PrivilegeElevator {
    /// The name of the privilege that is adjusted.
    pub closed spec fn privilege(&self) -> Seq<char> {
        self.privilege_name@
    }

    /// Whether the privilege is to be enabled; else it is to be disabled.
    pub closed spec fn enabling(&self) -> bool {
        self.enable
    }

    /// The call that is under way.
    pub closed spec fn phase(&self) -> PrivilegePhase {
        self.phase
    }

    /// The name of the privilege, for the call that resolves it.
    pub fn privilege_name(&self) -> (name: &str)
        ensures
            name@ == self.privilege(),
    {
        self.privilege_name.as_str()
    }

    /// Whether the elevation is over and the token no longer held.
    pub fn is_finished(&self) -> (over: bool)
        ensures
            over == (self.phase() is Finished),
    {
        match self.phase {
            PrivilegePhase::Finished { .. } => true,
            _ => false,
        }
    }

    /// Takes the outcome of the call last asked for and names the next one.
    pub fn step(self, outcome: Outcome) -> (stepped: (PrivilegeElevator, PrivilegeAction))
        ensures
            stepped.0.privilege() == self.privilege(),
            stepped.0.enabling() == self.enabling(),
            stepped.0.phase() == next_phase(self.phase(), outcome),
            stepped.1 == action_of(stepped.0.phase(), self.enabling()),
    {
        let phase = match self.phase {
            PrivilegePhase::OpeningToken => match outcome {
                Outcome::Succeeded => PrivilegePhase::LookingUp,
                Outcome::Failed(code) => PrivilegePhase::Finished {
                    result: PrivilegeResult::Failed(PrivilegeError::OpenToken(code)),
                },
            },
            PrivilegePhase::LookingUp => match outcome {
                Outcome::Succeeded => PrivilegePhase::Adjusting,
                Outcome::Failed(code) => PrivilegePhase::ClosingToken {
                    result: PrivilegeResult::Failed(PrivilegeError::LookupPrivilege(code)),
                },
            },
            PrivilegePhase::Adjusting => match outcome {
                Outcome::Succeeded => PrivilegePhase::ClosingToken {
                    result: PrivilegeResult::Adjusted,
                },
                Outcome::Failed(code) => PrivilegePhase::ClosingToken {
                    result: PrivilegeResult::Failed(PrivilegeError::AdjustPrivileges(code)),
                },
            },
            PrivilegePhase::ClosingToken { result } => PrivilegePhase::Finished { result },
            PrivilegePhase::Finished { result } => PrivilegePhase::Finished { result },
        };
        let action = action_for(phase, self.enable);
        (
            PrivilegeElevator { privilege_name: self.privilege_name, enable: self.enable, phase },
            action,
        )
    }
}

/// The name of the privilege that allows the inspection of any process.
pub fn get_debug_privilege_name() -> (name: &'static str)
    ensures
        name@ == debug_privilege_name(),
{
    "SeDebugPrivilege"
}

/// Begins switching the privilege `privilege_name` on (`enable`) or off in
/// the caller's own token. The first call to make is the opening of the
/// token.
pub fn set_privilege(privilege_name: &str, enable: bool) -> (begun: (
    PrivilegeElevator,
    PrivilegeAction,
))
    ensures
        begun.0.privilege() == privilege_name@,
        begun.0.enabling() == enable,
        begun.0.phase() == PrivilegePhase::OpeningToken,
        begun.1 == action_of(PrivilegePhase::OpeningToken, enable),
{
    let action = action_for(PrivilegePhase::OpeningToken, enable);
    (
        PrivilegeElevator {
            privilege_name: privilege_name.to_owned(),
            enable,
            phase: PrivilegePhase::OpeningToken,
        },
        action,
    )
}

/// Begins switching the debug privilege on (`enable`) or off in the
/// caller's own token.
pub fn set_debug_privilege(enable: bool) -> (begun: (PrivilegeElevator, PrivilegeAction))
    ensures
        begun.0.privilege() == debug_privilege_name(),
        begun.0.enabling() == enable,
        begun.0.phase() == PrivilegePhase::OpeningToken,
        begun.1 == action_of(PrivilegePhase::OpeningToken, enable),
{
    set_privilege(get_debug_privilege_name(), enable)
}

/// The phase after the calls asked for, from `phase` on, ended with
/// `outcomes` in this order.
pub open spec fn phase_after(phase: PrivilegePhase, outcomes: Seq<Outcome>) -> PrivilegePhase
    decreases outcomes.len(),
{
    if outcomes.len() == 0 {
        phase
    } else {
        phase_after(next_phase(phase, outcomes[0]), outcomes.skip(1))
    }
}

/// How often the token was released in the course of the calls asked for,
/// from `phase` on, that ended with `outcomes`.
pub open spec fn releases(phase: PrivilegePhase, outcomes: Seq<Outcome>) -> nat
    decreases outcomes.len(),
{
    if outcomes.len() == 0 {
        0
    } else {
        let made: nat = if phase is ClosingToken {
            1
        } else {
            0
        };
        made + releases(next_phase(phase, outcomes[0]), outcomes.skip(1))
    }
}

/// Whether the token is held in `phase`.
pub open spec fn holds_token(phase: PrivilegePhase) -> bool {
    phase is LookingUp || phase is Adjusting || phase is ClosingToken
}

/// From any phase on, the token is released at most once, and only where it
/// is held; when the elevation is over it has been released exactly once if
/// it was held, and is not held any more.
pub proof fn lemma_token_released_once(phase: PrivilegePhase, outcomes: Seq<Outcome>)
    ensures
        releases(phase, outcomes) <= 1,
        !holds_token(phase) && !(phase is OpeningToken) ==> releases(phase, outcomes) == 0,
        phase_after(phase, outcomes) is Finished && holds_token(phase) ==> releases(
            phase,
            outcomes,
        ) == 1,
        phase is OpeningToken && phase_after(phase, outcomes) is Finished ==> (releases(
            phase,
            outcomes,
        ) == 1 <==> outcomes[0] == Outcome::Succeeded),
    decreases outcomes.len(),
{
    if outcomes.len() > 0 {
        lemma_token_released_once(next_phase(phase, outcomes[0]), outcomes.skip(1));
    }
}

/// An elevation is over after four calls at the most, and what it ends with
/// is the failure of the first step that failed, or success.
pub proof fn lemma_elevation_ends(outcomes: Seq<Outcome>)
    requires
        outcomes.len() >= 4,
    ensures
        phase_after(PrivilegePhase::OpeningToken, outcomes) == (PrivilegePhase::Finished {
            result: match outcomes[0] {
                Outcome::Failed(code) => PrivilegeResult::Failed(PrivilegeError::OpenToken(code)),
                Outcome::Succeeded => match outcomes[1] {
                    Outcome::Failed(code) => PrivilegeResult::Failed(
                        PrivilegeError::LookupPrivilege(code),
                    ),
                    Outcome::Succeeded => match outcomes[2] {
                        Outcome::Failed(code) => PrivilegeResult::Failed(
                            PrivilegeError::AdjustPrivileges(code),
                        ),
                        Outcome::Succeeded => PrivilegeResult::Adjusted,
                    },
                },
            },
        }),
{
    let a = outcomes.skip(1);
    let b = a.skip(1);
    let c = b.skip(1);
    let d = c.skip(1);
    assert(a[0] == outcomes[1] && b[0] == outcomes[2] && c[0] == outcomes[3]);
    let phase1 = next_phase(PrivilegePhase::OpeningToken, outcomes[0]);
    let phase2 = next_phase(phase1, a[0]);
    let phase3 = next_phase(phase2, b[0]);
    let phase4 = next_phase(phase3, c[0]);
    assert(phase_after(PrivilegePhase::OpeningToken, outcomes) == phase_after(phase1, a));
    assert(phase_after(phase1, a) == phase_after(phase2, b));
    assert(phase_after(phase2, b) == phase_after(phase3, c));
    assert(phase_after(phase3, c) == phase_after(phase4, d));
    lemma_finished_phase_stays(phase4, d);
}

/// Once over, an elevation stays over.
pub proof fn lemma_finished_phase_stays(phase: PrivilegePhase, outcomes: Seq<Outcome>)
    requires
        phase is Finished,
    ensures
        phase_after(phase, outcomes) == phase,
    decreases outcomes.len(),
{
    if outcomes.len() > 0 {
        lemma_finished_phase_stays(phase, outcomes.skip(1));
    }
}

} // verus!
