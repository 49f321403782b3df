//! The dump acquirer: the steps that capture a process's memory to a file.
//!
//! The acquirer opens the target process, creates the destination file and
//! has the operating system write the dump, and it releases what it opened
//! on every path, the file before the process. The calls are made by the
//! caller: [`take_memory_dump`] names the first one, and
//! [`DumpAcquirer::step`] takes each call's outcome and names the next.

use vstd::prelude::*;
use crate::status::Outcome;
use crate::win32::{
    create_always, file_attribute_normal, generic_read, generic_write,
    mini_dump_with_avx_xstate_context, mini_dump_with_full_memory,
    mini_dump_with_full_memory_info, mini_dump_with_handle_data, mini_dump_with_ipt_trace,
    mini_dump_with_thread_info, mini_dump_with_token_information,
    mini_dump_with_unloaded_modules, process_query_information, process_vm_read,
};

verus! {

/// Dump feature: the full memory of the process.
pub const WITH_FULL_MEMORY: u32 = 0x2;

/// Dump feature: the handles that the process has open.
pub const WITH_HANDLE_DATA: u32 = 0x4;

/// Dump feature: the list of modules that were unloaded.
pub const WITH_UNLOADED_MODULES: u32 = 0x20;

/// Dump feature: extended information on the memory regions.
pub const WITH_FULL_MEMORY_INFO: u32 = 0x800;

/// Dump feature: information on the threads.
pub const WITH_THREAD_INFO: u32 = 0x1000;

/// Dump feature: information on the security token.
pub const WITH_TOKEN_INFORMATION: u32 = 0x4_0000;

/// Dump feature: the extended vector-register state.
pub const WITH_AVX_XSTATE_CONTEXT: u32 = 0x20_0000;

/// Dump feature: the hardware instruction trace.
pub const WITH_IPT_TRACE: u32 = 0x40_0000;

/// The fixed set of features that every dump is written with: all eight.
pub open spec fn full_dump_type() -> u32 {
    0x64_1826
}

/// The rights that the target process is opened with: to query its
/// information and to read its memory, and no others.
pub open spec fn process_access() -> u32 {
    0x410
}

/// The rights that the destination file is created with: to read and to
/// write.
pub open spec fn file_access() -> u32 {
    0xC000_0000
}

/// The file creation mode that makes a new file and overwrites one that
/// exists.
pub open spec fn overwrite_disposition() -> u32 {
    2
}

/// The attributes of an ordinary file.
pub open spec fn normal_attributes() -> u32 {
    0x80
}

/// Which step of the acquisition failed, with the operating system's code.
#[derive(Clone, Copy, Debug, PartialEq, Eq, Structural)]
pub enum DumpError {
    /// The target process could not be opened.
    OpenProcess(u32),
    /// The destination file could not be created.
    CreateFile(u32),
    /// The operating system could not write the dump.
    WriteDump(u32),
}

/// How an acquisition ended.
#[derive(Clone, Copy, Debug, PartialEq, Eq, Structural)]
pub enum DumpResult {
    Written,
    Failed(DumpError),
}

/// Where an acquisition stands: the call that is under way.
#[derive(Clone, Copy, Debug, PartialEq, Eq, Structural)]
pub enum DumpPhase {
    OpeningProcess,
    CreatingFile,
    WritingDump,
    ClosingFile { result: DumpResult },
    ClosingProcess { result: DumpResult },
    Finished { result: DumpResult },
}

/// What the caller is to do next.
#[derive(Clone, Copy, Debug, PartialEq, Eq, Structural)]
pub enum DumpAction {
    /// Open the process `process_id` with the rights `access`, without
    /// handle inheritance.
    OpenProcess { process_id: u32, access: u32 },
    /// Create the destination file with the rights `access`, unshared, in
    /// the mode `disposition` and with the attributes `attributes`.
    CreateFile { access: u32, disposition: u32, attributes: u32 },
    /// Write the dump of the opened process `process_id` to the created
    /// file, with the features `dump_type`.
    WriteDump { process_id: u32, dump_type: u32 },
    /// Release the file handle.
    CloseFile,
    /// Release the process handle.
    CloseProcess,
    /// Nothing is held any more; the acquisition ended with `result`.
    Done { result: DumpResult },
}

/// The phase that follows `phase` when the call under way ends with
/// `outcome`. A failed step leads to the release of what is held at that
/// point; how a release ends does not matter.
pub open spec fn next_phase(phase: DumpPhase, outcome: Outcome) -> DumpPhase {
    match phase {
        DumpPhase::OpeningProcess => match outcome {
            Outcome::Succeeded => DumpPhase::CreatingFile,
            Outcome::Failed(code) => DumpPhase::Finished {
                result: DumpResult::Failed(DumpError::OpenProcess(code)),
            },
        },
        DumpPhase::CreatingFile => match outcome {
            Outcome::Succeeded => DumpPhase::WritingDump,
            Outcome::Failed(code) => DumpPhase::ClosingProcess {
                result: DumpResult::Failed(DumpError::CreateFile(code)),
            },
        },
        DumpPhase::WritingDump => match outcome {
            Outcome::Succeeded => DumpPhase::ClosingFile { result: DumpResult::Written },
            Outcome::Failed(code) => DumpPhase::ClosingFile {
                result: DumpResult::Failed(DumpError::WriteDump(code)),
            },
        },
        DumpPhase::ClosingFile { result } => DumpPhase::ClosingProcess { result },
        DumpPhase::ClosingProcess { result } => DumpPhase::Finished { result },
        DumpPhase::Finished { result } => DumpPhase::Finished { result },
    }
}

/// The call that is under way in `phase`, for the target `process_id`.
pub open spec fn action_of(phase: DumpPhase, process_id: u32) -> DumpAction {
    match phase {
        DumpPhase::OpeningProcess => DumpAction::OpenProcess {
            process_id,
            access: process_access(),
        },
        DumpPhase::CreatingFile => DumpAction::CreateFile {
            access: file_access(),
            disposition: overwrite_disposition(),
            attributes: normal_attributes(),
        },
        DumpPhase::WritingDump => DumpAction::WriteDump { process_id, dump_type: full_dump_type() },
        DumpPhase::ClosingFile { .. } => DumpAction::CloseFile,
        DumpPhase::ClosingProcess { .. } => DumpAction::CloseProcess,
        DumpPhase::Finished { result } => DumpAction::Done { result },
    }
}

/// What a dump is asked for: the target, the destination and the features.
pub struct DumpRequest {
    pub process_id: u32,
    pub file_name: String,
    pub dump_type: u32,
}

/// An acquisition under way.
pub struct DumpAcquirer {
    request: DumpRequest,
    phase: DumpPhase,
}

impl DumpAcquirer {
    /// The identifier of the target process.
    pub closed spec fn target(&self) -> u32 {
        self.request.process_id
    }

    /// The path of the destination file.
    pub closed spec fn destination(&self) -> Seq<char> {
        self.request.file_name@
    }

    /// The call that is under way.
    pub closed spec fn phase(&self) -> DumpPhase {
        self.phase
    }

    #[verifier::type_invariant]
    spec fn features_fixed(self) -> bool {
        self.request.dump_type == full_dump_type()
    }

    /// The path of the destination file, for the call that creates it.
    pub fn file_name(&self) -> (path: &str)
        ensures
            path@ == self.destination(),
    {
        self.request.file_name.as_str()
    }

    /// The identifier of the target process.
    pub fn process_id(&self) -> (id: u32)
        ensures
            id == self.target(),
    {
        self.request.process_id
    }

    /// Whether the acquisition is over and nothing is held any more.
    pub fn is_finished(&self) -> (over: bool)
        ensures
            over == (self.phase() is Finished),
    {
        match self.phase {
            DumpPhase::Finished { .. } => true,
            _ => false,
        }
    }

    /// Takes the outcome of the call last asked for and names the next one.
    /// The target and the destination stay as they are.
    pub fn step(self, outcome: Outcome) -> (stepped: (DumpAcquirer, DumpAction))
        ensures
            stepped.0.target() == self.target(),
            stepped.0.destination() == self.destination(),
            stepped.0.phase() == next_phase(self.phase(), outcome),
            stepped.1 == action_of(stepped.0.phase(), self.target()),
    {
        proof {
            use_type_invariant(&self);
        }
        let phase = match self.phase {
            DumpPhase::OpeningProcess => match outcome {
                Outcome::Succeeded => DumpPhase::CreatingFile,
                Outcome::Failed(code) => DumpPhase::Finished {
                    result: DumpResult::Failed(DumpError::OpenProcess(code)),
                },
            },
            DumpPhase::CreatingFile => match outcome {
                Outcome::Succeeded => DumpPhase::WritingDump,
                Outcome::Failed(code) => DumpPhase::ClosingProcess {
                    result: DumpResult::Failed(DumpError::CreateFile(code)),
                },
            },
            DumpPhase::WritingDump => match outcome {
                Outcome::Succeeded => DumpPhase::ClosingFile { result: DumpResult::Written },
                Outcome::Failed(code) => DumpPhase::ClosingFile {
                    result: DumpResult::Failed(DumpError::WriteDump(code)),
                },
            },
            DumpPhase::ClosingFile { result } => DumpPhase::ClosingProcess { result },
            DumpPhase::ClosingProcess { result } => DumpPhase::Finished { result },
            DumpPhase::Finished { result } => DumpPhase::Finished { result },
        };
        let action = action_for(phase, &self.request);
        (DumpAcquirer { request: self.request, phase }, action)
    }
}

/// Puts the fixed feature set together from its eight features.
pub fn dump_type() -> (features: u32)
    ensures
        features == full_dump_type(),
        features == WITH_FULL_MEMORY | WITH_HANDLE_DATA | WITH_UNLOADED_MODULES
            | WITH_FULL_MEMORY_INFO | WITH_THREAD_INFO | WITH_TOKEN_INFORMATION
            | WITH_AVX_XSTATE_CONTEXT | WITH_IPT_TRACE,
{
    assert(0x2u32 | 0x4 | 0x20 | 0x800 | 0x1000 | 0x4_0000 | 0x20_0000 | 0x40_0000 == 0x64_1826)
        by (bit_vector);
    mini_dump_with_full_memory() | mini_dump_with_handle_data()
        | mini_dump_with_unloaded_modules() | mini_dump_with_full_memory_info()
        | mini_dump_with_thread_info() | mini_dump_with_token_information()
        | mini_dump_with_avx_xstate_context() | mini_dump_with_ipt_trace()
}

/// The call that is under way in `phase` of an acquisition for `request`.
fn action_for(phase: DumpPhase, request: &DumpRequest) -> (action: DumpAction)
    requires
        request.dump_type == full_dump_type(),
    ensures
        action == action_of(phase, request.process_id),
{
    match phase {
        DumpPhase::OpeningProcess => {
            assert(0x400u32 | 0x10 == 0x410) by (bit_vector);
            DumpAction::OpenProcess {
                process_id: request.process_id,
                access: process_query_information() | process_vm_read(),
            }
        },
        DumpPhase::CreatingFile => {
            assert(0x8000_0000u32 | 0x4000_0000 == 0xC000_0000) by (bit_vector);
            DumpAction::CreateFile {
                access: generic_read() | generic_write(),
                disposition: create_always(),
                attributes: file_attribute_normal(),
            }
        },
        DumpPhase::WritingDump => DumpAction::WriteDump {
            process_id: request.process_id,
            dump_type: request.dump_type,
        },
        DumpPhase::ClosingFile { .. } => DumpAction::CloseFile,
        DumpPhase::ClosingProcess { .. } => DumpAction::CloseProcess,
        DumpPhase::Finished { result } => DumpAction::Done { result },
    }
}

/// Begins the acquisition of a dump of process `process_id` into the file
/// `file_name`. The first call to make is the opening of the process, with
/// no more rights than the dump needs.
pub fn take_memory_dump(process_id: u32, file_name: &str) -> (begun: (DumpAcquirer, DumpAction))
    ensures
        begun.0.target() == process_id,
        begun.0.destination() == file_name@,
        begun.0.phase() == DumpPhase::OpeningProcess,
        begun.1 == action_of(DumpPhase::OpeningProcess, process_id),
{
    let request = DumpRequest {
        process_id,
        file_name: file_name.to_owned(),
        dump_type: dump_type(),
    };
    let action = action_for(DumpPhase::OpeningProcess, &request);
    (DumpAcquirer { request, phase: DumpPhase::OpeningProcess }, action)
}

/// A count of the handles opened and released in the course of a run.
pub struct Ledger {
    pub process_opened: nat,
    pub process_released: nat,
    pub file_opened: nat,
    pub file_released: nat,
}

/// The ledger after the call `action` ended with `outcome`: an opening
/// counts where it succeeded, a release counts once it was made.
pub open spec fn account(ledger: Ledger, action: DumpAction, outcome: Outcome) -> Ledger {
    match action {
        DumpAction::OpenProcess { .. } => if outcome == Outcome::Succeeded {
            Ledger { process_opened: ledger.process_opened + 1, ..ledger }
        } else {
            ledger
        },
        DumpAction::CreateFile { .. } => if outcome == Outcome::Succeeded {
            Ledger { file_opened: ledger.file_opened + 1, ..ledger }
        } else {
            ledger
        },
        DumpAction::CloseFile => Ledger { file_released: ledger.file_released + 1, ..ledger },
        DumpAction::CloseProcess => Ledger {
            process_released: ledger.process_released + 1,
            ..ledger
        },
        _ => ledger,
    }
}

/// The phase and the ledger after the calls asked for, from `phase` on,
/// ended with `outcomes` in this order.
pub open spec fn run(
    phase: DumpPhase,
    process_id: u32,
    ledger: Ledger,
    outcomes: Seq<Outcome>,
) -> (DumpPhase, Ledger)
    decreases outcomes.len(),
{
    if outcomes.len() == 0 {
        (phase, ledger)
    } else {
        run(
            next_phase(phase, outcomes[0]),
            process_id,
            account(ledger, action_of(phase, process_id), outcomes[0]),
            outcomes.skip(1),
        )
    }
}

/// The ledger of a run that has not begun.
pub open spec fn empty_ledger() -> Ledger {
    Ledger { process_opened: 0, process_released: 0, file_opened: 0, file_released: 0 }
}

/// What holds of the ledger in each phase: which handles are held.
pub open spec fn balanced(phase: DumpPhase, ledger: Ledger) -> bool {
    match phase {
        DumpPhase::OpeningProcess => ledger == empty_ledger(),
        DumpPhase::CreatingFile => ledger == Ledger { process_opened: 1, ..empty_ledger() },
        DumpPhase::WritingDump | DumpPhase::ClosingFile { .. } => ledger == Ledger {
            process_opened: 1,
            file_opened: 1,
            ..empty_ledger()
        },
        DumpPhase::ClosingProcess { .. } => {
            &&& ledger.process_opened == 1
            &&& ledger.process_released == 0
            &&& ledger.file_opened <= 1
            &&& ledger.file_released == ledger.file_opened
        },
        DumpPhase::Finished { .. } => {
            &&& ledger.process_opened <= 1
            &&& ledger.process_released == ledger.process_opened
            &&& ledger.file_opened <= ledger.process_opened
            &&& ledger.file_released == ledger.file_opened
        },
    }
}

/// A run keeps the ledger balanced, whatever the outcomes are.
pub proof fn lemma_run_keeps_balance(
    phase: DumpPhase,
    process_id: u32,
    ledger: Ledger,
    outcomes: Seq<Outcome>,
)
    requires
        balanced(phase, ledger),
    ensures
        balanced(
            run(phase, process_id, ledger, outcomes).0,
            run(phase, process_id, ledger, outcomes).1,
        ),
    decreases outcomes.len(),
{
    if outcomes.len() > 0 {
        lemma_run_keeps_balance(
            next_phase(phase, outcomes[0]),
            process_id,
            account(ledger, action_of(phase, process_id), outcomes[0]),
            outcomes.skip(1),
        );
    }
}

/// Every handle that an acquisition opens is released exactly once: at no
/// point of a run has a handle been released that was not opened, or
/// released twice; the process handle is released only when the file handle
/// no longer is held; and when the run is over, whichever step failed,
/// everything that was opened has been released.
pub proof fn lemma_handles_released_exactly_once(process_id: u32, outcomes: Seq<Outcome>)
    ensures
        ({
            let (end, ledger) = run(
                DumpPhase::OpeningProcess,
                process_id,
                empty_ledger(),
                outcomes,
            );
            &&& ledger.process_released <= ledger.process_opened <= 1
            &&& ledger.file_released <= ledger.file_opened <= 1
            &&& ledger.process_released == 1 ==> ledger.file_released == ledger.file_opened
            &&& end is Finished ==> ledger.process_released == ledger.process_opened
                && ledger.file_released == ledger.file_opened
        }),
{
    lemma_run_keeps_balance(DumpPhase::OpeningProcess, process_id, empty_ledger(), outcomes);
}

/// Where the write of the dump fails, both handles were opened, both are
/// released, the file first, and the failure of the write is what the
/// acquisition ends with.
pub proof fn lemma_failed_write_releases_both(
    process_id: u32,
    code: u32,
    file_release: Outcome,
    process_release: Outcome,
)
    ensures
        run(
            DumpPhase::OpeningProcess,
            process_id,
            empty_ledger(),
            seq![
                Outcome::Succeeded,
                Outcome::Succeeded,
                Outcome::Failed(code),
                file_release,
                process_release,
            ],
        ) == (
            DumpPhase::Finished { result: DumpResult::Failed(DumpError::WriteDump(code)) },
            Ledger { process_opened: 1, process_released: 1, file_opened: 1, file_released: 1 },
        ),
{
    let outcomes = seq![
        Outcome::Succeeded,
        Outcome::Succeeded,
        Outcome::Failed(code),
        file_release,
        process_release,
    ];
    reveal_with_fuel(run, 6);
    assert(outcomes.skip(1).skip(1).skip(1).skip(1).skip(1).len() == 0);
    assert(outcomes.skip(1)[0] == Outcome::Succeeded);
    assert(outcomes.skip(1).skip(1)[0] == Outcome::Failed(code));
    assert(outcomes.skip(1).skip(1).skip(1)[0] == file_release);
    assert(outcomes.skip(1).skip(1).skip(1).skip(1)[0] == process_release);
}

/// An acquisition is over after five calls at the most.
pub proof fn lemma_finished_after_five_calls(process_id: u32, outcomes: Seq<Outcome>)
    requires
        outcomes.len() >= 5,
    ensures
        run(DumpPhase::OpeningProcess, process_id, empty_ledger(), outcomes).0 is Finished,
{
    reveal_with_fuel(run, 6);
    let a = outcomes.skip(1);
    let b = a.skip(1);
    let c = b.skip(1);
    let d = c.skip(1);
    let e = d.skip(1);
    let phase1 = next_phase(DumpPhase::OpeningProcess, outcomes[0]);
    let phase2 = next_phase(phase1, a[0]);
    let phase3 = next_phase(phase2, b[0]);
    let phase4 = next_phase(phase3, c[0]);
    let phase5 = next_phase(phase4, d[0]);
    assert(phase5 is Finished);
    let ledger1 = account(
        empty_ledger(),
        action_of(DumpPhase::OpeningProcess, process_id),
        outcomes[0],
    );
    let ledger2 = account(ledger1, action_of(phase1, process_id), a[0]);
    let ledger3 = account(ledger2, action_of(phase2, process_id), b[0]);
    let ledger4 = account(ledger3, action_of(phase3, process_id), c[0]);
    let ledger5 = account(ledger4, action_of(phase4, process_id), d[0]);
    assert(run(DumpPhase::OpeningProcess, process_id, empty_ledger(), outcomes) == run(
        phase5,
        process_id,
        ledger5,
        e,
    ));
    lemma_finished_stays(phase5, process_id, ledger5, e);
}

/// Once over, an acquisition stays over.
pub proof fn lemma_finished_stays(
    phase: DumpPhase,
    process_id: u32,
    ledger: Ledger,
    outcomes: Seq<Outcome>,
)
    requires
        phase is Finished,
    ensures
        run(phase, process_id, ledger, outcomes) == (phase, ledger),
    decreases outcomes.len(),
{
    if outcomes.len() > 0 {
        lemma_finished_stays(phase, process_id, ledger, outcomes.skip(1));
    }
}

} // verus!
