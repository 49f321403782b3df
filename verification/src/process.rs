//! The process enumerator: decoding a raw process snapshot into records and
//! finding a process in it.
//!
//! A snapshot is the byte buffer that the operating system fills for a
//! process-information query on a 64-bit system, together with the address
//! at which that buffer lay when it was filled. It holds a chain of records;
//! each record names the byte offset from itself to the next one, and the
//! last record names 0. A record's name is a run of UTF-16 code units that
//! the record points to by address, so the buffer's own address is needed to
//! find the name inside the buffer.
//!
//! Nothing here trusts the buffer: a record or a name that would reach past
//! its end is reported, never read.

use vstd::prelude::*;
use crate::bytes::{le_u16, le_u32, le_u64, read_u16, read_u32, read_u64};
use crate::text::{before_first_null, truncate_to_first_null_char};
use crate::utf16::{decode_lossy, from_utf16_lossy};

verus! {

/// The size in bytes of a record's fixed part.
pub const RECORD_SIZE: usize = 256;

/// Where in a record the count of its name's code units lies (16 bits).
pub const NAME_LENGTH_AT: usize = 56;

/// Where in a record the address of its name lies (64 bits).
pub const NAME_POINTER_AT: usize = 64;

/// Where in a record the process identifier lies (its low 32 bits).
pub const PROCESS_ID_AT: usize = 80;

/// Where in a record the session identifier lies (32 bits).
pub const SESSION_ID_AT: usize = 100;

/// What a process record says, as mathematical values.
pub struct ProcessRecord {
    pub name: Seq<char>,
    pub process_id: u32,
    pub session_id: u32,
}

/// One process of a snapshot.
#[derive(Debug)]
pub struct ProcessInfo {
    name: String,
    process_id: u32,
    session_id: u32,
}

/// Why a snapshot cannot be decoded.
#[derive(Clone, Copy, Debug, PartialEq, Eq, Structural)]
pub enum SnapshotError {
    /// The fixed part of the record at this offset reaches past the buffer's
    /// end.
    RecordOutOfBounds { offset: usize },
    /// The record at this offset names a next record whose fixed part
    /// reaches past the buffer's end.
    LinkOutOfBounds { offset: usize },
    /// The name of the record at this offset reaches past the buffer's end
    /// before it ends.
    NameOutOfBounds { offset: usize },
}

/// Whether the fixed part of a record at offset `at` lies inside the buffer.
pub open spec fn record_fits(data: Seq<u8>, at: int) -> bool {
    0 <= at && at + RECORD_SIZE <= data.len()
}

/// The offset from the record at `at` to the next record; 0 in the last one.
pub open spec fn next_entry_offset(data: Seq<u8>, at: int) -> int {
    le_u32(data, at)
}

/// The process identifier of the record at `at`.
pub open spec fn record_process_id(data: Seq<u8>, at: int) -> u32 {
    le_u32(data, at + PROCESS_ID_AT) as u32
}

/// The session identifier of the record at `at`.
pub open spec fn record_session_id(data: Seq<u8>, at: int) -> u32 {
    le_u32(data, at + SESSION_ID_AT) as u32
}

/// The number of code units that the record at `at` declares for its name.
pub open spec fn name_length(data: Seq<u8>, at: int) -> int {
    le_u16(data, at + NAME_LENGTH_AT)
}

/// The offset in the buffer at which the name of the record at `at` starts,
/// for a buffer that lay at address `base`. It may lie outside the buffer.
pub open spec fn name_start(data: Seq<u8>, base: u64, at: int) -> int {
    le_u64(data, at + NAME_POINTER_AT) - base
}

/// The number of whole code units between offset `start` and the buffer's
/// end; none if `start` lies outside the buffer.
pub open spec fn units_available(data: Seq<u8>, start: int) -> int {
    if 0 <= start <= data.len() {
        (data.len() - start) / 2
    } else {
        0
    }
}

/// The code units of the name of the record at `at` that lie inside the
/// buffer: as many as the record declares, or as many as there are up to the
/// buffer's end if those are fewer.
pub open spec fn name_window(data: Seq<u8>, base: u64, at: int) -> Seq<u16> {
    let start = name_start(data, base, at);
    let declared = name_length(data, at);
    let available = units_available(data, start);
    let count = if declared <= available {
        declared
    } else {
        available
    };
    Seq::new(count as nat, |i: int| le_u16(data, start + 2 * i) as u16)
}

/// Whether a run of code units holds a null code unit.
pub open spec fn has_null_unit(units: Seq<u16>) -> bool {
    exists|i: int| 0 <= i < units.len() && units[i] == 0
}

/// Whether the name of the record at `at` can be read without leaving the
/// buffer: all the code units that the record declares lie inside it, or
/// those that do hold the null code unit at which the name ends.
pub open spec fn name_readable(data: Seq<u8>, base: u64, at: int) -> bool {
    let window = name_window(data, base, at);
    window.len() == name_length(data, at) || has_null_unit(window)
}

/// The name of the record whose process identifier is 0.
pub open spec fn idle_name() -> Seq<char> {
    "System Idle Process"@
}

/// The name that the record at `at` is exposed with: the fixed idle name for
/// process identifier 0, whatever the buffer holds; otherwise its code units
/// decoded, up to the first null character.
pub open spec fn record_name(data: Seq<u8>, base: u64, at: int) -> Seq<char> {
    if record_process_id(data, at) == 0 {
        idle_name()
    } else {
        before_first_null(decode_lossy(name_window(data, base, at)))
    }
}

/// The record at offset `at`, or why it cannot be decoded.
pub open spec fn record_at(data: Seq<u8>, base: u64, at: int) -> Result<
    ProcessRecord,
    SnapshotError,
> {
    if !record_fits(data, at) {
        Err(SnapshotError::RecordOutOfBounds { offset: at as usize })
    } else if record_process_id(data, at) != 0 && !name_readable(data, base, at) {
        Err(SnapshotError::NameOutOfBounds { offset: at as usize })
    } else {
        Ok(
            ProcessRecord {
                name: record_name(data, base, at),
                process_id: record_process_id(data, at),
                session_id: record_session_id(data, at),
            },
        )
    }
}

/// The records of the chain that starts at offset `at`, in chain order, or
/// the first fault met on the way.
pub open spec fn records_from(data: Seq<u8>, base: u64, at: int) -> Result<
    Seq<ProcessRecord>,
    SnapshotError,
>
    decreases data.len() - at,
{
    match record_at(data, base, at) {
        Err(fault) => Err(fault),
        Ok(record) => {
            let next = next_entry_offset(data, at);
            if next <= 0 {
                Ok(seq![record])
            } else if !record_fits(data, at + next) {
                Err(SnapshotError::LinkOutOfBounds { offset: at as usize })
            } else {
                match records_from(data, base, at + next) {
                    Err(fault) => Err(fault),
                    Ok(rest) => Ok(seq![record] + rest),
                }
            }
        },
    }
}

impl View for ProcessInfo {
    type V = ProcessRecord;

    closed spec fn view(&self) -> ProcessRecord {
        ProcessRecord {
            name: self.name@,
            process_id: self.process_id,
            session_id: self.session_id,
        }
    }
}

/// Reads the code units of a record's name that lie inside the buffer.
fn read_name_window(data: &[u8], base: u64, at: usize) -> (units: Vec<u16>)
    requires
        at + RECORD_SIZE <= data.len(),
    ensures
        units@ == name_window(data@, base, at as int),
{
    let declared: usize = read_u16(data, at + NAME_LENGTH_AT) as usize;
    let pointer: u64 = read_u64(data, at + NAME_POINTER_AT);
    let mut units: Vec<u16> = Vec::new();
    if pointer < base || pointer - base > data.len() as u64 {
        assert(units@ == name_window(data@, base, at as int));
        return units;
    }
    let start: usize = (pointer - base) as usize;
    let available: usize = (data.len() - start) / 2;
    let count: usize = if declared <= available {
        declared
    } else {
        available
    };
    let mut i: usize = 0;
    while i < count
        invariant
            i <= count,
            count <= available,
            available == (data.len() - start) / 2,
            start <= data.len(),
            units@.len() == i,
            forall|j: int| 0 <= j < i ==> units@[j] == le_u16(data@, start + 2 * j) as u16,
        decreases count - i,
    {
        let unit = read_u16(data, start + 2 * i);
        units.push(unit);
        i = i + 1;
    }
    assert(units@ == name_window(data@, base, at as int));
    units
}

/// Whether a run of code units holds a null code unit.
fn holds_null_unit(units: &[u16]) -> (found: bool)
    ensures
        found == has_null_unit(units@),
{
    let mut i: usize = 0;
    while i < units.len()
        invariant
            i <= units.len(),
            forall|j: int| 0 <= j < i ==> units@[j] != 0,
        decreases units.len() - i,
    {
        if units[i] == 0 {
            return true;
        }
        i = i + 1;
    }
    false
}

/// Reads the code units of a record's name that lie inside the buffer, if
/// the name can be read without leaving it.
fn read_name(data: &[u8], base: u64, at: usize) -> (read: Option<Vec<u16>>)
    requires
        at + RECORD_SIZE <= data.len(),
    ensures
        match read {
            Some(units) => name_readable(data@, base, at as int) && units@ == name_window(
                data@,
                base,
                at as int,
            ),
            None => !name_readable(data@, base, at as int),
        },
{
    let units = read_name_window(data, base, at);
    let declared: usize = read_u16(data, at + NAME_LENGTH_AT) as usize;
    if units.len() == declared || holds_null_unit(units.as_slice()) {
        Some(units)
    } else {
        None
    }
}

/// Checks that the record at offset `at` can be decoded without leaving the
/// buffer.
fn check_record(data: &[u8], base: u64, at: usize) -> (checked: Result<(), SnapshotError>)
    ensures
        match checked {
            Ok(_) => record_at(data@, base, at as int) is Ok && at + RECORD_SIZE <= data.len(),
            Err(fault) => record_at(data@, base, at as int) == Err::<ProcessRecord, SnapshotError>(
                fault,
            ),
        },
{
    if data.len() < RECORD_SIZE || at > data.len() - RECORD_SIZE {
        return Err(SnapshotError::RecordOutOfBounds { offset: at });
    }
    if read_u32(data, at + PROCESS_ID_AT) != 0 && read_name(data, base, at).is_none() {
        return Err(SnapshotError::NameOutOfBounds { offset: at });
    }
    Ok(())
}

impl ProcessInfo {
    /// Decodes the record at offset `at` of a snapshot that lay at address
    /// `base`. The record with process identifier 0 is the idle process and
    /// gets its fixed name without a look at its name field.
    pub fn new(data: &[u8], base: u64, at: usize) -> (decoded: Result<ProcessInfo, SnapshotError>)
        ensures
            match decoded {
                Ok(info) => record_at(data@, base, at as int) == Ok::<
                    ProcessRecord,
                    SnapshotError,
                >(info@),
                Err(fault) => record_at(data@, base, at as int) == Err::<
                    ProcessRecord,
                    SnapshotError,
                >(fault),
            },
    {
        if data.len() < RECORD_SIZE || at > data.len() - RECORD_SIZE {
            return Err(SnapshotError::RecordOutOfBounds { offset: at });
        }
        let process_id = read_u32(data, at + PROCESS_ID_AT);
        let session_id = read_u32(data, at + SESSION_ID_AT);
        let name = if process_id != 0 {
            match read_name(data, base, at) {
                None => {
                    return Err(SnapshotError::NameOutOfBounds { offset: at });
                },
                Some(units) => {
                    let mut name = from_utf16_lossy(units.as_slice());
                    truncate_to_first_null_char(&mut name);
                    name
                },
            }
        } else {
            "System Idle Process".to_owned()
        };
        Ok(ProcessInfo { name, process_id, session_id })
    }

    /// The process's name.
    pub fn name(&self) -> (name: &str)
        ensures
            name@ == self@.name,
    {
        self.name.as_str()
    }

    /// The process's identifier.
    pub fn process_id(&self) -> (id: u32)
        ensures
            id == self@.process_id,
    {
        self.process_id
    }

    /// The identifier of the session that the process belongs to.
    pub fn session_id(&self) -> (id: u32)
        ensures
            id == self@.session_id,
    {
        self.session_id
    }
}

/// A snapshot that has been checked from end to end, with a cursor on the
/// record to hand out next.
pub struct ProcessIterator {
    data: Vec<u8>,
    base: u64,
    at: usize,
    exhausted: bool,
}

impl View for ProcessIterator {
    type V = Seq<ProcessRecord>;

    /// The records still to be handed out, in chain order.
    closed spec fn view(&self) -> Seq<ProcessRecord> {
        if self.exhausted {
            Seq::empty()
        } else {
            records_from(self.data@, self.base, self.at as int)->Ok_0
        }
    }
}

impl ProcessIterator {
    #[verifier::type_invariant]
    spec fn chain_checked(self) -> bool {
        self.exhausted || records_from(self.data@, self.base, self.at as int) is Ok
    }

    /// Takes a snapshot and the address at which its buffer lay when it was
    /// filled, and checks the whole chain: the snapshot is accepted exactly
    /// when every record of the chain and every name can be decoded without
    /// leaving the buffer. The first fault in chain order is reported.
    pub fn new(data: Vec<u8>, base: u64) -> (made: Result<ProcessIterator, SnapshotError>)
        ensures
            match made {
                Ok(records) => records_from(data@, base, 0) == Ok::<
                    Seq<ProcessRecord>,
                    SnapshotError,
                >(records@),
                Err(fault) => records_from(data@, base, 0) == Err::<
                    Seq<ProcessRecord>,
                    SnapshotError,
                >(fault),
            },
    {
        let mut at: usize = 0;
        loop
            invariant_except_break
                at == 0 || record_fits(data@, at as int),
                records_from(data@, base, at as int) is Ok ==> records_from(data@, base, 0) is Ok,
                forall|fault: SnapshotError|
                    records_from(data@, base, at as int) == Err::<
                        Seq<ProcessRecord>,
                        SnapshotError,
                    >(fault) ==> records_from(data@, base, 0) == Err::<
                        Seq<ProcessRecord>,
                        SnapshotError,
                    >(fault),
            ensures
                records_from(data@, base, 0) is Ok,
            decreases data@.len() - at,
        {
            match check_record(data.as_slice(), base, at) {
                Err(fault) => {
                    return Err(fault);
                },
                Ok(_) => {},
            }
            let next: usize = read_u32(data.as_slice(), at) as usize;
            if next == 0 {
                break;
            }
            if next > data.len() - RECORD_SIZE - at {
                return Err(SnapshotError::LinkOutOfBounds { offset: at });
            }
            at = at + next;
        }
        Ok(ProcessIterator { data, base, at: 0, exhausted: false })
    }

    /// Hands out the next record of the chain, or `None` once the last one
    /// has been handed out.
    pub fn next(&mut self) -> (handed: Option<ProcessInfo>)
        ensures
            match handed {
                Some(info) => old(self)@.len() > 0 && info@ == old(self)@[0] && final(self)@
                    == old(self)@.skip(1),
                None => old(self)@.len() == 0 && final(self)@.len() == 0,
            },
    {
        proof {
            use_type_invariant(&*self);
        }
        if self.exhausted {
            return None;
        }
        match ProcessInfo::new(self.data.as_slice(), self.base, self.at) {
            Err(_) => {
                // Cannot happen: the whole chain was checked on construction.
                self.exhausted = true;
                None
            },
            Ok(info) => {
                let next: usize = read_u32(self.data.as_slice(), self.at) as usize;
                assert(next > 0 ==> self.at + next + RECORD_SIZE <= self.data.len());
                if next == 0 {
                    self.exhausted = true;
                } else {
                    self.at = self.at + next;
                }
                assert(final(self)@ == old(self)@.skip(1));
                Some(info)
            },
        }
    }
}

/// Whether a record is the one looked for: its name begins with `prefix`,
/// case and all, and it belongs to session `session_id`.
pub open spec fn selects(record: ProcessRecord, prefix: Seq<char>, session_id: u32) -> bool {
    prefix.is_prefix_of(record.name) && record.session_id == session_id
}

/// The index of the first record at or after `from` that is the one looked
/// for, or the number of records if there is none.
pub open spec fn first_match_from(
    records: Seq<ProcessRecord>,
    prefix: Seq<char>,
    session_id: u32,
    from: int,
) -> int
    decreases records.len() - from,
{
    if from >= records.len() {
        records.len() as int
    } else if selects(records[from], prefix, session_id) {
        from
    } else {
        first_match_from(records, prefix, session_id, from + 1)
    }
}

/// The identifier of the first record that is the one looked for, if any.
pub open spec fn found_process_id(
    records: Seq<ProcessRecord>,
    prefix: Seq<char>,
    session_id: u32,
) -> Option<u32> {
    let index = first_match_from(records, prefix, session_id, 0);
    if index < records.len() {
        Some(records[index].process_id)
    } else {
        None
    }
}

/// What a search through a snapshot comes to: the fault that makes the
/// snapshot undecodable, or the identifier of the first matching record.
pub open spec fn search_result(
    data: Seq<u8>,
    base: u64,
    prefix: Seq<char>,
    session_id: u32,
) -> Result<Option<u32>, SnapshotError> {
    match records_from(data, base, 0) {
        Err(fault) => Err(fault),
        Ok(records) => Ok(found_process_id(records, prefix, session_id)),
    }
}

impl ProcessIterator {
    /// Hands out the first of the remaining records whose name begins with
    /// `name_prefix` and whose session is `session_id`, in chain order. The
    /// records before it are passed over; without a match all are.
    pub fn find(&mut self, name_prefix: &str, session_id: u32) -> (found: Option<ProcessInfo>)
        ensures
            match found {
                Some(info) => {
                    let index = first_match_from(old(self)@, name_prefix@, session_id, 0);
                    &&& 0 <= index < old(self)@.len()
                    &&& info@ == old(self)@[index]
                    &&& selects(info@, name_prefix@, session_id)
                    &&& final(self)@ == old(self)@.skip(index + 1)
                },
                None => {
                    &&& first_match_from(old(self)@, name_prefix@, session_id, 0) == old(
                        self,
                    )@.len()
                    &&& final(self)@.len() == 0
                },
            },
    {
        let ghost all = self@;
        let ghost mut passed: int = 0;
        loop
            invariant
                all == old(self)@,
                0 <= passed <= all.len(),
                self@ == all.skip(passed),
                first_match_from(all, name_prefix@, session_id, 0) == first_match_from(
                    all,
                    name_prefix@,
                    session_id,
                    passed,
                ),
            decreases all.len() - passed,
        {
            match self.next() {
                None => {
                    return None;
                },
                Some(info) => {
                    assert(info@ == all[passed]);
                    assert(self@ == all.skip(passed + 1));
                    if crate::text::starts_with(info.name(), name_prefix) && info.session_id()
                        == session_id {
                        return Some(info);
                    }
                    proof {
                        passed = passed + 1;
                    }
                },
            }
        }
    }
}

/// Looks in a snapshot for the first process, in chain order, whose name
/// begins with `process_name` and whose session is `session_id`, and gives
/// its identifier. A snapshot that cannot be decoded is an error even where
/// the fault lies behind a match.
pub fn find_process_id_with_name_in_session(
    data: Vec<u8>,
    base: u64,
    process_name: &str,
    session_id: u32,
) -> (found: Result<Option<u32>, SnapshotError>)
    ensures
        found == search_result(data@, base, process_name@, session_id),
{
    match ProcessIterator::new(data, base) {
        Err(fault) => Err(fault),
        Ok(mut records) => {
            match records.find(process_name, session_id) {
                Some(info) => Ok(Some(info.process_id())),
                None => Ok(None),
            }
        },
    }
}

/// The name that the desktop window manager's process begins with.
pub open spec fn dwm_name() -> Seq<char> {
    "dwm.exe"@
}

/// Looks in a snapshot for the desktop window manager of session
/// `session_id` and gives its process identifier.
pub fn find_dwm_process_id_in_session(data: Vec<u8>, base: u64, session_id: u32) -> (found: Result<
    Option<u32>,
    SnapshotError,
>)
    ensures
        found == search_result(data@, base, dwm_name(), session_id),
{
    find_process_id_with_name_in_session(data, base, "dwm.exe", session_id)
}

/// The offsets of the records that are reached from the record at `at` by
/// following the links, in the order in which they are reached. The walk
/// stops at a record that names 0, and before a record that does not fit.
pub open spec fn chain_offsets(data: Seq<u8>, at: int) -> Seq<int>
    decreases data.len() - at,
{
    if !record_fits(data, at) {
        Seq::empty()
    } else {
        let next = next_entry_offset(data, at);
        if next <= 0 || !record_fits(data, at + next) {
            seq![at]
        } else {
            seq![at] + chain_offsets(data, at + next)
        }
    }
}

/// Whether the chain from the record at `at` stays inside the buffer up to
/// a record that names 0.
pub open spec fn chain_closed(data: Seq<u8>, at: int) -> bool
    decreases data.len() - at,
{
    &&& record_fits(data, at)
    &&& {
        let next = next_entry_offset(data, at);
        next == 0 || (next > 0 && record_fits(data, at + next) && chain_closed(data, at + next))
    }
}

/// In every buffer the walk along the links visits offsets that grow
/// strictly, so none is visited twice, each at a record that fits, and it
/// takes no more steps than the buffer has bytes.
pub proof fn lemma_chain_walk_is_bounded(data: Seq<u8>, at: int)
    requires
        0 <= at,
    ensures
        at + chain_offsets(data, at).len() <= data.len() || chain_offsets(data, at).len() == 0,
        chain_offsets(data, at).len() <= data.len(),
        forall|i: int|
            0 <= i < chain_offsets(data, at).len() ==> at <= #[trigger] chain_offsets(data, at)[i]
                && record_fits(data, chain_offsets(data, at)[i]),
        forall|i: int, j: int|
            0 <= i < j < chain_offsets(data, at).len() ==> chain_offsets(data, at)[i]
                < chain_offsets(data, at)[j],
        forall|i: int|
            0 <= i < chain_offsets(data, at).len() - 1 ==> #[trigger] chain_offsets(data, at)[i
                + 1] == chain_offsets(data, at)[i] + next_entry_offset(
                data,
                chain_offsets(data, at)[i],
            ),
    decreases data.len() - at,
{
    if record_fits(data, at) {
        let next = next_entry_offset(data, at);
        if next > 0 && record_fits(data, at + next) {
            lemma_chain_walk_is_bounded(data, at + next);
            let rest = chain_offsets(data, at + next);
            let all = chain_offsets(data, at);
            assert(all == seq![at] + rest);
            assert(rest.len() >= 1);
            assert(rest[0] == at + next);
            assert forall|i: int| 0 <= i < all.len() implies at <= #[trigger] all[i]
                && record_fits(data, all[i]) by {
                if i > 0 {
                    assert(all[i] == rest[i - 1]);
                }
            }
            assert forall|i: int, j: int| 0 <= i < j < all.len() implies all[i] < all[j] by {
                assert(all[j] == rest[j - 1]);
                if i > 0 {
                    assert(all[i] == rest[i - 1]);
                }
            }
            assert forall|i: int| 0 <= i < all.len() - 1 implies #[trigger] all[i + 1] == all[i]
                + next_entry_offset(data, all[i]) by {
                assert(all[i + 1] == rest[i]);
                if i > 0 {
                    assert(all[i] == rest[i - 1]);
                    assert(rest[(i - 1) + 1] == rest[i - 1] + next_entry_offset(
                        data,
                        rest[i - 1],
                    ));
                }
            }
        }
    }
}

/// In a buffer whose chain is closed, following the links from the first
/// record reaches a record that names 0, in a number of steps that is no
/// greater than the number of bytes in the buffer.
pub proof fn lemma_chain_reaches_end(data: Seq<u8>, at: int)
    requires
        chain_closed(data, at),
    ensures
        1 <= chain_offsets(data, at).len() <= data.len(),
        chain_offsets(data, at)[0] == at,
        next_entry_offset(data, chain_offsets(data, at).last()) == 0,
    decreases data.len() - at,
{
    lemma_chain_walk_is_bounded(data, at);
    let next = next_entry_offset(data, at);
    if next != 0 {
        lemma_chain_reaches_end(data, at + next);
        let rest = chain_offsets(data, at + next);
        assert(chain_offsets(data, at) == seq![at] + rest);
        assert(chain_offsets(data, at).last() == rest.last());
    }
}

/// A snapshot that decodes has a closed chain, and its records are those at
/// the offsets of the walk, one for one.
pub proof fn lemma_records_follow_chain(data: Seq<u8>, base: u64, at: int)
    requires
        records_from(data, base, at) is Ok,
    ensures
        chain_closed(data, at),
        records_from(data, base, at)->Ok_0.len() == chain_offsets(data, at).len(),
        forall|i: int|
            0 <= i < chain_offsets(data, at).len() ==> record_at(
                data,
                base,
                #[trigger] chain_offsets(data, at)[i],
            ) == Ok::<ProcessRecord, SnapshotError>(records_from(data, base, at)->Ok_0[i]),
    decreases data.len() - at,
{
    let next = next_entry_offset(data, at);
    let records = records_from(data, base, at)->Ok_0;
    let offsets = chain_offsets(data, at);
    assert(record_fits(data, at));
    if next > 0 {
        lemma_records_follow_chain(data, base, at + next);
        let rest = records_from(data, base, at + next)->Ok_0;
        assert(records == seq![record_at(data, base, at)->Ok_0] + rest);
        assert(offsets == seq![at] + chain_offsets(data, at + next));
        assert forall|i: int| 0 <= i < offsets.len() implies record_at(
            data,
            base,
            #[trigger] offsets[i],
        ) == Ok::<ProcessRecord, SnapshotError>(records[i]) by {
            if i > 0 {
                assert(offsets[i] == chain_offsets(data, at + next)[i - 1]);
                assert(records[i] == rest[i - 1]);
            }
        }
    } else {
        assert(next == 0);
    }
}

/// The record with process identifier 0 decodes, with the name of the idle
/// process, whatever bytes its name field and the rest of the buffer hold.
pub proof fn lemma_idle_record_name(data: Seq<u8>, base: u64, at: int)
    requires
        record_fits(data, at),
        record_process_id(data, at) == 0,
    ensures
        record_at(data, base, at) is Ok,
        record_at(data, base, at)->Ok_0.name == idle_name(),
        record_at(data, base, at)->Ok_0.process_id == 0,
{
}

/// The name of a record with another process identifier is its decoded code
/// units up to the first null character: where they hold one, exactly the
/// part before it, and otherwise all of them.
pub proof fn lemma_record_name_stops_at_null(data: Seq<u8>, base: u64, at: int)
    requires
        record_at(data, base, at) is Ok,
        record_process_id(data, at) != 0,
    ensures
        ({
            let decoded = decode_lossy(name_window(data, base, at));
            let name = record_at(data, base, at)->Ok_0.name;
            let cut = crate::text::null_index_from(decoded, 0);
            &&& 0 <= cut <= decoded.len()
            &&& name == decoded.take(cut)
            &&& forall|i: int| 0 <= i < name.len() ==> name[i] != '\0'
            &&& crate::text::has_null(decoded) ==> cut < decoded.len() && decoded[cut] == '\0'
            &&& !crate::text::has_null(decoded) ==> name == decoded
            &&& name == decode_lossy(
                crate::utf16::before_first_null_unit(name_window(data, base, at)),
            )
        }),
{
    crate::text::lemma_cut_at_first_null(decode_lossy(name_window(data, base, at)));
    crate::utf16::lemma_cut_commutes_with_decoding(name_window(data, base, at));
}

} // verus!
