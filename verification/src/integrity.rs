//! The trust check: the mandatory trust level of a security token, and the
//! decisions of the two-call query that reads it.

use vstd::prelude::*;
use crate::status::Outcome;
use crate::win32::{
    error_insufficient_buffer, mandatory_high_rid, mandatory_low_rid, mandatory_medium_plus_rid,
    mandatory_medium_rid, mandatory_protected_process_rid, mandatory_system_rid,
    mandatory_untrusted_rid,
};

verus! {

/// The mandatory trust level carried by a security token, lowest first.
#[derive(Clone, Copy, Debug, PartialEq, Eq, Structural)]
pub enum IntegrityLevel {
    Untrusted,
    Low,
    Medium,
    MediumPlus,
    High,
    System,
    ProtectedProcess,
}

/// Why the trust level of a token could not be read.
#[derive(Clone, Copy, Debug, PartialEq, Eq, Structural)]
pub enum QueryError {
    /// The operating system refused the query with this error code.
    Os(u32),
    /// The mandatory label came back without any sub-authority.
    EmptyLabel,
}

/// The error code with which a query reports that the buffer it was handed
/// is too small for the answer.
pub open spec fn insufficient_buffer() -> u32 {
    122
}

impl IntegrityLevel {
    /// The fixed numeric rank that the operating system binds to the level.
    pub open spec fn rank(self) -> u32 {
        match self {
            IntegrityLevel::Untrusted => 0x0000,
            IntegrityLevel::Low => 0x1000,
            IntegrityLevel::Medium => 0x2000,
            IntegrityLevel::MediumPlus => 0x2100,
            IntegrityLevel::High => 0x3000,
            IntegrityLevel::System => 0x4000,
            IntegrityLevel::ProtectedProcess => 0x5000,
        }
    }

    /// The level that a rank stands for: the level bound to exactly that
    /// rank, and `Untrusted` for every rank that no level is bound to.
    pub open spec fn of_rank(rid: u32) -> IntegrityLevel {
        if rid == 0x1000 {
            IntegrityLevel::Low
        } else if rid == 0x2000 {
            IntegrityLevel::Medium
        } else if rid == 0x2100 {
            IntegrityLevel::MediumPlus
        } else if rid == 0x3000 {
            IntegrityLevel::High
        } else if rid == 0x4000 {
            IntegrityLevel::System
        } else if rid == 0x5000 {
            IntegrityLevel::ProtectedProcess
        } else {
            IntegrityLevel::Untrusted
        }
    }

    /// Whether the level is one of the privileged ones.
    pub open spec fn privileged(self) -> bool {
        self == IntegrityLevel::High || self == IntegrityLevel::System || self
            == IntegrityLevel::ProtectedProcess
    }

    /// The level's name as a sequence of characters.
    pub open spec fn name(self) -> Seq<char> {
        match self {
            IntegrityLevel::Untrusted => "Untrusted"@,
            IntegrityLevel::Low => "Low"@,
            IntegrityLevel::Medium => "Medium"@,
            IntegrityLevel::MediumPlus => "MediumPlus"@,
            IntegrityLevel::High => "High"@,
            IntegrityLevel::System => "System"@,
            IntegrityLevel::ProtectedProcess => "ProtectedProcess"@,
        }
    }

    /// Maps a rank to its level. Total: a rank outside the known set is
    /// `Untrusted`, never an error.
    pub fn from_rid(rid: u32) -> (level: IntegrityLevel)
        ensures
            level == Self::of_rank(rid),
    {
        if rid == mandatory_untrusted_rid() {
            IntegrityLevel::Untrusted
        } else if rid == mandatory_low_rid() {
            IntegrityLevel::Low
        } else if rid == mandatory_medium_rid() {
            IntegrityLevel::Medium
        } else if rid == mandatory_medium_plus_rid() {
            IntegrityLevel::MediumPlus
        } else if rid == mandatory_high_rid() {
            IntegrityLevel::High
        } else if rid == mandatory_system_rid() {
            IntegrityLevel::System
        } else if rid == mandatory_protected_process_rid() {
            IntegrityLevel::ProtectedProcess
        } else {
            IntegrityLevel::Untrusted
        }
    }

    /// The rank bound to the level.
    pub fn rid(&self) -> (rid: u32)
        ensures
            rid == self.rank(),
    {
        match self {
            IntegrityLevel::Untrusted => mandatory_untrusted_rid(),
            IntegrityLevel::Low => mandatory_low_rid(),
            IntegrityLevel::Medium => mandatory_medium_rid(),
            IntegrityLevel::MediumPlus => mandatory_medium_plus_rid(),
            IntegrityLevel::High => mandatory_high_rid(),
            IntegrityLevel::System => mandatory_system_rid(),
            IntegrityLevel::ProtectedProcess => mandatory_protected_process_rid(),
        }
    }

    /// The level's name, for messages.
    pub fn display_str(&self) -> (text: &'static str)
        ensures
            text@ == self.name(),
    {
        match self {
            IntegrityLevel::Untrusted => "Untrusted",
            IntegrityLevel::Low => "Low",
            IntegrityLevel::Medium => "Medium",
            IntegrityLevel::MediumPlus => "MediumPlus",
            IntegrityLevel::High => "High",
            IntegrityLevel::System => "System",
            IntegrityLevel::ProtectedProcess => "ProtectedProcess",
        }
    }

    /// Whether a caller at this level may inspect processes outside its own
    /// security context: true exactly for `High`, `System` and
    /// `ProtectedProcess`.
    pub fn is_admin(&self) -> (admin: bool)
        ensures
            admin == self.privileged(),
    {
        match self {
            IntegrityLevel::Untrusted => false,
            IntegrityLevel::Low => false,
            IntegrityLevel::Medium => false,
            IntegrityLevel::MediumPlus => false,
            IntegrityLevel::High => true,
            IntegrityLevel::System => true,
            IntegrityLevel::ProtectedProcess => true,
        }
    }
}

/// The buffer length to read the mandatory label with, given how the sizing
/// call (made with an empty buffer) ended and the length it reported.
pub open spec fn label_length(probe: Outcome, reported: u32) -> Result<u32, QueryError> {
    match probe {
        Outcome::Succeeded => Ok(reported),
        Outcome::Failed(code) => if code == insufficient_buffer() {
            Ok(reported)
        } else {
            Err(QueryError::Os(code))
        },
    }
}

/// The trust level that a mandatory label stands for, given how the call that
/// read the label ended and the sub-authorities of the label's identifier.
pub open spec fn label_level(read: Outcome, sub_authorities: Seq<u32>) -> Result<
    IntegrityLevel,
    QueryError,
> {
    match read {
        Outcome::Failed(code) => Err(QueryError::Os(code)),
        Outcome::Succeeded => if sub_authorities.len() == 0 {
            Err(QueryError::EmptyLabel)
        } else {
            Ok(IntegrityLevel::of_rank(sub_authorities.last()))
        },
    }
}

/// Decides what follows the sizing call of the label query. Being told that
/// the empty buffer is too small is the expected answer and not a failure;
/// any other error code ends the query with that code.
pub fn label_buffer_length(probe: Outcome, reported: u32) -> (length: Result<u32, QueryError>)
    ensures
        length == label_length(probe, reported),
{
    match probe {
        Outcome::Succeeded => Ok(reported),
        Outcome::Failed(code) => {
            if code == error_insufficient_buffer() {
                Ok(reported)
            } else {
                Err(QueryError::Os(code))
            }
        },
    }
}

/// Decides the trust level from the answer to the second call of the label
/// query: the rank is the last sub-authority of the label's identifier.
pub fn get_integrity_level_from_process_token(read: Outcome, sub_authorities: &[u32]) -> (level:
    Result<IntegrityLevel, QueryError>)
    ensures
        level == label_level(read, sub_authorities@),
{
    match read {
        Outcome::Failed(code) => Err(QueryError::Os(code)),
        Outcome::Succeeded => {
            let count = sub_authorities.len();
            if count == 0 {
                Err(QueryError::EmptyLabel)
            } else {
                Ok(IntegrityLevel::from_rid(sub_authorities[count - 1]))
            }
        },
    }
}

/// The level that a caller is taken to have when the query may have
/// failed: a failed query counts as `Untrusted`.
pub fn effective_level(queried: Result<IntegrityLevel, QueryError>) -> (level: IntegrityLevel)
    ensures
        level == match queried {
            Ok(found) => found,
            Err(_) => IntegrityLevel::Untrusted,
        },
{
    match queried {
        Ok(found) => found,
        Err(_) => IntegrityLevel::Untrusted,
    }
}

/// Every rank has a level: the level that is bound to exactly that rank,
/// and `Untrusted` where no level is bound to it.
pub proof fn lemma_rank_mapping_total(rid: u32)
    ensures
        forall|level: IntegrityLevel| level.rank() == rid ==> IntegrityLevel::of_rank(rid) == level,
        (forall|level: IntegrityLevel| level.rank() != rid) ==> IntegrityLevel::of_rank(rid)
            == IntegrityLevel::Untrusted,
{
    if forall|level: IntegrityLevel| level.rank() != rid {
        assert(IntegrityLevel::Low.rank() != rid);
        assert(IntegrityLevel::Medium.rank() != rid);
        assert(IntegrityLevel::MediumPlus.rank() != rid);
        assert(IntegrityLevel::High.rank() != rid);
        assert(IntegrityLevel::System.rank() != rid);
        assert(IntegrityLevel::ProtectedProcess.rank() != rid);
    }
}

/// Mapping a level's own rank gives the level back.
pub proof fn lemma_rank_round_trip(level: IntegrityLevel)
    ensures
        IntegrityLevel::of_rank(level.rank()) == level,
{
}

/// Being privileged is a matter of rank alone: a level is privileged exactly
/// when its rank is at least that of `High`.
pub proof fn lemma_privileged_by_rank(level: IntegrityLevel)
    ensures
        level.privileged() <==> level.rank() >= IntegrityLevel::High.rank(),
{
}

} // verus!
