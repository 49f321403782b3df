use processdumper::integrity::{
    effective_level, get_integrity_level_from_process_token, label_buffer_length, QueryError,
};
use processdumper::{IntegrityLevel, Outcome};
use windows::Win32::Foundation::ERROR_INSUFFICIENT_BUFFER;
use windows::Win32::System::SystemServices::{
    SECURITY_MANDATORY_HIGH_RID, SECURITY_MANDATORY_LOW_RID, SECURITY_MANDATORY_MEDIUM_PLUS_RID,
    SECURITY_MANDATORY_MEDIUM_RID, SECURITY_MANDATORY_PROTECTED_PROCESS_RID,
    SECURITY_MANDATORY_SYSTEM_RID, SECURITY_MANDATORY_UNTRUSTED_RID,
};

fn all_levels() -> Vec<IntegrityLevel> {
    vec![
        IntegrityLevel::Untrusted,
        IntegrityLevel::Low,
        IntegrityLevel::Medium,
        IntegrityLevel::MediumPlus,
        IntegrityLevel::High,
        IntegrityLevel::System,
        IntegrityLevel::ProtectedProcess,
    ]
}

#[test]
fn known_ranks_map_to_their_levels() {
    assert_eq!(IntegrityLevel::from_rid(0x0000), IntegrityLevel::Untrusted);
    assert_eq!(IntegrityLevel::from_rid(0x1000), IntegrityLevel::Low);
    assert_eq!(IntegrityLevel::from_rid(0x2000), IntegrityLevel::Medium);
    assert_eq!(IntegrityLevel::from_rid(0x2100), IntegrityLevel::MediumPlus);
    assert_eq!(IntegrityLevel::from_rid(0x3000), IntegrityLevel::High);
    assert_eq!(IntegrityLevel::from_rid(0x4000), IntegrityLevel::System);
    assert_eq!(IntegrityLevel::from_rid(0x5000), IntegrityLevel::ProtectedProcess);
}

#[test]
fn unknown_ranks_map_to_untrusted() {
    for rid in [1u32, 0x0fff, 0x1001, 0x2001, 0x20ff, 0x2101, 0x3001, 0x4001, 0x5001, 0x6000] {
        assert_eq!(IntegrityLevel::from_rid(rid), IntegrityLevel::Untrusted, "{rid:#x}");
    }
    assert_eq!(IntegrityLevel::from_rid(u32::MAX), IntegrityLevel::Untrusted);
    assert_eq!(IntegrityLevel::from_rid(0x8000_3000), IntegrityLevel::Untrusted);
}

#[test]
fn ranks_are_those_of_the_platform() {
    assert_eq!(IntegrityLevel::Untrusted.rid(), SECURITY_MANDATORY_UNTRUSTED_RID as u32);
    assert_eq!(IntegrityLevel::Low.rid(), SECURITY_MANDATORY_LOW_RID as u32);
    assert_eq!(IntegrityLevel::Medium.rid(), SECURITY_MANDATORY_MEDIUM_RID as u32);
    assert_eq!(IntegrityLevel::MediumPlus.rid(), SECURITY_MANDATORY_MEDIUM_PLUS_RID);
    assert_eq!(IntegrityLevel::High.rid(), SECURITY_MANDATORY_HIGH_RID as u32);
    assert_eq!(IntegrityLevel::System.rid(), SECURITY_MANDATORY_SYSTEM_RID as u32);
    assert_eq!(
        IntegrityLevel::ProtectedProcess.rid(),
        SECURITY_MANDATORY_PROTECTED_PROCESS_RID as u32
    );
    assert_eq!(IntegrityLevel::MediumPlus.rid(), 0x2100);
    assert_eq!(IntegrityLevel::ProtectedProcess.rid(), 0x5000);
}

#[test]
fn rank_round_trip() {
    for level in all_levels() {
        assert_eq!(IntegrityLevel::from_rid(level.rid()), level);
    }
}

#[test]
fn privileged_levels_are_high_and_above() {
    let admin: Vec<bool> = all_levels().iter().map(|level| level.is_admin()).collect();
    assert_eq!(admin, vec![false, false, false, false, true, true, true]);
    for level in all_levels() {
        assert_eq!(level.is_admin(), level.rid() >= IntegrityLevel::High.rid());
    }
}

#[test]
fn display_names() {
    let names: Vec<&str> = all_levels().iter().map(|level| level.display_str()).collect();
    assert_eq!(
        names,
        vec!["Untrusted", "Low", "Medium", "MediumPlus", "High", "System", "ProtectedProcess"]
    );
}

#[test]
fn sizing_call_may_report_a_small_buffer() {
    assert_eq!(label_buffer_length(Outcome::Failed(ERROR_INSUFFICIENT_BUFFER.0), 28), Ok(28));
    assert_eq!(label_buffer_length(Outcome::Failed(122), 0), Ok(0));
    assert_eq!(label_buffer_length(Outcome::Succeeded, 20), Ok(20));
}

#[test]
fn sizing_call_fails_on_any_other_error() {
    assert_eq!(label_buffer_length(Outcome::Failed(5), 28), Err(QueryError::Os(5)));
    assert_eq!(label_buffer_length(Outcome::Failed(0), 28), Err(QueryError::Os(0)));
    assert_eq!(label_buffer_length(Outcome::Failed(123), 28), Err(QueryError::Os(123)));
}

#[test]
fn level_is_read_from_the_last_sub_authority() {
    assert_eq!(
        get_integrity_level_from_process_token(Outcome::Succeeded, &[0x3000]),
        Ok(IntegrityLevel::High)
    );
    assert_eq!(
        get_integrity_level_from_process_token(Outcome::Succeeded, &[0x4000, 0x2000]),
        Ok(IntegrityLevel::Medium)
    );
    assert_eq!(
        get_integrity_level_from_process_token(Outcome::Succeeded, &[0x2000, 0x1234]),
        Ok(IntegrityLevel::Untrusted)
    );
}

#[test]
fn failed_or_empty_label_is_an_error() {
    assert_eq!(
        get_integrity_level_from_process_token(Outcome::Failed(6), &[0x3000]),
        Err(QueryError::Os(6))
    );
    assert_eq!(
        get_integrity_level_from_process_token(Outcome::Succeeded, &[]),
        Err(QueryError::EmptyLabel)
    );
}

#[test]
fn failed_query_counts_as_untrusted() {
    assert_eq!(effective_level(Ok(IntegrityLevel::System)), IntegrityLevel::System);
    assert_eq!(effective_level(Err(QueryError::Os(5))), IntegrityLevel::Untrusted);
    assert_eq!(effective_level(Err(QueryError::EmptyLabel)), IntegrityLevel::Untrusted);
}
