//! The numeric constants of the Win32 API that the library's rules are written
//! against, read from the `windows` crate.
//!
//! Every function here is trusted: Verus does not look at its body, and its
//! contract restates the value that the `windows` crate declares for the
//! constant it returns.

use vstd::prelude::*;

verus! {

/// Trusted: `SECURITY_MANDATORY_UNTRUSTED_RID` of
/// `windows::Win32::System::SystemServices`, which the crate declares as an
/// `i32` of value 0. The contract claims that value.
#[verifier::external_body]
pub(crate) fn mandatory_untrusted_rid() -> (value: u32)
    ensures
        value == 0,
{
    windows::Win32::System::SystemServices::SECURITY_MANDATORY_UNTRUSTED_RID as u32
}

/// Trusted: `SECURITY_MANDATORY_LOW_RID` of
/// `windows::Win32::System::SystemServices`, which the crate declares as an
/// `i32` of value 4096. The contract claims that value.
#[verifier::external_body]
pub(crate) fn mandatory_low_rid() -> (value: u32)
    ensures
        value == 4096,
{
    windows::Win32::System::SystemServices::SECURITY_MANDATORY_LOW_RID as u32
}

/// Trusted: `SECURITY_MANDATORY_MEDIUM_RID` of
/// `windows::Win32::System::SystemServices`, which the crate declares as an
/// `i32` of value 8192. The contract claims that value.
#[verifier::external_body]
pub(crate) fn mandatory_medium_rid() -> (value: u32)
    ensures
        value == 8192,
{
    windows::Win32::System::SystemServices::SECURITY_MANDATORY_MEDIUM_RID as u32
}

/// Trusted: `SECURITY_MANDATORY_MEDIUM_PLUS_RID` of
/// `windows::Win32::System::SystemServices`, which the crate declares as a
/// `u32` of value 8448. The contract claims that value.
#[verifier::external_body]
pub(crate) fn mandatory_medium_plus_rid() -> (value: u32)
    ensures
        value == 8448,
{
    windows::Win32::System::SystemServices::SECURITY_MANDATORY_MEDIUM_PLUS_RID
}

/// Trusted: `SECURITY_MANDATORY_HIGH_RID` of
/// `windows::Win32::System::SystemServices`, which the crate declares as an
/// `i32` of value 12288. The contract claims that value.
#[verifier::external_body]
pub(crate) fn mandatory_high_rid() -> (value: u32)
    ensures
        value == 12288,
{
    windows::Win32::System::SystemServices::SECURITY_MANDATORY_HIGH_RID as u32
}

/// Trusted: `SECURITY_MANDATORY_SYSTEM_RID` of
/// `windows::Win32::System::SystemServices`, which the crate declares as an
/// `i32` of value 16384. The contract claims that value.
#[verifier::external_body]
pub(crate) fn mandatory_system_rid() -> (value: u32)
    ensures
        value == 16384,
{
    windows::Win32::System::SystemServices::SECURITY_MANDATORY_SYSTEM_RID as u32
}

/// Trusted: `SECURITY_MANDATORY_PROTECTED_PROCESS_RID` of
/// `windows::Win32::System::SystemServices`, which the crate declares as an
/// `i32` of value 20480. The contract claims that value.
#[verifier::external_body]
pub(crate) fn mandatory_protected_process_rid() -> (value: u32)
    ensures
        value == 20480,
{
    windows::Win32::System::SystemServices::SECURITY_MANDATORY_PROTECTED_PROCESS_RID as u32
}

/// Trusted: `ERROR_INSUFFICIENT_BUFFER` of `windows::Win32::Foundation`,
/// which the crate declares as a `WIN32_ERROR` that wraps 122. The contract
/// claims that value.
#[verifier::external_body]
pub(crate) fn error_insufficient_buffer() -> (value: u32)
    ensures
        value == 122,
{
    windows::Win32::Foundation::ERROR_INSUFFICIENT_BUFFER.0
}

/// Trusted: `STATUS_INFO_LENGTH_MISMATCH` of `windows::Win32::Foundation`,
/// which the crate declares as an `NTSTATUS` that wraps the `i32`
/// -1073741820, whose bits are those of the `u32` 0xC0000004. The contract
/// claims that value.
#[verifier::external_body]
pub(crate) fn status_info_length_mismatch() -> (value: u32)
    ensures
        value == 0xC000_0004,
{
    windows::Win32::Foundation::STATUS_INFO_LENGTH_MISMATCH.0 as u32
}

/// Trusted: `GENERIC_READ` of `windows::Win32::Foundation`, which the crate
/// declares as a `GENERIC_ACCESS_RIGHTS` that wraps 2147483648. The contract
/// claims that value.
#[verifier::external_body]
pub(crate) fn generic_read() -> (value: u32)
    ensures
        value == 0x8000_0000,
{
    windows::Win32::Foundation::GENERIC_READ.0
}

/// Trusted: `GENERIC_WRITE` of `windows::Win32::Foundation`, which the crate
/// declares as a `GENERIC_ACCESS_RIGHTS` that wraps 1073741824. The contract
/// claims that value.
#[verifier::external_body]
pub(crate) fn generic_write() -> (value: u32)
    ensures
        value == 0x4000_0000,
{
    windows::Win32::Foundation::GENERIC_WRITE.0
}

/// Trusted: `PROCESS_QUERY_INFORMATION` of
/// `windows::Win32::System::Threading`, which the crate declares as a
/// `PROCESS_ACCESS_RIGHTS` that wraps 1024. The contract claims that value.
#[verifier::external_body]
pub(crate) fn process_query_information() -> (value: u32)
    ensures
        value == 1024,
{
    windows::Win32::System::Threading::PROCESS_QUERY_INFORMATION.0
}

/// Trusted: `PROCESS_VM_READ` of `windows::Win32::System::Threading`, which
/// the crate declares as a `PROCESS_ACCESS_RIGHTS` that wraps 16. The
/// contract claims that value.
#[verifier::external_body]
pub(crate) fn process_vm_read() -> (value: u32)
    ensures
        value == 16,
{
    windows::Win32::System::Threading::PROCESS_VM_READ.0
}

/// Trusted: `CREATE_ALWAYS` of `windows::Win32::Storage::FileSystem`, which
/// the crate declares as a `FILE_CREATION_DISPOSITION` that wraps 2. The
/// contract claims that value.
#[verifier::external_body]
pub(crate) fn create_always() -> (value: u32)
    ensures
        value == 2,
{
    windows::Win32::Storage::FileSystem::CREATE_ALWAYS.0
}

/// Trusted: `FILE_ATTRIBUTE_NORMAL` of `windows::Win32::Storage::FileSystem`,
/// which the crate declares as a `FILE_FLAGS_AND_ATTRIBUTES` that wraps 128.
/// The contract claims that value.
#[verifier::external_body]
pub(crate) fn file_attribute_normal() -> (value: u32)
    ensures
        value == 128,
{
    windows::Win32::Storage::FileSystem::FILE_ATTRIBUTE_NORMAL.0
}

/// Trusted: `MiniDumpWithFullMemory` of
/// `windows::Win32::System::Diagnostics::Debug`, which the crate declares as
/// a `MINIDUMP_TYPE` that wraps the `i32` 2. The contract claims that value.
#[verifier::external_body]
pub(crate) fn mini_dump_with_full_memory() -> (value: u32)
    ensures
        value == 0x2,
{
    windows::Win32::System::Diagnostics::Debug::MiniDumpWithFullMemory.0 as u32
}

/// Trusted: `MiniDumpWithHandleData` of
/// `windows::Win32::System::Diagnostics::Debug`, which the crate declares as
/// a `MINIDUMP_TYPE` that wraps the `i32` 4. The contract claims that value.
#[verifier::external_body]
pub(crate) fn mini_dump_with_handle_data() -> (value: u32)
    ensures
        value == 0x4,
{
    windows::Win32::System::Diagnostics::Debug::MiniDumpWithHandleData.0 as u32
}

/// Trusted: `MiniDumpWithUnloadedModules` of
/// `windows::Win32::System::Diagnostics::Debug`, which the crate declares as
/// a `MINIDUMP_TYPE` that wraps the `i32` 32. The contract claims that value.
#[verifier::external_body]
pub(crate) fn mini_dump_with_unloaded_modules() -> (value: u32)
    ensures
        value == 0x20,
{
    windows::Win32::System::Diagnostics::Debug::MiniDumpWithUnloadedModules.0 as u32
}

/// Trusted: `MiniDumpWithFullMemoryInfo` of
/// `windows::Win32::System::Diagnostics::Debug`, which the crate declares as
/// a `MINIDUMP_TYPE` that wraps the `i32` 2048. The contract claims that
/// value.
#[verifier::external_body]
pub(crate) fn mini_dump_with_full_memory_info() -> (value: u32)
    ensures
        value == 0x800,
{
    windows::Win32::System::Diagnostics::Debug::MiniDumpWithFullMemoryInfo.0 as u32
}

/// Trusted: `MiniDumpWithThreadInfo` of
/// `windows::Win32::System::Diagnostics::Debug`, which the crate declares as
/// a `MINIDUMP_TYPE` that wraps the `i32` 4096. The contract claims that
/// value.
#[verifier::external_body]
pub(crate) fn mini_dump_with_thread_info() -> (value: u32)
    ensures
        value == 0x1000,
{
    windows::Win32::System::Diagnostics::Debug::MiniDumpWithThreadInfo.0 as u32
}

/// Trusted: `MiniDumpWithTokenInformation` of
/// `windows::Win32::System::Diagnostics::Debug`, which the crate declares as
/// a `MINIDUMP_TYPE` that wraps the `i32` 262144. The contract claims that
/// value.
#[verifier::external_body]
pub(crate) fn mini_dump_with_token_information() -> (value: u32)
    ensures
        value == 0x4_0000,
{
    windows::Win32::System::Diagnostics::Debug::MiniDumpWithTokenInformation.0 as u32
}

/// Trusted: `MiniDumpWithAvxXStateContext` of
/// `windows::Win32::System::Diagnostics::Debug`, which the crate declares as
/// a `MINIDUMP_TYPE` that wraps the `i32` 2097152. The contract claims that
/// value.
#[verifier::external_body]
pub(crate) fn mini_dump_with_avx_xstate_context() -> (value: u32)
    ensures
        value == 0x20_0000,
{
    windows::Win32::System::Diagnostics::Debug::MiniDumpWithAvxXStateContext.0 as u32
}

/// Trusted: `MiniDumpWithIptTrace` of
/// `windows::Win32::System::Diagnostics::Debug`, which the crate declares as
/// a `MINIDUMP_TYPE` that wraps the `i32` 4194304. The contract claims that
/// value.
#[verifier::external_body]
pub(crate) fn mini_dump_with_ipt_trace() -> (value: u32)
    ensures
        value == 0x40_0000,
{
    windows::Win32::System::Diagnostics::Debug::MiniDumpWithIptTrace.0 as u32
}

/// Trusted: `SE_PRIVILEGE_ENABLED` of `windows::Win32::Security`, which the
/// crate declares as a `TOKEN_PRIVILEGES_ATTRIBUTES` that wraps 2. The
/// contract claims that value.
#[verifier::external_body]
pub(crate) fn se_privilege_enabled() -> (value: u32)
    ensures
        value == 2,
{
    windows::Win32::Security::SE_PRIVILEGE_ENABLED.0
}

/// Trusted: `TOKEN_ADJUST_PRIVILEGES` of `windows::Win32::Security`, which
/// the crate declares as a `TOKEN_ACCESS_MASK` that wraps 32. The contract
/// claims that value.
#[verifier::external_body]
pub(crate) fn token_adjust_privileges() -> (value: u32)
    ensures
        value == 32,
{
    windows::Win32::Security::TOKEN_ADJUST_PRIVILEGES.0
}

/// Trusted: `WM_HOTKEY` of `windows::Win32::UI::WindowsAndMessaging`, which
/// the crate declares as a `u32` of value 786. The contract claims that
/// value.
#[verifier::external_body]
pub(crate) fn wm_hotkey() -> (value: u32)
    ensures
        value == 786,
{
    windows::Win32::UI::WindowsAndMessaging::WM_HOTKEY
}

/// Trusted: `MOD_CONTROL` of `windows::Win32::UI::Input::KeyboardAndMouse`,
/// which the crate declares as a `HOT_KEY_MODIFIERS` that wraps 2. The
/// contract claims that value.
#[verifier::external_body]
pub(crate) fn mod_control() -> (value: u32)
    ensures
        value == 2,
{
    windows::Win32::UI::Input::KeyboardAndMouse::MOD_CONTROL.0
}

/// Trusted: `MOD_SHIFT` of `windows::Win32::UI::Input::KeyboardAndMouse`,
/// which the crate declares as a `HOT_KEY_MODIFIERS` that wraps 4. The
/// contract claims that value.
#[verifier::external_body]
pub(crate) fn mod_shift() -> (value: u32)
    ensures
        value == 4,
{
    windows::Win32::UI::Input::KeyboardAndMouse::MOD_SHIFT.0
}

} // verus!
