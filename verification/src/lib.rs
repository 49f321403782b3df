//! Locating a session-bound process in a raw process snapshot and driving the
//! privileged steps that capture its memory to disk.
//!
//! Every decision of the pipeline lives here as verified code over plain
//! values; the operating-system calls themselves are made by the caller, which
//! feeds their outcomes back in.

pub mod bytes;
pub mod cli;
pub mod debug;
pub mod error;
pub mod integrity;
pub mod privilege;
pub mod process;
pub mod query;
pub mod status;
pub mod text;
pub mod trigger;
pub mod utf16;
pub mod win32;

pub use debug::take_memory_dump;
pub use integrity::IntegrityLevel;
pub use privilege::set_debug_privilege;
pub use process::{find_dwm_process_id_in_session, find_process_id_with_name_in_session};
pub use status::Outcome;
pub use trigger::find_and_dump_dwm;
