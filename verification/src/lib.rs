//! Verified core of the Quasar tool chain: project scaffolding decisions and
//! templates, test-runner planning, the IDL state-attribute parsers, and the
//! planning logic behind the `Accounts`, `#[error_code]` and
//! `#[instruction]` macros.
pub mod text;
pub mod idl_state;
pub mod options;
pub mod templates;
pub mod git;
pub mod project;
pub mod test_runner;
pub mod keypair;
pub mod scaffold;
pub mod style;
pub mod init;
pub mod error_code;
pub mod instruction;
pub mod accounts;
pub mod banner;
pub mod profile;
