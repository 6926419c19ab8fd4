//! Time-based one-time passcodes drawn from six seeds at once.
//!
//! Each seed keys an HMAC-SHA1 over the number of the current time window; dynamic
//! truncation turns the code into six decimal digits, and the six groups of digits,
//! joined by `-`, make one compound token. Verification regenerates the compound token
//! for the current window and for its neighbours within a tolerated drift.
//!
//! The HMAC itself is computed by the `hmac` and `sha1` crates and is trusted, as is
//! the system clock; everything around them is proved against the contracts stated on
//! each function.

pub mod adapter;
pub mod clock;
pub mod compound;
pub mod error;
pub mod laws;
pub mod mac;
pub mod token;
pub mod verify;

pub use adapter::{six_slots, wasm_generate_combined_token, wasm_verify_combined_token};
pub use clock::{current_unix_time, unix_time_of};
pub use compound::{format_token, generate_combined_token};
pub use error::TotpError;
pub use token::{counter_bytes, generate_token, token_from_digest};
pub use verify::{shift_time, verify_combined_token};
