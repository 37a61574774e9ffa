//! The HTTP client layer over a handle-based transfer engine: requests built
//! from a base URL, the option values handed to the engine, and the response
//! rebuilt from the header lines and body chunks that the engine delivers.

pub mod body;
pub mod client;
pub mod easy;
pub mod errors;
pub mod escape;
pub mod headers;
pub mod http;
pub mod info;
pub mod opt;
pub mod parse;

pub use crate::easy::Curl;
use vstd::prelude::*;

verus! {

/// Flags of the engine's process-wide initialisation: which of its parts to
/// set up.
pub const GLOBAL_SSL: i64 = 1 << 0;

pub const GLOBAL_WIN32: i64 = 1 << 1;

pub const GLOBAL_ALL: i64 = GLOBAL_SSL | GLOBAL_WIN32;

pub const GLOBAL_NOTHING: i64 = 0;

pub const GLOBAL_DEFAULT: i64 = GLOBAL_ALL;

pub const GLOBAL_ACK_EINTR: i64 = 1 << 2;

} // verus!
