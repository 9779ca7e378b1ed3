//! Adapters between the payload of an account and the codecs that callers use.
//!
//! The codecs themselves stay with the caller: an adapter takes what the
//! encoder returned, or hands the payload to the decoder it is given, and
//! reports a failure as an error of this library.

pub mod bincode;
pub mod borsh;
