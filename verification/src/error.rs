//! The failures that building and reading accounts can report.

use vstd::prelude::*;

verus! {

/// Message of the failure that reports a tagged payload with nothing after its tag.
pub const PAYLOAD_TOO_SHORT: &'static str = "Account data too short for Anchor account";

/// Errors that can occur when building or reading accounts.
#[derive(Debug, Clone, PartialEq, Eq)]
pub enum AccountGenError {
    /// The account owner was not set.
    MissingOwner,
    /// The account pubkey was not set.
    MissingPubkey,
    /// A payload could not be encoded; holds the codec's message.
    SerializationError(String),
    /// A payload could not be decoded; holds the codec's message, or
    /// `PAYLOAD_TOO_SHORT` where the payload ends with its tag.
    DeserializationError(String),
    /// Reading a file failed; holds the message of the failure.
    IoError(String),
    /// Text that should hold encoded bytes does not; holds the decoder's message.
    InvalidDataFormat(String),
    /// A balance below the rent-exempt minimum.
    InsufficientBalance { required: u64, actual: u64 },
    /// No program file of this name was found.
    ProgramFileNotFound(String),
    /// A payload does not start with the expected discriminator.
    InvalidAnchorDiscriminator(String),
}

/// An error with each message as a sequence of characters.
pub ghost enum ErrorView {
    MissingOwner,
    MissingPubkey,
    SerializationError(Seq<char>),
    DeserializationError(Seq<char>),
    IoError(Seq<char>),
    InvalidDataFormat(Seq<char>),
    InsufficientBalance { required: u64, actual: u64 },
    ProgramFileNotFound(Seq<char>),
    InvalidAnchorDiscriminator(Seq<char>),
}

impl View for AccountGenError {
    type V = ErrorView;

    open spec fn view(&self) -> ErrorView {
        match self {
            AccountGenError::MissingOwner => ErrorView::MissingOwner,
            AccountGenError::MissingPubkey => ErrorView::MissingPubkey,
            AccountGenError::SerializationError(m) => ErrorView::SerializationError(m@),
            AccountGenError::DeserializationError(m) => ErrorView::DeserializationError(m@),
            AccountGenError::IoError(m) => ErrorView::IoError(m@),
            AccountGenError::InvalidDataFormat(m) => ErrorView::InvalidDataFormat(m@),
            AccountGenError::InsufficientBalance { required, actual } => {
                ErrorView::InsufficientBalance { required: *required, actual: *actual }
            },
            AccountGenError::ProgramFileNotFound(m) => ErrorView::ProgramFileNotFound(m@),
            AccountGenError::InvalidAnchorDiscriminator(m) => {
                ErrorView::InvalidAnchorDiscriminator(m@)
            },
        }
    }
}

} // verus!
