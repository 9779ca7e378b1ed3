//! What the `generate` command computes from its arguments.
//!
//! Reading the arguments and printing the account stay with the program: this
//! module turns the argument values into the account to print and the format
//! to print it in, or into the failure to report.

use crate::account::{Account, AccountView};
use crate::account_builder::AccountBuilder;
use crate::error::AccountGenError;
use crate::pubkey::Pubkey;
use vstd::prelude::*;
use vstd::string::{StringExecFns, StringSliceAdditionalSpecFns};

verus! {

/// How the account is printed.
#[derive(Debug, Clone, Copy, PartialEq, Eq, Structural)]
pub enum OutputFormat {
    /// As indented JSON.
    Json,
    /// As the base64 text of its JSON.
    Base64,
}

/// Why no account was generated.
#[derive(Debug, Clone, PartialEq, Eq)]
pub enum GenerateError {
    /// The owner is not the base-58 text of an identifier; holds the parser's message.
    InvalidOwner(String),
    /// The payload is not hexadecimal text: an `InvalidDataFormat` with the
    /// decoder's message.
    Account(AccountGenError),
    /// The format is neither `json` nor `base64`; holds the format given.
    UnsupportedFormat(String),
}

/// The account to print, and the format to print it in.
#[derive(Debug)]
pub struct Generated {
    pub account: Account,
    pub format: OutputFormat,
}

/// The identifier that a base-58 text stands for, or `None` where the text
/// does not stand for 32 bytes.
pub uninterp spec fn base58_pubkey(text: Seq<char>) -> Option<Seq<u8>>;

/// `solana_pubkey::Pubkey::from_str`: the identifier that `text` spells in
/// base 58, which depends on the text alone. Where the outside function
/// fails, its error comes back as its message.
#[verifier::external_body]
fn parse_pubkey(text: &str) -> (parsed: Result<Pubkey, String>)
    ensures
        match parsed {
            Ok(key) => base58_pubkey(text@) == Some(key@),
            Err(_) => base58_pubkey(text@) is None,
        },
{
    match <solana_pubkey::Pubkey as std::str::FromStr>::from_str(text) {
        Ok(key) => Ok(Pubkey::new_from_array(key.to_bytes())),
        Err(error) => Err(error.to_string()),
    }
}

/// The value of a hexadecimal digit, upper or lower case.
pub open spec fn hex_value(digit: u8) -> Option<u8> {
    if 0x30 <= digit <= 0x39 {
        Some((digit - 0x30) as u8)
    } else if 0x41 <= digit <= 0x46 {
        Some((digit - 0x41 + 10) as u8)
    } else if 0x61 <= digit <= 0x66 {
        Some((digit - 0x61 + 10) as u8)
    } else {
        None
    }
}

/// The bytes that hexadecimal digits spell, two digits to a byte, or `None`
/// where their number is odd or one of them is no digit.
pub open spec fn hex_decoded(digits: Seq<u8>) -> Option<Seq<u8>>
    decreases digits.len(),
{
    if digits.len() % 2 != 0 {
        None
    } else if digits.len() == 0 {
        Some(Seq::empty())
    } else {
        match (hex_value(digits[0]), hex_value(digits[1]), hex_decoded(digits.skip(2))) {
            (Some(high), Some(low), Some(rest)) => Some(seq![(high * 16 + low) as u8] + rest),
            _ => None,
        }
    }
}

/// `hex::decode`: the bytes that the text spells in hexadecimal digits, two
/// to a byte, in upper or lower case. The outside function fails where the
/// text has an odd number of bytes or holds a byte that is no digit; its
/// error comes back as its message.
#[verifier::external_body]
fn decode_hex(text: &str) -> (decoded: Result<Vec<u8>, String>)
    ensures
        match hex_decoded(text.spec_bytes()) {
            Some(bytes) => decoded matches Ok(payload) && payload@ == bytes,
            None => decoded is Err,
        },
{
    hex::decode(text).map_err(|error| error.to_string())
}

/// The format that a text names.
pub open spec fn named_format(text: Seq<char>) -> Option<OutputFormat> {
    if text == "json"@ {
        Some(OutputFormat::Json)
    } else if text == "base64"@ {
        Some(OutputFormat::Base64)
    } else {
        None
    }
}

/// Reads the name of a format.
pub fn parse_format(text: &str) -> (format: Option<OutputFormat>)
    ensures
        format == named_format(text@),
{
    let given = String::from_str(text);
    if given == String::from_str("json") {
        Some(OutputFormat::Json)
    } else if given == String::from_str("base64") {
        Some(OutputFormat::Base64)
    } else {
        None
    }
}

/// The payload that the command's `data` argument gives: the bytes it
/// spells, none where it is absent, or `None` where it is not hexadecimal.
pub open spec fn given_payload(data: Option<&str>) -> Option<Seq<u8>> {
    match data {
        Some(text) => hex_decoded(text.spec_bytes()),
        None => Some(Seq::empty()),
    }
}

/// The account that the command generates from its arguments.
pub open spec fn generated_account(
    balance: u64,
    owner: Seq<u8>,
    executable: bool,
    payload: Seq<u8>,
) -> AccountView {
    AccountView { lamports: balance, data: payload, owner, executable, rent_epoch: 0 }
}

/// Computes what the `generate` command prints.
///
/// `owner` is the owner's identifier in base 58, `data` the payload in
/// hexadecimal digits, `format` one of `json` and `base64`. The arguments are
/// looked at in this order: a bad owner is reported before a bad payload, and
/// a bad payload before an unsupported format.
pub fn generate(
    balance: u64,
    owner: &str,
    executable: bool,
    format: &str,
    data: Option<&str>,
) -> (generated: Result<Generated, GenerateError>)
    ensures
        match (base58_pubkey(owner@), given_payload(data), named_format(format@)) {
            (None, _, _) => generated matches Err(GenerateError::InvalidOwner(_)),
            (Some(_), None, _) => generated matches Err(
                GenerateError::Account(AccountGenError::InvalidDataFormat(_)),
            ),
            (Some(_), Some(_), None) => generated matches Err(
                GenerateError::UnsupportedFormat(given),
            ) && given@ == format@,
            (Some(key), Some(payload), Some(named)) => generated matches Ok(output)
                && output.format == named && output.account@ == generated_account(
                balance,
                key,
                executable,
                payload,
            ),
        },
{
    let owner_pubkey = match parse_pubkey(owner) {
        Ok(key) => key,
        Err(message) => {
            return Err(GenerateError::InvalidOwner(message));
        },
    };
    let mut builder = AccountBuilder::new().balance(balance).owner(owner_pubkey).executable(
        executable,
    );
    match data {
        Some(hex_data) => {
            match decode_hex(hex_data) {
                Ok(data_bytes) => {
                    builder = builder.data_raw(data_bytes);
                },
                Err(message) => {
                    return Err(
                        GenerateError::Account(AccountGenError::InvalidDataFormat(message)),
                    );
                },
            }
        },
        None => {},
    }
    let account = builder.build();
    match parse_format(format) {
        Some(format) => Ok(Generated { account, format }),
        None => Err(GenerateError::UnsupportedFormat(String::from_str(format))),
    }
}

} // verus!
