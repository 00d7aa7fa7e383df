use vstd::prelude::*;

verus! {

/// Names one of the five bit fields of the packed 64-bit identifier.
#[derive(Debug, Clone, Copy, PartialEq, Eq, Structural)]
pub enum IdField {
    /// The 8-bit universe field.
    Universe,
    /// The 4-bit account-type field.
    AccountType,
    /// The 20-bit instance field.
    Instance,
    /// The 31-bit account number field.
    Account,
    /// The 1-bit authentication-server flag.
    AuthenticationServer,
}

/// Everything that can go wrong while parsing, converting or re-encoding an
/// identifier. Every failure carries the offending raw value or text.
#[derive(Debug, Clone, PartialEq, Eq)]
pub enum Error {
    /// A numeric universe code outside `0..=5`.
    InvalidUniverse(u64),
    /// A numeric account-type code outside `0..=10`.
    InvalidAccountType(u64),
    /// A character that names no account type.
    InvalidAccountTypeChar(char),
    /// Text that should name an account type but is not a single character.
    InvalidAccountTypeText(String),
    /// Text that matches none of the identifier formats.
    InvalidSteamId(String),
    /// A field value too wide for its slot in the packed layout.
    FieldOutOfRange(IdField, u64),
    /// A decimal number that does not fit the required integer width.
    NumericParseFailure,
}

} // verus!
