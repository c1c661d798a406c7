//! The arguments and results of the token standard's ledger calls.

use crate::principal::PrincipalId;
use crate::text::{debug_quoted, decimal, decimal_string, quote_debug};
use vstd::prelude::*;
use vstd::string::StringExecFns;

verus! {

/// An account on a ledger: an owner and, optionally, one of its subaccounts.
#[derive(Debug, Clone, PartialEq, Eq)]
pub struct Account {
    pub owner: PrincipalId,
    pub subaccount: Option<Vec<u8>>,
}

impl Account {
    /// Whether this is the default account of `owner`.
    pub open spec fn is_default_of(&self, owner: PrincipalId) -> bool {
        self.owner == owner && self.subaccount is None
    }

    /// Whether this is the subaccount of `owner` that `bytes` name.
    pub open spec fn is_subaccount_of(&self, owner: PrincipalId, bytes: Seq<u8>) -> bool {
        &&& self.owner == owner
        &&& self.subaccount matches Some(s)
        &&& s@ == bytes
    }

    /// The default account of `owner`.
    pub fn default_of(owner: PrincipalId) -> (account: Account)
        ensures
            account.is_default_of(owner),
    {
        Account { owner, subaccount: None }
    }
}

/// The arguments of a transfer out of the caller's own account.
#[derive(Debug, Clone, PartialEq, Eq)]
pub struct TransferArg {
    pub to: Account,
    pub fee: Option<u128>,
    pub memo: Option<Vec<u8>>,
    pub from_subaccount: Option<Vec<u8>>,
    pub created_at_time: Option<u64>,
    pub amount: u128,
}

/// Why a ledger refused a transfer.
#[derive(Debug, Clone, PartialEq, Eq)]
pub enum TransferErrorIcrc1 {
    GenericError { message: String, error_code: u128 },
    TemporarilyUnavailable,
    BadBurn { min_burn_amount: u128 },
    Duplicate { duplicate_of: u128 },
    BadFee { expected_fee: u128 },
    CreatedInFuture { ledger_time: u64 },
    TooOld,
    InsufficientFunds { balance: u128 },
}

/// What an owner lets a spender draw, and until when.
#[derive(Debug, Clone, Copy, PartialEq, Eq)]
pub struct Allowance {
    pub allowance: u128,
    pub expires_at: Option<u64>,
}

/// The arguments of an allowance query.
#[derive(Debug, Clone, PartialEq, Eq)]
pub struct AllowanceArgs {
    pub account: Account,
    pub spender: Account,
}

/// The arguments of a transfer that a spender makes out of another account.
#[derive(Debug, Clone, PartialEq, Eq)]
pub struct TransferFromArg {
    pub spender_subaccount: Option<Vec<u8>>,
    pub from: Account,
    pub to: Account,
    pub amount: u128,
    pub fee: Option<u128>,
    pub memo: Option<Vec<u8>>,
    pub created_at_time: Option<u64>,
}

/// Why a ledger refused a transfer out of another account.
#[derive(Debug, Clone, PartialEq, Eq)]
pub enum TransferFromError {
    BadFee { expected_fee: u128 },
    BadBurn { min_burn_amount: u128 },
    InsufficientFunds { balance: u128 },
    InsufficientAllowance { allowance: u128 },
    TooOld,
    CreatedInFuture { ledger_time: u64 },
    Duplicate { duplicate_of: u128 },
    TemporarilyUnavailable,
    GenericError { error_code: u128, message: String },
}

/// The debug form of a variant with one named field.
pub open spec fn debug_variant(variant: Seq<char>, field: Seq<char>, value: Seq<char>) -> Seq<
    char,
> {
    variant + " { "@ + field + ": "@ + value + " }"@
}

/// The debug form of a variant with two named fields.
pub open spec fn debug_variant2(
    variant: Seq<char>,
    field: Seq<char>,
    value: Seq<char>,
    field2: Seq<char>,
    value2: Seq<char>,
) -> Seq<char> {
    variant + " { "@ + field + ": "@ + value + ", "@ + field2 + ": "@ + value2 + " }"@
}

/// Writes the debug form of a variant with one named field.
pub fn write_debug_variant(variant: &str, field: &str, value: &str) -> (text: String)
    ensures
        text@ == debug_variant(variant@, field@, value@),
{
    String::from_str(variant).concat(" { ").concat(field).concat(": ").concat(value).concat(" }")
}

/// Writes the debug form of a variant with two named fields.
pub fn write_debug_variant2(
    variant: &str,
    field: &str,
    value: &str,
    field2: &str,
    value2: &str,
) -> (text: String)
    ensures
        text@ == debug_variant2(variant@, field@, value@, field2@, value2@),
{
    String::from_str(variant).concat(" { ").concat(field).concat(": ").concat(value).concat(
        ", ",
    ).concat(field2).concat(": ").concat(value2).concat(" }")
}

impl TransferFromError {
    /// The debug form of the error: the variant's name and its fields.
    pub open spec fn debug_text(&self) -> Seq<char> {
        match self {
            TransferFromError::BadFee { expected_fee } => debug_variant(
                "BadFee"@,
                "expected_fee"@,
                decimal(*expected_fee as nat),
            ),
            TransferFromError::BadBurn { min_burn_amount } => debug_variant(
                "BadBurn"@,
                "min_burn_amount"@,
                decimal(*min_burn_amount as nat),
            ),
            TransferFromError::InsufficientFunds { balance } => debug_variant(
                "InsufficientFunds"@,
                "balance"@,
                decimal(*balance as nat),
            ),
            TransferFromError::InsufficientAllowance { allowance } => debug_variant(
                "InsufficientAllowance"@,
                "allowance"@,
                decimal(*allowance as nat),
            ),
            TransferFromError::TooOld => "TooOld"@,
            TransferFromError::CreatedInFuture { ledger_time } => debug_variant(
                "CreatedInFuture"@,
                "ledger_time"@,
                decimal(*ledger_time as nat),
            ),
            TransferFromError::Duplicate { duplicate_of } => debug_variant(
                "Duplicate"@,
                "duplicate_of"@,
                decimal(*duplicate_of as nat),
            ),
            TransferFromError::TemporarilyUnavailable => "TemporarilyUnavailable"@,
            TransferFromError::GenericError { error_code, message } => debug_variant2(
                "GenericError"@,
                "error_code"@,
                decimal(*error_code as nat),
                "message"@,
                debug_quoted(message@),
            ),
        }
    }

    /// Writes the debug form of the error.
    pub fn debug_string(&self) -> (text: String)
        ensures
            text@ == self.debug_text(),
    {
        match self {
            TransferFromError::BadFee { expected_fee } => write_debug_variant(
                "BadFee",
                "expected_fee",
                decimal_string(*expected_fee).as_str(),
            ),
            TransferFromError::BadBurn { min_burn_amount } => write_debug_variant(
                "BadBurn",
                "min_burn_amount",
                decimal_string(*min_burn_amount).as_str(),
            ),
            TransferFromError::InsufficientFunds { balance } => write_debug_variant(
                "InsufficientFunds",
                "balance",
                decimal_string(*balance).as_str(),
            ),
            TransferFromError::InsufficientAllowance { allowance } => write_debug_variant(
                "InsufficientAllowance",
                "allowance",
                decimal_string(*allowance).as_str(),
            ),
            TransferFromError::TooOld => String::from_str("TooOld"),
            TransferFromError::CreatedInFuture { ledger_time } => write_debug_variant(
                "CreatedInFuture",
                "ledger_time",
                decimal_string(*ledger_time as u128).as_str(),
            ),
            TransferFromError::Duplicate { duplicate_of } => write_debug_variant(
                "Duplicate",
                "duplicate_of",
                decimal_string(*duplicate_of).as_str(),
            ),
            TransferFromError::TemporarilyUnavailable => String::from_str("TemporarilyUnavailable"),
            TransferFromError::GenericError { error_code, message } => write_debug_variant2(
                "GenericError",
                "error_code",
                decimal_string(*error_code).as_str(),
                "message",
                quote_debug(message.as_str()).as_str(),
            ),
        }
    }
}

impl TransferErrorIcrc1 {
    /// The debug form of the error: the variant's name and its fields.
    pub open spec fn debug_text(&self) -> Seq<char> {
        match self {
            TransferErrorIcrc1::GenericError { message, error_code } => debug_variant2(
                "GenericError"@,
                "message"@,
                debug_quoted(message@),
                "error_code"@,
                decimal(*error_code as nat),
            ),
            TransferErrorIcrc1::TemporarilyUnavailable => "TemporarilyUnavailable"@,
            TransferErrorIcrc1::BadBurn { min_burn_amount } => debug_variant(
                "BadBurn"@,
                "min_burn_amount"@,
                decimal(*min_burn_amount as nat),
            ),
            TransferErrorIcrc1::Duplicate { duplicate_of } => debug_variant(
                "Duplicate"@,
                "duplicate_of"@,
                decimal(*duplicate_of as nat),
            ),
            TransferErrorIcrc1::BadFee { expected_fee } => debug_variant(
                "BadFee"@,
                "expected_fee"@,
                decimal(*expected_fee as nat),
            ),
            TransferErrorIcrc1::CreatedInFuture { ledger_time } => debug_variant(
                "CreatedInFuture"@,
                "ledger_time"@,
                decimal(*ledger_time as nat),
            ),
            TransferErrorIcrc1::TooOld => "TooOld"@,
            TransferErrorIcrc1::InsufficientFunds { balance } => debug_variant(
                "InsufficientFunds"@,
                "balance"@,
                decimal(*balance as nat),
            ),
        }
    }

    /// Writes the debug form of the error.
    pub fn debug_string(&self) -> (text: String)
        ensures
            text@ == self.debug_text(),
    {
        match self {
            TransferErrorIcrc1::GenericError { message, error_code } => write_debug_variant2(
                "GenericError",
                "message",
                quote_debug(message.as_str()).as_str(),
                "error_code",
                decimal_string(*error_code).as_str(),
            ),
            TransferErrorIcrc1::TemporarilyUnavailable => String::from_str(
                "TemporarilyUnavailable",
            ),
            TransferErrorIcrc1::BadBurn { min_burn_amount } => write_debug_variant(
                "BadBurn",
                "min_burn_amount",
                decimal_string(*min_burn_amount).as_str(),
            ),
            TransferErrorIcrc1::Duplicate { duplicate_of } => write_debug_variant(
                "Duplicate",
                "duplicate_of",
                decimal_string(*duplicate_of).as_str(),
            ),
            TransferErrorIcrc1::BadFee { expected_fee } => write_debug_variant(
                "BadFee",
                "expected_fee",
                decimal_string(*expected_fee).as_str(),
            ),
            TransferErrorIcrc1::CreatedInFuture { ledger_time } => write_debug_variant(
                "CreatedInFuture",
                "ledger_time",
                decimal_string(*ledger_time as u128).as_str(),
            ),
            TransferErrorIcrc1::TooOld => String::from_str("TooOld"),
            TransferErrorIcrc1::InsufficientFunds { balance } => write_debug_variant(
                "InsufficientFunds",
                "balance",
                decimal_string(*balance).as_str(),
            ),
        }
    }
}

} // verus!
