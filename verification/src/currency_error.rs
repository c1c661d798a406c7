//! The errors that operations on currencies report.

use vstd::prelude::*;
use vstd::string::StringExecFns;

verus! {

/// What went wrong in an operation on a currency.
#[derive(Debug, Clone, PartialEq, Eq)]
pub enum CurrencyError {
    LockError,
    SerializationError(String),
    BlockQueryFailed(String),
    BlockNotFound,
    NoBlockNumberProvided,
    NoTransactionSignatureProvided,
    InvalidTransactionDetails,
    TransactionNotFound,
    InvalidTransactionType,
    DuplicateTransaction,
    LedgerError(String),
    InsufficientFunds,
    QueryError(String),
    GetBlockError(String),
    CanisterCallFailed(String),
    NoDepositAddress,
    WalletNotSet,
    WithdrawalFailed(String),
    InsufficientAllowance,
    AllowanceCheckFailed(String),
    TransferFromFailed(String),
    OperationNotSupported(String),
}

impl CurrencyError {
    /// The text that the error carries; empty for an error that carries none.
    pub open spec fn detail(&self) -> Seq<char> {
        match self {
            CurrencyError::SerializationError(s) => s@,
            CurrencyError::BlockQueryFailed(s) => s@,
            CurrencyError::LedgerError(s) => s@,
            CurrencyError::QueryError(s) => s@,
            CurrencyError::GetBlockError(s) => s@,
            CurrencyError::CanisterCallFailed(s) => s@,
            CurrencyError::WithdrawalFailed(s) => s@,
            CurrencyError::AllowanceCheckFailed(s) => s@,
            CurrencyError::TransferFromFailed(s) => s@,
            CurrencyError::OperationNotSupported(s) => s@,
            _ => Seq::empty(),
        }
    }

    /// The message that describes the error to a reader.
    pub open spec fn message(&self) -> Seq<char> {
        match self {
            CurrencyError::LockError => "failed to acquire lock"@,
            CurrencyError::SerializationError(s) => "serialization error: "@ + s@,
            CurrencyError::BlockQueryFailed(s) => "Block query failed: "@ + s@,
            CurrencyError::BlockNotFound => "Block not found"@,
            CurrencyError::NoBlockNumberProvided => "No block number provided"@,
            CurrencyError::NoTransactionSignatureProvided => "No transaction signature provided"@,
            CurrencyError::InvalidTransactionDetails => "Invalid transaction details"@,
            CurrencyError::TransactionNotFound => "Transaction not found"@,
            CurrencyError::InvalidTransactionType => "Invalid transaction type"@,
            CurrencyError::DuplicateTransaction => "Duplicate transaction"@,
            CurrencyError::LedgerError(s) => "Ledger error: "@ + s@,
            CurrencyError::InsufficientFunds => "Insufficient funds"@,
            CurrencyError::QueryError(s) => "Query error: "@ + s@,
            CurrencyError::GetBlockError(s) => "Get block error: "@ + s@,
            CurrencyError::CanisterCallFailed(_) => "Canister call failed"@,
            CurrencyError::NoDepositAddress => "No deposit address found"@,
            CurrencyError::WalletNotSet => "Wallet not set"@,
            CurrencyError::WithdrawalFailed(s) => "Withdraw failed: "@ + s@,
            CurrencyError::InsufficientAllowance => "Insufficient allowance"@,
            CurrencyError::AllowanceCheckFailed(_) => "Failed to check allowance"@,
            CurrencyError::TransferFromFailed(_) => "Failed to transfer from"@,
            CurrencyError::OperationNotSupported(s) => "Operation not supported: "@ + s@,
        }
    }

    /// Writes the message that describes the error.
    pub fn to_string(&self) -> (text: String)
        ensures
            text@ == self.message(),
    {
        match self {
            CurrencyError::LockError => String::from_str("failed to acquire lock"),
            CurrencyError::SerializationError(s) => String::from_str("serialization error: ").concat(
                s.as_str(),
            ),
            CurrencyError::BlockQueryFailed(s) => String::from_str("Block query failed: ").concat(
                s.as_str(),
            ),
            CurrencyError::BlockNotFound => String::from_str("Block not found"),
            CurrencyError::NoBlockNumberProvided => String::from_str("No block number provided"),
            CurrencyError::NoTransactionSignatureProvided => String::from_str(
                "No transaction signature provided",
            ),
            CurrencyError::InvalidTransactionDetails => String::from_str(
                "Invalid transaction details",
            ),
            CurrencyError::TransactionNotFound => String::from_str("Transaction not found"),
            CurrencyError::InvalidTransactionType => String::from_str("Invalid transaction type"),
            CurrencyError::DuplicateTransaction => String::from_str("Duplicate transaction"),
            CurrencyError::LedgerError(s) => String::from_str("Ledger error: ").concat(s.as_str()),
            CurrencyError::InsufficientFunds => String::from_str("Insufficient funds"),
            CurrencyError::QueryError(s) => String::from_str("Query error: ").concat(s.as_str()),
            CurrencyError::GetBlockError(s) => String::from_str("Get block error: ").concat(
                s.as_str(),
            ),
            CurrencyError::CanisterCallFailed(_) => String::from_str("Canister call failed"),
            CurrencyError::NoDepositAddress => String::from_str("No deposit address found"),
            CurrencyError::WalletNotSet => String::from_str("Wallet not set"),
            CurrencyError::WithdrawalFailed(s) => String::from_str("Withdraw failed: ").concat(
                s.as_str(),
            ),
            CurrencyError::InsufficientAllowance => String::from_str("Insufficient allowance"),
            CurrencyError::AllowanceCheckFailed(_) => String::from_str("Failed to check allowance"),
            CurrencyError::TransferFromFailed(_) => String::from_str("Failed to transfer from"),
            CurrencyError::OperationNotSupported(s) => String::from_str(
                "Operation not supported: ",
            ).concat(s.as_str()),
        }
    }
}

} // verus!
