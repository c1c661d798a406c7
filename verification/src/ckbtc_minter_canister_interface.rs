//! The values that the minting service of the wrapped Bitcoin asset takes and returns.

use crate::principal::PrincipalId;
use vstd::prelude::*;

verus! {

#[derive(Debug, Clone, PartialEq, Eq)]
pub enum BtcNetwork {
    Mainnet,
    Regtest,
    Testnet,
}

#[derive(Debug, Clone, PartialEq, Eq)]
pub struct EstimateWithdrawalFeeArg {
    pub amount: Option<u64>,
}

#[derive(Debug, Clone, PartialEq, Eq)]
pub struct EstimateWithdrawalFeeRet {
    pub minter_fee: u64,
    pub bitcoin_fee: u64,
}

#[derive(Debug, Clone, PartialEq, Eq)]
pub struct GetBtcAddressArg {
    pub owner: Option<PrincipalId>,
    pub subaccount: Option<Vec<u8>>,
}

#[derive(Debug, Clone, PartialEq, Eq)]
pub enum CanisterStatusType {
    Stopped,
    Stopping,
    Running,
}

#[derive(Debug, Clone, PartialEq, Eq)]
pub enum LogVisibility {
    Controllers,
    Public,
}

#[derive(Debug, Clone, PartialEq, Eq)]
pub struct GetEventsArg {
    pub start: u64,
    pub length: u64,
}

#[derive(Debug, Clone, PartialEq, Eq)]
pub struct UtxoOutpoint {
    pub txid: Vec<u8>,
    pub vout: u32,
}

#[derive(Debug, Clone, PartialEq, Eq)]
pub struct Utxo {
    pub height: u32,
    pub value: u64,
    pub outpoint: UtxoOutpoint,
}

#[derive(Debug, Clone, PartialEq, Eq)]
pub struct EventSentTransactionChangeOutputInner {
    pub value: u64,
    pub vout: u32,
}

#[derive(Debug, Clone, PartialEq, Eq)]
pub enum SuspendedReason {
    ValueTooSmall,
    Quarantined,
}

#[derive(Debug, Clone, PartialEq, Eq)]
pub struct EventReplacedTransactionChangeOutput {
    pub value: u64,
    pub vout: u32,
}

#[derive(Debug, Clone, PartialEq, Eq)]
pub struct RetrieveBtcArgs {
    pub address: String,
    pub amount: u64,
}

#[derive(Debug, Clone, PartialEq, Eq)]
pub struct RetrieveBtcOk {
    pub block_index: u64,
}

#[derive(Debug, Clone, PartialEq, Eq)]
pub enum RetrieveBtcError {
    MalformedAddress(String),
    GenericError {
        error_message: String,
        error_code: u64,
    },
    TemporarilyUnavailable(String),
    AlreadyProcessing,
    AmountTooLow(u64),
    InsufficientFunds {
        balance: u64,
    },
}

#[derive(Debug, Clone, PartialEq, Eq)]
pub enum RetrieveBtcRet {
    Success(RetrieveBtcOk),
    Failure(RetrieveBtcError),
}

#[derive(Debug, Clone, PartialEq, Eq)]
pub struct RetrieveBtcStatusArg {
    pub block_index: u64,
}

#[derive(Debug, Clone, PartialEq, Eq)]
pub struct RetrieveBtcStatusV2Arg {
    pub block_index: u64,
}

#[derive(Debug, Clone, PartialEq, Eq)]
pub enum RetrieveBtcWithApprovalError {
    MalformedAddress(String),
    GenericError {
        error_message: String,
        error_code: u64,
    },
    TemporarilyUnavailable(String),
    InsufficientAllowance {
        allowance: u64,
    },
    AlreadyProcessing,
    AmountTooLow(u64),
    InsufficientFunds {
        balance: u64,
    },
}

#[derive(Debug, Clone, PartialEq, Eq)]
pub enum RetrieveBtcWithApprovalRet {
    Success(RetrieveBtcOk),
    Failure(RetrieveBtcWithApprovalError),
}

#[derive(Debug, Clone, PartialEq, Eq)]
pub struct UpdateBalanceArg {
    pub owner: Option<PrincipalId>,
    pub subaccount: Option<Vec<u8>>,
}

#[derive(Debug, Clone, PartialEq, Eq)]
pub enum UtxoStatus {
    ValueTooSmall(Utxo),
    Tainted(Utxo),
    Minted {
        minted_amount: u64,
        block_index: u64,
        utxo: Utxo,
    },
    Checked(Utxo),
}

#[derive(Debug, Clone, PartialEq, Eq)]
pub struct SuspendedUtxo {
    pub utxo: Utxo,
    pub earliest_retry: u64,
    pub reason: SuspendedReason,
}

#[derive(Debug, Clone, PartialEq, Eq)]
pub struct PendingUtxoOutpoint {
    pub txid: Vec<u8>,
    pub vout: u32,
}

#[derive(Debug, Clone, PartialEq, Eq)]
pub struct PendingUtxo {
    pub confirmations: u32,
    pub value: u64,
    pub outpoint: PendingUtxoOutpoint,
}

#[derive(Debug, Clone, PartialEq, Eq)]
pub enum UpdateBalanceError {
    GenericError {
        error_message: String,
        error_code: u64,
    },
    TemporarilyUnavailable(String),
    AlreadyProcessing,
    NoNewUtxos {
        suspended_utxos: Option<Vec<SuspendedUtxo>>,
        required_confirmations: u32,
        pending_utxos: Option<Vec<PendingUtxo>>,
        current_confirmations: Option<u32>,
    },
}

#[derive(Debug, Clone, PartialEq, Eq)]
pub enum UpdateBalanceRet {
    Success(Vec<UtxoStatus>),
    Failure(UpdateBalanceError),
}

} // verus!
