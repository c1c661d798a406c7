//! The values that the minting service of the wrapped Ethereum assets takes and returns.

use crate::big_nat::BigNat;
use crate::principal::PrincipalId;
use vstd::prelude::*;

verus! {

#[derive(Debug, Clone, PartialEq, Eq)]
pub enum BlockTag {
    Safe,
    Finalized,
    Latest,
}

#[derive(Debug, Clone, PartialEq, Eq)]
pub struct UpgradeArg {
    pub deposit_with_subaccount_helper_contract_address: Option<String>,
    pub next_transaction_nonce: Option<BigNat>,
    pub evm_rpc_id: Option<PrincipalId>,
    pub ledger_suite_orchestrator_id: Option<PrincipalId>,
    pub erc20_helper_contract_address: Option<String>,
    pub last_erc20_scraped_block_number: Option<BigNat>,
    pub ethereum_contract_address: Option<String>,
    pub minimum_withdrawal_amount: Option<BigNat>,
    pub last_deposit_with_subaccount_scraped_block_number: Option<BigNat>,
    pub ethereum_block_height: Option<BlockTag>,
}

#[derive(Debug, Clone, PartialEq, Eq)]
pub enum EthereumNetwork {
    Mainnet,
    Sepolia,
}

#[derive(Debug, Clone, PartialEq, Eq)]
pub struct InitArg {
    pub ethereum_network: EthereumNetwork,
    pub last_scraped_block_number: BigNat,
    pub ecdsa_key_name: String,
    pub next_transaction_nonce: BigNat,
    pub ledger_id: PrincipalId,
    pub ethereum_contract_address: Option<String>,
    pub minimum_withdrawal_amount: BigNat,
    pub ethereum_block_height: BlockTag,
}

#[derive(Debug, Clone, PartialEq, Eq)]
pub enum CanisterStatusType {
    Stopped,
    Stopping,
    Running,
}

#[derive(Debug, Clone, PartialEq, Eq)]
pub enum LogVisibility {
    Controllers,
    Public,
}

#[derive(Debug, Clone, PartialEq, Eq)]
pub struct GetEventsArg {
    pub start: u64,
    pub length: u64,
}

#[derive(Debug, Clone, PartialEq, Eq)]
pub struct EventSource {
    pub transaction_hash: String,
    pub log_index: BigNat,
}

#[derive(Debug, Clone, PartialEq, Eq)]
pub struct UnsignedTransactionAccessListItem {
    pub storage_keys: Vec<Vec<u8>>,
    pub address: String,
}

#[derive(Debug, Clone, PartialEq, Eq)]
pub struct UnsignedTransaction {
    pub destination: String,
    pub value: BigNat,
    pub max_priority_fee_per_gas: BigNat,
    pub data: Vec<u8>,
    pub max_fee_per_gas: BigNat,
    pub chain_id: BigNat,
    pub nonce: BigNat,
    pub gas_limit: BigNat,
    pub access_list: Vec<UnsignedTransactionAccessListItem>,
}

#[derive(Debug, Clone, PartialEq, Eq)]
pub enum ReimbursementIndex {
    CkErc20 {
        cketh_ledger_burn_index: BigNat,
        ledger_id: PrincipalId,
        ckerc20_ledger_burn_index: BigNat,
    },
    CkEth {
        ledger_burn_index: BigNat,
    },
}

#[derive(Debug, Clone, PartialEq, Eq)]
pub enum TransactionReceiptStatus {
    Success,
    Failure,
}

#[derive(Debug, Clone, PartialEq, Eq)]
pub struct TransactionReceipt {
    pub effective_gas_price: BigNat,
    pub status: TransactionReceiptStatus,
    pub transaction_hash: String,
    pub block_hash: String,
    pub block_number: BigNat,
    pub gas_used: BigNat,
}

#[derive(Debug, Clone, PartialEq, Eq)]
pub enum EventPayload {
    SkippedBlock {
        block_number: BigNat,
        contract_address: Option<String>,
    },
    AcceptedErc20Deposit {
        principal: PrincipalId,
        transaction_hash: String,
        value: BigNat,
        log_index: BigNat,
        subaccount: Option<Vec<u8>>,
        block_number: BigNat,
        erc20_contract_address: String,
        from_address: String,
    },
    SignedTransaction {
        raw_transaction: String,
        withdrawal_id: BigNat,
    },
    Upgrade(UpgradeArg),
    Init(InitArg),
    AddedCkErc20Token {
        ckerc20_ledger_id: PrincipalId,
        chain_id: BigNat,
        address: String,
        ckerc20_token_symbol: String,
    },
    SyncedDepositWithSubaccountToBlock {
        block_number: BigNat,
    },
    QuarantinedDeposit {
        event_source: EventSource,
    },
    SyncedToBlock {
        block_number: BigNat,
    },
    AcceptedDeposit {
        principal: PrincipalId,
        transaction_hash: String,
        value: BigNat,
        log_index: BigNat,
        subaccount: Option<Vec<u8>>,
        block_number: BigNat,
        from_address: String,
    },
    ReplacedTransaction {
        withdrawal_id: BigNat,
        transaction: UnsignedTransaction,
    },
    QuarantinedReimbursement {
        index: ReimbursementIndex,
    },
    MintedCkEth {
        event_source: EventSource,
        mint_block_index: BigNat,
    },
    ReimbursedEthWithdrawal {
        transaction_hash: Option<String>,
        withdrawal_id: BigNat,
        reimbursed_amount: BigNat,
        reimbursed_in_block: BigNat,
    },
    FailedErc20WithdrawalRequest {
        to: PrincipalId,
        withdrawal_id: BigNat,
        reimbursed_amount: BigNat,
        to_subaccount: Option<Vec<u8>>,
    },
    ReimbursedErc20Withdrawal {
        burn_in_block: BigNat,
        transaction_hash: Option<String>,
        withdrawal_id: BigNat,
        reimbursed_amount: BigNat,
        ledger_id: PrincipalId,
        reimbursed_in_block: BigNat,
    },
    MintedCkErc20 {
        event_source: EventSource,
        erc20_contract_address: String,
        mint_block_index: BigNat,
        ckerc20_token_symbol: String,
    },
    CreatedTransaction {
        withdrawal_id: BigNat,
        transaction: UnsignedTransaction,
    },
    InvalidDeposit {
        event_source: EventSource,
        reason: String,
    },
    SyncedErc20ToBlock {
        block_number: BigNat,
    },
    AcceptedErc20WithdrawalRequest {
        cketh_ledger_burn_index: BigNat,
        destination: String,
        ckerc20_ledger_id: PrincipalId,
        withdrawal_amount: BigNat,
        from: PrincipalId,
        created_at: u64,
        from_subaccount: Option<Vec<u8>>,
        erc20_contract_address: String,
        ckerc20_ledger_burn_index: BigNat,
        max_transaction_fee: BigNat,
    },
    AcceptedEthWithdrawalRequest {
        ledger_burn_index: BigNat,
        destination: String,
        withdrawal_amount: BigNat,
        from: PrincipalId,
        created_at: Option<u64>,
        from_subaccount: Option<Vec<u8>>,
    },
    FinalizedTransaction {
        withdrawal_id: BigNat,
        transaction_receipt: TransactionReceipt,
    },
}

#[derive(Debug, Clone, PartialEq, Eq)]
pub struct Event {
    pub timestamp: u64,
    pub payload: EventPayload,
}

#[derive(Debug, Clone, PartialEq, Eq)]
pub struct GetEventsRet {
    pub total_event_count: u64,
    pub events: Vec<Event>,
}

#[derive(Debug, Clone, PartialEq, Eq)]
pub struct CkErc20Token {
    pub erc20_contract_address: String,
    pub ledger_canister_id: PrincipalId,
    pub ckerc20_token_symbol: String,
}

#[derive(Debug, Clone, PartialEq, Eq)]
pub struct GasFeeEstimate {
    pub max_priority_fee_per_gas: BigNat,
    pub max_fee_per_gas: BigNat,
    pub timestamp: u64,
}

#[derive(Debug, Clone, PartialEq, Eq)]
pub struct MinterInfoErc20BalancesInnerItem {
    pub balance: BigNat,
    pub erc20_contract_address: String,
}

#[derive(Debug, Clone, PartialEq, Eq)]
pub struct MinterInfo {
    pub deposit_with_subaccount_helper_contract_address: Option<String>,
    pub eth_balance: Option<BigNat>,
    pub eth_helper_contract_address: Option<String>,
    pub last_observed_block_number: Option<BigNat>,
    pub evm_rpc_id: Option<PrincipalId>,
    pub erc20_helper_contract_address: Option<String>,
    pub last_erc20_scraped_block_number: Option<BigNat>,
    pub supported_ckerc20_tokens: Option<Vec<CkErc20Token>>,
    pub last_gas_fee_estimate: Option<GasFeeEstimate>,
    pub cketh_ledger_id: Option<PrincipalId>,
    pub smart_contract_address: Option<String>,
    pub last_eth_scraped_block_number: Option<BigNat>,
    pub minimum_withdrawal_amount: Option<BigNat>,
    pub erc20_balances: Option<Vec<MinterInfoErc20BalancesInnerItem>>,
    pub minter_address: Option<String>,
    pub last_deposit_with_subaccount_scraped_block_number: Option<BigNat>,
    pub ethereum_block_height: Option<BlockTag>,
}

#[derive(Debug, Clone, PartialEq, Eq)]
pub struct EthTransaction {
    pub transaction_hash: String,
}

#[derive(Debug, Clone, PartialEq, Eq)]
pub enum TxFinalizedStatus {
    Success {
        transaction_hash: String,
        effective_transaction_fee: Option<BigNat>,
    },
    Reimbursed {
        transaction_hash: String,
        reimbursed_amount: BigNat,
        reimbursed_in_block: BigNat,
    },
    PendingReimbursement(EthTransaction),
}

#[derive(Debug, Clone, PartialEq, Eq)]
pub struct WithdrawErc20Arg {
    pub ckerc20_ledger_id: PrincipalId,
    pub recipient: String,
    pub from_cketh_subaccount: Option<Vec<u8>>,
    pub from_ckerc20_subaccount: Option<Vec<u8>>,
    pub amount: BigNat,
}

#[derive(Debug, Clone, PartialEq, Eq)]
pub struct RetrieveErc20Request {
    pub ckerc20_block_index: BigNat,
    pub cketh_block_index: BigNat,
}

#[derive(Debug, Clone, PartialEq, Eq)]
pub enum LedgerError {
    TemporarilyUnavailable(String),
    InsufficientAllowance {
        token_symbol: String,
        ledger_id: PrincipalId,
        allowance: BigNat,
        failed_burn_amount: BigNat,
    },
    AmountTooLow {
        minimum_burn_amount: BigNat,
        token_symbol: String,
        ledger_id: PrincipalId,
        failed_burn_amount: BigNat,
    },
    InsufficientFunds {
        balance: BigNat,
        token_symbol: String,
        ledger_id: PrincipalId,
        failed_burn_amount: BigNat,
    },
}

#[derive(Debug, Clone, PartialEq, Eq)]
pub enum WithdrawErc20Error {
    TokenNotSupported {
        supported_tokens: Vec<CkErc20Token>,
    },
    TemporarilyUnavailable(String),
    CkErc20LedgerError {
        error: LedgerError,
        cketh_block_index: BigNat,
    },
    CkEthLedgerError {
        error: LedgerError,
    },
    RecipientAddressBlocked {
        address: String,
    },
}

#[derive(Debug, Clone, PartialEq, Eq)]
pub enum WithdrawErc20Ret {
    Success(RetrieveErc20Request),
    Failure(WithdrawErc20Error),
}

#[derive(Debug, Clone, PartialEq, Eq)]
pub struct Account {
    pub owner: PrincipalId,
    pub subaccount: Option<Vec<u8>>,
}

#[derive(Debug, Clone, PartialEq, Eq)]
pub enum WithdrawalSearchParameter {
    ByRecipient(String),
    BySenderAccount(Account),
    ByWithdrawalId(u64),
}

#[derive(Debug, Clone, PartialEq, Eq)]
pub enum WithdrawalStatus {
    TxFinalized(TxFinalizedStatus),
    TxSent(EthTransaction),
    TxCreated,
    Pending,
}

#[derive(Debug, Clone, PartialEq, Eq)]
pub struct WithdrawalDetail {
    pub status: WithdrawalStatus,
    pub token_symbol: String,
    pub withdrawal_amount: BigNat,
    pub withdrawal_id: u64,
    pub from: PrincipalId,
    pub from_subaccount: Option<Vec<u8>>,
    pub max_transaction_fee: Option<BigNat>,
    pub recipient_address: String,
}

} // verus!
