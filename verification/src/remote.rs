//! The boundary to the remote services.
//!
//! An operation that needs a remote service does not call it. It is a step
//! function: given where the operation stands and what has just happened,
//! it says what to do next, which is either one remote call or the
//! operation's result. The host performs the call and hands the reply
//! back as the next event.

use crate::big_nat::BigNat;
use crate::ckbtc_minter_canister_interface::{GetBtcAddressArg, UpdateBalanceArg, UpdateBalanceRet};
use crate::cketh_minter_canister_interface::{
    GetEventsArg, GetEventsRet, MinterInfo, WithdrawErc20Arg, WithdrawErc20Ret, WithdrawalDetail,
    WithdrawalSearchParameter,
};
use crate::ckusdc_canister_interface::{GetBlocksRequest, Transaction};
use crate::currency_error::CurrencyError;
use crate::icrc1_types::{
    Account, Allowance, AllowanceArgs, TransferArg, TransferErrorIcrc1, TransferFromArg,
    TransferFromError,
};
use crate::principal::PrincipalId;
use crate::types::canister_wallets::icrc1_token_wallet::StandardRecord;
use crate::utils::{AccountIdentifier, Subaccount};
use vstd::prelude::*;
use vstd::string::StringExecFns;

verus! {

/// What the host knows at the moment of a step: who the custody is, and what
/// time it is, in nanoseconds since the epoch.
#[derive(Debug, Clone, Copy, PartialEq, Eq)]
pub struct CallContext {
    pub canister_id: PrincipalId,
    pub now: u64,
}

/// The arguments of a transfer on the native ledger.
#[derive(Debug, Clone, Copy, PartialEq, Eq)]
pub struct LedgerTransferArgs {
    pub memo: u64,
    pub amount_e8s: u64,
    pub fee_e8s: u64,
    pub from_subaccount: Option<Subaccount>,
    pub to: AccountIdentifier,
    pub created_at_time: Option<u64>,
}

/// One call to a remote service: the service's address, the method and its
/// arguments.
#[derive(Debug, Clone, PartialEq, Eq)]
pub enum RemoteCall {
    /// `icrc2_allowance` on a ledger.
    Icrc2Allowance { ledger: PrincipalId, args: AllowanceArgs },
    /// `icrc2_transfer_from` on a ledger.
    Icrc2TransferFrom { ledger: PrincipalId, args: TransferFromArg },
    /// `icrc1_transfer` on a ledger.
    Icrc1Transfer { ledger: PrincipalId, args: TransferArg },
    /// `icrc1_balance_of` on a ledger, for an account.
    Icrc1BalanceOf { ledger: PrincipalId, account: Account },
    /// `icrc1_balance_of` on a ledger, for an owner and a subaccount.
    BalanceOfOwner { ledger: PrincipalId, owner: PrincipalId, subaccount: Option<Vec<u8>> },
    /// `transfer` on the native ledger.
    LedgerTransfer { ledger: PrincipalId, args: LedgerTransferArgs },
    /// `update_balance` on the Bitcoin minter.
    UpdateBalance { minter: PrincipalId, args: UpdateBalanceArg },
    /// `get_btc_address` on the Bitcoin minter.
    GetBtcAddress { minter: PrincipalId, args: GetBtcAddressArg },
    /// `smart_contract_address` on the Ethereum minter.
    SmartContractAddress { minter: PrincipalId },
    /// `get_minter_info` on the Ethereum minter.
    GetMinterInfo { minter: PrincipalId },
    /// `get_events` on the Ethereum minter.
    GetEvents { minter: PrincipalId, args: GetEventsArg },
    /// `withdraw_erc20` on the Ethereum minter.
    WithdrawErc20 { minter: PrincipalId, args: WithdrawErc20Arg },
    /// `withdrawal_status` on the Ethereum minter.
    WithdrawalStatus { minter: PrincipalId, parameter: WithdrawalSearchParameter },
    /// `icrc1_name` on a ledger.
    Icrc1Name { ledger: PrincipalId },
    /// `icrc1_symbol` on a ledger.
    Icrc1Symbol { ledger: PrincipalId },
    /// `icrc1_decimals` on a ledger.
    Icrc1Decimals { ledger: PrincipalId },
    /// `icrc1_fee` on a ledger.
    Icrc1Fee { ledger: PrincipalId },
    /// `icrc1_supported_standards` on a ledger.
    Icrc1SupportedStandards { ledger: PrincipalId },
    /// `get_transactions` on a ledger.
    GetTransactions { ledger: PrincipalId, args: GetBlocksRequest },
}

/// What has just happened: the operation was started, or the call that the
/// last step asked for came back.
#[derive(Debug, PartialEq, Eq)]
pub enum Event {
    /// The operation begins.
    Started,
    /// The call did not reach the service, or the service rejected it. The
    /// text describes the rejection.
    Rejected(String),
    /// The reply to an allowance query.
    Allowance(Allowance),
    /// The reply to a transfer out of another account.
    TransferFrom(Result<u128, TransferFromError>),
    /// The reply to a transfer.
    Transfer(Result<u128, TransferErrorIcrc1>),
    /// The reply to a transfer on the native ledger: the block index, or the
    /// ledger's error in its debug form.
    LedgerTransfer(Result<u64, String>),
    /// A natural number: a balance, a fee.
    Number(BigNat),
    /// A balance that the host has read as 128 bits.
    Balance(u128),
    /// The reply to a balance refresh on the Bitcoin minter.
    BalanceRefreshed(UpdateBalanceRet),
    /// A text: an address, a name, a symbol.
    Text(String),
    /// A text that may be missing.
    OptionalText(Option<String>),
    /// The reply to `get_minter_info`.
    MinterInfo(MinterInfo),
    /// The reply to `get_events`.
    Events(GetEventsRet),
    /// The reply to `withdraw_erc20`.
    WithdrawErc20(WithdrawErc20Ret),
    /// The reply to `withdrawal_status`.
    WithdrawalStatus(Vec<WithdrawalDetail>),
    /// The reply to `icrc1_decimals`.
    Decimals(u8),
    /// The reply to `icrc1_supported_standards`.
    Standards(Vec<StandardRecord>),
    /// The transactions that `get_transactions` returned.
    Transactions(Vec<Transaction>),
}

/// What to do next: make one remote call, or finish with a result.
#[derive(Debug, PartialEq, Eq)]
pub enum Step<T> {
    Call(RemoteCall),
    Done(Result<T, CurrencyError>),
}

/// Where an operation of a single remote call stands.
#[derive(Debug, Clone, Copy, PartialEq, Eq, Structural)]
pub enum CallStage {
    /// Nothing was asked yet.
    Start,
    /// The call was asked for; its reply is awaited.
    Awaiting,
    /// The operation has given its result.
    Finished,
}

/// The text of the error that answers an event that the operation did not
/// await.
pub open spec fn unexpected_event_text() -> Seq<char> {
    "unexpected event"@
}

/// Whether `step` answers an event that the operation did not await.
pub open spec fn is_unexpected<T>(step: Step<T>) -> bool {
    &&& step matches Step::Done(Err(CurrencyError::CanisterCallFailed(text)))
    &&& text@ == unexpected_event_text()
}

/// The error that answers an event that the operation did not await.
pub fn unexpected_event() -> (error: CurrencyError)
    ensures
        error is CanisterCallFailed,
        error.detail() == unexpected_event_text(),
{
    CurrencyError::CanisterCallFailed(String::from_str("unexpected event"))
}

} // verus!
