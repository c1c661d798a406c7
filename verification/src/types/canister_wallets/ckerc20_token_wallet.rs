//! The backends of the wrapped assets of the Ethereum minter.

use crate::big_nat::{grouped, BigNat};
use crate::cketh_minter_canister_interface::{
    CkErc20Token, Event as MinterEvent, EventPayload, GetEventsArg, LedgerError, TxFinalizedStatus,
    WithdrawErc20Arg, WithdrawErc20Error, WithdrawErc20Ret, WithdrawalSearchParameter, WithdrawalStatus,
};
use crate::currency_error::CurrencyError;
use crate::icrc1_types::{Account, Allowance};
use crate::principal::{principal_of, PrincipalId};
use crate::remote::{is_unexpected, unexpected_event, CallStage, Event, RemoteCall, Step};
use crate::text::{debug_quoted, decimal, quote_debug};
use crate::types::canister_wallet::{
    check_allowance_step, pulls, queries_allowance, transfer_from_step, AssetFamily,
    CanisterWallet, Terms, WalletTerms,
};
use crate::types::constants::{
    canister_bytes, canister_id, CKETH_MINTER_NUMBER, ETH_DECIMALS, ETH_LEDGER_NUMBER,
    USDC_DECIMALS, USDC_LEDGER_NUMBER, USDT_DECIMALS, USDT_LEDGER_NUMBER,
};
use crate::types::currency::{CKTokenConfig, CKTokenSymbol};
use crate::utils::{default_fee, default_fee_e8s};
use vstd::prelude::*;
use vstd::string::StringExecFns;

verus! {

/// How far a withdrawal to an Ethereum address has come.
#[derive(Debug, Clone, PartialEq, Eq)]
pub enum CKTokenWithdrawalStatus {
    Pending,
    TxCreated,
    TxSent { transaction_hash: String },
    TxFinalized { transaction_hash: String, effective_fee: Option<u64> },
    Failed(String),
}

/// The backend of one wrapped asset of the Ethereum minter.
#[derive(Debug, Clone, Copy, PartialEq, Eq)]
pub struct CKERC20TokenWallet {
    pub config: CKTokenConfig,
}

/// How often a scan for a mint asks the minter for its events, at most.
pub const MINT_SCAN_ATTEMPTS: u8 = 10;

/// How many of its latest events a scan for a mint asks the minter for.
pub const MINT_SCAN_WINDOW: u64 = 100;

/// Where a scan for a mint stands.
#[derive(Debug, Clone, Copy, PartialEq, Eq, Structural)]
pub enum MintScanStage {
    /// Nothing was asked yet.
    Start,
    /// The minter was asked for its events, for the `attempt`-th time.
    Awaiting { attempt: u8 },
    /// The scan has given its result.
    Finished,
}

impl CanisterWallet for CKERC20TokenWallet {
    open spec fn terms(&self) -> Terms {
        Terms {
            family: AssetFamily::Erc20,
            ledger: self.config.ledger_id,
            minter: Some(self.config.minter_id),
            tag: "CKERC20"@,
            asset_name: self.config.token_symbol.name(),
            pull_fee: default_fee() as u128,
            withdraw_fee: self.config.fee,
            supports_allowance: true,
        }
    }

    fn wallet_terms(&self) -> (terms: WalletTerms) {
        WalletTerms {
            family: AssetFamily::Erc20,
            ledger: self.config.ledger_id,
            minter: Some(self.config.minter_id),
            tag: String::from_str("CKERC20"),
            asset_name: self.config.token_symbol.to_string(),
            pull_fee: default_fee_e8s() as u128,
            withdraw_fee: self.config.fee,
            supports_allowance: true,
        }
    }
}

/// The configuration of the wrapped asset with the given symbol.
pub open spec fn config_of(symbol: CKTokenSymbol) -> CKTokenConfig {
    CKTokenConfig {
        minter_id: principal_of(canister_bytes(CKETH_MINTER_NUMBER)),
        ledger_id: principal_of(
            canister_bytes(
                match symbol {
                    CKTokenSymbol::USDC => USDC_LEDGER_NUMBER,
                    CKTokenSymbol::USDT => USDT_LEDGER_NUMBER,
                    _ => ETH_LEDGER_NUMBER,
                },
            ),
        ),
        token_symbol: symbol,
        decimals: match symbol {
            CKTokenSymbol::USDC => USDC_DECIMALS,
            CKTokenSymbol::USDT => USDT_DECIMALS,
            _ => ETH_DECIMALS,
        },
        fee: match symbol {
            CKTokenSymbol::USDC => 10_000,
            CKTokenSymbol::USDT => 10_000,
            _ => 2_000_000_000_000,
        },
    }
}

/// Whether `event` reports the mint that the Ethereum transaction with the
/// hash `hash` led to.
pub open spec fn is_mint_of(event: MinterEvent, hash: Seq<char>) -> bool {
    &&& event.payload matches EventPayload::MintedCkErc20 { event_source, .. }
    &&& event_source.transaction_hash@ == hash
}

/// The index of the block of the mint that `event` reports.
pub open spec fn mint_block_of(event: MinterEvent) -> nat {
    match event.payload {
        EventPayload::MintedCkErc20 { mint_block_index, .. } => mint_block_index@,
        _ => 0,
    }
}

/// The first of `events` that reports the mint for `hash`.
pub open spec fn first_mint(events: Seq<MinterEvent>, hash: Seq<char>) -> Option<MinterEvent>
    decreases events.len(),
{
    if events.len() == 0 {
        None
    } else if is_mint_of(events[0], hash) {
        Some(events[0])
    } else {
        first_mint(events.drop_first(), hash)
    }
}

/// Whether `step` asks `minter` for the latest events.
pub open spec fn is_events_query<T>(step: Step<T>, minter: PrincipalId) -> bool {
    &&& step matches Step::Call(RemoteCall::GetEvents { minter: asked, args })
    &&& asked == minter
    &&& args.start == 0
    &&& args.length == MINT_SCAN_WINDOW
}

/// What a step of a scan for a mint must give as `next`: the scan asks the
/// minter for its events up to ten times and ends with the first mint it
/// finds for the transaction.
pub open spec fn scans_for_mint(
    minter: PrincipalId,
    hash: Seq<char>,
    stage: MintScanStage,
    event: Event,
    next: (MintScanStage, Step<u64>),
) -> bool {
    match (stage, event) {
        (MintScanStage::Start, Event::Started) => {
            &&& next.0 == MintScanStage::Awaiting { attempt: 1 }
            &&& is_events_query(next.1, minter)
        },
        (MintScanStage::Awaiting { attempt }, Event::Rejected(detail)) => {
            &&& next.0 == MintScanStage::Finished
            &&& next.1 matches Step::Done(Err(CurrencyError::CanisterCallFailed(text)))
            &&& text@ == detail@
        },
        (MintScanStage::Awaiting { attempt }, Event::Events(reply)) => match first_mint(
            reply.events@,
            hash,
        ) {
            Some(mint) => {
                &&& next.0 == MintScanStage::Finished
                &&& if mint_block_of(mint) <= u64::MAX {
                    next.1 == Step::Done(Ok(mint_block_of(mint) as u64))
                } else {
                    &&& next.1 matches Step::Done(Err(CurrencyError::QueryError(text)))
                    &&& text@ == "Block number too large"@
                }
            },
            None => if attempt < MINT_SCAN_ATTEMPTS {
                &&& next.0 == MintScanStage::Awaiting { attempt: (attempt + 1) as u8 }
                &&& is_events_query(next.1, minter)
            } else {
                &&& next.0 == MintScanStage::Finished
                &&& next.1 == Step::<u64>::Done(Err(CurrencyError::TransactionNotFound))
            },
        },
        _ => next.0 == MintScanStage::Finished && is_unexpected(next.1),
    }
}

/// A natural number as the interface language prints it.
pub open spec fn shown(number: BigNat) -> Seq<char> {
    grouped(decimal(number@))
}

/// What the backend says of a ledger that would not burn for a withdrawal.
/// `own` tells the asset's own ledger from the ledger that pays the fee.
pub open spec fn burn_failure_text(error: LedgerError, own: bool) -> Seq<char> {
    match error {
        LedgerError::TemporarilyUnavailable(message) => (if own {
            "Ledger temporarily unavailable: "@
        } else {
            "ckETH ledger temporarily unavailable: "@
        }) + message@,
        LedgerError::InsufficientAllowance { token_symbol, allowance, failed_burn_amount, .. } =>
            if own {
                "Insufficient allowance for "@ + token_symbol@ + ": have "@ + shown(allowance)
                    + " need "@ + shown(failed_burn_amount)
            } else {
                "Insufficient "@ + token_symbol@ + " allowance: have "@ + shown(allowance)
                    + " need "@ + shown(failed_burn_amount)
            },
        LedgerError::AmountTooLow {
            minimum_burn_amount,
            token_symbol,
            failed_burn_amount,
            ..
        } => if own {
            "Amount too low for "@ + token_symbol@ + ": minimum "@ + shown(minimum_burn_amount)
                + " got "@ + shown(failed_burn_amount)
        } else {
            "ckETH amount too low: minimum "@ + shown(minimum_burn_amount) + " got "@ + shown(
                failed_burn_amount,
            )
        },
        LedgerError::InsufficientFunds { balance, token_symbol, failed_burn_amount, .. } => if own {
            "Insufficient funds for "@ + token_symbol@ + ": have "@ + shown(balance) + " need "@
                + shown(failed_burn_amount)
        } else {
            "Insufficient ckETH funds: have "@ + shown(balance) + " need "@ + shown(
                failed_burn_amount,
            )
        },
    }
}

/// The symbols of the first `n` of `tokens`, each in its debug form, with
/// a comma and a space between them.
pub open spec fn symbols_text(tokens: Seq<CkErc20Token>, n: nat) -> Seq<char>
    decreases n,
{
    if n == 0 {
        Seq::empty()
    } else if n == 1 {
        debug_quoted(tokens[0].ckerc20_token_symbol@)
    } else {
        symbols_text(tokens, (n - 1) as nat) + ", "@ + debug_quoted(
            tokens[n - 1].ckerc20_token_symbol@,
        )
    }
}

/// What the backend says of a withdrawal that the minter refused.
pub open spec fn withdrawal_failure_text(error: WithdrawErc20Error) -> Seq<char> {
    match error {
        WithdrawErc20Error::TokenNotSupported { supported_tokens } =>
            "Token not supported. Supported tokens: ["@ + symbols_text(
                supported_tokens@,
                supported_tokens@.len(),
            ) + "]"@,
        WithdrawErc20Error::TemporarilyUnavailable(message) => "Service temporarily unavailable: "@
            + message@,
        WithdrawErc20Error::CkErc20LedgerError { error, .. } => burn_failure_text(error, true),
        WithdrawErc20Error::CkEthLedgerError { error } => burn_failure_text(error, false),
        WithdrawErc20Error::RecipientAddressBlocked { address } => "Recipient address blocked: "@
            + address@,
    }
}

/// Whether `status` is what the custody reports of a withdrawal that the
/// minter describes by `reported`.
pub open spec fn translates(reported: WithdrawalStatus, status: CKTokenWithdrawalStatus) -> bool {
    match reported {
        WithdrawalStatus::Pending => status == CKTokenWithdrawalStatus::Pending,
        WithdrawalStatus::TxCreated => status == CKTokenWithdrawalStatus::TxCreated,
        WithdrawalStatus::TxSent(transaction) => {
            &&& status matches CKTokenWithdrawalStatus::TxSent { transaction_hash }
            &&& transaction_hash@ == transaction.transaction_hash@
        },
        WithdrawalStatus::TxFinalized(
            TxFinalizedStatus::Success { transaction_hash: hash, effective_transaction_fee },
        ) => {
            &&& status matches CKTokenWithdrawalStatus::TxFinalized { transaction_hash, effective_fee }
            &&& transaction_hash@ == hash@
            &&& effective_fee == match effective_transaction_fee {
                Some(fee) => Some(
                    if fee@ <= u64::MAX {
                        fee@ as u64
                    } else {
                        0u64
                    },
                ),
                None => None,
            }
        },
        WithdrawalStatus::TxFinalized(TxFinalizedStatus::Reimbursed { transaction_hash, .. }) => {
            &&& status matches CKTokenWithdrawalStatus::Failed(text)
            &&& text@ == "Transaction failed and was reimbursed. Tx hash: "@ + transaction_hash@
        },
        WithdrawalStatus::TxFinalized(TxFinalizedStatus::PendingReimbursement(transaction)) => {
            &&& status matches CKTokenWithdrawalStatus::Failed(text)
            &&& text@ == "Transaction failed, reimbursement pending. Tx hash: "@
                + transaction.transaction_hash@
        },
    }
}

/// Writes a natural number as the interface language prints it.
fn show(number: &BigNat) -> (text: String)
    ensures
        text@ == shown(*number),
{
    number.to_grouped_string()
}

/// Writes what the backend says of a ledger that would not burn.
pub fn burn_failure(error: &LedgerError, own: bool) -> (text: String)
    ensures
        text@ == burn_failure_text(*error, own),
{
    match error {
        LedgerError::TemporarilyUnavailable(message) => {
            let head = if own {
                "Ledger temporarily unavailable: "
            } else {
                "ckETH ledger temporarily unavailable: "
            };
            String::from_str(head).concat(message.as_str())
        },
        LedgerError::InsufficientAllowance { token_symbol, allowance, failed_burn_amount, .. } => {
            if own {
                String::from_str("Insufficient allowance for ").concat(token_symbol.as_str()).concat(
                    ": have ",
                ).concat(show(allowance).as_str()).concat(" need ").concat(
                    show(failed_burn_amount).as_str(),
                )
            } else {
                String::from_str("Insufficient ").concat(token_symbol.as_str()).concat(
                    " allowance: have ",
                ).concat(show(allowance).as_str()).concat(" need ").concat(
                    show(failed_burn_amount).as_str(),
                )
            }
        },
        LedgerError::AmountTooLow {
            minimum_burn_amount,
            token_symbol,
            failed_burn_amount,
            ..
        } => {
            if own {
                String::from_str("Amount too low for ").concat(token_symbol.as_str()).concat(
                    ": minimum ",
                ).concat(show(minimum_burn_amount).as_str()).concat(" got ").concat(
                    show(failed_burn_amount).as_str(),
                )
            } else {
                String::from_str("ckETH amount too low: minimum ").concat(
                    show(minimum_burn_amount).as_str(),
                ).concat(" got ").concat(show(failed_burn_amount).as_str())
            }
        },
        LedgerError::InsufficientFunds { balance, token_symbol, failed_burn_amount, .. } => {
            if own {
                String::from_str("Insufficient funds for ").concat(token_symbol.as_str()).concat(
                    ": have ",
                ).concat(show(balance).as_str()).concat(" need ").concat(
                    show(failed_burn_amount).as_str(),
                )
            } else {
                String::from_str("Insufficient ckETH funds: have ").concat(
                    show(balance).as_str(),
                ).concat(" need ").concat(show(failed_burn_amount).as_str())
            }
        },
    }
}

/// Writes what the backend says of a withdrawal that the minter refused.
pub fn withdrawal_failure(error: &WithdrawErc20Error) -> (text: String)
    ensures
        text@ == withdrawal_failure_text(*error),
{
    match error {
        WithdrawErc20Error::TokenNotSupported { supported_tokens } => {
            let mut symbols = String::new();
            let mut i: usize = 0;
            while i < supported_tokens.len()
                invariant
                    i <= supported_tokens.len(),
                    symbols@ == symbols_text(supported_tokens@, i as nat),
                decreases supported_tokens.len() - i,
            {
                let quoted = quote_debug(supported_tokens[i].ckerc20_token_symbol.as_str());
                if i == 0 {
                    assert(symbols@ + quoted@ =~= quoted@);
                    symbols = quoted;
                } else {
                    symbols = symbols.concat(", ").concat(quoted.as_str());
                }
                i = i + 1;
            }
            String::from_str("Token not supported. Supported tokens: [").concat(
                symbols.as_str(),
            ).concat("]")
        },
        WithdrawErc20Error::TemporarilyUnavailable(message) => String::from_str(
            "Service temporarily unavailable: ",
        ).concat(message.as_str()),
        WithdrawErc20Error::CkErc20LedgerError { error, .. } => burn_failure(error, true),
        WithdrawErc20Error::CkEthLedgerError { error } => burn_failure(error, false),
        WithdrawErc20Error::RecipientAddressBlocked { address } => String::from_str(
            "Recipient address blocked: ",
        ).concat(address.as_str()),
    }
}

/// What the custody reports of a withdrawal that the minter describes by
/// `reported`.
pub fn translate_status(reported: &WithdrawalStatus) -> (status: CKTokenWithdrawalStatus)
    ensures
        translates(*reported, status),
{
    match reported {
        WithdrawalStatus::Pending => CKTokenWithdrawalStatus::Pending,
        WithdrawalStatus::TxCreated => CKTokenWithdrawalStatus::TxCreated,
        WithdrawalStatus::TxSent(transaction) => CKTokenWithdrawalStatus::TxSent {
            transaction_hash: transaction.transaction_hash.clone(),
        },
        WithdrawalStatus::TxFinalized(finalized) => match finalized {
            TxFinalizedStatus::Success { transaction_hash, effective_transaction_fee } => {
                let effective_fee: Option<u64> = match effective_transaction_fee {
                    Some(fee) => match fee.to_u64() {
                        Some(fee) => Some(fee),
                        None => Some(0),
                    },
                    None => None,
                };
                CKTokenWithdrawalStatus::TxFinalized {
                    transaction_hash: transaction_hash.clone(),
                    effective_fee,
                }
            },
            TxFinalizedStatus::Reimbursed { transaction_hash, .. } => CKTokenWithdrawalStatus::Failed(
                String::from_str("Transaction failed and was reimbursed. Tx hash: ").concat(
                    transaction_hash.as_str(),
                ),
            ),
            TxFinalizedStatus::PendingReimbursement(transaction) => CKTokenWithdrawalStatus::Failed(
                String::from_str("Transaction failed, reimbursement pending. Tx hash: ").concat(
                    transaction.transaction_hash.as_str(),
                ),
            ),
        },
    }
}

/// The block index of the first of `events` that reports the mint for the
/// transaction with the hash `hash`.
pub fn find_mint<'a>(events: &'a Vec<MinterEvent>, hash: &str) -> (found: Option<&'a BigNat>)
    ensures
        match first_mint(events@, hash@) {
            Some(mint) => found matches Some(index) && index@ == mint_block_of(mint),
            None => found is None,
        },
{
    let wanted = hash.to_owned();
    let mut i: usize = 0;
    assert(events@.skip(0) =~= events@);
    while i < events.len()
        invariant
            i <= events.len(),
            wanted@ == hash@,
            first_mint(events@, hash@) == first_mint(events@.skip(i as int), hash@),
        decreases events.len() - i,
    {
        proof {
            assert(events@.skip(i as int)[0] == events@[i as int]);
            assert(events@.skip(i as int).drop_first() =~= events@.skip(i + 1));
        }
        if let EventPayload::MintedCkErc20 { event_source, mint_block_index, .. } =
            &events[i].payload {
            if event_source.transaction_hash == wanted {
                return Some(mint_block_index);
            }
        }
        i = i + 1;
    }
    assert(events@.skip(events@.len() as int).len() == 0);
    None
}

impl CKERC20TokenWallet {
    /// The backend of the wrapped asset with the given symbol, which is one
    /// of the assets of the Ethereum minter.
    pub fn new(symbol: CKTokenSymbol) -> (wallet: CKERC20TokenWallet)
        requires
            symbol != CKTokenSymbol::BTC,
        ensures
            wallet.config == config_of(symbol),
    {
        let config = match symbol {
            CKTokenSymbol::USDC => CKTokenConfig {
                minter_id: canister_id(CKETH_MINTER_NUMBER),
                ledger_id: canister_id(USDC_LEDGER_NUMBER),
                token_symbol: symbol,
                decimals: USDC_DECIMALS,
                fee: 10_000,
            },
            CKTokenSymbol::USDT => CKTokenConfig {
                minter_id: canister_id(CKETH_MINTER_NUMBER),
                ledger_id: canister_id(USDT_LEDGER_NUMBER),
                token_symbol: symbol,
                decimals: USDT_DECIMALS,
                fee: 10_000,
            },
            _ => CKTokenConfig {
                minter_id: canister_id(CKETH_MINTER_NUMBER),
                ledger_id: canister_id(ETH_LEDGER_NUMBER),
                token_symbol: symbol,
                decimals: ETH_DECIMALS,
                fee: 2_000_000_000_000,
            },
        };
        CKERC20TokenWallet { config }
    }

    /// One step of a query for the address of the contract that takes
    /// deposits for the minter.
    pub fn get_deposit_address(&self, stage: CallStage, event: Event) -> (next: (
        CallStage,
        Step<Option<String>>,
    ))
        ensures
            match (stage, event) {
                (CallStage::Start, Event::Started) => {
                    &&& next.0 == CallStage::Awaiting
                    &&& next.1 matches Step::Call(RemoteCall::SmartContractAddress { minter })
                    &&& minter == self.config.minter_id
                },
                (CallStage::Awaiting, Event::Rejected(detail)) => {
                    &&& next.0 == CallStage::Finished
                    &&& next.1 matches Step::Done(Err(CurrencyError::CanisterCallFailed(text)))
                    &&& text@ == detail@
                },
                (CallStage::Awaiting, Event::OptionalText(address)) => {
                    &&& next.0 == CallStage::Finished
                    &&& next.1 == Step::Done(Ok(address))
                },
                _ => next.0 == CallStage::Finished && is_unexpected(next.1),
            },
    {
        match (stage, event) {
            (CallStage::Start, Event::Started) => (
                CallStage::Awaiting,
                Step::Call(RemoteCall::SmartContractAddress { minter: self.config.minter_id }),
            ),
            (CallStage::Awaiting, Event::Rejected(detail)) => (
                CallStage::Finished,
                Step::Done(Err(CurrencyError::CanisterCallFailed(detail))),
            ),
            (CallStage::Awaiting, Event::OptionalText(address)) => (
                CallStage::Finished,
                Step::Done(Ok(address)),
            ),
            _ => (CallStage::Finished, Step::Done(Err(unexpected_event()))),
        }
    }

    /// One step of a query for the address of the helper contract through
    /// which a deposit names the identity that is to receive the mint.
    pub fn get_deposit_address_for_principal(&self, stage: CallStage, event: Event) -> (next: (
        CallStage,
        Step<String>,
    ))
        ensures
            match (stage, event) {
                (CallStage::Start, Event::Started) => {
                    &&& next.0 == CallStage::Awaiting
                    &&& next.1 matches Step::Call(RemoteCall::GetMinterInfo { minter })
                    &&& minter == self.config.minter_id
                },
                (CallStage::Awaiting, Event::Rejected(detail)) => {
                    &&& next.0 == CallStage::Finished
                    &&& next.1 matches Step::Done(Err(CurrencyError::CanisterCallFailed(text)))
                    &&& text@ == detail@
                },
                (CallStage::Awaiting, Event::MinterInfo(info)) => {
                    &&& next.0 == CallStage::Finished
                    &&& match info.deposit_with_subaccount_helper_contract_address {
                        Some(address) => next.1 == Step::Done(Ok(address)),
                        None => next.1 == Step::<String>::Done(
                            Err(CurrencyError::NoDepositAddress),
                        ),
                    }
                },
                _ => next.0 == CallStage::Finished && is_unexpected(next.1),
            },
    {
        match (stage, event) {
            (CallStage::Start, Event::Started) => (
                CallStage::Awaiting,
                Step::Call(RemoteCall::GetMinterInfo { minter: self.config.minter_id }),
            ),
            (CallStage::Awaiting, Event::Rejected(detail)) => (
                CallStage::Finished,
                Step::Done(Err(CurrencyError::CanisterCallFailed(detail))),
            ),
            (CallStage::Awaiting, Event::MinterInfo(info)) => {
                match info.deposit_with_subaccount_helper_contract_address {
                    Some(address) => (CallStage::Finished, Step::Done(Ok(address))),
                    None => (CallStage::Finished, Step::Done(Err(CurrencyError::NoDepositAddress))),
                }
            },
            _ => (CallStage::Finished, Step::Done(Err(unexpected_event()))),
        }
    }

    /// One step of a scan for the mint that the Ethereum transaction with
    /// the hash `eth_transaction_hash` led to. The result is the index of
    /// the block in which the asset was minted.
    pub fn get_mint_block_number(
        &self,
        eth_transaction_hash: &str,
        stage: MintScanStage,
        event: Event,
    ) -> (next: (MintScanStage, Step<u64>))
        ensures
            scans_for_mint(self.config.minter_id, eth_transaction_hash@, stage, event, next),
    {
        match (stage, event) {
            (MintScanStage::Start, Event::Started) => (
                MintScanStage::Awaiting { attempt: 1 },
                self.events_query(),
            ),
            (MintScanStage::Awaiting { attempt }, Event::Rejected(detail)) => (
                MintScanStage::Finished,
                Step::Done(Err(CurrencyError::CanisterCallFailed(detail))),
            ),
            (MintScanStage::Awaiting { attempt }, Event::Events(reply)) => {
                match find_mint(&reply.events, eth_transaction_hash) {
                    Some(index) => match index.to_u64() {
                        Some(block) => (MintScanStage::Finished, Step::Done(Ok(block))),
                        None => (
                            MintScanStage::Finished,
                            Step::Done(
                                Err(
                                    CurrencyError::QueryError(
                                        String::from_str("Block number too large"),
                                    ),
                                ),
                            ),
                        ),
                    },
                    None => {
                        if attempt < MINT_SCAN_ATTEMPTS {
                            (MintScanStage::Awaiting { attempt: attempt + 1 }, self.events_query())
                        } else {
                            (
                                MintScanStage::Finished,
                                Step::Done(Err(CurrencyError::TransactionNotFound)),
                            )
                        }
                    },
                }
            },
            _ => (MintScanStage::Finished, Step::Done(Err(unexpected_event()))),
        }
    }

    /// The query for the minter's latest events.
    fn events_query<T>(&self) -> (step: Step<T>)
        ensures
            is_events_query(step, self.config.minter_id),
    {
        Step::Call(
            RemoteCall::GetEvents {
                minter: self.config.minter_id,
                args: GetEventsArg { start: 0, length: MINT_SCAN_WINDOW },
            },
        )
    }

    /// One step of a withdrawal of `amount` of the asset to the Ethereum
    /// address `eth_address`, which the minter carries out.
    pub fn withdraw_icrc1_token_to_eth_address(
        &self,
        eth_address: String,
        amount: u64,
        stage: CallStage,
        event: Event,
    ) -> (next: (CallStage, Step<()>))
        ensures
            match (stage, event) {
                (CallStage::Start, Event::Started) => {
                    &&& next.0 == CallStage::Awaiting
                    &&& next.1 matches Step::Call(RemoteCall::WithdrawErc20 { minter, args })
                    &&& minter == self.config.minter_id
                    &&& args.amount@ == amount
                    &&& args.ckerc20_ledger_id == self.config.ledger_id
                    &&& args.recipient@ == eth_address@
                    &&& args.from_cketh_subaccount is None
                    &&& args.from_ckerc20_subaccount is None
                },
                (CallStage::Awaiting, Event::Rejected(detail)) => {
                    &&& next.0 == CallStage::Finished
                    &&& next.1 matches Step::Done(Err(CurrencyError::CanisterCallFailed(text)))
                    &&& text@ == detail@
                },
                (CallStage::Awaiting, Event::WithdrawErc20(WithdrawErc20Ret::Success(_))) => {
                    &&& next.0 == CallStage::Finished
                    &&& next.1 == Step::Done(Ok(()))
                },
                (CallStage::Awaiting, Event::WithdrawErc20(WithdrawErc20Ret::Failure(error))) => {
                    &&& next.0 == CallStage::Finished
                    &&& next.1 matches Step::Done(Err(CurrencyError::WithdrawalFailed(text)))
                    &&& text@ == withdrawal_failure_text(error)
                },
                _ => next.0 == CallStage::Finished && is_unexpected(next.1),
            },
    {
        match (stage, event) {
            (CallStage::Start, Event::Started) => (
                CallStage::Awaiting,
                Step::Call(
                    RemoteCall::WithdrawErc20 {
                        minter: self.config.minter_id,
                        args: WithdrawErc20Arg {
                            amount: BigNat::from_u128(amount as u128),
                            ckerc20_ledger_id: self.config.ledger_id,
                            recipient: eth_address,
                            from_cketh_subaccount: None,
                            from_ckerc20_subaccount: None,
                        },
                    },
                ),
            ),
            (CallStage::Awaiting, Event::Rejected(detail)) => (
                CallStage::Finished,
                Step::Done(Err(CurrencyError::CanisterCallFailed(detail))),
            ),
            (CallStage::Awaiting, Event::WithdrawErc20(WithdrawErc20Ret::Success(_))) => (
                CallStage::Finished,
                Step::Done(Ok(())),
            ),
            (CallStage::Awaiting, Event::WithdrawErc20(WithdrawErc20Ret::Failure(error))) => (
                CallStage::Finished,
                Step::Done(Err(CurrencyError::WithdrawalFailed(withdrawal_failure(&error)))),
            ),
            _ => (CallStage::Finished, Step::Done(Err(unexpected_event()))),
        }
    }

    /// One step of a query for how far the withdrawal with the handle
    /// `withdrawal_id` has come.
    pub fn check_withdrawal_status(&self, withdrawal_id: u64, stage: CallStage, event: Event) -> (next:
        (CallStage, Step<CKTokenWithdrawalStatus>))
        ensures
            match (stage, event) {
                (CallStage::Start, Event::Started) => {
                    &&& next.0 == CallStage::Awaiting
                    &&& next.1 matches Step::Call(
                        RemoteCall::WithdrawalStatus { minter, parameter },
                    )
                    &&& minter == self.config.minter_id
                    &&& parameter == WithdrawalSearchParameter::ByWithdrawalId(withdrawal_id)
                },
                (CallStage::Awaiting, Event::Rejected(detail)) => {
                    &&& next.0 == CallStage::Finished
                    &&& next.1 matches Step::Done(Err(CurrencyError::CanisterCallFailed(text)))
                    &&& text@ == detail@
                },
                (CallStage::Awaiting, Event::WithdrawalStatus(details)) => {
                    &&& next.0 == CallStage::Finished
                    &&& if details@.len() == 0 {
                        &&& next.1 matches Step::Done(Err(CurrencyError::WithdrawalFailed(text)))
                        &&& text@ == "Withdrawal not found"@
                    } else {
                        &&& next.1 matches Step::Done(Ok(status))
                        &&& translates(details@[0].status, status)
                    }
                },
                _ => next.0 == CallStage::Finished && is_unexpected(next.1),
            },
    {
        match (stage, event) {
            (CallStage::Start, Event::Started) => (
                CallStage::Awaiting,
                Step::Call(
                    RemoteCall::WithdrawalStatus {
                        minter: self.config.minter_id,
                        parameter: WithdrawalSearchParameter::ByWithdrawalId(withdrawal_id),
                    },
                ),
            ),
            (CallStage::Awaiting, Event::Rejected(detail)) => (
                CallStage::Finished,
                Step::Done(Err(CurrencyError::CanisterCallFailed(detail))),
            ),
            (CallStage::Awaiting, Event::WithdrawalStatus(details)) => {
                if details.len() == 0 {
                    (
                        CallStage::Finished,
                        Step::Done(
                            Err(
                                CurrencyError::WithdrawalFailed(
                                    String::from_str("Withdrawal not found"),
                                ),
                            ),
                        ),
                    )
                } else {
                    (CallStage::Finished, Step::Done(Ok(translate_status(&details[0].status))))
                }
            },
            _ => (CallStage::Finished, Step::Done(Err(unexpected_event()))),
        }
    }

    /// One step of a query on `ledger` for what `account` lets `spender`
    /// draw.
    pub fn check_allowance(
        &self,
        ledger: PrincipalId,
        account: Account,
        spender: Account,
        stage: CallStage,
        event: Event,
    ) -> (next: (CallStage, Step<Allowance>))
        ensures
            queries_allowance(ledger, account, spender, stage, event, next),
    {
        check_allowance_step(ledger, account, spender, stage, event)
    }

    /// One step of a pull of `amount` on `ledger` out of `from` into `to`,
    /// for the native ledger's fee.
    pub fn transfer_from(
        &self,
        ledger: PrincipalId,
        from: Account,
        to: Account,
        amount: u128,
        now: u64,
        stage: CallStage,
        event: Event,
    ) -> (next: (CallStage, Step<u128>))
        ensures
            pulls(
                AssetFamily::Erc20,
                ledger,
                from,
                to,
                amount,
                default_fee() as u128,
                now,
                stage,
                event,
                next,
            ),
    {
        transfer_from_step(
            AssetFamily::Erc20,
            ledger,
            from,
            to,
            amount,
            default_fee_e8s() as u128,
            now,
            stage,
            event,
        )
    }
}

/// A scan for a mint asks the minter ten times at most: each step that
/// asks again counts one attempt more, and none counts beyond ten.
pub proof fn lemma_mint_scan_is_bounded(
    minter: PrincipalId,
    hash: Seq<char>,
    stage: MintScanStage,
    event: Event,
    next: (MintScanStage, Step<u64>),
)
    requires
        scans_for_mint(minter, hash, stage, event, next),
        next.1 is Call,
    ensures
        match stage {
            MintScanStage::Start => next.0 == MintScanStage::Awaiting { attempt: 1 },
            MintScanStage::Awaiting { attempt } => attempt < MINT_SCAN_ATTEMPTS && next.0
                == MintScanStage::Awaiting { attempt: (attempt + 1) as u8 },
            MintScanStage::Finished => false,
        },
{
}

} // verus!
