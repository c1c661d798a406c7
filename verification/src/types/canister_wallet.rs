//! What every asset backend can do, and the protocols by which it does it.
//!
//! A backend deposits, validates an allowance, withdraws and reports a
//! balance. The backends differ in a handful of terms (which ledger, which
//! fees, which words in their messages) and share the protocols, which
//! are the step functions of this module.

use crate::big_nat::BigNat;
use crate::ckbtc_minter_canister_interface::UpdateBalanceArg;
use crate::currency_error::CurrencyError;
use crate::icrc1_types::{Account, Allowance, AllowanceArgs, TransferFromArg, TransferFromError};
use crate::principal::{principal_text, PrincipalId};
use crate::remote::{
    is_unexpected, unexpected_event, CallContext, CallStage, Event, RemoteCall, Step,
};
use crate::state::{
    after_insert, last_dash, lemma_insert_contains, timestamp_of, TransactionState,
};
use crate::text::{decimal, decimal_string, lemma_decimal_digits, lemma_parse_decimal};
use crate::types::canister_wallets::ckerc20_token_wallet::CKERC20TokenWallet;
use crate::types::canister_wallets::icp_canister_wallet::ICPCanisterWallet;
use crate::transfer::{
    below_fee_text, is_ledger_error, is_push, sends_native, transfer_icp, transfer_icrc1,
};
use crate::utils::{
    create_default_subaccount, default_fee, default_fee_e8s, subaccount_bytes, zero_subaccount,
};
use vstd::prelude::*;
use vstd::string::StringExecFns;

verus! {

/// One backend: that of the native asset, or that of an asset of the
/// Ethereum minter.
#[derive(Debug, Clone, Copy, PartialEq, Eq)]
pub enum Wallet {
    ICP(ICPCanisterWallet),
    ERC20(CKERC20TokenWallet),
}

/// The families of assets, which differ in their protocols' details.
#[derive(Debug, Clone, Copy, PartialEq, Eq, Structural)]
pub enum AssetFamily {
    /// The native settlement token.
    Native,
    /// The wrapped Bitcoin asset.
    Bitcoin,
    /// A wrapped asset of the Ethereum minter.
    Erc20,
    /// A third-party token.
    Generic,
}

/// The terms of one backend: what the shared protocols need to know of it.
#[derive(Debug, Clone, PartialEq, Eq)]
pub struct WalletTerms {
    pub family: AssetFamily,
    /// The ledger that keeps the asset.
    pub ledger: PrincipalId,
    /// The minting service, for the assets that have one.
    pub minter: Option<PrincipalId>,
    /// The family tag at the head of a record identifier.
    pub tag: String,
    /// The name of the asset in messages.
    pub asset_name: String,
    /// The fee named in a pull out of a counter-party's account.
    pub pull_fee: u128,
    /// The fee of a withdrawal, which the amount withdrawn is reduced by.
    pub withdraw_fee: u128,
    /// Whether the ledger offers allowances.
    pub supports_allowance: bool,
}

/// The terms of a backend as the contracts speak of them: the texts as
/// sequences of characters.
pub struct Terms {
    pub family: AssetFamily,
    pub ledger: PrincipalId,
    pub minter: Option<PrincipalId>,
    pub tag: Seq<char>,
    pub asset_name: Seq<char>,
    pub pull_fee: u128,
    pub withdraw_fee: u128,
    pub supports_allowance: bool,
}

impl View for WalletTerms {
    type V = Terms;

    open spec fn view(&self) -> Terms {
        Terms {
            family: self.family,
            ledger: self.ledger,
            minter: self.minter,
            tag: self.tag@,
            asset_name: self.asset_name@,
            pull_fee: self.pull_fee,
            withdraw_fee: self.withdraw_fee,
            supports_allowance: self.supports_allowance,
        }
    }
}

/// Where a deposit stands.
#[derive(Debug, Clone, Copy, PartialEq, Eq, Structural)]
pub enum DepositStage {
    /// Nothing was asked yet.
    Start,
    /// The counter-party's allowance was asked for.
    AwaitingAllowance,
    /// The pull was asked for.
    AwaitingTransfer,
    /// The deposit is recorded; a balance refresh was asked for.
    AwaitingRefresh,
    /// The deposit has given its result.
    Finished,
}

/// Whether an allowance lets a spender draw `amount` at the time `now`: it
/// is at least `amount`, and it does not expire at or before `now`.
pub open spec fn allowance_covers(allowance: Allowance, amount: u64, now: u64) -> bool {
    &&& allowance.allowance >= amount
    &&& match allowance.expires_at {
        Some(expires_at) => expires_at > now,
        None => true,
    }
}

/// The identifier under which a deposit is recorded: the family tag, the
/// word DEPOSIT, the index that the ledger gave the transfer, the
/// counter-party and the time, joined by hyphens.
pub open spec fn deposit_id(tag: Seq<char>, index: nat, from: Seq<u8>, now: nat) -> Seq<char> {
    tag + "-DEPOSIT-"@ + decimal(index) + "-"@ + principal_text(from) + "-"@ + decimal(now)
}

/// The message of a backend whose ledger offers no allowances.
pub open spec fn unsupported_text(symbol: Seq<char>) -> Seq<char> {
    "Token "@ + symbol + " does not support ICRC-2 (allowance) operations"@
}

/// The message for a balance query that did not come back.
pub open spec fn balance_query_failed_text(asset_name: Seq<char>, detail: Seq<char>) -> Seq<char> {
    "Failed to query "@ + asset_name + " balance: "@ + detail
}

/// The message for a balance beyond 128 bits.
pub open spec fn balance_too_large_text(balance: nat) -> Seq<char> {
    "Failed to convert balance '"@ + decimal(balance) + "' to u128"@
}

/// What the Bitcoin backend says of a refused pull. Of a bad fee it names
/// the fee that the ledger expects and the native ledger's fee.
pub open spec fn verbose_pull_failure(error: TransferFromError) -> Seq<char> {
    match error {
        TransferFromError::BadFee { expected_fee } => "Bad fee: Expected "@ + decimal(
            expected_fee as nat,
        ) + ", got "@ + decimal(default_fee() as nat),
        TransferFromError::BadBurn { min_burn_amount } => "Bad burn: Minimum burn amount is "@
            + decimal(min_burn_amount as nat),
        TransferFromError::InsufficientFunds { balance } => "Insufficient funds: Balance is "@
            + decimal(balance as nat),
        TransferFromError::InsufficientAllowance { allowance } => "Insufficient allowance: "@
            + decimal(allowance as nat),
        TransferFromError::TooOld => "Transaction is too old"@,
        TransferFromError::CreatedInFuture { ledger_time } => "Transaction created in the future: "@
            + decimal(ledger_time as nat),
        TransferFromError::Duplicate { duplicate_of } => "Duplicate transaction: "@ + decimal(
            duplicate_of as nat,
        ),
        TransferFromError::TemporarilyUnavailable => "Service temporarily unavailable"@,
        TransferFromError::GenericError { error_code, message } => "Error code "@ + decimal(
            error_code as nat,
        ) + ": "@ + message@,
    }
}

/// Whether `failure` is the error that a backend of `family` makes of a
/// pull that the ledger refused with `error`.
pub open spec fn is_pull_failure(
    family: AssetFamily,
    error: TransferFromError,
    failure: CurrencyError,
) -> bool {
    if error is InsufficientAllowance {
        failure == CurrencyError::InsufficientAllowance
    } else {
        &&& failure matches CurrencyError::TransferFromFailed(text)
        &&& text@ == if family == AssetFamily::Bitcoin {
            verbose_pull_failure(error)
        } else {
            error.debug_text()
        }
    }
}

/// Whether `call` asks `ledger` what `owner` lets `spender` draw.
pub open spec fn is_allowance_query(
    call: RemoteCall,
    ledger: PrincipalId,
    owner: PrincipalId,
    spender: PrincipalId,
) -> bool {
    &&& call matches RemoteCall::Icrc2Allowance { ledger: asked, args }
    &&& asked == ledger
    &&& args.account.is_default_of(owner)
    &&& args.spender.is_default_of(spender)
}

/// Whether `call` pulls `amount` on `ledger` out of the default account of
/// `from` into that of `to`, naming `fee` and the time `now`.
pub open spec fn is_pull(
    call: RemoteCall,
    ledger: PrincipalId,
    from: PrincipalId,
    to: PrincipalId,
    amount: u64,
    fee: u128,
    now: u64,
) -> bool {
    &&& call matches RemoteCall::Icrc2TransferFrom { ledger: asked, args }
    &&& asked == ledger
    &&& args.spender_subaccount is None
    &&& args.from.is_default_of(from)
    &&& args.to.is_default_of(to)
    &&& args.amount == amount
    &&& args.fee == Some(fee)
    &&& args.memo is None
    &&& args.created_at_time == Some(now)
}

/// Whether `call` asks `ledger` for the balance of the default account of
/// `owner`.
pub open spec fn is_balance_query(call: RemoteCall, ledger: PrincipalId, owner: PrincipalId) -> bool {
    &&& call matches RemoteCall::Icrc1BalanceOf { ledger: asked, account }
    &&& asked == ledger
    &&& account.is_default_of(owner)
}

/// Whether `call` asks `minter` to look for new deposits to the custody
/// `owner`.
pub open spec fn is_refresh(call: RemoteCall, minter: PrincipalId, owner: PrincipalId) -> bool {
    &&& call matches RemoteCall::UpdateBalance { minter: asked, args }
    &&& asked == minter
    &&& args.owner == Some(owner)
    &&& args.subaccount is None
}

/// Whether the allowance lets the custody draw the amount now.
pub fn judge_allowance(allowance: &Allowance, amount: u64, now: u64) -> (verdict: Result<
    (),
    CurrencyError,
>)
    ensures
        allowance_covers(*allowance, amount, now) ==> verdict == Ok::<(), CurrencyError>(()),
        !allowance_covers(*allowance, amount, now) ==> verdict == Err::<(), CurrencyError>(
            CurrencyError::InsufficientAllowance,
        ),
{
    if allowance.allowance < amount as u128 {
        return Err(CurrencyError::InsufficientAllowance);
    }
    if let Some(expires_at) = allowance.expires_at {
        if expires_at <= now {
            return Err(CurrencyError::InsufficientAllowance);
        }
    }
    Ok(())
}

/// The identifier under which a deposit is recorded.
pub fn deposit_record_id(tag: &str, index: u128, from: &PrincipalId, now: u64) -> (id: String)
    ensures
        id@ == deposit_id(tag@, index as nat, from@, now as nat),
{
    String::from_str(tag).concat("-DEPOSIT-").concat(decimal_string(index).as_str()).concat(
        "-",
    ).concat(from.to_text().as_str()).concat("-").concat(decimal_string(now as u128).as_str())
}

/// The error that a backend of `family` makes of a pull that the ledger
/// refused.
pub fn pull_failure(family: AssetFamily, error: &TransferFromError) -> (failure: CurrencyError)
    ensures
        is_pull_failure(family, *error, failure),
{
    if let TransferFromError::InsufficientAllowance { .. } = error {
        return CurrencyError::InsufficientAllowance;
    }
    if family != AssetFamily::Bitcoin {
        return CurrencyError::TransferFromFailed(error.debug_string());
    }
    let text = match error {
        TransferFromError::BadFee { expected_fee } => String::from_str("Bad fee: Expected ").concat(
            decimal_string(*expected_fee).as_str(),
        ).concat(", got ").concat(decimal_string(default_fee_e8s() as u128).as_str()),
        TransferFromError::BadBurn { min_burn_amount } => String::from_str(
            "Bad burn: Minimum burn amount is ",
        ).concat(decimal_string(*min_burn_amount).as_str()),
        TransferFromError::InsufficientFunds { balance } => String::from_str(
            "Insufficient funds: Balance is ",
        ).concat(decimal_string(*balance).as_str()),
        TransferFromError::InsufficientAllowance { allowance } => String::from_str(
            "Insufficient allowance: ",
        ).concat(decimal_string(*allowance).as_str()),
        TransferFromError::TooOld => String::from_str("Transaction is too old"),
        TransferFromError::CreatedInFuture { ledger_time } => String::from_str(
            "Transaction created in the future: ",
        ).concat(decimal_string(*ledger_time as u128).as_str()),
        TransferFromError::Duplicate { duplicate_of } => String::from_str(
            "Duplicate transaction: ",
        ).concat(decimal_string(*duplicate_of).as_str()),
        TransferFromError::TemporarilyUnavailable => String::from_str(
            "Service temporarily unavailable",
        ),
        TransferFromError::GenericError { error_code, message } => String::from_str(
            "Error code ",
        ).concat(decimal_string(*error_code).as_str()).concat(": ").concat(message.as_str()),
    };
    CurrencyError::TransferFromFailed(text)
}

/// What a step of an allowance validation must do, given the backend's
/// terms, the counter-party, the amount, the host's context, the stage
/// and the event: `next` is the stage and the step it gives.
pub open spec fn validates_allowance(
    terms: Terms,
    from: PrincipalId,
    amount: u64,
    context: CallContext,
    stage: CallStage,
    event: Event,
    next: (CallStage, Step<()>),
) -> bool {
    match (stage, event) {
        (CallStage::Start, Event::Started) => if terms.supports_allowance {
            &&& next.0 == CallStage::Awaiting
            &&& next.1 matches Step::Call(call)
            &&& is_allowance_query(call, terms.ledger, from, context.canister_id)
        } else {
            &&& next.0 == CallStage::Finished
            &&& next.1 matches Step::Done(Err(CurrencyError::OperationNotSupported(text)))
            &&& text@ == unsupported_text(terms.tag)
        },
        (CallStage::Awaiting, Event::Rejected(detail)) => {
            &&& next.0 == CallStage::Finished
            &&& next.1 matches Step::Done(Err(CurrencyError::AllowanceCheckFailed(text)))
            &&& text@ == detail@
        },
        (CallStage::Awaiting, Event::Allowance(allowance)) => {
            &&& next.0 == CallStage::Finished
            &&& next.1 == if allowance_covers(allowance, amount, context.now) {
                Step::Done(Ok(()))
            } else {
                Step::Done(Err(CurrencyError::InsufficientAllowance))
            }
        },
        _ => next.0 == CallStage::Finished && is_unexpected(next.1),
    }
}

/// What a step of a deposit must do to the store and give as `next`.
pub open spec fn deposits(
    terms: Terms,
    ids: Seq<Seq<char>>,
    mark: nat,
    from: PrincipalId,
    amount: u64,
    context: CallContext,
    stage: DepositStage,
    event: Event,
    ids_after: Seq<Seq<char>>,
    next: (DepositStage, Step<()>),
) -> bool {
    match (stage, event) {
        (DepositStage::Start, Event::Started) => {
            &&& ids_after == ids
            &&& if terms.supports_allowance {
                &&& next.0 == DepositStage::AwaitingAllowance
                &&& next.1 matches Step::Call(call)
                &&& is_allowance_query(call, terms.ledger, from, context.canister_id)
            } else {
                &&& next.0 == DepositStage::Finished
                &&& next.1 matches Step::Done(Err(CurrencyError::OperationNotSupported(text)))
                &&& text@ == unsupported_text(terms.tag)
            }
        },
        (DepositStage::AwaitingAllowance, Event::Rejected(detail)) => {
            &&& ids_after == ids
            &&& next.0 == DepositStage::Finished
            &&& next.1 matches Step::Done(Err(CurrencyError::AllowanceCheckFailed(text)))
            &&& text@ == detail@
        },
        (DepositStage::AwaitingAllowance, Event::Allowance(allowance)) => {
            &&& ids_after == ids
            &&& if allowance_covers(allowance, amount, context.now) {
                &&& next.0 == DepositStage::AwaitingTransfer
                &&& next.1 matches Step::Call(call)
                &&& is_pull(
                    call,
                    terms.ledger,
                    from,
                    context.canister_id,
                    amount,
                    terms.pull_fee,
                    context.now,
                )
            } else {
                &&& next.0 == DepositStage::Finished
                &&& next.1 == Step::<()>::Done(Err(CurrencyError::InsufficientAllowance))
            }
        },
        (DepositStage::AwaitingTransfer, Event::Rejected(detail)) => {
            &&& ids_after == ids
            &&& next.0 == DepositStage::Finished
            &&& next.1 matches Step::Done(Err(CurrencyError::TransferFromFailed(text)))
            &&& text@ == detail@
        },
        (DepositStage::AwaitingTransfer, Event::TransferFrom(Err(error))) => {
            &&& ids_after == ids
            &&& next.0 == DepositStage::Finished
            &&& next.1 matches Step::Done(Err(failure))
            &&& is_pull_failure(terms.family, error, failure)
        },
        (DepositStage::AwaitingTransfer, Event::TransferFrom(Ok(index))) => {
            &&& ids_after == after_insert(
                ids,
                deposit_id(terms.tag, index as nat, from@, context.now as nat),
                mark,
            )
            &&& match refresh_minter(terms) {
                Some(minter) => {
                    &&& next.0 == DepositStage::AwaitingRefresh
                    &&& next.1 matches Step::Call(call)
                    &&& is_refresh(call, minter, context.canister_id)
                },
                None => {
                    &&& next.0 == DepositStage::Finished
                    &&& next.1 == Step::Done(Ok(()))
                },
            }
        },
        (DepositStage::AwaitingRefresh, _) => {
            &&& ids_after == ids
            &&& next.0 == DepositStage::Finished
            &&& next.1 == Step::Done(Ok(()))
        },
        _ => {
            &&& ids_after == ids
            &&& next.0 == DepositStage::Finished
            &&& is_unexpected(next.1)
        },
    }
}

/// The minter that a backend asks for a balance refresh after a deposit:
/// that of the Bitcoin backend, and no other.
pub open spec fn refresh_minter(terms: Terms) -> Option<PrincipalId> {
    if terms.family == AssetFamily::Bitcoin {
        terms.minter
    } else {
        None
    }
}

/// The query for what `owner` lets `spender` draw on `ledger`.
pub fn allowance_query(ledger: PrincipalId, owner: PrincipalId, spender: PrincipalId) -> (call:
    RemoteCall)
    ensures
        is_allowance_query(call, ledger, owner, spender),
{
    RemoteCall::Icrc2Allowance {
        ledger,
        args: AllowanceArgs {
            account: Account::default_of(owner),
            spender: Account::default_of(spender),
        },
    }
}

/// One step of an allowance validation: a check, without any transfer,
/// that the counter-party `from` lets the custody draw `amount`.
pub fn validate_allowance_step(
    terms: &WalletTerms,
    from: PrincipalId,
    amount: u64,
    context: &CallContext,
    stage: CallStage,
    event: Event,
) -> (next: (CallStage, Step<()>))
    ensures
        validates_allowance(terms@, from, amount, *context, stage, event, next),
{
    match (stage, event) {
        (CallStage::Start, Event::Started) => {
            if terms.supports_allowance {
                (
                    CallStage::Awaiting,
                    Step::Call(allowance_query(terms.ledger, from, context.canister_id)),
                )
            } else {
                (
                    CallStage::Finished,
                    Step::Done(Err(CurrencyError::OperationNotSupported(unsupported(&terms.tag)))),
                )
            }
        },
        (CallStage::Awaiting, Event::Rejected(detail)) => (
            CallStage::Finished,
            Step::Done(Err(CurrencyError::AllowanceCheckFailed(detail))),
        ),
        (CallStage::Awaiting, Event::Allowance(allowance)) => (
            CallStage::Finished,
            Step::Done(judge_allowance(&allowance, amount, context.now)),
        ),
        _ => (CallStage::Finished, Step::Done(Err(unexpected_event()))),
    }
}

/// The message of a backend whose ledger offers no allowances.
pub fn unsupported(symbol: &String) -> (text: String)
    ensures
        text@ == unsupported_text(symbol@),
{
    String::from_str("Token ").concat(symbol.as_str()).concat(
        " does not support ICRC-2 (allowance) operations",
    )
}

/// One step of a deposit: the pull of `amount` out of the account of the
/// counter-party `from` into the custody, gated by the counter-party's
/// allowance, and the record of it in `store`.
pub fn deposit_step(
    terms: &WalletTerms,
    store: &mut TransactionState,
    from: PrincipalId,
    amount: u64,
    context: &CallContext,
    stage: DepositStage,
    event: Event,
) -> (next: (DepositStage, Step<()>))
    ensures
        deposits(
            terms@,
            old(store)@,
            old(store).high_water_mark(),
            from,
            amount,
            *context,
            stage,
            event,
            final(store)@,
            next,
        ),
        final(store).max_value_size() == old(store).max_value_size(),
{
    match (stage, event) {
        (DepositStage::Start, Event::Started) => {
            if terms.supports_allowance {
                (
                    DepositStage::AwaitingAllowance,
                    Step::Call(allowance_query(terms.ledger, from, context.canister_id)),
                )
            } else {
                (
                    DepositStage::Finished,
                    Step::Done(Err(CurrencyError::OperationNotSupported(unsupported(&terms.tag)))),
                )
            }
        },
        (DepositStage::AwaitingAllowance, Event::Rejected(detail)) => (
            DepositStage::Finished,
            Step::Done(Err(CurrencyError::AllowanceCheckFailed(detail))),
        ),
        (DepositStage::AwaitingAllowance, Event::Allowance(allowance)) => {
            match judge_allowance(&allowance, amount, context.now) {
                Err(error) => (DepositStage::Finished, Step::Done(Err(error))),
                Ok(()) => {
                    let call = RemoteCall::Icrc2TransferFrom {
                        ledger: terms.ledger,
                        args: TransferFromArg {
                            spender_subaccount: None,
                            from: Account::default_of(from),
                            to: Account::default_of(context.canister_id),
                            amount: amount as u128,
                            fee: Some(terms.pull_fee),
                            memo: None,
                            created_at_time: Some(context.now),
                        },
                    };
                    (DepositStage::AwaitingTransfer, Step::Call(call))
                },
            }
        },
        (DepositStage::AwaitingTransfer, Event::Rejected(detail)) => (
            DepositStage::Finished,
            Step::Done(Err(CurrencyError::TransferFromFailed(detail))),
        ),
        (DepositStage::AwaitingTransfer, Event::TransferFrom(Err(error))) => (
            DepositStage::Finished,
            Step::Done(Err(pull_failure(terms.family, &error))),
        ),
        (DepositStage::AwaitingTransfer, Event::TransferFrom(Ok(index))) => {
            let id = deposit_record_id(terms.tag.as_str(), index, &from, context.now);
            store.add_transaction(id);
            let minter = match terms.family {
                AssetFamily::Bitcoin => terms.minter,
                _ => None,
            };
            match minter {
                Some(minter) => {
                    let call = RemoteCall::UpdateBalance {
                        minter,
                        args: UpdateBalanceArg {
                            owner: Some(context.canister_id),
                            subaccount: None,
                        },
                    };
                    (DepositStage::AwaitingRefresh, Step::Call(call))
                },
                None => (DepositStage::Finished, Step::Done(Ok(()))),
            }
        },
        (DepositStage::AwaitingRefresh, _) => (DepositStage::Finished, Step::Done(Ok(()))),
        _ => (DepositStage::Finished, Step::Done(Err(unexpected_event()))),
    }
}

/// Whether `step` finishes with the error that a backend of `family`
/// makes of a failed transfer out of the custody: a ledger error with the
/// text `text`, which the Bitcoin backend reports as a failed withdrawal
/// that carries the ledger error's message.
pub open spec fn is_push_failure(family: AssetFamily, step: Step<()>, text: Seq<char>) -> bool {
    if family == AssetFamily::Bitcoin {
        &&& step matches Step::Done(Err(CurrencyError::WithdrawalFailed(wrapped)))
        &&& wrapped@ == "Ledger error: "@ + text
    } else {
        is_ledger_error(step, text)
    }
}

/// What a step of a withdrawal must give as `next`. The native backend
/// transfers on the native ledger, for that ledger's fee. The others
/// transfer on their own ledger, for their own fee, into the zero
/// subaccount of the receiver. The Bitcoin backend reports every failure
/// as a failed withdrawal that carries the failure's message.
pub open spec fn withdraws(
    terms: Terms,
    to: PrincipalId,
    amount: u64,
    context: CallContext,
    stage: CallStage,
    event: Event,
    next: (CallStage, Step<()>),
) -> bool {
    let wraps = terms.family == AssetFamily::Bitcoin;
    if terms.family == AssetFamily::Native {
        sends_native(amount, zero_subaccount(), to, stage, event, next)
    } else {
        match (stage, event) {
            (CallStage::Start, Event::Started) => if amount < terms.withdraw_fee {
                &&& next.0 == CallStage::Finished
                &&& next.1 matches Step::Done(Err(CurrencyError::WithdrawalFailed(text)))
                &&& text@ == if wraps {
                    "Withdraw failed: "@ + below_fee_text()
                } else {
                    below_fee_text()
                }
            } else {
                &&& next.0 == CallStage::Awaiting
                &&& next.1 matches Step::Call(call)
                &&& is_push(
                    call,
                    terms.ledger,
                    to,
                    zero_subaccount(),
                    (amount - terms.withdraw_fee) as u128,
                    Some(terms.withdraw_fee),
                    context.now,
                )
            },
            (CallStage::Awaiting, Event::Rejected(detail)) => {
                &&& next.0 == CallStage::Finished
                &&& is_push_failure(terms.family, next.1, "Failed to call ledger: "@ + detail@)
            },
            (CallStage::Awaiting, Event::Transfer(Ok(_))) => {
                &&& next.0 == CallStage::Finished
                &&& next.1 == Step::Done(Ok(()))
            },
            (CallStage::Awaiting, Event::Transfer(Err(error))) => {
                &&& next.0 == CallStage::Finished
                &&& is_push_failure(
                    terms.family,
                    next.1,
                    "Ledger transfer error: "@ + error.debug_text(),
                )
            },
            _ => {
                &&& next.0 == CallStage::Finished
                &&& if wraps {
                    &&& next.1 matches Step::Done(Err(CurrencyError::WithdrawalFailed(text)))
                    &&& text@ == "Canister call failed"@
                } else {
                    is_unexpected(next.1)
                }
            },
        }
    }
}

/// One step of a withdrawal: the push of `amount`, less the backend's fee,
/// out of the custody's default account to `to`.
pub fn withdraw_step(
    terms: &WalletTerms,
    to: PrincipalId,
    amount: u64,
    context: &CallContext,
    stage: CallStage,
    event: Event,
) -> (next: (CallStage, Step<()>))
    ensures
        withdraws(terms@, to, amount, *context, stage, event, next),
{
    let subaccount = create_default_subaccount();
    assert(subaccount.0@ =~= zero_subaccount());
    if terms.family == AssetFamily::Native {
        return transfer_icp(amount, subaccount, to, stage, event);
    }
    let bytes = subaccount_bytes(&subaccount);
    assert(bytes@ =~= zero_subaccount());
    let sent = transfer_icrc1(
        terms.ledger,
        amount,
        bytes,
        to,
        Some(terms.withdraw_fee),
        context.now,
        stage,
        event,
    );
    let step = match sent.1 {
        Step::Call(call) => Step::Call(call),
        Step::Done(Ok(_)) => Step::Done(Ok(())),
        Step::Done(Err(error)) => match terms.family {
            AssetFamily::Bitcoin => Step::Done(
                Err(CurrencyError::WithdrawalFailed(error.to_string())),
            ),
            _ => Step::Done(Err(error)),
        },
    };
    (sent.0, step)
}

/// What a step of a balance query must give as `next`.
pub open spec fn reports_balance(
    terms: Terms,
    owner: PrincipalId,
    stage: CallStage,
    event: Event,
    next: (CallStage, Step<u128>),
) -> bool {
    match (stage, event) {
        (CallStage::Start, Event::Started) => {
            &&& next.0 == CallStage::Awaiting
            &&& next.1 matches Step::Call(call)
            &&& is_balance_query(call, terms.ledger, owner)
        },
        (CallStage::Awaiting, Event::Rejected(detail)) => {
            &&& next.0 == CallStage::Finished
            &&& next.1 matches Step::Done(Err(CurrencyError::LedgerError(text)))
            &&& text@ == balance_query_failed_text(terms.asset_name, detail@)
        },
        (CallStage::Awaiting, Event::Number(balance)) => {
            &&& next.0 == CallStage::Finished
            &&& if balance@ <= u128::MAX {
                next.1 == Step::Done(Ok(balance@ as u128))
            } else {
                &&& next.1 matches Step::Done(Err(CurrencyError::LedgerError(text)))
                &&& text@ == balance_too_large_text(balance@)
            }
        },
        _ => next.0 == CallStage::Finished && is_unexpected(next.1),
    }
}

/// The balance that a ledger reported, as 128 bits.
pub fn read_balance(balance: &BigNat) -> (amount: Result<u128, CurrencyError>)
    ensures
        balance@ <= u128::MAX ==> amount == Ok::<u128, CurrencyError>(balance@ as u128),
        balance@ > u128::MAX ==> ({
            &&& amount matches Err(CurrencyError::LedgerError(text))
            &&& text@ == balance_too_large_text(balance@)
        }),
{
    match balance.to_u128() {
        Some(amount) => Ok(amount),
        None => Err(
            CurrencyError::LedgerError(
                String::from_str("Failed to convert balance '").concat(
                    balance.to_decimal_string().as_str(),
                ).concat("' to u128"),
            ),
        ),
    }
}

/// One step of a balance query: what the default account of `owner` holds
/// of the backend's asset.
pub fn balance_step(terms: &WalletTerms, owner: PrincipalId, stage: CallStage, event: Event) -> (next:
    (CallStage, Step<u128>))
    ensures
        reports_balance(terms@, owner, stage, event, next),
{
    match (stage, event) {
        (CallStage::Start, Event::Started) => (
            CallStage::Awaiting,
            Step::Call(
                RemoteCall::Icrc1BalanceOf {
                    ledger: terms.ledger,
                    account: Account::default_of(owner),
                },
            ),
        ),
        (CallStage::Awaiting, Event::Rejected(detail)) => (
            CallStage::Finished,
            Step::Done(
                Err(
                    CurrencyError::LedgerError(
                        String::from_str("Failed to query ").concat(
                            terms.asset_name.as_str(),
                        ).concat(" balance: ").concat(detail.as_str()),
                    ),
                ),
            ),
        ),
        (CallStage::Awaiting, Event::Number(balance)) => (
            CallStage::Finished,
            Step::Done(read_balance(&balance)),
        ),
        _ => (CallStage::Finished, Step::Done(Err(unexpected_event()))),
    }
}

/// What a step of an allowance query must give as `next`: the query for
/// what `account` lets `spender` draw on `ledger`, then the allowance.
pub open spec fn queries_allowance(
    ledger: PrincipalId,
    account: Account,
    spender: Account,
    stage: CallStage,
    event: Event,
    next: (CallStage, Step<Allowance>),
) -> bool {
    match (stage, event) {
        (CallStage::Start, Event::Started) => {
            &&& next.0 == CallStage::Awaiting
            &&& next.1 matches Step::Call(RemoteCall::Icrc2Allowance { ledger: asked, args })
            &&& asked == ledger
            &&& args.account == account
            &&& args.spender == spender
        },
        (CallStage::Awaiting, Event::Rejected(detail)) => {
            &&& next.0 == CallStage::Finished
            &&& next.1 matches Step::Done(Err(CurrencyError::AllowanceCheckFailed(text)))
            &&& text@ == detail@
        },
        (CallStage::Awaiting, Event::Allowance(allowance)) => {
            &&& next.0 == CallStage::Finished
            &&& next.1 == Step::Done(Ok(allowance))
        },
        _ => next.0 == CallStage::Finished && is_unexpected(next.1),
    }
}

/// What a step of a pull must give as `next`: the transfer of `amount` on
/// `ledger` out of `from` into `to`, then the index of the transfer.
pub open spec fn pulls(
    family: AssetFamily,
    ledger: PrincipalId,
    from: Account,
    to: Account,
    amount: u128,
    fee: u128,
    now: u64,
    stage: CallStage,
    event: Event,
    next: (CallStage, Step<u128>),
) -> bool {
    match (stage, event) {
        (CallStage::Start, Event::Started) => {
            &&& next.0 == CallStage::Awaiting
            &&& next.1 matches Step::Call(RemoteCall::Icrc2TransferFrom { ledger: asked, args })
            &&& asked == ledger
            &&& args.spender_subaccount is None
            &&& args.from == from
            &&& args.to == to
            &&& args.amount == amount
            &&& args.fee == Some(fee)
            &&& args.memo is None
            &&& args.created_at_time == Some(now)
        },
        (CallStage::Awaiting, Event::Rejected(detail)) => {
            &&& next.0 == CallStage::Finished
            &&& next.1 matches Step::Done(Err(CurrencyError::TransferFromFailed(text)))
            &&& text@ == detail@
        },
        (CallStage::Awaiting, Event::TransferFrom(Ok(index))) => {
            &&& next.0 == CallStage::Finished
            &&& next.1 == Step::Done(Ok(index))
        },
        (CallStage::Awaiting, Event::TransferFrom(Err(error))) => {
            &&& next.0 == CallStage::Finished
            &&& next.1 matches Step::Done(Err(failure))
            &&& is_pull_failure(family, error, failure)
        },
        _ => next.0 == CallStage::Finished && is_unexpected(next.1),
    }
}

/// One step of an allowance query.
pub fn check_allowance_step(
    ledger: PrincipalId,
    account: Account,
    spender: Account,
    stage: CallStage,
    event: Event,
) -> (next: (CallStage, Step<Allowance>))
    ensures
        queries_allowance(ledger, account, spender, stage, event, next),
{
    match (stage, event) {
        (CallStage::Start, Event::Started) => (
            CallStage::Awaiting,
            Step::Call(RemoteCall::Icrc2Allowance { ledger, args: AllowanceArgs { account, spender } }),
        ),
        (CallStage::Awaiting, Event::Rejected(detail)) => (
            CallStage::Finished,
            Step::Done(Err(CurrencyError::AllowanceCheckFailed(detail))),
        ),
        (CallStage::Awaiting, Event::Allowance(allowance)) => (
            CallStage::Finished,
            Step::Done(Ok(allowance)),
        ),
        _ => (CallStage::Finished, Step::Done(Err(unexpected_event()))),
    }
}

/// One step of a pull.
pub fn transfer_from_step(
    family: AssetFamily,
    ledger: PrincipalId,
    from: Account,
    to: Account,
    amount: u128,
    fee: u128,
    now: u64,
    stage: CallStage,
    event: Event,
) -> (next: (CallStage, Step<u128>))
    ensures
        pulls(family, ledger, from, to, amount, fee, now, stage, event, next),
{
    match (stage, event) {
        (CallStage::Start, Event::Started) => (
            CallStage::Awaiting,
            Step::Call(
                RemoteCall::Icrc2TransferFrom {
                    ledger,
                    args: TransferFromArg {
                        spender_subaccount: None,
                        from,
                        to,
                        amount,
                        fee: Some(fee),
                        memo: None,
                        created_at_time: Some(now),
                    },
                },
            ),
        ),
        (CallStage::Awaiting, Event::Rejected(detail)) => (
            CallStage::Finished,
            Step::Done(Err(CurrencyError::TransferFromFailed(detail))),
        ),
        (CallStage::Awaiting, Event::TransferFrom(Ok(index))) => (
            CallStage::Finished,
            Step::Done(Ok(index)),
        ),
        (CallStage::Awaiting, Event::TransferFrom(Err(error))) => (
            CallStage::Finished,
            Step::Done(Err(pull_failure(family, &error))),
        ),
        _ => (CallStage::Finished, Step::Done(Err(unexpected_event()))),
    }
}

/// What every asset backend can do. A backend states its terms; the four
/// operations follow from them, each as a step function that the host
/// drives from `Start` until a step is `Done`.
pub trait CanisterWallet {
    /// The terms of the backend.
    spec fn terms(&self) -> Terms;

    /// The terms of the backend.
    fn wallet_terms(&self) -> (terms: WalletTerms)
        ensures
            terms@ == self.terms(),
    ;

    /// One step of a deposit into the custody out of the account of `from`.
    fn deposit(
        &self,
        transaction_state: &mut TransactionState,
        from_principal: PrincipalId,
        amount: u64,
        context: &CallContext,
        stage: DepositStage,
        event: Event,
    ) -> (next: (DepositStage, Step<()>))
        ensures
            deposits(
                self.terms(),
                old(transaction_state)@,
                old(transaction_state).high_water_mark(),
                from_principal,
                amount,
                *context,
                stage,
                event,
                final(transaction_state)@,
                next,
            ),
            final(transaction_state).max_value_size() == old(transaction_state).max_value_size(),
    {
        let terms = self.wallet_terms();
        deposit_step(&terms, transaction_state, from_principal, amount, context, stage, event)
    }

    /// One step of a check that `from_principal` lets the custody draw
    /// `amount`.
    fn validate_allowance(
        &self,
        from_principal: PrincipalId,
        amount: u64,
        context: &CallContext,
        stage: CallStage,
        event: Event,
    ) -> (next: (CallStage, Step<()>))
        ensures
            validates_allowance(self.terms(), from_principal, amount, *context, stage, event, next),
    {
        let terms = self.wallet_terms();
        validate_allowance_step(&terms, from_principal, amount, context, stage, event)
    }

    /// One step of a withdrawal out of the custody to `wallet_principal_id`.
    fn withdraw(
        &self,
        wallet_principal_id: PrincipalId,
        amount: u64,
        context: &CallContext,
        stage: CallStage,
        event: Event,
    ) -> (next: (CallStage, Step<()>))
        ensures
            withdraws(self.terms(), wallet_principal_id, amount, *context, stage, event, next),
    {
        let terms = self.wallet_terms();
        withdraw_step(&terms, wallet_principal_id, amount, context, stage, event)
    }

    /// One step of a query for what `principal_id` holds of the asset.
    fn get_balance(&self, principal_id: PrincipalId, stage: CallStage, event: Event) -> (next: (
        CallStage,
        Step<u128>,
    ))
        ensures
            reports_balance(self.terms(), principal_id, stage, event, next),
    {
        let terms = self.wallet_terms();
        balance_step(&terms, principal_id, stage, event)
    }
}

/// Behind a hyphen, a tail without hyphens is the last hyphen-delimited
/// field.
pub proof fn lemma_last_field(head: Seq<char>, tail: Seq<char>)
    requires
        forall|i: int| 0 <= i < tail.len() ==> tail[i] != '-',
    ensures
        last_dash(head + seq!['-'] + tail) == head.len(),
        (head + seq!['-'] + tail).skip(head.len() as int + 1) == tail,
    decreases tail.len(),
{
    let whole = head + seq!['-'] + tail;
    assert(whole.skip(head.len() as int + 1) =~= tail);
    if tail.len() == 0 {
        assert(whole.last() == '-');
    } else {
        assert(whole.last() == tail.last());
        assert(whole.drop_last() =~= head + seq!['-'] + tail.drop_last());
        lemma_last_field(head, tail.drop_last());
    }
}

/// The identifier of a deposit carries the time of the deposit as its
/// timestamp, as long as the time fits a signed 64-bit integer.
pub proof fn lemma_deposit_id_timestamp(tag: Seq<char>, index: nat, from: Seq<u8>, now: nat)
    requires
        now <= i64::MAX,
    ensures
        timestamp_of(deposit_id(tag, index, from, now)) == Some(now as int),
{
    reveal_strlit("-");
    let head = tag + "-DEPOSIT-"@ + decimal(index) + "-"@ + principal_text(from);
    let tail = decimal(now);
    lemma_decimal_digits(now);
    assert forall|i: int| 0 <= i < tail.len() implies tail[i] != '-' by {
        assert(crate::text::is_digit(tail[i]));
    }
    assert("-"@ =~= seq!['-']);
    lemma_last_field(head, tail);
    assert(deposit_id(tag, index, from, now) == head + seq!['-'] + tail);
    lemma_parse_decimal(now, i64::MAX as nat);
}

/// A deposit whose allowance is below the amount fails for want of
/// allowance, asks for no transfer and records nothing.
pub proof fn lemma_deposit_below_allowance(
    terms: Terms,
    ids: Seq<Seq<char>>,
    mark: nat,
    from: PrincipalId,
    amount: u64,
    context: CallContext,
    allowance: Allowance,
    ids_after: Seq<Seq<char>>,
    next: (DepositStage, Step<()>),
)
    requires
        allowance.allowance < amount,
        deposits(
            terms,
            ids,
            mark,
            from,
            amount,
            context,
            DepositStage::AwaitingAllowance,
            Event::Allowance(allowance),
            ids_after,
            next,
        ),
    ensures
        next.1 == Step::<()>::Done(Err(CurrencyError::InsufficientAllowance)),
        next.0 == DepositStage::Finished,
        ids_after == ids,
{
}

/// A deposit whose allowance expires at or before the current time fails
/// for want of allowance, however large the allowance is, and records
/// nothing.
pub proof fn lemma_deposit_expired_allowance(
    terms: Terms,
    ids: Seq<Seq<char>>,
    mark: nat,
    from: PrincipalId,
    amount: u64,
    context: CallContext,
    allowance: Allowance,
    ids_after: Seq<Seq<char>>,
    next: (DepositStage, Step<()>),
)
    requires
        allowance.expires_at matches Some(expires_at) && expires_at <= context.now,
        deposits(
            terms,
            ids,
            mark,
            from,
            amount,
            context,
            DepositStage::AwaitingAllowance,
            Event::Allowance(allowance),
            ids_after,
            next,
        ),
    ensures
        next.1 == Step::<()>::Done(Err(CurrencyError::InsufficientAllowance)),
        next.0 == DepositStage::Finished,
        ids_after == ids,
{
}

/// A deposit changes the store in one place only: where the pull came
/// back with the index of the transfer.
pub proof fn lemma_deposit_records_after_pull(
    terms: Terms,
    ids: Seq<Seq<char>>,
    mark: nat,
    from: PrincipalId,
    amount: u64,
    context: CallContext,
    stage: DepositStage,
    event: Event,
    ids_after: Seq<Seq<char>>,
    next: (DepositStage, Step<()>),
)
    requires
        deposits(terms, ids, mark, from, amount, context, stage, event, ids_after, next),
        !(stage == DepositStage::AwaitingTransfer && event matches Event::TransferFrom(Ok(_))),
    ensures
        ids_after == ids,
        !(next.1 matches Step::Done(Ok(_))) || stage == DepositStage::AwaitingRefresh,
{
}

/// A deposit whose pull came back with the index of the transfer is
/// recorded: the store then holds the deposit's identifier, and the
/// identifier carries the time of the record as its timestamp, as long as
/// the time fits a signed 64-bit integer.
pub proof fn lemma_deposit_is_recorded(
    terms: Terms,
    ids: Seq<Seq<char>>,
    mark: nat,
    from: PrincipalId,
    amount: u64,
    context: CallContext,
    index: u128,
    ids_after: Seq<Seq<char>>,
    next: (DepositStage, Step<()>),
)
    requires
        deposits(
            terms,
            ids,
            mark,
            from,
            amount,
            context,
            DepositStage::AwaitingTransfer,
            Event::TransferFrom(Ok(index)),
            ids_after,
            next,
        ),
    ensures
        ids_after.contains(deposit_id(terms.tag, index as nat, from@, context.now as nat)),
        context.now <= i64::MAX ==> timestamp_of(
            deposit_id(terms.tag, index as nat, from@, context.now as nat),
        ) == Some(context.now as int),
        !(next.1 matches Step::Done(Err(_))),
{
    let id = deposit_id(terms.tag, index as nat, from@, context.now as nat);
    lemma_insert_contains(ids, id, mark);
    if context.now <= i64::MAX {
        lemma_deposit_id_timestamp(terms.tag, index as nat, from@, context.now as nat);
    }
}

} // verus!
