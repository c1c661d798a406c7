//! Transfers out of the custody: on the native ledger, and on the ledgers
//! of the token standard.

use crate::currency_error::CurrencyError;
use crate::icrc1_types::{Account, TransferArg};
use crate::principal::PrincipalId;
use crate::remote::{
    is_unexpected, unexpected_event, CallStage, Event, LedgerTransferArgs, RemoteCall, Step,
};
use crate::utils::{
    account_identifier, account_identifier_bytes, default_fee, default_fee_e8s,
    default_receiving_subaccount, mainnet_ledger_bytes, mainnet_ledger_id, zero_subaccount,
    Subaccount,
};
use vstd::prelude::*;
use vstd::string::StringExecFns;

verus! {

/// The message for a transfer of less than the fee.
pub open spec fn below_fee_text() -> Seq<char> {
    "Amount does not cover the fee"@
}

/// Whether `step` refuses a transfer whose amount does not cover the fee.
pub open spec fn is_below_fee<T>(step: Step<T>) -> bool {
    &&& step matches Step::Done(Err(CurrencyError::WithdrawalFailed(text)))
    &&& text@ == below_fee_text()
}

/// Whether `step` finishes with a ledger error whose text is `text`.
pub open spec fn is_ledger_error<T>(step: Step<T>, text: Seq<char>) -> bool {
    &&& step matches Step::Done(Err(CurrencyError::LedgerError(message)))
    &&& message@ == text
}

/// Whether `call` is the transfer of `amount` on the native ledger out of
/// the custody's subaccount `from_subaccount` to the address of the zero
/// subaccount of `to`, for the ledger's fee.
pub open spec fn is_native_push(
    call: RemoteCall,
    from_subaccount: Seq<u8>,
    to: PrincipalId,
    amount: u64,
) -> bool {
    &&& call matches RemoteCall::LedgerTransfer { ledger, args }
    &&& ledger@ == mainnet_ledger_bytes()
    &&& args.memo == 0
    &&& args.amount_e8s == amount
    &&& args.fee_e8s == default_fee()
    &&& args.from_subaccount matches Some(subaccount)
    &&& subaccount.0@ == from_subaccount
    &&& args.to.0@ == account_identifier_bytes(to@, zero_subaccount())
    &&& args.created_at_time is None
}

/// Whether `call` is the transfer of `amount` on `ledger` out of the
/// custody's default account into the subaccount `subaccount` of `to`,
/// naming `fee` and the time `now`.
pub open spec fn is_push(
    call: RemoteCall,
    ledger: PrincipalId,
    to: PrincipalId,
    subaccount: Seq<u8>,
    amount: u128,
    fee: Option<u128>,
    now: u64,
) -> bool {
    &&& call matches RemoteCall::Icrc1Transfer { ledger: asked, args }
    &&& asked == ledger
    &&& args.to.is_subaccount_of(to, subaccount)
    &&& args.fee == fee
    &&& args.memo is None
    &&& args.from_subaccount is None
    &&& args.created_at_time == Some(now)
    &&& args.amount == amount
}

/// The fee by which a transfer's amount is reduced: the fee named, or the
/// native ledger's where none is.
pub open spec fn fee_or_default(fee: Option<u128>) -> u128 {
    match fee {
        Some(fee) => fee,
        None => default_fee() as u128,
    }
}

/// What a step of a transfer on the native ledger must give as `next`.
pub open spec fn sends_native(
    amount: u64,
    from_subaccount: Seq<u8>,
    to: PrincipalId,
    stage: CallStage,
    event: Event,
    next: (CallStage, Step<()>),
) -> bool {
    match (stage, event) {
        (CallStage::Start, Event::Started) => if amount < default_fee() {
            next.0 == CallStage::Finished && is_below_fee(next.1)
        } else {
            &&& next.0 == CallStage::Awaiting
            &&& next.1 matches Step::Call(call)
            &&& is_native_push(call, from_subaccount, to, (amount - default_fee()) as u64)
        },
        (CallStage::Awaiting, Event::Rejected(detail)) => {
            &&& next.0 == CallStage::Finished
            &&& is_ledger_error(next.1, "ICDK call error: "@ + detail@)
        },
        (CallStage::Awaiting, Event::LedgerTransfer(Ok(_))) => {
            &&& next.0 == CallStage::Finished
            &&& next.1 == Step::Done(Ok(()))
        },
        (CallStage::Awaiting, Event::LedgerTransfer(Err(detail))) => {
            &&& next.0 == CallStage::Finished
            &&& is_ledger_error(next.1, "Transfer failed: "@ + detail@)
        },
        _ => next.0 == CallStage::Finished && is_unexpected(next.1),
    }
}

/// What a step of a transfer on a ledger of the token standard must give
/// as `next`.
pub open spec fn sends(
    ledger: PrincipalId,
    amount: u64,
    subaccount: Seq<u8>,
    to: PrincipalId,
    fee: Option<u128>,
    now: u64,
    stage: CallStage,
    event: Event,
    next: (CallStage, Step<u128>),
) -> bool {
    match (stage, event) {
        (CallStage::Start, Event::Started) => if amount < fee_or_default(fee) {
            next.0 == CallStage::Finished && is_below_fee(next.1)
        } else {
            &&& next.0 == CallStage::Awaiting
            &&& next.1 matches Step::Call(call)
            &&& is_push(
                call,
                ledger,
                to,
                subaccount,
                (amount - fee_or_default(fee)) as u128,
                fee,
                now,
            )
        },
        (CallStage::Awaiting, Event::Rejected(detail)) => {
            &&& next.0 == CallStage::Finished
            &&& is_ledger_error(next.1, "Failed to call ledger: "@ + detail@)
        },
        (CallStage::Awaiting, Event::Transfer(Ok(index))) => {
            &&& next.0 == CallStage::Finished
            &&& next.1 == Step::Done(Ok(index))
        },
        (CallStage::Awaiting, Event::Transfer(Err(error))) => {
            &&& next.0 == CallStage::Finished
            &&& is_ledger_error(next.1, "Ledger transfer error: "@ + error.debug_text())
        },
        _ => next.0 == CallStage::Finished && is_unexpected(next.1),
    }
}

/// The step that refuses a transfer whose amount does not cover the fee.
pub fn below_fee<T>() -> (step: Step<T>)
    ensures
        is_below_fee(step),
{
    Step::Done(
        Err(CurrencyError::WithdrawalFailed(String::from_str("Amount does not cover the fee"))),
    )
}

/// The step that finishes with a ledger error whose text is `head`, then
/// `detail`.
pub fn ledger_error<T>(head: &str, detail: &str) -> (step: Step<T>)
    ensures
        is_ledger_error(step, head@ + detail@),
{
    Step::Done(Err(CurrencyError::LedgerError(String::from_str(head).concat(detail))))
}

/// One step of a transfer on the native ledger: `amount`, less the
/// ledger's fee, goes out of the custody's subaccount `default_subaccount`
/// to the default account of `to`.
pub fn transfer_icp(
    amount: u64,
    default_subaccount: Subaccount,
    to: PrincipalId,
    stage: CallStage,
    event: Event,
) -> (next: (CallStage, Step<()>))
    ensures
        sends_native(amount, default_subaccount.0@, to, stage, event, next),
{
    match (stage, event) {
        (CallStage::Start, Event::Started) => {
            let fee = default_fee_e8s();
            if amount < fee {
                return (CallStage::Finished, below_fee());
            }
            let receiving = default_receiving_subaccount();
            assert(receiving.0@ =~= zero_subaccount());
            let call = RemoteCall::LedgerTransfer {
                ledger: mainnet_ledger_id(),
                args: LedgerTransferArgs {
                    memo: 0,
                    amount_e8s: amount - fee,
                    fee_e8s: fee,
                    from_subaccount: Some(default_subaccount),
                    to: account_identifier(&to, &receiving),
                    created_at_time: None,
                },
            };
            (CallStage::Awaiting, Step::Call(call))
        },
        (CallStage::Awaiting, Event::Rejected(detail)) => (
            CallStage::Finished,
            ledger_error("ICDK call error: ", detail.as_str()),
        ),
        (CallStage::Awaiting, Event::LedgerTransfer(Ok(_))) => (
            CallStage::Finished,
            Step::Done(Ok(())),
        ),
        (CallStage::Awaiting, Event::LedgerTransfer(Err(detail))) => (
            CallStage::Finished,
            ledger_error("Transfer failed: ", detail.as_str()),
        ),
        _ => (CallStage::Finished, Step::Done(Err(unexpected_event()))),
    }
}

/// One step of a transfer on a ledger of the token standard: `amount`, less
/// the fee, goes out of the custody's default account to the subaccount
/// `default_subaccount` of `to_account`. The result is the index that the
/// ledger gave the transfer.
pub fn transfer_icrc1(
    ledger_canister_id: PrincipalId,
    amount: u64,
    default_subaccount: Vec<u8>,
    to_account: PrincipalId,
    fee: Option<u128>,
    now: u64,
    stage: CallStage,
    event: Event,
) -> (next: (CallStage, Step<u128>))
    ensures
        sends(
            ledger_canister_id,
            amount,
            default_subaccount@,
            to_account,
            fee,
            now,
            stage,
            event,
            next,
        ),
{
    match (stage, event) {
        (CallStage::Start, Event::Started) => {
            let deducted: u128 = match fee {
                Some(fee) => fee,
                None => default_fee_e8s() as u128,
            };
            if (amount as u128) < deducted {
                return (CallStage::Finished, below_fee());
            }
            let call = RemoteCall::Icrc1Transfer {
                ledger: ledger_canister_id,
                args: TransferArg {
                    to: Account { owner: to_account, subaccount: Some(default_subaccount) },
                    fee,
                    memo: None,
                    from_subaccount: None,
                    created_at_time: Some(now),
                    amount: amount as u128 - deducted,
                },
            };
            (CallStage::Awaiting, Step::Call(call))
        },
        (CallStage::Awaiting, Event::Rejected(detail)) => (
            CallStage::Finished,
            ledger_error("Failed to call ledger: ", detail.as_str()),
        ),
        (CallStage::Awaiting, Event::Transfer(Ok(index))) => (
            CallStage::Finished,
            Step::Done(Ok(index)),
        ),
        (CallStage::Awaiting, Event::Transfer(Err(error))) => (
            CallStage::Finished,
            ledger_error("Ledger transfer error: ", error.debug_string().as_str()),
        ),
        _ => (CallStage::Finished, Step::Done(Err(unexpected_event()))),
    }
}

} // verus!
