//! The backend of the wrapped Bitcoin asset.

use crate::ckbtc_minter_canister_interface::{
    GetBtcAddressArg, UpdateBalanceArg, UpdateBalanceError, UpdateBalanceRet, UtxoStatus,
};
use crate::currency_error::CurrencyError;
use crate::icrc1_types::{Account, Allowance};
use crate::principal::PrincipalId;
use crate::remote::{
    is_unexpected, unexpected_event, CallContext, CallStage, Event, RemoteCall, Step,
};
use crate::text::{decimal, decimal_string};
use crate::types::canister_wallet::{
    check_allowance_step, is_refresh, pulls, queries_allowance, transfer_from_step, AssetFamily,
    CanisterWallet, Terms, WalletTerms,
};
use crate::types::constants::{
    canister_bytes, canister_id, BTC_DECIMALS, BTC_LEDGER_NUMBER, BTC_MINTER_NUMBER,
};
use crate::types::currency::{CKTokenConfig, CKTokenSymbol};
use vstd::prelude::*;
use vstd::string::StringExecFns;

verus! {

/// The backend of the wrapped Bitcoin asset.
#[derive(Debug, Clone, Copy, PartialEq, Eq)]
pub struct CKBTCTokenWallet {
    pub config: CKTokenConfig,
}

impl CanisterWallet for CKBTCTokenWallet {
    open spec fn terms(&self) -> Terms {
        Terms {
            family: AssetFamily::Bitcoin,
            ledger: self.config.ledger_id,
            minter: Some(self.config.minter_id),
            tag: "CKBTC"@,
            asset_name: "ckBTC"@,
            pull_fee: self.config.fee,
            withdraw_fee: self.config.fee,
            supports_allowance: true,
        }
    }

    fn wallet_terms(&self) -> (terms: WalletTerms) {
        WalletTerms {
            family: AssetFamily::Bitcoin,
            ledger: self.config.ledger_id,
            minter: Some(self.config.minter_id),
            tag: String::from_str("CKBTC"),
            asset_name: String::from_str("ckBTC"),
            pull_fee: self.config.fee,
            withdraw_fee: self.config.fee,
            supports_allowance: true,
        }
    }
}

/// What the backend says of a balance refresh that the minter refused.
pub open spec fn refresh_failure_text(error: UpdateBalanceError) -> Seq<char> {
    match error {
        UpdateBalanceError::GenericError { error_message, error_code } => "Error code "@ + decimal(
            error_code as nat,
        ) + ": "@ + error_message@,
        UpdateBalanceError::TemporarilyUnavailable(message) => "Service temporarily unavailable: "@
            + message@,
        UpdateBalanceError::AlreadyProcessing => "Already processing balance update"@,
        UpdateBalanceError::NoNewUtxos { required_confirmations, current_confirmations, .. } =>
            "No new UTXOs available. Required confirmations: "@ + decimal(
                required_confirmations as nat,
            ) + ", Current: "@ + decimal(
                match current_confirmations {
                    Some(count) => count as nat,
                    None => 0,
                },
            ),
    }
}

impl CKBTCTokenWallet {
    /// The configuration of the wrapped Bitcoin asset: its minter, its
    /// ledger, eight decimals and a fee of ten units.
    pub open spec fn default_config() -> CKTokenConfig {
        CKTokenConfig {
            minter_id: crate::principal::principal_of(canister_bytes(BTC_MINTER_NUMBER)),
            ledger_id: crate::principal::principal_of(canister_bytes(BTC_LEDGER_NUMBER)),
            token_symbol: CKTokenSymbol::BTC,
            decimals: BTC_DECIMALS,
            fee: 10,
        }
    }

    /// The backend with the asset's well-known configuration.
    pub fn new() -> (wallet: CKBTCTokenWallet)
        ensures
            wallet.config == Self::default_config(),
    {
        let config = CKTokenConfig {
            minter_id: canister_id(BTC_MINTER_NUMBER),
            ledger_id: canister_id(BTC_LEDGER_NUMBER),
            token_symbol: CKTokenSymbol::BTC,
            decimals: BTC_DECIMALS,
            fee: 10,
        };
        CKBTCTokenWallet { config }
    }

    /// One step of a query for the Bitcoin address on which the custody
    /// receives deposits.
    pub fn get_deposit_address(&self, context: &CallContext, stage: CallStage, event: Event) -> (next:
        (CallStage, Step<String>))
        ensures
            match (stage, event) {
                (CallStage::Start, Event::Started) => {
                    &&& next.0 == CallStage::Awaiting
                    &&& next.1 matches Step::Call(RemoteCall::GetBtcAddress { minter, args })
                    &&& minter == self.config.minter_id
                    &&& args.owner == Some(context.canister_id)
                    &&& args.subaccount is None
                },
                (CallStage::Awaiting, Event::Rejected(detail)) => {
                    &&& next.0 == CallStage::Finished
                    &&& next.1 matches Step::Done(Err(CurrencyError::CanisterCallFailed(text)))
                    &&& text@ == detail@
                },
                (CallStage::Awaiting, Event::Text(address)) => {
                    &&& next.0 == CallStage::Finished
                    &&& next.1 matches Step::Done(Ok(text))
                    &&& text@ == address@
                },
                _ => next.0 == CallStage::Finished && is_unexpected(next.1),
            },
    {
        match (stage, event) {
            (CallStage::Start, Event::Started) => (
                CallStage::Awaiting,
                Step::Call(
                    RemoteCall::GetBtcAddress {
                        minter: self.config.minter_id,
                        args: GetBtcAddressArg {
                            owner: Some(context.canister_id),
                            subaccount: None,
                        },
                    },
                ),
            ),
            (CallStage::Awaiting, Event::Rejected(detail)) => (
                CallStage::Finished,
                Step::Done(Err(CurrencyError::CanisterCallFailed(detail))),
            ),
            (CallStage::Awaiting, Event::Text(address)) => (
                CallStage::Finished,
                Step::Done(Ok(address)),
            ),
            _ => (CallStage::Finished, Step::Done(Err(unexpected_event()))),
        }
    }

    /// One step of a query for what `from_principal` lets the custody draw.
    pub fn check_allowance(
        &self,
        from_principal: PrincipalId,
        context: &CallContext,
        stage: CallStage,
        event: Event,
    ) -> (next: (CallStage, Step<Allowance>))
        ensures
            queries_allowance(
                self.config.ledger_id,
                Account { owner: from_principal, subaccount: None },
                Account { owner: context.canister_id, subaccount: None },
                stage,
                event,
                next,
            ),
    {
        check_allowance_step(
            self.config.ledger_id,
            Account::default_of(from_principal),
            Account::default_of(context.canister_id),
            stage,
            event,
        )
    }

    /// One step of a pull of `amount` out of the account of
    /// `from_principal` into the custody.
    pub fn transfer_from(
        &self,
        from_principal: PrincipalId,
        amount: u64,
        context: &CallContext,
        stage: CallStage,
        event: Event,
    ) -> (next: (CallStage, Step<u128>))
        ensures
            pulls(
                AssetFamily::Bitcoin,
                self.config.ledger_id,
                Account { owner: from_principal, subaccount: None },
                Account { owner: context.canister_id, subaccount: None },
                amount as u128,
                self.config.fee,
                context.now,
                stage,
                event,
                next,
            ),
    {
        transfer_from_step(
            AssetFamily::Bitcoin,
            self.config.ledger_id,
            Account::default_of(from_principal),
            Account::default_of(context.canister_id),
            amount as u128,
            self.config.fee,
            context.now,
            stage,
            event,
        )
    }

    /// One step of a balance refresh: the minter looks for new deposits to
    /// the custody and says what became of each.
    pub fn update_balance(&self, context: &CallContext, stage: CallStage, event: Event) -> (next: (
        CallStage,
        Step<Vec<UtxoStatus>>,
    ))
        ensures
            match (stage, event) {
                (CallStage::Start, Event::Started) => {
                    &&& next.0 == CallStage::Awaiting
                    &&& next.1 matches Step::Call(call)
                    &&& is_refresh(call, self.config.minter_id, context.canister_id)
                },
                (CallStage::Awaiting, Event::Rejected(detail)) => {
                    &&& next.0 == CallStage::Finished
                    &&& next.1 matches Step::Done(Err(CurrencyError::CanisterCallFailed(text)))
                    &&& text@ == detail@
                },
                (CallStage::Awaiting, Event::BalanceRefreshed(UpdateBalanceRet::Success(statuses))) => {
                    &&& next.0 == CallStage::Finished
                    &&& next.1 == Step::Done(Ok(statuses))
                },
                (CallStage::Awaiting, Event::BalanceRefreshed(UpdateBalanceRet::Failure(error))) => {
                    &&& next.0 == CallStage::Finished
                    &&& next.1 matches Step::Done(Err(CurrencyError::LedgerError(text)))
                    &&& text@ == refresh_failure_text(error)
                },
                _ => next.0 == CallStage::Finished && is_unexpected(next.1),
            },
    {
        match (stage, event) {
            (CallStage::Start, Event::Started) => (
                CallStage::Awaiting,
                Step::Call(
                    RemoteCall::UpdateBalance {
                        minter: self.config.minter_id,
                        args: UpdateBalanceArg {
                            owner: Some(context.canister_id),
                            subaccount: None,
                        },
                    },
                ),
            ),
            (CallStage::Awaiting, Event::Rejected(detail)) => (
                CallStage::Finished,
                Step::Done(Err(CurrencyError::CanisterCallFailed(detail))),
            ),
            (CallStage::Awaiting, Event::BalanceRefreshed(UpdateBalanceRet::Success(statuses))) => (
                CallStage::Finished,
                Step::Done(Ok(statuses)),
            ),
            (CallStage::Awaiting, Event::BalanceRefreshed(UpdateBalanceRet::Failure(error))) => {
                let text = match &error {
                    UpdateBalanceError::GenericError { error_message, error_code } =>
                        String::from_str("Error code ").concat(
                            decimal_string(*error_code as u128).as_str(),
                        ).concat(": ").concat(error_message.as_str()),
                    UpdateBalanceError::TemporarilyUnavailable(message) => String::from_str(
                        "Service temporarily unavailable: ",
                    ).concat(message.as_str()),
                    UpdateBalanceError::AlreadyProcessing => String::from_str(
                        "Already processing balance update",
                    ),
                    UpdateBalanceError::NoNewUtxos {
                        required_confirmations,
                        current_confirmations,
                        ..
                    } => {
                        let current: u32 = match current_confirmations {
                            Some(count) => *count,
                            None => 0,
                        };
                        String::from_str("No new UTXOs available. Required confirmations: ").concat(
                            decimal_string(*required_confirmations as u128).as_str(),
                        ).concat(", Current: ").concat(decimal_string(current as u128).as_str())
                    },
                };
                (CallStage::Finished, Step::Done(Err(CurrencyError::LedgerError(text))))
            },
            _ => (CallStage::Finished, Step::Done(Err(unexpected_event()))),
        }
    }
}

impl Default for CKBTCTokenWallet {
    fn default() -> (wallet: CKBTCTokenWallet)
        ensures
            wallet.config == CKBTCTokenWallet::default_config(),
    {
        CKBTCTokenWallet::new()
    }
}

} // verus!
