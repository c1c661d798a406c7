//! The backend of the native settlement token.

use crate::icrc1_types::{Account, Allowance};
use crate::principal::{principal_of, PrincipalId};
use crate::remote::{CallContext, CallStage, Event, Step};
use crate::types::canister_wallet::{
    check_allowance_step, pulls, queries_allowance, transfer_from_step, AssetFamily,
    CanisterWallet, Terms, WalletTerms,
};
use crate::utils::{default_fee, default_fee_e8s, mainnet_ledger_bytes, mainnet_ledger_id};
use vstd::prelude::*;
use vstd::string::StringExecFns;

verus! {

/// The backend of the native settlement token. It has no configuration of
/// its own: the ledger and its fee are the network's.
#[derive(Debug, Clone, Copy, PartialEq, Eq, Structural)]
pub struct ICPCanisterWallet;

impl CanisterWallet for ICPCanisterWallet {
    open spec fn terms(&self) -> Terms {
        Terms {
            family: AssetFamily::Native,
            ledger: principal_of(mainnet_ledger_bytes()),
            minter: None,
            tag: "ICP"@,
            asset_name: "ICP"@,
            pull_fee: default_fee() as u128,
            withdraw_fee: default_fee() as u128,
            supports_allowance: true,
        }
    }

    fn wallet_terms(&self) -> (terms: WalletTerms) {
        let fee = default_fee_e8s() as u128;
        WalletTerms {
            family: AssetFamily::Native,
            ledger: mainnet_ledger_id(),
            minter: None,
            tag: String::from_str("ICP"),
            asset_name: String::from_str("ICP"),
            pull_fee: fee,
            withdraw_fee: fee,
            supports_allowance: true,
        }
    }
}

impl ICPCanisterWallet {
    /// One step of a query for what `from_principal` lets the custody draw.
    pub fn check_allowance(
        &self,
        from_principal: PrincipalId,
        context: &CallContext,
        stage: CallStage,
        event: Event,
    ) -> (next: (CallStage, Step<Allowance>))
        ensures
            queries_allowance(
                self.terms().ledger,
                Account { owner: from_principal, subaccount: None },
                Account { owner: context.canister_id, subaccount: None },
                stage,
                event,
                next,
            ),
    {
        check_allowance_step(
            mainnet_ledger_id(),
            Account::default_of(from_principal),
            Account::default_of(context.canister_id),
            stage,
            event,
        )
    }

    /// One step of a pull of `amount` out of the account of
    /// `from_principal` into the custody.
    pub fn transfer_from(
        &self,
        from_principal: PrincipalId,
        amount: u64,
        context: &CallContext,
        stage: CallStage,
        event: Event,
    ) -> (next: (CallStage, Step<u128>))
        ensures
            pulls(
                AssetFamily::Native,
                self.terms().ledger,
                Account { owner: from_principal, subaccount: None },
                Account { owner: context.canister_id, subaccount: None },
                amount as u128,
                default_fee() as u128,
                context.now,
                stage,
                event,
                next,
            ),
    {
        transfer_from_step(
            AssetFamily::Native,
            mainnet_ledger_id(),
            Account::default_of(from_principal),
            Account::default_of(context.canister_id),
            amount as u128,
            default_fee_e8s() as u128,
            context.now,
            stage,
            event,
        )
    }
}

/// There is one backend of the native asset: any two are the same.
pub proof fn lemma_one_native_backend(a: ICPCanisterWallet, b: ICPCanisterWallet)
    ensures
        a == b,
{
}

} // verus!
