//! The backend of a third-party token, which is known by what its ledger
//! reports of it.

use crate::currency_error::CurrencyError;
use crate::icrc1_types::{Account, Allowance};
use crate::principal::PrincipalId;
use crate::remote::{
    is_unexpected, unexpected_event, CallContext, CallStage, Event, RemoteCall, Step,
};
use crate::types::canister_wallet::{
    check_allowance_step, pulls, queries_allowance, transfer_from_step, AssetFamily,
    CanisterWallet, Terms, WalletTerms,
};
use vstd::prelude::*;
use vstd::string::StringExecFns;

verus! {

/// One standard that a ledger says it supports.
#[derive(Debug, PartialEq, Eq)]
pub struct StandardRecord {
    pub name: String,
    pub url: String,
}

impl Clone for StandardRecord {
    fn clone(&self) -> (copy: StandardRecord)
        ensures
            copy == *self,
    {
        StandardRecord { name: self.name.clone(), url: self.url.clone() }
    }
}

/// What a ledger reports of its token.
#[derive(Debug, PartialEq, Eq)]
pub struct ICRC1TokenMetadata {
    pub name: String,
    pub symbol: String,
    pub decimals: u8,
    pub fee: u128,
    pub supported_standards: Vec<StandardRecord>,
}

impl ICRC1TokenMetadata {
    /// Whether `other` reports the same of its token.
    pub open spec fn same_as(&self, other: ICRC1TokenMetadata) -> bool {
        &&& self.name == other.name
        &&& self.symbol == other.symbol
        &&& self.decimals == other.decimals
        &&& self.fee == other.fee
        &&& self.supported_standards@ == other.supported_standards@
    }
}

impl Clone for ICRC1TokenMetadata {
    fn clone(&self) -> (copy: ICRC1TokenMetadata)
        ensures
            copy.same_as(*self),
    {
        let mut supported_standards: Vec<StandardRecord> = Vec::new();
        let mut i: usize = 0;
        while i < self.supported_standards.len()
            invariant
                i <= self.supported_standards.len(),
                supported_standards@ == self.supported_standards@.take(i as int),
            decreases self.supported_standards.len() - i,
        {
            supported_standards.push(self.supported_standards[i].clone());
            assert(self.supported_standards@.take(i + 1) =~= self.supported_standards@.take(
                i as int,
            ).push(self.supported_standards@[i as int]));
            i = i + 1;
        }
        assert(self.supported_standards@.take(self.supported_standards.len() as int)
            =~= self.supported_standards@);
        ICRC1TokenMetadata {
            name: self.name.clone(),
            symbol: self.symbol.clone(),
            decimals: self.decimals,
            fee: self.fee,
            supported_standards,
        }
    }
}

/// The backend of a third-party token.
#[derive(Debug, Clone, PartialEq, Eq)]
pub struct GenericICRC1TokenWallet {
    pub ledger_id: PrincipalId,
    pub metadata: ICRC1TokenMetadata,
}

/// The fee that is taken for a token whose ledger reports a fee beyond 128
/// bits.
pub const FALLBACK_FEE: u128 = 10_000;

/// Where the query for a token's metadata stands: which answer is awaited,
/// and the answers so far.
#[derive(Debug, Clone, PartialEq, Eq)]
pub enum MetadataStage {
    Start,
    AwaitingName,
    AwaitingSymbol { name: String },
    AwaitingDecimals { name: String, symbol: String },
    AwaitingFee { name: String, symbol: String, decimals: u8 },
    AwaitingStandards { name: String, symbol: String, decimals: u8, fee: u128 },
    Finished,
}

/// Whether one of `standards` is the allowance extension.
pub open spec fn lists_allowance_extension(standards: Seq<StandardRecord>) -> bool {
    exists|i: int| 0 <= i < standards.len() && (#[trigger] standards[i]).name@ == "ICRC-2"@
}

/// Whether `step` fails because a metadata query did not come back: the
/// error says which query, `what`, and carries the rejection.
pub open spec fn is_metadata_failure<T>(step: Step<T>, what: Seq<char>, detail: Seq<char>) -> bool {
    &&& step matches Step::Done(Err(CurrencyError::CanisterCallFailed(text)))
    &&& text@ == "Failed to query "@ + what + ": "@ + detail
}

/// What a step of a metadata query must give as `next`: the ledger is
/// asked for the token's name, symbol, decimals, fee and supported
/// standards, in that order, and its answers make the metadata.
pub open spec fn queries_metadata(
    ledger: PrincipalId,
    stage: MetadataStage,
    event: Event,
    next: (MetadataStage, Step<ICRC1TokenMetadata>),
) -> bool {
    match (stage, event) {
        (MetadataStage::Start, Event::Started) => {
            &&& next.0 == MetadataStage::AwaitingName
            &&& next.1 == Step::<ICRC1TokenMetadata>::Call(RemoteCall::Icrc1Name { ledger })
        },
        (MetadataStage::AwaitingName, Event::Text(name)) => {
            &&& next.0 == MetadataStage::AwaitingSymbol { name }
            &&& next.1 == Step::<ICRC1TokenMetadata>::Call(RemoteCall::Icrc1Symbol { ledger })
        },
        (MetadataStage::AwaitingName, Event::Rejected(detail)) => {
            &&& next.0 == MetadataStage::Finished
            &&& is_metadata_failure(next.1, "token name"@, detail@)
        },
        (MetadataStage::AwaitingSymbol { name }, Event::Text(symbol)) => {
            &&& next.0 == MetadataStage::AwaitingDecimals { name, symbol }
            &&& next.1 == Step::<ICRC1TokenMetadata>::Call(RemoteCall::Icrc1Decimals { ledger })
        },
        (MetadataStage::AwaitingSymbol { .. }, Event::Rejected(detail)) => {
            &&& next.0 == MetadataStage::Finished
            &&& is_metadata_failure(next.1, "token symbol"@, detail@)
        },
        (MetadataStage::AwaitingDecimals { name, symbol }, Event::Decimals(decimals)) => {
            &&& next.0 == MetadataStage::AwaitingFee { name, symbol, decimals }
            &&& next.1 == Step::<ICRC1TokenMetadata>::Call(RemoteCall::Icrc1Fee { ledger })
        },
        (MetadataStage::AwaitingDecimals { .. }, Event::Rejected(detail)) => {
            &&& next.0 == MetadataStage::Finished
            &&& is_metadata_failure(next.1, "token decimals"@, detail@)
        },
        (MetadataStage::AwaitingFee { name, symbol, decimals }, Event::Number(fee)) => {
            &&& next.0 == MetadataStage::AwaitingStandards {
                name,
                symbol,
                decimals,
                fee: if fee@ <= u128::MAX {
                    fee@ as u128
                } else {
                    FALLBACK_FEE
                },
            }
            &&& next.1 == Step::<ICRC1TokenMetadata>::Call(
                RemoteCall::Icrc1SupportedStandards { ledger },
            )
        },
        (MetadataStage::AwaitingFee { .. }, Event::Rejected(detail)) => {
            &&& next.0 == MetadataStage::Finished
            &&& is_metadata_failure(next.1, "token fee"@, detail@)
        },
        (
            MetadataStage::AwaitingStandards { name, symbol, decimals, fee },
            Event::Standards(standards),
        ) => {
            &&& next.0 == MetadataStage::Finished
            &&& next.1 == Step::Done(
                Ok(ICRC1TokenMetadata { name, symbol, decimals, fee, supported_standards: standards }),
            )
        },
        (MetadataStage::AwaitingStandards { .. }, Event::Rejected(detail)) => {
            &&& next.0 == MetadataStage::Finished
            &&& is_metadata_failure(next.1, "supported standards"@, detail@)
        },
        _ => next.0 == MetadataStage::Finished && is_unexpected(next.1),
    }
}

/// What a step of the making of a backend must give as `next`: the step
/// of the metadata query, with the backend in place of the metadata.
pub open spec fn makes_wallet(
    ledger_id: PrincipalId,
    stage: MetadataStage,
    event: Event,
    next: (MetadataStage, Step<GenericICRC1TokenWallet>),
) -> bool {
    exists|queried: (MetadataStage, Step<ICRC1TokenMetadata>)|
        {
            &&& #[trigger] queries_metadata(ledger_id, stage, event, queried)
            &&& next.0 == queried.0
            &&& match queried.1 {
                Step::Call(call) => next.1 == Step::<GenericICRC1TokenWallet>::Call(call),
                Step::Done(Ok(metadata)) => next.1 == Step::Done(
                    Ok(GenericICRC1TokenWallet { ledger_id, metadata }),
                ),
                Step::Done(Err(error)) => next.1 == Step::<GenericICRC1TokenWallet>::Done(
                    Err(error),
                ),
            }
        }
}

/// The step that fails because the metadata query for `what` did not come
/// back.
fn metadata_failure<T>(what: &str, detail: &str) -> (step: Step<T>)
    ensures
        is_metadata_failure(step, what@, detail@),
{
    Step::Done(
        Err(
            CurrencyError::CanisterCallFailed(
                String::from_str("Failed to query ").concat(what).concat(": ").concat(detail),
            ),
        ),
    )
}

impl CanisterWallet for GenericICRC1TokenWallet {
    open spec fn terms(&self) -> Terms {
        Terms {
            family: AssetFamily::Generic,
            ledger: self.ledger_id,
            minter: None,
            tag: self.metadata.symbol@,
            asset_name: self.metadata.symbol@,
            pull_fee: self.metadata.fee,
            withdraw_fee: self.metadata.fee,
            supports_allowance: lists_allowance_extension(self.metadata.supported_standards@),
        }
    }

    fn wallet_terms(&self) -> (terms: WalletTerms) {
        WalletTerms {
            family: AssetFamily::Generic,
            ledger: self.ledger_id,
            minter: None,
            tag: self.metadata.symbol.clone(),
            asset_name: self.metadata.symbol.clone(),
            pull_fee: self.metadata.fee,
            withdraw_fee: self.metadata.fee,
            supports_allowance: self.supports_icrc2(),
        }
    }
}

impl GenericICRC1TokenWallet {
    /// One step of the making of the backend of the token that `ledger_id`
    /// keeps: the query for the token's metadata, which the backend is
    /// then made of.
    pub fn new(ledger_id: PrincipalId, stage: MetadataStage, event: Event) -> (next: (
        MetadataStage,
        Step<GenericICRC1TokenWallet>,
    ))
        ensures
            makes_wallet(ledger_id, stage, event, next),
    {
        let queried = Self::query_token_metadata(ledger_id, stage, event);
        let step = match queried.1 {
            Step::Call(call) => Step::Call(call),
            Step::Done(Ok(metadata)) => Step::Done(Ok(GenericICRC1TokenWallet { ledger_id, metadata })),
            Step::Done(Err(error)) => Step::Done(Err(error)),
        };
        (queried.0, step)
    }

    /// One step of the query for the metadata of the token that
    /// `ledger_id` keeps.
    pub fn query_token_metadata(ledger_id: PrincipalId, stage: MetadataStage, event: Event) -> (next:
        (MetadataStage, Step<ICRC1TokenMetadata>))
        ensures
            queries_metadata(ledger_id, stage, event, next),
    {
        let ledger = ledger_id;
        match (stage, event) {
            (MetadataStage::Start, Event::Started) => (
                MetadataStage::AwaitingName,
                Step::Call(RemoteCall::Icrc1Name { ledger }),
            ),
            (MetadataStage::AwaitingName, Event::Text(name)) => (
                MetadataStage::AwaitingSymbol { name },
                Step::Call(RemoteCall::Icrc1Symbol { ledger }),
            ),
            (MetadataStage::AwaitingName, Event::Rejected(detail)) => (
                MetadataStage::Finished,
                metadata_failure("token name", detail.as_str()),
            ),
            (MetadataStage::AwaitingSymbol { name }, Event::Text(symbol)) => (
                MetadataStage::AwaitingDecimals { name, symbol },
                Step::Call(RemoteCall::Icrc1Decimals { ledger }),
            ),
            (MetadataStage::AwaitingSymbol { .. }, Event::Rejected(detail)) => (
                MetadataStage::Finished,
                metadata_failure("token symbol", detail.as_str()),
            ),
            (MetadataStage::AwaitingDecimals { name, symbol }, Event::Decimals(decimals)) => (
                MetadataStage::AwaitingFee { name, symbol, decimals },
                Step::Call(RemoteCall::Icrc1Fee { ledger }),
            ),
            (MetadataStage::AwaitingDecimals { .. }, Event::Rejected(detail)) => (
                MetadataStage::Finished,
                metadata_failure("token decimals", detail.as_str()),
            ),
            (MetadataStage::AwaitingFee { name, symbol, decimals }, Event::Number(reported)) => {
                let fee: u128 = match reported.to_u128() {
                    Some(fee) => fee,
                    None => FALLBACK_FEE,
                };
                (
                    MetadataStage::AwaitingStandards { name, symbol, decimals, fee },
                    Step::Call(RemoteCall::Icrc1SupportedStandards { ledger }),
                )
            },
            (MetadataStage::AwaitingFee { .. }, Event::Rejected(detail)) => (
                MetadataStage::Finished,
                metadata_failure("token fee", detail.as_str()),
            ),
            (
                MetadataStage::AwaitingStandards { name, symbol, decimals, fee },
                Event::Standards(standards),
            ) => (
                MetadataStage::Finished,
                Step::Done(
                    Ok(
                        ICRC1TokenMetadata {
                            name,
                            symbol,
                            decimals,
                            fee,
                            supported_standards: standards,
                        },
                    ),
                ),
            ),
            (MetadataStage::AwaitingStandards { .. }, Event::Rejected(detail)) => (
                MetadataStage::Finished,
                metadata_failure("supported standards", detail.as_str()),
            ),
            _ => (MetadataStage::Finished, Step::Done(Err(unexpected_event()))),
        }
    }

    /// Whether the token's ledger offers allowances: the allowance
    /// extension is among the standards it supports.
    pub fn supports_icrc2(&self) -> (supported: bool)
        ensures
            supported == lists_allowance_extension(self.metadata.supported_standards@),
    {
        let wanted = String::from_str("ICRC-2");
        let mut i: usize = 0;
        while i < self.metadata.supported_standards.len()
            invariant
                i <= self.metadata.supported_standards.len(),
                wanted@ == "ICRC-2"@,
                forall|j: int| 0 <= j < i ==> self.metadata.supported_standards@[j].name@ != "ICRC-2"@,
            decreases self.metadata.supported_standards.len() - i,
        {
            if self.metadata.supported_standards[i].name == wanted {
                return true;
            }
            i = i + 1;
        }
        false
    }

    /// One step of a query for what `from_principal` lets the custody draw.
    /// A token without allowances answers at once that it has none.
    pub fn check_allowance(
        &self,
        from_principal: PrincipalId,
        context: &CallContext,
        stage: CallStage,
        event: Event,
    ) -> (next: (CallStage, Step<Allowance>))
        ensures
            if self.terms().supports_allowance {
                queries_allowance(
                    self.ledger_id,
                    Account { owner: from_principal, subaccount: None },
                    Account { owner: context.canister_id, subaccount: None },
                    stage,
                    event,
                    next,
                )
            } else {
                &&& next.0 == CallStage::Finished
                &&& next.1 matches Step::Done(Err(CurrencyError::OperationNotSupported(text)))
                &&& text@ == "Token does not support ICRC-2 (allowance) operations"@
            },
    {
        if !self.supports_icrc2() {
            return (
                CallStage::Finished,
                Step::Done(
                    Err(
                        CurrencyError::OperationNotSupported(
                            String::from_str("Token does not support ICRC-2 (allowance) operations"),
                        ),
                    ),
                ),
            );
        }
        check_allowance_step(
            self.ledger_id,
            Account::default_of(from_principal),
            Account::default_of(context.canister_id),
            stage,
            event,
        )
    }

    /// One step of a pull of `amount` out of the account of
    /// `from_principal` into the custody. A token without allowances
    /// answers at once that it has none.
    pub fn transfer_from(
        &self,
        from_principal: PrincipalId,
        amount: u64,
        context: &CallContext,
        stage: CallStage,
        event: Event,
    ) -> (next: (CallStage, Step<u128>))
        ensures
            if self.terms().supports_allowance {
                pulls(
                    AssetFamily::Generic,
                    self.ledger_id,
                    Account { owner: from_principal, subaccount: None },
                    Account { owner: context.canister_id, subaccount: None },
                    amount as u128,
                    self.metadata.fee,
                    context.now,
                    stage,
                    event,
                    next,
                )
            } else {
                &&& next.0 == CallStage::Finished
                &&& next.1 matches Step::Done(Err(CurrencyError::OperationNotSupported(text)))
                &&& text@ == "Token does not support ICRC-2 (transfer_from) operations"@
            },
    {
        if !self.supports_icrc2() {
            return (
                CallStage::Finished,
                Step::Done(
                    Err(
                        CurrencyError::OperationNotSupported(
                            String::from_str(
                                "Token does not support ICRC-2 (transfer_from) operations",
                            ),
                        ),
                    ),
                ),
            );
        }
        transfer_from_step(
            AssetFamily::Generic,
            self.ledger_id,
            Account::default_of(from_principal),
            Account::default_of(context.canister_id),
            amount as u128,
            self.metadata.fee,
            context.now,
            stage,
            event,
        )
    }
}

} // verus!
