//! The manager of the custody's backends: at most one backend for each
//! asset, and every operation routed to the backend of the asset it names.

use crate::currency_error::CurrencyError;
use crate::principal::PrincipalId;
use crate::remote::{CallContext, CallStage, Event, Step};
use crate::state::TransactionState;
use crate::types::canister_wallet::{
    deposits, reports_balance, validates_allowance, withdraws, CanisterWallet, DepositStage,
    Terms,
};
use crate::types::canister_wallets::btc_token_wallet::CKBTCTokenWallet;
use crate::types::canister_wallets::ckerc20_token_wallet::{config_of, CKERC20TokenWallet};
use crate::types::canister_wallets::icp_canister_wallet::{
    lemma_one_native_backend, ICPCanisterWallet,
};
use crate::types::canister_wallets::icrc1_token_wallet::{
    makes_wallet, GenericICRC1TokenWallet, MetadataStage,
};
use crate::types::currency::{CKTokenSymbol, Currency};
use vstd::prelude::*;
use vstd::string::StringExecFns;

verus! {

/// Largest serialized size of a manager, in bytes.
pub const MAX_VALUE_SIZE_CURRENCY_MANAGER: u32 = 100000;

/// The backends that the custody holds: the native asset's and the wrapped
/// Bitcoin asset's, each at most once, one for each symbol of the Ethereum
/// minter's assets and one for each symbol of a third-party token.
#[derive(Debug, Clone, PartialEq, Eq)]
pub struct CurrencyManager {
    pub icp: Option<ICPCanisterWallet>,
    pub ckerc20_tokens: Vec<CKERC20TokenWallet>,
    pub btc: Option<CKBTCTokenWallet>,
    pub generic_icrc1_tokens: Vec<GenericICRC1TokenWallet>,
}

/// The first of `wallets` whose asset has the symbol `symbol`.
pub open spec fn first_erc20(wallets: Seq<CKERC20TokenWallet>, symbol: CKTokenSymbol) -> Option<
    CKERC20TokenWallet,
>
    decreases wallets.len(),
{
    if wallets.len() == 0 {
        None
    } else if wallets[0].config.token_symbol == symbol {
        Some(wallets[0])
    } else {
        first_erc20(wallets.drop_first(), symbol)
    }
}

/// The first of `wallets` whose token has the symbol `symbol`.
pub open spec fn first_generic(wallets: Seq<GenericICRC1TokenWallet>, symbol: Seq<char>) -> Option<
    GenericICRC1TokenWallet,
>
    decreases wallets.len(),
{
    if wallets.len() == 0 {
        None
    } else if wallets[0].metadata.symbol@ == symbol {
        Some(wallets[0])
    } else {
        first_generic(wallets.drop_first(), symbol)
    }
}

/// How many of `wallets` have the symbol `symbol`.
pub open spec fn count_erc20(wallets: Seq<CKERC20TokenWallet>, symbol: CKTokenSymbol) -> nat
    decreases wallets.len(),
{
    if wallets.len() == 0 {
        0
    } else {
        count_erc20(wallets.drop_last(), symbol) + if wallets.last().config.token_symbol
            == symbol {
            1nat
        } else {
            0nat
        }
    }
}

/// How many of `wallets` have the symbol `symbol`.
pub open spec fn count_generic(wallets: Seq<GenericICRC1TokenWallet>, symbol: Seq<char>) -> nat
    decreases wallets.len(),
{
    if wallets.len() == 0 {
        0
    } else {
        count_generic(wallets.drop_last(), symbol) + if wallets.last().metadata.symbol@ == symbol {
            1nat
        } else {
            0nat
        }
    }
}

/// Whether no two of `wallets` have the same symbol.
pub open spec fn distinct_erc20(wallets: Seq<CKERC20TokenWallet>) -> bool {
    forall|i: int, j: int|
        0 <= i < j < wallets.len() ==> (#[trigger] wallets[i]).config.token_symbol != (
        #[trigger] wallets[j]).config.token_symbol
}

/// Whether no two of `wallets` have the same symbol.
pub open spec fn distinct_generic(wallets: Seq<GenericICRC1TokenWallet>) -> bool {
    forall|i: int, j: int|
        0 <= i < j < wallets.len() ==> (#[trigger] wallets[i]).metadata.symbol@ != (
        #[trigger] wallets[j]).metadata.symbol@
}

/// Whether two managers hold the same backends.
pub open spec fn same_backends(a: CurrencyManager, b: CurrencyManager) -> bool {
    &&& a.icp == b.icp
    &&& a.btc == b.btc
    &&& a.ckerc20_tokens@ == b.ckerc20_tokens@
    &&& a.generic_icrc1_tokens@ == b.generic_icrc1_tokens@
}

/// The message for an asset that the Ethereum minter does not back.
pub open spec fn not_backed_text() -> Seq<char> {
    "BTC is not an asset of the Ethereum minter"@
}

impl CurrencyManager {
    /// Validity: no two backends of one collection share an asset tag.
    pub open spec fn well_formed(&self) -> bool {
        &&& distinct_erc20(self.ckerc20_tokens@)
        &&& distinct_generic(self.generic_icrc1_tokens@)
    }

    /// The terms of the backend that operations on `currency` are routed
    /// to, or `None` where the manager holds no backend for it.
    pub open spec fn backend_terms(&self, currency: Currency) -> Option<Terms> {
        match currency {
            Currency::ICP => match self.icp {
                Some(wallet) => Some(wallet.terms()),
                None => None,
            },
            Currency::CKETHToken(symbol) => match first_erc20(self.ckerc20_tokens@, symbol) {
                Some(wallet) => Some(wallet.terms()),
                None => None,
            },
            Currency::BTC => match self.btc {
                Some(wallet) => Some(wallet.terms()),
                None => None,
            },
            Currency::GenericICRC1(token) => match first_generic(
                self.generic_icrc1_tokens@,
                token.symbol_text(),
            ) {
                Some(wallet) => Some(wallet.terms()),
                None => None,
            },
        }
    }

    /// Whether the manager holds a backend for `currency`.
    pub open spec fn holds(&self, currency: Currency) -> bool {
        self.backend_terms(currency) is Some
    }

    /// The manager at the start of the custody's life: the backends of the
    /// native asset and of the wrapped Bitcoin asset, and no others.
    pub fn new() -> (manager: CurrencyManager)
        ensures
            manager.icp == Some(ICPCanisterWallet),
            manager.btc == Some(CKBTCTokenWallet { config: CKBTCTokenWallet::default_config() }),
            manager.ckerc20_tokens@.len() == 0,
            manager.generic_icrc1_tokens@.len() == 0,
            manager.well_formed(),
    {
        CurrencyManager {
            icp: Some(ICPCanisterWallet),
            ckerc20_tokens: Vec::new(),
            btc: Some(CKBTCTokenWallet::new()),
            generic_icrc1_tokens: Vec::new(),
        }
    }

    /// Where the backend of the asset with the symbol `symbol` is.
    fn find_erc20(&self, symbol: CKTokenSymbol) -> (found: Option<usize>)
        ensures
            match first_erc20(self.ckerc20_tokens@, symbol) {
                Some(wallet) => found matches Some(i) && i < self.ckerc20_tokens@.len()
                    && self.ckerc20_tokens@[i as int] == wallet,
                None => found is None,
            },
    {
        let mut i: usize = 0;
        assert(self.ckerc20_tokens@.skip(0) =~= self.ckerc20_tokens@);
        while i < self.ckerc20_tokens.len()
            invariant
                i <= self.ckerc20_tokens.len(),
                first_erc20(self.ckerc20_tokens@, symbol) == first_erc20(
                    self.ckerc20_tokens@.skip(i as int),
                    symbol,
                ),
            decreases self.ckerc20_tokens.len() - i,
        {
            proof {
                let rest = self.ckerc20_tokens@.skip(i as int);
                assert(rest[0] == self.ckerc20_tokens@[i as int]);
                assert(rest.drop_first() =~= self.ckerc20_tokens@.skip(i + 1));
            }
            if self.ckerc20_tokens[i].config.token_symbol == symbol {
                return Some(i);
            }
            i = i + 1;
        }
        None
    }

    /// Where the backend of the token with the symbol `symbol` is.
    fn find_generic(&self, symbol: &String) -> (found: Option<usize>)
        ensures
            match first_generic(self.generic_icrc1_tokens@, symbol@) {
                Some(wallet) => found matches Some(i) && i < self.generic_icrc1_tokens@.len()
                    && self.generic_icrc1_tokens@[i as int] == wallet,
                None => found is None,
            },
    {
        let mut i: usize = 0;
        assert(self.generic_icrc1_tokens@.skip(0) =~= self.generic_icrc1_tokens@);
        while i < self.generic_icrc1_tokens.len()
            invariant
                i <= self.generic_icrc1_tokens.len(),
                first_generic(self.generic_icrc1_tokens@, symbol@) == first_generic(
                    self.generic_icrc1_tokens@.skip(i as int),
                    symbol@,
                ),
            decreases self.generic_icrc1_tokens.len() - i,
        {
            proof {
                let rest = self.generic_icrc1_tokens@.skip(i as int);
                assert(rest[0] == self.generic_icrc1_tokens@[i as int]);
                assert(rest.drop_first() =~= self.generic_icrc1_tokens@.skip(i + 1));
            }
            if self.generic_icrc1_tokens[i].metadata.symbol == *symbol {
                return Some(i);
            }
            i = i + 1;
        }
        None
    }

    /// One step of a deposit of `amount` of `currency` out of the account of
    /// `from_principal`. Without a backend for `currency` the deposit fails
    /// at once, with no remote call and no record.
    pub fn deposit(
        &self,
        transaction_state: &mut TransactionState,
        currency: &Currency,
        from_principal: PrincipalId,
        amount: u64,
        context: &CallContext,
        stage: DepositStage,
        event: Event,
    ) -> (next: (DepositStage, Step<()>))
        ensures
            match self.backend_terms(*currency) {
                Some(terms) => deposits(
                    terms,
                    old(transaction_state)@,
                    old(transaction_state).high_water_mark(),
                    from_principal,
                    amount,
                    *context,
                    stage,
                    event,
                    final(transaction_state)@,
                    next,
                ),
                None => {
                    &&& next.0 == DepositStage::Finished
                    &&& next.1 == Step::<()>::Done(Err(CurrencyError::WalletNotSet))
                    &&& final(transaction_state)@ == old(transaction_state)@
                },
            },
            final(transaction_state).max_value_size() == old(transaction_state).max_value_size(),
    {
        let unset = (DepositStage::Finished, Step::Done(Err(CurrencyError::WalletNotSet)));
        match currency {
            Currency::ICP => match &self.icp {
                Some(wallet) => wallet.deposit(
                    transaction_state,
                    from_principal,
                    amount,
                    context,
                    stage,
                    event,
                ),
                None => unset,
            },
            Currency::CKETHToken(symbol) => match self.find_erc20(*symbol) {
                Some(i) => self.ckerc20_tokens[i].deposit(
                    transaction_state,
                    from_principal,
                    amount,
                    context,
                    stage,
                    event,
                ),
                None => unset,
            },
            Currency::BTC => match &self.btc {
                Some(wallet) => wallet.deposit(
                    transaction_state,
                    from_principal,
                    amount,
                    context,
                    stage,
                    event,
                ),
                None => unset,
            },
            Currency::GenericICRC1(token) => match self.find_generic(&token.symbol_to_string()) {
                Some(i) => self.generic_icrc1_tokens[i].deposit(
                    transaction_state,
                    from_principal,
                    amount,
                    context,
                    stage,
                    event,
                ),
                None => unset,
            },
        }
    }

    /// One step of a check that `from_principal` lets the custody draw
    /// `amount` of `currency`.
    pub fn validate_allowance(
        &self,
        currency: &Currency,
        from_principal: PrincipalId,
        amount: u64,
        context: &CallContext,
        stage: CallStage,
        event: Event,
    ) -> (next: (CallStage, Step<()>))
        ensures
            match self.backend_terms(*currency) {
                Some(terms) => validates_allowance(
                    terms,
                    from_principal,
                    amount,
                    *context,
                    stage,
                    event,
                    next,
                ),
                None => {
                    &&& next.0 == CallStage::Finished
                    &&& next.1 == Step::<()>::Done(Err(CurrencyError::WalletNotSet))
                },
            },
    {
        let unset = (CallStage::Finished, Step::Done(Err(CurrencyError::WalletNotSet)));
        match currency {
            Currency::ICP => match &self.icp {
                Some(wallet) => wallet.validate_allowance(
                    from_principal,
                    amount,
                    context,
                    stage,
                    event,
                ),
                None => unset,
            },
            Currency::CKETHToken(symbol) => match self.find_erc20(*symbol) {
                Some(i) => self.ckerc20_tokens[i].validate_allowance(
                    from_principal,
                    amount,
                    context,
                    stage,
                    event,
                ),
                None => unset,
            },
            Currency::BTC => match &self.btc {
                Some(wallet) => wallet.validate_allowance(
                    from_principal,
                    amount,
                    context,
                    stage,
                    event,
                ),
                None => unset,
            },
            Currency::GenericICRC1(token) => match self.find_generic(&token.symbol_to_string()) {
                Some(i) => self.generic_icrc1_tokens[i].validate_allowance(
                    from_principal,
                    amount,
                    context,
                    stage,
                    event,
                ),
                None => unset,
            },
        }
    }

    /// One step of a withdrawal of `amount` of `currency` to
    /// `wallet_principal_id`.
    pub fn withdraw(
        &self,
        currency: &Currency,
        wallet_principal_id: PrincipalId,
        amount: u64,
        context: &CallContext,
        stage: CallStage,
        event: Event,
    ) -> (next: (CallStage, Step<()>))
        ensures
            match self.backend_terms(*currency) {
                Some(terms) => withdraws(
                    terms,
                    wallet_principal_id,
                    amount,
                    *context,
                    stage,
                    event,
                    next,
                ),
                None => {
                    &&& next.0 == CallStage::Finished
                    &&& next.1 == Step::<()>::Done(Err(CurrencyError::WalletNotSet))
                },
            },
    {
        let unset = (CallStage::Finished, Step::Done(Err(CurrencyError::WalletNotSet)));
        match currency {
            Currency::ICP => match &self.icp {
                Some(wallet) => wallet.withdraw(wallet_principal_id, amount, context, stage, event),
                None => unset,
            },
            Currency::CKETHToken(symbol) => match self.find_erc20(*symbol) {
                Some(i) => self.ckerc20_tokens[i].withdraw(
                    wallet_principal_id,
                    amount,
                    context,
                    stage,
                    event,
                ),
                None => unset,
            },
            Currency::BTC => match &self.btc {
                Some(wallet) => wallet.withdraw(wallet_principal_id, amount, context, stage, event),
                None => unset,
            },
            Currency::GenericICRC1(token) => match self.find_generic(&token.symbol_to_string()) {
                Some(i) => self.generic_icrc1_tokens[i].withdraw(
                    wallet_principal_id,
                    amount,
                    context,
                    stage,
                    event,
                ),
                None => unset,
            },
        }
    }

    /// One step of a withdrawal of fees that the custody has collected: a
    /// withdrawal like any other.
    pub fn withdraw_rake(
        &self,
        currency: &Currency,
        wallet_principal_id: PrincipalId,
        amount: u64,
        context: &CallContext,
        stage: CallStage,
        event: Event,
    ) -> (next: (CallStage, Step<()>))
        ensures
            match self.backend_terms(*currency) {
                Some(terms) => withdraws(
                    terms,
                    wallet_principal_id,
                    amount,
                    *context,
                    stage,
                    event,
                    next,
                ),
                None => {
                    &&& next.0 == CallStage::Finished
                    &&& next.1 == Step::<()>::Done(Err(CurrencyError::WalletNotSet))
                },
            },
    {
        self.withdraw(currency, wallet_principal_id, amount, context, stage, event)
    }

    /// One step of a query for what `principal_id` holds of `currency`.
    pub fn get_balance(
        &self,
        currency: &Currency,
        principal_id: PrincipalId,
        stage: CallStage,
        event: Event,
    ) -> (next: (CallStage, Step<u128>))
        ensures
            match self.backend_terms(*currency) {
                Some(terms) => reports_balance(terms, principal_id, stage, event, next),
                None => {
                    &&& next.0 == CallStage::Finished
                    &&& next.1 == Step::<u128>::Done(Err(CurrencyError::WalletNotSet))
                },
            },
    {
        let unset = (CallStage::Finished, Step::Done(Err(CurrencyError::WalletNotSet)));
        match currency {
            Currency::ICP => match &self.icp {
                Some(wallet) => wallet.get_balance(principal_id, stage, event),
                None => unset,
            },
            Currency::CKETHToken(symbol) => match self.find_erc20(*symbol) {
                Some(i) => self.ckerc20_tokens[i].get_balance(principal_id, stage, event),
                None => unset,
            },
            Currency::BTC => match &self.btc {
                Some(wallet) => wallet.get_balance(principal_id, stage, event),
                None => unset,
            },
            Currency::GenericICRC1(token) => match self.find_generic(&token.symbol_to_string()) {
                Some(i) => self.generic_icrc1_tokens[i].get_balance(principal_id, stage, event),
                None => unset,
            },
        }
    }
}

/// The backends of the Ethereum minter's assets after the addition of the
/// one for `symbol`: as before where there is one already.
pub open spec fn with_erc20(wallets: Seq<CKERC20TokenWallet>, symbol: CKTokenSymbol) -> Seq<
    CKERC20TokenWallet,
> {
    if first_erc20(wallets, symbol) is Some {
        wallets
    } else {
        wallets.push(CKERC20TokenWallet { config: config_of(symbol) })
    }
}

/// The backends of third-party tokens after the addition of `wallet`: as
/// before where there is one with the symbol of `wallet` already.
pub open spec fn with_generic(
    wallets: Seq<GenericICRC1TokenWallet>,
    wallet: GenericICRC1TokenWallet,
) -> Seq<GenericICRC1TokenWallet> {
    if first_generic(wallets, wallet.metadata.symbol@) is Some {
        wallets
    } else {
        wallets.push(wallet)
    }
}

/// What a step of the addition of a backend for `currency` must do to the
/// manager and give as `next`. A well-known asset is added at once. A
/// third-party token is added once its ledger has reported its metadata,
/// unless a backend with the token's symbol is there already; if the
/// query fails, nothing is added.
pub open spec fn adds(
    before: CurrencyManager,
    currency: Currency,
    stage: MetadataStage,
    event: Event,
    after: CurrencyManager,
    next: (MetadataStage, Step<()>),
) -> bool {
    let done = next.0 == MetadataStage::Finished && next.1 == Step::Done(Ok(()));
    match currency {
        Currency::ICP => {
            &&& done
            &&& after.icp == Some(ICPCanisterWallet)
            &&& after.btc == before.btc
            &&& after.ckerc20_tokens@ == before.ckerc20_tokens@
            &&& after.generic_icrc1_tokens@ == before.generic_icrc1_tokens@
        },
        Currency::BTC => {
            &&& done
            &&& after.icp == before.icp
            &&& after.btc == match before.btc {
                Some(wallet) => Some(wallet),
                None => Some(CKBTCTokenWallet { config: CKBTCTokenWallet::default_config() }),
            }
            &&& after.ckerc20_tokens@ == before.ckerc20_tokens@
            &&& after.generic_icrc1_tokens@ == before.generic_icrc1_tokens@
        },
        Currency::CKETHToken(symbol) => if symbol == CKTokenSymbol::BTC {
            &&& same_backends(before, after)
            &&& next.0 == MetadataStage::Finished
            &&& next.1 matches Step::Done(Err(CurrencyError::OperationNotSupported(text)))
            &&& text@ == not_backed_text()
        } else {
            &&& done
            &&& after.icp == before.icp
            &&& after.btc == before.btc
            &&& after.ckerc20_tokens@ == with_erc20(before.ckerc20_tokens@, symbol)
            &&& after.generic_icrc1_tokens@ == before.generic_icrc1_tokens@
        },
        Currency::GenericICRC1(token) => if first_generic(
            before.generic_icrc1_tokens@,
            token.symbol_text(),
        ) is Some {
            done && same_backends(before, after)
        } else {
            exists|made: (MetadataStage, Step<GenericICRC1TokenWallet>)|
                {
                    &&& #[trigger] makes_wallet(token.ledger_id, stage, event, made)
                    &&& next.0 == made.0
                    &&& after.icp == before.icp
                    &&& after.btc == before.btc
                    &&& after.ckerc20_tokens@ == before.ckerc20_tokens@
                    &&& match made.1 {
                        Step::Call(call) => {
                            &&& next.1 == Step::<()>::Call(call)
                            &&& after.generic_icrc1_tokens@ == before.generic_icrc1_tokens@
                        },
                        Step::Done(Err(error)) => {
                            &&& next.1 == Step::<()>::Done(Err(error))
                            &&& after.generic_icrc1_tokens@ == before.generic_icrc1_tokens@
                        },
                        Step::Done(Ok(wallet)) => {
                            &&& next.1 == Step::Done(Ok(()))
                            &&& after.generic_icrc1_tokens@ == with_generic(
                                before.generic_icrc1_tokens@,
                                wallet,
                            )
                        },
                    }
                }
        },
    }
}

/// What the removal of the backend of `currency` must do to the manager:
/// the backend is gone, and the other backends are as before.
pub open spec fn removes(before: CurrencyManager, currency: Currency, after: CurrencyManager) -> bool {
    match currency {
        Currency::ICP => {
            &&& after.icp is None
            &&& after.btc == before.btc
            &&& after.ckerc20_tokens@ == before.ckerc20_tokens@
            &&& after.generic_icrc1_tokens@ == before.generic_icrc1_tokens@
        },
        Currency::BTC => {
            &&& after.icp == before.icp
            &&& after.btc is None
            &&& after.ckerc20_tokens@ == before.ckerc20_tokens@
            &&& after.generic_icrc1_tokens@ == before.generic_icrc1_tokens@
        },
        Currency::CKETHToken(symbol) => {
            &&& after.icp == before.icp
            &&& after.btc == before.btc
            &&& after.ckerc20_tokens@ == before.ckerc20_tokens@.filter(
                |wallet: CKERC20TokenWallet| wallet.config.token_symbol != symbol,
            )
            &&& after.generic_icrc1_tokens@ == before.generic_icrc1_tokens@
        },
        Currency::GenericICRC1(token) => {
            &&& after.icp == before.icp
            &&& after.btc == before.btc
            &&& after.ckerc20_tokens@ == before.ckerc20_tokens@
            &&& after.generic_icrc1_tokens@ == before.generic_icrc1_tokens@.filter(
                |wallet: GenericICRC1TokenWallet| wallet.metadata.symbol@ != token.symbol_text(),
            )
        },
    }
}

impl CurrencyManager {
    /// Adds the backend of the Ethereum minter's asset with the symbol
    /// `symbol`, unless there is one already.
    pub fn insert_erc20(&mut self, symbol: CKTokenSymbol)
        requires
            symbol != CKTokenSymbol::BTC,
        ensures
            final(self).ckerc20_tokens@ == with_erc20(old(self).ckerc20_tokens@, symbol),
            final(self).icp == old(self).icp,
            final(self).btc == old(self).btc,
            final(self).generic_icrc1_tokens@ == old(self).generic_icrc1_tokens@,
    {
        if self.find_erc20(symbol).is_none() {
            self.ckerc20_tokens.push(CKERC20TokenWallet::new(symbol));
        }
    }

    /// Adds the backend `wallet` of a third-party token, unless there is
    /// one with the token's symbol already.
    pub fn insert_generic(&mut self, wallet: GenericICRC1TokenWallet)
        ensures
            final(self).generic_icrc1_tokens@ == with_generic(
                old(self).generic_icrc1_tokens@,
                wallet,
            ),
            final(self).icp == old(self).icp,
            final(self).btc == old(self).btc,
            final(self).ckerc20_tokens@ == old(self).ckerc20_tokens@,
    {
        if self.find_generic(&wallet.metadata.symbol).is_none() {
            self.generic_icrc1_tokens.push(wallet);
        }
    }

    /// One step of the addition of a backend for `currency`. Adding a
    /// backend that is there already changes nothing.
    pub fn add_currency(&mut self, currency: Currency, stage: MetadataStage, event: Event) -> (next:
        (MetadataStage, Step<()>))
        ensures
            adds(*old(self), currency, stage, event, *final(self), next),
            old(self).well_formed() ==> final(self).well_formed(),
    {
        let done = (MetadataStage::Finished, Step::Done(Ok(())));
        match currency {
            Currency::ICP => {
                match &self.icp {
                    Some(wallet) => {
                        proof {
                            lemma_one_native_backend(*wallet, ICPCanisterWallet);
                        }
                    },
                    None => {
                        self.icp = Some(ICPCanisterWallet);
                    },
                }
                done
            },
            Currency::CKETHToken(symbol) => {
                if symbol == CKTokenSymbol::BTC {
                    return (
                        MetadataStage::Finished,
                        Step::Done(
                            Err(
                                CurrencyError::OperationNotSupported(
                                    String::from_str("BTC is not an asset of the Ethereum minter"),
                                ),
                            ),
                        ),
                    );
                }
                proof {
                    if distinct_erc20(self.ckerc20_tokens@) {
                        lemma_with_erc20_distinct(self.ckerc20_tokens@, symbol);
                    }
                }
                self.insert_erc20(symbol);
                done
            },
            Currency::BTC => {
                if self.btc.is_none() {
                    self.btc = Some(CKBTCTokenWallet::new());
                }
                done
            },
            Currency::GenericICRC1(token) => {
                if self.find_generic(&token.symbol_to_string()).is_some() {
                    return done;
                }
                let made = GenericICRC1TokenWallet::new(token.ledger_id, stage, event);
                let step = match made.1 {
                    Step::Call(call) => Step::Call(call),
                    Step::Done(Err(error)) => Step::Done(Err(error)),
                    Step::Done(Ok(wallet)) => {
                        proof {
                            if distinct_generic(self.generic_icrc1_tokens@) {
                                lemma_with_generic_distinct(self.generic_icrc1_tokens@, wallet);
                            }
                        }
                        self.insert_generic(wallet);
                        Step::Done(Ok(()))
                    },
                };
                (made.0, step)
            },
        }
    }

    /// Removes the backend of `currency`. Without such a backend, nothing
    /// changes.
    pub fn remove_currency(&mut self, currency: &Currency)
        ensures
            removes(*old(self), *currency, *final(self)),
            !final(self).holds(*currency),
            old(self).well_formed() ==> final(self).well_formed(),
    {
        match currency {
            Currency::ICP => {
                self.icp = None;
            },
            Currency::CKETHToken(symbol) => {
                let ghost before = self.ckerc20_tokens@;
                let ghost keep = |wallet: CKERC20TokenWallet| wallet.config.token_symbol != *symbol;
                let mut wallets: Vec<CKERC20TokenWallet> = Vec::new();
                core::mem::swap(&mut self.ckerc20_tokens, &mut wallets);
                let mut kept: Vec<CKERC20TokenWallet> = Vec::new();
                assert(before.take(0).filter(keep) =~= Seq::<CKERC20TokenWallet>::empty()) by {
                    reveal(Seq::filter);
                }
                for wallet in iter: wallets
                    invariant
                        iter.seq() == before,
                        keep == |wallet: CKERC20TokenWallet| wallet.config.token_symbol != *symbol,
                        kept@ == before.take(iter.index() as int).filter(keep),
                {
                    proof {
                        reveal(Seq::filter);
                        let i = iter.index() as int;
                        assert(before.take(i + 1).drop_last() =~= before.take(i));
                    }
                    if wallet.config.token_symbol != *symbol {
                        kept.push(wallet);
                    }
                }
                proof {
                    assert(before.take(before.len() as int) =~= before);
                    lemma_filtered_erc20(before, *symbol);
                }
                self.ckerc20_tokens = kept;
            },
            Currency::BTC => {
                self.btc = None;
            },
            Currency::GenericICRC1(token) => {
                let symbol = token.symbol_to_string();
                let ghost before = self.generic_icrc1_tokens@;
                let ghost keep = |wallet: GenericICRC1TokenWallet|
                    wallet.metadata.symbol@ != token.symbol_text();
                let mut wallets: Vec<GenericICRC1TokenWallet> = Vec::new();
                core::mem::swap(&mut self.generic_icrc1_tokens, &mut wallets);
                let mut kept: Vec<GenericICRC1TokenWallet> = Vec::new();
                assert(before.take(0).filter(keep) =~= Seq::<GenericICRC1TokenWallet>::empty()) by {
                    reveal(Seq::filter);
                }
                for wallet in iter: wallets
                    invariant
                        iter.seq() == before,
                        symbol@ == token.symbol_text(),
                        keep == |wallet: GenericICRC1TokenWallet|
                            wallet.metadata.symbol@ != token.symbol_text(),
                        kept@ == before.take(iter.index() as int).filter(keep),
                {
                    proof {
                        reveal(Seq::filter);
                        let i = iter.index() as int;
                        assert(before.take(i + 1).drop_last() =~= before.take(i));
                    }
                    if wallet.metadata.symbol != symbol {
                        kept.push(wallet);
                    }
                }
                proof {
                    assert(before.take(before.len() as int) =~= before);
                    lemma_filtered_generic(before, token.symbol_text());
                }
                self.generic_icrc1_tokens = kept;
            },
        }
    }
}

/// No backend with the symbol is found exactly where none of the backends
/// has it, and then none is counted.
pub proof fn lemma_absent_erc20(wallets: Seq<CKERC20TokenWallet>, symbol: CKTokenSymbol)
    ensures
        first_erc20(wallets, symbol) is None <==> forall|i: int|
            0 <= i < wallets.len() ==> (#[trigger] wallets[i]).config.token_symbol != symbol,
        first_erc20(wallets, symbol) matches Some(wallet) ==> wallet.config.token_symbol == symbol
            && wallets.contains(wallet),
    decreases wallets.len(),
{
    if wallets.len() > 0 {
        let rest = wallets.drop_first();
        lemma_absent_erc20(rest, symbol);
        assert forall|i: int| 0 <= i < rest.len() implies rest[i] == wallets[i + 1] by {}
        if wallets[0].config.token_symbol != symbol {
            if first_erc20(rest, symbol) is None {
                assert forall|i: int| 0 <= i < wallets.len() implies (
                #[trigger] wallets[i]).config.token_symbol != symbol by {
                    if i > 0 {
                        assert(rest[i - 1] == wallets[i]);
                    }
                }
            } else {
                let found = first_erc20(rest, symbol)->0;
                let k = choose|k: int| 0 <= k < rest.len() && rest[k] == found;
                assert(wallets[k + 1] == found);
            }
        }
    }
}

/// No backend with the symbol is found exactly where none of the backends
/// has it.
pub proof fn lemma_absent_generic(wallets: Seq<GenericICRC1TokenWallet>, symbol: Seq<char>)
    ensures
        first_generic(wallets, symbol) is None <==> forall|i: int|
            0 <= i < wallets.len() ==> (#[trigger] wallets[i]).metadata.symbol@ != symbol,
        first_generic(wallets, symbol) matches Some(wallet) ==> wallet.metadata.symbol@ == symbol
            && wallets.contains(wallet),
    decreases wallets.len(),
{
    if wallets.len() > 0 {
        let rest = wallets.drop_first();
        lemma_absent_generic(rest, symbol);
        assert forall|i: int| 0 <= i < rest.len() implies rest[i] == wallets[i + 1] by {}
        if wallets[0].metadata.symbol@ != symbol {
            if first_generic(rest, symbol) is None {
                assert forall|i: int| 0 <= i < wallets.len() implies (
                #[trigger] wallets[i]).metadata.symbol@ != symbol by {
                    if i > 0 {
                        assert(rest[i - 1] == wallets[i]);
                    }
                }
            } else {
                let found = first_generic(rest, symbol)->0;
                let k = choose|k: int| 0 <= k < rest.len() && rest[k] == found;
                assert(wallets[k + 1] == found);
            }
        }
    }
}

/// Adding a backend for a symbol keeps the symbols distinct.
pub proof fn lemma_with_erc20_distinct(wallets: Seq<CKERC20TokenWallet>, symbol: CKTokenSymbol)
    requires
        distinct_erc20(wallets),
    ensures
        distinct_erc20(with_erc20(wallets, symbol)),
{
    lemma_absent_erc20(wallets, symbol);
}

/// Adding a backend for a token keeps the symbols distinct.
pub proof fn lemma_with_generic_distinct(
    wallets: Seq<GenericICRC1TokenWallet>,
    wallet: GenericICRC1TokenWallet,
)
    requires
        distinct_generic(wallets),
    ensures
        distinct_generic(with_generic(wallets, wallet)),
{
    lemma_absent_generic(wallets, wallet.metadata.symbol@);
}

/// What is left once the backends with a symbol are filtered out: no
/// backend with that symbol, and distinct symbols if they were distinct.
pub proof fn lemma_filtered_erc20(wallets: Seq<CKERC20TokenWallet>, symbol: CKTokenSymbol)
    ensures
        first_erc20(
            wallets.filter(|wallet: CKERC20TokenWallet| wallet.config.token_symbol != symbol),
            symbol,
        ) is None,
        distinct_erc20(wallets) ==> distinct_erc20(
            wallets.filter(|wallet: CKERC20TokenWallet| wallet.config.token_symbol != symbol),
        ),
{
    let keep = |wallet: CKERC20TokenWallet| wallet.config.token_symbol != symbol;
    let kept = wallets.filter(keep);
    lemma_filter_keeps_order(wallets, keep);
    lemma_absent_erc20(kept, symbol);
    if distinct_erc20(wallets) {
        assert forall|i: int, j: int| 0 <= i < j < kept.len() implies (
        #[trigger] kept[i]).config.token_symbol != (#[trigger] kept[j]).config.token_symbol by {
            let (a, b) = choose|a: int, b: int|
                0 <= a < b < wallets.len() && wallets[a] == kept[i] && wallets[b] == kept[j];
        }
    }
}

/// What is left once the backends with a symbol are filtered out: no
/// backend with that symbol, and distinct symbols if they were distinct.
pub proof fn lemma_filtered_generic(wallets: Seq<GenericICRC1TokenWallet>, symbol: Seq<char>)
    ensures
        first_generic(
            wallets.filter(|wallet: GenericICRC1TokenWallet| wallet.metadata.symbol@ != symbol),
            symbol,
        ) is None,
        distinct_generic(wallets) ==> distinct_generic(
            wallets.filter(|wallet: GenericICRC1TokenWallet| wallet.metadata.symbol@ != symbol),
        ),
{
    let keep = |wallet: GenericICRC1TokenWallet| wallet.metadata.symbol@ != symbol;
    let kept = wallets.filter(keep);
    lemma_filter_keeps_order(wallets, keep);
    lemma_absent_generic(kept, symbol);
    if distinct_generic(wallets) {
        assert forall|i: int, j: int| 0 <= i < j < kept.len() implies (
        #[trigger] kept[i]).metadata.symbol@ != (#[trigger] kept[j]).metadata.symbol@ by {
            let (a, b) = choose|a: int, b: int|
                0 <= a < b < wallets.len() && wallets[a] == kept[i] && wallets[b] == kept[j];
        }
    }
}

/// A filter keeps what passes and keeps the order: every item of the
/// filtered sequence passes and stood in the sequence that was filtered,
/// and two of them stand in the same order there.
pub proof fn lemma_filter_keeps_order<A>(items: Seq<A>, keep: spec_fn(A) -> bool)
    ensures
        items.filter(keep).len() <= items.len(),
        forall|i: int|
            0 <= i < items.filter(keep).len() ==> keep(#[trigger] items.filter(keep)[i])
                && items.contains(items.filter(keep)[i]),
        forall|i: int, j: int|
            0 <= i < j < items.filter(keep).len() ==> exists|a: int, b: int|
                0 <= a < b < items.len() && items[a] == #[trigger] items.filter(keep)[i]
                    && items[b] == #[trigger] items.filter(keep)[j],
    decreases items.len(),
{
    reveal(Seq::filter);
    let kept = items.filter(keep);
    if items.len() > 0 {
        let head = items.drop_last();
        let kept_head = head.filter(keep);
        lemma_filter_keeps_order(head, keep);
        assert forall|i: int| 0 <= i < kept.len() implies keep(#[trigger] kept[i])
            && items.contains(kept[i]) by {
            if i < kept_head.len() {
                assert(kept[i] == kept_head[i]);
                let a = choose|a: int| 0 <= a < head.len() && head[a] == kept_head[i];
                assert(items[a] == kept[i]);
            } else {
                assert(items[items.len() - 1] == kept[i]);
            }
        }
        assert forall|i: int, j: int| 0 <= i < j < kept.len() implies exists|a: int, b: int|
            0 <= a < b < items.len() && items[a] == #[trigger] kept[i] && items[b]
                == #[trigger] kept[j] by {
            if j < kept_head.len() {
                assert(kept[i] == kept_head[i] && kept[j] == kept_head[j]);
                let (a, b) = choose|a: int, b: int|
                    0 <= a < b < head.len() && head[a] == kept_head[i] && head[b] == kept_head[j];
                assert(items[a] == kept[i] && items[b] == kept[j]);
            } else {
                assert(kept[i] == kept_head[i]);
                assert(head.contains(kept_head[i]));
                let a = choose|a: int| 0 <= a < head.len() && head[a] == kept_head[i];
                assert(items[a] == kept[i] && items[items.len() - 1] == kept[j]);
            }
        }
    }
}

/// Among backends with distinct symbols, a symbol is counted once if a
/// backend has it, and not at all otherwise.
pub proof fn lemma_count_erc20(wallets: Seq<CKERC20TokenWallet>, symbol: CKTokenSymbol)
    requires
        distinct_erc20(wallets),
    ensures
        count_erc20(wallets, symbol) == if first_erc20(wallets, symbol) is Some {
            1nat
        } else {
            0nat
        },
    decreases wallets.len(),
{
    lemma_absent_erc20(wallets, symbol);
    if wallets.len() > 0 {
        let head = wallets.drop_last();
        assert forall|i: int| 0 <= i < head.len() implies head[i] == wallets[i] by {}
        lemma_count_erc20(head, symbol);
        lemma_absent_erc20(head, symbol);
        if wallets.last().config.token_symbol == symbol {
            assert forall|i: int| 0 <= i < head.len() implies (
            #[trigger] head[i]).config.token_symbol != symbol by {
                assert(wallets[i].config.token_symbol != wallets[wallets.len()
                    - 1].config.token_symbol);
            }
            assert(wallets[wallets.len() - 1].config.token_symbol == symbol);
        } else if first_erc20(head, symbol) is Some {
            let found = first_erc20(head, symbol)->0;
            let k = choose|k: int| 0 <= k < head.len() && head[k] == found;
            assert(wallets[k].config.token_symbol == symbol);
        } else {
            assert forall|i: int| 0 <= i < wallets.len() implies (
            #[trigger] wallets[i]).config.token_symbol != symbol by {
                if i < head.len() {
                    assert(head[i] == wallets[i]);
                }
            }
        }
    }
}

/// Among backends with distinct symbols, a symbol is counted once if a
/// backend has it, and not at all otherwise.
pub proof fn lemma_count_generic(wallets: Seq<GenericICRC1TokenWallet>, symbol: Seq<char>)
    requires
        distinct_generic(wallets),
    ensures
        count_generic(wallets, symbol) == if first_generic(wallets, symbol) is Some {
            1nat
        } else {
            0nat
        },
    decreases wallets.len(),
{
    lemma_absent_generic(wallets, symbol);
    if wallets.len() > 0 {
        let head = wallets.drop_last();
        assert forall|i: int| 0 <= i < head.len() implies head[i] == wallets[i] by {}
        lemma_count_generic(head, symbol);
        lemma_absent_generic(head, symbol);
        if wallets.last().metadata.symbol@ == symbol {
            assert forall|i: int| 0 <= i < head.len() implies (
            #[trigger] head[i]).metadata.symbol@ != symbol by {
                assert(wallets[i].metadata.symbol@ != wallets[wallets.len() - 1].metadata.symbol@);
            }
            assert(wallets[wallets.len() - 1].metadata.symbol@ == symbol);
        } else if first_generic(head, symbol) is Some {
            let found = first_generic(head, symbol)->0;
            let k = choose|k: int| 0 <= k < head.len() && head[k] == found;
            assert(wallets[k].metadata.symbol@ == symbol);
        } else {
            assert forall|i: int| 0 <= i < wallets.len() implies (
            #[trigger] wallets[i]).metadata.symbol@ != symbol by {
                if i < head.len() {
                    assert(head[i] == wallets[i]);
                }
            }
        }
    }
}

/// Adding the backend of a symbol twice is adding it once, and leaves
/// exactly one backend with the symbol.
pub proof fn lemma_add_erc20_once(wallets: Seq<CKERC20TokenWallet>, symbol: CKTokenSymbol)
    requires
        distinct_erc20(wallets),
    ensures
        with_erc20(with_erc20(wallets, symbol), symbol) == with_erc20(wallets, symbol),
        count_erc20(with_erc20(wallets, symbol), symbol) == 1,
        distinct_erc20(with_erc20(wallets, symbol)),
{
    let added = with_erc20(wallets, symbol);
    lemma_with_erc20_distinct(wallets, symbol);
    lemma_absent_erc20(wallets, symbol);
    lemma_absent_erc20(added, symbol);
    if first_erc20(wallets, symbol) is None {
        assert(added[added.len() - 1].config.token_symbol == symbol);
    }
    lemma_count_erc20(added, symbol);
}

/// Adding two backends with the same symbol, one after the other, is
/// adding the first, and leaves exactly one backend with the symbol.
pub proof fn lemma_add_generic_once(
    wallets: Seq<GenericICRC1TokenWallet>,
    first: GenericICRC1TokenWallet,
    second: GenericICRC1TokenWallet,
)
    requires
        distinct_generic(wallets),
        first.metadata.symbol@ == second.metadata.symbol@,
    ensures
        with_generic(with_generic(wallets, first), second) == with_generic(wallets, first),
        count_generic(with_generic(wallets, first), first.metadata.symbol@) == 1,
        distinct_generic(with_generic(wallets, first)),
{
    let symbol = first.metadata.symbol@;
    let added = with_generic(wallets, first);
    lemma_with_generic_distinct(wallets, first);
    lemma_absent_generic(wallets, symbol);
    lemma_absent_generic(added, symbol);
    if first_generic(wallets, symbol) is None {
        assert(added[added.len() - 1].metadata.symbol@ == symbol);
    }
    lemma_count_generic(added, symbol);
}

/// Adding the backend of a well-known asset twice yields what adding it
/// once yields: the second addition changes nothing, and the manager then
/// holds a backend for the asset, unless the asset is none that the
/// Ethereum minter backs.
pub proof fn lemma_add_currency_twice(
    start: CurrencyManager,
    currency: Currency,
    stage: MetadataStage,
    event: Event,
    once: CurrencyManager,
    first: (MetadataStage, Step<()>),
    stage2: MetadataStage,
    event2: Event,
    twice: CurrencyManager,
    second: (MetadataStage, Step<()>),
)
    requires
        !(currency is GenericICRC1),
        adds(start, currency, stage, event, once, first),
        adds(once, currency, stage2, event2, twice, second),
    ensures
        same_backends(once, twice),
        second.0 == first.0,
        currency != Currency::CKETHToken(CKTokenSymbol::BTC) ==> once.holds(currency)
            && twice.holds(currency) && second.1 == Step::Done(Ok(())),
{
    match currency {
        Currency::CKETHToken(symbol) => {
            if symbol != CKTokenSymbol::BTC {
                lemma_absent_erc20(start.ckerc20_tokens@, symbol);
                lemma_absent_erc20(once.ckerc20_tokens@, symbol);
                if first_erc20(start.ckerc20_tokens@, symbol) is None {
                    let added = once.ckerc20_tokens@;
                    assert(added[added.len() - 1].config.token_symbol == symbol);
                }
            }
        },
        _ => {},
    }
}

} // verus!
