//! The registry of third-party tokens: what the ledgers that were
//! registered report of their tokens, and which ledger keeps which symbol.

use crate::principal::PrincipalId;
use crate::remote::{Event, Step};
use crate::types::canister_wallets::icrc1_token_wallet::{
    queries_metadata, GenericICRC1TokenWallet, ICRC1TokenMetadata, MetadataStage,
};
use crate::types::currency::{symbol_bytes, CKTokenSymbol, Currency, Token};
use vstd::prelude::*;
use vstd::string::StringExecFns;
use vstd::utf8::encode_utf8;

verus! {

/// Largest serialized size of a registry, in bytes.
pub const MAX_VALUE_SIZE_TOKEN_REGISTRY: u32 = 10_000_000;

/// One registered ledger and what it reported.
#[derive(Debug, Clone, PartialEq, Eq)]
pub struct RegisteredToken {
    pub ledger_id: PrincipalId,
    pub metadata: ICRC1TokenMetadata,
}

/// One symbol and the ledger that keeps it.
#[derive(Debug, Clone, PartialEq, Eq)]
pub struct SymbolEntry {
    pub symbol: String,
    pub ledger_id: PrincipalId,
}

/// The registry of third-party tokens.
#[derive(Debug, Clone, PartialEq, Eq)]
pub struct ICRC1TokenRegistry {
    tokens: Vec<RegisteredToken>,
    symbol_to_canister: Vec<SymbolEntry>,
}

/// What the first of `tokens` that `ledger_id` keeps reported.
pub open spec fn metadata_in(tokens: Seq<RegisteredToken>, ledger_id: PrincipalId) -> Option<
    ICRC1TokenMetadata,
>
    decreases tokens.len(),
{
    if tokens.len() == 0 {
        None
    } else if tokens[0].ledger_id == ledger_id {
        Some(tokens[0].metadata)
    } else {
        metadata_in(tokens.drop_first(), ledger_id)
    }
}

/// The ledger of the first of `entries` for `symbol`.
pub open spec fn ledger_in(entries: Seq<SymbolEntry>, symbol: Seq<char>) -> Option<PrincipalId>
    decreases entries.len(),
{
    if entries.len() == 0 {
        None
    } else if entries[0].symbol@ == symbol {
        Some(entries[0].ledger_id)
    } else {
        ledger_in(entries.drop_first(), symbol)
    }
}

/// Whether `currency` is the asset tag of the token that `ledger_id` keeps
/// and that has the given symbol and number of decimals: the well-known
/// tag for a well-known symbol, and for any other the tag of a third-party
/// token with the ledger, the first eight bytes of the symbol and the
/// decimals.
pub open spec fn names_token(
    currency: Currency,
    ledger_id: PrincipalId,
    symbol: Seq<char>,
    decimals: u8,
) -> bool {
    if symbol == "ICP"@ {
        currency == Currency::ICP
    } else if symbol == "ckBTC"@ {
        currency == Currency::BTC
    } else if symbol == "ckETH"@ {
        currency == Currency::CKETHToken(CKTokenSymbol::ETH)
    } else if symbol == "ckUSDC"@ {
        currency == Currency::CKETHToken(CKTokenSymbol::USDC)
    } else if symbol == "ckUSDT"@ {
        currency == Currency::CKETHToken(CKTokenSymbol::USDT)
    } else {
        &&& currency matches Currency::GenericICRC1(token)
        &&& token.ledger_id == ledger_id
        &&& token.decimals == decimals
        &&& token.symbol@ == symbol_bytes(encode_utf8(symbol))
    }
}

/// Whether `after` is the registry `before` with the ledger `ledger_id`
/// registered as having reported `metadata`: the registry now finds the
/// metadata under the ledger and the ledger under the token's symbol, and
/// whatever else it found before.
pub open spec fn registers(
    before: ICRC1TokenRegistry,
    ledger_id: PrincipalId,
    metadata: ICRC1TokenMetadata,
    after: ICRC1TokenRegistry,
) -> bool {
    &&& forall|other: PrincipalId|
        #[trigger] after.metadata_of(other) == if other == ledger_id {
            Some(metadata)
        } else {
            before.metadata_of(other)
        }
    &&& forall|symbol: Seq<char>|
        #[trigger] after.ledger_of(symbol) == if symbol == metadata.symbol@ {
            Some(ledger_id)
        } else {
            before.ledger_of(symbol)
        }
    &&& after.entries() == before.entries().push(RegisteredToken { ledger_id, metadata })
}

impl Default for ICRC1TokenRegistry {
    fn default() -> (registry: ICRC1TokenRegistry)
        ensures
            registry.entries().len() == 0,
            registry.symbols().len() == 0,
    {
        ICRC1TokenRegistry::new()
    }
}

impl ICRC1TokenRegistry {
    /// The registered ledgers with what they reported, in the order of
    /// their registration.
    pub closed spec fn entries(&self) -> Seq<RegisteredToken> {
        self.tokens@
    }

    /// The symbols of the registered tokens, each with the ledger that was
    /// registered with it last, in the order in which the symbols were
    /// seen first.
    pub closed spec fn symbols(&self) -> Seq<SymbolEntry> {
        self.symbol_to_canister@
    }

    /// What the ledger `ledger_id` reported when it was registered, or
    /// `None` where it was not.
    pub open spec fn metadata_of(&self, ledger_id: PrincipalId) -> Option<ICRC1TokenMetadata> {
        metadata_in(self.entries(), ledger_id)
    }

    /// The ledger that keeps the token with the symbol `symbol`: the last
    /// that was registered with it.
    pub open spec fn ledger_of(&self, symbol: Seq<char>) -> Option<PrincipalId> {
        ledger_in(self.symbols(), symbol)
    }

    /// A registry without tokens.
    pub fn new() -> (registry: ICRC1TokenRegistry)
        ensures
            registry.entries().len() == 0,
            registry.symbols().len() == 0,
    {
        ICRC1TokenRegistry { tokens: Vec::new(), symbol_to_canister: Vec::new() }
    }

    /// The registry with the given entries, as a registry that was loaded
    /// from what was persisted of it.
    pub fn from_entries(tokens: Vec<RegisteredToken>, symbols: Vec<SymbolEntry>) -> (registry:
        ICRC1TokenRegistry)
        ensures
            registry.entries() == tokens@,
            registry.symbols() == symbols@,
    {
        ICRC1TokenRegistry { tokens, symbol_to_canister: symbols }
    }

    /// The symbols of the registered tokens with their ledgers.
    pub fn get_all_symbols(&self) -> (symbols: Vec<SymbolEntry>)
        ensures
            symbols@ == self.symbols(),
    {
        let mut symbols: Vec<SymbolEntry> = Vec::new();
        let mut i: usize = 0;
        while i < self.symbol_to_canister.len()
            invariant
                i <= self.symbol_to_canister.len(),
                symbols@ == self.symbol_to_canister@.take(i as int),
            decreases self.symbol_to_canister.len() - i,
        {
            let entry = &self.symbol_to_canister[i];
            symbols.push(SymbolEntry { symbol: entry.symbol.clone(), ledger_id: entry.ledger_id });
            assert(self.symbol_to_canister@.take(i + 1) =~= self.symbol_to_canister@.take(
                i as int,
            ).push(self.symbol_to_canister@[i as int]));
            i = i + 1;
        }
        assert(self.symbol_to_canister@.take(self.symbol_to_canister.len() as int)
            =~= self.symbol_to_canister@);
        symbols
    }

    /// Where the entry of `ledger_id` is.
    fn find_token(&self, ledger_id: &PrincipalId) -> (found: Option<usize>)
        ensures
            match metadata_in(self.tokens@, *ledger_id) {
                Some(metadata) => found matches Some(i) && i < self.tokens@.len()
                    && self.tokens@[i as int].metadata == metadata,
                None => found is None,
            },
    {
        let mut i: usize = 0;
        assert(self.tokens@.skip(0) =~= self.tokens@);
        while i < self.tokens.len()
            invariant
                i <= self.tokens.len(),
                metadata_in(self.tokens@, *ledger_id) == metadata_in(
                    self.tokens@.skip(i as int),
                    *ledger_id,
                ),
            decreases self.tokens.len() - i,
        {
            proof {
                let rest = self.tokens@.skip(i as int);
                assert(rest[0] == self.tokens@[i as int]);
                assert(rest.drop_first() =~= self.tokens@.skip(i + 1));
            }
            if self.tokens[i].ledger_id == *ledger_id {
                return Some(i);
            }
            i = i + 1;
        }
        None
    }

    /// Where the entry of `symbol` is.
    fn find_symbol(&self, symbol: &str) -> (found: Option<usize>)
        ensures
            match ledger_in(self.symbol_to_canister@, symbol@) {
                Some(ledger_id) => found matches Some(i) && i < self.symbol_to_canister@.len()
                    && self.symbol_to_canister@[i as int].ledger_id == ledger_id
                    && self.symbol_to_canister@[i as int].symbol@ == symbol@
                    && forall|j: int| 0 <= j < i ==> self.symbol_to_canister@[j].symbol@ != symbol@,
                None => found is None && forall|j: int|
                    0 <= j < self.symbol_to_canister@.len() ==> self.symbol_to_canister@[j].symbol@
                        != symbol@,
            },
    {
        let wanted = symbol.to_owned();
        let mut i: usize = 0;
        assert(self.symbol_to_canister@.skip(0) =~= self.symbol_to_canister@);
        while i < self.symbol_to_canister.len()
            invariant
                i <= self.symbol_to_canister.len(),
                wanted@ == symbol@,
                forall|j: int| 0 <= j < i ==> self.symbol_to_canister@[j].symbol@ != symbol@,
                ledger_in(self.symbol_to_canister@, symbol@) == ledger_in(
                    self.symbol_to_canister@.skip(i as int),
                    symbol@,
                ),
            decreases self.symbol_to_canister.len() - i,
        {
            proof {
                let rest = self.symbol_to_canister@.skip(i as int);
                assert(rest[0] == self.symbol_to_canister@[i as int]);
                assert(rest.drop_first() =~= self.symbol_to_canister@.skip(i + 1));
            }
            if self.symbol_to_canister[i].symbol == wanted {
                return Some(i);
            }
            i = i + 1;
        }
        None
    }

    /// One step of the registration of the ledger `ledger_id`. A ledger
    /// that was registered before is not asked again: the step gives what
    /// it reported then. Any other ledger is asked for its token's
    /// metadata, which the registry then keeps under the ledger, and the
    /// ledger under the token's symbol. If the query fails, nothing is
    /// registered.
    pub fn register_token(&mut self, ledger_id: PrincipalId, stage: MetadataStage, event: Event) -> (next:
        (MetadataStage, Step<ICRC1TokenMetadata>))
        ensures
            match old(self).metadata_of(ledger_id) {
                Some(cached) => {
                    &&& next.0 == MetadataStage::Finished
                    &&& next.1 matches Step::Done(Ok(metadata))
                    &&& metadata.same_as(cached)
                    &&& *final(self) == *old(self)
                },
                None => exists|queried: (MetadataStage, Step<ICRC1TokenMetadata>)|
                    {
                        &&& #[trigger] queries_metadata(ledger_id, stage, event, queried)
                        &&& next.0 == queried.0
                        &&& match queried.1 {
                            Step::Done(Ok(metadata)) => {
                                &&& next.1 matches Step::Done(Ok(copy))
                                &&& copy.same_as(metadata)
                                &&& registers(*old(self), ledger_id, metadata, *final(self))
                            },
                            _ => next.1 == queried.1 && *final(self) == *old(self),
                        }
                    },
            },
    {
        if let Some(i) = self.find_token(&ledger_id) {
            return (MetadataStage::Finished, Step::Done(Ok(self.tokens[i].metadata.clone())));
        }
        let queried = GenericICRC1TokenWallet::query_token_metadata(ledger_id, stage, event);
        let ghost witness = queried;
        let metadata = match queried.1 {
            Step::Done(Ok(metadata)) => metadata,
            step => {
                return (queried.0, step);
            },
        };
        let copy = metadata.clone();
        let ghost symbols = self.symbol_to_canister@;
        let ghost tokens = self.tokens@;
        let entry = SymbolEntry { symbol: metadata.symbol.clone(), ledger_id };
        match self.find_symbol(metadata.symbol.as_str()) {
            Some(i) => {
                self.symbol_to_canister[i] = entry;
                assert forall|symbol: Seq<char>| #[trigger]
                    ledger_in(self.symbol_to_canister@, symbol) == if symbol == metadata.symbol@ {
                        Some(ledger_id)
                    } else {
                        ledger_in(symbols, symbol)
                    } by {
                    lemma_symbol_replaced(symbols, i as int, entry, symbol);
                }
            },
            None => {
                self.symbol_to_canister.push(entry);
                assert forall|symbol: Seq<char>| #[trigger]
                    ledger_in(self.symbol_to_canister@, symbol) == if symbol == metadata.symbol@ {
                        Some(ledger_id)
                    } else {
                        ledger_in(symbols, symbol)
                    } by {
                    lemma_symbol_added(symbols, entry, symbol);
                    lemma_symbol_absent(symbols, metadata.symbol@);
                }
            },
        }
        let token = RegisteredToken { ledger_id, metadata };
        self.tokens.push(token);
        proof {
            assert forall|other: PrincipalId| #[trigger]
                metadata_in(self.tokens@, other) == if other == ledger_id {
                    Some(token.metadata)
                } else {
                    metadata_in(tokens, other)
                } by {
                lemma_token_added(tokens, token, other);
            }
            assert(queries_metadata(ledger_id, stage, event, witness));
        }
        (queried.0, Step::Done(Ok(copy)))
    }

    /// Whether the ledger `ledger_id` was registered.
    pub fn is_token_registered(&self, ledger_id: &PrincipalId) -> (registered: bool)
        ensures
            registered == self.metadata_of(*ledger_id) is Some,
    {
        self.find_token(ledger_id).is_some()
    }

    /// Whether a token with the symbol `symbol` was registered.
    pub fn is_symbol_registered(&self, symbol: &str) -> (registered: bool)
        ensures
            registered == self.ledger_of(symbol@) is Some,
    {
        self.find_symbol(symbol).is_some()
    }

    /// What the ledger `ledger_id` reported when it was registered.
    pub fn get_token_metadata(&self, ledger_id: &PrincipalId) -> (metadata: Option<
        ICRC1TokenMetadata,
    >)
        ensures
            match self.metadata_of(*ledger_id) {
                Some(cached) => metadata matches Some(copy) && copy.same_as(cached),
                None => metadata is None,
            },
    {
        match self.find_token(ledger_id) {
            Some(i) => Some(self.tokens[i].metadata.clone()),
            None => None,
        }
    }

    /// The ledger that keeps the token with the symbol `symbol`.
    pub fn get_ledger_by_symbol(&self, symbol: &str) -> (ledger_id: Option<PrincipalId>)
        ensures
            ledger_id == self.ledger_of(symbol@),
    {
        match self.find_symbol(symbol) {
            Some(i) => Some(self.symbol_to_canister[i].ledger_id),
            None => None,
        }
    }

    /// Every registered ledger with what it reported, in the order of
    /// registration.
    pub fn get_all_tokens(&self) -> (tokens: Vec<(PrincipalId, ICRC1TokenMetadata)>)
        ensures
            tokens@.len() == self.entries().len(),
            forall|i: int|
                0 <= i < tokens@.len() ==> (#[trigger] tokens@[i]).0 == self.entries()[i].ledger_id
                    && tokens@[i].1.same_as(self.entries()[i].metadata),
    {
        let mut tokens: Vec<(PrincipalId, ICRC1TokenMetadata)> = Vec::new();
        let mut i: usize = 0;
        while i < self.tokens.len()
            invariant
                i <= self.tokens.len(),
                tokens@.len() == i,
                forall|j: int|
                    0 <= j < i ==> (#[trigger] tokens@[j]).0 == self.tokens@[j].ledger_id
                        && tokens@[j].1.same_as(self.tokens@[j].metadata),
            decreases self.tokens.len() - i,
        {
            tokens.push((self.tokens[i].ledger_id, self.tokens[i].metadata.clone()));
            i = i + 1;
        }
        tokens
    }

    /// The asset tag of the token that the registered ledger `ledger_id`
    /// keeps, or `None` where the ledger was not registered.
    pub fn to_currency(&self, ledger_id: &PrincipalId) -> (currency: Option<Currency>)
        ensures
            match self.metadata_of(*ledger_id) {
                Some(metadata) => currency matches Some(tag) && names_token(
                    tag,
                    *ledger_id,
                    metadata.symbol@,
                    metadata.decimals,
                ),
                None => currency is None,
            },
    {
        let metadata = match self.find_token(ledger_id) {
            Some(i) => &self.tokens[i].metadata,
            None => {
                return None;
            },
        };
        let symbol = &metadata.symbol;
        if *symbol == String::from_str("ICP") {
            Some(Currency::ICP)
        } else if *symbol == String::from_str("ckBTC") {
            Some(Currency::BTC)
        } else if *symbol == String::from_str("ckETH") {
            Some(Currency::CKETHToken(CKTokenSymbol::ETH))
        } else if *symbol == String::from_str("ckUSDC") {
            Some(Currency::CKETHToken(CKTokenSymbol::USDC))
        } else if *symbol == String::from_str("ckUSDT") {
            Some(Currency::CKETHToken(CKTokenSymbol::USDT))
        } else {
            Some(
                Currency::GenericICRC1(
                    Token::from_string(*ledger_id, symbol.as_str(), metadata.decimals),
                ),
            )
        }
    }
}

/// An entry at the end is found under its ledger if no entry before it has
/// the ledger, and changes nothing for the other ledgers.
pub proof fn lemma_token_added(
    tokens: Seq<RegisteredToken>,
    token: RegisteredToken,
    other: PrincipalId,
)
    ensures
        metadata_in(tokens.push(token), other) == if metadata_in(tokens, other) is Some {
            metadata_in(tokens, other)
        } else if other == token.ledger_id {
            Some(token.metadata)
        } else {
            None
        },
    decreases tokens.len(),
{
    let added = tokens.push(token);
    reveal_with_fuel(metadata_in, 3);
    if tokens.len() == 0 {
        assert(added[0] == token);
        assert(added.drop_first() =~= Seq::<RegisteredToken>::empty());
    } else {
        assert(added[0] == tokens[0]);
        lemma_token_added(tokens.drop_first(), token, other);
        assert(added.drop_first() =~= tokens.drop_first().push(token));
    }
}

/// An entry at the end is found under its symbol if no entry before it has
/// the symbol, and changes nothing for the other symbols.
pub proof fn lemma_symbol_added(entries: Seq<SymbolEntry>, entry: SymbolEntry, symbol: Seq<char>)
    ensures
        ledger_in(entries.push(entry), symbol) == if ledger_in(entries, symbol) is Some {
            ledger_in(entries, symbol)
        } else if symbol == entry.symbol@ {
            Some(entry.ledger_id)
        } else {
            None
        },
    decreases entries.len(),
{
    let added = entries.push(entry);
    reveal_with_fuel(ledger_in, 3);
    if entries.len() == 0 {
        assert(added[0] == entry);
        assert(added.drop_first() =~= Seq::<SymbolEntry>::empty());
    } else {
        assert(added[0] == entries[0]);
        lemma_symbol_added(entries.drop_first(), entry, symbol);
        assert(added.drop_first() =~= entries.drop_first().push(entry));
    }
}

/// An entry put in the place of the first entry with its symbol is found
/// under the symbol, and changes nothing for the other symbols.
pub proof fn lemma_symbol_replaced(
    entries: Seq<SymbolEntry>,
    i: int,
    entry: SymbolEntry,
    symbol: Seq<char>,
)
    requires
        0 <= i < entries.len(),
        entries[i].symbol@ == entry.symbol@,
        forall|j: int| 0 <= j < i ==> entries[j].symbol@ != entry.symbol@,
    ensures
        ledger_in(entries.update(i, entry), symbol) == if symbol == entry.symbol@ {
            Some(entry.ledger_id)
        } else {
            ledger_in(entries, symbol)
        },
    decreases i,
{
    let replaced = entries.update(i, entry);
    if i == 0 {
        assert(replaced.drop_first() =~= entries.drop_first());
    } else {
        assert(replaced[0] == entries[0]);
        assert forall|j: int| 0 <= j < i - 1 implies entries.drop_first()[j].symbol@
            != entry.symbol@ by {
            assert(entries.drop_first()[j] == entries[j + 1]);
        }
        lemma_symbol_replaced(entries.drop_first(), i - 1, entry, symbol);
        assert(replaced.drop_first() =~= entries.drop_first().update(i - 1, entry));
    }
}

/// No entry is found for a symbol that none of the entries has.
pub proof fn lemma_symbol_absent(entries: Seq<SymbolEntry>, symbol: Seq<char>)
    requires
        forall|j: int| 0 <= j < entries.len() ==> entries[j].symbol@ != symbol,
    ensures
        ledger_in(entries, symbol) is None,
    decreases entries.len(),
{
    if entries.len() > 0 {
        assert forall|j: int| 0 <= j < entries.drop_first().len() implies entries.drop_first()[j].symbol@
            != symbol by {
            assert(entries.drop_first()[j] == entries[j + 1]);
        }
        lemma_symbol_absent(entries.drop_first(), symbol);
    }
}

/// Every entry of the registry is found under its ledger.
pub proof fn lemma_registered(tokens: Seq<RegisteredToken>, i: int)
    requires
        0 <= i < tokens.len(),
    ensures
        metadata_in(tokens, tokens[i].ledger_id) is Some,
    decreases i,
{
    if tokens[0].ledger_id != tokens[i].ledger_id {
        lemma_registered(tokens.drop_first(), i - 1);
    }
}

} // verus!
