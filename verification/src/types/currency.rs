//! The tags by which assets are named, and the configuration of the
//! well-known ones.

use crate::bytes::zeroed;
use crate::principal::PrincipalId;
use vstd::prelude::*;
use vstd::std_specs::cmp::PartialEqSpecImpl;
use vstd::std_specs::convert::FromSpecImpl;
use vstd::string::StringExecFns;
use vstd::utf8::{decode_utf8, encode_utf8, valid_utf8};

verus! {

/// The text that a lossy decoding makes of bytes: their decoding as UTF-8,
/// with the replacement character in place of each invalid sequence.
pub uninterp spec fn utf8_lossy(bytes: Seq<u8>) -> Seq<char>;

/// Decodes bytes as UTF-8 text: `String::from_utf8_lossy`, which returns
/// the decoded text of valid UTF-8 and puts the replacement character in
/// place of whatever is invalid.
#[verifier::external_body]
fn lossy_text(bytes: &[u8]) -> (text: String)
    ensures
        text@ == utf8_lossy(bytes@),
        valid_utf8(bytes@) ==> text@ == decode_utf8(bytes@),
{
    String::from_utf8_lossy(bytes).into_owned()
}

/// The symbols of the wrapped assets that a minting service backs.
#[derive(Debug, Clone, Copy, PartialEq, Eq, Hash, Structural)]
pub enum CKTokenSymbol {
    USDC,
    USDT,
    ETH,
    BTC,
}

impl CKTokenSymbol {
    /// The name of the symbol.
    pub open spec fn name(&self) -> Seq<char> {
        match self {
            CKTokenSymbol::USDC => "USDC"@,
            CKTokenSymbol::USDT => "USDT"@,
            CKTokenSymbol::ETH => "ETH"@,
            CKTokenSymbol::BTC => "BTC"@,
        }
    }

    /// Writes the name of the symbol.
    pub fn to_string(&self) -> (text: String)
        ensures
            text@ == self.name(),
    {
        match self {
            CKTokenSymbol::USDC => String::from_str("USDC"),
            CKTokenSymbol::USDT => String::from_str("USDT"),
            CKTokenSymbol::ETH => String::from_str("ETH"),
            CKTokenSymbol::BTC => String::from_str("BTC"),
        }
    }
}

/// The configuration of one well-known wrapped asset.
#[derive(Debug, Clone, Copy, Eq)]
pub struct CKTokenConfig {
    pub minter_id: PrincipalId,
    pub ledger_id: PrincipalId,
    pub token_symbol: CKTokenSymbol,
    pub decimals: u8,
    pub fee: u128,
}

impl PartialEq for CKTokenConfig {
    fn eq(&self, other: &CKTokenConfig) -> (equal: bool) {
        self.minter_id == other.minter_id && self.ledger_id == other.ledger_id
            && self.token_symbol == other.token_symbol && self.decimals == other.decimals
            && self.fee == other.fee
    }
}

impl PartialEqSpecImpl for CKTokenConfig {
    open spec fn obeys_eq_spec() -> bool {
        true
    }

    open spec fn eq_spec(&self, other: &CKTokenConfig) -> bool {
        *self == *other
    }
}

/// A third-party token: the ledger that keeps it, its symbol in at most
/// eight bytes, padded with zeros, and the number of its decimals.
#[derive(Debug, Clone, Copy, Eq, Hash)]
pub struct Token {
    pub ledger_id: PrincipalId,
    pub symbol: [u8; 8],
    pub decimals: u8,
}

impl PartialEq for Token {
    fn eq(&self, other: &Token) -> (equal: bool) {
        if !(self.ledger_id == other.ledger_id && self.decimals == other.decimals) {
            return false;
        }
        let mut i: usize = 0;
        while i < 8
            invariant
                i <= 8,
                forall|j: int| 0 <= j < i ==> self.symbol[j] == other.symbol[j],
            decreases 8 - i,
        {
            if self.symbol[i] != other.symbol[i] {
                return false;
            }
            i = i + 1;
        }
        assert(self.symbol =~= other.symbol);
        true
    }
}

impl PartialEqSpecImpl for Token {
    open spec fn obeys_eq_spec() -> bool {
        true
    }

    open spec fn eq_spec(&self, other: &Token) -> bool {
        *self == *other
    }
}

/// The eight symbol bytes of a token whose symbol is encoded as `encoded`:
/// its first eight bytes, then zeros.
pub open spec fn symbol_bytes(encoded: Seq<u8>) -> Seq<u8> {
    Seq::new(
        8,
        |i: int|
            if i < encoded.len() {
                encoded[i]
            } else {
                0u8
            },
    )
}

/// The number of bytes of `symbol` in front of its first zero byte.
pub open spec fn symbol_length(symbol: Seq<u8>) -> int
    decreases symbol.len(),
{
    if symbol.len() == 0 || symbol[0] == 0 {
        0
    } else {
        1 + symbol_length(symbol.drop_first())
    }
}

impl Token {
    /// The symbol as text: the bytes in front of the first zero byte, decoded
    /// as UTF-8 with a replacement character for whatever is invalid.
    pub open spec fn symbol_text(&self) -> Seq<char> {
        utf8_lossy(self.symbol@.take(symbol_length(self.symbol@)))
    }

    /// The token of the ledger `ledger_id` with the given symbol and number of
    /// decimals. Of a symbol whose encoding has more than eight bytes, the
    /// first eight are kept.
    pub fn from_string(ledger_id: PrincipalId, symbol: &str, decimals: u8) -> (token: Token)
        ensures
            token.ledger_id == ledger_id,
            token.decimals == decimals,
            token.symbol@ == symbol_bytes(encode_utf8(symbol@)),
    {
        let mut symbol_bytes = zeroed::<8>();
        let bytes = symbol.as_bytes();
        let mut i: usize = 0;
        while i < 8 && i < bytes.len()
            invariant
                i <= 8,
                i <= bytes.len(),
                bytes@ == encode_utf8(symbol@),
                forall|j: int| 0 <= j < i ==> symbol_bytes[j] == bytes[j],
                forall|j: int| i <= j < 8 ==> symbol_bytes[j] == 0,
            decreases 8 - i,
        {
            symbol_bytes[i] = bytes[i];
            i = i + 1;
        }
        assert(symbol_bytes@ =~= self::symbol_bytes(encode_utf8(symbol@)));
        Token { ledger_id, symbol: symbol_bytes, decimals }
    }

    /// The symbol as text.
    pub fn symbol_to_string(&self) -> (text: String)
        ensures
            text@ == self.symbol_text(),
    {
        let mut end: usize = 0;
        assert(self.symbol@.skip(0) =~= self.symbol@);
        while end < 8 && self.symbol[end] != 0
            invariant
                end <= 8,
                symbol_length(self.symbol@) == end + symbol_length(self.symbol@.skip(end as int)),
            decreases 8 - end,
        {
            proof {
                let rest = self.symbol@.skip(end as int);
                assert(rest[0] == self.symbol[end as int]);
                assert(rest.drop_first() =~= self.symbol@.skip(end + 1));
            }
            end = end + 1;
        }
        proof {
            let rest = self.symbol@.skip(end as int);
            if end < 8 {
                assert(rest[0] == self.symbol[end as int]);
            }
            assert(symbol_length(rest) == 0);
        }
        let mut bytes: Vec<u8> = Vec::new();
        let mut i: usize = 0;
        while i < end
            invariant
                i <= end <= 8,
                bytes@ == self.symbol@.take(i as int),
            decreases end - i,
        {
            bytes.push(self.symbol[i]);
            assert(self.symbol@.take(i + 1) =~= self.symbol@.take(i as int).push(
                self.symbol[i as int],
            ));
            i = i + 1;
        }
        lossy_text(bytes.as_slice())
    }
}

/// The tag of an asset that the custody can hold.
#[derive(Debug, Clone, Copy, Eq, Hash)]
pub enum Currency {
    ICP,
    CKETHToken(CKTokenSymbol),
    BTC,
    GenericICRC1(Token),
}

impl PartialEq for Currency {
    fn eq(&self, other: &Currency) -> (equal: bool) {
        match (self, other) {
            (Currency::ICP, Currency::ICP) => true,
            (Currency::CKETHToken(a), Currency::CKETHToken(b)) => *a == *b,
            (Currency::BTC, Currency::BTC) => true,
            (Currency::GenericICRC1(a), Currency::GenericICRC1(b)) => *a == *b,
            _ => false,
        }
    }
}

impl PartialEqSpecImpl for Currency {
    open spec fn obeys_eq_spec() -> bool {
        true
    }

    open spec fn eq_spec(&self, other: &Currency) -> bool {
        *self == *other
    }
}

impl Currency {
    /// The number of decimals of the asset.
    pub open spec fn spec_decimals(&self) -> u8 {
        match self {
            Currency::ICP => 8,
            Currency::CKETHToken(CKTokenSymbol::ETH) => 18,
            Currency::CKETHToken(CKTokenSymbol::BTC) => 8,
            Currency::CKETHToken(_) => 6,
            Currency::BTC => 8,
            Currency::GenericICRC1(token) => token.decimals,
        }
    }

    /// The name by which the asset is shown.
    pub open spec fn name(&self) -> Seq<char> {
        match self {
            Currency::ICP => "ICP"@,
            Currency::CKETHToken(symbol) => symbol.name(),
            Currency::BTC => "BTC"@,
            Currency::GenericICRC1(token) => token.symbol_text(),
        }
    }

    /// The number under which the tag is stored: 0 to 5 for the well-known
    /// assets, 6 for every third-party token.
    pub open spec fn code(&self) -> u8 {
        match self {
            Currency::ICP => 0,
            Currency::CKETHToken(CKTokenSymbol::USDC) => 1,
            Currency::CKETHToken(CKTokenSymbol::USDT) => 2,
            Currency::CKETHToken(CKTokenSymbol::ETH) => 3,
            Currency::CKETHToken(CKTokenSymbol::BTC) => 4,
            Currency::BTC => 5,
            Currency::GenericICRC1(_) => 6,
        }
    }

    /// The number of decimals of the asset.
    #[verifier::when_used_as_spec(spec_decimals)]
    pub fn decimals(&self) -> (count: u8)
        ensures
            count == self.spec_decimals(),
    {
        match self {
            Currency::ICP => 8,
            Currency::CKETHToken(token) => match token {
                CKTokenSymbol::ETH => 18,
                CKTokenSymbol::BTC => 8,
                _ => 6,
            },
            Currency::BTC => 8,
            Currency::GenericICRC1(token) => token.decimals,
        }
    }

    /// Writes the name by which the asset is shown.
    pub fn to_string(&self) -> (text: String)
        ensures
            text@ == self.name(),
    {
        match self {
            Currency::ICP => String::from_str("ICP"),
            Currency::CKETHToken(symbol) => symbol.to_string(),
            Currency::BTC => String::from_str("BTC"),
            Currency::GenericICRC1(token) => token.symbol_to_string(),
        }
    }

    /// The well-known asset stored under `value`.
    pub fn from(value: u8) -> (currency: Currency)
        requires
            value <= 5,
        ensures
            currency.code() == value,
            !(currency is GenericICRC1),
    {
        if value == 0 {
            Currency::ICP
        } else if value == 1 {
            Currency::CKETHToken(CKTokenSymbol::USDC)
        } else if value == 2 {
            Currency::CKETHToken(CKTokenSymbol::USDT)
        } else if value == 3 {
            Currency::CKETHToken(CKTokenSymbol::ETH)
        } else if value == 4 {
            Currency::CKETHToken(CKTokenSymbol::BTC)
        } else {
            Currency::BTC
        }
    }
}

impl From<Currency> for u8 {
    fn from(value: Currency) -> (code: u8) {
        match value {
            Currency::ICP => 0,
            Currency::CKETHToken(token) => match token {
                CKTokenSymbol::USDC => 1,
                CKTokenSymbol::USDT => 2,
                CKTokenSymbol::ETH => 3,
                CKTokenSymbol::BTC => 4,
            },
            Currency::BTC => 5,
            Currency::GenericICRC1(_) => 6,
        }
    }
}

impl FromSpecImpl<Currency> for u8 {
    open spec fn obeys_from_spec() -> bool {
        true
    }

    open spec fn from_spec(value: Currency) -> u8 {
        value.code()
    }
}

/// Two well-known assets with the same number are the same asset.
pub proof fn lemma_code_names_asset(a: Currency, b: Currency)
    requires
        a.code() == b.code(),
        a.code() <= 5,
    ensures
        a == b,
{
}

/// A symbol survives the round through a token: whatever symbol is encoded
/// in at most eight bytes, none of them zero, is the text of the token made
/// from it.
pub proof fn lemma_symbol_round_trip(token: Token, symbol: Seq<char>)
    requires
        token.symbol@ == symbol_bytes(encode_utf8(symbol)),
        encode_utf8(symbol).len() <= 8,
        forall|i: int|
            0 <= i < encode_utf8(symbol).len() ==> encode_utf8(symbol)[i]
                != 0,
    ensures
        token.symbol@.take(symbol_length(token.symbol@)) == encode_utf8(symbol),
        valid_utf8(token.symbol@.take(symbol_length(token.symbol@))),
        decode_utf8(token.symbol@.take(symbol_length(token.symbol@))) == symbol,
{
    let encoded = encode_utf8(symbol);
    lemma_symbol_length(token.symbol@, encoded.len() as int);
    assert(token.symbol@.take(encoded.len() as int) =~= encoded);
    vstd::utf8::encode_utf8_valid_utf8(symbol);
    vstd::utf8::encode_utf8_decode_utf8(symbol);
}

/// Where the first `n` bytes are not zero and the next one, if any, is, the
/// symbol has `n` bytes.
pub proof fn lemma_symbol_length(symbol: Seq<u8>, n: int)
    requires
        0 <= n <= symbol.len(),
        forall|i: int| 0 <= i < n ==> symbol[i] != 0,
        n < symbol.len() ==> symbol[n] == 0,
    ensures
        symbol_length(symbol) == n,
    decreases n,
{
    if n > 0 {
        let rest = symbol.drop_first();
        assert forall|i: int| 0 <= i < n - 1 implies rest[i] != 0 by {
            assert(rest[i] == symbol[i + 1]);
        }
        lemma_symbol_length(rest, n - 1);
    }
}

} // verus!
