//! The custody's own accounts on the native ledger.

use crate::principal::{principal_of, PrincipalId, MAX_PRINCIPAL_LENGTH};
use crate::bytes::zeroed;
use vstd::prelude::*;

verus! {

/// One of the accounts of an owner on the native ledger: 32 arbitrary bytes.
#[derive(Debug, Clone, Copy, PartialEq, Eq)]
pub struct Subaccount(pub [u8; 32]);

/// The address of an account on the native ledger: a checksum of four
/// bytes, then a hash of 28 bytes.
#[derive(Debug, Clone, Copy, PartialEq, Eq)]
pub struct AccountIdentifier(pub [u8; 32]);

/// What the custody knows of itself.
#[derive(Debug, Clone, Copy, PartialEq, Eq)]
pub struct CanisterState {
    pub owner: PrincipalId,
    pub default_subaccount: Subaccount,
    pub account_identifier: AccountIdentifier,
}

/// The bytes of the address that the native ledger derives from an owner
/// and one of its subaccounts: the SHA-224 hash of a domain separator, the
/// owner's bytes and the subaccount, behind the hash's CRC-32 checksum.
pub uninterp spec fn account_identifier_bytes(owner: Seq<u8>, subaccount: Seq<u8>) -> Seq<u8>;

/// The address of the account of `owner` under `subaccount`, as
/// `ic_ledger_types::AccountIdentifier::new` computes it.
#[verifier::external_body]
fn derive_account_identifier(owner: &[u8], subaccount: &[u8; 32]) -> (id: [u8; 32])
    requires
        owner@.len() <= MAX_PRINCIPAL_LENGTH,
    ensures
        id@ == account_identifier_bytes(owner@, subaccount@),
{
    let owner = candid::Principal::from_slice(owner);
    let subaccount = ic_ledger_types::Subaccount(*subaccount);
    *ic_ledger_types::AccountIdentifier::new(&owner, &subaccount).as_bytes()
}

/// The fee of a transfer on the native ledger, in its smallest unit:
/// `ic_ledger_types::DEFAULT_FEE`, which is 10,000.
#[verifier::external_body]
fn ledger_default_fee() -> (fee: u64)
    ensures
        fee == 10_000,
{
    ic_ledger_types::DEFAULT_FEE.e8s()
}

/// The bytes of the address of the native ledger:
/// `ic_ledger_types::MAINNET_LEDGER_CANISTER_ID`, the canister numbered 2.
#[verifier::external_body]
fn ledger_canister_bytes() -> (bytes: Vec<u8>)
    ensures
        bytes@ == seq![0u8, 0u8, 0u8, 0u8, 0u8, 0u8, 0u8, 2u8, 1u8, 1u8],
{
    ic_ledger_types::MAINNET_LEDGER_CANISTER_ID.as_slice().to_vec()
}

/// The bytes of the subaccount that the native ledger uses where none is
/// named: `ic_ledger_types::DEFAULT_SUBACCOUNT`, 32 zero bytes.
#[verifier::external_body]
fn ledger_default_subaccount() -> (bytes: [u8; 32])
    ensures
        forall|i: int| 0 <= i < 32 ==> bytes[i] == 0,
{
    ic_ledger_types::DEFAULT_SUBACCOUNT.0
}

/// The fee that the native ledger takes for a transfer, in its smallest
/// unit.
pub open spec fn default_fee() -> u64 {
    10_000
}

/// The bytes of the address of the native ledger.
pub open spec fn mainnet_ledger_bytes() -> Seq<u8> {
    seq![0u8, 0u8, 0u8, 0u8, 0u8, 0u8, 0u8, 2u8, 1u8, 1u8]
}

/// The bytes of the subaccount of 32 zero bytes.
pub open spec fn zero_subaccount() -> Seq<u8> {
    Seq::new(32, |i: int| 0u8)
}

/// Whether all of the bytes are zero.
pub open spec fn all_zero(bytes: Seq<u8>) -> bool {
    forall|i: int| 0 <= i < bytes.len() ==> bytes[i] == 0
}

/// The fee that the native ledger takes for a transfer.
pub fn default_fee_e8s() -> (fee: u64)
    ensures
        fee == default_fee(),
{
    ledger_default_fee()
}

/// The address of the native ledger.
pub fn mainnet_ledger_id() -> (id: PrincipalId)
    ensures
        id@ == mainnet_ledger_bytes(),
        id == principal_of(mainnet_ledger_bytes()),
{
    let bytes = ledger_canister_bytes();
    match PrincipalId::from_slice(bytes.as_slice()) {
        Some(id) => id,
        None => PrincipalId::management_canister(),
    }
}

/// The subaccount under which the custody holds its funds: 32 zero bytes.
pub fn create_default_subaccount() -> (subaccount: Subaccount)
    ensures
        all_zero(subaccount.0@),
{
    Subaccount(zeroed::<32>())
}

/// The subaccount under which an owner who names none receives funds on
/// the native ledger: 32 zero bytes.
pub fn default_receiving_subaccount() -> (subaccount: Subaccount)
    ensures
        all_zero(subaccount.0@),
{
    Subaccount(ledger_default_subaccount())
}

/// The address on the native ledger of the account of `owner` under
/// `subaccount`.
pub fn account_identifier(owner: &PrincipalId, subaccount: &Subaccount) -> (id: AccountIdentifier)
    ensures
        id.0@ == account_identifier_bytes(owner@, subaccount.0@),
{
    let bytes = owner.to_bytes();
    AccountIdentifier(derive_account_identifier(bytes.as_slice(), &subaccount.0))
}

/// What a custody whose own identity is `owner` knows of itself: its
/// identity, its default subaccount and its address on the native ledger.
pub fn get_canister_state(owner: PrincipalId) -> (state: CanisterState)
    ensures
        state.owner == owner,
        all_zero(state.default_subaccount.0@),
        state.account_identifier.0@ == account_identifier_bytes(
            owner@,
            state.default_subaccount.0@,
        ),
{
    let default_subaccount = create_default_subaccount();
    let account_identifier = account_identifier(&owner, &default_subaccount);
    CanisterState { owner, default_subaccount, account_identifier }
}

/// The bytes of a subaccount.
pub fn subaccount_bytes(subaccount: &Subaccount) -> (bytes: Vec<u8>)
    ensures
        bytes@ == subaccount.0@,
{
    let mut bytes: Vec<u8> = Vec::new();
    let mut i: usize = 0;
    while i < 32
        invariant
            i <= 32,
            bytes@ == subaccount.0@.take(i as int),
        decreases 32 - i,
    {
        bytes.push(subaccount.0[i]);
        assert(subaccount.0@.take(i + 1) =~= subaccount.0@.take(i as int).push(subaccount.0[i as int]));
        i = i + 1;
    }
    assert(subaccount.0@.take(32) =~= subaccount.0@);
    bytes
}

} // verus!
