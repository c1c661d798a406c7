//! The well-known services of the wrapped assets: their addresses, in text
//! and in bytes, and the number of decimals of each asset.

use crate::principal::{principal_of, PrincipalId};
use vstd::prelude::*;

verus! {

pub const USDC_MINTER_CANISTER_ID: &'static str = "sv3dd-oaaaa-aaaar-qacoa-cai";

pub const USDC_LEDGER_CANISTER_ID: &'static str = "xevnm-gaaaa-aaaar-qafnq-cai";

pub const USDC_DECIMALS: u8 = 6;

pub const USDT_MINTER_CANISTER_ID: &'static str = "sv3dd-oaaaa-aaaar-qacoa-cai";

pub const USDT_LEDGER_CANISTER_ID: &'static str = "cngnf-vqaaa-aaaar-qag4q-cai";

pub const USDT_DECIMALS: u8 = 6;

pub const ETH_MINTER_CANISTER_ID: &'static str = "sv3dd-oaaaa-aaaar-qacoa-cai";

pub const ETH_LEDGER_CANISTER_ID: &'static str = "ss2fx-dyaaa-aaaar-qacoq-cai";

pub const ETH_DECIMALS: u8 = 18;

pub const BTC_MINTER_CANISTER_ID: &'static str = "mqygn-kiaaa-aaaar-qaadq-cai";

pub const BTC_LEDGER_CANISTER_ID: &'static str = "mxzaz-hqaaa-aaaar-qaada-cai";

pub const BTC_DECIMALS: u8 = 8;

/// The bytes of a canister's address: a 64-bit canister number, most
/// significant byte first, then the two bytes that mark a canister.
pub open spec fn canister_bytes(number: u64) -> Seq<u8> {
    seq![
        (number / 0x100_0000_0000_0000) as u8,
        (number / 0x1_0000_0000_0000 % 256) as u8,
        (number / 0x100_0000_0000 % 256) as u8,
        (number / 0x1_0000_0000 % 256) as u8,
        (number / 0x100_0000 % 256) as u8,
        (number / 0x1_0000 % 256) as u8,
        (number / 0x100 % 256) as u8,
        (number % 256) as u8,
        1u8,
        1u8,
    ]
}

/// The address of the canister with the given number.
pub fn canister_id(number: u64) -> (id: PrincipalId)
    ensures
        id@ == canister_bytes(number),
        id == principal_of(canister_bytes(number)),
{
    let bytes: [u8; 10] = [
        (number / 0x100_0000_0000_0000) as u8,
        (number / 0x1_0000_0000_0000 % 256) as u8,
        (number / 0x100_0000_0000 % 256) as u8,
        (number / 0x1_0000_0000 % 256) as u8,
        (number / 0x100_0000 % 256) as u8,
        (number / 0x1_0000 % 256) as u8,
        (number / 0x100 % 256) as u8,
        (number % 256) as u8,
        1u8,
        1u8,
    ];
    assert(bytes@ =~= canister_bytes(number));
    match PrincipalId::from_slice(bytes.as_slice()) {
        Some(id) => id,
        None => PrincipalId::management_canister(),
    }
}

/// The number of the minter of the wrapped ERC-20 assets,
/// `sv3dd-oaaaa-aaaar-qacoa-cai`.
pub const CKETH_MINTER_NUMBER: u64 = 0x0230_009c;

/// The number of the ckUSDC ledger, `xevnm-gaaaa-aaaar-qafnq-cai`.
pub const USDC_LEDGER_NUMBER: u64 = 0x0230_015b;

/// The number of the ckUSDT ledger, `cngnf-vqaaa-aaaar-qag4q-cai`.
pub const USDT_LEDGER_NUMBER: u64 = 0x0230_01b9;

/// The number of the ckETH ledger, `ss2fx-dyaaa-aaaar-qacoq-cai`.
pub const ETH_LEDGER_NUMBER: u64 = 0x0230_009d;

/// The number of the ckBTC minter, `mqygn-kiaaa-aaaar-qaadq-cai`.
pub const BTC_MINTER_NUMBER: u64 = 0x0230_0007;

/// The number of the ckBTC ledger, `mxzaz-hqaaa-aaaar-qaada-cai`.
pub const BTC_LEDGER_NUMBER: u64 = 0x0230_0006;

} // verus!
