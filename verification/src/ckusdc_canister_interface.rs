//! The values that the ledger of a wrapped asset takes and returns.

use crate::big_nat::BigNat;
use crate::principal::PrincipalId;
use vstd::prelude::*;

verus! {

#[derive(Debug, Clone, PartialEq, Eq)]
pub struct Account {
    pub owner: PrincipalId,
    pub subaccount: Option<Vec<u8>>,
}

#[derive(Debug, Clone, PartialEq, Eq)]
pub struct FeatureFlags {
    pub icrc2: bool,
}

#[derive(Debug, Clone, PartialEq, Eq)]
pub struct GetBlocksRequest {
    pub start: BigNat,
    pub length: BigNat,
}

#[derive(Debug, Clone, PartialEq, Eq)]
pub struct Burn {
    pub from: Account,
    pub memo: Option<Vec<u8>>,
    pub created_at_time: Option<u64>,
    pub amount: BigNat,
    pub spender: Option<Account>,
}

#[derive(Debug, Clone, PartialEq, Eq)]
pub struct Mint {
    pub to: Account,
    pub memo: Option<Vec<u8>>,
    pub created_at_time: Option<u64>,
    pub amount: BigNat,
}

#[derive(Debug, Clone, PartialEq, Eq)]
pub struct Approve {
    pub fee: Option<BigNat>,
    pub from: Account,
    pub memo: Option<Vec<u8>>,
    pub created_at_time: Option<u64>,
    pub amount: BigNat,
    pub expected_allowance: Option<BigNat>,
    pub expires_at: Option<u64>,
    pub spender: Account,
}

#[derive(Debug, Clone, PartialEq, Eq)]
pub struct Transfer {
    pub to: Account,
    pub fee: Option<BigNat>,
    pub from: Account,
    pub memo: Option<Vec<u8>>,
    pub created_at_time: Option<u64>,
    pub amount: BigNat,
    pub spender: Option<Account>,
}

#[derive(Debug, Clone, PartialEq, Eq)]
pub struct Transaction {
    pub burn: Option<Burn>,
    pub kind: String,
    pub mint: Option<Mint>,
    pub approve: Option<Approve>,
    pub timestamp: u64,
    pub transfer: Option<Transfer>,
}

#[derive(Debug, Clone, PartialEq, Eq)]
pub struct StandardRecord {
    pub url: String,
    pub name: String,
}

#[derive(Debug, Clone, PartialEq, Eq)]
pub struct ConsentMessageMetadata {
    pub utc_offset_minutes: Option<i16>,
    pub language: String,
}

#[derive(Debug, Clone, PartialEq, Eq)]
pub enum DisplayMessageType {
    GenericDisplay,
    LineDisplay {
        characters_per_line: u16,
        lines_per_page: u16,
    },
}

#[derive(Debug, Clone, PartialEq, Eq)]
pub struct ConsentMessageSpec {
    pub metadata: ConsentMessageMetadata,
    pub device_spec: Option<DisplayMessageType>,
}

#[derive(Debug, Clone, PartialEq, Eq)]
pub struct LineDisplayPage {
    pub lines: Vec<String>,
}

#[derive(Debug, Clone, PartialEq, Eq)]
pub enum ConsentMessage {
    LineDisplayMessage {
        pages: Vec<LineDisplayPage>,
    },
    GenericDisplayMessage(String),
}

#[derive(Debug, Clone, PartialEq, Eq)]
pub struct ConsentInfo {
    pub metadata: ConsentMessageMetadata,
    pub consent_message: ConsentMessage,
}

#[derive(Debug, Clone, PartialEq, Eq)]
pub struct ErrorInfo {
    pub description: String,
}

#[derive(Debug, Clone, PartialEq, Eq)]
pub struct SupportedBlockType {
    pub url: String,
    pub block_type: String,
}

} // verus!
