pub mod btc_token_wallet;
pub mod ckerc20_token_wallet;
pub mod icp_canister_wallet;
pub mod icrc1_token_wallet;
