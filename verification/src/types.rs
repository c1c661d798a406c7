pub mod canister_wallet;
pub mod canister_wallets;
pub mod constants;
pub mod currency;
pub mod currency_manager;
pub mod token_registry;
