//! A custody that holds several assets behind one interface.
//!
//! The custody takes deposits, checks allowances, pays out and reports
//! balances for a native settlement token, for wrapped assets that minting
//! services back, and for third-party tokens of the common token standard.
//! A caller names an asset by its tag; the manager of the backends routes
//! the operation to the backend of that asset.
//!
//! The library decides and the host acts. Every operation that needs a
//! remote service is a step function (see `remote`): it is given where the
//! operation stands and what has just happened, and it answers with the one
//! remote call to make next, or with the operation's result. The store of
//! processed transactions (see `state`) remembers which deposits were
//! recorded, and forgets the oldest when it has grown to its mark.
//!
//! The contracts of the step functions are relations between the arguments
//! and the step taken; the laws that follow from them are proved beside
//! them, as proof functions.

pub mod big_nat;
pub mod bytes;
pub mod ckbtc_minter_canister_interface;
pub mod cketh_minter_canister_interface;
pub mod ckusdc_canister_interface;
pub mod currency_error;
pub mod icrc1_types;
pub mod principal;
pub mod query;
pub mod remote;
pub mod state;
pub mod text;
pub mod transfer;
pub mod types;
pub mod utils;

pub use types::currency::Currency;
