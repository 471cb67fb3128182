pub mod account;
pub mod amm;
pub mod amm_deposit;
pub mod amm_initialize;
pub mod amm_swap;
pub mod amm_withdraw;
pub mod addr;
pub mod bytes;
pub mod checks;
pub mod curve;
pub mod data_store;
pub mod escrow;
pub mod escrow_make;
pub mod escrow_refund;
pub mod escrow_take;
pub mod errors;
pub mod pda;
pub mod state;
pub mod token;
pub mod token_ledger;
pub mod vault;

pub use addr::Address;
pub use errors::LedgerError;
