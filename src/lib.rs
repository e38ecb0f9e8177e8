pub mod address;
pub mod blog;
pub mod errors;
pub mod events;
pub mod instructions;
pub mod key;
pub mod ledger;
pub mod state;
pub mod theorems;
