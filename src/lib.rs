//! A permissioned fixed-price token sale: a seller opens one sale, buyers are
//! admitted to a whitelist, and whitelisted buyers purchase up to a per-wallet
//! cap, each purchase moving tokens from the seller before the buyer's running
//! total is raised.
pub mod accounts;
pub mod address;
pub mod laws;
pub mod program;
pub mod table;

pub use accounts::{
    AddToWhitelist, BuyTokens, CustomError, InitializeSale, Sale, TokenTransfer, UserRecord,
    Whitelist,
};
pub use address::Address;
pub use program::{add_to_whitelist, buy_tokens, initialize_sale, SaleState};
pub use table::Table;
