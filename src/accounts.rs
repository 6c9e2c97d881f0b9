//! The records the sale keeps, the accounts each operation is handed, and the
//! ways an operation can fail.
use vstd::prelude::*;
use crate::address::Address;

verus! {

/// The terms of the one sale: fixed once it is opened.
#[derive(Clone, Copy, Debug)]
pub struct Sale {
    /// Settlement units charged per token unit.
    pub price: u64,
    /// The most token units one buyer may purchase over all purchases.
    pub max_per_wallet: u64,
    /// The token on sale.
    pub token_mint: Address,
    /// The account that supplies the tokens.
    pub seller: Address,
    /// The derivation nonce with which the sale signs token transfers.
    pub bump: u8,
}

/// A buyer's admission to the sale.
#[derive(Clone, Copy, Debug, PartialEq, Eq, Structural)]
pub struct Whitelist {
    /// Whether the buyer may purchase; this field, not the record's presence,
    /// decides.
    pub is_whitelisted: bool,
    pub bump: u8,
}

/// A buyer's running total of purchased token units.
#[derive(Clone, Copy, Debug, PartialEq, Eq, Structural)]
pub struct UserRecord {
    pub amount_purchased: u64,
    pub bump: u8,
}

/// Why an operation was refused. A refused operation changes nothing.
#[derive(Clone, Copy, Debug, PartialEq, Eq, Structural)]
pub enum CustomError {
    /// A purchase of zero units.
    InvalidAmount,
    /// The purchase would take the buyer past the per-wallet cap.
    ExceedsMaxPurchase,
    /// The buyer's settlement balance does not cover the price.
    InsufficientFunds,
    /// The buyer holds no admission with `is_whitelisted` set.
    NotWhitelisted,
    /// The sale was already opened.
    AlreadyInitialized,
    /// The buyer was already admitted.
    AlreadyWhitelisted,
    /// The price of the purchase does not fit in 64 bits.
    ArithmeticOverflow,
    /// The token transfer from the seller was not carried out.
    TransferFailed,
    /// A purchase was attempted before the sale was opened.
    SaleNotInitialized,
}

/// The accounts of a request to open the sale.
#[derive(Clone, Copy, Debug)]
pub struct InitializeSale {
    pub token_mint: Address,
    /// The signer that opens the sale and will supply the tokens.
    pub seller: Address,
    /// The nonce under which the sale record's address was derived.
    pub sale_bump: u8,
}

/// The accounts of a request for admission.
#[derive(Clone, Copy, Debug)]
pub struct AddToWhitelist {
    /// The signer being admitted.
    pub user: Address,
    /// The nonce under which the admission record's address was derived.
    pub whitelist_bump: u8,
}

/// The accounts of a purchase request.
#[derive(Clone, Copy, Debug)]
pub struct BuyTokens {
    /// The signing buyer.
    pub user_wallet: Address,
    /// The buyer's settlement balance when the request is made.
    pub user_lamports: u64,
    /// The nonce under which the buyer's purchase record address was derived;
    /// used when the record is created by this purchase.
    pub user_record_bump: u8,
    /// The buyer's token balance that receives the tokens.
    pub token_account: Address,
    /// The seller's token balance that the tokens come from.
    pub seller_token_account: Address,
}

/// A movement of tokens that a purchase asks the token service to carry out,
/// signed by the sale record through its nonce.
#[derive(Clone, Copy, Debug)]
pub struct TokenTransfer {
    pub from: Address,
    pub to: Address,
    pub amount: u64,
    pub authority_bump: u8,
}

} // verus!
