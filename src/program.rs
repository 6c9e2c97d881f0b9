//! The sale's state and its three operations: opening the sale, admitting a
//! buyer, and a purchase.
//!
//! A purchase runs in two steps around the token service. `purchase_order`
//! checks the request and names the transfer to perform; once the service has
//! answered, `buy_tokens` takes its answer and raises the buyer's total only
//! when the transfer went through.
use vstd::prelude::*;
use crate::accounts::{
    AddToWhitelist, BuyTokens, CustomError, InitializeSale, Sale, TokenTransfer, UserRecord,
    Whitelist,
};
use crate::address::Address;
use crate::table::Table;

verus! {

/// What the sale holds: its terms once opened, the admissions and the
/// purchase totals, each keyed by buyer.
pub ghost struct SaleStateView {
    pub sale: Option<Sale>,
    pub whitelist: Map<Address, Whitelist>,
    pub records: Map<Address, UserRecord>,
}

/// The sale record, the whitelist and the purchase ledger.
pub struct SaleState {
    sale: Option<Sale>,
    whitelist: Table<Whitelist>,
    records: Table<UserRecord>,
}

/// The terms that opening the sale records.
pub open spec fn opened_sale(ctx: InitializeSale, price: u64, max_per_wallet: u64) -> Sale {
    Sale {
        price,
        max_per_wallet,
        token_mint: ctx.token_mint,
        seller: ctx.seller,
        bump: ctx.sale_bump,
    }
}

/// Opening succeeds exactly when no sale was opened yet.
pub open spec fn initialize_result(s: SaleStateView) -> Result<(), CustomError> {
    if s.sale is Some {
        Err(CustomError::AlreadyInitialized)
    } else {
        Ok(())
    }
}

pub open spec fn after_initialize(
    s: SaleStateView,
    ctx: InitializeSale,
    price: u64,
    max_per_wallet: u64,
) -> SaleStateView {
    if s.sale is Some {
        s
    } else {
        SaleStateView {
            sale: Some(opened_sale(ctx, price, max_per_wallet)),
            whitelist: s.whitelist,
            records: s.records,
        }
    }
}

/// Admission succeeds exactly when the buyer holds no admission record yet.
pub open spec fn whitelist_result(s: SaleStateView, ctx: AddToWhitelist) -> Result<
    (),
    CustomError,
> {
    if s.whitelist.contains_key(ctx.user) {
        Err(CustomError::AlreadyWhitelisted)
    } else {
        Ok(())
    }
}

pub open spec fn after_whitelist(s: SaleStateView, ctx: AddToWhitelist) -> SaleStateView {
    if s.whitelist.contains_key(ctx.user) {
        s
    } else {
        SaleStateView {
            sale: s.sale,
            whitelist: s.whitelist.insert(
                ctx.user,
                Whitelist { is_whitelisted: true, bump: ctx.whitelist_bump },
            ),
            records: s.records,
        }
    }
}

/// Whether `buyer` holds an admission with `is_whitelisted` set.
pub open spec fn is_whitelisted(s: SaleStateView, buyer: Address) -> bool {
    s.whitelist.contains_key(buyer) && s.whitelist[buyer].is_whitelisted
}

/// What `buyer` has purchased so far; zero before the first purchase.
pub open spec fn purchased(s: SaleStateView, buyer: Address) -> int {
    if s.records.contains_key(buyer) {
        s.records[buyer].amount_purchased as int
    } else {
        0
    }
}

/// The checks of a purchase, in their order, and the transfer it asks for when
/// all pass.
pub open spec fn purchase_check(s: SaleStateView, ctx: BuyTokens, amount: u64) -> Result<
    TokenTransfer,
    CustomError,
> {
    match s.sale {
        None => Err(CustomError::SaleNotInitialized),
        Some(sale) => {
            let cost = amount as int * sale.price as int;
            if amount == 0 {
                Err(CustomError::InvalidAmount)
            } else if purchased(s, ctx.user_wallet) + amount > sale.max_per_wallet {
                Err(CustomError::ExceedsMaxPurchase)
            } else if cost > u64::MAX {
                Err(CustomError::ArithmeticOverflow)
            } else if (ctx.user_lamports as int) < cost {
                Err(CustomError::InsufficientFunds)
            } else if !is_whitelisted(s, ctx.user_wallet) {
                Err(CustomError::NotWhitelisted)
            } else {
                Ok(
                    TokenTransfer {
                        from: ctx.seller_token_account,
                        to: ctx.token_account,
                        amount,
                        authority_bump: sale.bump,
                    },
                )
            }
        },
    }
}

/// A purchase succeeds when its checks pass and the transfer went through.
pub open spec fn buy_result(
    s: SaleStateView,
    ctx: BuyTokens,
    amount: u64,
    transferred: bool,
) -> Result<(), CustomError> {
    match purchase_check(s, ctx, amount) {
        Err(e) => Err(e),
        Ok(_) => if transferred {
            Ok(())
        } else {
            Err(CustomError::TransferFailed)
        },
    }
}

/// The buyer's record after a successful purchase of `amount`: created at zero
/// with the request's nonce when absent, then raised by `amount`.
pub open spec fn raised_record(s: SaleStateView, ctx: BuyTokens, amount: u64) -> UserRecord {
    UserRecord {
        amount_purchased: (purchased(s, ctx.user_wallet) + amount) as u64,
        bump: if s.records.contains_key(ctx.user_wallet) {
            s.records[ctx.user_wallet].bump
        } else {
            ctx.user_record_bump
        },
    }
}

pub open spec fn after_buy(
    s: SaleStateView,
    ctx: BuyTokens,
    amount: u64,
    transferred: bool,
) -> SaleStateView {
    if buy_result(s, ctx, amount, transferred) is Ok {
        SaleStateView {
            sale: s.sale,
            whitelist: s.whitelist,
            records: s.records.insert(ctx.user_wallet, raised_record(s, ctx, amount)),
        }
    } else {
        s
    }
}

impl SaleState {
    pub closed spec fn view(&self) -> SaleStateView {
        SaleStateView { sale: self.sale, whitelist: self.whitelist@, records: self.records@ }
    }

    pub closed spec fn wf(&self) -> bool {
        self.whitelist.wf() && self.records.wf()
    }

    /// A deployment with no sale opened, nobody admitted and nothing bought.
    pub fn new() -> (r: SaleState)
        ensures
            r.wf(),
            r@.sale is None,
            r@.whitelist == Map::<Address, Whitelist>::empty(),
            r@.records == Map::<Address, UserRecord>::empty(),
    {
        SaleState { sale: None, whitelist: Table::new(), records: Table::new() }
    }

    /// The sale's terms, once opened.
    pub fn sale(&self) -> (r: Option<Sale>)
        ensures
            r == self@.sale,
    {
        self.sale
    }

    /// The admission record of `user`, if any.
    pub fn whitelist_entry(&self, user: &Address) -> (r: Option<Whitelist>)
        requires
            self.wf(),
        ensures
            r == (if self@.whitelist.contains_key(*user) {
                Some(self@.whitelist[*user])
            } else {
                None
            }),
    {
        self.whitelist.get(user)
    }

    /// The purchase record of `user`, if any.
    pub fn user_record(&self, user: &Address) -> (r: Option<UserRecord>)
        requires
            self.wf(),
        ensures
            r == (if self@.records.contains_key(*user) {
                Some(self@.records[*user])
            } else {
                None
            }),
    {
        self.records.get(user)
    }

    /// Puts back a sale record read from storage.
    pub fn load_sale(&mut self, sale: Sale)
        requires
            old(self).wf(),
        ensures
            final(self).wf(),
            final(self)@ == (SaleStateView { sale: Some(sale), ..old(self)@ }),
    {
        self.sale = Some(sale);
    }

    /// Puts back an admission record of `user` read from storage.
    pub fn load_whitelist_entry(&mut self, user: Address, entry: Whitelist)
        requires
            old(self).wf(),
        ensures
            final(self).wf(),
            final(self)@ == (SaleStateView {
                whitelist: old(self)@.whitelist.insert(user, entry),
                ..old(self)@
            }),
    {
        self.whitelist.insert(user, entry);
    }

    /// Puts back a purchase record of `user` read from storage.
    pub fn load_user_record(&mut self, user: Address, record: UserRecord)
        requires
            old(self).wf(),
        ensures
            final(self).wf(),
            final(self)@ == (SaleStateView {
                records: old(self)@.records.insert(user, record),
                ..old(self)@
            }),
    {
        self.records.insert(user, record);
    }

    /// The running total of `user`; zero before their first purchase.
    fn purchased_by(&self, user: &Address) -> (r: u64)
        requires
            self.wf(),
        ensures
            r == purchased(self@, *user),
    {
        match self.records.get(user) {
            Some(rec) => rec.amount_purchased,
            None => 0,
        }
    }

    /// Runs the checks of a purchase in their order and names the token
    /// transfer to carry out when all pass. Changes nothing.
    pub fn purchase_order(&self, ctx: &BuyTokens, amount: u64) -> (r: Result<
        TokenTransfer,
        CustomError,
    >)
        requires
            self.wf(),
        ensures
            r == purchase_check(self@, *ctx, amount),
    {
        let sale = match self.sale {
            None => {
                return Err(CustomError::SaleNotInitialized);
            },
            Some(sale) => sale,
        };
        if amount == 0 {
            return Err(CustomError::InvalidAmount);
        }
        let so_far = self.purchased_by(&ctx.user_wallet);
        match so_far.checked_add(amount) {
            None => {
                return Err(CustomError::ExceedsMaxPurchase);
            },
            Some(total) => {
                if total > sale.max_per_wallet {
                    return Err(CustomError::ExceedsMaxPurchase);
                }
            },
        }
        let cost = match amount.checked_mul(sale.price) {
            None => {
                return Err(CustomError::ArithmeticOverflow);
            },
            Some(cost) => cost,
        };
        if ctx.user_lamports < cost {
            return Err(CustomError::InsufficientFunds);
        }
        let admitted = match self.whitelist.get(&ctx.user_wallet) {
            Some(entry) => entry.is_whitelisted,
            None => false,
        };
        if !admitted {
            return Err(CustomError::NotWhitelisted);
        }
        Ok(
            TokenTransfer {
                from: ctx.seller_token_account,
                to: ctx.token_account,
                amount,
                authority_bump: sale.bump,
            },
        )
    }
}

/// Opens the sale with the given terms; refused once a sale is open.
pub fn initialize_sale(
    state: &mut SaleState,
    ctx: &InitializeSale,
    price: u64,
    max_per_wallet: u64,
) -> (r: Result<(), CustomError>)
    requires
        old(state).wf(),
    ensures
        final(state).wf(),
        r == initialize_result(old(state)@),
        final(state)@ == after_initialize(old(state)@, *ctx, price, max_per_wallet),
{
    if state.sale.is_some() {
        return Err(CustomError::AlreadyInitialized);
    }
    state.sale = Some(
        Sale {
            price,
            max_per_wallet,
            token_mint: ctx.token_mint,
            seller: ctx.seller,
            bump: ctx.sale_bump,
        },
    );
    Ok(())
}

/// Admits the signing user; refused when they already hold an admission record.
pub fn add_to_whitelist(state: &mut SaleState, ctx: &AddToWhitelist) -> (r: Result<
    (),
    CustomError,
>)
    requires
        old(state).wf(),
    ensures
        final(state).wf(),
        r == whitelist_result(old(state)@, *ctx),
        final(state)@ == after_whitelist(old(state)@, *ctx),
{
    if state.whitelist.get(&ctx.user).is_some() {
        return Err(CustomError::AlreadyWhitelisted);
    }
    state.whitelist.insert(ctx.user, Whitelist { is_whitelisted: true, bump: ctx.whitelist_bump });
    Ok(())
}

/// Completes a purchase of `amount` once the token service has answered the
/// order that `purchase_order` gave: `transferred` says whether the tokens
/// moved. The buyer's total is raised only when every check passes and the
/// transfer went through; otherwise nothing changes.
pub fn buy_tokens(state: &mut SaleState, ctx: &BuyTokens, amount: u64, transferred: bool) -> (r:
    Result<(), CustomError>)
    requires
        old(state).wf(),
    ensures
        final(state).wf(),
        r == buy_result(old(state)@, *ctx, amount, transferred),
        final(state)@ == after_buy(old(state)@, *ctx, amount, transferred),
{
    match state.purchase_order(ctx, amount) {
        Err(e) => {
            return Err(e);
        },
        Ok(_) => {},
    }
    if !transferred {
        return Err(CustomError::TransferFailed);
    }
    let record = match state.records.get(&ctx.user_wallet) {
        Some(rec) => UserRecord { amount_purchased: rec.amount_purchased + amount, bump: rec.bump },
        None => UserRecord { amount_purchased: amount, bump: ctx.user_record_bump },
    };
    state.records.insert(ctx.user_wallet, record);
    Ok(())
}

} // verus!
