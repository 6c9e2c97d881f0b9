//! Properties of the sale that hold over every state and request, stated over
//! the transitions that the operations' contracts name.
use vstd::prelude::*;
use crate::accounts::{AddToWhitelist, BuyTokens, CustomError, InitializeSale};
use crate::program::{
    after_buy, after_initialize, after_whitelist, buy_result, initialize_result, is_whitelisted,
    opened_sale, purchased, whitelist_result, SaleStateView,
};

verus! {

/// No buyer's total exceeds the cap, and totals exist only once the sale is open.
pub open spec fn within_cap(s: SaleStateView) -> bool {
    forall|k|
        #[trigger] s.records.contains_key(k) ==> s.sale is Some
            && s.records[k].amount_purchased <= s.sale.unwrap().max_per_wallet
}

/// Opening the sale succeeds on a deployment without one, records the given
/// terms, and any later opening, with whatever terms, is refused with
/// `AlreadyInitialized` and changes nothing.
pub proof fn initialize_sale_succeeds_once(
    s: SaleStateView,
    first: InitializeSale,
    price: u64,
    max_per_wallet: u64,
    second: InitializeSale,
    price2: u64,
    max_per_wallet2: u64,
)
    requires
        s.sale is None,
    ensures
        initialize_result(s) == Ok::<(), CustomError>(()),
        after_initialize(s, first, price, max_per_wallet).sale == Some(
            opened_sale(first, price, max_per_wallet),
        ),
        initialize_result(after_initialize(s, first, price, max_per_wallet)) == Err::<
            (),
            CustomError,
        >(CustomError::AlreadyInitialized),
        after_initialize(
            after_initialize(s, first, price, max_per_wallet),
            second,
            price2,
            max_per_wallet2,
        ) == after_initialize(s, first, price, max_per_wallet),
{
}

/// A buyer without an admission record is admitted, with `is_whitelisted` set;
/// a second request for the same buyer is refused with `AlreadyWhitelisted` and
/// changes nothing.
pub proof fn add_to_whitelist_succeeds_once(
    s: SaleStateView,
    first: AddToWhitelist,
    second: AddToWhitelist,
)
    requires
        !s.whitelist.contains_key(first.user),
        second.user == first.user,
    ensures
        whitelist_result(s, first) == Ok::<(), CustomError>(()),
        is_whitelisted(after_whitelist(s, first), first.user),
        whitelist_result(after_whitelist(s, first), second) == Err::<(), CustomError>(
            CustomError::AlreadyWhitelisted,
        ),
        after_whitelist(after_whitelist(s, first), second) == after_whitelist(s, first),
{
}

/// A buyer who is not whitelisted never completes a purchase, whatever the
/// amount, balance or transfer outcome, and the state is left as it was. When
/// the amount, cap and funds checks that come first all pass, the refusal is
/// `NotWhitelisted`.
pub proof fn unlisted_buyer_cannot_buy(
    s: SaleStateView,
    ctx: BuyTokens,
    amount: u64,
    transferred: bool,
)
    requires
        !is_whitelisted(s, ctx.user_wallet),
    ensures
        buy_result(s, ctx, amount, transferred) is Err,
        after_buy(s, ctx, amount, transferred) == s,
        ({
            let sale = s.sale.unwrap();
            s.sale is Some && amount > 0 && purchased(s, ctx.user_wallet) + amount
                <= sale.max_per_wallet && amount as int * sale.price as int
                <= ctx.user_lamports as int
        }) ==> buy_result(s, ctx, amount, transferred) == Err::<(), CustomError>(
            CustomError::NotWhitelisted,
        ),
{
}

/// Once the sale is open, a purchase of zero units by a whitelisted buyer is
/// refused with `InvalidAmount` and changes nothing.
pub proof fn zero_purchase_refused(s: SaleStateView, ctx: BuyTokens, transferred: bool)
    requires
        s.sale is Some,
        is_whitelisted(s, ctx.user_wallet),
    ensures
        buy_result(s, ctx, 0, transferred) == Err::<(), CustomError>(CustomError::InvalidAmount),
        after_buy(s, ctx, 0, transferred) == s,
{
}

/// Two successful purchases by one buyer raise the buyer's total by their sum;
/// a refused purchase leaves every total as it was.
pub proof fn purchases_accumulate(
    s: SaleStateView,
    first: BuyTokens,
    a1: u64,
    second: BuyTokens,
    a2: u64,
)
    requires
        second.user_wallet == first.user_wallet,
    ensures
        buy_result(s, first, a1, true) is Ok && buy_result(
            after_buy(s, first, a1, true),
            second,
            a2,
            true,
        ) is Ok ==> purchased(
            after_buy(after_buy(s, first, a1, true), second, a2, true),
            first.user_wallet,
        ) == purchased(s, first.user_wallet) + a1 + a2,
        buy_result(s, first, a1, true) is Err ==> after_buy(s, first, a1, true) == s,
{
}

/// Once the sale is open, a purchase that passes the amount and cap checks but
/// whose price exceeds the buyer's settlement balance is refused with
/// `InsufficientFunds` and changes nothing.
pub proof fn short_funds_refused(s: SaleStateView, ctx: BuyTokens, amount: u64, transferred: bool)
    requires
        s.sale is Some,
        amount > 0,
        purchased(s, ctx.user_wallet) + amount <= s.sale.unwrap().max_per_wallet,
        amount as int * s.sale.unwrap().price as int <= u64::MAX,
        (ctx.user_lamports as int) < amount as int * s.sale.unwrap().price as int,
    ensures
        buy_result(s, ctx, amount, transferred) == Err::<(), CustomError>(
            CustomError::InsufficientFunds,
        ),
        after_buy(s, ctx, amount, transferred) == s,
{
}

/// When the token transfer does not go through, the purchase is refused and
/// no total changes.
pub proof fn failed_transfer_changes_nothing(s: SaleStateView, ctx: BuyTokens, amount: u64)
    ensures
        buy_result(s, ctx, amount, false) is Err,
        after_buy(s, ctx, amount, false) == s,
{
}

/// Once the sale is open, a purchase within the cap whose price does not fit in
/// 64 bits is refused with `ArithmeticOverflow` and changes nothing.
pub proof fn oversized_price_refused(
    s: SaleStateView,
    ctx: BuyTokens,
    amount: u64,
    transferred: bool,
)
    requires
        s.sale is Some,
        purchased(s, ctx.user_wallet) + amount <= s.sale.unwrap().max_per_wallet,
        amount as int * s.sale.unwrap().price as int > u64::MAX,
    ensures
        buy_result(s, ctx, amount, transferred) == Err::<(), CustomError>(
            CustomError::ArithmeticOverflow,
        ),
        after_buy(s, ctx, amount, transferred) == s,
{
    if amount == 0 {
        assert(amount as int * s.sale.unwrap().price as int == 0);
    }
}

/// Every operation keeps each buyer's total within the cap.
pub proof fn operations_stay_within_cap(
    s: SaleStateView,
    init: InitializeSale,
    price: u64,
    max_per_wallet: u64,
    admission: AddToWhitelist,
    buy: BuyTokens,
    amount: u64,
    transferred: bool,
)
    requires
        within_cap(s),
    ensures
        within_cap(after_initialize(s, init, price, max_per_wallet)),
        within_cap(after_whitelist(s, admission)),
        within_cap(after_buy(s, buy, amount, transferred)),
{
}

} // verus!
