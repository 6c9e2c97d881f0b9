use tokenwhitelist::{
    add_to_whitelist, buy_tokens, initialize_sale, AddToWhitelist, Address, BuyTokens,
    CustomError, InitializeSale, SaleState, Table, UserRecord, Whitelist,
};

fn addr(n: u8) -> Address {
    let mut bytes = [0u8; 32];
    bytes[0] = n;
    bytes[31] = n.wrapping_mul(7);
    Address::new(bytes)
}

fn opening() -> InitializeSale {
    InitializeSale { token_mint: addr(1), seller: addr(2), sale_bump: 254 }
}

fn request(buyer: u8, lamports: u64) -> BuyTokens {
    BuyTokens {
        user_wallet: addr(buyer),
        user_lamports: lamports,
        user_record_bump: 250,
        token_account: addr(buyer + 100),
        seller_token_account: addr(3),
    }
}

fn open_sale(price: u64, max_per_wallet: u64) -> SaleState {
    let mut state = SaleState::new();
    assert_eq!(initialize_sale(&mut state, &opening(), price, max_per_wallet), Ok(()));
    state
}

fn enroll(state: &mut SaleState, buyer: u8) {
    let ctx = AddToWhitelist { user: addr(buyer), whitelist_bump: 253 };
    assert_eq!(add_to_whitelist(state, &ctx), Ok(()));
}

fn total(state: &SaleState, buyer: u8) -> Option<u64> {
    state.user_record(&addr(buyer)).map(|r| r.amount_purchased)
}

#[test]
fn initialize_sale_records_terms() {
    let state = open_sale(5, 100);
    let sale = state.sale().unwrap();
    assert_eq!(sale.price, 5);
    assert_eq!(sale.max_per_wallet, 100);
    assert!(sale.token_mint == addr(1));
    assert!(sale.seller == addr(2));
    assert_eq!(sale.bump, 254);
}

#[test]
fn initialize_sale_only_once() {
    let mut state = open_sale(5, 100);
    let other = InitializeSale { token_mint: addr(9), seller: addr(8), sale_bump: 1 };
    assert_eq!(
        initialize_sale(&mut state, &other, 7, 3),
        Err(CustomError::AlreadyInitialized)
    );
    let sale = state.sale().unwrap();
    assert_eq!(sale.price, 5);
    assert_eq!(sale.max_per_wallet, 100);
    assert!(sale.seller == addr(2));
}

#[test]
fn initialize_sale_accepts_zero_terms() {
    let state = open_sale(0, 0);
    assert_eq!(state.sale().unwrap().price, 0);
    assert_eq!(state.sale().unwrap().max_per_wallet, 0);
}

#[test]
fn add_to_whitelist_only_once() {
    let mut state = SaleState::new();
    enroll(&mut state, 10);
    assert_eq!(
        state.whitelist_entry(&addr(10)),
        Some(Whitelist { is_whitelisted: true, bump: 253 })
    );
    let again = AddToWhitelist { user: addr(10), whitelist_bump: 7 };
    assert_eq!(add_to_whitelist(&mut state, &again), Err(CustomError::AlreadyWhitelisted));
    assert_eq!(state.whitelist_entry(&addr(10)).unwrap().bump, 253);
    assert_eq!(state.whitelist_entry(&addr(11)), None);
}

#[test]
fn unlisted_buyer_refused() {
    let mut state = open_sale(1, 100);
    enroll(&mut state, 10);
    assert_eq!(buy_tokens(&mut state, &request(11, 1000), 10, true), Err(CustomError::NotWhitelisted));
    assert_eq!(total(&state, 11), None);
}

#[test]
fn unlisted_buyer_zero_amount_is_invalid_first() {
    let mut state = open_sale(1, 100);
    assert_eq!(buy_tokens(&mut state, &request(11, 1000), 0, true), Err(CustomError::InvalidAmount));
}

#[test]
fn stored_false_admission_does_not_admit() {
    let mut state = open_sale(1, 100);
    state.load_whitelist_entry(addr(12), Whitelist { is_whitelisted: false, bump: 9 });
    assert_eq!(buy_tokens(&mut state, &request(12, 1000), 5, true), Err(CustomError::NotWhitelisted));
    assert_eq!(total(&state, 12), None);
}

#[test]
fn zero_amount_refused() {
    let mut state = open_sale(1, 100);
    enroll(&mut state, 10);
    assert_eq!(buy_tokens(&mut state, &request(10, 1000), 0, true), Err(CustomError::InvalidAmount));
    assert_eq!(total(&state, 10), None);
}

#[test]
fn purchases_accumulate_to_cap() {
    let mut state = open_sale(1, 100);
    enroll(&mut state, 10);
    assert_eq!(buy_tokens(&mut state, &request(10, 1000), 60, true), Ok(()));
    assert_eq!(total(&state, 10), Some(60));
    assert_eq!(buy_tokens(&mut state, &request(10, 1000), 40, true), Ok(()));
    assert_eq!(total(&state, 10), Some(100));
    assert_eq!(buy_tokens(&mut state, &request(10, 1000), 1, true), Err(CustomError::ExceedsMaxPurchase));
    assert_eq!(total(&state, 10), Some(100));
}

#[test]
fn cap_counts_per_buyer() {
    let mut state = open_sale(1, 100);
    enroll(&mut state, 10);
    enroll(&mut state, 20);
    assert_eq!(buy_tokens(&mut state, &request(10, 1000), 100, true), Ok(()));
    assert_eq!(buy_tokens(&mut state, &request(20, 1000), 100, true), Ok(()));
    assert_eq!(total(&state, 10), Some(100));
    assert_eq!(total(&state, 20), Some(100));
}

#[test]
fn cap_check_without_wraparound() {
    let mut state = open_sale(0, u64::MAX);
    enroll(&mut state, 10);
    assert_eq!(buy_tokens(&mut state, &request(10, 0), u64::MAX, true), Ok(()));
    assert_eq!(buy_tokens(&mut state, &request(10, 0), 1, true), Err(CustomError::ExceedsMaxPurchase));
    assert_eq!(total(&state, 10), Some(u64::MAX));
}

#[test]
fn short_funds_refused() {
    let mut state = open_sale(5, 100);
    enroll(&mut state, 10);
    assert_eq!(buy_tokens(&mut state, &request(10, 24), 5, true), Err(CustomError::InsufficientFunds));
    assert_eq!(total(&state, 10), None);
    assert_eq!(buy_tokens(&mut state, &request(10, 25), 5, true), Ok(()));
    assert_eq!(total(&state, 10), Some(5));
}

#[test]
fn failed_transfer_changes_nothing() {
    let mut state = open_sale(1, 100);
    enroll(&mut state, 10);
    assert_eq!(buy_tokens(&mut state, &request(10, 1000), 30, true), Ok(()));
    assert_eq!(buy_tokens(&mut state, &request(10, 1000), 20, false), Err(CustomError::TransferFailed));
    assert_eq!(total(&state, 10), Some(30));
}

#[test]
fn failed_first_transfer_creates_no_record() {
    let mut state = open_sale(1, 100);
    enroll(&mut state, 10);
    assert_eq!(buy_tokens(&mut state, &request(10, 1000), 20, false), Err(CustomError::TransferFailed));
    assert_eq!(state.user_record(&addr(10)), None);
}

#[test]
fn oversized_price_overflows() {
    let mut state = open_sale(u64::MAX, 100);
    enroll(&mut state, 10);
    assert_eq!(buy_tokens(&mut state, &request(10, u64::MAX), 2, true), Err(CustomError::ArithmeticOverflow));
    assert_eq!(total(&state, 10), None);
    assert_eq!(buy_tokens(&mut state, &request(10, u64::MAX), 1, true), Ok(()));
    assert_eq!(total(&state, 10), Some(1));
}

#[test]
fn purchase_before_opening_refused() {
    let mut state = SaleState::new();
    enroll(&mut state, 10);
    assert_eq!(buy_tokens(&mut state, &request(10, 1000), 1, true), Err(CustomError::SaleNotInitialized));
}

#[test]
fn purchase_order_names_transfer() {
    let mut state = open_sale(3, 100);
    enroll(&mut state, 10);
    let order = state.purchase_order(&request(10, 30), 10).unwrap();
    assert!(order.from == addr(3));
    assert!(order.to == addr(110));
    assert_eq!(order.amount, 10);
    assert_eq!(order.authority_bump, 254);
    assert_eq!(total(&state, 10), None);
    assert_eq!(state.purchase_order(&request(10, 29), 10).unwrap_err(), CustomError::InsufficientFunds);
}

#[test]
fn purchase_record_keeps_first_nonce() {
    let mut state = open_sale(1, 100);
    enroll(&mut state, 10);
    assert_eq!(buy_tokens(&mut state, &request(10, 1000), 1, true), Ok(()));
    let mut later = request(10, 1000);
    later.user_record_bump = 1;
    assert_eq!(buy_tokens(&mut state, &later, 2, true), Ok(()));
    assert_eq!(state.user_record(&addr(10)), Some(UserRecord { amount_purchased: 3, bump: 250 }));
}

#[test]
fn stored_records_are_respected() {
    let mut state = SaleState::new();
    let mut sale = open_sale(2, 50).sale().unwrap();
    sale.max_per_wallet = 10;
    state.load_sale(sale);
    state.load_whitelist_entry(addr(10), Whitelist { is_whitelisted: true, bump: 1 });
    state.load_user_record(addr(10), UserRecord { amount_purchased: 8, bump: 2 });
    assert_eq!(buy_tokens(&mut state, &request(10, 100), 3, true), Err(CustomError::ExceedsMaxPurchase));
    assert_eq!(buy_tokens(&mut state, &request(10, 100), 2, true), Ok(()));
    assert_eq!(state.user_record(&addr(10)), Some(UserRecord { amount_purchased: 10, bump: 2 }));
}

#[test]
fn addresses_compare_by_every_byte() {
    let a = addr(4);
    let mut bytes = a.bytes;
    assert!(a.same_as(&Address::new(bytes)));
    bytes[17] = 1;
    assert!(!a.same_as(&Address::new(bytes)));
    assert!(a != Address::new(bytes));
}

#[test]
fn table_insert_replaces() {
    let mut t: Table<u64> = Table::new();
    t.insert(addr(1), 5);
    t.insert(addr(2), 6);
    t.insert(addr(1), 7);
    assert_eq!(t.get(&addr(1)), Some(7));
    assert_eq!(t.get(&addr(2)), Some(6));
    assert_eq!(t.get(&addr(3)), None);
}
