use token_marketplace::codec::Command;
use token_marketplace::error::MarketplaceError;
use token_marketplace::handlers::cancel_order;
use token_marketplace::handlers::create_sell_order;
use token_marketplace::handlers::initialize_marketplace;
use token_marketplace::handlers::update_price;
use token_marketplace::handlers::TokenAccountView;
use token_marketplace::ident::Identity;
use token_marketplace::router::dispatch;
use token_marketplace::router::CallContext;
use token_marketplace::router::Outcome;
use token_marketplace::router::OrderStore;
use token_marketplace::settlement::buy_tokens;
use token_marketplace::state::Marketplace;
use token_marketplace::state::SellOrder;

fn ident(x: u8) -> Identity {
    Identity::new([x; 32])
}

fn admin() -> Identity {
    ident(1)
}

fn seller() -> Identity {
    ident(2)
}

fn buyer() -> Identity {
    ident(3)
}

fn mint() -> Identity {
    ident(9)
}

fn market(fee: u16) -> Marketplace {
    initialize_marketplace(&admin(), true, fee, false).unwrap()
}

fn order(amount: u64, price: u64) -> SellOrder {
    let account = Some(TokenAccountView { balance: u64::MAX, mint: mint() });
    create_sell_order(&seller(), true, &mint(), account, 77, amount, price).unwrap()
}

fn ctx_for(caller: Identity, handle: usize, lamports: u64, balance: u64) -> CallContext {
    CallContext {
        caller,
        caller_is_signer: true,
        caller_lamports: lamports,
        token_account: Some(TokenAccountView { balance, mint: mint() }),
        token_mint: mint(),
        order_handle: handle,
        now: 77,
    }
}

#[test]
fn initialize_sets_fields() {
    let m = market(250);
    assert_eq!(m.admin, admin());
    assert_eq!(m.fee_percentage, 250);
    assert_eq!(m.total_volume, 0);
    assert_eq!(m.total_fees_collected, 0);
    assert!(m.is_initialized);
}

#[test]
fn initialize_rejects_unsigned() {
    let r = initialize_marketplace(&admin(), false, 250, false);
    assert_eq!(r.unwrap_err(), MarketplaceError::NotAuthorized);
}

#[test]
fn initialize_rejects_fee_over_cap() {
    let r = initialize_marketplace(&admin(), true, 1001, false);
    assert_eq!(r.unwrap_err(), MarketplaceError::InvalidFeePercentage);
}

#[test]
fn initialize_rejects_reinit() {
    let r = initialize_marketplace(&admin(), true, 250, true);
    assert_eq!(r.unwrap_err(), MarketplaceError::AlreadyInitialized);
}

#[test]
fn create_sets_fields() {
    let o = order(1000, 10);
    assert_eq!(o.seller, seller());
    assert_eq!(o.token_mint, mint());
    assert_eq!(o.amount, 1000);
    assert_eq!(o.price_per_token, 10);
    assert_eq!(o.created_at, 77);
    assert!(o.is_active);
}

#[test]
fn create_rejects_zero_amount_and_zero_price() {
    let account = Some(TokenAccountView { balance: 1000, mint: mint() });
    let r = create_sell_order(&seller(), true, &mint(), account, 77, 0, 10);
    assert_eq!(r.unwrap_err(), MarketplaceError::InvalidAmount);
    let r = create_sell_order(&seller(), true, &mint(), account, 77, 10, 0);
    assert_eq!(r.unwrap_err(), MarketplaceError::InvalidAmount);
}

#[test]
fn create_rejects_overflowing_full_price() {
    let account = Some(TokenAccountView { balance: u64::MAX, mint: mint() });
    let big = 1u64 << 33;
    let r = create_sell_order(&seller(), true, &mint(), account, 77, big, big);
    assert_eq!(r.unwrap_err(), MarketplaceError::NumericalOverflow);
}

#[test]
fn create_rejects_unreadable_account() {
    let r = create_sell_order(&seller(), true, &mint(), None, 77, 10, 10);
    assert_eq!(r.unwrap_err(), MarketplaceError::InvalidTokenAccount);
}

#[test]
fn create_rejects_wrong_mint() {
    let account = Some(TokenAccountView { balance: 1000, mint: ident(8) });
    let r = create_sell_order(&seller(), true, &mint(), account, 77, 10, 10);
    assert_eq!(r.unwrap_err(), MarketplaceError::InvalidMint);
}

#[test]
fn create_rejects_short_balance() {
    let account = Some(TokenAccountView { balance: 9, mint: mint() });
    let r = create_sell_order(&seller(), true, &mint(), account, 77, 10, 10);
    assert_eq!(r.unwrap_err(), MarketplaceError::InsufficientFunds);
}

#[test]
fn fee_split_is_exact() {
    let o = order(1000, 10);
    assert_eq!(o.calculate_total_price(400), Some(4000));
    assert_eq!(o.calculate_fee(400, 250), Some(100));
    // floor division: 999 * 10 = 9990 total, * 250 / 10000 = 249.75 -> 249
    let o2 = order(999, 10);
    assert_eq!(o2.calculate_total_price(999), Some(9990));
    assert_eq!(o2.calculate_fee(999, 250), Some(249));
}

#[test]
fn scenario_partial_then_full_fill() {
    // Initialize(250) -> CreateSellOrder(1000 at 10) -> BuyTokens(400)
    let mut m = market(250);
    let mut o = order(1000, 10);
    let s = buy_tokens(&mut o, &mut m, true, 1_000_000, 400).unwrap();
    assert_eq!(s.total_price, 4000);
    assert_eq!(s.fee, 100);
    assert_eq!(s.seller_proceeds, 3900);
    assert_eq!(s.token_amount, 400);
    assert_eq!(o.amount, 600);
    assert!(o.is_active);
    assert_eq!(m.total_volume, 4000);
    assert_eq!(m.total_fees_collected, 100);

    // continuing: BuyTokens(600) closes the order
    let s2 = buy_tokens(&mut o, &mut m, true, 1_000_000, 600).unwrap();
    assert_eq!(s2.total_price, 6000);
    assert_eq!(s2.fee, 150);
    assert_eq!(s2.seller_proceeds, 5850);
    assert_eq!(o.amount, 0);
    assert!(!o.is_active);
    assert_eq!(m.total_volume, 10000);
    assert_eq!(m.total_fees_collected, 250);
}

#[test]
fn buy_decreases_amount_by_exactly_k() {
    let mut m = market(0);
    let mut o = order(5, 7);
    buy_tokens(&mut o, &mut m, true, 1_000_000, 1).unwrap();
    assert_eq!(o.amount, 4);
    assert!(o.is_active);
    buy_tokens(&mut o, &mut m, true, 1_000_000, 4).unwrap();
    assert_eq!(o.amount, 0);
    assert!(!o.is_active);
}

#[test]
fn buy_zero_fee_rate_collects_nothing() {
    let mut m = market(0);
    let mut o = order(10, 10);
    let s = buy_tokens(&mut o, &mut m, true, 100, 10).unwrap();
    assert_eq!(s.fee, 0);
    assert_eq!(s.seller_proceeds, 100);
    assert_eq!(m.total_fees_collected, 0);
}

#[test]
fn buy_rejects_unsigned() {
    let mut m = market(250);
    let mut o = order(10, 10);
    let before_o = o;
    let before_m = m;
    let r = buy_tokens(&mut o, &mut m, false, 1000, 1);
    assert_eq!(r.unwrap_err(), MarketplaceError::NotAuthorized);
    assert_eq!(o, before_o);
    assert_eq!(m, before_m);
}

#[test]
fn buy_rejects_uninitialized_marketplace() {
    let mut m = market(250);
    m.is_initialized = false;
    let mut o = order(10, 10);
    let r = buy_tokens(&mut o, &mut m, true, 1000, 1);
    assert_eq!(r.unwrap_err(), MarketplaceError::NotInitialized);
}

#[test]
fn buy_rejects_inactive_order() {
    let mut m = market(250);
    let mut o = order(10, 10);
    cancel_order(&mut o, &seller(), true).unwrap();
    let r = buy_tokens(&mut o, &mut m, true, 1000, 1);
    assert_eq!(r.unwrap_err(), MarketplaceError::OrderNotActive);
}

#[test]
fn buy_rejects_excessive_amount() {
    let mut m = market(250);
    let mut o = order(10, 10);
    let r = buy_tokens(&mut o, &mut m, true, 1000, 11);
    assert_eq!(r.unwrap_err(), MarketplaceError::InvalidAmount);
}

#[test]
fn buy_rejects_total_price_overflow() {
    // creation rejects an overflowing full price, but a later reprice can
    // still push the total price of a fill past the 64-bit range
    let mut m = market(250);
    let mut o = order(2, 10);
    update_price(&mut o, &seller(), true, u64::MAX).unwrap();
    let before_o = o;
    let before_m = m;
    let r = buy_tokens(&mut o, &mut m, true, u64::MAX, 2);
    assert_eq!(r.unwrap_err(), MarketplaceError::NumericalOverflow);
    assert_eq!(o, before_o);
    assert_eq!(m, before_m);
}

#[test]
fn buy_rejects_fee_numerator_overflow() {
    // total price fits, but total_price * 250 does not
    let mut m = market(250);
    let mut o = order(2, u64::MAX / 2);
    let before_o = o;
    let before_m = m;
    let r = buy_tokens(&mut o, &mut m, true, u64::MAX, 2);
    assert_eq!(r.unwrap_err(), MarketplaceError::NumericalOverflow);
    assert_eq!(o, before_o);
    assert_eq!(m, before_m);
}

#[test]
fn buy_rejects_short_lamports() {
    let mut m = market(250);
    let mut o = order(10, 10);
    let r = buy_tokens(&mut o, &mut m, true, 99, 10);
    assert_eq!(r.unwrap_err(), MarketplaceError::InsufficientFunds);
}

#[test]
fn buy_rejects_volume_accumulator_overflow() {
    let mut m = market(0);
    m.total_volume = u64::MAX;
    let mut o = order(1, 10);
    let before_o = o;
    let before_m = m;
    let r = buy_tokens(&mut o, &mut m, true, 1000, 1);
    assert_eq!(r.unwrap_err(), MarketplaceError::NumericalOverflow);
    assert_eq!(o, before_o);
    assert_eq!(m, before_m);
}

#[test]
fn cancel_deactivates() {
    let mut o = order(10, 10);
    cancel_order(&mut o, &seller(), true).unwrap();
    assert!(!o.is_active);
    assert_eq!(o.amount, 10);
}

#[test]
fn cancel_rejects_stranger() {
    let mut o = order(10, 10);
    let before = o;
    let r = cancel_order(&mut o, &buyer(), true);
    assert_eq!(r.unwrap_err(), MarketplaceError::NotAuthorized);
    assert_eq!(o, before);
}

#[test]
fn cancel_rejects_unsigned() {
    let mut o = order(10, 10);
    let r = cancel_order(&mut o, &seller(), false);
    assert_eq!(r.unwrap_err(), MarketplaceError::NotAuthorized);
    assert!(o.is_active);
}

#[test]
fn recancel_fails_order_not_active() {
    let mut o = order(10, 10);
    cancel_order(&mut o, &seller(), true).unwrap();
    let before = o;
    let r = cancel_order(&mut o, &seller(), true);
    assert_eq!(r.unwrap_err(), MarketplaceError::OrderNotActive);
    assert_eq!(o, before);
}

#[test]
fn update_price_overwrites() {
    let mut o = order(10, 10);
    update_price(&mut o, &seller(), true, 25).unwrap();
    assert_eq!(o.price_per_token, 25);
    assert!(o.is_active);
}

#[test]
fn update_price_rejects_stranger() {
    let mut o = order(10, 10);
    let before = o;
    let r = update_price(&mut o, &buyer(), true, 25);
    assert_eq!(r.unwrap_err(), MarketplaceError::NotAuthorized);
    assert_eq!(o, before);
}

#[test]
fn update_price_rejects_zero() {
    let mut o = order(10, 10);
    let r = update_price(&mut o, &seller(), true, 0);
    assert_eq!(r.unwrap_err(), MarketplaceError::InvalidAmount);
    assert_eq!(o.price_per_token, 10);
}

#[test]
fn update_price_rejects_inactive() {
    let mut o = order(10, 10);
    cancel_order(&mut o, &seller(), true).unwrap();
    let r = update_price(&mut o, &seller(), true, 25);
    assert_eq!(r.unwrap_err(), MarketplaceError::OrderNotActive);
}

#[test]
fn routed_scenario_full_lifecycle() {
    let mut market: Option<Marketplace> = None;
    let mut store = OrderStore::new();

    // buying before initialization fails
    let r = dispatch(
        Command::InitializeMarketplace { fee_percentage: 250 },
        &ctx_for(admin(), 0, 0, 0),
        &mut market,
        &mut store,
    );
    assert_eq!(r.unwrap(), Outcome::Initialized);

    // a second initialization is rejected
    let r = dispatch(
        Command::InitializeMarketplace { fee_percentage: 100 },
        &ctx_for(admin(), 0, 0, 0),
        &mut market,
        &mut store,
    );
    assert_eq!(r.unwrap_err(), MarketplaceError::AlreadyInitialized);
    assert_eq!(market.unwrap().fee_percentage, 250);

    // the seller posts 1000 units at 10 each
    let r = dispatch(
        Command::CreateSellOrder { amount: 1000, price: 10 },
        &ctx_for(seller(), 0, 0, 5000),
        &mut market,
        &mut store,
    );
    assert_eq!(r.unwrap(), Outcome::OrderCreated { handle: 0 });
    assert_eq!(store.len(), 1);

    // the buyer takes 400 of them
    let r = dispatch(
        Command::BuyTokens { amount: 400 },
        &ctx_for(buyer(), 0, 1_000_000, 0),
        &mut market,
        &mut store,
    );
    match r.unwrap() {
        Outcome::Purchased { settlement } => {
            assert_eq!(settlement.total_price, 4000);
            assert_eq!(settlement.fee, 100);
            assert_eq!(settlement.seller_proceeds, 3900);
        }
        other => panic!("unexpected outcome {:?}", other),
    }
    let o = store.read(0);
    assert_eq!(o.amount, 600);
    assert!(o.is_active);
    assert_eq!(market.unwrap().total_volume, 4000);
    assert_eq!(market.unwrap().total_fees_collected, 100);

    // the seller reprices, then cancels
    let r = dispatch(
        Command::UpdatePrice { new_price: 12 },
        &ctx_for(seller(), 0, 0, 0),
        &mut market,
        &mut store,
    );
    assert_eq!(r.unwrap(), Outcome::PriceUpdated);
    assert_eq!(store.read(0).price_per_token, 12);

    let r = dispatch(
        Command::CancelOrder,
        &ctx_for(seller(), 0, 0, 0),
        &mut market,
        &mut store,
    );
    assert_eq!(r.unwrap(), Outcome::Cancelled);
    assert!(!store.read(0).is_active);
}

#[test]
fn routed_buy_before_initialize_fails() {
    let mut market: Option<Marketplace> = None;
    let mut store = OrderStore::new();
    let r = dispatch(
        Command::CreateSellOrder { amount: 10, price: 10 },
        &ctx_for(seller(), 0, 0, 100),
        &mut market,
        &mut store,
    );
    assert_eq!(r.unwrap(), Outcome::OrderCreated { handle: 0 });
    let r = dispatch(
        Command::BuyTokens { amount: 1 },
        &ctx_for(buyer(), 0, 1000, 0),
        &mut market,
        &mut store,
    );
    assert_eq!(r.unwrap_err(), MarketplaceError::NotInitialized);
}

#[test]
fn error_codes_are_stable() {
    assert_eq!(MarketplaceError::InvalidInstruction.code(), 0);
    assert_eq!(MarketplaceError::NotAuthorized.code(), 1);
    assert_eq!(MarketplaceError::AlreadyInitialized.code(), 2);
    assert_eq!(MarketplaceError::NotInitialized.code(), 3);
    assert_eq!(MarketplaceError::InvalidAmount.code(), 4);
    assert_eq!(MarketplaceError::InsufficientFunds.code(), 5);
    assert_eq!(MarketplaceError::OrderNotActive.code(), 6);
    assert_eq!(MarketplaceError::InvalidFeePercentage.code(), 7);
    assert_eq!(MarketplaceError::NumericalOverflow.code(), 8);
    assert_eq!(MarketplaceError::InvalidTokenAccount.code(), 9);
    assert_eq!(MarketplaceError::InvalidMint.code(), 10);
}

#[test]
fn identity_equality_is_bytewise() {
    let a = Identity::new([5; 32]);
    let b = Identity::new([5; 32]);
    let mut bytes = [5u8; 32];
    bytes[31] = 6;
    let c = Identity::new(bytes);
    assert!(a.same(&b));
    assert!(!a.same(&c));
}
