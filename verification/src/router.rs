//! The instruction router: decodes a command payload, and dispatches each
//! typed command to the handler that owns the marketplace ledger, the
//! order store and the settlement engine. No side effects beyond
//! dispatch; any failure leaves every record exactly as it was.

use vstd::prelude::*;
use vstd::pervasive::VecAdditionalExecFns;
use crate::codec::spec_decode;
use crate::codec::Command;
use crate::error::MarketplaceError;
use crate::handlers::create_sell_order;
use crate::handlers::cancel_order;
use crate::handlers::initialize_marketplace;
use crate::handlers::spec_cancel_err;
use crate::handlers::spec_create_err;
use crate::handlers::spec_initialize_err;
use crate::handlers::spec_update_err;
use crate::handlers::update_price;
use crate::handlers::TokenAccountView;
use crate::ident::Identity;
use crate::settlement::buy_tokens;
use crate::settlement::spec_buy_err;
use crate::settlement::spec_buy_ok;
use crate::settlement::Settlement;
use crate::state::Marketplace;
use crate::state::SellOrder;

verus! {

/// The collection of sell-order records, one per open or closed order,
/// addressed by the handle the storage allocator assigned at creation.
/// Records are never physically removed; a closed order persists in its
/// deactivated state.
pub struct OrderStore {
    orders: Vec<SellOrder>,
}

impl View for OrderStore {
    type V = Seq<SellOrder>;

    closed spec fn view(&self) -> Seq<SellOrder> {
        self.orders@
    }
}

impl OrderStore {
    /// Well-formedness: every stored order is well-formed.
    pub open spec fn wf(self) -> bool {
        forall|i: int| 0 <= i < self@.len() ==> self@[i].wf()
    }

    /// An empty store.
    pub fn new() -> (r: OrderStore)
        ensures
            r@ =~= Seq::<SellOrder>::empty(),
            r.wf(),
    {
        OrderStore { orders: Vec::new() }
    }

    /// How many records the store holds, open or closed.
    pub fn len(&self) -> (n: usize)
        ensures
            n == self@.len(),
    {
        self.orders.len()
    }

    /// Persists a new record and returns its handle.
    pub fn insert(&mut self, order: SellOrder) -> (h: usize)
        ensures
            final(self)@ == old(self)@.push(order),
            h == old(self)@.len(),
    {
        let h = self.orders.len();
        self.orders.push(order);
        h
    }

    /// Reads the record behind a handle.
    pub fn read(&self, h: usize) -> (r: SellOrder)
        requires
            h < self@.len(),
        ensures
            r == self@[h as int],
    {
        *self.orders.get(h).unwrap()
    }

    /// Overwrites the record behind a handle.
    pub fn put(&mut self, h: usize, order: SellOrder)
        requires
            h < old(self)@.len(),
        ensures
            final(self)@ == old(self)@.update(h as int, order),
    {
        self.orders.set(h, order);
    }
}

/// What the host passes alongside a command: the authenticated caller,
/// and the external collaborators' reports the handlers consume.
#[derive(Clone, Copy, Debug)]
pub struct CallContext {
    /// The identity on whose behalf the command runs.
    pub caller: Identity,
    /// Whether the caller proved control of its identity.
    pub caller_is_signer: bool,
    /// The caller's native-currency balance (consulted on a buy).
    pub caller_lamports: u64,
    /// The asset ledger's view of the seller's token account, or `None`
    /// where it could not be read as one (consulted on order creation).
    pub token_account: Option<TokenAccountView>,
    /// The declared asset type of a new order (consulted on creation).
    pub token_mint: Identity,
    /// The handle of the order a command operates on (buy, cancel, reprice).
    pub order_handle: usize,
    /// The external clock's current timestamp (consulted on creation).
    pub now: i64,
}

/// What a successful command reports back to the host.
#[derive(Clone, Copy, Debug, PartialEq, Eq)]
pub enum Outcome {
    /// The marketplace ledger was created.
    Initialized,
    /// A sell order was persisted under the returned handle.
    OrderCreated { handle: usize },
    /// A buy settled; the host must perform the carried transfers.
    Purchased { settlement: Settlement },
    /// The order was deactivated.
    Cancelled,
    /// The order was repriced.
    PriceUpdated,
}

/// Whether a command operates on an existing order record, so that its
/// handle must name one.
pub open spec fn spec_needs_order(cmd: Command) -> bool {
    match cmd {
        Command::BuyTokens { .. } => true,
        Command::CancelOrder => true,
        Command::UpdatePrice { .. } => true,
        Command::InitializeMarketplace { .. } => false,
        Command::CreateSellOrder { .. } => false,
    }
}

/// The exact effect of dispatching one typed command: for each command,
/// which error comes back on which inputs, and what a success does to
/// the marketplace ledger and the order store.
pub open spec fn spec_route_post(
    cmd: Command,
    ctx: CallContext,
    m_old: Option<Marketplace>,
    m_new: Option<Marketplace>,
    orders_old: Seq<SellOrder>,
    orders_new: Seq<SellOrder>,
    r: Result<Outcome, MarketplaceError>,
) -> bool {
    match cmd {
        Command::InitializeMarketplace { fee_percentage } => {
            let already = m_old matches Some(m) && m.is_initialized;
            &&& (r is Err <==> spec_initialize_err(ctx.caller_is_signer, fee_percentage, already)
                is Some)
            &&& (r matches Err(e) ==> Some(e) == spec_initialize_err(
                ctx.caller_is_signer,
                fee_percentage,
                already,
            ))
            &&& (r is Ok ==> r == Ok::<Outcome, MarketplaceError>(Outcome::Initialized) && m_new
                == Some(
                Marketplace {
                    admin: ctx.caller,
                    fee_percentage,
                    total_volume: 0,
                    total_fees_collected: 0,
                    is_initialized: true,
                },
            ) && orders_new == orders_old)
        },
        Command::CreateSellOrder { amount, price } => {
            &&& (r is Err <==> spec_create_err(
                ctx.caller_is_signer,
                ctx.token_mint,
                ctx.token_account,
                amount,
                price,
            ) is Some)
            &&& (r matches Err(e) ==> Some(e) == spec_create_err(
                ctx.caller_is_signer,
                ctx.token_mint,
                ctx.token_account,
                amount,
                price,
            ))
            &&& (r is Ok ==> r == Ok::<Outcome, MarketplaceError>(
                Outcome::OrderCreated { handle: orders_old.len() as usize },
            ) && orders_new == orders_old.push(
                SellOrder {
                    seller: ctx.caller,
                    token_mint: ctx.token_mint,
                    amount,
                    price_per_token: price,
                    created_at: ctx.now,
                    is_active: true,
                },
            ) && m_new == m_old)
        },
        Command::BuyTokens { amount } => {
            let h = ctx.order_handle as int;
            &&& (m_old is None ==> r == Err::<Outcome, MarketplaceError>(
                MarketplaceError::NotInitialized,
            ))
            &&& (m_old matches Some(m) ==> {
                &&& (r is Err <==> spec_buy_err(
                    orders_old[h],
                    m,
                    ctx.caller_is_signer,
                    ctx.caller_lamports,
                    amount,
                ) is Some)
                &&& (r matches Err(e) ==> Some(e) == spec_buy_err(
                    orders_old[h],
                    m,
                    ctx.caller_is_signer,
                    ctx.caller_lamports,
                    amount,
                ))
                &&& (r matches Ok(out) ==> {
                    &&& out matches Outcome::Purchased { settlement }
                    &&& m_new matches Some(m2)
                    &&& spec_buy_ok(
                        orders_old[h],
                        m,
                        amount,
                        orders_new[h],
                        m2,
                        out->Purchased_settlement,
                    )
                    &&& orders_new == orders_old.update(h, orders_new[h])
                })
            })
        },
        Command::CancelOrder => {
            let h = ctx.order_handle as int;
            &&& (r is Err <==> spec_cancel_err(orders_old[h], ctx.caller, ctx.caller_is_signer)
                is Some)
            &&& (r matches Err(e) ==> Some(e) == spec_cancel_err(
                orders_old[h],
                ctx.caller,
                ctx.caller_is_signer,
            ))
            &&& (r is Ok ==> r == Ok::<Outcome, MarketplaceError>(Outcome::Cancelled) && orders_new
                == orders_old.update(h, SellOrder { is_active: false, ..orders_old[h] }) && m_new
                == m_old)
        },
        Command::UpdatePrice { new_price } => {
            let h = ctx.order_handle as int;
            &&& (r is Err <==> spec_update_err(
                orders_old[h],
                ctx.caller,
                ctx.caller_is_signer,
                new_price,
            ) is Some)
            &&& (r matches Err(e) ==> Some(e) == spec_update_err(
                orders_old[h],
                ctx.caller,
                ctx.caller_is_signer,
                new_price,
            ))
            &&& (r is Ok ==> r == Ok::<Outcome, MarketplaceError>(Outcome::PriceUpdated)
                && orders_new == orders_old.update(
                h,
                SellOrder { price_per_token: new_price, ..orders_old[h] },
            ) && m_new == m_old)
        },
    }
}

/// Dispatches one typed command to its handler.
///
/// On error, the marketplace ledger and every order record are left
/// exactly as they were; on success the effect is exactly what
/// `spec_route_post` states for the command.
pub fn dispatch(
    cmd: Command,
    ctx: &CallContext,
    market: &mut Option<Marketplace>,
    store: &mut OrderStore,
) -> (r: Result<Outcome, MarketplaceError>)
    requires
        old(store).wf(),
        (*old(market)) matches Some(m) ==> m.wf(),
        spec_needs_order(cmd) ==> ctx.order_handle < old(store)@.len(),
    ensures
        final(store).wf(),
        (*final(market)) matches Some(m) ==> m.wf(),
        r is Err ==> *final(market) == *old(market) && final(store)@ == old(store)@,
        spec_route_post(
            cmd,
            *ctx,
            *old(market),
            *final(market),
            old(store)@,
            final(store)@,
            r,
        ),
{
    match cmd {
        Command::InitializeMarketplace { fee_percentage } => {
            let already = match &*market {
                Some(m) => m.is_initialized,
                None => false,
            };
            match initialize_marketplace(&ctx.caller, ctx.caller_is_signer, fee_percentage, already) {
                Ok(m) => {
                    *market = Some(m);
                    Ok(Outcome::Initialized)
                },
                Err(e) => Err(e),
            }
        },
        Command::CreateSellOrder { amount, price } => {
            match create_sell_order(
                &ctx.caller,
                ctx.caller_is_signer,
                &ctx.token_mint,
                ctx.token_account,
                ctx.now,
                amount,
                price,
            ) {
                Ok(order) => {
                    let h = store.insert(order);
                    Ok(Outcome::OrderCreated { handle: h })
                },
                Err(e) => Err(e),
            }
        },
        Command::BuyTokens { amount } => {
            let m_opt = *market;
            match m_opt {
                None => Err(MarketplaceError::NotInitialized),
                Some(mut m) => {
                    let mut order = store.read(ctx.order_handle);
                    match buy_tokens(
                        &mut order,
                        &mut m,
                        ctx.caller_is_signer,
                        ctx.caller_lamports,
                        amount,
                    ) {
                        Ok(settlement) => {
                            store.put(ctx.order_handle, order);
                            *market = Some(m);
                            Ok(Outcome::Purchased { settlement })
                        },
                        Err(e) => Err(e),
                    }
                },
            }
        },
        Command::CancelOrder => {
            let mut order = store.read(ctx.order_handle);
            match cancel_order(&mut order, &ctx.caller, ctx.caller_is_signer) {
                Ok(_) => {
                    store.put(ctx.order_handle, order);
                    Ok(Outcome::Cancelled)
                },
                Err(e) => Err(e),
            }
        },
        Command::UpdatePrice { new_price } => {
            let mut order = store.read(ctx.order_handle);
            match update_price(&mut order, &ctx.caller, ctx.caller_is_signer, new_price) {
                Ok(_) => {
                    store.put(ctx.order_handle, order);
                    Ok(Outcome::PriceUpdated)
                },
                Err(e) => Err(e),
            }
        },
    }
}

/// Decodes a command payload and dispatches it: the whole engine's entry
/// point. An unparseable payload fails `InvalidInstruction`; a decoded
/// command behaves exactly as `dispatch` does on it.
pub fn process(
    data: &[u8],
    ctx: &CallContext,
    market: &mut Option<Marketplace>,
    store: &mut OrderStore,
) -> (r: Result<Outcome, MarketplaceError>)
    requires
        old(store).wf(),
        (*old(market)) matches Some(m) ==> m.wf(),
        spec_decode(data@) matches Some(cmd) && spec_needs_order(cmd) ==> ctx.order_handle < old(
            store,
        )@.len(),
    ensures
        final(store).wf(),
        (*final(market)) matches Some(m) ==> m.wf(),
        r is Err ==> *final(market) == *old(market) && final(store)@ == old(store)@,
        spec_decode(data@) is None ==> r == Err::<Outcome, MarketplaceError>(
            MarketplaceError::InvalidInstruction,
        ),
        spec_decode(data@) matches Some(cmd) ==> spec_route_post(
            cmd,
            *ctx,
            *old(market),
            *final(market),
            old(store)@,
            final(store)@,
            r,
        ),
{
    match Command::decode(data) {
        Ok(cmd) => dispatch(cmd, ctx, market, store),
        Err(e) => Err(e),
    }
}

} // verus!
