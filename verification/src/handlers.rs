//! The marketplace-ledger and order-lifecycle handlers: initialization,
//! order creation, cancellation and repricing. Settlement lives in
//! `settlement`.
//!
//! Each handler takes what the external collaborators report (signer
//! flags, the asset ledger's view of an account, the clock) as plain
//! arguments, checks its preconditions in a fixed order, and either
//! returns the single typed error of the first failing check or applies
//! its full effect. No handler leaves a record changed on error.

use vstd::prelude::*;
use crate::error::MarketplaceError;
use crate::guard::check_owner;
use crate::guard::check_signer;
use crate::ident::Identity;
use crate::state::Marketplace;
use crate::state::SellOrder;
use crate::state::MAX_FEE_BPS;

verus! {

/// What the external asset ledger reports of a token account: its
/// balance and the asset type it holds.
#[derive(Clone, Copy, Debug)]
pub struct TokenAccountView {
    pub balance: u64,
    pub mint: Identity,
}

/// The error `initialize_marketplace` returns, if any: the first failing
/// check among the signer check, the fee cap, and the re-initialization
/// guard.
pub open spec fn spec_initialize_err(
    admin_is_signer: bool,
    fee_percentage: u16,
    already_initialized: bool,
) -> Option<MarketplaceError> {
    if !admin_is_signer {
        Some(MarketplaceError::NotAuthorized)
    } else if fee_percentage > MAX_FEE_BPS {
        Some(MarketplaceError::InvalidFeePercentage)
    } else if already_initialized {
        Some(MarketplaceError::AlreadyInitialized)
    } else {
        None
    }
}

/// Creates the marketplace ledger: admin identity, fee rate in basis
/// points (at most 1000), and zeroed statistics.
///
/// `already_initialized` reports whether the target record already holds
/// an initialized ledger; re-initialization is rejected with
/// `AlreadyInitialized` rather than overwriting the existing record.
pub fn initialize_marketplace(
    admin: &Identity,
    admin_is_signer: bool,
    fee_percentage: u16,
    already_initialized: bool,
) -> (r: Result<Marketplace, MarketplaceError>)
    ensures
        r is Err <==> spec_initialize_err(admin_is_signer, fee_percentage, already_initialized)
            is Some,
        r matches Err(e) ==> Some(e) == spec_initialize_err(
            admin_is_signer,
            fee_percentage,
            already_initialized,
        ),
        r matches Ok(m) ==> m == (Marketplace {
            admin: *admin,
            fee_percentage,
            total_volume: 0,
            total_fees_collected: 0,
            is_initialized: true,
        }) && m.wf(),
{
    if let Err(e) = check_signer(admin_is_signer) {
        return Err(e);
    }
    if fee_percentage > MAX_FEE_BPS {
        return Err(MarketplaceError::InvalidFeePercentage);
    }
    if already_initialized {
        return Err(MarketplaceError::AlreadyInitialized);
    }
    Ok(
        Marketplace {
            admin: *admin,
            fee_percentage,
            total_volume: 0,
            total_fees_collected: 0,
            is_initialized: true,
        },
    )
}

/// The error `create_sell_order` returns, if any, in check order: signer,
/// zero amount or price, full-price overflow, unreadable token account,
/// mint mismatch, insufficient balance.
pub open spec fn spec_create_err(
    seller_is_signer: bool,
    token_mint: Identity,
    account: Option<TokenAccountView>,
    amount: u64,
    price: u64,
) -> Option<MarketplaceError> {
    if !seller_is_signer {
        Some(MarketplaceError::NotAuthorized)
    } else if amount == 0 || price == 0 {
        Some(MarketplaceError::InvalidAmount)
    } else if price * amount > u64::MAX {
        Some(MarketplaceError::NumericalOverflow)
    } else if account is None {
        Some(MarketplaceError::InvalidTokenAccount)
    } else if account->0.mint@ != token_mint@ {
        Some(MarketplaceError::InvalidMint)
    } else if account->0.balance < amount {
        Some(MarketplaceError::InsufficientFunds)
    } else {
        None
    }
}

/// Posts a sell order of `amount` units of `token_mint` at `price` per
/// unit: the order the storage allocator is to persist, stamped with the
/// external clock's `now`.
///
/// `account` is the asset ledger's view of the seller's token account,
/// or `None` where that account could not be read as one. The full price
/// `price * amount` must fit the 64-bit unsigned range, so every later
/// full fill of the order has a representable total price; an order
/// whose full price overflows is rejected with `NumericalOverflow` at
/// creation. The asset is not escrowed: the seller retains custody until
/// settlement.
pub fn create_sell_order(
    seller: &Identity,
    seller_is_signer: bool,
    token_mint: &Identity,
    account: Option<TokenAccountView>,
    now: i64,
    amount: u64,
    price: u64,
) -> (r: Result<SellOrder, MarketplaceError>)
    ensures
        r is Err <==> spec_create_err(seller_is_signer, *token_mint, account, amount, price)
            is Some,
        r matches Err(e) ==> Some(e) == spec_create_err(
            seller_is_signer,
            *token_mint,
            account,
            amount,
            price,
        ),
        r matches Ok(o) ==> o == (SellOrder {
            seller: *seller,
            token_mint: *token_mint,
            amount,
            price_per_token: price,
            created_at: now,
            is_active: true,
        }) && o.wf(),
{
    if let Err(e) = check_signer(seller_is_signer) {
        return Err(e);
    }
    if amount == 0 || price == 0 {
        return Err(MarketplaceError::InvalidAmount);
    }
    if price.checked_mul(amount).is_none() {
        return Err(MarketplaceError::NumericalOverflow);
    }
    let acct = match account {
        Some(a) => a,
        None => {
            return Err(MarketplaceError::InvalidTokenAccount);
        },
    };
    if !acct.mint.same(token_mint) {
        return Err(MarketplaceError::InvalidMint);
    }
    if acct.balance < amount {
        return Err(MarketplaceError::InsufficientFunds);
    }
    Ok(
        SellOrder {
            seller: *seller,
            token_mint: *token_mint,
            amount,
            price_per_token: price,
            created_at: now,
            is_active: true,
        },
    )
}

/// The error `cancel_order` returns, if any, in check order: signer,
/// ownership, order activity.
pub open spec fn spec_cancel_err(
    order: SellOrder,
    caller: Identity,
    caller_is_signer: bool,
) -> Option<MarketplaceError> {
    if !caller_is_signer {
        Some(MarketplaceError::NotAuthorized)
    } else if order.seller@ != caller@ {
        Some(MarketplaceError::NotAuthorized)
    } else if !order.is_active {
        Some(MarketplaceError::OrderNotActive)
    } else {
        None
    }
}

/// Cancels an open order: only its seller may do so, only while the
/// order is active. Deactivates the order; moves no funds (none were
/// escrowed). On error the order is left exactly as it was.
pub fn cancel_order(
    order: &mut SellOrder,
    caller: &Identity,
    caller_is_signer: bool,
) -> (r: Result<(), MarketplaceError>)
    requires
        old(order).wf(),
    ensures
        final(order).wf(),
        r is Err ==> *final(order) == *old(order),
        r is Err <==> spec_cancel_err(*old(order), *caller, caller_is_signer) is Some,
        r matches Err(e) ==> Some(e) == spec_cancel_err(*old(order), *caller, caller_is_signer),
        r is Ok ==> *final(order) == (SellOrder { is_active: false, ..*old(order) }),
{
    if let Err(e) = check_signer(caller_is_signer) {
        return Err(e);
    }
    if let Err(e) = check_owner(&order.seller, caller) {
        return Err(e);
    }
    if !order.is_active {
        return Err(MarketplaceError::OrderNotActive);
    }
    order.is_active = false;
    Ok(())
}

/// The error `update_price` returns, if any, in check order: signer,
/// zero price, ownership, order activity.
pub open spec fn spec_update_err(
    order: SellOrder,
    caller: Identity,
    caller_is_signer: bool,
    new_price: u64,
) -> Option<MarketplaceError> {
    if !caller_is_signer {
        Some(MarketplaceError::NotAuthorized)
    } else if new_price == 0 {
        Some(MarketplaceError::InvalidAmount)
    } else if order.seller@ != caller@ {
        Some(MarketplaceError::NotAuthorized)
    } else if !order.is_active {
        Some(MarketplaceError::OrderNotActive)
    } else {
        None
    }
}

/// Law: an order whose full price exceeds the 64-bit unsigned range is
/// rejected at creation with `NumericalOverflow`, whatever the asset
/// ledger reports, once the earlier checks (signer, positive amount and
/// price) pass. No record is created: `create_sell_order` returns no
/// order on any error.
pub proof fn lemma_create_overflow_rejected(
    token_mint: Identity,
    account: Option<TokenAccountView>,
    amount: u64,
    price: u64,
)
    requires
        amount > 0,
        price > 0,
        price * amount > u64::MAX,
    ensures
        spec_create_err(true, token_mint, account, amount, price) == Some(
            MarketplaceError::NumericalOverflow,
        ),
{
}

/// Law: cancelling or repricing an order on behalf of an identity other
/// than its seller always fails `NotAuthorized`, whether or not that
/// identity signed. (A zero reprice is excluded: it fails `InvalidAmount`
/// before ownership is consulted.) The order is left unchanged: both
/// handlers restore the old record on every error.
pub proof fn lemma_stranger_rejected(
    order: SellOrder,
    caller: Identity,
    caller_is_signer: bool,
    new_price: u64,
)
    requires
        order.seller@ != caller@,
        new_price > 0,
    ensures
        spec_cancel_err(order, caller, caller_is_signer) == Some(MarketplaceError::NotAuthorized),
        spec_update_err(order, caller, caller_is_signer, new_price) == Some(
            MarketplaceError::NotAuthorized,
        ),
{
}

/// Law: a deactivated order cannot be cancelled again. The seller's own
/// signed re-cancel fails `OrderNotActive`, and the order is left
/// unchanged: `cancel_order` restores the old record on every error.
pub proof fn lemma_recancel_rejected(order: SellOrder, caller: Identity)
    requires
        order.seller@ == caller@,
        !order.is_active,
    ensures
        spec_cancel_err(order, caller, true) == Some(MarketplaceError::OrderNotActive),
{
}

/// Reprices an open order: only its seller may do so, only while the
/// order is active, and only to a positive unit price. On error the
/// order is left exactly as it was.
pub fn update_price(
    order: &mut SellOrder,
    caller: &Identity,
    caller_is_signer: bool,
    new_price: u64,
) -> (r: Result<(), MarketplaceError>)
    requires
        old(order).wf(),
    ensures
        final(order).wf(),
        r is Err ==> *final(order) == *old(order),
        r is Err <==> spec_update_err(*old(order), *caller, caller_is_signer, new_price) is Some,
        r matches Err(e) ==> Some(e) == spec_update_err(
            *old(order),
            *caller,
            caller_is_signer,
            new_price,
        ),
        r is Ok ==> *final(order) == (SellOrder {
            price_per_token: new_price,
            ..*old(order)
        }),
{
    if let Err(e) = check_signer(caller_is_signer) {
        return Err(e);
    }
    if new_price == 0 {
        return Err(MarketplaceError::InvalidAmount);
    }
    if let Err(e) = check_owner(&order.seller, caller) {
        return Err(e);
    }
    if !order.is_active {
        return Err(MarketplaceError::OrderNotActive);
    }
    order.price_per_token = new_price;
    Ok(())
}

} // verus!
