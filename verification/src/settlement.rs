//! The settlement engine: the atomic buy operation. It reads the order
//! and the marketplace ledger, computes total price, fee and seller
//! proceeds with overflow-checked arithmetic, and either fails with one
//! typed error and no record changed, or applies the full record update
//! and returns the three value transfers the host must perform as one
//! transactional unit.

use vstd::prelude::*;
use crate::error::MarketplaceError;
use crate::guard::check_signer;
use crate::state::lemma_fee_split;
use crate::state::spec_fee;
use crate::state::Marketplace;
use crate::state::SellOrder;

verus! {

/// The value movements a successful buy requires of the host, to be
/// performed under the same transactional boundary as the record
/// updates: `seller_proceeds` native-currency units from buyer to
/// seller, `fee` from buyer to admin (skipped when zero), and
/// `token_amount` asset units from seller to buyer.
#[derive(Clone, Copy, Debug, PartialEq, Eq)]
pub struct Settlement {
    /// The full price of the purchase: unit price times quantity.
    pub total_price: u64,
    /// The marketplace cut, paid by the buyer to the admin.
    pub fee: u64,
    /// What the seller receives: the total price minus the fee.
    pub seller_proceeds: u64,
    /// The asset quantity moving from seller to buyer.
    pub token_amount: u64,
}

/// The error `buy_tokens` returns, if any, in check order: signer,
/// marketplace lifecycle, order activity, requested quantity, total
/// price and fee overflow, buyer balance, and statistics overflow.
pub open spec fn spec_buy_err(
    order: SellOrder,
    market: Marketplace,
    buyer_is_signer: bool,
    buyer_lamports: u64,
    amount: u64,
) -> Option<MarketplaceError> {
    let tp = order.spec_total_price(amount);
    let fee = spec_fee(tp, market.fee_percentage);
    if !buyer_is_signer {
        Some(MarketplaceError::NotAuthorized)
    } else if !market.is_initialized {
        Some(MarketplaceError::NotInitialized)
    } else if !order.is_active {
        Some(MarketplaceError::OrderNotActive)
    } else if amount > order.amount {
        Some(MarketplaceError::InvalidAmount)
    } else if tp > u64::MAX {
        Some(MarketplaceError::NumericalOverflow)
    } else if tp * market.fee_percentage > u64::MAX {
        Some(MarketplaceError::NumericalOverflow)
    } else if buyer_lamports < tp {
        Some(MarketplaceError::InsufficientFunds)
    } else if market.total_volume + tp > u64::MAX {
        Some(MarketplaceError::NumericalOverflow)
    } else if market.total_fees_collected + fee > u64::MAX {
        Some(MarketplaceError::NumericalOverflow)
    } else {
        None
    }
}

/// What a successful buy of `amount` units does: the exact value split
/// carried by the settlement, the order's quantity decrease and
/// deactivation on full fill, and the ledger's statistics growth.
pub open spec fn spec_buy_ok(
    o_old: SellOrder,
    m_old: Marketplace,
    amount: u64,
    o_new: SellOrder,
    m_new: Marketplace,
    s: Settlement,
) -> bool {
    let tp = o_old.spec_total_price(amount);
    &&& s.total_price == tp
    &&& s.fee == spec_fee(tp, m_old.fee_percentage)
    &&& s.seller_proceeds + s.fee == tp
    &&& s.token_amount == amount
    &&& o_new == (SellOrder {
        amount: (o_old.amount - amount) as u64,
        is_active: o_old.amount - amount > 0,
        ..o_old
    })
    &&& (o_new.is_active <==> o_new.amount > 0)
    &&& m_new == (Marketplace {
        total_volume: (m_old.total_volume + tp) as u64,
        total_fees_collected: (m_old.total_fees_collected + s.fee) as u64,
        ..m_old
    })
}

/// Law: a purchase whose total price exceeds the 64-bit unsigned range
/// is rejected with `NumericalOverflow`, once the earlier checks
/// (signer, lifecycle, activity, quantity) pass. No record changes:
/// `buy_tokens` restores both records on every error.
pub proof fn lemma_buy_overflow_rejected(
    order: SellOrder,
    market: Marketplace,
    buyer_lamports: u64,
    amount: u64,
)
    requires
        market.is_initialized,
        order.is_active,
        amount <= order.amount,
        order.spec_total_price(amount) > u64::MAX,
    ensures
        spec_buy_err(order, market, true, buyer_lamports, amount) == Some(
            MarketplaceError::NumericalOverflow,
        ),
{
}

/// Law: partial fill. A successful buy of `amount` units decreases the
/// order's remaining quantity by exactly `amount`, the order stays
/// active exactly while quantity remains, and its seller, asset type,
/// unit price and creation time are untouched.
pub proof fn lemma_partial_fill(
    o_old: SellOrder,
    m_old: Marketplace,
    amount: u64,
    o_new: SellOrder,
    m_new: Marketplace,
    s: Settlement,
)
    requires
        amount <= o_old.amount,
        spec_buy_ok(o_old, m_old, amount, o_new, m_new, s),
    ensures
        o_new.amount == o_old.amount - amount,
        o_new.is_active <==> o_new.amount > 0,
        o_new.seller == o_old.seller,
        o_new.token_mint == o_old.token_mint,
        o_new.price_per_token == o_old.price_per_token,
        o_new.created_at == o_old.created_at,
{
}

/// Buys `amount` units from an open order: the atomic settlement.
///
/// On success the order's remaining quantity decreases by exactly
/// `amount` and the order stays active exactly while quantity remains;
/// the ledger's volume and fee statistics grow by the total price and
/// the fee; and the returned `Settlement` carries the exact value split,
/// with `seller_proceeds + fee == total_price`. On error, both records
/// are left exactly as they were and nothing is owed to anyone.
pub fn buy_tokens(
    order: &mut SellOrder,
    market: &mut Marketplace,
    buyer_is_signer: bool,
    buyer_lamports: u64,
    amount: u64,
) -> (r: Result<Settlement, MarketplaceError>)
    requires
        old(order).wf(),
        old(market).wf(),
    ensures
        final(order).wf(),
        final(market).wf(),
        r is Err ==> *final(order) == *old(order) && *final(market) == *old(market),
        r is Err <==> spec_buy_err(
            *old(order),
            *old(market),
            buyer_is_signer,
            buyer_lamports,
            amount,
        ) is Some,
        r matches Err(e) ==> Some(e) == spec_buy_err(
            *old(order),
            *old(market),
            buyer_is_signer,
            buyer_lamports,
            amount,
        ),
        r matches Ok(s) ==> spec_buy_ok(
            *old(order),
            *old(market),
            amount,
            *final(order),
            *final(market),
            s,
        ),
{
    if let Err(e) = check_signer(buyer_is_signer) {
        return Err(e);
    }
    if !market.is_initialized {
        return Err(MarketplaceError::NotInitialized);
    }
    if !order.is_active {
        return Err(MarketplaceError::OrderNotActive);
    }
    if amount > order.amount {
        return Err(MarketplaceError::InvalidAmount);
    }
    let total_price = match order.calculate_total_price(amount) {
        Some(tp) => tp,
        None => {
            return Err(MarketplaceError::NumericalOverflow);
        },
    };
    let fee = match order.calculate_fee(amount, market.fee_percentage) {
        Some(f) => f,
        None => {
            return Err(MarketplaceError::NumericalOverflow);
        },
    };
    proof {
        lemma_fee_split(total_price, market.fee_percentage);
    }
    let seller_proceeds = total_price - fee;
    if buyer_lamports < total_price {
        return Err(MarketplaceError::InsufficientFunds);
    }
    let new_volume = match market.total_volume.checked_add(total_price) {
        Some(v) => v,
        None => {
            return Err(MarketplaceError::NumericalOverflow);
        },
    };
    let new_fees = match market.total_fees_collected.checked_add(fee) {
        Some(f) => f,
        None => {
            return Err(MarketplaceError::NumericalOverflow);
        },
    };
    let new_amount = order.amount - amount;
    order.amount = new_amount;
    if new_amount == 0 {
        order.is_active = false;
    }
    market.total_volume = new_volume;
    market.total_fees_collected = new_fees;
    Ok(Settlement { total_price, fee, seller_proceeds, token_amount: amount })
}

} // verus!

