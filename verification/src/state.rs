//! The persisted records: the marketplace ledger singleton and the sell
//! orders, together with the fee and price arithmetic over them.

use vstd::prelude::*;
use crate::ident::Identity;

verus! {

/// Fee rates are expressed in basis points; 10000 basis points are 100%.
pub const BPS_DENOMINATOR: u64 = 10000;

/// The largest fee rate the marketplace accepts: 1000 basis points (10%).
pub const MAX_FEE_BPS: u16 = 1000;

/// The marketplace ledger: the singleton record holding the admin
/// identity, the fee rate, and the cumulative trade statistics.
#[derive(Clone, Copy, Debug, PartialEq, Eq)]
pub struct Marketplace {
    /// The fee recipient and sole administrative authority.
    pub admin: Identity,
    /// The marketplace cut in basis points; at most `MAX_FEE_BPS`.
    pub fee_percentage: u16,
    /// Sum of the total prices of all settled trades; never decreases.
    pub total_volume: u64,
    /// Sum of all fees collected; never decreases.
    pub total_fees_collected: u64,
    /// Set once at creation; the record is never destroyed.
    pub is_initialized: bool,
}

impl Marketplace {
    /// Well-formedness: the fee rate respects the 10% cap.
    pub open spec fn wf(self) -> bool {
        self.fee_percentage <= MAX_FEE_BPS
    }
}

/// A sell order: a standing offer to sell a fixed asset type at a stated
/// unit price, with the remaining quantity tracked as it is filled.
#[derive(Clone, Copy, Debug, PartialEq, Eq)]
pub struct SellOrder {
    /// The order's owner; set at creation, immutable thereafter.
    pub seller: Identity,
    /// The asset type being sold; immutable.
    pub token_mint: Identity,
    /// Remaining unsold quantity; positive while the order is active.
    pub amount: u64,
    /// Unit price in the native-currency unit; positive while active.
    pub price_per_token: u64,
    /// Timestamp captured once at creation from the external clock.
    pub created_at: i64,
    /// True until the order is fully filled or cancelled; never reactivated.
    pub is_active: bool,
}

impl SellOrder {
    /// Well-formedness: an active order has quantity and price left.
    pub open spec fn wf(self) -> bool {
        self.is_active ==> self.amount > 0 && self.price_per_token > 0
    }

    /// The exact total price of buying `amount` units, as an integer.
    pub open spec fn spec_total_price(self, amount: u64) -> int {
        self.price_per_token * amount
    }

    /// The total price of buying `amount` units at this order's unit
    /// price, or `None` if it exceeds the 64-bit unsigned range.
    pub fn calculate_total_price(&self, amount: u64) -> (r: Option<u64>)
        ensures
            r is Some <==> self.spec_total_price(amount) <= u64::MAX,
            r matches Some(v) ==> v == self.spec_total_price(amount),
    {
        self.price_per_token.checked_mul(amount)
    }

    /// The marketplace fee on buying `amount` units under the rate
    /// `fee_percentage`, or `None` if the total price or the fee
    /// numerator exceeds the 64-bit unsigned range.
    pub fn calculate_fee(&self, amount: u64, fee_percentage: u16) -> (r: Option<u64>)
        ensures
            r is Some <==> self.spec_total_price(amount) <= u64::MAX
                && self.spec_total_price(amount) * fee_percentage <= u64::MAX,
            r matches Some(v) ==> v == spec_fee(self.spec_total_price(amount), fee_percentage),
    {
        match self.calculate_total_price(amount) {
            Option::None => Option::None,
            Option::Some(total_price) => match total_price.checked_mul(fee_percentage as u64) {
                Option::None => Option::None,
                Option::Some(numerator) => numerator.checked_div(BPS_DENOMINATOR),
            },
        }
    }
}

/// The exact fee on a trade: the floor of `total_price * fee_bps / 10000`.
pub open spec fn spec_fee(total_price: int, fee_bps: u16) -> int {
    total_price * fee_bps / (BPS_DENOMINATOR as int)
}

/// The seller's proceeds: what remains of the total price after the fee.
pub open spec fn spec_proceeds(total_price: int, fee_bps: u16) -> int {
    total_price - spec_fee(total_price, fee_bps)
}

/// Law: for every total price and every fee rate within the 10% cap, the
/// fee is the floor of `total_price * fee_bps / 10000`, it never exceeds
/// the total price, and the split is exact: proceeds plus fee reassemble
/// the total price, so settlement conserves value.
pub proof fn lemma_fee_split(total_price: u64, fee_bps: u16)
    requires
        fee_bps <= MAX_FEE_BPS,
    ensures
        0 <= spec_fee(total_price as int, fee_bps) <= total_price,
        spec_proceeds(total_price as int, fee_bps) + spec_fee(total_price as int, fee_bps)
            == total_price,
        spec_proceeds(total_price as int, fee_bps) >= 0,
{
    let tp = total_price as int;
    assert(0 <= tp * fee_bps / 10000 <= tp) by (nonlinear_arith)
        requires
            0 <= tp,
            0 <= fee_bps <= 10000,
    ;
    assert(spec_fee(tp, fee_bps) == tp * fee_bps / 10000);
}

} // verus!
