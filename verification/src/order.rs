use vstd::prelude::*;
use crate::asset::Asset;

verus! {

/// Fixed-point scale for conversion rates: a rate of `PRICE_ONE` atomics is
/// 1.0, so a stored rate `p` stands for the rational `p / PRICE_ONE`.
pub const PRICE_ONE: u128 = 1_000_000_000_000_000_000;

/// The recurring descriptor of a multi-leg order: how many legs were
/// requested, how many remain after this one, and the two conversion rates
/// (outbound and return leg) that successive legs alternate between. Rates
/// are fixed-point atomics at scale `PRICE_ONE`.
#[derive(Clone, Copy, Debug, PartialEq, Eq, Structural)]
pub struct Recurring {
    pub total_loop: u64,
    pub remaining_loop: u64,
    pub belief_price: u128,
    pub swapback_belief_price: u128,
}

/// One open position: assigned id, owner, target pool, what is offered, the
/// minimum acceptable return, the fee still reserved for the remaining legs,
/// and the optional recurring descriptor.
#[derive(Debug, PartialEq)]
pub struct Order {
    pub order_id: u64,
    pub bidder_addr: String,
    pub pair_addr: String,
    pub offer_asset: Asset,
    pub ask_asset: Asset,
    pub fee_amount: u128,
    pub recurring: Option<Recurring>,
}

impl Order {
    /// An explicit copy; the result equals `*self`.
    pub fn dup(&self) -> (r: Order)
        ensures
            r == *self,
    {
        Order {
            order_id: self.order_id,
            bidder_addr: self.bidder_addr.clone(),
            pair_addr: self.pair_addr.clone(),
            offer_asset: self.offer_asset.dup(),
            ask_asset: self.ask_asset.dup(),
            fee_amount: self.fee_amount,
            recurring: self.recurring,
        }
    }

    /// An execution of this order is terminal when no recurring descriptor is
    /// attached or no further leg remains: the whole reserved fee is charged
    /// and the proceeds are paid out instead of reinvested.
    pub open spec fn is_terminal(self) -> bool {
        match self.recurring {
            Some(rec) => rec.remaining_loop == 0,
            None => true,
        }
    }

    pub fn terminal(&self) -> (r: bool)
        ensures
            r == self.is_terminal(),
    {
        match &self.recurring {
            Some(rec) => rec.remaining_loop == 0,
            None => true,
        }
    }

    /// The fee charged by one execution: the whole reserved fee on a terminal
    /// leg; otherwise the reserved fee divided evenly (truncating) over the
    /// remaining legs plus this one.
    pub open spec fn charged_fee(self) -> int {
        match self.recurring {
            Some(rec) => if rec.remaining_loop > 0 {
                self.fee_amount as int / (rec.remaining_loop as int + 1)
            } else {
                self.fee_amount as int
            },
            None => self.fee_amount as int,
        }
    }

    pub fn charged_fee_of(&self) -> (r: u128)
        ensures
            r == self.charged_fee(),
            r <= self.fee_amount,
    {
        match &self.recurring {
            Some(rec) => {
                if rec.remaining_loop > 0 {
                    let divisor: u128 = (rec.remaining_loop as u128) + 1;
                    let charged = self.fee_amount / divisor;
                    assert(charged <= self.fee_amount) by (nonlinear_arith)
                        requires
                            divisor >= 1,
                            charged == self.fee_amount as int / divisor as int,
                    ;
                    charged
                } else {
                    self.fee_amount
                }
            },
            None => self.fee_amount,
        }
    }
}

/// Whether the next leg of a recurring chain converts at the return-leg rate
/// (`swapback_belief_price`) rather than the outbound rate: the two alternate
/// by the parity of the number of legs already executed.
pub open spec fn uses_swapback(rec: Recurring) -> bool {
    (rec.total_loop - rec.remaining_loop) % 2 == 0
}

/// The rate at which a successor leg's ask amount is implied from its offer.
pub open spec fn successor_price(rec: Recurring) -> u128 {
    if uses_swapback(rec) {
        rec.swapback_belief_price
    } else {
        rec.belief_price
    }
}

pub fn successor_price_of(rec: &Recurring) -> (r: u128)
    ensures
        r == successor_price(*rec),
{
    let even = rec.total_loop % 2 == rec.remaining_loop % 2;
    proof {
        lemma_parity_of_difference(rec.total_loop as int, rec.remaining_loop as int);
    }
    if even {
        rec.swapback_belief_price
    } else {
        rec.belief_price
    }
}

/// Two integers differ by an even amount exactly when they have the same
/// parity.
proof fn lemma_parity_of_difference(t: int, r: int)
    ensures
        ((t - r) % 2 == 0) <==> (t % 2 == r % 2),
{
    let dt = t / 2;
    let dr = r / 2;
    vstd::arithmetic::div_mod::lemma_fundamental_div_mod(t, 2);
    vstd::arithmetic::div_mod::lemma_fundamental_div_mod(r, 2);
    assert(t == 2 * dt + t % 2 && r == 2 * dr + r % 2);
    vstd::arithmetic::div_mod::lemma_mod_bound(t, 2);
    vstd::arithmetic::div_mod::lemma_mod_bound(r, 2);
    assert(0 <= t % 2 < 2 && 0 <= r % 2 < 2);
    assert((t - r) % 2 == ((t % 2 - r % 2) + 2 * (dt - dr)) % 2);
    if t % 2 == r % 2 {
        assert((2 * (dt - dr)) % 2 == 0) by (nonlinear_arith);
    } else {
        assert(((t % 2 - r % 2) + 2 * (dt - dr)) % 2 != 0) by (nonlinear_arith)
            requires
                t % 2 - r % 2 == 1 || t % 2 - r % 2 == -1,
        ;
    }
}

/// The amount implied by converting `amount` at the inverse of the
/// fixed-point rate `price`: `amount / (price / PRICE_ONE)`, truncated.
pub open spec fn inverse_at_price(amount: u128, price: u128) -> int
    recommends
        price > 0,
{
    amount * PRICE_ONE / (price as int)
}

/// Converts `amount` at the inverse of `price`, or `None` when the rate is
/// zero or the scaled intermediate product does not fit in the amount type.
pub fn inverse_at_price_checked(amount: u128, price: u128) -> (r: Option<u128>)
    ensures
        r is Some <==> (price > 0 && amount * PRICE_ONE <= u128::MAX),
        r matches Some(v) ==> v == inverse_at_price(amount, price),
{
    if price == 0 {
        return None;
    }
    if amount <= u128::MAX / PRICE_ONE {
        proof {
            assert(amount * PRICE_ONE <= (u128::MAX as int / PRICE_ONE as int) * PRICE_ONE
                <= u128::MAX) by (nonlinear_arith)
                requires
                    amount <= u128::MAX as int / PRICE_ONE as int,
            ;
        }
        let scaled: u128 = amount * PRICE_ONE;
        let quot: u128 = scaled / price;
        Some(quot)
    } else {
        proof {
            assert(amount * PRICE_ONE > u128::MAX) by (nonlinear_arith)
                requires
                    amount > u128::MAX as int / PRICE_ONE as int,
            ;
        }
        None
    }
}

} // verus!
