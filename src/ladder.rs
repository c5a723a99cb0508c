use vstd::prelude::*;

use crate::price::{
    Price,
    cents_of_thirds,
    round_to_cents,
    round_thirds_to_cents,
    lemma_cents_of_thirds_monotone,
    lemma_cents_of_thirds_close,
};

verus! {

/// Direction of an entry order.
#[derive(Clone, Copy, PartialEq, Eq, Structural, Debug)]
pub enum Side {
    Buy,
    Sell,
}

/// One protective stop of the ladder placed after a filled entry.
#[derive(Clone, Copy, PartialEq, Eq, Structural, Debug)]
pub struct StopLeg {
    pub price: Price,
    pub quantity: i32,
}

/// Signed distance from the fill to the stop, positive for a profitable fill.
pub open spec fn price_diff(side: Side, stop: int, fill: int) -> int {
    match side {
        Side::Buy => fill - stop,
        Side::Sell => stop - fill,
    }
}

/// Three times the unrounded target `stop + sign * diff * k / 3`, where
/// `sign` is +1 for a buy and -1 for a sell.
pub open spec fn leg_target_thirds(side: Side, stop: int, fill: int, k: int) -> int {
    match side {
        Side::Buy => 3 * stop + price_diff(side, stop, fill) * k,
        Side::Sell => 3 * stop - price_diff(side, stop, fill) * k,
    }
}

/// Price of the leg that sits `k` thirds of the way from the stop to the fill,
/// rounded to cents.
pub open spec fn leg_price(side: Side, stop: int, fill: int, k: int) -> int {
    cents_of_thirds(leg_target_thirds(side, stop, fill, k))
}

/// Quantity of leg `i` (0, 1 or 2) of a ladder for `quantity` shares.
pub open spec fn leg_quantity(quantity: int, i: int) -> int {
    if i < 2 {
        quantity / 3
    } else {
        quantity - 2 * (quantity / 3)
    }
}

/// Leg `i` of the ladder: from the leg nearest the entry (two thirds of the
/// way from stop to fill) to the leg at the stop itself.
pub open spec fn ladder_leg(side: Side, quantity: int, stop: int, fill: int, i: int) -> (int, int) {
    (leg_price(side, stop, fill, 2 - i), leg_quantity(quantity, i))
}

/// The three stop legs for an entry of `quantity` shares on `side` that
/// filled at `fill`, protected by `stop`, in the order they are submitted.
pub fn stop_ladder(side: Side, quantity: i32, stop: Price, fill: Price) -> (legs: Vec<StopLeg>)
    requires
        quantity > 0,
    ensures
        legs@.len() == 3,
        forall|i: int|
            0 <= i < 3 ==> (#[trigger] legs@[i]).price.units == ladder_leg(
                side,
                quantity as int,
                stop.units as int,
                fill.units as int,
                i,
            ).0 && legs@[i].quantity == ladder_leg(
                side,
                quantity as int,
                stop.units as int,
                fill.units as int,
                i,
            ).1,
{
    let s: i128 = stop.units as i128;
    let f: i128 = fill.units as i128;
    let diff: i128 = match side {
        Side::Buy => f - s,
        Side::Sell => s - f,
    };
    let signed: i128 = match side {
        Side::Buy => diff,
        Side::Sell => -diff,
    };
    assert(signed * 2 == leg_target_thirds(side, s as int, f as int, 2) - 3 * s);
    assert(signed == leg_target_thirds(side, s as int, f as int, 1) - 3 * s);
    assert(0 == leg_target_thirds(side, s as int, f as int, 0) - 3 * s);
    let third: i32 = quantity / 3;
    let legs: Vec<StopLeg> = vec![
        StopLeg { price: Price { units: round_thirds_to_cents(3 * s + signed * 2) }, quantity: third },
        StopLeg { price: Price { units: round_thirds_to_cents(3 * s + signed) }, quantity: third },
        StopLeg { price: Price { units: round_thirds_to_cents(3 * s) }, quantity: quantity - 2 * third },
    ];
    assert(legs@[0].price.units == ladder_leg(side, quantity as int, s as int, f as int, 0).0);
    assert(legs@[1].price.units == ladder_leg(side, quantity as int, s as int, f as int, 1).0);
    assert(legs@[2].price.units == ladder_leg(side, quantity as int, s as int, f as int, 2).0);
    legs
}

/// The leg quantities partition the order: they sum to it exactly, the first
/// two are each a third of it rounded down, and none is negative.
pub proof fn lemma_leg_quantities_partition(quantity: int)
    requires
        quantity > 0,
    ensures
        leg_quantity(quantity, 0) + leg_quantity(quantity, 1) + leg_quantity(quantity, 2) == quantity,
        leg_quantity(quantity, 0) == quantity / 3,
        leg_quantity(quantity, 1) == quantity / 3,
        0 <= leg_quantity(quantity, 0) <= leg_quantity(quantity, 2),
{
}

/// The last leg sits at the stop rounded to cents. When the fill is on the
/// profitable side of the stop, the legs move monotonically from the fill
/// toward the stop; when it is more than three cents away, strictly so, and
/// the first leg lies strictly between the stop and the fill.
pub proof fn lemma_ladder_ordering(side: Side, stop: int, fill: int)
    ensures
        leg_price(side, stop, fill, 0) == round_to_cents(stop),
        price_diff(side, stop, fill) >= 0 && side == Side::Buy ==> {
            &&& round_to_cents(stop) <= leg_price(side, stop, fill, 1)
            &&& leg_price(side, stop, fill, 1) <= leg_price(side, stop, fill, 2)
            &&& leg_price(side, stop, fill, 2) <= round_to_cents(fill)
        },
        price_diff(side, stop, fill) >= 0 && side == Side::Sell ==> {
            &&& round_to_cents(stop) >= leg_price(side, stop, fill, 1)
            &&& leg_price(side, stop, fill, 1) >= leg_price(side, stop, fill, 2)
            &&& leg_price(side, stop, fill, 2) >= round_to_cents(fill)
        },
        price_diff(side, stop, fill) > 300 && side == Side::Buy ==> {
            &&& round_to_cents(stop) < leg_price(side, stop, fill, 1)
            &&& leg_price(side, stop, fill, 1) < leg_price(side, stop, fill, 2)
            &&& leg_price(side, stop, fill, 2) < fill
        },
        price_diff(side, stop, fill) > 300 && side == Side::Sell ==> {
            &&& round_to_cents(stop) > leg_price(side, stop, fill, 1)
            &&& leg_price(side, stop, fill, 1) > leg_price(side, stop, fill, 2)
            &&& leg_price(side, stop, fill, 2) > fill
        },
{
    let t0 = leg_target_thirds(side, stop, fill, 0);
    let t1 = leg_target_thirds(side, stop, fill, 1);
    let t2 = leg_target_thirds(side, stop, fill, 2);
    let t3 = 3 * fill;
    assert(t0 == 3 * stop);
    assert(t1 == 3 * stop + (fill - stop));
    assert(t2 == 3 * stop + 2 * (fill - stop));
    lemma_cents_of_thirds_close(t0);
    lemma_cents_of_thirds_close(t1);
    lemma_cents_of_thirds_close(t2);
    if fill >= stop {
        lemma_cents_of_thirds_monotone(t0, t1);
        lemma_cents_of_thirds_monotone(t1, t2);
        lemma_cents_of_thirds_monotone(t2, t3);
    } else {
        lemma_cents_of_thirds_monotone(t1, t0);
        lemma_cents_of_thirds_monotone(t2, t1);
        lemma_cents_of_thirds_monotone(t3, t2);
    }
}

} // verus!
