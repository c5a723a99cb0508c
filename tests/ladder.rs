use ibkr_bridge::{Price, Side, StopLeg, round_thirds_to_cents, stop_ladder};

fn p(units: i64) -> Price {
    Price { units }
}

#[test]
fn buy_ladder_from_eleven_to_ten() {
    let legs = stop_ladder(Side::Buy, 100, p(100000), p(110000));
    assert_eq!(
        legs,
        vec![
            StopLeg { price: p(106700), quantity: 33 },
            StopLeg { price: p(103300), quantity: 33 },
            StopLeg { price: p(100000), quantity: 34 },
        ]
    );
}

#[test]
fn sell_ladder_mirrors_buy() {
    let legs = stop_ladder(Side::Sell, 100, p(110000), p(100000));
    assert_eq!(legs[0].price, p(103300));
    assert_eq!(legs[1].price, p(106700));
    assert_eq!(legs[2].price, p(110000));
}

#[test]
fn leg_quantities_sum_to_order() {
    for q in [1, 2, 3, 4, 5, 99, 100, 101, 1000, i32::MAX] {
        let legs = stop_ladder(Side::Buy, q, p(100000), p(110000));
        let total: i64 = legs.iter().map(|l| l.quantity as i64).sum();
        assert_eq!(total, q as i64);
        assert_eq!(legs[0].quantity, q / 3);
        assert_eq!(legs[1].quantity, q / 3);
    }
}

#[test]
fn small_order_puts_everything_on_last_leg() {
    let legs = stop_ladder(Side::Buy, 2, p(100000), p(110000));
    assert_eq!(legs[0].quantity, 0);
    assert_eq!(legs[1].quantity, 0);
    assert_eq!(legs[2].quantity, 2);
}

#[test]
fn last_leg_is_stop_rounded_to_cents() {
    let legs = stop_ladder(Side::Buy, 9, p(100049), p(120000));
    assert_eq!(legs[2].price, p(100000));
    let legs = stop_ladder(Side::Buy, 9, p(100050), p(120000));
    assert_eq!(legs[2].price, p(100100));
}

#[test]
fn legs_move_from_fill_toward_stop() {
    let legs = stop_ladder(Side::Buy, 30, p(500000), p(530000));
    assert!(legs[0].price.units > legs[1].price.units);
    assert!(legs[1].price.units > legs[2].price.units);
    assert!(legs[0].price.units < 530000);
    let legs = stop_ladder(Side::Sell, 30, p(530000), p(500000));
    assert!(legs[0].price.units < legs[1].price.units);
    assert!(legs[1].price.units < legs[2].price.units);
    assert!(legs[0].price.units > 500000);
}

#[test]
fn tiny_distance_collapses_legs() {
    let legs = stop_ladder(Side::Buy, 3, p(100000), p(100100));
    assert_eq!(legs[0].price, p(100100));
    assert_eq!(legs[1].price, p(100000));
    assert_eq!(legs[2].price, p(100000));
}

#[test]
fn rounding_halves_away_from_zero() {
    assert_eq!(round_thirds_to_cents(3 * 150), 200);
    assert_eq!(round_thirds_to_cents(3 * 149), 100);
    assert_eq!(round_thirds_to_cents(-3 * 150), -200);
    assert_eq!(round_thirds_to_cents(-3 * 149), -100);
    assert_eq!(round_thirds_to_cents(3 * 50), 100);
    assert_eq!(round_thirds_to_cents(-3 * 50), -100);
    assert_eq!(round_thirds_to_cents(0), 0);
}

#[test]
fn rounding_at_extremes_stays_in_range() {
    assert_eq!(round_thirds_to_cents(3 * i64::MAX as i128), 9223372036854775800);
    assert_eq!(round_thirds_to_cents(3 * i64::MIN as i128), -9223372036854775800);
}

#[test]
fn ladder_at_extreme_prices() {
    let legs = stop_ladder(Side::Buy, 3, p(i64::MIN), p(i64::MAX));
    assert_eq!(legs[2].price, p(-9223372036854775800));
    assert!(legs[0].price.units > legs[1].price.units);
}
