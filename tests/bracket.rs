use ibkr_bridge::{
    Bracket, BracketEnd, BracketStage, BracketStep, MarketEvent, OrderKind, OrderSpec, Price, Side,
    is_terminal_label, parse_side_label,
};

fn status(label: &str, units: i64) -> MarketEvent {
    MarketEvent::Status { label: label.to_string(), avg_fill_price: Price { units } }
}

fn end_of(step: &BracketStep) -> BracketEnd {
    match step {
        BracketStep::Done(end) => end.clone(),
        other => panic!("not done: {:?}", other),
    }
}

fn order_of(step: &BracketStep) -> OrderSpec {
    match step {
        BracketStep::Place(o) => *o,
        other => panic!("no order: {:?}", other),
    }
}

#[test]
fn not_connected_fails_at_once() {
    let (b, step) = Bracket::start(false, "AAPL".to_string(), 10, Price { units: 100000 }, "BUY");
    let (ok, msg) = b.report(&end_of(&step));
    assert!(!ok);
    assert_eq!(msg, "Not connected");
}

#[test]
fn unknown_action_is_refused() {
    let (b, step) = Bracket::start(true, "AAPL".to_string(), 10, Price { units: 100000 }, "HOLD");
    assert_eq!(b.stage, BracketStage::Finished);
    assert_eq!(b.report(&end_of(&step)), (false, "Action must be BUY or SELL".to_string()));
}

#[test]
fn non_positive_quantity_is_refused() {
    let (b, step) = Bracket::start(true, "AAPL".to_string(), 0, Price { units: 100000 }, "SELL");
    assert_eq!(b.report(&end_of(&step)), (false, "Quantity must be positive".to_string()));
}

#[test]
fn unfilled_market_order_places_no_stops() {
    let (mut b, step) = Bracket::start(true, "AAPL".to_string(), 100, Price { units: 100000 }, "BUY");
    assert_eq!(
        order_of(&step),
        OrderSpec { side: Side::Buy, kind: OrderKind::Market, quantity: 100, aux_price: None }
    );
    assert!(matches!(b.on_market_event(status("Submitted", 0)), BracketStep::AwaitStatus));
    assert!(matches!(b.on_market_event(MarketEvent::Other), BracketStep::AwaitStatus));
    let step = b.on_market_event(status("Cancelled", 0));
    assert_eq!(b.report(&end_of(&step)), (false, "Market order was not filled.".to_string()));
    assert!(matches!(b.on_stop_placed(Ok(())), BracketStep::AwaitStatus));
}

#[test]
fn ended_status_stream_is_not_filled() {
    let (mut b, _) = Bracket::start(true, "AAPL".to_string(), 100, Price { units: 100000 }, "BUY");
    let step = b.on_market_event(MarketEvent::Ended);
    assert_eq!(b.report(&end_of(&step)), (false, "Market order was not filled.".to_string()));
}

#[test]
fn market_error_is_reported() {
    let (mut b, _) = Bracket::start(true, "AAPL".to_string(), 100, Price { units: 100000 }, "BUY");
    let step = b.on_market_event(MarketEvent::Failed { description: "rejected".to_string() });
    assert_eq!(b.report(&end_of(&step)), (false, "Error placing order: rejected".to_string()));
}

#[test]
fn filled_buy_places_three_stops_in_order() {
    let (mut b, _) = Bracket::start(true, "AAPL".to_string(), 100, Price { units: 100000 }, "BUY");
    let mut orders = vec![order_of(&b.on_market_event(status("Filled", 110000)))];
    orders.push(order_of(&b.on_stop_placed(Ok(()))));
    orders.push(order_of(&b.on_stop_placed(Ok(()))));
    let step = b.on_stop_placed(Ok(()));
    let stop = |units: i64, quantity: i32| OrderSpec {
        side: Side::Buy,
        kind: OrderKind::Stop,
        quantity,
        aux_price: Some(Price { units }),
    };
    assert_eq!(orders, vec![stop(106700, 33), stop(103300, 33), stop(100000, 34)]);
    assert_eq!(
        b.report(&end_of(&step)),
        (true, "BUY 100 shares of AAPL at $11.00. 3 stop-loss orders submitted.".to_string())
    );
}

#[test]
fn filled_sell_keeps_sell_side_on_stops() {
    let (mut b, _) = Bracket::start(true, "MSFT".to_string(), 7, Price { units: 110000 }, "SELL");
    let first = order_of(&b.on_market_event(status("Filled", 100049)));
    assert_eq!(first.side, Side::Sell);
    assert_eq!(first.quantity, 2);
    assert_eq!(first.aux_price, Some(Price { units: 103400 }));
    b.on_stop_placed(Ok(()));
    let last = order_of(&b.on_stop_placed(Ok(())));
    assert_eq!(last.quantity, 3);
    let step = b.on_stop_placed(Ok(()));
    assert_eq!(
        b.report(&end_of(&step)),
        (true, "SELL 7 shares of MSFT at $10.00. 3 stop-loss orders submitted.".to_string())
    );
}

#[test]
fn failed_stop_leg_says_which_legs_stay_live() {
    let (mut b, _) = Bracket::start(true, "AAPL".to_string(), 9, Price { units: 100000 }, "BUY");
    b.on_market_event(status("Filled", 110000));
    b.on_stop_placed(Ok(()));
    let step = b.on_stop_placed(Err("no margin".to_string()));
    assert_eq!(b.stage, BracketStage::Finished);
    assert_eq!(
        b.report(&end_of(&step)),
        (false, "Stop order 2 of 3 failed: no margin; 1 earlier stop orders remain live.".to_string())
    );
}

#[test]
fn action_labels_and_final_statuses() {
    assert_eq!(parse_side_label("BUY"), Some(Side::Buy));
    assert_eq!(parse_side_label("SELL"), Some(Side::Sell));
    assert_eq!(parse_side_label("buy"), None);
    for label in ["Filled", "Cancelled", "ApiCancelled", "Inactive"] {
        assert!(is_terminal_label(label));
    }
    for label in ["Submitted", "PreSubmitted", "PendingSubmit", ""] {
        assert!(!is_terminal_label(label));
    }
}
