use ibkr_bridge::{Price, QuotePoll, QuoteStep, TickRead, select_contract};

/// Runs an acquisition over `reads`, returning the answer and the reads made
/// and the delays waited before each read.
fn run(subscribed: bool, reads: &[TickRead]) -> (Option<Price>, bool, usize, Vec<u64>) {
    let (mut poll, mut step) = QuotePoll::start(subscribed);
    let mut delays = Vec::new();
    let mut used = 0;
    loop {
        match step {
            QuoteStep::Read { delay_ms } => {
                delays.push(delay_ms);
                let r = if used < reads.len() { reads[used] } else { TickRead::Nothing };
                used += 1;
                step = poll.on_read(r);
            }
            QuoteStep::Finish { price, cancel } => return (price, cancel, used, delays),
        }
    }
}

#[test]
fn price_on_third_attempt_stops_polling() {
    let reads = [
        TickRead::OtherTick,
        TickRead::Nothing,
        TickRead::Price(Price { units: 1523400 }),
        TickRead::Price(Price { units: 999 }),
    ];
    let (price, cancel, used, delays) = run(true, &reads);
    assert_eq!(price, Some(Price { units: 1523400 }));
    assert!(cancel);
    assert_eq!(used, 3);
    assert_eq!(delays, vec![1000, 500, 500]);
}

#[test]
fn no_price_gives_up_after_eleven_reads() {
    let (price, cancel, used, delays) = run(true, &[]);
    assert_eq!(price, None);
    assert!(cancel);
    assert_eq!(used, 11);
    let mut expected = vec![1000];
    expected.extend(std::iter::repeat(500).take(10));
    assert_eq!(delays, expected);
}

#[test]
fn final_read_can_still_find_a_price() {
    let mut reads = vec![TickRead::Nothing; 10];
    reads.push(TickRead::Price(Price { units: 5000 }));
    let (price, _, used, _) = run(true, &reads);
    assert_eq!(price, Some(Price { units: 5000 }));
    assert_eq!(used, 11);
}

#[test]
fn zero_and_negative_prices_are_ignored() {
    let reads = [
        TickRead::Price(Price { units: 0 }),
        TickRead::Price(Price { units: -100 }),
        TickRead::Price(Price { units: 1 }),
    ];
    let (price, _, used, _) = run(true, &reads);
    assert_eq!(price, Some(Price { units: 1 }));
    assert_eq!(used, 3);
}

#[test]
fn stream_error_ends_without_price() {
    let reads = [TickRead::Nothing, TickRead::Failed, TickRead::Price(Price { units: 100 })];
    let (price, cancel, used, _) = run(true, &reads);
    assert_eq!(price, None);
    assert!(cancel);
    assert_eq!(used, 2);
}

#[test]
fn no_contract_is_absent_at_once() {
    let (price, cancel, used, delays) = run(false, &[]);
    assert_eq!(price, None);
    assert!(!cancel);
    assert_eq!(used, 0);
    assert!(delays.is_empty());
}

#[test]
fn finished_poll_reads_no_more() {
    let (mut poll, _) = QuotePoll::start(true);
    let step = poll.on_read(TickRead::Price(Price { units: 10 }));
    assert_eq!(step, QuoteStep::Finish { price: Some(Price { units: 10 }), cancel: true });
    let again = poll.on_read(TickRead::Price(Price { units: 20 }));
    assert_eq!(again, QuoteStep::Finish { price: None, cancel: false });
    assert_eq!(poll.reads, 1);
}

#[test]
fn select_contract_takes_first_exact_match() {
    let symbols = vec!["AAP".to_string(), "AAPL".to_string(), "AAPL".to_string()];
    assert_eq!(select_contract(&symbols, "AAPL"), Some(1));
    assert_eq!(select_contract(&symbols, "aapl"), None);
    assert_eq!(select_contract(&Vec::new(), "AAPL"), None);
}
