use vstd::prelude::*;

use crate::ladder::{Side, StopLeg, ladder_leg, stop_ladder};
use crate::price::Price;
use crate::text::{decimal_digits, decimal_text, integer_text, price_digits, price_text, signed_digits};

verus! {

/// Legs in a stop ladder.
pub const LADDER_LEGS: usize = 3;

/// How an order executes.
#[derive(Clone, Copy, PartialEq, Eq, Structural, Debug)]
pub enum OrderKind {
    Market,
    Stop,
}

/// An order as it is handed to the gateway; `aux_price` is the trigger of a
/// stop order.
#[derive(Clone, Copy, PartialEq, Eq, Structural, Debug)]
pub struct OrderSpec {
    pub side: Side,
    pub kind: OrderKind,
    pub quantity: i32,
    pub aux_price: Option<Price>,
}

/// What the status stream of the market order gave.
#[derive(Clone, Debug)]
pub enum MarketEvent {
    /// A status report with its label and the average fill price so far.
    Status { label: String, avg_fill_price: Price },
    /// A message of another kind.
    Other,
    /// The stream ended.
    Ended,
    /// The order could not be placed, or the stream reported an error.
    Failed { description: String },
}

/// How a bracket submission ended.
#[derive(Clone, Debug)]
pub enum BracketEnd {
    NotConnected,
    UnknownAction,
    NonPositiveQuantity,
    NotFilled,
    MarketFailed { description: String },
    /// Submitting stop leg `leg` (from zero) failed; earlier legs stay live.
    StopFailed { leg: u8, description: String },
    /// All stop legs were submitted after a fill at `fill`.
    Submitted { fill: Price },
}

/// What the caller does next.
#[derive(Clone, Debug)]
pub enum BracketStep {
    /// Submit this order: the market entry, or the next stop leg.
    Place(OrderSpec),
    /// Read the next event of the market order's status stream.
    AwaitStatus,
    /// The submission is over.
    Done(BracketEnd),
}

/// Where a bracket submission stands.
#[derive(Clone, Copy, PartialEq, Eq, Structural, Debug)]
pub enum BracketStage {
    AwaitingFill,
    /// The entry filled at `fill`; `placed` stop legs are submitted.
    PlacingStops { fill: Price, placed: usize },
    Finished,
}

/// One bracket submission: a market entry followed by a ladder of stops.
#[derive(Clone, Debug)]
pub struct Bracket {
    pub ticker: String,
    pub side: Side,
    pub quantity: i32,
    pub stop: Price,
    pub stage: BracketStage,
}

/// The side that an action label names.
pub open spec fn parse_side(label: Seq<char>) -> Option<Side> {
    if label == "BUY"@ {
        Some(Side::Buy)
    } else if label == "SELL"@ {
        Some(Side::Sell)
    } else {
        None
    }
}

/// The label of a side.
pub open spec fn side_label(side: Side) -> Seq<char> {
    match side {
        Side::Buy => "BUY"@,
        Side::Sell => "SELL"@,
    }
}

/// A status after which an order changes no more.
pub open spec fn is_terminal_status(label: Seq<char>) -> bool {
    label == "Filled"@ || label == "Cancelled"@ || label == "ApiCancelled"@ || label
        == "Inactive"@
}

/// A status event reporting a fill.
pub open spec fn is_fill(ev: MarketEvent) -> bool {
    match ev {
        MarketEvent::Status { label, .. } => label@ == "Filled"@,
        _ => false,
    }
}

/// An event after which the market order will not fill.
pub open spec fn ends_unfilled(ev: MarketEvent) -> bool {
    match ev {
        MarketEvent::Status { label, .. } => is_terminal_status(label@) && label@ != "Filled"@,
        MarketEvent::Ended => true,
        _ => false,
    }
}

/// A bracket in a state that its steps can go on from.
pub open spec fn bracket_wf(b: Bracket) -> bool {
    &&& b.quantity > 0
    &&& b.stage matches BracketStage::PlacingStops { placed, .. } ==> placed < LADDER_LEGS
}

/// Stop leg `i` of bracket `b` after a fill at `fill`: same side as the entry,
/// priced and sized by the ladder.
pub open spec fn stop_order(b: Bracket, fill: Price, i: int) -> OrderSpec {
    let leg = ladder_leg(b.side, b.quantity as int, b.stop.units as int, fill.units as int, i);
    OrderSpec {
        side: b.side,
        kind: OrderKind::Stop,
        quantity: leg.1 as i32,
        aux_price: Some(Price { units: leg.0 as i64 }),
    }
}

/// The bracket and step after the market order's status stream gave `ev`.
pub open spec fn market_step(b: Bracket, ev: MarketEvent) -> (Bracket, BracketStep) {
    let finished = Bracket { stage: BracketStage::Finished, ..b };
    if b.stage != BracketStage::AwaitingFill {
        (b, BracketStep::AwaitStatus)
    } else {
        match ev {
            MarketEvent::Status { label, avg_fill_price } => if label@ == "Filled"@ {
                (
                    Bracket { stage: BracketStage::PlacingStops { fill: avg_fill_price, placed: 0 }, ..b },
                    BracketStep::Place(stop_order(b, avg_fill_price, 0)),
                )
            } else if is_terminal_status(label@) {
                (finished, BracketStep::Done(BracketEnd::NotFilled))
            } else {
                (b, BracketStep::AwaitStatus)
            },
            MarketEvent::Other => (b, BracketStep::AwaitStatus),
            MarketEvent::Ended => (finished, BracketStep::Done(BracketEnd::NotFilled)),
            MarketEvent::Failed { description } => (
                finished,
                BracketStep::Done(BracketEnd::MarketFailed { description }),
            ),
        }
    }
}

/// Feeds `events` to the bracket while it waits for its fill; the bracket
/// and the last step (`last` when nothing was fed).
pub open spec fn market_feed(b: Bracket, events: Seq<MarketEvent>, last: BracketStep) -> (
    Bracket,
    BracketStep,
)
    decreases events.len(),
{
    if events.len() == 0 || b.stage != BracketStage::AwaitingFill {
        (b, last)
    } else {
        let (nb, s) = market_step(b, events[0]);
        market_feed(nb, events.drop_first(), s)
    }
}

/// Whether the submission succeeded, as `report` answers it.
pub open spec fn end_success(end: BracketEnd) -> bool {
    end matches BracketEnd::Submitted { .. }
}

/// The message that `report` gives for `end`.
pub open spec fn end_text(b: Bracket, end: BracketEnd) -> Seq<char> {
    match end {
        BracketEnd::NotConnected => "Not connected"@,
        BracketEnd::UnknownAction => "Action must be BUY or SELL"@,
        BracketEnd::NonPositiveQuantity => "Quantity must be positive"@,
        BracketEnd::NotFilled => "Market order was not filled."@,
        BracketEnd::MarketFailed { description } => "Error placing order: "@ + description@,
        BracketEnd::StopFailed { leg, description } => "Stop order "@ + decimal_digits(
            (leg + 1) as nat,
        ) + " of 3 failed: "@ + description@ + "; "@ + decimal_digits(leg as nat)
            + " earlier stop orders remain live."@,
        BracketEnd::Submitted { fill } => side_label(b.side) + " "@ + signed_digits(b.quantity as int) + " shares of "@ + b.ticker@ + " at $"@ + price_digits(fill.units as int)
            + ". 3 stop-loss orders submitted."@,
    }
}

fn same_text(a: &str, b: &str) -> (r: bool)
    ensures
        r == (a@ == b@),
{
    String::from_str(a) == String::from_str(b)
}

/// Reads an action label: `BUY` or `SELL`.
pub fn parse_side_label(label: &str) -> (r: Option<Side>)
    ensures
        r == parse_side(label@),
{
    if same_text(label, "BUY") {
        Some(Side::Buy)
    } else if same_text(label, "SELL") {
        Some(Side::Sell)
    } else {
        None
    }
}

fn side_text(side: Side) -> (r: &'static str)
    ensures
        r@ == side_label(side),
{
    match side {
        Side::Buy => "BUY",
        Side::Sell => "SELL",
    }
}

/// Whether an order status label is final.
pub fn is_terminal_label(label: &str) -> (r: bool)
    ensures
        r == is_terminal_status(label@),
{
    same_text(label, "Filled") || same_text(label, "Cancelled") || same_text(label, "ApiCancelled")
        || same_text(label, "Inactive")
}

fn leg_order(side: Side, leg: StopLeg) -> (r: OrderSpec)
    ensures
        r == (OrderSpec {
            side: side,
            kind: OrderKind::Stop,
            quantity: leg.quantity,
            aux_price: Some(leg.price),
        }),
{
    OrderSpec { side: side, kind: OrderKind::Stop, quantity: leg.quantity, aux_price: Some(leg.price) }
}

impl Bracket {
    /// Stop leg `i` after a fill at `fill`.
    fn stop_leg_order(&self, fill: Price, i: usize) -> (r: OrderSpec)
        requires
            self.quantity > 0,
            i < LADDER_LEGS,
        ensures
            r == stop_order(*self, fill, i as int),
    {
        let legs = stop_ladder(self.side, self.quantity, self.stop, fill);
        leg_order(self.side, legs[i])
    }

    /// Begins a bracket submission for `quantity` shares of `ticker` on the
    /// side named by `action`, protected by `stop`. When connected, with a
    /// known action and a positive quantity, the first step places the
    /// market entry for the full quantity; otherwise the submission ends at
    /// once.
    pub fn start(connected: bool, ticker: String, quantity: i32, stop: Price, action: &str) -> (r: (
        Bracket,
        BracketStep,
    ))
        ensures
            r.0.ticker == ticker,
            r.0.quantity == quantity,
            r.0.stop == stop,
            !connected ==> r.0.stage == BracketStage::Finished && r.1 == BracketStep::Done(
                BracketEnd::NotConnected,
            ),
            connected && parse_side(action@) is None ==> r.0.stage == BracketStage::Finished
                && r.1 == BracketStep::Done(BracketEnd::UnknownAction),
            connected && parse_side(action@) is Some && quantity <= 0 ==> r.0.stage
                == BracketStage::Finished && r.1 == BracketStep::Done(
                BracketEnd::NonPositiveQuantity,
            ),
            connected && parse_side(action@) is Some && quantity > 0 ==> {
                &&& r.0.side == parse_side(action@)->Some_0
                &&& r.0.stage == BracketStage::AwaitingFill
                &&& bracket_wf(r.0)
                &&& r.1 == BracketStep::Place(
                    OrderSpec {
                        side: r.0.side,
                        kind: OrderKind::Market,
                        quantity: quantity,
                        aux_price: None,
                    },
                )
            },
    {
        let side = parse_side_label(action);
        let finished = BracketStage::Finished;
        if !connected {
            let b = Bracket { ticker, side: Side::Buy, quantity, stop, stage: finished };
            return (b, BracketStep::Done(BracketEnd::NotConnected));
        }
        match side {
            None => {
                let b = Bracket { ticker, side: Side::Buy, quantity, stop, stage: finished };
                (b, BracketStep::Done(BracketEnd::UnknownAction))
            },
            Some(side) => {
                if quantity <= 0 {
                    let b = Bracket { ticker, side, quantity, stop, stage: finished };
                    (b, BracketStep::Done(BracketEnd::NonPositiveQuantity))
                } else {
                    let b = Bracket { ticker, side, quantity, stop, stage: BracketStage::AwaitingFill };
                    let order = OrderSpec {
                        side,
                        kind: OrderKind::Market,
                        quantity,
                        aux_price: None,
                    };
                    (b, BracketStep::Place(order))
                }
            },
        }
    }

    /// Takes the next event of the market order's status stream. A fill
    /// starts the stop ladder; a final status other than a fill, or the end
    /// of the stream, ends the submission unfilled; an error ends it with
    /// the error's description; anything else waits for the next event.
    pub fn on_market_event(&mut self, ev: MarketEvent) -> (step: BracketStep)
        requires
            bracket_wf(*old(self)),
        ensures
            (*final(self), step) == market_step(*old(self), ev),
            bracket_wf(*final(self)),
    {
        if self.stage != BracketStage::AwaitingFill {
            return BracketStep::AwaitStatus;
        }
        match ev {
            MarketEvent::Status { label, avg_fill_price } => {
                if same_text(label.as_str(), "Filled") {
                    let order = self.stop_leg_order(avg_fill_price, 0);
                    self.stage = BracketStage::PlacingStops { fill: avg_fill_price, placed: 0 };
                    BracketStep::Place(order)
                } else if is_terminal_label(label.as_str()) {
                    self.stage = BracketStage::Finished;
                    BracketStep::Done(BracketEnd::NotFilled)
                } else {
                    BracketStep::AwaitStatus
                }
            },
            MarketEvent::Other => BracketStep::AwaitStatus,
            MarketEvent::Ended => {
                self.stage = BracketStage::Finished;
                BracketStep::Done(BracketEnd::NotFilled)
            },
            MarketEvent::Failed { description } => {
                self.stage = BracketStage::Finished;
                BracketStep::Done(BracketEnd::MarketFailed { description })
            },
        }
    }

    /// Takes the outcome of submitting the current stop leg. After a
    /// success the next leg is placed, without waiting for the previous one
    /// to fill, until all three are in; a failure ends the submission and
    /// leaves the legs already placed live.
    pub fn on_stop_placed(&mut self, outcome: Result<(), String>) -> (step: BracketStep)
        requires
            bracket_wf(*old(self)),
        ensures
            bracket_wf(*final(self)),
            final(self).ticker == old(self).ticker,
            final(self).side == old(self).side,
            final(self).quantity == old(self).quantity,
            final(self).stop == old(self).stop,
            match old(self).stage {
                BracketStage::PlacingStops { fill, placed } => match outcome {
                    Ok(_) => if placed + 1 < LADDER_LEGS {
                        &&& final(self).stage == (BracketStage::PlacingStops {
                            fill,
                            placed: (placed + 1) as usize,
                        })
                        &&& step == BracketStep::Place(stop_order(*old(self), fill, placed + 1))
                    } else {
                        &&& final(self).stage == BracketStage::Finished
                        &&& step == BracketStep::Done(BracketEnd::Submitted { fill })
                    },
                    Err(description) => {
                        &&& final(self).stage == BracketStage::Finished
                        &&& step == BracketStep::Done(
                            BracketEnd::StopFailed { leg: placed as u8, description },
                        )
                    },
                },
                _ => *final(self) == *old(self) && step == BracketStep::AwaitStatus,
            },
    {
        match self.stage {
            BracketStage::PlacingStops { fill, placed } => match outcome {
                Ok(_) => {
                    if placed + 1 < LADDER_LEGS {
                        let order = self.stop_leg_order(fill, placed + 1);
                        self.stage = BracketStage::PlacingStops { fill, placed: placed + 1 };
                        BracketStep::Place(order)
                    } else {
                        self.stage = BracketStage::Finished;
                        BracketStep::Done(BracketEnd::Submitted { fill })
                    }
                },
                Err(description) => {
                    self.stage = BracketStage::Finished;
                    BracketStep::Done(BracketEnd::StopFailed { leg: placed as u8, description })
                },
            },
            _ => BracketStep::AwaitStatus,
        }
    }

    /// The result handed back to the caller: success, and a message that
    /// says what happened. On success it gives the side, quantity, ticker and
    /// fill price; after a failed stop leg, how many legs stay live.
    pub fn report(&self, end: &BracketEnd) -> (r: (bool, String))
        ensures
            r.0 == end_success(*end),
            r.1@ == end_text(*self, *end),
    {
        match end {
            BracketEnd::NotConnected => (false, String::from_str("Not connected")),
            BracketEnd::UnknownAction => (false, String::from_str("Action must be BUY or SELL")),
            BracketEnd::NonPositiveQuantity => (false, String::from_str("Quantity must be positive")),
            BracketEnd::NotFilled => (false, String::from_str("Market order was not filled.")),
            BracketEnd::MarketFailed { description } => {
                let mut m = String::from_str("Error placing order: ");
                m.append(description.as_str());
                (false, m)
            },
            BracketEnd::StopFailed { leg, description } => {
                let mut m = String::from_str("Stop order ");
                let number = decimal_text(*leg as u64 + 1);
                m.append(number.as_str());
                m.append(" of 3 failed: ");
                m.append(description.as_str());
                m.append("; ");
                let earlier = decimal_text(*leg as u64);
                m.append(earlier.as_str());
                m.append(" earlier stop orders remain live.");
                (false, m)
            },
            BracketEnd::Submitted { fill } => {
                let mut m = String::from_str(side_text(self.side));
                m.append(" ");
                let qty = integer_text(self.quantity as i64);
                m.append(qty.as_str());
                m.append(" shares of ");
                m.append(self.ticker.as_str());
                m.append(" at $");
                let price = price_text(*fill);
                m.append(price.as_str());
                m.append(". 3 stop-loss orders submitted.");
                (true, m)
            },
        }
    }
}

proof fn lemma_feed_unfilled(b: Bracket, events: Seq<MarketEvent>, last: BracketStep)
    requires
        b.stage == BracketStage::AwaitingFill,
        !(last is Place),
        forall|i: int|
            0 <= i < events.len() ==> !is_fill(#[trigger] events[i]) && !(events[i] is Failed),
    ensures
        ({
            let (nb, s) = market_feed(b, events, last);
            &&& !(s is Place)
            &&& nb.stage == BracketStage::AwaitingFill || (nb.stage == BracketStage::Finished
                && s == BracketStep::Done(BracketEnd::NotFilled))
            &&& events.len() > 0 && ends_unfilled(events.last()) ==> nb.stage
                == BracketStage::Finished && s == BracketStep::Done(BracketEnd::NotFilled)
        }),
    decreases events.len(),
{
    if events.len() > 0 {
        let (nb, s) = market_step(b, events[0]);
        let rest = events.drop_first();
        assert(market_feed(b, events, last) == market_feed(nb, rest, s));
        if nb.stage == BracketStage::AwaitingFill {
            assert forall|i: int| 0 <= i < rest.len() implies !is_fill(#[trigger] rest[i]) && !(
            rest[i] is Failed) by {
                assert(rest[i] == events[i + 1]);
            }
            lemma_feed_unfilled(nb, rest, s);
            if rest.len() > 0 {
                assert(rest.last() == events.last());
            }
        } else {
            assert(market_feed(nb, rest, s) == (nb, s));
        }
    }
}

/// A market entry that never fills places no stop leg: while its status
/// stream brings no fill and no error, no step submits an order, and once a
/// final status other than a fill or the end of the stream arrives, the
/// submission ends with the market order not filled.
pub proof fn lemma_unfilled_entry_places_no_stop(b: Bracket, events: Seq<MarketEvent>)
    requires
        b.stage == BracketStage::AwaitingFill,
        forall|i: int|
            0 <= i < events.len() ==> !is_fill(#[trigger] events[i]) && !(events[i] is Failed),
    ensures
        forall|n: int|
            0 <= n <= events.len() ==> !(#[trigger] market_feed(
                b,
                events.take(n),
                BracketStep::AwaitStatus,
            ).1 is Place),
        events.len() > 0 && ends_unfilled(events.last()) ==> market_feed(
            b,
            events,
            BracketStep::AwaitStatus,
        ).1 == BracketStep::Done(BracketEnd::NotFilled),
{
    assert forall|n: int| 0 <= n <= events.len() implies !(#[trigger] market_feed(
        b,
        events.take(n),
        BracketStep::AwaitStatus,
    ).1 is Place) by {
        let pre = events.take(n);
        assert forall|i: int| 0 <= i < pre.len() implies !is_fill(#[trigger] pre[i]) && !(
        pre[i] is Failed) by {
            assert(pre[i] == events[i]);
        }
        lemma_feed_unfilled(b, pre, BracketStep::AwaitStatus);
    }
    lemma_feed_unfilled(b, events, BracketStep::AwaitStatus);
}

} // verus!
