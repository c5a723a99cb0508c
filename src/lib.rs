//! Verified core of a brokerage bridge: quote polling, the bracket-order
//! stop ladder, and the bookkeeping around one gateway session.

pub mod api;
pub mod bars;
pub mod bracket;
pub mod ladder;
pub mod price;
pub mod quote;
pub mod session;
pub mod text;

pub use api::{ApiDoc, ConnectQuery, MarketDataQuery};
pub use bars::{Bar, day_range};
pub use bracket::{
    Bracket, BracketEnd, BracketStage, BracketStep, MarketEvent, OrderKind, OrderSpec, is_terminal_label,
    parse_side_label,
};
pub use ladder::{Side, StopLeg, stop_ladder};
pub use price::{Price, UNITS_PER_CENT, round_thirds_to_cents};
pub use quote::{QuotePoll, QuoteStep, TickRead, select_contract};
pub use session::Connector;
pub use text::{account_line, decimal_text, integer_text, position_line, price_text};
