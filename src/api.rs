use vstd::prelude::*;

use crate::text::{decimal_digits, decimal_text};

verus! {

/// Where to reach the gateway, and the client id to connect with.
#[derive(Clone, Debug)]
pub struct ConnectQuery {
    pub address: String,
    pub port: u16,
    pub client_id: i32,
}

impl ConnectQuery {
    /// The gateway's address as `host:port`.
    pub fn endpoint(&self) -> (r: String)
        ensures
            r@ == self.address@ + ":"@ + decimal_digits(self.port as nat),
    {
        let mut r = self.address.clone();
        r.append(":");
        let port = decimal_text(self.port as u64);
        r.append(port.as_str());
        r
    }
}

/// The ticker whose market data is asked for.
#[derive(Clone, Debug)]
pub struct MarketDataQuery {
    pub ticker: String,
}

/// The service's API description.
#[derive(Clone, Copy, PartialEq, Eq, Structural, Debug)]
pub struct ApiDoc;

} // verus!
