use vstd::prelude::*;

verus! {

#[verifier::external_type_specification]
#[verifier::external_body]
pub struct ExClient(ibapi::Client);

/// Relies on ibapi's `Client::is_connected`, which reads the state of the
/// client's message bus; nothing is promised of the answer.
pub assume_specification[ ibapi::Client::is_connected ](client: &ibapi::Client) -> bool;

/// Holds the one gateway session of the process, if there is one.
pub struct Connector {
    pub session: Option<ibapi::Client>,
}

impl Connector {
    /// A connector with no session.
    pub fn new() -> (r: Connector)
        ensures
            r.session is None,
    {
        Connector { session: None }
    }

    /// Keeps `client` as the session, replacing any earlier one.
    pub fn attach(&mut self, client: ibapi::Client)
        ensures
            final(self).session == Some(client),
    {
        self.session = Some(client);
    }

    /// Whether a session is held and its client reports a live connection.
    pub fn is_connected(&self) -> (r: bool)
        ensures
            self.session is None ==> !r,
    {
        match &self.session {
            Some(client) => client.is_connected(),
            None => false,
        }
    }

    /// The session's client, if any.
    pub fn client(&self) -> (r: Option<&ibapi::Client>)
        ensures
            r == match self.session {
                Some(c) => Some(&c),
                None => None::<&ibapi::Client>,
            },
    {
        match &self.session {
            Some(client) => Some(client),
            None => None,
        }
    }

    /// Drops the session. Without one it changes nothing.
    pub fn disconnect(&mut self)
        ensures
            final(self).session is None,
            old(self).session is None ==> *final(self) == *old(self),
    {
        if self.session.is_some() {
            self.session = None;
        }
    }
}

} // verus!
