//! The shared application state: a cell holding at most one live connection.
//!
//! The cell is generic over the handle type of the underlying serial channel,
//! so it can be built around any handle the host hands in.

use vstd::prelude::*;

verus! {

/// An open connection, tagged with the port it was opened on.
pub struct Connection<H> {
    pub port: String,
    pub handle: H,
}

/// The application state: holds the most recently stored connection, if any.
/// Starts empty.
pub struct AppState<H> {
    pub connection: Option<Connection<H>>,
}

/// The state after a connection has been stored: it holds exactly the new
/// connection, whatever it held before.
pub open spec fn stored<H>(s: AppState<H>, c: Connection<H>) -> AppState<H> {
    AppState { connection: Some(c) }
}

/// The state holds a connection tagged with this port.
pub open spec fn holds_port<H>(s: AppState<H>, port: Seq<char>) -> bool {
    s.connection matches Some(c) && c.port@ == port
}

impl<H> AppState<H> {
    /// An empty state: no connection yet.
    pub fn new() -> (r: AppState<H>)
        ensures
            r.connection is None,
    {
        AppState { connection: None }
    }

    /// Stores a connection, discarding whatever connection was stored before.
    pub fn set_connection(&mut self, c: Connection<H>)
        ensures
            *(final(self)) == stored(*old(self), c),
    {
        self.connection = Some(c);
    }
}

impl<H> Default for AppState<H> {
    fn default() -> (r: AppState<H>)
        ensures
            r.connection is None,
    {
        AppState { connection: None }
    }
}

/// Law: storing a connection leaves the state holding exactly that
/// connection, tagged with its port; a previously stored connection, if it
/// differs, is no longer reachable through the state.
pub proof fn lemma_store_replaces<H>(s: AppState<H>, c: Connection<H>)
    ensures
        stored(s, c).connection == Some(c),
        holds_port(stored(s, c), c.port@),
        s.connection matches Some(c0) ==> c0 != c ==> stored(s, c).connection != Some(c0),
{
}

/// Law: after two connections are stored in sequence, the state holds only
/// the most recent one.
pub proof fn lemma_latest_connection_wins<H>(s: AppState<H>, c1: Connection<H>, c2: Connection<H>)
    ensures
        stored(stored(s, c1), c2).connection == Some(c2),
        c1 != c2 ==> stored(stored(s, c1), c2).connection != Some(c1),
{
}

} // verus!
