use vstd::prelude::*;

use crate::text::{decimal_string, decimal_text};

verus! {

/// Connection direction
#[derive(Debug, PartialEq, Eq, Clone)]
pub enum CallDirection {
    /// An outgoing connection, via `ARQCALL`
    ///
    /// Parameters:
    /// - My callsign (`MYCALL`)
    Outgoing(String),
    /// An incoming connection, via `LISTEN`
    ///
    /// Parameters:
    /// - Callsign "dialed" by peer. Either `MYCALL` or one of
    ///   `MYAUX`.
    Incoming(String),
}

/// Abstract value of a `CallDirection`
pub enum CallDirectionView {
    /// Outgoing, with my callsign
    Outgoing(Seq<char>),
    /// Incoming, with the callsign dialed by the peer
    Incoming(Seq<char>),
}

impl View for CallDirection {
    type V = CallDirectionView;

    open spec fn view(&self) -> CallDirectionView {
        match self {
            CallDirection::Outgoing(c) => CallDirectionView::Outgoing(c@),
            CallDirection::Incoming(c) => CallDirectionView::Incoming(c@),
        }
    }
}

impl CallDirection {
    /// A copy of this direction
    pub fn duplicate(&self) -> (r: CallDirection)
        ensures
            r@ == self@,
    {
        match self {
            CallDirection::Outgoing(c) => CallDirection::Outgoing(c.clone()),
            CallDirection::Incoming(c) => CallDirection::Incoming(c.clone()),
        }
    }
}

/// Represents an ARQ connection
///
/// `ConnectionInfo` are immutable once created.
#[derive(Debug, PartialEq, Eq, Clone)]
pub struct ConnectionInfo {
    /// Connected peer callsign
    peer_call: String,
    /// Connected peer gridsquare, if known
    peer_grid: Option<String>,
    /// Connection bandwidth (Hz)
    bandwidth: u16,
    /// Connection direction
    direction: CallDirection,
}

/// Abstract value of a `ConnectionInfo`
pub struct ConnectionInfoView {
    /// Connected peer callsign
    pub peer_call: Seq<char>,
    /// Connected peer gridsquare, if known
    pub peer_grid: Option<Seq<char>>,
    /// Connection bandwidth (Hz)
    pub bandwidth: u16,
    /// Connection direction
    pub direction: CallDirectionView,
}

/// Abstract value of an optional string
pub open spec fn opt_string_view(o: Option<String>) -> Option<Seq<char>> {
    match o {
        Some(s) => Some(s@),
        None => None,
    }
}

/// A copy of an optional string
pub fn opt_string_clone(o: &Option<String>) -> (r: Option<String>)
    ensures
        opt_string_view(r) == opt_string_view(*o),
{
    match o {
        Some(s) => Some(s.clone()),
        None => None,
    }
}

impl View for ConnectionInfo {
    type V = ConnectionInfoView;

    closed spec fn view(&self) -> ConnectionInfoView {
        ConnectionInfoView {
            peer_call: self.peer_call@,
            peer_grid: opt_string_view(self.peer_grid),
            bandwidth: self.bandwidth,
            direction: self.direction@,
        }
    }
}

/// The text shown for a connection:
/// `FROM>TO [GRID][BW Hz]`, with `????` for an unknown grid
pub open spec fn spec_connection_text(c: ConnectionInfoView) -> Seq<char> {
    let fm = match c.direction {
        CallDirectionView::Outgoing(me) => me,
        CallDirectionView::Incoming(_t) => c.peer_call,
    };
    let to = match c.direction {
        CallDirectionView::Outgoing(_me) => c.peer_call,
        CallDirectionView::Incoming(t) => t,
    };
    let grid = match c.peer_grid {
        Some(g) => g,
        None => seq!['?', '?', '?', '?'],
    };
    fm + seq!['>'] + to + seq![' ', '['] + grid + seq![']', '['] + decimal_text(c.bandwidth as nat)
        + seq![' ', 'H', 'z', ']']
}

impl ConnectionInfo {
    /// Record a new connection
    ///
    /// Parameters
    /// - `peer_call`: Peer callsign
    /// - `peer_grid`: Peer gridsquare, if known
    /// - `bandwidth`: Connection bandwidth (Hz)
    /// - `direction`: Connection direction
    pub fn new(
        peer_call: &str,
        peer_grid: Option<String>,
        bandwidth: u16,
        direction: CallDirection,
    ) -> (r: ConnectionInfo)
        ensures
            r@ == (ConnectionInfoView {
                peer_call: peer_call@,
                peer_grid: opt_string_view(peer_grid),
                bandwidth,
                direction: direction@,
            }),
    {
        ConnectionInfo { peer_call: peer_call.to_owned(), peer_grid, bandwidth, direction }
    }

    /// Peer callsign
    ///
    /// For outgoing connections, this is the dialed
    /// callsign and not how the peer identifies itself.
    /// For incoming connections, this is how the
    /// peer identifies itself.
    pub fn peer_call(&self) -> (r: &String)
        ensures
            r@ == self@.peer_call,
    {
        &self.peer_call
    }

    /// Peer Maidenhead Grid Square, if reported
    pub fn peer_grid(&self) -> (r: &Option<String>)
        ensures
            opt_string_view(*r) == self@.peer_grid,
    {
        &self.peer_grid
    }

    /// Connection bandwidth, in Hz
    pub fn bandwidth(&self) -> (r: u16)
        ensures
            r == self@.bandwidth,
    {
        self.bandwidth
    }

    /// Connection direction (incoming vs outgoing)
    pub fn direction(&self) -> (r: &CallDirection)
        ensures
            r@ == self@.direction,
    {
        &self.direction
    }

    /// A copy of this connection information
    pub fn duplicate(&self) -> (r: ConnectionInfo)
        ensures
            r@ == self@,
    {
        ConnectionInfo {
            peer_call: self.peer_call.clone(),
            peer_grid: opt_string_clone(&self.peer_grid),
            bandwidth: self.bandwidth,
            direction: self.direction.duplicate(),
        }
    }

    /// The text shown for this connection:
    /// `FROM>TO [GRID][BW Hz]`, with `????` for an unknown grid
    pub fn to_string(&self) -> (s: String)
        ensures
            s@ == spec_connection_text(self@),
    {
        proof {
            reveal_strlit(">");
            reveal_strlit(" [");
            reveal_strlit("????");
            reveal_strlit("][");
            reveal_strlit(" Hz]");
        }
        let fm: &String = match &self.direction {
            CallDirection::Outgoing(c) => c,
            CallDirection::Incoming(_t) => &self.peer_call,
        };
        let to: &String = match &self.direction {
            CallDirection::Outgoing(_c) => &self.peer_call,
            CallDirection::Incoming(t) => t,
        };
        let mut s = String::new();
        s.append(fm.as_str());
        s.append(">");
        s.append(to.as_str());
        s.append(" [");
        match &self.peer_grid {
            Some(g) => s.append(g.as_str()),
            None => s.append("????"),
        }
        s.append("][");
        let bw = decimal_string(self.bandwidth as u64);
        s.append(bw.as_str());
        s.append(" Hz]");
        s
    }
}

} // verus!
