//! Connection Event Parser
//!
//! The `ConnEventParser` is a state machine which consumes
//! a stream of `Event`s from the TNC. Events which are relevant
//! to ARQ connections are composited into `ConnectionStateChange`
//! messages. The remaining events are discarded.
use vstd::prelude::*;

use std::time::{Duration, Instant};

use crate::arq::connectioninfo::{opt_string_view, CallDirectionView, ConnectionInfoView};
use crate::arq::{CallDirection, ConnectionFailedReason, ConnectionInfo};
use crate::clock::{duration_from_micros, duration_nanos, instant_elapsed, instant_now};
use crate::protocol::response::{
    ConnectionStateChange, ConnectionStateChangeView, Event, EventView, State,
};

verus! {

/// Handles TNC events
pub struct ConnEventParser {
    mycall: String,
    last_target: Option<String>,
    last_arq_state: State,
    is_connected: bool,
    buffer: u64,
    clear_since: Option<Instant>,
}

/// Abstract value of a `ConnEventParser`
pub struct ConnEventParserView {
    /// This station's callsign
    pub mycall: Seq<char>,
    /// Target of the last incoming call announced, not yet connected
    pub last_target: Option<Seq<char>>,
    /// The last ARQ state reported
    pub last_arq_state: State,
    /// True while an ARQ connection is open
    pub is_connected: bool,
    /// The last reported length of the outbound buffer
    pub buffer: u64,
    /// True while the RF channel is busy
    pub busy: bool,
}

impl View for ConnEventParser {
    type V = ConnEventParserView;

    closed spec fn view(&self) -> ConnEventParserView {
        ConnEventParserView {
            mycall: self.mycall@,
            last_target: opt_string_view(self.last_target),
            last_arq_state: self.last_arq_state,
            is_connected: self.is_connected,
            buffer: self.buffer,
            busy: self.clear_since is None,
        }
    }
}

/// The state of a fresh parser for callsign `mycall`: disconnected, no
/// call pending, empty buffer, clear channel
pub open spec fn spec_initial(mycall: Seq<char>) -> ConnEventParserView {
    ConnEventParserView {
        mycall,
        last_target: None,
        last_arq_state: State::DISC,
        is_connected: false,
        buffer: 0,
        busy: false,
    }
}

/// True for the states in which the TNC is connected to a peer
pub open spec fn spec_state_connected(st: State) -> bool {
    st is ISS || st is IRS || st is IRStoISS
}

/// How the parser's state changes on one event, and what it reports
pub open spec fn spec_process(s: ConnEventParserView, e: EventView) -> (
    ConnEventParserView,
    Option<ConnectionStateChangeView>,
) {
    match e {
        EventView::BUFFER(buf) => (
            ConnEventParserView { buffer: buf, ..s },
            if buf > 0 || s.buffer > 0 {
                Some(ConnectionStateChangeView::SendBuffer(buf))
            } else {
                None
            },
        ),
        EventView::BUSY(busy) => (
            ConnEventParserView { busy, ..s },
            Some(ConnectionStateChangeView::Busy(busy)),
        ),
        EventView::CONNECTED(peer, bw, grid) => {
            let dir = match s.last_target {
                None => CallDirectionView::Outgoing(s.mycall),
                Some(t) => CallDirectionView::Incoming(t),
            };
            (
                ConnEventParserView { is_connected: true, last_target: None, ..s },
                Some(
                    ConnectionStateChangeView::Connected(
                        ConnectionInfoView {
                            peer_call: peer,
                            peer_grid: grid,
                            bandwidth: bw,
                            direction: dir,
                        },
                    ),
                ),
            )
        },
        EventView::DISCONNECTED => if s.is_connected {
            (ConnEventParserView { is_connected: false, ..s }, Some(ConnectionStateChangeView::Closed))
        } else {
            (s, None)
        },
        EventView::NEWSTATE(st) => {
            let was_connecting = !s.is_connected && s.last_arq_state == State::ISS;
            let s2 = ConnEventParserView { last_arq_state: st, ..s };
            if was_connecting && !spec_state_connected(st) {
                (s2, Some(ConnectionStateChangeView::Failed(ConnectionFailedReason::NoAnswer)))
            } else if s.is_connected {
                (
                    s2,
                    match st {
                        State::ISS => Some(ConnectionStateChangeView::Sending),
                        State::IRS => Some(ConnectionStateChangeView::Receiving),
                        _ => None,
                    },
                )
            } else {
                (s2, None)
            }
        },
        EventView::PING(sender, target, snr, qual) => (
            s,
            Some(ConnectionStateChangeView::Ping(sender, target, snr, qual)),
        ),
        EventView::PINGACK(snr, qual) => (s, Some(ConnectionStateChangeView::PingAck(snr, qual))),
        EventView::REJECTED(cfr) => (s, Some(ConnectionStateChangeView::Failed(cfr))),
        EventView::TARGET(tgtcall) => (ConnEventParserView { last_target: Some(tgtcall), ..s }, None),
        _ => (s, None),
    }
}

/// Abstract value of an optional connection state change
pub open spec fn opt_change_view(o: Option<ConnectionStateChange>) -> Option<
    ConnectionStateChangeView,
> {
    match o {
        Some(c) => Some(c@),
        None => None,
    }
}

impl ConnEventParser {
    /// Create an `ConnectionEventParser`
    ///
    /// # Parameters
    /// - `mycall`: Your formally-assigned callsign
    pub fn new(mycall: &str) -> (r: ConnEventParser)
        ensures
            r@ == spec_initial(mycall@),
    {
        ConnEventParser {
            mycall: mycall.to_owned(),
            last_target: None,
            last_arq_state: State::DISC,
            is_connected: false,
            buffer: 0,
            clear_since: Some(instant_now()),
        }
    }

    /// Reset to zero initial conditions
    ///
    /// Reset the event parser to zero initial conditions. This
    /// method should be invoked before sending an `INITIALIZE`
    /// command to the TNC.
    pub fn reset(&mut self)
        ensures
            final(self)@ == spec_initial(old(self)@.mycall),
    {
        self.last_target = None;
        self.last_arq_state = State::DISC;
        self.is_connected = false;
        self.buffer = 0;
        self.clear_since = Some(instant_now());
    }

    /// Get this station's callsign
    ///
    /// # Returns
    /// The formally assigned callsign for this station.
    pub fn mycall(&self) -> (r: &String)
        ensures
            r@ == self@.mycall,
    {
        &self.mycall
    }

    /// True if the RF channel is detected busy
    ///
    /// True if the busy detector has reported that the
    /// RF channel is currently busy.
    pub fn busy(&self) -> (r: bool)
        ensures
            r == self@.busy,
    {
        self.clear_since.is_none()
    }

    /// Time since the channel has been clear
    ///
    /// Returns the monotonic time which has elapsed since
    /// the RF channel has become clear. If the channel is
    /// currently busy, returns zero.
    pub fn clear_time(&self) -> (r: Duration)
        ensures
            self@.busy ==> duration_nanos(r) == 0,
    {
        match &self.clear_since {
            None => duration_from_micros(0),
            Some(clear_at) => instant_elapsed(clear_at),
        }
    }

    /// Process an event
    ///
    /// Processes an event notification received asynchronously
    /// from the TNC. Returns either a `ConnectionStateChange` or
    /// `None` if the event was consumed.
    pub fn process(&mut self, event: Event) -> (r: Option<ConnectionStateChange>)
        ensures
            (final(self)@, opt_change_view(r)) == spec_process(old(self)@, event@),
    {
        match event {
            Event::BUFFER(buf) => {
                let oldbuffer = self.buffer;
                self.buffer = buf;
                if buf > 0 || oldbuffer > 0 {
                    Some(ConnectionStateChange::SendBuffer(buf))
                } else {
                    None
                }
            },
            Event::BUSY(busy) => {
                self.clear_since = if busy {
                    None
                } else {
                    Some(instant_now())
                };
                Some(ConnectionStateChange::Busy(busy))
            },
            Event::CONNECTED(peer, bw, grid) => {
                let dir = match &self.last_target {
                    None => CallDirection::Outgoing(self.mycall.clone()),
                    Some(myalt) => CallDirection::Incoming(myalt.clone()),
                };
                self.is_connected = true;
                self.last_target = None;
                Some(
                    ConnectionStateChange::Connected(
                        ConnectionInfo::new(peer.as_str(), grid, bw, dir),
                    ),
                )
            },
            Event::DISCONNECTED => {
                if self.is_connected {
                    self.is_connected = false;
                    Some(ConnectionStateChange::Closed)
                } else {
                    None
                }
            },
            Event::NEWSTATE(st) => {
                let was_connecting = !self.is_connected && self.last_arq_state == State::ISS;
                let is_connected = State::is_connected(&st);
                self.last_arq_state = st;
                if was_connecting && !is_connected {
                    Some(ConnectionStateChange::Failed(ConnectionFailedReason::NoAnswer))
                } else if self.is_connected {
                    match &self.last_arq_state {
                        State::ISS => Some(ConnectionStateChange::Sending),
                        State::IRS => Some(ConnectionStateChange::Receiving),
                        _ => None,
                    }
                } else {
                    None
                }
            },
            Event::PING(sender, target, snr, qual) => {
                Some(ConnectionStateChange::Ping(sender, target, snr, qual))
            },
            Event::PINGACK(snr, qual) => Some(ConnectionStateChange::PingAck(snr, qual)),
            Event::REJECTED(cfr) => Some(ConnectionStateChange::Failed(cfr)),
            Event::TARGET(tgtcall) => {
                self.last_target = Some(tgtcall);
                None
            },
            _ => None,
        }
    }
}


/// A connection opened after the TNC announced the target of an incoming
/// call is incoming, to that target; one opened with no announcement
/// pending is outgoing, from this station's callsign. Either way the
/// connection consumes the announcement.
pub proof fn lemma_call_direction(
    s: ConnEventParserView,
    target: Seq<char>,
    peer: Seq<char>,
    bw: u16,
    grid: Option<Seq<char>>,
)
    ensures
        ({
            let s1 = spec_process(s, EventView::TARGET(target)).0;
            spec_process(s1, EventView::CONNECTED(peer, bw, grid)).1 == Some(
                ConnectionStateChangeView::Connected(
                    ConnectionInfoView {
                        peer_call: peer,
                        peer_grid: grid,
                        bandwidth: bw,
                        direction: CallDirectionView::Incoming(target),
                    },
                ),
            )
        }),
        s.last_target is None ==> spec_process(s, EventView::CONNECTED(peer, bw, grid)).1 == Some(
            ConnectionStateChangeView::Connected(
                ConnectionInfoView {
                    peer_call: peer,
                    peer_grid: grid,
                    bandwidth: bw,
                    direction: CallDirectionView::Outgoing(s.mycall),
                },
            ),
        ),
        spec_process(s, EventView::CONNECTED(peer, bw, grid)).0.last_target is None,
{
}

/// Only a target announcement or a completed connection changes the
/// pending announcement: ARQ state changes and other events between them
/// leave it alone
pub proof fn lemma_target_kept(s: ConnEventParserView, e: EventView)
    requires
        !(e is TARGET || e is CONNECTED),
    ensures
        spec_process(s, e).0.last_target == s.last_target,
{
}

/// No event changes this station's callsign
pub proof fn lemma_mycall_kept(s: ConnEventParserView, e: EventView)
    ensures
        spec_process(s, e).0.mycall == s.mycall,
{
}

/// A connection is reported closed once: `DISCONNECTED` closes an open
/// connection, and another `DISCONNECTED` after it reports nothing
pub proof fn lemma_closed_once(s: ConnEventParserView)
    ensures
        spec_process(s, EventView::DISCONNECTED).1 == (if s.is_connected {
            Some(ConnectionStateChangeView::Closed)
        } else {
            None::<ConnectionStateChangeView>
        }),
        spec_process(spec_process(s, EventView::DISCONNECTED).0, EventView::DISCONNECTED).1 is None,
{
}

/// Every change of the outbound buffer is reported, but an empty buffer
/// only once: a second report of zero bytes in a row is dropped
pub proof fn lemma_buffer_reports(s: ConnEventParserView, n: u64)
    ensures
        n > 0 ==> spec_process(s, EventView::BUFFER(n)).1 == Some(
            ConnectionStateChangeView::SendBuffer(n),
        ),
        s.buffer > 0 ==> spec_process(s, EventView::BUFFER(n)).1 == Some(
            ConnectionStateChangeView::SendBuffer(n),
        ),
        spec_process(spec_process(s, EventView::BUFFER(0)).0, EventView::BUFFER(0)).1 is None,
{
}

/// The busy flag follows the last `BUSY` report; no other event changes it
pub proof fn lemma_busy_follows_reports(s: ConnEventParserView, e: EventView)
    ensures
        e matches EventView::BUSY(b) ==> spec_process(s, e).0.busy == b,
        !(e is BUSY) ==> spec_process(s, e).0.busy == s.busy,
{
}

/// An outgoing call that has not connected fails with no answer when the
/// TNC leaves the sending state for one that is not connected
pub proof fn lemma_unanswered_call(s: ConnEventParserView, st: State)
    requires
        !s.is_connected,
        s.last_arq_state == State::ISS,
        !spec_state_connected(st),
    ensures
        spec_process(s, EventView::NEWSTATE(st)).1 == Some(
            ConnectionStateChangeView::Failed(ConnectionFailedReason::NoAnswer),
        ),
{
}

} // verus!
