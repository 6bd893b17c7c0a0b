//! Data port connection and events
//!
//! Data from the remote peer and connection-relevant events arrive on two
//! separate streams. `DataEventMux` holds the state that merges them into
//! one stream of `DataEvent`s: which stream has ended, and the connection
//! event parser that turns raw TNC events into connection state changes.
use vstd::prelude::*;

use super::connevent::{opt_change_view, spec_process, ConnEventParser, ConnEventParserView};
use super::data::{DataIn, DataInView};
use crate::protocol::response::{ConnectionStateChange, ConnectionStateChangeView, Event};
use crate::tnc::error::IoError;

verus! {

/// Connection event or data
///
/// The output of the merged stream. This contains
/// either data from the remote peer or connection-relevant
/// events, such as disconnect notifications.
#[derive(Debug, PartialEq, Eq)]
pub enum DataEvent {
    /// Data from the remote peer
    Data(DataIn),
    /// A connection-relevant event
    Event(ConnectionStateChange),
}

/// Abstract value of a `DataEvent`
pub enum DataEventView {
    /// See `DataEvent::Data`
    Data(DataInView),
    /// See `DataEvent::Event`
    Event(ConnectionStateChangeView),
}

impl View for DataEvent {
    type V = DataEventView;

    open spec fn view(&self) -> DataEventView {
        match self {
            DataEvent::Data(d) => DataEventView::Data(d@),
            DataEvent::Event(c) => DataEventView::Event(c@),
        }
    }
}

/// Abstract value of an optional `DataEvent`
pub open spec fn opt_data_event_view(o: Option<DataEvent>) -> Option<DataEventView> {
    match o {
        Some(x) => Some(x@),
        None => None,
    }
}

/// Which of the two input streams the merged stream reads next
#[derive(Debug, Clone, Copy, PartialEq, Eq, Structural)]
pub enum MuxWant {
    /// Both streams are open: read whichever is ready first
    Either,
    /// Only the data stream is open
    DataOnly,
    /// Only the event stream is open
    EventsOnly,
    /// Both streams have ended: so has the merged stream
    Done,
}

/// State of the merged data and event stream
pub struct DataEventMux {
    conn_state: ConnEventParser,
    data_eof: bool,
    event_eof: bool,
}

impl DataEventMux {
    /// The connection event parser's state
    pub closed spec fn spec_conn(&self) -> ConnEventParserView {
        self.conn_state@
    }

    /// True once the data stream has ended
    pub closed spec fn spec_data_eof(&self) -> bool {
        self.data_eof
    }

    /// True once the event stream has ended
    pub closed spec fn spec_event_eof(&self) -> bool {
        self.event_eof
    }

    /// Create the state of a new merged stream for callsign `mycall`
    pub fn new(mycall: &str) -> (r: DataEventMux)
        ensures
            r.spec_conn() == super::connevent::spec_initial(mycall@),
            !r.spec_data_eof(),
            !r.spec_event_eof(),
    {
        DataEventMux { conn_state: ConnEventParser::new(mycall), data_eof: false, event_eof: false }
    }

    /// Connection event parser
    ///
    /// This state machine combines raw events from the TNC
    /// into "combined events" suitable for consumption by
    /// API callers.
    pub fn state(&self) -> (r: &ConnEventParser)
        ensures
            r@ == self.spec_conn(),
    {
        &self.conn_state
    }

    /// Connection event parser, for changes such as a reset
    pub fn state_mut(&mut self) -> (r: &mut ConnEventParser)
        ensures
            r@ == old(self).spec_conn(),
            final(self).spec_conn() == final(r)@,
            final(self).spec_data_eof() == old(self).spec_data_eof(),
            final(self).spec_event_eof() == old(self).spec_event_eof(),
    {
        &mut self.conn_state
    }

    /// Which stream to read next: both while both are open, then the one
    /// still open, data first
    pub fn wants(&self) -> (r: MuxWant)
        ensures
            r == (if !self.spec_data_eof() && !self.spec_event_eof() {
                MuxWant::Either
            } else if !self.spec_data_eof() {
                MuxWant::DataOnly
            } else if !self.spec_event_eof() {
                MuxWant::EventsOnly
            } else {
                MuxWant::Done
            }),
    {
        if !self.data_eof && !self.event_eof {
            MuxWant::Either
        } else if !self.data_eof {
            MuxWant::DataOnly
        } else if !self.event_eof {
            MuxWant::EventsOnly
        } else {
            MuxWant::Done
        }
    }

    /// Handles the next item of the data stream: data passes through; the
    /// end of the stream, or an error, ends it
    pub fn on_data(&mut self, item: Option<Result<DataIn, IoError>>) -> (r: Option<DataEvent>)
        ensures
            final(self).spec_conn() == old(self).spec_conn(),
            final(self).spec_event_eof() == old(self).spec_event_eof(),
            match item {
                Some(Ok(d)) => opt_data_event_view(r) == Some(DataEventView::Data(d@))
                    && final(self).spec_data_eof() == old(self).spec_data_eof(),
                _ => r is None && final(self).spec_data_eof(),
            },
    {
        match item {
            Some(Ok(data)) => Some(DataEvent::Data(data)),
            _ => {
                self.data_eof = true;
                None
            },
        }
    }

    /// Handles the next item of the event stream: events go through the
    /// connection event parser, and what it reports passes on; the end of
    /// the stream ends it
    pub fn on_event(&mut self, item: Option<Event>) -> (r: Option<DataEvent>)
        ensures
            final(self).spec_data_eof() == old(self).spec_data_eof(),
            match item {
                Some(e) => {
                    let (s2, c) = spec_process(old(self).spec_conn(), e@);
                    &&& final(self).spec_conn() == s2
                    &&& final(self).spec_event_eof() == old(self).spec_event_eof()
                    &&& opt_data_event_view(r) == match c {
                        Some(cv) => Some(DataEventView::Event(cv)),
                        None => None,
                    }
                },
                None => r is None && final(self).spec_event_eof() && final(self).spec_conn()
                    == old(self).spec_conn(),
            },
    {
        match item {
            Some(evt) => {
                match self.conn_state.process(evt) {
                    Some(conn_evt) => Some(DataEvent::Event(conn_evt)),
                    None => None,
                }
            },
            None => {
                self.event_eof = true;
                None
            },
        }
    }
}

/// The connection state change that a merged-stream item reports: events
/// pass through, identity frames become `IdentityFrame`, other data none
pub fn state_change_of(evt: DataEvent) -> (r: Option<ConnectionStateChange>)
    ensures
        opt_change_view(r) == match evt@ {
            DataEventView::Event(c) => Some(c),
            DataEventView::Data(DataInView::IDF(call, grid)) => Some(
                ConnectionStateChangeView::IdentityFrame(call, grid),
            ),
            _ => None,
        },
{
    match evt {
        DataEvent::Event(event) => Some(event),
        DataEvent::Data(DataIn::IDF(peer_call, peer_grid)) => Some(
            ConnectionStateChange::IdentityFrame(peer_call, peer_grid),
        ),
        DataEvent::Data(_data) => None,
    }
}

} // verus!
