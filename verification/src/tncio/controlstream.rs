//! Control streams
//!
//! Everything the TNC writes on its control port is either an unsolicited
//! event or the result of a command. The routing state below splits the
//! decoded responses into two first-in, first-out queues, one for events
//! and one for command results, and remembers when the control port has
//! ended. A second queue holds command lines accepted for sending until
//! the port can take them.
use std::collections::VecDeque;
use vstd::prelude::*;

use crate::protocol::response::{
    command_result_view, opt_response_view, CommandResult, CommandResultView, Event, EventView,
    Response, ResponseView,
};

verus! {

/// Abstract value of the routing state
pub struct ControlQueuesView {
    /// Events not yet taken, oldest first
    pub events: Seq<EventView>,
    /// Command results not yet taken, oldest first
    pub results: Seq<CommandResultView>,
    /// The control port has ended
    pub fused: bool,
}

/// Routing state of the control port: queued events, queued command
/// results, and whether the port has ended
pub struct ControlQueues {
    event_queue: VecDeque<Event>,
    result_queue: VecDeque<CommandResult>,
    fused: bool,
}

impl View for ControlQueues {
    type V = ControlQueuesView;

    closed spec fn view(&self) -> ControlQueuesView {
        ControlQueuesView {
            events: self.event_queue@.map_values(|e: Event| e@),
            results: self.result_queue@.map_values(|r: CommandResult| command_result_view(r)),
            fused: self.fused,
        }
    }
}

/// The routing state after one more read from the control port (`None`
/// is its end), and whether the read gave something. Once the port has
/// ended, nothing more is read.
pub open spec fn spec_route(s: ControlQueuesView, input: Option<ResponseView>) -> (
    ControlQueuesView,
    bool,
) {
    if s.fused {
        (s, false)
    } else {
        match input {
            None => (ControlQueuesView { fused: true, ..s }, false),
            Some(ResponseView::CommandResult(r)) => (
                ControlQueuesView { results: s.results.push(r), ..s },
                true,
            ),
            Some(ResponseView::Event(e)) => (ControlQueuesView { events: s.events.push(e), ..s }, true),
        }
    }
}

impl ControlQueues {
    /// Empty queues on a live control port
    pub fn new() -> (r: ControlQueues)
        ensures
            r@ == (ControlQueuesView {
                events: Seq::empty(),
                results: Seq::empty(),
                fused: false,
            }),
    {
        let r = ControlQueues {
            event_queue: VecDeque::with_capacity(32),
            result_queue: VecDeque::with_capacity(32),
            fused: false,
        };
        assert(r@.events =~= Seq::<EventView>::empty());
        assert(r@.results =~= Seq::<CommandResultView>::empty());
        r
    }

    /// True once the control port has ended: nothing more is read from it
    pub fn is_fused(&self) -> (r: bool)
        ensures
            r == self@.fused,
    {
        self.fused
    }

    /// Routes what one read from the control port gave: a command result
    /// to its queue, an event to its queue, and the end of the port marks
    /// the routing state ended. Returns true if something was queued.
    pub fn route(&mut self, input: Option<Response>) -> (r: bool)
        ensures
            (final(self)@, r) == spec_route(old(self)@, opt_response_view(input)),
    {
        if self.fused {
            return false;
        }
        match input {
            None => {
                self.fused = true;
                false
            },
            Some(Response::CommandResult(res)) => {
                let ghost old_q = self.result_queue@;
                self.result_queue.push_back(res);
                assert(self.result_queue@.map_values(|r: CommandResult| command_result_view(r))
                    =~= old_q.map_values(|r: CommandResult| command_result_view(r)).push(
                    command_result_view(res),
                ));
                true
            },
            Some(Response::Event(evt)) => {
                let ghost old_q = self.event_queue@;
                let ghost ev = evt@;
                self.event_queue.push_back(evt);
                assert(self.event_queue@.map_values(|e: Event| e@) =~= old_q.map_values(
                    |e: Event| e@,
                ).push(ev));
                true
            },
        }
    }

    /// Takes the oldest queued event, if any
    pub fn pop_event(&mut self) -> (r: Option<Event>)
        ensures
            old(self)@.events.len() == 0 ==> r is None && final(self)@ == old(self)@,
            old(self)@.events.len() > 0 ==> (r matches Some(e) && e@ == old(self)@.events[0])
                && final(self)@ == (ControlQueuesView {
                events: old(self)@.events.drop_first(),
                ..old(self)@
            }),
    {
        let ghost old_q = self.event_queue@;
        let r = self.event_queue.pop_front();
        proof {
            if old_q.len() > 0 {
                assert(self.event_queue@.map_values(|e: Event| e@) =~= old_q.map_values(
                    |e: Event| e@,
                ).drop_first());
            } else {
                assert(self.event_queue@ =~= old_q);
            }
        }
        r
    }

    /// Takes the oldest queued command result, if any
    pub fn pop_result(&mut self) -> (r: Option<CommandResult>)
        ensures
            old(self)@.results.len() == 0 ==> r is None && final(self)@ == old(self)@,
            old(self)@.results.len() > 0 ==> (r matches Some(x) && command_result_view(x)
                == old(self)@.results[0]) && final(self)@ == (ControlQueuesView {
                results: old(self)@.results.drop_first(),
                ..old(self)@
            }),
    {
        let ghost old_q = self.result_queue@;
        let r = self.result_queue.pop_front();
        proof {
            if old_q.len() > 0 {
                assert(self.result_queue@.map_values(|r: CommandResult| command_result_view(r))
                    =~= old_q.map_values(|r: CommandResult| command_result_view(r)).drop_first());
            } else {
                assert(self.result_queue@ =~= old_q);
            }
        }
        r
    }
}

/// Command lines accepted for sending, oldest first, until the control
/// port can take them
pub struct CommandQueue {
    queue: VecDeque<String>,
}

impl View for CommandQueue {
    type V = Seq<Seq<char>>;

    closed spec fn view(&self) -> Seq<Seq<char>> {
        self.queue@.map_values(|s: String| s@)
    }
}

impl CommandQueue {
    /// An empty queue
    pub fn new() -> (r: CommandQueue)
        ensures
            r@ == Seq::<Seq<char>>::empty(),
    {
        let r = CommandQueue { queue: VecDeque::with_capacity(32) };
        assert(r@ =~= Seq::<Seq<char>>::empty());
        r
    }

    /// True if nothing waits to be sent
    pub fn is_empty(&self) -> (r: bool)
        ensures
            r == (self@.len() == 0),
    {
        self.queue.len() == 0
    }

    /// Accepts a command line for sending after those already queued
    pub fn push(&mut self, line: String)
        ensures
            final(self)@ == old(self)@.push(line@),
    {
        let ghost old_q = self.queue@;
        self.queue.push_back(line);
        assert(self.queue@.map_values(|s: String| s@) =~= old_q.map_values(|s: String| s@).push(
            line@,
        ));
    }

    /// Takes the oldest command line, if any
    pub fn pop(&mut self) -> (r: Option<String>)
        ensures
            old(self)@.len() == 0 ==> r is None && final(self)@ == old(self)@,
            old(self)@.len() > 0 ==> (r matches Some(s) && s@ == old(self)@[0]) && final(self)@
                == old(self)@.drop_first(),
    {
        let ghost old_q = self.queue@;
        let r = self.queue.pop_front();
        proof {
            if old_q.len() > 0 {
                assert(self.queue@.map_values(|s: String| s@) =~= old_q.map_values(
                    |s: String| s@,
                ).drop_first());
            } else {
                assert(self.queue@ =~= old_q);
            }
        }
        r
    }
}


/// The control port is split without loss or mixing: an event joins the
/// end of the event queue and a command result the end of the result
/// queue, leaving the other queue alone; once the port has ended nothing
/// more is queued
pub proof fn lemma_route_splits(s: ControlQueuesView, input: Option<ResponseView>)
    ensures
        !s.fused ==> (input matches Some(ResponseView::Event(e)) ==> spec_route(s, input).0.events
            == s.events.push(e) && spec_route(s, input).0.results == s.results),
        !s.fused ==> (input matches Some(ResponseView::CommandResult(r)) ==> spec_route(
            s,
            input,
        ).0.results == s.results.push(r) && spec_route(s, input).0.events == s.events),
        s.fused ==> spec_route(s, input) == (s, false),
        spec_route(s, input).0.fused <==> (s.fused || input is None),
{
}

} // verus!
