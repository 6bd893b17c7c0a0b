//! Chained commands
//!
//! A "chain" of commands is a list of TNC commands executed in sequence:
//! each is sent, then its result awaited, before the next is sent. The
//! first failure stops the chain.
use std::collections::VecDeque;
use vstd::prelude::*;

use crate::protocol::command::{
    abort, arqbw, arqtimeout, autobreak, busyblock, busydet, cwid, disconnect, gridsquare,
    leader, myaux, mycall, sendid, spec_bw_mode_text, spec_command_text, spec_myaux_text,
    strings_view, twotonetest, version, Command, CommandArg,
};
use crate::protocol::constants::{spec_truth_text, CommandID};
use crate::text::decimal_text;
use crate::protocol::response::{opt_view, CommandOk};
use crate::tnc::error::{IoError, IoErrorKind, TncError, TncErrorView, TncResult};

verus! {

/// Abstract value of a successful command result: verb and message
pub type CommandOkView = (CommandID, Option<Seq<char>>);

/// Abstract value of the result of sending a command line
pub open spec fn sent_view(r: TncResult<()>) -> Result<(), TncErrorView> {
    match r {
        Ok(()) => Ok(()),
        Err(e) => Err(e@),
    }
}

/// Abstract value of the result of a command
pub open spec fn reply_view(r: TncResult<CommandOk>) -> Result<CommandOkView, TncErrorView> {
    match r {
        Ok((id, msg)) => Ok((id, opt_view(msg))),
        Err(e) => Err(e@),
    }
}

/// A call made on a `Commandable`, with what it answered
pub enum CommandCall {
    /// `send_raw_command` with this line
    Send(Seq<char>, Result<(), TncErrorView>),
    /// `await_command_result` for this verb
    Await(CommandID, Result<CommandOkView, TncErrorView>),
}

/// The calls made on a `Commandable`, oldest first
pub type CallLog = Seq<CommandCall>;

/// A destination for TNC commands
///
/// Implementations record, in `spec_calls`, every call made on them and
/// what it answered.
pub trait Commandable {
    /// The calls made on this destination so far, oldest first
    spec fn spec_calls(&self) -> CallLog;

    /// Sends the wire text of one command to the TNC
    fn send_raw_command(&mut self, cmd: String) -> (r: TncResult<()>)
        ensures
            final(self).spec_calls() == old(self).spec_calls().push(
                CommandCall::Send(cmd@, sent_view(r)),
            ),
    ;

    /// Awaits the result of the command with verb `id`
    fn await_command_result(&mut self, id: CommandID) -> (r: TncResult<CommandOk>)
        ensures
            final(self).spec_calls() == old(self).spec_calls().push(
                CommandCall::Await(id, reply_view(r)),
            ),
    ;
}

/// What running the commands `cmds` gives, where `calls` are the calls
/// made on the destination and `last` the result so far: the result and
/// the number of commands taken from the queue, or `None` if `calls` are
/// not the calls the chain makes. Each command's line is sent, then its
/// verb awaited; the first failure ends the run with that failure, and
/// otherwise the result is the last command's.
pub open spec fn spec_chain(
    cmds: Seq<(Seq<char>, CommandID)>,
    calls: Seq<CommandCall>,
    last: Result<CommandOkView, TncErrorView>,
) -> Option<(Result<CommandOkView, TncErrorView>, int)>
    decreases cmds.len(),
{
    if cmds.len() == 0 {
        if calls.len() == 0 {
            Some((last, 0))
        } else {
            None
        }
    } else if calls.len() == 0 {
        None
    } else {
        match calls[0] {
            CommandCall::Send(t, s) => if t != cmds[0].0 {
                None
            } else {
                match s {
                    Err(e) => if calls.len() == 1 {
                        Some((Err(e), 1))
                    } else {
                        None
                    },
                    Ok(()) => if calls.len() < 2 {
                        None
                    } else {
                        match calls[1] {
                            CommandCall::Await(id, a) => if id != cmds[0].1 {
                                None
                            } else {
                                match a {
                                    Err(e) => if calls.len() == 2 {
                                        Some((Err(e), 1))
                                    } else {
                                        None
                                    },
                                    Ok(v) => match spec_chain(
                                        cmds.drop_first(),
                                        calls.skip(2),
                                        Ok(v),
                                    ) {
                                        Some((res, n)) => Some((res, n + 1)),
                                        None => None,
                                    },
                                }
                            },
                            CommandCall::Send(_t, _s) => None,
                        }
                    },
                }
            },
            CommandCall::Await(_id, _a) => None,
        }
    }
}

/// A run's outcome with `k` more commands counted as taken
pub open spec fn taken_more(
    o: Option<(Result<CommandOkView, TncErrorView>, int)>,
    k: int,
) -> Option<(Result<CommandOkView, TncErrorView>, int)> {
    match o {
        Some((res, n)) => Some((res, n + k)),
        None => None,
    }
}

/// The result of a chain with no commands
pub open spec fn spec_no_commands() -> Result<CommandOkView, TncErrorView> {
    Err(TncErrorView::IoError(IoErrorKind::UnexpectedEof, spec_no_commands_message()))
}

/// Message of the error for a chain with no commands
pub open spec fn spec_no_commands_message() -> Seq<char> {
    seq![
        'N', 'o', ' ', 'c', 'o', 'm', 'm', 'a', 'n', 'd', 's', ' ', 'p', 'r', 'o', 'v', 'i', 'd',
        'e', 'd'
    ]
}

/// A list of commands to execute in sequence
pub struct CommandChain<'d, D: Commandable> {
    dest: &'d mut D,
    cmds: VecDeque<(String, CommandID)>,
}

impl<'d, D: Commandable> CommandChain<'d, D> {
    /// The commands queued, oldest first: wire text and verb
    pub closed spec fn spec_cmds(&self) -> Seq<(Seq<char>, CommandID)> {
        self.cmds@.map_values(|c: (String, CommandID)| (c.0@, c.1))
    }

    /// The calls made so far on the destination
    pub closed spec fn spec_dest_calls(&self) -> Seq<CommandCall> {
        self.dest.spec_calls()
    }

    /// A new, empty chain that sends to `dest`
    pub fn new(dest: &'d mut D) -> (r: CommandChain<'d, D>)
        ensures
            r.spec_cmds() == Seq::<(Seq<char>, CommandID)>::empty(),
            r.spec_dest_calls() == old(dest).spec_calls(),
    {
        let r = CommandChain { dest, cmds: VecDeque::with_capacity(16) };
        assert(r.spec_cmds() =~= Seq::<(Seq<char>, CommandID)>::empty());
        r
    }

    /// Queues a command
    fn append<I: CommandArg>(&mut self, command: Command<I>)
        ensures
            final(self).spec_cmds() == old(self).spec_cmds().push(
                (command.spec_text(), command.spec_id()),
            ),
    {
        let ghost old_q = self.cmds@;
        let text = command.to_string();
        let id = *command.command_id();
        self.cmds.push_back((text, id));
        assert(self.cmds@.map_values(|c: (String, CommandID)| (c.0@, c.1)) =~= old_q.map_values(
            |c: (String, CommandID)| (c.0@, c.1),
        ).push((command.spec_text(), command.spec_id())));
    }

    /// Queues `ABORT`: uncleanly abort the connection
    pub fn abort(&mut self) -> (r: &mut Self)
        ensures
            r.spec_cmds() == old(self).spec_cmds().push(
                (spec_command_text(CommandID::ABORT, None), CommandID::ABORT),
            ),
            *final(self) == *final(r),
    {
        self.append(abort());
        self
    }

    /// Queues `ARQBW`: set the ARQ bandwidth, forced or the maximum
    pub fn arqbw(&mut self, bw: u16, forced: bool) -> (r: &mut Self)
        ensures
            r.spec_cmds() == old(self).spec_cmds().push(
                (spec_command_text(CommandID::ARQBW, Some(decimal_text(bw as nat) + spec_bw_mode_text(forced))), CommandID::ARQBW),
            ),
            *final(self) == *final(r),
    {
        self.append(arqbw(bw, forced));
        self
    }

    /// Queues `ARQTIMEOUT`: set the ARQ connection timeout, in seconds
    pub fn arqtimeout(&mut self, timeout: u16) -> (r: &mut Self)
        ensures
            r.spec_cmds() == old(self).spec_cmds().push(
                (spec_command_text(CommandID::ARQTIMEOUT, Some(decimal_text(timeout as nat))), CommandID::ARQTIMEOUT),
            ),
            *final(self) == *final(r),
    {
        self.append(arqtimeout(timeout));
        self
    }

    /// Queues `AUTOBREAK`: enable or disable automatic link turnover
    pub fn autobreak(&mut self, enabled: bool) -> (r: &mut Self)
        ensures
            r.spec_cmds() == old(self).spec_cmds().push(
                (spec_command_text(CommandID::AUTOBREAK, Some(spec_truth_text(enabled))), CommandID::AUTOBREAK),
            ),
            *final(self) == *final(r),
    {
        self.append(autobreak(enabled));
        self
    }

    /// Queues `BUSYBLOCK`: block or allow connections on a busy channel
    pub fn busyblock(&mut self, block: bool) -> (r: &mut Self)
        ensures
            r.spec_cmds() == old(self).spec_cmds().push(
                (spec_command_text(CommandID::BUSYBLOCK, Some(spec_truth_text(block))), CommandID::BUSYBLOCK),
            ),
            *final(self) == *final(r),
    {
        self.append(busyblock(block));
        self
    }

    /// Queues `BUSYDET`: set the busy detector threshold
    pub fn busydet(&mut self, level: u16) -> (r: &mut Self)
        ensures
            r.spec_cmds() == old(self).spec_cmds().push(
                (spec_command_text(CommandID::BUSYDET, Some(decimal_text(level as nat))), CommandID::BUSYDET),
            ),
            *final(self) == *final(r),
    {
        self.append(busydet(level));
        self
    }

    /// Queues `CWID`: send or skip a CW identification after `SENDID`
    pub fn cwid(&mut self, cw: bool) -> (r: &mut Self)
        ensures
            r.spec_cmds() == old(self).spec_cmds().push(
                (spec_command_text(CommandID::CWID, Some(spec_truth_text(cw))), CommandID::CWID),
            ),
            *final(self) == *final(r),
    {
        self.append(cwid(cw));
        self
    }

    /// Queues `DISCONNECT`: start a clean disconnect
    pub fn disconnect(&mut self) -> (r: &mut Self)
        ensures
            r.spec_cmds() == old(self).spec_cmds().push(
                (spec_command_text(CommandID::DISCONNECT, None), CommandID::DISCONNECT),
            ),
            *final(self) == *final(r),
    {
        self.append(disconnect());
        self
    }

    /// Queues `GRIDSQUARE`: set the Maidenhead grid square
    pub fn gridsquare(&mut self, grid: &str) -> (r: &mut Self)
        ensures
            r.spec_cmds() == old(self).spec_cmds().push(
                (spec_command_text(CommandID::GRIDSQUARE, Some(grid@)), CommandID::GRIDSQUARE),
            ),
            *final(self) == *final(r),
    {
        self.append(gridsquare(grid));
        self
    }

    /// Queues `LEADER`: set the leader tone duration, in milliseconds
    pub fn leader(&mut self, duration: u16) -> (r: &mut Self)
        ensures
            r.spec_cmds() == old(self).spec_cmds().push(
                (spec_command_text(CommandID::LEADER, Some(decimal_text(duration as nat))), CommandID::LEADER),
            ),
            *final(self) == *final(r),
    {
        self.append(leader(duration));
        self
    }

    /// Queues `MYAUX`: set the auxiliary callsigns
    pub fn myaux(&mut self, aux: Vec<String>) -> (r: &mut Self)
        ensures
            r.spec_cmds() == old(self).spec_cmds().push(
                (spec_command_text(CommandID::MYAUX, Some(spec_myaux_text(strings_view(aux@)))), CommandID::MYAUX),
            ),
            *final(self) == *final(r),
    {
        self.append(myaux(aux));
        self
    }

    /// Queues `MYCALL`: set this station's callsign
    pub fn mycall(&mut self, callsign: &str) -> (r: &mut Self)
        ensures
            r.spec_cmds() == old(self).spec_cmds().push(
                (spec_command_text(CommandID::MYCALL, Some(callsign@)), CommandID::MYCALL),
            ),
            *final(self) == *final(r),
    {
        self.append(mycall(callsign));
        self
    }

    /// Queues `SENDID`: send an identification frame
    pub fn sendid(&mut self) -> (r: &mut Self)
        ensures
            r.spec_cmds() == old(self).spec_cmds().push(
                (spec_command_text(CommandID::SENDID, None), CommandID::SENDID),
            ),
            *final(self) == *final(r),
    {
        self.append(sendid());
        self
    }

    /// Queues `TWOTONETEST`: send the two-tone calibration signal
    pub fn twotonetest(&mut self) -> (r: &mut Self)
        ensures
            r.spec_cmds() == old(self).spec_cmds().push(
                (spec_command_text(CommandID::TWOTONETEST, None), CommandID::TWOTONETEST),
            ),
            *final(self) == *final(r),
    {
        self.append(twotonetest());
        self
    }

    /// Queues `VERSION`: ask for the TNC software version
    pub fn version(&mut self) -> (r: &mut Self)
        ensures
            r.spec_cmds() == old(self).spec_cmds().push(
                (spec_command_text(CommandID::VERSION, None), CommandID::VERSION),
            ),
            *final(self) == *final(r),
    {
        self.append(version());
        self
    }

    /// Sends the queued commands in order, awaiting the result of each
    /// before sending the next, and returns the result of the last. The
    /// first failure stops the chain and is returned; the commands after
    /// it stay queued. With no commands queued, nothing is sent and the
    /// result is an error.
    pub fn send(&mut self) -> (r: TncResult<CommandOk>)
        ensures
            ({
                let before = old(self).spec_dest_calls();
                let after = final(self).spec_dest_calls();
                &&& before.len() <= after.len()
                &&& after.take(before.len() as int) == before
                &&& spec_chain(old(self).spec_cmds(), after.skip(before.len() as int), spec_no_commands())
                    matches Some((res, k)) && res == reply_view(r) && final(self).spec_cmds() == old(
                    self,
                ).spec_cmds().skip(k)
            }),
            old(self).spec_cmds().len() == 0 ==> (r matches Err(TncError::IoError(e)) && e.kind
                == IoErrorKind::UnexpectedEof && e.message@ == spec_no_commands_message())
                && final(self).spec_dest_calls() == old(self).spec_dest_calls(),
    {
        proof {
            reveal_strlit("No commands provided");
        }
        let ghost start = self.spec_cmds();
        let ghost before = self.spec_dest_calls();
        let mut last: TncResult<CommandOk> = Err(
            TncError::IoError(
                IoError {
                    kind: IoErrorKind::UnexpectedEof,
                    message: "No commands provided".to_owned(),
                },
            ),
        );
        let ghost mut k: int = 0;
        proof {
            assert(last matches Err(TncError::IoError(e)) && e.message@ == spec_no_commands_message());
            assert(reply_view(last) == spec_no_commands());
            assert(start.skip(0) =~= start);
            assert(before.skip(before.len() as int) =~= Seq::<CommandCall>::empty());
            assert(before.take(before.len() as int) =~= before);
            assert forall|f: Seq<CommandCall>|
                #![trigger spec_chain(start.skip(k), f, reply_view(last))]
                spec_chain(start, before.skip(before.len() as int) + f, spec_no_commands())
                    == taken_more(spec_chain(start.skip(k), f, reply_view(last)), k) by {
                assert(before.skip(before.len() as int) + f =~= f);
                match spec_chain(start, f, spec_no_commands()) {
                    Some((res, n)) => {},
                    None => {},
                }
            }
        }
        while self.cmds.len() > 0
            invariant
                start == old(self).spec_cmds(),
                before == old(self).spec_dest_calls(),
                0 <= k <= start.len(),
                self.spec_cmds() == start.skip(k),
                before.len() <= self.spec_dest_calls().len(),
                self.spec_dest_calls().take(before.len() as int) == before,
                k == 0 ==> reply_view(last) == spec_no_commands() && self.spec_dest_calls()
                    == before,
                forall|f: Seq<CommandCall>|
                    #![trigger spec_chain(start.skip(k), f, reply_view(last))]
                    spec_chain(
                        start,
                        self.spec_dest_calls().skip(before.len() as int) + f,
                        spec_no_commands(),
                    ) == taken_more(spec_chain(start.skip(k), f, reply_view(last)), k),
            decreases self.spec_cmds().len(),
        {
            let ghost q = self.cmds@;
            let ghost j = k;
            let ghost calls0 = self.spec_dest_calls();
            let ghost last0 = reply_view(last);
            let cm = self.cmds.pop_front();
            if let Some((text, id)) = cm {
                proof {
                    assert(self.cmds@.map_values(|c: (String, CommandID)| (c.0@, c.1))
                        =~= q.map_values(|c: (String, CommandID)| (c.0@, c.1)).drop_first());
                    assert(start.skip(j).drop_first() =~= start.skip(j + 1));
                    assert(start.skip(j)[0] == (text@, id));
                    k = k + 1;
                }
                let sent = self.dest.send_raw_command(text);
                let ghost calls1 = self.spec_dest_calls();
                proof {
                    assert(calls1.take(before.len() as int) =~= before);
                }
                match sent {
                    Ok(()) => {},
                    Err(e) => {
                        proof {
                            let f = seq![CommandCall::Send(text@, Err(e@))];
                            assert(calls1.skip(before.len() as int) =~= calls0.skip(
                                before.len() as int,
                            ) + f);
                            assert(spec_chain(start.skip(j), f, last0) == Some(
                                (Err::<CommandOkView, TncErrorView>(e@), 1int),
                            ));
                        }
                        return Err(e);
                    },
                }
                let reply = self.dest.await_command_result(id);
                let ghost calls2 = self.spec_dest_calls();
                proof {
                    assert(calls2.take(before.len() as int) =~= before);
                }
                match reply {
                    Ok(res) => {
                        proof {
                            let v = reply_view(Ok(res));
                            assert forall|f: Seq<CommandCall>|
                                #![trigger spec_chain(start.skip(k), f, v)]
                                spec_chain(
                                    start,
                                    calls2.skip(before.len() as int) + f,
                                    spec_no_commands(),
                                ) == taken_more(spec_chain(start.skip(k), f, v), k) by {
                                let g = seq![
                                    CommandCall::Send(text@, Ok(())),
                                    CommandCall::Await(id, v),
                                ] + f;
                                assert(calls2.skip(before.len() as int) + f =~= calls0.skip(
                                    before.len() as int,
                                ) + g);
                                assert(g.skip(2) =~= f);
                                assert(g[0] == CommandCall::Send(text@, Ok(())));
                                assert(g[1] == CommandCall::Await(id, v));
                                assert(spec_chain(start.skip(j), g, last0) == taken_more(
                                    spec_chain(start.skip(j).drop_first(), g.skip(2), v),
                                    1,
                                ));
                            }
                        }
                        last = Ok(res);
                    },
                    Err(e) => {
                        proof {
                            let f = seq![
                                CommandCall::Send(text@, Ok(())),
                                CommandCall::Await(id, Err(e@)),
                            ];
                            assert(calls2.skip(before.len() as int) =~= calls0.skip(
                                before.len() as int,
                            ) + f);
                            assert(f[0] == CommandCall::Send(text@, Ok(())));
                            assert(f[1] == CommandCall::Await(id, Err(e@)));
                            assert(spec_chain(start.skip(j), f, last0) == Some(
                                (Err::<CommandOkView, TncErrorView>(e@), 1int),
                            ));
                        }
                        return Err(e);
                    },
                }
            }
        }
        proof {
            assert(start.skip(k) =~= Seq::<(Seq<char>, CommandID)>::empty());
            let f = Seq::<CommandCall>::empty();
            assert(self.spec_dest_calls().skip(before.len() as int) + f =~= self.spec_dest_calls().skip(
                before.len() as int,
            ));
            assert(spec_chain(start.skip(k), f, reply_view(last)) == Some((reply_view(last), 0int)));
        }
        last
    }
}

} // verus!
