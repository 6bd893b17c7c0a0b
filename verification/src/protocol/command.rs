//! TNC Commands
//!
//! All commands are sent from the host to the TNC.
//! Commands are accepted when they are echoed back
//! and rejected by `FAULT` messages.
use vstd::prelude::*;

use super::constants::{spec_truth_text, truth_str, CommandID, ProtocolMode};
use crate::text::{decimal_string, decimal_text};

verus! {

/// An argument of a TNC command, with its wire text
pub trait CommandArg {
    /// The text of this argument on the wire
    spec fn spec_text(&self) -> Seq<char>;

    /// The text of this argument on the wire
    fn text(&self) -> (s: String)
        ensures
            s@ == self.spec_text(),
    ;
}

/// No arguments
pub struct NoArg {}

/// A single boolean argument
pub struct BoolArg {
    /// The value
    pub arg: bool,
}

/// Set ARQ bandwidth negotiation
pub struct ArqBw {
    /// Bandwidth, in Hz
    pub bw: u16,
    /// Use only this bandwidth
    pub forced: bool,
}

/// Make an outgoing ARQ connection attempt
pub struct ArqCall {
    /// Callsign to call
    pub target: String,
    /// Repeat count
    pub attempts: u16,
}

/// Set auxiliary callsign(s)
pub struct MyAux {
    /// Auxiliary callsigns
    pub aux: Vec<String>,
}

/// `MAX` or `FORCED`, the bandwidth negotiation mode
pub open spec fn spec_bw_mode_text(forced: bool) -> Seq<char> {
    if forced {
        seq!['F', 'O', 'R', 'C', 'E', 'D']
    } else {
        seq!['M', 'A', 'X']
    }
}

/// Strings joined with commas between them
pub open spec fn spec_join_commas(v: Seq<Seq<char>>) -> Seq<char>
    decreases v.len(),
{
    if v.len() == 0 {
        seq![]
    } else if v.len() == 1 {
        v[0]
    } else {
        spec_join_commas(v.drop_last()) + seq![','] + v.last()
    }
}

/// The texts of a list of strings
pub open spec fn strings_view(v: Seq<String>) -> Seq<Seq<char>> {
    v.map_values(|s: String| s@)
}

/// Text of the `MYAUX` argument: `X` for none, otherwise the callsigns
/// joined by commas
pub open spec fn spec_myaux_text(aux: Seq<Seq<char>>) -> Seq<char> {
    if aux.len() == 0 {
        seq!['X']
    } else {
        spec_join_commas(aux)
    }
}

impl CommandArg for NoArg {
    open spec fn spec_text(&self) -> Seq<char> {
        seq![]
    }

    fn text(&self) -> (s: String) {
        String::new()
    }
}

impl CommandArg for BoolArg {
    open spec fn spec_text(&self) -> Seq<char> {
        spec_truth_text(self.arg)
    }

    fn text(&self) -> (s: String) {
        truth_str(self.arg).to_owned()
    }
}

impl CommandArg for ArqBw {
    open spec fn spec_text(&self) -> Seq<char> {
        decimal_text(self.bw as nat) + spec_bw_mode_text(self.forced)
    }

    fn text(&self) -> (s: String) {
        proof {
            reveal_strlit("MAX");
            reveal_strlit("FORCED");
        }
        let mut s = decimal_string(self.bw as u64);
        if self.forced {
            s.append("FORCED");
        } else {
            s.append("MAX");
        }
        s
    }
}

impl CommandArg for ArqCall {
    open spec fn spec_text(&self) -> Seq<char> {
        self.target@ + seq![' '] + decimal_text(self.attempts as nat)
    }

    fn text(&self) -> (s: String) {
        proof {
            reveal_strlit(" ");
        }
        let mut s = self.target.clone();
        s.append(" ");
        let n = decimal_string(self.attempts as u64);
        s.append(n.as_str());
        s
    }
}

impl CommandArg for MyAux {
    open spec fn spec_text(&self) -> Seq<char> {
        spec_myaux_text(strings_view(self.aux@))
    }

    fn text(&self) -> (s: String) {
        proof {
            reveal_strlit("X");
            reveal_strlit(",");
        }
        if self.aux.len() == 0 {
            return "X".to_owned();
        }
        let ghost views = strings_view(self.aux@);
        let mut s = String::new();
        let mut i: usize = 0;
        while i < self.aux.len()
            invariant
                views == strings_view(self.aux@),
                0 < self.aux@.len(),
                i <= self.aux@.len(),
                s@ == spec_join_commas(views.take(i as int)),
            decreases self.aux@.len() - i,
        {
            assert(views.take(i + 1).drop_last() =~= views.take(i as int));
            assert(views[i as int] == self.aux@[i as int]@);
            assert(views.take(i + 1).last() == views[i as int]);
            assert(views.take(i + 1).len() == i + 1);
            proof {
                reveal_strlit(",");
            }
            if i != 0 {
                s.append(",");
            }
            s.append(self.aux[i].as_str());
            i = i + 1;
        }
        assert(views.take(self.aux@.len() as int) =~= views);
        s
    }
}

impl CommandArg for u16 {
    open spec fn spec_text(&self) -> Seq<char> {
        decimal_text(*self as nat)
    }

    fn text(&self) -> (s: String) {
        decimal_string(*self as u64)
    }
}

impl CommandArg for String {
    open spec fn spec_text(&self) -> Seq<char> {
        self@
    }

    fn text(&self) -> (s: String) {
        self.clone()
    }
}

impl CommandArg for ProtocolMode {
    open spec fn spec_text(&self) -> Seq<char> {
        self.spec_name()
    }

    fn text(&self) -> (s: String) {
        self.to_string()
    }
}

/// The wire text of a command: its verb, then a space and the argument
/// text if there is an argument, then a carriage return
pub open spec fn spec_command_text(id: CommandID, arg: Option<Seq<char>>) -> Seq<char> {
    match arg {
        None => id.spec_name() + seq!['\r'],
        Some(a) => id.spec_name() + seq![' '] + a + seq!['\r'],
    }
}

/// An arbitrary command sent to the TNC
pub struct Command<I: CommandArg> {
    id: CommandID,
    args: Option<I>,
}

impl<I: CommandArg> Command<I> {
    /// The verb of this command
    pub closed spec fn spec_id(&self) -> CommandID {
        self.id
    }

    /// The text of this command's argument, if it has one
    pub closed spec fn spec_arg_text(&self) -> Option<Seq<char>> {
        match self.args {
            Some(a) => Some(a.spec_text()),
            None => None,
        }
    }

    /// The wire text of this command
    pub open spec fn spec_text(&self) -> Seq<char> {
        spec_command_text(self.spec_id(), self.spec_arg_text())
    }

    /// Command identifier
    pub fn command_id(&self) -> (r: &CommandID)
        ensures
            *r == self.spec_id(),
    {
        &self.id
    }

    /// The wire text of this command, ending in a carriage return
    pub fn to_string(&self) -> (s: String)
        ensures
            s@ == self.spec_text(),
    {
        proof {
            reveal_strlit("\r");
            reveal_strlit(" ");
        }
        let mut s = self.id.to_string();
        match &self.args {
            None => {},
            Some(x) => {
                s.append(" ");
                let a = x.text();
                s.append(a.as_str());
            },
        }
        s.append("\r");
        s
    }
}

/// Uncleanly abort the connection
///
/// Immediately aborts an ARQ Connection (dirty disconnect) or a
/// FEC Send session.
///
/// You should use `disconnect()` instead!
pub fn abort() -> (r: Command<NoArg>)
    ensures
        r.spec_id() == CommandID::ABORT,
        r.spec_arg_text() is None,
{
    Command { id: CommandID::ABORT, args: None }
}

/// Set ARQ bandwidth
///
/// Parameters
/// - `bw`: Bandwidth, in Hz. Must be supported by the TNC
/// - `forced`: If true, use only this bandwidth and do not allow
///   negotiations.
pub fn arqbw(bw: u16, forced: bool) -> (r: Command<ArqBw>)
    ensures
        r.spec_id() == CommandID::ARQBW,
        r.spec_arg_text() == Some(decimal_text(bw as nat) + spec_bw_mode_text(forced)),
{
    Command { id: CommandID::ARQBW, args: Some(ArqBw { bw, forced }) }
}

/// Make a new outgoing ARQ connection attempt
///
/// Parameters
/// - `target`: Call sign must be a legitimate call sign,
///   a tactical callsign, or "`CQ`."
/// - `attempts`: Repeat count, 2 -- 15.
pub fn arqcall(target: &str, attempts: u16) -> (r: Command<ArqCall>)
    ensures
        r.spec_id() == CommandID::ARQCALL,
        r.spec_arg_text() == Some(target@ + seq![' '] + decimal_text(attempts as nat)),
{
    Command {
        id: CommandID::ARQCALL,
        args: Some(ArqCall { target: target.to_owned(), attempts }),
    }
}

/// Set ARQ connection timeout
///
/// Parameters
/// - `timeout`: ARQ timeout period, in seconds (30 -- 600)
pub fn arqtimeout(timeout: u16) -> (r: Command<u16>)
    ensures
        r.spec_id() == CommandID::ARQTIMEOUT,
        r.spec_arg_text() == Some(decimal_text(timeout as nat)),
{
    Command { id: CommandID::ARQTIMEOUT, args: Some(timeout) }
}

/// Enable or disable autobreak
///
/// Parameters
/// - `enabled`: Enable automatic breaks
pub fn autobreak(enabled: bool) -> (r: Command<BoolArg>)
    ensures
        r.spec_id() == CommandID::AUTOBREAK,
        r.spec_arg_text() == Some(spec_truth_text(enabled)),
{
    Command { id: CommandID::AUTOBREAK, args: Some(BoolArg { arg: enabled }) }
}

/// Block connections on busy channels
///
/// Parameters
/// - `block`: if true, enable busy channel lockout / blocking
pub fn busyblock(block: bool) -> (r: Command<BoolArg>)
    ensures
        r.spec_id() == CommandID::BUSYBLOCK,
        r.spec_arg_text() == Some(spec_truth_text(block)),
{
    Command { id: CommandID::BUSYBLOCK, args: Some(BoolArg { arg: block }) }
}

/// Busy detector threshold value
///
/// Parameters
/// - `level`: Busy detector threshold (0 -- 10). A value of 0 will disable
///   the busy detector (not recommended).
pub fn busydet(level: u16) -> (r: Command<u16>)
    ensures
        r.spec_id() == CommandID::BUSYDET,
        r.spec_arg_text() == Some(decimal_text(level as nat)),
{
    Command { id: CommandID::BUSYDET, args: Some(level) }
}

/// Send CW after ID frames
///
/// Parameters
/// - `cw`: Send CW ID with ARDOP digital ID frames
pub fn cwid(cw: bool) -> (r: Command<BoolArg>)
    ensures
        r.spec_id() == CommandID::CWID,
        r.spec_arg_text() == Some(spec_truth_text(cw)),
{
    Command { id: CommandID::CWID, args: Some(BoolArg { arg: cw }) }
}

/// Start disconnect
///
/// Starts an orderly tear-down of an ARQ connection.
pub fn disconnect() -> (r: Command<NoArg>)
    ensures
        r.spec_id() == CommandID::DISCONNECT,
        r.spec_arg_text() is None,
{
    Command { id: CommandID::DISCONNECT, args: None }
}

/// Set your station's grid square
///
/// Parameters
/// - `grid`: Your grid square (4, 6, or 8-characters).
pub fn gridsquare(grid: &str) -> (r: Command<String>)
    ensures
        r.spec_id() == CommandID::GRIDSQUARE,
        r.spec_arg_text() == Some(grid@),
{
    Command { id: CommandID::GRIDSQUARE, args: Some(grid.to_owned()) }
}

/// Clears any pending queued values in the TNC interface
///
/// All new TCP connections to the TNC should start with this command.
pub fn initialize() -> (r: Command<NoArg>)
    ensures
        r.spec_id() == CommandID::INITIALIZE,
        r.spec_arg_text() is None,
{
    Command { id: CommandID::INITIALIZE, args: None }
}

/// Leader tone duration
///
/// Parameters
/// - `duration`: Leader tone duration, milliseconds
pub fn leader(duration: u16) -> (r: Command<u16>)
    ensures
        r.spec_id() == CommandID::LEADER,
        r.spec_arg_text() == Some(decimal_text(duration as nat)),
{
    Command { id: CommandID::LEADER, args: Some(duration) }
}

/// Listen for incoming connections
///
/// Parameters
/// - `enabled`: Enable listening
pub fn listen(enabled: bool) -> (r: Command<BoolArg>)
    ensures
        r.spec_id() == CommandID::LISTEN,
        r.spec_arg_text() == Some(spec_truth_text(enabled)),
{
    Command { id: CommandID::LISTEN, args: Some(BoolArg { arg: enabled }) }
}

/// Set your station's auxiliary callsigns
///
/// Parameters:
/// - `aux`: Vector of auxiliary callsigns. If empty, all aux callsigns
///   will be removed.
pub fn myaux(aux: Vec<String>) -> (r: Command<MyAux>)
    ensures
        r.spec_id() == CommandID::MYAUX,
        r.spec_arg_text() == Some(spec_myaux_text(strings_view(aux@))),
{
    Command { id: CommandID::MYAUX, args: Some(MyAux { aux }) }
}

/// Set your station's callsign
///
/// Parameters
/// - `callsign`: Assigned, proper callsign for this station
pub fn mycall(callsign: &str) -> (r: Command<String>)
    ensures
        r.spec_id() == CommandID::MYCALL,
        r.spec_arg_text() == Some(callsign@),
{
    Command { id: CommandID::MYCALL, args: Some(callsign.to_owned()) }
}

/// Send a ping request
///
/// Parameters
/// - `target`: Target callsign, which may be a tactical call.
/// - `attempts`: Repeat count, 2 -- 15.
pub fn ping(target: &str, attempts: u16) -> (r: Command<ArqCall>)
    ensures
        r.spec_id() == CommandID::PING,
        r.spec_arg_text() == Some(target@ + seq![' '] + decimal_text(attempts as nat)),
{
    Command { id: CommandID::PING, args: Some(ArqCall { target: target.to_owned(), attempts }) }
}

/// Set protocol mode
///
/// Parameters
/// - `mode`: `FEC` or `ARQ`
pub fn protocolmode(mode: ProtocolMode) -> (r: Command<ProtocolMode>)
    ensures
        r.spec_id() == CommandID::PROTOCOLMODE,
        r.spec_arg_text() == Some(mode.spec_name()),
{
    Command { id: CommandID::PROTOCOLMODE, args: Some(mode) }
}

/// Send ID frame
///
/// Sends an ID frame immediately, followed by a CW ID (if `CWID` is set)
pub fn sendid() -> (r: Command<NoArg>)
    ensures
        r.spec_id() == CommandID::SENDID,
        r.spec_arg_text() is None,
{
    Command { id: CommandID::SENDID, args: None }
}

/// Start a two-tone test
///
/// Send 5 second two-tone burst, at the normal leader amplitude.
pub fn twotonetest() -> (r: Command<NoArg>)
    ensures
        r.spec_id() == CommandID::TWOTONETEST,
        r.spec_arg_text() is None,
{
    Command { id: CommandID::TWOTONETEST, args: None }
}

/// Query version
///
/// Query the software version of the TNC.
pub fn version() -> (r: Command<NoArg>)
    ensures
        r.spec_id() == CommandID::VERSION,
        r.spec_arg_text() is None,
{
    Command { id: CommandID::VERSION, args: None }
}

} // verus!
