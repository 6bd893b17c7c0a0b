//! Protocol constants: line delimiter, truth values, protocol modes and
//! command verbs, with their protocol names.
use vstd::prelude::*;

use crate::text::{chars_eq, chars_of};

verus! {

/// Line delimiter in ARDOP control messages
pub const NEWLINE: u8 = 13u8;

/// Line delimiter in ARDOP control messages, as a character
pub const NEWLINE_CHAR: char = '\r';

/// TNC "true" value
pub open spec fn spec_true_text() -> Seq<char> {
    seq!['T', 'R', 'U', 'E']
}

/// TNC "false" value
pub open spec fn spec_false_text() -> Seq<char> {
    seq!['F', 'A', 'L', 'S', 'E']
}

/// The TNC text for a truth value
pub open spec fn spec_truth_text(v: bool) -> Seq<char> {
    if v {
        spec_true_text()
    } else {
        spec_false_text()
    }
}

/// Map a truth value to a TNC string
pub fn truth_str(v: bool) -> (s: &'static str)
    ensures
        s@ == spec_truth_text(v),
{
    proof {
        reveal_strlit("TRUE");
        reveal_strlit("FALSE");
    }
    match v {
        true => "TRUE",
        false => "FALSE",
    }
}

/// Error raised when a string names no value of an enumeration
#[derive(Debug, Clone, Copy, PartialEq, Eq)]
pub struct ParseEnumError {}

/// ARDOP protocol modes
#[derive(Debug, Clone, Copy, PartialEq, Eq, Structural)]
pub enum ProtocolMode {
    /// Connectionless, forward error-corrected packets
    FEC,
    /// Reliable, connection-oriented protocol with retransmits
    ARQ,
}

impl ProtocolMode {
    /// The protocol name of this value
    pub open spec fn spec_name(self) -> Seq<char> {
        match self {
            ProtocolMode::FEC => seq!['F', 'E', 'C'],
            ProtocolMode::ARQ => seq!['A', 'R', 'Q'],
        }
    }

    /// The value whose protocol name is exactly `s`, if any
    pub open spec fn spec_from_name(s: Seq<char>) -> Option<ProtocolMode> {
        if s == seq!['F', 'E', 'C'] {
            Some(ProtocolMode::FEC)
        } else if s == seq!['A', 'R', 'Q'] {
            Some(ProtocolMode::ARQ)
        } else {
            None
        }
    }

    /// The protocol name of this value
    pub fn as_str(&self) -> (s: &'static str)
        ensures
            s@ == self.spec_name(),
    {
        match self {
            ProtocolMode::FEC => {
                proof {
                    reveal_strlit("FEC");
                }
                "FEC"
            },
            ProtocolMode::ARQ => {
                proof {
                    reveal_strlit("ARQ");
                }
                "ARQ"
            },
        }
    }

    /// The protocol name of this value, as an owned string
    pub fn to_string(&self) -> (s: String)
        ensures
            s@ == self.spec_name(),
    {
        self.as_str().to_owned()
    }

    /// The value whose protocol name is exactly `s`, if any
    pub fn from_chars(s: &[char]) -> (r: Option<ProtocolMode>)
        ensures
            r == ProtocolMode::spec_from_name(s@),
            r matches Some(x) ==> x.spec_name() == s@,
            r is None ==> forall|x: ProtocolMode| x.spec_name() != s@,
    {
        if chars_eq(s, &['F', 'E', 'C']) {
            return Some(ProtocolMode::FEC);
        }
        if chars_eq(s, &['A', 'R', 'Q']) {
            return Some(ProtocolMode::ARQ);
        }
        None
    }

    /// The value whose protocol name is exactly `s`, if any
    pub fn from_name(s: &str) -> (r: Option<ProtocolMode>)
        ensures
            r == ProtocolMode::spec_from_name(s@),
            r matches Some(x) ==> x.spec_name() == s@,
            r is None ==> forall|x: ProtocolMode| x.spec_name() != s@,
    {
        let v = chars_of(s);
        Self::from_chars(v.as_slice())
    }
}

impl std::str::FromStr for ProtocolMode {
    type Err = ParseEnumError;

    fn from_str(s: &str) -> (r: Result<ProtocolMode, ParseEnumError>)
        ensures
            match ProtocolMode::spec_from_name(s@) {
                Some(x) => r == Ok::<ProtocolMode, ParseEnumError>(x),
                None => r is Err,
            },
    {
        match Self::from_name(s) {
            Some(x) => Ok(x),
            None => Err(ParseEnumError {}),
        }
    }
}

/// ARDOP command verbs
#[derive(Debug, Clone, Copy, PartialEq, Eq, Structural)]
pub enum CommandID {
    /// Unclean disconnect
    ABORT,
    /// Attempt link turnover when remote buffer empties
    AUTOBREAK,
    /// Report buffer status
    BUFFER,
    /// Set ARQ call bandwidth
    ARQBW,
    /// Set ARQ timeout
    ARQTIMEOUT,
    /// Attempt ARQ connection
    ARQCALL,
    /// Reports that the RF channel is busy
    BUSY,
    /// Block connection requests when the channel has been busy
    BUSYBLOCK,
    /// Set busy detector threshold (0 -- 10)
    BUSYDET,
    /// Reports successful connection attempt
    CONNECTED,
    /// Send CW ID after a SENDID
    CWID,
    /// Initiate clean disconnect
    DISCONNECT,
    /// TNC command error
    FAULT,
    /// Set Maidenhead grid square
    GRIDSQUARE,
    /// Clear TNC states
    INITIALIZE,
    /// Set leader tone duration (120 -- 2500)
    LEADER,
    /// Enable/disable listening for incoming
    LISTEN,
    /// Reports transitioning to a new State
    NEWSTATE,
    /// Sets my tactical callsigns for listening
    MYAUX,
    /// Sets my callsign and SSID
    MYCALL,
    /// Send a ping request
    PING,
    /// Change the ProtocolMode
    PROTOCOLMODE,
    /// Reports connection rejected by peer
    REJECTED,
    /// Transmit an ID/beacon frame now
    SENDID,
    /// Reports an incoming call directed at this callsign (MYCALL or one of MYAUX)
    TARGET,
    /// Perform a two-tone test for audio calibration
    TWOTONETEST,
    /// Requests and reports TNC software version
    VERSION,
}

impl CommandID {
    /// The protocol name of this value
    pub open spec fn spec_name(self) -> Seq<char> {
        match self {
            CommandID::ABORT => seq!['A', 'B', 'O', 'R', 'T'],
            CommandID::AUTOBREAK => seq!['A', 'U', 'T', 'O', 'B', 'R', 'E', 'A', 'K'],
            CommandID::BUFFER => seq!['B', 'U', 'F', 'F', 'E', 'R'],
            CommandID::ARQBW => seq!['A', 'R', 'Q', 'B', 'W'],
            CommandID::ARQTIMEOUT => seq!['A', 'R', 'Q', 'T', 'I', 'M', 'E', 'O', 'U', 'T'],
            CommandID::ARQCALL => seq!['A', 'R', 'Q', 'C', 'A', 'L', 'L'],
            CommandID::BUSY => seq!['B', 'U', 'S', 'Y'],
            CommandID::BUSYBLOCK => seq!['B', 'U', 'S', 'Y', 'B', 'L', 'O', 'C', 'K'],
            CommandID::BUSYDET => seq!['B', 'U', 'S', 'Y', 'D', 'E', 'T'],
            CommandID::CONNECTED => seq!['C', 'O', 'N', 'N', 'E', 'C', 'T', 'E', 'D'],
            CommandID::CWID => seq!['C', 'W', 'I', 'D'],
            CommandID::DISCONNECT => seq!['D', 'I', 'S', 'C', 'O', 'N', 'N', 'E', 'C', 'T'],
            CommandID::FAULT => seq!['F', 'A', 'U', 'L', 'T'],
            CommandID::GRIDSQUARE => seq!['G', 'R', 'I', 'D', 'S', 'Q', 'U', 'A', 'R', 'E'],
            CommandID::INITIALIZE => seq!['I', 'N', 'I', 'T', 'I', 'A', 'L', 'I', 'Z', 'E'],
            CommandID::LEADER => seq!['L', 'E', 'A', 'D', 'E', 'R'],
            CommandID::LISTEN => seq!['L', 'I', 'S', 'T', 'E', 'N'],
            CommandID::NEWSTATE => seq!['N', 'E', 'W', 'S', 'T', 'A', 'T', 'E'],
            CommandID::MYAUX => seq!['M', 'Y', 'A', 'U', 'X'],
            CommandID::MYCALL => seq!['M', 'Y', 'C', 'A', 'L', 'L'],
            CommandID::PING => seq!['P', 'I', 'N', 'G'],
            CommandID::PROTOCOLMODE => seq!['P', 'R', 'O', 'T', 'O', 'C', 'O', 'L', 'M', 'O', 'D', 'E'],
            CommandID::REJECTED => seq!['R', 'E', 'J', 'E', 'C', 'T', 'E', 'D'],
            CommandID::SENDID => seq!['S', 'E', 'N', 'D', 'I', 'D'],
            CommandID::TARGET => seq!['T', 'A', 'R', 'G', 'E', 'T'],
            CommandID::TWOTONETEST => seq!['T', 'W', 'O', 'T', 'O', 'N', 'E', 'T', 'E', 'S', 'T'],
            CommandID::VERSION => seq!['V', 'E', 'R', 'S', 'I', 'O', 'N'],
        }
    }

    /// The value whose protocol name is exactly `s`, if any
    pub open spec fn spec_from_name(s: Seq<char>) -> Option<CommandID> {
        if s == seq!['A', 'B', 'O', 'R', 'T'] {
            Some(CommandID::ABORT)
        } else if s == seq!['A', 'U', 'T', 'O', 'B', 'R', 'E', 'A', 'K'] {
            Some(CommandID::AUTOBREAK)
        } else if s == seq!['B', 'U', 'F', 'F', 'E', 'R'] {
            Some(CommandID::BUFFER)
        } else if s == seq!['A', 'R', 'Q', 'B', 'W'] {
            Some(CommandID::ARQBW)
        } else if s == seq!['A', 'R', 'Q', 'T', 'I', 'M', 'E', 'O', 'U', 'T'] {
            Some(CommandID::ARQTIMEOUT)
        } else if s == seq!['A', 'R', 'Q', 'C', 'A', 'L', 'L'] {
            Some(CommandID::ARQCALL)
        } else if s == seq!['B', 'U', 'S', 'Y'] {
            Some(CommandID::BUSY)
        } else if s == seq!['B', 'U', 'S', 'Y', 'B', 'L', 'O', 'C', 'K'] {
            Some(CommandID::BUSYBLOCK)
        } else if s == seq!['B', 'U', 'S', 'Y', 'D', 'E', 'T'] {
            Some(CommandID::BUSYDET)
        } else if s == seq!['C', 'O', 'N', 'N', 'E', 'C', 'T', 'E', 'D'] {
            Some(CommandID::CONNECTED)
        } else if s == seq!['C', 'W', 'I', 'D'] {
            Some(CommandID::CWID)
        } else if s == seq!['D', 'I', 'S', 'C', 'O', 'N', 'N', 'E', 'C', 'T'] {
            Some(CommandID::DISCONNECT)
        } else if s == seq!['F', 'A', 'U', 'L', 'T'] {
            Some(CommandID::FAULT)
        } else if s == seq!['G', 'R', 'I', 'D', 'S', 'Q', 'U', 'A', 'R', 'E'] {
            Some(CommandID::GRIDSQUARE)
        } else if s == seq!['I', 'N', 'I', 'T', 'I', 'A', 'L', 'I', 'Z', 'E'] {
            Some(CommandID::INITIALIZE)
        } else if s == seq!['L', 'E', 'A', 'D', 'E', 'R'] {
            Some(CommandID::LEADER)
        } else if s == seq!['L', 'I', 'S', 'T', 'E', 'N'] {
            Some(CommandID::LISTEN)
        } else if s == seq!['N', 'E', 'W', 'S', 'T', 'A', 'T', 'E'] {
            Some(CommandID::NEWSTATE)
        } else if s == seq!['M', 'Y', 'A', 'U', 'X'] {
            Some(CommandID::MYAUX)
        } else if s == seq!['M', 'Y', 'C', 'A', 'L', 'L'] {
            Some(CommandID::MYCALL)
        } else if s == seq!['P', 'I', 'N', 'G'] {
            Some(CommandID::PING)
        } else if s == seq!['P', 'R', 'O', 'T', 'O', 'C', 'O', 'L', 'M', 'O', 'D', 'E'] {
            Some(CommandID::PROTOCOLMODE)
        } else if s == seq!['R', 'E', 'J', 'E', 'C', 'T', 'E', 'D'] {
            Some(CommandID::REJECTED)
        } else if s == seq!['S', 'E', 'N', 'D', 'I', 'D'] {
            Some(CommandID::SENDID)
        } else if s == seq!['T', 'A', 'R', 'G', 'E', 'T'] {
            Some(CommandID::TARGET)
        } else if s == seq!['T', 'W', 'O', 'T', 'O', 'N', 'E', 'T', 'E', 'S', 'T'] {
            Some(CommandID::TWOTONETEST)
        } else if s == seq!['V', 'E', 'R', 'S', 'I', 'O', 'N'] {
            Some(CommandID::VERSION)
        } else {
            None
        }
    }

    /// The protocol name of this value
    pub fn as_str(&self) -> (s: &'static str)
        ensures
            s@ == self.spec_name(),
    {
        match self {
            CommandID::ABORT => {
                proof {
                    reveal_strlit("ABORT");
                }
                "ABORT"
            },
            CommandID::AUTOBREAK => {
                proof {
                    reveal_strlit("AUTOBREAK");
                }
                "AUTOBREAK"
            },
            CommandID::BUFFER => {
                proof {
                    reveal_strlit("BUFFER");
                }
                "BUFFER"
            },
            CommandID::ARQBW => {
                proof {
                    reveal_strlit("ARQBW");
                }
                "ARQBW"
            },
            CommandID::ARQTIMEOUT => {
                proof {
                    reveal_strlit("ARQTIMEOUT");
                }
                "ARQTIMEOUT"
            },
            CommandID::ARQCALL => {
                proof {
                    reveal_strlit("ARQCALL");
                }
                "ARQCALL"
            },
            CommandID::BUSY => {
                proof {
                    reveal_strlit("BUSY");
                }
                "BUSY"
            },
            CommandID::BUSYBLOCK => {
                proof {
                    reveal_strlit("BUSYBLOCK");
                }
                "BUSYBLOCK"
            },
            CommandID::BUSYDET => {
                proof {
                    reveal_strlit("BUSYDET");
                }
                "BUSYDET"
            },
            CommandID::CONNECTED => {
                proof {
                    reveal_strlit("CONNECTED");
                }
                "CONNECTED"
            },
            CommandID::CWID => {
                proof {
                    reveal_strlit("CWID");
                }
                "CWID"
            },
            CommandID::DISCONNECT => {
                proof {
                    reveal_strlit("DISCONNECT");
                }
                "DISCONNECT"
            },
            CommandID::FAULT => {
                proof {
                    reveal_strlit("FAULT");
                }
                "FAULT"
            },
            CommandID::GRIDSQUARE => {
                proof {
                    reveal_strlit("GRIDSQUARE");
                }
                "GRIDSQUARE"
            },
            CommandID::INITIALIZE => {
                proof {
                    reveal_strlit("INITIALIZE");
                }
                "INITIALIZE"
            },
            CommandID::LEADER => {
                proof {
                    reveal_strlit("LEADER");
                }
                "LEADER"
            },
            CommandID::LISTEN => {
                proof {
                    reveal_strlit("LISTEN");
                }
                "LISTEN"
            },
            CommandID::NEWSTATE => {
                proof {
                    reveal_strlit("NEWSTATE");
                }
                "NEWSTATE"
            },
            CommandID::MYAUX => {
                proof {
                    reveal_strlit("MYAUX");
                }
                "MYAUX"
            },
            CommandID::MYCALL => {
                proof {
                    reveal_strlit("MYCALL");
                }
                "MYCALL"
            },
            CommandID::PING => {
                proof {
                    reveal_strlit("PING");
                }
                "PING"
            },
            CommandID::PROTOCOLMODE => {
                proof {
                    reveal_strlit("PROTOCOLMODE");
                }
                "PROTOCOLMODE"
            },
            CommandID::REJECTED => {
                proof {
                    reveal_strlit("REJECTED");
                }
                "REJECTED"
            },
            CommandID::SENDID => {
                proof {
                    reveal_strlit("SENDID");
                }
                "SENDID"
            },
            CommandID::TARGET => {
                proof {
                    reveal_strlit("TARGET");
                }
                "TARGET"
            },
            CommandID::TWOTONETEST => {
                proof {
                    reveal_strlit("TWOTONETEST");
                }
                "TWOTONETEST"
            },
            CommandID::VERSION => {
                proof {
                    reveal_strlit("VERSION");
                }
                "VERSION"
            },
        }
    }

    /// The protocol name of this value, as an owned string
    pub fn to_string(&self) -> (s: String)
        ensures
            s@ == self.spec_name(),
    {
        self.as_str().to_owned()
    }

    /// The value whose protocol name is exactly `s`, if any
    pub fn from_chars(s: &[char]) -> (r: Option<CommandID>)
        ensures
            r == CommandID::spec_from_name(s@),
            r matches Some(x) ==> x.spec_name() == s@,
            r is None ==> forall|x: CommandID| x.spec_name() != s@,
    {
        if chars_eq(s, &['A', 'B', 'O', 'R', 'T']) {
            return Some(CommandID::ABORT);
        }
        if chars_eq(s, &['A', 'U', 'T', 'O', 'B', 'R', 'E', 'A', 'K']) {
            return Some(CommandID::AUTOBREAK);
        }
        if chars_eq(s, &['B', 'U', 'F', 'F', 'E', 'R']) {
            return Some(CommandID::BUFFER);
        }
        if chars_eq(s, &['A', 'R', 'Q', 'B', 'W']) {
            return Some(CommandID::ARQBW);
        }
        if chars_eq(s, &['A', 'R', 'Q', 'T', 'I', 'M', 'E', 'O', 'U', 'T']) {
            return Some(CommandID::ARQTIMEOUT);
        }
        if chars_eq(s, &['A', 'R', 'Q', 'C', 'A', 'L', 'L']) {
            return Some(CommandID::ARQCALL);
        }
        if chars_eq(s, &['B', 'U', 'S', 'Y']) {
            return Some(CommandID::BUSY);
        }
        if chars_eq(s, &['B', 'U', 'S', 'Y', 'B', 'L', 'O', 'C', 'K']) {
            return Some(CommandID::BUSYBLOCK);
        }
        if chars_eq(s, &['B', 'U', 'S', 'Y', 'D', 'E', 'T']) {
            return Some(CommandID::BUSYDET);
        }
        if chars_eq(s, &['C', 'O', 'N', 'N', 'E', 'C', 'T', 'E', 'D']) {
            return Some(CommandID::CONNECTED);
        }
        if chars_eq(s, &['C', 'W', 'I', 'D']) {
            return Some(CommandID::CWID);
        }
        if chars_eq(s, &['D', 'I', 'S', 'C', 'O', 'N', 'N', 'E', 'C', 'T']) {
            return Some(CommandID::DISCONNECT);
        }
        if chars_eq(s, &['F', 'A', 'U', 'L', 'T']) {
            return Some(CommandID::FAULT);
        }
        if chars_eq(s, &['G', 'R', 'I', 'D', 'S', 'Q', 'U', 'A', 'R', 'E']) {
            return Some(CommandID::GRIDSQUARE);
        }
        if chars_eq(s, &['I', 'N', 'I', 'T', 'I', 'A', 'L', 'I', 'Z', 'E']) {
            return Some(CommandID::INITIALIZE);
        }
        if chars_eq(s, &['L', 'E', 'A', 'D', 'E', 'R']) {
            return Some(CommandID::LEADER);
        }
        if chars_eq(s, &['L', 'I', 'S', 'T', 'E', 'N']) {
            return Some(CommandID::LISTEN);
        }
        if chars_eq(s, &['N', 'E', 'W', 'S', 'T', 'A', 'T', 'E']) {
            return Some(CommandID::NEWSTATE);
        }
        if chars_eq(s, &['M', 'Y', 'A', 'U', 'X']) {
            return Some(CommandID::MYAUX);
        }
        if chars_eq(s, &['M', 'Y', 'C', 'A', 'L', 'L']) {
            return Some(CommandID::MYCALL);
        }
        if chars_eq(s, &['P', 'I', 'N', 'G']) {
            return Some(CommandID::PING);
        }
        if chars_eq(s, &['P', 'R', 'O', 'T', 'O', 'C', 'O', 'L', 'M', 'O', 'D', 'E']) {
            return Some(CommandID::PROTOCOLMODE);
        }
        if chars_eq(s, &['R', 'E', 'J', 'E', 'C', 'T', 'E', 'D']) {
            return Some(CommandID::REJECTED);
        }
        if chars_eq(s, &['S', 'E', 'N', 'D', 'I', 'D']) {
            return Some(CommandID::SENDID);
        }
        if chars_eq(s, &['T', 'A', 'R', 'G', 'E', 'T']) {
            return Some(CommandID::TARGET);
        }
        if chars_eq(s, &['T', 'W', 'O', 'T', 'O', 'N', 'E', 'T', 'E', 'S', 'T']) {
            return Some(CommandID::TWOTONETEST);
        }
        if chars_eq(s, &['V', 'E', 'R', 'S', 'I', 'O', 'N']) {
            return Some(CommandID::VERSION);
        }
        None
    }

    /// The value whose protocol name is exactly `s`, if any
    pub fn from_name(s: &str) -> (r: Option<CommandID>)
        ensures
            r == CommandID::spec_from_name(s@),
            r matches Some(x) ==> x.spec_name() == s@,
            r is None ==> forall|x: CommandID| x.spec_name() != s@,
    {
        let v = chars_of(s);
        Self::from_chars(v.as_slice())
    }
}

impl std::str::FromStr for CommandID {
    type Err = ParseEnumError;

    fn from_str(s: &str) -> (r: Result<CommandID, ParseEnumError>)
        ensures
            match CommandID::spec_from_name(s@) {
                Some(x) => r == Ok::<CommandID, ParseEnumError>(x),
                None => r is Err,
            },
    {
        match Self::from_name(s) {
            Some(x) => Ok(x),
            None => Err(ParseEnumError {}),
        }
    }
}


/// Every protocol mode is read back from its own protocol name
pub proof fn lemma_protocol_mode_name_roundtrip(m: ProtocolMode)
    ensures
        ProtocolMode::spec_from_name(m.spec_name()) == Some(m),
{
    assert(seq!['A', 'R', 'Q'] != seq!['F', 'E', 'C']) by {
        assert(seq!['A', 'R', 'Q'][0] != seq!['F', 'E', 'C'][0]);
    }
}

/// Every command verb is read back from its own protocol name
pub proof fn lemma_command_id_name_roundtrip(id: CommandID)
    ensures
        CommandID::spec_from_name(id.spec_name()) == Some(id),
{
    lemma_command_names_distinct(CommandID::ABORT, id);
    lemma_command_names_distinct(CommandID::AUTOBREAK, id);
    lemma_command_names_distinct(CommandID::BUFFER, id);
    lemma_command_names_distinct(CommandID::ARQBW, id);
    lemma_command_names_distinct(CommandID::ARQTIMEOUT, id);
    lemma_command_names_distinct(CommandID::ARQCALL, id);
    lemma_command_names_distinct(CommandID::BUSY, id);
    lemma_command_names_distinct(CommandID::BUSYBLOCK, id);
    lemma_command_names_distinct(CommandID::BUSYDET, id);
    lemma_command_names_distinct(CommandID::CONNECTED, id);
    lemma_command_names_distinct(CommandID::CWID, id);
    lemma_command_names_distinct(CommandID::DISCONNECT, id);
    lemma_command_names_distinct(CommandID::FAULT, id);
    lemma_command_names_distinct(CommandID::GRIDSQUARE, id);
    lemma_command_names_distinct(CommandID::INITIALIZE, id);
    lemma_command_names_distinct(CommandID::LEADER, id);
    lemma_command_names_distinct(CommandID::LISTEN, id);
    lemma_command_names_distinct(CommandID::NEWSTATE, id);
    lemma_command_names_distinct(CommandID::MYAUX, id);
    lemma_command_names_distinct(CommandID::MYCALL, id);
    lemma_command_names_distinct(CommandID::PING, id);
    lemma_command_names_distinct(CommandID::PROTOCOLMODE, id);
    lemma_command_names_distinct(CommandID::REJECTED, id);
    lemma_command_names_distinct(CommandID::SENDID, id);
    lemma_command_names_distinct(CommandID::TARGET, id);
    lemma_command_names_distinct(CommandID::TWOTONETEST, id);
    lemma_command_names_distinct(CommandID::VERSION, id);
}

/// Distinct command verbs have distinct protocol names
pub proof fn lemma_command_names_distinct(a: CommandID, b: CommandID)
    ensures
        a.spec_name() == b.spec_name() ==> a == b,
{
    if a.spec_name() == b.spec_name() && a != b {
        let x = a.spec_name();
        let y = b.spec_name();
        assert(x.len() == y.len());
        assert(x[0] == y[0]);
        assert(x[1] == y[1]);
        assert(x[2] == y[2]);
        assert(x[3] == y[3]);
        if x.len() > 4 {
            assert(x[4] == y[4]);
        }
        if x.len() > 5 {
            assert(x[5] == y[5]);
        }
    }
}

/// The two truth values have distinct protocol texts
pub proof fn lemma_truth_text_distinct(a: bool, b: bool)
    ensures
        spec_truth_text(a) == spec_truth_text(b) ==> a == b,
{
    if a != b {
        assert(spec_truth_text(a).len() != spec_truth_text(b).len());
    }
}

} // verus!
