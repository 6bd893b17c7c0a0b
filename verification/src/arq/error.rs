use vstd::prelude::*;

verus! {

/// Reasons a remote peer will reject a connection
#[derive(Debug, Clone, Copy, PartialEq, Eq, Structural)]
pub enum ConnectionFailedReason {
    /// Peer is busy with an existing connection, or channel busy?
    Busy,
    /// Bandwidth negotiation failed
    IncompatibleBandwidth,
    /// No answer from peer
    NoAnswer,
}

impl ConnectionFailedReason {
    /// Human-readable description of the failure
    pub open spec fn spec_description(self) -> Seq<char> {
        match self {
            ConnectionFailedReason::Busy => seq![
                'b', 'u', 's', 'y', ' ', 'c', 'h', 'a', 'n', 'n', 'e', 'l'
            ],
            ConnectionFailedReason::IncompatibleBandwidth => seq![
                'r', 'e', 'j', 'e', 'c', 't', 'e', 'd', ' ', 'b', 'y', ' ', 'p', 'e', 'e', 'r', ':',
                ' ', 'i', 'n', 'c', 'o', 'm', 'p', 'a', 't', 'i', 'b', 'l', 'e', ' ', 'b', 'a', 'n',
                'd', 'w', 'i', 'd', 't', 'h'
            ],
            ConnectionFailedReason::NoAnswer => seq![
                'n', 'o', ' ', 'a', 'n', 's', 'w', 'e', 'r', ' ', 'f', 'r', 'o', 'm', ' ', 'p', 'e',
                'e', 'r'
            ],
        }
    }

    /// Human-readable description of the failure
    pub fn to_string(&self) -> (s: String)
        ensures
            s@ == self.spec_description(),
    {
        match self {
            ConnectionFailedReason::Busy => {
                proof {
                    reveal_strlit("busy channel");
                }
                "busy channel".to_owned()
            },
            ConnectionFailedReason::IncompatibleBandwidth => {
                proof {
                    reveal_strlit("rejected by peer: incompatible bandwidth");
                }
                "rejected by peer: incompatible bandwidth".to_owned()
            },
            ConnectionFailedReason::NoAnswer => {
                proof {
                    reveal_strlit("no answer from peer");
                }
                "no answer from peer".to_owned()
            },
        }
    }
}

} // verus!
