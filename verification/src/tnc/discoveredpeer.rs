use vstd::prelude::*;

use crate::arq::connectioninfo::{opt_string_view, opt_string_clone};
use crate::text::{decimal_string, decimal_text};

verus! {

/// ARDOP Discovered Peer
///
/// Announces a peer that has been discovered from its
/// ping requests or identity frames.
#[derive(Debug, PartialEq, Eq)]
pub struct DiscoveredPeer {
    peer: String,
    snr: Option<u16>,
    grid_square: Option<String>,
}

/// Abstract value of a `DiscoveredPeer`
pub struct DiscoveredPeerView {
    /// Peer callsign
    pub peer: Seq<char>,
    /// Signal-to-noise ratio, if known
    pub snr: Option<u16>,
    /// Grid square, if known
    pub grid_square: Option<Seq<char>>,
}

impl View for DiscoveredPeer {
    type V = DiscoveredPeerView;

    closed spec fn view(&self) -> DiscoveredPeerView {
        DiscoveredPeerView {
            peer: self.peer@,
            snr: self.snr,
            grid_square: opt_string_view(self.grid_square),
        }
    }
}

/// `PEER [GRID]: SNR dB`, with `????` for an unknown grid and no SNR part
/// when the SNR is unknown
pub open spec fn spec_peer_text(p: DiscoveredPeerView) -> Seq<char> {
    p.peer + match p.grid_square {
        None => seq![' ', '[', '?', '?', '?', '?', ']'],
        Some(g) => seq![' ', '['] + g + seq![']'],
    } + match p.snr {
        None => seq![],
        Some(snr) => seq![':', ' '] + decimal_text(snr as nat) + seq![' ', 'd', 'B'],
    }
}

impl DiscoveredPeer {
    /// Construct
    pub fn new(peer: &str, snr: Option<u16>, grid_square: Option<String>) -> (r: DiscoveredPeer)
        ensures
            r@ == (DiscoveredPeerView {
                peer: peer@,
                snr,
                grid_square: opt_string_view(grid_square),
            }),
    {
        DiscoveredPeer { peer: peer.to_owned(), snr, grid_square }
    }

    /// Peer callsign, with optional -SSID portion
    pub fn peer(&self) -> (r: &String)
        ensures
            r@ == self@.peer,
    {
        &self.peer
    }

    /// Signal-to-noise ratio (SNR)
    ///
    /// SNR in dB, relative to a 3 kHz noise bandwidth. A value of
    /// of 21 indicates that the SNR is above 20 dB. If unknown,
    /// returns None.
    pub fn snr(&self) -> (r: Option<u16>)
        ensures
            r == self@.snr,
    {
        self.snr
    }

    /// Peer Maidenhead Grid Square
    ///
    /// Returns the peer's self-reported grid square, if known.
    /// If unknown, returns None.
    pub fn grid_square(&self) -> (r: &Option<String>)
        ensures
            opt_string_view(*r) == self@.grid_square,
    {
        &self.grid_square
    }

    /// A copy of this peer
    pub fn duplicate(&self) -> (r: DiscoveredPeer)
        ensures
            r@ == self@,
    {
        DiscoveredPeer {
            peer: self.peer.clone(),
            snr: self.snr,
            grid_square: opt_string_clone(&self.grid_square),
        }
    }

    /// `PEER [GRID]: SNR dB`, with `????` for an unknown grid and no SNR
    /// part when the SNR is unknown
    pub fn to_string(&self) -> (s: String)
        ensures
            s@ == spec_peer_text(self@),
    {
        proof {
            reveal_strlit(" [????]");
            reveal_strlit(" [");
            reveal_strlit("]");
            reveal_strlit(": ");
            reveal_strlit(" dB");
        }
        let mut s = self.peer.clone();
        match &self.grid_square {
            None => s.append(" [????]"),
            Some(gr) => {
                s.append(" [");
                s.append(gr.as_str());
                s.append("]");
            },
        }
        match self.snr {
            None => {},
            Some(snr) => {
                s.append(": ");
                let n = decimal_string(snr as u64);
                s.append(n.as_str());
                s.append(" dB");
            },
        }
        s
    }
}

} // verus!
