use vstd::prelude::*;

use crate::text::{decimal_string, decimal_text};

verus! {

/// Reasons a ping fails
#[derive(Debug, Clone, Copy, PartialEq, Eq, Structural)]
pub enum PingFailedReason {
    /// The RF channel was busy during the ping attempt, and no ping was sent
    Busy,
    /// The remote peer did not answer
    NoAnswer,
}

/// ARDOP Ping Response
///
/// Indicates that a *solicited* ping reply has been
/// received from a remote peer.
#[derive(Debug, PartialEq, Eq)]
pub struct PingAck {
    peer: String,
    snr: u16,
    decode_quality: u16,
}

/// Abstract value of a `PingAck`
pub struct PingAckView {
    /// Peer callsign
    pub peer: Seq<char>,
    /// Signal-to-noise ratio, dB
    pub snr: u16,
    /// Constellation decoding quality
    pub decode_quality: u16,
}

impl View for PingAck {
    type V = PingAckView;

    closed spec fn view(&self) -> PingAckView {
        PingAckView { peer: self.peer@, snr: self.snr, decode_quality: self.decode_quality }
    }
}

impl PingAck {
    /// Construct
    pub fn new(peer: &str, snr: u16, decode_quality: u16) -> (r: PingAck)
        ensures
            r@ == (PingAckView { peer: peer@, snr, decode_quality }),
    {
        PingAck { peer: peer.to_owned(), snr, decode_quality }
    }

    /// Peer callsign, with optional -SSID portion
    pub fn peer(&self) -> (r: &String)
        ensures
            r@ == self@.peer,
    {
        &self.peer
    }

    /// Signal-to-noise ratio (SNR)
    ///
    /// SNR in dB, relative to a 3 kHz noise bandwidth. A value of
    /// of 21 indicates that the SNR is above 20 dB.
    pub fn snr(&self) -> (r: u16)
        ensures
            r == self@.snr,
    {
        self.snr
    }

    /// Symbol constellation decoding quality
    ///
    /// Quality values range from 30 - 100.
    pub fn decode_quality(&self) -> (r: u16)
        ensures
            r == self@.decode_quality,
    {
        self.decode_quality
    }

    /// `Ping PEER: SNR n dB - Quality q`
    pub fn to_string(&self) -> (s: String)
        ensures
            s@ == seq!['P', 'i', 'n', 'g', ' '] + self@.peer + seq![':', ' ', 'S', 'N', 'R', ' ']
                + decimal_text(self@.snr as nat) + seq![
                ' ', 'd', 'B', ' ', '-', ' ', 'Q', 'u', 'a', 'l', 'i', 't', 'y', ' '
            ] + decimal_text(self@.decode_quality as nat),
    {
        proof {
            reveal_strlit("Ping ");
            reveal_strlit(": SNR ");
            reveal_strlit(" dB - Quality ");
        }
        let mut s = "Ping ".to_owned();
        s.append(self.peer.as_str());
        s.append(": SNR ");
        let snr = decimal_string(self.snr as u64);
        s.append(snr.as_str());
        s.append(" dB - Quality ");
        let q = decimal_string(self.decode_quality as u64);
        s.append(q.as_str());
        s
    }
}

} // verus!
