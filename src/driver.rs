//! The loop that feeds a sequence of packets to a decoder and collects its
//! pictures, as decisions from the result of one decoder call to the next.
//!
//! Each packet is sent once, in order. When the decoder answers "try again",
//! one picture is retrieved and the pending data resent until it is taken.
//! After each packet one picture is retrieved; after the last, pictures are
//! retrieved until none is left.
use vstd::prelude::*;

use crate::error::Error;

verus! {

/// The decoder call to make next.
#[derive(Debug, Copy, Clone, PartialEq, Eq, Structural)]
pub enum Action {
    /// Send the packet with this index.
    SendData(usize),
    /// Resend the data the decoder holds pending.
    SendPendingData,
    /// Retrieve a picture.
    GetPicture,
    /// Stop: every packet was sent and every picture retrieved.
    Finish,
    /// Stop: the decoder failed with this error.
    Fail(Error),
}

/// Where the loop stands.
#[derive(Debug, Copy, Clone, PartialEq, Eq, Structural)]
pub enum Phase {
    /// A packet was sent; its result is awaited.
    Sending,
    /// The decoder asked to try again; a picture is being retrieved before
    /// the pending data is resent.
    Backlogged,
    /// The pending data was resent; its result is awaited.
    Resending,
    /// The packet was taken; one picture is being retrieved.
    AfterPacket,
    /// All packets were sent; pictures are retrieved until none is left.
    Draining,
    /// The loop has ended.
    Stopped,
}

/// State of the feeding loop over `n_packets` packets.
#[derive(Debug, Copy, Clone, PartialEq, Eq, Structural)]
pub struct FeedLoop {
    pub n_packets: usize,
    /// Number of packets sent so far.
    pub sent: usize,
    pub phase: Phase,
}

/// The result of the previous decoder call.
#[derive(Debug, Copy, Clone, PartialEq, Eq)]
pub enum Event {
    /// The result of sending data or resending pending data.
    Sent(Result<(), Error>),
    /// The result of retrieving a picture: `Ok` where one was retrieved.
    Picture(Result<(), Error>),
}

/// The action that starts, or continues, sending: the next packet, or
/// draining once every packet is sent.
pub open spec fn send_next(s: FeedLoop) -> (FeedLoop, Action) {
    if s.sent < s.n_packets {
        (FeedLoop { sent: (s.sent + 1) as usize, phase: Phase::Sending, ..s }, Action::SendData(s.sent))
    } else {
        (FeedLoop { phase: Phase::Draining, ..s }, Action::GetPicture)
    }
}

/// The state and action that follow `event` in state `s`. An event that
/// does not fit the phase stops the loop with `Error::InvalidArgument`.
pub open spec fn spec_step(s: FeedLoop, event: Event) -> (FeedLoop, Action) {
    let stop = FeedLoop { phase: Phase::Stopped, ..s };
    match (s.phase, event) {
        (Phase::Sending, Event::Sent(r)) | (Phase::Resending, Event::Sent(r)) => match r {
            Ok(()) => (FeedLoop { phase: Phase::AfterPacket, ..s }, Action::GetPicture),
            Err(Error::Again) => (FeedLoop { phase: Phase::Backlogged, ..s }, Action::GetPicture),
            Err(e) => (stop, Action::Fail(e)),
        },
        (Phase::Backlogged, Event::Picture(r)) => match r {
            Err(Error::Again) | Ok(()) => (
                FeedLoop { phase: Phase::Resending, ..s },
                Action::SendPendingData,
            ),
            Err(e) => (stop, Action::Fail(e)),
        },
        (Phase::AfterPacket, Event::Picture(r)) => match r {
            Err(Error::Again) | Ok(()) => send_next(s),
            Err(e) => (stop, Action::Fail(e)),
        },
        (Phase::Draining, Event::Picture(r)) => match r {
            Ok(()) => (s, Action::GetPicture),
            Err(Error::Again) => (stop, Action::Finish),
            Err(e) => (stop, Action::Fail(e)),
        },
        _ => (stop, Action::Fail(Error::InvalidArgument)),
    }
}

impl FeedLoop {
    /// Never more packets sent than there are, and all of them sent once
    /// draining.
    pub open spec fn wf(self) -> bool {
        &&& self.sent <= self.n_packets
        &&& self.phase == Phase::Draining ==> self.sent == self.n_packets
    }

    /// A loop over `n_packets` packets, and its first action.
    pub fn start(n_packets: usize) -> (r: (FeedLoop, Action))
        ensures
            r == send_next(FeedLoop { n_packets, sent: 0, phase: Phase::Stopped }),
            r.0.wf(),
    {
        let s = FeedLoop { n_packets, sent: 0, phase: Phase::Stopped };
        if n_packets > 0 {
            (FeedLoop { sent: 1, phase: Phase::Sending, ..s }, Action::SendData(0))
        } else {
            (FeedLoop { phase: Phase::Draining, ..s }, Action::GetPicture)
        }
    }

    /// The next state and action after `event`.
    pub fn step(self, event: Event) -> (r: (FeedLoop, Action))
        requires
            self.wf(),
        ensures
            r == spec_step(self, event),
            r.0.wf(),
    {
        let stop = FeedLoop { phase: Phase::Stopped, ..self };
        match (self.phase, event) {
            (Phase::Sending, Event::Sent(r)) | (Phase::Resending, Event::Sent(r)) => match r {
                Ok(()) => (FeedLoop { phase: Phase::AfterPacket, ..self }, Action::GetPicture),
                Err(Error::Again) => (
                    FeedLoop { phase: Phase::Backlogged, ..self },
                    Action::GetPicture,
                ),
                Err(e) => (stop, Action::Fail(e)),
            },
            (Phase::Backlogged, Event::Picture(r)) => match r {
                Err(Error::Again) | Ok(()) => (
                    FeedLoop { phase: Phase::Resending, ..self },
                    Action::SendPendingData,
                ),
                Err(e) => (stop, Action::Fail(e)),
            },
            (Phase::AfterPacket, Event::Picture(r)) => match r {
                Err(Error::Again) | Ok(()) => {
                    if self.sent < self.n_packets {
                        (
                            FeedLoop { sent: self.sent + 1, phase: Phase::Sending, ..self },
                            Action::SendData(self.sent),
                        )
                    } else {
                        (FeedLoop { phase: Phase::Draining, ..self }, Action::GetPicture)
                    }
                },
                Err(e) => (stop, Action::Fail(e)),
            },
            (Phase::Draining, Event::Picture(r)) => match r {
                Ok(()) => (self, Action::GetPicture),
                Err(Error::Again) => (stop, Action::Finish),
                Err(e) => (stop, Action::Fail(e)),
            },
            _ => (stop, Action::Fail(Error::InvalidArgument)),
        }
    }
}

/// Packets go out once each and in order: a step sends at most one packet,
/// the one that follows those already sent, and the loop finishes only after
/// every packet has been sent. A loop that asks to resend pending data has
/// been told "try again" for the packet it sent last.
pub proof fn lemma_packets_in_order(s: FeedLoop, event: Event)
    requires
        s.wf(),
    ensures
        spec_step(s, event).1 matches Action::SendData(i) ==> i == s.sent && spec_step(
            s,
            event,
        ).0.sent == s.sent + 1,
        !(spec_step(s, event).1 is SendData) ==> spec_step(s, event).0.sent == s.sent,
        spec_step(s, event).1 is Finish ==> s.sent == s.n_packets,
        spec_step(s, event).1 is SendPendingData ==> s.phase == Phase::Backlogged,
{
}

} // verus!
