//! When a command may be sent: a retune keeps the link quiet while it settles.

use vstd::prelude::*;

use crate::clock::{after, moment_after, MILLISECOND};
use crate::msp::frame::{
    build_command_v1,
    build_command_v2,
    command_v1,
    command_v2,
    payload_or_empty,
};

verus! {

#[derive(Clone, Copy, Debug, PartialEq, Eq, Structural)]
pub enum MspCommandKind {
    Retune,
    Calibration,
    Other,
}

impl MspCommandKind {
    pub open spec fn settle(self) -> u64 {
        match self {
            MspCommandKind::Retune => 50_000_000,
            MspCommandKind::Calibration => 0,
            MspCommandKind::Other => 0,
        }
    }

    /// How long after such a command nothing is sent.
    pub fn settle_duration(self) -> (r: u64)
        ensures
            r == self.settle(),
    {
        match self {
            MspCommandKind::Retune => 50 * MILLISECOND,
            MspCommandKind::Calibration => 0,
            MspCommandKind::Other => 0,
        }
    }
}

/// A send was asked for `remaining` before the link is free.
#[derive(Clone, Copy, Debug, PartialEq, Eq, Structural)]
pub struct SendBlocked {
    pub remaining: u64,
}

/// The sending side of a link, and how many frames went each way.
#[derive(Clone, Copy, Debug, PartialEq, Eq, Structural)]
pub struct MspLink {
    pub can_send_at: u64,
    pub tx_count: u64,
    pub rx_count: u64,
}

impl MspLink {
    /// Nothing stands against a send at `now`.
    pub open spec fn free(self, now: u64) -> bool {
        now >= self.can_send_at
    }

    /// A link that was opened at `now`.
    pub fn new(now: u64) -> (r: Self)
        ensures
            r == (MspLink { can_send_at: now, tx_count: 0, rx_count: 0 }),
    {
        MspLink { can_send_at: now, tx_count: 0, rx_count: 0 }
    }

    pub fn can_send_now(&self, now: u64) -> (r: bool)
        ensures
            r == self.free(now),
    {
        now >= self.can_send_at
    }

    /// How long it takes until a send is possible.
    pub fn blocked_for(&self, now: u64) -> (r: Option<u64>)
        ensures
            r == (if self.free(now) { None } else { Some((self.can_send_at - now) as u64) }),
    {
        if now >= self.can_send_at {
            None
        } else {
            Some(self.can_send_at - now)
        }
    }

    pub open spec fn after_sending(self, kind: MspCommandKind, now: u64) -> MspLink {
        let until = after(now, kind.settle());
        MspLink { can_send_at: if until > self.can_send_at { until } else { self.can_send_at }, ..self }
    }

    /// A command of this kind was sent at `now`.
    pub fn note_sent(&mut self, kind: MspCommandKind, now: u64)
        ensures
            *final(self) == old(self).after_sending(kind, now),
    {
        let until = moment_after(now, kind.settle_duration());
        if until > self.can_send_at {
            self.can_send_at = until;
        }
    }

    pub fn tx_rx_counts(&self) -> (r: (u64, u64))
        ensures
            r == (self.tx_count, self.rx_count),
    {
        (self.tx_count, self.rx_count)
    }

    /// Whether a frame may be written to the port at `now`.
    pub fn send(&self, now: u64) -> (r: Result<(), SendBlocked>)
        ensures
            r == (if self.free(now) {
                Ok(())
            } else {
                Err::<(), SendBlocked>(SendBlocked { remaining: (self.can_send_at - now) as u64 })
            }),
    {
        match self.blocked_for(now) {
            None => Ok(()),
            Some(remaining) => Err(SendBlocked { remaining }),
        }
    }

    /// The frame to write at `now` for a command of the first version.
    pub fn send_v1(&self, cmd: u8, payload: &[u8], now: u64) -> (r: Result<Vec<u8>, SendBlocked>)
        ensures
            match r {
                Ok(frame) => self.free(now) && frame@ == command_v1(cmd, payload@),
                Err(e) => !self.free(now) && e.remaining == self.can_send_at - now,
            },
    {
        match self.send(now) {
            Ok(()) => Ok(build_command_v1(cmd, payload)),
            Err(e) => Err(e),
        }
    }

    /// The frame to write at `now` for a command of the second version.
    pub fn send_v2(&self, cmd: u16, payload: Option<&[u8]>, now: u64) -> (r: Result<
        Vec<u8>,
        SendBlocked,
    >)
        ensures
            match r {
                Ok(frame) => self.free(now) && frame@ == command_v2(cmd, payload_or_empty(payload)),
                Err(e) => !self.free(now) && e.remaining == self.can_send_at - now,
            },
    {
        match self.send(now) {
            Ok(()) => Ok(build_command_v2(cmd, payload)),
            Err(e) => Err(e),
        }
    }

    /// A frame was written to the port.
    pub fn note_written(&mut self)
        ensures
            *final(self) == (MspLink { tx_count: old(self).tx_count.wrapping_add(1), ..*old(self) }),
    {
        self.tx_count = self.tx_count.wrapping_add(1);
    }

    /// A frame was read from the port.
    pub fn note_received(&mut self)
        ensures
            *final(self) == (MspLink { rx_count: old(self).rx_count.wrapping_add(1), ..*old(self) }),
    {
        self.rx_count = self.rx_count.wrapping_add(1);
    }
}

/// After a command, the link is free again when its settle time is over and every
/// earlier one's is, and not before.
pub proof fn law_link_is_quiet_for_the_settle_time(
    link: MspLink,
    kind: MspCommandKind,
    sent: u64,
    now: u64,
)
    ensures
        link.after_sending(kind, sent).free(now) <==> link.free(now) && now >= after(
            sent,
            kind.settle(),
        ),
{
}

/// After a retune the link is quiet for fifty milliseconds; after anything else it is free
/// when it was. It is never free sooner than it was to be, and its counts stay.
pub proof fn law_a_retune_takes_fifty_milliseconds(link: MspLink, kind: MspCommandKind, sent: u64)
    requires
        sent + 50_000_000 <= u64::MAX,
        link.free(sent),
    ensures
        ({
            let l = link.after_sending(kind, sent);
            &&& kind is Retune ==> l.can_send_at == sent + 50_000_000
            &&& !(kind is Retune) ==> l.can_send_at == sent || l == link
            &&& !(kind is Retune) ==> l.free(sent)
            &&& l.can_send_at >= link.can_send_at
            &&& l.tx_count == link.tx_count && l.rx_count == link.rx_count
        }),
{
}

} // verus!
