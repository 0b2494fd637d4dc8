//! The two markers that govern what one peer may send and see.

use crate::counter::newer_or_eq;
use crate::counter::HALF_RANGE;
use vstd::prelude::*;

verus! {

/// What happens to an inbound item with a given counter.
#[derive(Clone, Copy, Debug, PartialEq, Eq)]
pub enum Visibility {
    /// The item is at least as new as a connect report that the application
    /// has not read yet: it is held back.
    Withhold,
    /// The item is no newer than a disconnect report that the application has
    /// read: it belongs to a connection that the application considers gone.
    Stale,
    /// The item lies strictly between a read disconnect report and an unread
    /// connect report, where no item should be.
    Misordered,
    /// The item may be shown.
    Deliver,
}

/// Why nothing may be sent to a peer.
#[derive(Clone, Copy, Debug, PartialEq, Eq)]
pub enum SendError {
    /// A connect report of the peer waits to be read.
    PendingConnect,
}

/// The markers of one peer.
#[derive(Clone, Copy, Debug, PartialEq, Eq)]
pub struct EpochGate {
    /// Counter of the most recent connect report that has not been read.
    pub pending_connect: Option<u64>,
    /// Counter of the most recent disconnect report that has been read.
    pub recent_consumed_disconnect: Option<u64>,
}

impl EpochGate {
    /// The markers of a peer of which nothing has been seen.
    pub open spec fn spec_new() -> EpochGate {
        EpochGate { pending_connect: None, recent_consumed_disconnect: None }
    }

    /// Sending is allowed exactly while no connect report waits to be read.
    pub open spec fn spec_can_send(self) -> bool {
        self.pending_connect is None
    }

    /// The markers after a connect report with this counter was classified.
    pub open spec fn connected(self, counter: u64) -> EpochGate {
        EpochGate { pending_connect: Some(counter), ..self }
    }

    /// The markers after the application read the report with this counter.
    pub open spec fn consumed(self, counter: u64, disconnected: bool) -> EpochGate {
        EpochGate {
            pending_connect: if self.pending_connect == Some(counter) {
                None
            } else {
                self.pending_connect
            },
            recent_consumed_disconnect: if disconnected {
                Some(counter)
            } else {
                self.recent_consumed_disconnect
            },
        }
    }

    /// What happens to an item with this counter.
    pub open spec fn spec_visibility(self, counter: u64) -> Visibility {
        if self.pending_connect is Some && counter >= self.pending_connect->0 {
            Visibility::Withhold
        } else if self.recent_consumed_disconnect is Some && counter
            <= self.recent_consumed_disconnect->0 {
            Visibility::Stale
        } else if self.pending_connect is Some && self.recent_consumed_disconnect is Some {
            Visibility::Misordered
        } else {
            Visibility::Deliver
        }
    }

    pub fn new() -> (gate: EpochGate)
        ensures
            gate == EpochGate::spec_new(),
    {
        EpochGate { pending_connect: None, recent_consumed_disconnect: None }
    }

    /// Tells whether the peer may be sent to.
    pub fn can_send(&self) -> (r: bool)
        ensures
            r == self.spec_can_send(),
            r == (self.pending_connect is None),
    {
        self.pending_connect.is_none()
    }

    /// Replaces the pending-connect marker.
    pub fn set_pending_connect(&mut self, new: Option<u64>)
        ensures
            final(self).pending_connect == new,
            final(self).recent_consumed_disconnect == old(self).recent_consumed_disconnect,
    {
        self.pending_connect = new;
    }

    /// Clears the pending-connect marker if it holds exactly `counter`.
    pub fn try_clear_pending_connect(&mut self, counter: u64)
        ensures
            *final(self) == old(self).consumed(counter, false),
    {
        if self.pending_connect == Some(counter) {
            self.pending_connect = None;
        }
    }

    /// Records that a connect report with this counter was classified.
    pub fn note_connected(&mut self, counter: u64)
        ensures
            *final(self) == old(self).connected(counter),
    {
        self.pending_connect = Some(counter);
    }

    /// Records that the application read the report with this counter;
    /// `disconnected` tells whether it reported a disconnect.
    pub fn consume(&mut self, counter: u64, disconnected: bool)
        ensures
            *final(self) == old(self).consumed(counter, disconnected),
    {
        self.try_clear_pending_connect(counter);
        if disconnected {
            self.recent_consumed_disconnect = Some(counter);
        }
    }

    /// Decides what happens to an inbound item with this counter.
    pub fn visibility(&self, counter: u64) -> (v: Visibility)
        ensures
            v == self.spec_visibility(counter),
    {
        if let Some(pending) = self.pending_connect {
            if counter >= pending {
                return Visibility::Withhold;
            }
        }
        if let Some(recent) = self.recent_consumed_disconnect {
            if counter <= recent {
                return Visibility::Stale;
            }
            if self.pending_connect.is_some() {
                return Visibility::Misordered;
            }
        }
        Visibility::Deliver
    }
}

impl Default for EpochGate {
    fn default() -> (gate: Self)
        ensures
            gate == EpochGate::spec_new(),
    {
        EpochGate::new()
    }
}

/// While a connect report waits to be read, sending is refused, and reading
/// any other report leaves it refused.
pub proof fn lemma_send_blocked_while_connect_pending(
    gate: EpochGate,
    pending: u64,
    counter: u64,
    disconnected: bool,
)
    requires
        gate.pending_connect == Some(pending),
        counter != pending,
    ensures
        !gate.spec_can_send(),
        !gate.consumed(counter, disconnected).spec_can_send(),
{
}

/// Reading the very connect report that is pending allows sending again.
pub proof fn lemma_send_allowed_after_connect_consumed(
    gate: EpochGate,
    pending: u64,
    disconnected: bool,
)
    requires
        gate.pending_connect == Some(pending),
    ensures
        gate.consumed(pending, disconnected).spec_can_send(),
{
}

/// An item that is no newer than the last disconnect report that was read is
/// never shown as it came.
pub proof fn lemma_stale_is_never_delivered(gate: EpochGate, marker: u64, counter: u64)
    requires
        gate.recent_consumed_disconnect == Some(marker),
        counter <= marker,
    ensures
        gate.spec_visibility(counter) != Visibility::Deliver,
        gate.spec_visibility(counter) != Visibility::Misordered,
{
}

/// An item is held back exactly when it is at least as new as a connect
/// report that has not been read.
pub proof fn lemma_withheld_iff_behind_pending_connect(gate: EpochGate, counter: u64)
    ensures
        gate.spec_visibility(counter) == Visibility::Withhold <==> (gate.pending_connect is Some
            && counter >= gate.pending_connect->0),
{
}

/// For counters in the lower half of the range, the comparison that allows
/// for wrapped counters decides as the order of the counters does.
pub proof fn lemma_visibility_by_wrapping_comparison(gate: EpochGate, counter: u64)
    requires
        counter < HALF_RANGE,
        gate.pending_connect matches Some(pending) ==> pending < HALF_RANGE,
        gate.recent_consumed_disconnect matches Some(recent) ==> recent < HALF_RANGE,
    ensures
        gate.spec_visibility(counter) == Visibility::Withhold <==> (gate.pending_connect is Some
            && newer_or_eq(counter, gate.pending_connect->0)),
        gate.spec_visibility(counter) == Visibility::Stale <==> (gate.spec_visibility(counter)
            != Visibility::Withhold && gate.recent_consumed_disconnect is Some && newer_or_eq(
            gate.recent_consumed_disconnect->0,
            counter,
        )),
{
}

} // verus!
