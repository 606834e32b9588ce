//! The cross-boundary delivery gate: a readiness-gated handoff from a
//! notification producer to a consumer that may register only later.
//!
//! This type holds the handoff state: the consumer registration, the
//! readiness flag, and the buffered queue. The surrounding application owns
//! the one instance for the life of the process, wraps it in its lock,
//! parks a producer whenever [`DeliveryGate::send_notification`] reports
//! that no consumer is there yet, and retries the send once one has
//! registered; the consumer drains with [`DeliveryGate::take_pending`].

use vstd::prelude::*;

use crate::notification::{Notification, NotificationView};

verus! {

/// Mathematical model of a [`DeliveryGate`]: whether a consumer has
/// registered (which is what readiness means), and the sent notifications
/// it has not yet drained, oldest first.
#[verifier::ext_equal]
pub struct GateView {
    pub ready: bool,
    pub pending: Seq<NotificationView>,
}

/// The effect of a successful consumer registration: readiness, with
/// nothing already buffered lost.
pub open spec fn listen_transition(g: GateView) -> GateView {
    GateView { ready: true, ..g }
}

/// The effect of one send attempt: before readiness it does nothing at
/// all (the producer has to wait and retry); after readiness the
/// notification is appended to the handoff queue.
pub open spec fn send_transition(g: GateView, n: NotificationView) -> GateView {
    if g.ready {
        GateView { pending: g.pending.push(n), ..g }
    } else {
        g
    }
}

/// A readiness-gated single-producer/single-consumer handoff point.
#[derive(Debug)]
pub struct DeliveryGate {
    ready: bool,
    pending: Vec<Notification>,
}

impl View for DeliveryGate {
    type V = GateView;

    closed spec fn view(&self) -> GateView {
        GateView {
            ready: self.ready,
            pending: self.pending@.map_values(|n: Notification| n@),
        }
    }
}

impl DeliveryGate {
    /// A fresh gate: no consumer yet, nothing buffered.
    pub fn new() -> (r: Self)
        ensures
            r@.ready == false,
            r@.pending == Seq::<NotificationView>::empty(),
    {
        let r = DeliveryGate { ready: false, pending: Vec::new() };
        proof {
            assert(r@.pending =~= Seq::<NotificationView>::empty());
        }
        r
    }

    /// Whether a consumer has registered; sends go through exactly then.
    pub fn is_ready(&self) -> (r: bool)
        ensures
            r == self@.ready,
    {
        self.ready
    }

    /// Registers the consumer. Only the first call succeeds and flips the
    /// gate to ready; a later call changes nothing and reports `false`, so
    /// the first consumer's registration is never replaced.
    pub fn start_listening_notifications(&mut self) -> (registered: bool)
        ensures
            registered == !old(self)@.ready,
            registered ==> final(self)@ == listen_transition(old(self)@),
            !registered ==> final(self)@ == old(self)@,
    {
        if self.ready {
            false
        } else {
            self.ready = true;
            proof {
                assert(self@ =~= listen_transition(old(self)@));
            }
            true
        }
    }

    /// Attempts to hand a notification to the consumer. Before any
    /// consumer has registered nothing happens and the attempt reports
    /// `false`: the producer must block, and retry once a consumer is there.
    /// After registration the notification joins the handoff queue; how
    /// long it sits there is the consumer's business.
    pub fn send_notification(&mut self, notification: Notification) -> (accepted: bool)
        ensures
            accepted == old(self)@.ready,
            final(self)@ == send_transition(old(self)@, notification@),
    {
        if self.ready {
            self.pending.push(notification);
            proof {
                assert(self@ =~= send_transition(old(self)@, notification@));
            }
            true
        } else {
            proof {
                assert(self@ =~= old(self)@);
            }
            false
        }
    }

    /// Drains the handoff queue: the consumer receives everything sent so
    /// far, oldest first, and the queue empties.
    pub fn take_pending(&mut self) -> (drained: Vec<Notification>)
        ensures
            drained@.map_values(|n: Notification| n@) == old(self)@.pending,
            final(self)@.pending == Seq::<NotificationView>::empty(),
            final(self)@.ready == old(self)@.ready,
    {
        let mut drained: Vec<Notification> = Vec::new();
        core::mem::swap(&mut drained, &mut self.pending);
        proof {
            assert(self@.pending =~= Seq::<NotificationView>::empty());
        }
        drained
    }
}

/// The delivery-gate guarantee: a send before any registration changes
/// nothing (the producer stays blocked), while after a registration the
/// same send goes through and the notification reaches the consumer's
/// queue, at the end, with everything already buffered kept before it.
pub proof fn lemma_gate_delivery(g: GateView, n: NotificationView)
    requires
        !g.ready,
    ensures
        send_transition(g, n) == g,
        listen_transition(g).ready,
        send_transition(listen_transition(g), n).pending == g.pending.push(n),
        send_transition(listen_transition(g), n).pending.last() == n,
{
    assert(send_transition(g, n) =~= g);
}

} // verus!
