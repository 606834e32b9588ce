//! The notification store: the ordered collection of live alerts. One store
//! is shared by every render subtree; the application wraps it in a shared
//! handle and takes a short exclusive borrow for each operation here.

use vstd::prelude::*;

use crate::notification::{expired_at, now_millis, str_eq, Notification, NotificationView};

verus! {

/// Whether an alert is still within its display window at instant `now`.
pub open spec fn live_at(n: NotificationView, now: u64) -> bool {
    !expired_at(n.created_at as int, n.duration as int, now as int)
}

/// What one expiry sweep at instant `now` leaves of a store: exactly the
/// alerts still live at that instant, in their original order.
pub open spec fn sweep(s: Seq<NotificationView>, now: u64) -> Seq<NotificationView> {
    s.filter(|n: NotificationView| live_at(n, now))
}

/// An ordered collection of live alerts. Insertion order is kept; the only
/// mutations are appending, the expiry sweep, and removal by identity.
#[derive(Debug)]
pub struct NotificationStore {
    notifications: Vec<Notification>,
}

impl View for NotificationStore {
    type V = Seq<NotificationView>;

    closed spec fn view(&self) -> Seq<NotificationView> {
        self.notifications@.map_values(|n: Notification| n@)
    }
}

impl Default for NotificationStore {
    fn default() -> (r: Self)
        ensures
            r@ == Seq::<NotificationView>::empty(),
    {
        let r = NotificationStore { notifications: Vec::new() };
        proof {
            assert(r@ =~= Seq::<NotificationView>::empty());
        }
        r
    }
}

impl NotificationStore {
    /// An empty store.
    pub fn new() -> (r: Self)
        ensures
            r@ == Seq::<NotificationView>::empty(),
    {
        let r = NotificationStore { notifications: Vec::new() };
        proof {
            assert(r@ =~= Seq::<NotificationView>::empty());
        }
        r
    }

    /// Appends an alert at the end of the collection; this never fails.
    pub fn add(&mut self, notification: Notification)
        ensures
            final(self)@ == old(self)@.push(notification@),
    {
        self.notifications.push(notification);
        proof {
            assert(self@ =~= old(self)@.push(notification@));
        }
    }

    /// The live ordered collection, in insertion order.
    pub fn all(&self) -> (r: &Vec<Notification>)
        ensures
            r@.map_values(|n: Notification| n@) == self@,
    {
        &self.notifications
    }

    /// Removes, in one pass, every alert that is expired at instant `now`;
    /// the surviving alerts keep their relative order. Safe on an empty
    /// store, where it does nothing.
    pub fn remove_expired_at(&mut self, now: u64)
        ensures
            final(self)@ == sweep(old(self)@, now),
    {
        let ghost s = self@;
        let mut kept: Vec<Notification> = Vec::new();
        let mut i: usize = 0;
        proof {
            reveal(Seq::filter);
            assert(s.take(0) =~= Seq::<NotificationView>::empty());
        }
        while i < self.notifications.len()
            invariant
                i <= self.notifications@.len(),
                s == self@,
                kept@.map_values(|n: Notification| n@) == s.take(i as int).filter(
                    |n: NotificationView| live_at(n, now),
                ),
            decreases self.notifications@.len() - i,
        {
            proof {
                reveal(Seq::filter);
                assert(s.take(i as int + 1).drop_last() =~= s.take(i as int));
                assert(s.take(i as int + 1).last() == s[i as int]);
            }
            if !self.notifications[i].is_expired_at(now) {
                kept.push(self.notifications[i].clone());
                proof {
                    assert(kept@.map_values(|n: Notification| n@) =~= s.take(i as int + 1).filter(
                        |n: NotificationView| live_at(n, now),
                    ));
                }
            }
            i = i + 1;
        }
        proof {
            assert(s.take(self.notifications@.len() as int) =~= s);
        }
        self.notifications = kept;
    }

    /// Removes every alert expired at the instant the ambient clock reports
    /// when this is called: the survivors are exactly the alerts still live
    /// at that one instant. [`NotificationStore::remove_expired_at`]
    /// carries the clock-free contract.
    pub fn remove_expired(&mut self)
        ensures
            exists|now: u64| final(self)@ == #[trigger] sweep(old(self)@, now),
    {
        let now = now_millis();
        self.remove_expired_at(now);
    }

    /// Removes all alerts (and only those) whose id equals `id`; the rest
    /// keep their relative order. An id that is nowhere in the store makes
    /// this a no-op, never an error.
    pub fn remove_by_id(&mut self, id: &str)
        ensures
            final(self)@ == old(self)@.filter(|n: NotificationView| n.id != id@),
    {
        let ghost s = self@;
        let mut kept: Vec<Notification> = Vec::new();
        let mut i: usize = 0;
        proof {
            reveal(Seq::filter);
            assert(s.take(0) =~= Seq::<NotificationView>::empty());
        }
        while i < self.notifications.len()
            invariant
                i <= self.notifications@.len(),
                s == self@,
                kept@.map_values(|n: Notification| n@) == s.take(i as int).filter(
                    |n: NotificationView| n.id != id@,
                ),
            decreases self.notifications@.len() - i,
        {
            proof {
                reveal(Seq::filter);
                assert(s.take(i as int + 1).drop_last() =~= s.take(i as int));
                assert(s.take(i as int + 1).last() == s[i as int]);
            }
            if !str_eq(self.notifications[i].id(), id) {
                kept.push(self.notifications[i].clone());
                proof {
                    assert(kept@.map_values(|n: Notification| n@) =~= s.take(i as int + 1).filter(
                        |n: NotificationView| n.id != id@,
                    ));
                }
            }
            i = i + 1;
        }
        proof {
            assert(s.take(self.notifications@.len() as int) =~= s);
        }
        self.notifications = kept;
    }
}

/// An expiry sweep right after adding an alert removes it when its display
/// time is zero and any time at all has passed, and keeps it (at its place
/// at the end) as long as the sweep happens within its display window.
pub proof fn lemma_sweep_after_add(s: Seq<NotificationView>, n: NotificationView, now: u64)
    ensures
        n.duration == 0 && now > n.created_at ==> sweep(s.push(n), now) == sweep(s, now),
        live_at(n, now) ==> sweep(s.push(n), now) == sweep(s, now).push(n),
{
    reveal(Seq::filter);
    assert(s.push(n).drop_last() =~= s);
}

/// Removing an id that no alert in the store carries changes nothing.
pub proof fn lemma_remove_absent_id(s: Seq<NotificationView>, id: Seq<char>)
    requires
        forall|j: int| 0 <= j < s.len() ==> (#[trigger] s[j]).id != id,
    ensures
        s.filter(|n: NotificationView| n.id != id) == s,
    decreases s.len(),
{
    reveal(Seq::filter);
    if s.len() > 0 {
        lemma_remove_absent_id(s.drop_last(), id);
        assert(s.filter(|n: NotificationView| n.id != id) =~= s);
    }
}

} // verus!
