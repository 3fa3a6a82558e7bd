use vstd::prelude::*;
use crate::inbound::Notification;

verus! {

/// Fan-out of notifications to any number of subscriptions.
///
/// Every published notification is kept in one log with an absolute
/// sequence number; each live subscription holds a cursor into it. Delivery
/// to one subscription never waits on another: a subscription that does not
/// read just keeps an older cursor (unbounded buffering), and the log is
/// trimmed only below the oldest cursor.
pub struct NotificationBus {
    log: Vec<Notification>,
    base: u64,
    slots: Vec<Option<u64>>,
    history: Ghost<Seq<Notification>>,
}

/// `new` is `old` after publishing `n`.
pub open spec fn publishes(old: NotificationBus, new: NotificationBus, n: Notification) -> bool {
    &&& new.wf()
    &&& new.history() == old.history().push(n)
    &&& forall|g: int| #[trigger] new.live(g) == old.live(g)
    &&& forall|g: int| #[trigger] old.live(g) ==> new.queue(g) == old.queue(g).push(n)
}

impl NotificationBus {
    /// Every notification published so far, in order.
    pub closed spec fn history(&self) -> Seq<Notification> {
        self.history@
    }

    /// Whether handle `h` names a live subscription.
    pub closed spec fn live(&self, h: int) -> bool {
        0 <= h < self.slots@.len() && self.slots@[h] is Some
    }

    /// What subscription `h` has yet to receive, oldest first.
    pub closed spec fn queue(&self, h: int) -> Seq<Notification> {
        self.history@.subrange(self.slots@[h]->0 as int, self.history@.len() as int)
    }

    /// Whether sequence number `seq` can still be read with `get`.
    pub closed spec fn retained(&self, seq: int) -> bool {
        self.base <= seq < self.history@.len()
    }

    pub closed spec fn wf(&self) -> bool {
        &&& self.base + self.log@.len() == self.history@.len()
        &&& self.history@.len() <= u64::MAX
        &&& forall|k: int| 0 <= k < self.log@.len() ==> #[trigger] self.log@[k] == self.history@[self.base + k]
        &&& forall|h: int|
            0 <= h < self.slots@.len() && #[trigger] self.slots@[h] is Some ==> self.base
                <= self.slots@[h]->0 <= self.history@.len()
    }

    /// A bus with nothing published and no subscription.
    pub fn new() -> (r: Self)
        ensures
            r.wf(),
            r.history() == Seq::<Notification>::empty(),
            forall|h: int| !r.live(h),
    {
        NotificationBus { log: Vec::new(), base: 0, slots: Vec::new(), history: Ghost(Seq::empty()) }
    }

    /// Whether the sequence numbers are used up, so that nothing more can be
    /// published.
    pub fn is_full(&self) -> (r: bool)
        requires
            self.wf(),
        ensures
            r == (self.history().len() == u64::MAX),
            self.history().len() <= u64::MAX,
    {
        self.base + self.log.len() as u64 == u64::MAX
    }

    /// Opens a subscription that receives every notification published from
    /// now on, and none published before.
    pub fn subscribe(&mut self) -> (h: usize)
        requires
            old(self).wf(),
        ensures
            final(self).wf(),
            final(self).history() == old(self).history(),
            !old(self).live(h as int),
            final(self).live(h as int),
            final(self).queue(h as int) == Seq::<Notification>::empty(),
            forall|g: int|
                g != h ==> (#[trigger] final(self).live(g) == old(self).live(g)) && (old(self).live(g)
                    ==> final(self).queue(g) == old(self).queue(g)),
    {
        let now = self.base + self.log.len() as u64;
        let mut i: usize = 0;
        while i < self.slots.len()
            invariant
                self.wf(),
                *self == *old(self),
                now == self.history@.len(),
                0 <= i <= self.slots@.len(),
                forall|j: int| 0 <= j < i ==> #[trigger] self.slots@[j] is Some,
            decreases self.slots.len() - i,
        {
            if self.slots[i].is_none() {
                self.slots.set(i, Some(now));
                return i;
            }
            i += 1;
        }
        self.slots.push(Some(now));
        i
    }

    /// Closes subscription `h`; nothing more is delivered to it.
    pub fn unsubscribe(&mut self, h: usize)
        requires
            old(self).wf(),
        ensures
            final(self).wf(),
            final(self).history() == old(self).history(),
            !final(self).live(h as int),
            forall|g: int|
                g != h ==> (#[trigger] final(self).live(g) == old(self).live(g)) && (old(self).live(g)
                    ==> final(self).queue(g) == old(self).queue(g)),
    {
        if h < self.slots.len() {
            self.slots.set(h, None);
        }
    }

    /// Publishes `n` to every live subscription.
    pub fn publish(&mut self, n: Notification)
        requires
            old(self).wf(),
            old(self).history().len() < u64::MAX,
        ensures
            publishes(*old(self), *final(self), n),
    {
        self.log.push(n);
        self.history = Ghost(self.history@.push(n));
        proof {
            assert forall|g: int| #[trigger] old(self).live(g) implies self.queue(g) == old(self).queue(
                g,
            ).push(n) by {
                assert(self.queue(g) =~= old(self).queue(g).push(n));
            }
        }
    }

    /// Takes the oldest notification that subscription `h` has not received
    /// yet and returns its sequence number, or `None` when it has received
    /// all of them.
    pub fn recv(&mut self, h: usize) -> (r: Option<u64>)
        requires
            old(self).wf(),
            old(self).live(h as int),
        ensures
            final(self).wf(),
            final(self).history() == old(self).history(),
            forall|g: int| #[trigger] final(self).live(g) == old(self).live(g),
            forall|g: int|
                g != h && #[trigger] old(self).live(g) ==> final(self).queue(g) == old(self).queue(g),
            match r {
                None => old(self).queue(h as int).len() == 0 && final(self).queue(h as int) == old(
                    self,
                ).queue(h as int),
                Some(seq) => {
                    &&& old(self).queue(h as int).len() > 0
                    &&& final(self).retained(seq as int)
                    &&& old(self).history()[seq as int] == old(self).queue(h as int)[0]
                    &&& final(self).queue(h as int) == old(self).queue(h as int).drop_first()
                },
            },
    {
        let c = self.slots[h].unwrap();
        if c == self.base + self.log.len() as u64 {
            return None;
        }
        self.slots.set(h, Some(c + 1));
        proof {
            assert(self.queue(h as int) =~= old(self).queue(h as int).drop_first());
        }
        Some(c)
    }

    /// The notification with sequence number `seq`.
    pub fn get(&self, seq: u64) -> (r: &Notification)
        requires
            self.wf(),
            self.retained(seq as int),
        ensures
            *r == self.history()[seq as int],
    {
        let d: u64 = seq - self.base;
        let n = self.log.len();
        assert(d < n);
        let k = d as usize;
        assert(k as int == seq - self.base);
        assert(self.log@[k as int] == self.history@[self.base + k]);
        &self.log[k]
    }

    /// Drops from the log what every live subscription has received, keeping
    /// sequence number `keep` readable.
    pub fn compact_keeping(&mut self, keep: u64)
        requires
            old(self).wf(),
        ensures
            final(self).wf(),
            old(self).retained(keep as int) ==> final(self).retained(keep as int),
            final(self).history() == old(self).history(),
            forall|g: int| #[trigger] final(self).live(g) == old(self).live(g),
            forall|g: int| #[trigger] old(self).live(g) ==> final(self).queue(g) == old(self).queue(g),
    {
        let mut low = self.base + self.log.len() as u64;
        if self.base <= keep && keep < low {
            low = keep;
        }
        let mut i: usize = 0;
        while i < self.slots.len()
            invariant
                self.wf(),
                *self == *old(self),
                0 <= i <= self.slots@.len(),
                self.base <= low <= self.history@.len(),
                self.base <= keep < self.history@.len() ==> low <= keep,
                forall|j: int| 0 <= j < i && #[trigger] self.slots@[j] is Some ==> low <= self.slots@[j]->0,
            decreases self.slots.len() - i,
        {
            match self.slots[i] {
                Some(c) => {
                    if c < low {
                        low = c;
                    }
                },
                None => {},
            }
            i += 1;
        }
        let cut = (low - self.base) as usize;
        let ghost old_log = self.log@;
        self.log = self.log.split_off(cut);
        self.base = low;
        proof {
            assert forall|k: int| 0 <= k < self.log@.len() implies #[trigger] self.log@[k] == self.history@[self.base + k] by {
                assert(self.log@[k] == old_log[k + cut]);
            }
        }
    }
}

} // verus!
