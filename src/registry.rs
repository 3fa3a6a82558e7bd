use vstd::prelude::*;

verus! {

/// A call waiting for its reply: its identifier and the clock reading at
/// which it times out.
pub struct PendingCall {
    pub id: u64,
    pub deadline: u64,
}

/// Largest identifier handed out, so that every identifier fits in a JSON
/// integer.
pub const MAX_ID: u64 = 0x7fff_ffff_ffff_ffff;

/// The deadline of a call issued at `now` with `timeout`, saturating at the
/// end of the clock.
pub open spec fn deadline_after(now: u64, timeout: u64) -> u64 {
    if now as int + timeout as int > u64::MAX as int {
        u64::MAX
    } else {
        (now + timeout) as u64
    }
}

/// The table of pending calls, keyed by request identifier.
pub struct RequestRegistry {
    next_id: u64,
    default_timeout: u64,
    calls: Vec<PendingCall>,
    table: Ghost<Map<u64, u64>>,
}

impl RequestRegistry {
    /// Pending identifiers and their deadlines.
    pub closed spec fn view(&self) -> Map<u64, u64> {
        self.table@
    }

    /// The identifier that the next call will get.
    pub closed spec fn next_id(&self) -> u64 {
        self.next_id
    }

    /// Number of pending calls.
    pub closed spec fn size(&self) -> nat {
        self.calls@.len()
    }

    pub closed spec fn default_timeout(&self) -> u64 {
        self.default_timeout
    }

    pub closed spec fn wf(&self) -> bool {
        &&& self.next_id <= MAX_ID
        &&& forall|i: int|
            0 <= i < self.calls@.len() ==> {
                &&& self.table@.contains_key(#[trigger] self.calls@[i].id)
                &&& self.table@[self.calls@[i].id] == self.calls@[i].deadline
                &&& self.calls@[i].id < self.next_id
            }
        &&& forall|id: u64| #[trigger]
            self.table@.contains_key(id) ==> exists|i: int|
                0 <= i < self.calls@.len() && #[trigger] self.calls@[i].id == id
        &&& forall|i: int, j: int|
            0 <= i < self.calls@.len() && 0 <= j < self.calls@.len() && i != j ==> #[trigger] self.calls@[i].id
                != #[trigger] self.calls@[j].id
    }

    /// Every pending identifier is below the next one to be handed out.
    pub proof fn lemma_pending_below_next(&self, id: u64)
        requires
            self.wf(),
            self@.contains_key(id),
        ensures
            id < self.next_id(),
    {
        let i = choose|i: int| 0 <= i < self.calls@.len() && #[trigger] self.calls@[i].id == id;
    }

    /// An empty table whose calls time out after `default_timeout` unless
    /// the caller says otherwise.
    pub fn new(default_timeout: u64) -> (r: Self)
        ensures
            r.wf(),
            r@ == Map::<u64, u64>::empty(),
            r.next_id() == 0,
            r.default_timeout() == default_timeout,
    {
        RequestRegistry {
            next_id: 0,
            default_timeout,
            calls: Vec::new(),
            table: Ghost(Map::empty()),
        }
    }

    pub fn get_default_timeout(&self) -> (r: u64)
        ensures
            r == self.default_timeout(),
    {
        self.default_timeout
    }

    /// Whether a call with identifier `id` is pending.
    pub fn contains(&self, id: u64) -> (r: bool)
        requires
            self.wf(),
        ensures
            r == self@.contains_key(id),
    {
        let mut i: usize = 0;
        while i < self.calls.len()
            invariant
                self.wf(),
                0 <= i <= self.calls@.len(),
                forall|j: int| 0 <= j < i ==> #[trigger] self.calls@[j].id != id,
            decreases self.calls.len() - i,
        {
            if self.calls[i].id == id {
                return true;
            }
            i += 1;
        }
        proof {
            if self@.contains_key(id) {
                let k = choose|k: int| 0 <= k < self.calls@.len() && #[trigger] self.calls@[k].id == id;
                assert(self.calls@[k].id != id);
            }
        }
        false
    }

    /// Registers a new call issued at `now`, with `timeout` or the default
    /// one, and returns its fresh identifier; `None` once identifiers are
    /// used up.
    pub fn issue(&mut self, now: u64, timeout: Option<u64>) -> (r: Option<u64>)
        requires
            old(self).wf(),
        ensures
            final(self).wf(),
            final(self).default_timeout() == old(self).default_timeout(),
            old(self).next_id() < MAX_ID <==> r is Some,
            match r {
                Some(id) => {
                    &&& id == old(self).next_id()
                    &&& !old(self)@.contains_key(id)
                    &&& final(self).next_id() == id + 1
                    &&& final(self)@ == old(self)@.insert(
                        id,
                        deadline_after(
                            now,
                            match timeout {
                                Some(t) => t,
                                None => old(self).default_timeout(),
                            },
                        ),
                    )
                },
                None => *final(self) == *old(self),
            },
    {
        if self.next_id >= MAX_ID {
            return None;
        }
        let id = self.next_id;
        let t = match timeout {
            Some(t) => t,
            None => self.default_timeout,
        };
        let deadline = if t > u64::MAX - now {
            u64::MAX
        } else {
            now + t
        };
        proof {
            if self.table@.contains_key(id) {
                self.lemma_pending_below_next(id);
            }
        }
        let ghost old_calls = self.calls@;
        let ghost old_table = self.table@;
        self.calls.push(PendingCall { id, deadline });
        self.table = Ghost(self.table@.insert(id, deadline));
        self.next_id = id + 1;
        proof {
            assert forall|k: u64| #[trigger] self.table@.contains_key(k) implies exists|i: int|
                0 <= i < self.calls@.len() && #[trigger] self.calls@[i].id == k by {
                if k == id {
                    assert(self.calls@[old_calls.len() as int].id == k);
                } else {
                    assert(old_table.contains_key(k));
                    let i = choose|i: int| 0 <= i < old_calls.len() && #[trigger] old_calls[i].id == k;
                    assert(self.calls@[i].id == k);
                }
            }
            assert forall|i: int| 0 <= i < old_calls.len() implies #[trigger] old_calls[i].id != id by {
                assert(old_table.contains_key(old_calls[i].id));
            }
        }
        Some(id)
    }

    /// Takes the call `id` out of the table; `true` when it was pending.
    pub fn resolve(&mut self, id: u64) -> (r: bool)
        requires
            old(self).wf(),
        ensures
            final(self).wf(),
            r == old(self)@.contains_key(id),
            final(self)@ == old(self)@.remove(id),
            r ==> final(self).size() + 1 == old(self).size(),
            final(self).next_id() == old(self).next_id(),
            final(self).default_timeout() == old(self).default_timeout(),
    {
        let mut i: usize = 0;
        while i < self.calls.len()
            invariant
                self.wf(),
                *self == *old(self),
                0 <= i <= self.calls@.len(),
                forall|j: int| 0 <= j < i ==> #[trigger] self.calls@[j].id != id,
            decreases self.calls.len() - i,
        {
            if self.calls[i].id == id {
                assert(self.table@.contains_key(self.calls@[i as int].id));
                let ghost old_calls = self.calls@;
                let ghost old_table = self.table@;
                self.calls.remove(i);
                self.table = Ghost(self.table@.remove(id));
                proof {
                    assert forall|k: u64| #[trigger] self.table@.contains_key(k) implies exists|j: int|
                        0 <= j < self.calls@.len() && #[trigger] self.calls@[j].id == k by {
                        let w = choose|w: int| 0 <= w < old_calls.len() && #[trigger] old_calls[w].id == k;
                        if w < i {
                            assert(self.calls@[w].id == k);
                        } else {
                            assert(w != i);
                            assert(self.calls@[w - 1].id == k);
                        }
                    }
                    assert forall|j: int| 0 <= j < self.calls@.len() implies #[trigger] self.calls@[j].id != id by {
                        if j < i {
                            assert(old_calls[j].id != old_calls[i as int].id);
                        } else {
                            assert(old_calls[j + 1].id != old_calls[i as int].id);
                        }
                    }
                    assert forall|a: int, b: int|
                        0 <= a < self.calls@.len() && 0 <= b < self.calls@.len() && a != b implies #[trigger] self.calls@[a].id
                        != #[trigger] self.calls@[b].id by {
                        let a0 = if a < i { a } else { a + 1 };
                        let b0 = if b < i { b } else { b + 1 };
                        assert(self.calls@[a] == old_calls[a0]);
                        assert(self.calls@[b] == old_calls[b0]);
                    }
                }
                return true;
            }
            i += 1;
        }
        proof {
            if self@.contains_key(id) {
                let k = choose|k: int| 0 <= k < self.calls@.len() && #[trigger] self.calls@[k].id == id;
                assert(self.calls@[k].id != id);
            }
        }
        assert(self.table@.remove(id) =~= self.table@);
        false
    }

    /// Some pending call whose deadline is at or before `now`, if any.
    pub fn next_expired(&self, now: u64) -> (r: Option<u64>)
        requires
            self.wf(),
        ensures
            match r {
                Some(id) => self@.contains_key(id) && self@[id] <= now,
                None => forall|id: u64| #[trigger] self@.contains_key(id) ==> self@[id] > now,
            },
    {
        let mut i: usize = 0;
        while i < self.calls.len()
            invariant
                self.wf(),
                0 <= i <= self.calls@.len(),
                forall|j: int| 0 <= j < i ==> #[trigger] self.calls@[j].deadline > now,
            decreases self.calls.len() - i,
        {
            if self.calls[i].deadline <= now {
                return Some(self.calls[i].id);
            }
            i += 1;
        }
        proof {
            assert forall|id: u64| #[trigger] self@.contains_key(id) implies self@[id] > now by {
                let k = choose|k: int| 0 <= k < self.calls@.len() && #[trigger] self.calls@[k].id == id;
                assert(self.calls@[k].deadline > now);
            }
        }
        None
    }

    /// Takes out every call whose deadline is at or before `now` and returns
    /// their identifiers, each once.
    pub fn expire(&mut self, now: u64) -> (r: Vec<u64>)
        requires
            old(self).wf(),
        ensures
            final(self).wf(),
            final(self).next_id() == old(self).next_id(),
            final(self).default_timeout() == old(self).default_timeout(),
            final(self)@ == old(self)@.restrict(Set::new(|id: u64| old(self)@[id] > now)),
            r@.to_set() == old(self)@.dom().filter(|id: u64| old(self)@[id] <= now),
            r@.no_duplicates(),
    {
        let mut ids: Vec<u64> = Vec::new();
        loop
            invariant
                self.wf(),
                self.next_id() == old(self).next_id(),
                self.default_timeout() == old(self).default_timeout(),
                forall|id: u64| #[trigger]
                    self@.contains_key(id) <==> (old(self)@.contains_key(id) && !ids@.contains(id)),
                forall|id: u64| #[trigger] self@.contains_key(id) ==> self@[id] == old(self)@[id],
                forall|k: int|
                    0 <= k < ids@.len() ==> old(self)@.contains_key(#[trigger] ids@[k]) && old(
                        self,
                    )@[ids@[k]] <= now,
                ids@.no_duplicates(),
            ensures
                forall|id: u64| #[trigger] self@.contains_key(id) ==> self@[id] > now,
            decreases self.size(),
        {
            match self.next_expired(now) {
                Some(id) => {
                    let ghost before = ids@;
                    self.resolve(id);
                    ids.push(id);
                    proof {
                        assert forall|k: int| 0 <= k < ids@.len() implies old(self)@.contains_key(
                            #[trigger] ids@[k],
                        ) && old(self)@[ids@[k]] <= now by {
                            if k < before.len() {
                                assert(ids@[k] == before[k]);
                            }
                        }
                        assert forall|id2: u64| #[trigger] ids@.contains(id2) <==> (before.contains(id2) || id2 == id) by {
                            if ids@.contains(id2) {
                                let k = choose|k: int| 0 <= k < ids@.len() && ids@[k] == id2;
                                if k < before.len() {
                                    assert(before[k] == id2);
                                }
                            }
                            if before.contains(id2) {
                                let k = choose|k: int| 0 <= k < before.len() && before[k] == id2;
                                assert(ids@[k] == id2);
                            }
                            if id2 == id {
                                assert(ids@[before.len() as int] == id2);
                            }
                        }
                    }
                },
                None => {
                    break;
                },
            }
        }
        proof {
            let keep = Set::new(|id: u64| old(self)@[id] > now);
            assert(self@ =~= old(self)@.restrict(keep)) by {
                assert forall|id: u64| #[trigger] old(self)@.contains_key(id) && keep.contains(id) implies self@.contains_key(id) by {
                    if ids@.contains(id) {
                        let k = choose|k: int| 0 <= k < ids@.len() && ids@[k] == id;
                        assert(old(self)@[ids@[k]] <= now);
                    }
                }
            }
            let gone = old(self)@.dom().filter(|id: u64| old(self)@[id] <= now);
            assert(ids@.to_set() =~= gone) by {
                assert forall|id: u64| #[trigger] ids@.to_set().contains(id) implies gone.contains(id) by {
                    let k = choose|k: int| 0 <= k < ids@.len() && ids@[k] == id;
                    assert(old(self)@.contains_key(ids@[k]));
                }
                assert forall|id: u64| #[trigger] gone.contains(id) implies ids@.to_set().contains(id) by {
                    if !ids@.contains(id) {
                        assert(self@.contains_key(id));
                    }
                }
            }
        }
        ids
    }

    /// Takes out every pending call, as on connection closure, and returns
    /// their identifiers, each once.
    pub fn close(&mut self) -> (r: Vec<u64>)
        requires
            old(self).wf(),
        ensures
            final(self).wf(),
            final(self).next_id() == old(self).next_id(),
            final(self).default_timeout() == old(self).default_timeout(),
            final(self)@ == Map::<u64, u64>::empty(),
            r@.to_set() == old(self)@.dom(),
            r@.no_duplicates(),
    {
        let r = self.expire(u64::MAX);
        assert(self@ =~= Map::<u64, u64>::empty());
        assert(old(self)@.dom().filter(|id: u64| old(self)@[id] <= u64::MAX) =~= old(self)@.dom());
        r
    }
}

} // verus!
