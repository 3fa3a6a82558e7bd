use vstd::prelude::*;
use crate::json::{Json, find_key, member};
use crate::inbound::Notification;

verus! {

/// The callbacks attached to one task; `C` is whatever the driver runs as a
/// callback.
#[derive(Debug, Clone, PartialEq)]
pub struct TaskHooks<C> {
    pub on_complete: Option<C>,
    pub on_error: Option<C>,
}

/// The two classes of terminal event.
#[derive(PartialEq, Eq, Structural, Clone, Copy, Debug)]
pub enum TerminalKind {
    Complete,
    Error,
}

/// Which terminal event, if any, a notification method announces.
pub open spec fn terminal_kind(method: Seq<char>) -> Option<TerminalKind> {
    if method == "aria2.onDownloadComplete"@ || method == "aria2.onBtDownloadComplete"@ {
        Some(TerminalKind::Complete)
    } else if method == "aria2.onDownloadError"@ {
        Some(TerminalKind::Error)
    } else {
        None
    }
}

/// The task named by a notification: the string `gid` member of its first
/// parameter.
pub open spec fn task_gid(params: Seq<Json>) -> Option<Seq<char>> {
    if params.len() > 0 {
        match params[0] {
            Json::Object(f) => match member(f@, "gid"@) {
                Some(Json::Text(g)) => Some(g@),
                _ => None,
            },
            _ => None,
        }
    } else {
        None
    }
}

/// The callback of `h` that an event of kind `k` fires.
pub open spec fn pick<C>(h: TaskHooks<C>, k: TerminalKind) -> Option<C> {
    match k {
        TerminalKind::Complete => h.on_complete,
        TerminalKind::Error => h.on_error,
    }
}

/// The registration, if any, that notification `n` ends in table `m`.
pub open spec fn ended_task<C>(m: Map<Seq<char>, TaskHooks<C>>, n: Notification) -> Option<
    (Seq<char>, TerminalKind),
> {
    match (terminal_kind(n.method@), task_gid(n.params@)) {
        (Some(k), Some(g)) => if m.contains_key(g) {
            Some((g, k))
        } else {
            None
        },
        _ => None,
    }
}

/// Exec form of `terminal_kind`.
pub fn terminal_kind_of(method: &String) -> (r: Option<TerminalKind>)
    ensures
        r == terminal_kind(method@),
{
    if *method == "aria2.onDownloadComplete".to_owned() || *method
        == "aria2.onBtDownloadComplete".to_owned() {
        Some(TerminalKind::Complete)
    } else if *method == "aria2.onDownloadError".to_owned() {
        Some(TerminalKind::Error)
    } else {
        None
    }
}

/// Exec form of `task_gid`.
pub fn task_gid_of(params: &Vec<Json>) -> (r: Option<String>)
    ensures
        match r {
            Some(g) => task_gid(params@) == Some(g@),
            None => task_gid(params@) is None,
        },
{
    if params.len() == 0 {
        return None;
    }
    match &params[0] {
        Json::Object(f) => match find_key(f, &"gid".to_owned()) {
            Some(i) => match &f[i].1 {
                Json::Text(g) => Some(g.clone()),
                _ => None,
            },
            None => None,
        },
        _ => None,
    }
}

/// Hook registrations keyed by task identifier, at most one per task.
pub struct HookManager<C> {
    regs: Vec<(String, TaskHooks<C>)>,
    table: Ghost<Map<Seq<char>, TaskHooks<C>>>,
}

impl<C> HookManager<C> {
    /// Live registrations by task identifier.
    pub closed spec fn view(&self) -> Map<Seq<char>, TaskHooks<C>> {
        self.table@
    }

    pub closed spec fn size(&self) -> nat {
        self.regs@.len()
    }

    pub closed spec fn wf(&self) -> bool {
        &&& forall|i: int|
            0 <= i < self.regs@.len() ==> {
                &&& self.table@.contains_key(#[trigger] self.regs@[i].0@)
                &&& self.table@[self.regs@[i].0@] == self.regs@[i].1
            }
        &&& forall|g: Seq<char>| #[trigger]
            self.table@.contains_key(g) ==> exists|i: int|
                0 <= i < self.regs@.len() && #[trigger] self.regs@[i].0@ == g
        &&& forall|i: int, j: int|
            0 <= i < self.regs@.len() && 0 <= j < self.regs@.len() && i != j ==> #[trigger] self.regs@[i].0@
                != #[trigger] self.regs@[j].0@
    }

    /// A manager with no registration.
    pub fn new() -> (r: Self)
        ensures
            r.wf(),
            r@ == Map::<Seq<char>, TaskHooks<C>>::empty(),
    {
        HookManager { regs: Vec::new(), table: Ghost(Map::empty()) }
    }

    /// Withdraws the registration of task `gid` and hands it back.
    pub fn withdraw(&mut self, gid: &String) -> (r: Option<TaskHooks<C>>)
        requires
            old(self).wf(),
        ensures
            final(self).wf(),
            final(self)@ == old(self)@.remove(gid@),
            match r {
                Some(h) => old(self)@.contains_key(gid@) && h == old(self)@[gid@],
                None => !old(self)@.contains_key(gid@),
            },
    {
        let mut i: usize = 0;
        while i < self.regs.len()
            invariant
                self.wf(),
                *self == *old(self),
                0 <= i <= self.regs@.len(),
                forall|j: int| 0 <= j < i ==> #[trigger] self.regs@[j].0@ != gid@,
            decreases self.regs.len() - i,
        {
            if self.regs[i].0 == *gid {
                assert(self.table@.contains_key(self.regs@[i as int].0@));
                let ghost old_regs = self.regs@;
                let ghost old_table = self.table@;
                let (_, h) = self.regs.remove(i);
                self.table = Ghost(self.table@.remove(gid@));
                proof {
                    assert forall|g: Seq<char>| #[trigger] self.table@.contains_key(g) implies exists|j: int|
                        0 <= j < self.regs@.len() && #[trigger] self.regs@[j].0@ == g by {
                        let w = choose|w: int| 0 <= w < old_regs.len() && #[trigger] old_regs[w].0@ == g;
                        if w < i {
                            assert(self.regs@[w].0@ == g);
                        } else {
                            assert(w != i);
                            assert(self.regs@[w - 1].0@ == g);
                        }
                    }
                    assert forall|j: int| 0 <= j < self.regs@.len() implies #[trigger] self.regs@[j].0@ != gid@ by {
                        if j < i {
                            assert(old_regs[j].0@ != old_regs[i as int].0@);
                        } else {
                            assert(old_regs[j + 1].0@ != old_regs[i as int].0@);
                        }
                    }
                    assert forall|a: int, b: int|
                        0 <= a < self.regs@.len() && 0 <= b < self.regs@.len() && a != b implies #[trigger] self.regs@[a].0@
                        != #[trigger] self.regs@[b].0@ by {
                        let a0 = if a < i { a } else { a + 1 };
                        let b0 = if b < i { b } else { b + 1 };
                        assert(self.regs@[a] == old_regs[a0]);
                        assert(self.regs@[b] == old_regs[b0]);
                    }
                }
                return Some(h);
            }
            i += 1;
        }
        proof {
            if self@.contains_key(gid@) {
                let k = choose|k: int| 0 <= k < self.regs@.len() && #[trigger] self.regs@[k].0@ == gid@;
                assert(self.regs@[k].0@ != gid@);
            }
        }
        assert(self.table@.remove(gid@) =~= self.table@);
        None
    }

    /// Registers `hooks` for task `gid`, silently replacing an earlier
    /// registration for the same task.
    pub fn register(&mut self, gid: String, hooks: TaskHooks<C>)
        requires
            old(self).wf(),
        ensures
            final(self).wf(),
            final(self)@ == old(self)@.insert(gid@, hooks),
    {
        let _ = self.withdraw(&gid);
        let ghost mid_regs = self.regs@;
        let ghost mid_table = self.table@;
        let ghost key = gid@;
        self.regs.push((gid, hooks));
        self.table = Ghost(self.table@.insert(key, hooks));
        proof {
            assert forall|g: Seq<char>| #[trigger] self.table@.contains_key(g) implies exists|j: int|
                0 <= j < self.regs@.len() && #[trigger] self.regs@[j].0@ == g by {
                if g == key {
                    assert(self.regs@[mid_regs.len() as int].0@ == g);
                } else {
                    let w = choose|w: int| 0 <= w < mid_regs.len() && #[trigger] mid_regs[w].0@ == g;
                    assert(self.regs@[w].0@ == g);
                }
            }
            assert forall|j: int| 0 <= j < mid_regs.len() implies #[trigger] mid_regs[j].0@ != key by {
                assert(mid_table.contains_key(mid_regs[j].0@));
            }
        }
        assert(self.table@ =~= old(self)@.insert(key, hooks));
    }

    /// Drops every registration without firing anything, as when the
    /// connection closes.
    pub fn abandon_all(&mut self)
        requires
            old(self).wf(),
        ensures
            final(self).wf(),
            final(self)@ == Map::<Seq<char>, TaskHooks<C>>::empty(),
    {
        self.regs = Vec::new();
        self.table = Ghost(Map::empty());
    }

    /// Observes one notification: when it is a terminal event for a task with
    /// a live registration, that registration is removed and the callback of
    /// the event's class is handed back to be run.
    pub fn on_notification(&mut self, n: &Notification) -> (r: Option<C>)
        requires
            old(self).wf(),
        ensures
            final(self).wf(),
            match ended_task(old(self)@, *n) {
                Some((g, k)) => final(self)@ == old(self)@.remove(g) && r == pick(old(self)@[g], k),
                None => final(self)@ == old(self)@ && r is None,
            },
    {
        let kind = match terminal_kind_of(&n.method) {
            Some(k) => k,
            None => {
                return None;
            },
        };
        let gid = match task_gid_of(&n.params) {
            Some(g) => g,
            None => {
                return None;
            },
        };
        match self.withdraw(&gid) {
            Some(h) => match kind {
                TerminalKind::Complete => h.on_complete,
                TerminalKind::Error => h.on_error,
            },
            None => None,
        }
    }
}

} // verus!
