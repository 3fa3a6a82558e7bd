use vstd::prelude::*;
use vstd::string::StringExecFns;
use crate::json::Json;
use crate::inbound::{Inbound, Notification, Outcome, classify, is_classification};
use crate::registry::{RequestRegistry, deadline_after};
use crate::bus::{NotificationBus, publishes};
use crate::hooks::{HookManager, TaskHooks, ended_task, pick};

verus! {

/// Why a call failed, so that a caller can branch without reading text.
#[derive(Debug, Clone, PartialEq)]
pub enum CallError {
    /// The transport could not send the call.
    Transport(String),
    /// The server answered with an error payload.
    Remote { code: i64, message: String },
    /// No reply came before the deadline.
    Timeout,
    /// The connection closed first, or was closed already.
    ConnectionClosed,
    /// Every request identifier of this connection has been used.
    IdsExhausted,
    /// The reply does not have the shape that the call promises.
    UnexpectedReply,
}

/// A call ready for the transport: its identifier and its envelope.
#[derive(Debug, PartialEq)]
pub struct OutgoingCall {
    pub id: u64,
    pub envelope: Json,
}

/// What the driver has to do after one inbound message.
#[derive(Debug, PartialEq)]
pub enum Dispatch<C> {
    /// Deliver `result` to the caller waiting on `id`.
    Resolved { id: u64, result: Result<Json, CallError> },
    /// A reply for no pending call: nothing to do.
    Discarded,
    /// A notification was published; run `fire` if there is one.
    Published { fire: Option<C> },
    /// The message was malformed, or came after closure: log and go on.
    Dropped,
}

/// The parameter list sent for `params`, with the secret token in front
/// when there is one.
pub open spec fn args_with_secret(p: Seq<Json>, secret: Option<String>, params: Seq<Json>) -> bool {
    match secret {
        None => p == params,
        Some(t) => {
            &&& p.len() == params.len() + 1
            &&& (p[0] matches Json::Text(s) && s@ == "token:"@ + t@)
            &&& p.drop_first() == params
        },
    }
}

/// `j` is the envelope of call `id` to `method` with parameter list `args`.
pub open spec fn is_envelope(j: Json, id: u64, method: Seq<char>, args: Seq<Json>) -> bool {
    match j {
        Json::Object(f) => {
            &&& f@.len() == 4
            &&& f@[0].0@ == "jsonrpc"@ && (f@[0].1 matches Json::Text(s) && s@ == "2.0"@)
            &&& f@[1].0@ == "id"@ && f@[1].1 == Json::Int(id as i64)
            &&& f@[2].0@ == "method"@ && (f@[2].1 matches Json::Text(m) && m@ == "aria2."@ + method)
            &&& f@[3].0@ == "params"@ && (f@[3].1 matches Json::Array(p) && p@ == args)
        },
        _ => false,
    }
}

/// The whole parameter list of envelope `j`.
pub open spec fn sent_args(j: Json) -> Seq<Json> {
    match j {
        Json::Object(f) => match f@[3].1 {
            Json::Array(p) => p@,
            _ => Seq::empty(),
        },
        _ => Seq::empty(),
    }
}

/// The caller's parameters carried by envelope `j`, after the token if
/// there is one.
pub open spec fn call_args(j: Json, secret: Option<String>) -> Seq<Json> {
    if secret is Some {
        sent_args(j).drop_first()
    } else {
        sent_args(j)
    }
}

/// The result a reply outcome gives its caller.
pub open spec fn result_of(o: Outcome) -> Result<Json, CallError> {
    match o {
        Outcome::Success(v) => Ok(v),
        Outcome::Remote { code, message } => Err(CallError::Remote { code, message }),
    }
}

fn result_from(o: Outcome) -> (r: Result<Json, CallError>)
    ensures
        r == result_of(o),
{
    match o {
        Outcome::Success(v) => Ok(v),
        Outcome::Remote { code, message } => Err(CallError::Remote { code, message }),
    }
}

/// The task identifier carried by the reply to a call that adds a task.
pub fn reply_gid(reply: Json) -> (r: Result<String, CallError>)
    ensures
        match reply {
            Json::Text(g) => r == Ok::<String, CallError>(g),
            _ => r == Err::<String, CallError>(CallError::UnexpectedReply),
        },
{
    match reply {
        Json::Text(g) => Ok(g),
        _ => Err(CallError::UnexpectedReply),
    }
}

fn envelope(id: u64, method: &str, args: Vec<Json>) -> (r: Json)
    requires
        id <= crate::registry::MAX_ID,
    ensures
        is_envelope(r, id, method@, args@),
{
    let mut name = "aria2.".to_owned();
    name.append(method);
    let mut f: Vec<(String, Json)> = Vec::new();
    f.push(("jsonrpc".to_owned(), Json::Text("2.0".to_owned())));
    f.push(("id".to_owned(), Json::Int(id as i64)));
    f.push(("method".to_owned(), Json::Text(name)));
    f.push(("params".to_owned(), Json::Array(args)));
    Json::Object(f)
}

/// The protocol engine of one connection.
pub struct Client<C> {
    registry: RequestRegistry,
    bus: NotificationBus,
    hooks: HookManager<C>,
    secret: Option<String>,
    extended_timeout: u64,
    closed: bool,
}

impl<C> Client<C> {
    pub closed spec fn registry(&self) -> RequestRegistry {
        self.registry
    }

    pub closed spec fn bus(&self) -> NotificationBus {
        self.bus
    }

    pub closed spec fn hooks(&self) -> HookManager<C> {
        self.hooks
    }

    pub closed spec fn secret(&self) -> Option<String> {
        self.secret
    }

    pub closed spec fn extended_timeout(&self) -> u64 {
        self.extended_timeout
    }

    pub closed spec fn is_closed(&self) -> bool {
        self.closed
    }

    pub closed spec fn wf(&self) -> bool {
        &&& self.registry.wf()
        &&& self.bus.wf()
        &&& self.hooks.wf()
    }

    /// The engine of a freshly opened connection.
    pub fn new(secret: Option<String>, default_timeout: u64, extended_timeout: u64) -> (r: Self)
        ensures
            r.wf(),
            !r.is_closed(),
            r.secret() == secret,
            r.extended_timeout() == extended_timeout,
            r.registry()@ == Map::<u64, u64>::empty(),
            r.registry().next_id() == 0,
            r.registry().default_timeout() == default_timeout,
            r.bus().history() == Seq::<Notification>::empty(),
            forall|h: int| !r.bus().live(h),
            r.hooks()@ == Map::<Seq<char>, TaskHooks<C>>::empty(),
    {
        Client {
            registry: RequestRegistry::new(default_timeout),
            bus: NotificationBus::new(),
            hooks: HookManager::new(),
            secret,
            extended_timeout,
            closed: false,
        }
    }

    /// The longer timeout used by calls that make the server wait.
    pub fn get_extended_timeout(&self) -> (r: u64)
        ensures
            r == self.extended_timeout(),
    {
        self.extended_timeout
    }

    pub fn get_closed(&self) -> (r: bool)
        ensures
            r == self.is_closed(),
    {
        self.closed
    }
}

/// `new` is `old` after issuing a call to `method` at `now` with `timeout`,
/// and `r` is what the issuing returned; the parameters are checked apart.
pub open spec fn issues<C>(
    old: Client<C>,
    new: Client<C>,
    method: Seq<char>,
    timeout: Option<u64>,
    now: u64,
    r: Result<OutgoingCall, CallError>,
) -> bool {
    &&& new.wf()
    &&& new.bus() == old.bus()
    &&& new.hooks() == old.hooks()
    &&& new.secret() == old.secret()
    &&& new.extended_timeout() == old.extended_timeout()
    &&& new.is_closed() == old.is_closed()
    &&& new.registry().default_timeout() == old.registry().default_timeout()
    &&& if old.is_closed() {
        r == Err::<OutgoingCall, CallError>(CallError::ConnectionClosed) && new.registry()
            == old.registry()
    } else if old.registry().next_id() >= crate::registry::MAX_ID {
        r == Err::<OutgoingCall, CallError>(CallError::IdsExhausted) && new.registry()
            == old.registry()
    } else {
        match r {
            Ok(c) => {
                &&& c.id == old.registry().next_id()
                &&& !old.registry()@.contains_key(c.id)
                &&& new.registry().next_id() == c.id + 1
                &&& new.registry()@ == old.registry()@.insert(
                    c.id,
                    deadline_after(
                        now,
                        match timeout {
                            Some(t) => t,
                            None => old.registry().default_timeout(),
                        },
                    ),
                )
                &&& is_envelope(c.envelope, c.id, method, sent_args(c.envelope))
                &&& args_with_secret(
                    sent_args(c.envelope),
                    old.secret(),
                    call_args(c.envelope, old.secret()),
                )
            },
            Err(_) => false,
        }
    }
}


/// What handling an inbound message classified as `c` does: `new` and `r`
/// follow from `old` and `c`.
pub open spec fn dispatched<C>(old: Client<C>, new: Client<C>, c: Inbound, r: Dispatch<C>) -> bool {
    match c {
        Inbound::Reply { id, outcome } => if old.registry()@.contains_key(id) {
            &&& r == Dispatch::<C>::Resolved { id, result: result_of(outcome) }
            &&& new.registry()@ == old.registry()@.remove(id)
            &&& new.registry().next_id() == old.registry().next_id()
            &&& new.registry().default_timeout() == old.registry().default_timeout()
            &&& new.bus() == old.bus()
            &&& new.hooks() == old.hooks()
        } else {
            r is Discarded && new == old
        },
        Inbound::Notice(n) => if old.bus().history().len() < u64::MAX {
            &&& new.registry() == old.registry()
            &&& publishes(old.bus(), new.bus(), n)
            &&& match ended_task(old.hooks()@, n) {
                Some((g, k)) => new.hooks()@ == old.hooks()@.remove(g) && r == Dispatch::<C>::Published {
                    fire: pick(old.hooks()@[g], k),
                },
                None => new.hooks()@ == old.hooks()@ && r == Dispatch::<C>::Published { fire: None },
            }
        } else {
            r is Dropped && new == old
        },
        Inbound::Malformed => r is Dropped && new == old,
    }
}

/// `new` is `old` after closure, which returned the identifiers `ids`.
pub open spec fn closes<C>(old: Client<C>, new: Client<C>, ids: Seq<u64>) -> bool {
    &&& new.wf()
    &&& new.is_closed()
    &&& new.secret() == old.secret()
    &&& new.extended_timeout() == old.extended_timeout()
    &&& new.bus() == old.bus()
    &&& new.registry().next_id() == old.registry().next_id()
    &&& new.registry()@ == Map::<u64, u64>::empty()
    &&& new.hooks()@ == Map::<Seq<char>, TaskHooks<C>>::empty()
    &&& ids.to_set() == old.registry()@.dom()
    &&& ids.no_duplicates()
}

impl<C> Client<C> {
    /// Issues a call: allocates a fresh identifier, registers it as pending
    /// with `timeout` (or the default one) from `now`, and returns the
    /// envelope to send.
    pub fn call(&mut self, method: &str, params: Vec<Json>, timeout: Option<u64>, now: u64) -> (r:
        Result<OutgoingCall, CallError>)
        requires
            old(self).wf(),
        ensures
            issues(*old(self), *final(self), method@, timeout, now, r),
            r matches Ok(c) ==> call_args(c.envelope, old(self).secret()) == params@,
    {
        if self.closed {
            return Err(CallError::ConnectionClosed);
        }
        let id = match self.registry.issue(now, timeout) {
            Some(id) => id,
            None => {
                return Err(CallError::IdsExhausted);
            },
        };
        let mut args = params;
        match &self.secret {
            Some(t) => {
                let mut token = "token:".to_owned();
                token.append(t.as_str());
                args.insert(0, Json::Text(token));
                assert(args@.drop_first() =~= params@);
            },
            None => {},
        }
        let envelope = envelope(id, method, args);
        Ok(OutgoingCall { id, envelope })
    }

    /// Handles one decoded inbound message: a reply resolves its pending
    /// call or, when none is pending under its identifier, is discarded; a
    /// notification fires the hook it ends, if any, and is published to
    /// every subscription; a malformed message is dropped. After closure
    /// every message is dropped.
    pub fn on_message(&mut self, msg: Json) -> (r: Dispatch<C>)
        requires
            old(self).wf(),
        ensures
            final(self).wf(),
            final(self).secret() == old(self).secret(),
            final(self).extended_timeout() == old(self).extended_timeout(),
            final(self).is_closed() == old(self).is_closed(),
            old(self).is_closed() ==> r is Dropped && *final(self) == *old(self),
            !old(self).is_closed() ==> exists|c: Inbound|
                is_classification(msg, c) && dispatched(*old(self), *final(self), c, r),
    {
        if self.closed {
            return Dispatch::Dropped;
        }
        let c = classify(msg);
        let ghost c0 = c;
        match c {
            Inbound::Reply { id, outcome } => {
                if self.registry.contains(id) {
                    self.registry.resolve(id);
                    let result = result_from(outcome);
                    assert(dispatched(*old(self), *self, c0, Dispatch::Resolved { id, result }));
                    Dispatch::Resolved { id, result }
                } else {
                    assert(dispatched(*old(self), *self, c0, Dispatch::Discarded));
                    Dispatch::Discarded
                }
            },
            Inbound::Notice(n) => {
                if self.bus.is_full() {
                    assert(dispatched(*old(self), *self, c0, Dispatch::Dropped));
                    return Dispatch::Dropped;
                }
                let fire = self.hooks.on_notification(&n);
                self.bus.publish(n);
                assert(dispatched(*old(self), *self, c0, Dispatch::Published { fire }));
                Dispatch::Published { fire }
            },
            Inbound::Malformed => {
                assert(dispatched(*old(self), *self, c0, Dispatch::Dropped));
                Dispatch::Dropped
            },
        }
    }

    /// Times out every call whose deadline is at or before `now`: they leave
    /// the table and their identifiers are returned, each once.
    pub fn expire_calls(&mut self, now: u64) -> (r: Vec<u64>)
        requires
            old(self).wf(),
        ensures
            final(self).wf(),
            final(self).secret() == old(self).secret(),
            final(self).extended_timeout() == old(self).extended_timeout(),
            final(self).is_closed() == old(self).is_closed(),
            final(self).bus() == old(self).bus(),
            final(self).hooks() == old(self).hooks(),
            final(self).registry().next_id() == old(self).registry().next_id(),
            final(self).registry().default_timeout() == old(self).registry().default_timeout(),
            final(self).registry()@ == old(self).registry()@.restrict(
                Set::new(|id: u64| old(self).registry()@[id] > now),
            ),
            r@.to_set() == old(self).registry()@.dom().filter(
                |id: u64| old(self).registry()@[id] <= now,
            ),
            r@.no_duplicates(),
    {
        self.registry.expire(now)
    }

    /// Withdraws pending call `id`, for a caller that gave up on it or
    /// could not send it; `true` when it was pending.
    pub fn withdraw_call(&mut self, id: u64) -> (r: bool)
        requires
            old(self).wf(),
        ensures
            final(self).wf(),
            final(self).secret() == old(self).secret(),
            final(self).extended_timeout() == old(self).extended_timeout(),
            final(self).is_closed() == old(self).is_closed(),
            final(self).bus() == old(self).bus(),
            final(self).hooks() == old(self).hooks(),
            final(self).registry().next_id() == old(self).registry().next_id(),
            final(self).registry().default_timeout() == old(self).registry().default_timeout(),
            r == old(self).registry()@.contains_key(id),
            final(self).registry()@ == old(self).registry()@.remove(id),
    {
        self.registry.resolve(id)
    }

    /// Closes the connection: every pending call leaves the table (their
    /// identifiers are returned, each once, to be failed as closed), every
    /// hook registration is abandoned unfired, and later calls and messages
    /// are refused.
    pub fn close(&mut self) -> (r: Vec<u64>)
        requires
            old(self).wf(),
        ensures
            closes(*old(self), *final(self), r@),
    {
        self.closed = true;
        self.hooks.abandon_all();
        self.registry.close()
    }

    /// Attaches `hooks` to task `gid`, replacing an earlier registration.
    pub fn register_hooks(&mut self, gid: String, hooks: TaskHooks<C>)
        requires
            old(self).wf(),
        ensures
            final(self).wf(),
            final(self).secret() == old(self).secret(),
            final(self).extended_timeout() == old(self).extended_timeout(),
            final(self).is_closed() == old(self).is_closed(),
            final(self).bus() == old(self).bus(),
            final(self).registry() == old(self).registry(),
            final(self).hooks()@ == old(self).hooks()@.insert(gid@, hooks),
    {
        self.hooks.register(gid, hooks);
    }

    /// Opens a subscription to every notification published from now on.
    pub fn subscribe_notifications(&mut self) -> (h: usize)
        requires
            old(self).wf(),
        ensures
            final(self).wf(),
            final(self).secret() == old(self).secret(),
            final(self).extended_timeout() == old(self).extended_timeout(),
            final(self).is_closed() == old(self).is_closed(),
            final(self).registry() == old(self).registry(),
            final(self).hooks() == old(self).hooks(),
            final(self).bus().history() == old(self).bus().history(),
            !old(self).bus().live(h as int),
            final(self).bus().live(h as int),
            final(self).bus().queue(h as int) == Seq::<Notification>::empty(),
            forall|g: int|
                g != h ==> (#[trigger] final(self).bus().live(g) == old(self).bus().live(g)) && (old(
                    self,
                ).bus().live(g) ==> final(self).bus().queue(g) == old(self).bus().queue(g)),
    {
        self.bus.subscribe()
    }

    /// Ends subscription `h`.
    pub fn unsubscribe_notifications(&mut self, h: usize)
        requires
            old(self).wf(),
        ensures
            final(self).wf(),
            final(self).secret() == old(self).secret(),
            final(self).extended_timeout() == old(self).extended_timeout(),
            final(self).is_closed() == old(self).is_closed(),
            final(self).registry() == old(self).registry(),
            final(self).hooks() == old(self).hooks(),
            final(self).bus().history() == old(self).bus().history(),
            !final(self).bus().live(h as int),
            forall|g: int|
                g != h ==> (#[trigger] final(self).bus().live(g) == old(self).bus().live(g)) && (old(
                    self,
                ).bus().live(g) ==> final(self).bus().queue(g) == old(self).bus().queue(g)),
    {
        self.bus.unsubscribe(h)
    }

    /// Takes the next notification for subscription `h` (see
    /// `NotificationBus::recv`), then trims what every subscription has
    /// received; read it with `notification`.
    pub fn next_notification(&mut self, h: usize) -> (r: Option<u64>)
        requires
            old(self).wf(),
            old(self).bus().live(h as int),
        ensures
            final(self).wf(),
            final(self).secret() == old(self).secret(),
            final(self).extended_timeout() == old(self).extended_timeout(),
            final(self).is_closed() == old(self).is_closed(),
            final(self).registry() == old(self).registry(),
            final(self).hooks() == old(self).hooks(),
            final(self).bus().history() == old(self).bus().history(),
            forall|g: int| #[trigger] final(self).bus().live(g) == old(self).bus().live(g),
            forall|g: int|
                g != h && #[trigger] old(self).bus().live(g) ==> final(self).bus().queue(g) == old(
                    self,
                ).bus().queue(g),
            match r {
                None => old(self).bus().queue(h as int).len() == 0 && final(self).bus().queue(
                    h as int,
                ) == old(self).bus().queue(h as int),
                Some(seq) => {
                    &&& old(self).bus().queue(h as int).len() > 0
                    &&& final(self).bus().retained(seq as int)
                    &&& old(self).bus().history()[seq as int] == old(self).bus().queue(h as int)[0]
                    &&& final(self).bus().queue(h as int) == old(self).bus().queue(
                        h as int,
                    ).drop_first()
                },
            },
    {
        let r = self.bus.recv(h);
        let ghost mid = self.bus;
        match r {
            Some(seq) => {
                self.bus.compact_keeping(seq);
                proof {
                    assert forall|g: int| #[trigger] old(self).bus().live(g) implies self.bus.queue(g)
                        == mid.queue(g) && self.bus.live(g) by {
                        assert(mid.live(g));
                    }
                    assert(mid.live(h as int));
                }
            },
            None => {},
        }
        r
    }

    /// The notification with sequence number `seq`.
    pub fn notification(&self, seq: u64) -> (r: &Notification)
        requires
            self.wf(),
            self.bus().retained(seq as int),
        ensures
            *r == self.bus().history()[seq as int],
    {
        self.bus.get(seq)
    }
}

} // verus!
