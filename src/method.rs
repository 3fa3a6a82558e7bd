use vstd::prelude::*;
use crate::json::Json;
use crate::client::{Client, CallError, OutgoingCall, issues, call_args};

verus! {

/// How `change_position` reads its offset: from the start, from the
/// current place, or from the end of the queue.
#[allow(non_camel_case_types)]
#[derive(PartialEq, Eq, Structural, Clone, Copy, Debug)]
pub enum PositionHow {
    POS_SET,
    POS_CUR,
    POS_END,
}

/// The wire name of a `PositionHow`.
pub open spec fn how_text(h: PositionHow) -> Seq<char> {
    match h {
        PositionHow::POS_SET => "POS_SET"@,
        PositionHow::POS_CUR => "POS_CUR"@,
        PositionHow::POS_END => "POS_END"@,
    }
}

impl PositionHow {
    pub fn name(&self) -> (r: String)
        ensures
            r@ == how_text(*self),
    {
        match self {
            PositionHow::POS_SET => "POS_SET".to_owned(),
            PositionHow::POS_CUR => "POS_CUR".to_owned(),
            PositionHow::POS_END => "POS_END".to_owned(),
        }
    }
}

/// The standard, padded base64 text of some bytes.
pub uninterp spec fn base64_of(b: Seq<u8>) -> Seq<char>;

/// Relies on `base64::encode` (standard alphabet, padded): the text is a
/// function of the bytes alone.
#[verifier::external_body]
fn encode_base64(b: &[u8]) -> (r: String)
    ensures
        r@ == base64_of(b@),
{
    base64::encode(b)
}

pub open spec fn is_text(j: Json, s: Seq<char>) -> bool {
    j matches Json::Text(t) && t@ == s
}

pub open spec fn is_int(j: Json, n: int) -> bool {
    j matches Json::Int(v) && v as int == n
}

/// `a` holds the strings of `v` as JSON strings, in order.
pub open spec fn texts_are(a: Seq<Json>, v: Seq<String>) -> bool {
    &&& a.len() == v.len()
    &&& forall|i: int| 0 <= i < a.len() ==> #[trigger] a[i] == Json::Text(v[i])
}

pub open spec fn is_texts(j: Json, v: Seq<String>) -> bool {
    j matches Json::Array(a) && texts_are(a@, v)
}

/// `j` is the given object, or `{}` when none is given.
pub open spec fn object_or_empty_is(j: Json, o: Option<Json>) -> bool {
    match o {
        Some(v) => j == v,
        None => j matches Json::Object(f) && f@.len() == 0,
    }
}

/// `j` is the given list of strings, or `[]` when none is given.
pub open spec fn texts_or_empty_is(j: Json, o: Option<Vec<String>>) -> bool {
    match o {
        Some(v) => is_texts(j, v@),
        None => j matches Json::Array(a) && a@.len() == 0,
    }
}

/// `a` ends at `k`, or at `k + 1` with the given integer there.
pub open spec fn optional_int_at(a: Seq<Json>, k: int, p: Option<int>) -> bool {
    match p {
        Some(n) => a.len() == k + 1 && is_int(a[k], n),
        None => a.len() == k,
    }
}

/// `a` ends at `k`, or at `k + 1` with the given keys there.
pub open spec fn optional_keys_at(a: Seq<Json>, k: int, keys: Option<Vec<String>>) -> bool {
    match keys {
        Some(v) => a.len() == k + 1 && is_texts(a[k], v@),
        None => a.len() == k,
    }
}

pub open spec fn position_u32(p: Option<u32>) -> Option<int> {
    match p {
        Some(n) => Some(n as int),
        None => None,
    }
}

pub open spec fn position_i32(p: Option<i32>) -> Option<int> {
    match p {
        Some(n) => Some(n as int),
        None => None,
    }
}

pub open spec fn gid_args(a: Seq<Json>, gid: Seq<char>) -> bool {
    a.len() == 1 && is_text(a[0], gid)
}

pub open spec fn gid_keys_args(a: Seq<Json>, gid: Seq<char>, keys: Option<Vec<String>>) -> bool {
    a.len() >= 1 && is_text(a[0], gid) && optional_keys_at(a, 1, keys)
}

pub open spec fn keys_args(a: Seq<Json>, keys: Option<Vec<String>>) -> bool {
    optional_keys_at(a, 0, keys)
}

pub open spec fn window_args(a: Seq<Json>, offset: int, num: int, keys: Option<Vec<String>>) -> bool {
    a.len() >= 2 && is_int(a[0], offset) && is_int(a[1], num) && optional_keys_at(a, 2, keys)
}

pub open spec fn add_uri_args(
    a: Seq<Json>,
    uris: Seq<String>,
    options: Option<Json>,
    position: Option<u32>,
) -> bool {
    &&& a.len() >= 2
    &&& is_texts(a[0], uris)
    &&& object_or_empty_is(a[1], options)
    &&& optional_int_at(a, 2, position_u32(position))
}

pub open spec fn add_torrent_args(
    a: Seq<Json>,
    torrent: Seq<u8>,
    uris: Option<Vec<String>>,
    options: Option<Json>,
    position: Option<u32>,
) -> bool {
    &&& a.len() >= 3
    &&& is_text(a[0], base64_of(torrent))
    &&& texts_or_empty_is(a[1], uris)
    &&& object_or_empty_is(a[2], options)
    &&& optional_int_at(a, 3, position_u32(position))
}

pub open spec fn add_metalink_args(
    a: Seq<Json>,
    metalink: Seq<u8>,
    options: Option<Json>,
    position: Option<u32>,
) -> bool {
    &&& a.len() >= 2
    &&& is_text(a[0], base64_of(metalink))
    &&& object_or_empty_is(a[1], options)
    &&& optional_int_at(a, 2, position_u32(position))
}

pub open spec fn change_position_args(a: Seq<Json>, gid: Seq<char>, pos: int, how: PositionHow) -> bool {
    a.len() == 3 && is_text(a[0], gid) && is_int(a[1], pos) && is_text(a[2], how_text(how))
}

pub open spec fn change_uri_args(
    a: Seq<Json>,
    gid: Seq<char>,
    file_index: int,
    del_uris: Seq<String>,
    add_uris: Seq<String>,
    position: Option<i32>,
) -> bool {
    &&& a.len() >= 4
    &&& is_text(a[0], gid)
    &&& is_int(a[1], file_index)
    &&& is_texts(a[2], del_uris)
    &&& is_texts(a[3], add_uris)
    &&& optional_int_at(a, 4, position_i32(position))
}

fn texts(v: &Vec<String>) -> (r: Vec<Json>)
    ensures
        texts_are(r@, v@),
{
    let mut r: Vec<Json> = Vec::new();
    let mut i: usize = 0;
    while i < v.len()
        invariant
            0 <= i <= v@.len(),
            r@.len() == i,
            forall|j: int| 0 <= j < i ==> #[trigger] r@[j] == Json::Text(v@[j]),
        decreases v.len() - i,
    {
        r.push(Json::Text(v[i].clone()));
        i += 1;
    }
    r
}

fn object_or_empty(o: Option<Json>) -> (r: Json)
    ensures
        object_or_empty_is(r, o),
{
    match o {
        Some(v) => v,
        None => Json::Object(Vec::new()),
    }
}

fn texts_or_empty(o: Option<Vec<String>>) -> (r: Json)
    ensures
        texts_or_empty_is(r, o),
{
    match o {
        Some(v) => Json::Array(texts(&v)),
        None => Json::Array(Vec::new()),
    }
}

fn push_position(args: &mut Vec<Json>, p: Option<u32>)
    ensures
        match p {
            Some(n) => final(args)@ == old(args)@.push(Json::Int(n as i64)),
            None => final(args)@ == old(args)@,
        },
{
    match p {
        Some(n) => args.push(Json::Int(n as i64)),
        None => {},
    }
}

fn push_keys(args: &mut Vec<Json>, keys: Option<Vec<String>>)
    ensures
        match keys {
            Some(v) => {
                &&& final(args)@.len() == old(args)@.len() + 1
                &&& forall|i: int| 0 <= i < old(args)@.len() ==> #[trigger] final(args)@[i] == old(args)@[i]
                &&& is_texts(final(args)@[old(args)@.len() as int], v@)
            },
            None => final(args)@ == old(args)@,
        },
{
    match keys {
        Some(v) => {
            args.push(Json::Array(texts(&v)));
        },
        None => {},
    }
}

/// The typed calls of the remote interface: each builds its method name and
/// parameter list and issues the call through `Client::call`.
impl<C> Client<C> {
    /// A call whose only parameter is the task identifier `gid`.
    fn do_gid(&mut self, method: &str, gid: &str, timeout: Option<u64>, now: u64) -> (r: Result<
        OutgoingCall,
        CallError,
    >)
        requires
            old(self).wf(),
        ensures
            issues(*old(self), *final(self), method@, timeout, now, r),
            r matches Ok(c) ==> gid_args(call_args(c.envelope, old(self).secret()), gid@),
    {
        let mut args: Vec<Json> = Vec::new();
        args.push(Json::Text(gid.to_owned()));
        self.call(method, args, timeout, now)
    }

    /// A listing call over the window of `num` tasks from `offset`.
    fn custom_tell_multi(
        &mut self,
        method: &str,
        offset: i32,
        num: i32,
        keys: Option<Vec<String>>,
        now: u64,
    ) -> (r: Result<OutgoingCall, CallError>)
        requires
            old(self).wf(),
        ensures
            issues(*old(self), *final(self), method@, None, now, r),
            r matches Ok(c) ==> window_args(
                call_args(c.envelope, old(self).secret()),
                offset as int,
                num as int,
                keys,
            ),
    {
        let mut args: Vec<Json> = Vec::new();
        args.push(Json::Int(offset as i64));
        args.push(Json::Int(num as i64));
        push_keys(&mut args, keys);
        self.call(method, args, None, now)
    }

    /// The server's version and enabled features.
    pub fn get_version(&mut self, now: u64) -> (r: Result<OutgoingCall, CallError>)
        requires
            old(self).wf(),
        ensures
            issues(*old(self), *final(self), "getVersion"@, None, now, r),
            r matches Ok(c) ==> ({
                let a = call_args(c.envelope, old(self).secret());
                a.len() == 0
            }),
    {
        self.call("getVersion", Vec::new(), None, now)
    }

    /// Adds a download of `uris` (mirrors of one resource); the reply is its task identifier.
    pub fn add_uri(
        &mut self,
        uris: &Vec<String>,
        options: Option<Json>,
        position: Option<u32>,
        now: u64,
    ) -> (r: Result<OutgoingCall, CallError>)
        requires
            old(self).wf(),
        ensures
            issues(*old(self), *final(self), "addUri"@, None, now, r),
            r matches Ok(c) ==> ({
                let a = call_args(c.envelope, old(self).secret());
                add_uri_args(a, uris@, options, position)
            }),
    {
        let mut args: Vec<Json> = Vec::new();
        args.push(Json::Array(texts(uris)));
        args.push(object_or_empty(options));
        push_position(&mut args, position);
        self.call("addUri", args, None, now)
    }

    /// Adds a BitTorrent download from the bytes of a torrent file, sent in base64.
    pub fn add_torrent(
        &mut self,
        torrent: &[u8],
        uris: Option<Vec<String>>,
        options: Option<Json>,
        position: Option<u32>,
        now: u64,
    ) -> (r: Result<OutgoingCall, CallError>)
        requires
            old(self).wf(),
        ensures
            issues(*old(self), *final(self), "addTorrent"@, None, now, r),
            r matches Ok(c) ==> ({
                let a = call_args(c.envelope, old(self).secret());
                add_torrent_args(a, torrent@, uris, options, position)
            }),
    {
        let mut args: Vec<Json> = Vec::new();
        args.push(Json::Text(encode_base64(torrent)));
        args.push(texts_or_empty(uris));
        args.push(object_or_empty(options));
        push_position(&mut args, position);
        self.call("addTorrent", args, None, now)
    }

    /// Adds the downloads that a Metalink document describes, sent in base64.
    pub fn add_metalink(
        &mut self,
        metalink: &[u8],
        options: Option<Json>,
        position: Option<u32>,
        now: u64,
    ) -> (r: Result<OutgoingCall, CallError>)
        requires
            old(self).wf(),
        ensures
            issues(*old(self), *final(self), "addMetalink"@, None, now, r),
            r matches Ok(c) ==> ({
                let a = call_args(c.envelope, old(self).secret());
                add_metalink_args(a, metalink@, options, position)
            }),
    {
        let mut args: Vec<Json> = Vec::new();
        args.push(Json::Text(encode_base64(metalink)));
        args.push(object_or_empty(options));
        push_position(&mut args, position);
        self.call("addMetalink", args, None, now)
    }

    /// Removes a task, letting it stop cleanly.
    pub fn remove(&mut self, gid: &str, now: u64) -> (r: Result<OutgoingCall, CallError>)
        requires
            old(self).wf(),
        ensures
            issues(*old(self), *final(self), "remove"@, Some(old(self).extended_timeout()), now, r),
            r matches Ok(c) ==> ({
                let a = call_args(c.envelope, old(self).secret());
                gid_args(a, gid@)
            }),
    {
        let timeout = self.get_extended_timeout();
        self.do_gid("remove", gid, Some(timeout), now)
    }

    /// Removes a task at once.
    pub fn force_remove(&mut self, gid: &str, now: u64) -> (r: Result<OutgoingCall, CallError>)
        requires
            old(self).wf(),
        ensures
            issues(*old(self), *final(self), "forceRemove"@, None, now, r),
            r matches Ok(c) ==> ({
                let a = call_args(c.envelope, old(self).secret());
                gid_args(a, gid@)
            }),
    {
        self.do_gid("forceRemove", gid, None, now)
    }

    /// Pauses a task, letting it stop cleanly.
    pub fn pause(&mut self, gid: &str, now: u64) -> (r: Result<OutgoingCall, CallError>)
        requires
            old(self).wf(),
        ensures
            issues(*old(self), *final(self), "pause"@, Some(old(self).extended_timeout()), now, r),
            r matches Ok(c) ==> ({
                let a = call_args(c.envelope, old(self).secret());
                gid_args(a, gid@)
            }),
    {
        let timeout = self.get_extended_timeout();
        self.do_gid("pause", gid, Some(timeout), now)
    }

    /// Pauses a task at once.
    pub fn force_pause(&mut self, gid: &str, now: u64) -> (r: Result<OutgoingCall, CallError>)
        requires
            old(self).wf(),
        ensures
            issues(*old(self), *final(self), "forcePause"@, None, now, r),
            r matches Ok(c) ==> ({
                let a = call_args(c.envelope, old(self).secret());
                gid_args(a, gid@)
            }),
    {
        self.do_gid("forcePause", gid, None, now)
    }

    /// Resumes a paused task.
    pub fn unpause(&mut self, gid: &str, now: u64) -> (r: Result<OutgoingCall, CallError>)
        requires
            old(self).wf(),
        ensures
            issues(*old(self), *final(self), "unpause"@, None, now, r),
            r matches Ok(c) ==> ({
                let a = call_args(c.envelope, old(self).secret());
                gid_args(a, gid@)
            }),
    {
        self.do_gid("unpause", gid, None, now)
    }

    /// Pauses every task, letting them stop cleanly.
    pub fn pause_all(&mut self, now: u64) -> (r: Result<OutgoingCall, CallError>)
        requires
            old(self).wf(),
        ensures
            issues(*old(self), *final(self), "pauseAll"@, Some(old(self).extended_timeout()), now, r),
            r matches Ok(c) ==> ({
                let a = call_args(c.envelope, old(self).secret());
                a.len() == 0
            }),
    {
        let timeout = self.get_extended_timeout();
        self.call("pauseAll", Vec::new(), Some(timeout), now)
    }

    /// Pauses every task at once.
    pub fn force_pause_all(&mut self, now: u64) -> (r: Result<OutgoingCall, CallError>)
        requires
            old(self).wf(),
        ensures
            issues(*old(self), *final(self), "forcePauseAll"@, None, now, r),
            r matches Ok(c) ==> ({
                let a = call_args(c.envelope, old(self).secret());
                a.len() == 0
            }),
    {
        self.call("forcePauseAll", Vec::new(), None, now)
    }

    /// Resumes every paused task.
    pub fn unpause_all(&mut self, now: u64) -> (r: Result<OutgoingCall, CallError>)
        requires
            old(self).wf(),
        ensures
            issues(*old(self), *final(self), "unpauseAll"@, None, now, r),
            r matches Ok(c) ==> ({
                let a = call_args(c.envelope, old(self).secret());
                a.len() == 0
            }),
    {
        self.call("unpauseAll", Vec::new(), None, now)
    }

    /// The status of a task, restricted to `keys` when given.
    pub fn custom_tell_status(
        &mut self,
        gid: &str,
        keys: Option<Vec<String>>,
        now: u64,
    ) -> (r: Result<OutgoingCall, CallError>)
        requires
            old(self).wf(),
        ensures
            issues(*old(self), *final(self), "tellStatus"@, None, now, r),
            r matches Ok(c) ==> ({
                let a = call_args(c.envelope, old(self).secret());
                gid_keys_args(a, gid@, keys)
            }),
    {
        let mut args: Vec<Json> = Vec::new();
        args.push(Json::Text(gid.to_owned()));
        push_keys(&mut args, keys);
        self.call("tellStatus", args, None, now)
    }

    /// The status of a task.
    pub fn tell_status(&mut self, gid: &str, now: u64) -> (r: Result<OutgoingCall, CallError>)
        requires
            old(self).wf(),
        ensures
            issues(*old(self), *final(self), "tellStatus"@, None, now, r),
            r matches Ok(c) ==> ({
                let a = call_args(c.envelope, old(self).secret());
                gid_args(a, gid@)
            }),
    {
        let mut args: Vec<Json> = Vec::new();
        args.push(Json::Text(gid.to_owned()));
        self.call("tellStatus", args, None, now)
    }

    /// The URIs of a task.
    pub fn get_uris(&mut self, gid: &str, now: u64) -> (r: Result<OutgoingCall, CallError>)
        requires
            old(self).wf(),
        ensures
            issues(*old(self), *final(self), "getUris"@, None, now, r),
            r matches Ok(c) ==> ({
                let a = call_args(c.envelope, old(self).secret());
                gid_args(a, gid@)
            }),
    {
        let mut args: Vec<Json> = Vec::new();
        args.push(Json::Text(gid.to_owned()));
        self.call("getUris", args, None, now)
    }

    /// The files of a task.
    pub fn get_files(&mut self, gid: &str, now: u64) -> (r: Result<OutgoingCall, CallError>)
        requires
            old(self).wf(),
        ensures
            issues(*old(self), *final(self), "getFiles"@, None, now, r),
            r matches Ok(c) ==> ({
                let a = call_args(c.envelope, old(self).secret());
                gid_args(a, gid@)
            }),
    {
        let mut args: Vec<Json> = Vec::new();
        args.push(Json::Text(gid.to_owned()));
        self.call("getFiles", args, None, now)
    }

    /// The peers of a BitTorrent task.
    pub fn get_peers(&mut self, gid: &str, now: u64) -> (r: Result<OutgoingCall, CallError>)
        requires
            old(self).wf(),
        ensures
            issues(*old(self), *final(self), "getPeers"@, None, now, r),
            r matches Ok(c) ==> ({
                let a = call_args(c.envelope, old(self).secret());
                gid_args(a, gid@)
            }),
    {
        let mut args: Vec<Json> = Vec::new();
        args.push(Json::Text(gid.to_owned()));
        self.call("getPeers", args, None, now)
    }

    /// The servers a task is downloading from.
    pub fn get_servers(&mut self, gid: &str, now: u64) -> (r: Result<OutgoingCall, CallError>)
        requires
            old(self).wf(),
        ensures
            issues(*old(self), *final(self), "getServers"@, None, now, r),
            r matches Ok(c) ==> ({
                let a = call_args(c.envelope, old(self).secret());
                gid_args(a, gid@)
            }),
    {
        let mut args: Vec<Json> = Vec::new();
        args.push(Json::Text(gid.to_owned()));
        self.call("getServers", args, None, now)
    }

    /// The options of a task.
    pub fn get_option(&mut self, gid: &str, now: u64) -> (r: Result<OutgoingCall, CallError>)
        requires
            old(self).wf(),
        ensures
            issues(*old(self), *final(self), "getOption"@, None, now, r),
            r matches Ok(c) ==> ({
                let a = call_args(c.envelope, old(self).secret());
                gid_args(a, gid@)
            }),
    {
        let mut args: Vec<Json> = Vec::new();
        args.push(Json::Text(gid.to_owned()));
        self.call("getOption", args, None, now)
    }

    /// Forgets a finished task.
    pub fn remove_download_result(
        &mut self,
        gid: &str,
        now: u64,
    ) -> (r: Result<OutgoingCall, CallError>)
        requires
            old(self).wf(),
        ensures
            issues(*old(self), *final(self), "removeDownloadResult"@, None, now, r),
            r matches Ok(c) ==> ({
                let a = call_args(c.envelope, old(self).secret());
                gid_args(a, gid@)
            }),
    {
        let mut args: Vec<Json> = Vec::new();
        args.push(Json::Text(gid.to_owned()));
        self.call("removeDownloadResult", args, None, now)
    }

    /// The status of every active task.
    pub fn tell_active(&mut self, now: u64) -> (r: Result<OutgoingCall, CallError>)
        requires
            old(self).wf(),
        ensures
            issues(*old(self), *final(self), "tellActive"@, None, now, r),
            r matches Ok(c) ==> ({
                let a = call_args(c.envelope, old(self).secret());
                a.len() == 0
            }),
    {
        self.call("tellActive", Vec::new(), None, now)
    }

    /// The status of `num` waiting tasks from `offset`.
    pub fn tell_waiting(
        &mut self,
        offset: i32,
        num: i32,
        now: u64,
    ) -> (r: Result<OutgoingCall, CallError>)
        requires
            old(self).wf(),
        ensures
            issues(*old(self), *final(self), "tellWaiting"@, None, now, r),
            r matches Ok(c) ==> ({
                let a = call_args(c.envelope, old(self).secret());
                window_args(a, offset as int, num as int, None)
            }),
    {
        let mut args: Vec<Json> = Vec::new();
        args.push(Json::Int(offset as i64));
        args.push(Json::Int(num as i64));
        self.call("tellWaiting", args, None, now)
    }

    /// The status of `num` stopped tasks from `offset`.
    pub fn tell_stopped(
        &mut self,
        offset: i32,
        num: i32,
        now: u64,
    ) -> (r: Result<OutgoingCall, CallError>)
        requires
            old(self).wf(),
        ensures
            issues(*old(self), *final(self), "tellStopped"@, None, now, r),
            r matches Ok(c) ==> ({
                let a = call_args(c.envelope, old(self).secret());
                window_args(a, offset as int, num as int, None)
            }),
    {
        let mut args: Vec<Json> = Vec::new();
        args.push(Json::Int(offset as i64));
        args.push(Json::Int(num as i64));
        self.call("tellStopped", args, None, now)
    }

    /// The status of every active task, restricted to `keys` when given.
    pub fn custom_tell_active(
        &mut self,
        keys: Option<Vec<String>>,
        now: u64,
    ) -> (r: Result<OutgoingCall, CallError>)
        requires
            old(self).wf(),
        ensures
            issues(*old(self), *final(self), "tellActive"@, None, now, r),
            r matches Ok(c) ==> ({
                let a = call_args(c.envelope, old(self).secret());
                keys_args(a, keys)
            }),
    {
        let mut args: Vec<Json> = Vec::new();
        push_keys(&mut args, keys);
        self.call("tellActive", args, None, now)
    }

    /// Like `tell_waiting`, restricted to `keys` when given.
    pub fn custom_tell_waiting(
        &mut self,
        offset: i32,
        num: i32,
        keys: Option<Vec<String>>,
        now: u64,
    ) -> (r: Result<OutgoingCall, CallError>)
        requires
            old(self).wf(),
        ensures
            issues(*old(self), *final(self), "tellWaiting"@, None, now, r),
            r matches Ok(c) ==> ({
                let a = call_args(c.envelope, old(self).secret());
                window_args(a, offset as int, num as int, keys)
            }),
    {
        self.custom_tell_multi("tellWaiting", offset, num, keys, now)
    }

    /// Like `tell_stopped`, restricted to `keys` when given.
    pub fn custom_tell_stopped(
        &mut self,
        offset: i32,
        num: i32,
        keys: Option<Vec<String>>,
        now: u64,
    ) -> (r: Result<OutgoingCall, CallError>)
        requires
            old(self).wf(),
        ensures
            issues(*old(self), *final(self), "tellStopped"@, None, now, r),
            r matches Ok(c) ==> ({
                let a = call_args(c.envelope, old(self).secret());
                window_args(a, offset as int, num as int, keys)
            }),
    {
        self.custom_tell_multi("tellStopped", offset, num, keys, now)
    }

    /// Moves a task in the queue; the reply is its new position.
    pub fn change_position(
        &mut self,
        gid: &str,
        pos: i32,
        how: PositionHow,
        now: u64,
    ) -> (r: Result<OutgoingCall, CallError>)
        requires
            old(self).wf(),
        ensures
            issues(*old(self), *final(self), "changePosition"@, None, now, r),
            r matches Ok(c) ==> ({
                let a = call_args(c.envelope, old(self).secret());
                change_position_args(a, gid@, pos as int, how)
            }),
    {
        let mut args: Vec<Json> = Vec::new();
        args.push(Json::Text(gid.to_owned()));
        args.push(Json::Int(pos as i64));
        args.push(Json::Text(how.name()));
        self.call("changePosition", args, None, now)
    }

    /// Removes `del_uris` from and adds `add_uris` to one file of a task; the reply counts both.
    pub fn change_uri(
        &mut self,
        gid: &str,
        file_index: i32,
        del_uris: &Vec<String>,
        add_uris: &Vec<String>,
        position: Option<i32>,
        now: u64,
    ) -> (r: Result<OutgoingCall, CallError>)
        requires
            old(self).wf(),
        ensures
            issues(*old(self), *final(self), "changeUri"@, None, now, r),
            r matches Ok(c) ==> ({
                let a = call_args(c.envelope, old(self).secret());
                change_uri_args(a, gid@, file_index as int, del_uris@, add_uris@, position)
            }),
    {
        let mut args: Vec<Json> = Vec::new();
        args.push(Json::Text(gid.to_owned()));
        args.push(Json::Int(file_index as i64));
        args.push(Json::Array(texts(del_uris)));
        args.push(Json::Array(texts(add_uris)));
        match position {
            Some(p) => args.push(Json::Int(p as i64)),
            None => {},
        }
        self.call("changeUri", args, None, now)
    }

    /// Changes the options of a task.
    pub fn change_option(
        &mut self,
        gid: &str,
        options: Json,
        now: u64,
    ) -> (r: Result<OutgoingCall, CallError>)
        requires
            old(self).wf(),
        ensures
            issues(*old(self), *final(self), "changeOption"@, None, now, r),
            r matches Ok(c) ==> ({
                let a = call_args(c.envelope, old(self).secret());
                a.len() == 2 && is_text(a[0], gid@) && a[1] == options
            }),
    {
        let mut args: Vec<Json> = Vec::new();
        args.push(Json::Text(gid.to_owned()));
        args.push(options);
        self.call("changeOption", args, None, now)
    }

    /// The global options.
    pub fn get_global_option(&mut self, now: u64) -> (r: Result<OutgoingCall, CallError>)
        requires
            old(self).wf(),
        ensures
            issues(*old(self), *final(self), "getGlobalOption"@, None, now, r),
            r matches Ok(c) ==> ({
                let a = call_args(c.envelope, old(self).secret());
                a.len() == 0
            }),
    {
        self.call("getGlobalOption", Vec::new(), None, now)
    }

    /// Changes the global options.
    pub fn change_global_option(
        &mut self,
        options: Json,
        now: u64,
    ) -> (r: Result<OutgoingCall, CallError>)
        requires
            old(self).wf(),
        ensures
            issues(*old(self), *final(self), "changeGlobalOption"@, None, now, r),
            r matches Ok(c) ==> ({
                let a = call_args(c.envelope, old(self).secret());
                a.len() == 1 && a[0] == options
            }),
    {
        let mut args: Vec<Json> = Vec::new();
        args.push(options);
        self.call("changeGlobalOption", args, None, now)
    }

    /// Global transfer statistics.
    pub fn get_global_stat(&mut self, now: u64) -> (r: Result<OutgoingCall, CallError>)
        requires
            old(self).wf(),
        ensures
            issues(*old(self), *final(self), "getGlobalStat"@, None, now, r),
            r matches Ok(c) ==> ({
                let a = call_args(c.envelope, old(self).secret());
                a.len() == 0
            }),
    {
        self.call("getGlobalStat", Vec::new(), None, now)
    }

    /// Forgets every finished task.
    pub fn purge_download_result(&mut self, now: u64) -> (r: Result<OutgoingCall, CallError>)
        requires
            old(self).wf(),
        ensures
            issues(*old(self), *final(self), "purgeDownloadResult"@, None, now, r),
            r matches Ok(c) ==> ({
                let a = call_args(c.envelope, old(self).secret());
                a.len() == 0
            }),
    {
        self.call("purgeDownloadResult", Vec::new(), None, now)
    }

    /// The session identifier.
    pub fn get_session_info(&mut self, now: u64) -> (r: Result<OutgoingCall, CallError>)
        requires
            old(self).wf(),
        ensures
            issues(*old(self), *final(self), "getSessionInfo"@, None, now, r),
            r matches Ok(c) ==> ({
                let a = call_args(c.envelope, old(self).secret());
                a.len() == 0
            }),
    {
        self.call("getSessionInfo", Vec::new(), None, now)
    }

    /// Shuts the server down, letting tasks stop cleanly.
    pub fn shutdown(&mut self, now: u64) -> (r: Result<OutgoingCall, CallError>)
        requires
            old(self).wf(),
        ensures
            issues(*old(self), *final(self), "shutdown"@, Some(old(self).extended_timeout()), now, r),
            r matches Ok(c) ==> ({
                let a = call_args(c.envelope, old(self).secret());
                a.len() == 0
            }),
    {
        let timeout = self.get_extended_timeout();
        self.call("shutdown", Vec::new(), Some(timeout), now)
    }

    /// Shuts the server down at once.
    pub fn force_shutdown(&mut self, now: u64) -> (r: Result<OutgoingCall, CallError>)
        requires
            old(self).wf(),
        ensures
            issues(*old(self), *final(self), "forceShutdown"@, None, now, r),
            r matches Ok(c) ==> ({
                let a = call_args(c.envelope, old(self).secret());
                a.len() == 0
            }),
    {
        self.call("forceShutdown", Vec::new(), None, now)
    }

    /// Saves the session to the server's session file.
    pub fn save_session(&mut self, now: u64) -> (r: Result<OutgoingCall, CallError>)
        requires
            old(self).wf(),
        ensures
            issues(*old(self), *final(self), "saveSession"@, None, now, r),
            r matches Ok(c) ==> ({
                let a = call_args(c.envelope, old(self).secret());
                a.len() == 0
            }),
    {
        self.call("saveSession", Vec::new(), None, now)
    }
}

} // verus!
