use vstd::prelude::*;

use crate::changelog::{spec_changes, spec_need_return, tenant_views};
use crate::codec::{decode_watch_request, encoded_response, entry_rows, parsed_watch,
    response_encode};
use crate::store::VersionedStore;
use crate::watch::{watch_initial, watch_recheck, InitialCheck, RecheckStep, WatchRequest,
    spec_request_changes};

verus! {

/// How a watch call begins: rejected with the decode failure reason,
/// answered at once with the encoded response, or left pending with the
/// decoded request, the follow cursor, and the bus subscription taken under
/// the same store access as the check.
pub enum WatchStart {
    Reject(String),
    Done(String),
    Pending(WatchRequest, u64, tokio::sync::broadcast::Receiver<()>),
}

/// How a pending watch call goes on after a wake or an idle timeout:
/// answered with the encoded response, or waiting again with the follow
/// cursor advanced.
pub enum WatchStep {
    Done(String),
    Wait(u64),
}

/// The first half of a watch call, to be run while holding shared access to
/// the store and before releasing it: decode the body, read the change log
/// at the client's base version, and either answer now or subscribe to the
/// bus under that same access.
pub fn process_watch_start(store: &VersionedStore, body: &[u8]) -> (r: WatchStart)
    ensures
        match r {
            WatchStart::Reject(_) => parsed_watch(body@) is None,
            WatchStart::Done(s) => {
                &&& parsed_watch(body@) is Some
                &&& ({
                    let (c, t, ts, v) = parsed_watch(body@)->Some_0;
                    let entries = spec_changes(store.log@, t, ts, v);
                    &&& spec_need_return(entries, store.version, v)
                    &&& s@ == encoded_response(entry_rows(entries), store.version)
                })
            },
            WatchStart::Pending(req, follow, _) => {
                &&& parsed_watch(body@) is Some
                &&& ({
                    let (c, t, ts, v) = parsed_watch(body@)->Some_0;
                    &&& req.client_id@ == c
                    &&& req.cluster@ == t
                    &&& tenant_views(req.tenants@) == ts
                    &&& req.base_version == v
                    &&& follow == v
                    &&& !spec_need_return(spec_changes(store.log@, t, ts, v), store.version, v)
                })
            },
        },
{
    let req = match decode_watch_request(body) {
        Ok(req) => req,
        Err(msg) => {
            return WatchStart::Reject(msg);
        },
    };
    let base_version = req.base_version;
    match watch_initial(store, &req) {
        InitialCheck::Done(data) => WatchStart::Done(response_encode(&data)),
        InitialCheck::Pending(rx) => WatchStart::Pending(req, base_version, rx),
    }
}

/// One later round of a pending watch call, run under shared access: read
/// from the follow cursor, answer when due — judged against the client's
/// original base version — or when the hard ceiling has passed, and
/// otherwise advance the cursor, never backward.
pub fn process_watch_step(
    store: &VersionedStore,
    req: &WatchRequest,
    follow_version: u64,
    deadline_reached: bool,
) -> (r: WatchStep)
    ensures
        match r {
            WatchStep::Done(s) => {
                &&& (spec_need_return(
                    spec_request_changes(*store, *req, follow_version),
                    store.version,
                    req.base_version,
                ) || deadline_reached)
                &&& s@ == encoded_response(
                    entry_rows(spec_request_changes(*store, *req, follow_version)),
                    store.version,
                )
            },
            WatchStep::Wait(f) => {
                &&& !spec_need_return(
                    spec_request_changes(*store, *req, follow_version),
                    store.version,
                    req.base_version,
                )
                &&& !deadline_reached
                &&& f == if store.version > follow_version {
                    store.version
                } else {
                    follow_version
                }
                &&& f >= follow_version
            },
        },
{
    match watch_recheck(store, req, follow_version, deadline_reached) {
        RecheckStep::Done(data) => WatchStep::Done(response_encode(&data)),
        RecheckStep::Wait(f) => WatchStep::Wait(f),
    }
}

} // verus!
