use vstd::prelude::*;

use crate::changelog::{
    entry_matches, lemma_changes_empty_when_caught_up, lemma_changes_up_to_empty, spec_changes,
    spec_need_return, tenant_views, ChangeLogResponse, LogEntry,
};
use crate::store::{lemma_log_versions_bounded, VersionedStore};

verus! {

/// One client's long-poll: who asks, which cluster, which tenants (empty
/// means all of the cluster's), and the version the client has seen.
#[derive(Debug, PartialEq, Eq)]
pub struct WatchRequest {
    pub client_id: String,
    pub cluster: String,
    pub tenants: Vec<String>,
    pub base_version: u64,
}

/// How long one wait may sleep before re-polling. Broadcast delivery has no
/// replay, so this periodic re-poll is the backstop against a missed or
/// coalesced wake, not an optimization.
pub const IDLE_TIMEOUT_SECS: u64 = 20;

/// The hard ceiling on a whole watch call: past this, the session returns
/// its best available response even if nothing ever matched.
pub const HARD_CEILING_SECS: u64 = 30;

/// What the first check decides: answer at once, or wait on the bus with
/// the receiver subscribed before the store access was released.
pub enum InitialCheck {
    Done(ChangeLogResponse),
    Pending(tokio::sync::broadcast::Receiver<()>),
}

/// What a later check decides: answer, or keep waiting with the follow
/// cursor advanced to the newest version seen.
pub enum RecheckStep {
    Done(ChangeLogResponse),
    Wait(u64),
}

/// The view a watch request filters by.
pub open spec fn spec_request_changes(store: VersionedStore, req: WatchRequest, from: u64) -> Seq<
    LogEntry,
> {
    spec_changes(store.log@, req.cluster@, tenant_views(req.tenants@), from)
}

/// The first check of a watch session, which the caller must run while
/// holding shared access to the store and before releasing it: either the
/// response for `req.base_version` is due now and is returned, or a bus
/// subscription is taken out under that same access, so that no write can
/// complete — and so no wake can be published — between the check and the
/// subscription.
pub fn watch_initial(store: &VersionedStore, req: &WatchRequest) -> (r: InitialCheck)
    ensures
        match r {
            InitialCheck::Done(d) => {
                &&& d.entries@ == spec_request_changes(*store, *req, req.base_version)
                &&& d.max_ver == store.version
                &&& spec_need_return(d.entries@, d.max_ver, req.base_version)
            },
            InitialCheck::Pending(_) => !spec_need_return(
                spec_request_changes(*store, *req, req.base_version),
                store.version,
                req.base_version,
            ),
        },
{
    let data = store.read_change_logs(&req.cluster, &req.tenants, req.base_version);
    if data.need_return(req.base_version) {
        InitialCheck::Done(data)
    } else {
        InitialCheck::Pending(store.subscribe())
    }
}

/// A later check of a watch session, run under shared access after a wake
/// or an idle timeout. The response is computed from the follow cursor, so
/// already-reported rows are not re-read, but whether it is due is still
/// judged against the client's original base version; reaching the hard
/// ceiling makes it due unconditionally. A non-terminal check advances the
/// cursor to the newest version seen and never moves it backward.
pub fn watch_recheck(
    store: &VersionedStore,
    req: &WatchRequest,
    follow_version: u64,
    deadline_reached: bool,
) -> (r: RecheckStep)
    ensures
        match r {
            RecheckStep::Done(d) => {
                &&& d.entries@ == spec_request_changes(*store, *req, follow_version)
                &&& d.max_ver == store.version
                &&& (spec_need_return(d.entries@, d.max_ver, req.base_version)
                    || deadline_reached)
            },
            RecheckStep::Wait(f) => {
                &&& !spec_need_return(
                    spec_request_changes(*store, *req, follow_version),
                    store.version,
                    req.base_version,
                )
                &&& !deadline_reached
                &&& f == if store.version > follow_version {
                    store.version
                } else {
                    follow_version
                }
                &&& f >= follow_version
            },
        },
{
    let data = store.read_change_logs(&req.cluster, &req.tenants, follow_version);
    if data.need_return(req.base_version) || deadline_reached {
        RecheckStep::Done(data)
    } else {
        let f = if data.max_ver > follow_version {
            data.max_ver
        } else {
            follow_version
        };
        RecheckStep::Wait(f)
    }
}

/// A watcher already at the store's version has nothing due: the filtered
/// read is empty and the version it reports equals the base, so no check
/// returns before the hard ceiling, and the check the ceiling forces
/// reports an empty entry set at `max_ver == base`.
pub proof fn lemma_watch_idle(store: VersionedStore, req: WatchRequest, from: u64)
    requires
        store.wf(),
        store.version == req.base_version,
        req.base_version <= from,
    ensures
        spec_request_changes(store, req, from).len() == 0,
        !spec_need_return(spec_request_changes(store, req, from), store.version, req.base_version),
{
    assert forall|i: int| 0 <= i < store.log@.len() implies #[trigger] store.log@[i].version
        <= from by {
        lemma_log_versions_bounded(store, i);
    }
    lemma_changes_empty_when_caught_up(store.log@, req.cluster@, tenant_views(req.tenants@), from);
}

/// One matching write after an idle check makes the very next check due,
/// with exactly the new row and with the maximum version the write was
/// assigned: the watcher is woken by precisely what it asked for.
pub proof fn lemma_matching_write_wakes(
    pre: VersionedStore,
    post: VersionedStore,
    e: LogEntry,
    req: WatchRequest,
)
    requires
        pre.wf(),
        pre.version == req.base_version,
        pre.version < u64::MAX,
        post.log@ == pre.log@.push(e),
        post.version == pre.version + 1,
        e.version == post.version,
        e.cluster@ == req.cluster@,
        req.tenants@.len() == 0 || tenant_views(req.tenants@).contains(e.tenant@),
    ensures
        spec_request_changes(post, req, req.base_version) == seq![e],
        spec_need_return(
            spec_request_changes(post, req, req.base_version),
            post.version,
            req.base_version,
        ),
{
    let cluster = req.cluster@;
    let tenants = tenant_views(req.tenants@);
    let base = req.base_version;
    let n = pre.log@.len() as int;
    assert forall|i: int| 0 <= i < n implies #[trigger] post.log@[i].version <= base by {
        assert(post.log@[i] == pre.log@[i]);
        lemma_log_versions_bounded(pre, i);
    }
    lemma_changes_up_to_empty(post.log@, cluster, tenants, base, n);
    assert(post.log@[n] == e);
    assert(entry_matches(post.log@[n], cluster, tenants, base));
    assert(spec_changes(post.log@, cluster, tenants, base) =~= seq![e]);
}

} // verus!
