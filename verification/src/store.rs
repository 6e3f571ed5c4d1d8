use vstd::prelude::*;

use crate::bus::{bus_channel, bus_notify, bus_subscribe};
use crate::changelog::{
    changes_up_to, spec_changes, tenant_views, ChangeLogResponse, LogEntry,
};

verus! {

/// A mutation request: which cluster and tenant it touches, the operation
/// it names, and its payload. Dispatching the operation against the
/// metadata objects themselves is the storage layer's business, outside
/// this crate; here a write's footprint is the change-log row it leaves.
#[derive(Debug, PartialEq, Eq)]
pub struct WriteCommand {
    pub cluster: String,
    pub tenant: String,
    pub op: String,
    pub payload: String,
}

/// How many wake events the notification bus may buffer per subscriber.
/// Watchers re-poll on a short timer anyway, so the exact figure only
/// bounds coalescing, never correctness.
pub const WATCH_CHANNEL_CAPACITY: usize = 1024;

/// The versioned state machine: a strictly increasing version counter, one
/// change-log row per applied write, and the bus that wakes watchers.
pub struct VersionedStore {
    pub version: u64,
    pub log: Vec<LogEntry>,
    pub watch: tokio::sync::broadcast::Sender<()>,
}

impl VersionedStore {
    /// The store's invariant: rows are strictly ordered by version (so no
    /// two rows share one), and the counter equals the newest row's version,
    /// or 0 when the log is empty.
    pub open spec fn wf(self) -> bool {
        &&& forall|i: int, j: int|
            0 <= i < j < self.log@.len() ==> #[trigger] self.log@[i].version
                < #[trigger] self.log@[j].version
        &&& (self.log@.len() == 0 ==> self.version == 0)
        &&& (self.log@.len() > 0 ==> self.version == self.log@.last().version)
    }

    /// A fresh store: version 0, no history, a bus with no subscribers.
    pub fn new() -> (s: Self)
        ensures
            s.wf(),
            s.version == 0,
            s.log@.len() == 0,
    {
        let (tx, _rx) = bus_channel(WATCH_CHANNEL_CAPACITY);
        VersionedStore { version: 0, log: Vec::new(), watch: tx }
    }

    /// Applies one write: assigns the next version, appends exactly one
    /// change-log row tagged with it, and publishes exactly one wake event
    /// on the bus. The version bound is a machine limit: a u64 counter
    /// cannot be advanced past u64::MAX.
    pub fn apply_write(&mut self, cmd: &WriteCommand) -> (v: u64)
        requires
            old(self).wf(),
            old(self).version < u64::MAX,
        ensures
            final(self).wf(),
            v == old(self).version + 1,
            final(self).version == v,
            final(self).log@ == old(self).log@.push(
                (LogEntry {
                    version: v,
                    cluster: cmd.cluster,
                    tenant: cmd.tenant,
                    payload: cmd.payload,
                }),
            ),
            final(self).watch == old(self).watch,
    {
        proof {
            if self.log@.len() > 0 {
                assert(forall|i: int|
                    0 <= i < self.log@.len() ==> #[trigger] self.log@[i].version
                        <= self.log@.last().version);
            }
        }
        let v = self.version + 1;
        self.version = v;
        let entry = LogEntry {
            version: v,
            cluster: cmd.cluster.clone(),
            tenant: cmd.tenant.clone(),
            payload: cmd.payload.clone(),
        };
        self.log.push(entry);
        bus_notify(&self.watch);
        v
    }

    /// The pure read behind every watch check: the rows selected by the
    /// filter, in log order, plus the version at the moment of the read.
    /// No mutation, no blocking.
    pub fn read_change_logs(
        &self,
        cluster: &String,
        tenants: &Vec<String>,
        base_ver: u64,
    ) -> (r: ChangeLogResponse)
        ensures
            r.entries@ == spec_changes(self.log@, cluster@, tenant_views(tenants@), base_ver),
            r.max_ver == self.version,
    {
        let mut entries: Vec<LogEntry> = Vec::new();
        let mut i: usize = 0;
        while i < self.log.len()
            invariant
                0 <= i <= self.log@.len(),
                entries@ == changes_up_to(
                    self.log@,
                    cluster@,
                    tenant_views(tenants@),
                    base_ver,
                    i as int,
                ),
            decreases self.log@.len() - i,
        {
            let e = &self.log[i];
            if e.version > base_ver && e.cluster == *cluster && (tenants.len() == 0
                || contains_string(tenants, &e.tenant)) {
                entries.push(LogEntry {
                    version: e.version,
                    cluster: e.cluster.clone(),
                    tenant: e.tenant.clone(),
                    payload: e.payload.clone(),
                });
            }
            i += 1;
        }
        ChangeLogResponse { entries, max_ver: self.version }
    }

    /// Registers one watcher with the notification bus. For the wake-up
    /// guarantee the caller must do this under the same access to the store
    /// as the check it follows, before releasing that access: a writer needs
    /// exclusive access to publish, so it cannot slip between the two.
    pub fn subscribe(&self) -> tokio::sync::broadcast::Receiver<()> {
        bus_subscribe(&self.watch)
    }
}

/// Whether `t`'s characters equal some element's of `v`.
fn contains_string(v: &Vec<String>, t: &String) -> (r: bool)
    ensures
        r == tenant_views(v@).contains(t@),
{
    let mut i: usize = 0;
    while i < v.len()
        invariant
            0 <= i <= v@.len(),
            forall|j: int| 0 <= j < i ==> #[trigger] tenant_views(v@)[j] != t@,
        decreases v@.len() - i,
    {
        if v[i] == *t {
            proof {
                assert(tenant_views(v@)[i as int] == t@);
            }
            return true;
        }
        i += 1;
    }
    false
}

/// The change log is uniquely keyed by version: in a well-formed store no
/// two distinct rows carry the same version.
pub proof fn lemma_log_versions_unique(s: VersionedStore, i: int, j: int)
    requires
        s.wf(),
        0 <= i < s.log@.len(),
        0 <= j < s.log@.len(),
        i != j,
    ensures
        s.log@[i].version != s.log@[j].version,
{
}

/// Every row's version is bounded by the store's counter: the counter never
/// lags the log.
pub proof fn lemma_log_versions_bounded(s: VersionedStore, i: int)
    requires
        s.wf(),
        0 <= i < s.log@.len(),
    ensures
        s.log@[i].version <= s.version,
{
    if i < s.log@.len() - 1 {
        assert(s.log@[i].version < s.log@.last().version);
    }
}

/// Reading the change log is pure: two reads of the same store with the
/// same query — no intervening write — return identical entries and the
/// same maximum version.
pub proof fn lemma_read_idempotent(
    s: VersionedStore,
    cluster: Seq<char>,
    tenants: Seq<Seq<char>>,
    base: u64,
    r1: ChangeLogResponse,
    r2: ChangeLogResponse,
)
    requires
        r1.entries@ == spec_changes(s.log@, cluster, tenants, base),
        r1.max_ver == s.version,
        r2.entries@ == spec_changes(s.log@, cluster, tenants, base),
        r2.max_ver == s.version,
    ensures
        r1.entries@ == r2.entries@,
        r1.max_ver == r2.max_ver,
{
}

} // verus!
