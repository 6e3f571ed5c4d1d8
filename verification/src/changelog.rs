use vstd::prelude::*;

verus! {

/// One row of the store's change log: the version assigned to a write, the
/// cluster and tenant the write touched, and the payload it recorded.
#[derive(Debug, PartialEq, Eq)]
pub struct LogEntry {
    pub version: u64,
    pub cluster: String,
    pub tenant: String,
    pub payload: String,
}

/// The tenant filter of a watch request, one character sequence per tenant.
pub open spec fn tenant_views(tenants: Seq<String>) -> Seq<Seq<char>> {
    tenants.map_values(|t: String| t@)
}

/// Whether one change-log row is selected by a watch filter: same cluster,
/// version beyond the client's cursor, and tenant within the requested set.
/// An empty tenant set means "all tenants of the cluster", deliberately:
/// a client that names no tenant is asking for the whole cluster.
pub open spec fn entry_matches(
    e: LogEntry,
    cluster: Seq<char>,
    tenants: Seq<Seq<char>>,
    base: u64,
) -> bool {
    &&& e.version > base
    &&& e.cluster@ == cluster
    &&& (tenants.len() == 0 || tenants.contains(e.tenant@))
}

/// The selected rows among the first `n` rows of `log`, in log order.
pub open spec fn changes_up_to(
    log: Seq<LogEntry>,
    cluster: Seq<char>,
    tenants: Seq<Seq<char>>,
    base: u64,
    n: int,
) -> Seq<LogEntry>
    decreases n,
{
    if n <= 0 {
        Seq::empty()
    } else {
        let rest = changes_up_to(log, cluster, tenants, base, n - 1);
        if entry_matches(log[n - 1], cluster, tenants, base) {
            rest.push(log[n - 1])
        } else {
            rest
        }
    }
}

/// All selected rows of `log`, in log order.
pub open spec fn spec_changes(
    log: Seq<LogEntry>,
    cluster: Seq<char>,
    tenants: Seq<Seq<char>>,
    base: u64,
) -> Seq<LogEntry> {
    changes_up_to(log, cluster, tenants, base, log.len() as int)
}

/// When a watch response is due immediately: some row matched the filter, or
/// the store's version has already moved past the client's base version (so
/// the client can at least re-sync its cursor).
pub open spec fn spec_need_return(entries: Seq<LogEntry>, max_ver: u64, base: u64) -> bool {
    entries.len() > 0 || max_ver > base
}

/// What a read of the change log returns: the selected rows and the store's
/// version at the moment of the read.
#[derive(Debug, PartialEq, Eq)]
pub struct ChangeLogResponse {
    pub entries: Vec<LogEntry>,
    pub max_ver: u64,
}

/// Induction over the prefix length: every selected row satisfies the
/// filter, every selected row is some row of the prefix, and every row of
/// the prefix that satisfies the filter is selected.
proof fn lemma_changes_up_to_props(
    log: Seq<LogEntry>,
    cluster: Seq<char>,
    tenants: Seq<Seq<char>>,
    base: u64,
    n: int,
)
    requires
        0 <= n <= log.len(),
    ensures
        forall|k: int|
            0 <= k < changes_up_to(log, cluster, tenants, base, n).len() ==> entry_matches(
                #[trigger] changes_up_to(log, cluster, tenants, base, n)[k],
                cluster,
                tenants,
                base,
            ),
        forall|k: int|
            0 <= k < changes_up_to(log, cluster, tenants, base, n).len() ==> exists|i: int|
                0 <= i < n && log[i] == #[trigger] changes_up_to(log, cluster, tenants, base, n)[k],
        forall|i: int|
            0 <= i < n && entry_matches(#[trigger] log[i], cluster, tenants, base)
                ==> changes_up_to(log, cluster, tenants, base, n).contains(log[i]),
    decreases n,
{
    if n > 0 {
        lemma_changes_up_to_props(log, cluster, tenants, base, n - 1);
        let rest = changes_up_to(log, cluster, tenants, base, n - 1);
        let whole = changes_up_to(log, cluster, tenants, base, n);
        if entry_matches(log[n - 1], cluster, tenants, base) {
            assert(whole[whole.len() - 1] == log[n - 1]);
        }
        assert forall|i: int|
            0 <= i < n && entry_matches(#[trigger] log[i], cluster, tenants, base) implies whole
            .contains(log[i]) by {
            if i < n - 1 {
                let k = choose|k: int| 0 <= k < rest.len() && rest[k] == log[i];
                assert(whole[k] == log[i]);
            } else {
                assert(whole[whole.len() - 1] == log[i]);
            }
        }
    }
}

/// Induction over the prefix length: when the prefix's versions are strictly
/// increasing by position, so are the selected rows'.
proof fn lemma_changes_up_to_ordered(
    log: Seq<LogEntry>,
    cluster: Seq<char>,
    tenants: Seq<Seq<char>>,
    base: u64,
    n: int,
)
    requires
        0 <= n <= log.len(),
        forall|i: int, j: int|
            0 <= i < j < log.len() ==> #[trigger] log[i].version < #[trigger] log[j].version,
    ensures
        forall|p: int, q: int|
            0 <= p < q < changes_up_to(log, cluster, tenants, base, n).len()
                ==> #[trigger] changes_up_to(log, cluster, tenants, base, n)[p].version
                < #[trigger] changes_up_to(log, cluster, tenants, base, n)[q].version,
    decreases n,
{
    if n > 0 {
        lemma_changes_up_to_ordered(log, cluster, tenants, base, n - 1);
        lemma_changes_up_to_props(log, cluster, tenants, base, n - 1);
        let rest = changes_up_to(log, cluster, tenants, base, n - 1);
        let whole = changes_up_to(log, cluster, tenants, base, n);
        if entry_matches(log[n - 1], cluster, tenants, base) {
            assert forall|p: int, q: int| 0 <= p < q < whole.len() implies #[trigger] whole[p]
                .version < #[trigger] whole[q].version by {
                if q == whole.len() - 1 {
                    let i = choose|i: int| 0 <= i < n - 1 && log[i] == rest[p];
                    assert(log[i].version < log[n - 1].version);
                }
            }
        }
    }
}

/// Every row a filtered read returns satisfies the filter: its cluster is
/// the requested one, its version lies beyond the cursor, and (when the
/// tenant set is non-empty) its tenant is in the set. In particular a read
/// filtered to one tenant never returns another tenant's writes.
pub proof fn lemma_changes_match_filter(
    log: Seq<LogEntry>,
    cluster: Seq<char>,
    tenants: Seq<Seq<char>>,
    base: u64,
    k: int,
)
    requires
        0 <= k < spec_changes(log, cluster, tenants, base).len(),
    ensures
        entry_matches(spec_changes(log, cluster, tenants, base)[k], cluster, tenants, base),
{
    lemma_changes_up_to_props(log, cluster, tenants, base, log.len() as int);
}

/// No matching write is lost: every row of the log that satisfies the
/// filter appears in the filtered read.
pub proof fn lemma_no_matching_change_lost(
    log: Seq<LogEntry>,
    cluster: Seq<char>,
    tenants: Seq<Seq<char>>,
    base: u64,
    i: int,
)
    requires
        0 <= i < log.len(),
        entry_matches(log[i], cluster, tenants, base),
    ensures
        spec_changes(log, cluster, tenants, base).contains(log[i]),
{
    lemma_changes_up_to_props(log, cluster, tenants, base, log.len() as int);
}

/// The filtered read keeps log order: when the log's versions are strictly
/// increasing by position, the selected rows' versions are too — so each
/// matching write appears at most once, in increasing version order.
pub proof fn lemma_changes_ordered(
    log: Seq<LogEntry>,
    cluster: Seq<char>,
    tenants: Seq<Seq<char>>,
    base: u64,
)
    requires
        forall|i: int, j: int|
            0 <= i < j < log.len() ==> #[trigger] log[i].version < #[trigger] log[j].version,
    ensures
        forall|p: int, q: int|
            0 <= p < q < spec_changes(log, cluster, tenants, base).len()
                ==> #[trigger] spec_changes(log, cluster, tenants, base)[p].version
                < #[trigger] spec_changes(log, cluster, tenants, base)[q].version,
{
    lemma_changes_up_to_ordered(log, cluster, tenants, base, log.len() as int);
}

/// The filtered read is empty exactly when no change-log row matches the
/// filter beyond the base version.
pub proof fn lemma_empty_iff_no_match(
    log: Seq<LogEntry>,
    cluster: Seq<char>,
    tenants: Seq<Seq<char>>,
    base: u64,
)
    ensures
        spec_changes(log, cluster, tenants, base).len() == 0 <==> forall|i: int|
            0 <= i < log.len() ==> !entry_matches(#[trigger] log[i], cluster, tenants, base),
{
    lemma_changes_up_to_props(log, cluster, tenants, base, log.len() as int);
    let r = spec_changes(log, cluster, tenants, base);
    if r.len() > 0 {
        let i = choose|i: int| 0 <= i < log.len() && log[i] == r[0];
        assert(entry_matches(log[i], cluster, tenants, base));
    }
}

/// Poll rounds never re-report a write: once a watcher's cursor has
/// absorbed the version of the store it last read, a read from the cursor
/// returns only rows strictly beyond everything that earlier read could
/// have returned — so across rounds each matching write is seen at most
/// once.
pub proof fn lemma_rounds_do_not_overlap(
    log1: Seq<LogEntry>,
    log2: Seq<LogEntry>,
    cluster: Seq<char>,
    tenants: Seq<Seq<char>>,
    base: u64,
    follow: u64,
    p: int,
    q: int,
)
    requires
        forall|i: int| 0 <= i < log1.len() ==> #[trigger] log1[i].version <= follow,
        0 <= p < spec_changes(log1, cluster, tenants, base).len(),
        0 <= q < spec_changes(log2, cluster, tenants, follow).len(),
    ensures
        spec_changes(log1, cluster, tenants, base)[p].version < spec_changes(
            log2,
            cluster,
            tenants,
            follow,
        )[q].version,
{
    lemma_changes_up_to_props(log1, cluster, tenants, base, log1.len() as int);
    lemma_changes_match_filter(log2, cluster, tenants, follow, q);
    let r1 = spec_changes(log1, cluster, tenants, base);
    let i = choose|i: int| 0 <= i < log1.len() && log1[i] == r1[p];
    assert(log1[i].version <= follow);
}

/// When no row of the first `n` lies beyond `base`, nothing is selected
/// from them.
pub(crate) proof fn lemma_changes_up_to_empty(
    log: Seq<LogEntry>,
    cluster: Seq<char>,
    tenants: Seq<Seq<char>>,
    base: u64,
    n: int,
)
    requires
        0 <= n <= log.len(),
        forall|i: int| 0 <= i < n ==> #[trigger] log[i].version <= base,
    ensures
        changes_up_to(log, cluster, tenants, base, n).len() == 0,
    decreases n,
{
    if n > 0 {
        lemma_changes_up_to_empty(log, cluster, tenants, base, n - 1);
    }
}

/// When no row of the log lies beyond `base`, the filtered read is empty.
pub proof fn lemma_changes_empty_when_caught_up(
    log: Seq<LogEntry>,
    cluster: Seq<char>,
    tenants: Seq<Seq<char>>,
    base: u64,
)
    requires
        forall|i: int| 0 <= i < log.len() ==> #[trigger] log[i].version <= base,
    ensures
        spec_changes(log, cluster, tenants, base).len() == 0,
{
    lemma_changes_up_to_empty(log, cluster, tenants, base, log.len() as int);
}

impl ChangeLogResponse {
    /// Decides whether this response is due immediately for a client whose
    /// last-seen version is `base`. This predicate is owned here; callers
    /// never recompute it.
    pub fn need_return(&self, base: u64) -> (r: bool)
        ensures
            r == spec_need_return(self.entries@, self.max_ver, base),
    {
        self.entries.len() > 0 || self.max_ver > base
    }
}

} // verus!
