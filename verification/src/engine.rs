//! The migration engine: reads the store's current schema version, selects
//! the subsequence of unapplied descriptors, applies each — change-set and
//! version bump together — as one all-or-nothing unit, in strictly ascending
//! version order, and stops at the first failing unit.

use vstd::prelude::*;

verus! {

use crate::descriptor::MigrationDescriptor;
use crate::descriptor::change_sets_of;
use crate::descriptor::descriptors_strictly_ascending;
use crate::store::SqlStore;
use crate::store::rejects_spec;

/// Fatal migration failure: aborts startup. Carries the version whose unit
/// failed and the underlying storage cause.
#[derive(Debug, PartialEq, Eq)]
pub struct MigrationError {
    /// Version of the descriptor whose atomic unit failed.
    pub version: u64,
    /// The underlying storage error: the statement the store refused.
    pub cause: String,
}

/// Index of the first descriptor at or after `i` whose version exceeds `v`;
/// `s.len()` when there is none.
pub open spec fn first_pending_from(s: Seq<MigrationDescriptor>, v: u64, i: int) -> int
    decreases s.len() - i,
{
    if i < 0 || i >= s.len() {
        s.len() as int
    } else if s[i].version > v {
        i
    } else {
        first_pending_from(s, v, i + 1)
    }
}

/// Index of the first descriptor at or after `i` whose change-set the store
/// refuses; `s.len()` when there is none.
pub open spec fn first_rejected_from(
    s: Seq<MigrationDescriptor>,
    rejected: Option<String>,
    i: int,
) -> int
    decreases s.len() - i,
{
    if i < 0 || i >= s.len() {
        s.len() as int
    } else if rejects_spec(rejected, s[i].change_set) {
        i
    } else {
        first_rejected_from(s, rejected, i + 1)
    }
}

/// What `first_pending_from` returns: the least index at or after `i` whose
/// version exceeds `v`.
pub proof fn lemma_first_pending_from(s: Seq<MigrationDescriptor>, v: u64, i: int)
    requires
        0 <= i <= s.len(),
    ensures
        i <= first_pending_from(s, v, i) <= s.len(),
        forall|j: int| i <= j < first_pending_from(s, v, i) ==> #[trigger] s[j].version <= v,
        first_pending_from(s, v, i) < s.len() ==> s[first_pending_from(s, v, i)].version > v,
    decreases s.len() - i,
{
    if i < s.len() && !(s[i].version > v) {
        lemma_first_pending_from(s, v, i + 1);
    }
}

/// What `first_rejected_from` returns: the least index at or after `i` whose
/// change-set the store refuses.
pub proof fn lemma_first_rejected_from(s: Seq<MigrationDescriptor>, rejected: Option<String>, i: int)
    requires
        0 <= i <= s.len(),
    ensures
        i <= first_rejected_from(s, rejected, i) <= s.len(),
        forall|j: int|
            i <= j < first_rejected_from(s, rejected, i)
                ==> !rejects_spec(rejected, #[trigger] s[j].change_set),
        first_rejected_from(s, rejected, i) < s.len()
            ==> rejects_spec(rejected, s[first_rejected_from(s, rejected, i)].change_set),
    decreases s.len() - i,
{
    if i < s.len() && !rejects_spec(rejected, s[i].change_set) {
        lemma_first_rejected_from(s, rejected, i + 1);
    }
}

/// Index of the first descriptor a run on store `st` applies: the first one
/// whose version exceeds the store's applied version.
pub open spec fn run_start(st: SqlStore, s: Seq<MigrationDescriptor>) -> int {
    first_pending_from(s, st.applied_version, 0)
}

/// Index at which a run on store `st` stops: the first pending descriptor
/// whose unit the store refuses, or `s.len()` when every unit succeeds.
pub open spec fn run_stop(st: SqlStore, s: Seq<MigrationDescriptor>) -> int {
    first_rejected_from(s, st.rejected_statement, run_start(st, s))
}

/// Does a run on store `st` succeed (no unit refused)?
pub open spec fn run_ok(st: SqlStore, s: Seq<MigrationDescriptor>) -> bool {
    run_stop(st, s) == s.len()
}

/// Number of descriptors a successful run on store `st` applies.
pub open spec fn run_count(st: SqlStore, s: Seq<MigrationDescriptor>) -> int {
    s.len() - run_start(st, s)
}

/// The applied version a run on store `st` leaves behind: the version of the
/// last descriptor whose unit completed, or the starting version when none
/// did.
pub open spec fn run_final_version(st: SqlStore, s: Seq<MigrationDescriptor>) -> u64 {
    if run_start(st, s) < run_stop(st, s) {
        s[run_stop(st, s) - 1].version
    } else {
        st.applied_version
    }
}

/// The schema log a run on store `st` leaves behind: the starting log
/// extended by the change-sets of exactly the completed units, in order.
pub open spec fn run_schema(st: SqlStore, s: Seq<MigrationDescriptor>) -> Seq<String> {
    st.schema@ + change_sets_of(s.subrange(run_start(st, s), run_stop(st, s)))
}

/// Apply every pending descriptor to the store, in strictly ascending
/// version order, each change-set and its version bump as one all-or-nothing
/// unit. When nothing is pending the run is a no-op and returns 0. The first
/// refused unit is rolled back and aborts the whole run: later descriptors
/// are not attempted, and the error carries the failing version and the
/// underlying storage cause.
pub fn apply_pending(store: &mut SqlStore, descriptors: &Vec<MigrationDescriptor>) -> (r: Result<
    usize,
    MigrationError,
>)
    requires
        descriptors_strictly_ascending(descriptors@),
    ensures
        final(store).bootstrapped,
        final(store).rejected_statement == old(store).rejected_statement,
        final(store).applied_version == run_final_version(*old(store), descriptors@),
        final(store).schema@ == run_schema(*old(store), descriptors@),
        r is Ok <==> run_ok(*old(store), descriptors@),
        r matches Ok(count) ==> count == run_count(*old(store), descriptors@),
        r matches Err(e) ==> e.version == descriptors@[run_stop(*old(store), descriptors@)].version
            && e.cause@ == descriptors@[run_stop(*old(store), descriptors@)].change_set@,
{
    let ghost s = descriptors@;
    let ghost st0 = *old(store);

    store.ensure_version_table();
    let base_version: u64 = store.read_applied_version();
    let n: usize = descriptors.len();

    let mut start: usize = 0;
    while start < n && descriptors[start].version <= base_version
        invariant
            0 <= start <= n,
            n == s.len(),
            s == descriptors@,
            st0 == *old(store),
            base_version == st0.applied_version,
            first_pending_from(s, base_version, 0) == first_pending_from(s, base_version, start as int),
        decreases n - start,
    {
        start = start + 1;
    }
    proof {
        assert(start as int == run_start(st0, s));
        lemma_first_rejected_from(s, st0.rejected_statement, start as int);
    }

    let mut i: usize = start;
    while i < n
        invariant
            start <= i <= n,
            n == s.len(),
            s == descriptors@,
            st0 == *old(store),
            descriptors_strictly_ascending(s),
            store.bootstrapped,
            store.rejected_statement == st0.rejected_statement,
            base_version == st0.applied_version,
            start as int == run_start(st0, s),
            first_rejected_from(s, st0.rejected_statement, start as int) >= i,
            store.applied_version == if i == start {
                base_version
            } else {
                s[i - 1].version
            },
            store.schema@ == st0.schema@ + change_sets_of(s.subrange(start as int, i as int)),
        decreases n - i,
    {
        let d = &descriptors[i];
        match store.exec_atomic(d.version, &d.change_set) {
            Ok(()) => {
                proof {
                    lemma_first_rejected_from(s, st0.rejected_statement, start as int);
                    assert(s.subrange(start as int, i + 1) =~= s.subrange(
                        start as int,
                        i as int,
                    ).push(s[i as int]));
                    assert(change_sets_of(s.subrange(start as int, i + 1)) =~= change_sets_of(
                        s.subrange(start as int, i as int),
                    ).push(s[i as int].change_set));
                }
                i = i + 1;
            },
            Err(cause) => {
                proof {
                    lemma_first_rejected_from(s, st0.rejected_statement, start as int);
                    assert(run_stop(st0, s) == i as int);
                }
                return Err(MigrationError { version: d.version, cause });
            },
        }
    }
    proof {
        lemma_first_rejected_from(s, st0.rejected_statement, start as int);
        assert(run_stop(st0, s) == n as int);
    }
    Ok(n - start)
}

/// Law: on a store whose applied version is at least every descriptor's
/// version, a run pends nothing — it succeeds, applies zero descriptors and
/// leaves both the applied version and the schema log exactly as they were.
pub proof fn lemma_rerun_is_noop(st: SqlStore, s: Seq<MigrationDescriptor>)
    requires
        descriptors_strictly_ascending(s),
        forall|i: int| 0 <= i < s.len() ==> #[trigger] s[i].version <= st.applied_version,
    ensures
        run_ok(st, s),
        run_start(st, s) == s.len(),
        run_count(st, s) == 0,
        run_final_version(st, s) == st.applied_version,
        run_schema(st, s) == st.schema@,
{
    lemma_first_pending_from(s, st.applied_version, 0);
    assert(run_start(st, s) == s.len());
    assert(run_schema(st, s) =~= st.schema@);
}

/// Law: on a fresh, healthy store (version 0, no statement refused), a run
/// applies every descriptor in order: it succeeds, the applied count is the
/// whole sequence, the final version is the last (largest) descriptor
/// version, and the schema log gains every change-set, in sequence order.
pub proof fn lemma_fresh_run_applies_all(st: SqlStore, s: Seq<MigrationDescriptor>)
    requires
        descriptors_strictly_ascending(s),
        st.applied_version == 0,
        st.rejected_statement is None,
        s.len() > 0,
    ensures
        run_ok(st, s),
        run_start(st, s) == 0,
        run_count(st, s) == s.len(),
        run_final_version(st, s) == s[s.len() - 1].version,
        run_schema(st, s) == st.schema@ + change_sets_of(s),
{
    assert(s[0].version >= 1);
    assert(run_start(st, s) == 0);
    lemma_first_rejected_from(s, st.rejected_statement, 0);
    assert(run_stop(st, s) == s.len());
    assert(s.subrange(0, s.len() as int) =~= s);
    assert(run_schema(st, s) =~= st.schema@ + change_sets_of(s));
}

/// Law (apply twice): for any non-empty well-formed descriptor sequence and
/// any fresh, healthy store, one run applies all the descriptors and brings
/// the applied version to the largest descriptor version; a second run over
/// the same sequence, from the state the first one leaves, applies nothing
/// and changes nothing. The same composition covers two launches against one
/// database file: the launcher that runs first does all the work, the one
/// serialized behind it observes the migrated state and does none.
pub proof fn lemma_apply_twice(st0: SqlStore, st1: SqlStore, s: Seq<MigrationDescriptor>)
    requires
        descriptors_strictly_ascending(s),
        s.len() > 0,
        st0.applied_version == 0,
        st0.rejected_statement is None,
        st1.applied_version == run_final_version(st0, s),
        st1.schema@ == run_schema(st0, s),
        st1.rejected_statement == st0.rejected_statement,
    ensures
        run_ok(st0, s),
        run_count(st0, s) == s.len(),
        run_final_version(st0, s) == s[s.len() - 1].version,
        run_ok(st1, s),
        run_count(st1, s) == 0,
        run_final_version(st1, s) == st1.applied_version,
        run_schema(st1, s) == st1.schema@,
{
    lemma_fresh_run_applies_all(st0, s);
    assert(forall|i: int| 0 <= i < s.len() ==> #[trigger] s[i].version <= st1.applied_version) by {
        assert(forall|i: int|
            0 <= i < s.len() - 1 ==> #[trigger] s[i].version < s[s.len() - 1].version);
    }
    lemma_rerun_is_noop(st1, s);
}

/// Law (only the pending subsequence runs): a run skips exactly the
/// descriptors whose version is at or below the store's applied version, and
/// executes exactly the following ones — a contiguous subsequence, taken in
/// ascending version order — up to the first refused unit.
pub proof fn lemma_only_pending_executed(st: SqlStore, s: Seq<MigrationDescriptor>)
    requires
        descriptors_strictly_ascending(s),
    ensures
        0 <= run_start(st, s) <= run_stop(st, s) <= s.len(),
        forall|j: int| 0 <= j < run_start(st, s) ==> #[trigger] s[j].version <= st.applied_version,
        forall|j: int|
            run_start(st, s) <= j < run_stop(st, s) ==> #[trigger] s[j].version
                > st.applied_version,
        run_schema(st, s) == st.schema@ + change_sets_of(
            s.subrange(run_start(st, s), run_stop(st, s)),
        ),
{
    lemma_first_pending_from(s, st.applied_version, 0);
    lemma_first_rejected_from(s, st.rejected_statement, run_start(st, s));
    let fp = run_start(st, s);
    if fp < s.len() {
        assert(forall|j: int|
            fp <= j < run_stop(st, s) ==> #[trigger] s[j].version > st.applied_version) by {
            assert(forall|j: int| fp < j < s.len() ==> s[fp].version <= #[trigger] s[j].version);
        }
    }
}

/// Law (failure atomicity): when the very first pending unit is refused, the
/// run fails and the store is exactly as it was — the applied version keeps
/// its prior value and nothing from the refused change-set reaches the
/// schema log.
pub proof fn lemma_failed_unit_rolls_back(st: SqlStore, s: Seq<MigrationDescriptor>)
    requires
        descriptors_strictly_ascending(s),
        run_stop(st, s) == run_start(st, s),
        run_start(st, s) < s.len(),
    ensures
        !run_ok(st, s),
        run_final_version(st, s) == st.applied_version,
        run_schema(st, s) == st.schema@,
{
    assert(run_schema(st, s) =~= st.schema@);
}

/// Law (no half-applied state): whatever a run does — full success, nothing
/// pending, or an abort at a refused unit — the state it leaves corresponds
/// to a whole number of completed units: the final version is the starting
/// one or the version of the last completed descriptor, and the schema log
/// gains exactly one change-set per completed unit, each at its position, in
/// order. The applied version never sits between a completed unit and a
/// missing part of that unit's change-set.
pub proof fn lemma_no_half_applied_state(st: SqlStore, s: Seq<MigrationDescriptor>)
    requires
        descriptors_strictly_ascending(s),
    ensures
        run_schema(st, s).len() == st.schema@.len() + (run_stop(st, s) - run_start(st, s)),
        forall|j: int|
            run_start(st, s) <= j < run_stop(st, s) ==> run_schema(st, s)[st.schema@.len() + j
                - run_start(st, s)]@ == (#[trigger] s[j].change_set)@,
        run_start(st, s) < run_stop(st, s) ==> run_final_version(st, s) == s[run_stop(st, s)
            - 1].version,
        run_start(st, s) == run_stop(st, s) ==> run_final_version(st, s) == st.applied_version
            && run_schema(st, s) == st.schema@,
{
    lemma_first_pending_from(s, st.applied_version, 0);
    lemma_first_rejected_from(s, st.rejected_statement, run_start(st, s));
    if run_start(st, s) == run_stop(st, s) {
        assert(run_schema(st, s) =~= st.schema@);
    }
}

} // verus!
