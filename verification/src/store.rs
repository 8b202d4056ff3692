//! The embedded relational store, modelled by exactly the data the migration
//! engine and the dispatcher observe of it: whether the schema-version
//! bookkeeping table exists, the highest fully applied version, and the log
//! of change-sets the store has accepted, in order.

use vstd::prelude::*;

verus! {

/// Does the store refuse this change-set? `rejected` is the designated
/// statement the storage layer fails on; `None` means the store is healthy.
pub open spec fn rejects_spec(rejected: Option<String>, change_set: String) -> bool {
    rejected matches Some(r) && r@ == change_set@
}

/// The embedded store. A designated rejected statement stands for an
/// underlying storage failure (a malformed change-set, a full disk): the
/// store refuses the atomic unit that carries it and rolls the unit back.
pub struct SqlStore {
    /// Whether the schema-version bookkeeping table exists.
    pub bootstrapped: bool,
    /// Highest version successfully and fully applied; 0 while the record is
    /// absent. Mutated only inside an atomic unit, together with the unit's
    /// change-set.
    pub applied_version: u64,
    /// Change-sets the store has accepted, in the order they were applied:
    /// the observable schema objects.
    pub schema: Vec<String>,
    /// The statement the storage layer refuses, if any.
    pub rejected_statement: Option<String>,
}

impl SqlStore {
    /// Does this store refuse the given change-set?
    pub open spec fn rejects(self, change_set: String) -> bool {
        rejects_spec(self.rejected_statement, change_set)
    }

    /// A fresh, healthy database file: absent version record, empty schema.
    pub fn fresh() -> (r: SqlStore)
        ensures
            !r.bootstrapped,
            r.applied_version == 0,
            r.schema@ =~= Seq::<String>::empty(),
            r.rejected_statement is None,
    {
        SqlStore { bootstrapped: false, applied_version: 0, schema: Vec::new(), rejected_statement: None }
    }

    /// Mark one statement as refused by the storage layer, standing for an
    /// underlying storage fault on the unit that carries it.
    pub fn reject_statement(&mut self, statement: String)
        ensures
            final(self).rejected_statement == Some(statement),
            final(self).bootstrapped == old(self).bootstrapped,
            final(self).applied_version == old(self).applied_version,
            final(self).schema@ == old(self).schema@,
    {
        self.rejected_statement = Some(statement);
    }

    /// Ensure the schema-version bookkeeping table exists. Idempotent: safe
    /// to run when the table is already there, and touches nothing else.
    pub fn ensure_version_table(&mut self)
        ensures
            final(self).bootstrapped,
            final(self).applied_version == old(self).applied_version,
            final(self).schema@ == old(self).schema@,
            final(self).rejected_statement == old(self).rejected_statement,
    {
        self.bootstrapped = true;
    }

    /// Read the highest fully applied version; 0 when the record is absent.
    pub fn read_applied_version(&self) -> (v: u64)
        requires
            self.bootstrapped,
        ensures
            v == self.applied_version,
    {
        self.applied_version
    }

    /// Execute one change-set together with its version bump as a single
    /// all-or-nothing unit. On failure the whole unit is rolled back as if it
    /// never started, and the cause carries the refused statement.
    pub fn exec_atomic(&mut self, version: u64, change_set: &String) -> (r: Result<(), String>)
        requires
            old(self).bootstrapped,
        ensures
            r is Err <==> old(self).rejects(*change_set),
            r matches Err(cause) ==> cause@ == change_set@
                && final(self).applied_version == old(self).applied_version
                && final(self).schema@ == old(self).schema@,
            r is Ok ==> final(self).applied_version == version
                && final(self).schema@ == old(self).schema@.push(*change_set),
            final(self).bootstrapped == old(self).bootstrapped,
            final(self).rejected_statement == old(self).rejected_statement,
    {
        let refused: bool = match &self.rejected_statement {
            Some(r) => *r == *change_set,
            None => false,
        };
        if refused {
            Err(change_set.clone())
        } else {
            self.applied_version = version;
            self.schema.push(change_set.clone());
            Ok(())
        }
    }
}

} // verus!
