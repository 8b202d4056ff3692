//! The migration descriptor store: an ordered, build-time sequence of
//! immutable schema migration records.

use vstd::prelude::*;

verus! {

/// Direction tag of a change-set. This application only ever defines `Up`
/// entries (there is no rollback support); `Down` is reserved so the model
/// stays forward compatible.
#[derive(Clone, Copy, Debug, PartialEq, Eq, Structural)]
pub enum MigrationKind {
    Up,
    Down,
}

/// One immutable migration record, defined at build time.
#[derive(Debug)]
pub struct MigrationDescriptor {
    /// Positive version number, strictly increasing across the sequence.
    pub version: u64,
    /// Human-readable label; diagnostics only, no semantic effect.
    pub description: String,
    /// The change-set: an ordered batch of schema-altering statements in the
    /// store's native query language, applied as one all-or-nothing unit.
    pub change_set: String,
    /// Direction tag.
    pub kind: MigrationKind,
}

/// Well-formedness of a descriptor sequence: every version is positive and
/// versions are strictly increasing. Gaps between versions are permitted;
/// strict ascent makes each version unique.
pub open spec fn descriptors_strictly_ascending(s: Seq<MigrationDescriptor>) -> bool {
    &&& forall|i: int| 0 <= i < s.len() ==> #[trigger] s[i].version >= 1
    &&& forall|i: int, j: int|
        #![trigger s[i].version, s[j].version]
        0 <= i < j < s.len() ==> s[i].version < s[j].version
}

/// The change-sets of a descriptor sequence, in sequence order.
pub open spec fn change_sets_of(s: Seq<MigrationDescriptor>) -> Seq<String> {
    s.map_values(|d: MigrationDescriptor| d.change_set)
}

/// The fixed descriptor store baked into this application: a single `Up`
/// migration that creates the `items` table.
pub fn descriptor_store() -> (r: Vec<MigrationDescriptor>)
    ensures
        r@.len() == 1,
        r@[0].version == 1,
        r@[0].description@ == "initial migration"@,
        r@[0].change_set@ == "create table items (id integer primary key, name text)"@,
        r@[0].kind == MigrationKind::Up,
        descriptors_strictly_ascending(r@),
{
    let d = MigrationDescriptor {
        version: 1,
        description: "initial migration".to_owned(),
        change_set: "create table items (id integer primary key, name text)".to_owned(),
        kind: MigrationKind::Up,
    };
    let mut r: Vec<MigrationDescriptor> = Vec::new();
    r.push(d);
    r
}

} // verus!
