use cooliz::descriptor::descriptor_store;
use cooliz::descriptor::MigrationDescriptor;
use cooliz::descriptor::MigrationKind;
use cooliz::engine::apply_pending;
use cooliz::store::SqlStore;

fn descriptor(version: u64, change_set: &str) -> MigrationDescriptor {
    MigrationDescriptor {
        version,
        description: format!("migration {}", version),
        change_set: change_set.to_string(),
        kind: MigrationKind::Up,
    }
}

#[test]
fn initial_migration_scenario() {
    // Empty database, the built-in single-descriptor store.
    let mut store = SqlStore::fresh();
    let descriptors = descriptor_store();

    let first = apply_pending(&mut store, &descriptors);
    assert_eq!(first, Ok(1));
    assert_eq!(store.applied_version, 1);
    assert_eq!(store.schema.len(), 1);
    assert_eq!(
        store.schema[0],
        "create table items (id integer primary key, name text)"
    );

    // Running again with the same list is a no-op: no error, no re-execution,
    // no structural change.
    let second = apply_pending(&mut store, &descriptors);
    assert_eq!(second, Ok(0));
    assert_eq!(store.applied_version, 1);
    assert_eq!(store.schema.len(), 1);
    assert_eq!(
        store.schema[0],
        "create table items (id integer primary key, name text)"
    );
}

#[test]
fn fresh_run_applies_all_then_nothing() {
    // Strictly ascending versions, with a gap: all applied, then none.
    let mut store = SqlStore::fresh();
    let descriptors = vec![
        descriptor(1, "create table a (x)"),
        descriptor(2, "create table b (y)"),
        descriptor(5, "create index i on a (x)"),
    ];

    assert_eq!(apply_pending(&mut store, &descriptors), Ok(3));
    assert_eq!(store.applied_version, 5);
    assert_eq!(
        store.schema,
        vec![
            "create table a (x)".to_string(),
            "create table b (y)".to_string(),
            "create index i on a (x)".to_string(),
        ]
    );

    assert_eq!(apply_pending(&mut store, &descriptors), Ok(0));
    assert_eq!(store.applied_version, 5);
    assert_eq!(store.schema.len(), 3);
}

#[test]
fn only_versions_above_current_run() {
    // Bring the database to version 2, then offer a list holding versions
    // both at-or-below and above 2: only the above-2 suffix executes.
    let mut store = SqlStore::fresh();
    let prefix = vec![
        descriptor(1, "create table a (x)"),
        descriptor(2, "create table b (y)"),
    ];
    assert_eq!(apply_pending(&mut store, &prefix), Ok(2));
    assert_eq!(store.applied_version, 2);

    let full = vec![
        descriptor(1, "create table a (x)"),
        descriptor(2, "create table b (y)"),
        descriptor(3, "create table c (z)"),
        descriptor(4, "create table d (w)"),
    ];
    assert_eq!(apply_pending(&mut store, &full), Ok(2));
    assert_eq!(store.applied_version, 4);
    assert_eq!(
        store.schema,
        vec![
            "create table a (x)".to_string(),
            "create table b (y)".to_string(),
            "create table c (z)".to_string(),
            "create table d (w)".to_string(),
        ]
    );
}

#[test]
fn failed_unit_rolls_back_and_aborts() {
    // Version 1 applies; version 2's change-set is refused by the storage
    // layer: the applied version stays at 1 and nothing of version 2 or 3
    // reaches the schema.
    let mut store = SqlStore::fresh();
    let v1 = vec![descriptor(1, "create table a (x)")];
    assert_eq!(apply_pending(&mut store, &v1), Ok(1));

    store.reject_statement("create table broken (".to_string());
    let descriptors = vec![
        descriptor(1, "create table a (x)"),
        descriptor(2, "create table broken ("),
        descriptor(3, "create table c (z)"),
    ];
    let r = apply_pending(&mut store, &descriptors);
    match r {
        Err(e) => {
            assert_eq!(e.version, 2);
            assert_eq!(e.cause, "create table broken (");
        }
        Ok(_) => panic!("a refused unit must abort the run"),
    }
    assert_eq!(store.applied_version, 1);
    assert_eq!(store.schema, vec!["create table a (x)".to_string()]);
}

#[test]
fn failure_on_first_pending_leaves_store_untouched() {
    let mut store = SqlStore::fresh();
    store.reject_statement("create table a (x)".to_string());
    let descriptors = vec![descriptor(1, "create table a (x)")];
    let r = apply_pending(&mut store, &descriptors);
    assert!(matches!(r, Err(ref e) if e.version == 1));
    assert_eq!(store.applied_version, 0);
    assert_eq!(store.schema.len(), 0);
}

#[test]
fn empty_descriptor_list_is_side_effect_free() {
    let mut store = SqlStore::fresh();
    let descriptors: Vec<MigrationDescriptor> = Vec::new();
    assert_eq!(apply_pending(&mut store, &descriptors), Ok(0));
    assert_eq!(store.applied_version, 0);
    assert_eq!(store.schema.len(), 0);
}

#[test]
fn two_launches_one_does_all_the_work() {
    // Two launches against the same fresh database file, serialized by the
    // store's locking: the first applies every descriptor, the second
    // observes the migrated state and applies none; the file never holds a
    // half-applied version.
    let mut store = SqlStore::fresh();
    let descriptors = vec![
        descriptor(1, "create table a (x)"),
        descriptor(2, "create table b (y)"),
    ];

    let first_launch = apply_pending(&mut store, &descriptors);
    let second_launch = apply_pending(&mut store, &descriptors);

    assert_eq!(first_launch, Ok(2));
    assert_eq!(second_launch, Ok(0));
    assert_eq!(store.applied_version, 2);
    assert_eq!(
        store.schema,
        vec![
            "create table a (x)".to_string(),
            "create table b (y)".to_string(),
        ]
    );
}

#[test]
fn descriptor_store_shape() {
    let descriptors = descriptor_store();
    assert_eq!(descriptors.len(), 1);
    assert_eq!(descriptors[0].version, 1);
    assert_eq!(descriptors[0].description, "initial migration");
    assert!(matches!(descriptors[0].kind, MigrationKind::Up));
}
