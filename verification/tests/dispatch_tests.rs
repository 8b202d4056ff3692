use cooliz::descriptor::descriptor_store;
use cooliz::dispatch::bootstrap;
use cooliz::dispatch::path_allowed;
use cooliz::dispatch::route;
use cooliz::dispatch::settle;
use cooliz::dispatch::DispatchError;
use cooliz::dispatch::HostAction;
use cooliz::dispatch::HostOutcome;
use cooliz::dispatch::HostValue;
use cooliz::dispatch::RequestArgs;
use cooliz::registry::builtin_registry;
use cooliz::registry::CapabilityBinding;
use cooliz::registry::CapabilityKind;
use cooliz::registry::CapabilityRegistry;
use cooliz::store::SqlStore;

fn roots() -> Vec<String> {
    vec!["/data/app/".to_string()]
}

fn args_with_path(path: &str) -> RequestArgs {
    let mut a = RequestArgs::empty();
    a.path = Some(path.to_string());
    a
}

#[test]
fn fs_read_outside_allowed_root_is_refused() {
    // A path under none of the allow-listed roots: refused with
    // InvalidArgument, and no action is granted, so nothing is read.
    let registry = builtin_registry(roots());
    let r = route(
        &registry,
        true,
        &"fs".to_string(),
        &"readFile".to_string(),
        args_with_path("/etc/passwd"),
    );
    assert_eq!(r, Err(DispatchError::InvalidArgument));
}

#[test]
fn fs_read_with_parent_reference_is_refused() {
    let registry = builtin_registry(roots());
    let r = route(
        &registry,
        true,
        &"fs".to_string(),
        &"readFile".to_string(),
        args_with_path("/data/app/../secret"),
    );
    assert_eq!(r, Err(DispatchError::InvalidArgument));
}

#[test]
fn fs_read_inside_root_is_granted() {
    let registry = builtin_registry(roots());
    let r = route(
        &registry,
        true,
        &"fs".to_string(),
        &"readFile".to_string(),
        args_with_path("/data/app/notes.txt"),
    );
    assert_eq!(
        r,
        Ok(HostAction::ReadFile { path: "/data/app/notes.txt".to_string() })
    );
}

#[test]
fn fs_write_inside_root_is_granted() {
    let registry = builtin_registry(roots());
    let mut args = args_with_path("/data/app/notes.txt");
    args.contents = Some(vec![104, 105]);
    let r = route(
        &registry,
        true,
        &"fs".to_string(),
        &"writeFile".to_string(),
        args,
    );
    assert_eq!(
        r,
        Ok(HostAction::WriteFile {
            path: "/data/app/notes.txt".to_string(),
            contents: vec![104, 105],
        })
    );
}

#[test]
fn fs_read_without_path_is_refused() {
    let registry = builtin_registry(roots());
    let r = route(
        &registry,
        true,
        &"fs".to_string(),
        &"readFile".to_string(),
        RequestArgs::empty(),
    );
    assert_eq!(r, Err(DispatchError::InvalidArgument));
}

#[test]
fn sql_before_migration_is_not_ready() {
    // Any database-backed operation before migration completes: NotReady,
    // whatever the operation name or the arguments.
    let registry = builtin_registry(roots());
    let mut args = RequestArgs::empty();
    args.sql = Some("select 1".to_string());
    let r = route(
        &registry,
        false,
        &"sql".to_string(),
        &"select".to_string(),
        args,
    );
    assert_eq!(r, Err(DispatchError::NotReady));

    let r2 = route(
        &registry,
        false,
        &"sql".to_string(),
        &"unknownOperation".to_string(),
        RequestArgs::empty(),
    );
    assert_eq!(r2, Err(DispatchError::NotReady));
}

#[test]
fn sql_after_migration_is_granted() {
    let registry = builtin_registry(roots());
    let mut args = RequestArgs::empty();
    args.sql = Some("select * from items".to_string());
    let r = route(
        &registry,
        true,
        &"sql".to_string(),
        &"select".to_string(),
        args,
    );
    assert_eq!(
        r,
        Ok(HostAction::RunSql { sql: "select * from items".to_string() })
    );
}

#[test]
fn sql_without_statement_is_refused() {
    let registry = builtin_registry(roots());
    let r = route(
        &registry,
        true,
        &"sql".to_string(),
        &"execute".to_string(),
        RequestArgs::empty(),
    );
    assert_eq!(r, Err(DispatchError::InvalidArgument));
}

#[test]
fn unknown_capability_is_not_registered() {
    let registry = builtin_registry(roots());
    let r = route(
        &registry,
        true,
        &"net".to_string(),
        &"fetch".to_string(),
        RequestArgs::empty(),
    );
    assert_eq!(r, Err(DispatchError::NotRegistered));
}

#[test]
fn unknown_operation_is_not_registered() {
    let registry = builtin_registry(roots());
    let r = route(
        &registry,
        true,
        &"fs".to_string(),
        &"deleteEverything".to_string(),
        RequestArgs::empty(),
    );
    assert_eq!(r, Err(DispatchError::NotRegistered));
}

#[test]
fn dialog_confirm_and_cancellation() {
    let registry = builtin_registry(roots());
    let mut args = RequestArgs::empty();
    args.message = Some("Close without saving?".to_string());
    let r = route(
        &registry,
        true,
        &"dialog".to_string(),
        &"confirm".to_string(),
        args,
    );
    assert_eq!(
        r,
        Ok(HostAction::ConfirmDialog { message: "Close without saving?".to_string() })
    );

    // A dismissed dialog settles to the distinct Cancelled outcome, not an
    // error; a made choice settles to its value.
    assert_eq!(settle(HostOutcome::Cancelled), Ok(HostValue::Cancelled));
    assert_eq!(
        settle(HostOutcome::Completed(HostValue::Flag(true))),
        Ok(HostValue::Flag(true))
    );
}

#[test]
fn io_failure_is_surfaced_as_error() {
    assert_eq!(
        settle(HostOutcome::Failed("disk full".to_string())),
        Err(DispatchError::IoFailure("disk full".to_string()))
    );
}

#[test]
fn opener_requires_a_target() {
    let registry = builtin_registry(roots());
    let mut args = RequestArgs::empty();
    args.target = Some("https://example.org".to_string());
    let r = route(
        &registry,
        true,
        &"opener".to_string(),
        &"openUrl".to_string(),
        args,
    );
    assert_eq!(
        r,
        Ok(HostAction::OpenExternal { target: "https://example.org".to_string() })
    );

    let mut empty_target = RequestArgs::empty();
    empty_target.target = Some(String::new());
    let r2 = route(
        &registry,
        true,
        &"opener".to_string(),
        &"openUrl".to_string(),
        empty_target,
    );
    assert_eq!(r2, Err(DispatchError::InvalidArgument));
}

#[test]
fn path_validation_is_pure() {
    let rs = roots();
    assert!(path_allowed(&"/data/app/a.txt".to_string(), &rs));
    assert!(!path_allowed(&"/data/other/a.txt".to_string(), &rs));
    assert!(!path_allowed(&"/data/app/../a.txt".to_string(), &rs));
    assert!(!path_allowed(&"/data/app/x".to_string(), &Vec::new()));
}

#[test]
fn registry_register_and_lookup() {
    let mut registry = CapabilityRegistry::new();
    registry.register(CapabilityBinding {
        name: "sql".to_string(),
        kind: CapabilityKind::Database,
        allowed_operations: vec!["execute".to_string()],
        allowed_roots: Vec::new(),
    });
    assert_eq!(registry.lookup(&"sql".to_string()), Some(0));
    assert_eq!(registry.lookup(&"fs".to_string()), None);
}

#[test]
fn builtin_registry_shape() {
    let registry = builtin_registry(roots());
    assert_eq!(registry.bindings.len(), 4);
    assert_eq!(registry.bindings[0].name, "sql");
    assert_eq!(registry.bindings[1].name, "fs");
    assert_eq!(registry.bindings[1].allowed_roots, roots());
    assert_eq!(registry.bindings[2].name, "dialog");
    assert_eq!(registry.bindings[3].name, "opener");
}

#[test]
fn bootstrap_activates_dispatch_only_on_success() {
    let mut store = SqlStore::fresh();
    let descriptors = descriptor_store();
    match bootstrap(&mut store, &descriptors, roots()) {
        Ok(host) => {
            assert!(host.migrated);
            assert_eq!(host.registry.bindings.len(), 4);
        }
        Err(_) => panic!("migration of a fresh store must succeed"),
    }
    assert_eq!(store.applied_version, 1);

    let mut broken = SqlStore::fresh();
    broken.reject_statement(
        "create table items (id integer primary key, name text)".to_string(),
    );
    match bootstrap(&mut broken, &descriptors, roots()) {
        Ok(_) => panic!("a refused unit must make startup fail"),
        Err(e) => assert_eq!(e.version, 1),
    }
    assert_eq!(broken.applied_version, 0);
}
