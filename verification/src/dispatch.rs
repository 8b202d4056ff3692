//! The command dispatcher: the boundary across which the UI layer invokes
//! host-side operations. A request names a capability and an operation and
//! carries structured arguments; the dispatcher checks membership against
//! the fixed routing table, refuses database-backed work until the migration
//! engine has completed, validates the arguments, and only then grants the
//! request as a `HostAction` for the host to perform. Granting performs no
//! side effect itself, so every rejection is side-effect-free.

use vstd::prelude::*;

verus! {

use crate::descriptor::MigrationDescriptor;
use crate::descriptor::descriptors_strictly_ascending;
use crate::engine::MigrationError;
use crate::engine::apply_pending;
use crate::engine::run_final_version;
use crate::engine::run_ok;
use crate::engine::run_schema;
use crate::engine::run_stop;
use crate::registry::CapabilityBinding;
use crate::registry::CapabilityKind;
use crate::registry::CapabilityRegistry;
use crate::registry::builtin_registry;
use crate::registry::is_builtin_registry;
use crate::registry::op_listed;
use crate::registry::operation_listed;
use crate::store::SqlStore;
use vstd::string::StrSliceExecFns;

/// Why a request was refused. `UserCancelled` is deliberately not here: a
/// dismissed dialog is a distinct outcome value, not a failure.
#[derive(Debug, PartialEq, Eq)]
pub enum DispatchError {
    /// The capability/operation pair is absent from the routing table.
    NotRegistered,
    /// A database-backed operation arrived before migration completed.
    NotReady,
    /// Per-operation argument validation failed; no side effect happened.
    InvalidArgument,
    /// The underlying storage or filesystem operation failed; surfaced to
    /// the caller, never retried automatically.
    IoFailure(String),
}

/// A structured response value handed back across the boundary.
#[derive(Debug, PartialEq, Eq)]
pub enum HostValue {
    Null,
    Flag(bool),
    Text(String),
    Data(Vec<u8>),
    /// The user dismissed a dialog without choosing: a distinct outcome, not
    /// an error.
    Cancelled,
}

/// A granted request: the side-effecting host operation the dispatcher
/// decided to allow, for the host to perform.
#[derive(Debug, PartialEq, Eq)]
pub enum HostAction {
    /// Run a statement against the migrated store, in a transaction of its
    /// own, acquired and released for this one request.
    RunSql { sql: String },
    /// Read a file inside the allow-listed roots.
    ReadFile { path: String },
    /// Write a file inside the allow-listed roots.
    WriteFile { path: String, contents: Vec<u8> },
    /// Present a native confirm dialog and wait for the user's choice.
    ConfirmDialog { message: String },
    /// Present a native open-file dialog.
    PickFileDialog,
    /// Present a native save-file dialog.
    SaveFileDialog,
    /// Open a URL or path with the platform's default handler;
    /// fire-and-forget.
    OpenExternal { target: String },
}

/// Structured request arguments, as plain values. A request fills the
/// fields its operation needs and leaves the rest empty.
#[derive(Debug)]
pub struct RequestArgs {
    pub path: Option<String>,
    pub contents: Option<Vec<u8>>,
    pub message: Option<String>,
    pub sql: Option<String>,
    pub target: Option<String>,
}

impl RequestArgs {
    /// Arguments with every field empty.
    pub fn empty() -> (r: RequestArgs)
        ensures
            r.path is None,
            r.contents is None,
            r.message is None,
            r.sql is None,
            r.target is None,
    {
        RequestArgs { path: None, contents: None, message: None, sql: None, target: None }
    }
}

/// Is `p` a prefix of `s`?
pub open spec fn is_prefix_of(p: Seq<char>, s: Seq<char>) -> bool {
    p.len() <= s.len() && s.subrange(0, p.len() as int) == p
}

/// Does the path contain two adjacent dots — a parent-directory reference
/// that could escape an allowed root?
pub open spec fn has_parent_ref(s: Seq<char>) -> bool {
    exists|i: int| #![trigger s[i]] 0 <= i && i + 1 < s.len() && s[i] == '.' && s[i + 1] == '.'
}

/// A path is allowed when it escapes nothing (no parent-directory
/// reference) and sits under one of the allow-listed roots.
pub open spec fn path_allowed_spec(path: Seq<char>, roots: Seq<String>) -> bool {
    &&& !has_parent_ref(path)
    &&& exists|i: int| 0 <= i < roots.len() && is_prefix_of((#[trigger] roots[i])@, path)
}

/// Is `prefix` a prefix of `s`? Character-by-character check.
fn text_has_prefix(s: &str, prefix: &str) -> (r: bool)
    ensures
        r == is_prefix_of(prefix@, s@),
{
    let plen: usize = prefix.unicode_len();
    let slen: usize = s.unicode_len();
    if plen > slen {
        return false;
    }
    let mut i: usize = 0;
    while i < plen
        invariant
            0 <= i <= plen,
            plen == prefix@.len(),
            slen == s@.len(),
            plen <= slen,
            forall|j: int| 0 <= j < i ==> s@[j] == prefix@[j],
        decreases plen - i,
    {
        if s.get_char(i) != prefix.get_char(i) {
            proof {
                assert(s@.subrange(0, prefix@.len() as int)[i as int] != prefix@[i as int]);
            }
            return false;
        }
        i = i + 1;
    }
    proof {
        assert(s@.subrange(0, prefix@.len() as int) =~= prefix@);
    }
    true
}

/// Does the text contain two adjacent dots?
fn text_has_parent_ref(s: &str) -> (r: bool)
    ensures
        r == has_parent_ref(s@),
{
    let n: usize = s.unicode_len();
    if n < 2 {
        return false;
    }
    let mut i: usize = 0;
    while i < n - 1
        invariant
            2 <= n,
            0 <= i <= n - 1,
            n == s@.len(),
            forall|j: int| #![trigger s@[j]] 0 <= j < i && j + 1 < n ==> !(s@[j] == '.' && s@[j
                + 1] == '.'),
        decreases n - i,
    {
        if s.get_char(i) == '.' && s.get_char(i + 1) == '.' {
            return true;
        }
        i = i + 1;
    }
    false
}

/// Validate a filesystem path against the allow-listed roots; performs no
/// filesystem access.
pub fn path_allowed(path: &String, roots: &Vec<String>) -> (r: bool)
    ensures
        r == path_allowed_spec(path@, roots@),
{
    if text_has_parent_ref(path.as_str()) {
        return false;
    }
    let n: usize = roots.len();
    let mut i: usize = 0;
    while i < n
        invariant
            0 <= i <= n,
            n == roots@.len(),
            !has_parent_ref(path@),
            forall|j: int| 0 <= j < i ==> !is_prefix_of((#[trigger] roots@[j])@, path@),
        decreases n - i,
    {
        if text_has_prefix(path.as_str(), roots[i].as_str()) {
            return true;
        }
        i = i + 1;
    }
    false
}

/// What granting an operation of one binding yields, given the arguments:
/// the action, or the validation error. Assumes the operation already passed
/// the membership check.
pub open spec fn action_spec(b: CapabilityBinding, op: Seq<char>, args: RequestArgs) -> Result<
    HostAction,
    DispatchError,
> {
    match b.kind {
        CapabilityKind::Database => {
            match args.sql {
                Some(q) => Ok(HostAction::RunSql { sql: q }),
                None => Err(DispatchError::InvalidArgument),
            }
        },
        CapabilityKind::Filesystem => {
            if op == "readFile"@ {
                match args.path {
                    Some(p) => {
                        if path_allowed_spec(p@, b.allowed_roots@) {
                            Ok(HostAction::ReadFile { path: p })
                        } else {
                            Err(DispatchError::InvalidArgument)
                        }
                    },
                    None => Err(DispatchError::InvalidArgument),
                }
            } else if op == "writeFile"@ {
                match (args.path, args.contents) {
                    (Some(p), Some(c)) => {
                        if path_allowed_spec(p@, b.allowed_roots@) {
                            Ok(HostAction::WriteFile { path: p, contents: c })
                        } else {
                            Err(DispatchError::InvalidArgument)
                        }
                    },
                    _ => Err(DispatchError::InvalidArgument),
                }
            } else {
                Err(DispatchError::NotRegistered)
            }
        },
        CapabilityKind::Dialog => {
            if op == "confirm"@ {
                match args.message {
                    Some(m) => Ok(HostAction::ConfirmDialog { message: m }),
                    None => Err(DispatchError::InvalidArgument),
                }
            } else if op == "open"@ {
                Ok(HostAction::PickFileDialog)
            } else if op == "save"@ {
                Ok(HostAction::SaveFileDialog)
            } else {
                Err(DispatchError::NotRegistered)
            }
        },
        CapabilityKind::Opener => {
            if op == "openUrl"@ || op == "openPath"@ {
                match args.target {
                    Some(t) => {
                        if t@.len() > 0 {
                            Ok(HostAction::OpenExternal { target: t })
                        } else {
                            Err(DispatchError::InvalidArgument)
                        }
                    },
                    None => Err(DispatchError::InvalidArgument),
                }
            } else {
                Err(DispatchError::NotRegistered)
            }
        },
    }
}

/// What `route` returns, in full: the routing-table membership check first
/// (`NotRegistered`), then the migration gate on database-backed work
/// (`NotReady`, whatever the operation), then per-operation argument
/// validation (`InvalidArgument`), and only past all three a granted action.
pub open spec fn route_spec(
    reg: CapabilityRegistry,
    migrated: bool,
    cap: Seq<char>,
    op: Seq<char>,
    args: RequestArgs,
) -> Result<HostAction, DispatchError> {
    if !reg.spec_has_binding(cap) {
        Err(DispatchError::NotRegistered)
    } else {
        let b = reg.spec_binding_for(cap);
        if b.kind == CapabilityKind::Database && !migrated {
            Err(DispatchError::NotReady)
        } else if !op_listed(b.allowed_operations@, op) {
            Err(DispatchError::NotRegistered)
        } else {
            action_spec(b, op, args)
        }
    }
}

/// Decide one request against the fixed routing table. Pure decision: no
/// side effect is performed here, so a rejected request rejects with nothing
/// done; a granted request comes back as the `HostAction` to perform.
pub fn route(
    registry: &CapabilityRegistry,
    migrated: bool,
    capability: &String,
    operation: &String,
    args: RequestArgs,
) -> (r: Result<HostAction, DispatchError>)
    ensures
        r == route_spec(*registry, migrated, capability@, operation@, args),
{
    let idx: usize = match registry.lookup(capability) {
        Some(i) => i,
        None => {
            return Err(DispatchError::NotRegistered);
        },
    };
    let binding = &registry.bindings[idx];
    if binding.kind == CapabilityKind::Database && !migrated {
        return Err(DispatchError::NotReady);
    }
    if !operation_listed(&binding.allowed_operations, operation) {
        return Err(DispatchError::NotRegistered);
    }
    match binding.kind {
        CapabilityKind::Database => {
            match args.sql {
                Some(q) => Ok(HostAction::RunSql { sql: q }),
                None => Err(DispatchError::InvalidArgument),
            }
        },
        CapabilityKind::Filesystem => {
            if *operation == "readFile".to_owned() {
                match args.path {
                    Some(p) => {
                        if path_allowed(&p, &binding.allowed_roots) {
                            Ok(HostAction::ReadFile { path: p })
                        } else {
                            Err(DispatchError::InvalidArgument)
                        }
                    },
                    None => Err(DispatchError::InvalidArgument),
                }
            } else if *operation == "writeFile".to_owned() {
                match (args.path, args.contents) {
                    (Some(p), Some(c)) => {
                        if path_allowed(&p, &binding.allowed_roots) {
                            Ok(HostAction::WriteFile { path: p, contents: c })
                        } else {
                            Err(DispatchError::InvalidArgument)
                        }
                    },
                    _ => Err(DispatchError::InvalidArgument),
                }
            } else {
                Err(DispatchError::NotRegistered)
            }
        },
        CapabilityKind::Dialog => {
            if *operation == "confirm".to_owned() {
                match args.message {
                    Some(m) => Ok(HostAction::ConfirmDialog { message: m }),
                    None => Err(DispatchError::InvalidArgument),
                }
            } else if *operation == "open".to_owned() {
                Ok(HostAction::PickFileDialog)
            } else if *operation == "save".to_owned() {
                Ok(HostAction::SaveFileDialog)
            } else {
                Err(DispatchError::NotRegistered)
            }
        },
        CapabilityKind::Opener => {
            if *operation == "openUrl".to_owned() || *operation == "openPath".to_owned() {
                match args.target {
                    Some(t) => {
                        if t.as_str().unicode_len() > 0 {
                            Ok(HostAction::OpenExternal { target: t })
                        } else {
                            Err(DispatchError::InvalidArgument)
                        }
                    },
                    None => Err(DispatchError::InvalidArgument),
                }
            } else {
                Err(DispatchError::NotRegistered)
            }
        },
    }
}

/// How one host outcome maps to the response handed back across the
/// boundary: a completed operation returns its value, a storage or
/// filesystem failure is surfaced as `IoFailure`, and a dismissed dialog is
/// the distinct `Cancelled` outcome, never an error.
pub open spec fn settle_spec(outcome: HostOutcome) -> Result<HostValue, DispatchError> {
    match outcome {
        HostOutcome::Completed(v) => Ok(v),
        HostOutcome::Failed(m) => Err(DispatchError::IoFailure(m)),
        HostOutcome::Cancelled => Ok(HostValue::Cancelled),
    }
}

/// How a granted action ended at the host: it completed with a value, the
/// underlying storage or filesystem failed, or the user dismissed a dialog
/// without choosing.
#[derive(Debug)]
pub enum HostOutcome {
    Completed(HostValue),
    Failed(String),
    Cancelled,
}

/// Turn the host's outcome of a granted action into the response returned
/// across the boundary.
pub fn settle(outcome: HostOutcome) -> (r: Result<HostValue, DispatchError>)
    ensures
        r == settle_spec(outcome),
{
    match outcome {
        HostOutcome::Completed(v) => Ok(v),
        HostOutcome::Failed(m) => Err(DispatchError::IoFailure(m)),
        HostOutcome::Cancelled => Ok(HostValue::Cancelled),
    }
}

/// The host's dispatch state: the fixed registry, and whether the migration
/// engine has completed for this process.
pub struct HostState {
    pub registry: CapabilityRegistry,
    pub migrated: bool,
}

/// Process bootstrap: run the migration engine to completion before
/// anything else. Only on full success is the routing table built and the
/// dispatch state activated; a migration failure is fatal to startup and is
/// surfaced with the failing version and the underlying cause.
pub fn bootstrap(
    store: &mut SqlStore,
    descriptors: &Vec<MigrationDescriptor>,
    fs_roots: Vec<String>,
) -> (r: Result<HostState, MigrationError>)
    requires
        descriptors_strictly_ascending(descriptors@),
    ensures
        final(store).bootstrapped,
        final(store).rejected_statement == old(store).rejected_statement,
        final(store).applied_version == run_final_version(*old(store), descriptors@),
        final(store).schema@ == run_schema(*old(store), descriptors@),
        r is Ok <==> run_ok(*old(store), descriptors@),
        r matches Ok(h) ==> h.migrated && h.registry.wf() && is_builtin_registry(
            h.registry,
            fs_roots@,
        ),
        r matches Err(e) ==> e.version == descriptors@[run_stop(
            *old(store),
            descriptors@,
        )].version,
{
    match apply_pending(store, descriptors) {
        Ok(_count) => Ok(HostState { registry: builtin_registry(fs_roots), migrated: true }),
        Err(e) => Err(e),
    }
}

/// Law: before migration completes, a request addressed to a
/// database-backed capability is refused with `NotReady`, whatever the
/// operation and whatever the arguments — and since refusal happens in the
/// pure routing decision, the database handle is never touched.
pub proof fn lemma_database_refused_before_migration(
    reg: CapabilityRegistry,
    cap: Seq<char>,
    op: Seq<char>,
    args: RequestArgs,
)
    requires
        reg.spec_has_binding(cap),
        reg.spec_binding_for(cap).kind == CapabilityKind::Database,
    ensures
        route_spec(reg, false, cap, op, args) == Err::<HostAction, DispatchError>(
            DispatchError::NotReady,
        ),
{
}

/// Law: a filesystem read whose path fails validation — it carries a
/// parent-directory reference or sits under none of the allow-listed roots —
/// is refused with `InvalidArgument`; no action is granted, so no file is
/// read.
pub proof fn lemma_fs_read_outside_roots_refused(
    reg: CapabilityRegistry,
    migrated: bool,
    cap: Seq<char>,
    args: RequestArgs,
    p: String,
)
    requires
        reg.spec_has_binding(cap),
        reg.spec_binding_for(cap).kind == CapabilityKind::Filesystem,
        op_listed(reg.spec_binding_for(cap).allowed_operations@, "readFile"@),
        args.path == Some(p),
        !path_allowed_spec(p@, reg.spec_binding_for(cap).allowed_roots@),
    ensures
        route_spec(reg, migrated, cap, "readFile"@, args) == Err::<HostAction, DispatchError>(
            DispatchError::InvalidArgument,
        ),
{
}

} // verus!
