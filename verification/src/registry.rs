//! The capability registry: a fixed mapping, built once at startup, from a
//! capability name to the host-side operations it permits and to its
//! per-capability policy (for the filesystem capability, the allow-listed
//! roots). Never widened at runtime.

use vstd::prelude::*;

verus! {

/// The closed set of capability providers this host knows at build time.
#[derive(Clone, Copy, Debug, PartialEq, Eq, Structural)]
pub enum CapabilityKind {
    /// The embedded relational store.
    Database,
    /// Allow-listed filesystem access.
    Filesystem,
    /// Native confirm/open/save dialogs.
    Dialog,
    /// Opening a URL or path with the platform's default handler.
    Opener,
}

/// One capability binding: the name the UI layer uses, the provider behind
/// it, the operations it permits, and its allow-listed filesystem roots
/// (meaningful for the filesystem capability, empty elsewhere).
#[derive(Debug)]
pub struct CapabilityBinding {
    pub name: String,
    pub kind: CapabilityKind,
    pub allowed_operations: Vec<String>,
    pub allowed_roots: Vec<String>,
}

/// Index of the first binding at or after `i` named `name`; `s.len()` when
/// there is none.
pub open spec fn find_binding_from(s: Seq<CapabilityBinding>, name: Seq<char>, i: int) -> int
    decreases s.len() - i,
{
    if i < 0 || i >= s.len() {
        s.len() as int
    } else if s[i].name@ == name {
        i
    } else {
        find_binding_from(s, name, i + 1)
    }
}

/// Index of the binding named `name`; `s.len()` when none carries that name.
pub open spec fn find_binding(s: Seq<CapabilityBinding>, name: Seq<char>) -> int {
    find_binding_from(s, name, 0)
}

/// What `find_binding_from` returns: the least index at or after `i` whose
/// binding carries `name`.
pub proof fn lemma_find_binding_from(s: Seq<CapabilityBinding>, name: Seq<char>, i: int)
    requires
        0 <= i <= s.len(),
    ensures
        i <= find_binding_from(s, name, i) <= s.len(),
        forall|j: int| i <= j < find_binding_from(s, name, i) ==> (#[trigger] s[j].name)@ != name,
        find_binding_from(s, name, i) < s.len() ==> s[find_binding_from(s, name, i)].name@ == name,
    decreases s.len() - i,
{
    if i < s.len() && s[i].name@ != name {
        lemma_find_binding_from(s, name, i + 1);
    }
}

/// Is some operation name in the list? Names compare by their text.
pub open spec fn op_listed(ops: Seq<String>, op: Seq<char>) -> bool {
    exists|i: int| 0 <= i < ops.len() && (#[trigger] ops[i])@ == op
}

/// The fixed routing table, built once during process initialization and
/// passed explicitly to the dispatcher.
pub struct CapabilityRegistry {
    pub bindings: Vec<CapabilityBinding>,
}

impl CapabilityRegistry {
    /// Binding names are unique, so a name resolves to one provider.
    pub open spec fn wf(self) -> bool {
        forall|i: int, j: int|
            #![trigger self.bindings@[i].name, self.bindings@[j].name]
            0 <= i < j < self.bindings@.len() ==> self.bindings@[i].name@
                != self.bindings@[j].name@
    }

    /// Is some capability name bound?
    pub open spec fn spec_has_binding(self, name: Seq<char>) -> bool {
        find_binding(self.bindings@, name) < self.bindings@.len()
    }

    /// The binding a name resolves to.
    pub open spec fn spec_binding_for(self, name: Seq<char>) -> CapabilityBinding {
        self.bindings@[find_binding(self.bindings@, name)]
    }

    /// An empty registry, to be populated by `register` during startup.
    pub fn new() -> (r: CapabilityRegistry)
        ensures
            r.bindings@ =~= Seq::<CapabilityBinding>::empty(),
            r.wf(),
    {
        CapabilityRegistry { bindings: Vec::new() }
    }

    /// Add one binding to the table. Startup-only: the caller must pick a
    /// name that is not yet bound, so the table stays unambiguous.
    pub fn register(&mut self, binding: CapabilityBinding)
        requires
            !old(self).spec_has_binding(binding.name@),
            old(self).wf(),
        ensures
            final(self).bindings@ == old(self).bindings@.push(binding),
            final(self).wf(),
    {
        proof {
            lemma_find_binding_from(self.bindings@, binding.name@, 0);
        }
        self.bindings.push(binding);
    }

    /// Resolve a capability name to the index of its binding.
    pub fn lookup(&self, name: &String) -> (r: Option<usize>)
        ensures
            r matches Some(idx) ==> idx as int == find_binding(self.bindings@, name@)
                && idx < self.bindings@.len(),
            r is None <==> !self.spec_has_binding(name@),
    {
        let n: usize = self.bindings.len();
        let mut i: usize = 0;
        while i < n
            invariant
                0 <= i <= n,
                n == self.bindings@.len(),
                find_binding(self.bindings@, name@) == find_binding_from(
                    self.bindings@,
                    name@,
                    i as int,
                ),
            decreases n - i,
        {
            if self.bindings[i].name == *name {
                return Some(i);
            }
            i = i + 1;
        }
        None
    }
}

/// The shape of the registry this host builds at startup: the four built-in
/// capabilities and nothing else — the database ("sql"), the allow-listed
/// filesystem ("fs"), native dialogs ("dialog") and the external-link opener
/// ("opener") — each with its fixed operation set, and the given allow-listed
/// roots on the filesystem binding.
pub open spec fn is_builtin_registry(reg: CapabilityRegistry, fs_roots: Seq<String>) -> bool {
    &&& reg.bindings@.len() == 4
    &&& reg.bindings@[0].name@ == "sql"@
    &&& reg.bindings@[0].kind == CapabilityKind::Database
    &&& reg.bindings@[0].allowed_operations@.len() == 2
    &&& reg.bindings@[0].allowed_operations@[0]@ == "execute"@
    &&& reg.bindings@[0].allowed_operations@[1]@ == "select"@
    &&& reg.bindings@[0].allowed_roots@.len() == 0
    &&& reg.bindings@[1].name@ == "fs"@
    &&& reg.bindings@[1].kind == CapabilityKind::Filesystem
    &&& reg.bindings@[1].allowed_operations@.len() == 2
    &&& reg.bindings@[1].allowed_operations@[0]@ == "readFile"@
    &&& reg.bindings@[1].allowed_operations@[1]@ == "writeFile"@
    &&& reg.bindings@[1].allowed_roots@ == fs_roots
    &&& reg.bindings@[2].name@ == "dialog"@
    &&& reg.bindings@[2].kind == CapabilityKind::Dialog
    &&& reg.bindings@[2].allowed_operations@.len() == 3
    &&& reg.bindings@[2].allowed_operations@[0]@ == "confirm"@
    &&& reg.bindings@[2].allowed_operations@[1]@ == "open"@
    &&& reg.bindings@[2].allowed_operations@[2]@ == "save"@
    &&& reg.bindings@[2].allowed_roots@.len() == 0
    &&& reg.bindings@[3].name@ == "opener"@
    &&& reg.bindings@[3].kind == CapabilityKind::Opener
    &&& reg.bindings@[3].allowed_operations@.len() == 2
    &&& reg.bindings@[3].allowed_operations@[0]@ == "openUrl"@
    &&& reg.bindings@[3].allowed_operations@[1]@ == "openPath"@
    &&& reg.bindings@[3].allowed_roots@.len() == 0
}

/// Build the fixed routing table of this host: the four built-in
/// capabilities, with the given allow-listed roots on the filesystem
/// binding. No application-specific commands exist beyond these.
pub fn builtin_registry(fs_roots: Vec<String>) -> (r: CapabilityRegistry)
    ensures
        r.wf(),
        is_builtin_registry(r, fs_roots@),
{
    let mut sql_ops: Vec<String> = Vec::new();
    sql_ops.push("execute".to_owned());
    sql_ops.push("select".to_owned());
    let mut fs_ops: Vec<String> = Vec::new();
    fs_ops.push("readFile".to_owned());
    fs_ops.push("writeFile".to_owned());
    let mut dialog_ops: Vec<String> = Vec::new();
    dialog_ops.push("confirm".to_owned());
    dialog_ops.push("open".to_owned());
    dialog_ops.push("save".to_owned());
    let mut opener_ops: Vec<String> = Vec::new();
    opener_ops.push("openUrl".to_owned());
    opener_ops.push("openPath".to_owned());

    let mut bindings: Vec<CapabilityBinding> = Vec::new();
    bindings.push(CapabilityBinding {
        name: "sql".to_owned(),
        kind: CapabilityKind::Database,
        allowed_operations: sql_ops,
        allowed_roots: Vec::new(),
    });
    bindings.push(CapabilityBinding {
        name: "fs".to_owned(),
        kind: CapabilityKind::Filesystem,
        allowed_operations: fs_ops,
        allowed_roots: fs_roots,
    });
    bindings.push(CapabilityBinding {
        name: "dialog".to_owned(),
        kind: CapabilityKind::Dialog,
        allowed_operations: dialog_ops,
        allowed_roots: Vec::new(),
    });
    bindings.push(CapabilityBinding {
        name: "opener".to_owned(),
        kind: CapabilityKind::Opener,
        allowed_operations: opener_ops,
        allowed_roots: Vec::new(),
    });
    let r = CapabilityRegistry { bindings };
    proof {
        reveal_strlit("sql");
        reveal_strlit("fs");
        reveal_strlit("dialog");
        reveal_strlit("opener");
        assert("sql"@.len() == 3);
        assert("fs"@.len() == 2);
        assert("dialog"@.len() == 6);
        assert("opener"@.len() == 6);
        assert("dialog"@[0] == 'd');
        assert("opener"@[0] == 'o');
    }
    r
}

/// Is an operation name in the list? Runs the membership check the
/// dispatcher owes every request.
pub fn operation_listed(ops: &Vec<String>, op: &String) -> (r: bool)
    ensures
        r == op_listed(ops@, op@),
{
    let n: usize = ops.len();
    let mut i: usize = 0;
    while i < n
        invariant
            0 <= i <= n,
            n == ops@.len(),
            forall|j: int| 0 <= j < i ==> (#[trigger] ops@[j])@ != op@,
        decreases n - i,
    {
        if ops[i] == *op {
            return true;
        }
        i = i + 1;
    }
    false
}

} // verus!
