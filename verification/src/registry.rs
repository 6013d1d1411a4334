//! The binding registry and the composed module resolver.
//!
//! The registry exposes the descriptor table as one importable module.
//! Its declaration phase declares exactly the catalogued names; its
//! evaluation phase binds each declared name to a callable that marshals
//! arguments and dispatches to the native entry point. Both phases read
//! the same table, and both are pure functions of it, so declaring or
//! evaluating the module a second time yields the identical exports —
//! nothing is double-registered.
//!
//! The resolver composes the registry with plain script-source modules.
//! The registry's module name is checked first, so no user script module
//! can shadow it.

use vstd::prelude::*;
use vstd::string::{StrSliceExecFns, StringExecFns};

use crate::descriptor::{
    catalogue, lemma_names_unique, name_of, spec_catalogue, spec_name, NativeFn,
};

verus! {

/// The name under which scripts import the bridge module.
pub fn registry_module_name() -> (r: &'static str)
    ensures
        r@ == spec_registry_module_name(),
{
    "vex_sdk"
}

/// The bridge module's reserved import name.
pub open spec fn spec_registry_module_name() -> Seq<char> {
    "vex_sdk"@
}

/// Character-for-character equality of two strings.
pub fn str_eq(a: &str, b: &str) -> (r: bool)
    ensures
        r <==> a@ == b@,
{
    let la = a.unicode_len();
    let lb = b.unicode_len();
    if la != lb {
        return false;
    }
    let mut i: usize = 0;
    while i < la
        invariant
            0 <= i <= la,
            la == a@.len(),
            lb == b@.len(),
            la == lb,
            forall|j: int| 0 <= j < i ==> a@[j] == b@[j],
        decreases la - i,
    {
        if a.get_char(i) != b.get_char(i) {
            return false;
        }
        i += 1;
    }
    proof {
        assert(a@ =~= b@);
    }
    true
}

/// The names the declaration phase declares, one per table entry, in
/// table order.
pub open spec fn spec_declared_names() -> Seq<Seq<char>> {
    spec_catalogue().map(|i: int, f: NativeFn| spec_name(f))
}

/// The names the evaluation phase binds callables to. The bound exports
/// are the catalogue itself — each entry bound under its own name — so
/// this is again one name per table entry, in table order.
pub open spec fn spec_exported_names() -> Seq<Seq<char>> {
    spec_catalogue().map(|i: int, f: NativeFn| spec_name(f))
}

/// The declared names as executable data, for the declaration phase.
pub fn declared_names() -> (r: Vec<String>)
    ensures
        r@.len() == spec_declared_names().len(),
        forall|i: int| 0 <= i < r@.len() ==> r@[i]@ == spec_declared_names()[i],
{
    let cat = catalogue();
    let mut names: Vec<String> = Vec::new();
    let mut i: usize = 0;
    while i < cat.len()
        invariant
            cat@ == spec_catalogue(),
            0 <= i <= cat@.len(),
            names@.len() == i,
            forall|j: int| 0 <= j < i ==> names@[j]@ == spec_declared_names()[j],
        decreases cat@.len() - i,
    {
        names.push(String::from_str(name_of(cat[i])));
        i += 1;
    }
    names
}

/// First-match lookup of a name in a run of table entries.
pub open spec fn spec_lookup_in(entries: Seq<NativeFn>, name: Seq<char>) -> Option<NativeFn>
    decreases entries.len(),
{
    if entries.len() == 0 {
        Option::None
    } else if spec_name(entries[0]) == name {
        Option::Some(entries[0])
    } else {
        spec_lookup_in(entries.skip(1), name)
    }
}

/// Lookup of an exported name in the whole catalogue.
pub open spec fn spec_lookup(name: Seq<char>) -> Option<NativeFn> {
    spec_lookup_in(spec_catalogue(), name)
}

/// What a first-match lookup finds: a hit carries the name it was asked
/// for and lies in the entries searched; a miss means no entry carries
/// the name.
pub proof fn lemma_lookup_in_characterization(entries: Seq<NativeFn>, name: Seq<char>)
    ensures
        spec_lookup_in(entries, name) matches Option::Some(f) ==> entries.contains(f)
            && spec_name(f) == name,
        spec_lookup_in(entries, name) is None <==> (forall|i: int|
            0 <= i < entries.len() ==> spec_name(entries[i]) != name),
    decreases entries.len(),
{
    if entries.len() > 0 {
        lemma_lookup_in_characterization(entries.skip(1), name);
        if spec_name(entries[0]) != name {
            assert forall|i: int| 0 <= i < entries.len() && spec_name(entries[i]) == name implies
                exists|j: int| 0 <= j < entries.skip(1).len() && spec_name(entries.skip(1)[j]) == name by {
                if i > 0 {
                    assert(entries.skip(1)[i - 1] == entries[i]);
                }
            }
        }
    }
}

/// Find the table entry exported under a name, if any.
pub fn lookup(name: &str) -> (r: Option<NativeFn>)
    ensures
        r == spec_lookup(name@),
{
    let cat = catalogue();
    proof {
        assert(spec_catalogue().skip(0) =~= spec_catalogue());
    }
    let mut i: usize = 0;
    while i < cat.len()
        invariant
            cat@ == spec_catalogue(),
            0 <= i <= cat@.len(),
            spec_lookup(name@) == spec_lookup_in(spec_catalogue().skip(i as int), name@),
        decreases cat@.len() - i,
    {
        proof {
            assert(spec_catalogue().skip(i as int)[0] == cat@[i as int]);
            assert(spec_catalogue().skip(i as int).skip(1) =~= spec_catalogue().skip(i as int + 1));
        }
        if str_eq(name, name_of(cat[i])) {
            return Option::Some(cat[i]);
        }
        i += 1;
    }
    Option::None
}

/// Registry completeness law: the declaration phase and the evaluation
/// phase stay in sync because both read the one descriptor table — the
/// declared names and the exported names are the same sequence — and every
/// declared name is invocable: looking it up finds a bound entry carrying
/// exactly that name.
pub proof fn lemma_registry_complete()
    ensures
        spec_declared_names() == spec_exported_names(),
        forall|i: int| 0 <= i < spec_declared_names().len() ==> ((#[trigger] spec_lookup(
            spec_declared_names()[i],
        )) matches Option::Some(f) && spec_name(f) == spec_declared_names()[i]),
{
    assert forall|i: int| 0 <= i < spec_declared_names().len() implies (#[trigger] spec_lookup(
        spec_declared_names()[i],
    )) matches Option::Some(f) && spec_name(f) == spec_declared_names()[i] by {
        lemma_lookup_in_characterization(spec_catalogue(), spec_declared_names()[i]);
        assert(spec_name(spec_catalogue()[i]) == spec_declared_names()[i]);
    }
}

/// Because exported names are unique within the registry, looking up an
/// entry's own name finds exactly that entry: the name a script imports
/// identifies one native entry point.
pub proof fn lemma_lookup_exact(f: NativeFn)
    requires
        spec_catalogue().contains(f),
    ensures
        spec_lookup(spec_name(f)) == Option::Some(f),
{
    lemma_lookup_in_characterization(spec_catalogue(), spec_name(f));
    if spec_lookup(spec_name(f)) is None {
        let i = choose|i: int| 0 <= i < spec_catalogue().len() && spec_catalogue()[i] == f;
        assert(spec_name(spec_catalogue()[i]) == spec_name(f));
        assert(false);
    }
    match spec_lookup(spec_name(f)) {
        Option::Some(g) => lemma_names_unique(g, f),
        Option::None => {},
    }
}

/// What the composed resolver answers for one import name.
#[derive(Clone, Copy, PartialEq, Eq, Structural, Debug)]
pub enum Resolution {
    /// The bridge module: the binding registry itself.
    Registry,
    /// A plain script-source module registered by the host.
    Script,
    /// No module of that name exists; the import fails evaluation.
    Unresolved,
}

/// The composed resolution rule: the registry's reserved name wins first,
/// then the registered script-source modules, then failure.
pub open spec fn spec_resolve(scripts: Seq<Seq<char>>, name: Seq<char>) -> Resolution {
    if name == spec_registry_module_name() {
        Resolution::Registry
    } else if exists|i: int| 0 <= i < scripts.len() && scripts[i] == name {
        Resolution::Script
    } else {
        Resolution::Unresolved
    }
}

/// No-shadowing law: whatever script-source modules the host registers,
/// the registry's reserved name always resolves to the registry.
pub proof fn lemma_registry_not_shadowed(scripts: Seq<Seq<char>>)
    ensures
        spec_resolve(scripts, spec_registry_module_name()) == Resolution::Registry,
{
}

/// The composed module resolver: the registry plus the host's plain
/// script-source modules, looked up in that order.
pub struct ModuleResolver {
    /// Names of the registered script-source modules.
    pub scripts: Vec<String>,
}

impl ModuleResolver {
    /// The registered script names, viewed as sequences of characters.
    pub open spec fn spec_scripts(&self) -> Seq<Seq<char>> {
        self.scripts@.map(|i: int, s: String| s@)
    }

    /// A resolver knowing the given script-source modules.
    pub fn new(scripts: Vec<String>) -> (r: ModuleResolver)
        ensures
            r.scripts@ == scripts@,
    {
        ModuleResolver { scripts }
    }

    /// Register one more plain script-source module. Whatever is
    /// registered, the registry's reserved name still resolves first.
    pub fn add_script(&mut self, name: String)
        ensures
            final(self).scripts@ == old(self).scripts@.push(name),
    {
        self.scripts.push(name);
    }

    /// Resolve one import name.
    pub fn resolve(&self, name: &str) -> (r: Resolution)
        ensures
            r == spec_resolve(self.spec_scripts(), name@),
    {
        if str_eq(name, registry_module_name()) {
            return Resolution::Registry;
        }
        let mut i: usize = 0;
        while i < self.scripts.len()
            invariant
                0 <= i <= self.scripts@.len(),
                name@ != spec_registry_module_name(),
                forall|j: int| 0 <= j < i ==> self.spec_scripts()[j] != name@,
            decreases self.scripts@.len() - i,
        {
            if str_eq(self.scripts[i].as_str(), name) {
                proof {
                    assert(self.spec_scripts()[i as int] == name@);
                }
                return Resolution::Script;
            }
            i += 1;
        }
        Resolution::Unresolved
    }
}

} // verus!
