//! Building the decoded component: each entry that a section defines is
//! appended to the index space it belongs to, after its indices are checked
//! against what the component holds so far.

use vstd::prelude::*;
use wasmparser::{Alias, CanonicalOption, ComponentExport, ComponentExternalKind, ComponentImport, ComponentTypeRef, ExternalKind};
use crate::ir::{
    AnnotatedValtype, CanonOpts, Component, CoreExport, CoreFunc, CoreInstance, CoreInstantiateArg,
    CoreReexport, CoreSort, Error, ErrorKind, Export, Func, FuncType, LiftedFunc, LoweredFunc,
    Module, ModuleInstance, Sort,
};
use crate::layout::{
    arena_after, convert_func_type, func_type_matches, layout_computable, lemma_slots_in_arena,
    signature_laid_out, slot_in_arena, FuncSignature,
};
use crate::options::fold_options;
use crate::ir::{Sizes, Stamps};

verus! {

/// One export of a core instance built from existing core objects, as the
/// section states it.
#[derive(Debug, PartialEq, Eq)]
pub struct ExportDecl {
    pub name: String,
    pub kind: ExternalKind,
    pub index: u32,
}

/// A core instance as the section states it.
#[derive(Debug, PartialEq, Eq)]
pub enum InstanceDecl {
    Instantiate { module: u32, args: Vec<CoreInstantiateArg> },
    FromExports(Vec<ExportDecl>),
}

/// The index spaces of a component.
#[derive(Clone, Copy, Debug, PartialEq, Eq)]
pub enum Space {
    Modules,
    CoreInstances,
    CoreFuncs,
    Tables,
    Memories,
    Globals,
    Types,
    Funcs,
    Exports,
}

/// The core sort of a core external kind; tags have none.
pub open spec fn core_sort_of(kind: ExternalKind) -> Option<CoreSort> {
    match kind {
        ExternalKind::Func => Some(CoreSort::Func),
        ExternalKind::Table => Some(CoreSort::Table),
        ExternalKind::Memory => Some(CoreSort::Memory),
        ExternalKind::Global => Some(CoreSort::Global),
        ExternalKind::Tag => None,
    }
}

/// The export sort of a component external kind; only modules and
/// functions have one.
pub open spec fn sort_of(kind: ComponentExternalKind) -> Option<Sort> {
    match kind {
        ComponentExternalKind::Module => Some(Sort::Module),
        ComponentExternalKind::Func => Some(Sort::Func),
        _ => None,
    }
}

pub open spec fn reexport_matches(r: CoreReexport, d: ExportDecl) -> bool {
    &&& r.name@ == d.name@
    &&& core_sort_of(d.kind) == Some(r.sort)
    &&& r.index == d.index
}

/// The core instance that a declaration stands for.
pub open spec fn instance_matches(i: CoreInstance, d: InstanceDecl) -> bool {
    match (i, d) {
        (CoreInstance::Module(m), InstanceDecl::Instantiate { module, args }) => m.module == module
            && m.args@ == args@,
        (CoreInstance::Reexporter(rs), InstanceDecl::FromExports(ds)) => rs@.len() == ds@.len()
            && forall|j: int| 0 <= j < ds@.len() ==> reexport_matches(#[trigger] rs@[j], ds@[j]),
        _ => false,
    }
}

pub open spec fn decl_supported(d: InstanceDecl) -> bool {
    match d {
        InstanceDecl::FromExports(ds) => forall|j: int|
            0 <= j < ds@.len() ==> (#[trigger] core_sort_of(ds@[j].kind)) is Some,
        _ => true,
    }
}

/// Whether `a` and `b` hold the same sequences but in spaces `s` and `t`.
pub open spec fn agree_except(a: Component, b: Component, s: Space, t: Space) -> bool {
    &&& (s != Space::Modules && t != Space::Modules ==> a.modules == b.modules)
    &&& (s != Space::CoreInstances && t != Space::CoreInstances ==> a.core_instances == b.core_instances)
    &&& (s != Space::CoreFuncs && t != Space::CoreFuncs ==> a.core_funcs == b.core_funcs)
    &&& (s != Space::Tables && t != Space::Tables ==> a.tables == b.tables)
    &&& (s != Space::Memories && t != Space::Memories ==> a.memories == b.memories)
    &&& (s != Space::Globals && t != Space::Globals ==> a.globals == b.globals)
    &&& (s != Space::Types && t != Space::Types ==> a.types == b.types)
    &&& (s != Space::Funcs && t != Space::Funcs ==> a.funcs == b.funcs)
    &&& (s != Space::Exports && t != Space::Exports ==> a.exports == b.exports)
}

/// `s_new` is `s_old` with `x` appended.
pub open spec fn appended<T>(s_old: Seq<T>, s_new: Seq<T>, x: T) -> bool {
    s_new == s_old.push(x)
}

/// `n` is `o` with an export of `name` from instance `inst` appended.
pub open spec fn export_appended(o: Seq<CoreExport>, n: Seq<CoreExport>, inst: u32, name: Seq<char>) -> bool {
    &&& n.len() == o.len() + 1
    &&& n.drop_last() == o
    &&& n.last().instance == inst
    &&& n.last().name@ == name
}

pub open spec fn alias_supported(a: Alias) -> bool {
    a matches Alias::InstanceExport { kind, .. } && core_sort_of(kind) is Some
}

/// `n` is `o` with the alias of export `name` of instance `inst` appended to
/// the index space of `kind`.
pub open spec fn alias_appended(o: Component, n: Component, kind: ExternalKind, inst: u32, name: Seq<char>) -> bool {
    match kind {
        ExternalKind::Func => {
            &&& n.core_funcs@.len() == o.core_funcs@.len() + 1
            &&& n.core_funcs@.drop_last() == o.core_funcs@
            &&& n.core_funcs@.last() matches CoreFunc::Aliased(e) && e.instance == inst && e.name@ == name
            &&& agree_except(o, n, Space::CoreFuncs, Space::CoreFuncs)
        },
        ExternalKind::Table => export_appended(o.tables@, n.tables@, inst, name) && agree_except(
            o,
            n,
            Space::Tables,
            Space::Tables,
        ),
        ExternalKind::Memory => export_appended(o.memories@, n.memories@, inst, name) && agree_except(
            o,
            n,
            Space::Memories,
            Space::Memories,
        ),
        ExternalKind::Global => export_appended(o.globals@, n.globals@, inst, name) && agree_except(
            o,
            n,
            Space::Globals,
            Space::Globals,
        ),
        ExternalKind::Tag => false,
    }
}

/// A lifted function made from `core_func`, laid out from `sig` on an arena
/// of length `base`, with `options` folded.
pub open spec fn lifted_matches(f: Func, core_func: u32, sig: FuncSignature, options: Seq<CanonicalOption>, base: nat) -> bool {
    f matches Func::Lifted(l) && l.core_func == core_func && func_type_matches(l.ty, sig, base) && l.options
        == fold_options(options)
}

/// A lowered function made from `func`, laid out from `sig` on an arena of
/// length `base`, with `options` folded.
pub open spec fn lowered_matches(f: CoreFunc, func: u32, sig: FuncSignature, options: Seq<CanonicalOption>, base: nat) -> bool {
    f matches CoreFunc::Lowered(l) && l.func == func && func_type_matches(l.ty, sig, base) && l.options
        == fold_options(options)
}

/// Whether every length in `a` is at most the one in `b`.
pub open spec fn sizes_le(a: Sizes, b: Sizes) -> bool {
    &&& a.modules <= b.modules
    &&& a.core_instances <= b.core_instances
    &&& a.core_funcs <= b.core_funcs
    &&& a.tables <= b.tables
    &&& a.memories <= b.memories
    &&& a.globals <= b.globals
    &&& a.types <= b.types
    &&& a.funcs <= b.funcs
    &&& a.exports <= b.exports
}

pub open spec fn sort_len_at(s: Sizes, sort: CoreSort) -> nat {
    match sort {
        CoreSort::Func => s.core_funcs,
        CoreSort::Table => s.tables,
        CoreSort::Memory => s.memories,
        CoreSort::Global => s.globals,
    }
}

pub open spec fn instance_at(i: CoreInstance, s: Sizes) -> bool {
    match i {
        CoreInstance::Module(m) => m.module < s.modules && forall|j: int|
            0 <= j < m.args@.len() ==> (#[trigger] m.args@[j]).instance < s.core_instances,
        CoreInstance::Reexporter(rs) => forall|j: int|
            0 <= j < rs@.len() ==> (#[trigger] rs@[j]).index < sort_len_at(s, rs@[j].sort),
    }
}

pub open spec fn opts_at(o: CanonOpts, s: Sizes) -> bool {
    &&& (o.memory matches Some(m) ==> m < s.memories)
    &&& (o.realloc matches Some(f) ==> f < s.core_funcs)
    &&& (o.post_return matches Some(f) ==> f < s.core_funcs)
}

pub open spec fn func_type_at(t: FuncType, s: Sizes) -> bool {
    &&& forall|j: int| 0 <= j < t.params@.len() ==> slot_in_arena(#[trigger] t.params@[j], s.types)
    &&& slot_in_arena(t.result, s.types)
}

pub open spec fn core_func_at(f: CoreFunc, s: Sizes) -> bool {
    match f {
        CoreFunc::Aliased(e) => e.instance < s.core_instances,
        CoreFunc::Lowered(l) => l.func < s.funcs && func_type_at(l.ty, s) && opts_at(l.options, s),
    }
}

pub open spec fn func_at(f: Func, s: Sizes) -> bool {
    match f {
        Func::Imported(_) => true,
        Func::Lifted(l) => l.core_func < s.core_funcs && func_type_at(l.ty, s) && opts_at(l.options, s),
    }
}

pub open spec fn export_at(e: Export, s: Sizes) -> bool {
    match e.sort {
        Sort::Module => e.index < s.modules,
        Sort::Func => e.index < s.funcs,
    }
}

pub open spec fn instance_rule() -> spec_fn(CoreInstance, Sizes) -> bool {
    |e: CoreInstance, s: Sizes| instance_at(e, s)
}

pub open spec fn core_func_rule() -> spec_fn(CoreFunc, Sizes) -> bool {
    |e: CoreFunc, s: Sizes| core_func_at(e, s)
}

pub open spec fn core_export_rule() -> spec_fn(CoreExport, Sizes) -> bool {
    |e: CoreExport, s: Sizes| e.instance < s.core_instances
}

pub open spec fn func_rule() -> spec_fn(Func, Sizes) -> bool {
    |e: Func, s: Sizes| func_at(e, s)
}

pub open spec fn export_rule() -> spec_fn(Export, Sizes) -> bool {
    |e: Export, s: Sizes| export_at(e, s)
}

/// The logged lengths never shrink and never exceed `now`.
pub open spec fn log_ok(log: Seq<Sizes>, now: Sizes) -> bool {
    &&& forall|k: int| 0 <= k < log.len() ==> sizes_le(#[trigger] log[k], now)
    &&& forall|k1: int, k2: int| 0 <= k1 <= k2 < log.len() ==> sizes_le(#[trigger] log[k1], #[trigger] log[k2])
}

pub open spec fn count_core_instances() -> spec_fn(Sizes) -> nat {
    |s: Sizes| s.core_instances
}

pub open spec fn count_core_funcs() -> spec_fn(Sizes) -> nat {
    |s: Sizes| s.core_funcs
}

pub open spec fn count_tables() -> spec_fn(Sizes) -> nat {
    |s: Sizes| s.tables
}

pub open spec fn count_memories() -> spec_fn(Sizes) -> nat {
    |s: Sizes| s.memories
}

pub open spec fn count_globals() -> spec_fn(Sizes) -> nat {
    |s: Sizes| s.globals
}

pub open spec fn count_funcs() -> spec_fn(Sizes) -> nat {
    |s: Sizes| s.funcs
}

pub open spec fn count_exports() -> spec_fn(Sizes) -> nat {
    |s: Sizes| s.exports
}

/// Entry `i` was stored at place `places[i]` of `log`, when `own` counted
/// exactly `i` entries before it, and meets `rule` at the lengths then.
pub open spec fn stamped<T>(
    entries: Seq<T>,
    places: Seq<int>,
    log: Seq<Sizes>,
    rule: spec_fn(T, Sizes) -> bool,
    own: spec_fn(Sizes) -> nat,
) -> bool {
    &&& places.len() == entries.len()
    &&& forall|i: int| 0 <= i < entries.len() ==> 0 <= #[trigger] places[i] < log.len() && rule(entries[i], log[places[i]])
        && own(log[places[i]]) == i
}

proof fn lemma_stamped_log<T>(
    entries: Seq<T>,
    places: Seq<int>,
    log: Seq<Sizes>,
    rule: spec_fn(T, Sizes) -> bool,
    own: spec_fn(Sizes) -> nat,
    s: Sizes,
)
    requires
        stamped(entries, places, log, rule, own),
    ensures
        stamped(entries, places, log.push(s), rule, own),
{
    assert forall|i: int| 0 <= i < entries.len() implies 0 <= #[trigger] places[i] < log.push(s).len() && rule(
        entries[i],
        log.push(s)[places[i]],
    ) && own(log.push(s)[places[i]]) == i by {
        assert(log.push(s)[places[i]] == log[places[i]]);
    }
}

proof fn lemma_stamped_push<T>(
    entries: Seq<T>,
    places: Seq<int>,
    log: Seq<Sizes>,
    rule: spec_fn(T, Sizes) -> bool,
    own: spec_fn(Sizes) -> nat,
    e: T,
    s: Sizes,
)
    requires
        stamped(entries, places, log, rule, own),
        rule(e, s),
        own(s) == entries.len(),
    ensures
        stamped(entries.push(e), places.push(log.len() as int), log.push(s), rule, own),
{
    lemma_stamped_log(entries, places, log, rule, own, s);
    let en = entries.push(e);
    let pn = places.push(log.len() as int);
    let ln = log.push(s);
    assert forall|i: int| 0 <= i < en.len() implies 0 <= #[trigger] pn[i] < ln.len() && rule(en[i], ln[pn[i]])
        && own(ln[pn[i]]) == i by {
        if i < entries.len() {
            assert(pn[i] == places[i] && en[i] == entries[i]);
        }
    }
}

proof fn lemma_log_push(log: Seq<Sizes>, a: Sizes, s: Sizes, b: Sizes)
    requires
        log_ok(log, a),
        sizes_le(a, s),
        sizes_le(s, b),
    ensures
        log_ok(log.push(s), b),
{
    let ln = log.push(s);
    assert forall|k: int| 0 <= k < ln.len() implies sizes_le(#[trigger] ln[k], b) by {
        if k < log.len() {
            assert(ln[k] == log[k] && sizes_le(log[k], a));
        }
    }
    assert forall|k1: int, k2: int| 0 <= k1 <= k2 < ln.len() implies sizes_le(#[trigger] ln[k1], #[trigger] ln[k2]) by {
        if k2 < log.len() {
            assert(ln[k1] == log[k1] && ln[k2] == log[k2]);
        } else if k1 < log.len() {
            assert(ln[k1] == log[k1] && sizes_le(log[k1], a));
        }
    }
}

/// A store into space `sp`, logged with lengths `s`, keeps the other
/// spaces' entries and places, so they stay stored in order.
proof fn lemma_grow_except(o: Component, n: Component, sp: Space, s: Sizes)
    requires
        o.stored_in_order(),
        sizes_le(o.sizes(), s),
        sizes_le(s, n.sizes()),
        n.stamps@.log == o.stamps@.log.push(s),
        sp != Space::CoreInstances ==> n.core_instances@ == o.core_instances@ && n.stamps@.core_instances == o.stamps@.core_instances,
        sp != Space::CoreFuncs ==> n.core_funcs@ == o.core_funcs@ && n.stamps@.core_funcs == o.stamps@.core_funcs,
        sp != Space::Tables ==> n.tables@ == o.tables@ && n.stamps@.tables == o.stamps@.tables,
        sp != Space::Memories ==> n.memories@ == o.memories@ && n.stamps@.memories == o.stamps@.memories,
        sp != Space::Globals ==> n.globals@ == o.globals@ && n.stamps@.globals == o.stamps@.globals,
        sp != Space::Funcs ==> n.funcs@ == o.funcs@ && n.stamps@.funcs == o.stamps@.funcs,
        sp != Space::Exports ==> n.exports@ == o.exports@ && n.stamps@.exports == o.stamps@.exports,
    ensures
        log_ok(n.stamps@.log, n.sizes()),
        sp != Space::CoreInstances ==> stamped(n.core_instances@, n.stamps@.core_instances, n.stamps@.log, instance_rule(), count_core_instances()),
        sp != Space::CoreFuncs ==> stamped(n.core_funcs@, n.stamps@.core_funcs, n.stamps@.log, core_func_rule(), count_core_funcs()),
        sp != Space::Tables ==> stamped(n.tables@, n.stamps@.tables, n.stamps@.log, core_export_rule(), count_tables()),
        sp != Space::Memories ==> stamped(n.memories@, n.stamps@.memories, n.stamps@.log, core_export_rule(), count_memories()),
        sp != Space::Globals ==> stamped(n.globals@, n.stamps@.globals, n.stamps@.log, core_export_rule(), count_globals()),
        sp != Space::Funcs ==> stamped(n.funcs@, n.stamps@.funcs, n.stamps@.log, func_rule(), count_funcs()),
        sp != Space::Exports ==> stamped(n.exports@, n.stamps@.exports, n.stamps@.log, export_rule(), count_exports()),
{
    let st = o.stamps@;
    lemma_log_push(st.log, o.sizes(), s, n.sizes());
    lemma_stamped_log(o.core_instances@, st.core_instances, st.log, instance_rule(), count_core_instances(), s);
    lemma_stamped_log(o.core_funcs@, st.core_funcs, st.log, core_func_rule(), count_core_funcs(), s);
    lemma_stamped_log(o.tables@, st.tables, st.log, core_export_rule(), count_tables(), s);
    lemma_stamped_log(o.memories@, st.memories, st.log, core_export_rule(), count_memories(), s);
    lemma_stamped_log(o.globals@, st.globals, st.log, core_export_rule(), count_globals(), s);
    lemma_stamped_log(o.funcs@, st.funcs, st.log, func_rule(), count_funcs(), s);
    lemma_stamped_log(o.exports@, st.exports, st.log, export_rule(), count_exports(), s);
}

impl Component {
    /// The length of the core index space that `sort` selects.
    pub open spec fn sort_len(&self, sort: CoreSort) -> nat {
        match sort {
            CoreSort::Func => self.core_funcs@.len(),
            CoreSort::Table => self.tables@.len(),
            CoreSort::Memory => self.memories@.len(),
            CoreSort::Global => self.globals@.len(),
        }
    }

    /// Instance `pos` refers to existing modules and core objects, and its
    /// arguments to instances before it.
    pub open spec fn valid_instance(&self, i: CoreInstance, pos: int) -> bool {
        match i {
            CoreInstance::Module(m) => m.module < self.modules@.len() && forall|j: int|
                0 <= j < m.args@.len() ==> (#[trigger] m.args@[j]).instance < pos,
            CoreInstance::Reexporter(rs) => forall|j: int|
                0 <= j < rs@.len() ==> (#[trigger] rs@[j]).index < self.sort_len(rs@[j].sort),
        }
    }

    pub open spec fn valid_opts(&self, o: CanonOpts) -> bool {
        &&& (o.memory matches Some(m) ==> m < self.memories@.len())
        &&& (o.realloc matches Some(f) ==> f < self.core_funcs@.len())
        &&& (o.post_return matches Some(f) ==> f < self.core_funcs@.len())
    }

    pub open spec fn valid_func_type(&self, t: FuncType) -> bool {
        &&& forall|j: int| 0 <= j < t.params@.len() ==> slot_in_arena(#[trigger] t.params@[j], self.types@.len())
        &&& slot_in_arena(t.result, self.types@.len())
    }

    pub open spec fn valid_core_func(&self, f: CoreFunc) -> bool {
        match f {
            CoreFunc::Aliased(e) => e.instance < self.core_instances@.len(),
            CoreFunc::Lowered(l) => l.func < self.funcs@.len() && self.valid_func_type(l.ty)
                && self.valid_opts(l.options),
        }
    }

    pub open spec fn valid_func(&self, f: Func) -> bool {
        match f {
            Func::Imported(_) => true,
            Func::Lifted(l) => l.core_func < self.core_funcs@.len() && self.valid_func_type(l.ty)
                && self.valid_opts(l.options),
        }
    }

    /// Whether `index` names an item of the space that `sort` selects.
    pub open spec fn in_sort(&self, sort: Sort, index: u32) -> bool {
        match sort {
            Sort::Module => index < self.modules@.len(),
            Sort::Func => index < self.funcs@.len(),
        }
    }

    pub open spec fn valid_export(&self, e: Export) -> bool {
        self.in_sort(e.sort, e.index)
    }

    /// Every index that the component stores is below the length of the
    /// sequence it indexes; an instance argument names an earlier instance.
    pub open spec fn wf(&self) -> bool {
        &&& forall|i: int| 0 <= i < self.core_instances@.len() ==> self.valid_instance(#[trigger] self.core_instances@[i], i)
        &&& forall|i: int| 0 <= i < self.core_funcs@.len() ==> self.valid_core_func(#[trigger] self.core_funcs@[i])
        &&& forall|i: int| 0 <= i < self.tables@.len() ==> (#[trigger] self.tables@[i]).instance < self.core_instances@.len()
        &&& forall|i: int| 0 <= i < self.memories@.len() ==> (#[trigger] self.memories@[i]).instance < self.core_instances@.len()
        &&& forall|i: int| 0 <= i < self.globals@.len() ==> (#[trigger] self.globals@[i]).instance < self.core_instances@.len()
        &&& forall|i: int| 0 <= i < self.funcs@.len() ==> self.valid_func(#[trigger] self.funcs@[i])
        &&& forall|i: int| 0 <= i < self.exports@.len() ==> self.valid_export(#[trigger] self.exports@[i])
        &&& self.stored_in_order()
    }

    /// The current lengths of the index spaces.
    pub open spec fn sizes(&self) -> Sizes {
        Sizes {
            modules: self.modules@.len(),
            core_instances: self.core_instances@.len(),
            core_funcs: self.core_funcs@.len(),
            tables: self.tables@.len(),
            memories: self.memories@.len(),
            globals: self.globals@.len(),
            types: self.types@.len(),
            funcs: self.funcs@.len(),
            exports: self.exports@.len(),
        }
    }

    /// The component was built by stores in order: each store is logged
    /// with the lengths of the index spaces at that moment, which never
    /// shrink, and each entry was stored when its index space held exactly
    /// the entries before it, with its indices below the lengths then. So no
    /// index points forward.
    pub open spec fn stored_in_order(&self) -> bool {
        let st = self.stamps@;
        &&& log_ok(st.log, self.sizes())
        &&& stamped(self.core_instances@, st.core_instances, st.log, instance_rule(), count_core_instances())
        &&& stamped(self.core_funcs@, st.core_funcs, st.log, core_func_rule(), count_core_funcs())
        &&& stamped(self.tables@, st.tables, st.log, core_export_rule(), count_tables())
        &&& stamped(self.memories@, st.memories, st.log, core_export_rule(), count_memories())
        &&& stamped(self.globals@, st.globals, st.log, core_export_rule(), count_globals())
        &&& stamped(self.funcs@, st.funcs, st.log, func_rule(), count_funcs())
        &&& stamped(self.exports@, st.exports, st.log, export_rule(), count_exports())
    }

    /// Whether every index space is empty.
    pub open spec fn is_empty(&self) -> bool {
        &&& self.modules@.len() == 0
        &&& self.core_instances@.len() == 0
        &&& self.core_funcs@.len() == 0
        &&& self.tables@.len() == 0
        &&& self.memories@.len() == 0
        &&& self.globals@.len() == 0
        &&& self.types@.len() == 0
        &&& self.funcs@.len() == 0
        &&& self.exports@.len() == 0
    }

    /// Whether the indices of a supported declaration are in range.
    pub open spec fn decl_indices_ok(&self, d: InstanceDecl) -> bool {
        match d {
            InstanceDecl::Instantiate { module, args } => module < self.modules@.len() && forall|j: int|
                0 <= j < args@.len() ==> (#[trigger] args@[j]).instance < self.core_instances@.len(),
            InstanceDecl::FromExports(ds) => forall|j: int|
                0 <= j < ds@.len() ==> (#[trigger] ds@[j]).index < self.sort_len(core_sort_of(ds@[j].kind)->0),
        }
    }

    /// A component with every index space empty.
    pub fn new() -> (r: Component)
        ensures
            r.is_empty(),
            r.wf(),
    {
        Component {
            modules: Vec::new(),
            core_instances: Vec::new(),
            core_funcs: Vec::new(),
            tables: Vec::new(),
            memories: Vec::new(),
            globals: Vec::new(),
            types: Vec::new(),
            funcs: Vec::new(),
            exports: Vec::new(),
            stamps: Ghost(
                Stamps {
                    log: seq![],
                    core_instances: seq![],
                    core_funcs: seq![],
                    tables: seq![],
                    memories: seq![],
                    globals: seq![],
                    funcs: seq![],
                    exports: seq![],
                },
            ),
        }
    }
}

/// The core sort of a core external kind; tags have none.
pub fn core_sort_from(kind: ExternalKind) -> (r: Option<CoreSort>)
    ensures
        r == core_sort_of(kind),
{
    match kind {
        ExternalKind::Func => Some(CoreSort::Func),
        ExternalKind::Table => Some(CoreSort::Table),
        ExternalKind::Memory => Some(CoreSort::Memory),
        ExternalKind::Global => Some(CoreSort::Global),
        ExternalKind::Tag => None,
    }
}

/// The export sort of a component external kind, for modules and functions.
pub fn sort_from(kind: ComponentExternalKind) -> (r: Option<Sort>)
    ensures
        r == sort_of(kind),
{
    match kind {
        ComponentExternalKind::Module => Some(Sort::Module),
        ComponentExternalKind::Func => Some(Sort::Func),
        _ => None,
    }
}

/// The re-exports that export declarations stand for; an export of a tag
/// is not supported.
pub fn convert_reexports(ds: &Vec<ExportDecl>, at: u32) -> (r: Result<Vec<CoreReexport>, Error>)
    ensures
        r is Ok <==> forall|j: int| 0 <= j < ds@.len() ==> (#[trigger] core_sort_of(ds@[j].kind)) is Some,
        r matches Ok(rs) ==> rs@.len() == ds@.len() && forall|j: int|
            0 <= j < ds@.len() ==> reexport_matches(#[trigger] rs@[j], ds@[j]),
        r matches Err(e) ==> e.kind == ErrorKind::UnsupportedConstruct && e.offset == at,
{
    let mut rs: Vec<CoreReexport> = Vec::new();
    let mut j: usize = 0;
    while j < ds.len()
        invariant
            0 <= j <= ds@.len(),
            rs@.len() == j,
            forall|k: int| 0 <= k < j ==> reexport_matches(#[trigger] rs@[k], ds@[k]),
            forall|k: int| 0 <= k < j ==> (#[trigger] core_sort_of(ds@[k].kind)) is Some,
        decreases ds@.len() - j,
    {
        let d = &ds[j];
        match core_sort_from(d.kind) {
            Some(sort) => {
                rs.push(CoreReexport { name: d.name.clone(), sort, index: d.index });
            },
            None => {
                assert(core_sort_of(ds@[j as int].kind) is None);
                return Err(unsupported("tag exports are not supported", at));
            },
        }
        j = j + 1;
    }
    Ok(rs)
}

/// The core instance that a declaration stands for; an export of a tag is
/// not supported.
pub fn convert_instance(decl: InstanceDecl, at: u32) -> (r: Result<CoreInstance, Error>)
    ensures
        r is Ok <==> decl_supported(decl),
        r matches Ok(i) ==> instance_matches(i, decl),
        r matches Err(e) ==> e.kind == ErrorKind::UnsupportedConstruct && e.offset == at,
{
    match decl {
        InstanceDecl::Instantiate { module, args } => Ok(CoreInstance::Module(ModuleInstance { module, args })),
        InstanceDecl::FromExports(ds) => {
            let rs = convert_reexports(&ds, at)?;
            Ok(CoreInstance::Reexporter(rs))
        },
    }
}

/// An index-range error at `at`.
fn out_of_range(at: u32) -> (e: Error)
    ensures
        e.kind == ErrorKind::ValidationRejected,
        e.offset == at,
{
    Error { kind: ErrorKind::ValidationRejected, message: "index out of range".to_owned(), offset: at }
}

/// An error for a construct that this decoder does not handle.
pub fn unsupported(what: &str, at: u32) -> (e: Error)
    ensures
        e.kind == ErrorKind::UnsupportedConstruct,
        e.offset == at,
        e.message@ == what@,
{
    Error { kind: ErrorKind::UnsupportedConstruct, message: what.to_owned(), offset: at }
}


/// The indices of a declaration are in range exactly where those of the
/// instance it stands for are.
proof fn lemma_decl_indices(c: Component, inst: CoreInstance, d: InstanceDecl)
    requires
        instance_matches(inst, d),
        decl_supported(d),
    ensures
        c.decl_indices_ok(d) == c.valid_instance(inst, c.core_instances@.len() as int),
{
    match (inst, d) {
        (CoreInstance::Reexporter(rs), InstanceDecl::FromExports(ds)) => {
            assert forall|j: int| 0 <= j < ds@.len() implies ((#[trigger] ds@[j]).index < c.sort_len(
                core_sort_of(ds@[j].kind)->0,
            ) <==> rs@[j].index < c.sort_len(rs@[j].sort)) by {
                assert(reexport_matches(rs@[j], ds@[j]));
            }
            if c.decl_indices_ok(d) {
                assert forall|j: int| 0 <= j < rs@.len() implies (#[trigger] rs@[j]).index < c.sort_len(rs@[j].sort) by {
                    assert(ds@[j].index < c.sort_len(core_sort_of(ds@[j].kind)->0));
                }
            }
            if c.valid_instance(inst, c.core_instances@.len() as int) {
                assert forall|j: int| 0 <= j < ds@.len() implies (#[trigger] ds@[j]).index < c.sort_len(
                    core_sort_of(ds@[j].kind)->0,
                ) by {
                    assert(rs@[j].index < c.sort_len(rs@[j].sort));
                }
            }
        },
        _ => {},
    }
}

impl Component {
    fn sort_len_of(&self, sort: CoreSort) -> (r: usize)
        ensures
            r == self.sort_len(sort),
    {
        match sort {
            CoreSort::Func => self.core_funcs.len(),
            CoreSort::Table => self.tables.len(),
            CoreSort::Memory => self.memories.len(),
            CoreSort::Global => self.globals.len(),
        }
    }

    fn check_instance(&self, i: &CoreInstance) -> (r: bool)
        ensures
            r == self.valid_instance(*i, self.core_instances@.len() as int),
    {
        match i {
            CoreInstance::Module(m) => {
                if m.module as usize >= self.modules.len() {
                    return false;
                }
                let mut j: usize = 0;
                while j < m.args.len()
                    invariant
                        *i == CoreInstance::Module(*m),
                        0 <= j <= m.args@.len(),
                        forall|k: int| 0 <= k < j ==> (#[trigger] m.args@[k]).instance < self.core_instances@.len(),
                    decreases m.args@.len() - j,
                {
                    if m.args[j].instance as usize >= self.core_instances.len() {
                        assert(m.args@[j as int].instance >= self.core_instances@.len());
                        return false;
                    }
                    j = j + 1;
                }
                true
            },
            CoreInstance::Reexporter(rs) => {
                let mut j: usize = 0;
                while j < rs.len()
                    invariant
                        *i == CoreInstance::Reexporter(*rs),
                        0 <= j <= rs@.len(),
                        forall|k: int| 0 <= k < j ==> (#[trigger] rs@[k]).index < self.sort_len(rs@[k].sort),
                    decreases rs@.len() - j,
                {
                    if rs[j].index as usize >= self.sort_len_of(rs[j].sort) {
                        assert(rs@[j as int].index >= self.sort_len(rs@[j as int].sort));
                        return false;
                    }
                    j = j + 1;
                }
                true
            },
        }
    }

    fn check_opts(&self, o: &CanonOpts) -> (r: bool)
        ensures
            r == self.valid_opts(*o),
    {
        let memory_ok = match o.memory {
            Some(m) => (m as usize) < self.memories.len(),
            None => true,
        };
        let realloc_ok = match o.realloc {
            Some(f) => (f as usize) < self.core_funcs.len(),
            None => true,
        };
        let post_return_ok = match o.post_return {
            Some(f) => (f as usize) < self.core_funcs.len(),
            None => true,
        };
        memory_ok && realloc_ok && post_return_ok
    }

    /// Appends a module, defined inline or imported.
    pub fn add_module(&mut self, m: Module)
        requires
            old(self).wf(),
        ensures
            final(self).wf(),
            appended(old(self).modules@, final(self).modules@, m),
            agree_except(*old(self), *final(self), Space::Modules, Space::Modules),
    {
        let ghost stamp = old(self).sizes();
        self.modules.push(m);
        self.stamps = Ghost(Stamps { log: self.stamps@.log.push(stamp), ..self.stamps@ });
        proof {
            lemma_grow_except(*old(self), *self, Space::Modules, stamp);
        }
    }

    /// Appends the core instance that a declaration stands for, once its
    /// indices are checked: a module and instance arguments that exist, and
    /// core objects of the selected sort that exist.
    pub fn add_instance(&mut self, decl: InstanceDecl, at: u32) -> (r: Result<(), Error>)
        requires
            old(self).wf(),
        ensures
            final(self).wf(),
            r is Ok <==> decl_supported(decl) && old(self).decl_indices_ok(decl),
            r matches Err(e) ==> e.offset == at && (e.kind == ErrorKind::UnsupportedConstruct <==> !decl_supported(decl))
                && (e.kind == ErrorKind::ValidationRejected <==> decl_supported(decl)),
            r is Ok ==> final(self).core_instances@.drop_last() == old(self).core_instances@
                && final(self).core_instances@.len() == old(self).core_instances@.len() + 1
                && instance_matches(final(self).core_instances@.last(), decl)
                && old(self).valid_instance(final(self).core_instances@.last(), old(self).core_instances@.len() as int),
            r is Ok ==> agree_except(*old(self), *final(self), Space::CoreInstances, Space::CoreInstances),
    {
        let ghost d0 = decl;
        let inst = convert_instance(decl, at)?;
        proof {
            lemma_decl_indices(*old(self), inst, d0);
        }
        if !self.check_instance(&inst) {
            return Err(out_of_range(at));
        }
        let ghost n = self.core_instances@.len();
        let ghost stamp = old(self).sizes();
        let ghost stored = inst;
        self.core_instances.push(inst);
        self.stamps = Ghost(
            Stamps { log: self.stamps@.log.push(stamp), core_instances: self.stamps@.core_instances.push(self.stamps@.log.len() as int), ..self.stamps@ },
        );
        proof {
            lemma_grow_except(*old(self), *self, Space::CoreInstances, stamp);
            lemma_stamped_push(
                old(self).core_instances@,
                old(self).stamps@.core_instances,
                old(self).stamps@.log,
                instance_rule(),
                count_core_instances(),
                stored,
                stamp,
            );
        }
        proof {
            assert(self.core_instances@.drop_last() =~= old(self).core_instances@);
            assert forall|i: int| 0 <= i < self.core_instances@.len() implies self.valid_instance(
                #[trigger] self.core_instances@[i],
                i,
            ) by {
                if i < n {
                    assert(old(self).valid_instance(old(self).core_instances@[i], i));
                }
            }
        }
        Ok(())
    }

    /// Appends the alias of an export of a core instance to the index space
    /// of its kind. Outer aliases and tags are not supported.
    pub fn add_alias(&mut self, alias: &Alias, at: u32) -> (r: Result<(), Error>)
        requires
            old(self).wf(),
        ensures
            final(self).wf(),
            r is Ok <==> alias_supported(*alias) && (*alias matches Alias::InstanceExport { instance_index, .. }
                && instance_index < old(self).core_instances@.len()),
            r matches Err(e) ==> e.offset == at && (e.kind == ErrorKind::UnsupportedConstruct <==> !alias_supported(*alias))
                && (e.kind == ErrorKind::ValidationRejected <==> alias_supported(*alias)),
            r is Ok ==> (*alias matches Alias::InstanceExport { kind, instance_index, name } && alias_appended(
                *old(self),
                *final(self),
                kind,
                instance_index,
                name@,
            )),
    {
        match alias {
            Alias::InstanceExport { kind, instance_index, name } => {
                let sort = match core_sort_from(*kind) {
                    Some(sort) => sort,
                    None => {
                        return Err(unsupported("tag aliases are not supported", at));
                    },
                };
                if *instance_index as usize >= self.core_instances.len() {
                    return Err(out_of_range(at));
                }
                let export = CoreExport { instance: *instance_index, name: (*name).to_owned() };
                let ghost stamp = old(self).sizes();
                match sort {
                    CoreSort::Func => {
                        let ghost e = CoreFunc::Aliased(export);
                        self.core_funcs.push(CoreFunc::Aliased(export));
                        self.stamps = Ghost(
            Stamps { log: self.stamps@.log.push(stamp), core_funcs: self.stamps@.core_funcs.push(self.stamps@.log.len() as int), ..self.stamps@ },
        );
                        proof {
                            lemma_grow_except(*old(self), *self, Space::CoreFuncs, stamp);
                            lemma_stamped_push(old(self).core_funcs@, old(self).stamps@.core_funcs, old(self).stamps@.log, core_func_rule(), count_core_funcs(), e, stamp);
                        }
                    },
                    CoreSort::Table => {
                        let ghost e = export;
                        self.tables.push(export);
                        self.stamps = Ghost(
            Stamps { log: self.stamps@.log.push(stamp), tables: self.stamps@.tables.push(self.stamps@.log.len() as int), ..self.stamps@ },
        );
                        proof {
                            lemma_grow_except(*old(self), *self, Space::Tables, stamp);
                            lemma_stamped_push(old(self).tables@, old(self).stamps@.tables, old(self).stamps@.log, core_export_rule(), count_tables(), e, stamp);
                        }
                    },
                    CoreSort::Memory => {
                        let ghost e = export;
                        self.memories.push(export);
                        self.stamps = Ghost(
            Stamps { log: self.stamps@.log.push(stamp), memories: self.stamps@.memories.push(self.stamps@.log.len() as int), ..self.stamps@ },
        );
                        proof {
                            lemma_grow_except(*old(self), *self, Space::Memories, stamp);
                            lemma_stamped_push(old(self).memories@, old(self).stamps@.memories, old(self).stamps@.log, core_export_rule(), count_memories(), e, stamp);
                        }
                    },
                    CoreSort::Global => {
                        let ghost e = export;
                        self.globals.push(export);
                        self.stamps = Ghost(
            Stamps { log: self.stamps@.log.push(stamp), globals: self.stamps@.globals.push(self.stamps@.log.len() as int), ..self.stamps@ },
        );
                        proof {
                            lemma_grow_except(*old(self), *self, Space::Globals, stamp);
                            lemma_stamped_push(old(self).globals@, old(self).stamps@.globals, old(self).stamps@.log, core_export_rule(), count_globals(), e, stamp);
                        }
                    },
                }
                proof {
                    assert(self.core_funcs@.drop_last() =~= old(self).core_funcs@ || sort != CoreSort::Func);
                    assert(self.tables@.drop_last() =~= old(self).tables@ || sort != CoreSort::Table);
                    assert(self.memories@.drop_last() =~= old(self).memories@ || sort != CoreSort::Memory);
                    assert(self.globals@.drop_last() =~= old(self).globals@ || sort != CoreSort::Global);
                    assert forall|i: int| 0 <= i < self.core_instances@.len() implies self.valid_instance(
                        #[trigger] self.core_instances@[i],
                        i,
                    ) by {
                        assert(old(self).valid_instance(old(self).core_instances@[i], i));
                    }
                    assert forall|i: int| 0 <= i < self.core_funcs@.len() implies self.valid_core_func(
                        #[trigger] self.core_funcs@[i],
                    ) by {
                        if i < old(self).core_funcs@.len() {
                            assert(old(self).valid_core_func(old(self).core_funcs@[i]));
                        }
                    }
                    assert forall|i: int| 0 <= i < self.funcs@.len() implies self.valid_func(
                        #[trigger] self.funcs@[i],
                    ) by {
                        assert(old(self).valid_func(old(self).funcs@[i]));
                    }
                }
                Ok(())
            },
            Alias::Outer { .. } => Err(unsupported("outer aliases are not supported", at)),
        }
    }

    /// Appends an imported module or function under its import name. Other
    /// import kinds are not supported.
    pub fn add_import(&mut self, import: &ComponentImport, at: u32) -> (r: Result<(), Error>)
        requires
            old(self).wf(),
        ensures
            final(self).wf(),
            r is Ok <==> import.ty is Module || import.ty is Func,
            r matches Err(e) ==> e.offset == at && e.kind == ErrorKind::UnsupportedConstruct,
            r is Ok && import.ty is Module ==> final(self).modules@.len() == old(self).modules@.len() + 1
                && final(self).modules@.drop_last() == old(self).modules@
                && (final(self).modules@.last() matches Module::Imported(s) && s@ == import.name@)
                && agree_except(*old(self), *final(self), Space::Modules, Space::Modules),
            r is Ok && import.ty is Func ==> final(self).funcs@.len() == old(self).funcs@.len() + 1
                && final(self).funcs@.drop_last() == old(self).funcs@
                && (final(self).funcs@.last() matches Func::Imported(s) && s@ == import.name@)
                && agree_except(*old(self), *final(self), Space::Funcs, Space::Funcs),
    {
        match import.ty {
            ComponentTypeRef::Module(_) => {
                let ghost stamp = old(self).sizes();
                self.modules.push(Module::Imported(import.name.to_owned()));
                self.stamps = Ghost(Stamps { log: self.stamps@.log.push(stamp), ..self.stamps@ });
                proof {
                    lemma_grow_except(*old(self), *self, Space::Modules, stamp);
                }
                proof {
                    assert(self.modules@.drop_last() =~= old(self).modules@);
                    assert forall|i: int| 0 <= i < self.core_instances@.len() implies self.valid_instance(
                        #[trigger] self.core_instances@[i],
                        i,
                    ) by {
                        assert(old(self).valid_instance(old(self).core_instances@[i], i));
                    }
                }
                Ok(())
            },
            ComponentTypeRef::Func(_) => {
                let f = Func::Imported(import.name.to_owned());
                let ghost e = f;
                let ghost stamp = old(self).sizes();
                self.funcs.push(f);
                self.stamps = Ghost(
            Stamps { log: self.stamps@.log.push(stamp), funcs: self.stamps@.funcs.push(self.stamps@.log.len() as int), ..self.stamps@ },
        );
                proof {
                    lemma_grow_except(*old(self), *self, Space::Funcs, stamp);
                    lemma_stamped_push(old(self).funcs@, old(self).stamps@.funcs, old(self).stamps@.log, func_rule(), count_funcs(), e, stamp);
                }
                proof {
                    assert(self.funcs@.drop_last() =~= old(self).funcs@);
                    assert forall|i: int| 0 <= i < self.core_funcs@.len() implies self.valid_core_func(
                        #[trigger] self.core_funcs@[i],
                    ) by {
                        assert(old(self).valid_core_func(old(self).core_funcs@[i]));
                    }
                    assert forall|i: int| 0 <= i < self.funcs@.len() implies self.valid_func(
                        #[trigger] self.funcs@[i],
                    ) by {
                        if i < old(self).funcs@.len() {
                            assert(old(self).valid_func(old(self).funcs@[i]));
                        }
                    }
                }
                Ok(())
            },
            ComponentTypeRef::Value(_) => Err(unsupported("value imports are not supported", at)),
            ComponentTypeRef::Type(..) => Err(unsupported("type imports are not supported", at)),
            ComponentTypeRef::Instance(_) => Err(unsupported("instance imports are not supported", at)),
            ComponentTypeRef::Component(_) => Err(unsupported("component imports are not supported", at)),
        }
    }

    /// Appends an export of a module or function, once its index is checked.
    /// Other export kinds are not supported.
    pub fn add_export(&mut self, export: &ComponentExport, at: u32) -> (r: Result<(), Error>)
        requires
            old(self).wf(),
        ensures
            final(self).wf(),
            r is Ok <==> (sort_of(export.kind) matches Some(sort) && old(self).in_sort(sort, export.index)),
            r matches Err(e) ==> e.offset == at && (e.kind == ErrorKind::UnsupportedConstruct <==> sort_of(export.kind) is None)
                && (e.kind == ErrorKind::ValidationRejected <==> sort_of(export.kind) is Some),
            r is Ok ==> final(self).exports@.len() == old(self).exports@.len() + 1
                && final(self).exports@.drop_last() == old(self).exports@
                && final(self).exports@.last().name@ == export.name@
                && Some(final(self).exports@.last().sort) == sort_of(export.kind)
                && final(self).exports@.last().index == export.index
                && agree_except(*old(self), *final(self), Space::Exports, Space::Exports),
    {
        let sort = match sort_from(export.kind) {
            Some(sort) => sort,
            None => {
                return Err(unsupported("only modules and functions can be exported", at));
            },
        };
        let len = match sort {
            Sort::Module => self.modules.len(),
            Sort::Func => self.funcs.len(),
        };
        if export.index as usize >= len {
            return Err(out_of_range(at));
        }
        let x = Export { name: export.name.to_owned(), sort, index: export.index };
        let ghost e = x;
        let ghost stamp = old(self).sizes();
        self.exports.push(x);
        self.stamps = Ghost(
            Stamps { log: self.stamps@.log.push(stamp), exports: self.stamps@.exports.push(self.stamps@.log.len() as int), ..self.stamps@ },
        );
        proof {
            lemma_grow_except(*old(self), *self, Space::Exports, stamp);
            lemma_stamped_push(old(self).exports@, old(self).stamps@.exports, old(self).stamps@.log, export_rule(), count_exports(), e, stamp);
        }
        proof {
            assert(self.exports@.drop_last() =~= old(self).exports@);
            assert forall|i: int| 0 <= i < self.exports@.len() implies self.valid_export(
                #[trigger] self.exports@[i],
            ) by {
                if i < old(self).exports@.len() {
                    assert(old(self).valid_export(old(self).exports@[i]));
                }
            }
        }
        Ok(())
    }

    /// Appends the component function made by lifting core function
    /// `core_func` to signature `sig`, with `options` folded. The function
    /// and the options' indices are checked first, then the signature is laid
    /// out, registering its arena entries.
    pub fn add_lift(&mut self, core_func: u32, sig: &FuncSignature, options: &[CanonicalOption], at: u32) -> (r: Result<(), Error>)
        requires
            old(self).wf(),
        ensures
            final(self).wf(),
            r is Ok <==> core_func < old(self).core_funcs@.len() && old(self).valid_opts(fold_options(options@))
                && layout_computable(*sig),
            r matches Err(e) ==> e.offset == at && (e.kind == ErrorKind::ValidationRejected <==> !(core_func
                < old(self).core_funcs@.len() && old(self).valid_opts(fold_options(options@))))
                && (e.kind == ErrorKind::UnsupportedConstruct <==> e.kind != ErrorKind::ValidationRejected
                && !signature_laid_out(sig.params@, sig.result))
                && (e.kind == ErrorKind::MalformedBinary <==> e.kind != ErrorKind::ValidationRejected
                && signature_laid_out(sig.params@, sig.result)),
            r is Ok ==> final(self).funcs@.len() == old(self).funcs@.len() + 1
                && final(self).funcs@.drop_last() == old(self).funcs@
                && lifted_matches(final(self).funcs@.last(), core_func, *sig, options@, old(self).types@.len())
                && final(self).types@.len() == arena_after(*sig, old(self).types@.len())
                && old(self).types@.is_prefix_of(final(self).types@)
                && agree_except(*old(self), *final(self), Space::Funcs, Space::Types),
    {
        let opts = CanonOpts::from_iter(options);
        if core_func as usize >= self.core_funcs.len() || !self.check_opts(&opts) {
            return Err(out_of_range(at));
        }
        let ty = convert_func_type(&mut self.types, sig, at)?;
        proof {
            lemma_slots_in_arena(ty, *sig, old(self).types@.len());
        }
        let f = Func::Lifted(LiftedFunc { core_func, ty, options: opts });
        let ghost e = f;
        let ghost stamp = self.sizes();
        self.funcs.push(f);
        self.stamps = Ghost(
            Stamps { log: self.stamps@.log.push(stamp), funcs: self.stamps@.funcs.push(self.stamps@.log.len() as int), ..self.stamps@ },
        );
        proof {
            lemma_grow_except(*old(self), *self, Space::Funcs, stamp);
            lemma_stamped_push(old(self).funcs@, old(self).stamps@.funcs, old(self).stamps@.log, func_rule(), count_funcs(), e, stamp);
        }
        proof {
            assert(self.funcs@.drop_last() =~= old(self).funcs@);
            assert(old(self).types@.is_prefix_of(self.types@));
            assert forall|i: int| 0 <= i < self.core_instances@.len() implies self.valid_instance(
                #[trigger] self.core_instances@[i],
                i,
            ) by {
                assert(old(self).valid_instance(old(self).core_instances@[i], i));
            }
            assert forall|i: int| 0 <= i < self.core_funcs@.len() implies self.valid_core_func(
                #[trigger] self.core_funcs@[i],
            ) by {
                assert(old(self).valid_core_func(old(self).core_funcs@[i]));
            }
            assert forall|i: int| 0 <= i < self.funcs@.len() implies self.valid_func(
                #[trigger] self.funcs@[i],
            ) by {
                if i < old(self).funcs@.len() {
                    assert(old(self).valid_func(old(self).funcs@[i]));
                }
            }
        }
        Ok(())
    }

    /// Appends the core function made by lowering component function `func`,
    /// of signature `sig`, with `options` folded. The function and the
    /// options' indices are checked first, then the signature is laid out,
    /// registering its arena entries.
    pub fn add_lower(&mut self, func: u32, sig: &FuncSignature, options: &[CanonicalOption], at: u32) -> (r: Result<(), Error>)
        requires
            old(self).wf(),
        ensures
            final(self).wf(),
            r is Ok <==> func < old(self).funcs@.len() && old(self).valid_opts(fold_options(options@))
                && layout_computable(*sig),
            r matches Err(e) ==> e.offset == at && (e.kind == ErrorKind::ValidationRejected <==> !(func
                < old(self).funcs@.len() && old(self).valid_opts(fold_options(options@))))
                && (e.kind == ErrorKind::UnsupportedConstruct <==> e.kind != ErrorKind::ValidationRejected
                && !signature_laid_out(sig.params@, sig.result))
                && (e.kind == ErrorKind::MalformedBinary <==> e.kind != ErrorKind::ValidationRejected
                && signature_laid_out(sig.params@, sig.result)),
            r is Ok ==> final(self).core_funcs@.len() == old(self).core_funcs@.len() + 1
                && final(self).core_funcs@.drop_last() == old(self).core_funcs@
                && lowered_matches(final(self).core_funcs@.last(), func, *sig, options@, old(self).types@.len())
                && final(self).types@.len() == arena_after(*sig, old(self).types@.len())
                && old(self).types@.is_prefix_of(final(self).types@)
                && agree_except(*old(self), *final(self), Space::CoreFuncs, Space::Types),
    {
        let opts = CanonOpts::from_iter(options);
        if func as usize >= self.funcs.len() || !self.check_opts(&opts) {
            return Err(out_of_range(at));
        }
        let ty = convert_func_type(&mut self.types, sig, at)?;
        proof {
            lemma_slots_in_arena(ty, *sig, old(self).types@.len());
        }
        let f = CoreFunc::Lowered(LoweredFunc { func, ty, options: opts });
        let ghost e = f;
        let ghost stamp = self.sizes();
        self.core_funcs.push(f);
        self.stamps = Ghost(
            Stamps { log: self.stamps@.log.push(stamp), core_funcs: self.stamps@.core_funcs.push(self.stamps@.log.len() as int), ..self.stamps@ },
        );
        proof {
            lemma_grow_except(*old(self), *self, Space::CoreFuncs, stamp);
            lemma_stamped_push(old(self).core_funcs@, old(self).stamps@.core_funcs, old(self).stamps@.log, core_func_rule(), count_core_funcs(), e, stamp);
        }
        proof {
            assert(self.core_funcs@.drop_last() =~= old(self).core_funcs@);
            assert(old(self).types@.is_prefix_of(self.types@));
            assert forall|i: int| 0 <= i < self.core_instances@.len() implies self.valid_instance(
                #[trigger] self.core_instances@[i],
                i,
            ) by {
                assert(old(self).valid_instance(old(self).core_instances@[i], i));
            }
            assert forall|i: int| 0 <= i < self.core_funcs@.len() implies self.valid_core_func(
                #[trigger] self.core_funcs@[i],
            ) by {
                if i < old(self).core_funcs@.len() {
                    assert(old(self).valid_core_func(old(self).core_funcs@[i]));
                }
            }
            assert forall|i: int| 0 <= i < self.funcs@.len() implies self.valid_func(
                #[trigger] self.funcs@[i],
            ) by {
                assert(old(self).valid_func(old(self).funcs@[i]));
            }
        }
        Ok(())
    }
}

/// No forward reference through a re-export: the core function that a
/// re-exporting instance names was stored before that instance.
pub proof fn lemma_reexport_names_earlier(c: Component, i: int, j: int)
    requires
        c.wf(),
        0 <= i < c.core_instances@.len(),
        c.core_instances@[i] matches CoreInstance::Reexporter(rs) && 0 <= j < rs@.len() && rs@[j].sort == CoreSort::Func,
    ensures
        c.core_instances@[i] matches CoreInstance::Reexporter(rs) && rs@[j].index < c.core_funcs@.len()
            && c.stamps@.core_funcs[rs@[j].index as int] < c.stamps@.core_instances[i],
{
    let st = c.stamps@;
    if let CoreInstance::Reexporter(rs) = c.core_instances@[i] {
        let pi = st.core_instances[i];
        assert(0 <= pi < st.log.len() && instance_at(c.core_instances@[i], st.log[pi]));
        let k = rs@[j].index as int;
        assert(k < st.log[pi].core_funcs);
        assert(sizes_le(st.log[pi], c.sizes()));
        let pk = st.core_funcs[k];
        assert(0 <= pk < st.log.len() && st.log[pk].core_funcs == k);
        if pk >= pi {
            assert(sizes_le(st.log[pi], st.log[pk]));
        }
    }
}

/// No forward reference through a lift: the core function that a lifted
/// function names was stored before the lifted function.
pub proof fn lemma_lift_names_earlier(c: Component, i: int)
    requires
        c.wf(),
        0 <= i < c.funcs@.len(),
        c.funcs@[i] is Lifted,
    ensures
        c.funcs@[i] matches Func::Lifted(l) && l.core_func < c.core_funcs@.len()
            && c.stamps@.core_funcs[l.core_func as int] < c.stamps@.funcs[i],
{
    let st = c.stamps@;
    if let Func::Lifted(l) = c.funcs@[i] {
        let pi = st.funcs[i];
        assert(0 <= pi < st.log.len() && func_at(c.funcs@[i], st.log[pi]));
        let k = l.core_func as int;
        assert(sizes_le(st.log[pi], c.sizes()));
        let pk = st.core_funcs[k];
        assert(0 <= pk < st.log.len() && st.log[pk].core_funcs == k);
        if pk >= pi {
            assert(sizes_le(st.log[pi], st.log[pk]));
        }
    }
}

/// `b` holds `a`'s entries at the same indices, and maybe more after them.
pub open spec fn grows<T>(a: Seq<T>, b: Seq<T>) -> bool {
    a.len() <= b.len() && forall|i: int| 0 <= i < a.len() ==> #[trigger] b[i] == a[i]
}

/// `b` is `a` with entries appended to the index spaces in `s`, and the
/// others unchanged.
pub open spec fn appended_to(a: Component, b: Component, s: Set<Space>) -> bool {
    &&& if s.contains(Space::Modules) { grows(a.modules@, b.modules@) } else { b.modules == a.modules }
    &&& if s.contains(Space::CoreInstances) { grows(a.core_instances@, b.core_instances@) } else { b.core_instances == a.core_instances }
    &&& if s.contains(Space::CoreFuncs) { grows(a.core_funcs@, b.core_funcs@) } else { b.core_funcs == a.core_funcs }
    &&& if s.contains(Space::Tables) { grows(a.tables@, b.tables@) } else { b.tables == a.tables }
    &&& if s.contains(Space::Memories) { grows(a.memories@, b.memories@) } else { b.memories == a.memories }
    &&& if s.contains(Space::Globals) { grows(a.globals@, b.globals@) } else { b.globals == a.globals }
    &&& if s.contains(Space::Types) { grows(a.types@, b.types@) } else { b.types == a.types }
    &&& if s.contains(Space::Funcs) { grows(a.funcs@, b.funcs@) } else { b.funcs == a.funcs }
    &&& if s.contains(Space::Exports) { grows(a.exports@, b.exports@) } else { b.exports == a.exports }
}

pub proof fn lemma_appended_refl(a: Component, s: Set<Space>)
    ensures
        appended_to(a, a, s),
{
}

/// One more append to a space in `s` keeps `c` appended to from `a`.
pub proof fn lemma_appended_trans(a: Component, b: Component, c: Component, s: Set<Space>)
    requires
        appended_to(a, b, s),
        appended_to(b, c, s),
    ensures
        appended_to(a, c, s),
{
}

pub proof fn lemma_grows_drop_last<T>(a: Seq<T>, b: Seq<T>)
    requires
        b.len() == a.len() + 1,
        b.drop_last() == a,
    ensures
        grows(a, b),
{
    assert forall|i: int| 0 <= i < a.len() implies #[trigger] b[i] == a[i] by {
        assert(b.drop_last()[i] == b[i]);
    }
}

pub proof fn lemma_grows_prefix<T>(a: Seq<T>, b: Seq<T>)
    requires
        a.is_prefix_of(b),
    ensures
        grows(a, b),
{
    assert forall|i: int| 0 <= i < a.len() implies #[trigger] b[i] == a[i] by {
        assert(b.subrange(0, a.len() as int)[i] == b[i]);
    }
}

pub proof fn lemma_grows_refl<T>(a: Seq<T>)
    ensures
        grows(a, a),
{
}

} // verus!
