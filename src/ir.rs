//! The decoded component: index-addressed sequences of modules, instances,
//! core objects, component functions, defined types and exports.

use vstd::prelude::*;
use wasmparser::PrimitiveValType;

verus! {

/// Index into `Component::modules`.
pub type ModuleIdx = u32;

/// Index into `Component::core_instances`.
pub type InstanceIdx = u32;

/// Index into `Component::core_funcs`.
pub type CoreFuncIdx = u32;

/// Index into `Component::memories`.
pub type MemoryIdx = u32;

/// Index into `Component::funcs`.
pub type FuncIdx = u32;

/// Index into the type arena, `Component::types`.
pub type TypeIdx = usize;

/// The primitive value types of the component model.
#[derive(Clone, Copy, Debug, PartialEq, Eq)]
pub enum Primtype {
    Unit,
    Bool,
    S8,
    U8,
    S16,
    U16,
    S32,
    U32,
    S64,
    U64,
    Float32,
    Float64,
    Char,
    String,
}

/// A value slot: either a primitive inline, or an entry of the type arena.
#[derive(Clone, Copy, Debug, PartialEq, Eq)]
pub enum Valtype {
    Primitive(Primtype),
    Idx(TypeIdx),
}

/// A value slot with its position in the containing sequence. The unit of
/// `offset` (flat slots or bytes) is that of the layout which produced it.
#[derive(Clone, Copy, Debug, PartialEq, Eq)]
pub struct AnnotatedValtype {
    pub offset: u32,
    pub ty: Valtype,
}

/// An entry of the type arena.
#[derive(Clone, Copy, Debug, PartialEq, Eq)]
pub enum Deftype {
    Primitive(Primtype),
}

/// A function signature with its canonical layout.
#[derive(Clone, Debug, PartialEq, Eq)]
pub struct FuncType {
    pub params: Vec<AnnotatedValtype>,
    pub flat_params: bool,
    pub result: AnnotatedValtype,
    pub flat_result: bool,
}

#[derive(Clone, Copy, Debug, PartialEq, Eq)]
pub enum StringEncoding {
    Utf8,
    Utf16,
    Latin1OrUtf16,
}

/// Options of a canonical lift or lower.
#[derive(Clone, Copy, Debug, PartialEq, Eq)]
pub struct CanonOpts {
    pub string_encoding: StringEncoding,
    pub memory: Option<MemoryIdx>,
    pub realloc: Option<CoreFuncIdx>,
    pub post_return: Option<CoreFuncIdx>,
}

#[derive(Clone, Debug, PartialEq, Eq)]
pub enum Module {
    /// The module's bytes, copied out of the component binary.
    Inline(Vec<u8>),
    /// An imported module, by import name.
    Imported(String),
}

#[derive(Clone, Debug, PartialEq, Eq)]
pub struct CoreInstantiateArg {
    pub name: String,
    pub instance: InstanceIdx,
}

#[derive(Clone, Debug, PartialEq, Eq)]
pub struct ModuleInstance {
    pub module: ModuleIdx,
    pub args: Vec<CoreInstantiateArg>,
}

/// The four kinds of core objects.
#[derive(Clone, Copy, Debug, PartialEq, Eq)]
pub enum CoreSort {
    Func,
    Table,
    Memory,
    Global,
}

/// One export of a synthetic instance: an existing core object under a name.
#[derive(Clone, Debug, PartialEq, Eq)]
pub struct CoreReexport {
    pub name: String,
    pub sort: CoreSort,
    pub index: u32,
}

#[derive(Clone, Debug, PartialEq, Eq)]
pub enum CoreInstance {
    /// A module instantiated with named instance arguments.
    Module(ModuleInstance),
    /// A bag of existing core objects under new names.
    Reexporter(Vec<CoreReexport>),
}

/// A named export of a core instance.
#[derive(Clone, Debug, PartialEq, Eq)]
pub struct CoreExport {
    pub instance: InstanceIdx,
    pub name: String,
}

/// A core function made by lowering a component function.
#[derive(Clone, Debug, PartialEq, Eq)]
pub struct LoweredFunc {
    pub func: FuncIdx,
    pub ty: FuncType,
    pub options: CanonOpts,
}

#[derive(Clone, Debug, PartialEq, Eq)]
pub enum CoreFunc {
    Aliased(CoreExport),
    Lowered(LoweredFunc),
}

/// A component function made by lifting a core function.
#[derive(Clone, Debug, PartialEq, Eq)]
pub struct LiftedFunc {
    pub core_func: CoreFuncIdx,
    pub ty: FuncType,
    pub options: CanonOpts,
}

#[derive(Clone, Debug, PartialEq, Eq)]
pub enum Func {
    Imported(String),
    Lifted(LiftedFunc),
}

/// The kinds of component items that can be exported.
#[derive(Clone, Copy, Debug, PartialEq, Eq)]
pub enum Sort {
    Module,
    Func,
}

#[derive(Clone, Debug, PartialEq, Eq)]
pub struct Export {
    pub name: String,
    pub sort: Sort,
    pub index: u32,
}

/// The lengths of a component's index spaces at one moment.
pub struct Sizes {
    pub modules: nat,
    pub core_instances: nat,
    pub core_funcs: nat,
    pub tables: nat,
    pub memories: nat,
    pub globals: nat,
    pub types: nat,
    pub funcs: nat,
    pub exports: nat,
}

/// The history of a component's stores: the lengths of the index spaces at
/// each store, in order, and for each entry of each index space that holds
/// indices, the place of its own store in that history.
pub struct Stamps {
    pub log: Seq<Sizes>,
    pub core_instances: Seq<int>,
    pub core_funcs: Seq<int>,
    pub tables: Seq<int>,
    pub memories: Seq<int>,
    pub globals: Seq<int>,
    pub funcs: Seq<int>,
    pub exports: Seq<int>,
}

/// The decoded component. Index order is the order in which the binary
/// defines the items.
#[derive(Clone)]
pub struct Component {
    pub modules: Vec<Module>,
    pub core_instances: Vec<CoreInstance>,
    pub core_funcs: Vec<CoreFunc>,
    pub tables: Vec<CoreExport>,
    pub memories: Vec<CoreExport>,
    pub globals: Vec<CoreExport>,
    pub types: Vec<Deftype>,
    pub funcs: Vec<Func>,
    pub exports: Vec<Export>,
    /// When each entry was stored, as the lengths of the index spaces then.
    pub stamps: Ghost<Stamps>,
}

#[derive(Clone, Copy, Debug, PartialEq, Eq)]
pub enum ErrorKind {
    /// The tokenizer found the bytes ill-formed.
    MalformedBinary,
    /// The validator rejected the component, or an index is out of range.
    ValidationRejected,
    /// A well-formed construct that this decoder does not handle.
    UnsupportedConstruct,
}

/// Why decoding failed, and where in the input.
#[derive(Clone, Debug, PartialEq, Eq)]
pub struct Error {
    pub kind: ErrorKind,
    pub message: String,
    pub offset: u32,
}


/// The library's primitive for wasmparser's.
pub open spec fn primtype_of(p: PrimitiveValType) -> Primtype {
    match p {
        PrimitiveValType::Unit => Primtype::Unit,
        PrimitiveValType::Bool => Primtype::Bool,
        PrimitiveValType::S8 => Primtype::S8,
        PrimitiveValType::U8 => Primtype::U8,
        PrimitiveValType::S16 => Primtype::S16,
        PrimitiveValType::U16 => Primtype::U16,
        PrimitiveValType::S32 => Primtype::S32,
        PrimitiveValType::U32 => Primtype::U32,
        PrimitiveValType::S64 => Primtype::S64,
        PrimitiveValType::U64 => Primtype::U64,
        PrimitiveValType::Float32 => Primtype::Float32,
        PrimitiveValType::Float64 => Primtype::Float64,
        PrimitiveValType::Char => Primtype::Char,
        PrimitiveValType::String => Primtype::String,
    }
}

impl From<PrimitiveValType> for Primtype {
    fn from(ty: PrimitiveValType) -> (r: Primtype) {
        match ty {
            PrimitiveValType::Unit => Primtype::Unit,
            PrimitiveValType::Bool => Primtype::Bool,
            PrimitiveValType::S8 => Primtype::S8,
            PrimitiveValType::U8 => Primtype::U8,
            PrimitiveValType::S16 => Primtype::S16,
            PrimitiveValType::U16 => Primtype::U16,
            PrimitiveValType::S32 => Primtype::S32,
            PrimitiveValType::U32 => Primtype::U32,
            PrimitiveValType::S64 => Primtype::S64,
            PrimitiveValType::U64 => Primtype::U64,
            PrimitiveValType::Float32 => Primtype::Float32,
            PrimitiveValType::Float64 => Primtype::Float64,
            PrimitiveValType::Char => Primtype::Char,
            PrimitiveValType::String => Primtype::String,
        }
    }
}

impl vstd::std_specs::convert::FromSpecImpl<PrimitiveValType> for Primtype {
    open spec fn obeys_from_spec() -> bool {
        true
    }

    open spec fn from_spec(v: PrimitiveValType) -> Primtype {
        primtype_of(v)
    }
}

} // verus!
