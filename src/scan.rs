//! The scanner: pulls payloads from the tokenizer one at a time, has the
//! validator accept each one, and hands its contents to the builder.

use vstd::prelude::*;
use wasmparser::types::{ComponentFuncType, ComponentValType, TypesRef};
use wasmparser::{
    Alias, AliasSectionReader, BinaryReaderError, ExternalKind, CanonicalFunction, ComponentCanonicalSectionReader,
    ComponentExportSectionReader, ComponentImportSectionReader, Encoding, InstanceSectionReader, Parser,
    Payload, Validator,
};
use crate::graph::{
    appended_to, lemma_appended_trans, lemma_grows_drop_last, lemma_grows_prefix, unsupported, Space,
};
use crate::ir::{Component, Error, ErrorKind, Module};
use crate::layout::{FuncSignature, ValtypeRef};
use crate::wasm::{
    defined_shape, next_payload, read_header, read_instance, signature_params, signature_result, validate,
    validate_header,
};

verus! {

/// Whether the input starts with the magic `\0asm` and a 4-byte version.
pub open spec fn has_header(d: Seq<u8>) -> bool {
    d.len() >= 8 && d[0] == 0x00 && d[1] == 0x61 && d[2] == 0x73 && d[3] == 0x6d
}

/// The little-endian version number in a header.
pub open spec fn header_version(d: Seq<u8>) -> int {
    d[4] + 256 * d[5] + 65536 * d[6] + 16777216 * d[7]
}

/// Whether the input starts with the header of a version 1 module.
pub open spec fn is_module_header(d: Seq<u8>) -> bool {
    has_header(d) && d[4] == 1 && d[5] == 0 && d[6] == 0 && d[7] == 0
}

/// Whether `p` is a version header with number `num`, of a module
/// (`module`) or a component.
pub open spec fn is_version(p: Payload, num: u32, module: bool) -> bool {
    match p {
        Payload::Version { num: n, encoding, .. } => n == num && (encoding is Module) == module,
        _ => false,
    }
}

/// Whether `p` is the version header that `d` starts with: a module's for
/// versions 1 and 0xd, a component's for 0x1000a.
pub open spec fn header_payload(d: Seq<u8>, p: Payload) -> bool {
    &&& has_header(d)
    &&& p matches Payload::Version { num, encoding, .. }
    &&& num == header_version(d)
    &&& (encoding is Module <==> (num == 1 || num == 0xd))
    &&& (encoding is Component <==> num == 0x1000a)
}

/// What a fresh tokenizer yields on `d`: the header of a version 1 module
/// where `d` starts with one, and otherwise, where it yields a payload, the
/// 8-byte header that `d` starts with.
pub open spec fn header_read(d: Seq<u8>, r: Result<Option<(usize, Payload)>, BinaryReaderError>) -> bool {
    &&& is_module_header(d) ==> (r matches Ok(Some((n, p))) && n == 8 && is_version(p, 1, true))
    &&& r matches Ok(Some((n, p))) ==> n == 8 && header_payload(d, p)
}

/// A fresh validator accepts the header of a version 1 module.
pub open spec fn header_checked(p: Payload, r: Result<(), BinaryReaderError>) -> bool {
    is_version(p, 1, true) ==> r is Ok
}

impl Error {
    /// An error of the given kind carrying the tokenizer's or validator's
    /// message and offset.
    pub fn from_reader(err: &BinaryReaderError, kind: ErrorKind) -> (r: Error)
        ensures
            r.kind == kind,
    {
        Error { kind, message: err.message().to_owned(), offset: #[verifier::truncate] (err.offset() as u32) }
    }
}

fn malformed(err: &BinaryReaderError) -> (r: Error)
    ensures
        r.kind == ErrorKind::MalformedBinary,
{
    Error::from_reader(err, ErrorKind::MalformedBinary)
}

fn rejected(what: &str, at: u32) -> (r: Error)
    ensures
        r.kind == ErrorKind::ValidationRejected,
        r.offset == at,
{
    Error { kind: ErrorKind::ValidationRejected, message: what.to_owned(), offset: at }
}

/// Copies `data[start..end]`, where that range lies within `data`.
pub fn copy_range(data: &[u8], start: usize, end: usize) -> (r: Option<Vec<u8>>)
    ensures
        r is Some <==> start <= end <= data@.len(),
        r matches Some(v) ==> v@ == data@.subrange(start as int, end as int),
{
    if start > end || end > data.len() {
        return None;
    }
    let mut v: Vec<u8> = Vec::new();
    let mut i: usize = start;
    while i < end
        invariant
            start <= i <= end <= data@.len(),
            v@ == data@.subrange(start as int, i as int),
        decreases end - i,
    {
        v.push(data[i]);
        proof {
            assert(v@ =~= data@.subrange(start as int, i + 1));
        }
        i = i + 1;
    }
    Some(v)
}

/// Whether `t` is the layout input for `v`: a primitive stays itself, a
/// type id becomes a reference to a defined type.
pub open spec fn resolves_to(v: ComponentValType, t: ValtypeRef) -> bool {
    match v {
        ComponentValType::Primitive(p) => t == ValtypeRef::Primitive(p),
        ComponentValType::Type(_) => t is Defined,
    }
}

/// The layout input for a resolved value type.
pub fn resolve_valtype(types: &TypesRef, v: ComponentValType, at: u32) -> (r: Result<ValtypeRef, Error>)
    ensures
        r matches Ok(t) ==> resolves_to(v, t),
        v is Primitive ==> r is Ok,
        r matches Err(e) ==> e.kind == ErrorKind::ValidationRejected && e.offset == at,
{
    match v {
        ComponentValType::Primitive(p) => Ok(ValtypeRef::Primitive(p)),
        ComponentValType::Type(id) => {
            let t = match types.type_from_id(id) {
                Some(t) => t,
                None => {
                    return Err(rejected("unknown type id", at));
                },
            };
            match defined_shape(t) {
                Some(shape) => Ok(ValtypeRef::Defined(shape)),
                None => Err(rejected("value type is not a defined type", at)),
            }
        },
    }
}

/// The layout input for a signature with the given parameter and result
/// types: one entry per parameter, in order.
pub fn resolve_signature(types: &TypesRef, vals: &Vec<ComponentValType>, result: ComponentValType, at: u32) -> (r: Result<FuncSignature, Error>)
    ensures
        r matches Ok(sig) ==> sig.params@.len() == vals@.len() && resolves_to(result, sig.result) && forall|i: int|
            0 <= i < vals@.len() ==> resolves_to(vals@[i], #[trigger] sig.params@[i]),
        r matches Err(e) ==> e.kind == ErrorKind::ValidationRejected && e.offset == at,
{
    let mut params: Vec<ValtypeRef> = Vec::new();
    let mut i: usize = 0;
    while i < vals.len()
        invariant
            0 <= i <= vals@.len(),
            params@.len() == i,
            forall|k: int| 0 <= k < i ==> resolves_to(vals@[k], #[trigger] params@[k]),
        decreases vals@.len() - i,
    {
        params.push(resolve_valtype(types, vals[i], at)?);
        i = i + 1;
    }
    let result = resolve_valtype(types, result, at)?;
    Ok(FuncSignature { params, result: result })
}

fn read_instances(c: &mut Component, r: &mut InstanceSectionReader, at: u32) -> (res: Result<(), Error>)
    requires
        old(c).wf(),
    ensures
        final(c).wf(),
        res is Ok ==> appended_to(*old(c), *final(c), set![Space::CoreInstances]),
{
    let ghost spaces = set![Space::CoreInstances];
    let n = r.get_count();
    let mut i: u32 = 0;
    while i < n
        invariant
            c.wf(),
            spaces == set![Space::CoreInstances],
            appended_to(*old(c), *c, spaces),
        decreases n - i,
    {
        let decl = match read_instance(r) {
            Ok(d) => d,
            Err(e) => {
                return Err(malformed(&e));
            },
        };
        let ghost before = *c;
        c.add_instance(decl, at)?;
        proof {
            lemma_grows_drop_last(before.core_instances@, c.core_instances@);
            lemma_appended_trans(*old(c), before, *c, spaces);
        }
        i = i + 1;
    }
    Ok(())
}

fn read_aliases(c: &mut Component, r: &mut AliasSectionReader, at: u32) -> (res: Result<(), Error>)
    requires
        old(c).wf(),
    ensures
        final(c).wf(),
        res is Ok ==> appended_to(*old(c), *final(c), set![Space::CoreFuncs, Space::Tables, Space::Memories, Space::Globals]),
{
    let ghost spaces = set![Space::CoreFuncs, Space::Tables, Space::Memories, Space::Globals];
    let n = r.get_count();
    let mut i: u32 = 0;
    while i < n
        invariant
            c.wf(),
            spaces == set![Space::CoreFuncs, Space::Tables, Space::Memories, Space::Globals],
            appended_to(*old(c), *c, spaces),
        decreases n - i,
    {
        let alias = match r.read() {
            Ok(a) => a,
            Err(e) => {
                return Err(malformed(&e));
            },
        };
        let ghost before = *c;
        c.add_alias(&alias, at)?;
        proof {
            if let Alias::InstanceExport { kind, .. } = alias {
                match kind {
                    ExternalKind::Func => lemma_grows_drop_last(before.core_funcs@, c.core_funcs@),
                    ExternalKind::Table => lemma_grows_drop_last(before.tables@, c.tables@),
                    ExternalKind::Memory => lemma_grows_drop_last(before.memories@, c.memories@),
                    ExternalKind::Global => lemma_grows_drop_last(before.globals@, c.globals@),
                    ExternalKind::Tag => {},
                }
            }
            lemma_appended_trans(*old(c), before, *c, spaces);
        }
        i = i + 1;
    }
    Ok(())
}

fn read_canonicals(c: &mut Component, r: &mut ComponentCanonicalSectionReader, types: &TypesRef, at: u32) -> (res: Result<(), Error>)
    requires
        old(c).wf(),
    ensures
        final(c).wf(),
        res is Ok ==> appended_to(*old(c), *final(c), set![Space::CoreFuncs, Space::Types, Space::Funcs]),
{
    let ghost spaces = set![Space::CoreFuncs, Space::Types, Space::Funcs];
    let n = r.get_count();
    let mut i: u32 = 0;
    while i < n
        invariant
            c.wf(),
            spaces == set![Space::CoreFuncs, Space::Types, Space::Funcs],
            appended_to(*old(c), *c, spaces),
        decreases n - i,
    {
        let canon = match r.read() {
            Ok(f) => f,
            Err(e) => {
                return Err(malformed(&e));
            },
        };
        match canon {
            CanonicalFunction::Lift { core_func_index, type_index, options } => {
                let ty = match types.type_at(type_index, false) {
                    Some(t) => t,
                    None => {
                        return Err(rejected("unknown type index", at));
                    },
                };
                let fty = match ty.as_component_func_type() {
                    Some(f) => f,
                    None => {
                        return Err(rejected("lifted type is not a function type", at));
                    },
                };
                let sig = resolve_signature(types, &signature_params(fty), signature_result(fty), at)?;
                let ghost before = *c;
                c.add_lift(core_func_index, &sig, &options, at)?;
                proof {
                    lemma_grows_drop_last(before.funcs@, c.funcs@);
                    lemma_grows_prefix(before.types@, c.types@);
                    lemma_appended_trans(*old(c), before, *c, spaces);
                }
            },
            CanonicalFunction::Lower { func_index, options } => {
                let fty = match types.component_function_at(func_index) {
                    Some(f) => f,
                    None => {
                        return Err(rejected("unknown function index", at));
                    },
                };
                let sig = resolve_signature(types, &signature_params(fty), signature_result(fty), at)?;
                let ghost before = *c;
                c.add_lower(func_index, &sig, &options, at)?;
                proof {
                    lemma_grows_drop_last(before.core_funcs@, c.core_funcs@);
                    lemma_grows_prefix(before.types@, c.types@);
                    lemma_appended_trans(*old(c), before, *c, spaces);
                }
            },
        }
        i = i + 1;
    }
    Ok(())
}

fn read_imports(c: &mut Component, r: &mut ComponentImportSectionReader, at: u32) -> (res: Result<(), Error>)
    requires
        old(c).wf(),
    ensures
        final(c).wf(),
        res is Ok ==> appended_to(*old(c), *final(c), set![Space::Modules, Space::Funcs]),
{
    let ghost spaces = set![Space::Modules, Space::Funcs];
    let n = r.get_count();
    let mut i: u32 = 0;
    while i < n
        invariant
            c.wf(),
            spaces == set![Space::Modules, Space::Funcs],
            appended_to(*old(c), *c, spaces),
        decreases n - i,
    {
        let import = match r.read() {
            Ok(im) => im,
            Err(e) => {
                return Err(malformed(&e));
            },
        };
        let ghost before = *c;
        c.add_import(&import, at)?;
        proof {
            if import.ty is Module {
                lemma_grows_drop_last(before.modules@, c.modules@);
            } else {
                lemma_grows_drop_last(before.funcs@, c.funcs@);
            }
            lemma_appended_trans(*old(c), before, *c, spaces);
        }
        i = i + 1;
    }
    Ok(())
}

fn read_exports(c: &mut Component, r: &mut ComponentExportSectionReader, at: u32) -> (res: Result<(), Error>)
    requires
        old(c).wf(),
    ensures
        final(c).wf(),
        res is Ok ==> appended_to(*old(c), *final(c), set![Space::Exports]),
{
    let ghost spaces = set![Space::Exports];
    let n = r.get_count();
    let mut i: u32 = 0;
    while i < n
        invariant
            c.wf(),
            spaces == set![Space::Exports],
            appended_to(*old(c), *c, spaces),
        decreases n - i,
    {
        let export = match r.read() {
            Ok(ex) => ex,
            Err(e) => {
                return Err(malformed(&e));
            },
        };
        let ghost before = *c;
        c.add_export(&export, at)?;
        proof {
            lemma_grows_drop_last(before.exports@, c.exports@);
            lemma_appended_trans(*old(c), before, *c, spaces);
        }
        i = i + 1;
    }
    Ok(())
}


/// An error for a tokenizer that yields nothing further.
fn stalled(at: u32) -> (r: Error)
    ensures
        r.kind == ErrorKind::MalformedBinary,
        r.offset == at,
{
    Error { kind: ErrorKind::MalformedBinary, message: "unexpected end of input".to_owned(), offset: at }
}

/// Pulls the next payload at `pos` and has the validator accept it. Returns
/// the payload and the position after it; only the end marker may take no
/// bytes.
fn next_validated<'a>(parser: &mut Parser, validator: &mut Validator, data: &'a [u8], pos: usize) -> (r: Result<
    (usize, Payload<'a>),
    Error,
>)
    requires
        pos <= data@.len(),
    ensures
        r matches Ok((next, p)) ==> pos <= next <= data@.len() && (next == pos ==> p is End),
        r matches Err(e) ==> e.kind == ErrorKind::MalformedBinary || e.kind == ErrorKind::ValidationRejected,
{
    let len = data.len();
    let step = next_payload(parser, data, pos);
    let (next, payload) = match step {
        Ok(Some((consumed, payload))) => (pos + consumed, payload),
        Ok(None) => {
            return Err(stalled(#[verifier::truncate] (pos as u32)));
        },
        Err(e) => {
            return Err(malformed(&e));
        },
    };
    if let Err(e) = validate(validator, &payload) {
        return Err(Error::from_reader(&e, ErrorKind::ValidationRejected));
    }
    let is_end = match payload {
        Payload::End(_) => true,
        _ => false,
    };
    if next == pos && !is_end {
        return Err(stalled(#[verifier::truncate] (pos as u32)));
    }
    Ok((next, payload))
}

/// Drains and validates the payloads of a module's body, starting at `pos`
/// with the module's own tokenizer, up to its end marker. Returns the
/// position after the body. A module holds no nested modules or components:
/// one that claims to is malformed.
fn drain_module(parser: &mut Parser, validator: &mut Validator, data: &[u8], start: usize) -> (r: Result<usize, Error>)
    requires
        start <= data@.len(),
    ensures
        r matches Ok(next) ==> start <= next <= data@.len(),
        r matches Err(e) ==> e.kind == ErrorKind::MalformedBinary || e.kind == ErrorKind::ValidationRejected,
{
    let mut pos = start;
    loop
        invariant
            start <= pos <= data@.len(),
        decreases data@.len() - pos,
    {
        let at = #[verifier::truncate] (pos as u32);
        let (next, payload) = next_validated(parser, validator, data, pos)?;
        match payload {
            Payload::End(_) => {
                return Ok(next);
            },
            Payload::ModuleSection { .. } | Payload::ComponentSection { .. } => {
                return Err(
                    Error {
                        kind: ErrorKind::MalformedBinary,
                        message: "modules nest too deeply".to_owned(),
                        offset: at,
                    },
                );
            },
            _ => {},
        }
        pos = next;
    }
}

/// What the scanner does with a payload of the component's own stream.
pub enum Action<'a> {
    /// Nothing: a type section, whose types the validator keeps, or a
    /// payload this decoder does not read.
    Skip,
    /// The binary is a plain module, not a component.
    NotAComponent,
    /// The component's end marker.
    Finish,
    /// A module defined inline over `start..end`, whose body follows to be
    /// drained with `parser`.
    Module { parser: Parser, start: usize, end: usize },
    Instances(InstanceSectionReader<'a>),
    Aliases(AliasSectionReader<'a>),
    Canonicals(ComponentCanonicalSectionReader<'a>),
    Imports(ComponentImportSectionReader<'a>),
    Exports(ComponentExportSectionReader<'a>),
}

/// Whether the payload is a construct that this decoder does not handle:
/// nested components, component instances and aliases, start functions.
pub open spec fn is_unsupported_payload(p: Payload) -> bool {
    ||| p is ComponentSection
    ||| p is ComponentInstanceSection
    ||| p is ComponentAliasSection
    ||| p is ComponentStartSection
}

/// A module section becomes a module action over the same byte range.
pub open spec fn module_range_kept<'a>(p: Payload<'a>, r: Result<Action<'a>, Error>) -> bool {
    match p {
        Payload::ModuleSection { range, .. } => match r {
            Ok(Action::Module { start, end, .. }) => start == range.start && end == range.end,
            _ => false,
        },
        _ => true,
    }
}

/// Decides what to do with a validated payload found at offset `at`.
pub fn action_for<'a>(payload: Payload<'a>, at: u32) -> (r: Result<Action<'a>, Error>)
    ensures
        (r matches Ok(Action::NotAComponent)) <==> (payload matches Payload::Version { encoding, .. }
            && encoding is Module),
        (r matches Ok(Action::Finish)) <==> payload is End,
        r is Err <==> is_unsupported_payload(payload),
        r matches Err(e) ==> e.kind == ErrorKind::UnsupportedConstruct && e.offset == at,
        payload is ModuleSection ==> module_range_kept(payload, r),
        payload is InstanceSection <==> (r matches Ok(Action::Instances(_))),
        payload is AliasSection <==> (r matches Ok(Action::Aliases(_))),
        payload is ComponentCanonicalSection <==> (r matches Ok(Action::Canonicals(_))),
        payload is ComponentImportSection <==> (r matches Ok(Action::Imports(_))),
        payload is ComponentExportSection <==> (r matches Ok(Action::Exports(_))),
{
    match payload {
        Payload::Version { encoding, .. } => match encoding {
            Encoding::Module => Ok(Action::NotAComponent),
            Encoding::Component => Ok(Action::Skip),
        },
        Payload::ModuleSection { parser, range } => Ok(Action::Module { parser, start: range.start, end: range.end }),
        Payload::InstanceSection(reader) => Ok(Action::Instances(reader)),
        Payload::AliasSection(reader) => Ok(Action::Aliases(reader)),
        Payload::ComponentSection { .. } => Err(unsupported("nested components are not supported", at)),
        Payload::ComponentInstanceSection(_) => Err(unsupported("component instances are not supported", at)),
        Payload::ComponentAliasSection(_) => Err(unsupported("component aliases are not supported", at)),
        Payload::ComponentCanonicalSection(reader) => Ok(Action::Canonicals(reader)),
        Payload::ComponentStartSection(_) => Err(unsupported("component start functions are not supported", at)),
        Payload::ComponentImportSection(reader) => Ok(Action::Imports(reader)),
        Payload::ComponentExportSection(reader) => Ok(Action::Exports(reader)),
        Payload::End(_) => Ok(Action::Finish),
        _ => Ok(Action::Skip),
    }
}

/// Decodes a component binary. Returns `Ok(None)` where the binary is a
/// plain module rather than a component, and otherwise the component, whose
/// index spaces follow the order of the binary and whose every stored index
/// names an existing entry. The first malformed payload, payload that the
/// validator rejects, or construct this decoder does not handle ends the
/// decoding with an error and no component.
pub fn parse(data: &[u8]) -> (r: Result<Option<Component>, Error>)
    ensures
        is_module_header(data@) ==> r matches Ok(None),
        r matches Ok(None) ==> has_header(data@) && (header_version(data@) == 1 || header_version(data@) == 0xd),
        r matches Ok(Some(_)) ==> has_header(data@) && header_version(data@) == 0x1000a,
        !has_header(data@) ==> (r matches Err(e) && e.kind == ErrorKind::MalformedBinary),
        r matches Ok(Some(c)) ==> c.wf(),
{
    let (mut parser, first) = read_header(data);
    let (first_len, header) = match first {
        Ok(Some((n, p))) => (n, p),
        Ok(None) => {
            return Err(stalled(0));
        },
        Err(e) => {
            return Err(malformed(&e));
        },
    };
    let (mut validator, checked) = validate_header(&header);
    if let Err(e) = checked {
        return Err(Error::from_reader(&e, ErrorKind::ValidationRejected));
    }
    match header {
        Payload::Version { encoding: Encoding::Module, .. } => {
            return Ok(None);
        },
        _ => {},
    }
    let len = data.len();
    let mut output = Component::new();
    let mut pos: usize = first_len;
    loop
        invariant
            pos <= data@.len(),
            output.wf(),
            has_header(data@) && header_version(data@) == 0x1000a,
        decreases data@.len() - pos,
    {
        let at = #[verifier::truncate] (pos as u32);
        let (next, payload) = next_validated(&mut parser, &mut validator, data, pos)?;
        match action_for(payload, at)? {
            Action::Skip => {},
            Action::NotAComponent => {
                return Err(
                    Error {
                        kind: ErrorKind::MalformedBinary,
                        message: "version header after the start of the component".to_owned(),
                        offset: at,
                    },
                );
            },
            Action::Finish => {
                return Ok(Some(output));
            },
            Action::Module { parser: mut inner, start, end } => {
                let bytes = match copy_range(data, start, end) {
                    Some(b) => b,
                    None => {
                        return Err(
                            Error {
                                kind: ErrorKind::MalformedBinary,
                                message: "module range lies outside the input".to_owned(),
                                offset: at,
                            },
                        );
                    },
                };
                output.add_module(Module::Inline(bytes));
                pos = drain_module(&mut inner, &mut validator, data, next)?;
                continue;
            },
            Action::Instances(mut reader) => read_instances(&mut output, &mut reader, at)?,
            Action::Aliases(mut reader) => read_aliases(&mut output, &mut reader, at)?,
            Action::Canonicals(mut reader) => {
                let types = match validator.types(0) {
                    Some(t) => t,
                    None => {
                        return Err(rejected("no component type space", at));
                    },
                };
                read_canonicals(&mut output, &mut reader, &types, at)?;
            },
            Action::Imports(mut reader) => read_imports(&mut output, &mut reader, at)?,
            Action::Exports(mut reader) => read_exports(&mut output, &mut reader, at)?,
        }
        pos = next;
    }
}

} // verus!
