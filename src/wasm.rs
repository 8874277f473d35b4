//! What the library relies on from wasmparser, the binary tokenizer and
//! validator of the component format.

use vstd::prelude::*;
use wasmparser::types::{ComponentDefinedType, ComponentFuncType, ComponentValType, Type, TypesRef};
use wasmparser::{
    Alias, AliasSectionReader, BinaryReaderError, CanonicalFunction, Chunk, ComponentCanonicalSectionReader,
    ComponentExport, ComponentExportSectionReader, ComponentImport, ComponentImportSectionReader, Instance,
    InstanceSectionReader, Parser, Payload, Validator, WasmFeatures,
};
use crate::graph::{ExportDecl, InstanceDecl};
use crate::ir::CoreInstantiateArg;
use crate::layout::DefinedShape;
use crate::scan::{header_checked, header_read};

verus! {

/// wasmparser's canonical option entries, a plain enum over `u32` indices.
#[verifier::external_type_specification]
pub struct ExCanonicalOption(wasmparser::CanonicalOption);

/// wasmparser's primitive value types.
#[verifier::external_type_specification]
pub struct ExPrimitiveValType(wasmparser::PrimitiveValType);

/// wasmparser's kinds of core items: function, table, memory, global, tag.
#[verifier::external_type_specification]
pub struct ExExternalKind(wasmparser::ExternalKind);

/// wasmparser's kinds of component items.
#[verifier::external_type_specification]
pub struct ExComponentExternalKind(wasmparser::ComponentExternalKind);

/// wasmparser's kinds of outer aliases.
#[verifier::external_type_specification]
pub struct ExOuterAliasKind(wasmparser::OuterAliasKind);

/// wasmparser's core alias entries: an export of a core instance, or an
/// outer alias.
#[verifier::external_type_specification]
pub struct ExAlias<'a>(wasmparser::Alias<'a>);

/// wasmparser's component export entries: name, kind and index.
#[verifier::external_type_specification]
pub struct ExComponentExport<'a>(wasmparser::ComponentExport<'a>);

/// wasmparser's canonical entries: a lift or a lower with its options.
#[verifier::external_type_specification]
pub struct ExCanonicalFunction(wasmparser::CanonicalFunction);

/// wasmparser's bounds of an imported type.
#[verifier::external_type_specification]
pub struct ExTypeBounds(wasmparser::TypeBounds);

/// wasmparser's value types as written in a section: a primitive or a type
/// index.
#[verifier::external_type_specification]
pub struct ExComponentValType(wasmparser::ComponentValType);

/// wasmparser's kinds of imported items, with their type references.
#[verifier::external_type_specification]
pub struct ExComponentTypeRef(wasmparser::ComponentTypeRef);

/// wasmparser's component import entries: name and type reference.
#[verifier::external_type_specification]
pub struct ExComponentImport<'a>(wasmparser::ComponentImport<'a>);

/// The tokenizer's state: where it stands in the binary.
#[verifier::external_type_specification]
#[verifier::external_body]
pub struct ExParser(wasmparser::Parser);

/// The validator's state, with the type space it has accumulated.
#[verifier::external_type_specification]
#[verifier::external_body]
pub struct ExValidator(wasmparser::Validator);

/// wasmparser's error, read through its message and offset.
#[verifier::external_type_specification]
#[verifier::external_body]
pub struct ExBinaryReaderError(wasmparser::BinaryReaderError);

/// wasmparser's `TypeSectionReader`, which a payload carries; opaque.
#[verifier::external_type_specification]
#[verifier::external_body]
pub struct ExTypeSectionReader<'a>(wasmparser::TypeSectionReader<'a>);

/// wasmparser's `ImportSectionReader`, which a payload carries; opaque.
#[verifier::external_type_specification]
#[verifier::external_body]
pub struct ExImportSectionReader<'a>(wasmparser::ImportSectionReader<'a>);

/// wasmparser's `FunctionSectionReader`, which a payload carries; opaque.
#[verifier::external_type_specification]
#[verifier::external_body]
pub struct ExFunctionSectionReader<'a>(wasmparser::FunctionSectionReader<'a>);

/// wasmparser's `TableSectionReader`, which a payload carries; opaque.
#[verifier::external_type_specification]
#[verifier::external_body]
pub struct ExTableSectionReader<'a>(wasmparser::TableSectionReader<'a>);

/// wasmparser's `MemorySectionReader`, which a payload carries; opaque.
#[verifier::external_type_specification]
#[verifier::external_body]
pub struct ExMemorySectionReader<'a>(wasmparser::MemorySectionReader<'a>);

/// wasmparser's `TagSectionReader`, which a payload carries; opaque.
#[verifier::external_type_specification]
#[verifier::external_body]
pub struct ExTagSectionReader<'a>(wasmparser::TagSectionReader<'a>);

/// wasmparser's `GlobalSectionReader`, which a payload carries; opaque.
#[verifier::external_type_specification]
#[verifier::external_body]
pub struct ExGlobalSectionReader<'a>(wasmparser::GlobalSectionReader<'a>);

/// wasmparser's `ExportSectionReader`, which a payload carries; opaque.
#[verifier::external_type_specification]
#[verifier::external_body]
pub struct ExExportSectionReader<'a>(wasmparser::ExportSectionReader<'a>);

/// wasmparser's `ElementSectionReader`, which a payload carries; opaque.
#[verifier::external_type_specification]
#[verifier::external_body]
pub struct ExElementSectionReader<'a>(wasmparser::ElementSectionReader<'a>);

/// wasmparser's `DataSectionReader`, which a payload carries; opaque.
#[verifier::external_type_specification]
#[verifier::external_body]
pub struct ExDataSectionReader<'a>(wasmparser::DataSectionReader<'a>);

/// wasmparser's `FunctionBody`, which a payload carries; opaque.
#[verifier::external_type_specification]
#[verifier::external_body]
pub struct ExFunctionBody<'a>(wasmparser::FunctionBody<'a>);

/// wasmparser's `InstanceSectionReader`, which a payload carries; opaque.
#[verifier::external_type_specification]
#[verifier::external_body]
pub struct ExInstanceSectionReader<'a>(wasmparser::InstanceSectionReader<'a>);

/// wasmparser's `AliasSectionReader`, which a payload carries; opaque.
#[verifier::external_type_specification]
#[verifier::external_body]
pub struct ExAliasSectionReader<'a>(wasmparser::AliasSectionReader<'a>);

/// wasmparser's `CoreTypeSectionReader`, which a payload carries; opaque.
#[verifier::external_type_specification]
#[verifier::external_body]
pub struct ExCoreTypeSectionReader<'a>(wasmparser::CoreTypeSectionReader<'a>);

/// wasmparser's `ComponentInstanceSectionReader`, which a payload carries; opaque.
#[verifier::external_type_specification]
#[verifier::external_body]
pub struct ExComponentInstanceSectionReader<'a>(wasmparser::ComponentInstanceSectionReader<'a>);

/// wasmparser's `ComponentAliasSectionReader`, which a payload carries; opaque.
#[verifier::external_type_specification]
#[verifier::external_body]
pub struct ExComponentAliasSectionReader<'a>(wasmparser::ComponentAliasSectionReader<'a>);

/// wasmparser's `ComponentTypeSectionReader`, which a payload carries; opaque.
#[verifier::external_type_specification]
#[verifier::external_body]
pub struct ExComponentTypeSectionReader<'a>(wasmparser::ComponentTypeSectionReader<'a>);

/// wasmparser's `ComponentCanonicalSectionReader`, which a payload carries; opaque.
#[verifier::external_type_specification]
#[verifier::external_body]
pub struct ExComponentCanonicalSectionReader<'a>(wasmparser::ComponentCanonicalSectionReader<'a>);

/// wasmparser's `ComponentStartSectionReader`, which a payload carries; opaque.
#[verifier::external_type_specification]
#[verifier::external_body]
pub struct ExComponentStartSectionReader<'a>(wasmparser::ComponentStartSectionReader<'a>);

/// wasmparser's `ComponentImportSectionReader`, which a payload carries; opaque.
#[verifier::external_type_specification]
#[verifier::external_body]
pub struct ExComponentImportSectionReader<'a>(wasmparser::ComponentImportSectionReader<'a>);

/// wasmparser's `ComponentExportSectionReader`, which a payload carries; opaque.
#[verifier::external_type_specification]
#[verifier::external_body]
pub struct ExComponentExportSectionReader<'a>(wasmparser::ComponentExportSectionReader<'a>);

/// wasmparser's `CustomSectionReader`, which a payload carries; opaque.
#[verifier::external_type_specification]
#[verifier::external_body]
pub struct ExCustomSectionReader<'a>(wasmparser::CustomSectionReader<'a>);

/// wasmparser's binary encodings: module or component.
#[verifier::external_type_specification]
pub struct ExEncoding(wasmparser::Encoding);

/// One structural record of the binary, as the tokenizer yields them.
#[verifier::external_type_specification]
pub struct ExPayload<'a>(wasmparser::Payload<'a>);

/// The validator's view of the types a component has declared.
#[verifier::external_type_specification]
#[verifier::external_body]
pub struct ExTypesRef<'a>(wasmparser::types::TypesRef<'a>);

/// A type of the validator's type space; opaque.
#[verifier::external_type_specification]
#[verifier::external_body]
pub struct ExType(wasmparser::types::Type);

/// The validator's id of a type; opaque.
#[verifier::external_type_specification]
#[verifier::external_body]
pub struct ExTypeId(wasmparser::types::TypeId);

/// A component function signature in the validator's type space; opaque,
/// read through the wrappers below.
#[verifier::external_type_specification]
#[verifier::external_body]
pub struct ExComponentFuncType(wasmparser::types::ComponentFuncType);

/// A resolved value type: a primitive, or the id of a defined type.
#[verifier::external_type_specification]
pub struct ExResolvedValType(wasmparser::types::ComponentValType);


/// Relies on BinaryReaderError::message: the error's description.
pub assume_specification[ wasmparser::BinaryReaderError::message ](e: &BinaryReaderError) -> &str;

/// Relies on BinaryReaderError::offset: where in the binary the error lies.
pub assume_specification[ wasmparser::BinaryReaderError::offset ](e: &BinaryReaderError) -> usize;

/// Relies on Validator::types: the type space of the component at `level`.
pub assume_specification[ wasmparser::Validator::types ](v: &Validator, level: usize) -> Option<TypesRef<'_>>;

/// Relies on TypesRef::type_at: the type at a type index, if declared.
pub assume_specification<'a>[ wasmparser::types::TypesRef::<'a>::type_at ](
    t: &TypesRef<'a>,
    index: u32,
    core: bool,
) -> Option<&'a Type>;

/// Relies on TypesRef::type_from_id: the type an id stands for.
pub assume_specification<'a>[ wasmparser::types::TypesRef::<'a>::type_from_id ](
    t: &TypesRef<'a>,
    id: wasmparser::types::TypeId,
) -> Option<&'a Type>;

/// Relies on TypesRef::component_function_at: the signature of a
/// component function, if declared.
pub assume_specification<'a>[ wasmparser::types::TypesRef::<'a>::component_function_at ](
    t: &TypesRef<'a>,
    index: u32,
) -> Option<&'a ComponentFuncType>;

/// Relies on Type::as_component_func_type: the signature, where the type is
/// one.
pub assume_specification[ wasmparser::types::Type::as_component_func_type ](t: &Type) -> Option<
    &ComponentFuncType,
>;

/// Relies on InstanceSectionReader::get_count: the section's entry count.
pub assume_specification<'a>[ wasmparser::InstanceSectionReader::<'a>::get_count ](
    r: &InstanceSectionReader<'a>,
) -> u32;

/// Relies on AliasSectionReader::get_count: the section's entry count.
pub assume_specification<'a>[ wasmparser::AliasSectionReader::<'a>::get_count ](r: &AliasSectionReader<'a>) -> u32;

/// Relies on AliasSectionReader::read: the section's next alias.
pub assume_specification<'a>[ wasmparser::AliasSectionReader::<'a>::read ](
    r: &mut AliasSectionReader<'a>,
) -> Result<Alias<'a>, BinaryReaderError>;

/// Relies on ComponentCanonicalSectionReader::get_count: the section's
/// entry count.
pub assume_specification<'a>[ wasmparser::ComponentCanonicalSectionReader::<'a>::get_count ](
    r: &ComponentCanonicalSectionReader<'a>,
) -> u32;

/// Relies on ComponentCanonicalSectionReader::read: the section's next lift
/// or lower.
pub assume_specification<'a>[ wasmparser::ComponentCanonicalSectionReader::<'a>::read ](
    r: &mut ComponentCanonicalSectionReader<'a>,
) -> Result<CanonicalFunction, BinaryReaderError>;

/// Relies on ComponentImportSectionReader::get_count: the section's entry
/// count.
pub assume_specification<'a>[ wasmparser::ComponentImportSectionReader::<'a>::get_count ](
    r: &ComponentImportSectionReader<'a>,
) -> u32;

/// Relies on ComponentImportSectionReader::read: the section's next import.
pub assume_specification<'a>[ wasmparser::ComponentImportSectionReader::<'a>::read ](
    r: &mut ComponentImportSectionReader<'a>,
) -> Result<ComponentImport<'a>, BinaryReaderError>;

/// Relies on ComponentExportSectionReader::get_count: the section's entry
/// count.
pub assume_specification<'a>[ wasmparser::ComponentExportSectionReader::<'a>::get_count ](
    r: &ComponentExportSectionReader<'a>,
) -> u32;

/// Relies on ComponentExportSectionReader::read: the section's next export.
pub assume_specification<'a>[ wasmparser::ComponentExportSectionReader::<'a>::read ](
    r: &mut ComponentExportSectionReader<'a>,
) -> Result<ComponentExport<'a>, BinaryReaderError>;

/// A fresh tokenizer, and the header payload it read with its length.
pub type HeaderRead<'a> = (Parser, Result<Option<(usize, Payload<'a>)>, BinaryReaderError>);

/// A fresh validator, and its verdict on the header.
pub type HeaderCheck = (Validator, Result<(), BinaryReaderError>);

/// Relies on Parser::new(0) and Parser::parse, told that no more input
/// follows: a fresh tokenizer reads the 8-byte header, the magic `\0asm`
/// and a little-endian version, which is a module's for 1 and 0xd and a
/// component's for 0x1000a, and anything else is an error. Returns the
/// tokenizer, to go on from there, and the header payload.
#[verifier::external_body]
pub(crate) fn read_header<'a>(data: &'a [u8]) -> (r: HeaderRead<'a>)
    ensures
        header_read(data@, r.1),
{
    let mut parser = Parser::new(0);
    let r = match parser.parse(data, true) {
        Ok(Chunk::Parsed { consumed, payload }) => Ok(Some((consumed, payload))),
        Ok(Chunk::NeedMoreData(_)) => Ok(None),
        Err(e) => Err(e),
    };
    (parser, r)
}

/// Relies on Validator::new_with_features, with the component model on, and
/// Validator::payload: a fresh validator accepts the version header of a
/// version 1 module. Returns the validator, to go on from there, and its
/// verdict on the header.
#[verifier::external_body]
pub(crate) fn validate_header(p: &Payload) -> (r: HeaderCheck)
    ensures
        header_checked(*p, r.1),
{
    let mut v = Validator::new_with_features(WasmFeatures { component_model: true, ..Default::default() });
    let r = v.payload(p).map(|_| ());
    (v, r)
}

/// Relies on Parser::parse, told that no more input follows: the next
/// payload of `data[pos..]` and the number of bytes it took, which the
/// source shows to be at most what it was given. With the input complete,
/// it never asks for more data; that case comes back as `None`.
#[verifier::external_body]
pub(crate) fn next_payload<'a>(parser: &mut Parser, data: &'a [u8], pos: usize) -> (r: Result<
    Option<(usize, Payload<'a>)>,
    BinaryReaderError,
>)
    requires
        pos <= data@.len(),
    ensures
        r matches Ok(Some((n, _))) ==> n <= data@.len() - pos,
{
    match parser.parse(&data[pos..], true)? {
        Chunk::Parsed { consumed, payload } => Ok(Some((consumed, payload))),
        Chunk::NeedMoreData(_) => Ok(None),
    }
}

/// Relies on Validator::payload: whether the validator accepts the payload,
/// in the order the tokenizer yields them.
#[verifier::external_body]
pub(crate) fn validate(v: &mut Validator, p: &Payload) -> (r: Result<(), BinaryReaderError>) {
    v.payload(p).map(|_| ())
}

/// Relies on InstanceSectionReader::read: the section's next core instance,
/// its names copied.
#[verifier::external_body]
pub(crate) fn read_instance(r: &mut InstanceSectionReader) -> (res: Result<InstanceDecl, BinaryReaderError>) {
    Ok(match r.read()? {
        Instance::Instantiate { module_index, args } => InstanceDecl::Instantiate {
            module: module_index,
            args: args.iter().map(|a| CoreInstantiateArg { name: a.name.to_owned(), instance: a.index }).collect(),
        },
        Instance::FromExports(es) => InstanceDecl::FromExports(
            es.iter().map(|e| ExportDecl { name: e.name.to_owned(), kind: e.kind, index: e.index }).collect(),
        ),
    })
}

/// Relies on the public `params` field of wasmparser's ComponentFuncType:
/// the parameter types in order, without their names.
#[verifier::external_body]
pub(crate) fn signature_params(ty: &ComponentFuncType) -> (r: Vec<ComponentValType>) {
    ty.params.iter().map(|p| p.1).collect()
}

/// Relies on the public `result` field of wasmparser's ComponentFuncType.
#[verifier::external_body]
pub(crate) fn signature_result(ty: &ComponentFuncType) -> (r: ComponentValType) {
    ty.result
}

/// Relies on Type::as_defined_type: the shape of a defined type, if the type
/// is one.
#[verifier::external_body]
pub(crate) fn defined_shape(t: &Type) -> (r: Option<DefinedShape>) {
    Some(match t.as_defined_type()? {
        ComponentDefinedType::Primitive(p) => DefinedShape::Primitive(*p),
        ComponentDefinedType::Record(_) => DefinedShape::Record,
        ComponentDefinedType::Variant(_) => DefinedShape::Variant,
        ComponentDefinedType::List(_) => DefinedShape::List,
        ComponentDefinedType::Tuple(_) => DefinedShape::Tuple,
        ComponentDefinedType::Flags(_) => DefinedShape::Flags,
        ComponentDefinedType::Enum(_) => DefinedShape::Enum,
        ComponentDefinedType::Union(_) => DefinedShape::Union,
        ComponentDefinedType::Option(_) => DefinedShape::Option,
        ComponentDefinedType::Expected(..) => DefinedShape::Expected,
    })
}

} // verus!
