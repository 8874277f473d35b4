use component_parser::graph::{ExportDecl, InstanceDecl};
use component_parser::ir::{
    AnnotatedValtype, CanonOpts, CoreExport, CoreFunc, CoreInstance, CoreInstantiateArg, CoreReexport, CoreSort,
    Deftype, Func, Module, Primtype, Sort, StringEncoding, Valtype,
};
use component_parser::layout::{
    convert_func_type, primitive_byte_size, primitive_flat_size, DefinedShape, FuncSignature, ValtypeRef,
};
use component_parser::{parse, Component, ErrorKind};
use wasmparser::{Alias, CanonicalOption, ComponentExport, ComponentExternalKind, ExternalKind, PrimitiveValType};

const COMPONENT_HEADER: [u8; 8] = [0x00, 0x61, 0x73, 0x6d, 0x0a, 0x00, 0x01, 0x00];
const MODULE_HEADER: [u8; 8] = [0x00, 0x61, 0x73, 0x6d, 0x01, 0x00, 0x00, 0x00];

const ALL_PRIMITIVES: [PrimitiveValType; 14] = [
    PrimitiveValType::Unit,
    PrimitiveValType::Bool,
    PrimitiveValType::S8,
    PrimitiveValType::U8,
    PrimitiveValType::S16,
    PrimitiveValType::U16,
    PrimitiveValType::S32,
    PrimitiveValType::U32,
    PrimitiveValType::S64,
    PrimitiveValType::U64,
    PrimitiveValType::Float32,
    PrimitiveValType::Float64,
    PrimitiveValType::Char,
    PrimitiveValType::String,
];

fn prim(p: PrimitiveValType) -> ValtypeRef {
    ValtypeRef::Primitive(p)
}

fn sig(params: Vec<ValtypeRef>, result: ValtypeRef) -> FuncSignature {
    FuncSignature { params, result }
}

fn parse_err(data: &[u8]) -> component_parser::Error {
    match parse(data) {
        Err(e) => e,
        Ok(_) => panic!("expected an error"),
    }
}

fn assert_empty(c: &Component) {
    assert!(c.modules.is_empty() && c.core_instances.is_empty() && c.core_funcs.is_empty());
    assert!(c.tables.is_empty() && c.memories.is_empty() && c.globals.is_empty());
    assert!(c.types.is_empty() && c.funcs.is_empty() && c.exports.is_empty());
}

fn offsets(params: &[AnnotatedValtype]) -> Vec<u32> {
    params.iter().map(|p| p.offset).collect()
}

#[test]
fn flat_module_is_not_a_component() {
    assert!(matches!(parse(&MODULE_HEADER), Ok(None)));
}

#[test]
fn empty_component_decodes_to_empty_graph() {
    let c = parse(&COMPONENT_HEADER).unwrap().unwrap();
    assert_empty(&c);
}

#[test]
fn garbage_is_malformed() {
    let e = parse_err(&[0x01, 0x02, 0x03]);
    assert_eq!(e.kind, ErrorKind::MalformedBinary);
}

#[test]
fn truncated_component_is_malformed() {
    let mut data = COMPONENT_HEADER.to_vec();
    data.extend_from_slice(&[0x0c, 0x05, 0x01]);
    let e = parse_err(&data);
    assert_eq!(e.kind, ErrorKind::MalformedBinary);
}

#[test]
fn export_of_missing_function_is_rejected() {
    let mut data = COMPONENT_HEADER.to_vec();
    data.extend_from_slice(&[0x0c, 0x05, 0x01, 0x01, b'a', 0x01, 0x00]);
    let e = parse_err(&data);
    assert_eq!(e.kind, ErrorKind::ValidationRejected);
}

#[test]
fn nested_component_is_unsupported_at_its_offset() {
    let mut data = COMPONENT_HEADER.to_vec();
    data.extend_from_slice(&[0x05, 0x08]);
    data.extend_from_slice(&COMPONENT_HEADER);
    let e = parse_err(&data);
    assert_eq!(e.kind, ErrorKind::UnsupportedConstruct);
    assert_eq!(e.offset, 8);
}

#[test]
fn inline_module_is_copied_and_drained() {
    let mut data = COMPONENT_HEADER.to_vec();
    data.extend_from_slice(&[0x01, 0x08]);
    data.extend_from_slice(&MODULE_HEADER);
    let c = parse(&data).unwrap().unwrap();
    assert_eq!(c.modules, vec![Module::Inline(MODULE_HEADER.to_vec())]);
    assert!(c.core_instances.is_empty());
}

#[test]
fn primitive_sizes_follow_the_tables() {
    let flat: Vec<u32> = ALL_PRIMITIVES
        .iter()
        .map(|p| primitive_flat_size(*p))
        .collect();
    assert_eq!(flat, vec![0, 1, 1, 1, 1, 1, 1, 1, 1, 1, 1, 1, 1, 2]);
    let bytes: Vec<u32> = ALL_PRIMITIVES
        .iter()
        .map(|p| primitive_byte_size(*p))
        .collect();
    assert_eq!(bytes, vec![0, 1, 1, 1, 2, 2, 4, 4, 8, 8, 4, 8, 4, 8]);
}

#[test]
fn primtype_conversion_keeps_the_kind() {
    assert_eq!(Primtype::from(PrimitiveValType::Unit), Primtype::Unit);
    assert_eq!(Primtype::from(PrimitiveValType::Float64), Primtype::Float64);
    assert_eq!(Primtype::from(PrimitiveValType::String), Primtype::String);
}

#[test]
fn sixteen_flat_units_stay_flat() {
    let mut types = Vec::new();
    let ft = convert_func_type(&mut types, &sig(vec![prim(PrimitiveValType::U32); 16], prim(PrimitiveValType::Unit)), 0).unwrap();
    assert!(ft.flat_params);
    assert_eq!(offsets(&ft.params), (0..16).collect::<Vec<u32>>());
}

#[test]
fn seventeen_flat_units_go_through_memory() {
    let mut types = Vec::new();
    let ft = convert_func_type(&mut types, &sig(vec![prim(PrimitiveValType::U32); 17], prim(PrimitiveValType::Unit)), 0).unwrap();
    assert!(!ft.flat_params);
    assert_eq!(offsets(&ft.params), (0..17).map(|i| 4 * i).collect::<Vec<u32>>());
}

#[test]
fn result_threshold_is_one_unit() {
    let mut types = Vec::new();
    let one = convert_func_type(&mut types, &sig(vec![], prim(PrimitiveValType::U64)), 0).unwrap();
    assert!(one.flat_result);
    let two = convert_func_type(&mut types, &sig(vec![], prim(PrimitiveValType::String)), 0).unwrap();
    assert!(!two.flat_result);
    assert_eq!(two.result, AnnotatedValtype { offset: 0, ty: Valtype::Primitive(Primtype::String) });
}

#[test]
fn flat_offsets_of_u32_string_u8() {
    let mut types = Vec::new();
    let s = sig(vec![prim(PrimitiveValType::U32), prim(PrimitiveValType::String), prim(PrimitiveValType::U8)], prim(PrimitiveValType::Unit));
    let ft = convert_func_type(&mut types, &s, 0).unwrap();
    assert!(ft.flat_params);
    assert_eq!(offsets(&ft.params), vec![0, 1, 3]);
}

#[test]
fn byte_offsets_of_u32_string_u8() {
    let mut types = Vec::new();
    let mut params = vec![prim(PrimitiveValType::U32), prim(PrimitiveValType::String), prim(PrimitiveValType::U8)];
    params.extend(vec![prim(PrimitiveValType::S64); 13]);
    let ft = convert_func_type(&mut types, &sig(params, prim(PrimitiveValType::Unit)), 0).unwrap();
    assert!(!ft.flat_params);
    assert_eq!(offsets(&ft.params)[..3].to_vec(), vec![0, 4, 12]);
    assert_eq!(ft.params[3].offset, 13);
}

#[test]
fn defined_types_register_once_per_pass() {
    let mut types = vec![Deftype::Primitive(Primtype::Bool)];
    let d = ValtypeRef::Defined(DefinedShape::Primitive(PrimitiveValType::U8));
    let flat = convert_func_type(&mut types, &sig(vec![d], prim(PrimitiveValType::Unit)), 0).unwrap();
    assert_eq!(flat.params[0].ty, Valtype::Idx(1));
    assert_eq!(types.len(), 2);

    let mut types = Vec::new();
    let mut params = vec![d];
    params.extend(vec![prim(PrimitiveValType::U64); 16]);
    let stacked = convert_func_type(&mut types, &sig(params, prim(PrimitiveValType::Unit)), 0).unwrap();
    assert!(!stacked.flat_params);
    assert_eq!(stacked.params[0].ty, Valtype::Idx(1));
    assert_eq!(types, vec![Deftype::Primitive(Primtype::U8), Deftype::Primitive(Primtype::U8)]);
}

#[test]
fn compound_types_are_unsupported() {
    let mut types = Vec::new();
    let e = convert_func_type(&mut types, &sig(vec![ValtypeRef::Defined(DefinedShape::List)], prim(PrimitiveValType::Unit)), 7).unwrap_err();
    assert_eq!(e.kind, ErrorKind::UnsupportedConstruct);
    assert_eq!(e.offset, 7);
    assert!(types.is_empty());
}

#[test]
fn later_options_overwrite_earlier_ones() {
    let opts = CanonOpts::from_iter(&[
        CanonicalOption::UTF16,
        CanonicalOption::Memory(2),
        CanonicalOption::UTF8,
        CanonicalOption::Memory(5),
    ]);
    assert_eq!(
        opts,
        CanonOpts { string_encoding: StringEncoding::Utf8, memory: Some(5), realloc: None, post_return: None }
    );
}

#[test]
fn empty_options_are_the_default() {
    assert_eq!(CanonOpts::from_iter(&[]), CanonOpts::default());
    let opts = CanonOpts::from_iter(&[CanonicalOption::CompactUTF16, CanonicalOption::Realloc(3), CanonicalOption::PostReturn(4)]);
    assert_eq!(opts.string_encoding, StringEncoding::Latin1OrUtf16);
    assert_eq!((opts.memory, opts.realloc, opts.post_return), (None, Some(3), Some(4)));
}

#[test]
fn reexported_function_exports_through_the_chain() {
    let mut c = Component::new();
    c.add_module(Module::Inline(MODULE_HEADER.to_vec()));
    c.add_instance(InstanceDecl::Instantiate { module: 0, args: vec![] }, 0).unwrap();
    c.add_alias(&Alias::InstanceExport { kind: ExternalKind::Func, instance_index: 0, name: "f" }, 0).unwrap();
    let f = ExportDecl { name: "f".to_string(), kind: ExternalKind::Func, index: 0 };
    c.add_instance(InstanceDecl::FromExports(vec![f]), 0).unwrap();
    c.add_lift(0, &sig(vec![], prim(PrimitiveValType::Unit)), &[], 0).unwrap();
    c.add_export(&ComponentExport { name: "run", kind: ComponentExternalKind::Func, index: 0 }, 0).unwrap();

    assert_eq!(c.core_instances[1], CoreInstance::Reexporter(vec![CoreReexport { name: "f".to_string(), sort: CoreSort::Func, index: 0 }]));
    let export = &c.exports[0];
    assert_eq!((export.name.as_str(), export.sort, export.index), ("run", Sort::Func, 0));
    let core_func = match &c.funcs[export.index as usize] {
        Func::Lifted(l) => l.core_func,
        other => panic!("expected a lifted function, got {:?}", other),
    };
    assert_eq!(c.core_funcs[core_func as usize], CoreFunc::Aliased(CoreExport { instance: 0, name: "f".to_string() }));
}

#[test]
fn out_of_range_indices_are_rejected() {
    let mut c = Component::new();
    let e = c.add_instance(InstanceDecl::Instantiate { module: 0, args: vec![] }, 3).unwrap_err();
    assert_eq!((e.kind, e.offset), (ErrorKind::ValidationRejected, 3));
    let e = c.add_export(&ComponentExport { name: "m", kind: ComponentExternalKind::Module, index: 0 }, 4).unwrap_err();
    assert_eq!((e.kind, e.offset), (ErrorKind::ValidationRejected, 4));
    let e = c.add_lift(0, &sig(vec![], prim(PrimitiveValType::Unit)), &[], 5).unwrap_err();
    assert_eq!((e.kind, e.offset), (ErrorKind::ValidationRejected, 5));
    assert_empty(&c);
}

#[test]
fn unsupported_kinds_are_reported() {
    let mut c = Component::new();
    c.add_module(Module::Imported("m".to_string()));
    c.add_instance(InstanceDecl::Instantiate { module: 0, args: vec![] }, 0).unwrap();
    let e = c.add_alias(&Alias::InstanceExport { kind: ExternalKind::Tag, instance_index: 0, name: "t" }, 9).unwrap_err();
    assert_eq!((e.kind, e.offset), (ErrorKind::UnsupportedConstruct, 9));
    let e = c.add_export(&ComponentExport { name: "v", kind: ComponentExternalKind::Value, index: 0 }, 2).unwrap_err();
    assert_eq!(e.kind, ErrorKind::UnsupportedConstruct);
    let tag = ExportDecl { name: "t".to_string(), kind: ExternalKind::Tag, index: 0 };
    let e = c.add_instance(InstanceDecl::FromExports(vec![tag]), 1).unwrap_err();
    assert_eq!(e.kind, ErrorKind::UnsupportedConstruct);
}

#[test]
fn aliases_land_in_their_index_space() {
    let mut c = Component::new();
    c.add_module(Module::Imported("m".to_string()));
    c.add_instance(InstanceDecl::Instantiate { module: 0, args: vec![] }, 0).unwrap();
    c.add_alias(&Alias::InstanceExport { kind: ExternalKind::Memory, instance_index: 0, name: "mem" }, 0).unwrap();
    c.add_alias(&Alias::InstanceExport { kind: ExternalKind::Table, instance_index: 0, name: "tab" }, 0).unwrap();
    c.add_alias(&Alias::InstanceExport { kind: ExternalKind::Global, instance_index: 0, name: "g" }, 0).unwrap();
    assert_eq!(c.memories, vec![CoreExport { instance: 0, name: "mem".to_string() }]);
    assert_eq!(c.tables, vec![CoreExport { instance: 0, name: "tab".to_string() }]);
    assert_eq!(c.globals, vec![CoreExport { instance: 0, name: "g".to_string() }]);
    let e = c.add_alias(&Alias::InstanceExport { kind: ExternalKind::Func, instance_index: 1, name: "f" }, 6).unwrap_err();
    assert_eq!(e.kind, ErrorKind::ValidationRejected);
}

/// A module exporting `f`, of core type `(i32) -> ()`.
fn exporting_module() -> Vec<u8> {
    let mut m = MODULE_HEADER.to_vec();
    m.extend_from_slice(&[0x01, 0x05, 0x01, 0x60, 0x01, 0x7f, 0x00]);
    m.extend_from_slice(&[0x03, 0x02, 0x01, 0x00]);
    m.extend_from_slice(&[0x07, 0x05, 0x01, 0x01, b'f', 0x00, 0x00]);
    m.extend_from_slice(&[0x0a, 0x04, 0x01, 0x02, 0x00, 0x0b]);
    m
}

#[test]
fn lifted_function_decodes_through_the_chain() {
    let module = exporting_module();
    let mut data = COMPONENT_HEADER.to_vec();
    data.extend_from_slice(&[0x01, module.len() as u8]);
    data.extend_from_slice(&module);
    data.extend_from_slice(&[0x02, 0x04, 0x01, 0x00, 0x00, 0x00]);
    data.extend_from_slice(&[0x03, 0x06, 0x01, 0x00, 0x00, 0x00, 0x01, b'f']);
    data.extend_from_slice(&[0x08, 0x06, 0x01, 0x40, 0x01, 0x00, 0x78, 0x7f]);
    data.extend_from_slice(&[0x09, 0x06, 0x01, 0x00, 0x00, 0x00, 0x00, 0x00]);
    data.extend_from_slice(&[0x0c, 0x07, 0x01, 0x03, b'r', b'u', b'n', 0x01, 0x00]);
    let c = parse(&data).unwrap().unwrap();

    assert_eq!(c.modules, vec![Module::Inline(module)]);
    assert_eq!(c.core_instances.len(), 1);
    assert_eq!(c.core_funcs, vec![CoreFunc::Aliased(CoreExport { instance: 0, name: "f".to_string() })]);
    let lifted = match &c.funcs[0] {
        Func::Lifted(l) => l,
        other => panic!("expected a lifted function, got {:?}", other),
    };
    assert_eq!(lifted.core_func, 0);
    assert_eq!(lifted.options, CanonOpts::default());
    assert_eq!(lifted.ty.params, vec![AnnotatedValtype { offset: 0, ty: Valtype::Primitive(Primtype::U32) }]);
    assert!(lifted.ty.flat_params && lifted.ty.flat_result);
    assert_eq!(lifted.ty.result, AnnotatedValtype { offset: 0, ty: Valtype::Primitive(Primtype::Unit) });
    assert_eq!(c.exports.len(), 1);
    assert_eq!((c.exports[0].name.as_str(), c.exports[0].sort, c.exports[0].index), ("run", Sort::Func, 0));
}

#[test]
fn imported_function_is_recorded_by_name() {
    let mut data = COMPONENT_HEADER.to_vec();
    data.extend_from_slice(&[0x08, 0x04, 0x01, 0x40, 0x00, 0x7f]);
    data.extend_from_slice(&[0x0b, 0x05, 0x01, 0x01, b'g', 0x01, 0x00]);
    let c = parse(&data).unwrap().unwrap();
    assert_eq!(c.funcs, vec![Func::Imported("g".to_string())]);
}

#[test]
fn lowered_function_lands_in_core_funcs() {
    let mut c = Component::new();
    c.add_module(Module::Imported("m".to_string()));
    c.add_instance(InstanceDecl::Instantiate { module: 0, args: vec![] }, 0).unwrap();
    c.add_alias(&Alias::InstanceExport { kind: ExternalKind::Memory, instance_index: 0, name: "mem" }, 0).unwrap();
    c.add_alias(&Alias::InstanceExport { kind: ExternalKind::Func, instance_index: 0, name: "realloc" }, 0).unwrap();
    let imported = wasmparser::ComponentImport { name: "log", ty: wasmparser::ComponentTypeRef::Func(0) };
    c.add_import(&imported, 0).unwrap();
    let s = sig(vec![prim(PrimitiveValType::String)], prim(PrimitiveValType::Unit));
    let opts = [CanonicalOption::Memory(0), CanonicalOption::Realloc(0)];
    c.add_lower(0, &s, &opts, 0).unwrap();
    let lowered = match &c.core_funcs[1] {
        CoreFunc::Lowered(l) => l,
        other => panic!("expected a lowered function, got {:?}", other),
    };
    assert_eq!(lowered.func, 0);
    assert_eq!(lowered.options.memory, Some(0));
    assert_eq!(lowered.options.realloc, Some(0));
    assert_eq!(lowered.ty.params, vec![AnnotatedValtype { offset: 0, ty: Valtype::Primitive(Primtype::String) }]);

    let e = c.add_lower(0, &s, &[CanonicalOption::Memory(1)], 11).unwrap_err();
    assert_eq!((e.kind, e.offset), (ErrorKind::ValidationRejected, 11));
    let e = c.add_lower(1, &s, &[], 12).unwrap_err();
    assert_eq!((e.kind, e.offset), (ErrorKind::ValidationRejected, 12));
}

#[test]
fn unsupported_imports_are_reported() {
    let mut c = Component::new();
    let imported = wasmparser::ComponentImport { name: "i", ty: wasmparser::ComponentTypeRef::Instance(0) };
    let e = c.add_import(&imported, 13).unwrap_err();
    assert_eq!((e.kind, e.offset), (ErrorKind::UnsupportedConstruct, 13));
    let imported = wasmparser::ComponentImport { name: "m", ty: wasmparser::ComponentTypeRef::Module(0) };
    c.add_import(&imported, 0).unwrap();
    assert_eq!(c.modules, vec![Module::Imported("m".to_string())]);
}

#[test]
fn instance_arguments_must_name_earlier_instances() {
    let mut c = Component::new();
    c.add_module(Module::Imported("m".to_string()));
    let arg = CoreInstantiateArg { name: "env".to_string(), instance: 0 };
    let e = c.add_instance(InstanceDecl::Instantiate { module: 0, args: vec![arg.clone()] }, 1).unwrap_err();
    assert_eq!(e.kind, ErrorKind::ValidationRejected);
    c.add_instance(InstanceDecl::Instantiate { module: 0, args: vec![] }, 2).unwrap();
    c.add_instance(InstanceDecl::Instantiate { module: 0, args: vec![arg] }, 3).unwrap();
    assert_eq!(c.core_instances.len(), 2);
}

#[test]
fn module_header_alone_decides_not_a_component() {
    let mut data = MODULE_HEADER.to_vec();
    data.extend_from_slice(&[0xff, 0xff, 0xff]);
    assert!(matches!(parse(&data), Ok(None)));
}

#[test]
fn unknown_version_is_malformed() {
    let data = [0x00, 0x61, 0x73, 0x6d, 0x02, 0x00, 0x00, 0x00];
    assert_eq!(parse_err(&data).kind, ErrorKind::MalformedBinary);
}
