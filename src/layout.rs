//! The canonical layout of function signatures: each value either crosses
//! the call boundary as individual flat slots, or, past a threshold, the
//! whole sequence is packed into linear memory at byte offsets.

use vstd::prelude::*;
use wasmparser::PrimitiveValType;
use crate::ir::{primtype_of, AnnotatedValtype, Deftype, Error, ErrorKind, FuncType, Primtype, Valtype};

verus! {

/// Most flat slots that parameters may take before they go through memory.
pub const MAX_FLAT_PARAMS: u32 = 16;

/// Most flat slots that a result may take before it goes through memory.
pub const MAX_FLAT_RESULTS: u32 = 1;

/// The shape of a defined type that a value type refers to.
#[derive(Clone, Copy, Debug, PartialEq, Eq)]
pub enum DefinedShape {
    Primitive(PrimitiveValType),
    Record,
    Variant,
    List,
    Tuple,
    Flags,
    Enum,
    Union,
    Option,
    Expected,
}

/// A value type of a signature as the validator resolved it: a primitive
/// written inline, or a reference to a defined type.
#[derive(Clone, Copy, Debug, PartialEq, Eq)]
pub enum ValtypeRef {
    Primitive(PrimitiveValType),
    Defined(DefinedShape),
}

/// A component function signature as the validator resolved it.
#[derive(Clone, Debug, PartialEq, Eq)]
pub struct FuncSignature {
    pub params: Vec<ValtypeRef>,
    pub result: ValtypeRef,
}

/// Flat slots that a primitive takes.
pub open spec fn flat_units(p: PrimitiveValType) -> nat {
    match p {
        PrimitiveValType::Unit => 0,
        PrimitiveValType::String => 2,
        _ => 1,
    }
}

/// Bytes that a primitive takes in memory.
pub open spec fn byte_units(p: PrimitiveValType) -> nat {
    match p {
        PrimitiveValType::Unit => 0,
        PrimitiveValType::Bool | PrimitiveValType::S8 | PrimitiveValType::U8 => 1,
        PrimitiveValType::S16 | PrimitiveValType::U16 => 2,
        PrimitiveValType::S32 | PrimitiveValType::U32 | PrimitiveValType::Float32 | PrimitiveValType::Char => 4,
        PrimitiveValType::S64 | PrimitiveValType::U64 | PrimitiveValType::Float64 | PrimitiveValType::String => 8,
    }
}

/// Size of a primitive in flat slots (`flat`) or in bytes.
pub open spec fn size_in(p: PrimitiveValType, flat: bool) -> nat {
    if flat {
        flat_units(p)
    } else {
        byte_units(p)
    }
}

/// Whether the layout of this value type is defined: a primitive, inline or
/// through a defined type.
pub open spec fn is_laid_out(v: ValtypeRef) -> bool {
    match v {
        ValtypeRef::Primitive(_) => true,
        ValtypeRef::Defined(DefinedShape::Primitive(_)) => true,
        _ => false,
    }
}

/// The primitive under a value type whose layout is defined.
pub open spec fn prim_of(v: ValtypeRef) -> PrimitiveValType {
    match v {
        ValtypeRef::Primitive(p) => p,
        ValtypeRef::Defined(DefinedShape::Primitive(p)) => p,
        _ => PrimitiveValType::Unit,
    }
}

pub open spec fn all_laid_out(s: Seq<ValtypeRef>) -> bool {
    forall|i: int| 0 <= i < s.len() ==> is_laid_out(#[trigger] s[i])
}

/// Summed size of a sequence of value types.
pub open spec fn total_size(s: Seq<ValtypeRef>, flat: bool) -> nat
    decreases s.len(),
{
    if s.len() == 0 {
        0
    } else {
        total_size(s.drop_last(), flat) + size_in(prim_of(s.last()), flat)
    }
}

/// The type-arena entries that one layout pass over `s` registers: one per
/// reference to a defined type, in order.
pub open spec fn arena_entries(s: Seq<ValtypeRef>) -> Seq<Deftype>
    decreases s.len(),
{
    if s.len() == 0 {
        seq![]
    } else if s.last() is Defined {
        arena_entries(s.drop_last()).push(Deftype::Primitive(primtype_of(prim_of(s.last()))))
    } else {
        arena_entries(s.drop_last())
    }
}

/// The slot of a value type, where `next` is the arena index it would get.
pub open spec fn slot(v: ValtypeRef, next: nat) -> Valtype {
    match v {
        ValtypeRef::Primitive(p) => Valtype::Primitive(primtype_of(p)),
        _ => Valtype::Idx(next as usize),
    }
}

/// Element `i` of the layout of `s`, for a pass that starts on an arena of
/// length `base`: its offset is the size of what comes before it.
pub open spec fn annotated(s: Seq<ValtypeRef>, i: int, flat: bool, base: nat) -> AnnotatedValtype {
    AnnotatedValtype {
        offset: total_size(s.take(i), flat) as u32,
        ty: slot(s[i], base + arena_entries(s.take(i)).len()),
    }
}

pub open spec fn layout_matches(r: Seq<AnnotatedValtype>, s: Seq<ValtypeRef>, flat: bool, base: nat) -> bool {
    &&& r.len() == s.len()
    &&& forall|i: int| 0 <= i < s.len() ==> #[trigger] r[i] == annotated(s, i, flat, base)
}

/// The arena entries of a pass, twice where the flat pass overflowed and the
/// byte pass ran too.
pub open spec fn passes_entries(s: Seq<ValtypeRef>, flat: bool) -> Seq<Deftype> {
    if flat {
        arena_entries(s)
    } else {
        arena_entries(s) + arena_entries(s)
    }
}

/// Whether parameters of these types cross the boundary as flat slots.
pub open spec fn params_flat(s: Seq<ValtypeRef>) -> bool {
    total_size(s, true) <= MAX_FLAT_PARAMS
}

/// Whether a result of this type crosses the boundary as flat slots.
pub open spec fn result_flat(v: ValtypeRef) -> bool {
    flat_units(prim_of(v)) <= MAX_FLAT_RESULTS
}

pub open spec fn signature_laid_out(params: Seq<ValtypeRef>, result: ValtypeRef) -> bool {
    all_laid_out(params) && is_laid_out(result)
}

proof fn lemma_take_last(s: Seq<ValtypeRef>, i: int)
    requires
        0 <= i < s.len(),
    ensures
        s.take(i + 1).drop_last() == s.take(i),
        s.take(i + 1).last() == s[i],
{
    assert(s.take(i + 1).drop_last() =~= s.take(i));
}

proof fn lemma_total_prefix(s: Seq<ValtypeRef>, i: int, flat: bool)
    requires
        0 <= i <= s.len(),
    ensures
        total_size(s.take(i), flat) <= total_size(s, flat),
    decreases s.len() - i,
{
    if i < s.len() {
        lemma_take_last(s, i);
        lemma_total_prefix(s, i + 1, flat);
    } else {
        assert(s.take(i) =~= s);
    }
}

/// Flat slots never outnumber bytes, and a slot holds at most eight bytes.
proof fn lemma_flat_within_bytes(s: Seq<ValtypeRef>)
    ensures
        total_size(s, true) <= total_size(s, false),
        total_size(s, false) <= 8 * total_size(s, true),
    decreases s.len(),
{
    if s.len() > 0 {
        lemma_flat_within_bytes(s.drop_last());
    }
}

/// Returns the number of flat slots that a primitive takes.
pub fn primitive_flat_size(ty: PrimitiveValType) -> (r: u32)
    ensures
        r == flat_units(ty),
{
    match ty {
        PrimitiveValType::Unit => 0,
        PrimitiveValType::Bool | PrimitiveValType::S8 | PrimitiveValType::U8 | PrimitiveValType::S16 | PrimitiveValType::U16
        | PrimitiveValType::S32 | PrimitiveValType::U32 | PrimitiveValType::S64 | PrimitiveValType::U64 | PrimitiveValType::Float32
        | PrimitiveValType::Float64 | PrimitiveValType::Char => 1,
        PrimitiveValType::String => 2,
    }
}

/// Returns the number of bytes that a primitive takes in memory.
pub fn primitive_byte_size(ty: PrimitiveValType) -> (r: u32)
    ensures
        r == byte_units(ty),
{
    match ty {
        PrimitiveValType::Unit => 0,
        PrimitiveValType::Bool | PrimitiveValType::S8 | PrimitiveValType::U8 => 1,
        PrimitiveValType::S16 | PrimitiveValType::U16 => 2,
        PrimitiveValType::S32 | PrimitiveValType::U32 | PrimitiveValType::Float32 | PrimitiveValType::Char => 4,
        PrimitiveValType::S64 | PrimitiveValType::U64 | PrimitiveValType::Float64 | PrimitiveValType::String => 8,
    }
}

fn primitive_size(ty: PrimitiveValType, flat: bool) -> (r: u32)
    ensures
        r == size_in(ty, flat),
{
    if flat {
        primitive_flat_size(ty)
    } else {
        primitive_byte_size(ty)
    }
}


/// Lays out a defined type at `*offset`, moving `*offset` past it, and
/// returns the arena entry that stands for it.
pub fn convert_deftype(offset: &mut u32, shape: DefinedShape, flat: bool) -> (r: Deftype)
    requires
        is_laid_out(ValtypeRef::Defined(shape)),
        *old(offset) + size_in(prim_of(ValtypeRef::Defined(shape)), flat) <= u32::MAX,
    ensures
        r == Deftype::Primitive(primtype_of(prim_of(ValtypeRef::Defined(shape)))),
        *final(offset) == *old(offset) + size_in(prim_of(ValtypeRef::Defined(shape)), flat),
{
    match shape {
        DefinedShape::Primitive(p) => {
            *offset = *offset + primitive_size(p, flat);
            Deftype::Primitive(Primtype::from(p))
        },
        _ => Deftype::Primitive(Primtype::Unit),
    }
}

/// Lays out one value type at `*offset`, moving `*offset` past it; a
/// reference to a defined type registers a new arena entry.
pub fn convert_valtype(types: &mut Vec<Deftype>, offset: &mut u32, v: ValtypeRef, flat: bool) -> (r: AnnotatedValtype)
    requires
        is_laid_out(v),
        *old(offset) + size_in(prim_of(v), flat) <= u32::MAX,
    ensures
        r.offset == *old(offset),
        r.ty == slot(v, old(types)@.len()),
        *final(offset) == *old(offset) + size_in(prim_of(v), flat),
        final(types)@ == (if v is Defined {
            old(types)@.push(Deftype::Primitive(primtype_of(prim_of(v))))
        } else {
            old(types)@
        }),
{
    match v {
        ValtypeRef::Primitive(p) => {
            let start = *offset;
            *offset = start + primitive_size(p, flat);
            AnnotatedValtype { offset: start, ty: Valtype::Primitive(Primtype::from(p)) }
        },
        ValtypeRef::Defined(shape) => {
            let index = types.len();
            let start = *offset;
            let ty = convert_deftype(offset, shape, flat);
            types.push(ty);
            AnnotatedValtype { offset: start, ty: Valtype::Idx(index) }
        },
    }
}

/// Lays out a sequence of value types from offset zero, registering arena
/// entries in order; `*offset` ends at the sequence's total size.
pub fn convert_valtypes(types: &mut Vec<Deftype>, offset: &mut u32, vals: &Vec<ValtypeRef>, flat: bool) -> (r: Vec<AnnotatedValtype>)
    requires
        all_laid_out(vals@),
        total_size(vals@, flat) <= u32::MAX,
    ensures
        layout_matches(r@, vals@, flat, old(types)@.len()),
        final(types)@ == old(types)@ + arena_entries(vals@),
        *final(offset) == total_size(vals@, flat),
{
    let ghost base = types@.len();
    let ghost s = vals@;
    *offset = 0;
    let mut r: Vec<AnnotatedValtype> = Vec::new();
    let mut i: usize = 0;
    proof {
        assert(s.take(0) =~= seq![]);
        assert(types@ =~= old(types)@ + arena_entries(s.take(0)));
    }
    while i < vals.len()
        invariant
            s == vals@,
            all_laid_out(s),
            total_size(s, flat) <= u32::MAX,
            base == old(types)@.len(),
            0 <= i <= s.len(),
            *offset == total_size(s.take(i as int), flat),
            types@ == old(types)@ + arena_entries(s.take(i as int)),
            r@.len() == i,
            forall|j: int| 0 <= j < i ==> #[trigger] r@[j] == annotated(s, j, flat, base),
        decreases s.len() - i,
    {
        proof {
            lemma_take_last(s, i as int);
            lemma_total_prefix(s, i as int + 1, flat);
        }
        let a = convert_valtype(types, offset, vals[i], flat);
        r.push(a);
        proof {
            assert(types@ =~= old(types)@ + arena_entries(s.take(i as int + 1)));
        }
        i = i + 1;
    }
    proof {
        assert(s.take(s.len() as int) =~= s);
    }
    r
}


fn value_laid_out(v: ValtypeRef) -> (r: bool)
    ensures
        r == is_laid_out(v),
{
    match v {
        ValtypeRef::Primitive(_) => true,
        ValtypeRef::Defined(DefinedShape::Primitive(_)) => true,
        _ => false,
    }
}

fn values_laid_out(vals: &Vec<ValtypeRef>) -> (r: bool)
    ensures
        r == all_laid_out(vals@),
{
    let mut i: usize = 0;
    while i < vals.len()
        invariant
            0 <= i <= vals@.len(),
            forall|j: int| 0 <= j < i ==> is_laid_out(#[trigger] vals@[j]),
        decreases vals@.len() - i,
    {
        if !value_laid_out(vals[i]) {
            return false;
        }
        i = i + 1;
    }
    true
}

/// The size of the values in bytes, where it fits in a `u32`.
fn checked_byte_size(vals: &Vec<ValtypeRef>) -> (r: Option<u32>)
    requires
        all_laid_out(vals@),
    ensures
        r == (if total_size(vals@, false) <= u32::MAX {
            Some(total_size(vals@, false) as u32)
        } else {
            None::<u32>
        }),
{
    let ghost s = vals@;
    let mut total: u64 = 0;
    let mut i: usize = 0;
    proof {
        assert(s.take(0) =~= seq![]);
    }
    while i < vals.len()
        invariant
            s == vals@,
            0 <= i <= s.len(),
            total == total_size(s.take(i as int), false),
            total <= u32::MAX,
        decreases s.len() - i,
    {
        proof {
            lemma_take_last(s, i as int);
        }
        let v = vals[i];
        let size = match v {
            ValtypeRef::Primitive(p) => primitive_byte_size(p),
            ValtypeRef::Defined(DefinedShape::Primitive(p)) => primitive_byte_size(p),
            _ => 0,
        };
        total = total + size as u64;
        if total > u32::MAX as u64 {
            proof {
                lemma_total_prefix(s, i as int + 1, false);
            }
            return None;
        }
        i = i + 1;
    }
    proof {
        assert(s.take(s.len() as int) =~= s);
    }
    Some(total as u32)
}

/// Whether the layout of a signature can be computed: every value type is
/// laid out and the parameters' byte size fits in a `u32`.
pub open spec fn layout_computable(sig: FuncSignature) -> bool {
    signature_laid_out(sig.params@, sig.result) && total_size(sig.params@, false) <= u32::MAX
}

/// The arena length where the result's layout pass starts.
pub open spec fn result_base(sig: FuncSignature, base: nat) -> nat {
    base + passes_entries(sig.params@, params_flat(sig.params@)).len() + (if !result_flat(sig.result)
        && sig.result is Defined {
        1nat
    } else {
        0nat
    })
}

/// What `convert_func_type` computes for a signature, on an arena of
/// length `base`.
pub open spec fn func_type_matches(ft: FuncType, sig: FuncSignature, base: nat) -> bool {
    let flat = params_flat(sig.params@);
    &&& ft.flat_params == flat
    &&& layout_matches(
        ft.params@,
        sig.params@,
        flat,
        if flat {
            base
        } else {
            base + arena_entries(sig.params@).len()
        },
    )
    &&& ft.flat_result == result_flat(sig.result)
    &&& ft.result == AnnotatedValtype { offset: 0, ty: slot(sig.result, result_base(sig, base)) }
}

/// Computes the canonical layout of a signature. The parameters are laid out
/// in flat slots, and again in bytes when they take more than
/// `MAX_FLAT_PARAMS` slots; likewise the result against `MAX_FLAT_RESULTS`.
/// Each pass registers its own arena entries. `at` is the offset of the
/// section that names the signature, reported by any error.
pub fn convert_func_type(types: &mut Vec<Deftype>, sig: &FuncSignature, at: u32) -> (r: Result<FuncType, Error>)
    ensures
        r is Ok <==> layout_computable(*sig),
        r matches Ok(ft) ==> func_type_matches(ft, *sig, old(types)@.len()),
        r is Ok ==> final(types)@ == old(types)@ + passes_entries(sig.params@, params_flat(sig.params@))
            + passes_entries(seq![sig.result], result_flat(sig.result)),
        r is Err ==> final(types)@ == old(types)@,
        r matches Err(e) ==> e.offset == at && (e.kind == ErrorKind::UnsupportedConstruct
            <==> !signature_laid_out(sig.params@, sig.result)) && (e.kind == ErrorKind::MalformedBinary
            <==> signature_laid_out(sig.params@, sig.result)),
{
    if !values_laid_out(&sig.params) || !value_laid_out(sig.result) {
        return Err(
            Error {
                kind: ErrorKind::UnsupportedConstruct,
                message: "compound value types are not supported".to_owned(),
                offset: at,
            },
        );
    }
    if checked_byte_size(&sig.params).is_none() {
        return Err(
            Error {
                kind: ErrorKind::MalformedBinary,
                message: "function parameters are too large".to_owned(),
                offset: at,
            },
        );
    }
    proof {
        lemma_flat_within_bytes(sig.params@);
    }
    let ghost base = types@.len();
    let mut offset: u32 = 0;
    let mut params = convert_valtypes(types, &mut offset, &sig.params, true);
    let flat_params = offset <= MAX_FLAT_PARAMS;
    if !flat_params {
        params = convert_valtypes(types, &mut offset, &sig.params, false);
    }
    let ghost rbase = types@.len();
    let ghost rs = seq![sig.result];
    proof {
        assert(rs.drop_last() =~= seq![]);
        assert(arena_entries(rs.drop_last()) =~= seq![]);
        assert(rs.last() == sig.result);
        assert(types@ =~= old(types)@ + passes_entries(sig.params@, flat_params));
    }
    let mut offset: u32 = 0;
    let mut result = convert_valtype(types, &mut offset, sig.result, true);
    let flat_result = offset <= MAX_FLAT_RESULTS;
    if !flat_result {
        offset = 0;
        result = convert_valtype(types, &mut offset, sig.result, false);
    }
    proof {
        assert(types@ =~= old(types)@ + passes_entries(sig.params@, flat_params) + passes_entries(
            rs,
            flat_result,
        ));
    }
    Ok(FuncType { params, flat_params, result, flat_result })
}


proof fn lemma_entries_prefix(s: Seq<ValtypeRef>, i: int)
    requires
        0 <= i <= s.len(),
    ensures
        arena_entries(s.take(i)).len() <= arena_entries(s).len(),
    decreases s.len() - i,
{
    if i < s.len() {
        lemma_take_last(s, i);
        lemma_entries_prefix(s, i + 1);
    } else {
        assert(s.take(i) =~= s);
    }
}

/// Whether a slot refers to the arena only below `len`.
pub open spec fn slot_in_arena(v: AnnotatedValtype, len: nat) -> bool {
    v.ty matches Valtype::Idx(k) ==> k < len
}

/// The length of the arena after `convert_func_type` on an arena of length
/// `base`.
pub open spec fn arena_after(sig: FuncSignature, base: nat) -> nat {
    base + passes_entries(sig.params@, params_flat(sig.params@)).len() + passes_entries(
        seq![sig.result],
        result_flat(sig.result),
    ).len()
}

/// Every arena index in a computed layout names an entry that the layout
/// registered.
pub proof fn lemma_slots_in_arena(ft: FuncType, sig: FuncSignature, base: nat)
    requires
        func_type_matches(ft, sig, base),
    ensures
        forall|i: int| 0 <= i < ft.params@.len() ==> slot_in_arena(#[trigger] ft.params@[i], arena_after(sig, base)),
        slot_in_arena(ft.result, arena_after(sig, base)),
{
    let s = sig.params@;
    let rs = seq![sig.result];
    assert(rs.drop_last() =~= seq![]);
    assert(arena_entries(rs.drop_last()) =~= seq![]);
    assert(rs.last() == sig.result);
    assert forall|i: int| 0 <= i < ft.params@.len() implies slot_in_arena(#[trigger] ft.params@[i], arena_after(sig, base)) by {
        if s[i] is Defined {
            lemma_take_last(s, i);
            lemma_entries_prefix(s, i + 1);
        }
    }
}

/// Parameters that take exactly `MAX_FLAT_PARAMS` flat slots are passed
/// flat, one slot more sends them through memory; a result of
/// `MAX_FLAT_RESULTS` slot is flat, one of two goes through memory.
pub proof fn lemma_flat_thresholds(ft: FuncType, sig: FuncSignature, base: nat)
    requires
        func_type_matches(ft, sig, base),
    ensures
        total_size(sig.params@, true) == 16 ==> ft.flat_params,
        total_size(sig.params@, true) == 17 ==> !ft.flat_params,
        flat_units(prim_of(sig.result)) == 1 ==> ft.flat_result,
        flat_units(prim_of(sig.result)) == 2 ==> !ft.flat_result,
{
}

} // verus!
