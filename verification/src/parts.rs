//! The typed partitions of one interface file, loaded by name from the raw
//! container bytes.
//!
//! A partition whose name is not recognized is skipped, so files produced by
//! a newer front end still load.

use vstd::prelude::*;
use crate::bytes::{str_eq, spec_u32_at, spec_u64_at, u32_at, u64_at};
use crate::index::{DeclIndex, TypeIndex, FormIndex};
use crate::records::{DeclAlias, DeclFunc, DeclMethod, DeclScope, DeclField, DeclEnum,
    DeclEnumerator, DeclVar, DeclBitfield, ScopeDescriptor, TypeBase, FunctionType,
    FundamentalType, QualifiedType, TupleType, TypeArray, ChartUnilevel, NameSourceFile,
    ExprLiteral, ExprDyad, ConstF64, MacroFunctionLike, MacroObjectLike, FormIdentifier,
    FormCharacter, FormString, FormOperator, FormNumber, FormKeyword, FormParameter,
    FormStringize, FormCatenate, FormHeader, FormParen, FormTuple, FormJunk, FormPragma, Word};
use crate::rows::{spec_row_bytes, convert_record_data};

verus! {

/// The decoded rows of a partition of this record kind.
pub open spec fn spec_rows_decl_alias(data: Seq<u8>, num: nat, disk: nat) -> Seq<DeclAlias> {
    Seq::new(num, |k: int| DeclAlias::spec_decode(spec_row_bytes(data, disk, 28, k)))
}

/// Decodes a whole partition of this record kind, normalizing row sizes.
pub fn load_rows_decl_alias(data: &[u8], num: usize, disk: usize) -> (r: Vec<DeclAlias>)
    requires
        data@.len() == num * disk,
    ensures
        r@ == spec_rows_decl_alias(data@, num as nat, disk as nat),
{
    let rows = convert_record_data(data, num, disk, 28);
    let mut r: Vec<DeclAlias> = Vec::new();
    let mut k: usize = 0;
    while k < num
        invariant
            k <= num,
            rows@.len() == num,
            forall|k2: int|
                0 <= k2 < num ==> (#[trigger] rows@[k2])@ == spec_row_bytes(
                    data@, disk as nat, 28, k2),
            r@.len() == k,
            forall|k2: int|
                0 <= k2 < k ==> r@[k2] == DeclAlias::spec_decode(spec_row_bytes(data@, disk as nat, 28, k2)),
        decreases num - k,
    {
        r.push(DeclAlias::decode(rows[k].as_slice()));
        k += 1;
    }
    proof {
        assert(r@ =~= spec_rows_decl_alias(data@, num as nat, disk as nat));
    }
    r
}

/// The decoded rows of a partition of this record kind.
pub open spec fn spec_rows_decl_func(data: Seq<u8>, num: nat, disk: nat) -> Seq<DeclFunc> {
    Seq::new(num, |k: int| DeclFunc::spec_decode(spec_row_bytes(data, disk, 32, k)))
}

/// Decodes a whole partition of this record kind, normalizing row sizes.
pub fn load_rows_decl_func(data: &[u8], num: usize, disk: usize) -> (r: Vec<DeclFunc>)
    requires
        data@.len() == num * disk,
    ensures
        r@ == spec_rows_decl_func(data@, num as nat, disk as nat),
{
    let rows = convert_record_data(data, num, disk, 32);
    let mut r: Vec<DeclFunc> = Vec::new();
    let mut k: usize = 0;
    while k < num
        invariant
            k <= num,
            rows@.len() == num,
            forall|k2: int|
                0 <= k2 < num ==> (#[trigger] rows@[k2])@ == spec_row_bytes(
                    data@, disk as nat, 32, k2),
            r@.len() == k,
            forall|k2: int|
                0 <= k2 < k ==> r@[k2] == DeclFunc::spec_decode(spec_row_bytes(data@, disk as nat, 32, k2)),
        decreases num - k,
    {
        r.push(DeclFunc::decode(rows[k].as_slice()));
        k += 1;
    }
    proof {
        assert(r@ =~= spec_rows_decl_func(data@, num as nat, disk as nat));
    }
    r
}

/// The decoded rows of a partition of this record kind.
pub open spec fn spec_rows_decl_method(data: Seq<u8>, num: nat, disk: nat) -> Seq<DeclMethod> {
    Seq::new(num, |k: int| DeclMethod::spec_decode(spec_row_bytes(data, disk, 32, k)))
}

/// Decodes a whole partition of this record kind, normalizing row sizes.
pub fn load_rows_decl_method(data: &[u8], num: usize, disk: usize) -> (r: Vec<DeclMethod>)
    requires
        data@.len() == num * disk,
    ensures
        r@ == spec_rows_decl_method(data@, num as nat, disk as nat),
{
    let rows = convert_record_data(data, num, disk, 32);
    let mut r: Vec<DeclMethod> = Vec::new();
    let mut k: usize = 0;
    while k < num
        invariant
            k <= num,
            rows@.len() == num,
            forall|k2: int|
                0 <= k2 < num ==> (#[trigger] rows@[k2])@ == spec_row_bytes(
                    data@, disk as nat, 32, k2),
            r@.len() == k,
            forall|k2: int|
                0 <= k2 < k ==> r@[k2] == DeclMethod::spec_decode(spec_row_bytes(data@, disk as nat, 32, k2)),
        decreases num - k,
    {
        r.push(DeclMethod::decode(rows[k].as_slice()));
        k += 1;
    }
    proof {
        assert(r@ =~= spec_rows_decl_method(data@, num as nat, disk as nat));
    }
    r
}

/// The decoded rows of a partition of this record kind.
pub open spec fn spec_rows_decl_scope(data: Seq<u8>, num: nat, disk: nat) -> Seq<DeclScope> {
    Seq::new(num, |k: int| DeclScope::spec_decode(spec_row_bytes(data, disk, 40, k)))
}

/// Decodes a whole partition of this record kind, normalizing row sizes.
pub fn load_rows_decl_scope(data: &[u8], num: usize, disk: usize) -> (r: Vec<DeclScope>)
    requires
        data@.len() == num * disk,
    ensures
        r@ == spec_rows_decl_scope(data@, num as nat, disk as nat),
{
    let rows = convert_record_data(data, num, disk, 40);
    let mut r: Vec<DeclScope> = Vec::new();
    let mut k: usize = 0;
    while k < num
        invariant
            k <= num,
            rows@.len() == num,
            forall|k2: int|
                0 <= k2 < num ==> (#[trigger] rows@[k2])@ == spec_row_bytes(
                    data@, disk as nat, 40, k2),
            r@.len() == k,
            forall|k2: int|
                0 <= k2 < k ==> r@[k2] == DeclScope::spec_decode(spec_row_bytes(data@, disk as nat, 40, k2)),
        decreases num - k,
    {
        r.push(DeclScope::decode(rows[k].as_slice()));
        k += 1;
    }
    proof {
        assert(r@ =~= spec_rows_decl_scope(data@, num as nat, disk as nat));
    }
    r
}

/// The decoded rows of a partition of this record kind.
pub open spec fn spec_rows_decl_field(data: Seq<u8>, num: nat, disk: nat) -> Seq<DeclField> {
    Seq::new(num, |k: int| DeclField::spec_decode(spec_row_bytes(data, disk, 32, k)))
}

/// Decodes a whole partition of this record kind, normalizing row sizes.
pub fn load_rows_decl_field(data: &[u8], num: usize, disk: usize) -> (r: Vec<DeclField>)
    requires
        data@.len() == num * disk,
    ensures
        r@ == spec_rows_decl_field(data@, num as nat, disk as nat),
{
    let rows = convert_record_data(data, num, disk, 32);
    let mut r: Vec<DeclField> = Vec::new();
    let mut k: usize = 0;
    while k < num
        invariant
            k <= num,
            rows@.len() == num,
            forall|k2: int|
                0 <= k2 < num ==> (#[trigger] rows@[k2])@ == spec_row_bytes(
                    data@, disk as nat, 32, k2),
            r@.len() == k,
            forall|k2: int|
                0 <= k2 < k ==> r@[k2] == DeclField::spec_decode(spec_row_bytes(data@, disk as nat, 32, k2)),
        decreases num - k,
    {
        r.push(DeclField::decode(rows[k].as_slice()));
        k += 1;
    }
    proof {
        assert(r@ =~= spec_rows_decl_field(data@, num as nat, disk as nat));
    }
    r
}

/// The decoded rows of a partition of this record kind.
pub open spec fn spec_rows_decl_enum(data: Seq<u8>, num: nat, disk: nat) -> Seq<DeclEnum> {
    Seq::new(num, |k: int| DeclEnum::spec_decode(spec_row_bytes(data, disk, 40, k)))
}

/// Decodes a whole partition of this record kind, normalizing row sizes.
pub fn load_rows_decl_enum(data: &[u8], num: usize, disk: usize) -> (r: Vec<DeclEnum>)
    requires
        data@.len() == num * disk,
    ensures
        r@ == spec_rows_decl_enum(data@, num as nat, disk as nat),
{
    let rows = convert_record_data(data, num, disk, 40);
    let mut r: Vec<DeclEnum> = Vec::new();
    let mut k: usize = 0;
    while k < num
        invariant
            k <= num,
            rows@.len() == num,
            forall|k2: int|
                0 <= k2 < num ==> (#[trigger] rows@[k2])@ == spec_row_bytes(
                    data@, disk as nat, 40, k2),
            r@.len() == k,
            forall|k2: int|
                0 <= k2 < k ==> r@[k2] == DeclEnum::spec_decode(spec_row_bytes(data@, disk as nat, 40, k2)),
        decreases num - k,
    {
        r.push(DeclEnum::decode(rows[k].as_slice()));
        k += 1;
    }
    proof {
        assert(r@ =~= spec_rows_decl_enum(data@, num as nat, disk as nat));
    }
    r
}

/// The decoded rows of a partition of this record kind.
pub open spec fn spec_rows_decl_enumerator(data: Seq<u8>, num: nat, disk: nat) -> Seq<DeclEnumerator> {
    Seq::new(num, |k: int| DeclEnumerator::spec_decode(spec_row_bytes(data, disk, 24, k)))
}

/// Decodes a whole partition of this record kind, normalizing row sizes.
pub fn load_rows_decl_enumerator(data: &[u8], num: usize, disk: usize) -> (r: Vec<DeclEnumerator>)
    requires
        data@.len() == num * disk,
    ensures
        r@ == spec_rows_decl_enumerator(data@, num as nat, disk as nat),
{
    let rows = convert_record_data(data, num, disk, 24);
    let mut r: Vec<DeclEnumerator> = Vec::new();
    let mut k: usize = 0;
    while k < num
        invariant
            k <= num,
            rows@.len() == num,
            forall|k2: int|
                0 <= k2 < num ==> (#[trigger] rows@[k2])@ == spec_row_bytes(
                    data@, disk as nat, 24, k2),
            r@.len() == k,
            forall|k2: int|
                0 <= k2 < k ==> r@[k2] == DeclEnumerator::spec_decode(spec_row_bytes(data@, disk as nat, 24, k2)),
        decreases num - k,
    {
        r.push(DeclEnumerator::decode(rows[k].as_slice()));
        k += 1;
    }
    proof {
        assert(r@ =~= spec_rows_decl_enumerator(data@, num as nat, disk as nat));
    }
    r
}

/// The decoded rows of a partition of this record kind.
pub open spec fn spec_rows_decl_var(data: Seq<u8>, num: nat, disk: nat) -> Seq<DeclVar> {
    Seq::new(num, |k: int| DeclVar::spec_decode(spec_row_bytes(data, disk, 32, k)))
}

/// Decodes a whole partition of this record kind, normalizing row sizes.
pub fn load_rows_decl_var(data: &[u8], num: usize, disk: usize) -> (r: Vec<DeclVar>)
    requires
        data@.len() == num * disk,
    ensures
        r@ == spec_rows_decl_var(data@, num as nat, disk as nat),
{
    let rows = convert_record_data(data, num, disk, 32);
    let mut r: Vec<DeclVar> = Vec::new();
    let mut k: usize = 0;
    while k < num
        invariant
            k <= num,
            rows@.len() == num,
            forall|k2: int|
                0 <= k2 < num ==> (#[trigger] rows@[k2])@ == spec_row_bytes(
                    data@, disk as nat, 32, k2),
            r@.len() == k,
            forall|k2: int|
                0 <= k2 < k ==> r@[k2] == DeclVar::spec_decode(spec_row_bytes(data@, disk as nat, 32, k2)),
        decreases num - k,
    {
        r.push(DeclVar::decode(rows[k].as_slice()));
        k += 1;
    }
    proof {
        assert(r@ =~= spec_rows_decl_var(data@, num as nat, disk as nat));
    }
    r
}

/// The decoded rows of a partition of this record kind.
pub open spec fn spec_rows_decl_bitfield(data: Seq<u8>, num: nat, disk: nat) -> Seq<DeclBitfield> {
    Seq::new(num, |k: int| DeclBitfield::spec_decode(spec_row_bytes(data, disk, 32, k)))
}

/// Decodes a whole partition of this record kind, normalizing row sizes.
pub fn load_rows_decl_bitfield(data: &[u8], num: usize, disk: usize) -> (r: Vec<DeclBitfield>)
    requires
        data@.len() == num * disk,
    ensures
        r@ == spec_rows_decl_bitfield(data@, num as nat, disk as nat),
{
    let rows = convert_record_data(data, num, disk, 32);
    let mut r: Vec<DeclBitfield> = Vec::new();
    let mut k: usize = 0;
    while k < num
        invariant
            k <= num,
            rows@.len() == num,
            forall|k2: int|
                0 <= k2 < num ==> (#[trigger] rows@[k2])@ == spec_row_bytes(
                    data@, disk as nat, 32, k2),
            r@.len() == k,
            forall|k2: int|
                0 <= k2 < k ==> r@[k2] == DeclBitfield::spec_decode(spec_row_bytes(data@, disk as nat, 32, k2)),
        decreases num - k,
    {
        r.push(DeclBitfield::decode(rows[k].as_slice()));
        k += 1;
    }
    proof {
        assert(r@ =~= spec_rows_decl_bitfield(data@, num as nat, disk as nat));
    }
    r
}

/// The decoded rows of a partition of this record kind.
pub open spec fn spec_rows_type_index(data: Seq<u8>, num: nat, disk: nat) -> Seq<TypeIndex> {
    Seq::new(num, |k: int| TypeIndex(spec_u32_at(spec_row_bytes(data, disk, 4, k), 0)))
}

/// Decodes a whole partition of this record kind, normalizing row sizes.
pub fn load_rows_type_index(data: &[u8], num: usize, disk: usize) -> (r: Vec<TypeIndex>)
    requires
        data@.len() == num * disk,
    ensures
        r@ == spec_rows_type_index(data@, num as nat, disk as nat),
{
    let rows = convert_record_data(data, num, disk, 4);
    let mut r: Vec<TypeIndex> = Vec::new();
    let mut k: usize = 0;
    while k < num
        invariant
            k <= num,
            rows@.len() == num,
            forall|k2: int|
                0 <= k2 < num ==> (#[trigger] rows@[k2])@ == spec_row_bytes(
                    data@, disk as nat, 4, k2),
            r@.len() == k,
            forall|k2: int|
                0 <= k2 < k ==> r@[k2] == TypeIndex(spec_u32_at(spec_row_bytes(data@, disk as nat, 4, k2), 0)),
        decreases num - k,
    {
        r.push(TypeIndex(u32_at(rows[k].as_slice(), 0)));
        k += 1;
    }
    proof {
        assert(r@ =~= spec_rows_type_index(data@, num as nat, disk as nat));
    }
    r
}

/// The decoded rows of a partition of this record kind.
pub open spec fn spec_rows_form_index(data: Seq<u8>, num: nat, disk: nat) -> Seq<FormIndex> {
    Seq::new(num, |k: int| FormIndex(spec_u32_at(spec_row_bytes(data, disk, 4, k), 0)))
}

/// Decodes a whole partition of this record kind, normalizing row sizes.
pub fn load_rows_form_index(data: &[u8], num: usize, disk: usize) -> (r: Vec<FormIndex>)
    requires
        data@.len() == num * disk,
    ensures
        r@ == spec_rows_form_index(data@, num as nat, disk as nat),
{
    let rows = convert_record_data(data, num, disk, 4);
    let mut r: Vec<FormIndex> = Vec::new();
    let mut k: usize = 0;
    while k < num
        invariant
            k <= num,
            rows@.len() == num,
            forall|k2: int|
                0 <= k2 < num ==> (#[trigger] rows@[k2])@ == spec_row_bytes(
                    data@, disk as nat, 4, k2),
            r@.len() == k,
            forall|k2: int|
                0 <= k2 < k ==> r@[k2] == FormIndex(spec_u32_at(spec_row_bytes(data@, disk as nat, 4, k2), 0)),
        decreases num - k,
    {
        r.push(FormIndex(u32_at(rows[k].as_slice(), 0)));
        k += 1;
    }
    proof {
        assert(r@ =~= spec_rows_form_index(data@, num as nat, disk as nat));
    }
    r
}

/// The decoded rows of a partition of this record kind.
pub open spec fn spec_rows_scope_descriptor(data: Seq<u8>, num: nat, disk: nat) -> Seq<ScopeDescriptor> {
    Seq::new(num, |k: int| ScopeDescriptor::spec_decode(spec_row_bytes(data, disk, 8, k)))
}

/// Decodes a whole partition of this record kind, normalizing row sizes.
pub fn load_rows_scope_descriptor(data: &[u8], num: usize, disk: usize) -> (r: Vec<ScopeDescriptor>)
    requires
        data@.len() == num * disk,
    ensures
        r@ == spec_rows_scope_descriptor(data@, num as nat, disk as nat),
{
    let rows = convert_record_data(data, num, disk, 8);
    let mut r: Vec<ScopeDescriptor> = Vec::new();
    let mut k: usize = 0;
    while k < num
        invariant
            k <= num,
            rows@.len() == num,
            forall|k2: int|
                0 <= k2 < num ==> (#[trigger] rows@[k2])@ == spec_row_bytes(
                    data@, disk as nat, 8, k2),
            r@.len() == k,
            forall|k2: int|
                0 <= k2 < k ==> r@[k2] == ScopeDescriptor::spec_decode(spec_row_bytes(data@, disk as nat, 8, k2)),
        decreases num - k,
    {
        r.push(ScopeDescriptor::decode(rows[k].as_slice()));
        k += 1;
    }
    proof {
        assert(r@ =~= spec_rows_scope_descriptor(data@, num as nat, disk as nat));
    }
    r
}

/// The decoded rows of a partition of this record kind.
pub open spec fn spec_rows_decl_index(data: Seq<u8>, num: nat, disk: nat) -> Seq<DeclIndex> {
    Seq::new(num, |k: int| DeclIndex(spec_u32_at(spec_row_bytes(data, disk, 4, k), 0)))
}

/// Decodes a whole partition of this record kind, normalizing row sizes.
pub fn load_rows_decl_index(data: &[u8], num: usize, disk: usize) -> (r: Vec<DeclIndex>)
    requires
        data@.len() == num * disk,
    ensures
        r@ == spec_rows_decl_index(data@, num as nat, disk as nat),
{
    let rows = convert_record_data(data, num, disk, 4);
    let mut r: Vec<DeclIndex> = Vec::new();
    let mut k: usize = 0;
    while k < num
        invariant
            k <= num,
            rows@.len() == num,
            forall|k2: int|
                0 <= k2 < num ==> (#[trigger] rows@[k2])@ == spec_row_bytes(
                    data@, disk as nat, 4, k2),
            r@.len() == k,
            forall|k2: int|
                0 <= k2 < k ==> r@[k2] == DeclIndex(spec_u32_at(spec_row_bytes(data@, disk as nat, 4, k2), 0)),
        decreases num - k,
    {
        r.push(DeclIndex(u32_at(rows[k].as_slice(), 0)));
        k += 1;
    }
    proof {
        assert(r@ =~= spec_rows_decl_index(data@, num as nat, disk as nat));
    }
    r
}

/// The decoded rows of a partition of this record kind.
pub open spec fn spec_rows_type_base(data: Seq<u8>, num: nat, disk: nat) -> Seq<TypeBase> {
    Seq::new(num, |k: int| TypeBase::spec_decode(spec_row_bytes(data, disk, 8, k)))
}

/// Decodes a whole partition of this record kind, normalizing row sizes.
pub fn load_rows_type_base(data: &[u8], num: usize, disk: usize) -> (r: Vec<TypeBase>)
    requires
        data@.len() == num * disk,
    ensures
        r@ == spec_rows_type_base(data@, num as nat, disk as nat),
{
    let rows = convert_record_data(data, num, disk, 8);
    let mut r: Vec<TypeBase> = Vec::new();
    let mut k: usize = 0;
    while k < num
        invariant
            k <= num,
            rows@.len() == num,
            forall|k2: int|
                0 <= k2 < num ==> (#[trigger] rows@[k2])@ == spec_row_bytes(
                    data@, disk as nat, 8, k2),
            r@.len() == k,
            forall|k2: int|
                0 <= k2 < k ==> r@[k2] == TypeBase::spec_decode(spec_row_bytes(data@, disk as nat, 8, k2)),
        decreases num - k,
    {
        r.push(TypeBase::decode(rows[k].as_slice()));
        k += 1;
    }
    proof {
        assert(r@ =~= spec_rows_type_base(data@, num as nat, disk as nat));
    }
    r
}

/// The decoded rows of a partition of this record kind.
pub open spec fn spec_rows_function_type(data: Seq<u8>, num: nat, disk: nat) -> Seq<FunctionType> {
    Seq::new(num, |k: int| FunctionType::spec_decode(spec_row_bytes(data, disk, 20, k)))
}

/// Decodes a whole partition of this record kind, normalizing row sizes.
pub fn load_rows_function_type(data: &[u8], num: usize, disk: usize) -> (r: Vec<FunctionType>)
    requires
        data@.len() == num * disk,
    ensures
        r@ == spec_rows_function_type(data@, num as nat, disk as nat),
{
    let rows = convert_record_data(data, num, disk, 20);
    let mut r: Vec<FunctionType> = Vec::new();
    let mut k: usize = 0;
    while k < num
        invariant
            k <= num,
            rows@.len() == num,
            forall|k2: int|
                0 <= k2 < num ==> (#[trigger] rows@[k2])@ == spec_row_bytes(
                    data@, disk as nat, 20, k2),
            r@.len() == k,
            forall|k2: int|
                0 <= k2 < k ==> r@[k2] == FunctionType::spec_decode(spec_row_bytes(data@, disk as nat, 20, k2)),
        decreases num - k,
    {
        r.push(FunctionType::decode(rows[k].as_slice()));
        k += 1;
    }
    proof {
        assert(r@ =~= spec_rows_function_type(data@, num as nat, disk as nat));
    }
    r
}

/// The decoded rows of a partition of this record kind.
pub open spec fn spec_rows_fundamental_type(data: Seq<u8>, num: nat, disk: nat) -> Seq<FundamentalType> {
    Seq::new(num, |k: int| FundamentalType::spec_decode(spec_row_bytes(data, disk, 4, k)))
}

/// Decodes a whole partition of this record kind, normalizing row sizes.
pub fn load_rows_fundamental_type(data: &[u8], num: usize, disk: usize) -> (r: Vec<FundamentalType>)
    requires
        data@.len() == num * disk,
    ensures
        r@ == spec_rows_fundamental_type(data@, num as nat, disk as nat),
{
    let rows = convert_record_data(data, num, disk, 4);
    let mut r: Vec<FundamentalType> = Vec::new();
    let mut k: usize = 0;
    while k < num
        invariant
            k <= num,
            rows@.len() == num,
            forall|k2: int|
                0 <= k2 < num ==> (#[trigger] rows@[k2])@ == spec_row_bytes(
                    data@, disk as nat, 4, k2),
            r@.len() == k,
            forall|k2: int|
                0 <= k2 < k ==> r@[k2] == FundamentalType::spec_decode(spec_row_bytes(data@, disk as nat, 4, k2)),
        decreases num - k,
    {
        r.push(FundamentalType::decode(rows[k].as_slice()));
        k += 1;
    }
    proof {
        assert(r@ =~= spec_rows_fundamental_type(data@, num as nat, disk as nat));
    }
    r
}

/// The decoded rows of a partition of this record kind.
pub open spec fn spec_rows_qualified_type(data: Seq<u8>, num: nat, disk: nat) -> Seq<QualifiedType> {
    Seq::new(num, |k: int| QualifiedType::spec_decode(spec_row_bytes(data, disk, 8, k)))
}

/// Decodes a whole partition of this record kind, normalizing row sizes.
pub fn load_rows_qualified_type(data: &[u8], num: usize, disk: usize) -> (r: Vec<QualifiedType>)
    requires
        data@.len() == num * disk,
    ensures
        r@ == spec_rows_qualified_type(data@, num as nat, disk as nat),
{
    let rows = convert_record_data(data, num, disk, 8);
    let mut r: Vec<QualifiedType> = Vec::new();
    let mut k: usize = 0;
    while k < num
        invariant
            k <= num,
            rows@.len() == num,
            forall|k2: int|
                0 <= k2 < num ==> (#[trigger] rows@[k2])@ == spec_row_bytes(
                    data@, disk as nat, 8, k2),
            r@.len() == k,
            forall|k2: int|
                0 <= k2 < k ==> r@[k2] == QualifiedType::spec_decode(spec_row_bytes(data@, disk as nat, 8, k2)),
        decreases num - k,
    {
        r.push(QualifiedType::decode(rows[k].as_slice()));
        k += 1;
    }
    proof {
        assert(r@ =~= spec_rows_qualified_type(data@, num as nat, disk as nat));
    }
    r
}

/// The decoded rows of a partition of this record kind.
pub open spec fn spec_rows_tuple_type(data: Seq<u8>, num: nat, disk: nat) -> Seq<TupleType> {
    Seq::new(num, |k: int| TupleType::spec_decode(spec_row_bytes(data, disk, 8, k)))
}

/// Decodes a whole partition of this record kind, normalizing row sizes.
pub fn load_rows_tuple_type(data: &[u8], num: usize, disk: usize) -> (r: Vec<TupleType>)
    requires
        data@.len() == num * disk,
    ensures
        r@ == spec_rows_tuple_type(data@, num as nat, disk as nat),
{
    let rows = convert_record_data(data, num, disk, 8);
    let mut r: Vec<TupleType> = Vec::new();
    let mut k: usize = 0;
    while k < num
        invariant
            k <= num,
            rows@.len() == num,
            forall|k2: int|
                0 <= k2 < num ==> (#[trigger] rows@[k2])@ == spec_row_bytes(
                    data@, disk as nat, 8, k2),
            r@.len() == k,
            forall|k2: int|
                0 <= k2 < k ==> r@[k2] == TupleType::spec_decode(spec_row_bytes(data@, disk as nat, 8, k2)),
        decreases num - k,
    {
        r.push(TupleType::decode(rows[k].as_slice()));
        k += 1;
    }
    proof {
        assert(r@ =~= spec_rows_tuple_type(data@, num as nat, disk as nat));
    }
    r
}

/// The decoded rows of a partition of this record kind.
pub open spec fn spec_rows_type_array(data: Seq<u8>, num: nat, disk: nat) -> Seq<TypeArray> {
    Seq::new(num, |k: int| TypeArray::spec_decode(spec_row_bytes(data, disk, 8, k)))
}

/// Decodes a whole partition of this record kind, normalizing row sizes.
pub fn load_rows_type_array(data: &[u8], num: usize, disk: usize) -> (r: Vec<TypeArray>)
    requires
        data@.len() == num * disk,
    ensures
        r@ == spec_rows_type_array(data@, num as nat, disk as nat),
{
    let rows = convert_record_data(data, num, disk, 8);
    let mut r: Vec<TypeArray> = Vec::new();
    let mut k: usize = 0;
    while k < num
        invariant
            k <= num,
            rows@.len() == num,
            forall|k2: int|
                0 <= k2 < num ==> (#[trigger] rows@[k2])@ == spec_row_bytes(
                    data@, disk as nat, 8, k2),
            r@.len() == k,
            forall|k2: int|
                0 <= k2 < k ==> r@[k2] == TypeArray::spec_decode(spec_row_bytes(data@, disk as nat, 8, k2)),
        decreases num - k,
    {
        r.push(TypeArray::decode(rows[k].as_slice()));
        k += 1;
    }
    proof {
        assert(r@ =~= spec_rows_type_array(data@, num as nat, disk as nat));
    }
    r
}

/// The decoded rows of a partition of this record kind.
pub open spec fn spec_rows_chart_unilevel(data: Seq<u8>, num: nat, disk: nat) -> Seq<ChartUnilevel> {
    Seq::new(num, |k: int| ChartUnilevel::spec_decode(spec_row_bytes(data, disk, 12, k)))
}

/// Decodes a whole partition of this record kind, normalizing row sizes.
pub fn load_rows_chart_unilevel(data: &[u8], num: usize, disk: usize) -> (r: Vec<ChartUnilevel>)
    requires
        data@.len() == num * disk,
    ensures
        r@ == spec_rows_chart_unilevel(data@, num as nat, disk as nat),
{
    let rows = convert_record_data(data, num, disk, 12);
    let mut r: Vec<ChartUnilevel> = Vec::new();
    let mut k: usize = 0;
    while k < num
        invariant
            k <= num,
            rows@.len() == num,
            forall|k2: int|
                0 <= k2 < num ==> (#[trigger] rows@[k2])@ == spec_row_bytes(
                    data@, disk as nat, 12, k2),
            r@.len() == k,
            forall|k2: int|
                0 <= k2 < k ==> r@[k2] == ChartUnilevel::spec_decode(spec_row_bytes(data@, disk as nat, 12, k2)),
        decreases num - k,
    {
        r.push(ChartUnilevel::decode(rows[k].as_slice()));
        k += 1;
    }
    proof {
        assert(r@ =~= spec_rows_chart_unilevel(data@, num as nat, disk as nat));
    }
    r
}

/// The decoded rows of a partition of this record kind.
pub open spec fn spec_rows_name_source_file(data: Seq<u8>, num: nat, disk: nat) -> Seq<NameSourceFile> {
    Seq::new(num, |k: int| NameSourceFile::spec_decode(spec_row_bytes(data, disk, 8, k)))
}

/// Decodes a whole partition of this record kind, normalizing row sizes.
pub fn load_rows_name_source_file(data: &[u8], num: usize, disk: usize) -> (r: Vec<NameSourceFile>)
    requires
        data@.len() == num * disk,
    ensures
        r@ == spec_rows_name_source_file(data@, num as nat, disk as nat),
{
    let rows = convert_record_data(data, num, disk, 8);
    let mut r: Vec<NameSourceFile> = Vec::new();
    let mut k: usize = 0;
    while k < num
        invariant
            k <= num,
            rows@.len() == num,
            forall|k2: int|
                0 <= k2 < num ==> (#[trigger] rows@[k2])@ == spec_row_bytes(
                    data@, disk as nat, 8, k2),
            r@.len() == k,
            forall|k2: int|
                0 <= k2 < k ==> r@[k2] == NameSourceFile::spec_decode(spec_row_bytes(data@, disk as nat, 8, k2)),
        decreases num - k,
    {
        r.push(NameSourceFile::decode(rows[k].as_slice()));
        k += 1;
    }
    proof {
        assert(r@ =~= spec_rows_name_source_file(data@, num as nat, disk as nat));
    }
    r
}

/// The decoded rows of a partition of this record kind.
pub open spec fn spec_rows_u32(data: Seq<u8>, num: nat, disk: nat) -> Seq<u32> {
    Seq::new(num, |k: int| spec_u32_at(spec_row_bytes(data, disk, 4, k), 0))
}

/// Decodes a whole partition of this record kind, normalizing row sizes.
pub fn load_rows_u32(data: &[u8], num: usize, disk: usize) -> (r: Vec<u32>)
    requires
        data@.len() == num * disk,
    ensures
        r@ == spec_rows_u32(data@, num as nat, disk as nat),
{
    let rows = convert_record_data(data, num, disk, 4);
    let mut r: Vec<u32> = Vec::new();
    let mut k: usize = 0;
    while k < num
        invariant
            k <= num,
            rows@.len() == num,
            forall|k2: int|
                0 <= k2 < num ==> (#[trigger] rows@[k2])@ == spec_row_bytes(
                    data@, disk as nat, 4, k2),
            r@.len() == k,
            forall|k2: int|
                0 <= k2 < k ==> r@[k2] == spec_u32_at(spec_row_bytes(data@, disk as nat, 4, k2), 0),
        decreases num - k,
    {
        r.push(u32_at(rows[k].as_slice(), 0));
        k += 1;
    }
    proof {
        assert(r@ =~= spec_rows_u32(data@, num as nat, disk as nat));
    }
    r
}

/// The decoded rows of a partition of this record kind.
pub open spec fn spec_rows_expr_literal(data: Seq<u8>, num: nat, disk: nat) -> Seq<ExprLiteral> {
    Seq::new(num, |k: int| ExprLiteral::spec_decode(spec_row_bytes(data, disk, 16, k)))
}

/// Decodes a whole partition of this record kind, normalizing row sizes.
pub fn load_rows_expr_literal(data: &[u8], num: usize, disk: usize) -> (r: Vec<ExprLiteral>)
    requires
        data@.len() == num * disk,
    ensures
        r@ == spec_rows_expr_literal(data@, num as nat, disk as nat),
{
    let rows = convert_record_data(data, num, disk, 16);
    let mut r: Vec<ExprLiteral> = Vec::new();
    let mut k: usize = 0;
    while k < num
        invariant
            k <= num,
            rows@.len() == num,
            forall|k2: int|
                0 <= k2 < num ==> (#[trigger] rows@[k2])@ == spec_row_bytes(
                    data@, disk as nat, 16, k2),
            r@.len() == k,
            forall|k2: int|
                0 <= k2 < k ==> r@[k2] == ExprLiteral::spec_decode(spec_row_bytes(data@, disk as nat, 16, k2)),
        decreases num - k,
    {
        r.push(ExprLiteral::decode(rows[k].as_slice()));
        k += 1;
    }
    proof {
        assert(r@ =~= spec_rows_expr_literal(data@, num as nat, disk as nat));
    }
    r
}

/// The decoded rows of a partition of this record kind.
pub open spec fn spec_rows_expr_dyad(data: Seq<u8>, num: nat, disk: nat) -> Seq<ExprDyad> {
    Seq::new(num, |k: int| ExprDyad::spec_decode(spec_row_bytes(data, disk, 28, k)))
}

/// Decodes a whole partition of this record kind, normalizing row sizes.
pub fn load_rows_expr_dyad(data: &[u8], num: usize, disk: usize) -> (r: Vec<ExprDyad>)
    requires
        data@.len() == num * disk,
    ensures
        r@ == spec_rows_expr_dyad(data@, num as nat, disk as nat),
{
    let rows = convert_record_data(data, num, disk, 28);
    let mut r: Vec<ExprDyad> = Vec::new();
    let mut k: usize = 0;
    while k < num
        invariant
            k <= num,
            rows@.len() == num,
            forall|k2: int|
                0 <= k2 < num ==> (#[trigger] rows@[k2])@ == spec_row_bytes(
                    data@, disk as nat, 28, k2),
            r@.len() == k,
            forall|k2: int|
                0 <= k2 < k ==> r@[k2] == ExprDyad::spec_decode(spec_row_bytes(data@, disk as nat, 28, k2)),
        decreases num - k,
    {
        r.push(ExprDyad::decode(rows[k].as_slice()));
        k += 1;
    }
    proof {
        assert(r@ =~= spec_rows_expr_dyad(data@, num as nat, disk as nat));
    }
    r
}

/// The decoded rows of a partition of this record kind.
pub open spec fn spec_rows_u64(data: Seq<u8>, num: nat, disk: nat) -> Seq<u64> {
    Seq::new(num, |k: int| spec_u64_at(spec_row_bytes(data, disk, 8, k), 0))
}

/// Decodes a whole partition of this record kind, normalizing row sizes.
pub fn load_rows_u64(data: &[u8], num: usize, disk: usize) -> (r: Vec<u64>)
    requires
        data@.len() == num * disk,
    ensures
        r@ == spec_rows_u64(data@, num as nat, disk as nat),
{
    let rows = convert_record_data(data, num, disk, 8);
    let mut r: Vec<u64> = Vec::new();
    let mut k: usize = 0;
    while k < num
        invariant
            k <= num,
            rows@.len() == num,
            forall|k2: int|
                0 <= k2 < num ==> (#[trigger] rows@[k2])@ == spec_row_bytes(
                    data@, disk as nat, 8, k2),
            r@.len() == k,
            forall|k2: int|
                0 <= k2 < k ==> r@[k2] == spec_u64_at(spec_row_bytes(data@, disk as nat, 8, k2), 0),
        decreases num - k,
    {
        r.push(u64_at(rows[k].as_slice(), 0));
        k += 1;
    }
    proof {
        assert(r@ =~= spec_rows_u64(data@, num as nat, disk as nat));
    }
    r
}

/// The decoded rows of a partition of this record kind.
pub open spec fn spec_rows_const_f64(data: Seq<u8>, num: nat, disk: nat) -> Seq<ConstF64> {
    Seq::new(num, |k: int| ConstF64::spec_decode(spec_row_bytes(data, disk, 12, k)))
}

/// Decodes a whole partition of this record kind, normalizing row sizes.
pub fn load_rows_const_f64(data: &[u8], num: usize, disk: usize) -> (r: Vec<ConstF64>)
    requires
        data@.len() == num * disk,
    ensures
        r@ == spec_rows_const_f64(data@, num as nat, disk as nat),
{
    let rows = convert_record_data(data, num, disk, 12);
    let mut r: Vec<ConstF64> = Vec::new();
    let mut k: usize = 0;
    while k < num
        invariant
            k <= num,
            rows@.len() == num,
            forall|k2: int|
                0 <= k2 < num ==> (#[trigger] rows@[k2])@ == spec_row_bytes(
                    data@, disk as nat, 12, k2),
            r@.len() == k,
            forall|k2: int|
                0 <= k2 < k ==> r@[k2] == ConstF64::spec_decode(spec_row_bytes(data@, disk as nat, 12, k2)),
        decreases num - k,
    {
        r.push(ConstF64::decode(rows[k].as_slice()));
        k += 1;
    }
    proof {
        assert(r@ =~= spec_rows_const_f64(data@, num as nat, disk as nat));
    }
    r
}

/// The decoded rows of a partition of this record kind.
pub open spec fn spec_rows_macro_function_like(data: Seq<u8>, num: nat, disk: nat) -> Seq<MacroFunctionLike> {
    Seq::new(num, |k: int| MacroFunctionLike::spec_decode(spec_row_bytes(data, disk, 24, k)))
}

/// Decodes a whole partition of this record kind, normalizing row sizes.
pub fn load_rows_macro_function_like(data: &[u8], num: usize, disk: usize) -> (r: Vec<MacroFunctionLike>)
    requires
        data@.len() == num * disk,
    ensures
        r@ == spec_rows_macro_function_like(data@, num as nat, disk as nat),
{
    let rows = convert_record_data(data, num, disk, 24);
    let mut r: Vec<MacroFunctionLike> = Vec::new();
    let mut k: usize = 0;
    while k < num
        invariant
            k <= num,
            rows@.len() == num,
            forall|k2: int|
                0 <= k2 < num ==> (#[trigger] rows@[k2])@ == spec_row_bytes(
                    data@, disk as nat, 24, k2),
            r@.len() == k,
            forall|k2: int|
                0 <= k2 < k ==> r@[k2] == MacroFunctionLike::spec_decode(spec_row_bytes(data@, disk as nat, 24, k2)),
        decreases num - k,
    {
        r.push(MacroFunctionLike::decode(rows[k].as_slice()));
        k += 1;
    }
    proof {
        assert(r@ =~= spec_rows_macro_function_like(data@, num as nat, disk as nat));
    }
    r
}

/// The decoded rows of a partition of this record kind.
pub open spec fn spec_rows_macro_object_like(data: Seq<u8>, num: nat, disk: nat) -> Seq<MacroObjectLike> {
    Seq::new(num, |k: int| MacroObjectLike::spec_decode(spec_row_bytes(data, disk, 16, k)))
}

/// Decodes a whole partition of this record kind, normalizing row sizes.
pub fn load_rows_macro_object_like(data: &[u8], num: usize, disk: usize) -> (r: Vec<MacroObjectLike>)
    requires
        data@.len() == num * disk,
    ensures
        r@ == spec_rows_macro_object_like(data@, num as nat, disk as nat),
{
    let rows = convert_record_data(data, num, disk, 16);
    let mut r: Vec<MacroObjectLike> = Vec::new();
    let mut k: usize = 0;
    while k < num
        invariant
            k <= num,
            rows@.len() == num,
            forall|k2: int|
                0 <= k2 < num ==> (#[trigger] rows@[k2])@ == spec_row_bytes(
                    data@, disk as nat, 16, k2),
            r@.len() == k,
            forall|k2: int|
                0 <= k2 < k ==> r@[k2] == MacroObjectLike::spec_decode(spec_row_bytes(data@, disk as nat, 16, k2)),
        decreases num - k,
    {
        r.push(MacroObjectLike::decode(rows[k].as_slice()));
        k += 1;
    }
    proof {
        assert(r@ =~= spec_rows_macro_object_like(data@, num as nat, disk as nat));
    }
    r
}

/// The decoded rows of a partition of this record kind.
pub open spec fn spec_rows_form_identifier(data: Seq<u8>, num: nat, disk: nat) -> Seq<FormIdentifier> {
    Seq::new(num, |k: int| FormIdentifier::spec_decode(spec_row_bytes(data, disk, 12, k)))
}

/// Decodes a whole partition of this record kind, normalizing row sizes.
pub fn load_rows_form_identifier(data: &[u8], num: usize, disk: usize) -> (r: Vec<FormIdentifier>)
    requires
        data@.len() == num * disk,
    ensures
        r@ == spec_rows_form_identifier(data@, num as nat, disk as nat),
{
    let rows = convert_record_data(data, num, disk, 12);
    let mut r: Vec<FormIdentifier> = Vec::new();
    let mut k: usize = 0;
    while k < num
        invariant
            k <= num,
            rows@.len() == num,
            forall|k2: int|
                0 <= k2 < num ==> (#[trigger] rows@[k2])@ == spec_row_bytes(
                    data@, disk as nat, 12, k2),
            r@.len() == k,
            forall|k2: int|
                0 <= k2 < k ==> r@[k2] == FormIdentifier::spec_decode(spec_row_bytes(data@, disk as nat, 12, k2)),
        decreases num - k,
    {
        r.push(FormIdentifier::decode(rows[k].as_slice()));
        k += 1;
    }
    proof {
        assert(r@ =~= spec_rows_form_identifier(data@, num as nat, disk as nat));
    }
    r
}

/// The decoded rows of a partition of this record kind.
pub open spec fn spec_rows_form_character(data: Seq<u8>, num: nat, disk: nat) -> Seq<FormCharacter> {
    Seq::new(num, |k: int| FormCharacter::spec_decode(spec_row_bytes(data, disk, 12, k)))
}

/// Decodes a whole partition of this record kind, normalizing row sizes.
pub fn load_rows_form_character(data: &[u8], num: usize, disk: usize) -> (r: Vec<FormCharacter>)
    requires
        data@.len() == num * disk,
    ensures
        r@ == spec_rows_form_character(data@, num as nat, disk as nat),
{
    let rows = convert_record_data(data, num, disk, 12);
    let mut r: Vec<FormCharacter> = Vec::new();
    let mut k: usize = 0;
    while k < num
        invariant
            k <= num,
            rows@.len() == num,
            forall|k2: int|
                0 <= k2 < num ==> (#[trigger] rows@[k2])@ == spec_row_bytes(
                    data@, disk as nat, 12, k2),
            r@.len() == k,
            forall|k2: int|
                0 <= k2 < k ==> r@[k2] == FormCharacter::spec_decode(spec_row_bytes(data@, disk as nat, 12, k2)),
        decreases num - k,
    {
        r.push(FormCharacter::decode(rows[k].as_slice()));
        k += 1;
    }
    proof {
        assert(r@ =~= spec_rows_form_character(data@, num as nat, disk as nat));
    }
    r
}

/// The decoded rows of a partition of this record kind.
pub open spec fn spec_rows_form_string(data: Seq<u8>, num: nat, disk: nat) -> Seq<FormString> {
    Seq::new(num, |k: int| FormString::spec_decode(spec_row_bytes(data, disk, 12, k)))
}

/// Decodes a whole partition of this record kind, normalizing row sizes.
pub fn load_rows_form_string(data: &[u8], num: usize, disk: usize) -> (r: Vec<FormString>)
    requires
        data@.len() == num * disk,
    ensures
        r@ == spec_rows_form_string(data@, num as nat, disk as nat),
{
    let rows = convert_record_data(data, num, disk, 12);
    let mut r: Vec<FormString> = Vec::new();
    let mut k: usize = 0;
    while k < num
        invariant
            k <= num,
            rows@.len() == num,
            forall|k2: int|
                0 <= k2 < num ==> (#[trigger] rows@[k2])@ == spec_row_bytes(
                    data@, disk as nat, 12, k2),
            r@.len() == k,
            forall|k2: int|
                0 <= k2 < k ==> r@[k2] == FormString::spec_decode(spec_row_bytes(data@, disk as nat, 12, k2)),
        decreases num - k,
    {
        r.push(FormString::decode(rows[k].as_slice()));
        k += 1;
    }
    proof {
        assert(r@ =~= spec_rows_form_string(data@, num as nat, disk as nat));
    }
    r
}

/// The decoded rows of a partition of this record kind.
pub open spec fn spec_rows_form_operator(data: Seq<u8>, num: nat, disk: nat) -> Seq<FormOperator> {
    Seq::new(num, |k: int| FormOperator::spec_decode(spec_row_bytes(data, disk, 16, k)))
}

/// Decodes a whole partition of this record kind, normalizing row sizes.
pub fn load_rows_form_operator(data: &[u8], num: usize, disk: usize) -> (r: Vec<FormOperator>)
    requires
        data@.len() == num * disk,
    ensures
        r@ == spec_rows_form_operator(data@, num as nat, disk as nat),
{
    let rows = convert_record_data(data, num, disk, 16);
    let mut r: Vec<FormOperator> = Vec::new();
    let mut k: usize = 0;
    while k < num
        invariant
            k <= num,
            rows@.len() == num,
            forall|k2: int|
                0 <= k2 < num ==> (#[trigger] rows@[k2])@ == spec_row_bytes(
                    data@, disk as nat, 16, k2),
            r@.len() == k,
            forall|k2: int|
                0 <= k2 < k ==> r@[k2] == FormOperator::spec_decode(spec_row_bytes(data@, disk as nat, 16, k2)),
        decreases num - k,
    {
        r.push(FormOperator::decode(rows[k].as_slice()));
        k += 1;
    }
    proof {
        assert(r@ =~= spec_rows_form_operator(data@, num as nat, disk as nat));
    }
    r
}

/// The decoded rows of a partition of this record kind.
pub open spec fn spec_rows_form_number(data: Seq<u8>, num: nat, disk: nat) -> Seq<FormNumber> {
    Seq::new(num, |k: int| FormNumber::spec_decode(spec_row_bytes(data, disk, 12, k)))
}

/// Decodes a whole partition of this record kind, normalizing row sizes.
pub fn load_rows_form_number(data: &[u8], num: usize, disk: usize) -> (r: Vec<FormNumber>)
    requires
        data@.len() == num * disk,
    ensures
        r@ == spec_rows_form_number(data@, num as nat, disk as nat),
{
    let rows = convert_record_data(data, num, disk, 12);
    let mut r: Vec<FormNumber> = Vec::new();
    let mut k: usize = 0;
    while k < num
        invariant
            k <= num,
            rows@.len() == num,
            forall|k2: int|
                0 <= k2 < num ==> (#[trigger] rows@[k2])@ == spec_row_bytes(
                    data@, disk as nat, 12, k2),
            r@.len() == k,
            forall|k2: int|
                0 <= k2 < k ==> r@[k2] == FormNumber::spec_decode(spec_row_bytes(data@, disk as nat, 12, k2)),
        decreases num - k,
    {
        r.push(FormNumber::decode(rows[k].as_slice()));
        k += 1;
    }
    proof {
        assert(r@ =~= spec_rows_form_number(data@, num as nat, disk as nat));
    }
    r
}

/// The decoded rows of a partition of this record kind.
pub open spec fn spec_rows_form_keyword(data: Seq<u8>, num: nat, disk: nat) -> Seq<FormKeyword> {
    Seq::new(num, |k: int| FormKeyword::spec_decode(spec_row_bytes(data, disk, 12, k)))
}

/// Decodes a whole partition of this record kind, normalizing row sizes.
pub fn load_rows_form_keyword(data: &[u8], num: usize, disk: usize) -> (r: Vec<FormKeyword>)
    requires
        data@.len() == num * disk,
    ensures
        r@ == spec_rows_form_keyword(data@, num as nat, disk as nat),
{
    let rows = convert_record_data(data, num, disk, 12);
    let mut r: Vec<FormKeyword> = Vec::new();
    let mut k: usize = 0;
    while k < num
        invariant
            k <= num,
            rows@.len() == num,
            forall|k2: int|
                0 <= k2 < num ==> (#[trigger] rows@[k2])@ == spec_row_bytes(
                    data@, disk as nat, 12, k2),
            r@.len() == k,
            forall|k2: int|
                0 <= k2 < k ==> r@[k2] == FormKeyword::spec_decode(spec_row_bytes(data@, disk as nat, 12, k2)),
        decreases num - k,
    {
        r.push(FormKeyword::decode(rows[k].as_slice()));
        k += 1;
    }
    proof {
        assert(r@ =~= spec_rows_form_keyword(data@, num as nat, disk as nat));
    }
    r
}

/// The decoded rows of a partition of this record kind.
pub open spec fn spec_rows_form_parameter(data: Seq<u8>, num: nat, disk: nat) -> Seq<FormParameter> {
    Seq::new(num, |k: int| FormParameter::spec_decode(spec_row_bytes(data, disk, 12, k)))
}

/// Decodes a whole partition of this record kind, normalizing row sizes.
pub fn load_rows_form_parameter(data: &[u8], num: usize, disk: usize) -> (r: Vec<FormParameter>)
    requires
        data@.len() == num * disk,
    ensures
        r@ == spec_rows_form_parameter(data@, num as nat, disk as nat),
{
    let rows = convert_record_data(data, num, disk, 12);
    let mut r: Vec<FormParameter> = Vec::new();
    let mut k: usize = 0;
    while k < num
        invariant
            k <= num,
            rows@.len() == num,
            forall|k2: int|
                0 <= k2 < num ==> (#[trigger] rows@[k2])@ == spec_row_bytes(
                    data@, disk as nat, 12, k2),
            r@.len() == k,
            forall|k2: int|
                0 <= k2 < k ==> r@[k2] == FormParameter::spec_decode(spec_row_bytes(data@, disk as nat, 12, k2)),
        decreases num - k,
    {
        r.push(FormParameter::decode(rows[k].as_slice()));
        k += 1;
    }
    proof {
        assert(r@ =~= spec_rows_form_parameter(data@, num as nat, disk as nat));
    }
    r
}

/// The decoded rows of a partition of this record kind.
pub open spec fn spec_rows_form_stringize(data: Seq<u8>, num: nat, disk: nat) -> Seq<FormStringize> {
    Seq::new(num, |k: int| FormStringize::spec_decode(spec_row_bytes(data, disk, 12, k)))
}

/// Decodes a whole partition of this record kind, normalizing row sizes.
pub fn load_rows_form_stringize(data: &[u8], num: usize, disk: usize) -> (r: Vec<FormStringize>)
    requires
        data@.len() == num * disk,
    ensures
        r@ == spec_rows_form_stringize(data@, num as nat, disk as nat),
{
    let rows = convert_record_data(data, num, disk, 12);
    let mut r: Vec<FormStringize> = Vec::new();
    let mut k: usize = 0;
    while k < num
        invariant
            k <= num,
            rows@.len() == num,
            forall|k2: int|
                0 <= k2 < num ==> (#[trigger] rows@[k2])@ == spec_row_bytes(
                    data@, disk as nat, 12, k2),
            r@.len() == k,
            forall|k2: int|
                0 <= k2 < k ==> r@[k2] == FormStringize::spec_decode(spec_row_bytes(data@, disk as nat, 12, k2)),
        decreases num - k,
    {
        r.push(FormStringize::decode(rows[k].as_slice()));
        k += 1;
    }
    proof {
        assert(r@ =~= spec_rows_form_stringize(data@, num as nat, disk as nat));
    }
    r
}

/// The decoded rows of a partition of this record kind.
pub open spec fn spec_rows_form_catenate(data: Seq<u8>, num: nat, disk: nat) -> Seq<FormCatenate> {
    Seq::new(num, |k: int| FormCatenate::spec_decode(spec_row_bytes(data, disk, 16, k)))
}

/// Decodes a whole partition of this record kind, normalizing row sizes.
pub fn load_rows_form_catenate(data: &[u8], num: usize, disk: usize) -> (r: Vec<FormCatenate>)
    requires
        data@.len() == num * disk,
    ensures
        r@ == spec_rows_form_catenate(data@, num as nat, disk as nat),
{
    let rows = convert_record_data(data, num, disk, 16);
    let mut r: Vec<FormCatenate> = Vec::new();
    let mut k: usize = 0;
    while k < num
        invariant
            k <= num,
            rows@.len() == num,
            forall|k2: int|
                0 <= k2 < num ==> (#[trigger] rows@[k2])@ == spec_row_bytes(
                    data@, disk as nat, 16, k2),
            r@.len() == k,
            forall|k2: int|
                0 <= k2 < k ==> r@[k2] == FormCatenate::spec_decode(spec_row_bytes(data@, disk as nat, 16, k2)),
        decreases num - k,
    {
        r.push(FormCatenate::decode(rows[k].as_slice()));
        k += 1;
    }
    proof {
        assert(r@ =~= spec_rows_form_catenate(data@, num as nat, disk as nat));
    }
    r
}

/// The decoded rows of a partition of this record kind.
pub open spec fn spec_rows_form_header(data: Seq<u8>, num: nat, disk: nat) -> Seq<FormHeader> {
    Seq::new(num, |k: int| FormHeader::spec_decode(spec_row_bytes(data, disk, 12, k)))
}

/// Decodes a whole partition of this record kind, normalizing row sizes.
pub fn load_rows_form_header(data: &[u8], num: usize, disk: usize) -> (r: Vec<FormHeader>)
    requires
        data@.len() == num * disk,
    ensures
        r@ == spec_rows_form_header(data@, num as nat, disk as nat),
{
    let rows = convert_record_data(data, num, disk, 12);
    let mut r: Vec<FormHeader> = Vec::new();
    let mut k: usize = 0;
    while k < num
        invariant
            k <= num,
            rows@.len() == num,
            forall|k2: int|
                0 <= k2 < num ==> (#[trigger] rows@[k2])@ == spec_row_bytes(
                    data@, disk as nat, 12, k2),
            r@.len() == k,
            forall|k2: int|
                0 <= k2 < k ==> r@[k2] == FormHeader::spec_decode(spec_row_bytes(data@, disk as nat, 12, k2)),
        decreases num - k,
    {
        r.push(FormHeader::decode(rows[k].as_slice()));
        k += 1;
    }
    proof {
        assert(r@ =~= spec_rows_form_header(data@, num as nat, disk as nat));
    }
    r
}

/// The decoded rows of a partition of this record kind.
pub open spec fn spec_rows_form_paren(data: Seq<u8>, num: nat, disk: nat) -> Seq<FormParen> {
    Seq::new(num, |k: int| FormParen::spec_decode(spec_row_bytes(data, disk, 12, k)))
}

/// Decodes a whole partition of this record kind, normalizing row sizes.
pub fn load_rows_form_paren(data: &[u8], num: usize, disk: usize) -> (r: Vec<FormParen>)
    requires
        data@.len() == num * disk,
    ensures
        r@ == spec_rows_form_paren(data@, num as nat, disk as nat),
{
    let rows = convert_record_data(data, num, disk, 12);
    let mut r: Vec<FormParen> = Vec::new();
    let mut k: usize = 0;
    while k < num
        invariant
            k <= num,
            rows@.len() == num,
            forall|k2: int|
                0 <= k2 < num ==> (#[trigger] rows@[k2])@ == spec_row_bytes(
                    data@, disk as nat, 12, k2),
            r@.len() == k,
            forall|k2: int|
                0 <= k2 < k ==> r@[k2] == FormParen::spec_decode(spec_row_bytes(data@, disk as nat, 12, k2)),
        decreases num - k,
    {
        r.push(FormParen::decode(rows[k].as_slice()));
        k += 1;
    }
    proof {
        assert(r@ =~= spec_rows_form_paren(data@, num as nat, disk as nat));
    }
    r
}

/// The decoded rows of a partition of this record kind.
pub open spec fn spec_rows_form_tuple(data: Seq<u8>, num: nat, disk: nat) -> Seq<FormTuple> {
    Seq::new(num, |k: int| FormTuple::spec_decode(spec_row_bytes(data, disk, 8, k)))
}

/// Decodes a whole partition of this record kind, normalizing row sizes.
pub fn load_rows_form_tuple(data: &[u8], num: usize, disk: usize) -> (r: Vec<FormTuple>)
    requires
        data@.len() == num * disk,
    ensures
        r@ == spec_rows_form_tuple(data@, num as nat, disk as nat),
{
    let rows = convert_record_data(data, num, disk, 8);
    let mut r: Vec<FormTuple> = Vec::new();
    let mut k: usize = 0;
    while k < num
        invariant
            k <= num,
            rows@.len() == num,
            forall|k2: int|
                0 <= k2 < num ==> (#[trigger] rows@[k2])@ == spec_row_bytes(
                    data@, disk as nat, 8, k2),
            r@.len() == k,
            forall|k2: int|
                0 <= k2 < k ==> r@[k2] == FormTuple::spec_decode(spec_row_bytes(data@, disk as nat, 8, k2)),
        decreases num - k,
    {
        r.push(FormTuple::decode(rows[k].as_slice()));
        k += 1;
    }
    proof {
        assert(r@ =~= spec_rows_form_tuple(data@, num as nat, disk as nat));
    }
    r
}

/// The decoded rows of a partition of this record kind.
pub open spec fn spec_rows_form_junk(data: Seq<u8>, num: nat, disk: nat) -> Seq<FormJunk> {
    Seq::new(num, |k: int| FormJunk::spec_decode(spec_row_bytes(data, disk, 12, k)))
}

/// Decodes a whole partition of this record kind, normalizing row sizes.
pub fn load_rows_form_junk(data: &[u8], num: usize, disk: usize) -> (r: Vec<FormJunk>)
    requires
        data@.len() == num * disk,
    ensures
        r@ == spec_rows_form_junk(data@, num as nat, disk as nat),
{
    let rows = convert_record_data(data, num, disk, 12);
    let mut r: Vec<FormJunk> = Vec::new();
    let mut k: usize = 0;
    while k < num
        invariant
            k <= num,
            rows@.len() == num,
            forall|k2: int|
                0 <= k2 < num ==> (#[trigger] rows@[k2])@ == spec_row_bytes(
                    data@, disk as nat, 12, k2),
            r@.len() == k,
            forall|k2: int|
                0 <= k2 < k ==> r@[k2] == FormJunk::spec_decode(spec_row_bytes(data@, disk as nat, 12, k2)),
        decreases num - k,
    {
        r.push(FormJunk::decode(rows[k].as_slice()));
        k += 1;
    }
    proof {
        assert(r@ =~= spec_rows_form_junk(data@, num as nat, disk as nat));
    }
    r
}

/// The decoded rows of a partition of this record kind.
pub open spec fn spec_rows_form_pragma(data: Seq<u8>, num: nat, disk: nat) -> Seq<FormPragma> {
    Seq::new(num, |k: int| FormPragma::spec_decode(spec_row_bytes(data, disk, 12, k)))
}

/// Decodes a whole partition of this record kind, normalizing row sizes.
pub fn load_rows_form_pragma(data: &[u8], num: usize, disk: usize) -> (r: Vec<FormPragma>)
    requires
        data@.len() == num * disk,
    ensures
        r@ == spec_rows_form_pragma(data@, num as nat, disk as nat),
{
    let rows = convert_record_data(data, num, disk, 12);
    let mut r: Vec<FormPragma> = Vec::new();
    let mut k: usize = 0;
    while k < num
        invariant
            k <= num,
            rows@.len() == num,
            forall|k2: int|
                0 <= k2 < num ==> (#[trigger] rows@[k2])@ == spec_row_bytes(
                    data@, disk as nat, 12, k2),
            r@.len() == k,
            forall|k2: int|
                0 <= k2 < k ==> r@[k2] == FormPragma::spec_decode(spec_row_bytes(data@, disk as nat, 12, k2)),
        decreases num - k,
    {
        r.push(FormPragma::decode(rows[k].as_slice()));
        k += 1;
    }
    proof {
        assert(r@ =~= spec_rows_form_pragma(data@, num as nat, disk as nat));
    }
    r
}

/// The decoded rows of a partition of this record kind.
pub open spec fn spec_rows_word(data: Seq<u8>, num: nat, disk: nat) -> Seq<Word> {
    Seq::new(num, |k: int| Word::spec_decode(spec_row_bytes(data, disk, 16, k)))
}

/// Decodes a whole partition of this record kind, normalizing row sizes.
pub fn load_rows_word(data: &[u8], num: usize, disk: usize) -> (r: Vec<Word>)
    requires
        data@.len() == num * disk,
    ensures
        r@ == spec_rows_word(data@, num as nat, disk as nat),
{
    let rows = convert_record_data(data, num, disk, 16);
    let mut r: Vec<Word> = Vec::new();
    let mut k: usize = 0;
    while k < num
        invariant
            k <= num,
            rows@.len() == num,
            forall|k2: int|
                0 <= k2 < num ==> (#[trigger] rows@[k2])@ == spec_row_bytes(
                    data@, disk as nat, 16, k2),
            r@.len() == k,
            forall|k2: int|
                0 <= k2 < k ==> r@[k2] == Word::spec_decode(spec_row_bytes(data@, disk as nat, 16, k2)),
        decreases num - k,
    {
        r.push(Word::decode(rows[k].as_slice()));
        k += 1;
    }
    proof {
        assert(r@ =~= spec_rows_word(data@, num as nat, disk as nat));
    }
    r
}

/// All typed partitions of one interface file.
pub struct Parts {
    pub decl_alias: Vec<DeclAlias>,
    pub decl_function: Vec<DeclFunc>,
    pub decl_method: Vec<DeclMethod>,
    pub decl_scope: Vec<DeclScope>,
    pub decl_field: Vec<DeclField>,
    pub decl_enum: Vec<DeclEnum>,
    pub decl_enumerator: Vec<DeclEnumerator>,
    pub decl_var: Vec<DeclVar>,
    pub decl_bitfield: Vec<DeclBitfield>,
    pub heap_type: Vec<TypeIndex>,
    pub heap_form: Vec<FormIndex>,
    pub scope_desc: Vec<ScopeDescriptor>,
    pub scope_member: Vec<DeclIndex>,
    pub type_base: Vec<TypeBase>,
    pub type_function: Vec<FunctionType>,
    pub type_fundamental: Vec<FundamentalType>,
    pub type_pointer: Vec<TypeIndex>,
    pub type_qualified: Vec<QualifiedType>,
    pub type_tuple: Vec<TupleType>,
    pub type_array: Vec<TypeArray>,
    pub type_designated: Vec<DeclIndex>,
    pub type_lvalue_reference: Vec<TypeIndex>,
    pub type_rvalue_reference: Vec<TypeIndex>,
    pub type_unaligned: Vec<TypeIndex>,
    pub chart_unilevel: Vec<ChartUnilevel>,
    pub name_source_file: Vec<NameSourceFile>,
    pub command_line: Vec<u32>,
    pub expr_literal: Vec<ExprLiteral>,
    pub expr_dyad: Vec<ExprDyad>,
    pub const_i64: Vec<u64>,
    pub const_f64: Vec<ConstF64>,
    pub macro_function_like: Vec<MacroFunctionLike>,
    pub macro_object_like: Vec<MacroObjectLike>,
    pub pp_ident: Vec<FormIdentifier>,
    pub pp_char: Vec<FormCharacter>,
    pub pp_string: Vec<FormString>,
    pub pp_op: Vec<FormOperator>,
    pub pp_num: Vec<FormNumber>,
    pub pp_keyword: Vec<FormKeyword>,
    pub pp_param: Vec<FormParameter>,
    pub pp_stringize: Vec<FormStringize>,
    pub pp_catenate: Vec<FormCatenate>,
    pub pp_header: Vec<FormHeader>,
    pub pp_paren: Vec<FormParen>,
    pub pp_tuple: Vec<FormTuple>,
    pub pp_junk: Vec<FormJunk>,
    pub pp_pragma: Vec<FormPragma>,
    pub attr_basic: Vec<Word>,
}

/// Mathematical contents of every partition.
#[verifier::ext_equal]
pub ghost struct PartsView {
    pub decl_alias: Seq<DeclAlias>,
    pub decl_function: Seq<DeclFunc>,
    pub decl_method: Seq<DeclMethod>,
    pub decl_scope: Seq<DeclScope>,
    pub decl_field: Seq<DeclField>,
    pub decl_enum: Seq<DeclEnum>,
    pub decl_enumerator: Seq<DeclEnumerator>,
    pub decl_var: Seq<DeclVar>,
    pub decl_bitfield: Seq<DeclBitfield>,
    pub heap_type: Seq<TypeIndex>,
    pub heap_form: Seq<FormIndex>,
    pub scope_desc: Seq<ScopeDescriptor>,
    pub scope_member: Seq<DeclIndex>,
    pub type_base: Seq<TypeBase>,
    pub type_function: Seq<FunctionType>,
    pub type_fundamental: Seq<FundamentalType>,
    pub type_pointer: Seq<TypeIndex>,
    pub type_qualified: Seq<QualifiedType>,
    pub type_tuple: Seq<TupleType>,
    pub type_array: Seq<TypeArray>,
    pub type_designated: Seq<DeclIndex>,
    pub type_lvalue_reference: Seq<TypeIndex>,
    pub type_rvalue_reference: Seq<TypeIndex>,
    pub type_unaligned: Seq<TypeIndex>,
    pub chart_unilevel: Seq<ChartUnilevel>,
    pub name_source_file: Seq<NameSourceFile>,
    pub command_line: Seq<u32>,
    pub expr_literal: Seq<ExprLiteral>,
    pub expr_dyad: Seq<ExprDyad>,
    pub const_i64: Seq<u64>,
    pub const_f64: Seq<ConstF64>,
    pub macro_function_like: Seq<MacroFunctionLike>,
    pub macro_object_like: Seq<MacroObjectLike>,
    pub pp_ident: Seq<FormIdentifier>,
    pub pp_char: Seq<FormCharacter>,
    pub pp_string: Seq<FormString>,
    pub pp_op: Seq<FormOperator>,
    pub pp_num: Seq<FormNumber>,
    pub pp_keyword: Seq<FormKeyword>,
    pub pp_param: Seq<FormParameter>,
    pub pp_stringize: Seq<FormStringize>,
    pub pp_catenate: Seq<FormCatenate>,
    pub pp_header: Seq<FormHeader>,
    pub pp_paren: Seq<FormParen>,
    pub pp_tuple: Seq<FormTuple>,
    pub pp_junk: Seq<FormJunk>,
    pub pp_pragma: Seq<FormPragma>,
    pub attr_basic: Seq<Word>,
}

impl View for Parts {
    type V = PartsView;

    open spec fn view(&self) -> PartsView {
        PartsView {
            decl_alias: self.decl_alias@,
            decl_function: self.decl_function@,
            decl_method: self.decl_method@,
            decl_scope: self.decl_scope@,
            decl_field: self.decl_field@,
            decl_enum: self.decl_enum@,
            decl_enumerator: self.decl_enumerator@,
            decl_var: self.decl_var@,
            decl_bitfield: self.decl_bitfield@,
            heap_type: self.heap_type@,
            heap_form: self.heap_form@,
            scope_desc: self.scope_desc@,
            scope_member: self.scope_member@,
            type_base: self.type_base@,
            type_function: self.type_function@,
            type_fundamental: self.type_fundamental@,
            type_pointer: self.type_pointer@,
            type_qualified: self.type_qualified@,
            type_tuple: self.type_tuple@,
            type_array: self.type_array@,
            type_designated: self.type_designated@,
            type_lvalue_reference: self.type_lvalue_reference@,
            type_rvalue_reference: self.type_rvalue_reference@,
            type_unaligned: self.type_unaligned@,
            chart_unilevel: self.chart_unilevel@,
            name_source_file: self.name_source_file@,
            command_line: self.command_line@,
            expr_literal: self.expr_literal@,
            expr_dyad: self.expr_dyad@,
            const_i64: self.const_i64@,
            const_f64: self.const_f64@,
            macro_function_like: self.macro_function_like@,
            macro_object_like: self.macro_object_like@,
            pp_ident: self.pp_ident@,
            pp_char: self.pp_char@,
            pp_string: self.pp_string@,
            pp_op: self.pp_op@,
            pp_num: self.pp_num@,
            pp_keyword: self.pp_keyword@,
            pp_param: self.pp_param@,
            pp_stringize: self.pp_stringize@,
            pp_catenate: self.pp_catenate@,
            pp_header: self.pp_header@,
            pp_paren: self.pp_paren@,
            pp_tuple: self.pp_tuple@,
            pp_junk: self.pp_junk@,
            pp_pragma: self.pp_pragma@,
            attr_basic: self.attr_basic@,
        }
    }
}

/// The contents of a container before any partition was loaded.
pub open spec fn spec_parts_empty() -> PartsView {
    PartsView {
        decl_alias: Seq::empty(),
        decl_function: Seq::empty(),
        decl_method: Seq::empty(),
        decl_scope: Seq::empty(),
        decl_field: Seq::empty(),
        decl_enum: Seq::empty(),
        decl_enumerator: Seq::empty(),
        decl_var: Seq::empty(),
        decl_bitfield: Seq::empty(),
        heap_type: Seq::empty(),
        heap_form: Seq::empty(),
        scope_desc: Seq::empty(),
        scope_member: Seq::empty(),
        type_base: Seq::empty(),
        type_function: Seq::empty(),
        type_fundamental: Seq::empty(),
        type_pointer: Seq::empty(),
        type_qualified: Seq::empty(),
        type_tuple: Seq::empty(),
        type_array: Seq::empty(),
        type_designated: Seq::empty(),
        type_lvalue_reference: Seq::empty(),
        type_rvalue_reference: Seq::empty(),
        type_unaligned: Seq::empty(),
        chart_unilevel: Seq::empty(),
        name_source_file: Seq::empty(),
        command_line: Seq::empty(),
        expr_literal: Seq::empty(),
        expr_dyad: Seq::empty(),
        const_i64: Seq::empty(),
        const_f64: Seq::empty(),
        macro_function_like: Seq::empty(),
        macro_object_like: Seq::empty(),
        pp_ident: Seq::empty(),
        pp_char: Seq::empty(),
        pp_string: Seq::empty(),
        pp_op: Seq::empty(),
        pp_num: Seq::empty(),
        pp_keyword: Seq::empty(),
        pp_param: Seq::empty(),
        pp_stringize: Seq::empty(),
        pp_catenate: Seq::empty(),
        pp_header: Seq::empty(),
        pp_paren: Seq::empty(),
        pp_tuple: Seq::empty(),
        pp_junk: Seq::empty(),
        pp_pragma: Seq::empty(),
        attr_basic: Seq::empty(),
    }
}

impl Parts {
    /// A container with every partition empty.
    pub fn new() -> (r: Parts)
        ensures
            r@ == spec_parts_empty(),
    {
        let r = Parts {
            decl_alias: Vec::new(),
            decl_function: Vec::new(),
            decl_method: Vec::new(),
            decl_scope: Vec::new(),
            decl_field: Vec::new(),
            decl_enum: Vec::new(),
            decl_enumerator: Vec::new(),
            decl_var: Vec::new(),
            decl_bitfield: Vec::new(),
            heap_type: Vec::new(),
            heap_form: Vec::new(),
            scope_desc: Vec::new(),
            scope_member: Vec::new(),
            type_base: Vec::new(),
            type_function: Vec::new(),
            type_fundamental: Vec::new(),
            type_pointer: Vec::new(),
            type_qualified: Vec::new(),
            type_tuple: Vec::new(),
            type_array: Vec::new(),
            type_designated: Vec::new(),
            type_lvalue_reference: Vec::new(),
            type_rvalue_reference: Vec::new(),
            type_unaligned: Vec::new(),
            chart_unilevel: Vec::new(),
            name_source_file: Vec::new(),
            command_line: Vec::new(),
            expr_literal: Vec::new(),
            expr_dyad: Vec::new(),
            const_i64: Vec::new(),
            const_f64: Vec::new(),
            macro_function_like: Vec::new(),
            macro_object_like: Vec::new(),
            pp_ident: Vec::new(),
            pp_char: Vec::new(),
            pp_string: Vec::new(),
            pp_op: Vec::new(),
            pp_num: Vec::new(),
            pp_keyword: Vec::new(),
            pp_param: Vec::new(),
            pp_stringize: Vec::new(),
            pp_catenate: Vec::new(),
            pp_header: Vec::new(),
            pp_paren: Vec::new(),
            pp_tuple: Vec::new(),
            pp_junk: Vec::new(),
            pp_pragma: Vec::new(),
            attr_basic: Vec::new(),
        };
        proof {
            assert(r@ =~= spec_parts_empty());
        }
        r
    }
}

impl Default for Parts {
    /// A container with every partition empty.
    fn default() -> (r: Parts)
        ensures
            r@ == spec_parts_empty(),
    {
        Parts::new()
    }
}

/// The partition contents after one named partition image was offered to
/// the container: the matching partition is replaced by the decoded rows,
/// every other partition is unchanged, and an unknown name changes nothing.
pub open spec fn spec_load_one(
    pv: PartsView,
    name: Seq<char>,
    data: Seq<u8>,
    num: nat,
    disk: nat,
) -> PartsView {
    if name == "decl.alias"@ {
        PartsView { decl_alias: spec_rows_decl_alias(data, num, disk), ..pv }
    } else if name == "decl.function"@ {
        PartsView { decl_function: spec_rows_decl_func(data, num, disk), ..pv }
    } else if name == "decl.method"@ {
        PartsView { decl_method: spec_rows_decl_method(data, num, disk), ..pv }
    } else if name == "decl.scope"@ {
        PartsView { decl_scope: spec_rows_decl_scope(data, num, disk), ..pv }
    } else if name == "decl.field"@ {
        PartsView { decl_field: spec_rows_decl_field(data, num, disk), ..pv }
    } else if name == "decl.enum"@ {
        PartsView { decl_enum: spec_rows_decl_enum(data, num, disk), ..pv }
    } else if name == "decl.enumerator"@ {
        PartsView { decl_enumerator: spec_rows_decl_enumerator(data, num, disk), ..pv }
    } else if name == "decl.variable"@ {
        PartsView { decl_var: spec_rows_decl_var(data, num, disk), ..pv }
    } else if name == "decl.bitfield"@ {
        PartsView { decl_bitfield: spec_rows_decl_bitfield(data, num, disk), ..pv }
    } else if name == "heap.type"@ {
        PartsView { heap_type: spec_rows_type_index(data, num, disk), ..pv }
    } else if name == "heap.pp"@ {
        PartsView { heap_form: spec_rows_form_index(data, num, disk), ..pv }
    } else if name == "scope.desc"@ {
        PartsView { scope_desc: spec_rows_scope_descriptor(data, num, disk), ..pv }
    } else if name == "scope.member"@ {
        PartsView { scope_member: spec_rows_decl_index(data, num, disk), ..pv }
    } else if name == "type.base"@ {
        PartsView { type_base: spec_rows_type_base(data, num, disk), ..pv }
    } else if name == "type.function"@ {
        PartsView { type_function: spec_rows_function_type(data, num, disk), ..pv }
    } else if name == "type.fundamental"@ {
        PartsView { type_fundamental: spec_rows_fundamental_type(data, num, disk), ..pv }
    } else if name == "type.pointer"@ {
        PartsView { type_pointer: spec_rows_type_index(data, num, disk), ..pv }
    } else if name == "type.qualified"@ {
        PartsView { type_qualified: spec_rows_qualified_type(data, num, disk), ..pv }
    } else if name == "type.tuple"@ {
        PartsView { type_tuple: spec_rows_tuple_type(data, num, disk), ..pv }
    } else if name == "type.array"@ {
        PartsView { type_array: spec_rows_type_array(data, num, disk), ..pv }
    } else if name == "type.designated"@ {
        PartsView { type_designated: spec_rows_decl_index(data, num, disk), ..pv }
    } else if name == "type.lvalue-reference"@ {
        PartsView { type_lvalue_reference: spec_rows_type_index(data, num, disk), ..pv }
    } else if name == "type.rvalue-reference"@ {
        PartsView { type_rvalue_reference: spec_rows_type_index(data, num, disk), ..pv }
    } else if name == "type.unaligned"@ {
        PartsView { type_unaligned: spec_rows_type_index(data, num, disk), ..pv }
    } else if name == "chart.unilevel"@ {
        PartsView { chart_unilevel: spec_rows_chart_unilevel(data, num, disk), ..pv }
    } else if name == "name.source-file"@ {
        PartsView { name_source_file: spec_rows_name_source_file(data, num, disk), ..pv }
    } else if name == "command_line"@ {
        PartsView { command_line: spec_rows_u32(data, num, disk), ..pv }
    } else if name == "expr.literal"@ {
        PartsView { expr_literal: spec_rows_expr_literal(data, num, disk), ..pv }
    } else if name == "expr.dyad"@ {
        PartsView { expr_dyad: spec_rows_expr_dyad(data, num, disk), ..pv }
    } else if name == "const.i64"@ {
        PartsView { const_i64: spec_rows_u64(data, num, disk), ..pv }
    } else if name == "const.f64"@ {
        PartsView { const_f64: spec_rows_const_f64(data, num, disk), ..pv }
    } else if name == "macro.function-like"@ {
        PartsView { macro_function_like: spec_rows_macro_function_like(data, num, disk), ..pv }
    } else if name == "macro.object-like"@ {
        PartsView { macro_object_like: spec_rows_macro_object_like(data, num, disk), ..pv }
    } else if name == "pp.ident"@ {
        PartsView { pp_ident: spec_rows_form_identifier(data, num, disk), ..pv }
    } else if name == "pp.char"@ {
        PartsView { pp_char: spec_rows_form_character(data, num, disk), ..pv }
    } else if name == "pp.string"@ {
        PartsView { pp_string: spec_rows_form_string(data, num, disk), ..pv }
    } else if name == "pp.op"@ {
        PartsView { pp_op: spec_rows_form_operator(data, num, disk), ..pv }
    } else if name == "pp.num"@ {
        PartsView { pp_num: spec_rows_form_number(data, num, disk), ..pv }
    } else if name == "pp.key"@ {
        PartsView { pp_keyword: spec_rows_form_keyword(data, num, disk), ..pv }
    } else if name == "pp.param"@ {
        PartsView { pp_param: spec_rows_form_parameter(data, num, disk), ..pv }
    } else if name == "pp.to-string"@ {
        PartsView { pp_stringize: spec_rows_form_stringize(data, num, disk), ..pv }
    } else if name == "pp.catenate"@ {
        PartsView { pp_catenate: spec_rows_form_catenate(data, num, disk), ..pv }
    } else if name == "pp.header"@ {
        PartsView { pp_header: spec_rows_form_header(data, num, disk), ..pv }
    } else if name == "pp.paren"@ {
        PartsView { pp_paren: spec_rows_form_paren(data, num, disk), ..pv }
    } else if name == "pp.tuple"@ {
        PartsView { pp_tuple: spec_rows_form_tuple(data, num, disk), ..pv }
    } else if name == "pp.junk"@ {
        PartsView { pp_junk: spec_rows_form_junk(data, num, disk), ..pv }
    } else if name == "pp.pragma"@ {
        PartsView { pp_pragma: spec_rows_form_pragma(data, num, disk), ..pv }
    } else if name == "attr.basic"@ {
        PartsView { attr_basic: spec_rows_word(data, num, disk), ..pv }
    } else {
        pv
    }
}

impl Parts {
    /// Loads one named partition image; rows are zero-extended or truncated
    /// to the expected record size, and unrecognized names are skipped.
    pub fn load_part_data(
        &mut self,
        name: &str,
        part_data: &[u8],
        num_records: usize,
        record_size: usize,
    )
        requires
            part_data@.len() == num_records * record_size,
        ensures
            final(self)@ == spec_load_one(
                old(self)@, name@, part_data@, num_records as nat, record_size as nat),
    {
        if str_eq(name, "decl.alias") {
            self.decl_alias = load_rows_decl_alias(part_data, num_records, record_size);
        } else if str_eq(name, "decl.function") {
            self.decl_function = load_rows_decl_func(part_data, num_records, record_size);
        } else if str_eq(name, "decl.method") {
            self.decl_method = load_rows_decl_method(part_data, num_records, record_size);
        } else if str_eq(name, "decl.scope") {
            self.decl_scope = load_rows_decl_scope(part_data, num_records, record_size);
        } else if str_eq(name, "decl.field") {
            self.decl_field = load_rows_decl_field(part_data, num_records, record_size);
        } else if str_eq(name, "decl.enum") {
            self.decl_enum = load_rows_decl_enum(part_data, num_records, record_size);
        } else if str_eq(name, "decl.enumerator") {
            self.decl_enumerator = load_rows_decl_enumerator(part_data, num_records, record_size);
        } else if str_eq(name, "decl.variable") {
            self.decl_var = load_rows_decl_var(part_data, num_records, record_size);
        } else if str_eq(name, "decl.bitfield") {
            self.decl_bitfield = load_rows_decl_bitfield(part_data, num_records, record_size);
        } else if str_eq(name, "heap.type") {
            self.heap_type = load_rows_type_index(part_data, num_records, record_size);
        } else if str_eq(name, "heap.pp") {
            self.heap_form = load_rows_form_index(part_data, num_records, record_size);
        } else if str_eq(name, "scope.desc") {
            self.scope_desc = load_rows_scope_descriptor(part_data, num_records, record_size);
        } else if str_eq(name, "scope.member") {
            self.scope_member = load_rows_decl_index(part_data, num_records, record_size);
        } else if str_eq(name, "type.base") {
            self.type_base = load_rows_type_base(part_data, num_records, record_size);
        } else if str_eq(name, "type.function") {
            self.type_function = load_rows_function_type(part_data, num_records, record_size);
        } else if str_eq(name, "type.fundamental") {
            self.type_fundamental = load_rows_fundamental_type(part_data, num_records, record_size);
        } else if str_eq(name, "type.pointer") {
            self.type_pointer = load_rows_type_index(part_data, num_records, record_size);
        } else if str_eq(name, "type.qualified") {
            self.type_qualified = load_rows_qualified_type(part_data, num_records, record_size);
        } else if str_eq(name, "type.tuple") {
            self.type_tuple = load_rows_tuple_type(part_data, num_records, record_size);
        } else if str_eq(name, "type.array") {
            self.type_array = load_rows_type_array(part_data, num_records, record_size);
        } else if str_eq(name, "type.designated") {
            self.type_designated = load_rows_decl_index(part_data, num_records, record_size);
        } else if str_eq(name, "type.lvalue-reference") {
            self.type_lvalue_reference = load_rows_type_index(part_data, num_records, record_size);
        } else if str_eq(name, "type.rvalue-reference") {
            self.type_rvalue_reference = load_rows_type_index(part_data, num_records, record_size);
        } else if str_eq(name, "type.unaligned") {
            self.type_unaligned = load_rows_type_index(part_data, num_records, record_size);
        } else if str_eq(name, "chart.unilevel") {
            self.chart_unilevel = load_rows_chart_unilevel(part_data, num_records, record_size);
        } else if str_eq(name, "name.source-file") {
            self.name_source_file = load_rows_name_source_file(part_data, num_records, record_size);
        } else if str_eq(name, "command_line") {
            self.command_line = load_rows_u32(part_data, num_records, record_size);
        } else if str_eq(name, "expr.literal") {
            self.expr_literal = load_rows_expr_literal(part_data, num_records, record_size);
        } else if str_eq(name, "expr.dyad") {
            self.expr_dyad = load_rows_expr_dyad(part_data, num_records, record_size);
        } else if str_eq(name, "const.i64") {
            self.const_i64 = load_rows_u64(part_data, num_records, record_size);
        } else if str_eq(name, "const.f64") {
            self.const_f64 = load_rows_const_f64(part_data, num_records, record_size);
        } else if str_eq(name, "macro.function-like") {
            self.macro_function_like = load_rows_macro_function_like(part_data, num_records, record_size);
        } else if str_eq(name, "macro.object-like") {
            self.macro_object_like = load_rows_macro_object_like(part_data, num_records, record_size);
        } else if str_eq(name, "pp.ident") {
            self.pp_ident = load_rows_form_identifier(part_data, num_records, record_size);
        } else if str_eq(name, "pp.char") {
            self.pp_char = load_rows_form_character(part_data, num_records, record_size);
        } else if str_eq(name, "pp.string") {
            self.pp_string = load_rows_form_string(part_data, num_records, record_size);
        } else if str_eq(name, "pp.op") {
            self.pp_op = load_rows_form_operator(part_data, num_records, record_size);
        } else if str_eq(name, "pp.num") {
            self.pp_num = load_rows_form_number(part_data, num_records, record_size);
        } else if str_eq(name, "pp.key") {
            self.pp_keyword = load_rows_form_keyword(part_data, num_records, record_size);
        } else if str_eq(name, "pp.param") {
            self.pp_param = load_rows_form_parameter(part_data, num_records, record_size);
        } else if str_eq(name, "pp.to-string") {
            self.pp_stringize = load_rows_form_stringize(part_data, num_records, record_size);
        } else if str_eq(name, "pp.catenate") {
            self.pp_catenate = load_rows_form_catenate(part_data, num_records, record_size);
        } else if str_eq(name, "pp.header") {
            self.pp_header = load_rows_form_header(part_data, num_records, record_size);
        } else if str_eq(name, "pp.paren") {
            self.pp_paren = load_rows_form_paren(part_data, num_records, record_size);
        } else if str_eq(name, "pp.tuple") {
            self.pp_tuple = load_rows_form_tuple(part_data, num_records, record_size);
        } else if str_eq(name, "pp.junk") {
            self.pp_junk = load_rows_form_junk(part_data, num_records, record_size);
        } else if str_eq(name, "pp.pragma") {
            self.pp_pragma = load_rows_form_pragma(part_data, num_records, record_size);
        } else if str_eq(name, "attr.basic") {
            self.attr_basic = load_rows_word(part_data, num_records, record_size);
        }
        proof {
            assert(self@ =~= spec_load_one(
                old(self)@, name@, part_data@, num_records as nat, record_size as nat));
        }
    }
}

} // verus!
