//! Fixed-layout binary records, one struct per partition row kind, each with
//! an exact little-endian decoder.
//!
//! Missing record files for a few row kinds of the producing front end are
//! laid out after the published interface-format description.

use vstd::prelude::*;
use vstd::slice::slice_subrange;
use crate::bytes::{spec_u16_at, spec_u32_at, spec_u64_at, u8_at, u16_at, u32_at, u64_at};
use crate::index::{DeclIndex, TypeIndex, NameIndex, ExprIndex, LitIndex, FormIndex, ChartIndex,
    FormOp};
use crate::sorts::{WordSort, WordSortPunctuator, WordSortOperator, PreProcessingOpOrPunc};

verus! {

pub type ByteOffset = u32;
pub type Cardinality = u32;
pub type EntitySize = u32;
pub type Index = u32;
pub type TextOffset = u32;
pub type ScopeIndex = u32;
pub type SentenceIndex = u32;
pub type LineIndex = u32;
pub type Column = u32;
pub type PackSize = u16;
pub type UnitIndex = u32;
pub type LanguageVersion = u32;
pub type Version = u8;
pub type Abi = u8;
pub type StmtIndex = u32;
pub type SyntaxIndex = u32;

/// Packed arity and variadic flag of a function-like macro.
#[derive(Copy, Clone, PartialEq, Eq, Structural, Debug)]
pub struct ArityAndVariadic(pub u32);

impl ArityAndVariadic {
    /// The number of declared macro parameters.
    pub open spec fn spec_arity(&self) -> u32 {
        self.0 % 0x8000_0000u32
    }

    /// Whether the macro takes a trailing variadic parameter: the one bit
    /// complementary to the 31-bit arity mask.
    pub open spec fn spec_is_variadic(&self) -> bool {
        self.0 / 0x8000_0000u32 == 1
    }

    #[verifier::when_used_as_spec(spec_arity)]
    pub fn arity(&self) -> (r: u32)
        ensures
            r == self.spec_arity(),
    {
        self.0 % 0x8000_0000u32
    }

    #[verifier::when_used_as_spec(spec_is_variadic)]
    pub fn is_variadic(&self) -> (r: bool)
        ensures
            r == self.spec_is_variadic(),
    {
        self.0 / 0x8000_0000u32 == 1
    }
}

impl FormOp {
    /// The operator or punctuator this word stands for; other word sorts do
    /// not occur inside macro bodies.
    pub fn value(self) -> (r: PreProcessingOpOrPunc)
        requires
            WordSort::spec_from_u32(self.spec_tag()) == WordSort::PUNCTUATOR
                || WordSort::spec_from_u32(self.spec_tag()) == WordSort::OPERATOR,
        ensures
            WordSort::spec_from_u32(self.spec_tag()) == WordSort::PUNCTUATOR
                ==> r == PreProcessingOpOrPunc::Punctuator(
                        WordSortPunctuator::spec_from_u32(self.spec_index())),
            WordSort::spec_from_u32(self.spec_tag()) == WordSort::OPERATOR
                ==> r == PreProcessingOpOrPunc::Operator(
                        WordSortOperator::spec_from_u32(self.spec_index())),
    {
        if WordSort::from_u32(self.tag()) == WordSort::PUNCTUATOR {
            PreProcessingOpOrPunc::Punctuator(WordSortPunctuator::from_u32(self.index()))
        } else {
            PreProcessingOpOrPunc::Operator(WordSortOperator::from_u32(self.index()))
        }
    }
}

/// Line and column of a declaration in its source file.
#[derive(Copy, Clone, PartialEq, Eq, Structural, Debug)]
pub struct SourceLocation {
    pub line: LineIndex,
    pub column: Column,
}

impl SourceLocation {
    /// The record held in one 8-byte row.
    pub open spec fn spec_decode(b: Seq<u8>) -> SourceLocation {
        SourceLocation {
            line: spec_u32_at(b, 0),
            column: spec_u32_at(b, 4),
        }
    }

    /// Decodes one row of this record kind.
    pub fn decode(b: &[u8]) -> (r: SourceLocation)
        requires
            b@.len() == 8,
        ensures
            r == SourceLocation::spec_decode(b@),
    {
        SourceLocation {
            line: u32_at(b, 0),
            column: u32_at(b, 4),
        }
    }
}

/// A (start, cardinality) range into another partition.
#[derive(Copy, Clone, PartialEq, Eq, Structural, Debug)]
pub struct Sequence {
    pub start: Index,
    pub cardinality: Cardinality,
}

impl Sequence {
    /// The record held in one 8-byte row.
    pub open spec fn spec_decode(b: Seq<u8>) -> Sequence {
        Sequence {
            start: spec_u32_at(b, 0),
            cardinality: spec_u32_at(b, 4),
        }
    }

    /// Decodes one row of this record kind.
    pub fn decode(b: &[u8]) -> (r: Sequence)
        requires
            b@.len() == 8,
        ensures
            r == Sequence::spec_decode(b@),
    {
        Sequence {
            start: u32_at(b, 0),
            cardinality: u32_at(b, 4),
        }
    }
}

/// One table-of-contents entry describing a partition.
#[derive(Copy, Clone, PartialEq, Eq, Structural, Debug)]
pub struct PartitionSummary {
    pub name: TextOffset,
    pub offset: ByteOffset,
    pub cardinality: Cardinality,
    pub entity_size: EntitySize,
}

impl PartitionSummary {
    /// The record held in one 16-byte row.
    pub open spec fn spec_decode(b: Seq<u8>) -> PartitionSummary {
        PartitionSummary {
            name: spec_u32_at(b, 0),
            offset: spec_u32_at(b, 4),
            cardinality: spec_u32_at(b, 8),
            entity_size: spec_u32_at(b, 12),
        }
    }

    /// Decodes one row of this record kind.
    pub fn decode(b: &[u8]) -> (r: PartitionSummary)
        requires
            b@.len() == 16,
        ensures
            r == PartitionSummary::spec_decode(b@),
    {
        PartitionSummary {
            name: u32_at(b, 0),
            offset: u32_at(b, 4),
            cardinality: u32_at(b, 8),
            entity_size: u32_at(b, 12),
        }
    }
}

/// Member range of a scope inside the member-reference partition.
#[derive(Copy, Clone, PartialEq, Eq, Structural, Debug)]
pub struct ScopeDescriptor {
    pub start: Index,
    pub cardinality: Cardinality,
}

impl ScopeDescriptor {
    /// The record held in one 8-byte row.
    pub open spec fn spec_decode(b: Seq<u8>) -> ScopeDescriptor {
        ScopeDescriptor {
            start: spec_u32_at(b, 0),
            cardinality: spec_u32_at(b, 4),
        }
    }

    /// Decodes one row of this record kind.
    pub fn decode(b: &[u8]) -> (r: ScopeDescriptor)
        requires
            b@.len() == 8,
        ensures
            r == ScopeDescriptor::spec_decode(b@),
    {
        ScopeDescriptor {
            start: u32_at(b, 0),
            cardinality: u32_at(b, 4),
        }
    }
}

/// A type alias declaration row.
#[derive(Copy, Clone, PartialEq, Eq, Structural, Debug)]
pub struct DeclAlias {
    pub name: TextOffset,
    pub locus: SourceLocation,
    pub type_: TypeIndex,
    pub home_scope: DeclIndex,
    pub aliasee: TypeIndex,
    pub specifiers: u8,
    pub access: u8,
}

impl DeclAlias {
    /// The record held in one 28-byte row.
    pub open spec fn spec_decode(b: Seq<u8>) -> DeclAlias {
        DeclAlias {
            name: spec_u32_at(b, 0),
            locus: SourceLocation::spec_decode(b.subrange(4, 12)),
            type_: TypeIndex(spec_u32_at(b, 12)),
            home_scope: DeclIndex(spec_u32_at(b, 16)),
            aliasee: TypeIndex(spec_u32_at(b, 20)),
            specifiers: b[24],
            access: b[25],
        }
    }

    /// Decodes one row of this record kind.
    pub fn decode(b: &[u8]) -> (r: DeclAlias)
        requires
            b@.len() == 28,
        ensures
            r == DeclAlias::spec_decode(b@),
    {
        DeclAlias {
            name: u32_at(b, 0),
            locus: SourceLocation::decode(slice_subrange(b, 4, 12)),
            type_: TypeIndex(u32_at(b, 12)),
            home_scope: DeclIndex(u32_at(b, 16)),
            aliasee: TypeIndex(u32_at(b, 20)),
            specifiers: u8_at(b, 24),
            access: u8_at(b, 25),
        }
    }
}

/// A free function declaration row.
#[derive(Copy, Clone, PartialEq, Eq, Structural, Debug)]
pub struct DeclFunc {
    pub name: NameIndex,
    pub locus: SourceLocation,
    pub type_: TypeIndex,
    pub home_scope: DeclIndex,
    pub chart: ChartIndex,
    pub traits: u16,
    pub specifiers: u8,
    pub access: u8,
    pub properties: u8,
}

impl DeclFunc {
    /// The record held in one 32-byte row.
    pub open spec fn spec_decode(b: Seq<u8>) -> DeclFunc {
        DeclFunc {
            name: NameIndex(spec_u32_at(b, 0)),
            locus: SourceLocation::spec_decode(b.subrange(4, 12)),
            type_: TypeIndex(spec_u32_at(b, 12)),
            home_scope: DeclIndex(spec_u32_at(b, 16)),
            chart: ChartIndex(spec_u32_at(b, 20)),
            traits: spec_u16_at(b, 24),
            specifiers: b[26],
            access: b[27],
            properties: b[28],
        }
    }

    /// Decodes one row of this record kind.
    pub fn decode(b: &[u8]) -> (r: DeclFunc)
        requires
            b@.len() == 32,
        ensures
            r == DeclFunc::spec_decode(b@),
    {
        DeclFunc {
            name: NameIndex(u32_at(b, 0)),
            locus: SourceLocation::decode(slice_subrange(b, 4, 12)),
            type_: TypeIndex(u32_at(b, 12)),
            home_scope: DeclIndex(u32_at(b, 16)),
            chart: ChartIndex(u32_at(b, 20)),
            traits: u16_at(b, 24),
            specifiers: u8_at(b, 26),
            access: u8_at(b, 27),
            properties: u8_at(b, 28),
        }
    }
}

/// A member function declaration row.
#[derive(Copy, Clone, PartialEq, Eq, Structural, Debug)]
pub struct DeclMethod {
    pub name: NameIndex,
    pub locus: SourceLocation,
    pub type_: TypeIndex,
    pub home_scope: DeclIndex,
    pub chart: ChartIndex,
    pub traits: u16,
    pub specifiers: u8,
    pub access: u8,
    pub properties: u8,
}

impl DeclMethod {
    /// The record held in one 32-byte row.
    pub open spec fn spec_decode(b: Seq<u8>) -> DeclMethod {
        DeclMethod {
            name: NameIndex(spec_u32_at(b, 0)),
            locus: SourceLocation::spec_decode(b.subrange(4, 12)),
            type_: TypeIndex(spec_u32_at(b, 12)),
            home_scope: DeclIndex(spec_u32_at(b, 16)),
            chart: ChartIndex(spec_u32_at(b, 20)),
            traits: spec_u16_at(b, 24),
            specifiers: b[26],
            access: b[27],
            properties: b[28],
        }
    }

    /// Decodes one row of this record kind.
    pub fn decode(b: &[u8]) -> (r: DeclMethod)
        requires
            b@.len() == 32,
        ensures
            r == DeclMethod::spec_decode(b@),
    {
        DeclMethod {
            name: NameIndex(u32_at(b, 0)),
            locus: SourceLocation::decode(slice_subrange(b, 4, 12)),
            type_: TypeIndex(u32_at(b, 12)),
            home_scope: DeclIndex(u32_at(b, 16)),
            chart: ChartIndex(u32_at(b, 20)),
            traits: u16_at(b, 24),
            specifiers: u8_at(b, 26),
            access: u8_at(b, 27),
            properties: u8_at(b, 28),
        }
    }
}

/// A namespace, class, struct or union declaration row.
#[derive(Copy, Clone, PartialEq, Eq, Structural, Debug)]
pub struct DeclScope {
    pub name: NameIndex,
    pub locus: SourceLocation,
    pub ty: TypeIndex,
    pub base: TypeIndex,
    pub initializer: ScopeIndex,
    pub home_scope: DeclIndex,
    pub alignment: ExprIndex,
    pub pack_size: PackSize,
    pub specifiers: u8,
    pub traits: u8,
    pub access: u8,
    pub properties: u8,
}

impl DeclScope {
    /// The record held in one 40-byte row.
    pub open spec fn spec_decode(b: Seq<u8>) -> DeclScope {
        DeclScope {
            name: NameIndex(spec_u32_at(b, 0)),
            locus: SourceLocation::spec_decode(b.subrange(4, 12)),
            ty: TypeIndex(spec_u32_at(b, 12)),
            base: TypeIndex(spec_u32_at(b, 16)),
            initializer: spec_u32_at(b, 20),
            home_scope: DeclIndex(spec_u32_at(b, 24)),
            alignment: ExprIndex(spec_u32_at(b, 28)),
            pack_size: spec_u16_at(b, 32),
            specifiers: b[34],
            traits: b[35],
            access: b[36],
            properties: b[37],
        }
    }

    /// Decodes one row of this record kind.
    pub fn decode(b: &[u8]) -> (r: DeclScope)
        requires
            b@.len() == 40,
        ensures
            r == DeclScope::spec_decode(b@),
    {
        DeclScope {
            name: NameIndex(u32_at(b, 0)),
            locus: SourceLocation::decode(slice_subrange(b, 4, 12)),
            ty: TypeIndex(u32_at(b, 12)),
            base: TypeIndex(u32_at(b, 16)),
            initializer: u32_at(b, 20),
            home_scope: DeclIndex(u32_at(b, 24)),
            alignment: ExprIndex(u32_at(b, 28)),
            pack_size: u16_at(b, 32),
            specifiers: u8_at(b, 34),
            traits: u8_at(b, 35),
            access: u8_at(b, 36),
            properties: u8_at(b, 37),
        }
    }
}

/// A non-static data member declaration row.
#[derive(Copy, Clone, PartialEq, Eq, Structural, Debug)]
pub struct DeclField {
    pub name: TextOffset,
    pub locus: SourceLocation,
    pub ty: TypeIndex,
    pub home_scope: DeclIndex,
    pub initializer: ExprIndex,
    pub alignment: ExprIndex,
    pub traits: u8,
    pub specifier: u8,
    pub access: u8,
    pub properties: u8,
}

impl DeclField {
    /// The record held in one 32-byte row.
    pub open spec fn spec_decode(b: Seq<u8>) -> DeclField {
        DeclField {
            name: spec_u32_at(b, 0),
            locus: SourceLocation::spec_decode(b.subrange(4, 12)),
            ty: TypeIndex(spec_u32_at(b, 12)),
            home_scope: DeclIndex(spec_u32_at(b, 16)),
            initializer: ExprIndex(spec_u32_at(b, 20)),
            alignment: ExprIndex(spec_u32_at(b, 24)),
            traits: b[28],
            specifier: b[29],
            access: b[30],
            properties: b[31],
        }
    }

    /// Decodes one row of this record kind.
    pub fn decode(b: &[u8]) -> (r: DeclField)
        requires
            b@.len() == 32,
        ensures
            r == DeclField::spec_decode(b@),
    {
        DeclField {
            name: u32_at(b, 0),
            locus: SourceLocation::decode(slice_subrange(b, 4, 12)),
            ty: TypeIndex(u32_at(b, 12)),
            home_scope: DeclIndex(u32_at(b, 16)),
            initializer: ExprIndex(u32_at(b, 20)),
            alignment: ExprIndex(u32_at(b, 24)),
            traits: u8_at(b, 28),
            specifier: u8_at(b, 29),
            access: u8_at(b, 30),
            properties: u8_at(b, 31),
        }
    }
}

/// A bitfield member declaration row.
#[derive(Copy, Clone, PartialEq, Eq, Structural, Debug)]
pub struct DeclBitfield {
    pub name: TextOffset,
    pub locus: SourceLocation,
    pub ty: TypeIndex,
    pub home_scope: DeclIndex,
    pub width: ExprIndex,
    pub initializer: ExprIndex,
    pub traits: u8,
    pub specifiers: u8,
    pub access: u8,
    pub properties: u8,
}

impl DeclBitfield {
    /// The record held in one 32-byte row.
    pub open spec fn spec_decode(b: Seq<u8>) -> DeclBitfield {
        DeclBitfield {
            name: spec_u32_at(b, 0),
            locus: SourceLocation::spec_decode(b.subrange(4, 12)),
            ty: TypeIndex(spec_u32_at(b, 12)),
            home_scope: DeclIndex(spec_u32_at(b, 16)),
            width: ExprIndex(spec_u32_at(b, 20)),
            initializer: ExprIndex(spec_u32_at(b, 24)),
            traits: b[28],
            specifiers: b[29],
            access: b[30],
            properties: b[31],
        }
    }

    /// Decodes one row of this record kind.
    pub fn decode(b: &[u8]) -> (r: DeclBitfield)
        requires
            b@.len() == 32,
        ensures
            r == DeclBitfield::spec_decode(b@),
    {
        DeclBitfield {
            name: u32_at(b, 0),
            locus: SourceLocation::decode(slice_subrange(b, 4, 12)),
            ty: TypeIndex(u32_at(b, 12)),
            home_scope: DeclIndex(u32_at(b, 16)),
            width: ExprIndex(u32_at(b, 20)),
            initializer: ExprIndex(u32_at(b, 24)),
            traits: u8_at(b, 28),
            specifiers: u8_at(b, 29),
            access: u8_at(b, 30),
            properties: u8_at(b, 31),
        }
    }
}

/// An enumeration declaration row.
#[derive(Copy, Clone, PartialEq, Eq, Structural, Debug)]
pub struct DeclEnum {
    pub name: TextOffset,
    pub locus: SourceLocation,
    pub ty: TypeIndex,
    pub base: TypeIndex,
    pub initializer: Sequence,
    pub home_scope: DeclIndex,
    pub alignment: ExprIndex,
    pub specifiers: u8,
    pub access: u8,
    pub properties: u8,
}

impl DeclEnum {
    /// The record held in one 40-byte row.
    pub open spec fn spec_decode(b: Seq<u8>) -> DeclEnum {
        DeclEnum {
            name: spec_u32_at(b, 0),
            locus: SourceLocation::spec_decode(b.subrange(4, 12)),
            ty: TypeIndex(spec_u32_at(b, 12)),
            base: TypeIndex(spec_u32_at(b, 16)),
            initializer: Sequence::spec_decode(b.subrange(20, 28)),
            home_scope: DeclIndex(spec_u32_at(b, 28)),
            alignment: ExprIndex(spec_u32_at(b, 32)),
            specifiers: b[36],
            access: b[37],
            properties: b[38],
        }
    }

    /// Decodes one row of this record kind.
    pub fn decode(b: &[u8]) -> (r: DeclEnum)
        requires
            b@.len() == 40,
        ensures
            r == DeclEnum::spec_decode(b@),
    {
        DeclEnum {
            name: u32_at(b, 0),
            locus: SourceLocation::decode(slice_subrange(b, 4, 12)),
            ty: TypeIndex(u32_at(b, 12)),
            base: TypeIndex(u32_at(b, 16)),
            initializer: Sequence::decode(slice_subrange(b, 20, 28)),
            home_scope: DeclIndex(u32_at(b, 28)),
            alignment: ExprIndex(u32_at(b, 32)),
            specifiers: u8_at(b, 36),
            access: u8_at(b, 37),
            properties: u8_at(b, 38),
        }
    }
}

/// A single enumerator row of an enumeration.
#[derive(Copy, Clone, PartialEq, Eq, Structural, Debug)]
pub struct DeclEnumerator {
    pub name: TextOffset,
    pub locus: SourceLocation,
    pub ty: TypeIndex,
    pub initializer: ExprIndex,
    pub specifier: u8,
    pub access: u8,
}

impl DeclEnumerator {
    /// The record held in one 24-byte row.
    pub open spec fn spec_decode(b: Seq<u8>) -> DeclEnumerator {
        DeclEnumerator {
            name: spec_u32_at(b, 0),
            locus: SourceLocation::spec_decode(b.subrange(4, 12)),
            ty: TypeIndex(spec_u32_at(b, 12)),
            initializer: ExprIndex(spec_u32_at(b, 16)),
            specifier: b[20],
            access: b[21],
        }
    }

    /// Decodes one row of this record kind.
    pub fn decode(b: &[u8]) -> (r: DeclEnumerator)
        requires
            b@.len() == 24,
        ensures
            r == DeclEnumerator::spec_decode(b@),
    {
        DeclEnumerator {
            name: u32_at(b, 0),
            locus: SourceLocation::decode(slice_subrange(b, 4, 12)),
            ty: TypeIndex(u32_at(b, 12)),
            initializer: ExprIndex(u32_at(b, 16)),
            specifier: u8_at(b, 20),
            access: u8_at(b, 21),
        }
    }
}

/// A namespace-scope variable declaration row.
#[derive(Copy, Clone, PartialEq, Eq, Structural, Debug)]
pub struct DeclVar {
    pub name: NameIndex,
    pub locus: SourceLocation,
    pub ty: TypeIndex,
    pub home_scope: DeclIndex,
    pub initializer: ExprIndex,
    pub alignment: ExprIndex,
    pub traits: u8,
    pub specifiers: u8,
    pub access: u8,
    pub properties: u8,
}

impl DeclVar {
    /// The record held in one 32-byte row.
    pub open spec fn spec_decode(b: Seq<u8>) -> DeclVar {
        DeclVar {
            name: NameIndex(spec_u32_at(b, 0)),
            locus: SourceLocation::spec_decode(b.subrange(4, 12)),
            ty: TypeIndex(spec_u32_at(b, 12)),
            home_scope: DeclIndex(spec_u32_at(b, 16)),
            initializer: ExprIndex(spec_u32_at(b, 20)),
            alignment: ExprIndex(spec_u32_at(b, 24)),
            traits: b[28],
            specifiers: b[29],
            access: b[30],
            properties: b[31],
        }
    }

    /// Decodes one row of this record kind.
    pub fn decode(b: &[u8]) -> (r: DeclVar)
        requires
            b@.len() == 32,
        ensures
            r == DeclVar::spec_decode(b@),
    {
        DeclVar {
            name: NameIndex(u32_at(b, 0)),
            locus: SourceLocation::decode(slice_subrange(b, 4, 12)),
            ty: TypeIndex(u32_at(b, 12)),
            home_scope: DeclIndex(u32_at(b, 16)),
            initializer: ExprIndex(u32_at(b, 20)),
            alignment: ExprIndex(u32_at(b, 24)),
            traits: u8_at(b, 28),
            specifiers: u8_at(b, 29),
            access: u8_at(b, 30),
            properties: u8_at(b, 31),
        }
    }
}

/// A fundamental type row: basis, precision and sign.
#[derive(Copy, Clone, PartialEq, Eq, Structural, Debug)]
pub struct FundamentalType {
    pub basis: u8,
    pub precision: u8,
    pub sign: u8,
}

impl FundamentalType {
    /// The record held in one 4-byte row.
    pub open spec fn spec_decode(b: Seq<u8>) -> FundamentalType {
        FundamentalType {
            basis: b[0],
            precision: b[1],
            sign: b[2],
        }
    }

    /// Decodes one row of this record kind.
    pub fn decode(b: &[u8]) -> (r: FundamentalType)
        requires
            b@.len() == 4,
        ensures
            r == FundamentalType::spec_decode(b@),
    {
        FundamentalType {
            basis: u8_at(b, 0),
            precision: u8_at(b, 1),
            sign: u8_at(b, 2),
        }
    }
}

/// A base-class entry of a scope type.
#[derive(Copy, Clone, PartialEq, Eq, Structural, Debug)]
pub struct TypeBase {
    pub ty: TypeIndex,
    pub access: u8,
    pub specifiers: u8,
}

impl TypeBase {
    /// The record held in one 8-byte row.
    pub open spec fn spec_decode(b: Seq<u8>) -> TypeBase {
        TypeBase {
            ty: TypeIndex(spec_u32_at(b, 0)),
            access: b[4],
            specifiers: b[5],
        }
    }

    /// Decodes one row of this record kind.
    pub fn decode(b: &[u8]) -> (r: TypeBase)
        requires
            b@.len() == 8,
        ensures
            r == TypeBase::spec_decode(b@),
    {
        TypeBase {
            ty: TypeIndex(u32_at(b, 0)),
            access: u8_at(b, 4),
            specifiers: u8_at(b, 5),
        }
    }
}

/// Exception specification attached to a function type.
#[derive(Copy, Clone, PartialEq, Eq, Structural, Debug)]
pub struct NoexceptSpecification {
    pub words: SentenceIndex,
    pub sort: u8,
}

impl NoexceptSpecification {
    /// The record held in one 8-byte row.
    pub open spec fn spec_decode(b: Seq<u8>) -> NoexceptSpecification {
        NoexceptSpecification {
            words: spec_u32_at(b, 0),
            sort: b[4],
        }
    }

    /// Decodes one row of this record kind.
    pub fn decode(b: &[u8]) -> (r: NoexceptSpecification)
        requires
            b@.len() == 8,
        ensures
            r == NoexceptSpecification::spec_decode(b@),
    {
        NoexceptSpecification {
            words: u32_at(b, 0),
            sort: u8_at(b, 4),
        }
    }
}

/// A function type row: return type, parameters and convention.
#[derive(Copy, Clone, PartialEq, Eq, Structural, Debug)]
pub struct FunctionType {
    pub target: TypeIndex,
    pub source: TypeIndex,
    pub eh_spec: NoexceptSpecification,
    pub convention: u8,
    pub traits: u8,
}

impl FunctionType {
    /// The record held in one 20-byte row.
    pub open spec fn spec_decode(b: Seq<u8>) -> FunctionType {
        FunctionType {
            target: TypeIndex(spec_u32_at(b, 0)),
            source: TypeIndex(spec_u32_at(b, 4)),
            eh_spec: NoexceptSpecification::spec_decode(b.subrange(8, 16)),
            convention: b[16],
            traits: b[17],
        }
    }

    /// Decodes one row of this record kind.
    pub fn decode(b: &[u8]) -> (r: FunctionType)
        requires
            b@.len() == 20,
        ensures
            r == FunctionType::spec_decode(b@),
    {
        FunctionType {
            target: TypeIndex(u32_at(b, 0)),
            source: TypeIndex(u32_at(b, 4)),
            eh_spec: NoexceptSpecification::decode(slice_subrange(b, 8, 16)),
            convention: u8_at(b, 16),
            traits: u8_at(b, 17),
        }
    }
}

/// A const/volatile wrapper around another type.
#[derive(Copy, Clone, PartialEq, Eq, Structural, Debug)]
pub struct QualifiedType {
    pub unqualified_type: TypeIndex,
    pub qualifiers: u8,
}

impl QualifiedType {
    /// The record held in one 8-byte row.
    pub open spec fn spec_decode(b: Seq<u8>) -> QualifiedType {
        QualifiedType {
            unqualified_type: TypeIndex(spec_u32_at(b, 0)),
            qualifiers: b[4],
        }
    }

    /// Decodes one row of this record kind.
    pub fn decode(b: &[u8]) -> (r: QualifiedType)
        requires
            b@.len() == 8,
        ensures
            r == QualifiedType::spec_decode(b@),
    {
        QualifiedType {
            unqualified_type: TypeIndex(u32_at(b, 0)),
            qualifiers: u8_at(b, 4),
        }
    }
}

/// A tuple of types, as a range into the type heap.
#[derive(Copy, Clone, PartialEq, Eq, Structural, Debug)]
pub struct TupleType {
    pub start: Index,
    pub cardinality: Cardinality,
}

impl TupleType {
    /// The record held in one 8-byte row.
    pub open spec fn spec_decode(b: Seq<u8>) -> TupleType {
        TupleType {
            start: spec_u32_at(b, 0),
            cardinality: spec_u32_at(b, 4),
        }
    }

    /// Decodes one row of this record kind.
    pub fn decode(b: &[u8]) -> (r: TupleType)
        requires
            b@.len() == 8,
        ensures
            r == TupleType::spec_decode(b@),
    {
        TupleType {
            start: u32_at(b, 0),
            cardinality: u32_at(b, 4),
        }
    }
}

/// An array type row: element type and extent expression.
#[derive(Copy, Clone, PartialEq, Eq, Structural, Debug)]
pub struct TypeArray {
    pub element: TypeIndex,
    pub extent: ExprIndex,
}

impl TypeArray {
    /// The record held in one 8-byte row.
    pub open spec fn spec_decode(b: Seq<u8>) -> TypeArray {
        TypeArray {
            element: TypeIndex(spec_u32_at(b, 0)),
            extent: ExprIndex(spec_u32_at(b, 4)),
        }
    }

    /// Decodes one row of this record kind.
    pub fn decode(b: &[u8]) -> (r: TypeArray)
        requires
            b@.len() == 8,
        ensures
            r == TypeArray::spec_decode(b@),
    {
        TypeArray {
            element: TypeIndex(u32_at(b, 0)),
            extent: ExprIndex(u32_at(b, 4)),
        }
    }
}

/// A literal expression row.
#[derive(Copy, Clone, PartialEq, Eq, Structural, Debug)]
pub struct ExprLiteral {
    pub locus: SourceLocation,
    pub ty: TypeIndex,
    pub value: LitIndex,
}

impl ExprLiteral {
    /// The record held in one 16-byte row.
    pub open spec fn spec_decode(b: Seq<u8>) -> ExprLiteral {
        ExprLiteral {
            locus: SourceLocation::spec_decode(b.subrange(0, 8)),
            ty: TypeIndex(spec_u32_at(b, 8)),
            value: LitIndex(spec_u32_at(b, 12)),
        }
    }

    /// Decodes one row of this record kind.
    pub fn decode(b: &[u8]) -> (r: ExprLiteral)
        requires
            b@.len() == 16,
        ensures
            r == ExprLiteral::spec_decode(b@),
    {
        ExprLiteral {
            locus: SourceLocation::decode(slice_subrange(b, 0, 8)),
            ty: TypeIndex(u32_at(b, 8)),
            value: LitIndex(u32_at(b, 12)),
        }
    }
}

/// A binary expression row.
#[derive(Copy, Clone, PartialEq, Eq, Structural, Debug)]
pub struct ExprDyad {
    pub locus: SourceLocation,
    pub ty: TypeIndex,
    pub impl_: DeclIndex,
    pub arg0: ExprIndex,
    pub arg1: ExprIndex,
    pub assoc: u32,
}

impl ExprDyad {
    /// The record held in one 28-byte row.
    pub open spec fn spec_decode(b: Seq<u8>) -> ExprDyad {
        ExprDyad {
            locus: SourceLocation::spec_decode(b.subrange(0, 8)),
            ty: TypeIndex(spec_u32_at(b, 8)),
            impl_: DeclIndex(spec_u32_at(b, 12)),
            arg0: ExprIndex(spec_u32_at(b, 16)),
            arg1: ExprIndex(spec_u32_at(b, 20)),
            assoc: spec_u32_at(b, 24),
        }
    }

    /// Decodes one row of this record kind.
    pub fn decode(b: &[u8]) -> (r: ExprDyad)
        requires
            b@.len() == 28,
        ensures
            r == ExprDyad::spec_decode(b@),
    {
        ExprDyad {
            locus: SourceLocation::decode(slice_subrange(b, 0, 8)),
            ty: TypeIndex(u32_at(b, 8)),
            impl_: DeclIndex(u32_at(b, 12)),
            arg0: ExprIndex(u32_at(b, 16)),
            arg1: ExprIndex(u32_at(b, 20)),
            assoc: u32_at(b, 24),
        }
    }
}

/// A 64-bit floating constant, kept as its raw bit pattern.
#[derive(Copy, Clone, PartialEq, Eq, Structural, Debug)]
pub struct ConstF64 {
    pub f64_bits: u64,
    pub unspecified: u32,
}

impl ConstF64 {
    /// The record held in one 12-byte row.
    pub open spec fn spec_decode(b: Seq<u8>) -> ConstF64 {
        ConstF64 {
            f64_bits: spec_u64_at(b, 0),
            unspecified: spec_u32_at(b, 8),
        }
    }

    /// Decodes one row of this record kind.
    pub fn decode(b: &[u8]) -> (r: ConstF64)
        requires
            b@.len() == 12,
        ensures
            r == ConstF64::spec_decode(b@),
    {
        ConstF64 {
            f64_bits: u64_at(b, 0),
            unspecified: u32_at(b, 8),
        }
    }
}

/// An object-like preprocessor macro definition.
#[derive(Copy, Clone, PartialEq, Eq, Structural, Debug)]
pub struct MacroObjectLike {
    pub locus: SourceLocation,
    pub name: TextOffset,
    pub body: FormIndex,
}

impl MacroObjectLike {
    /// The record held in one 16-byte row.
    pub open spec fn spec_decode(b: Seq<u8>) -> MacroObjectLike {
        MacroObjectLike {
            locus: SourceLocation::spec_decode(b.subrange(0, 8)),
            name: spec_u32_at(b, 8),
            body: FormIndex(spec_u32_at(b, 12)),
        }
    }

    /// Decodes one row of this record kind.
    pub fn decode(b: &[u8]) -> (r: MacroObjectLike)
        requires
            b@.len() == 16,
        ensures
            r == MacroObjectLike::spec_decode(b@),
    {
        MacroObjectLike {
            locus: SourceLocation::decode(slice_subrange(b, 0, 8)),
            name: u32_at(b, 8),
            body: FormIndex(u32_at(b, 12)),
        }
    }
}

/// A function-like preprocessor macro definition.
#[derive(Copy, Clone, PartialEq, Eq, Structural, Debug)]
pub struct MacroFunctionLike {
    pub locus: SourceLocation,
    pub name: TextOffset,
    pub parameters: FormIndex,
    pub body: FormIndex,
    pub arity_and_variadic: ArityAndVariadic,
}

impl MacroFunctionLike {
    /// The record held in one 24-byte row.
    pub open spec fn spec_decode(b: Seq<u8>) -> MacroFunctionLike {
        MacroFunctionLike {
            locus: SourceLocation::spec_decode(b.subrange(0, 8)),
            name: spec_u32_at(b, 8),
            parameters: FormIndex(spec_u32_at(b, 12)),
            body: FormIndex(spec_u32_at(b, 16)),
            arity_and_variadic: ArityAndVariadic(spec_u32_at(b, 20)),
        }
    }

    /// Decodes one row of this record kind.
    pub fn decode(b: &[u8]) -> (r: MacroFunctionLike)
        requires
            b@.len() == 24,
        ensures
            r == MacroFunctionLike::spec_decode(b@),
    {
        MacroFunctionLike {
            locus: SourceLocation::decode(slice_subrange(b, 0, 8)),
            name: u32_at(b, 8),
            parameters: FormIndex(u32_at(b, 12)),
            body: FormIndex(u32_at(b, 16)),
            arity_and_variadic: ArityAndVariadic(u32_at(b, 20)),
        }
    }
}

/// An identifier token inside a macro body.
#[derive(Copy, Clone, PartialEq, Eq, Structural, Debug)]
pub struct FormIdentifier {
    pub locus: SourceLocation,
    pub spelling: TextOffset,
}

impl FormIdentifier {
    /// The record held in one 12-byte row.
    pub open spec fn spec_decode(b: Seq<u8>) -> FormIdentifier {
        FormIdentifier {
            locus: SourceLocation::spec_decode(b.subrange(0, 8)),
            spelling: spec_u32_at(b, 8),
        }
    }

    /// Decodes one row of this record kind.
    pub fn decode(b: &[u8]) -> (r: FormIdentifier)
        requires
            b@.len() == 12,
        ensures
            r == FormIdentifier::spec_decode(b@),
    {
        FormIdentifier {
            locus: SourceLocation::decode(slice_subrange(b, 0, 8)),
            spelling: u32_at(b, 8),
        }
    }
}

/// A character literal token inside a macro body.
#[derive(Copy, Clone, PartialEq, Eq, Structural, Debug)]
pub struct FormCharacter {
    pub locus: SourceLocation,
    pub spelling: TextOffset,
}

impl FormCharacter {
    /// The record held in one 12-byte row.
    pub open spec fn spec_decode(b: Seq<u8>) -> FormCharacter {
        FormCharacter {
            locus: SourceLocation::spec_decode(b.subrange(0, 8)),
            spelling: spec_u32_at(b, 8),
        }
    }

    /// Decodes one row of this record kind.
    pub fn decode(b: &[u8]) -> (r: FormCharacter)
        requires
            b@.len() == 12,
        ensures
            r == FormCharacter::spec_decode(b@),
    {
        FormCharacter {
            locus: SourceLocation::decode(slice_subrange(b, 0, 8)),
            spelling: u32_at(b, 8),
        }
    }
}

/// A string literal token inside a macro body.
#[derive(Copy, Clone, PartialEq, Eq, Structural, Debug)]
pub struct FormString {
    pub locus: SourceLocation,
    pub spelling: TextOffset,
}

impl FormString {
    /// The record held in one 12-byte row.
    pub open spec fn spec_decode(b: Seq<u8>) -> FormString {
        FormString {
            locus: SourceLocation::spec_decode(b.subrange(0, 8)),
            spelling: spec_u32_at(b, 8),
        }
    }

    /// Decodes one row of this record kind.
    pub fn decode(b: &[u8]) -> (r: FormString)
        requires
            b@.len() == 12,
        ensures
            r == FormString::spec_decode(b@),
    {
        FormString {
            locus: SourceLocation::decode(slice_subrange(b, 0, 8)),
            spelling: u32_at(b, 8),
        }
    }
}

/// A numeric literal token inside a macro body.
#[derive(Copy, Clone, PartialEq, Eq, Structural, Debug)]
pub struct FormNumber {
    pub locus: SourceLocation,
    pub spelling: TextOffset,
}

impl FormNumber {
    /// The record held in one 12-byte row.
    pub open spec fn spec_decode(b: Seq<u8>) -> FormNumber {
        FormNumber {
            locus: SourceLocation::spec_decode(b.subrange(0, 8)),
            spelling: spec_u32_at(b, 8),
        }
    }

    /// Decodes one row of this record kind.
    pub fn decode(b: &[u8]) -> (r: FormNumber)
        requires
            b@.len() == 12,
        ensures
            r == FormNumber::spec_decode(b@),
    {
        FormNumber {
            locus: SourceLocation::decode(slice_subrange(b, 0, 8)),
            spelling: u32_at(b, 8),
        }
    }
}

/// An operator or punctuator token inside a macro body.
#[derive(Copy, Clone, PartialEq, Eq, Structural, Debug)]
pub struct FormOperator {
    pub locus: SourceLocation,
    pub spelling: TextOffset,
    pub operator: FormOp,
}

impl FormOperator {
    /// The record held in one 16-byte row.
    pub open spec fn spec_decode(b: Seq<u8>) -> FormOperator {
        FormOperator {
            locus: SourceLocation::spec_decode(b.subrange(0, 8)),
            spelling: spec_u32_at(b, 8),
            operator: FormOp(spec_u32_at(b, 12)),
        }
    }

    /// Decodes one row of this record kind.
    pub fn decode(b: &[u8]) -> (r: FormOperator)
        requires
            b@.len() == 16,
        ensures
            r == FormOperator::spec_decode(b@),
    {
        FormOperator {
            locus: SourceLocation::decode(slice_subrange(b, 0, 8)),
            spelling: u32_at(b, 8),
            operator: FormOp(u32_at(b, 12)),
        }
    }
}

/// A keyword token inside a macro body.
#[derive(Copy, Clone, PartialEq, Eq, Structural, Debug)]
pub struct FormKeyword {
    pub locus: SourceLocation,
    pub spelling: TextOffset,
}

impl FormKeyword {
    /// The record held in one 12-byte row.
    pub open spec fn spec_decode(b: Seq<u8>) -> FormKeyword {
        FormKeyword {
            locus: SourceLocation::spec_decode(b.subrange(0, 8)),
            spelling: spec_u32_at(b, 8),
        }
    }

    /// Decodes one row of this record kind.
    pub fn decode(b: &[u8]) -> (r: FormKeyword)
        requires
            b@.len() == 12,
        ensures
            r == FormKeyword::spec_decode(b@),
    {
        FormKeyword {
            locus: SourceLocation::decode(slice_subrange(b, 0, 8)),
            spelling: u32_at(b, 8),
        }
    }
}

/// A whitespace marker inside a macro body.
#[derive(Copy, Clone, PartialEq, Eq, Structural, Debug)]
pub struct FormWhitespace {
    pub locus: SourceLocation,
}

impl FormWhitespace {
    /// The record held in one 8-byte row.
    pub open spec fn spec_decode(b: Seq<u8>) -> FormWhitespace {
        FormWhitespace {
            locus: SourceLocation::spec_decode(b.subrange(0, 8)),
        }
    }

    /// Decodes one row of this record kind.
    pub fn decode(b: &[u8]) -> (r: FormWhitespace)
        requires
            b@.len() == 8,
        ensures
            r == FormWhitespace::spec_decode(b@),
    {
        FormWhitespace {
            locus: SourceLocation::decode(slice_subrange(b, 0, 8)),
        }
    }
}

/// A reference to a macro parameter inside a macro body.
#[derive(Copy, Clone, PartialEq, Eq, Structural, Debug)]
pub struct FormParameter {
    pub locus: SourceLocation,
    pub spelling: TextOffset,
}

impl FormParameter {
    /// The record held in one 12-byte row.
    pub open spec fn spec_decode(b: Seq<u8>) -> FormParameter {
        FormParameter {
            locus: SourceLocation::spec_decode(b.subrange(0, 8)),
            spelling: spec_u32_at(b, 8),
        }
    }

    /// Decodes one row of this record kind.
    pub fn decode(b: &[u8]) -> (r: FormParameter)
        requires
            b@.len() == 12,
        ensures
            r == FormParameter::spec_decode(b@),
    {
        FormParameter {
            locus: SourceLocation::decode(slice_subrange(b, 0, 8)),
            spelling: u32_at(b, 8),
        }
    }
}

/// A stringize operation applied to another form.
#[derive(Copy, Clone, PartialEq, Eq, Structural, Debug)]
pub struct FormStringize {
    pub locus: SourceLocation,
    pub operand: FormIndex,
}

impl FormStringize {
    /// The record held in one 12-byte row.
    pub open spec fn spec_decode(b: Seq<u8>) -> FormStringize {
        FormStringize {
            locus: SourceLocation::spec_decode(b.subrange(0, 8)),
            operand: FormIndex(spec_u32_at(b, 8)),
        }
    }

    /// Decodes one row of this record kind.
    pub fn decode(b: &[u8]) -> (r: FormStringize)
        requires
            b@.len() == 12,
        ensures
            r == FormStringize::spec_decode(b@),
    {
        FormStringize {
            locus: SourceLocation::decode(slice_subrange(b, 0, 8)),
            operand: FormIndex(u32_at(b, 8)),
        }
    }
}

/// A token-paste operation over two forms.
#[derive(Copy, Clone, PartialEq, Eq, Structural, Debug)]
pub struct FormCatenate {
    pub locus: SourceLocation,
    pub first: FormIndex,
    pub second: FormIndex,
}

impl FormCatenate {
    /// The record held in one 16-byte row.
    pub open spec fn spec_decode(b: Seq<u8>) -> FormCatenate {
        FormCatenate {
            locus: SourceLocation::spec_decode(b.subrange(0, 8)),
            first: FormIndex(spec_u32_at(b, 8)),
            second: FormIndex(spec_u32_at(b, 12)),
        }
    }

    /// Decodes one row of this record kind.
    pub fn decode(b: &[u8]) -> (r: FormCatenate)
        requires
            b@.len() == 16,
        ensures
            r == FormCatenate::spec_decode(b@),
    {
        FormCatenate {
            locus: SourceLocation::decode(slice_subrange(b, 0, 8)),
            first: FormIndex(u32_at(b, 8)),
            second: FormIndex(u32_at(b, 12)),
        }
    }
}

/// A header-name form.
#[derive(Copy, Clone, PartialEq, Eq, Structural, Debug)]
pub struct FormHeader {
    pub locus: SourceLocation,
    pub spelling: FormIndex,
}

impl FormHeader {
    /// The record held in one 12-byte row.
    pub open spec fn spec_decode(b: Seq<u8>) -> FormHeader {
        FormHeader {
            locus: SourceLocation::spec_decode(b.subrange(0, 8)),
            spelling: FormIndex(spec_u32_at(b, 8)),
        }
    }

    /// Decodes one row of this record kind.
    pub fn decode(b: &[u8]) -> (r: FormHeader)
        requires
            b@.len() == 12,
        ensures
            r == FormHeader::spec_decode(b@),
    {
        FormHeader {
            locus: SourceLocation::decode(slice_subrange(b, 0, 8)),
            spelling: FormIndex(u32_at(b, 8)),
        }
    }
}

/// A parenthesized sub-form.
#[derive(Copy, Clone, PartialEq, Eq, Structural, Debug)]
pub struct FormParen {
    pub locus: SourceLocation,
    pub operand: FormIndex,
}

impl FormParen {
    /// The record held in one 12-byte row.
    pub open spec fn spec_decode(b: Seq<u8>) -> FormParen {
        FormParen {
            locus: SourceLocation::spec_decode(b.subrange(0, 8)),
            operand: FormIndex(spec_u32_at(b, 8)),
        }
    }

    /// Decodes one row of this record kind.
    pub fn decode(b: &[u8]) -> (r: FormParen)
        requires
            b@.len() == 12,
        ensures
            r == FormParen::spec_decode(b@),
    {
        FormParen {
            locus: SourceLocation::decode(slice_subrange(b, 0, 8)),
            operand: FormIndex(u32_at(b, 8)),
        }
    }
}

/// A run of forms, as a range into the form heap.
#[derive(Copy, Clone, PartialEq, Eq, Structural, Debug)]
pub struct FormTuple {
    pub start: Index,
    pub cardinality: Cardinality,
}

impl FormTuple {
    /// The record held in one 8-byte row.
    pub open spec fn spec_decode(b: Seq<u8>) -> FormTuple {
        FormTuple {
            start: spec_u32_at(b, 0),
            cardinality: spec_u32_at(b, 4),
        }
    }

    /// Decodes one row of this record kind.
    pub fn decode(b: &[u8]) -> (r: FormTuple)
        requires
            b@.len() == 8,
        ensures
            r == FormTuple::spec_decode(b@),
    {
        FormTuple {
            start: u32_at(b, 0),
            cardinality: u32_at(b, 4),
        }
    }
}

/// An unclassifiable token inside a macro body.
#[derive(Copy, Clone, PartialEq, Eq, Structural, Debug)]
pub struct FormJunk {
    pub locus: SourceLocation,
    pub spelling: TextOffset,
}

impl FormJunk {
    /// The record held in one 12-byte row.
    pub open spec fn spec_decode(b: Seq<u8>) -> FormJunk {
        FormJunk {
            locus: SourceLocation::spec_decode(b.subrange(0, 8)),
            spelling: spec_u32_at(b, 8),
        }
    }

    /// Decodes one row of this record kind.
    pub fn decode(b: &[u8]) -> (r: FormJunk)
        requires
            b@.len() == 12,
        ensures
            r == FormJunk::spec_decode(b@),
    {
        FormJunk {
            locus: SourceLocation::decode(slice_subrange(b, 0, 8)),
            spelling: u32_at(b, 8),
        }
    }
}

/// A pragma form.
#[derive(Copy, Clone, PartialEq, Eq, Structural, Debug)]
pub struct FormPragma {
    pub locus: SourceLocation,
    pub operand: FormIndex,
}

impl FormPragma {
    /// The record held in one 12-byte row.
    pub open spec fn spec_decode(b: Seq<u8>) -> FormPragma {
        FormPragma {
            locus: SourceLocation::spec_decode(b.subrange(0, 8)),
            operand: FormIndex(spec_u32_at(b, 8)),
        }
    }

    /// Decodes one row of this record kind.
    pub fn decode(b: &[u8]) -> (r: FormPragma)
        requires
            b@.len() == 12,
        ensures
            r == FormPragma::spec_decode(b@),
    {
        FormPragma {
            locus: SourceLocation::decode(slice_subrange(b, 0, 8)),
            operand: FormIndex(u32_at(b, 8)),
        }
    }
}

/// One token word of an attribute or sentence.
#[derive(Copy, Clone, PartialEq, Eq, Structural, Debug)]
pub struct Word {
    pub locus: SourceLocation,
    pub index: Index,
    pub value: u16,
    pub sort: u8,
}

impl Word {
    /// The record held in one 16-byte row.
    pub open spec fn spec_decode(b: Seq<u8>) -> Word {
        Word {
            locus: SourceLocation::spec_decode(b.subrange(0, 8)),
            index: spec_u32_at(b, 8),
            value: spec_u16_at(b, 12),
            sort: b[14],
        }
    }

    /// Decodes one row of this record kind.
    pub fn decode(b: &[u8]) -> (r: Word)
        requires
            b@.len() == 16,
        ensures
            r == Word::spec_decode(b@),
    {
        Word {
            locus: SourceLocation::decode(slice_subrange(b, 0, 8)),
            index: u32_at(b, 8),
            value: u16_at(b, 12),
            sort: u8_at(b, 14),
        }
    }
}

/// A single-level template parameter chart row.
#[derive(Copy, Clone, PartialEq, Eq, Structural, Debug)]
pub struct ChartUnilevel {
    pub start: Index,
    pub cardinality: Cardinality,
    pub constraint: ExprIndex,
}

impl ChartUnilevel {
    /// The record held in one 12-byte row.
    pub open spec fn spec_decode(b: Seq<u8>) -> ChartUnilevel {
        ChartUnilevel {
            start: spec_u32_at(b, 0),
            cardinality: spec_u32_at(b, 4),
            constraint: ExprIndex(spec_u32_at(b, 8)),
        }
    }

    /// Decodes one row of this record kind.
    pub fn decode(b: &[u8]) -> (r: ChartUnilevel)
        requires
            b@.len() == 12,
        ensures
            r == ChartUnilevel::spec_decode(b@),
    {
        ChartUnilevel {
            start: u32_at(b, 0),
            cardinality: u32_at(b, 4),
            constraint: ExprIndex(u32_at(b, 8)),
        }
    }
}

/// A multi-level template parameter chart row.
#[derive(Copy, Clone, PartialEq, Eq, Structural, Debug)]
pub struct ChartMultilevel {
    pub start: Index,
    pub cardinality: Cardinality,
}

impl ChartMultilevel {
    /// The record held in one 8-byte row.
    pub open spec fn spec_decode(b: Seq<u8>) -> ChartMultilevel {
        ChartMultilevel {
            start: spec_u32_at(b, 0),
            cardinality: spec_u32_at(b, 4),
        }
    }

    /// Decodes one row of this record kind.
    pub fn decode(b: &[u8]) -> (r: ChartMultilevel)
        requires
            b@.len() == 8,
        ensures
            r == ChartMultilevel::spec_decode(b@),
    {
        ChartMultilevel {
            start: u32_at(b, 0),
            cardinality: u32_at(b, 4),
        }
    }
}

/// A source-file name row.
#[derive(Copy, Clone, PartialEq, Eq, Structural, Debug)]
pub struct NameSourceFile {
    pub path: TextOffset,
    pub guard: TextOffset,
}

impl NameSourceFile {
    /// The record held in one 8-byte row.
    pub open spec fn spec_decode(b: Seq<u8>) -> NameSourceFile {
        NameSourceFile {
            path: spec_u32_at(b, 0),
            guard: spec_u32_at(b, 4),
        }
    }

    /// Decodes one row of this record kind.
    pub fn decode(b: &[u8]) -> (r: NameSourceFile)
        requires
            b@.len() == 8,
        ensures
            r == NameSourceFile::spec_decode(b@),
    {
        NameSourceFile {
            path: u32_at(b, 0),
            guard: u32_at(b, 4),
        }
    }
}

/// An operator-function name row.
#[derive(Copy, Clone, PartialEq, Eq, Structural, Debug)]
pub struct NameOperator {
    pub encoded: TextOffset,
    pub operator: u16,
}

impl NameOperator {
    /// The record held in one 8-byte row.
    pub open spec fn spec_decode(b: Seq<u8>) -> NameOperator {
        NameOperator {
            encoded: spec_u32_at(b, 0),
            operator: spec_u16_at(b, 4),
        }
    }

    /// Decodes one row of this record kind.
    pub fn decode(b: &[u8]) -> (r: NameOperator)
        requires
            b@.len() == 8,
        ensures
            r == NameOperator::spec_decode(b@),
    {
        NameOperator {
            encoded: u32_at(b, 0),
            operator: u16_at(b, 4),
        }
    }
}

impl Sequence {
    /// The half-open row range this sequence covers.
    pub fn to_range(&self) -> (r: core::ops::Range<u32>)
        requires
            self.start + self.cardinality <= u32::MAX,
        ensures
            r.start == self.start,
            r.end == self.start + self.cardinality,
    {
        self.start..self.start + self.cardinality
    }
}

impl MacroFunctionLike {
    /// The number of declared macro parameters.
    pub fn arity(&self) -> (r: u32)
        ensures
            r == self.arity_and_variadic.spec_arity(),
    {
        self.arity_and_variadic.arity()
    }

    /// Whether the macro takes a trailing variadic parameter.
    pub fn is_variadic(&self) -> (r: bool)
        ensures
            r == self.arity_and_variadic.spec_is_variadic(),
    {
        self.arity_and_variadic.is_variadic()
    }
}

/// Low bit of a qualifier byte: the type is const-qualified.
pub const QUALIFIER_CONST: u8 = 1;

/// Second bit of a qualifier byte: the type is volatile-qualified.
pub const QUALIFIER_VOLATILE: u8 = 2;

/// Bit of an object-traits byte: the entity was declared constexpr.
pub const OBJECT_TRAIT_CONSTEXPR: u8 = 1;

} // verus!
