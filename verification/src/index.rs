//! Packed tagged indices.
//!
//! Every cross-reference in an interface file is one 32-bit value holding a
//! small variant tag in its low bits and a row index in the remaining bits.
//! The tag width differs by reference kind: declarations and types use 5
//! bits, expressions 6, preprocessor forms 4, names 3, literals 2.

use vstd::prelude::*;
use vstd::arithmetic::div_mod::lemma_fundamental_div_mod_converse;

verus! {

/// Reference to a declaration row; 5 tag bits.
#[derive(Copy, Clone, PartialEq, Eq, Structural, Hash, Debug)]
pub struct DeclIndex(pub u32);

impl DeclIndex {
    /// The variant tag held in the low bits.
    pub open spec fn spec_tag(self) -> u32 {
        self.0 % 32
    }

    /// The row index held in the remaining bits.
    pub open spec fn spec_index(self) -> u32 {
        self.0 / 32
    }

    #[verifier::when_used_as_spec(spec_tag)]
    pub fn tag(self) -> (r: u32)
        ensures
            r == self.spec_tag(),
    {
        self.0 % 32
    }

    #[verifier::when_used_as_spec(spec_index)]
    pub fn index(self) -> (r: u32)
        ensures
            r == self.spec_index(),
    {
        self.0 / 32
    }

    /// Packs a tag and a row index; for every valid pair, `tag()` and
    /// `index()` of the result give the pair back exactly.
    pub fn new(tag: u32, index: u32) -> (r: Self)
        requires
            tag < 32,
            index < 0x0800_0000u32,
        ensures
            r.spec_tag() == tag,
            r.spec_index() == index,
    {
        let r = DeclIndex(tag + index * 32);
        proof {
            lemma_fundamental_div_mod_converse(
                (tag + index * 32) as int, 32, index as int, tag as int);
        }
        r
    }
}

/// Reference to a type row; 5 tag bits.
#[derive(Copy, Clone, PartialEq, Eq, Structural, Hash, Debug)]
pub struct TypeIndex(pub u32);

impl TypeIndex {
    /// The variant tag held in the low bits.
    pub open spec fn spec_tag(self) -> u32 {
        self.0 % 32
    }

    /// The row index held in the remaining bits.
    pub open spec fn spec_index(self) -> u32 {
        self.0 / 32
    }

    #[verifier::when_used_as_spec(spec_tag)]
    pub fn tag(self) -> (r: u32)
        ensures
            r == self.spec_tag(),
    {
        self.0 % 32
    }

    #[verifier::when_used_as_spec(spec_index)]
    pub fn index(self) -> (r: u32)
        ensures
            r == self.spec_index(),
    {
        self.0 / 32
    }

    /// Packs a tag and a row index; for every valid pair, `tag()` and
    /// `index()` of the result give the pair back exactly.
    pub fn new(tag: u32, index: u32) -> (r: Self)
        requires
            tag < 32,
            index < 0x0800_0000u32,
        ensures
            r.spec_tag() == tag,
            r.spec_index() == index,
    {
        let r = TypeIndex(tag + index * 32);
        proof {
            lemma_fundamental_div_mod_converse(
                (tag + index * 32) as int, 32, index as int, tag as int);
        }
        r
    }

    /// A null type reference: no tag, no row.
    pub open spec fn spec_is_null(self) -> bool {
        self.0 == 0
    }

    #[verifier::when_used_as_spec(spec_is_null)]
    pub fn is_null(self) -> (r: bool)
        ensures
            r == self.spec_is_null(),
    {
        self.0 == 0
    }
}

/// Reference to a name row; 3 tag bits.
#[derive(Copy, Clone, PartialEq, Eq, Structural, Hash, Debug)]
pub struct NameIndex(pub u32);

impl NameIndex {
    /// The variant tag held in the low bits.
    pub open spec fn spec_tag(self) -> u32 {
        self.0 % 8
    }

    /// The row index held in the remaining bits.
    pub open spec fn spec_index(self) -> u32 {
        self.0 / 8
    }

    #[verifier::when_used_as_spec(spec_tag)]
    pub fn tag(self) -> (r: u32)
        ensures
            r == self.spec_tag(),
    {
        self.0 % 8
    }

    #[verifier::when_used_as_spec(spec_index)]
    pub fn index(self) -> (r: u32)
        ensures
            r == self.spec_index(),
    {
        self.0 / 8
    }

    /// Packs a tag and a row index; for every valid pair, `tag()` and
    /// `index()` of the result give the pair back exactly.
    pub fn new(tag: u32, index: u32) -> (r: Self)
        requires
            tag < 8,
            index < 0x2000_0000u32,
        ensures
            r.spec_tag() == tag,
            r.spec_index() == index,
    {
        let r = NameIndex(tag + index * 8);
        proof {
            lemma_fundamental_div_mod_converse(
                (tag + index * 8) as int, 8, index as int, tag as int);
        }
        r
    }
}

/// Reference to an expression row; 6 tag bits.
#[derive(Copy, Clone, PartialEq, Eq, Structural, Hash, Debug)]
pub struct ExprIndex(pub u32);

impl ExprIndex {
    /// The variant tag held in the low bits.
    pub open spec fn spec_tag(self) -> u32 {
        self.0 % 64
    }

    /// The row index held in the remaining bits.
    pub open spec fn spec_index(self) -> u32 {
        self.0 / 64
    }

    #[verifier::when_used_as_spec(spec_tag)]
    pub fn tag(self) -> (r: u32)
        ensures
            r == self.spec_tag(),
    {
        self.0 % 64
    }

    #[verifier::when_used_as_spec(spec_index)]
    pub fn index(self) -> (r: u32)
        ensures
            r == self.spec_index(),
    {
        self.0 / 64
    }

    /// Packs a tag and a row index; for every valid pair, `tag()` and
    /// `index()` of the result give the pair back exactly.
    pub fn new(tag: u32, index: u32) -> (r: Self)
        requires
            tag < 64,
            index < 0x0400_0000u32,
        ensures
            r.spec_tag() == tag,
            r.spec_index() == index,
    {
        let r = ExprIndex(tag + index * 64);
        proof {
            lemma_fundamental_div_mod_converse(
                (tag + index * 64) as int, 64, index as int, tag as int);
        }
        r
    }
}

/// Reference to a literal constant; 2 tag bits.
#[derive(Copy, Clone, PartialEq, Eq, Structural, Hash, Debug)]
pub struct LitIndex(pub u32);

impl LitIndex {
    /// The variant tag held in the low bits.
    pub open spec fn spec_tag(self) -> u32 {
        self.0 % 4
    }

    /// The row index held in the remaining bits.
    pub open spec fn spec_index(self) -> u32 {
        self.0 / 4
    }

    #[verifier::when_used_as_spec(spec_tag)]
    pub fn tag(self) -> (r: u32)
        ensures
            r == self.spec_tag(),
    {
        self.0 % 4
    }

    #[verifier::when_used_as_spec(spec_index)]
    pub fn index(self) -> (r: u32)
        ensures
            r == self.spec_index(),
    {
        self.0 / 4
    }

    /// Packs a tag and a row index; for every valid pair, `tag()` and
    /// `index()` of the result give the pair back exactly.
    pub fn new(tag: u32, index: u32) -> (r: Self)
        requires
            tag < 4,
            index < 0x4000_0000u32,
        ensures
            r.spec_tag() == tag,
            r.spec_index() == index,
    {
        let r = LitIndex(tag + index * 4);
        proof {
            lemma_fundamental_div_mod_converse(
                (tag + index * 4) as int, 4, index as int, tag as int);
        }
        r
    }
}

/// Reference to a preprocessor form row; 4 tag bits.
#[derive(Copy, Clone, PartialEq, Eq, Structural, Hash, Debug)]
pub struct FormIndex(pub u32);

impl FormIndex {
    /// The variant tag held in the low bits.
    pub open spec fn spec_tag(self) -> u32 {
        self.0 % 16
    }

    /// The row index held in the remaining bits.
    pub open spec fn spec_index(self) -> u32 {
        self.0 / 16
    }

    #[verifier::when_used_as_spec(spec_tag)]
    pub fn tag(self) -> (r: u32)
        ensures
            r == self.spec_tag(),
    {
        self.0 % 16
    }

    #[verifier::when_used_as_spec(spec_index)]
    pub fn index(self) -> (r: u32)
        ensures
            r == self.spec_index(),
    {
        self.0 / 16
    }

    /// Packs a tag and a row index; for every valid pair, `tag()` and
    /// `index()` of the result give the pair back exactly.
    pub fn new(tag: u32, index: u32) -> (r: Self)
        requires
            tag < 16,
            index < 0x1000_0000u32,
        ensures
            r.spec_tag() == tag,
            r.spec_index() == index,
    {
        let r = FormIndex(tag + index * 16);
        proof {
            lemma_fundamental_div_mod_converse(
                (tag + index * 16) as int, 16, index as int, tag as int);
        }
        r
    }
}

/// Reference to a template parameter chart; 6 tag bits.
#[derive(Copy, Clone, PartialEq, Eq, Structural, Hash, Debug)]
pub struct ChartIndex(pub u32);

impl ChartIndex {
    /// The variant tag held in the low bits.
    pub open spec fn spec_tag(self) -> u32 {
        self.0 % 64
    }

    /// The row index held in the remaining bits.
    pub open spec fn spec_index(self) -> u32 {
        self.0 / 64
    }

    #[verifier::when_used_as_spec(spec_tag)]
    pub fn tag(self) -> (r: u32)
        ensures
            r == self.spec_tag(),
    {
        self.0 % 64
    }

    #[verifier::when_used_as_spec(spec_index)]
    pub fn index(self) -> (r: u32)
        ensures
            r == self.spec_index(),
    {
        self.0 / 64
    }

    /// Packs a tag and a row index; for every valid pair, `tag()` and
    /// `index()` of the result give the pair back exactly.
    pub fn new(tag: u32, index: u32) -> (r: Self)
        requires
            tag < 64,
            index < 0x0400_0000u32,
        ensures
            r.spec_tag() == tag,
            r.spec_index() == index,
    {
        let r = ChartIndex(tag + index * 64);
        proof {
            lemma_fundamental_div_mod_converse(
                (tag + index * 64) as int, 64, index as int, tag as int);
        }
        r
    }
}

/// Operator-or-punctuator reference inside a preprocessor operator form;
/// 3 tag bits selecting the word sort, the rest the encoded value.
#[derive(Copy, Clone, PartialEq, Eq, Structural, Hash, Debug)]
pub struct FormOp(pub u32);

impl FormOp {
    /// The variant tag held in the low bits.
    pub open spec fn spec_tag(self) -> u32 {
        self.0 % 8
    }

    /// The encoded value held in the remaining bits.
    pub open spec fn spec_index(self) -> u32 {
        self.0 / 8
    }

    #[verifier::when_used_as_spec(spec_tag)]
    pub fn tag(self) -> (r: u32)
        ensures
            r == self.spec_tag(),
    {
        self.0 % 8
    }

    #[verifier::when_used_as_spec(spec_index)]
    pub fn index(self) -> (r: u32)
        ensures
            r == self.spec_index(),
    {
        self.0 / 8
    }

    /// Packs a tag and an encoded value; for every valid pair, `tag()` and
    /// `index()` of the result give the pair back exactly.
    pub fn new(tag: u32, index: u32) -> (r: Self)
        requires
            tag < 8,
            index < 0x2000_0000u32,
        ensures
            r.spec_tag() == tag,
            r.spec_index() == index,
    {
        let r = FormOp(tag + index * 8);
        proof {
            lemma_fundamental_div_mod_converse(
                (tag + index * 8) as int, 8, index as int, tag as int);
        }
        r
    }
}

} // verus!
