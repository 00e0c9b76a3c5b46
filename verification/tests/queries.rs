//! Container queries: qualifier peeling, literal reads, scope iteration
//! and name fixup.

use ifcgen::ifc::Ifc;
use ifcgen::index::{TypeIndex, ExprIndex, NameIndex};
use ifcgen::names::fixup_anon_names;
use ifcgen::records::{Sequence, ArityAndVariadic};

struct ImgBuilder {
    strings: Vec<u8>,
    parts: Vec<(u32, u32, u32, Vec<u8>)>,
    global_scope: u32,
}

impl ImgBuilder {
    fn new() -> ImgBuilder {
        ImgBuilder { strings: vec![0], parts: Vec::new(), global_scope: 0 }
    }

    fn intern(&mut self, s: &str) -> u32 {
        let off = self.strings.len() as u32;
        self.strings.extend_from_slice(s.as_bytes());
        self.strings.push(0);
        off
    }

    fn part(&mut self, name: &str, entity_size: u32, data: Vec<u8>) {
        let name_off = self.intern(name);
        assert!(data.len() % entity_size as usize == 0);
        let cardinality = (data.len() / entity_size as usize) as u32;
        self.parts.push((name_off, cardinality, entity_size, data));
    }

    fn build(&self) -> Vec<u8> {
        let mut img: Vec<u8> = vec![0x54, 0x51, 0x45, 0x1A];
        img.extend_from_slice(&[0u8; 72]);
        let strings_at = img.len() as u32;
        img.extend_from_slice(&self.strings);
        let mut placed: Vec<(u32, u32, u32, u32)> = Vec::new();
        for (name_off, card, size, data) in &self.parts {
            let at = img.len() as u32;
            img.extend_from_slice(data);
            placed.push((*name_off, at, *card, *size));
        }
        let toc_at = img.len() as u32;
        for (name_off, at, card, size) in &placed {
            img.extend_from_slice(&name_off.to_le_bytes());
            img.extend_from_slice(&at.to_le_bytes());
            img.extend_from_slice(&card.to_le_bytes());
            img.extend_from_slice(&size.to_le_bytes());
        }
        let put = |img: &mut Vec<u8>, off: usize, v: u32| {
            img[4 + off..4 + off + 4].copy_from_slice(&v.to_le_bytes());
        };
        put(&mut img, 40, strings_at);
        put(&mut img, 44, self.strings.len() as u32);
        put(&mut img, 56, self.global_scope);
        put(&mut img, 60, toc_at);
        put(&mut img, 64, placed.len() as u32);
        img
    }
}

fn u32s(vals: &[u32]) -> Vec<u8> {
    let mut out = Vec::new();
    for v in vals {
        out.extend_from_slice(&v.to_le_bytes());
    }
    out
}

/// A module with `const volatile int` wrapped twice around a fundamental
/// int, and a couple of literal expressions.
fn module() -> Vec<u8> {
    let mut b = ImgBuilder::new();
    // type.fundamental[0]: plain int
    b.part("type.fundamental", 4, vec![4, 0, 0, 0]);
    // type.qualified[0]: const wrapper around qualified[1];
    // type.qualified[1]: volatile wrapper around the fundamental int
    let ty_fund: u32 = 1 + 0 * 32;
    let _ty_q0: u32 = 14 + 0 * 32;
    let ty_q1: u32 = 14 + 1 * 32;
    let mut q: Vec<u8> = Vec::new();
    q.extend_from_slice(&ty_q1.to_le_bytes());
    q.extend_from_slice(&[1, 0, 0, 0]);
    q.extend_from_slice(&ty_fund.to_le_bytes());
    q.extend_from_slice(&[2, 0, 0, 0]);
    b.part("type.qualified", 8, q);
    // expr.literal[0]: an immediate value 7; [1]: a wide constant
    let lit_imm: u32 = 0 + 7 * 4; // literal sort 0, value 7
    let lit_wide: u32 = 1 + 0 * 4; // literal sort 1, row 0
    let mut lits: Vec<u8> = Vec::new();
    lits.extend_from_slice(&[0u8; 8]);
    lits.extend_from_slice(&ty_fund.to_le_bytes());
    lits.extend_from_slice(&lit_imm.to_le_bytes());
    lits.extend_from_slice(&[0u8; 8]);
    lits.extend_from_slice(&ty_fund.to_le_bytes());
    lits.extend_from_slice(&lit_wide.to_le_bytes());
    b.part("expr.literal", 16, lits);
    let mut c: Vec<u8> = Vec::new();
    c.extend_from_slice(&123456789u64.to_le_bytes());
    b.part("const.i64", 8, c);
    b.build()
}

#[test]
fn qualifiers_peel_and_const_is_seen() {
    let ifc = Ifc::load(module()).unwrap();
    let ty_q0 = TypeIndex(14 + 0 * 32);
    let unqual = ifc.remove_qualifiers(ty_q0).unwrap();
    assert_eq!(unqual, TypeIndex(1));
    assert!(ifc.is_const_qualified(ty_q0).unwrap());
    // the inner wrapper alone is only volatile
    assert!(!ifc.is_const_qualified(TypeIndex(14 + 1 * 32)).unwrap());
}

#[test]
fn literal_expressions_read_back() {
    let ifc = Ifc::load(module()).unwrap();
    // an immediate literal holds its value in the reference itself
    let e0 = ExprIndex(2 + 0 * 64);
    assert!(ifc.is_literal_expr(e0));
    assert_eq!(ifc.get_literal_expr_u32(e0).unwrap(), 7);
    // a wide literal reads the constant partition
    let e1 = ExprIndex(2 + 1 * 64);
    assert_eq!(ifc.get_literal_expr_u32(e1).unwrap(), 123456789);
    assert_eq!(ifc.get_literal_expr_as_u64(e1).unwrap(), 123456789);
    // a non-literal expression is rejected
    assert!(ifc.get_literal_expr_u32(ExprIndex(15)).is_err());
}

#[test]
fn name_strings_have_fixed_spellings_for_special_sorts() {
    let ifc = Ifc::load(module()).unwrap();
    // a conversion-function name has a fixed placeholder spelling
    let conv = NameIndex::new(2, 0);
    assert_eq!(ifc.get_name_string(conv).unwrap(), "?CONVERSION");
    let op = NameIndex::new(1, 0);
    assert_eq!(ifc.get_name_string(op).unwrap(), "?OPERATOR");
}

#[test]
fn anonymous_names_are_rewritten_deterministically() {
    let mut counter = 0u32;
    let mut s = "<unnamed-tag>".to_string();
    fixup_anon_names(&mut s, &mut counter);
    assert_eq!(s, "tag0001");
    let mut s2 = "<unnamed-tag>".to_string();
    fixup_anon_names(&mut s2, &mut counter);
    assert_eq!(s2, "tag0002");
    let mut t = "type".to_string();
    fixup_anon_names(&mut t, &mut counter);
    assert_eq!(t, "type_");
    let mut u = "<unnamed-type-Foo>".to_string();
    fixup_anon_names(&mut u, &mut counter);
    assert_eq!(u, "Foo");
    let mut v = "ordinary".to_string();
    fixup_anon_names(&mut v, &mut counter);
    assert_eq!(v, "ordinary");
    assert_eq!(counter, 2);
}

#[test]
fn sequences_and_arities_unpack() {
    let s = Sequence { start: 4, cardinality: 3 };
    let r = s.to_range();
    assert_eq!((r.start, r.end), (4, 7));
    let av = ArityAndVariadic(2);
    assert_eq!(av.arity(), 2);
    assert!(!av.is_variadic());
    let av2 = ArityAndVariadic(0x8000_0002);
    assert!(av2.is_variadic());
    assert_eq!(av2.arity(), 2);
}
