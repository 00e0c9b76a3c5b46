//! End-to-end generation over a small module: type translation, struct and
//! enum rendering, and macro translation.

use ifcgen::emit::gen_rust;
use ifcgen::ifc::Ifc;
use ifcgen::macro_gen::{render_macro_number, gen_macros};
use ifcgen::numbers::MacroNumber;
use ifcgen::options::Options;
use ifcgen::symbol_map::SymbolMap;

struct ImgBuilder {
    strings: Vec<u8>,
    parts: Vec<(u32, u32, u32, Vec<u8>)>,
    global_scope: u32,
}

impl ImgBuilder {
    fn new() -> ImgBuilder {
        ImgBuilder { strings: vec![0], parts: Vec::new(), global_scope: 0 }
    }

    fn intern(&mut self, s: &str) -> u32 {
        let off = self.strings.len() as u32;
        self.strings.extend_from_slice(s.as_bytes());
        self.strings.push(0);
        off
    }

    fn part(&mut self, name: &str, entity_size: u32, data: Vec<u8>) {
        let name_off = self.intern(name);
        assert!(data.len() % entity_size as usize == 0);
        let cardinality = (data.len() / entity_size as usize) as u32;
        self.parts.push((name_off, cardinality, entity_size, data));
    }

    fn build(&self) -> Vec<u8> {
        let mut img: Vec<u8> = vec![0x54, 0x51, 0x45, 0x1A];
        img.extend_from_slice(&[0u8; 72]);
        let strings_at = img.len() as u32;
        img.extend_from_slice(&self.strings);
        let mut placed: Vec<(u32, u32, u32, u32)> = Vec::new();
        for (name_off, card, size, data) in &self.parts {
            let at = img.len() as u32;
            img.extend_from_slice(data);
            placed.push((*name_off, at, *card, *size));
        }
        let toc_at = img.len() as u32;
        for (name_off, at, card, size) in &placed {
            img.extend_from_slice(&name_off.to_le_bytes());
            img.extend_from_slice(&at.to_le_bytes());
            img.extend_from_slice(&card.to_le_bytes());
            img.extend_from_slice(&size.to_le_bytes());
        }
        let put = |img: &mut Vec<u8>, off: usize, v: u32| {
            img[4 + off..4 + off + 4].copy_from_slice(&v.to_le_bytes());
        };
        put(&mut img, 40, strings_at);
        put(&mut img, 44, self.strings.len() as u32);
        put(&mut img, 56, self.global_scope);
        put(&mut img, 60, toc_at);
        put(&mut img, 64, placed.len() as u32);
        img
    }
}

fn u32s(vals: &[u32]) -> Vec<u8> {
    let mut out = Vec::new();
    for v in vals {
        out.extend_from_slice(&v.to_le_bytes());
    }
    out
}

fn scope_row(name_ix: u32, ty: u32, base: u32, initializer: u32, home: u32) -> Vec<u8> {
    let mut r = vec![0u8; 40];
    r[0..4].copy_from_slice(&name_ix.to_le_bytes());
    r[12..16].copy_from_slice(&ty.to_le_bytes());
    r[16..20].copy_from_slice(&base.to_le_bytes());
    r[20..24].copy_from_slice(&initializer.to_le_bytes());
    r[24..28].copy_from_slice(&home.to_le_bytes());
    r
}

fn field_row(name_off: u32, ty: u32, home: u32) -> Vec<u8> {
    let mut r = vec![0u8; 32];
    r[0..4].copy_from_slice(&name_off.to_le_bytes());
    r[12..16].copy_from_slice(&ty.to_le_bytes());
    r[16..20].copy_from_slice(&home.to_le_bytes());
    r
}

/// A module with `struct P { unsigned __int16 w; S* next; }`, a struct `S`,
/// and an object-like macro `FLAG` with body `0x2AUL`.
fn module() -> Vec<u8> {
    let mut b = ImgBuilder::new();
    let s_p = b.intern("P");
    let s_s = b.intern("S");
    let s_w = b.intern("w");
    let s_next = b.intern("next");
    let s_flag = b.intern("FLAG");
    let s_body = b.intern("0x2AUL");
    // type.fundamental[0]: struct basis; [1]: unsigned 16-bit integer
    let mut fund = vec![11, 0, 0, 0];
    fund.extend_from_slice(&[4, 4, 2, 0]);
    b.part("type.fundamental", 4, fund);
    let decl_p = 6 + 0 * 32;
    let decl_s = 6 + 1 * 32;
    let decl_w = 4 + 0 * 32;
    let decl_next = 4 + 1 * 32;
    let ty_struct = 1 + 0 * 32;
    let ty_u16 = 1 + 1 * 32;
    let ty_ptr_s = 6 + 0 * 32;
    let mut scopes = Vec::new();
    scopes.extend(scope_row(s_p * 8, ty_struct, 0, 2, 0));
    scopes.extend(scope_row(s_s * 8, ty_struct, 0, 3, 0));
    b.part("decl.scope", 40, scopes);
    let mut fields = Vec::new();
    fields.extend(field_row(s_w, ty_u16, decl_p));
    fields.extend(field_row(s_next, ty_ptr_s, decl_p));
    b.part("decl.field", 32, fields);
    b.part("type.pointer", 4, u32s(&[2 + 0 * 32]));
    b.part("type.designated", 4, u32s(&[decl_s]));
    // scope 1: global [P, S]; scope 2: body of P; scope 3: body of S (empty)
    b.part("scope.desc", 8, u32s(&[0, 2, 2, 2, 4, 0]));
    b.part("scope.member", 4, u32s(&[decl_p, decl_s, decl_w, decl_next]));
    // macro FLAG with a numeric body
    let mut m = vec![0u8; 16];
    m[8..12].copy_from_slice(&s_flag.to_le_bytes());
    // body: a number form, tag 1 index 0
    m[12..16].copy_from_slice(&(1u32 + 0 * 16).to_le_bytes());
    b.part("macro.object-like", 16, m);
    let mut num = vec![0u8; 12];
    num[8..12].copy_from_slice(&s_body.to_le_bytes());
    b.part("pp.num", 12, num);
    b.global_scope = 1;
    b.build()
}

#[test]
fn whole_module_generates() {
    let ifc = Ifc::load(module()).unwrap();
    let sm = SymbolMap::new();
    let o = Options::default_for_testing();
    let out = gen_rust(&ifc, &sm, &o);
    assert!(out.diagnostics.is_empty(), "diagnostics: {:?}", out.diagnostics);
    let all = out.scopes.join("\n");
    // the struct renders with its fields in order and the pointer is mut
    assert!(all.contains("pub struct P"), "{all}");
    assert!(all.contains("pub w: u16"), "{all}");
    assert!(all.contains("pub next: *mut crate::S"), "{all}");
    assert!(all.contains("pub struct S"), "{all}");
}

#[test]
fn macro_with_numeric_body_translates() {
    let ifc = Ifc::load(module()).unwrap();
    let sm = SymbolMap::new();
    let o = Options::default_for_testing();
    let out = gen_macros(&ifc, &sm, o.macro_filter());
    assert!(out.diagnostics.is_empty(), "diagnostics: {:?}", out.diagnostics);
    assert_eq!(out.macros.len(), 1);
    assert_eq!(out.macros[0].name, "FLAG");
    assert!(out.macros[0].object_like);
    assert_eq!(out.macros[0].body, "42u32");
}

#[test]
fn type_strings_render() {
    let ifc = Ifc::load(module()).unwrap();
    // fundamental row 1 is an unsigned 16-bit integer
    let ty_u16 = ifcgen::index::TypeIndex(1 + 1 * 32);
    assert_eq!(ifc.get_type_string(ty_u16).unwrap(), "unsigned __int16");
    // pointer row 0 points at the designated struct S
    let ty_ptr = ifcgen::index::TypeIndex(6 + 0 * 32);
    assert_eq!(ifc.get_type_string(ty_ptr).unwrap(), "S*");
}

#[test]
fn number_rendering_uses_named_limits() {
    assert_eq!(render_macro_number(MacroNumber::U32(42)), "42u32");
    assert_eq!(render_macro_number(MacroNumber::U32(u32::MAX)), "u32::MAX");
    assert_eq!(render_macro_number(MacroNumber::I32(i32::MIN)), "i32::MIN");
    assert_eq!(render_macro_number(MacroNumber::I32(-5)), "-5i32");
    assert_eq!(render_macro_number(MacroNumber::I64(123)), "123i64");
    assert_eq!(render_macro_number(MacroNumber::U64(7)), "7 as u64");
}

#[test]
fn local_names_nest_under_the_target_module() {
    let ifc = Ifc::load(module()).unwrap();
    let sm = SymbolMap::new();
    let mut o = Options::default_for_testing();
    o.rust_mod_name = vec!["wrapped".to_string(), "inner".to_string()];
    let out = gen_rust(&ifc, &sm, &o);
    assert!(out.diagnostics.is_empty(), "diagnostics: {:?}", out.diagnostics);
    let all = out.scopes.join("\n");
    assert!(all.contains("pub next: *mut crate::wrapped::inner::S"), "{all}");
}
