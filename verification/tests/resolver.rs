//! Cross-module symbol resolution: the module passed first keeps a name
//! both modules define.

use ifcgen::ifc::Ifc;
use ifcgen::symbol_map::SymbolMap;

struct ImgBuilder {
    strings: Vec<u8>,
    parts: Vec<(u32, u32, u32, Vec<u8>)>,
    global_scope: u32,
}

impl ImgBuilder {
    fn new() -> ImgBuilder {
        ImgBuilder { strings: vec![0], parts: Vec::new(), global_scope: 0 }
    }

    fn intern(&mut self, s: &str) -> u32 {
        let off = self.strings.len() as u32;
        self.strings.extend_from_slice(s.as_bytes());
        self.strings.push(0);
        off
    }

    fn part(&mut self, name: &str, entity_size: u32, data: Vec<u8>) {
        let name_off = self.intern(name);
        assert!(data.len() % entity_size as usize == 0);
        let cardinality = (data.len() / entity_size as usize) as u32;
        self.parts.push((name_off, cardinality, entity_size, data));
    }

    fn build(&self) -> Vec<u8> {
        let mut img: Vec<u8> = vec![0x54, 0x51, 0x45, 0x1A];
        img.extend_from_slice(&[0u8; 72]);
        let strings_at = img.len() as u32;
        img.extend_from_slice(&self.strings);
        let mut placed: Vec<(u32, u32, u32, u32)> = Vec::new();
        for (name_off, card, size, data) in &self.parts {
            let at = img.len() as u32;
            img.extend_from_slice(data);
            placed.push((*name_off, at, *card, *size));
        }
        let toc_at = img.len() as u32;
        for (name_off, at, card, size) in &placed {
            img.extend_from_slice(&name_off.to_le_bytes());
            img.extend_from_slice(&at.to_le_bytes());
            img.extend_from_slice(&card.to_le_bytes());
            img.extend_from_slice(&size.to_le_bytes());
        }
        let put = |img: &mut Vec<u8>, off: usize, v: u32| {
            img[4 + off..4 + off + 4].copy_from_slice(&v.to_le_bytes());
        };
        put(&mut img, 40, strings_at);
        put(&mut img, 44, self.strings.len() as u32);
        put(&mut img, 56, self.global_scope);
        put(&mut img, 60, toc_at);
        put(&mut img, 64, placed.len() as u32);
        img
    }
}

fn u32s(vals: &[u32]) -> Vec<u8> {
    let mut out = Vec::new();
    for v in vals {
        out.extend_from_slice(&v.to_le_bytes());
    }
    out
}

/// A module whose global scope defines one struct named `Foo`, and one
/// object-like macro named `M`.
fn module_with_foo() -> Vec<u8> {
    let mut b = ImgBuilder::new();
    let s_foo = b.intern("Foo");
    let s_m = b.intern("M");
    b.part("type.fundamental", 4, vec![11, 0, 0, 0]);
    let mut scopes = Vec::new();
    let mut r = vec![0u8; 40];
    r[0..4].copy_from_slice(&(s_foo * 8).to_le_bytes());
    r[12..16].copy_from_slice(&1u32.to_le_bytes());
    scopes.extend(r);
    b.part("decl.scope", 40, scopes);
    b.part("scope.desc", 8, u32s(&[0, 1]));
    b.part("scope.member", 4, u32s(&[6]));
    let mut macro_row = vec![0u8; 16];
    macro_row[8..12].copy_from_slice(&s_m.to_le_bytes());
    b.part("macro.object-like", 16, macro_row);
    b.global_scope = 1;
    b.build()
}

#[test]
fn first_module_keeps_a_contested_name() {
    // two reference modules both define ::Foo; the one passed first wins
    let ifc1 = Ifc::load(module_with_foo()).unwrap();
    let ifc2 = Ifc::load(module_with_foo()).unwrap();
    let mut sm = SymbolMap::new();
    let ix1 = sm.add_ref_ifc("crate_one".to_string(), &ifc1).unwrap();
    let ix2 = sm.add_ref_ifc("crate_two".to_string(), &ifc2).unwrap();
    assert_eq!(ix1, 0);
    assert_eq!(ix2, 1);
    assert_eq!(sm.resolve("::Foo").map(|s| s.as_str()), Some("crate_one"));
    assert_eq!(sm.resolve("::Bar"), None);
}

#[test]
fn macros_resolve_by_bare_name() {
    let ifc1 = Ifc::load(module_with_foo()).unwrap();
    let mut sm = SymbolMap::new();
    sm.add_ref_ifc("dep".to_string(), &ifc1).unwrap();
    assert!(sm.is_object_like_macro_in("M"));
    assert!(!sm.is_function_like_macro_in("M"));
    assert_eq!(sm.resolve_object_like_macro("M").map(|s| s.as_str()), Some("dep"));
    assert_eq!(sm.resolve_function_like_macro("M"), None);
}

#[test]
fn empty_resolver_resolves_nothing() {
    let sm = SymbolMap::new();
    assert_eq!(sm.resolve("::Foo"), None);
    assert!(!sm.is_object_like_macro_in("M"));
}
