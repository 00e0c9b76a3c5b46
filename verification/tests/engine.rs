//! Export-closure scenarios: dependency promotion, orphan detection, and
//! run-to-run stability.

use ifcgen::ifc::Ifc;
use ifcgen::options::{Options, TestOptions};
use ifcgen::symbol_map::SymbolMap;
use ifcgen::type_discovery::{walk_global_scope, DiscoveryContext, Disposition};

struct ImgBuilder {
    strings: Vec<u8>,
    parts: Vec<(u32, u32, u32, Vec<u8>)>,
    global_scope: u32,
}

impl ImgBuilder {
    fn new() -> ImgBuilder {
        ImgBuilder { strings: vec![0], parts: Vec::new(), global_scope: 0 }
    }

    fn intern(&mut self, s: &str) -> u32 {
        let off = self.strings.len() as u32;
        self.strings.extend_from_slice(s.as_bytes());
        self.strings.push(0);
        off
    }

    fn part(&mut self, name: &str, entity_size: u32, data: Vec<u8>) {
        let name_off = self.intern(name);
        assert!(data.len() % entity_size as usize == 0);
        let cardinality = (data.len() / entity_size as usize) as u32;
        self.parts.push((name_off, cardinality, entity_size, data));
    }

    fn build(&self) -> Vec<u8> {
        let mut img: Vec<u8> = vec![0x54, 0x51, 0x45, 0x1A];
        img.extend_from_slice(&[0u8; 72]);
        let strings_at = img.len() as u32;
        img.extend_from_slice(&self.strings);
        let mut placed: Vec<(u32, u32, u32, u32)> = Vec::new();
        for (name_off, card, size, data) in &self.parts {
            let at = img.len() as u32;
            img.extend_from_slice(data);
            placed.push((*name_off, at, *card, *size));
        }
        let toc_at = img.len() as u32;
        for (name_off, at, card, size) in &placed {
            img.extend_from_slice(&name_off.to_le_bytes());
            img.extend_from_slice(&at.to_le_bytes());
            img.extend_from_slice(&card.to_le_bytes());
            img.extend_from_slice(&size.to_le_bytes());
        }
        let put = |img: &mut Vec<u8>, off: usize, v: u32| {
            img[4 + off..4 + off + 4].copy_from_slice(&v.to_le_bytes());
        };
        put(&mut img, 40, strings_at);
        put(&mut img, 44, self.strings.len() as u32);
        put(&mut img, 56, self.global_scope);
        put(&mut img, 60, toc_at);
        put(&mut img, 64, placed.len() as u32);
        img
    }
}

fn u32s(vals: &[u32]) -> Vec<u8> {
    let mut out = Vec::new();
    for v in vals {
        out.extend_from_slice(&v.to_le_bytes());
    }
    out
}

/// A scope declaration row: a struct, class or namespace.
fn scope_row(name_ix: u32, ty: u32, base: u32, initializer: u32, home: u32) -> Vec<u8> {
    let mut r = vec![0u8; 40];
    r[0..4].copy_from_slice(&name_ix.to_le_bytes());
    r[12..16].copy_from_slice(&ty.to_le_bytes());
    r[16..20].copy_from_slice(&base.to_le_bytes());
    r[20..24].copy_from_slice(&initializer.to_le_bytes());
    r[24..28].copy_from_slice(&home.to_le_bytes());
    r
}

/// A data-member declaration row.
fn field_row(name_off: u32, ty: u32, home: u32) -> Vec<u8> {
    let mut r = vec![0u8; 32];
    r[0..4].copy_from_slice(&name_off.to_le_bytes());
    r[12..16].copy_from_slice(&ty.to_le_bytes());
    r[16..20].copy_from_slice(&home.to_le_bytes());
    r
}

/// A module with a struct `A { B* fb; C* fc; }`, a struct `B` declared at
/// top level, and a struct `C` only forward-declared behind the pointer.
fn sample_module() -> Vec<u8> {
    let mut b = ImgBuilder::new();
    let s_a = b.intern("A");
    let s_b = b.intern("B");
    let s_c = b.intern("C");
    let s_fb = b.intern("fb");
    let s_fc = b.intern("fc");
    // type.fundamental[0]: a struct basis
    b.part("type.fundamental", 4, vec![11, 0, 0, 0]);
    // decl keys: tag in the low 5 bits; scope tag 6, field tag 4
    let decl_b = 6 + 0 * 32;
    let decl_a = 6 + 1 * 32;
    let decl_c = 6 + 2 * 32;
    let decl_fb = 4 + 0 * 32;
    let decl_fc = 4 + 1 * 32;
    // type keys: fundamental tag 1, designated tag 2, pointer tag 6
    let ty_fund = 1 + 0 * 32;
    let ty_ptr_b = 6 + 0 * 32;
    let ty_ptr_c = 6 + 1 * 32;
    let mut scopes = Vec::new();
    scopes.extend(scope_row(s_b * 8, ty_fund, 0, 0, 0));
    scopes.extend(scope_row(s_a * 8, ty_fund, 0, 2, 0));
    scopes.extend(scope_row(s_c * 8, ty_fund, 0, 0, 0));
    b.part("decl.scope", 40, scopes);
    let mut fields = Vec::new();
    fields.extend(field_row(s_fb, ty_ptr_b, decl_a));
    fields.extend(field_row(s_fc, ty_ptr_c, decl_a));
    b.part("decl.field", 32, fields);
    b.part("type.pointer", 4, u32s(&[2 + 0 * 32, 2 + 1 * 32]));
    b.part("type.designated", 4, u32s(&[decl_b, decl_c]));
    // scope 1 is the global scope [B, A]; scope 2 is the body of A
    b.part("scope.desc", 8, u32s(&[0, 2, 2, 2]));
    b.part("scope.member", 4, u32s(&[decl_b, decl_a, decl_fb, decl_fc]));
    b.global_scope = 1;
    b.build()
}

fn included_path(st: &ifcgen::type_discovery::DiscoveryState, key: u32) -> Option<String> {
    for (k, d) in &st.decisions {
        if *k == key {
            return match d {
                Disposition::Included(rn) => Some(rn.path.clone()),
                _ => None,
            };
        }
    }
    None
}

#[test]
fn pending_dependency_is_promoted_to_included() {
    // only ::A passes the type filter; B is deferred when walked, then a
    // field of A references it and it must come back as included
    let ifc = Ifc::load(sample_module()).unwrap();
    let sm = SymbolMap::new();
    let renamed: Vec<(u32, String)> = Vec::new();
    let t = TestOptions { allowlist_type: &["^::A$"], ..Default::default() };
    let o = Options::for_testing(&t).unwrap();
    let ctx = DiscoveryContext {
        ifc: &ifc,
        symbol_map: &sm,
        renamed_decls: &renamed,
        type_filter: o.type_filter(),
        function_filter: o.function_filter(),
        variable_filter: o.variable_filter(),
    };
    let st = walk_global_scope(&ctx);
    assert_eq!(included_path(&st, 6).as_deref(), Some("::B"));
    assert_eq!(included_path(&st, 38).as_deref(), Some("::A"));
    // B was registered as an emitted member of the global scope
    assert!(st.members.iter().any(|(sc, m, n)| *sc == 0 && *m == 6 && n == "B"));
    // and its own dependencies were pulled in: nothing pending remains for B
    assert!(!st.decisions.iter().any(|(k, d)| *k == 6
        && matches!(d, Disposition::Pending(_))));
}

#[test]
fn declaration_reachable_only_by_pointer_is_an_orphan_once() {
    // C is never a member of a walked scope; it is reachable only through
    // a forward-declared pointer field, so it is an orphan, exactly once
    let ifc = Ifc::load(sample_module()).unwrap();
    let sm = SymbolMap::new();
    let renamed: Vec<(u32, String)> = Vec::new();
    let t = TestOptions { allowlist_type: &["^::A$"], ..Default::default() };
    let o = Options::for_testing(&t).unwrap();
    let ctx = DiscoveryContext {
        ifc: &ifc,
        symbol_map: &sm,
        renamed_decls: &renamed,
        type_filter: o.type_filter(),
        function_filter: o.function_filter(),
        variable_filter: o.variable_filter(),
    };
    let st = walk_global_scope(&ctx);
    let c_key = 6 + 2 * 32;
    let hits: Vec<_> = st.orphans.iter().filter(|(k, _)| *k == c_key).collect();
    assert_eq!(hits.len(), 1);
    assert_eq!(hits[0].1, "C");
    assert_eq!(st.orphans.len(), 1);
    assert_eq!(included_path(&st, c_key).as_deref(), Some("::C"));
}

#[test]
fn closure_runs_are_identical() {
    // running the closure twice on the same input and filters yields
    // identical decisions, members and orphans
    let ifc = Ifc::load(sample_module()).unwrap();
    let sm = SymbolMap::new();
    let renamed: Vec<(u32, String)> = Vec::new();
    let t = TestOptions { allowlist_type: &["^::A$"], ..Default::default() };
    let o = Options::for_testing(&t).unwrap();
    let ctx = DiscoveryContext {
        ifc: &ifc,
        symbol_map: &sm,
        renamed_decls: &renamed,
        type_filter: o.type_filter(),
        function_filter: o.function_filter(),
        variable_filter: o.variable_filter(),
    };
    let st1 = walk_global_scope(&ctx);
    let st2 = walk_global_scope(&ctx);
    assert_eq!(st1.members, st2.members);
    assert_eq!(st1.orphans, st2.orphans);
    assert_eq!(st1.decisions.len(), st2.decisions.len());
    for ((k1, d1), (k2, d2)) in st1.decisions.iter().zip(st2.decisions.iter()) {
        assert_eq!(k1, k2);
        match (d1, d2) {
            (Disposition::Required, Disposition::Required) => {}
            (Disposition::Pending(a), Disposition::Pending(b)) => {
                assert_eq!(a.full, b.full);
            }
            (Disposition::Included(a), Disposition::Included(b)) => {
                assert_eq!(a.path, b.path);
                assert_eq!(a.extern_crate, b.extern_crate);
            }
            _ => panic!("decisions differ between runs"),
        }
    }
}

#[test]
fn everything_included_without_filters() {
    let ifc = Ifc::load(sample_module()).unwrap();
    let sm = SymbolMap::new();
    let renamed: Vec<(u32, String)> = Vec::new();
    let o = Options::default_for_testing();
    let ctx = DiscoveryContext {
        ifc: &ifc,
        symbol_map: &sm,
        renamed_decls: &renamed,
        type_filter: o.type_filter(),
        function_filter: o.function_filter(),
        variable_filter: o.variable_filter(),
    };
    let st = walk_global_scope(&ctx);
    assert_eq!(included_path(&st, 6).as_deref(), Some("::B"));
    assert_eq!(included_path(&st, 38).as_deref(), Some("::A"));
    assert!(st.members.iter().any(|(sc, m, n)| *sc == 38 && *m == 4 && n == "fb"));
    assert!(st.members.iter().any(|(sc, m, n)| *sc == 38 && *m == 36 && n == "fc"));
}

#[test]
fn blocked_dependency_is_still_included() {
    // ::B is on the block-list, so it is deferred when walked; a field of
    // A then requires it, and a dependency edge overrides the filter
    let ifc = Ifc::load(sample_module()).unwrap();
    let sm = SymbolMap::new();
    let renamed: Vec<(u32, String)> = Vec::new();
    let t = TestOptions { blocklist_type: &["^::B$"], ..Default::default() };
    let o = Options::for_testing(&t).unwrap();
    let ctx = DiscoveryContext {
        ifc: &ifc,
        symbol_map: &sm,
        renamed_decls: &renamed,
        type_filter: o.type_filter(),
        function_filter: o.function_filter(),
        variable_filter: o.variable_filter(),
    };
    let st = walk_global_scope(&ctx);
    assert_eq!(included_path(&st, 6).as_deref(), Some("::B"));
    assert_eq!(included_path(&st, 38).as_deref(), Some("::A"));
}
