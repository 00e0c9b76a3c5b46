//! Cross-module symbol resolution: which fully qualified names each
//! referenced module already defines.
//!
//! Reference modules are added in processing order; on a name collision the
//! module with the lower reference index keeps the name.

use vstd::prelude::*;
use vstd::string::StringExecFns;
use crate::error::Error;
use crate::ifc::Ifc;
use crate::index::DeclIndex;
use crate::parts::PartsView;
use crate::query::{spec_scope_members, spec_is_fund_basis, IterScope};
use crate::records::{TextOffset, ScopeIndex, MacroObjectLike, MacroFunctionLike};
use crate::sorts::{DeclSort, NameSort, TypeBasis, TypeSort};
use crate::strings::spec_string_at;

verus! {

/// Bound on namespace nesting while scanning a reference module.
pub const MAX_SCOPE_DEPTH: u32 = 64;

/// Name-to-module entries as character sequences.
pub open spec fn sm_view(v: Seq<(String, usize)>) -> Seq<(Seq<char>, usize)> {
    v.map_values(|p: (String, usize)| (p.0@, p.1))
}

/// The module index recorded for a name: the first entry that carries it.
pub open spec fn spec_lookup(entries: Seq<(Seq<char>, usize)>, name: Seq<char>) -> Option<usize>
    decreases entries.len(),
{
    if entries.len() == 0 {
        None
    } else if entries[0].0 == name {
        Some(entries[0].1)
    } else {
        spec_lookup(entries.drop_first(), name)
    }
}

/// Skipping entries that do not carry the name leaves the lookup unchanged.
proof fn lemma_lookup_skip(s: Seq<(Seq<char>, usize)>, name: Seq<char>, i: int)
    requires
        0 <= i <= s.len(),
        forall|j: int| 0 <= j < i ==> s[j].0 != name,
    ensures
        spec_lookup(s, name) == spec_lookup(s.skip(i), name),
    decreases i,
{
    if i > 0 {
        lemma_lookup_skip(s, name, i - 1);
        assert(s.skip(i - 1).drop_first() =~= s.skip(i));
    } else {
        assert(s.skip(0) =~= s);
    }
}

/// The entries after one name is offered for a module: a new name is
/// appended; a recorded name keeps the smaller module index.
pub open spec fn spec_sm_add(
    entries: Seq<(Seq<char>, usize)>,
    name: Seq<char>,
    ifc_index: usize,
) -> Seq<(Seq<char>, usize)> {
    match spec_first_pos(entries, name) {
        Some(p) => if ifc_index < entries[p].1 {
            entries.update(p, (name, ifc_index))
        } else {
            entries
        },
        None => entries.push((name, ifc_index)),
    }
}

/// Position of the first entry carrying the name.
pub open spec fn spec_first_pos(entries: Seq<(Seq<char>, usize)>, name: Seq<char>) -> Option<int>
    decreases entries.len(),
{
    if entries.len() == 0 {
        None
    } else if entries[0].0 == name {
        Some(0)
    } else {
        match spec_first_pos(entries.drop_first(), name) {
            Some(p) => Some(p + 1),
            None => None,
        }
    }
}

/// First position and lookup agree.
proof fn lemma_first_pos_lookup(entries: Seq<(Seq<char>, usize)>, name: Seq<char>)
    ensures
        spec_first_pos(entries, name) matches Some(p) ==> 0 <= p < entries.len()
            && entries[p].0 == name && spec_lookup(entries, name) == Some(entries[p].1)
            && (forall|j: int| 0 <= j < p ==> (#[trigger] entries[j]).0 != name),
        spec_first_pos(entries, name) is None ==> spec_lookup(entries, name) is None
            && (forall|j: int| 0 <= j < entries.len() ==> (#[trigger] entries[j]).0 != name),
    decreases entries.len(),
{
    if entries.len() > 0 && entries[0].0 != name {
        lemma_first_pos_lookup(entries.drop_first(), name);
        match spec_first_pos(entries.drop_first(), name) {
            Some(p0) => {
                assert(entries[p0 + 1] == entries.drop_first()[p0]);
                assert forall|j: int| 0 <= j < p0 + 1 implies (#[trigger] entries[j]).0 != name by {
                    if j > 0 {
                        assert(entries[j] == entries.drop_first()[j - 1]);
                    }
                }
            },
            None => {
                assert forall|j: int|
                    0 <= j < entries.len() implies (#[trigger] entries[j]).0 != name by {
                    if j > 0 {
                        assert(entries[j] == entries.drop_first()[j - 1]);
                    }
                }
            },
        }
    }
}

/// A name first defined by an earlier module keeps that module, whatever
/// later module offers the same name.
pub proof fn lemma_first_module_wins(
    entries: Seq<(Seq<char>, usize)>,
    name: Seq<char>,
    later: usize,
)
    requires
        spec_lookup(entries, name) matches Some(first) && first <= later,
    ensures
        spec_lookup(spec_sm_add(entries, name, later), name) == spec_lookup(entries, name),
{
    lemma_first_pos_lookup(entries, name);
}

/// Per referenced module, the fully qualified names it already defines.
pub struct SymbolMap {
    /// Target-language crate name of each referenced module, in order.
    pub crates: Vec<String>,
    /// Global-namespace type, function and variable names, to the module
    /// that first defined each.
    pub global_symbols: Vec<(String, usize)>,
    /// Object-like macro names, to the module that first defined each.
    pub object_like_macros: Vec<(String, usize)>,
    /// Function-like macro names, to the module that first defined each.
    pub function_like_macros: Vec<(String, usize)>,
}

/// A whole generation session: the resolver shared by every module.
pub struct Session {
    pub symbols: SymbolMap,
}

/// Replacement names computed for declarations before a walk, keyed by the
/// declaration's packed reference value.
pub struct SymbolRemaps {
    pub decl_name_remap: Vec<(u32, String)>,
}

/// One referenced module: its crate name and its loaded container.
pub struct ReferencedIfc {
    pub name: String,
    pub ifc: std::sync::Arc<Ifc>,
}

/// Offers one name for a module to a name-to-module table.
fn add_symbol(map: &mut Vec<(String, usize)>, name: String, ifc_index: usize)
    ensures
        sm_view(final(map)@) == spec_sm_add(sm_view(old(map)@), name@, ifc_index),
{
    let ghost orig = sm_view(map@);
    let mut i: usize = 0;
    while i < map.len()
        invariant
            i <= map@.len(),
            orig == sm_view(map@),
            orig == sm_view(old(map)@),
            forall|j: int| 0 <= j < i ==> (#[trigger] sm_view(map@)[j]).0 != name@,
        decreases map@.len() - i,
    {
        let hit = crate::bytes::str_eq(map[i].0.as_str(), name.as_str());
        proof {
            assert(sm_view(map@)[i as int].0 == map@[i as int].0@);
        }
        if hit {
            proof {
                lemma_first_pos_skip(orig, name@, i as int);
                assert(sm_view(map@)[i as int].1 == map@[i as int].1);
            }
            proof {
                assert(orig[i as int].0 == name@);
                assert(spec_first_pos(orig, name@) == Some(i as int));
            }
            if ifc_index < map[i].1 {
                proof {
                    assert(ifc_index < orig[i as int].1);
                }
                map.set(i, (name, ifc_index));
                proof {
                    assert forall|j: int| 0 <= j < map@.len() implies
                        #[trigger] sm_view(map@)[j] == orig.update(
                            i as int, (name@, ifc_index))[j] by {
                        assert(sm_view(map@)[j] == (map@[j].0@, map@[j].1));
                    }
                    assert(sm_view(map@) =~= orig.update(i as int, (name@, ifc_index)));
                    assert(sm_view(map@) == spec_sm_add(orig, name@, ifc_index));
                }
            } else {
                proof {
                    assert(!(ifc_index < orig[i as int].1));
                    assert(sm_view(map@) == orig);
                    assert(sm_view(map@) == spec_sm_add(orig, name@, ifc_index));
                }
            }
            return ;
        }
        i += 1;
    }
    proof {
        lemma_first_pos_skip(orig, name@, map@.len() as int);
    }
    map.push((name, ifc_index));
    proof {
        assert(sm_view(map@) =~= orig.push((name@, ifc_index)));
    }
}

/// A scan that saw no match up to `i` fixes the first position beyond it.
proof fn lemma_first_pos_skip(s: Seq<(Seq<char>, usize)>, name: Seq<char>, i: int)
    requires
        0 <= i <= s.len(),
        forall|j: int| 0 <= j < i ==> (#[trigger] s[j]).0 != name,
    ensures
        i < s.len() && s[i].0 == name ==> spec_first_pos(s, name) == Some(i),
        i == s.len() ==> spec_first_pos(s, name) is None,
{
    lemma_first_pos_skip_rec(s, name, i);
}

/// Helper induction for [`lemma_first_pos_skip`].
proof fn lemma_first_pos_skip_rec(s: Seq<(Seq<char>, usize)>, name: Seq<char>, i: int)
    requires
        0 <= i <= s.len(),
        forall|j: int| 0 <= j < i ==> (#[trigger] s[j]).0 != name,
    ensures
        i < s.len() && s[i].0 == name ==> spec_first_pos(s, name) == Some(i),
        i == s.len() ==> spec_first_pos(s, name) is None,
    decreases s.len(),
{
    if s.len() > 0 {
        if s[0].0 == name {
        } else if i > 0 {
            lemma_first_pos_skip_rec(s.drop_first(), name, i - 1);
        } else {
            lemma_first_pos_skip_rec(s.drop_first(), name, 0);
        }
    }
}

impl SymbolMap {
    /// A resolver with no referenced modules.
    pub fn new() -> (r: SymbolMap)
        ensures
            r.crates@.len() == 0,
            r.global_symbols@.len() == 0,
            r.object_like_macros@.len() == 0,
            r.function_like_macros@.len() == 0,
    {
        SymbolMap {
            crates: Vec::new(),
            global_symbols: Vec::new(),
            object_like_macros: Vec::new(),
            function_like_macros: Vec::new(),
        }
    }

    /// Whether a referenced module defines an object-like macro by this
    /// name.
    pub fn is_object_like_macro_in(&self, name: &str) -> (r: bool)
        ensures
            r == (spec_lookup(sm_view(self.object_like_macros@), name@) is Some),
    {
        lookup(&self.object_like_macros, name).is_some()
    }

    /// Whether a referenced module defines a function-like macro by this
    /// name.
    pub fn is_function_like_macro_in(&self, name: &str) -> (r: bool)
        ensures
            r == (spec_lookup(sm_view(self.function_like_macros@), name@) is Some),
    {
        lookup(&self.function_like_macros, name).is_some()
    }

    /// The crate that already defines a global name, if one does.
    pub fn resolve(&self, name: &str) -> (r: Option<&String>)
        ensures
            r is Some <==> (spec_lookup(sm_view(self.global_symbols@), name@) is Some
                && spec_lookup(sm_view(self.global_symbols@), name@).unwrap()
                    < self.crates@.len()),
            r matches Some(c) ==> c@ == self.crates@[
                spec_lookup(sm_view(self.global_symbols@), name@).unwrap() as int]@,
    {
        match lookup(&self.global_symbols, name) {
            Some(ix) => if ix < self.crates.len() {
                Some(&self.crates[ix])
            } else {
                None
            },
            None => None,
        }
    }

    /// The crate that already defines an object-like macro by this name.
    pub fn resolve_object_like_macro(&self, name: &str) -> (r: Option<&String>)
        ensures
            r is Some <==> (spec_lookup(sm_view(self.object_like_macros@), name@) is Some
                && spec_lookup(sm_view(self.object_like_macros@), name@).unwrap()
                    < self.crates@.len()),
            r matches Some(c) ==> c@ == self.crates@[
                spec_lookup(sm_view(self.object_like_macros@), name@).unwrap() as int]@,
    {
        match lookup(&self.object_like_macros, name) {
            Some(ix) => if ix < self.crates.len() {
                Some(&self.crates[ix])
            } else {
                None
            },
            None => None,
        }
    }

    /// The crate that already defines a function-like macro by this name.
    pub fn resolve_function_like_macro(&self, name: &str) -> (r: Option<&String>)
        ensures
            r is Some <==> (spec_lookup(sm_view(self.function_like_macros@), name@) is Some
                && spec_lookup(sm_view(self.function_like_macros@), name@).unwrap()
                    < self.crates@.len()),
            r matches Some(c) ==> c@ == self.crates@[
                spec_lookup(sm_view(self.function_like_macros@), name@).unwrap() as int]@,
    {
        match lookup(&self.function_like_macros, name) {
            Some(ix) => if ix < self.crates.len() {
                Some(&self.crates[ix])
            } else {
                None
            },
            None => None,
        }
    }
}

/// First-match lookup in a name-to-module table.
pub fn lookup(map: &Vec<(String, usize)>, name: &str) -> (r: Option<usize>)
    ensures
        r == spec_lookup(sm_view(map@), name@),
{
    let mut i: usize = 0;
    while i < map.len()
        invariant
            i <= map@.len(),
            forall|j: int| 0 <= j < i ==> (#[trigger] sm_view(map@)[j]).0 != name@,
        decreases map@.len() - i,
    {
        let hit = crate::bytes::str_eq(map[i].0.as_str(), name);
        proof {
            assert(sm_view(map@)[i as int].0 == map@[i as int].0@);
        }
        if hit {
            proof {
                lemma_lookup_skip(sm_view(map@), name@, i as int);
            }
            return Some(map[i].1);
        }
        i += 1;
    }
    proof {
        lemma_lookup_skip(sm_view(map@), name@, map@.len() as int);
    }
    None
}

/// The name table after one scope's members were offered, namespaces
/// flattened recursively: nested types, aliases, enumerations, named
/// functions and named variables contribute `prefix::name`; other member
/// kinds are skipped. `None` marks a structural fault: a row or member
/// range out of bounds, a name that does not resolve, or nesting deeper
/// than `depth`.
pub open spec fn spec_add_scope(
    pv: PartsView,
    strings: Seq<u8>,
    entries: Seq<(Seq<char>, usize)>,
    container: u32,
    prefix: Seq<char>,
    ifc_index: usize,
    depth: nat,
) -> Option<Seq<(Seq<char>, usize)>>
    decreases depth, 0nat, 0nat,
{
    if container == 0 {
        None
    } else {
        match spec_scope_members(pv, container) {
            Some(ms) => if depth == 0 {
                None
            } else {
                spec_add_scope_members(pv, strings, entries, ms, prefix, ifc_index,
                    (depth - 1) as nat)
            },
            None => None,
        }
    }
}

/// The name table after each member of a list was offered in order.
pub open spec fn spec_add_scope_members(
    pv: PartsView,
    strings: Seq<u8>,
    entries: Seq<(Seq<char>, usize)>,
    members: Seq<DeclIndex>,
    prefix: Seq<char>,
    ifc_index: usize,
    depth: nat,
) -> Option<Seq<(Seq<char>, usize)>>
    decreases depth, 1nat, members.len(),
{
    if members.len() == 0 {
        Some(entries)
    } else {
        let step = spec_add_scope_member(pv, strings, entries, members[0], prefix, ifc_index,
            depth);
        match step {
            Some(e2) => spec_add_scope_members(pv, strings, e2, members.drop_first(), prefix,
                ifc_index, depth),
            None => None,
        }
    }
}

/// The name table after one member declaration was offered.
pub open spec fn spec_add_scope_member(
    pv: PartsView,
    strings: Seq<u8>,
    entries: Seq<(Seq<char>, usize)>,
    d: DeclIndex,
    prefix: Seq<char>,
    ifc_index: usize,
    depth: nat,
) -> Option<Seq<(Seq<char>, usize)>>
    decreases depth, 0nat, 1nat,
{
    match DeclSort::spec_from_u32(d.spec_tag()) {
        Some(DeclSort::SCOPE) => if d.spec_index() < pv.decl_scope.len() {
            let sc = pv.decl_scope[d.spec_index() as int];
            if NameSort::spec_from_u32(sc.name.spec_tag()) == Some(NameSort::IDENTIFIER) {
                match spec_string_at(strings, sc.name.spec_index() as int) {
                    Some(nm) => if TypeSort::spec_from_u32(sc.ty.spec_tag())
                        == Some(TypeSort::FUNDAMENTAL)
                        && sc.ty.spec_index() >= pv.type_fundamental.len() {
                        None
                    } else if spec_is_fund_basis(pv, sc.ty, TypeBasis::NAMESPACE) {
                        spec_add_scope(pv, strings, entries, sc.initializer,
                            prefix + "::"@ + nm, ifc_index, depth)
                    } else {
                        Some(spec_sm_add(entries, prefix + "::"@ + nm, ifc_index))
                    },
                    None => None,
                }
            } else {
                Some(entries)
            }
        } else {
            None
        },
        Some(DeclSort::ALIAS) => if d.spec_index() < pv.decl_alias.len() {
            match spec_string_at(strings, pv.decl_alias[d.spec_index() as int].name as int) {
                Some(nm) => Some(spec_sm_add(entries, prefix + "::"@ + nm, ifc_index)),
                None => None,
            }
        } else {
            None
        },
        Some(DeclSort::ENUMERATION) => if d.spec_index() < pv.decl_enum.len() {
            match spec_string_at(strings, pv.decl_enum[d.spec_index() as int].name as int) {
                Some(nm) => Some(spec_sm_add(entries, prefix + "::"@ + nm, ifc_index)),
                None => None,
            }
        } else {
            None
        },
        Some(DeclSort::FUNCTION) => if d.spec_index() < pv.decl_function.len() {
            let f = pv.decl_function[d.spec_index() as int];
            if NameSort::spec_from_u32(f.name.spec_tag()) == Some(NameSort::IDENTIFIER) {
                match spec_string_at(strings, f.name.spec_index() as int) {
                    Some(nm) => Some(spec_sm_add(entries, prefix + "::"@ + nm, ifc_index)),
                    None => None,
                }
            } else {
                Some(entries)
            }
        } else {
            None
        },
        Some(DeclSort::VARIABLE) => if d.spec_index() < pv.decl_var.len() {
            let v = pv.decl_var[d.spec_index() as int];
            if NameSort::spec_from_u32(v.name.spec_tag()) == Some(NameSort::IDENTIFIER) {
                match spec_string_at(strings, v.name.spec_index() as int) {
                    Some(nm) => Some(spec_sm_add(entries, prefix + "::"@ + nm, ifc_index)),
                    None => None,
                }
            } else {
                Some(entries)
            }
        } else {
            None
        },
        _ => Some(entries),
    }
}

/// Offers each member of one scope, flattening nested namespaces.
fn add_scope_names(
    map: &mut Vec<(String, usize)>,
    ifc: &Ifc,
    container: ScopeIndex,
    prefix: &str,
    ifc_index: usize,
    depth: u32,
) -> (r: Result<(), Error>)
    requires
        ifc.wf(),
    ensures
        r is Ok <==> spec_add_scope(ifc.parts@, ifc.spec_strings(), sm_view(old(map)@),
            container, prefix@, ifc_index, depth as nat) is Some,
        r is Ok ==> Some(sm_view(final(map)@)) == spec_add_scope(ifc.parts@,
            ifc.spec_strings(), sm_view(old(map)@), container, prefix@, ifc_index,
            depth as nat),
    decreases depth, 0int,
{
    let ghost pv = ifc.parts@;
    let ghost strings = ifc.spec_strings();
    let ghost e0 = sm_view(map@);
    if container == 0 {
        return Err(Error::bad("scope reference is null"));
    }
    let it = match ifc.iter_scope(container) {
        Ok(it) => it,
        Err(e) => {
            return Err(e);
        },
    };
    if depth == 0 {
        return Err(Error::MaxDepthExceeded);
    }
    let members: Vec<DeclIndex> = it.members;
    let ghost ms = members@;
    proof {
        assert(ms.skip(0) =~= ms);
    }
    let mut k: usize = 0;
    while k < members.len()
        invariant
            ifc.wf(),
            pv == ifc.parts@,
            strings == ifc.spec_strings(),
            k <= members@.len(),
            members@ == ms,
            depth >= 1,
            e0 == sm_view(old(map)@),
            spec_scope_members(pv, container) == Some(ms),
            container != 0,
            spec_add_scope_members(pv, strings, e0, ms, prefix@, ifc_index,
                (depth - 1) as nat) == spec_add_scope_members(pv, strings, sm_view(map@),
                ms.skip(k as int), prefix@, ifc_index, (depth - 1) as nat),
        decreases members@.len() - k,
    {
        let d = members[k];
        let ghost cur = sm_view(map@);
        proof {
            assert(ms.skip(k as int)[0] == ms[k as int]);
            assert(ms.skip(k as int).drop_first() =~= ms.skip(k as int + 1));
        }
        match add_scope_member(map, ifc, d, prefix, ifc_index, depth - 1) {
            Ok(()) => {},
            Err(e) => {
                return Err(e);
            },
        }
        k += 1;
    }
    proof {
        assert(ms.skip(ms.len() as int) =~= Seq::<DeclIndex>::empty());
    }
    Ok(())
}

/// Offers one member declaration of a scope.
fn add_scope_member(
    map: &mut Vec<(String, usize)>,
    ifc: &Ifc,
    d: DeclIndex,
    prefix: &str,
    ifc_index: usize,
    depth: u32,
) -> (r: Result<(), Error>)
    requires
        ifc.wf(),
    ensures
        r is Ok <==> spec_add_scope_member(ifc.parts@, ifc.spec_strings(),
            sm_view(old(map)@), d, prefix@, ifc_index, depth as nat) is Some,
        r is Ok ==> Some(sm_view(final(map)@)) == spec_add_scope_member(ifc.parts@,
            ifc.spec_strings(), sm_view(old(map)@), d, prefix@, ifc_index, depth as nat),
    decreases depth, 1int,
{
    match DeclSort::from_u32(d.tag()) {
        Some(DeclSort::SCOPE) => {
            let sc = *match ifc.decl_scope().entry(d.index()) {
                Ok(v) => v,
                Err(e) => {
                    return Err(e);
                },
            };
            if !matches!(NameSort::from_u32(sc.name.tag()), Some(NameSort::IDENTIFIER)) {
                return Ok(());
            }
            let nm = match ifc.get_string(sc.name.index()) {
                Ok(s) => s,
                Err(e) => {
                    return Err(e);
                },
            };
            let mut nested: String = prefix.to_owned();
            nested.append("::");
            nested.append(nm);
            let is_ns = match ifc.is_type_namespace(sc.ty) {
                Ok(b) => b,
                Err(e) => {
                    return Err(e);
                },
            };
            if is_ns {
                if depth == 0 {
                    return Err(Error::MaxDepthExceeded);
                }
                add_scope_names(map, ifc, sc.initializer, nested.as_str(), ifc_index,
                    depth)
            } else {
                add_symbol(map, nested, ifc_index);
                Ok(())
            }
        },
        Some(DeclSort::ALIAS) => {
            let a = *match ifc.decl_alias().entry(d.index()) {
                Ok(v) => v,
                Err(e) => {
                    return Err(e);
                },
            };
            let nm = match ifc.get_string(a.name) {
                Ok(s) => s,
                Err(e) => {
                    return Err(e);
                },
            };
            let mut nested: String = prefix.to_owned();
            nested.append("::");
            nested.append(nm);
            add_symbol(map, nested, ifc_index);
            Ok(())
        },
        Some(DeclSort::ENUMERATION) => {
            let en = *match ifc.decl_enum().entry(d.index()) {
                Ok(v) => v,
                Err(e) => {
                    return Err(e);
                },
            };
            let nm = match ifc.get_string(en.name) {
                Ok(s) => s,
                Err(e) => {
                    return Err(e);
                },
            };
            let mut nested: String = prefix.to_owned();
            nested.append("::");
            nested.append(nm);
            add_symbol(map, nested, ifc_index);
            Ok(())
        },
        Some(DeclSort::FUNCTION) => {
            let f = *match ifc.decl_function().entry(d.index()) {
                Ok(v) => v,
                Err(e) => {
                    return Err(e);
                },
            };
            if !matches!(NameSort::from_u32(f.name.tag()), Some(NameSort::IDENTIFIER)) {
                return Ok(());
            }
            let nm = match ifc.get_string(f.name.index()) {
                Ok(s) => s,
                Err(e) => {
                    return Err(e);
                },
            };
            let mut nested: String = prefix.to_owned();
            nested.append("::");
            nested.append(nm);
            add_symbol(map, nested, ifc_index);
            Ok(())
        },
        Some(DeclSort::VARIABLE) => {
            let v = *match ifc.decl_var().entry(d.index()) {
                Ok(v) => v,
                Err(e) => {
                    return Err(e);
                },
            };
            if !matches!(NameSort::from_u32(v.name.tag()), Some(NameSort::IDENTIFIER)) {
                return Ok(());
            }
            let nm = match ifc.get_string(v.name.index()) {
                Ok(s) => s,
                Err(e) => {
                    return Err(e);
                },
            };
            let mut nested: String = prefix.to_owned();
            nested.append("::");
            nested.append(nm);
            add_symbol(map, nested, ifc_index);
            Ok(())
        },
        _ => Ok(()),
    }
}

/// The macro-name table after the names of every macro row were offered in
/// order; `None` when some name does not resolve in the string table.
pub open spec fn spec_add_macro_names(
    strings: Seq<u8>,
    entries: Seq<(Seq<char>, usize)>,
    names: Seq<TextOffset>,
    ifc_index: usize,
) -> Option<Seq<(Seq<char>, usize)>>
    decreases names.len(),
{
    if names.len() == 0 {
        Some(entries)
    } else {
        match spec_string_at(strings, names[0] as int) {
            Some(nm) => spec_add_macro_names(strings, spec_sm_add(entries, nm, ifc_index),
                names.drop_first(), ifc_index),
            None => None,
        }
    }
}

/// The name offsets of every object-like macro row.
pub open spec fn spec_object_macro_names(pv: PartsView) -> Seq<TextOffset> {
    pv.macro_object_like.map_values(|m: MacroObjectLike| m.name)
}

/// The name offsets of every function-like macro row.
pub open spec fn spec_function_macro_names(pv: PartsView) -> Seq<TextOffset> {
    pv.macro_function_like.map_values(|m: MacroFunctionLike| m.name)
}

/// What add_ref_ifc does to the global-name table.
pub open spec fn spec_ref_globals(
    pv: PartsView,
    strings: Seq<u8>,
    global_scope: u32,
    entries: Seq<(Seq<char>, usize)>,
    ifc_index: usize,
) -> Option<Seq<(Seq<char>, usize)>> {
    if global_scope == 0 {
        Some(entries)
    } else {
        spec_add_scope(pv, strings, entries, global_scope, Seq::empty(), ifc_index,
            MAX_SCOPE_DEPTH as nat)
    }
}

impl SymbolMap {
    /// Records every top-level name a referenced module defines, under the
    /// next reference index; on a collision the module seen first keeps the
    /// name. Returns the module's reference index.
    pub fn add_ref_ifc(&mut self, crate_name: String, ifc: &Ifc) -> (r: Result<usize, Error>)
        requires
            ifc.wf(),
        ensures
            r matches Ok(ix) ==> {
                &&& ix == old(self).crates@.len()
                &&& final(self).crates@ == old(self).crates@.push(crate_name)
                &&& Some(sm_view(final(self).global_symbols@)) == spec_ref_globals(
                    ifc.parts@, ifc.spec_strings(), ifc.file_header.global_scope,
                    sm_view(old(self).global_symbols@), ix)
                &&& Some(sm_view(final(self).object_like_macros@)) == spec_add_macro_names(
                    ifc.spec_strings(), sm_view(old(self).object_like_macros@),
                    spec_object_macro_names(ifc.parts@), ix)
                &&& Some(sm_view(final(self).function_like_macros@)) == spec_add_macro_names(
                    ifc.spec_strings(), sm_view(old(self).function_like_macros@),
                    spec_function_macro_names(ifc.parts@), ix)
            },
            r is Ok <==> (spec_ref_globals(ifc.parts@, ifc.spec_strings(),
                    ifc.file_header.global_scope, sm_view(old(self).global_symbols@),
                    old(self).crates@.len() as usize) is Some
                && spec_add_macro_names(ifc.spec_strings(),
                    sm_view(old(self).object_like_macros@),
                    spec_object_macro_names(ifc.parts@),
                    old(self).crates@.len() as usize) is Some
                && spec_add_macro_names(ifc.spec_strings(),
                    sm_view(old(self).function_like_macros@),
                    spec_function_macro_names(ifc.parts@),
                    old(self).crates@.len() as usize) is Some),
    {
        let ifc_index: usize = self.crates.len();
        let gs = ifc.file_header().global_scope;
        if gs != 0 {
            match add_scope_names(&mut self.global_symbols, ifc, gs, "", ifc_index,
                MAX_SCOPE_DEPTH) {
                Ok(()) => {
                    proof {
                        reveal_strlit("");
                        assert(""@ =~= Seq::<char>::empty());
                    }
                },
                Err(e) => {
                    proof {
                        reveal_strlit("");
                        assert(""@ =~= Seq::<char>::empty());
                    }
                    return Err(e);
                },
            }
        }
        match add_macro_names_obj(&mut self.object_like_macros, ifc, ifc_index) {
            Ok(()) => {},
            Err(e) => {
                return Err(e);
            },
        }
        match add_macro_names_fn(&mut self.function_like_macros, ifc, ifc_index) {
            Ok(()) => {},
            Err(e) => {
                return Err(e);
            },
        }
        self.crates.push(crate_name);
        Ok(ifc_index)
    }
}

/// Offers the name of every object-like macro row.
fn add_macro_names_obj(map: &mut Vec<(String, usize)>, ifc: &Ifc, ifc_index: usize)
    -> (r: Result<(), Error>)
    requires
        ifc.wf(),
    ensures
        r is Ok <==> spec_add_macro_names(ifc.spec_strings(), sm_view(old(map)@),
            spec_object_macro_names(ifc.parts@), ifc_index) is Some,
        r is Ok ==> Some(sm_view(final(map)@)) == spec_add_macro_names(ifc.spec_strings(),
            sm_view(old(map)@), spec_object_macro_names(ifc.parts@), ifc_index),
{
    let ghost names = spec_object_macro_names(ifc.parts@);
    let ghost e0 = sm_view(map@);
    let part = ifc.macro_object_like();
    let n = part.entries.len();
    proof {
        assert(names.skip(0) =~= names);
    }
    let mut k: usize = 0;
    while k < n
        invariant
            ifc.wf(),
            n == part.entries@.len(),
            part.entries@ == ifc.parts@.macro_object_like,
            names == spec_object_macro_names(ifc.parts@),
            k <= n,
            e0 == sm_view(old(map)@),
            spec_add_macro_names(ifc.spec_strings(), e0, names, ifc_index)
                == spec_add_macro_names(ifc.spec_strings(), sm_view(map@),
                    names.skip(k as int), ifc_index),
        decreases n - k,
    {
        proof {
            assert(names[k as int] == part.entries@[k as int].name);
            assert(names.skip(k as int)[0] == names[k as int]);
            assert(names.skip(k as int).drop_first() =~= names.skip(k as int + 1));
        }
        let off = part.entries[k].name;
        let nm = match ifc.get_string(off) {
            Ok(s) => s,
            Err(e) => {
                return Err(e);
            },
        };
        add_symbol(map, nm.to_owned(), ifc_index);
        k += 1;
    }
    proof {
        assert(names.skip(names.len() as int) =~= Seq::<TextOffset>::empty());
    }
    Ok(())
}

/// Offers the name of every function-like macro row.
fn add_macro_names_fn(map: &mut Vec<(String, usize)>, ifc: &Ifc, ifc_index: usize)
    -> (r: Result<(), Error>)
    requires
        ifc.wf(),
    ensures
        r is Ok <==> spec_add_macro_names(ifc.spec_strings(), sm_view(old(map)@),
            spec_function_macro_names(ifc.parts@), ifc_index) is Some,
        r is Ok ==> Some(sm_view(final(map)@)) == spec_add_macro_names(ifc.spec_strings(),
            sm_view(old(map)@), spec_function_macro_names(ifc.parts@), ifc_index),
{
    let ghost names = spec_function_macro_names(ifc.parts@);
    let ghost e0 = sm_view(map@);
    let part = ifc.macro_function_like();
    let n = part.entries.len();
    proof {
        assert(names.skip(0) =~= names);
    }
    let mut k: usize = 0;
    while k < n
        invariant
            ifc.wf(),
            n == part.entries@.len(),
            part.entries@ == ifc.parts@.macro_function_like,
            names == spec_function_macro_names(ifc.parts@),
            k <= n,
            e0 == sm_view(old(map)@),
            spec_add_macro_names(ifc.spec_strings(), e0, names, ifc_index)
                == spec_add_macro_names(ifc.spec_strings(), sm_view(map@),
                    names.skip(k as int), ifc_index),
        decreases n - k,
    {
        proof {
            assert(names[k as int] == part.entries@[k as int].name);
            assert(names.skip(k as int)[0] == names[k as int]);
            assert(names.skip(k as int).drop_first() =~= names.skip(k as int + 1));
        }
        let off = part.entries[k].name;
        let nm = match ifc.get_string(off) {
            Ok(s) => s,
            Err(e) => {
                return Err(e);
            },
        };
        add_symbol(map, nm.to_owned(), ifc_index);
        k += 1;
    }
    proof {
        assert(names.skip(names.len() as int) =~= Seq::<TextOffset>::empty());
    }
    Ok(())
}

/// Replacing the entry at a position whose key is another name leaves that
/// name's lookup unchanged.
proof fn lemma_lookup_update_other(s: Seq<(Seq<char>, usize)>, p: int,
    v: (Seq<char>, usize), n: Seq<char>)
    requires
        0 <= p < s.len(),
        s[p].0 != n,
        v.0 == s[p].0,
    ensures
        spec_lookup(s.update(p, v), n) == spec_lookup(s, n),
    decreases s.len(),
{
    if p == 0 {
        assert(s.update(0, v)[0] == v);
        assert(s.update(0, v).drop_first() =~= s.drop_first());
    } else {
        assert(s.update(p, v)[0] == s[0]);
        assert(s.update(p, v).drop_first() =~= s.drop_first().update(p - 1, v));
        lemma_lookup_update_other(s.drop_first(), p - 1, v, n);
    }
}

/// Appending an entry carrying another name leaves that name's lookup
/// unchanged.
proof fn lemma_lookup_push_other(s: Seq<(Seq<char>, usize)>, x: (Seq<char>, usize),
    n: Seq<char>)
    requires
        x.0 != n,
    ensures
        spec_lookup(s.push(x), n) == spec_lookup(s, n),
    decreases s.len(),
{
    if s.len() == 0 {
        assert(s.push(x)[0] == x);
        assert(s.push(x).drop_first() =~= Seq::<(Seq<char>, usize)>::empty());
    } else {
        assert(s.push(x)[0] == s[0]);
        assert(s.push(x).drop_first() =~= s.drop_first().push(x));
        lemma_lookup_push_other(s.drop_first(), x, n);
    }
}

/// Offering any name under a module index no smaller than the one already
/// recorded for `n` leaves `n`'s record unchanged.
proof fn lemma_sm_add_preserves(entries: Seq<(Seq<char>, usize)>, name: Seq<char>,
    ix: usize, n: Seq<char>, j: usize)
    requires
        spec_lookup(entries, n) == Some(j),
        j <= ix,
    ensures
        spec_lookup(spec_sm_add(entries, name, ix), n) == Some(j),
{
    if name == n {
        lemma_first_module_wins(entries, n, ix);
    } else {
        lemma_first_pos_lookup(entries, name);
        match spec_first_pos(entries, name) {
            Some(p) => {
                if ix < entries[p].1 {
                    lemma_lookup_update_other(entries, p, (name, ix), n);
                }
            },
            None => {
                lemma_lookup_push_other(entries, (name, ix), n);
            },
        }
    }
}

/// The whole scope walk of a later module leaves an earlier module's
/// record for `n` unchanged, whenever it completes.
proof fn lemma_add_scope_preserves(pv: PartsView, strings: Seq<u8>,
    entries: Seq<(Seq<char>, usize)>, container: u32, prefix: Seq<char>, ifc_index: usize,
    depth: nat, n: Seq<char>, j: usize)
    requires
        spec_lookup(entries, n) == Some(j),
        j <= ifc_index,
    ensures
        spec_add_scope(pv, strings, entries, container, prefix, ifc_index, depth)
            matches Some(e2) ==> spec_lookup(e2, n) == Some(j),
    decreases depth, 0nat, 0nat,
{
    if container != 0 {
        match spec_scope_members(pv, container) {
            Some(ms) => if depth != 0 {
                lemma_add_scope_members_preserves(pv, strings, entries, ms, prefix,
                    ifc_index, (depth - 1) as nat, n, j);
            },
            None => {},
        }
    }
}

/// Offering a run of members preserves an earlier module's record.
proof fn lemma_add_scope_members_preserves(pv: PartsView, strings: Seq<u8>,
    entries: Seq<(Seq<char>, usize)>, members: Seq<DeclIndex>, prefix: Seq<char>,
    ifc_index: usize, depth: nat, n: Seq<char>, j: usize)
    requires
        spec_lookup(entries, n) == Some(j),
        j <= ifc_index,
    ensures
        spec_add_scope_members(pv, strings, entries, members, prefix, ifc_index, depth)
            matches Some(e2) ==> spec_lookup(e2, n) == Some(j),
    decreases depth, 1nat, members.len(),
{
    if members.len() != 0 {
        lemma_add_scope_member_preserves(pv, strings, entries, members[0], prefix,
            ifc_index, depth, n, j);
        match spec_add_scope_member(pv, strings, entries, members[0], prefix, ifc_index,
            depth) {
            Some(e2) => {
                lemma_add_scope_members_preserves(pv, strings, e2, members.drop_first(),
                    prefix, ifc_index, depth, n, j);
            },
            None => {},
        }
    }
}

/// Offering one member declaration preserves an earlier module's record.
proof fn lemma_add_scope_member_preserves(pv: PartsView, strings: Seq<u8>,
    entries: Seq<(Seq<char>, usize)>, d: DeclIndex, prefix: Seq<char>, ifc_index: usize,
    depth: nat, n: Seq<char>, j: usize)
    requires
        spec_lookup(entries, n) == Some(j),
        j <= ifc_index,
    ensures
        spec_add_scope_member(pv, strings, entries, d, prefix, ifc_index, depth)
            matches Some(e2) ==> spec_lookup(e2, n) == Some(j),
    decreases depth, 0nat, 1nat,
{
    match DeclSort::spec_from_u32(d.spec_tag()) {
        Some(DeclSort::SCOPE) => if d.spec_index() < pv.decl_scope.len() {
            let sc = pv.decl_scope[d.spec_index() as int];
            if NameSort::spec_from_u32(sc.name.spec_tag()) == Some(NameSort::IDENTIFIER) {
                match spec_string_at(strings, sc.name.spec_index() as int) {
                    Some(nm) => {
                        if !(TypeSort::spec_from_u32(sc.ty.spec_tag())
                            == Some(TypeSort::FUNDAMENTAL)
                            && sc.ty.spec_index() >= pv.type_fundamental.len()) {
                            if spec_is_fund_basis(pv, sc.ty, TypeBasis::NAMESPACE) {
                                lemma_add_scope_preserves(pv, strings, entries,
                                    sc.initializer, prefix + "::"@ + nm, ifc_index,
                                    depth, n, j);
                            } else {
                                lemma_sm_add_preserves(entries, prefix + "::"@ + nm,
                                    ifc_index, n, j);
                            }
                        }
                    },
                    None => {},
                }
            }
        },
        Some(DeclSort::ALIAS) => if d.spec_index() < pv.decl_alias.len() {
            match spec_string_at(strings, pv.decl_alias[d.spec_index() as int].name as int) {
                Some(nm) => {
                    lemma_sm_add_preserves(entries, prefix + "::"@ + nm, ifc_index, n, j);
                },
                None => {},
            }
        },
        Some(DeclSort::ENUMERATION) => if d.spec_index() < pv.decl_enum.len() {
            match spec_string_at(strings, pv.decl_enum[d.spec_index() as int].name as int) {
                Some(nm) => {
                    lemma_sm_add_preserves(entries, prefix + "::"@ + nm, ifc_index, n, j);
                },
                None => {},
            }
        },
        Some(DeclSort::FUNCTION) => if d.spec_index() < pv.decl_function.len() {
            let f = pv.decl_function[d.spec_index() as int];
            if NameSort::spec_from_u32(f.name.spec_tag()) == Some(NameSort::IDENTIFIER) {
                match spec_string_at(strings, f.name.spec_index() as int) {
                    Some(nm) => {
                        lemma_sm_add_preserves(entries, prefix + "::"@ + nm, ifc_index, n,
                            j);
                    },
                    None => {},
                }
            }
        },
        Some(DeclSort::VARIABLE) => if d.spec_index() < pv.decl_var.len() {
            let v = pv.decl_var[d.spec_index() as int];
            if NameSort::spec_from_u32(v.name.spec_tag()) == Some(NameSort::IDENTIFIER) {
                match spec_string_at(strings, v.name.spec_index() as int) {
                    Some(nm) => {
                        lemma_sm_add_preserves(entries, prefix + "::"@ + nm, ifc_index, n,
                            j);
                    },
                    None => {},
                }
            }
        },
        _ => {},
    }
}

/// Recording a later module's macro names preserves an earlier module's
/// record for `n`.
proof fn lemma_add_macro_names_preserves(strings: Seq<u8>,
    entries: Seq<(Seq<char>, usize)>, names: Seq<TextOffset>, ifc_index: usize,
    n: Seq<char>, j: usize)
    requires
        spec_lookup(entries, n) == Some(j),
        j <= ifc_index,
    ensures
        spec_add_macro_names(strings, entries, names, ifc_index) matches Some(e2)
            ==> spec_lookup(e2, n) == Some(j),
    decreases names.len(),
{
    if names.len() != 0 {
        match spec_string_at(strings, names[0] as int) {
            Some(nm) => {
                lemma_sm_add_preserves(entries, nm, ifc_index, n, j);
                lemma_add_macro_names_preserves(strings,
                    spec_sm_add(entries, nm, ifc_index), names.drop_first(), ifc_index, n,
                    j);
            },
            None => {},
        }
    }
}

/// The module passed first keeps a contested name across the whole of a
/// later module's reference walk: an earlier record for `n` survives the
/// full global-scope scan and both macro-name scans of a module added
/// under any reference index at least as large.
pub proof fn lemma_first_module_wins_across_walk(pv: PartsView, strings: Seq<u8>,
    global_scope: u32, entries: Seq<(Seq<char>, usize)>, ifc_index: usize, n: Seq<char>,
    j: usize, macro_names: Seq<TextOffset>)
    requires
        spec_lookup(entries, n) == Some(j),
        j <= ifc_index,
    ensures
        spec_ref_globals(pv, strings, global_scope, entries, ifc_index) matches Some(e2)
            ==> spec_lookup(e2, n) == Some(j),
        spec_add_macro_names(strings, entries, macro_names, ifc_index) matches Some(e2)
            ==> spec_lookup(e2, n) == Some(j),
{
    if global_scope != 0 {
        lemma_add_scope_preserves(pv, strings, entries, global_scope, Seq::empty(),
            ifc_index, MAX_SCOPE_DEPTH as nat, n, j);
    }
    lemma_add_macro_names_preserves(strings, entries, macro_names, ifc_index, n, j);
}

} // verus!
