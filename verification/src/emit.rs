//! The emitter: renders the closure engine's decisions as target-language
//! declaration text. The decisions themselves — what is emitted, under
//! which name, with which types — come from the verified engine and
//! translator; this layer only spells them out.

use vstd::prelude::*;
use vstd::string::StringExecFns;
use crate::error::Error;
use crate::ifc::Ifc;
use crate::index::{DeclIndex, TypeIndex, ExprIndex};
use crate::macro_gen::{gen_macros, MacroOutputs};
use crate::names::{fixup_anon_names, dec_u32, spec_fixup_anon, spec_name_compiler_generated};
use crate::options::Options;
use crate::parts::PartsView;
use crate::query::{spec_scope_members, spec_name_string};
use crate::records::{DeclEnum, OBJECT_TRAIT_CONSTEXPR};
use crate::sorts::{DeclSort, NameSort, TypeSort, TypeBasis, CallingConvention, ExprSort,
    LiteralSort};
use crate::symbol_map::SymbolMap;
use crate::type_discovery::{walk_global_scope, DiscoveryContext, DiscoveryState,
    spec_basis_check_faults};

verus! {

/// Bound on namespace nesting while emitting.
pub const MAX_EMIT_DEPTH: u32 = 64;

/// The wide value of a literal expression, unnarrowed.
pub open spec fn spec_literal_expr_u64(pv: PartsView, expr: ExprIndex) -> Option<u64> {
    if ExprSort::spec_from_u32(expr.spec_tag()) != Some(ExprSort::LITERAL) {
        None
    } else if expr.spec_index() < pv.expr_literal.len() {
        let lit = pv.expr_literal[expr.spec_index() as int];
        match LiteralSort::spec_from_u32(lit.value.spec_tag()) {
            Some(LiteralSort::IMMEDIATE) => Some(lit.value.spec_index() as u64),
            Some(LiteralSort::INTEGER) => if lit.value.spec_index() < pv.const_i64.len() {
                Some(pv.const_i64[lit.value.spec_index() as int])
            } else {
                None
            },
            _ => None,
        }
    } else {
        None
    }
}

impl Ifc {
    /// The wide value of a literal expression, unnarrowed.
    pub fn get_literal_expr_as_u64(&self, expr: ExprIndex) -> (r: Result<u64, Error>)
        ensures
            r matches Ok(v) ==> spec_literal_expr_u64(self.parts@, expr) == Some(v),
            r is Err <==> spec_literal_expr_u64(self.parts@, expr) is None,
    {
        if !matches!(ExprSort::from_u32(expr.tag()), Some(ExprSort::LITERAL)) {
            return Err(Error::bad("expression is expected to be a literal, but is not"));
        }
        let literal = *match self.expr_literal().entry(expr.index()) {
            Ok(v) => v,
            Err(e) => {
                return Err(e);
            },
        };
        match LiteralSort::from_u32(literal.value.tag()) {
            Some(LiteralSort::IMMEDIATE) => Ok(literal.value.index() as u64),
            Some(LiteralSort::INTEGER) => {
                match self.const_i64().entry(literal.value.index()) {
                    Ok(v) => Ok(*v),
                    Err(e) => Err(e),
                }
            },
            _ => Err(Error::bad(
                "expression is expected to be an integer literal, but is not")),
        }
    }
}

/// Whether a variable row renders as a constant: it was declared
/// constexpr, or its type is const-qualified and its initializer is a
/// literal.
pub open spec fn spec_variable_is_constant(pv: PartsView, var_index: u32) -> bool {
    let v = pv.decl_var[var_index as int];
    v.traits & OBJECT_TRAIT_CONSTEXPR != 0
    || (crate::query::spec_is_const_qualified(pv, v.ty) == Some(true)
        && ExprSort::spec_from_u32(v.initializer.spec_tag()) == Some(ExprSort::LITERAL))
}

/// Renders one namespace-scope variable: a constant exactly when it was
/// declared constexpr or is a const-qualified literal, an external static
/// otherwise.
pub fn gen_variable(ifc: &Ifc, st: &DiscoveryState, mod_path: &str, var_index: u32,
    name: &str) -> (r: Result<String, Error>)
    requires
        ifc.wf(),
    ensures
        r is Ok ==> var_index < ifc.parts@.decl_var.len(),
        r matches Ok(s) ==> (s@.take(10) == "pub const "@
            <==> spec_variable_is_constant(ifc.parts@, var_index)),
{
    let var = *match ifc.decl_var().entry(var_index) {
        Ok(v) => v,
        Err(e) => {
            return Err(e);
        },
    };
    let is_const_qualified = match ifc.is_const_qualified(var.ty) {
        Ok(b) => b,
        Err(e) => {
            return Err(e);
        },
    };
    let is_const = var.traits & OBJECT_TRAIT_CONSTEXPR != 0
        || (is_const_qualified && ifc.is_literal_expr(var.initializer));
    let ty_tokens = match ifc.get_type_tokens(st, mod_path, var.ty) {
        Ok(t) => t,
        Err(e) => {
            return Err(e);
        },
    };
    if is_const {
        let init = match crate::ty_tokens::gen_expr_tokens(ifc, Some(var.ty),
            var.initializer) {
            Ok(t) => t,
            Err(e) => {
                return Err(e);
            },
        };
        let mut s: String = "pub const ".to_owned();
        s.append(name);
        s.append(": ");
        s.append(ty_tokens.as_str());
        s.append(" = ");
        s.append(init.as_str());
        s.append(";");
        proof {
            reveal_strlit("pub const ");
            assert(s@.take(10) =~= "pub const "@);
        }
        Ok(s)
    } else {
        let mut s: String = "extern { pub static ".to_owned();
        if !is_const_qualified {
            s.append("mut ");
        }
        s.append(name);
        s.append(": ");
        s.append(ty_tokens.as_str());
        s.append("; }");
        proof {
            reveal_strlit("pub const ");
            reveal_strlit("extern { pub static ");
            assert(s@[0] == 'e');
            assert("pub const "@[0] == 'p');
            assert(s@.take(10) != "pub const "@);
        }
        Ok(s)
    }
}

/// Renders one free function as a foreign declaration under its calling
/// convention.
pub fn gen_function(ifc: &Ifc, st: &DiscoveryState, mod_path: &str, d: DeclIndex,
    name: &str) -> (r: Result<String, Error>)
    requires
        ifc.wf(),
{
    let func = *match ifc.decl_function().entry(d.index()) {
        Ok(v) => v,
        Err(e) => {
            return Err(e);
        },
    };
    if !matches!(NameSort::from_u32(func.name.tag()), Some(NameSort::IDENTIFIER)) {
        return Ok(String::new());
    }
    if !matches!(TypeSort::from_u32(func.type_.tag()), Some(TypeSort::FUNCTION)) {
        return Err(Error::bad("function declaration does not carry a function type"));
    }
    let ft = *match ifc.type_function().entry(func.type_.index()) {
        Ok(v) => v,
        Err(e) => {
            return Err(e);
        },
    };
    let convention: &'static str = match CallingConvention::from_u32(ft.convention as u32) {
        Some(CallingConvention::Std) => "\"stdcall\"",
        Some(CallingConvention::Cdecl) => "\"C\"",
        Some(CallingConvention::Fast) => "\"fastcall\"",
        _ => {
            return Err(Error::bad("function calling convention is not supported"));
        },
    };
    let mut args = String::new();
    if ft.source.0 != 0 {
        let mut it = match ifc.iter_type_tuple(ft.source) {
            Ok(it) => it,
            Err(e) => {
                return Err(e);
            },
        };
        loop
            invariant
                ifc.wf(),
            decreases it.items@.len() - it.pos,
        {
            let arg_ty = match it.next() {
                Some(t) => t,
                None => {
                    break ;
                },
            };
            let arg_tokens = match ifc.get_type_tokens(st, mod_path, arg_ty) {
                Ok(t) => t,
                Err(e) => {
                    return Err(e);
                },
            };
            args.append("_: ");
            args.append(arg_tokens.as_str());
            args.append(", ");
        }
    }
    let mut ret = String::new();
    if ft.target.0 != 0 {
        let is_void = match ifc.is_void_type(ft.target) {
            Ok(b) => b,
            Err(e) => {
                return Err(e);
            },
        };
        if !is_void {
            let t = match ifc.get_type_tokens(st, mod_path, ft.target) {
                Ok(t) => t,
                Err(e) => {
                    return Err(e);
                },
            };
            ret.append(" -> ");
            ret.append(t.as_str());
        }
    }
    let mut s: String = "extern ".to_owned();
    s.append(convention);
    s.append(" { pub fn ");
    s.append(name);
    s.append("(");
    s.append(args.as_str());
    s.append(")");
    s.append(ret.as_str());
    s.append("; }");
    Ok(s)
}

/// Renders one enumeration as a transparent wrapper over its storage type,
/// with one named constant per enumerator.
pub fn gen_enum(ifc: &Ifc, st: &DiscoveryState, mod_path: &str, enum_decl: &DeclEnum)
    -> (r: Result<String, Error>)
    requires
        ifc.wf(),
{
    let en_name = match ifc.get_string(enum_decl.name) {
        Ok(s) => s.to_owned(),
        Err(e) => {
            return Err(e);
        },
    };
    if !matches!(TypeSort::from_u32(enum_decl.ty.tag()), Some(TypeSort::FUNDAMENTAL)) {
        return Err(Error::bad("enumeration type is expected to be fundamental"));
    }
    let en_ty = *match ifc.type_fundamental().entry(enum_decl.ty.index()) {
        Ok(v) => v,
        Err(e) => {
            return Err(e);
        },
    };
    let is_enum_class = matches!(TypeBasis::from_u32(en_ty.basis as u32),
        Some(TypeBasis::CLASS) | Some(TypeBasis::STRUCT));
    if !matches!(TypeSort::from_u32(enum_decl.base.tag()), Some(TypeSort::FUNDAMENTAL)) {
        return Err(Error::bad("enumeration storage type is expected to be fundamental"));
    }
    let storage = match ifc.get_type_tokens(st, mod_path, enum_decl.base) {
        Ok(t) => t,
        Err(e) => {
            return Err(e);
        },
    };
    let mut s: String = "#[repr(transparent)]\n".to_owned();
    s.append("#[derive(Copy, Clone, Eq, PartialEq, Ord, PartialOrd, Hash)]\n");
    s.append("pub struct ");
    s.append(en_name.as_str());
    s.append("(pub ");
    s.append(storage.as_str());
    s.append(");\n");
    let mut variants = String::new();
    let start = enum_decl.initializer.start;
    let card = enum_decl.initializer.cardinality;
    let mut k: u32 = 0;
    while k < card
        invariant
            ifc.wf(),
        decreases card - k,
    {
        if (start as u64 + k as u64) > u32::MAX as u64 {
            return Err(Error::bad("enumerator range is out of range"));
        }
        let var = *match ifc.decl_enumerator().entry(start + k) {
            Ok(v) => v,
            Err(e) => {
                return Err(e);
            },
        };
        let var_name = match ifc.get_string(var.name) {
            Ok(nm) => nm.to_owned(),
            Err(e) => {
                return Err(e);
            },
        };
        let init = match crate::ty_tokens::gen_expr_tokens(ifc, Some(enum_decl.base),
            var.initializer) {
            Ok(t) => t,
            Err(e) => {
                return Err(e);
            },
        };
        variants.append("pub const ");
        variants.append(var_name.as_str());
        variants.append(": ");
        variants.append(en_name.as_str());
        variants.append(" = ");
        variants.append(en_name.as_str());
        variants.append("(");
        variants.append(init.as_str());
        variants.append(");\n");
        k += 1;
    }
    if is_enum_class {
        s.append("impl ");
        s.append(en_name.as_str());
        s.append(" {\n");
        s.append(variants.as_str());
        s.append("}\n");
    } else {
        s.append(variants.as_str());
    }
    Ok(s)
}

/// Renders one struct or class: a transparent byte wrapper for a bare
/// forward declaration, otherwise its base-class fields, data members and
/// bitfield carriers in order.
pub fn gen_struct(ifc: &Ifc, st: &DiscoveryState, mod_path: &str, d: DeclIndex,
    name: &str) -> (r: Result<String, Error>)
    requires
        ifc.wf(),
    ensures
        r is Ok ==> d.spec_index() < ifc.parts@.decl_scope.len(),
        r matches Ok(s) ==> ((d.spec_index() < ifc.parts@.decl_scope.len()
            && ifc.parts@.decl_scope[d.spec_index() as int].initializer == 0)
            ==> s@ == "#[repr(transparent)]\npub struct "@ + name@ + "(pub u8);"@),
{
    let scope = *match ifc.decl_scope().entry(d.index()) {
        Ok(v) => v,
        Err(e) => {
            return Err(e);
        },
    };
    if scope.initializer == 0 {
        let mut s: String = "#[repr(transparent)]\npub struct ".to_owned();
        s.append(name);
        s.append("(pub u8);");
        return Ok(s);
    }
    let mut contents = String::new();
    if scope.base.0 != 0 {
        let mut it = match ifc.iter_type_tuple(scope.base) {
            Ok(it) => it,
            Err(e) => {
                return Err(e);
            },
        };
        let mut base_index: u32 = 0;
        loop
            invariant
                ifc.wf(),
            decreases it.items@.len() - it.pos,
        {
            let base_ty = match it.next() {
                Some(t) => t,
                None => {
                    break ;
                },
            };
            if !matches!(TypeSort::from_u32(base_ty.tag()), Some(TypeSort::BASE)) {
                return Err(Error::bad("base entry does not have base sort"));
            }
            let base = *match ifc.type_base().entry(base_ty.index()) {
                Ok(v) => v,
                Err(e) => {
                    return Err(e);
                },
            };
            let base_tokens = match ifc.get_type_tokens(st, mod_path, base.ty) {
                Ok(t) => t,
                Err(e) => {
                    return Err(e);
                },
            };
            contents.append("pub _base");
            if base_index != 0 {
                let digits = dec_u32(base_index);
                contents.append(digits.as_str());
            }
            contents.append(": ");
            contents.append(base_tokens.as_str());
            contents.append(",\n");
            if base_index < u32::MAX {
                base_index += 1;
            }
        }
    }
    let mut it = match ifc.iter_scope(scope.initializer) {
        Ok(it) => it,
        Err(e) => {
            return Err(e);
        },
    };
    let mut anon_counter: u32 = 0;
    loop
        invariant
            ifc.wf(),
        decreases it.members@.len() - it.pos,
    {
        let member = match it.next() {
            Some(m) => m,
            None => {
                break ;
            },
        };
        match DeclSort::from_u32(member.tag()) {
            Some(DeclSort::FIELD) => {
                let field = *match ifc.decl_field().entry(member.index()) {
                    Ok(v) => v,
                    Err(e) => {
                        return Err(e);
                    },
                };
                let mut field_name: String = match ifc.get_string(field.name) {
                    Ok(nm) => nm.to_owned(),
                    Err(e) => {
                        return Err(e);
                    },
                };
                fixup_anon_names(&mut field_name, &mut anon_counter);
                let field_ty = match ifc.get_type_tokens(st, mod_path, field.ty) {
                    Ok(t) => t,
                    Err(e) => {
                        return Err(e);
                    },
                };
                contents.append("pub ");
                contents.append(field_name.as_str());
                contents.append(": ");
                contents.append(field_ty.as_str());
                contents.append(",\n");
            },
            Some(DeclSort::BITFIELD) => {
                let bf = *match ifc.decl_bitfield().entry(member.index()) {
                    Ok(v) => v,
                    Err(e) => {
                        return Err(e);
                    },
                };
                let bf_name = match ifc.get_string(bf.name) {
                    Ok(nm) => nm.to_owned(),
                    Err(e) => {
                        return Err(e);
                    },
                };
                if !crate::names::is_name_compiler_generated(bf_name.as_str()) {
                    let bf_ty = match ifc.get_type_tokens(st, mod_path, bf.ty) {
                        Ok(t) => t,
                        Err(e) => {
                            return Err(e);
                        },
                    };
                    let width = match ifc.get_literal_expr_u32(bf.width) {
                        Ok(w) => w,
                        Err(e) => {
                            return Err(e);
                        },
                    };
                    contents.append("pub ");
                    contents.append(bf_name.as_str());
                    contents.append(": __Bitfield<");
                    let digits = dec_u32(width);
                    contents.append(digits.as_str());
                    contents.append(", ");
                    contents.append(bf_ty.as_str());
                    contents.append(">,\n");
                }
            },
            _ => {},
        }
    }
    let mut s: String = "#[repr(C)]\npub struct ".to_owned();
    s.append(name);
    s.append(" {\n");
    s.append(contents.as_str());
    s.append("}");
    Ok(s)
}

/// Renders every emitted member of one scope, recursing into namespaces;
/// a member that cannot be rendered is recorded and left out.
pub fn gen_members_for_scope(
    ifc: &Ifc,
    st: &DiscoveryState,
    mod_path: &str,
    scope_key: u32,
    container: ScopeIndexArg,
    outputs: &mut Vec<String>,
    diagnostics: &mut Vec<String>,
    depth: u32,
)
    requires
        ifc.wf(),
    decreases depth,
{
    if depth == 0 {
        diagnostics.push("namespace nesting exceeded the emit depth".to_owned());
        return ;
    }
    if container.scope == 0 {
        diagnostics.push("a scope reference is null".to_owned());
        return ;
    }
    let mut it = match ifc.iter_scope(container.scope) {
        Ok(it) => it,
        Err(_) => {
            diagnostics.push("a scope could not be walked while emitting".to_owned());
            return ;
        },
    };
    loop
        invariant
            ifc.wf(),
            depth >= 1,
        decreases it.members@.len() - it.pos,
    {
        let member = match it.next() {
            Some(m) => m,
            None => {
                break ;
            },
        };
        let mut leaf: Option<String> = None;
        let mut mi: usize = 0;
        while mi < st.members.len()
            decreases st.members@.len() - mi,
        {
            if st.members[mi].0 == scope_key && st.members[mi].1 == member.0 {
                leaf = Some(st.members[mi].2.as_str().to_owned());
                break ;
            }
            mi += 1;
        }
        let name = match leaf {
            Some(n) => n,
            None => {
                continue ;
            },
        };
        let rendered: Result<String, Error> = match DeclSort::from_u32(member.tag()) {
            Some(DeclSort::ALIAS) => {
                match ifc.decl_alias().entry(member.index()) {
                    Ok(a) => {
                        let aliasee = a.aliasee;
                        match ifc.get_type_tokens(st, mod_path, aliasee) {
                            Ok(t) => {
                                let mut s: String = "pub type ".to_owned();
                                s.append(name.as_str());
                                s.append(" = ");
                                s.append(t.as_str());
                                s.append(";");
                                Ok(s)
                            },
                            Err(e) => Err(e),
                        }
                    },
                    Err(e) => Err(e),
                }
            },
            Some(DeclSort::FUNCTION) => gen_function(ifc, st, mod_path, member, name.as_str()),
            Some(DeclSort::SCOPE) => {
                match ifc.decl_scope().entry(member.index()) {
                    Ok(sc) => {
                        let sc = *sc;
                        let is_ns = match ifc.is_type_namespace(sc.ty) {
                            Ok(b) => b,
                            Err(e) => {
                                let mut line: String = "declaration ".to_owned();
                                let key = dec_u32(member.0);
                                line.append(key.as_str());
                                line.append(" (");
                                line.append(name.as_str());
                                line.append("): scope type row is out of range");
                                diagnostics.push(line);
                                continue ;
                            },
                        };
                        if is_ns {
                            let mut inner: Vec<String> = Vec::new();
                            gen_members_for_scope(ifc, st, mod_path, member.0,
                                ScopeIndexArg { scope: sc.initializer }, &mut inner,
                                diagnostics, depth - 1);
                            if inner.len() > 0 {
                                let mut s: String = "pub mod ".to_owned();
                                s.append(name.as_str());
                                s.append(" {\n");
                                let mut q: usize = 0;
                                while q < inner.len()
                                    decreases inner@.len() - q,
                                {
                                    s.append(inner[q].as_str());
                                    s.append("\n");
                                    q += 1;
                                }
                                s.append("}");
                                outputs.push(s);
                            }
                            continue ;
                        }
                        gen_struct(ifc, st, mod_path, member, name.as_str())
                    },
                    Err(e) => Err(e),
                }
            },
            Some(DeclSort::ENUMERATION) => {
                match ifc.decl_enum().entry(member.index()) {
                    Ok(en) => {
                        let en = *en;
                        gen_enum(ifc, st, mod_path, &en)
                    },
                    Err(e) => Err(e),
                }
            },
            Some(DeclSort::VARIABLE) => gen_variable(ifc, st, mod_path, member.index(),
                name.as_str()),
            _ => {
                continue ;
            },
        };
        match rendered {
            Ok(s) => {
                if s.as_str().unicode_len() > 0 {
                    outputs.push(s);
                }
            },
            Err(_) => {
                let mut line: String = "declaration ".to_owned();
                let key = dec_u32(member.0);
                line.append(key.as_str());
                line.append(" (");
                line.append(name.as_str());
                line.append("): could not be rendered");
                diagnostics.push(line);
            },
        }
    }
}

/// A one-based scope index handed through namespace recursion.
pub struct ScopeIndexArg {
    pub scope: u32,
}

/// The renaming table and counter after a run of scope members was
/// examined: a nested (non-namespace) type is renamed under its
/// containers' names joined by a double underscore, and a
/// compiler-generated name is rewritten with the per-scope counter; other
/// members contribute nothing.
pub open spec fn spec_rename_members(
    pv: PartsView,
    strings: Seq<u8>,
    acc: Seq<(u32, Seq<char>)>,
    ms: Seq<DeclIndex>,
    basis: Option<Seq<char>>,
    counter: u32,
    depth: nat,
) -> RenStep
    decreases depth, 2nat, ms.len(),
{
    if ms.len() == 0 {
        RenStep { table: acc, counter }
    } else {
        let d = ms[0];
        let stepped = spec_rename_one(pv, strings, acc, d, basis, counter, depth);
        spec_rename_members(pv, strings, stepped.table, ms.drop_first(), basis,
            stepped.counter, depth)
    }
}

/// The renaming table and counter after one member was examined.
pub open spec fn spec_rename_one(
    pv: PartsView,
    strings: Seq<u8>,
    acc: Seq<(u32, Seq<char>)>,
    d: DeclIndex,
    basis: Option<Seq<char>>,
    counter: u32,
    depth: nat,
) -> RenStep
    decreases depth, 1nat, 0nat,
{
    if DeclSort::spec_from_u32(d.spec_tag()) == Some(DeclSort::SCOPE)
        && d.spec_index() < pv.decl_scope.len() {
        let sc = pv.decl_scope[d.spec_index() as int];
        if spec_basis_check_faults(pv, sc.ty) {
            RenStep { table: acc, counter }
        } else if crate::query::spec_is_fund_basis(pv, sc.ty, TypeBasis::NAMESPACE) {
            RenStep { table: acc, counter }
        } else {
            match spec_name_string(strings, sc.name) {
                Some(nm0) => {
                    let is_gen = spec_name_compiler_generated(nm0);
                    let fixed = if is_gen {
                        spec_fixup_anon(nm0, counter)
                    } else {
                        (nm0, counter)
                    };
                    let new_name = match basis {
                        Some(b) => b + "__"@ + fixed.0,
                        None => fixed.0,
                    };
                    let acc1 = if basis is Some || is_gen {
                        acc.push((d.0, new_name))
                    } else {
                        acc
                    };
                    let acc2 = if sc.initializer != 0 {
                        spec_rename_scope(pv, strings, acc1, sc.initializer,
                            Some(new_name), depth)
                    } else {
                        acc1
                    };
                    RenStep { table: acc2, counter: fixed.1 }
                },
                None => RenStep { table: acc, counter },
            }
        }
    } else {
        RenStep { table: acc, counter }
    }
}

/// The renaming table after one scope and everything nested under it was
/// examined; an unusable scope reference or exhausted depth changes
/// nothing.
pub open spec fn spec_rename_scope(
    pv: PartsView,
    strings: Seq<u8>,
    acc: Seq<(u32, Seq<char>)>,
    scope: u32,
    basis: Option<Seq<char>>,
    depth: nat,
) -> Seq<(u32, Seq<char>)>
    decreases depth, 0nat, 0nat,
{
    if depth == 0 || scope == 0 {
        acc
    } else {
        match spec_scope_members(pv, scope) {
            Some(ms) => spec_rename_members(pv, strings, acc, ms, basis, 0,
                (depth - 1) as nat).table,
            None => acc,
        }
    }
}

/// A renaming table and counter threaded through the walk.
pub ghost struct RenStep {
    pub table: Seq<(u32, Seq<char>)>,
    pub counter: u32,
}

/// Renaming entries as mathematical values.
pub open spec fn rview(v: Seq<(u32, String)>) -> Seq<(u32, Seq<char>)> {
    v.map_values(|p: (u32, String)| (p.0, p.1@))
}

/// Builds the renaming table for nested and compiler-generated type names:
/// a nested type is hoisted to the top level under its containers' names,
/// and generated names are rewritten deterministically, so repeated runs
/// on the same input are name-stable.
pub fn rename_decls(ifc: &Ifc, parent_scope: u32) -> (r: Vec<(u32, String)>)
    requires
        ifc.wf(),
    ensures
        rview(r@) == spec_rename_scope(ifc.parts@, ifc.spec_strings(), Seq::empty(),
            parent_scope, None, MAX_EMIT_DEPTH as nat),
{
    let mut out: Vec<(u32, String)> = Vec::new();
    proof {
        assert(rview(out@) =~= Seq::<(u32, Seq<char>)>::empty());
    }
    rename_decls_rec(ifc, parent_scope, None, &mut out, MAX_EMIT_DEPTH);
    out
}

/// One level of the renaming walk.
fn rename_decls_rec(
    ifc: &Ifc,
    parent_scope: u32,
    name_basis: Option<&str>,
    out: &mut Vec<(u32, String)>,
    depth: u32,
)
    requires
        ifc.wf(),
    ensures
        rview(final(out)@) == spec_rename_scope(ifc.parts@, ifc.spec_strings(),
            rview(old(out)@), parent_scope, (match name_basis {
                Some(b) => Some(b@),
                None => None,
            }), depth as nat),
    decreases depth, 0int,
{
    if depth == 0 || parent_scope == 0 {
        return ;
    }
    let it = match ifc.iter_scope(parent_scope) {
        Ok(it) => it,
        Err(_) => {
            return ;
        },
    };
    let members = it.members;
    let ghost pv = ifc.parts@;
    let ghost strings = ifc.spec_strings();
    let ghost ms = members@;
    let ghost acc0 = rview(out@);
    let ghost basis_v: Option<Seq<char>> = match name_basis {
        Some(b) => Some(b@),
        None => None,
    };
    proof {
        assert(ms.skip(0) =~= ms);
    }
    let mut anon_counter: u32 = 0;
    let mut k: usize = 0;
    while k < members.len()
        invariant
            ifc.wf(),
            pv == ifc.parts@,
            strings == ifc.spec_strings(),
            k <= members@.len(),
            members@ == ms,
            depth >= 1,
            parent_scope != 0,
            acc0 == rview(old(out)@),
            spec_scope_members(pv, parent_scope) == Some(ms),
            basis_v == (match name_basis {
                Some(b) => Some(b@),
                None => None,
            }),
            spec_rename_members(pv, strings, acc0, ms, basis_v, 0, (depth - 1) as nat)
                == spec_rename_members(pv, strings, rview(out@), ms.skip(k as int),
                    basis_v, anon_counter, (depth - 1) as nat),
        decreases members@.len() - k,
    {
        let member = members[k];
        proof {
            assert(ms.skip(k as int)[0] == ms[k as int]);
            assert(ms.skip(k as int).drop_first() =~= ms.skip(k as int + 1));
        }
        anon_counter = rename_one(ifc, member, name_basis, out, anon_counter, depth - 1);
        k += 1;
    }
    proof {
        assert(ms.skip(ms.len() as int) =~= Seq::<DeclIndex>::empty());
    }
}

/// Examines one member of the renaming walk.
fn rename_one(
    ifc: &Ifc,
    d: DeclIndex,
    name_basis: Option<&str>,
    out: &mut Vec<(u32, String)>,
    counter: u32,
    depth: u32,
) -> (r: u32)
    requires
        ifc.wf(),
    ensures
        ({
            let e = spec_rename_one(ifc.parts@, ifc.spec_strings(), rview(old(out)@), d,
                (match name_basis {
                    Some(b) => Some(b@),
                    None => None,
                }), counter, depth as nat);
            rview(final(out)@) == e.table && r == e.counter
        }),
    decreases depth, 1int,
{
    if !matches!(DeclSort::from_u32(d.tag()), Some(DeclSort::SCOPE)) {
        return counter;
    }
    let sc = *match ifc.decl_scope().entry(d.index()) {
        Ok(v) => v,
        Err(_) => {
            return counter;
        },
    };
    let is_ns = match ifc.is_type_namespace(sc.ty) {
        Ok(b) => b,
        Err(_) => {
            return counter;
        },
    };
    if is_ns {
        return counter;
    }
    let scope_name: String = match ifc.get_name_string(sc.name) {
        Ok(s) => s.to_owned(),
        Err(_) => {
            return counter;
        },
    };
    let is_gen = crate::names::is_name_compiler_generated(scope_name.as_str());
    let mut this_name = scope_name;
    let mut c: u32 = counter;
    if is_gen {
        fixup_anon_names(&mut this_name, &mut c);
    }
    let new_name: String = match name_basis {
        Some(basis) => {
            let mut s: String = basis.to_owned();
            s.append("__");
            s.append(this_name.as_str());
            s
        },
        None => this_name,
    };
    if name_basis.is_some() || is_gen {
        out.push((d.0, new_name.as_str().to_owned()));
        proof {
            assert(rview(out@) =~= rview(old(out)@).push((d.0, new_name@)));
        }
    }
    if sc.initializer != 0 {
        rename_decls_rec(ifc, sc.initializer, Some(new_name.as_str()), out, depth);
    }
    c
}

/// The `::`-joined path under which local names nest, from the configured
/// target-module segments.
pub open spec fn spec_mod_prefix(segs: Seq<Seq<char>>) -> Seq<char>
    decreases segs.len(),
{
    if segs.len() == 0 {
        Seq::empty()
    } else {
        spec_mod_prefix(segs.drop_last()) + "::"@ + segs.last()
    }
}

/// Joins the configured target-module segments into a `::`-led path.
pub fn mod_prefix_of(segs: &Vec<String>) -> (r: String)
    ensures
        r@ == spec_mod_prefix(segs@.map_values(|p: String| p@)),
{
    let ghost sv = segs@.map_values(|p: String| p@);
    let mut out = String::new();
    proof {
        assert(sv.take(0) =~= Seq::<Seq<char>>::empty());
        assert(out@ =~= Seq::<char>::empty());
    }
    let mut i: usize = 0;
    while i < segs.len()
        invariant
            i <= segs@.len(),
            sv == segs@.map_values(|p: String| p@),
            out@ == spec_mod_prefix(sv.take(i as int)),
        decreases segs@.len() - i,
    {
        proof {
            assert(sv.take(i as int + 1).drop_last() =~= sv.take(i as int));
            assert(sv.take(i as int + 1).last() == sv[i as int]);
            assert(sv[i as int] == segs@[i as int]@);
        }
        out.append("::");
        out.append(segs[i].as_str());
        i += 1;
    }
    proof {
        assert(sv.take(sv.len() as int) =~= sv);
    }
    out
}

/// Everything one generation run produces.
pub struct GenOutputs {
    /// Crate- or module-level header lines.
    pub top: Vec<String>,
    /// Rendered declarations, outermost scope first.
    pub scopes: Vec<String>,
    /// Translated macros.
    pub macros: MacroOutputs,
    /// The closure run's decisions, members and orphans, as decided.
    pub state: DiscoveryState,
    /// One line per declaration or macro that had to be left out.
    pub diagnostics: Vec<String>,
}

/// The context a whole run walks under: the container, the reference
/// modules, the filters, and the renaming table the run itself computes.
pub open spec fn spec_run_context(ifc: Ifc, symbol_map: SymbolMap, options: Options)
    -> crate::type_discovery::CtxView {
    crate::type_discovery::CtxView {
        pv: ifc.parts@,
        global_scope: ifc.file_header.global_scope,
        strings: ifc.spec_strings(),
        globals: crate::symbol_map::sm_view(symbol_map.global_symbols@),
        crates: symbol_map.crates@.map_values(|c: String| c@),
        renamed: if ifc.file_header.global_scope != 0 {
            spec_rename_scope(ifc.parts@, ifc.spec_strings(), Seq::empty(),
                ifc.file_header.global_scope, None, MAX_EMIT_DEPTH as nat)
        } else {
            Seq::empty()
        },
        tf_allow: options.allowlist_type@,
        tf_block: options.blocklist_type@,
        ff_allow: options.allowlist_function@,
        ff_block: options.blocklist_function@,
        vf_allow: options.allowlist_variable@,
        vf_block: options.blocklist_variable@,
    }
}

/// Runs the whole generation: renames, walks the export closure, renders
/// every included declaration and translates the macros. The returned
/// state equals the closure model over the run's context, and the macro
/// list equals the macro collection model.
pub fn gen_rust(ifc: &Ifc, symbol_map: &SymbolMap, options: &Options)
    -> (r: GenOutputs)
    requires
        ifc.wf(),
    ensures
        r.state@ == crate::type_discovery::spec_walk_global(spec_run_context(*ifc,
            *symbol_map, *options)),
        crate::macro_gen::macros_view(r.macros.macros@)
            == crate::macro_gen::spec_gen_macros(ifc.parts@, ifc.spec_strings(),
                crate::symbol_map::sm_view(symbol_map.object_like_macros@),
                crate::symbol_map::sm_view(symbol_map.function_like_macros@),
                crate::macro_gen::crates_view(*symbol_map), options.allowlist_macro@,
                options.blocklist_macro@).macros,
{
    let gs = ifc.file_header().global_scope;
    let renamed: Vec<(u32, String)> = if gs != 0 {
        rename_decls(ifc, gs)
    } else {
        Vec::new()
    };
    let ctx = DiscoveryContext {
        ifc,
        symbol_map,
        renamed_decls: &renamed,
        type_filter: options.type_filter(),
        function_filter: options.function_filter(),
        variable_filter: options.variable_filter(),
    };
    proof {
        assert(ctx.cv().renamed =~= spec_run_context(*ifc, *symbol_map, *options).renamed);
        assert(ctx.cv() == spec_run_context(*ifc, *symbol_map, *options));
    }
    let st = walk_global_scope(&ctx);
    let mod_prefix = mod_prefix_of(&options.rust_mod_name);
    let mut top: Vec<String> = Vec::new();
    if options.standalone {
        top.push("#![allow(non_camel_case_types)]".to_owned());
        top.push("#![allow(non_snake_case)]".to_owned());
        top.push("#![allow(non_upper_case_globals)]".to_owned());
        top.push("#![allow(dead_code)]".to_owned());
        top.push("#![allow(improper_ctypes)]".to_owned());
        top.push("#![no_std]".to_owned());
    }
    top.push("#[repr(C)]".to_owned());
    top.push(
        "pub struct __Bitfield<const W: usize, T> { pub _fake: core::marker::PhantomData<[T; W]>, pub value: u32 }".to_owned());
    let mut scopes: Vec<String> = Vec::new();
    let mut diagnostics: Vec<String> = Vec::new();
    if gs != 0 {
        gen_members_for_scope(ifc, &st, mod_prefix.as_str(), 0,
            ScopeIndexArg { scope: gs }, &mut scopes, &mut diagnostics, MAX_EMIT_DEPTH);
    }
    let mut oi: usize = 0;
    while oi < st.orphans.len()
        invariant
            ifc.wf(),
        decreases st.orphans@.len() - oi,
    {
        let key = st.orphans[oi].0;
        let nm = st.orphans[oi].1.as_str().to_owned();
        match gen_struct(ifc, &st, mod_prefix.as_str(), DeclIndex(key), nm.as_str()) {
            Ok(s) => {
                scopes.push(s);
            },
            Err(_) => {
                diagnostics.push("an orphan declaration could not be rendered".to_owned());
            },
        }
        oi += 1;
    }
    let macros = gen_macros(ifc, symbol_map, options.macro_filter());
    let mut di: usize = 0;
    while di < st.diagnostics.len()
        decreases st.diagnostics@.len() - di,
    {
        diagnostics.push(st.diagnostics[di].as_str().to_owned());
        di += 1;
    }
    GenOutputs { top, scopes, macros, state: st, diagnostics }
}

} // verus!
