//! The type translator: maps each C++ type shape to a target-language type
//! expression, carrying constness out of qualifier wrappers.
//!
//! Fundamental types map to the fixed-width primitive that preserves size
//! and signedness; pointers and references become raw pointers whose
//! mutability follows the pointee's constness; arrays with a literal extent
//! become fixed-size arrays and vendor-extension extents degrade to
//! pointers; a named-declaration reference resolves to the name the
//! export-closure engine recorded for it.

use vstd::prelude::*;
use vstd::string::StringExecFns;
use crate::error::Error;
use crate::ifc::Ifc;
use crate::index::{DeclIndex, TypeIndex, ExprIndex};
use crate::names::{spec_dec_u64, dec_u64};
use crate::parts::PartsView;
use crate::query::spec_unqualified;
use crate::records::{FundamentalType, QUALIFIER_CONST};
use crate::sorts::{TypeSort, TypeBasis, TypePrecision, TypeSign, DeclSort, ExprSort,
    LiteralSort};
use crate::type_discovery::{DiscoveryState, DispV, dlookup};
use crate::names::RNameV;

verus! {

/// Bound on type nesting while translating.
pub const MAX_TRANSLATE_DEPTH: u32 = 256;

/// Whether a sign byte reads as signed: plain and signed integers are
/// signed, everything else is not.
pub open spec fn spec_sign_is_signed(sign: u8) -> bool {
    TypeSign::spec_from_u32(sign as u32) == Some(TypeSign::SIGNED)
        || TypeSign::spec_from_u32(sign as u32) == Some(TypeSign::PLAIN)
}

/// The primitive spelling of a fundamental type, when one exists.
pub open spec fn spec_fundamental_tokens(ft: FundamentalType) -> Option<Seq<char>> {
    match TypeBasis::spec_from_u32(ft.basis as u32) {
        Some(TypeBasis::INT) => {
            let signed = spec_sign_is_signed(ft.sign);
            match TypePrecision::spec_from_u32(ft.precision as u32) {
                Some(TypePrecision::DEFAULT) => Some(if signed { "i32"@ } else { "u32"@ }),
                Some(TypePrecision::LONG) => Some(if signed { "i32"@ } else { "u32"@ }),
                Some(TypePrecision::BIT32) => Some(if signed { "i32"@ } else { "u32"@ }),
                Some(TypePrecision::BIT8) => Some(if signed { "i8"@ } else { "u8"@ }),
                Some(TypePrecision::BIT16) => Some(if signed { "i16"@ } else { "u16"@ }),
                Some(TypePrecision::BIT64) => Some(if signed { "i64"@ } else { "u64"@ }),
                Some(TypePrecision::BIT128) => Some(
                    if signed { "i128"@ } else { "u128"@ }),
                Some(TypePrecision::SHORT) => Some(if signed { "i16"@ } else { "u16"@ }),
                None => None,
            }
        },
        Some(TypeBasis::CHAR) => match TypePrecision::spec_from_u32(ft.precision as u32) {
            Some(TypePrecision::DEFAULT) => Some(
                if spec_sign_is_signed(ft.sign) { "i8"@ } else { "u8"@ }),
            _ => None,
        },
        Some(TypeBasis::FLOAT) => if ft.sign == 0 {
            Some("f32"@)
        } else {
            None
        },
        Some(TypeBasis::DOUBLE) => if ft.sign == 0 {
            Some("f64"@)
        } else {
            None
        },
        Some(TypeBasis::BOOL) => Some("bool"@),
        Some(TypeBasis::WCHAR_T) => Some("u16"@),
        Some(TypeBasis::VOID) => Some("core::ffi::c_void"@),
        Some(TypeBasis::ELLIPSIS) => Some("core::ffi::c_void"@),
        _ => None,
    }
}

/// The name tokens recorded for a declaration by the export-closure
/// engine: the local crate path, nested under the configured target-module
/// path, or the referenced crate's path.
pub open spec fn spec_designated_tokens(decisions: Seq<(u32, DispV)>,
    mod_path: Seq<char>, d: DeclIndex) -> Option<Seq<char>> {
    match dlookup(decisions, d.0) {
        Some(DispV::Included(rn)) => match rn.extern_crate {
            Some(c) => Some(c + rn.path),
            None => Some("crate"@ + mod_path + rn.path),
        },
        _ => None,
    }
}

/// The translated type expression of a type reference and whether its
/// outermost qualifier carries `const`; `None` when the shape has no
/// translation or a row is out of bounds.
pub open spec fn spec_type_tokens(pv: PartsView, decisions: Seq<(u32, DispV)>,
    mod_path: Seq<char>, ti: TypeIndex, depth: nat) -> Option<(Seq<char>, bool)>
    decreases depth,
{
    if depth == 0 {
        None
    } else {
        match TypeSort::spec_from_u32(ti.spec_tag()) {
            Some(TypeSort::QUALIFIED) => if ti.spec_index() < pv.type_qualified.len() {
                let qt = pv.type_qualified[ti.spec_index() as int];
                match spec_type_tokens(pv, decisions, mod_path, qt.unqualified_type,
                    (depth - 1) as nat) {
                    Some(inner) => Some((inner.0, qt.qualifiers & QUALIFIER_CONST != 0)),
                    None => None,
                }
            } else {
                None
            },
            Some(TypeSort::FUNDAMENTAL) => if ti.spec_index() < pv.type_fundamental.len() {
                match spec_fundamental_tokens(pv.type_fundamental[ti.spec_index() as int]) {
                    Some(t) => Some((t, false)),
                    None => None,
                }
            } else {
                None
            },
            Some(TypeSort::POINTER) => if ti.spec_index() < pv.type_pointer.len() {
                match spec_type_tokens(pv, decisions, mod_path,
                    pv.type_pointer[ti.spec_index() as int], (depth - 1) as nat) {
                    Some(inner) => Some((
                        (if inner.1 { "*const "@ } else { "*mut "@ }) + inner.0,
                        false,
                    )),
                    None => None,
                }
            } else {
                None
            },
            Some(TypeSort::ARRAY) => if ti.spec_index() < pv.type_array.len() {
                let arr = pv.type_array[ti.spec_index() as int];
                match spec_type_tokens(pv, decisions, mod_path, arr.element, (depth - 1) as nat) {
                    Some(inner) => if ExprSort::spec_from_u32(arr.extent.spec_tag())
                        == Some(ExprSort::VENDOR_EXTENSION) {
                        Some((
                            (if inner.1 { "*const "@ } else { "*mut "@ }) + inner.0,
                            false,
                        ))
                    } else {
                        match spec_expr_tokens(pv, None, arr.extent,
                            MAX_TRANSLATE_DEPTH as nat) {
                            Some(ext) => Some((
                                "["@ + inner.0 + "; "@ + ext + "]"@,
                                inner.1,
                            )),
                            None => None,
                        }
                    },
                    None => None,
                }
            } else {
                None
            },
            Some(TypeSort::DESIGNATED) => if ti.spec_index() < pv.type_designated.len() {
                match spec_designated_tokens(decisions, mod_path,
                    pv.type_designated[ti.spec_index() as int]) {
                    Some(t) => Some((t, false)),
                    None => None,
                }
            } else {
                None
            },
            Some(TypeSort::UNALIGNED) => if ti.spec_index() < pv.type_unaligned.len() {
                spec_type_tokens(pv, decisions, mod_path,
                    pv.type_unaligned[ti.spec_index() as int], (depth - 1) as nat)
            } else {
                None
            },
            Some(TypeSort::LVALUE_REFERENCE) => if ti.spec_index()
                < pv.type_lvalue_reference.len() {
                match spec_type_tokens(pv, decisions, mod_path,
                    pv.type_lvalue_reference[ti.spec_index() as int], (depth - 1) as nat) {
                    Some(inner) => Some((
                        (if inner.1 { "*const "@ } else { "*mut "@ }) + inner.0,
                        false,
                    )),
                    None => None,
                }
            } else {
                None
            },
            Some(TypeSort::RVALUE_REFERENCE) => if ti.spec_index()
                < pv.type_rvalue_reference.len() {
                match spec_type_tokens(pv, decisions, mod_path,
                    pv.type_rvalue_reference[ti.spec_index() as int], (depth - 1) as nat) {
                    Some(inner) => Some((
                        (if inner.1 { "*const *const "@ } else { "*mut *mut "@ }) + inner.0,
                        false,
                    )),
                    None => None,
                }
            } else {
                None
            },
            Some(TypeSort::FUNCTION) => Some(("*const core::ffi::c_void"@, false)),
            _ => None,
        }
    }
}

/// The fundamental type a literal's type reference reaches, following
/// alias chains; `Some(None)` when the type is a pointer or vendor shape
/// whose literal prints as a plain number.
pub open spec fn spec_fund_of(pv: PartsView, ti: TypeIndex, depth: nat)
    -> Option<Option<FundamentalType>>
    decreases depth,
{
    if depth == 0 {
        None
    } else {
        match TypeSort::spec_from_u32(ti.spec_tag()) {
            Some(TypeSort::DESIGNATED) => if ti.spec_index() < pv.type_designated.len() {
                let d = pv.type_designated[ti.spec_index() as int];
                if DeclSort::spec_from_u32(d.spec_tag()) == Some(DeclSort::ALIAS)
                    && d.spec_index() < pv.decl_alias.len() {
                    spec_fund_of(pv, pv.decl_alias[d.spec_index() as int].aliasee,
                        (depth - 1) as nat)
                } else {
                    None
                }
            } else {
                None
            },
            Some(TypeSort::FUNDAMENTAL) => if ti.spec_index() < pv.type_fundamental.len() {
                Some(Some(pv.type_fundamental[ti.spec_index() as int]))
            } else {
                None
            },
            Some(TypeSort::POINTER) => Some(None),
            Some(TypeSort::VENDOR_EXTENSION) => Some(None),
            _ => None,
        }
    }
}

/// The rendered tokens of a literal expression: boolean literals for a
/// boolean target type, decimal integers otherwise, with the sign made
/// explicit for negative signed values.
pub open spec fn spec_expr_tokens(pv: PartsView, ty: Option<TypeIndex>, expr: ExprIndex,
    depth: nat) -> Option<Seq<char>> {
    if ExprSort::spec_from_u32(expr.spec_tag()) != Some(ExprSort::LITERAL) {
        None
    } else if expr.spec_index() < pv.expr_literal.len() {
        let lit = pv.expr_literal[expr.spec_index() as int];
        let ty_eff = match ty {
            Some(t) => spec_unqualified(pv, t),
            None => Some(lit.ty),
        };
        match ty_eff {
            Some(t) => match spec_fund_of(pv, t, depth) {
                Some(fund) => match LiteralSort::spec_from_u32(lit.value.spec_tag()) {
                    Some(LiteralSort::IMMEDIATE) => {
                        let v = lit.value.spec_index();
                        if spec_fund_is_bool(fund) {
                            Some(if v != 0 { "true"@ } else { "false"@ })
                        } else {
                            Some(spec_dec_u64(v as u64))
                        }
                    },
                    Some(LiteralSort::INTEGER) => if lit.value.spec_index()
                        < pv.const_i64.len() {
                        let v = pv.const_i64[lit.value.spec_index() as int];
                        if spec_fund_is_bool(fund) {
                            Some(if v != 0 { "true"@ } else { "false"@ })
                        } else if spec_fund_is_signed(fund) {
                            let vi = v as i64;
                            if vi < 0 {
                                if vi == i64::MIN {
                                    None
                                } else {
                                    Some("-"@ + spec_dec_u64((-(vi as int)) as u64))
                                }
                            } else {
                                Some(spec_dec_u64(v))
                            }
                        } else {
                            Some(spec_dec_u64(v))
                        }
                    } else {
                        None
                    },
                    _ => None,
                },
                None => None,
            },
            None => None,
        }
    } else {
        None
    }
}

/// Whether the reached fundamental type is boolean.
pub open spec fn spec_fund_is_bool(fund: Option<FundamentalType>) -> bool {
    match fund {
        Some(ft) => TypeBasis::spec_from_u32(ft.basis as u32) == Some(TypeBasis::BOOL),
        None => false,
    }
}

/// Whether the reached fundamental type reads as signed.
pub open spec fn spec_fund_is_signed(fund: Option<FundamentalType>) -> bool {
    match fund {
        Some(ft) => spec_sign_is_signed(ft.sign),
        None => false,
    }
}

impl Ifc {
    /// Translates a type reference to a target-language type expression;
    /// local names resolve under the configured target-module path.
    pub fn get_type_tokens(&self, decisions: &DiscoveryState, mod_path: &str,
        type_index: TypeIndex) -> (r: Result<String, Error>)
        ensures
            r matches Ok(s) ==> (spec_type_tokens(self.parts@, decisions@.decisions,
                mod_path@, type_index, MAX_TRANSLATE_DEPTH as nat) matches Some(t)
                && t.0 == s@),
            r is Err <==> spec_type_tokens(self.parts@, decisions@.decisions, mod_path@,
                type_index, MAX_TRANSLATE_DEPTH as nat) is None,
    {
        match self.get_type_tokens_with_const(decisions, mod_path, type_index) {
            Ok((s, _)) => Ok(s),
            Err(e) => Err(e),
        }
    }

    /// Translates a type reference, also reporting whether its outermost
    /// qualifier carries `const`.
    pub fn get_type_tokens_with_const(&self, decisions: &DiscoveryState, mod_path: &str,
        type_index: TypeIndex) -> (r: Result<(String, bool), Error>)
        ensures
            r matches Ok(p) ==> (spec_type_tokens(self.parts@, decisions@.decisions,
                mod_path@, type_index, MAX_TRANSLATE_DEPTH as nat) matches Some(t)
                && t.0 == p.0@ && t.1 == p.1),
            r is Err <==> spec_type_tokens(self.parts@, decisions@.decisions, mod_path@,
                type_index, MAX_TRANSLATE_DEPTH as nat) is None,
    {
        type_tokens_rec(self, decisions, mod_path, type_index, MAX_TRANSLATE_DEPTH)
    }
}

/// Translates one type reference with a depth bound.
fn type_tokens_rec(ifc: &Ifc, decisions: &DiscoveryState, mod_path: &str, ti: TypeIndex,
    depth: u32) -> (r: Result<(String, bool), Error>)
    ensures
        r matches Ok(p) ==> (spec_type_tokens(ifc.parts@, decisions@.decisions,
            mod_path@, ti, depth as nat) matches Some(t) && t.0 == p.0@ && t.1 == p.1),
        r is Err <==> spec_type_tokens(ifc.parts@, decisions@.decisions, mod_path@, ti,
            depth as nat) is None,
    decreases depth,
{
    if depth == 0 {
        return Err(Error::MaxDepthExceeded);
    }
    match TypeSort::from_u32(ti.tag()) {
        Some(TypeSort::QUALIFIED) => {
            let qt = *match ifc.type_qualified().entry(ti.index()) {
                Ok(v) => v,
                Err(e) => {
                    return Err(e);
                },
            };
            match type_tokens_rec(ifc, decisions, mod_path, qt.unqualified_type, depth - 1) {
                Ok((s, _)) => Ok((s, qt.qualifiers & QUALIFIER_CONST != 0)),
                Err(e) => Err(e),
            }
        },
        Some(TypeSort::FUNDAMENTAL) => {
            let ft = *match ifc.type_fundamental().entry(ti.index()) {
                Ok(v) => v,
                Err(e) => {
                    return Err(e);
                },
            };
            match fundamental_tokens(&ft) {
                Some(s) => Ok((s, false)),
                None => Err(Error::bad("fundamental type has no translation")),
            }
        },
        Some(TypeSort::POINTER) => {
            let inner_ti = *match ifc.type_pointer().entry(ti.index()) {
                Ok(v) => v,
                Err(e) => {
                    return Err(e);
                },
            };
            let (inner, inner_const) = match type_tokens_rec(ifc, decisions, mod_path, inner_ti, depth - 1) {
                Ok(p) => p,
                Err(e) => {
                    return Err(e);
                },
            };
            let mut s: String = if inner_const {
                "*const ".to_owned()
            } else {
                "*mut ".to_owned()
            };
            s.append(inner.as_str());
            Ok((s, false))
        },
        Some(TypeSort::ARRAY) => {
            let arr = *match ifc.type_array().entry(ti.index()) {
                Ok(v) => v,
                Err(e) => {
                    return Err(e);
                },
            };
            let (inner, inner_const) = match type_tokens_rec(ifc, decisions, mod_path, arr.element,
                depth - 1) {
                Ok(p) => p,
                Err(e) => {
                    return Err(e);
                },
            };
            if matches!(ExprSort::from_u32(arr.extent.tag()),
                Some(ExprSort::VENDOR_EXTENSION)) {
                let mut s: String = if inner_const {
                    "*const ".to_owned()
                } else {
                    "*mut ".to_owned()
                };
                s.append(inner.as_str());
                Ok((s, false))
            } else {
                let ext = match gen_expr_tokens(ifc, None, arr.extent) {
                    Ok(s) => s,
                    Err(e) => {
                        return Err(e);
                    },
                };
                let mut s: String = "[".to_owned();
                s.append(inner.as_str());
                s.append("; ");
                s.append(ext.as_str());
                s.append("]");
                Ok((s, inner_const))
            }
        },
        Some(TypeSort::DESIGNATED) => {
            let d = *match ifc.type_designated().entry(ti.index()) {
                Ok(v) => v,
                Err(e) => {
                    return Err(e);
                },
            };
            match decisions.get_decision(d.0) {
                Some(crate::type_discovery::Disposition::Included(rn)) => {
                    let mut s: String = match &rn.extern_crate {
                        Some(c) => c.as_str().to_owned(),
                        None => {
                            let mut local: String = "crate".to_owned();
                            local.append(mod_path);
                            local
                        },
                    };
                    s.append(rn.path.as_str());
                    Ok((s, false))
                },
                _ => Err(Error::bad("referenced declaration has no recorded name")),
            }
        },
        Some(TypeSort::UNALIGNED) => {
            let inner_ti = *match ifc.type_unaligned().entry(ti.index()) {
                Ok(v) => v,
                Err(e) => {
                    return Err(e);
                },
            };
            type_tokens_rec(ifc, decisions, mod_path, inner_ti, depth - 1)
        },
        Some(TypeSort::LVALUE_REFERENCE) => {
            let inner_ti = *match ifc.type_lvalue_reference().entry(ti.index()) {
                Ok(v) => v,
                Err(e) => {
                    return Err(e);
                },
            };
            let (inner, inner_const) = match type_tokens_rec(ifc, decisions, mod_path, inner_ti, depth - 1) {
                Ok(p) => p,
                Err(e) => {
                    return Err(e);
                },
            };
            let mut s: String = if inner_const {
                "*const ".to_owned()
            } else {
                "*mut ".to_owned()
            };
            s.append(inner.as_str());
            Ok((s, false))
        },
        Some(TypeSort::RVALUE_REFERENCE) => {
            let inner_ti = *match ifc.type_rvalue_reference().entry(ti.index()) {
                Ok(v) => v,
                Err(e) => {
                    return Err(e);
                },
            };
            let (inner, inner_const) = match type_tokens_rec(ifc, decisions, mod_path, inner_ti, depth - 1) {
                Ok(p) => p,
                Err(e) => {
                    return Err(e);
                },
            };
            let mut s: String = if inner_const {
                "*const *const ".to_owned()
            } else {
                "*mut *mut ".to_owned()
            };
            s.append(inner.as_str());
            Ok((s, false))
        },
        Some(TypeSort::FUNCTION) => Ok(("*const core::ffi::c_void".to_owned(), false)),
        _ => Err(Error::bad("type shape has no translation")),
    }
}

/// The primitive spelling of a fundamental type, when one exists.
fn fundamental_tokens(ft: &FundamentalType) -> (r: Option<String>)
    ensures
        r matches Some(s) ==> spec_fundamental_tokens(*ft) == Some(s@),
        r is None <==> spec_fundamental_tokens(*ft) is None,
{
    let signed = matches!(TypeSign::from_u32(ft.sign as u32), Some(TypeSign::SIGNED))
        || matches!(TypeSign::from_u32(ft.sign as u32), Some(TypeSign::PLAIN));
    match TypeBasis::from_u32(ft.basis as u32) {
        Some(TypeBasis::INT) => {
            let t: &'static str = match TypePrecision::from_u32(ft.precision as u32) {
                Some(TypePrecision::DEFAULT) => if signed { "i32" } else { "u32" },
                Some(TypePrecision::LONG) => if signed { "i32" } else { "u32" },
                Some(TypePrecision::BIT32) => if signed { "i32" } else { "u32" },
                Some(TypePrecision::BIT8) => if signed { "i8" } else { "u8" },
                Some(TypePrecision::BIT16) => if signed { "i16" } else { "u16" },
                Some(TypePrecision::BIT64) => if signed { "i64" } else { "u64" },
                Some(TypePrecision::BIT128) => if signed { "i128" } else { "u128" },
                Some(TypePrecision::SHORT) => if signed { "i16" } else { "u16" },
                None => {
                    return None;
                },
            };
            Some(t.to_owned())
        },
        Some(TypeBasis::CHAR) => match TypePrecision::from_u32(ft.precision as u32) {
            Some(TypePrecision::DEFAULT) => Some(
                if signed { "i8".to_owned() } else { "u8".to_owned() }),
            _ => None,
        },
        Some(TypeBasis::FLOAT) => if ft.sign == 0 {
            Some("f32".to_owned())
        } else {
            None
        },
        Some(TypeBasis::DOUBLE) => if ft.sign == 0 {
            Some("f64".to_owned())
        } else {
            None
        },
        Some(TypeBasis::BOOL) => Some("bool".to_owned()),
        Some(TypeBasis::WCHAR_T) => Some("u16".to_owned()),
        Some(TypeBasis::VOID) => Some("core::ffi::c_void".to_owned()),
        Some(TypeBasis::ELLIPSIS) => Some("core::ffi::c_void".to_owned()),
        _ => None,
    }
}

/// Renders a literal expression as target-language tokens; an optional
/// declared type steers boolean and signedness rendering.
pub fn gen_expr_tokens(ifc: &Ifc, ty: Option<TypeIndex>, expr: ExprIndex)
    -> (r: Result<String, Error>)
    ensures
        r matches Ok(s) ==> spec_expr_tokens(ifc.parts@, ty, expr,
            MAX_TRANSLATE_DEPTH as nat) == Some(s@),
        r is Err <==> spec_expr_tokens(ifc.parts@, ty, expr,
            MAX_TRANSLATE_DEPTH as nat) is None,
{
    if !matches!(ExprSort::from_u32(expr.tag()), Some(ExprSort::LITERAL)) {
        return Err(Error::bad("only literal expressions are rendered"));
    }
    let lit = *match ifc.expr_literal().entry(expr.index()) {
        Ok(v) => v,
        Err(e) => {
            return Err(e);
        },
    };
    let ty_eff: TypeIndex = match ty {
        Some(t) => match ifc.remove_qualifiers(t) {
            Ok(u) => u,
            Err(e) => {
                return Err(e);
            },
        },
        None => lit.ty,
    };
    let fund: Option<FundamentalType> = match fund_of(ifc, ty_eff, MAX_TRANSLATE_DEPTH) {
        Ok(f) => f,
        Err(e) => {
            return Err(e);
        },
    };
    let is_bool = match &fund {
        Some(ft) => matches!(TypeBasis::from_u32(ft.basis as u32), Some(TypeBasis::BOOL)),
        None => false,
    };
    let is_signed = match &fund {
        Some(ft) => matches!(TypeSign::from_u32(ft.sign as u32), Some(TypeSign::SIGNED))
            || matches!(TypeSign::from_u32(ft.sign as u32), Some(TypeSign::PLAIN)),
        None => false,
    };
    match LiteralSort::from_u32(lit.value.tag()) {
        Some(LiteralSort::IMMEDIATE) => {
            let v = lit.value.index();
            if is_bool {
                Ok(if v != 0 { "true".to_owned() } else { "false".to_owned() })
            } else {
                Ok(dec_u64(v as u64))
            }
        },
        Some(LiteralSort::INTEGER) => {
            let v: u64 = *match ifc.const_i64().entry(lit.value.index()) {
                Ok(x) => x,
                Err(e) => {
                    return Err(e);
                },
            };
            if is_bool {
                Ok(if v != 0 { "true".to_owned() } else { "false".to_owned() })
            } else if is_signed {
                let vi: i64 = #[verifier::truncate] (v as i64);
                if vi < 0 {
                    if vi == i64::MIN {
                        return Err(Error::bad(
                            "the most negative wide value has no positive spelling"));
                    }
                    let mag: u64 = (-vi) as u64;
                    let mut s: String = "-".to_owned();
                    let digits = dec_u64(mag);
                    s.append(digits.as_str());
                    Ok(s)
                } else {
                    Ok(dec_u64(v))
                }
            } else {
                Ok(dec_u64(v))
            }
        },
        _ => Err(Error::bad("only integer literals are rendered")),
    }
}

/// Follows alias chains to the fundamental type a reference reaches.
fn fund_of(ifc: &Ifc, ti: TypeIndex, depth: u32) -> (r: Result<Option<FundamentalType>,
    Error>)
    ensures
        r matches Ok(f) ==> spec_fund_of(ifc.parts@, ti, depth as nat) == Some(f),
        r is Err <==> spec_fund_of(ifc.parts@, ti, depth as nat) is None,
    decreases depth,
{
    if depth == 0 {
        return Err(Error::MaxDepthExceeded);
    }
    match TypeSort::from_u32(ti.tag()) {
        Some(TypeSort::DESIGNATED) => {
            let d = *match ifc.type_designated().entry(ti.index()) {
                Ok(v) => v,
                Err(e) => {
                    return Err(e);
                },
            };
            if !matches!(DeclSort::from_u32(d.tag()), Some(DeclSort::ALIAS)) {
                return Err(Error::bad("literal type goes through an unsupported shape"));
            }
            let a = *match ifc.decl_alias().entry(d.index()) {
                Ok(v) => v,
                Err(e) => {
                    return Err(e);
                },
            };
            fund_of(ifc, a.aliasee, depth - 1)
        },
        Some(TypeSort::FUNDAMENTAL) => {
            let ft = *match ifc.type_fundamental().entry(ti.index()) {
                Ok(v) => v,
                Err(e) => {
                    return Err(e);
                },
            };
            Ok(Some(ft))
        },
        Some(TypeSort::POINTER) => Ok(None),
        Some(TypeSort::VENDOR_EXTENSION) => Ok(None),
        _ => Err(Error::bad("literal type goes through an unsupported shape")),
    }
}

} // verus!
