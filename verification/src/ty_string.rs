//! Diagnostic rendering of type references as C++-flavoured text.

use vstd::prelude::*;
use vstd::string::StringExecFns;
use crate::error::Error;
use crate::ifc::Ifc;
use crate::index::{DeclIndex, TypeIndex};
use crate::names::{spec_dec_u32, dec_u32};
use crate::parts::PartsView;
use crate::query::{spec_name_string, spec_literal_expr_u32};
use crate::records::{FundamentalType, QUALIFIER_CONST, QUALIFIER_VOLATILE};
use crate::sorts::{TypeSort, TypeBasis, TypePrecision, TypeSign, DeclSort, NameSort,
    CallingConvention, NoexceptSort};
use crate::strings::spec_string_at;

verus! {

/// Bound on type nesting while rendering.
pub const MAX_TYPE_RENDER_DEPTH: u32 = 256;

/// The spelling of an integer basis under a sign and precision.
pub open spec fn spec_int_string(sign: u8, precision: u8) -> Seq<char> {
    let s = TypeSign::spec_from_u32(sign as u32);
    match TypePrecision::spec_from_u32(precision as u32) {
        Some(TypePrecision::DEFAULT) => if s == Some(TypeSign::UNSIGNED) {
            "unsigned int"@
        } else if s == Some(TypeSign::SIGNED) {
            "signed int"@
        } else {
            "int"@
        },
        Some(TypePrecision::LONG) => if s == Some(TypeSign::UNSIGNED) {
            "unsigned long"@
        } else if s == Some(TypeSign::SIGNED) {
            "signed long"@
        } else {
            "long"@
        },
        Some(TypePrecision::SHORT) => if s == Some(TypeSign::UNSIGNED) {
            "unsigned short"@
        } else if s == Some(TypeSign::SIGNED) {
            "signed short"@
        } else {
            "short"@
        },
        Some(TypePrecision::BIT8) => if s == Some(TypeSign::UNSIGNED) {
            "unsigned __int8"@
        } else if s == Some(TypeSign::SIGNED) {
            "signed __int8"@
        } else {
            "__int8"@
        },
        Some(TypePrecision::BIT16) => if s == Some(TypeSign::UNSIGNED) {
            "unsigned __int16"@
        } else if s == Some(TypeSign::SIGNED) {
            "signed __int16"@
        } else {
            "__int16"@
        },
        Some(TypePrecision::BIT32) => if s == Some(TypeSign::UNSIGNED) {
            "unsigned _int32"@
        } else if s == Some(TypeSign::SIGNED) {
            "signed __int32"@
        } else {
            "__int32"@
        },
        Some(TypePrecision::BIT64) => if s == Some(TypeSign::UNSIGNED) {
            "unsigned __int64"@
        } else if s == Some(TypeSign::SIGNED) {
            "signed __int64"@
        } else {
            "__int64"@
        },
        Some(TypePrecision::BIT128) => if s == Some(TypeSign::UNSIGNED) {
            "unsigned __int128"@
        } else if s == Some(TypeSign::SIGNED) {
            "signed __int128"@
        } else {
            "__int128"@
        },
        None => "??int"@,
    }
}

/// The spelling of a fundamental type row.
pub open spec fn spec_fundamental_string(ft: FundamentalType) -> Seq<char> {
    match TypeBasis::spec_from_u32(ft.basis as u32) {
        Some(TypeBasis::VOID) => "void"@,
        Some(TypeBasis::BOOL) => "bool"@,
        Some(TypeBasis::CHAR) => "char"@,
        Some(TypeBasis::WCHAR_T) => "wchar_t"@,
        Some(TypeBasis::INT) => spec_int_string(ft.sign, ft.precision),
        Some(TypeBasis::FLOAT) => "float"@,
        Some(TypeBasis::DOUBLE) => "double"@,
        Some(TypeBasis::NULLPTR) => "nullptr"@,
        Some(TypeBasis::ELLIPSIS) => "ellipsis"@,
        Some(TypeBasis::SEGMENT_TYPE) => "segment_type"@,
        Some(TypeBasis::CLASS) => "class"@,
        Some(TypeBasis::STRUCT) => "struct"@,
        Some(TypeBasis::UNION) => "union"@,
        Some(TypeBasis::ENUM) => "enum"@,
        Some(TypeBasis::TYPENAME) => "typename"@,
        Some(TypeBasis::NAMESPACE) => "namespace"@,
        Some(TypeBasis::INTERFACE) => "interface"@,
        Some(TypeBasis::FUNCTION) => "function"@,
        Some(TypeBasis::EMPTY) => "empty"@,
        Some(TypeBasis::VARIABLE_TEMPLATE) => "variable_template"@,
        Some(TypeBasis::AUTO) => "auto"@,
        Some(TypeBasis::DECLTYPE_AUTO) => "decltype_auto"@,
        None => "??"@,
    }
}

/// The spelling of a calling convention.
pub open spec fn spec_convention_string(conv: u8) -> Seq<char> {
    match CallingConvention::spec_from_u32(conv as u32) {
        Some(CallingConvention::Cdecl) => " __cdecl "@,
        Some(CallingConvention::Std) => " __stdcall "@,
        Some(CallingConvention::This) => " __thiscall "@,
        Some(CallingConvention::Vector) => " __vectorcall "@,
        Some(CallingConvention::Fast) => " __fastcall "@,
        _ => " ?convention? "@,
    }
}

/// The spelling of an exception specification.
pub open spec fn spec_noexcept_string(sort: u8) -> Seq<char> {
    match NoexceptSort::spec_from_u32(sort as u32) {
        Some(NoexceptSort::NONE) => Seq::empty(),
        Some(NoexceptSort::FALSE) => "noexcept(false)"@,
        Some(NoexceptSort::TRUE) => "noexcept"@,
        Some(NoexceptSort::EXPRESSION) => "noexcept(expr)"@,
        Some(NoexceptSort::INFERRED) => "noexcept(inferred)"@,
        Some(NoexceptSort::UNENFORCED) => "noexcept(unenforced)"@,
        None => "??"@,
    }
}

/// The spelling of a named-declaration reference: the declared name for
/// scopes, enumerations and aliases, a placeholder otherwise.
pub open spec fn spec_designated_string(pv: PartsView, strings: Seq<u8>, d: DeclIndex)
    -> Option<Seq<char>> {
    match DeclSort::spec_from_u32(d.spec_tag()) {
        Some(DeclSort::SCOPE) => if d.spec_index() < pv.decl_scope.len() {
            spec_name_string(strings, pv.decl_scope[d.spec_index() as int].name)
        } else {
            None
        },
        Some(DeclSort::ENUMERATION) => if d.spec_index() < pv.decl_enum.len() {
            spec_string_at(strings, pv.decl_enum[d.spec_index() as int].name as int)
        } else {
            None
        },
        Some(DeclSort::ALIAS) => if d.spec_index() < pv.decl_alias.len() {
            spec_string_at(strings, pv.decl_alias[d.spec_index() as int].name as int)
        } else {
            None
        },
        _ => Some("?decl?"@),
    }
}

/// The rendered text of a type reference: `None` when a row or range is
/// out of bounds, a name does not resolve, or nesting exceeds the depth.
pub open spec fn spec_type_string(pv: PartsView, strings: Seq<u8>, ti: TypeIndex, depth: nat)
    -> Option<Seq<char>>
    decreases depth, 1nat, 0nat,
{
    if depth == 0 {
        None
    } else {
        match TypeSort::spec_from_u32(ti.spec_tag()) {
            Some(TypeSort::FUNCTION) => if ti.spec_index() < pv.type_function.len() {
                let ft = pv.type_function[ti.spec_index() as int];
                match spec_type_string(pv, strings, ft.target, (depth - 1) as nat) {
                    Some(target) => {
                        let src = if ft.source.spec_is_null() {
                            Some(Seq::<char>::empty())
                        } else {
                            spec_type_string(pv, strings, ft.source, (depth - 1) as nat)
                        };
                        match src {
                            Some(source) => {
                                let ne = spec_noexcept_string(ft.eh_spec.sort);
                                let head = target + spec_convention_string(ft.convention)
                                    + "("@ + source + ")"@;
                                Some(if ne.len() == 0 {
                                    head
                                } else {
                                    head + " "@ + ne
                                })
                            },
                            None => None,
                        }
                    },
                    None => None,
                }
            } else {
                None
            },
            Some(TypeSort::FUNDAMENTAL) => if ti.spec_index() < pv.type_fundamental.len() {
                Some(spec_fundamental_string(pv.type_fundamental[ti.spec_index() as int]))
            } else {
                None
            },
            Some(TypeSort::TUPLE) => if ti.spec_index() < pv.type_tuple.len() {
                let t = pv.type_tuple[ti.spec_index() as int];
                spec_tuple_string(pv, strings, t.start as int, t.cardinality as int, depth)
            } else {
                None
            },
            Some(TypeSort::QUALIFIED) => if ti.spec_index() < pv.type_qualified.len() {
                let qt = pv.type_qualified[ti.spec_index() as int];
                match spec_type_string(pv, strings, qt.unqualified_type, (depth - 1) as nat) {
                    Some(inner) => Some(
                        (if qt.qualifiers & QUALIFIER_VOLATILE != 0 {
                            "volatile "@
                        } else {
                            Seq::empty()
                        }) + (if qt.qualifiers & QUALIFIER_CONST != 0 {
                            "const "@
                        } else {
                            Seq::empty()
                        }) + inner,
                    ),
                    None => None,
                }
            } else {
                None
            },
            Some(TypeSort::UNALIGNED) => if ti.spec_index() < pv.type_unaligned.len() {
                match spec_type_string(pv, strings,
                    pv.type_unaligned[ti.spec_index() as int], (depth - 1) as nat) {
                    Some(inner) => Some("__unaligned "@ + inner),
                    None => None,
                }
            } else {
                None
            },
            Some(TypeSort::POINTER) => if ti.spec_index() < pv.type_pointer.len() {
                match spec_type_string(pv, strings, pv.type_pointer[ti.spec_index() as int],
                    (depth - 1) as nat) {
                    Some(inner) => Some(inner + "*"@),
                    None => None,
                }
            } else {
                None
            },
            Some(TypeSort::LVALUE_REFERENCE) => if ti.spec_index()
                < pv.type_lvalue_reference.len() {
                match spec_type_string(pv, strings,
                    pv.type_lvalue_reference[ti.spec_index() as int], (depth - 1) as nat) {
                    Some(inner) => Some(inner + "&"@),
                    None => None,
                }
            } else {
                None
            },
            Some(TypeSort::RVALUE_REFERENCE) => if ti.spec_index()
                < pv.type_rvalue_reference.len() {
                match spec_type_string(pv, strings,
                    pv.type_rvalue_reference[ti.spec_index() as int], (depth - 1) as nat) {
                    Some(inner) => Some(inner + "&&"@),
                    None => None,
                }
            } else {
                None
            },
            Some(TypeSort::DESIGNATED) => if ti.spec_index() < pv.type_designated.len() {
                spec_designated_string(pv, strings,
                    pv.type_designated[ti.spec_index() as int])
            } else {
                None
            },
            Some(TypeSort::ARRAY) => if ti.spec_index() < pv.type_array.len() {
                let arr = pv.type_array[ti.spec_index() as int];
                match spec_type_string(pv, strings, arr.element, (depth - 1) as nat) {
                    Some(elem) => Some(match spec_literal_expr_u32(pv, arr.extent) {
                        Some(n) => "["@ + elem + "; "@ + spec_dec_u32(n) + "]"@,
                        None => "["@ + elem + "; _]"@,
                    }),
                    None => None,
                }
            } else {
                None
            },
            _ => Some("?type?"@),
        }
    }
}

/// The rendered, comma-separated element types of a tuple's first `count`
/// slots.
pub open spec fn spec_tuple_string(pv: PartsView, strings: Seq<u8>, start: int, count: int,
    depth: nat) -> Option<Seq<char>>
    decreases depth, 0nat, (if count > 0 { count } else { 0 }),
{
    if count <= 0 {
        Some(Seq::empty())
    } else if depth == 0 {
        None
    } else {
        match spec_tuple_string(pv, strings, start, count - 1, depth) {
            Some(front) => if 0 <= start + count - 1 < pv.heap_type.len() {
                match spec_type_string(pv, strings, pv.heap_type[start + count - 1],
                    (depth - 1) as nat) {
                    Some(elem) => Some(if count == 1 {
                        elem
                    } else {
                        front + ", "@ + elem
                    }),
                    None => None,
                }
            } else {
                None
            },
            None => None,
        }
    }
}

impl Ifc {
    /// Renders a type reference as C++-flavoured text, for diagnostics.
    pub fn get_type_string(&self, type_index: TypeIndex) -> (r: Result<String, Error>)
        requires
            self.wf(),
        ensures
            r matches Ok(s) ==> spec_type_string(self.parts@, self.spec_strings(),
                type_index, MAX_TYPE_RENDER_DEPTH as nat) == Some(s@),
            r is Err <==> spec_type_string(self.parts@, self.spec_strings(), type_index,
                MAX_TYPE_RENDER_DEPTH as nat) is None,
    {
        type_string_rec(self, type_index, MAX_TYPE_RENDER_DEPTH)
    }
}

/// Renders one type reference with a depth bound.
fn type_string_rec(ifc: &Ifc, ti: TypeIndex, depth: u32) -> (r: Result<String, Error>)
    requires
        ifc.wf(),
    ensures
        r matches Ok(s) ==> spec_type_string(ifc.parts@, ifc.spec_strings(), ti,
            depth as nat) == Some(s@),
        r is Err <==> spec_type_string(ifc.parts@, ifc.spec_strings(), ti,
            depth as nat) is None,
    decreases depth, 1int,
{
    if depth == 0 {
        return Err(Error::MaxDepthExceeded);
    }
    match TypeSort::from_u32(ti.tag()) {
        Some(TypeSort::FUNCTION) => {
            let ft = *match ifc.type_function().entry(ti.index()) {
                Ok(v) => v,
                Err(e) => {
                    return Err(e);
                },
            };
            let target = match type_string_rec(ifc, ft.target, depth - 1) {
                Ok(s) => s,
                Err(e) => {
                    return Err(e);
                },
            };
            let source: String = if ft.source.is_null() {
                String::new()
            } else {
                match type_string_rec(ifc, ft.source, depth - 1) {
                    Ok(s) => s,
                    Err(e) => {
                        return Err(e);
                    },
                }
            };
            let mut s = target;
            s.append(convention_str(ft.convention));
            s.append("(");
            s.append(source.as_str());
            s.append(")");
            let ne = noexcept_str(ft.eh_spec.sort);
            if ne.unicode_len() != 0 {
                s.append(" ");
                s.append(ne);
            }
            proof {
                if spec_noexcept_string(ft.eh_spec.sort).len() == 0 {
                    assert(s@ =~= spec_type_string(ifc.parts@, ifc.spec_strings(), ti,
                        depth as nat).unwrap());
                }
            }
            Ok(s)
        },
        Some(TypeSort::FUNDAMENTAL) => {
            let ft = *match ifc.type_fundamental().entry(ti.index()) {
                Ok(v) => v,
                Err(e) => {
                    return Err(e);
                },
            };
            Ok(fundamental_str(&ft))
        },
        Some(TypeSort::TUPLE) => {
            let t = *match ifc.type_tuple().entry(ti.index()) {
                Ok(v) => v,
                Err(e) => {
                    return Err(e);
                },
            };
            tuple_string_rec(ifc, t.start, t.cardinality, depth)
        },
        Some(TypeSort::QUALIFIED) => {
            let qt = *match ifc.type_qualified().entry(ti.index()) {
                Ok(v) => v,
                Err(e) => {
                    return Err(e);
                },
            };
            let inner = match type_string_rec(ifc, qt.unqualified_type, depth - 1) {
                Ok(s) => s,
                Err(e) => {
                    return Err(e);
                },
            };
            let mut s = String::new();
            proof {
                assert(s@ =~= Seq::<char>::empty());
            }
            if qt.qualifiers & QUALIFIER_VOLATILE != 0 {
                s.append("volatile ");
            }
            proof {
                assert(s@ =~= (if qt.qualifiers & QUALIFIER_VOLATILE != 0 {
                    "volatile "@
                } else {
                    Seq::<char>::empty()
                }));
            }
            if qt.qualifiers & QUALIFIER_CONST != 0 {
                s.append("const ");
            }
            proof {
                assert(s@ =~= (if qt.qualifiers & QUALIFIER_VOLATILE != 0 {
                    "volatile "@
                } else {
                    Seq::<char>::empty()
                }) + (if qt.qualifiers & QUALIFIER_CONST != 0 {
                    "const "@
                } else {
                    Seq::<char>::empty()
                }));
            }
            s.append(inner.as_str());
            proof {
                let expected = (if qt.qualifiers & QUALIFIER_VOLATILE != 0 {
                    "volatile "@
                } else {
                    Seq::<char>::empty()
                }) + (if qt.qualifiers & QUALIFIER_CONST != 0 {
                    "const "@
                } else {
                    Seq::<char>::empty()
                }) + inner@;
                assert(s@ =~= expected);
                assert(spec_type_string(ifc.parts@, ifc.spec_strings(), ti, depth as nat)
                    == Some(expected));
            }
            Ok(s)
        },
        Some(TypeSort::UNALIGNED) => {
            let inner_ti = *match ifc.type_unaligned().entry(ti.index()) {
                Ok(v) => v,
                Err(e) => {
                    return Err(e);
                },
            };
            let inner = match type_string_rec(ifc, inner_ti, depth - 1) {
                Ok(s) => s,
                Err(e) => {
                    return Err(e);
                },
            };
            let mut s: String = "__unaligned ".to_owned();
            s.append(inner.as_str());
            Ok(s)
        },
        Some(TypeSort::POINTER) => {
            let inner_ti = *match ifc.type_pointer().entry(ti.index()) {
                Ok(v) => v,
                Err(e) => {
                    return Err(e);
                },
            };
            let mut s = match type_string_rec(ifc, inner_ti, depth - 1) {
                Ok(s) => s,
                Err(e) => {
                    return Err(e);
                },
            };
            s.append("*");
            Ok(s)
        },
        Some(TypeSort::LVALUE_REFERENCE) => {
            let inner_ti = *match ifc.type_lvalue_reference().entry(ti.index()) {
                Ok(v) => v,
                Err(e) => {
                    return Err(e);
                },
            };
            let mut s = match type_string_rec(ifc, inner_ti, depth - 1) {
                Ok(s) => s,
                Err(e) => {
                    return Err(e);
                },
            };
            s.append("&");
            Ok(s)
        },
        Some(TypeSort::RVALUE_REFERENCE) => {
            let inner_ti = *match ifc.type_rvalue_reference().entry(ti.index()) {
                Ok(v) => v,
                Err(e) => {
                    return Err(e);
                },
            };
            let mut s = match type_string_rec(ifc, inner_ti, depth - 1) {
                Ok(s) => s,
                Err(e) => {
                    return Err(e);
                },
            };
            s.append("&&");
            Ok(s)
        },
        Some(TypeSort::DESIGNATED) => {
            let d = *match ifc.type_designated().entry(ti.index()) {
                Ok(v) => v,
                Err(e) => {
                    return Err(e);
                },
            };
            designated_string(ifc, d)
        },
        Some(TypeSort::ARRAY) => {
            let arr = *match ifc.type_array().entry(ti.index()) {
                Ok(v) => v,
                Err(e) => {
                    return Err(e);
                },
            };
            let elem = match type_string_rec(ifc, arr.element, depth - 1) {
                Ok(s) => s,
                Err(e) => {
                    return Err(e);
                },
            };
            let mut s: String = "[".to_owned();
            s.append(elem.as_str());
            match ifc.get_literal_expr_u32(arr.extent) {
                Ok(n) => {
                    s.append("; ");
                    let digits = dec_u32(n);
                    s.append(digits.as_str());
                    s.append("]");
                },
                Err(_) => {
                    s.append("; _]");
                },
            }
            Ok(s)
        },
        _ => Ok("?type?".to_owned()),
    }
}

/// Renders the first `count` element types of a tuple.
fn tuple_string_rec(ifc: &Ifc, start: u32, count: u32, depth: u32) -> (r: Result<String,
    Error>)
    requires
        ifc.wf(),
        depth >= 1,
    ensures
        r matches Ok(s) ==> spec_tuple_string(ifc.parts@, ifc.spec_strings(),
            start as int, count as int, depth as nat) == Some(s@),
        r is Err <==> spec_tuple_string(ifc.parts@, ifc.spec_strings(), start as int,
            count as int, depth as nat) is None,
    decreases depth, 0int, count,
{
    if count == 0 {
        let s = String::new();
        proof {
            assert(s@ =~= Seq::<char>::empty());
        }
        return Ok(s);
    }
    let front = match tuple_string_rec(ifc, start, count - 1, depth) {
        Ok(s) => s,
        Err(e) => {
            return Err(e);
        },
    };
    let heap = ifc.heap_type();
    let slot_64: u64 = start as u64 + count as u64 - 1;
    if slot_64 >= heap.entries.len() as u64 {
        return Err(Error::bad("tuple element is out of range of the type heap"));
    }
    let elem_ti: TypeIndex = heap.entries[slot_64 as usize];
    let elem = match type_string_rec(ifc, elem_ti, depth - 1) {
        Ok(s) => s,
        Err(e) => {
            return Err(e);
        },
    };
    if count == 1 {
        Ok(elem)
    } else {
        let mut s = front;
        s.append(", ");
        s.append(elem.as_str());
        Ok(s)
    }
}

/// Renders the declared name of a named-declaration reference.
fn designated_string(ifc: &Ifc, d: DeclIndex) -> (r: Result<String, Error>)
    requires
        ifc.wf(),
    ensures
        r matches Ok(s) ==> spec_designated_string(ifc.parts@, ifc.spec_strings(), d)
            == Some(s@),
        r is Err <==> spec_designated_string(ifc.parts@, ifc.spec_strings(), d) is None,
{
    match DeclSort::from_u32(d.tag()) {
        Some(DeclSort::SCOPE) => {
            let sc = *match ifc.decl_scope().entry(d.index()) {
                Ok(v) => v,
                Err(e) => {
                    return Err(e);
                },
            };
            match ifc.get_name_string(sc.name) {
                Ok(s) => Ok(s.to_owned()),
                Err(e) => Err(e),
            }
        },
        Some(DeclSort::ENUMERATION) => {
            let en = *match ifc.decl_enum().entry(d.index()) {
                Ok(v) => v,
                Err(e) => {
                    return Err(e);
                },
            };
            match ifc.get_string(en.name) {
                Ok(s) => Ok(s.to_owned()),
                Err(e) => Err(e),
            }
        },
        Some(DeclSort::ALIAS) => {
            let a = *match ifc.decl_alias().entry(d.index()) {
                Ok(v) => v,
                Err(e) => {
                    return Err(e);
                },
            };
            match ifc.get_string(a.name) {
                Ok(s) => Ok(s.to_owned()),
                Err(e) => Err(e),
            }
        },
        _ => Ok("?decl?".to_owned()),
    }
}

/// The spelling of a calling convention.
fn convention_str(conv: u8) -> (r: &'static str)
    ensures
        r@ == spec_convention_string(conv),
{
    match CallingConvention::from_u32(conv as u32) {
        Some(CallingConvention::Cdecl) => " __cdecl ",
        Some(CallingConvention::Std) => " __stdcall ",
        Some(CallingConvention::This) => " __thiscall ",
        Some(CallingConvention::Vector) => " __vectorcall ",
        Some(CallingConvention::Fast) => " __fastcall ",
        _ => " ?convention? ",
    }
}

/// The spelling of an exception specification.
fn noexcept_str(sort: u8) -> (r: &'static str)
    ensures
        r@ == spec_noexcept_string(sort),
{
    proof {
        reveal_strlit("");
    }
    match NoexceptSort::from_u32(sort as u32) {
        Some(NoexceptSort::NONE) => "",
        Some(NoexceptSort::FALSE) => "noexcept(false)",
        Some(NoexceptSort::TRUE) => "noexcept",
        Some(NoexceptSort::EXPRESSION) => "noexcept(expr)",
        Some(NoexceptSort::INFERRED) => "noexcept(inferred)",
        Some(NoexceptSort::UNENFORCED) => "noexcept(unenforced)",
        None => "??",
    }
}

/// The spelling of a fundamental type row.
fn fundamental_str(ft: &FundamentalType) -> (r: String)
    ensures
        r@ == spec_fundamental_string(*ft),
{
    let text: &'static str = match TypeBasis::from_u32(ft.basis as u32) {
        Some(TypeBasis::VOID) => "void",
        Some(TypeBasis::BOOL) => "bool",
        Some(TypeBasis::CHAR) => "char",
        Some(TypeBasis::WCHAR_T) => "wchar_t",
        Some(TypeBasis::INT) => int_str(ft.sign, ft.precision),
        Some(TypeBasis::FLOAT) => "float",
        Some(TypeBasis::DOUBLE) => "double",
        Some(TypeBasis::NULLPTR) => "nullptr",
        Some(TypeBasis::ELLIPSIS) => "ellipsis",
        Some(TypeBasis::SEGMENT_TYPE) => "segment_type",
        Some(TypeBasis::CLASS) => "class",
        Some(TypeBasis::STRUCT) => "struct",
        Some(TypeBasis::UNION) => "union",
        Some(TypeBasis::ENUM) => "enum",
        Some(TypeBasis::TYPENAME) => "typename",
        Some(TypeBasis::NAMESPACE) => "namespace",
        Some(TypeBasis::INTERFACE) => "interface",
        Some(TypeBasis::FUNCTION) => "function",
        Some(TypeBasis::EMPTY) => "empty",
        Some(TypeBasis::VARIABLE_TEMPLATE) => "variable_template",
        Some(TypeBasis::AUTO) => "auto",
        Some(TypeBasis::DECLTYPE_AUTO) => "decltype_auto",
        None => "??",
    };
    text.to_owned()
}

/// The spelling of an integer basis under a sign and precision.
fn int_str(sign: u8, precision: u8) -> (r: &'static str)
    ensures
        r@ == spec_int_string(sign, precision),
{
    let unsignedp = matches!(TypeSign::from_u32(sign as u32), Some(TypeSign::UNSIGNED));
    let signedp = matches!(TypeSign::from_u32(sign as u32), Some(TypeSign::SIGNED));
    match TypePrecision::from_u32(precision as u32) {
        Some(TypePrecision::DEFAULT) => if unsignedp {
            "unsigned int"
        } else if signedp {
            "signed int"
        } else {
            "int"
        },
        Some(TypePrecision::LONG) => if unsignedp {
            "unsigned long"
        } else if signedp {
            "signed long"
        } else {
            "long"
        },
        Some(TypePrecision::SHORT) => if unsignedp {
            "unsigned short"
        } else if signedp {
            "signed short"
        } else {
            "short"
        },
        Some(TypePrecision::BIT8) => if unsignedp {
            "unsigned __int8"
        } else if signedp {
            "signed __int8"
        } else {
            "__int8"
        },
        Some(TypePrecision::BIT16) => if unsignedp {
            "unsigned __int16"
        } else if signedp {
            "signed __int16"
        } else {
            "__int16"
        },
        Some(TypePrecision::BIT32) => if unsignedp {
            "unsigned _int32"
        } else if signedp {
            "signed __int32"
        } else {
            "__int32"
        },
        Some(TypePrecision::BIT64) => if unsignedp {
            "unsigned __int64"
        } else if signedp {
            "signed __int64"
        } else {
            "__int64"
        },
        Some(TypePrecision::BIT128) => if unsignedp {
            "unsigned __int128"
        } else if signedp {
            "signed __int128"
        } else {
            "__int128"
        },
        None => "??int",
    }
}

} // verus!
