//! The macro translator: best-effort conversion of preprocessor macro
//! definitions into target-language macros.
//!
//! Supported body shapes are identifiers, numeric literals, a few operator
//! tokens, parameters, parenthesized sub-forms, and runs of those with a
//! recognized leading-cast pattern dropped. An identifier naming another
//! macro becomes a qualified invocation of that macro, and an
//! unprocessed macro found this way is queued for translation rather than
//! recursed into, so mutually referencing macros cannot overflow the
//! stack. An unsupported shape fails that macro alone.

use vstd::prelude::*;
use vstd::string::StringExecFns;
use crate::error::Error;
use crate::ifc::Ifc;
use crate::index::FormIndex;
use crate::names::{spec_dec_u32, spec_dec_u64, dec_u32, dec_u64};
use crate::numbers::{MacroNumber, spec_parse_macro_number, parse_macro_number};
use crate::parts::PartsView;
use crate::records::{MacroObjectLike, MacroFunctionLike};
use crate::sorts::{FormSort, WordSort, WordSortPunctuator, WordSortOperator};
use crate::strings::spec_string_at;
use crate::symbol_map::{SymbolMap, sm_view, spec_lookup};

verus! {

/// Bound on form nesting while translating one macro body.
pub const MAX_MACRO_DEPTH: u32 = 256;

/// One macro found by name in the current module, queued for translation.
#[derive(Copy, Clone)]
pub enum MacroRef {
    Object(MacroObjectLike),
    Function(MacroFunctionLike),
}

/// The rendered token text of a parsed numeric literal: the widest values
/// are spelled through their named limits so negation cannot overflow.
pub open spec fn spec_render_macro_number(m: MacroNumber) -> Seq<char> {
    match m {
        MacroNumber::U32(v) => if v == u32::MAX {
            "u32::MAX"@
        } else {
            spec_dec_u32(v) + "u32"@
        },
        MacroNumber::I32(v) => if v == i32::MIN {
            "i32::MIN"@
        } else if v == i32::MAX {
            "i32::MAX"@
        } else if v < 0 {
            "-"@ + spec_dec_u32((-(v as int)) as u32) + "i32"@
        } else {
            spec_dec_u32(v as u32) + "i32"@
        },
        MacroNumber::U64(v) => if v == u64::MAX {
            "u64::MAX"@
        } else {
            spec_dec_u64(v) + " as u64"@
        },
        MacroNumber::I64(v) => if v == i64::MIN {
            "i64::MIN"@
        } else if v == i64::MAX {
            "i64::MAX"@
        } else if v < 0 {
            "-"@ + spec_dec_u64((-(v as int)) as u64) + "i64"@
        } else {
            spec_dec_u64(v as u64) + "i64"@
        },
    }
}

/// Renders a parsed numeric literal as target-language tokens.
pub fn render_macro_number(m: MacroNumber) -> (r: String)
    ensures
        r@ == spec_render_macro_number(m),
{
    match m {
        MacroNumber::U32(v) => if v == u32::MAX {
            "u32::MAX".to_owned()
        } else {
            let mut s = dec_u32(v);
            s.append("u32");
            s
        },
        MacroNumber::I32(v) => if v == i32::MIN {
            "i32::MIN".to_owned()
        } else if v == i32::MAX {
            "i32::MAX".to_owned()
        } else if v < 0 {
            let mut s: String = "-".to_owned();
            let digits = dec_u32((-v) as u32);
            s.append(digits.as_str());
            s.append("i32");
            s
        } else {
            let mut s = dec_u32(v as u32);
            s.append("i32");
            s
        },
        MacroNumber::U64(v) => if v == u64::MAX {
            "u64::MAX".to_owned()
        } else {
            let mut s = dec_u64(v);
            s.append(" as u64");
            s
        },
        MacroNumber::I64(v) => if v == i64::MIN {
            "i64::MIN".to_owned()
        } else if v == i64::MAX {
            "i64::MAX".to_owned()
        } else if v < 0 {
            let mut s: String = "-".to_owned();
            let digits = dec_u64((-v) as u64);
            s.append(digits.as_str());
            s.append("i64");
            s
        } else {
            let mut s = dec_u64(v as u64);
            s.append("i64");
            s
        },
    }
}

/// The token text of one supported operator or punctuator word, if it is
/// supported.
pub open spec fn spec_op_tokens(pv: PartsView, form: FormIndex) -> Option<Seq<char>> {
    if form.spec_index() < pv.pp_op.len() {
        let op = pv.pp_op[form.spec_index() as int].operator;
        match WordSort::spec_from_u32(op.spec_tag()) {
            WordSort::PUNCTUATOR => match WordSortPunctuator::spec_from_u32(
                op.spec_index()) {
                WordSortPunctuator::LeftParenthesis => Some("("@),
                WordSortPunctuator::RightParenthesis => Some(")"@),
                _ => None,
            },
            WordSort::OPERATOR => match WordSortOperator::spec_from_u32(op.spec_index()) {
                WordSortOperator::Bar => Some("|"@),
                WordSortOperator::Comma => Some(","@),
                WordSortOperator::Dash => Some("-"@),
                WordSortOperator::LeftChevron => Some("<<"@),
                WordSortOperator::Plus => Some("+"@),
                WordSortOperator::RightChevron => Some(">>"@),
                _ => None,
            },
            _ => None,
        }
    } else {
        None
    }
}

/// How an identifier inside a macro body resolves: another macro of a
/// referenced crate, a macro of this module, or a plain identifier.
pub ghost enum IdentKind {
    ExternMacro { ext: Seq<char>, object_like: bool },
    LocalMacro { object_like: bool, queued: bool },
    Plain,
}

/// Resolution of one identifier against the processed-macro table, the
/// referenced modules, and this module's macro partitions, in that order.
pub open spec fn spec_resolve_ident(
    pv: PartsView,
    strings: Seq<u8>,
    processed: Seq<(Seq<char>, usize)>,
    sm_obj: Seq<(Seq<char>, usize)>,
    sm_fn: Seq<(Seq<char>, usize)>,
    crates: Seq<Seq<char>>,
    nm: Seq<char>,
) -> IdentKind {
    if spec_lookup(processed, nm) is Some {
        IdentKind::LocalMacro {
            object_like: spec_lookup(processed, nm).unwrap() == 1,
            queued: false,
        }
    } else if spec_lookup(sm_obj, nm) is Some && spec_lookup(sm_obj, nm).unwrap()
        < crates.len() {
        IdentKind::ExternMacro {
            ext: crates[spec_lookup(sm_obj, nm).unwrap() as int],
            object_like: true,
        }
    } else if spec_lookup(sm_fn, nm) is Some && spec_lookup(sm_fn, nm).unwrap()
        < crates.len() {
        IdentKind::ExternMacro {
            ext: crates[spec_lookup(sm_fn, nm).unwrap() as int],
            object_like: false,
        }
    } else {
        match spec_find_macro(pv, strings, nm) {
            Some(r) => IdentKind::LocalMacro {
                object_like: r matches MacroRef::Object(_),
                queued: true,
            },
            None => IdentKind::Plain,
        }
    }
}

/// The first macro row of this module carrying the name: object-like rows
/// are searched before function-like rows.
pub open spec fn spec_find_macro(pv: PartsView, strings: Seq<u8>, nm: Seq<char>)
    -> Option<MacroRef> {
    match spec_find_obj(pv.macro_object_like, strings, nm, 0) {
        Some(m) => Some(MacroRef::Object(m)),
        None => match spec_find_fn(pv.macro_function_like, strings, nm, 0) {
            Some(m) => Some(MacroRef::Function(m)),
            None => None,
        },
    }
}

/// The first object-like macro row at or after `i` carrying the name.
pub open spec fn spec_find_obj(rows: Seq<MacroObjectLike>, strings: Seq<u8>, nm: Seq<char>,
    i: int) -> Option<MacroObjectLike>
    decreases rows.len() - i,
{
    if i < 0 || i >= rows.len() {
        None
    } else if spec_string_at(strings, rows[i].name as int) == Some(nm) {
        Some(rows[i])
    } else {
        spec_find_obj(rows, strings, nm, i + 1)
    }
}

/// The first function-like macro row at or after `i` carrying the name.
pub open spec fn spec_find_fn(rows: Seq<MacroFunctionLike>, strings: Seq<u8>,
    nm: Seq<char>, i: int) -> Option<MacroFunctionLike>
    decreases rows.len() - i,
{
    if i < 0 || i >= rows.len() {
        None
    } else if spec_string_at(strings, rows[i].name as int) == Some(nm) {
        Some(rows[i])
    } else {
        spec_find_fn(rows, strings, nm, i + 1)
    }
}

/// Looks up the first object-like macro row carrying the name.
fn find_obj(ifc: &Ifc, nm: &str) -> (r: Option<MacroObjectLike>)
    requires
        ifc.wf(),
    ensures
        r == spec_find_obj(ifc.parts@.macro_object_like, ifc.spec_strings(), nm@, 0),
{
    let rows = ifc.macro_object_like();
    let n = rows.entries.len();
    let mut i: usize = 0;
    while i < n
        invariant
            ifc.wf(),
            i <= n,
            n == rows.entries@.len(),
            rows.entries@ == ifc.parts@.macro_object_like,
            spec_find_obj(ifc.parts@.macro_object_like, ifc.spec_strings(), nm@, 0)
                == spec_find_obj(ifc.parts@.macro_object_like, ifc.spec_strings(), nm@,
                    i as int),
        decreases n - i,
    {
        let row = rows.entries[i];
        match ifc.get_string(row.name) {
            Ok(s) => {
                if crate::bytes::str_eq(s, nm) {
                    return Some(row);
                }
            },
            Err(_) => {},
        }
        i += 1;
    }
    None
}

/// Looks up the first function-like macro row carrying the name.
fn find_fn(ifc: &Ifc, nm: &str) -> (r: Option<MacroFunctionLike>)
    requires
        ifc.wf(),
    ensures
        r == spec_find_fn(ifc.parts@.macro_function_like, ifc.spec_strings(), nm@, 0),
{
    let rows = ifc.macro_function_like();
    let n = rows.entries.len();
    let mut i: usize = 0;
    while i < n
        invariant
            ifc.wf(),
            i <= n,
            n == rows.entries@.len(),
            rows.entries@ == ifc.parts@.macro_function_like,
            spec_find_fn(ifc.parts@.macro_function_like, ifc.spec_strings(), nm@, 0)
                == spec_find_fn(ifc.parts@.macro_function_like, ifc.spec_strings(), nm@,
                    i as int),
        decreases n - i,
    {
        let row = rows.entries[i];
        match ifc.get_string(row.name) {
            Ok(s) => {
                if crate::bytes::str_eq(s, nm) {
                    return Some(row);
                }
            },
            Err(_) => {},
        }
        i += 1;
    }
    None
}

/// Outcome of translating one body form: the rendered text, the macro
/// work queue after it, and whether the shape was supported.
pub ghost struct MStep {
    pub text: Seq<char>,
    pub queue: Seq<(Seq<char>, MacroRef)>,
    pub ok: bool,
}

/// The element of the form heap a tuple slot refers to.
pub open spec fn spec_form_elem(pv: PartsView, start: int, k: int) -> Option<FormIndex> {
    if 0 <= start + k < pv.heap_form.len() {
        Some(pv.heap_form[start + k])
    } else {
        None
    }
}

/// Whether a tuple slot holds the given punctuator; `None` when reading it
/// faults.
pub open spec fn spec_check_punct(pv: PartsView, start: int, k: int,
    p: WordSortPunctuator) -> Option<bool> {
    match spec_form_elem(pv, start, k) {
        Some(f) => if FormSort::spec_from_u32(f.spec_tag()) == Some(FormSort::OPERATOR) {
            if f.spec_index() < pv.pp_op.len() {
                let op = pv.pp_op[f.spec_index() as int].operator;
                match WordSort::spec_from_u32(op.spec_tag()) {
                    WordSort::PUNCTUATOR => Some(
                        WordSortPunctuator::spec_from_u32(op.spec_index()) == p),
                    WordSort::OPERATOR => Some(false),
                    _ => None,
                }
            } else {
                None
            }
        } else {
            Some(false)
        },
        None => None,
    }
}

/// Whether a tuple slot holds an identifier; with spellings given, one of
/// those identifiers. `None` when reading it faults.
pub open spec fn spec_check_ident(pv: PartsView, strings: Seq<u8>, start: int, k: int,
    spellings: Seq<Seq<char>>) -> Option<bool> {
    match spec_form_elem(pv, start, k) {
        Some(f) => if FormSort::spec_from_u32(f.spec_tag())
            == Some(FormSort::IDENTIFIER) {
            if spellings.len() == 0 {
                Some(true)
            } else if f.spec_index() < pv.pp_ident.len() {
                match spec_string_at(strings,
                    pv.pp_ident[f.spec_index() as int].spelling as int) {
                    Some(nm) => Some(spellings.contains(nm)),
                    None => None,
                }
            } else {
                None
            }
        } else {
            Some(false)
        },
        None => None,
    }
}

/// Translates one body form.
pub open spec fn spec_gen_macro_body(
    pv: PartsView,
    strings: Seq<u8>,
    processed: Seq<(Seq<char>, usize)>,
    sm_obj: Seq<(Seq<char>, usize)>,
    sm_fn: Seq<(Seq<char>, usize)>,
    crates: Seq<Seq<char>>,
    form: FormIndex,
    queue: Seq<(Seq<char>, MacroRef)>,
    depth: nat,
) -> MStep
    decreases depth, 1nat, 0nat,
{
    if depth == 0 {
        MStep { text: Seq::empty(), queue, ok: false }
    } else {
        match FormSort::spec_from_u32(form.spec_tag()) {
            Some(FormSort::IDENTIFIER) => if form.spec_index() < pv.pp_ident.len() {
                match spec_string_at(strings,
                    pv.pp_ident[form.spec_index() as int].spelling as int) {
                    Some(nm) => match spec_resolve_ident(pv, strings, processed, sm_obj,
                        sm_fn, crates, nm) {
                        IdentKind::ExternMacro { ext, object_like } => MStep {
                            text: ext + "::"@ + nm + (if object_like {
                                "!()"@
                            } else {
                                "!"@
                            }),
                            queue,
                            ok: true,
                        },
                        IdentKind::LocalMacro { object_like, queued } => MStep {
                            text: "$crate::"@ + nm + (if object_like {
                                "!()"@
                            } else {
                                "!"@
                            }),
                            queue: if queued {
                                queue.push((nm, spec_find_macro(pv, strings, nm).unwrap()))
                            } else {
                                queue
                            },
                            ok: true,
                        },
                        IdentKind::Plain => MStep { text: nm, queue, ok: true },
                    },
                    None => MStep { text: Seq::empty(), queue, ok: false },
                }
            } else {
                MStep { text: Seq::empty(), queue, ok: false }
            },
            Some(FormSort::NUMBER) => if form.spec_index() < pv.pp_num.len() {
                match spec_string_at(strings,
                    pv.pp_num[form.spec_index() as int].spelling as int) {
                    Some(sp) => match spec_parse_macro_number(sp) {
                        Some(m) => MStep {
                            text: spec_render_macro_number(m),
                            queue,
                            ok: true,
                        },
                        None => MStep { text: Seq::empty(), queue, ok: false },
                    },
                    None => MStep { text: Seq::empty(), queue, ok: false },
                }
            } else {
                MStep { text: Seq::empty(), queue, ok: false }
            },
            Some(FormSort::OPERATOR) => match spec_op_tokens(pv, form) {
                Some(t) => MStep { text: t, queue, ok: true },
                None => MStep { text: Seq::empty(), queue, ok: false },
            },
            Some(FormSort::PARAMETER) => if form.spec_index() < pv.pp_param.len() {
                match spec_string_at(strings,
                    pv.pp_param[form.spec_index() as int].spelling as int) {
                    Some(nm) => MStep { text: "$"@ + nm, queue, ok: true },
                    None => MStep { text: Seq::empty(), queue, ok: false },
                }
            } else {
                MStep { text: Seq::empty(), queue, ok: false }
            },
            Some(FormSort::TUPLE) => if form.spec_index() < pv.pp_tuple.len() {
                let t = pv.pp_tuple[form.spec_index() as int];
                spec_macro_tuple(pv, strings, processed, sm_obj, sm_fn, crates,
                    t.start as int, t.cardinality as int, 0, queue, depth)
            } else {
                MStep { text: Seq::empty(), queue, ok: false }
            },
            _ => MStep { text: Seq::empty(), queue, ok: false },
        }
    }
}

/// Translates tuple slots from `i` on, dropping recognized leading-cast
/// patterns.
pub open spec fn spec_macro_tuple(
    pv: PartsView,
    strings: Seq<u8>,
    processed: Seq<(Seq<char>, usize)>,
    sm_obj: Seq<(Seq<char>, usize)>,
    sm_fn: Seq<(Seq<char>, usize)>,
    crates: Seq<Seq<char>>,
    start: int,
    card: int,
    i: int,
    queue: Seq<(Seq<char>, MacroRef)>,
    depth: nat,
) -> MStep
    decreases depth, 0nat, (if card - i > 0 { card - i } else { 0 }),
{
    if i >= card {
        MStep { text: Seq::empty(), queue, ok: true }
    } else if depth == 0 {
        MStep { text: Seq::empty(), queue, ok: false }
    } else {
        let cast3 = if i + 2 < card {
            match spec_check_punct(pv, start, i, WordSortPunctuator::LeftParenthesis) {
                Some(true) => match spec_check_ident(pv, strings, start, i + 1,
                    Seq::empty()) {
                    Some(true) => match spec_check_punct(pv, start, i + 2,
                        WordSortPunctuator::RightParenthesis) {
                        Some(b) => Some(b),
                        None => None,
                    },
                    Some(false) => Some(false),
                    None => None,
                },
                Some(false) => Some(false),
                None => None,
            }
        } else {
            Some(false)
        };
        match cast3 {
            Some(true) => spec_macro_tuple(pv, strings, processed, sm_obj, sm_fn, crates,
                start, card, i + 3, queue, depth),
            Some(false) => {
                let cast4 = if i + 4 < card {
                    match spec_check_punct(pv, start, i,
                        WordSortPunctuator::LeftParenthesis) {
                        Some(true) => match spec_check_ident(pv, strings, start, i + 1,
                            seq!["signed"@, "unsigned"@]) {
                            Some(true) => match spec_check_ident(pv, strings, start,
                                i + 2, Seq::empty()) {
                                Some(true) => match spec_check_punct(pv, start, i + 3,
                                    WordSortPunctuator::RightParenthesis) {
                                    Some(b) => Some(b),
                                    None => None,
                                },
                                Some(false) => Some(false),
                                None => None,
                            },
                            Some(false) => Some(false),
                            None => None,
                        },
                        Some(false) => Some(false),
                        None => None,
                    }
                } else {
                    Some(false)
                };
                match cast4 {
                    Some(true) => spec_macro_tuple(pv, strings, processed, sm_obj, sm_fn,
                        crates, start, card, i + 4, queue, depth),
                    Some(false) => match spec_form_elem(pv, start, i) {
                        Some(f) => {
                            let e = spec_gen_macro_body(pv, strings, processed, sm_obj,
                                sm_fn, crates, f, queue, (depth - 1) as nat);
                            if !e.ok {
                                MStep { text: Seq::empty(), queue: e.queue, ok: false }
                            } else {
                                let rest = spec_macro_tuple(pv, strings, processed,
                                    sm_obj, sm_fn, crates, start, card, i + 1, e.queue,
                                    depth);
                                MStep {
                                    text: e.text + rest.text,
                                    queue: rest.queue,
                                    ok: rest.ok,
                                }
                            }
                        },
                        None => MStep { text: Seq::empty(), queue, ok: false },
                    },
                    None => MStep { text: Seq::empty(), queue, ok: false },
                }
            },
            None => MStep { text: Seq::empty(), queue, ok: false },
        }
    }
}

/// The macro work queue as mathematical values.
pub open spec fn qview(v: Seq<(String, MacroRef)>) -> Seq<(Seq<char>, MacroRef)> {
    v.map_values(|p: (String, MacroRef)| (p.0@, p.1))
}

/// The crate names of a resolver as character sequences.
pub open spec fn crates_view(sm: SymbolMap) -> Seq<Seq<char>> {
    sm.crates@.map_values(|c: String| c@)
}

/// The body form behind any parenthesized wrappers; `None` when a wrapper
/// row is out of range or nesting exceeds the depth.
pub open spec fn spec_remove_parens(pv: PartsView, form: FormIndex, depth: nat)
    -> Option<FormIndex>
    decreases depth,
{
    if FormSort::spec_from_u32(form.spec_tag()) != Some(FormSort::PARENTHESIZED) {
        Some(form)
    } else if depth == 0 {
        None
    } else if form.spec_index() < pv.pp_paren.len() {
        spec_remove_parens(pv, pv.pp_paren[form.spec_index() as int].operand,
            (depth - 1) as nat)
    } else {
        None
    }
}

/// Removes any outermost parenthesized wrappers from a form.
pub fn remove_parens(ifc: &Ifc, form: FormIndex, depth: u32) -> (r: Result<FormIndex,
    Error>)
    ensures
        r matches Ok(f) ==> spec_remove_parens(ifc.parts@, form, depth as nat) == Some(f),
        r is Err <==> spec_remove_parens(ifc.parts@, form, depth as nat) is None,
    decreases depth,
{
    if !matches!(FormSort::from_u32(form.tag()), Some(FormSort::PARENTHESIZED)) {
        return Ok(form);
    }
    if depth == 0 {
        return Err(Error::MaxDepthExceeded);
    }
    match ifc.pp_paren().entry(form.index()) {
        Ok(row) => {
            let inner = row.operand;
            remove_parens(ifc, inner, depth - 1)
        },
        Err(e) => Err(e),
    }
}

/// Whether the tuple slot holds the given punctuator.
fn check_punct(ifc: &Ifc, start: u32, k: u32, p: WordSortPunctuator) -> (r: Result<bool,
    Error>)
    requires
        ifc.wf(),
    ensures
        r matches Ok(b) ==> spec_check_punct(ifc.parts@, start as int, k as int, p)
            == Some(b),
        r is Err <==> spec_check_punct(ifc.parts@, start as int, k as int, p) is None,
{
    let heap = ifc.heap_form();
    let slot_64: u64 = start as u64 + k as u64;
    if slot_64 >= heap.entries.len() as u64 {
        return Err(Error::bad("tuple slot is out of range of the form heap"));
    }
    let f: FormIndex = heap.entries[slot_64 as usize];
    if !matches!(FormSort::from_u32(f.tag()), Some(FormSort::OPERATOR)) {
        return Ok(false);
    }
    let row = *match ifc.pp_op().entry(f.index()) {
        Ok(v) => v,
        Err(e) => {
            return Err(e);
        },
    };
    let op = row.operator;
    match WordSort::from_u32(op.tag()) {
        WordSort::PUNCTUATOR => Ok(WordSortPunctuator::from_u32(op.index()) == p),
        WordSort::OPERATOR => Ok(false),
        _ => Err(Error::bad("word is neither an operator nor a punctuator")),
    }
}

/// Whether the tuple slot holds an identifier; with spellings given, one
/// of those identifiers.
fn check_ident(ifc: &Ifc, start: u32, k: u32, spellings: &[&str]) -> (r: Result<bool,
    Error>)
    requires
        ifc.wf(),
    ensures
        r matches Ok(b) ==> spec_check_ident(ifc.parts@, ifc.spec_strings(), start as int,
            k as int, spellings@.map_values(|t: &str| t@)) == Some(b),
        r is Err <==> spec_check_ident(ifc.parts@, ifc.spec_strings(), start as int,
            k as int, spellings@.map_values(|t: &str| t@)) is None,
{
    let ghost sv = spellings@.map_values(|t: &str| t@);
    let heap = ifc.heap_form();
    let slot_64: u64 = start as u64 + k as u64;
    if slot_64 >= heap.entries.len() as u64 {
        return Err(Error::bad("tuple slot is out of range of the form heap"));
    }
    let f: FormIndex = heap.entries[slot_64 as usize];
    if !matches!(FormSort::from_u32(f.tag()), Some(FormSort::IDENTIFIER)) {
        return Ok(false);
    }
    if spellings.len() == 0 {
        return Ok(true);
    }
    let row = *match ifc.pp_ident().entry(f.index()) {
        Ok(v) => v,
        Err(e) => {
            return Err(e);
        },
    };
    let nm = match ifc.get_string(row.spelling) {
        Ok(s) => s,
        Err(e) => {
            return Err(e);
        },
    };
    let mut i: usize = 0;
    while i < spellings.len()
        invariant
            i <= spellings@.len(),
            sv == spellings@.map_values(|t: &str| t@),
            spec_check_ident(ifc.parts@, ifc.spec_strings(), start as int, k as int, sv)
                == Some(sv.contains(nm@)),
            forall|j: int| 0 <= j < i ==> sv[j] != nm@,
        decreases spellings@.len() - i,
    {
        proof {
            assert(sv[i as int] == spellings@[i as int]@);
        }
        if crate::bytes::str_eq(spellings[i], nm) {
            proof {
                assert(sv.contains(nm@));
            }
            return Ok(true);
        }
        i += 1;
    }
    proof {
        assert(!sv.contains(nm@));
    }
    Ok(false)
}

/// Translates one body form to target-language tokens, queuing any macro
/// of this module that the body mentions but nothing has translated yet.
pub fn gen_macro_body(
    ifc: &Ifc,
    sm: &SymbolMap,
    processed: &Vec<(String, usize)>,
    queue: &mut Vec<(String, MacroRef)>,
    form: FormIndex,
    depth: u32,
) -> (r: Result<String, Error>)
    requires
        ifc.wf(),
    ensures
        ({
            let e = spec_gen_macro_body(ifc.parts@, ifc.spec_strings(),
                sm_view(processed@), sm_view(sm.object_like_macros@),
                sm_view(sm.function_like_macros@), crates_view(*sm), form,
                qview(old(queue)@), depth as nat);
            &&& qview(final(queue)@) == e.queue
            &&& (r matches Ok(s) ==> e.ok && e.text == s@)
            &&& (r is Err <==> !e.ok)
        }),
    decreases depth, 1int,
{
    if depth == 0 {
        return Err(Error::MaxDepthExceeded);
    }
    match FormSort::from_u32(form.tag()) {
        Some(FormSort::IDENTIFIER) => {
            let row = *match ifc.pp_ident().entry(form.index()) {
                Ok(v) => v,
                Err(e) => {
                    return Err(e);
                },
            };
            let nm = match ifc.get_string(row.spelling) {
                Ok(s) => s,
                Err(e) => {
                    return Err(e);
                },
            };
            match crate::symbol_map::lookup(processed, nm) {
                Some(flag) => {
                    let mut s: String = "$crate::".to_owned();
                    s.append(nm);
                    s.append(if flag == 1 { "!()" } else { "!" });
                    return Ok(s);
                },
                None => {},
            }
            match sm.resolve_object_like_macro(nm) {
                Some(c) => {
                    let mut s: String = c.as_str().to_owned();
                    s.append("::");
                    s.append(nm);
                    s.append("!()");
                    return Ok(s);
                },
                None => {},
            }
            match sm.resolve_function_like_macro(nm) {
                Some(c) => {
                    let mut s: String = c.as_str().to_owned();
                    s.append("::");
                    s.append(nm);
                    s.append("!");
                    return Ok(s);
                },
                None => {},
            }
            match find_obj(ifc, nm) {
                Some(m) => {
                    queue.push((nm.to_owned(), MacroRef::Object(m)));
                    proof {
                        assert(qview(queue@) =~= qview(old(queue)@).push(
                            (nm@, MacroRef::Object(m))));
                    }
                    let mut s: String = "$crate::".to_owned();
                    s.append(nm);
                    s.append("!()");
                    return Ok(s);
                },
                None => {},
            }
            match find_fn(ifc, nm) {
                Some(m) => {
                    queue.push((nm.to_owned(), MacroRef::Function(m)));
                    proof {
                        assert(qview(queue@) =~= qview(old(queue)@).push(
                            (nm@, MacroRef::Function(m))));
                    }
                    let mut s: String = "$crate::".to_owned();
                    s.append(nm);
                    s.append("!");
                    return Ok(s);
                },
                None => {},
            }
            Ok(nm.to_owned())
        },
        Some(FormSort::NUMBER) => {
            let row = *match ifc.pp_num().entry(form.index()) {
                Ok(v) => v,
                Err(e) => {
                    return Err(e);
                },
            };
            let sp = match ifc.get_string(row.spelling) {
                Ok(s) => s,
                Err(e) => {
                    return Err(e);
                },
            };
            match parse_macro_number(sp) {
                Ok(m) => Ok(render_macro_number(m)),
                Err(e) => Err(e),
            }
        },
        Some(FormSort::OPERATOR) => {
            let row = *match ifc.pp_op().entry(form.index()) {
                Ok(v) => v,
                Err(e) => {
                    return Err(e);
                },
            };
            let op = row.operator;
            match WordSort::from_u32(op.tag()) {
                WordSort::PUNCTUATOR => match WordSortPunctuator::from_u32(op.index()) {
                    WordSortPunctuator::LeftParenthesis => Ok("(".to_owned()),
                    WordSortPunctuator::RightParenthesis => Ok(")".to_owned()),
                    _ => Err(Error::bad("punctuator is not supported in a macro body")),
                },
                WordSort::OPERATOR => match WordSortOperator::from_u32(op.index()) {
                    WordSortOperator::Bar => Ok("|".to_owned()),
                    WordSortOperator::Comma => Ok(",".to_owned()),
                    WordSortOperator::Dash => Ok("-".to_owned()),
                    WordSortOperator::LeftChevron => Ok("<<".to_owned()),
                    WordSortOperator::Plus => Ok("+".to_owned()),
                    WordSortOperator::RightChevron => Ok(">>".to_owned()),
                    _ => Err(Error::bad("operator is not supported in a macro body")),
                },
                _ => Err(Error::bad("word is neither an operator nor a punctuator")),
            }
        },
        Some(FormSort::PARAMETER) => {
            let row = *match ifc.pp_param().entry(form.index()) {
                Ok(v) => v,
                Err(e) => {
                    return Err(e);
                },
            };
            let nm = match ifc.get_string(row.spelling) {
                Ok(s) => s,
                Err(e) => {
                    return Err(e);
                },
            };
            let mut s: String = "$".to_owned();
            s.append(nm);
            Ok(s)
        },
        Some(FormSort::TUPLE) => {
            let t = *match ifc.pp_tuple().entry(form.index()) {
                Ok(v) => v,
                Err(e) => {
                    return Err(e);
                },
            };
            let ghost ctx_pv = ifc.parts@;
            let ghost ctx_strings = ifc.spec_strings();
            let ghost pr = sm_view(processed@);
            let ghost so = sm_view(sm.object_like_macros@);
            let ghost sf = sm_view(sm.function_like_macros@);
            let ghost cv = crates_view(*sm);
            let ghost q0 = qview(queue@);
            let ghost total = spec_macro_tuple(ctx_pv, ctx_strings, pr, so, sf, cv,
                t.start as int, t.cardinality as int, 0, q0, depth as nat);
            let mut acc = String::new();
            let mut i: u32 = 0;
            proof {
                assert(acc@ =~= Seq::<char>::empty());
            }
            while i < t.cardinality
                invariant
                    ifc.wf(),
                    ctx_pv == ifc.parts@,
                    ctx_strings == ifc.spec_strings(),
                    pr == sm_view(processed@),
                    so == sm_view(sm.object_like_macros@),
                    sf == sm_view(sm.function_like_macros@),
                    cv == crates_view(*sm),
                    i <= t.cardinality,
                    depth >= 1,
                    FormSort::spec_from_u32(form.spec_tag()) == Some(FormSort::TUPLE),
                    form.spec_index() < ctx_pv.pp_tuple.len(),
                    t == ctx_pv.pp_tuple[form.spec_index() as int],
                    q0 == qview(old(queue)@),
                    total == spec_macro_tuple(ctx_pv, ctx_strings, pr, so, sf, cv,
                        t.start as int, t.cardinality as int, 0, q0, depth as nat),
                    ({
                        let tail = spec_macro_tuple(ctx_pv, ctx_strings, pr, so, sf, cv,
                            t.start as int, t.cardinality as int, i as int,
                            qview(queue@), depth as nat);
                        &&& total.text == acc@ + tail.text
                        &&& total.queue == tail.queue
                        &&& total.ok == tail.ok
                    }),
                decreases t.cardinality - i,
            {
                let c3 = if (i as u64) + 2 < t.cardinality as u64 {
                    let a = match check_punct(ifc, t.start, i,
                        WordSortPunctuator::LeftParenthesis) {
                        Ok(b) => b,
                        Err(e) => {
                            return Err(e);
                        },
                    };
                    if a {
                        let none_spelled: Vec<&str> = Vec::new();
                        proof {
                            assert(none_spelled@.map_values(|x: &str| x@)
                                =~= Seq::<Seq<char>>::empty());
                        }
                        let b = match check_ident(ifc, t.start, i + 1,
                            none_spelled.as_slice()) {
                            Ok(b) => b,
                            Err(e) => {
                                return Err(e);
                            },
                        };
                        if b {
                            match check_punct(ifc, t.start, i + 2,
                                WordSortPunctuator::RightParenthesis) {
                                Ok(b2) => b2,
                                Err(e) => {
                                    return Err(e);
                                },
                            }
                        } else {
                            false
                        }
                    } else {
                        false
                    }
                } else {
                    false
                };
                if c3 {
                    i += 3;
                    continue ;
                }
                let c4 = if (i as u64) + 4 < t.cardinality as u64 {
                    let a = match check_punct(ifc, t.start, i,
                        WordSortPunctuator::LeftParenthesis) {
                        Ok(b) => b,
                        Err(e) => {
                            return Err(e);
                        },
                    };
                    if a {
                        let mut sign_spellings: Vec<&str> = Vec::new();
                        sign_spellings.push("signed");
                        sign_spellings.push("unsigned");
                        proof {
                            assert(sign_spellings@.map_values(|x: &str| x@)
                                =~= seq!["signed"@, "unsigned"@]);
                        }
                        let b = match check_ident(ifc, t.start, i + 1,
                            sign_spellings.as_slice()) {
                            Ok(b) => b,
                            Err(e) => {
                                return Err(e);
                            },
                        };
                        if b {
                            let none_spelled2: Vec<&str> = Vec::new();
                            proof {
                                assert(none_spelled2@.map_values(|x: &str| x@)
                                    =~= Seq::<Seq<char>>::empty());
                            }
                            let b2 = match check_ident(ifc, t.start, i + 2,
                                none_spelled2.as_slice()) {
                                Ok(b) => b,
                                Err(e) => {
                                    return Err(e);
                                },
                            };
                            if b2 {
                                match check_punct(ifc, t.start, i + 3,
                                    WordSortPunctuator::RightParenthesis) {
                                    Ok(b3) => b3,
                                    Err(e) => {
                                        return Err(e);
                                    },
                                }
                            } else {
                                false
                            }
                        } else {
                            false
                        }
                    } else {
                        false
                    }
                } else {
                    false
                };
                if c4 {
                    i += 4;
                    continue ;
                }
                let heap = ifc.heap_form();
                let slot_64: u64 = t.start as u64 + i as u64;
                if slot_64 >= heap.entries.len() as u64 {
                    return Err(Error::bad("tuple slot is out of range of the form heap"));
                }
                let f: FormIndex = heap.entries[slot_64 as usize];
                let piece = match gen_macro_body(ifc, sm, processed, queue, f, depth - 1) {
                    Ok(s) => s,
                    Err(e) => {
                        return Err(e);
                    },
                };
                acc.append(piece.as_str());
                i += 1;
            }
            Ok(acc)
        },
        _ => Err(Error::bad("macro body shape is not supported")),
    }
}

/// Mathematical content of one translated macro.
pub ghost struct MacroDefV {
    pub name: Seq<char>,
    pub object_like: bool,
    pub parameters: Seq<Seq<char>>,
    pub body: Seq<char>,
}

/// Translated macros as mathematical values.
pub open spec fn macros_view(v: Seq<MacroDef>) -> Seq<MacroDefV> {
    v.map_values(|m: MacroDef| m@)
}

/// The translator state threaded through collection: which names were
/// processed and as which kind, the work queue, and the finished macros.
pub ghost struct TState {
    pub processed: Seq<(Seq<char>, usize)>,
    pub queue: Seq<(Seq<char>, MacroRef)>,
    pub macros: Seq<MacroDefV>,
}

/// The parameter names of a function-like macro's parameter run; `None`
/// when a slot is out of range, not a parameter form, or unnamed.
pub open spec fn spec_macro_params(pv: PartsView, strings: Seq<u8>, start: int, count: int)
    -> Option<Seq<Seq<char>>>
    decreases (if count > 0 { count } else { 0 }),
{
    if count <= 0 {
        Some(Seq::empty())
    } else {
        match spec_macro_params(pv, strings, start, count - 1) {
            Some(ps) => if 0 <= start + count - 1 < pv.heap_form.len() {
                let f = pv.heap_form[start + count - 1];
                if FormSort::spec_from_u32(f.spec_tag()) == Some(FormSort::PARAMETER)
                    && f.spec_index() < pv.pp_param.len() {
                    match spec_string_at(strings,
                        pv.pp_param[f.spec_index() as int].spelling as int) {
                        Some(nm) => Some(ps.push(nm)),
                        None => None,
                    }
                } else {
                    None
                }
            } else {
                None
            },
            None => None,
        }
    }
}

/// A fault in a parameter prefix faults the whole run.
proof fn lemma_macro_params_none_persists(pv: PartsView, strings: Seq<u8>, start: int,
    k: int, count: int)
    requires
        0 <= k <= count,
        spec_macro_params(pv, strings, start, k) is None,
    ensures
        spec_macro_params(pv, strings, start, count) is None,
    decreases count - k,
{
    if k < count {
        lemma_macro_params_none_persists(pv, strings, start, k + 1, count);
    }
}

/// The state after one object-like macro was translated and recorded: its
/// name is marked processed in every case; the finished list grows exactly
/// when the body translates; macros its body mentions join the queue.
pub open spec fn spec_add_object_like(
    pv: PartsView,
    strings: Seq<u8>,
    sm_obj: Seq<(Seq<char>, usize)>,
    sm_fn: Seq<(Seq<char>, usize)>,
    crates: Seq<Seq<char>>,
    st: TState,
    name: Seq<char>,
    object: MacroObjectLike,
) -> TState {
    let processed = st.processed.push((name, 1));
    match spec_remove_parens(pv, object.body, MAX_MACRO_DEPTH as nat) {
        Some(f) => {
            let e = spec_gen_macro_body(pv, strings, processed, sm_obj, sm_fn, crates, f,
                st.queue, MAX_MACRO_DEPTH as nat);
            if e.ok {
                TState {
                    processed,
                    queue: e.queue,
                    macros: st.macros.push(MacroDefV {
                        name,
                        object_like: true,
                        parameters: Seq::empty(),
                        body: e.text,
                    }),
                }
            } else {
                TState { processed, queue: e.queue, macros: st.macros }
            }
        },
        None => TState { processed, queue: st.queue, macros: st.macros },
    }
}

/// The state after one function-like macro was translated and recorded: a
/// variadic macro, a malformed parameter list or an untranslatable body
/// marks the name processed but records nothing.
pub open spec fn spec_add_function_like(
    pv: PartsView,
    strings: Seq<u8>,
    sm_obj: Seq<(Seq<char>, usize)>,
    sm_fn: Seq<(Seq<char>, usize)>,
    crates: Seq<Seq<char>>,
    st: TState,
    name: Seq<char>,
    func_like: MacroFunctionLike,
) -> TState {
    let processed = st.processed.push((name, 0));
    if func_like.arity_and_variadic.spec_is_variadic() {
        TState { processed, queue: st.queue, macros: st.macros }
    } else if func_like.arity_and_variadic.spec_arity() != 0
        && FormSort::spec_from_u32(func_like.parameters.spec_tag())
            != Some(FormSort::TUPLE) {
        TState { processed, queue: st.queue, macros: st.macros }
    } else {
        match spec_remove_parens(pv, func_like.body, MAX_MACRO_DEPTH as nat) {
            Some(f) => {
                let e = spec_gen_macro_body(pv, strings, processed, sm_obj, sm_fn, crates,
                    f, st.queue, MAX_MACRO_DEPTH as nat);
                if !e.ok {
                    TState { processed, queue: e.queue, macros: st.macros }
                } else if func_like.parameters.spec_index() >= pv.pp_tuple.len() {
                    TState { processed, queue: e.queue, macros: st.macros }
                } else {
                    let t = pv.pp_tuple[func_like.parameters.spec_index() as int];
                    match spec_macro_params(pv, strings, t.start as int,
                        t.cardinality as int) {
                        Some(ps) => TState {
                            processed,
                            queue: e.queue,
                            macros: st.macros.push(MacroDefV {
                                name,
                                object_like: false,
                                parameters: ps,
                                body: e.text,
                            }),
                        },
                        None => TState { processed, queue: e.queue, macros: st.macros },
                    }
                }
            },
            None => TState { processed, queue: st.queue, macros: st.macros },
        }
    }
}

/// Seeds the collection with the object-like macro rows from `i` on: a
/// macro passes when the filter admits its name, no referenced module
/// already defines it, and it was not processed yet.
pub open spec fn spec_seed_objects(
    pv: PartsView,
    strings: Seq<u8>,
    sm_obj: Seq<(Seq<char>, usize)>,
    sm_fn: Seq<(Seq<char>, usize)>,
    crates: Seq<Seq<char>>,
    allow: Seq<crate::pattern::CompiledPattern>,
    block: Seq<crate::pattern::CompiledPattern>,
    st: TState,
    i: int,
) -> TState
    decreases pv.macro_object_like.len() - i,
{
    if i < 0 || i >= pv.macro_object_like.len() {
        st
    } else {
        let row = pv.macro_object_like[i];
        let st2 = match spec_string_at(strings, row.name as int) {
            Some(nm) => if crate::options::spec_filter(allow, block, nm)
                == crate::options::FilteredState::Allowed
                && spec_lookup(sm_obj, nm) is None
                && spec_lookup(st.processed, nm) is None {
                spec_add_object_like(pv, strings, sm_obj, sm_fn, crates, st, nm, row)
            } else {
                st
            },
            None => st,
        };
        spec_seed_objects(pv, strings, sm_obj, sm_fn, crates, allow, block, st2, i + 1)
    }
}

/// Seeds the collection with the function-like macro rows from `i` on.
pub open spec fn spec_seed_functions(
    pv: PartsView,
    strings: Seq<u8>,
    sm_obj: Seq<(Seq<char>, usize)>,
    sm_fn: Seq<(Seq<char>, usize)>,
    crates: Seq<Seq<char>>,
    allow: Seq<crate::pattern::CompiledPattern>,
    block: Seq<crate::pattern::CompiledPattern>,
    st: TState,
    i: int,
) -> TState
    decreases pv.macro_function_like.len() - i,
{
    if i < 0 || i >= pv.macro_function_like.len() {
        st
    } else {
        let row = pv.macro_function_like[i];
        let st2 = match spec_string_at(strings, row.name as int) {
            Some(nm) => if crate::options::spec_filter(allow, block, nm)
                == crate::options::FilteredState::Allowed
                && spec_lookup(sm_fn, nm) is None
                && spec_lookup(st.processed, nm) is None {
                spec_add_function_like(pv, strings, sm_obj, sm_fn, crates, st, nm, row)
            } else {
                st
            },
            None => st,
        };
        spec_seed_functions(pv, strings, sm_obj, sm_fn, crates, allow, block, st2, i + 1)
    }
}

/// Drains the work queue, newest entry first: a name processed meanwhile
/// is dropped, any other is translated, under a fuel bound on how many
/// distinct macros can be processed.
pub open spec fn spec_drain_queue(
    pv: PartsView,
    strings: Seq<u8>,
    sm_obj: Seq<(Seq<char>, usize)>,
    sm_fn: Seq<(Seq<char>, usize)>,
    crates: Seq<Seq<char>>,
    st: TState,
    fuel: nat,
) -> TState
    decreases fuel, st.queue.len(),
{
    if st.queue.len() == 0 || fuel == 0 {
        st
    } else {
        let entry = st.queue.last();
        let st1 = TState { queue: st.queue.drop_last(), ..st };
        if spec_lookup(st.processed, entry.0) is Some {
            spec_drain_queue(pv, strings, sm_obj, sm_fn, crates, st1, fuel)
        } else {
            let st2 = match entry.1 {
                MacroRef::Object(o) => spec_add_object_like(pv, strings, sm_obj, sm_fn,
                    crates, st1, entry.0, o),
                MacroRef::Function(f) => spec_add_function_like(pv, strings, sm_obj,
                    sm_fn, crates, st1, entry.0, f),
            };
            spec_drain_queue(pv, strings, sm_obj, sm_fn, crates, st2, (fuel - 1) as nat)
        }
    }
}

/// The fuel the drain starts with: one unit per macro row of the module.
pub open spec fn spec_drain_fuel(pv: PartsView) -> nat {
    if pv.macro_object_like.len() + pv.macro_function_like.len() > usize::MAX {
        usize::MAX as nat
    } else {
        pv.macro_object_like.len() + pv.macro_function_like.len()
    }
}

/// The whole macro translation: seed with every admitted object-like and
/// function-like macro, then drain the queue of macros their bodies
/// mention.
pub open spec fn spec_gen_macros(
    pv: PartsView,
    strings: Seq<u8>,
    sm_obj: Seq<(Seq<char>, usize)>,
    sm_fn: Seq<(Seq<char>, usize)>,
    crates: Seq<Seq<char>>,
    allow: Seq<crate::pattern::CompiledPattern>,
    block: Seq<crate::pattern::CompiledPattern>,
) -> TState {
    let st0 = TState { processed: Seq::empty(), queue: Seq::empty(), macros: Seq::empty() };
    let st1 = spec_seed_objects(pv, strings, sm_obj, sm_fn, crates, allow, block, st0, 0);
    let st2 = spec_seed_functions(pv, strings, sm_obj, sm_fn, crates, allow, block, st1,
        0);
    spec_drain_queue(pv, strings, sm_obj, sm_fn, crates, st2, spec_drain_fuel(pv))
}

/// One translated macro, ready for the emitter: its name, kind,
/// parameter names, and rendered body tokens.
pub struct MacroDef {
    pub name: String,
    pub object_like: bool,
    pub parameters: Vec<String>,
    pub body: String,
}

impl View for MacroDef {
    type V = MacroDefV;

    open spec fn view(&self) -> MacroDefV {
        MacroDefV {
            name: self.name@,
            object_like: self.object_like,
            parameters: self.parameters@.map_values(|p: String| p@),
            body: self.body@,
        }
    }
}

/// Everything the macro translator hands to the emitter.
pub struct MacroOutputs {
    /// The macros that translated, in processing order.
    pub macros: Vec<MacroDef>,
    /// One line per macro that had to be left out.
    pub diagnostics: Vec<String>,
}

/// Records one diagnostic line carrying the macro's name; the finished
/// list is unchanged.
fn note_macro(outs: &mut MacroOutputs, name: &str, msg: &str)
    ensures
        final(outs).macros == old(outs).macros,
{
    let mut line: String = "macro ".to_owned();
    line.append(name);
    line.append(": ");
    line.append(msg);
    outs.diagnostics.push(line);
}

/// Translates one object-like macro and records its name as processed,
/// whether or not the body translates; only a translated body joins the
/// finished list.
fn add_object_like_macro(
    ifc: &Ifc,
    sm: &SymbolMap,
    processed: &mut Vec<(String, usize)>,
    queue: &mut Vec<(String, MacroRef)>,
    outs: &mut MacroOutputs,
    name: &str,
    object: MacroObjectLike,
)
    requires
        ifc.wf(),
    ensures
        ({
            let t = spec_add_object_like(ifc.parts@, ifc.spec_strings(),
                sm_view(sm.object_like_macros@), sm_view(sm.function_like_macros@),
                crates_view(*sm), TState {
                    processed: sm_view(old(processed)@),
                    queue: qview(old(queue)@),
                    macros: macros_view(old(outs).macros@),
                }, name@, object);
            &&& sm_view(final(processed)@) == t.processed
            &&& qview(final(queue)@) == t.queue
            &&& macros_view(final(outs).macros@) == t.macros
        }),
{
    processed.push((name.to_owned(), 1));
    proof {
        assert(sm_view(processed@) =~= sm_view(old(processed)@).push((name@, 1)));
    }
    let body_form = match remove_parens(ifc, object.body, MAX_MACRO_DEPTH) {
        Ok(f) => f,
        Err(_) => {
            note_macro(outs, name, "a macro body nests parentheses too deeply");
            return ;
        },
    };
    match gen_macro_body(ifc, sm, processed, queue, body_form, MAX_MACRO_DEPTH) {
        Ok(body) => {
            outs.macros.push(MacroDef {
                name: name.to_owned(),
                object_like: true,
                parameters: Vec::new(),
                body,
            });
            proof {
                assert(macros_view(outs.macros@)[macros_view(outs.macros@).len() - 1]
                    .parameters =~= Seq::<Seq<char>>::empty());
                assert(macros_view(outs.macros@) =~= macros_view(old(outs).macros@).push(
                    macros_view(outs.macros@).last()));
            }
        },
        Err(_) => {
            note_macro(outs, name, "a macro body did not match a supported shape");
        },
    }
}

/// Translates one function-like macro and records its name as processed;
/// a variadic macro, a malformed parameter list or an untranslatable body
/// is left out of the finished list.
fn add_function_like_macro(
    ifc: &Ifc,
    sm: &SymbolMap,
    processed: &mut Vec<(String, usize)>,
    queue: &mut Vec<(String, MacroRef)>,
    outs: &mut MacroOutputs,
    name: &str,
    func_like: MacroFunctionLike,
)
    requires
        ifc.wf(),
    ensures
        ({
            let t = spec_add_function_like(ifc.parts@, ifc.spec_strings(),
                sm_view(sm.object_like_macros@), sm_view(sm.function_like_macros@),
                crates_view(*sm), TState {
                    processed: sm_view(old(processed)@),
                    queue: qview(old(queue)@),
                    macros: macros_view(old(outs).macros@),
                }, name@, func_like);
            &&& sm_view(final(processed)@) == t.processed
            &&& qview(final(queue)@) == t.queue
            &&& macros_view(final(outs).macros@) == t.macros
        }),
{
    let ghost pv = ifc.parts@;
    let ghost strings = ifc.spec_strings();
    let ghost m0 = macros_view(outs.macros@);
    processed.push((name.to_owned(), 0));
    proof {
        assert(sm_view(processed@) =~= sm_view(old(processed)@).push((name@, 0)));
    }
    let ghost p1 = sm_view(processed@);
    if func_like.is_variadic() {
        note_macro(outs, name, "variadic macros are not supported");
        return ;
    }
    if func_like.arity() != 0 && !matches!(FormSort::from_u32(func_like.parameters.tag()),
        Some(FormSort::TUPLE)) {
        note_macro(outs, name, "a macro parameter list is not a form run");
        return ;
    }
    let body_form = match remove_parens(ifc, func_like.body, MAX_MACRO_DEPTH) {
        Ok(f) => f,
        Err(_) => {
            note_macro(outs, name, "a macro body nests parentheses too deeply");
            return ;
        },
    };
    let body = match gen_macro_body(ifc, sm, processed, queue, body_form,
        MAX_MACRO_DEPTH) {
        Ok(b) => b,
        Err(_) => {
            note_macro(outs, name, "a macro body did not match a supported shape");
            return ;
        },
    };
    let ghost qv = qview(queue@);
    let params_tuple = *match ifc.pp_tuple().entry(func_like.parameters.index()) {
        Ok(v) => v,
        Err(_) => {
            note_macro(outs, name, "a macro parameter list is out of range");
            return ;
        },
    };
    let ghost t_expected = spec_add_function_like(pv, strings,
        sm_view(sm.object_like_macros@), sm_view(sm.function_like_macros@),
        crates_view(*sm), TState {
            processed: sm_view(old(processed)@),
            queue: qview(old(queue)@),
            macros: m0,
        }, name@, func_like);
    proof {
        match spec_macro_params(pv, strings, params_tuple.start as int,
            params_tuple.cardinality as int) {
            Some(ps) => {
                assert(t_expected.processed == p1 && t_expected.queue == qv
                    && t_expected.macros == m0.push(MacroDefV {
                        name: name@,
                        object_like: false,
                        parameters: ps,
                        body: body@,
                    }));
            },
            None => {
                assert(t_expected.processed == p1 && t_expected.queue == qv
                    && t_expected.macros == m0);
            },
        }
    }
    let mut parameters: Vec<String> = Vec::new();
    let heap = ifc.heap_form();
    proof {
        assert(parameters@.map_values(|q: String| q@) =~= Seq::<Seq<char>>::empty());
    }
    let mut k: u32 = 0;
    while k < params_tuple.cardinality
        invariant
            ifc.wf(),
            pv == ifc.parts@,
            strings == ifc.spec_strings(),
            k <= params_tuple.cardinality,
            heap.entries@ == pv.heap_form,
            p1 == sm_view(processed@),
            qv == qview(queue@),
            m0 == macros_view(outs.macros@),
            ({
                match spec_macro_params(pv, strings, params_tuple.start as int,
                    params_tuple.cardinality as int) {
                    Some(ps) => t_expected.processed == p1 && t_expected.queue == qv
                        && t_expected.macros == m0.push(MacroDefV {
                            name: name@,
                            object_like: false,
                            parameters: ps,
                            body: body@,
                        }),
                    None => t_expected.processed == p1 && t_expected.queue == qv
                        && t_expected.macros == m0,
                }
            }),
            ({
                let t = spec_add_function_like(pv, strings,
                    sm_view(sm.object_like_macros@), sm_view(sm.function_like_macros@),
                    crates_view(*sm), TState {
                        processed: sm_view(old(processed)@),
                        queue: qview(old(queue)@),
                        macros: macros_view(old(outs).macros@),
                    }, name@, func_like);
                t == t_expected
            }),
            m0 == macros_view(old(outs).macros@),
            spec_macro_params(pv, strings, params_tuple.start as int, k as int)
                == Some(parameters@.map_values(|q: String| q@)),
            parameters@.len() == k,
        decreases params_tuple.cardinality - k,
    {
        let slot_64: u64 = params_tuple.start as u64 + k as u64;
        let ghost kk = k as int;
        if slot_64 >= heap.entries.len() as u64 {
            proof {
                assert(spec_macro_params(pv, strings, params_tuple.start as int, kk + 1)
                    is None);
                lemma_macro_params_none_persists(pv, strings, params_tuple.start as int,
                    kk + 1, params_tuple.cardinality as int);
            }
            note_macro(outs, name, "a macro parameter is out of range");
            return ;
        }
        let f: FormIndex = heap.entries[slot_64 as usize];
        if !matches!(FormSort::from_u32(f.tag()), Some(FormSort::PARAMETER)) {
            proof {
                assert(spec_macro_params(pv, strings, params_tuple.start as int, kk + 1)
                    is None);
                lemma_macro_params_none_persists(pv, strings, params_tuple.start as int,
                    kk + 1, params_tuple.cardinality as int);
            }
            note_macro(outs, name, "a macro parameter slot is not a parameter");
            return ;
        }
        let row = match ifc.pp_param().entry(f.index()) {
            Ok(v) => *v,
            Err(_) => {
                proof {
                    assert(spec_macro_params(pv, strings, params_tuple.start as int,
                        kk + 1) is None);
                    lemma_macro_params_none_persists(pv, strings,
                        params_tuple.start as int, kk + 1,
                        params_tuple.cardinality as int);
                }
                note_macro(outs, name, "a macro parameter is out of range");
                return ;
            },
        };
        match ifc.get_string(row.spelling) {
            Ok(nm) => {
                parameters.push(nm.to_owned());
                proof {
                    assert(parameters@.map_values(|q: String| q@)
                        =~= parameters@.map_values(|q: String| q@).drop_last().push(nm@));
                }
            },
            Err(_) => {
                proof {
                    assert(spec_macro_params(pv, strings, params_tuple.start as int,
                        kk + 1) is None);
                    lemma_macro_params_none_persists(pv, strings,
                        params_tuple.start as int, kk + 1,
                        params_tuple.cardinality as int);
                }
                outs.diagnostics.push(
                    "a macro parameter name is not in the string table".to_owned());
                return ;
            },
        }
        k += 1;
    }
    outs.macros.push(MacroDef {
        name: name.to_owned(),
        object_like: false,
        parameters,
        body,
    });
    proof {
        assert(macros_view(outs.macros@) =~= m0.push(macros_view(outs.macros@).last()));
    }
}

/// Translates every macro the filter admits that no referenced module
/// already defines, then drains the work queue of macros those bodies
/// mention; each name is processed at most once, and the finished list is
/// exactly what the collection model prescribes, in partition-then-queue
/// order.
pub fn gen_macros(ifc: &Ifc, sm: &SymbolMap, filter: crate::options::Filter<'_>)
    -> (r: MacroOutputs)
    requires
        ifc.wf(),
    ensures
        macros_view(r.macros@) == spec_gen_macros(ifc.parts@, ifc.spec_strings(),
            sm_view(sm.object_like_macros@), sm_view(sm.function_like_macros@),
            crates_view(*sm), filter.allowlist@, filter.blocklist@).macros,
{
    let ghost pv = ifc.parts@;
    let ghost strings = ifc.spec_strings();
    let ghost so = sm_view(sm.object_like_macros@);
    let ghost sf = sm_view(sm.function_like_macros@);
    let ghost cv = crates_view(*sm);
    let ghost allow = filter.allowlist@;
    let ghost block = filter.blocklist@;
    let ghost st0 = TState {
        processed: Seq::empty(),
        queue: Seq::empty(),
        macros: Seq::empty(),
    };
    let mut outs = MacroOutputs { macros: Vec::new(), diagnostics: Vec::new() };
    let mut processed: Vec<(String, usize)> = Vec::new();
    let mut queue: Vec<(String, MacroRef)> = Vec::new();
    proof {
        assert(sm_view(processed@) =~= st0.processed);
        assert(qview(queue@) =~= st0.queue);
        assert(macros_view(outs.macros@) =~= st0.macros);
    }
    let obj_count = ifc.macro_object_like().entries.len();
    let fn_count = ifc.macro_function_like().entries.len();

    let mut i: usize = 0;
    while i < obj_count
        invariant
            ifc.wf(),
            pv == ifc.parts@,
            strings == ifc.spec_strings(),
            so == sm_view(sm.object_like_macros@),
            sf == sm_view(sm.function_like_macros@),
            cv == crates_view(*sm),
            allow == filter.allowlist@,
            block == filter.blocklist@,
            i <= obj_count,
            obj_count == pv.macro_object_like.len(),
            spec_seed_objects(pv, strings, so, sf, cv, allow, block, st0, 0)
                == spec_seed_objects(pv, strings, so, sf, cv, allow, block, TState {
                    processed: sm_view(processed@),
                    queue: qview(queue@),
                    macros: macros_view(outs.macros@),
                }, i as int),
        decreases obj_count - i,
    {
        let object = ifc.macro_object_like().entries[i];
        match ifc.get_string(object.name) {
            Ok(nm) => {
                if filter.is_allowed(nm) && !sm.is_object_like_macro_in(nm) {
                    if crate::symbol_map::lookup(&processed, nm).is_none() {
                        let owned = nm.to_owned();
                        add_object_like_macro(ifc, sm, &mut processed, &mut queue,
                            &mut outs, owned.as_str(), object);
                    }
                }
            },
            Err(_) => {
                let off = crate::names::dec_u32(object.name);
                note_macro(&mut outs, off.as_str(),
                    "name at this string offset is not in the string table");
            },
        }
        i += 1;
    }
    let ghost st1 = spec_seed_objects(pv, strings, so, sf, cv, allow, block, st0, 0);
    proof {
        assert(st1 == TState {
            processed: sm_view(processed@),
            queue: qview(queue@),
            macros: macros_view(outs.macros@),
        });
    }
    let mut j: usize = 0;
    while j < fn_count
        invariant
            ifc.wf(),
            pv == ifc.parts@,
            strings == ifc.spec_strings(),
            so == sm_view(sm.object_like_macros@),
            sf == sm_view(sm.function_like_macros@),
            cv == crates_view(*sm),
            allow == filter.allowlist@,
            block == filter.blocklist@,
            j <= fn_count,
            fn_count == pv.macro_function_like.len(),
            spec_seed_functions(pv, strings, so, sf, cv, allow, block, st1, 0)
                == spec_seed_functions(pv, strings, so, sf, cv, allow, block, TState {
                    processed: sm_view(processed@),
                    queue: qview(queue@),
                    macros: macros_view(outs.macros@),
                }, j as int),
        decreases fn_count - j,
    {
        let func_like = ifc.macro_function_like().entries[j];
        match ifc.get_string(func_like.name) {
            Ok(nm) => {
                if filter.is_allowed(nm) && !sm.is_function_like_macro_in(nm) {
                    if crate::symbol_map::lookup(&processed, nm).is_none() {
                        let owned = nm.to_owned();
                        add_function_like_macro(ifc, sm, &mut processed, &mut queue,
                            &mut outs, owned.as_str(), func_like);
                    }
                }
            },
            Err(_) => {
                let off = crate::names::dec_u32(func_like.name);
                note_macro(&mut outs, off.as_str(),
                    "name at this string offset is not in the string table");
            },
        }
        j += 1;
    }
    let ghost st2 = spec_seed_functions(pv, strings, so, sf, cv, allow, block, st1, 0);
    proof {
        assert(st2 == TState {
            processed: sm_view(processed@),
            queue: qview(queue@),
            macros: macros_view(outs.macros@),
        });
    }

    let mut fuel: usize = match obj_count.checked_add(fn_count) {
        Some(v) => v,
        None => usize::MAX,
    };
    proof {
        assert(fuel as nat == spec_drain_fuel(pv));
    }
    while queue.len() > 0 && fuel > 0
        invariant
            ifc.wf(),
            pv == ifc.parts@,
            strings == ifc.spec_strings(),
            so == sm_view(sm.object_like_macros@),
            sf == sm_view(sm.function_like_macros@),
            cv == crates_view(*sm),
            spec_drain_queue(pv, strings, so, sf, cv, st2, spec_drain_fuel(pv))
                == spec_drain_queue(pv, strings, so, sf, cv, TState {
                    processed: sm_view(processed@),
                    queue: qview(queue@),
                    macros: macros_view(outs.macros@),
                }, fuel as nat),
        decreases fuel, queue@.len(),
    {
        let ghost qpre = qview(queue@);
        let (name, mref) = match queue.pop() {
            Some(p) => p,
            None => {
                return outs;
            },
        };
        proof {
            assert(qpre[qpre.len() - 1] == (name@, mref));
            assert(qview(queue@) =~= qpre.drop_last());
        }
        if crate::symbol_map::lookup(&processed, name.as_str()).is_none() {
            fuel -= 1;
            match mref {
                MacroRef::Object(object) => {
                    add_object_like_macro(ifc, sm, &mut processed, &mut queue, &mut outs,
                        name.as_str(), object);
                },
                MacroRef::Function(func_like) => {
                    add_function_like_macro(ifc, sm, &mut processed, &mut queue,
                        &mut outs, name.as_str(), func_like);
                },
            }
        }
    }
    if queue.len() > 0 {
        outs.diagnostics.push("the macro work queue did not drain".to_owned());
    }
    outs
}

} // verus!
