//! Typed access to one partition: a borrowed row slice with bounds-checked
//! row lookup, and one accessor per recognized partition name.

use vstd::prelude::*;
use vstd::string::StringExecFns;
use crate::error::Error;
use crate::ifc::Ifc;
use crate::index::{DeclIndex, TypeIndex, FormIndex};
use crate::records::{DeclAlias, DeclFunc, DeclMethod, DeclScope, DeclField, DeclEnum,
    DeclEnumerator, DeclVar, DeclBitfield, ScopeDescriptor, TypeBase, FunctionType,
    FundamentalType, QualifiedType, TupleType, TypeArray, ChartUnilevel, NameSourceFile,
    ExprLiteral, ExprDyad, ConstF64, MacroFunctionLike, MacroObjectLike, FormIdentifier,
    FormCharacter, FormString, FormOperator, FormNumber, FormKeyword, FormParameter,
    FormStringize, FormCatenate, FormHeader, FormParen, FormTuple, FormJunk, FormPragma, Word};

verus! {

/// A borrowed view of one partition's decoded rows.
pub struct Part<'a, T> {
    pub part_name: &'static str,
    pub entries: &'a [T],
}

impl<'a, T> Part<'a, T> {
    /// Looks up one row; a row index at or past the end of the partition is
    /// the single point where a malformed reference is detected.
    pub fn entry(&self, entry_index: u32) -> (r: Result<&'a T, Error>)
        ensures
            entry_index < self.entries@.len() ==> (r matches Ok(v)
                && *v == self.entries@[entry_index as int]),
            entry_index >= self.entries@.len() ==> r is Err,
    {
        if (entry_index as usize) < self.entries.len() {
            Ok(&self.entries[entry_index as usize])
        } else {
            let mut msg: String = "row ".to_owned();
            let ix = crate::names::dec_u32(entry_index);
            msg.append(ix.as_str());
            msg.append(" is out of range for partition '");
            msg.append(self.part_name);
            msg.append("' of length ");
            let n = crate::names::dec_u64(self.entries.len() as u64);
            msg.append(n.as_str());
            Err(Error::bad_string(msg))
        }
    }
}

impl Ifc {
    /// The `decl.alias` partition.
    pub fn decl_alias<'a>(&'a self) -> (r: Part<'a, DeclAlias>)
        ensures
            r.entries@ == self.parts@.decl_alias,
            r.part_name@ == "decl.alias"@,
    {
        Part { part_name: "decl.alias", entries: self.parts.decl_alias.as_slice() }
    }

    /// The `decl.function` partition.
    pub fn decl_function<'a>(&'a self) -> (r: Part<'a, DeclFunc>)
        ensures
            r.entries@ == self.parts@.decl_function,
            r.part_name@ == "decl.function"@,
    {
        Part { part_name: "decl.function", entries: self.parts.decl_function.as_slice() }
    }

    /// The `decl.method` partition.
    pub fn decl_method<'a>(&'a self) -> (r: Part<'a, DeclMethod>)
        ensures
            r.entries@ == self.parts@.decl_method,
            r.part_name@ == "decl.method"@,
    {
        Part { part_name: "decl.method", entries: self.parts.decl_method.as_slice() }
    }

    /// The `decl.scope` partition.
    pub fn decl_scope<'a>(&'a self) -> (r: Part<'a, DeclScope>)
        ensures
            r.entries@ == self.parts@.decl_scope,
            r.part_name@ == "decl.scope"@,
    {
        Part { part_name: "decl.scope", entries: self.parts.decl_scope.as_slice() }
    }

    /// The `decl.field` partition.
    pub fn decl_field<'a>(&'a self) -> (r: Part<'a, DeclField>)
        ensures
            r.entries@ == self.parts@.decl_field,
            r.part_name@ == "decl.field"@,
    {
        Part { part_name: "decl.field", entries: self.parts.decl_field.as_slice() }
    }

    /// The `decl.enum` partition.
    pub fn decl_enum<'a>(&'a self) -> (r: Part<'a, DeclEnum>)
        ensures
            r.entries@ == self.parts@.decl_enum,
            r.part_name@ == "decl.enum"@,
    {
        Part { part_name: "decl.enum", entries: self.parts.decl_enum.as_slice() }
    }

    /// The `decl.enumerator` partition.
    pub fn decl_enumerator<'a>(&'a self) -> (r: Part<'a, DeclEnumerator>)
        ensures
            r.entries@ == self.parts@.decl_enumerator,
            r.part_name@ == "decl.enumerator"@,
    {
        Part { part_name: "decl.enumerator", entries: self.parts.decl_enumerator.as_slice() }
    }

    /// The `decl.variable` partition.
    pub fn decl_var<'a>(&'a self) -> (r: Part<'a, DeclVar>)
        ensures
            r.entries@ == self.parts@.decl_var,
            r.part_name@ == "decl.variable"@,
    {
        Part { part_name: "decl.variable", entries: self.parts.decl_var.as_slice() }
    }

    /// The `decl.bitfield` partition.
    pub fn decl_bitfield<'a>(&'a self) -> (r: Part<'a, DeclBitfield>)
        ensures
            r.entries@ == self.parts@.decl_bitfield,
            r.part_name@ == "decl.bitfield"@,
    {
        Part { part_name: "decl.bitfield", entries: self.parts.decl_bitfield.as_slice() }
    }

    /// The `heap.type` partition.
    pub fn heap_type<'a>(&'a self) -> (r: Part<'a, TypeIndex>)
        ensures
            r.entries@ == self.parts@.heap_type,
            r.part_name@ == "heap.type"@,
    {
        Part { part_name: "heap.type", entries: self.parts.heap_type.as_slice() }
    }

    /// The `heap.pp` partition.
    pub fn heap_form<'a>(&'a self) -> (r: Part<'a, FormIndex>)
        ensures
            r.entries@ == self.parts@.heap_form,
            r.part_name@ == "heap.pp"@,
    {
        Part { part_name: "heap.pp", entries: self.parts.heap_form.as_slice() }
    }

    /// The `scope.desc` partition.
    pub fn scope_desc<'a>(&'a self) -> (r: Part<'a, ScopeDescriptor>)
        ensures
            r.entries@ == self.parts@.scope_desc,
            r.part_name@ == "scope.desc"@,
    {
        Part { part_name: "scope.desc", entries: self.parts.scope_desc.as_slice() }
    }

    /// The `scope.member` partition.
    pub fn scope_member<'a>(&'a self) -> (r: Part<'a, DeclIndex>)
        ensures
            r.entries@ == self.parts@.scope_member,
            r.part_name@ == "scope.member"@,
    {
        Part { part_name: "scope.member", entries: self.parts.scope_member.as_slice() }
    }

    /// The `type.base` partition.
    pub fn type_base<'a>(&'a self) -> (r: Part<'a, TypeBase>)
        ensures
            r.entries@ == self.parts@.type_base,
            r.part_name@ == "type.base"@,
    {
        Part { part_name: "type.base", entries: self.parts.type_base.as_slice() }
    }

    /// The `type.function` partition.
    pub fn type_function<'a>(&'a self) -> (r: Part<'a, FunctionType>)
        ensures
            r.entries@ == self.parts@.type_function,
            r.part_name@ == "type.function"@,
    {
        Part { part_name: "type.function", entries: self.parts.type_function.as_slice() }
    }

    /// The `type.fundamental` partition.
    pub fn type_fundamental<'a>(&'a self) -> (r: Part<'a, FundamentalType>)
        ensures
            r.entries@ == self.parts@.type_fundamental,
            r.part_name@ == "type.fundamental"@,
    {
        Part { part_name: "type.fundamental", entries: self.parts.type_fundamental.as_slice() }
    }

    /// The `type.pointer` partition.
    pub fn type_pointer<'a>(&'a self) -> (r: Part<'a, TypeIndex>)
        ensures
            r.entries@ == self.parts@.type_pointer,
            r.part_name@ == "type.pointer"@,
    {
        Part { part_name: "type.pointer", entries: self.parts.type_pointer.as_slice() }
    }

    /// The `type.qualified` partition.
    pub fn type_qualified<'a>(&'a self) -> (r: Part<'a, QualifiedType>)
        ensures
            r.entries@ == self.parts@.type_qualified,
            r.part_name@ == "type.qualified"@,
    {
        Part { part_name: "type.qualified", entries: self.parts.type_qualified.as_slice() }
    }

    /// The `type.tuple` partition.
    pub fn type_tuple<'a>(&'a self) -> (r: Part<'a, TupleType>)
        ensures
            r.entries@ == self.parts@.type_tuple,
            r.part_name@ == "type.tuple"@,
    {
        Part { part_name: "type.tuple", entries: self.parts.type_tuple.as_slice() }
    }

    /// The `type.array` partition.
    pub fn type_array<'a>(&'a self) -> (r: Part<'a, TypeArray>)
        ensures
            r.entries@ == self.parts@.type_array,
            r.part_name@ == "type.array"@,
    {
        Part { part_name: "type.array", entries: self.parts.type_array.as_slice() }
    }

    /// The `type.designated` partition.
    pub fn type_designated<'a>(&'a self) -> (r: Part<'a, DeclIndex>)
        ensures
            r.entries@ == self.parts@.type_designated,
            r.part_name@ == "type.designated"@,
    {
        Part { part_name: "type.designated", entries: self.parts.type_designated.as_slice() }
    }

    /// The `type.lvalue-reference` partition.
    pub fn type_lvalue_reference<'a>(&'a self) -> (r: Part<'a, TypeIndex>)
        ensures
            r.entries@ == self.parts@.type_lvalue_reference,
            r.part_name@ == "type.lvalue-reference"@,
    {
        Part { part_name: "type.lvalue-reference", entries: self.parts.type_lvalue_reference.as_slice() }
    }

    /// The `type.rvalue-reference` partition.
    pub fn type_rvalue_reference<'a>(&'a self) -> (r: Part<'a, TypeIndex>)
        ensures
            r.entries@ == self.parts@.type_rvalue_reference,
            r.part_name@ == "type.rvalue-reference"@,
    {
        Part { part_name: "type.rvalue-reference", entries: self.parts.type_rvalue_reference.as_slice() }
    }

    /// The `type.unaligned` partition.
    pub fn type_unaligned<'a>(&'a self) -> (r: Part<'a, TypeIndex>)
        ensures
            r.entries@ == self.parts@.type_unaligned,
            r.part_name@ == "type.unaligned"@,
    {
        Part { part_name: "type.unaligned", entries: self.parts.type_unaligned.as_slice() }
    }

    /// The `chart.unilevel` partition.
    pub fn chart_unilevel<'a>(&'a self) -> (r: Part<'a, ChartUnilevel>)
        ensures
            r.entries@ == self.parts@.chart_unilevel,
            r.part_name@ == "chart.unilevel"@,
    {
        Part { part_name: "chart.unilevel", entries: self.parts.chart_unilevel.as_slice() }
    }

    /// The `name.source-file` partition.
    pub fn name_source_file<'a>(&'a self) -> (r: Part<'a, NameSourceFile>)
        ensures
            r.entries@ == self.parts@.name_source_file,
            r.part_name@ == "name.source-file"@,
    {
        Part { part_name: "name.source-file", entries: self.parts.name_source_file.as_slice() }
    }

    /// The `command_line` partition.
    pub fn command_line<'a>(&'a self) -> (r: Part<'a, u32>)
        ensures
            r.entries@ == self.parts@.command_line,
            r.part_name@ == "command_line"@,
    {
        Part { part_name: "command_line", entries: self.parts.command_line.as_slice() }
    }

    /// The `expr.literal` partition.
    pub fn expr_literal<'a>(&'a self) -> (r: Part<'a, ExprLiteral>)
        ensures
            r.entries@ == self.parts@.expr_literal,
            r.part_name@ == "expr.literal"@,
    {
        Part { part_name: "expr.literal", entries: self.parts.expr_literal.as_slice() }
    }

    /// The `expr.dyad` partition.
    pub fn expr_dyad<'a>(&'a self) -> (r: Part<'a, ExprDyad>)
        ensures
            r.entries@ == self.parts@.expr_dyad,
            r.part_name@ == "expr.dyad"@,
    {
        Part { part_name: "expr.dyad", entries: self.parts.expr_dyad.as_slice() }
    }

    /// The `const.i64` partition.
    pub fn const_i64<'a>(&'a self) -> (r: Part<'a, u64>)
        ensures
            r.entries@ == self.parts@.const_i64,
            r.part_name@ == "const.i64"@,
    {
        Part { part_name: "const.i64", entries: self.parts.const_i64.as_slice() }
    }

    /// The `const.f64` partition.
    pub fn const_f64<'a>(&'a self) -> (r: Part<'a, ConstF64>)
        ensures
            r.entries@ == self.parts@.const_f64,
            r.part_name@ == "const.f64"@,
    {
        Part { part_name: "const.f64", entries: self.parts.const_f64.as_slice() }
    }

    /// The `macro.function-like` partition.
    pub fn macro_function_like<'a>(&'a self) -> (r: Part<'a, MacroFunctionLike>)
        ensures
            r.entries@ == self.parts@.macro_function_like,
            r.part_name@ == "macro.function-like"@,
    {
        Part { part_name: "macro.function-like", entries: self.parts.macro_function_like.as_slice() }
    }

    /// The `macro.object-like` partition.
    pub fn macro_object_like<'a>(&'a self) -> (r: Part<'a, MacroObjectLike>)
        ensures
            r.entries@ == self.parts@.macro_object_like,
            r.part_name@ == "macro.object-like"@,
    {
        Part { part_name: "macro.object-like", entries: self.parts.macro_object_like.as_slice() }
    }

    /// The `pp.ident` partition.
    pub fn pp_ident<'a>(&'a self) -> (r: Part<'a, FormIdentifier>)
        ensures
            r.entries@ == self.parts@.pp_ident,
            r.part_name@ == "pp.ident"@,
    {
        Part { part_name: "pp.ident", entries: self.parts.pp_ident.as_slice() }
    }

    /// The `pp.char` partition.
    pub fn pp_char<'a>(&'a self) -> (r: Part<'a, FormCharacter>)
        ensures
            r.entries@ == self.parts@.pp_char,
            r.part_name@ == "pp.char"@,
    {
        Part { part_name: "pp.char", entries: self.parts.pp_char.as_slice() }
    }

    /// The `pp.string` partition.
    pub fn pp_string<'a>(&'a self) -> (r: Part<'a, FormString>)
        ensures
            r.entries@ == self.parts@.pp_string,
            r.part_name@ == "pp.string"@,
    {
        Part { part_name: "pp.string", entries: self.parts.pp_string.as_slice() }
    }

    /// The `pp.op` partition.
    pub fn pp_op<'a>(&'a self) -> (r: Part<'a, FormOperator>)
        ensures
            r.entries@ == self.parts@.pp_op,
            r.part_name@ == "pp.op"@,
    {
        Part { part_name: "pp.op", entries: self.parts.pp_op.as_slice() }
    }

    /// The `pp.num` partition.
    pub fn pp_num<'a>(&'a self) -> (r: Part<'a, FormNumber>)
        ensures
            r.entries@ == self.parts@.pp_num,
            r.part_name@ == "pp.num"@,
    {
        Part { part_name: "pp.num", entries: self.parts.pp_num.as_slice() }
    }

    /// The `pp.key` partition.
    pub fn pp_keyword<'a>(&'a self) -> (r: Part<'a, FormKeyword>)
        ensures
            r.entries@ == self.parts@.pp_keyword,
            r.part_name@ == "pp.key"@,
    {
        Part { part_name: "pp.key", entries: self.parts.pp_keyword.as_slice() }
    }

    /// The `pp.param` partition.
    pub fn pp_param<'a>(&'a self) -> (r: Part<'a, FormParameter>)
        ensures
            r.entries@ == self.parts@.pp_param,
            r.part_name@ == "pp.param"@,
    {
        Part { part_name: "pp.param", entries: self.parts.pp_param.as_slice() }
    }

    /// The `pp.to-string` partition.
    pub fn pp_stringize<'a>(&'a self) -> (r: Part<'a, FormStringize>)
        ensures
            r.entries@ == self.parts@.pp_stringize,
            r.part_name@ == "pp.to-string"@,
    {
        Part { part_name: "pp.to-string", entries: self.parts.pp_stringize.as_slice() }
    }

    /// The `pp.catenate` partition.
    pub fn pp_catenate<'a>(&'a self) -> (r: Part<'a, FormCatenate>)
        ensures
            r.entries@ == self.parts@.pp_catenate,
            r.part_name@ == "pp.catenate"@,
    {
        Part { part_name: "pp.catenate", entries: self.parts.pp_catenate.as_slice() }
    }

    /// The `pp.header` partition.
    pub fn pp_header<'a>(&'a self) -> (r: Part<'a, FormHeader>)
        ensures
            r.entries@ == self.parts@.pp_header,
            r.part_name@ == "pp.header"@,
    {
        Part { part_name: "pp.header", entries: self.parts.pp_header.as_slice() }
    }

    /// The `pp.paren` partition.
    pub fn pp_paren<'a>(&'a self) -> (r: Part<'a, FormParen>)
        ensures
            r.entries@ == self.parts@.pp_paren,
            r.part_name@ == "pp.paren"@,
    {
        Part { part_name: "pp.paren", entries: self.parts.pp_paren.as_slice() }
    }

    /// The `pp.tuple` partition.
    pub fn pp_tuple<'a>(&'a self) -> (r: Part<'a, FormTuple>)
        ensures
            r.entries@ == self.parts@.pp_tuple,
            r.part_name@ == "pp.tuple"@,
    {
        Part { part_name: "pp.tuple", entries: self.parts.pp_tuple.as_slice() }
    }

    /// The `pp.junk` partition.
    pub fn pp_junk<'a>(&'a self) -> (r: Part<'a, FormJunk>)
        ensures
            r.entries@ == self.parts@.pp_junk,
            r.part_name@ == "pp.junk"@,
    {
        Part { part_name: "pp.junk", entries: self.parts.pp_junk.as_slice() }
    }

    /// The `pp.pragma` partition.
    pub fn pp_pragma<'a>(&'a self) -> (r: Part<'a, FormPragma>)
        ensures
            r.entries@ == self.parts@.pp_pragma,
            r.part_name@ == "pp.pragma"@,
    {
        Part { part_name: "pp.pragma", entries: self.parts.pp_pragma.as_slice() }
    }

    /// The `attr.basic` partition.
    pub fn attr_basic<'a>(&'a self) -> (r: Part<'a, Word>)
        ensures
            r.entries@ == self.parts@.attr_basic,
            r.part_name@ == "attr.basic"@,
    {
        Part { part_name: "attr.basic", entries: self.parts.attr_basic.as_slice() }
    }

}

} // verus!
