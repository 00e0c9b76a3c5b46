//! Semantic queries over a loaded container: scope iteration, name lookup,
//! and the small type predicates the closure engine relies on.

use vstd::prelude::*;
use vstd::slice::{slice_subrange, slice_to_vec};
use crate::error::Error;
use crate::ifc::Ifc;
use crate::index::{DeclIndex, TypeIndex, NameIndex, ExprIndex};
use crate::parts::PartsView;
use crate::records::{ScopeDescriptor, FundamentalType, QUALIFIER_CONST, ScopeIndex, Index};
use crate::sorts::{TypeSort, TypeBasis, NameSort, ExprSort, LiteralSort};
use crate::strings::spec_string_at;

verus! {

/// The member declaration references of a one-based scope, when its
/// descriptor and member range are in bounds.
pub open spec fn spec_scope_members(pv: PartsView, scope: u32) -> Option<Seq<DeclIndex>> {
    if 1 <= scope && scope - 1 < pv.scope_desc.len() {
        let sd = pv.scope_desc[scope - 1];
        if sd.start + sd.cardinality <= pv.scope_member.len() {
            Some(pv.scope_member.subrange(sd.start as int, sd.start + sd.cardinality))
        } else {
            None
        }
    } else {
        None
    }
}

/// Whether a type reference denotes a fundamental type with this basis.
pub open spec fn spec_is_fund_basis(pv: PartsView, ty: TypeIndex, basis: TypeBasis) -> bool {
    &&& TypeSort::spec_from_u32(ty.spec_tag()) == Some(TypeSort::FUNDAMENTAL)
    &&& ty.spec_index() < pv.type_fundamental.len()
    &&& TypeBasis::spec_from_u32(pv.type_fundamental[ty.spec_index() as int].basis as u32)
        == Some(basis)
}

/// The type left after peeling at most `fuel` qualifier wrappers; `None`
/// when a wrapper row is out of range or the chain does not end.
pub open spec fn spec_remove_qualifiers_fuel(pv: PartsView, ty: TypeIndex, fuel: nat)
    -> Option<TypeIndex>
    decreases fuel,
{
    if TypeSort::spec_from_u32(ty.spec_tag()) != Some(TypeSort::QUALIFIED) {
        Some(ty)
    } else if fuel == 0 {
        None
    } else if ty.spec_index() < pv.type_qualified.len() {
        spec_remove_qualifiers_fuel(
            pv,
            pv.type_qualified[ty.spec_index() as int].unqualified_type,
            (fuel - 1) as nat,
        )
    } else {
        None
    }
}

/// The type left after peeling every qualifier wrapper.
pub open spec fn spec_unqualified(pv: PartsView, ty: TypeIndex) -> Option<TypeIndex> {
    spec_remove_qualifiers_fuel(pv, ty, (pv.type_qualified.len() + 1) as nat)
}

/// Whether any qualifier wrapper on the chain carries `const`; `None` when
/// a wrapper row is out of range or the chain does not end.
pub open spec fn spec_is_const_qualified_fuel(pv: PartsView, ty: TypeIndex, fuel: nat)
    -> Option<bool>
    decreases fuel,
{
    if TypeSort::spec_from_u32(ty.spec_tag()) != Some(TypeSort::QUALIFIED) {
        Some(false)
    } else if fuel == 0 {
        None
    } else if ty.spec_index() < pv.type_qualified.len() {
        let qt = pv.type_qualified[ty.spec_index() as int];
        if qt.qualifiers & QUALIFIER_CONST != 0 {
            Some(true)
        } else {
            spec_is_const_qualified_fuel(pv, qt.unqualified_type, (fuel - 1) as nat)
        }
    } else {
        None
    }
}

/// Whether the type is const-qualified at its outermost qualifier chain.
pub open spec fn spec_is_const_qualified(pv: PartsView, ty: TypeIndex) -> Option<bool> {
    spec_is_const_qualified_fuel(pv, ty, (pv.type_qualified.len() + 1) as nat)
}

/// The display name of a name reference: identifiers and literal-operator
/// names read the string table, the other name sorts have fixed spellings.
pub open spec fn spec_name_string(strings: Seq<u8>, name: NameIndex) -> Option<Seq<char>> {
    match NameSort::spec_from_u32(name.spec_tag()) {
        Some(NameSort::LITERAL) => spec_string_at(strings, name.spec_index() as int),
        Some(NameSort::IDENTIFIER) => spec_string_at(strings, name.spec_index() as int),
        Some(NameSort::CONVERSION) => Some("?CONVERSION"@),
        Some(NameSort::GUIDE) => Some("?GUIDE"@),
        Some(NameSort::OPERATOR) => Some("?OPERATOR"@),
        Some(NameSort::SOURCE_FILE) => Some("?SOURCE_FILE"@),
        Some(NameSort::TEMPLATE) => Some("?TEMPLATE"@),
        _ => Some("???NameSort"@),
    }
}

/// The `u32` value of a literal expression: an immediate value directly,
/// or a 64-bit constant row narrowed to 32 bits.
pub open spec fn spec_literal_expr_u32(pv: PartsView, expr: ExprIndex) -> Option<u32> {
    if ExprSort::spec_from_u32(expr.spec_tag()) != Some(ExprSort::LITERAL) {
        None
    } else if expr.spec_index() < pv.expr_literal.len() {
        let lit = pv.expr_literal[expr.spec_index() as int];
        match LiteralSort::spec_from_u32(lit.value.spec_tag()) {
            Some(LiteralSort::IMMEDIATE) => Some(lit.value.spec_index()),
            Some(LiteralSort::INTEGER) => if lit.value.spec_index() < pv.const_i64.len() {
                Some(pv.const_i64[lit.value.spec_index() as int] as u32)
            } else {
                None
            },
            _ => None,
        }
    } else {
        None
    }
}

/// Ordered, restartable walk over the member declarations of one scope.
pub struct IterScope {
    pub members: Vec<DeclIndex>,
    pub pos: usize,
}

impl IterScope {
    /// The next member declaration reference, in scope order.
    pub fn next(&mut self) -> (r: Option<DeclIndex>)
        ensures
            final(self).members == old(self).members,
            old(self).pos < old(self).members@.len() ==> (
                r == Some(old(self).members@[old(self).pos as int])
                && final(self).pos == old(self).pos + 1),
            old(self).pos >= old(self).members@.len() ==> (
                r is None && final(self).pos == old(self).pos),
    {
        if self.pos < self.members.len() {
            let m = self.members[self.pos];
            self.pos += 1;
            Some(m)
        } else {
            None
        }
    }
}

/// Walk over one type reference, or over each element of a type tuple.
pub struct IterTypeTuple {
    pub items: Vec<TypeIndex>,
    pub pos: usize,
}

impl IterTypeTuple {
    /// The next element type reference.
    pub fn next(&mut self) -> (r: Option<TypeIndex>)
        ensures
            final(self).items == old(self).items,
            old(self).pos < old(self).items@.len() ==> (
                r == Some(old(self).items@[old(self).pos as int])
                && final(self).pos == old(self).pos + 1),
            old(self).pos >= old(self).items@.len() ==> (
                r is None && final(self).pos == old(self).pos),
    {
        if self.pos < self.items.len() {
            let m = self.items[self.pos];
            self.pos += 1;
            Some(m)
        } else {
            None
        }
    }
}

/// The element types a field of one type reference stands for: nothing for
/// a null reference, the tuple elements for a tuple, the type itself
/// otherwise.
pub open spec fn spec_type_tuple_elems(pv: PartsView, ty: TypeIndex) -> Option<Seq<TypeIndex>> {
    if ty.spec_is_null() {
        Some(Seq::empty())
    } else if TypeSort::spec_from_u32(ty.spec_tag()) == Some(TypeSort::TUPLE) {
        if ty.spec_index() < pv.type_tuple.len() {
            let t = pv.type_tuple[ty.spec_index() as int];
            if t.start + t.cardinality <= pv.heap_type.len() {
                Some(pv.heap_type.subrange(t.start as int, t.start + t.cardinality))
            } else {
                None
            }
        } else {
            None
        }
    } else {
        Some(seq![ty])
    }
}

impl Ifc {
    /// Starts a walk over the member declarations of a one-based scope.
    pub fn iter_scope(&self, scope: ScopeIndex) -> (r: Result<IterScope, Error>)
        requires
            scope >= 1,
        ensures
            r matches Ok(it) ==> spec_scope_members(self.parts@, scope) == Some(it.members@)
                && it.pos == 0,
            r is Err <==> spec_scope_members(self.parts@, scope) is None,
    {
        let sd = *match self.scope_desc().entry(scope - 1) {
            Ok(v) => v,
            Err(e) => { return Err(e); },
        };
        let members = self.scope_member();
        let end_64: u64 = sd.start as u64 + sd.cardinality as u64;
        if end_64 > members.entries.len() as u64 {
            return Err(Error::bad("scope member range is not valid"));
        }
        let sub = slice_subrange(members.entries, sd.start as usize, end_64 as usize);
        Ok(IterScope { members: slice_to_vec(sub), pos: 0 })
    }

    /// The scope descriptor of a one-based scope.
    pub fn get_scope_descriptor(&self, scope_index: ScopeIndex)
        -> (r: Result<&ScopeDescriptor, Error>)
        requires
            scope_index >= 1,
        ensures
            scope_index - 1 < self.parts@.scope_desc.len() ==> (r matches Ok(v)
                && *v == self.parts@.scope_desc[scope_index - 1]),
            scope_index - 1 >= self.parts@.scope_desc.len() ==> r is Err,
    {
        self.scope_desc().entry(scope_index - 1)
    }

    /// Resolves one slot of the type heap.
    pub fn type_heap_lookup(&self, index: Index) -> (r: Result<TypeIndex, Error>)
        ensures
            index < self.parts@.heap_type.len() ==> r == Ok::<TypeIndex, Error>(
                self.parts@.heap_type[index as int]),
            index >= self.parts@.heap_type.len() ==> r is Err,
    {
        match self.heap_type().entry(index) {
            Ok(v) => Ok(*v),
            Err(e) => Err(e),
        }
    }

    /// Whether the type reference denotes a namespace.
    pub fn is_type_namespace(&self, ty: TypeIndex) -> (r: Result<bool, Error>)
        ensures
            r matches Ok(b) ==> b == spec_is_fund_basis(self.parts@, ty, TypeBasis::NAMESPACE),
            r is Err <==> (TypeSort::spec_from_u32(ty.spec_tag())
                == Some(TypeSort::FUNDAMENTAL)
                && ty.spec_index() >= self.parts@.type_fundamental.len()),
    {
        self.is_fund_basis(ty, TypeBasis::NAMESPACE)
    }

    /// Whether the type reference denotes `bool`.
    pub fn is_bool_type(&self, ty: TypeIndex) -> (r: Result<bool, Error>)
        ensures
            r matches Ok(b) ==> b == spec_is_fund_basis(self.parts@, ty, TypeBasis::BOOL),
            r is Err <==> (TypeSort::spec_from_u32(ty.spec_tag())
                == Some(TypeSort::FUNDAMENTAL)
                && ty.spec_index() >= self.parts@.type_fundamental.len()),
    {
        self.is_fund_basis(ty, TypeBasis::BOOL)
    }

    /// Whether the type reference denotes `void`.
    pub fn is_void_type(&self, ty: TypeIndex) -> (r: Result<bool, Error>)
        ensures
            r matches Ok(b) ==> b == spec_is_fund_basis(self.parts@, ty, TypeBasis::VOID),
            r is Err <==> (TypeSort::spec_from_u32(ty.spec_tag())
                == Some(TypeSort::FUNDAMENTAL)
                && ty.spec_index() >= self.parts@.type_fundamental.len()),
    {
        self.is_fund_basis(ty, TypeBasis::VOID)
    }

    /// Whether the type reference denotes a fundamental type of this basis.
    fn is_fund_basis(&self, ty: TypeIndex, basis: TypeBasis) -> (r: Result<bool, Error>)
        ensures
            r matches Ok(b) ==> b == spec_is_fund_basis(self.parts@, ty, basis),
            r is Err <==> (TypeSort::spec_from_u32(ty.spec_tag())
                == Some(TypeSort::FUNDAMENTAL)
                && ty.spec_index() >= self.parts@.type_fundamental.len()),
    {
        if matches!(TypeSort::from_u32(ty.tag()), Some(TypeSort::FUNDAMENTAL)) {
            match self.type_fundamental().entry(ty.index()) {
                Ok(ft) => Ok(matches!(TypeBasis::from_u32(ft.basis as u32), Some(b) if b == basis)),
                Err(e) => Err(e),
            }
        } else {
            Ok(false)
        }
    }

    /// Whether the type reference denotes `void`; the type row must exist.
    pub fn is_void(&self, t: TypeIndex) -> (r: bool)
        requires
            TypeSort::spec_from_u32(t.spec_tag()) == Some(TypeSort::FUNDAMENTAL)
                ==> t.spec_index() < self.parts@.type_fundamental.len(),
        ensures
            r == spec_is_fund_basis(self.parts@, t, TypeBasis::VOID),
    {
        match self.is_fund_basis(t, TypeBasis::VOID) {
            Ok(b) => b,
            Err(_) => false,
        }
    }

    /// The fundamental-type row a type reference denotes, if it does; the
    /// row must exist when the reference has fundamental sort.
    pub fn as_fundamental_type(&self, t: TypeIndex) -> (r: Option<&FundamentalType>)
        requires
            TypeSort::spec_from_u32(t.spec_tag()) == Some(TypeSort::FUNDAMENTAL)
                ==> t.spec_index() < self.parts@.type_fundamental.len(),
        ensures
            r is Some <==> TypeSort::spec_from_u32(t.spec_tag())
                == Some(TypeSort::FUNDAMENTAL),
            r matches Some(ft) ==> *ft == self.parts@.type_fundamental[t.spec_index() as int],
    {
        if matches!(TypeSort::from_u32(t.tag()), Some(TypeSort::FUNDAMENTAL)) {
            match self.type_fundamental().entry(t.index()) {
                Ok(ft) => Some(ft),
                Err(_) => None,
            }
        } else {
            None
        }
    }

    /// Peels every qualifier wrapper off a type reference.
    pub fn remove_qualifiers(&self, ty: TypeIndex) -> (r: Result<TypeIndex, Error>)
        ensures
            r matches Ok(t) ==> spec_unqualified(self.parts@, ty) == Some(t),
            r is Err <==> spec_unqualified(self.parts@, ty) is None,
    {
        let part = self.type_qualified();
        let ghost pv = self.parts@;
        let mut cur = ty;
        let mut fuel: usize = part.entries.len();
        while fuel > 0 && matches!(TypeSort::from_u32(cur.tag()), Some(TypeSort::QUALIFIED))
            invariant
                part.entries@ == self.parts@.type_qualified,
                spec_remove_qualifiers_fuel(pv, ty, (pv.type_qualified.len() + 1) as nat)
                    == spec_remove_qualifiers_fuel(pv, cur, (fuel + 1) as nat),
                pv == self.parts@,
            decreases fuel,
        {
            match part.entry(cur.index()) {
                Ok(qt) => {
                    cur = qt.unqualified_type;
                },
                Err(e) => {
                    return Err(e);
                },
            }
            fuel -= 1;
        }
        if !matches!(TypeSort::from_u32(cur.tag()), Some(TypeSort::QUALIFIED)) {
            return Ok(cur);
        }
        proof {
            reveal_with_fuel(spec_remove_qualifiers_fuel, 3);
        }
        match part.entry(cur.index()) {
            Ok(qt) => {
                let last = qt.unqualified_type;
                if !matches!(TypeSort::from_u32(last.tag()), Some(TypeSort::QUALIFIED)) {
                    Ok(last)
                } else {
                    Err(Error::MaxDepthExceeded)
                }
            },
            Err(e) => Err(e),
        }
    }

    /// Whether the type is const-qualified at its outermost qualifier
    /// chain; qualifiers behind a pointer are not searched.
    pub fn is_const_qualified(&self, ty: TypeIndex) -> (r: Result<bool, Error>)
        ensures
            r matches Ok(b) ==> spec_is_const_qualified(self.parts@, ty) == Some(b),
            r is Err <==> spec_is_const_qualified(self.parts@, ty) is None,
    {
        let part = self.type_qualified();
        let ghost pv = self.parts@;
        let mut cur = ty;
        let mut fuel: usize = part.entries.len();
        while fuel > 0 && matches!(TypeSort::from_u32(cur.tag()), Some(TypeSort::QUALIFIED))
            invariant
                part.entries@ == self.parts@.type_qualified,
                spec_is_const_qualified_fuel(pv, ty, (pv.type_qualified.len() + 1) as nat)
                    == spec_is_const_qualified_fuel(pv, cur, (fuel + 1) as nat),
                pv == self.parts@,
            decreases fuel,
        {
            match part.entry(cur.index()) {
                Ok(qt) => {
                    if qt.qualifiers & QUALIFIER_CONST != 0 {
                        return Ok(true);
                    }
                    cur = qt.unqualified_type;
                },
                Err(e) => {
                    return Err(e);
                },
            }
            fuel -= 1;
        }
        if !matches!(TypeSort::from_u32(cur.tag()), Some(TypeSort::QUALIFIED)) {
            return Ok(false);
        }
        proof {
            reveal_with_fuel(spec_is_const_qualified_fuel, 3);
        }
        match part.entry(cur.index()) {
            Ok(qt) => {
                if qt.qualifiers & QUALIFIER_CONST != 0 {
                    Ok(true)
                } else {
                    let last = qt.unqualified_type;
                    if !matches!(TypeSort::from_u32(last.tag()), Some(TypeSort::QUALIFIED)) {
                        Ok(false)
                    } else {
                        Err(Error::MaxDepthExceeded)
                    }
                }
            },
            Err(e) => Err(e),
        }
    }

    /// Whether the expression reference denotes a literal.
    pub fn is_literal_expr(&self, expr: ExprIndex) -> (r: bool)
        ensures
            r == (ExprSort::spec_from_u32(expr.spec_tag()) == Some(ExprSort::LITERAL)),
    {
        matches!(ExprSort::from_u32(expr.tag()), Some(ExprSort::LITERAL))
    }

    /// The `u32` value of a literal expression.
    pub fn get_literal_expr_u32(&self, expr: ExprIndex) -> (r: Result<u32, Error>)
        ensures
            r matches Ok(v) ==> spec_literal_expr_u32(self.parts@, expr) == Some(v),
            r is Err <==> spec_literal_expr_u32(self.parts@, expr) is None,
    {
        if !matches!(ExprSort::from_u32(expr.tag()), Some(ExprSort::LITERAL)) {
            return Err(Error::bad("expression is expected to be a literal, but is not"));
        }
        let literal = *match self.expr_literal().entry(expr.index()) {
            Ok(v) => v,
            Err(e) => { return Err(e); },
        };
        match LiteralSort::from_u32(literal.value.tag()) {
            Some(LiteralSort::IMMEDIATE) => Ok(literal.value.index()),
            Some(LiteralSort::INTEGER) => {
                match self.const_i64().entry(literal.value.index()) {
                    Ok(v) => Ok(*v as u32),
                    Err(e) => Err(e),
                }
            },
            _ => Err(Error::bad("expression is expected to be an integer literal, but is not")),
        }
    }

    /// Starts a walk over a single type, or over each element of a tuple
    /// type; a null reference yields nothing.
    pub fn iter_type_tuple(&self, ty: TypeIndex) -> (r: Result<IterTypeTuple, Error>)
        ensures
            r matches Ok(it) ==> spec_type_tuple_elems(self.parts@, ty) == Some(it.items@)
                && it.pos == 0,
            r is Err <==> spec_type_tuple_elems(self.parts@, ty) is None,
    {
        if ty.is_null() {
            let r = IterTypeTuple { items: Vec::new(), pos: 0 };
            proof {
                assert(r.items@ =~= spec_type_tuple_elems(self.parts@, ty).unwrap());
            }
            return Ok(r);
        }
        if matches!(TypeSort::from_u32(ty.tag()), Some(TypeSort::TUPLE)) {
            let t = *match self.type_tuple().entry(ty.index()) {
                Ok(v) => v,
                Err(e) => { return Err(e); },
            };
            let heap = self.heap_type();
            let end_64: u64 = t.start as u64 + t.cardinality as u64;
            if end_64 > heap.entries.len() as u64 {
                return Err(Error::bad("tuple element range is not valid"));
            }
            let sub = slice_subrange(heap.entries, t.start as usize, end_64 as usize);
            Ok(IterTypeTuple { items: slice_to_vec(sub), pos: 0 })
        } else {
            let mut items: Vec<TypeIndex> = Vec::new();
            items.push(ty);
            let r = IterTypeTuple { items, pos: 0 };
            proof {
                assert(r.items@ =~= spec_type_tuple_elems(self.parts@, ty).unwrap());
            }
            Ok(r)
        }
    }

    /// The display name of a name reference.
    pub fn get_name_string(&self, name: NameIndex) -> (r: Result<&str, Error>)
        requires
            self.wf(),
        ensures
            r matches Ok(s) ==> spec_name_string(self.spec_strings(), name) == Some(s@),
            r is Err <==> spec_name_string(self.spec_strings(), name) is None,
    {
        match NameSort::from_u32(name.tag()) {
            Some(NameSort::LITERAL) => self.get_string(name.index()),
            Some(NameSort::IDENTIFIER) => self.get_string(name.index()),
            Some(NameSort::CONVERSION) => Ok("?CONVERSION"),
            Some(NameSort::GUIDE) => Ok("?GUIDE"),
            Some(NameSort::OPERATOR) => Ok("?OPERATOR"),
            Some(NameSort::SOURCE_FILE) => Ok("?SOURCE_FILE"),
            Some(NameSort::TEMPLATE) => Ok("?TEMPLATE"),
            _ => Ok("???NameSort"),
        }
    }
}

} // verus!
