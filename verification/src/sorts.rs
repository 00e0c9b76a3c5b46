//! Closed sorts: the variant selectors carried in tagged indices and the
//! small enumerated fields of binary records.
//!
//! On disk each sort is a small integer; records keep the raw value so that
//! unknown values survive decoding, and `from_u32` maps a raw value to its
//! named sort where one is known.

use vstd::prelude::*;

verus! {

/// Variant selector of a type reference.
#[allow(non_camel_case_types)]
#[derive(Copy, Clone, PartialEq, Eq, Structural, Debug, Hash)]
pub enum TypeSort {
    VENDOR_EXTENSION,
    FUNDAMENTAL,
    DESIGNATED,
    DEDUCED,
    SYNTACTIC,
    EXPANSION,
    POINTER,
    POINTER_TO_MEMBER,
    LVALUE_REFERENCE,
    RVALUE_REFERENCE,
    FUNCTION,
    METHOD,
    ARRAY,
    TYPENAME,
    QUALIFIED,
    BASE,
    DECLTYPE,
    PLACEHOLDER,
    TUPLE,
    FORALL,
    UNALIGNED,
    SYNTAX_TREE,
}

impl TypeSort {
    /// The sort selected by a raw value.
    pub open spec fn spec_from_u32(v: u32) -> Option<TypeSort> {
        if v == 0 {
            Some(TypeSort::VENDOR_EXTENSION)
        } else if v == 1 {
            Some(TypeSort::FUNDAMENTAL)
        } else if v == 2 {
            Some(TypeSort::DESIGNATED)
        } else if v == 3 {
            Some(TypeSort::DEDUCED)
        } else if v == 4 {
            Some(TypeSort::SYNTACTIC)
        } else if v == 5 {
            Some(TypeSort::EXPANSION)
        } else if v == 6 {
            Some(TypeSort::POINTER)
        } else if v == 7 {
            Some(TypeSort::POINTER_TO_MEMBER)
        } else if v == 8 {
            Some(TypeSort::LVALUE_REFERENCE)
        } else if v == 9 {
            Some(TypeSort::RVALUE_REFERENCE)
        } else if v == 10 {
            Some(TypeSort::FUNCTION)
        } else if v == 11 {
            Some(TypeSort::METHOD)
        } else if v == 12 {
            Some(TypeSort::ARRAY)
        } else if v == 13 {
            Some(TypeSort::TYPENAME)
        } else if v == 14 {
            Some(TypeSort::QUALIFIED)
        } else if v == 15 {
            Some(TypeSort::BASE)
        } else if v == 16 {
            Some(TypeSort::DECLTYPE)
        } else if v == 17 {
            Some(TypeSort::PLACEHOLDER)
        } else if v == 18 {
            Some(TypeSort::TUPLE)
        } else if v == 19 {
            Some(TypeSort::FORALL)
        } else if v == 20 {
            Some(TypeSort::UNALIGNED)
        } else if v == 21 {
            Some(TypeSort::SYNTAX_TREE)
        } else {
            None
        }
    }

    /// Decodes a raw sort value.
    #[verifier::when_used_as_spec(spec_from_u32)]
    pub fn from_u32(v: u32) -> (r: Option<TypeSort>)
        ensures
            r == TypeSort::spec_from_u32(v),
    {
        if v == 0 {
            Some(TypeSort::VENDOR_EXTENSION)
        } else if v == 1 {
            Some(TypeSort::FUNDAMENTAL)
        } else if v == 2 {
            Some(TypeSort::DESIGNATED)
        } else if v == 3 {
            Some(TypeSort::DEDUCED)
        } else if v == 4 {
            Some(TypeSort::SYNTACTIC)
        } else if v == 5 {
            Some(TypeSort::EXPANSION)
        } else if v == 6 {
            Some(TypeSort::POINTER)
        } else if v == 7 {
            Some(TypeSort::POINTER_TO_MEMBER)
        } else if v == 8 {
            Some(TypeSort::LVALUE_REFERENCE)
        } else if v == 9 {
            Some(TypeSort::RVALUE_REFERENCE)
        } else if v == 10 {
            Some(TypeSort::FUNCTION)
        } else if v == 11 {
            Some(TypeSort::METHOD)
        } else if v == 12 {
            Some(TypeSort::ARRAY)
        } else if v == 13 {
            Some(TypeSort::TYPENAME)
        } else if v == 14 {
            Some(TypeSort::QUALIFIED)
        } else if v == 15 {
            Some(TypeSort::BASE)
        } else if v == 16 {
            Some(TypeSort::DECLTYPE)
        } else if v == 17 {
            Some(TypeSort::PLACEHOLDER)
        } else if v == 18 {
            Some(TypeSort::TUPLE)
        } else if v == 19 {
            Some(TypeSort::FORALL)
        } else if v == 20 {
            Some(TypeSort::UNALIGNED)
        } else if v == 21 {
            Some(TypeSort::SYNTAX_TREE)
        } else {
            None
        }
    }
}

/// Variant selector of a declaration reference.
#[allow(non_camel_case_types)]
#[derive(Copy, Clone, PartialEq, Eq, Structural, Debug, Hash)]
pub enum DeclSort {
    VENDOR_EXTENSION,
    ENUMERATOR,
    VARIABLE,
    PARAMETER,
    FIELD,
    BITFIELD,
    SCOPE,
    ENUMERATION,
    ALIAS,
    TEMPLOID,
    TEMPLATE,
    PARTIAL_SPECIALIZATION,
    EXPLICIT_SPECIALIZATION,
    EXPLICIT_INSTANTIATION,
    CONCEPT,
    FUNCTION,
    METHOD,
    CONSTRUCTOR,
    INHERITED_CONSTRUCTOR,
    DESTRUCTOR,
    REFERENCE,
    USING_DECLARATION,
    USING_DIRECTIVE,
    FRIEND,
    EXPANSION,
    DEDUCTION_GUIDE,
    BARREN,
    TUPLE,
    SYNTAX_TREE,
    INTRINSIC,
    PROPERTY,
    OUTPUT_SEGMENT,
}

impl DeclSort {
    /// The sort selected by a raw value.
    pub open spec fn spec_from_u32(v: u32) -> Option<DeclSort> {
        if v == 0 {
            Some(DeclSort::VENDOR_EXTENSION)
        } else if v == 1 {
            Some(DeclSort::ENUMERATOR)
        } else if v == 2 {
            Some(DeclSort::VARIABLE)
        } else if v == 3 {
            Some(DeclSort::PARAMETER)
        } else if v == 4 {
            Some(DeclSort::FIELD)
        } else if v == 5 {
            Some(DeclSort::BITFIELD)
        } else if v == 6 {
            Some(DeclSort::SCOPE)
        } else if v == 7 {
            Some(DeclSort::ENUMERATION)
        } else if v == 8 {
            Some(DeclSort::ALIAS)
        } else if v == 9 {
            Some(DeclSort::TEMPLOID)
        } else if v == 10 {
            Some(DeclSort::TEMPLATE)
        } else if v == 11 {
            Some(DeclSort::PARTIAL_SPECIALIZATION)
        } else if v == 12 {
            Some(DeclSort::EXPLICIT_SPECIALIZATION)
        } else if v == 13 {
            Some(DeclSort::EXPLICIT_INSTANTIATION)
        } else if v == 14 {
            Some(DeclSort::CONCEPT)
        } else if v == 15 {
            Some(DeclSort::FUNCTION)
        } else if v == 16 {
            Some(DeclSort::METHOD)
        } else if v == 17 {
            Some(DeclSort::CONSTRUCTOR)
        } else if v == 18 {
            Some(DeclSort::INHERITED_CONSTRUCTOR)
        } else if v == 19 {
            Some(DeclSort::DESTRUCTOR)
        } else if v == 20 {
            Some(DeclSort::REFERENCE)
        } else if v == 21 {
            Some(DeclSort::USING_DECLARATION)
        } else if v == 22 {
            Some(DeclSort::USING_DIRECTIVE)
        } else if v == 23 {
            Some(DeclSort::FRIEND)
        } else if v == 24 {
            Some(DeclSort::EXPANSION)
        } else if v == 25 {
            Some(DeclSort::DEDUCTION_GUIDE)
        } else if v == 26 {
            Some(DeclSort::BARREN)
        } else if v == 27 {
            Some(DeclSort::TUPLE)
        } else if v == 28 {
            Some(DeclSort::SYNTAX_TREE)
        } else if v == 29 {
            Some(DeclSort::INTRINSIC)
        } else if v == 30 {
            Some(DeclSort::PROPERTY)
        } else if v == 31 {
            Some(DeclSort::OUTPUT_SEGMENT)
        } else {
            None
        }
    }

    /// Decodes a raw sort value.
    #[verifier::when_used_as_spec(spec_from_u32)]
    pub fn from_u32(v: u32) -> (r: Option<DeclSort>)
        ensures
            r == DeclSort::spec_from_u32(v),
    {
        if v == 0 {
            Some(DeclSort::VENDOR_EXTENSION)
        } else if v == 1 {
            Some(DeclSort::ENUMERATOR)
        } else if v == 2 {
            Some(DeclSort::VARIABLE)
        } else if v == 3 {
            Some(DeclSort::PARAMETER)
        } else if v == 4 {
            Some(DeclSort::FIELD)
        } else if v == 5 {
            Some(DeclSort::BITFIELD)
        } else if v == 6 {
            Some(DeclSort::SCOPE)
        } else if v == 7 {
            Some(DeclSort::ENUMERATION)
        } else if v == 8 {
            Some(DeclSort::ALIAS)
        } else if v == 9 {
            Some(DeclSort::TEMPLOID)
        } else if v == 10 {
            Some(DeclSort::TEMPLATE)
        } else if v == 11 {
            Some(DeclSort::PARTIAL_SPECIALIZATION)
        } else if v == 12 {
            Some(DeclSort::EXPLICIT_SPECIALIZATION)
        } else if v == 13 {
            Some(DeclSort::EXPLICIT_INSTANTIATION)
        } else if v == 14 {
            Some(DeclSort::CONCEPT)
        } else if v == 15 {
            Some(DeclSort::FUNCTION)
        } else if v == 16 {
            Some(DeclSort::METHOD)
        } else if v == 17 {
            Some(DeclSort::CONSTRUCTOR)
        } else if v == 18 {
            Some(DeclSort::INHERITED_CONSTRUCTOR)
        } else if v == 19 {
            Some(DeclSort::DESTRUCTOR)
        } else if v == 20 {
            Some(DeclSort::REFERENCE)
        } else if v == 21 {
            Some(DeclSort::USING_DECLARATION)
        } else if v == 22 {
            Some(DeclSort::USING_DIRECTIVE)
        } else if v == 23 {
            Some(DeclSort::FRIEND)
        } else if v == 24 {
            Some(DeclSort::EXPANSION)
        } else if v == 25 {
            Some(DeclSort::DEDUCTION_GUIDE)
        } else if v == 26 {
            Some(DeclSort::BARREN)
        } else if v == 27 {
            Some(DeclSort::TUPLE)
        } else if v == 28 {
            Some(DeclSort::SYNTAX_TREE)
        } else if v == 29 {
            Some(DeclSort::INTRINSIC)
        } else if v == 30 {
            Some(DeclSort::PROPERTY)
        } else if v == 31 {
            Some(DeclSort::OUTPUT_SEGMENT)
        } else {
            None
        }
    }
}

/// Variant selector of a name reference.
#[allow(non_camel_case_types)]
#[derive(Copy, Clone, PartialEq, Eq, Structural, Debug, Hash)]
pub enum NameSort {
    IDENTIFIER,
    OPERATOR,
    CONVERSION,
    LITERAL,
    TEMPLATE,
    SPECIALIZATION,
    SOURCE_FILE,
    GUIDE,
}

impl NameSort {
    /// The sort selected by a raw value.
    pub open spec fn spec_from_u32(v: u32) -> Option<NameSort> {
        if v == 0 {
            Some(NameSort::IDENTIFIER)
        } else if v == 1 {
            Some(NameSort::OPERATOR)
        } else if v == 2 {
            Some(NameSort::CONVERSION)
        } else if v == 3 {
            Some(NameSort::LITERAL)
        } else if v == 4 {
            Some(NameSort::TEMPLATE)
        } else if v == 5 {
            Some(NameSort::SPECIALIZATION)
        } else if v == 6 {
            Some(NameSort::SOURCE_FILE)
        } else if v == 7 {
            Some(NameSort::GUIDE)
        } else {
            None
        }
    }

    /// Decodes a raw sort value.
    #[verifier::when_used_as_spec(spec_from_u32)]
    pub fn from_u32(v: u32) -> (r: Option<NameSort>)
        ensures
            r == NameSort::spec_from_u32(v),
    {
        if v == 0 {
            Some(NameSort::IDENTIFIER)
        } else if v == 1 {
            Some(NameSort::OPERATOR)
        } else if v == 2 {
            Some(NameSort::CONVERSION)
        } else if v == 3 {
            Some(NameSort::LITERAL)
        } else if v == 4 {
            Some(NameSort::TEMPLATE)
        } else if v == 5 {
            Some(NameSort::SPECIALIZATION)
        } else if v == 6 {
            Some(NameSort::SOURCE_FILE)
        } else if v == 7 {
            Some(NameSort::GUIDE)
        } else {
            None
        }
    }
}

/// Variant selector of an expression reference.
#[allow(non_camel_case_types)]
#[derive(Copy, Clone, PartialEq, Eq, Structural, Debug, Hash)]
pub enum ExprSort {
    VENDOR_EXTENSION,
    EMPTY,
    LITERAL,
    LAMBDA,
    TYPE,
    NAMED_DECL,
    UNRESOLVED_ID,
    TEMPLATE_ID,
    UNQUALIFIED_ID,
    SIMPLE_IDENTIFIER,
    POINTER,
    QUALIFIED_NAME,
    PATH,
    READ,
    MONAD,
    DYAD,
    TRIAD,
    STRING,
    TEMPORARY,
    CALL,
    MEMBER_INITIALIZER,
    MEMBER_ACCESS,
    INHERITANCE_PATH,
    INITIALIZER_LIST,
    CAST,
    CONDITION,
    EXPRESSION_LIST,
    SIZEOF_TYPE,
    ALIGNOF,
    NEW,
    DELETE,
    TYPEID,
    DESTRUCTOR_CALL,
    SYNTAX_TREE,
}

impl ExprSort {
    /// The sort selected by a raw value.
    pub open spec fn spec_from_u32(v: u32) -> Option<ExprSort> {
        if v == 0 {
            Some(ExprSort::VENDOR_EXTENSION)
        } else if v == 1 {
            Some(ExprSort::EMPTY)
        } else if v == 2 {
            Some(ExprSort::LITERAL)
        } else if v == 3 {
            Some(ExprSort::LAMBDA)
        } else if v == 4 {
            Some(ExprSort::TYPE)
        } else if v == 5 {
            Some(ExprSort::NAMED_DECL)
        } else if v == 6 {
            Some(ExprSort::UNRESOLVED_ID)
        } else if v == 8 {
            Some(ExprSort::UNQUALIFIED_ID)
        } else if v == 9 {
            Some(ExprSort::SIMPLE_IDENTIFIER)
        } else if v == 10 {
            Some(ExprSort::POINTER)
        } else if v == 11 {
            Some(ExprSort::QUALIFIED_NAME)
        } else if v == 12 {
            Some(ExprSort::PATH)
        } else if v == 13 {
            Some(ExprSort::READ)
        } else if v == 14 {
            Some(ExprSort::MONAD)
        } else if v == 15 {
            Some(ExprSort::DYAD)
        } else if v == 16 {
            Some(ExprSort::TRIAD)
        } else if v == 17 {
            Some(ExprSort::STRING)
        } else if v == 18 {
            Some(ExprSort::TEMPORARY)
        } else if v == 19 {
            Some(ExprSort::CALL)
        } else if v == 20 {
            Some(ExprSort::MEMBER_INITIALIZER)
        } else if v == 21 {
            Some(ExprSort::MEMBER_ACCESS)
        } else if v == 22 {
            Some(ExprSort::INHERITANCE_PATH)
        } else if v == 23 {
            Some(ExprSort::INITIALIZER_LIST)
        } else if v == 24 {
            Some(ExprSort::CAST)
        } else if v == 25 {
            Some(ExprSort::CONDITION)
        } else if v == 26 {
            Some(ExprSort::EXPRESSION_LIST)
        } else if v == 27 {
            Some(ExprSort::SIZEOF_TYPE)
        } else if v == 28 {
            Some(ExprSort::ALIGNOF)
        } else if v == 29 {
            Some(ExprSort::NEW)
        } else if v == 30 {
            Some(ExprSort::DELETE)
        } else if v == 31 {
            Some(ExprSort::TYPEID)
        } else if v == 32 {
            Some(ExprSort::DESTRUCTOR_CALL)
        } else if v == 33 {
            Some(ExprSort::SYNTAX_TREE)
        } else {
            None
        }
    }

    /// Decodes a raw sort value.
    #[verifier::when_used_as_spec(spec_from_u32)]
    pub fn from_u32(v: u32) -> (r: Option<ExprSort>)
        ensures
            r == ExprSort::spec_from_u32(v),
    {
        if v == 0 {
            Some(ExprSort::VENDOR_EXTENSION)
        } else if v == 1 {
            Some(ExprSort::EMPTY)
        } else if v == 2 {
            Some(ExprSort::LITERAL)
        } else if v == 3 {
            Some(ExprSort::LAMBDA)
        } else if v == 4 {
            Some(ExprSort::TYPE)
        } else if v == 5 {
            Some(ExprSort::NAMED_DECL)
        } else if v == 6 {
            Some(ExprSort::UNRESOLVED_ID)
        } else if v == 8 {
            Some(ExprSort::UNQUALIFIED_ID)
        } else if v == 9 {
            Some(ExprSort::SIMPLE_IDENTIFIER)
        } else if v == 10 {
            Some(ExprSort::POINTER)
        } else if v == 11 {
            Some(ExprSort::QUALIFIED_NAME)
        } else if v == 12 {
            Some(ExprSort::PATH)
        } else if v == 13 {
            Some(ExprSort::READ)
        } else if v == 14 {
            Some(ExprSort::MONAD)
        } else if v == 15 {
            Some(ExprSort::DYAD)
        } else if v == 16 {
            Some(ExprSort::TRIAD)
        } else if v == 17 {
            Some(ExprSort::STRING)
        } else if v == 18 {
            Some(ExprSort::TEMPORARY)
        } else if v == 19 {
            Some(ExprSort::CALL)
        } else if v == 20 {
            Some(ExprSort::MEMBER_INITIALIZER)
        } else if v == 21 {
            Some(ExprSort::MEMBER_ACCESS)
        } else if v == 22 {
            Some(ExprSort::INHERITANCE_PATH)
        } else if v == 23 {
            Some(ExprSort::INITIALIZER_LIST)
        } else if v == 24 {
            Some(ExprSort::CAST)
        } else if v == 25 {
            Some(ExprSort::CONDITION)
        } else if v == 26 {
            Some(ExprSort::EXPRESSION_LIST)
        } else if v == 27 {
            Some(ExprSort::SIZEOF_TYPE)
        } else if v == 28 {
            Some(ExprSort::ALIGNOF)
        } else if v == 29 {
            Some(ExprSort::NEW)
        } else if v == 30 {
            Some(ExprSort::DELETE)
        } else if v == 31 {
            Some(ExprSort::TYPEID)
        } else if v == 32 {
            Some(ExprSort::DESTRUCTOR_CALL)
        } else if v == 33 {
            Some(ExprSort::SYNTAX_TREE)
        } else {
            None
        }
    }
}

/// Variant selector of a literal constant reference.
#[allow(non_camel_case_types)]
#[derive(Copy, Clone, PartialEq, Eq, Structural, Debug, Hash)]
pub enum LiteralSort {
    IMMEDIATE,
    INTEGER,
    FLOATING_POINT,
}

impl LiteralSort {
    /// The sort selected by a raw value.
    pub open spec fn spec_from_u32(v: u32) -> Option<LiteralSort> {
        if v == 0 {
            Some(LiteralSort::IMMEDIATE)
        } else if v == 1 {
            Some(LiteralSort::INTEGER)
        } else if v == 2 {
            Some(LiteralSort::FLOATING_POINT)
        } else {
            None
        }
    }

    /// Decodes a raw sort value.
    #[verifier::when_used_as_spec(spec_from_u32)]
    pub fn from_u32(v: u32) -> (r: Option<LiteralSort>)
        ensures
            r == LiteralSort::spec_from_u32(v),
    {
        if v == 0 {
            Some(LiteralSort::IMMEDIATE)
        } else if v == 1 {
            Some(LiteralSort::INTEGER)
        } else if v == 2 {
            Some(LiteralSort::FLOATING_POINT)
        } else {
            None
        }
    }
}

/// Variant selector of a preprocessor form reference.
#[allow(non_camel_case_types)]
#[derive(Copy, Clone, PartialEq, Eq, Structural, Debug, Hash)]
pub enum FormSort {
    IDENTIFIER,
    NUMBER,
    CHARACTER,
    STRING,
    OPERATOR,
    KEYWORD,
    WHITESPACE,
    PARAMETER,
    STRINGIZE,
    CATENATE,
    PRAGMA,
    HEADER,
    PARENTHESIZED,
    TUPLE,
    JUNK,
}

impl FormSort {
    /// The sort selected by a raw value.
    pub open spec fn spec_from_u32(v: u32) -> Option<FormSort> {
        if v == 0 {
            Some(FormSort::IDENTIFIER)
        } else if v == 1 {
            Some(FormSort::NUMBER)
        } else if v == 2 {
            Some(FormSort::CHARACTER)
        } else if v == 3 {
            Some(FormSort::STRING)
        } else if v == 4 {
            Some(FormSort::OPERATOR)
        } else if v == 5 {
            Some(FormSort::KEYWORD)
        } else if v == 6 {
            Some(FormSort::WHITESPACE)
        } else if v == 7 {
            Some(FormSort::PARAMETER)
        } else if v == 8 {
            Some(FormSort::STRINGIZE)
        } else if v == 9 {
            Some(FormSort::CATENATE)
        } else if v == 10 {
            Some(FormSort::PRAGMA)
        } else if v == 11 {
            Some(FormSort::HEADER)
        } else if v == 12 {
            Some(FormSort::PARENTHESIZED)
        } else if v == 13 {
            Some(FormSort::TUPLE)
        } else if v == 14 {
            Some(FormSort::JUNK)
        } else {
            None
        }
    }

    /// Decodes a raw sort value.
    #[verifier::when_used_as_spec(spec_from_u32)]
    pub fn from_u32(v: u32) -> (r: Option<FormSort>)
        ensures
            r == FormSort::spec_from_u32(v),
    {
        if v == 0 {
            Some(FormSort::IDENTIFIER)
        } else if v == 1 {
            Some(FormSort::NUMBER)
        } else if v == 2 {
            Some(FormSort::CHARACTER)
        } else if v == 3 {
            Some(FormSort::STRING)
        } else if v == 4 {
            Some(FormSort::OPERATOR)
        } else if v == 5 {
            Some(FormSort::KEYWORD)
        } else if v == 6 {
            Some(FormSort::WHITESPACE)
        } else if v == 7 {
            Some(FormSort::PARAMETER)
        } else if v == 8 {
            Some(FormSort::STRINGIZE)
        } else if v == 9 {
            Some(FormSort::CATENATE)
        } else if v == 10 {
            Some(FormSort::PRAGMA)
        } else if v == 11 {
            Some(FormSort::HEADER)
        } else if v == 12 {
            Some(FormSort::PARENTHESIZED)
        } else if v == 13 {
            Some(FormSort::TUPLE)
        } else if v == 14 {
            Some(FormSort::JUNK)
        } else {
            None
        }
    }
}

/// Kind of a preprocessor macro definition.
#[allow(non_camel_case_types)]
#[derive(Copy, Clone, PartialEq, Eq, Structural, Debug, Hash)]
pub enum MacroSort {
    OBJECT_LIKE,
    FUNCTION_LIKE,
}

impl MacroSort {
    /// The sort selected by a raw value.
    pub open spec fn spec_from_u32(v: u32) -> Option<MacroSort> {
        if v == 0 {
            Some(MacroSort::OBJECT_LIKE)
        } else if v == 1 {
            Some(MacroSort::FUNCTION_LIKE)
        } else {
            None
        }
    }

    /// Decodes a raw sort value.
    #[verifier::when_used_as_spec(spec_from_u32)]
    pub fn from_u32(v: u32) -> (r: Option<MacroSort>)
        ensures
            r == MacroSort::spec_from_u32(v),
    {
        if v == 0 {
            Some(MacroSort::OBJECT_LIKE)
        } else if v == 1 {
            Some(MacroSort::FUNCTION_LIKE)
        } else {
            None
        }
    }
}

/// Kind of a token word.
#[allow(non_camel_case_types)]
#[derive(Copy, Clone, PartialEq, Eq, Structural, Debug, Hash)]
pub enum WordSort {
    UNKNOWN,
    DIRECTIVE,
    PUNCTUATOR,
    LITERAL,
    OPERATOR,
    KEYWORD,
    IDENTIFIER,
}

impl WordSort {
    /// The sort selected by a raw value.
    pub open spec fn spec_from_u32(v: u32) -> WordSort {
        if v == 0 {
            WordSort::UNKNOWN
        } else if v == 1 {
            WordSort::DIRECTIVE
        } else if v == 2 {
            WordSort::PUNCTUATOR
        } else if v == 3 {
            WordSort::LITERAL
        } else if v == 4 {
            WordSort::OPERATOR
        } else if v == 5 {
            WordSort::KEYWORD
        } else if v == 6 {
            WordSort::IDENTIFIER
        } else {
            WordSort::UNKNOWN
        }
    }

    /// Decodes a raw sort value.
    #[verifier::when_used_as_spec(spec_from_u32)]
    pub fn from_u32(v: u32) -> (r: WordSort)
        ensures
            r == WordSort::spec_from_u32(v),
    {
        if v == 0 {
            WordSort::UNKNOWN
        } else if v == 1 {
            WordSort::DIRECTIVE
        } else if v == 2 {
            WordSort::PUNCTUATOR
        } else if v == 3 {
            WordSort::LITERAL
        } else if v == 4 {
            WordSort::OPERATOR
        } else if v == 5 {
            WordSort::KEYWORD
        } else if v == 6 {
            WordSort::IDENTIFIER
        } else {
            WordSort::UNKNOWN
        }
    }
}

/// Punctuator selected by a word of punctuator sort.
#[allow(non_camel_case_types)]
#[derive(Copy, Clone, PartialEq, Eq, Structural, Debug, Hash)]
pub enum WordSortPunctuator {
    Unknown,
    LeftParenthesis,
    RightParenthesis,
    LeftBracket,
    RightBracket,
    LeftBrace,
    RightBrace,
    Colon,
    Question,
    Semicolon,
    ColonColon,
    Msvc,
    MsvcZeroWidthSpace,
    MsvcEndOfPhrase,
    MsvcFullStop,
    MsvcNestedTemplateStart,
    MsvcDefaultArgumentStart,
    MsvcAlignasEdictStart,
    MsvcDefaultInitStart,
}

impl WordSortPunctuator {
    /// The sort selected by a raw value.
    pub open spec fn spec_from_u32(v: u32) -> WordSortPunctuator {
        if v == 0 {
            WordSortPunctuator::Unknown
        } else if v == 1 {
            WordSortPunctuator::LeftParenthesis
        } else if v == 2 {
            WordSortPunctuator::RightParenthesis
        } else if v == 3 {
            WordSortPunctuator::LeftBracket
        } else if v == 4 {
            WordSortPunctuator::RightBracket
        } else if v == 5 {
            WordSortPunctuator::LeftBrace
        } else if v == 6 {
            WordSortPunctuator::RightBrace
        } else if v == 7 {
            WordSortPunctuator::Colon
        } else if v == 8 {
            WordSortPunctuator::Question
        } else if v == 9 {
            WordSortPunctuator::Semicolon
        } else if v == 10 {
            WordSortPunctuator::ColonColon
        } else if v == 8191 {
            WordSortPunctuator::Msvc
        } else if v == 8192 {
            WordSortPunctuator::MsvcZeroWidthSpace
        } else if v == 8193 {
            WordSortPunctuator::MsvcEndOfPhrase
        } else if v == 8194 {
            WordSortPunctuator::MsvcFullStop
        } else if v == 8195 {
            WordSortPunctuator::MsvcNestedTemplateStart
        } else if v == 8196 {
            WordSortPunctuator::MsvcDefaultArgumentStart
        } else if v == 8197 {
            WordSortPunctuator::MsvcAlignasEdictStart
        } else if v == 8198 {
            WordSortPunctuator::MsvcDefaultInitStart
        } else {
            WordSortPunctuator::Unknown
        }
    }

    /// Decodes a raw sort value.
    #[verifier::when_used_as_spec(spec_from_u32)]
    pub fn from_u32(v: u32) -> (r: WordSortPunctuator)
        ensures
            r == WordSortPunctuator::spec_from_u32(v),
    {
        if v == 0 {
            WordSortPunctuator::Unknown
        } else if v == 1 {
            WordSortPunctuator::LeftParenthesis
        } else if v == 2 {
            WordSortPunctuator::RightParenthesis
        } else if v == 3 {
            WordSortPunctuator::LeftBracket
        } else if v == 4 {
            WordSortPunctuator::RightBracket
        } else if v == 5 {
            WordSortPunctuator::LeftBrace
        } else if v == 6 {
            WordSortPunctuator::RightBrace
        } else if v == 7 {
            WordSortPunctuator::Colon
        } else if v == 8 {
            WordSortPunctuator::Question
        } else if v == 9 {
            WordSortPunctuator::Semicolon
        } else if v == 10 {
            WordSortPunctuator::ColonColon
        } else if v == 8191 {
            WordSortPunctuator::Msvc
        } else if v == 8192 {
            WordSortPunctuator::MsvcZeroWidthSpace
        } else if v == 8193 {
            WordSortPunctuator::MsvcEndOfPhrase
        } else if v == 8194 {
            WordSortPunctuator::MsvcFullStop
        } else if v == 8195 {
            WordSortPunctuator::MsvcNestedTemplateStart
        } else if v == 8196 {
            WordSortPunctuator::MsvcDefaultArgumentStart
        } else if v == 8197 {
            WordSortPunctuator::MsvcAlignasEdictStart
        } else if v == 8198 {
            WordSortPunctuator::MsvcDefaultInitStart
        } else {
            WordSortPunctuator::Unknown
        }
    }
}

/// Operator selected by a word of operator sort.
#[allow(non_camel_case_types)]
#[derive(Copy, Clone, PartialEq, Eq, Structural, Debug, Hash)]
pub enum WordSortOperator {
    Unknown,
    Equal,
    Comma,
    Exclaim,
    Plus,
    Dash,
    Star,
    Slash,
    Percent,
    LeftChevron,
    RightChevron,
    Tilde,
    Caret,
    Bar,
    Ampersand,
    PlusPlus,
    DashDash,
    Less,
    LessEqual,
    Greater,
    GreaterEqual,
    EqualEqual,
    ExclaimEqual,
    Diamond,
    PlusEqual,
    DashEqual,
    StarEqual,
    SlashEqual,
    PercentEqual,
    AmpersandEqual,
    BarEqual,
    CaretEqual,
    LeftChevronEqual,
    RightChevronEqual,
    AmpersandAmpersand,
    BarBar,
    Ellipsis,
    Dot,
    Arrow,
    DotStar,
    ArrowStar,
}

impl WordSortOperator {
    /// The sort selected by a raw value.
    pub open spec fn spec_from_u32(v: u32) -> WordSortOperator {
        if v == 0 {
            WordSortOperator::Unknown
        } else if v == 1 {
            WordSortOperator::Equal
        } else if v == 2 {
            WordSortOperator::Comma
        } else if v == 3 {
            WordSortOperator::Exclaim
        } else if v == 4 {
            WordSortOperator::Plus
        } else if v == 5 {
            WordSortOperator::Dash
        } else if v == 6 {
            WordSortOperator::Star
        } else if v == 7 {
            WordSortOperator::Slash
        } else if v == 8 {
            WordSortOperator::Percent
        } else if v == 9 {
            WordSortOperator::LeftChevron
        } else if v == 10 {
            WordSortOperator::RightChevron
        } else if v == 11 {
            WordSortOperator::Tilde
        } else if v == 12 {
            WordSortOperator::Caret
        } else if v == 13 {
            WordSortOperator::Bar
        } else if v == 14 {
            WordSortOperator::Ampersand
        } else if v == 15 {
            WordSortOperator::PlusPlus
        } else if v == 16 {
            WordSortOperator::DashDash
        } else if v == 17 {
            WordSortOperator::Less
        } else if v == 18 {
            WordSortOperator::LessEqual
        } else if v == 19 {
            WordSortOperator::Greater
        } else if v == 20 {
            WordSortOperator::GreaterEqual
        } else if v == 21 {
            WordSortOperator::EqualEqual
        } else if v == 22 {
            WordSortOperator::ExclaimEqual
        } else if v == 23 {
            WordSortOperator::Diamond
        } else if v == 24 {
            WordSortOperator::PlusEqual
        } else if v == 25 {
            WordSortOperator::DashEqual
        } else if v == 26 {
            WordSortOperator::StarEqual
        } else if v == 27 {
            WordSortOperator::SlashEqual
        } else if v == 28 {
            WordSortOperator::PercentEqual
        } else if v == 29 {
            WordSortOperator::AmpersandEqual
        } else if v == 30 {
            WordSortOperator::BarEqual
        } else if v == 31 {
            WordSortOperator::CaretEqual
        } else if v == 32 {
            WordSortOperator::LeftChevronEqual
        } else if v == 33 {
            WordSortOperator::RightChevronEqual
        } else if v == 34 {
            WordSortOperator::AmpersandAmpersand
        } else if v == 35 {
            WordSortOperator::BarBar
        } else if v == 36 {
            WordSortOperator::Ellipsis
        } else if v == 37 {
            WordSortOperator::Dot
        } else if v == 38 {
            WordSortOperator::Arrow
        } else if v == 39 {
            WordSortOperator::DotStar
        } else if v == 40 {
            WordSortOperator::ArrowStar
        } else {
            WordSortOperator::Unknown
        }
    }

    /// Decodes a raw sort value.
    #[verifier::when_used_as_spec(spec_from_u32)]
    pub fn from_u32(v: u32) -> (r: WordSortOperator)
        ensures
            r == WordSortOperator::spec_from_u32(v),
    {
        if v == 0 {
            WordSortOperator::Unknown
        } else if v == 1 {
            WordSortOperator::Equal
        } else if v == 2 {
            WordSortOperator::Comma
        } else if v == 3 {
            WordSortOperator::Exclaim
        } else if v == 4 {
            WordSortOperator::Plus
        } else if v == 5 {
            WordSortOperator::Dash
        } else if v == 6 {
            WordSortOperator::Star
        } else if v == 7 {
            WordSortOperator::Slash
        } else if v == 8 {
            WordSortOperator::Percent
        } else if v == 9 {
            WordSortOperator::LeftChevron
        } else if v == 10 {
            WordSortOperator::RightChevron
        } else if v == 11 {
            WordSortOperator::Tilde
        } else if v == 12 {
            WordSortOperator::Caret
        } else if v == 13 {
            WordSortOperator::Bar
        } else if v == 14 {
            WordSortOperator::Ampersand
        } else if v == 15 {
            WordSortOperator::PlusPlus
        } else if v == 16 {
            WordSortOperator::DashDash
        } else if v == 17 {
            WordSortOperator::Less
        } else if v == 18 {
            WordSortOperator::LessEqual
        } else if v == 19 {
            WordSortOperator::Greater
        } else if v == 20 {
            WordSortOperator::GreaterEqual
        } else if v == 21 {
            WordSortOperator::EqualEqual
        } else if v == 22 {
            WordSortOperator::ExclaimEqual
        } else if v == 23 {
            WordSortOperator::Diamond
        } else if v == 24 {
            WordSortOperator::PlusEqual
        } else if v == 25 {
            WordSortOperator::DashEqual
        } else if v == 26 {
            WordSortOperator::StarEqual
        } else if v == 27 {
            WordSortOperator::SlashEqual
        } else if v == 28 {
            WordSortOperator::PercentEqual
        } else if v == 29 {
            WordSortOperator::AmpersandEqual
        } else if v == 30 {
            WordSortOperator::BarEqual
        } else if v == 31 {
            WordSortOperator::CaretEqual
        } else if v == 32 {
            WordSortOperator::LeftChevronEqual
        } else if v == 33 {
            WordSortOperator::RightChevronEqual
        } else if v == 34 {
            WordSortOperator::AmpersandAmpersand
        } else if v == 35 {
            WordSortOperator::BarBar
        } else if v == 36 {
            WordSortOperator::Ellipsis
        } else if v == 37 {
            WordSortOperator::Dot
        } else if v == 38 {
            WordSortOperator::Arrow
        } else if v == 39 {
            WordSortOperator::DotStar
        } else if v == 40 {
            WordSortOperator::ArrowStar
        } else {
            WordSortOperator::Unknown
        }
    }
}

/// Kind of translation unit an interface file was produced from.
#[allow(non_camel_case_types)]
#[derive(Copy, Clone, PartialEq, Eq, Structural, Debug, Hash)]
pub enum UnitSort {
    SOURCE,
    PRIMARY,
    PARTITION,
    HEADER,
    EXPORTED_TU,
}

impl UnitSort {
    /// The sort selected by a raw value.
    pub open spec fn spec_from_u32(v: u32) -> Option<UnitSort> {
        if v == 0 {
            Some(UnitSort::SOURCE)
        } else if v == 1 {
            Some(UnitSort::PRIMARY)
        } else if v == 2 {
            Some(UnitSort::PARTITION)
        } else if v == 3 {
            Some(UnitSort::HEADER)
        } else if v == 4 {
            Some(UnitSort::EXPORTED_TU)
        } else {
            None
        }
    }

    /// Decodes a raw sort value.
    #[verifier::when_used_as_spec(spec_from_u32)]
    pub fn from_u32(v: u32) -> (r: Option<UnitSort>)
        ensures
            r == UnitSort::spec_from_u32(v),
    {
        if v == 0 {
            Some(UnitSort::SOURCE)
        } else if v == 1 {
            Some(UnitSort::PRIMARY)
        } else if v == 2 {
            Some(UnitSort::PARTITION)
        } else if v == 3 {
            Some(UnitSort::HEADER)
        } else if v == 4 {
            Some(UnitSort::EXPORTED_TU)
        } else {
            None
        }
    }
}

/// Target architecture recorded in the file header.
#[allow(non_camel_case_types)]
#[derive(Copy, Clone, PartialEq, Eq, Structural, Debug, Hash)]
pub enum Architecture {
    Unknown,
    X86,
    X64,
    ARM32,
    ARM64,
    HybridX86ARM64,
}

impl Architecture {
    /// The sort selected by a raw value.
    pub open spec fn spec_from_u32(v: u32) -> Architecture {
        if v == 0 {
            Architecture::Unknown
        } else if v == 1 {
            Architecture::X86
        } else if v == 2 {
            Architecture::X64
        } else if v == 3 {
            Architecture::ARM32
        } else if v == 4 {
            Architecture::ARM64
        } else if v == 5 {
            Architecture::HybridX86ARM64
        } else {
            Architecture::Unknown
        }
    }

    /// Decodes a raw sort value.
    #[verifier::when_used_as_spec(spec_from_u32)]
    pub fn from_u32(v: u32) -> (r: Architecture)
        ensures
            r == Architecture::spec_from_u32(v),
    {
        if v == 0 {
            Architecture::Unknown
        } else if v == 1 {
            Architecture::X86
        } else if v == 2 {
            Architecture::X64
        } else if v == 3 {
            Architecture::ARM32
        } else if v == 4 {
            Architecture::ARM64
        } else if v == 5 {
            Architecture::HybridX86ARM64
        } else {
            Architecture::Unknown
        }
    }
}

/// Basis of a fundamental type.
#[allow(non_camel_case_types)]
#[derive(Copy, Clone, PartialEq, Eq, Structural, Debug, Hash)]
pub enum TypeBasis {
    VOID,
    BOOL,
    CHAR,
    WCHAR_T,
    INT,
    FLOAT,
    DOUBLE,
    NULLPTR,
    ELLIPSIS,
    SEGMENT_TYPE,
    CLASS,
    STRUCT,
    UNION,
    ENUM,
    TYPENAME,
    NAMESPACE,
    INTERFACE,
    FUNCTION,
    EMPTY,
    VARIABLE_TEMPLATE,
    AUTO,
    DECLTYPE_AUTO,
}

impl TypeBasis {
    /// The sort selected by a raw value.
    pub open spec fn spec_from_u32(v: u32) -> Option<TypeBasis> {
        if v == 0 {
            Some(TypeBasis::VOID)
        } else if v == 1 {
            Some(TypeBasis::BOOL)
        } else if v == 2 {
            Some(TypeBasis::CHAR)
        } else if v == 3 {
            Some(TypeBasis::WCHAR_T)
        } else if v == 4 {
            Some(TypeBasis::INT)
        } else if v == 5 {
            Some(TypeBasis::FLOAT)
        } else if v == 6 {
            Some(TypeBasis::DOUBLE)
        } else if v == 7 {
            Some(TypeBasis::NULLPTR)
        } else if v == 8 {
            Some(TypeBasis::ELLIPSIS)
        } else if v == 9 {
            Some(TypeBasis::SEGMENT_TYPE)
        } else if v == 10 {
            Some(TypeBasis::CLASS)
        } else if v == 11 {
            Some(TypeBasis::STRUCT)
        } else if v == 12 {
            Some(TypeBasis::UNION)
        } else if v == 13 {
            Some(TypeBasis::ENUM)
        } else if v == 14 {
            Some(TypeBasis::TYPENAME)
        } else if v == 15 {
            Some(TypeBasis::NAMESPACE)
        } else if v == 16 {
            Some(TypeBasis::INTERFACE)
        } else if v == 17 {
            Some(TypeBasis::FUNCTION)
        } else if v == 18 {
            Some(TypeBasis::EMPTY)
        } else if v == 19 {
            Some(TypeBasis::VARIABLE_TEMPLATE)
        } else if v == 20 {
            Some(TypeBasis::AUTO)
        } else if v == 21 {
            Some(TypeBasis::DECLTYPE_AUTO)
        } else {
            None
        }
    }

    /// Decodes a raw sort value.
    #[verifier::when_used_as_spec(spec_from_u32)]
    pub fn from_u32(v: u32) -> (r: Option<TypeBasis>)
        ensures
            r == TypeBasis::spec_from_u32(v),
    {
        if v == 0 {
            Some(TypeBasis::VOID)
        } else if v == 1 {
            Some(TypeBasis::BOOL)
        } else if v == 2 {
            Some(TypeBasis::CHAR)
        } else if v == 3 {
            Some(TypeBasis::WCHAR_T)
        } else if v == 4 {
            Some(TypeBasis::INT)
        } else if v == 5 {
            Some(TypeBasis::FLOAT)
        } else if v == 6 {
            Some(TypeBasis::DOUBLE)
        } else if v == 7 {
            Some(TypeBasis::NULLPTR)
        } else if v == 8 {
            Some(TypeBasis::ELLIPSIS)
        } else if v == 9 {
            Some(TypeBasis::SEGMENT_TYPE)
        } else if v == 10 {
            Some(TypeBasis::CLASS)
        } else if v == 11 {
            Some(TypeBasis::STRUCT)
        } else if v == 12 {
            Some(TypeBasis::UNION)
        } else if v == 13 {
            Some(TypeBasis::ENUM)
        } else if v == 14 {
            Some(TypeBasis::TYPENAME)
        } else if v == 15 {
            Some(TypeBasis::NAMESPACE)
        } else if v == 16 {
            Some(TypeBasis::INTERFACE)
        } else if v == 17 {
            Some(TypeBasis::FUNCTION)
        } else if v == 18 {
            Some(TypeBasis::EMPTY)
        } else if v == 19 {
            Some(TypeBasis::VARIABLE_TEMPLATE)
        } else if v == 20 {
            Some(TypeBasis::AUTO)
        } else if v == 21 {
            Some(TypeBasis::DECLTYPE_AUTO)
        } else {
            None
        }
    }
}

/// Bit precision of a fundamental type.
#[allow(non_camel_case_types)]
#[derive(Copy, Clone, PartialEq, Eq, Structural, Debug, Hash)]
pub enum TypePrecision {
    DEFAULT,
    SHORT,
    LONG,
    BIT8,
    BIT16,
    BIT32,
    BIT64,
    BIT128,
}

impl TypePrecision {
    /// The sort selected by a raw value.
    pub open spec fn spec_from_u32(v: u32) -> Option<TypePrecision> {
        if v == 0 {
            Some(TypePrecision::DEFAULT)
        } else if v == 1 {
            Some(TypePrecision::SHORT)
        } else if v == 2 {
            Some(TypePrecision::LONG)
        } else if v == 3 {
            Some(TypePrecision::BIT8)
        } else if v == 4 {
            Some(TypePrecision::BIT16)
        } else if v == 5 {
            Some(TypePrecision::BIT32)
        } else if v == 6 {
            Some(TypePrecision::BIT64)
        } else if v == 7 {
            Some(TypePrecision::BIT128)
        } else {
            None
        }
    }

    /// Decodes a raw sort value.
    #[verifier::when_used_as_spec(spec_from_u32)]
    pub fn from_u32(v: u32) -> (r: Option<TypePrecision>)
        ensures
            r == TypePrecision::spec_from_u32(v),
    {
        if v == 0 {
            Some(TypePrecision::DEFAULT)
        } else if v == 1 {
            Some(TypePrecision::SHORT)
        } else if v == 2 {
            Some(TypePrecision::LONG)
        } else if v == 3 {
            Some(TypePrecision::BIT8)
        } else if v == 4 {
            Some(TypePrecision::BIT16)
        } else if v == 5 {
            Some(TypePrecision::BIT32)
        } else if v == 6 {
            Some(TypePrecision::BIT64)
        } else if v == 7 {
            Some(TypePrecision::BIT128)
        } else {
            None
        }
    }
}

/// Sign of a fundamental type.
#[allow(non_camel_case_types)]
#[derive(Copy, Clone, PartialEq, Eq, Structural, Debug, Hash)]
pub enum TypeSign {
    PLAIN,
    SIGNED,
    UNSIGNED,
}

impl TypeSign {
    /// The sort selected by a raw value.
    pub open spec fn spec_from_u32(v: u32) -> Option<TypeSign> {
        if v == 0 {
            Some(TypeSign::PLAIN)
        } else if v == 1 {
            Some(TypeSign::SIGNED)
        } else if v == 2 {
            Some(TypeSign::UNSIGNED)
        } else {
            None
        }
    }

    /// Decodes a raw sort value.
    #[verifier::when_used_as_spec(spec_from_u32)]
    pub fn from_u32(v: u32) -> (r: Option<TypeSign>)
        ensures
            r == TypeSign::spec_from_u32(v),
    {
        if v == 0 {
            Some(TypeSign::PLAIN)
        } else if v == 1 {
            Some(TypeSign::SIGNED)
        } else if v == 2 {
            Some(TypeSign::UNSIGNED)
        } else {
            None
        }
    }
}

/// Calling convention of a function type.
#[allow(non_camel_case_types)]
#[derive(Copy, Clone, PartialEq, Eq, Structural, Debug, Hash)]
pub enum CallingConvention {
    Cdecl,
    Fast,
    Std,
    This,
    Clr,
    Vector,
    Eabi,
}

impl CallingConvention {
    /// The sort selected by a raw value.
    pub open spec fn spec_from_u32(v: u32) -> Option<CallingConvention> {
        if v == 0 {
            Some(CallingConvention::Cdecl)
        } else if v == 1 {
            Some(CallingConvention::Fast)
        } else if v == 2 {
            Some(CallingConvention::Std)
        } else if v == 3 {
            Some(CallingConvention::This)
        } else if v == 4 {
            Some(CallingConvention::Clr)
        } else if v == 5 {
            Some(CallingConvention::Vector)
        } else if v == 6 {
            Some(CallingConvention::Eabi)
        } else {
            None
        }
    }

    /// Decodes a raw sort value.
    #[verifier::when_used_as_spec(spec_from_u32)]
    pub fn from_u32(v: u32) -> (r: Option<CallingConvention>)
        ensures
            r == CallingConvention::spec_from_u32(v),
    {
        if v == 0 {
            Some(CallingConvention::Cdecl)
        } else if v == 1 {
            Some(CallingConvention::Fast)
        } else if v == 2 {
            Some(CallingConvention::Std)
        } else if v == 3 {
            Some(CallingConvention::This)
        } else if v == 4 {
            Some(CallingConvention::Clr)
        } else if v == 5 {
            Some(CallingConvention::Vector)
        } else if v == 6 {
            Some(CallingConvention::Eabi)
        } else {
            None
        }
    }
}

/// Exception specification recorded on a function type.
#[allow(non_camel_case_types)]
#[derive(Copy, Clone, PartialEq, Eq, Structural, Debug, Hash)]
pub enum NoexceptSort {
    NONE,
    FALSE,
    TRUE,
    EXPRESSION,
    INFERRED,
    UNENFORCED,
}

impl NoexceptSort {
    /// The sort selected by a raw value.
    pub open spec fn spec_from_u32(v: u32) -> Option<NoexceptSort> {
        if v == 0 {
            Some(NoexceptSort::NONE)
        } else if v == 1 {
            Some(NoexceptSort::FALSE)
        } else if v == 2 {
            Some(NoexceptSort::TRUE)
        } else if v == 3 {
            Some(NoexceptSort::EXPRESSION)
        } else if v == 4 {
            Some(NoexceptSort::INFERRED)
        } else if v == 5 {
            Some(NoexceptSort::UNENFORCED)
        } else {
            None
        }
    }

    /// Decodes a raw sort value.
    #[verifier::when_used_as_spec(spec_from_u32)]
    pub fn from_u32(v: u32) -> (r: Option<NoexceptSort>)
        ensures
            r == NoexceptSort::spec_from_u32(v),
    {
        if v == 0 {
            Some(NoexceptSort::NONE)
        } else if v == 1 {
            Some(NoexceptSort::FALSE)
        } else if v == 2 {
            Some(NoexceptSort::TRUE)
        } else if v == 3 {
            Some(NoexceptSort::EXPRESSION)
        } else if v == 4 {
            Some(NoexceptSort::INFERRED)
        } else if v == 5 {
            Some(NoexceptSort::UNENFORCED)
        } else {
            None
        }
    }
}

/// Member access level.
#[allow(non_camel_case_types)]
#[derive(Copy, Clone, PartialEq, Eq, Structural, Debug, Hash)]
pub enum Access {
    NONE,
    PRIVATE,
    PROTECTED,
    PUBLIC,
}

impl Access {
    /// The sort selected by a raw value.
    pub open spec fn spec_from_u32(v: u32) -> Option<Access> {
        if v == 0 {
            Some(Access::NONE)
        } else if v == 1 {
            Some(Access::PRIVATE)
        } else if v == 2 {
            Some(Access::PROTECTED)
        } else if v == 3 {
            Some(Access::PUBLIC)
        } else {
            None
        }
    }

    /// Decodes a raw sort value.
    #[verifier::when_used_as_spec(spec_from_u32)]
    pub fn from_u32(v: u32) -> (r: Option<Access>)
        ensures
            r == Access::spec_from_u32(v),
    {
        if v == 0 {
            Some(Access::NONE)
        } else if v == 1 {
            Some(Access::PRIVATE)
        } else if v == 2 {
            Some(Access::PROTECTED)
        } else if v == 3 {
            Some(Access::PUBLIC)
        } else {
            None
        }
    }
}

/// Traits recorded on a scope declaration.
#[allow(non_camel_case_types)]
#[derive(Copy, Clone, PartialEq, Eq, Structural, Debug, Hash)]
pub enum ScopeTraits {
    NONE,
    UNNAMED,
    INLINE,
    INITIALIZER_EXPORTED,
    CLOSURE_TYPE,
    FINAL,
    VENDOR,
}

impl ScopeTraits {
    /// The sort selected by a raw value.
    pub open spec fn spec_from_u32(v: u32) -> Option<ScopeTraits> {
        if v == 0 {
            Some(ScopeTraits::NONE)
        } else if v == 1 {
            Some(ScopeTraits::UNNAMED)
        } else if v == 2 {
            Some(ScopeTraits::INLINE)
        } else if v == 4 {
            Some(ScopeTraits::INITIALIZER_EXPORTED)
        } else if v == 8 {
            Some(ScopeTraits::CLOSURE_TYPE)
        } else if v == 64 {
            Some(ScopeTraits::FINAL)
        } else if v == 128 {
            Some(ScopeTraits::VENDOR)
        } else {
            None
        }
    }

    /// Decodes a raw sort value.
    #[verifier::when_used_as_spec(spec_from_u32)]
    pub fn from_u32(v: u32) -> (r: Option<ScopeTraits>)
        ensures
            r == ScopeTraits::spec_from_u32(v),
    {
        if v == 0 {
            Some(ScopeTraits::NONE)
        } else if v == 1 {
            Some(ScopeTraits::UNNAMED)
        } else if v == 2 {
            Some(ScopeTraits::INLINE)
        } else if v == 4 {
            Some(ScopeTraits::INITIALIZER_EXPORTED)
        } else if v == 8 {
            Some(ScopeTraits::CLOSURE_TYPE)
        } else if v == 64 {
            Some(ScopeTraits::FINAL)
        } else if v == 128 {
            Some(ScopeTraits::VENDOR)
        } else {
            None
        }
    }
}

/// Which parts of a declaration were exported.
#[allow(non_camel_case_types)]
#[derive(Copy, Clone, PartialEq, Eq, Structural, Debug, Hash)]
pub enum ReachableProperties {
    NONE,
    INITIALIZER,
    DEFAULT_ARGUMENTS,
    ATTRIBUTES,
    ALL,
}

impl ReachableProperties {
    /// The sort selected by a raw value.
    pub open spec fn spec_from_u32(v: u32) -> Option<ReachableProperties> {
        if v == 0 {
            Some(ReachableProperties::NONE)
        } else if v == 1 {
            Some(ReachableProperties::INITIALIZER)
        } else if v == 2 {
            Some(ReachableProperties::DEFAULT_ARGUMENTS)
        } else if v == 4 {
            Some(ReachableProperties::ATTRIBUTES)
        } else if v == 255 {
            Some(ReachableProperties::ALL)
        } else {
            None
        }
    }

    /// Decodes a raw sort value.
    #[verifier::when_used_as_spec(spec_from_u32)]
    pub fn from_u32(v: u32) -> (r: Option<ReachableProperties>)
        ensures
            r == ReachableProperties::spec_from_u32(v),
    {
        if v == 0 {
            Some(ReachableProperties::NONE)
        } else if v == 1 {
            Some(ReachableProperties::INITIALIZER)
        } else if v == 2 {
            Some(ReachableProperties::DEFAULT_ARGUMENTS)
        } else if v == 4 {
            Some(ReachableProperties::ATTRIBUTES)
        } else if v == 255 {
            Some(ReachableProperties::ALL)
        } else {
            None
        }
    }
}

/// Specifiers recorded on a base-class entry.
#[allow(non_camel_case_types)]
#[derive(Copy, Clone, PartialEq, Eq, Structural, Debug, Hash)]
pub enum BaseTypeSpecifiers {
    NONE,
    SHARED,
    EXPANDED,
}

impl BaseTypeSpecifiers {
    /// The sort selected by a raw value.
    pub open spec fn spec_from_u32(v: u32) -> Option<BaseTypeSpecifiers> {
        if v == 0 {
            Some(BaseTypeSpecifiers::NONE)
        } else if v == 1 {
            Some(BaseTypeSpecifiers::SHARED)
        } else if v == 2 {
            Some(BaseTypeSpecifiers::EXPANDED)
        } else {
            None
        }
    }

    /// Decodes a raw sort value.
    #[verifier::when_used_as_spec(spec_from_u32)]
    pub fn from_u32(v: u32) -> (r: Option<BaseTypeSpecifiers>)
        ensures
            r == BaseTypeSpecifiers::spec_from_u32(v),
    {
        if v == 0 {
            Some(BaseTypeSpecifiers::NONE)
        } else if v == 1 {
            Some(BaseTypeSpecifiers::SHARED)
        } else if v == 2 {
            Some(BaseTypeSpecifiers::EXPANDED)
        } else {
            None
        }
    }
}

/// Variant selector of a template parameter chart reference.
#[allow(non_camel_case_types)]
#[derive(Copy, Clone, PartialEq, Eq, Structural, Debug, Hash)]
pub enum ChartSort {
    NONE,
    UNILEVEL,
    MULTILEVEL,
}

impl ChartSort {
    /// The sort selected by a raw value.
    pub open spec fn spec_from_u32(v: u32) -> Option<ChartSort> {
        if v == 0 {
            Some(ChartSort::NONE)
        } else if v == 1 {
            Some(ChartSort::UNILEVEL)
        } else if v == 2 {
            Some(ChartSort::MULTILEVEL)
        } else {
            None
        }
    }

    /// Decodes a raw sort value.
    #[verifier::when_used_as_spec(spec_from_u32)]
    pub fn from_u32(v: u32) -> (r: Option<ChartSort>)
        ensures
            r == ChartSort::spec_from_u32(v),
    {
        if v == 0 {
            Some(ChartSort::NONE)
        } else if v == 1 {
            Some(ChartSort::UNILEVEL)
        } else if v == 2 {
            Some(ChartSort::MULTILEVEL)
        } else {
            None
        }
    }
}

/// Binary operator recorded on a dyadic expression.
#[allow(non_camel_case_types)]
#[derive(Copy, Clone, PartialEq, Eq, Structural, Debug)]
pub enum DyadicOperator {
    UNKNOWN,
    PLUS,
    MINUS,
    MULT,
    SLASH,
    MODULO,
    REMAINDER,
    BITAND,
    BITOR,
    BITXOR,
    LSHIFT,
    RSHIFT,
    EQUAL,
    NOT_EQUAL,
    LESS,
    LESS_EQUAL,
    GREATER,
    GREATER_EQUAL,
    COMPARE,
    LOGIC_AND,
    LOGIC_OR,
    ASSIGN,
    PLUS_ASSIGN,
    MINUS_ASSIGN,
    MULT_ASSIGN,
    SLASH_ASSIGN,
    MODULO_ASSIGN,
    BITAND_ASSIGN,
    BITOR_ASSIGN,
    BITXOR_ASSIGN,
    LSHIFT_ASSIGN,
    RSHIFT_ASSIGN,
    COMMA,
    DOT,
    ARROW,
    DOT_STAR,
    ARROW_STAR,
    CURRY,
    APPLY,
    INDEX,
    DEFAULT_AT,
    NEW,
    NEW_ARRAY,
    DESTRUCT,
    DESTRUCT_AT,
    CLEANUP,
    QUALIFICATION,
    PROMOTE,
    DEMOTE,
    COERCE,
    REWRITE,
    BLESS,
    CAST,
    EXPLICIT_CONVERSION,
    REINTERPRET_CAST,
    STATIC_CAST,
    CONST_CAST,
    DYNAMIC_CAST,
    NARROW,
    WIDEN,
    PRETEND,
    CLOSURE,
    ZERO_INITIALIZE,
    CLEAR_STORAGE,
    SELECT,
    MSVC,
    MSVC_TRY_CAST,
    MSVC_CURRY,
    MSVC_VIRTUAL_CURRY,
    MSVC_ALIGN,
    MSVC_BIT_SPAN,
    MSVC_BITFIELD_ACCESS,
    MSVC_OBSCURE_BITFIELD_ACCESS,
    MSVC_INITIALIZE,
    MSVC_BUILTIN_OFFSET_OF,
    MSVC_IS_BASE_OF,
    MSVC_IS_CONVERTIBLE_TO,
    MSVC_IS_TRIVIALLY_ASSIGNABLE,
    MSVC_IS_NOTHROW_ASSIGNABLE,
    MSVC_IS_ASSIGNABLE,
    MSVC_IS_ASSIGNABLE_NOCHECK,
    MSVC_BUILTIN_BITCAST,
    MSVC_BUILTIN_IS_LAYOUT_COMPATIBLE,
    MSVC_BUILTIN_IS_POINTER_INTERCONVERTIBLE_BASE_OF,
    MSVC_BUILTIN_IS_POINTER_INTERCONVERTIBLE_WITH_CLASS,
    MSVC_BUILTIN_IS_CORRESPONDING_MEMBER,
    MSVC_INTRINSIC,
    MSVC_SATURATED_ARITHMETIC,
}

/// A decoded operator-or-punctuator word inside a macro body.
#[derive(Copy, Clone, PartialEq, Eq, Structural, Debug)]
pub enum PreProcessingOpOrPunc {
    Punctuator(WordSortPunctuator),
    Operator(WordSortOperator),
}

} // verus!
