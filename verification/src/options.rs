//! Generation options and the allow/block name filters.
//!
//! A filter holds an allow-list and a block-list of patterns. An empty
//! allow-list admits every name; a non-empty one admits only matched names.
//! A name that passed the allow-list is then rejected if the block-list
//! matches it.

use vstd::prelude::*;
use vstd::string::StringExecFns;
use crate::pattern::{CompiledPattern, spec_any_match, any_match, regex_match, regex_valid};

verus! {

/// Outcome of a filter on one fully qualified name.
#[derive(Copy, Clone, PartialEq, Eq, Structural, Debug)]
pub enum FilteredState {
    Allowed,
    NotAllowed,
    Blocked,
}

impl FilteredState {
    /// Whether the name passed both lists.
    pub fn is_allowed(&self) -> (r: bool)
        ensures
            r == (*self == FilteredState::Allowed),
    {
        matches!(*self, FilteredState::Allowed)
    }
}

/// The filter outcome: a non-empty allow-list excludes every unmatched name
/// irrespective of the block-list; the block-list then blocks exactly the
/// names it matches.
pub open spec fn spec_filter(
    allow: Seq<CompiledPattern>,
    block: Seq<CompiledPattern>,
    name: Seq<char>,
) -> FilteredState {
    if allow.len() > 0 && !spec_any_match(allow, name) {
        FilteredState::NotAllowed
    } else if spec_any_match(block, name) {
        FilteredState::Blocked
    } else {
        FilteredState::Allowed
    }
}

/// An allow-list and a block-list applied to fully qualified names.
#[derive(Copy, Clone)]
pub struct Filter<'a> {
    pub allowlist: &'a Vec<CompiledPattern>,
    pub blocklist: &'a Vec<CompiledPattern>,
}

impl<'a> Filter<'a> {
    /// Applies both lists to one name.
    pub fn filter(&self, name: &str) -> (r: FilteredState)
        ensures
            r == spec_filter(self.allowlist@, self.blocklist@, name@),
    {
        if self.allowlist.len() > 0 && !any_match(self.allowlist, name) {
            return FilteredState::NotAllowed;
        }
        if any_match(self.blocklist, name) {
            FilteredState::Blocked
        } else {
            FilteredState::Allowed
        }
    }

    /// Applies both lists to `parent::name`; a filter with no patterns at
    /// all allows without building the qualified name.
    pub fn filter_qualified_name(&self, name: &str, parent_name: &str) -> (r: FilteredState)
        ensures
            r == (if self.allowlist@.len() == 0 && self.blocklist@.len() == 0 {
                FilteredState::Allowed
            } else {
                spec_filter(self.allowlist@, self.blocklist@, parent_name@ + "::"@ + name@)
            }),
    {
        if self.allowlist.len() == 0 && self.blocklist.len() == 0 {
            FilteredState::Allowed
        } else {
            let mut qualified: String = parent_name.to_owned();
            qualified.append("::");
            qualified.append(name);
            self.filter(qualified.as_str())
        }
    }

    /// Whether the name passes both lists.
    pub fn is_allowed(&self, name: &str) -> (r: bool)
        ensures
            r == (spec_filter(self.allowlist@, self.blocklist@, name@)
                == FilteredState::Allowed),
    {
        self.filter(name).is_allowed()
    }
}

/// An empty allow-list together with a non-empty block-list blocks exactly
/// the names the block-list matches; a non-empty allow-list excludes every
/// name it does not match, whatever the block-list holds.
pub proof fn lemma_filter_semantics(
    allow: Seq<CompiledPattern>,
    block: Seq<CompiledPattern>,
    name: Seq<char>,
)
    ensures
        allow.len() == 0 && spec_any_match(block, name)
            ==> spec_filter(allow, block, name) == FilteredState::Blocked,
        allow.len() == 0 && !spec_any_match(block, name)
            ==> spec_filter(allow, block, name) == FilteredState::Allowed,
        allow.len() > 0 && !spec_any_match(allow, name)
            ==> spec_filter(allow, block, name) == FilteredState::NotAllowed,
        spec_any_match(allow, name) && !spec_any_match(block, name)
            ==> spec_filter(allow, block, name) == FilteredState::Allowed,
{
}

/// Everything that steers one generation run.
pub struct Options {
    /// Emit debug-formatting support for generated types.
    pub derive_debug: bool,
    /// Emit a whole standalone crate rather than one module.
    pub standalone: bool,
    pub allowlist_macro: Vec<CompiledPattern>,
    pub blocklist_macro: Vec<CompiledPattern>,
    pub allowlist_type: Vec<CompiledPattern>,
    pub blocklist_type: Vec<CompiledPattern>,
    pub allowlist_function: Vec<CompiledPattern>,
    pub blocklist_function: Vec<CompiledPattern>,
    pub allowlist_variable: Vec<CompiledPattern>,
    pub blocklist_variable: Vec<CompiledPattern>,
    /// Path segments every local name is nested under, possibly empty.
    pub rust_mod_name: Vec<String>,
}

impl Options {
    /// The filter over object-like and function-like macro names.
    pub fn macro_filter(&self) -> (r: Filter<'_>)
        ensures
            r.allowlist@ == self.allowlist_macro@,
            r.blocklist@ == self.blocklist_macro@,
    {
        Filter { allowlist: &self.allowlist_macro, blocklist: &self.blocklist_macro }
    }

    /// The filter over type names.
    pub fn type_filter(&self) -> (r: Filter<'_>)
        ensures
            r.allowlist@ == self.allowlist_type@,
            r.blocklist@ == self.blocklist_type@,
    {
        Filter { allowlist: &self.allowlist_type, blocklist: &self.blocklist_type }
    }

    /// The filter over non-member function names.
    pub fn function_filter(&self) -> (r: Filter<'_>)
        ensures
            r.allowlist@ == self.allowlist_function@,
            r.blocklist@ == self.blocklist_function@,
    {
        Filter { allowlist: &self.allowlist_function, blocklist: &self.blocklist_function }
    }

    /// The filter over non-member variable names.
    pub fn variable_filter(&self) -> (r: Filter<'_>)
        ensures
            r.allowlist@ == self.allowlist_variable@,
            r.blocklist@ == self.blocklist_variable@,
    {
        Filter { allowlist: &self.allowlist_variable, blocklist: &self.blocklist_variable }
    }

    /// Options with no filters at all, as tests start from.
    pub fn default_for_testing() -> (r: Options)
        ensures
            r.derive_debug,
            r.standalone,
            r.allowlist_macro@.len() == 0,
            r.blocklist_macro@.len() == 0,
            r.allowlist_type@.len() == 0,
            r.blocklist_type@.len() == 0,
            r.allowlist_function@.len() == 0,
            r.blocklist_function@.len() == 0,
            r.allowlist_variable@.len() == 0,
            r.blocklist_variable@.len() == 0,
            r.rust_mod_name@.len() == 0,
    {
        Options {
            derive_debug: true,
            standalone: true,
            allowlist_macro: Vec::new(),
            blocklist_macro: Vec::new(),
            allowlist_type: Vec::new(),
            blocklist_type: Vec::new(),
            allowlist_function: Vec::new(),
            blocklist_function: Vec::new(),
            allowlist_variable: Vec::new(),
            blocklist_variable: Vec::new(),
            rust_mod_name: Vec::new(),
        }
    }

    /// Options built from literal pattern lists; `None` when some pattern
    /// is not valid pattern syntax.
    pub fn for_testing(options: &TestOptions<'_>) -> (r: Option<Options>)
        ensures
            r is Some <==> ((forall|i: int| 0 <= i < options.allowlist_macro@.len()
                    ==> regex_valid(options.allowlist_macro@[i]@))
                && (forall|i: int| 0 <= i < options.blocklist_macro@.len()
                    ==> regex_valid(options.blocklist_macro@[i]@))
                && (forall|i: int| 0 <= i < options.allowlist_type@.len()
                    ==> regex_valid(options.allowlist_type@[i]@))
                && (forall|i: int| 0 <= i < options.blocklist_type@.len()
                    ==> regex_valid(options.blocklist_type@[i]@))
                && (forall|i: int| 0 <= i < options.allowlist_function@.len()
                    ==> regex_valid(options.allowlist_function@[i]@))
                && (forall|i: int| 0 <= i < options.blocklist_function@.len()
                    ==> regex_valid(options.blocklist_function@[i]@))
                && (forall|i: int| 0 <= i < options.allowlist_variable@.len()
                    ==> regex_valid(options.allowlist_variable@[i]@))
                && (forall|i: int| 0 <= i < options.blocklist_variable@.len()
                    ==> regex_valid(options.blocklist_variable@[i]@))),
            r matches Some(o) ==> {
                &&& o.standalone == (options.standalone matches Some(b) ==> b)
                &&& spec_patterns_of(o.allowlist_macro@) == spec_texts_of(
                    options.allowlist_macro@)
                &&& spec_patterns_of(o.blocklist_macro@) == spec_texts_of(
                    options.blocklist_macro@)
                &&& spec_patterns_of(o.allowlist_type@) == spec_texts_of(
                    options.allowlist_type@)
                &&& spec_patterns_of(o.blocklist_type@) == spec_texts_of(
                    options.blocklist_type@)
                &&& spec_patterns_of(o.allowlist_function@) == spec_texts_of(
                    options.allowlist_function@)
                &&& spec_patterns_of(o.blocklist_function@) == spec_texts_of(
                    options.blocklist_function@)
                &&& spec_patterns_of(o.allowlist_variable@) == spec_texts_of(
                    options.allowlist_variable@)
                &&& spec_patterns_of(o.blocklist_variable@) == spec_texts_of(
                    options.blocklist_variable@)
            },
    {
        let standalone = match options.standalone {
            Some(b) => b,
            None => true,
        };
        let allowlist_macro = match compile_list(options.allowlist_macro) {
            Some(v) => v,
            None => { return None; },
        };
        let blocklist_macro = match compile_list(options.blocklist_macro) {
            Some(v) => v,
            None => { return None; },
        };
        let allowlist_type = match compile_list(options.allowlist_type) {
            Some(v) => v,
            None => { return None; },
        };
        let blocklist_type = match compile_list(options.blocklist_type) {
            Some(v) => v,
            None => { return None; },
        };
        let allowlist_function = match compile_list(options.allowlist_function) {
            Some(v) => v,
            None => { return None; },
        };
        let blocklist_function = match compile_list(options.blocklist_function) {
            Some(v) => v,
            None => { return None; },
        };
        let allowlist_variable = match compile_list(options.allowlist_variable) {
            Some(v) => v,
            None => { return None; },
        };
        let blocklist_variable = match compile_list(options.blocklist_variable) {
            Some(v) => v,
            None => { return None; },
        };
        Some(Options {
            derive_debug: true,
            standalone,
            allowlist_macro,
            blocklist_macro,
            allowlist_type,
            blocklist_type,
            allowlist_function,
            blocklist_function,
            allowlist_variable,
            blocklist_variable,
            rust_mod_name: Vec::new(),
        })
    }
}

/// The pattern text of each compiled pattern.
pub open spec fn spec_patterns_of(pats: Seq<CompiledPattern>) -> Seq<Seq<char>> {
    pats.map_values(|p: CompiledPattern| p@)
}

/// The character sequence of each literal.
pub open spec fn spec_texts_of(texts: Seq<&str>) -> Seq<Seq<char>> {
    texts.map_values(|t: &str| t@)
}

/// Compiles each pattern of a literal list; `None` when one is invalid.
fn compile_list(texts: &[&str]) -> (r: Option<Vec<CompiledPattern>>)
    ensures
        r is Some <==> (forall|i: int| 0 <= i < texts@.len() ==> regex_valid(texts@[i]@)),
        r matches Some(v) ==> spec_patterns_of(v@) == spec_texts_of(texts@),
{
    let mut out: Vec<CompiledPattern> = Vec::new();
    let mut i: usize = 0;
    while i < texts.len()
        invariant
            i <= texts@.len(),
            out@.len() == i,
            forall|j: int| 0 <= j < i ==> regex_valid(texts@[j]@),
            forall|j: int| 0 <= j < i ==> out@[j]@ == texts@[j]@,
        decreases texts@.len() - i,
    {
        match CompiledPattern::compile(texts[i]) {
            Some(c) => {
                out.push(c);
            },
            None => {
                return None;
            },
        }
        i += 1;
    }
    proof {
        assert(spec_patterns_of(out@) =~= spec_texts_of(texts@));
    }
    Some(out)
}

/// Literal pattern lists for building options in tests.
pub struct TestOptions<'a> {
    pub standalone: Option<bool>,
    pub allowlist_macro: &'a [&'a str],
    pub blocklist_macro: &'a [&'a str],
    pub allowlist_type: &'a [&'a str],
    pub blocklist_type: &'a [&'a str],
    pub allowlist_function: &'a [&'a str],
    pub blocklist_function: &'a [&'a str],
    pub allowlist_variable: &'a [&'a str],
    pub blocklist_variable: &'a [&'a str],
}

impl<'a> Default for TestOptions<'a> {
    /// No overrides and no patterns.
    fn default() -> (r: TestOptions<'a>)
        ensures
            r.standalone is None,
            r.allowlist_macro@.len() == 0,
            r.blocklist_macro@.len() == 0,
            r.allowlist_type@.len() == 0,
            r.blocklist_type@.len() == 0,
            r.allowlist_function@.len() == 0,
            r.blocklist_function@.len() == 0,
            r.allowlist_variable@.len() == 0,
            r.blocklist_variable@.len() == 0,
    {
        TestOptions {
            standalone: None,
            allowlist_macro: &[],
            blocklist_macro: &[],
            allowlist_type: &[],
            blocklist_type: &[],
            allowlist_function: &[],
            blocklist_function: &[],
            allowlist_variable: &[],
            blocklist_variable: &[],
        }
    }
}

} // verus!
