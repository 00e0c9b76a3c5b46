//! Qualified names: the parent-linked name chain of a declaration, the
//! resolved name recorded for every emitted declaration, and the
//! deterministic rewriting of compiler-generated names.

use vstd::prelude::*;
use vstd::string::StringExecFns;

verus! {

/// Appends one character; relies on `String::push`.
#[verifier::external_body]
pub(crate) fn push_char(s: &mut String, c: char)
    ensures
        final(s)@ == old(s)@.push(c),
{
    s.push(c);
}

/// Mathematical content of a fully qualified name.
pub ghost struct FqnV {
    /// The leaf name; empty for the global namespace.
    pub name: Seq<char>,
    /// The container's full name.
    pub container: Seq<char>,
    /// The full name: `container::name`, or empty for the global namespace.
    pub full: Seq<char>,
}

/// An immutable, parent-linked fully qualified name; the global namespace is
/// the empty chain, and each child extends its parent with `::name`.
pub struct FullyQualifiedName {
    pub name: String,
    pub container: String,
    pub full: String,
}

impl View for FullyQualifiedName {
    type V = FqnV;

    open spec fn view(&self) -> FqnV {
        FqnV { name: self.name@, container: self.container@, full: self.full@ }
    }
}

/// The child name chain of a container and a leaf name.
pub open spec fn spec_fqn_child(container_full: Seq<char>, leaf: Seq<char>) -> FqnV {
    FqnV { name: leaf, container: container_full, full: container_full + "::"@ + leaf }
}

/// The global namespace name chain: all parts empty.
pub open spec fn spec_fqn_global() -> FqnV {
    FqnV { name: Seq::empty(), container: Seq::empty(), full: Seq::empty() }
}

impl FullyQualifiedName {
    /// The name chain of the global namespace.
    pub fn global_namespace() -> (r: FullyQualifiedName)
        ensures
            r@ == spec_fqn_global(),
    {
        let r = FullyQualifiedName {
            name: String::new(),
            container: String::new(),
            full: String::new(),
        };
        r
    }

    /// The name chain of a member of this scope.
    pub fn make_child(&self, child_name: &str) -> (r: FullyQualifiedName)
        ensures
            r@ == spec_fqn_child(self@.full, child_name@),
    {
        let mut full: String = self.full.as_str().to_owned();
        full.append("::");
        full.append(child_name);
        FullyQualifiedName {
            name: child_name.to_owned(),
            container: self.full.as_str().to_owned(),
            full,
        }
    }

    /// The full name as one string.
    pub fn as_string(&self) -> (r: &str)
        ensures
            r@ == self@.full,
    {
        self.full.as_str()
    }
}

/// Mathematical content of a resolved name.
pub ghost struct RNameV {
    /// The crate that defines the name, or `None` for the current crate.
    pub extern_crate: Option<Seq<char>>,
    /// The full `::`-separated path inside that crate.
    pub path: Seq<char>,
}

/// The name to use at every reference site of a declaration: its path,
/// rooted either in the current crate or in a referenced crate.
pub struct ResolvedName {
    pub extern_crate: Option<String>,
    pub path: String,
}

impl View for ResolvedName {
    type V = RNameV;

    open spec fn view(&self) -> RNameV {
        RNameV {
            extern_crate: match self.extern_crate {
                Some(s) => Some(s@),
                None => None,
            },
            path: self.path@,
        }
    }
}

/// A local resolved name.
pub open spec fn spec_rn_local(path: Seq<char>) -> RNameV {
    RNameV { extern_crate: None, path }
}

/// A resolved name rooted in a referenced crate.
pub open spec fn spec_rn_extern(ext: Seq<char>, path: Seq<char>) -> RNameV {
    RNameV { extern_crate: Some(ext), path }
}

/// Whether the front end invented this name (it cannot be an identifier).
pub open spec fn spec_name_compiler_generated(s: Seq<char>) -> bool {
    s.len() > 0 && s[0] == '<'
}

/// Whether the front end invented this name.
pub fn is_name_compiler_generated(s: &str) -> (r: bool)
    ensures
        r == spec_name_compiler_generated(s@),
{
    let n = s.unicode_len();
    if n == 0 {
        false
    } else {
        s.get_char(0) == '<'
    }
}

/// The decimal digit character of a value below ten.
pub open spec fn spec_digit_char(d: u32) -> char {
    if d == 0 { '0' } else if d == 1 { '1' } else if d == 2 { '2' } else if d == 3 { '3' }
    else if d == 4 { '4' } else if d == 5 { '5' } else if d == 6 { '6' } else if d == 7 { '7' }
    else if d == 8 { '8' } else { '9' }
}

/// Emits the decimal digit character of a value below ten.
fn digit_char(d: u32) -> (r: char)
    requires
        d < 10,
    ensures
        r == spec_digit_char(d),
{
    if d == 0 { '0' } else if d == 1 { '1' } else if d == 2 { '2' } else if d == 3 { '3' }
    else if d == 4 { '4' } else if d == 5 { '5' } else if d == 6 { '6' } else if d == 7 { '7' }
    else if d == 8 { '8' } else { '9' }
}

/// Four-digit decimal rendering of a counter value below ten thousand.
pub open spec fn spec_counter_digits(c: u32) -> Seq<char> {
    seq![
        spec_digit_char((c / 1000) % 10),
        spec_digit_char((c / 100) % 10),
        spec_digit_char((c / 10) % 10),
        spec_digit_char(c % 10),
    ]
}

/// The characters of one name character after rewriting: angle brackets and
/// dashes cannot appear in emitted identifiers.
pub open spec fn spec_rewrite_char(c: char) -> Seq<char> {
    if c == '<' {
        "__lt"@
    } else if c == '>' {
        "__gt"@
    } else if c == '-' {
        "_"@
    } else {
        seq![c]
    }
}

/// The rewritten characters of a whole name.
pub open spec fn spec_rewrite_chars(s: Seq<char>) -> Seq<char>
    decreases s.len(),
{
    if s.len() == 0 {
        Seq::empty()
    } else {
        spec_rewrite_char(s[0]) + spec_rewrite_chars(s.drop_first())
    }
}

/// The rewritten name and counter after fixing one possibly
/// compiler-generated name: an unnamed tag gets a per-scope counter, a few
/// reserved words get a trailing underscore, and any other generated name
/// has its markers rewritten to identifier characters.
pub open spec fn spec_fixup_anon(s: Seq<char>, counter: u32) -> (Seq<char>, u32) {
    if s == "<unnamed-tag>"@ {
        let c2 = ((counter + 1) % 0x1_0000_0000) as u32;
        ("tag"@ + spec_counter_digits(c2 % 10000), c2)
    } else if s == "type"@ {
        ("type_"@, counter)
    } else if s == "Self"@ {
        ("Self_"@, counter)
    } else if s == "self"@ {
        ("self_"@, counter)
    } else if !spec_name_compiler_generated(s) {
        (s, counter)
    } else {
        let a = if s.len() >= 14 && s.take(14) == "<unnamed-type-"@ {
            s.skip(14)
        } else {
            s
        };
        let b = if a.len() > 0 && a.last() == '>' {
            a.drop_last()
        } else {
            a
        };
        (spec_rewrite_chars(b), counter)
    }
}

/// Rewrites a compiler-generated name deterministically, bumping the
/// per-scope counter for unnamed tags, so repeated runs on the same input
/// are name-stable.
pub fn fixup_anon_names(s: &mut String, counter: &mut u32)
    ensures
        (final(s)@, *final(counter)) == spec_fixup_anon(old(s)@, *old(counter)),
{
    if crate::bytes::str_eq(s.as_str(), "<unnamed-tag>") {
        let c2: u32 = counter.wrapping_add(1);
        *counter = c2;
        let c = c2 % 10000;
        let mut out: String = "tag".to_owned();
        push_char(&mut out, digit_char((c / 1000) % 10));
        push_char(&mut out, digit_char((c / 100) % 10));
        push_char(&mut out, digit_char((c / 10) % 10));
        push_char(&mut out, digit_char(c % 10));
        proof {
            assert(out@ =~= "tag"@ + spec_counter_digits(c2 % 10000));
        }
        *s = out;
        return ;
    }
    if crate::bytes::str_eq(s.as_str(), "type") {
        *s = "type_".to_owned();
        return ;
    }
    if crate::bytes::str_eq(s.as_str(), "Self") {
        *s = "Self_".to_owned();
        return ;
    }
    if crate::bytes::str_eq(s.as_str(), "self") {
        *s = "self_".to_owned();
        return ;
    }
    if !is_name_compiler_generated(s.as_str()) {
        return ;
    }
    let n = s.as_str().unicode_len();
    let has_prefix = n >= 14 && crate::bytes::str_eq(
        s.as_str().substring_char(0, 14), "<unnamed-type-");
    let start: usize = if has_prefix { 14 } else { 0 };
    proof {
        if has_prefix {
            assert(s@.subrange(0, 14) == "<unnamed-type-"@);
            assert(s@.take(14) =~= s@.subrange(0, 14));
        }
    }
    let end: usize = if n > start && s.as_str().get_char(n - 1) == '>' {
        n - 1
    } else {
        n
    };
    let ghost a = if has_prefix { s@.skip(14) } else { s@ };
    let ghost b = if a.len() > 0 && a.last() == '>' { a.drop_last() } else { a };
    let mut out: String = String::new();
    let mut i: usize = start;
    while i < end
        invariant
            start <= i <= end <= n,
            n == s@.len(),
            a == (if has_prefix { s@.skip(14) } else { s@ }),
            b == (if a.len() > 0 && a.last() == '>' { a.drop_last() } else { a }),
            b =~= s@.subrange(start as int, end as int),
            out@ == spec_rewrite_chars(s@.subrange(start as int, i as int)),
        decreases end - i,
    {
        let c = s.as_str().get_char(i);
        if c == '<' {
            out.append("__lt");
        } else if c == '>' {
            out.append("__gt");
        } else if c == '-' {
            out.append("_");
        } else {
            push_char(&mut out, c);
        }
        proof {
            lemma_rewrite_snoc(s@.subrange(start as int, i as int), s@[i as int]);
            assert(s@.subrange(start as int, i as int).push(s@[i as int]) =~= s@.subrange(
                start as int, i as int + 1));
        }
        i += 1;
    }
    proof {
        assert(out@ == spec_rewrite_chars(b));
    }
    *s = out;
}

/// Rewriting distributes over appending one character.
proof fn lemma_rewrite_snoc(s: Seq<char>, c: char)
    ensures
        spec_rewrite_chars(s.push(c)) == spec_rewrite_chars(s) + spec_rewrite_char(c),
    decreases s.len(),
{
    if s.len() == 0 {
        assert(s.push(c)[0] == c);
        assert(s.push(c).drop_first() =~= Seq::<char>::empty());
        assert(spec_rewrite_chars(s.push(c)) == spec_rewrite_char(c)
            + spec_rewrite_chars(Seq::<char>::empty()));
        assert(spec_rewrite_chars(s.push(c)) =~= spec_rewrite_char(c));
        assert(spec_rewrite_chars(s) + spec_rewrite_char(c) =~= spec_rewrite_char(c));
    } else {
        lemma_rewrite_snoc(s.drop_first(), c);
        assert(s.push(c)[0] == s[0]);
        assert(s.push(c).drop_first() =~= s.drop_first().push(c));
        assert(spec_rewrite_char(s[0]) + (spec_rewrite_chars(s.drop_first())
            + spec_rewrite_char(c)) =~= (spec_rewrite_char(s[0]) + spec_rewrite_chars(
            s.drop_first())) + spec_rewrite_char(c));
    }
}

/// Decimal rendering of a value, most significant digit first.
pub open spec fn spec_dec_u32(n: u32) -> Seq<char>
    decreases n,
{
    if n < 10 {
        seq![spec_digit_char(n)]
    } else {
        spec_dec_u32(n / 10).push(spec_digit_char(n % 10))
    }
}

/// Renders a value in decimal.
pub fn dec_u32(n: u32) -> (r: String)
    ensures
        r@ == spec_dec_u32(n),
    decreases n,
{
    if n < 10 {
        let mut s = String::new();
        push_char(&mut s, digit_char(n));
        proof {
            assert(s@ =~= seq![spec_digit_char(n)]);
        }
        s
    } else {
        let mut s = dec_u32(n / 10);
        push_char(&mut s, digit_char(n % 10));
        s
    }
}

/// Decimal rendering of a wide value, most significant digit first.
pub open spec fn spec_dec_u64(n: u64) -> Seq<char>
    decreases n,
{
    if n < 10 {
        seq![spec_digit_char((n % 10) as u32)]
    } else {
        spec_dec_u64(n / 10).push(spec_digit_char((n % 10) as u32))
    }
}

/// Renders a wide value in decimal.
pub fn dec_u64(n: u64) -> (r: String)
    ensures
        r@ == spec_dec_u64(n),
    decreases n,
{
    if n < 10 {
        let mut s = String::new();
        push_char(&mut s, digit_char((n % 10) as u32));
        proof {
            assert(s@ =~= seq![spec_digit_char((n % 10) as u32)]);
        }
        s
    } else {
        let mut s = dec_u64(n / 10);
        push_char(&mut s, digit_char((n % 10) as u32));
        s
    }
}

} // verus!
