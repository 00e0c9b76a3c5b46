//! The export-closure engine: walks the current module's scopes and
//! decides, per declaration, whether it is emitted here, already satisfied
//! by a referenced module, or deferred.
//!
//! The decision for a declaration is monotonic: unresolved, then possibly
//! pending (name captured, filtered out for now), then included; a pending
//! declaration referenced later as a dependency is promoted to included and
//! its own dependencies are pulled in. A structural fault inside one
//! declaration is recorded as a diagnostic and that declaration is left
//! out; the walk continues.

use vstd::prelude::*;
use crate::error::Error;
use crate::ifc::Ifc;
use crate::index::{DeclIndex, TypeIndex};
use crate::names::{FullyQualifiedName, FqnV, ResolvedName, RNameV, spec_fqn_child,
    spec_fqn_global, spec_rn_local, spec_rn_extern, spec_fixup_anon, fixup_anon_names};
use crate::options::{Filter, FilteredState, spec_filter};
use crate::parts::PartsView;
use crate::pattern::CompiledPattern;
use crate::query::spec_scope_members;
use crate::records::{DeclAlias, DeclEnum, DeclScope, ScopeIndex};
use crate::sorts::{DeclSort, NameSort, TypeSort, TypeBasis};
use crate::strings::spec_string_at;
use crate::symbol_map::{SymbolMap, sm_view, spec_lookup};

verus! {

/// Bound on the combined depth of scope nesting and type-dependency chains.
pub const MAX_WALK_DEPTH: u32 = 1024;

/// Mathematical content of one export decision.
pub ghost enum DispV {
    /// Referenced as a dependency before being visited; no name yet.
    Required,
    /// Visited and filtered out for now; the name is kept for reactivation.
    Pending(FqnV),
    /// Decided, with the name to use at every reference site.
    Included(RNameV),
}

/// One export decision.
pub enum Disposition {
    /// Referenced as a dependency before being visited; no name yet.
    Required,
    /// Visited and filtered out for now; the name is kept for reactivation.
    Pending(FullyQualifiedName),
    /// Decided, with the name to use at every reference site.
    Included(ResolvedName),
}

impl View for Disposition {
    type V = DispV;

    open spec fn view(&self) -> DispV {
        match self {
            Disposition::Required => DispV::Required,
            Disposition::Pending(f) => DispV::Pending(f@),
            Disposition::Included(r) => DispV::Included(r@),
        }
    }
}

/// Decision entries as mathematical values.
pub open spec fn dview(v: Seq<(u32, Disposition)>) -> Seq<(u32, DispV)> {
    v.map_values(|p: (u32, Disposition)| (p.0, p.1@))
}

/// The decision recorded for a declaration: the first entry carrying it.
pub open spec fn dlookup(s: Seq<(u32, DispV)>, k: u32) -> Option<DispV>
    decreases s.len(),
{
    if s.len() == 0 {
        None
    } else if s[0].0 == k {
        Some(s[0].1)
    } else {
        dlookup(s.drop_first(), k)
    }
}

/// Position of the first entry carrying the key.
pub open spec fn dfirst_pos(s: Seq<(u32, DispV)>, k: u32) -> Option<int>
    decreases s.len(),
{
    if s.len() == 0 {
        None
    } else if s[0].0 == k {
        Some(0)
    } else {
        match dfirst_pos(s.drop_first(), k) {
            Some(p) => Some(p + 1),
            None => None,
        }
    }
}

/// The entries after one decision is recorded: an existing entry is
/// overwritten, a new key is appended.
pub open spec fn dinsert(s: Seq<(u32, DispV)>, k: u32, v: DispV) -> Seq<(u32, DispV)> {
    match dfirst_pos(s, k) {
        Some(p) => s.update(p, (k, v)),
        None => s.push((k, v)),
    }
}

/// First position and lookup agree.
proof fn lemma_dfirst_pos_lookup(s: Seq<(u32, DispV)>, k: u32)
    ensures
        dfirst_pos(s, k) matches Some(p) ==> 0 <= p < s.len() && s[p].0 == k
            && dlookup(s, k) == Some(s[p].1)
            && (forall|j: int| 0 <= j < p ==> (#[trigger] s[j]).0 != k),
        dfirst_pos(s, k) is None ==> dlookup(s, k) is None
            && (forall|j: int| 0 <= j < s.len() ==> (#[trigger] s[j]).0 != k),
    decreases s.len(),
{
    if s.len() > 0 && s[0].0 != k {
        lemma_dfirst_pos_lookup(s.drop_first(), k);
        match dfirst_pos(s.drop_first(), k) {
            Some(p0) => {
                assert(s[p0 + 1] == s.drop_first()[p0]);
                assert forall|j: int| 0 <= j < p0 + 1 implies (#[trigger] s[j]).0 != k by {
                    if j > 0 {
                        assert(s[j] == s.drop_first()[j - 1]);
                    }
                }
            },
            None => {
                assert forall|j: int| 0 <= j < s.len() implies (#[trigger] s[j]).0 != k by {
                    if j > 0 {
                        assert(s[j] == s.drop_first()[j - 1]);
                    }
                }
            },
        }
    }
}

/// A scan that saw no match up to `i` fixes the first position beyond it.
proof fn lemma_dfirst_pos_skip(s: Seq<(u32, DispV)>, k: u32, i: int)
    requires
        0 <= i <= s.len(),
        forall|j: int| 0 <= j < i ==> (#[trigger] s[j]).0 != k,
    ensures
        i < s.len() && s[i].0 == k ==> dfirst_pos(s, k) == Some(i),
        i == s.len() ==> dfirst_pos(s, k) is None,
    decreases s.len(),
{
    if s.len() > 0 {
        if s[0].0 == k {
        } else if i > 0 {
            lemma_dfirst_pos_skip(s.drop_first(), k, i - 1);
        } else {
            lemma_dfirst_pos_skip(s.drop_first(), k, 0);
        }
    }
}

/// Lookup after recording one decision: the recorded key reads the new
/// value, every other key is unchanged.
pub proof fn lemma_dinsert_lookup(s: Seq<(u32, DispV)>, k: u32, v: DispV, k2: u32)
    ensures
        dlookup(dinsert(s, k, v), k2) == (if k2 == k {
            Some(v)
        } else {
            dlookup(s, k2)
        }),
    decreases s.len(),
{
    lemma_dfirst_pos_lookup(s, k);
    if s.len() == 0 {
        reveal_with_fuel(dlookup, 3);
        reveal_with_fuel(dfirst_pos, 3);
        assert(dinsert(s, k, v) =~= s.push((k, v)));
        assert(s.push((k, v))[0] == (k, v));
        assert(s.push((k, v)).drop_first() =~= Seq::<(u32, DispV)>::empty());
        assert(dlookup(s.push((k, v)), k2) == (if k2 == k { Some(v) } else { dlookup(s, k2) }));
    } else if s[0].0 == k {
        assert(dinsert(s, k, v) == s.update(0, (k, v)));
        assert(s.update(0, (k, v))[0] == (k, v));
        if k2 != k {
            assert(s.update(0, (k, v)).drop_first() =~= s.drop_first());
        }
    } else {
        lemma_dinsert_lookup(s.drop_first(), k, v, k2);
        match dfirst_pos(s, k) {
            Some(p) => {
                assert(p >= 1);
                assert(dfirst_pos(s.drop_first(), k) == Some(p - 1));
                assert(dinsert(s, k, v) == s.update(p, (k, v)));
                assert(s.update(p, (k, v))[0] == s[0]);
                assert(s.update(p, (k, v)).drop_first() =~= s.drop_first().update(
                    p - 1, (k, v)));
                assert(dinsert(s.drop_first(), k, v) == s.drop_first().update(p - 1, (k, v)));
            },
            None => {
                assert(dinsert(s, k, v) == s.push((k, v)));
                assert(dfirst_pos(s.drop_first(), k) is None);
                assert(dinsert(s.drop_first(), k, v) == s.drop_first().push((k, v)));
                assert(s.push((k, v))[0] == s[0]);
                assert(s.push((k, v)).drop_first() =~= s.drop_first().push((k, v)));
            },
        }
    }
}

/// Emitted-member entries as mathematical values.
pub open spec fn mview(v: Seq<(u32, u32, String)>) -> Seq<(u32, u32, Seq<char>)> {
    v.map_values(|t: (u32, u32, String)| (t.0, t.1, t.2@))
}

/// Whether a member was already registered under a home scope.
pub open spec fn spec_member_present(ms: Seq<(u32, u32, Seq<char>)>, sc: u32, m: u32) -> bool {
    exists|i: int| 0 <= i < ms.len() && (#[trigger] ms[i]).0 == sc && ms[i].1 == m
}

/// Orphan entries as mathematical values.
pub open spec fn oview(v: Seq<(u32, String)>) -> Seq<(u32, Seq<char>)> {
    v.map_values(|p: (u32, String)| (p.0, p.1@))
}

/// Mathematical content of the engine state.
pub ghost struct StateView {
    /// Export decision per declaration key.
    pub decisions: Seq<(u32, DispV)>,
    /// Emitted members: home scope key, member key, leaf name, in
    /// discovery order.
    pub members: Seq<(u32, u32, Seq<char>)>,
    /// Declarations reachable only as dependencies, with their leaf names.
    pub orphans: Seq<(u32, Seq<char>)>,
}

/// The mutable state of one closure run.
pub struct DiscoveryState {
    /// Export decision per declaration key.
    pub decisions: Vec<(u32, Disposition)>,
    /// Emitted members: home scope key, member key, leaf name.
    pub members: Vec<(u32, u32, String)>,
    /// Declarations reachable only as dependencies, with their leaf names.
    pub orphans: Vec<(u32, String)>,
    /// One line per declaration that had to be left out.
    pub diagnostics: Vec<String>,
}

impl View for DiscoveryState {
    type V = StateView;

    open spec fn view(&self) -> StateView {
        StateView {
            decisions: dview(self.decisions@),
            members: mview(self.members@),
            orphans: oview(self.orphans@),
        }
    }
}

impl DiscoveryState {
    /// A run that has decided nothing yet.
    pub fn new() -> (r: DiscoveryState)
        ensures
            r@.decisions.len() == 0,
            r@.members.len() == 0,
            r@.orphans.len() == 0,
    {
        DiscoveryState {
            decisions: Vec::new(),
            members: Vec::new(),
            orphans: Vec::new(),
            diagnostics: Vec::new(),
        }
    }

    /// The decision recorded for a declaration key.
    pub fn get_decision(&self, k: u32) -> (r: Option<&Disposition>)
        ensures
            r matches Some(d) ==> dlookup(self@.decisions, k) == Some(d@),
            r is None <==> dlookup(self@.decisions, k) is None,
    {
        let mut i: usize = 0;
        while i < self.decisions.len()
            invariant
                i <= self.decisions@.len(),
                forall|j: int| 0 <= j < i ==> (#[trigger] dview(self.decisions@)[j]).0 != k,
            decreases self.decisions@.len() - i,
        {
            proof {
                assert(dview(self.decisions@)[i as int]
                    == (self.decisions@[i as int].0, self.decisions@[i as int].1@));
            }
            if self.decisions[i].0 == k {
                proof {
                    lemma_dlookup_skip(dview(self.decisions@), k, i as int);
                }
                return Some(&self.decisions[i].1);
            }
            i += 1;
        }
        proof {
            lemma_dlookup_skip(dview(self.decisions@), k, self.decisions@.len() as int);
        }
        None
    }

    /// Records a decision, overwriting any earlier one for the same key.
    pub fn set_decision(&mut self, k: u32, d: Disposition)
        ensures
            final(self)@.decisions == dinsert(old(self)@.decisions, k, d@),
            final(self)@.members == old(self)@.members,
            final(self)@.orphans == old(self)@.orphans,
    {
        let ghost orig = dview(self.decisions@);
        let mut i: usize = 0;
        while i < self.decisions.len()
            invariant
                i <= self.decisions@.len(),
                orig == dview(self.decisions@),
                orig == dview(old(self).decisions@),
                self.members == old(self).members,
                self.orphans == old(self).orphans,
                forall|j: int| 0 <= j < i ==> (#[trigger] dview(self.decisions@)[j]).0 != k,
            decreases self.decisions@.len() - i,
        {
            proof {
                assert(dview(self.decisions@)[i as int]
                    == (self.decisions@[i as int].0, self.decisions@[i as int].1@));
            }
            if self.decisions[i].0 == k {
                proof {
                    lemma_dfirst_pos_skip(orig, k, i as int);
                }
                self.decisions.set(i, (k, d));
                proof {
                    assert forall|j: int| 0 <= j < self.decisions@.len() implies
                        #[trigger] dview(self.decisions@)[j] == orig.update(
                            i as int, (k, d@))[j] by {
                        assert(dview(self.decisions@)[j]
                            == (self.decisions@[j].0, self.decisions@[j].1@));
                    }
                    assert(dview(self.decisions@) =~= orig.update(i as int, (k, d@)));
                }
                return ;
            }
            i += 1;
        }
        proof {
            lemma_dfirst_pos_skip(orig, k, self.decisions@.len() as int);
        }
        self.decisions.push((k, d));
        proof {
            assert(dview(self.decisions@) =~= orig.push((k, d@)));
        }
    }

    /// Whether a member was already registered under a home scope.
    pub fn has_member(&self, sc: u32, m: u32) -> (r: bool)
        ensures
            r == spec_member_present(self@.members, sc, m),
    {
        let mut i: usize = 0;
        while i < self.members.len()
            invariant
                i <= self.members@.len(),
                forall|j: int| 0 <= j < i ==> !((#[trigger] mview(self.members@)[j]).0 == sc
                    && mview(self.members@)[j].1 == m),
            decreases self.members@.len() - i,
        {
            proof {
                assert(mview(self.members@)[i as int] == (self.members@[i as int].0,
                    self.members@[i as int].1, self.members@[i as int].2@));
            }
            if self.members[i].0 == sc && self.members[i].1 == m {
                return true;
            }
            i += 1;
        }
        false
    }

    /// Registers a member of a home scope.
    pub fn push_member(&mut self, sc: u32, m: u32, name: String)
        ensures
            final(self)@.members == old(self)@.members.push((sc, m, name@)),
            final(self)@.decisions == old(self)@.decisions,
            final(self)@.orphans == old(self)@.orphans,
    {
        self.members.push((sc, m, name));
        proof {
            assert(mview(self.members@) =~= mview(old(self).members@).push(
                (self.members@.last().0, self.members@.last().1, self.members@.last().2@)));
        }
    }

    /// Records an orphan declaration.
    pub fn push_orphan(&mut self, d: u32, name: String)
        ensures
            final(self)@.orphans == old(self)@.orphans.push((d, name@)),
            final(self)@.decisions == old(self)@.decisions,
            final(self)@.members == old(self)@.members,
    {
        self.orphans.push((d, name));
        proof {
            assert(oview(self.orphans@) =~= oview(old(self).orphans@).push(
                (self.orphans@.last().0, self.orphans@.last().1@)));
        }
    }

    /// Records one diagnostic line; the decided state is unchanged.
    pub fn log(&mut self, msg: &str)
        ensures
            final(self)@ == old(self)@,
    {
        self.diagnostics.push(msg.to_owned());
    }

    /// Records one diagnostic line carrying the declaration's packed
    /// reference value and the name context it was reached under, so the
    /// faulty declaration can be located; the decided state is unchanged.
    pub fn log_decl(&mut self, d: DeclIndex, context: &str, msg: &str)
        ensures
            final(self)@ == old(self)@,
    {
        let mut line: String = "declaration ".to_owned();
        let key = crate::names::dec_u32(d.0);
        line.append(key.as_str());
        line.append(" at ");
        line.append(context);
        line.append(": ");
        line.append(msg);
        self.diagnostics.push(line);
    }
}

/// Skipping entries that do not carry the key leaves the lookup unchanged.
proof fn lemma_dlookup_skip(s: Seq<(u32, DispV)>, k: u32, i: int)
    requires
        0 <= i <= s.len(),
        forall|j: int| 0 <= j < i ==> (#[trigger] s[j]).0 != k,
    ensures
        i < s.len() && s[i].0 == k ==> dlookup(s, k) == Some(s[i].1),
        i == s.len() ==> dlookup(s, k) is None,
    decreases s.len(),
{
    if s.len() > 0 {
        if s[0].0 == k {
        } else if i > 0 {
            lemma_dlookup_skip(s.drop_first(), k, i - 1);
            if i < s.len() && s[i].0 == k {
                assert(s.drop_first()[i - 1] == s[i]);
            }
        } else {
            lemma_dlookup_skip(s.drop_first(), k, 0);
        }
    }
}

/// Mathematical content of the walk's immutable context.
pub ghost struct CtxView {
    pub pv: PartsView,
    pub global_scope: u32,
    pub strings: Seq<u8>,
    pub globals: Seq<(Seq<char>, usize)>,
    pub crates: Seq<Seq<char>>,
    pub renamed: Seq<(u32, Seq<char>)>,
    pub tf_allow: Seq<CompiledPattern>,
    pub tf_block: Seq<CompiledPattern>,
    pub ff_allow: Seq<CompiledPattern>,
    pub ff_block: Seq<CompiledPattern>,
    pub vf_allow: Seq<CompiledPattern>,
    pub vf_block: Seq<CompiledPattern>,
}

/// Everything one closure run reads but never changes.
pub struct DiscoveryContext<'a> {
    pub ifc: &'a Ifc,
    pub symbol_map: &'a SymbolMap,
    pub renamed_decls: &'a Vec<(u32, String)>,
    pub type_filter: Filter<'a>,
    pub function_filter: Filter<'a>,
    pub variable_filter: Filter<'a>,
}

impl<'a> DiscoveryContext<'a> {
    /// The context as mathematical values.
    pub open spec fn cv(&self) -> CtxView {
        CtxView {
            pv: self.ifc.parts@,
            global_scope: self.ifc.file_header.global_scope,
            strings: self.ifc.spec_strings(),
            globals: sm_view(self.symbol_map.global_symbols@),
            crates: self.symbol_map.crates@.map_values(|c: String| c@),
            renamed: self.renamed_decls@.map_values(|p: (u32, String)| (p.0, p.1@)),
            tf_allow: self.type_filter.allowlist@,
            tf_block: self.type_filter.blocklist@,
            ff_allow: self.function_filter.allowlist@,
            ff_block: self.function_filter.blocklist@,
            vf_allow: self.variable_filter.allowlist@,
            vf_block: self.variable_filter.blocklist@,
        }
    }

    /// The context reads a sound container.
    pub open spec fn wf(&self) -> bool {
        self.ifc.wf()
    }
}

/// The crate that already defines a fully qualified name, if one does.
pub open spec fn spec_resolve(ctx: CtxView, name: Seq<char>) -> Option<Seq<char>> {
    match spec_lookup(ctx.globals, name) {
        Some(ix) => if ix < ctx.crates.len() {
            Some(ctx.crates[ix as int])
        } else {
            None
        },
        None => None,
    }
}

/// The replacement name recorded for a declaration, if any.
pub open spec fn spec_renamed(renamed: Seq<(u32, Seq<char>)>, k: u32) -> Option<Seq<char>>
    decreases renamed.len(),
{
    if renamed.len() == 0 {
        None
    } else if renamed[0].0 == k {
        Some(renamed[0].1)
    } else {
        spec_renamed(renamed.drop_first(), k)
    }
}

/// Skipping entries that do not carry the key leaves the lookup unchanged.
proof fn lemma_renamed_skip(s: Seq<(u32, Seq<char>)>, k: u32, i: int)
    requires
        0 <= i <= s.len(),
        forall|j: int| 0 <= j < i ==> (#[trigger] s[j]).0 != k,
    ensures
        i < s.len() && s[i].0 == k ==> spec_renamed(s, k) == Some(s[i].1),
        i == s.len() ==> spec_renamed(s, k) is None,
    decreases s.len(),
{
    if s.len() > 0 {
        if s[0].0 == k {
        } else if i > 0 {
            lemma_renamed_skip(s.drop_first(), k, i - 1);
            if i < s.len() && s[i].0 == k {
                assert(s.drop_first()[i - 1] == s[i]);
            }
        } else {
            lemma_renamed_skip(s.drop_first(), k, 0);
        }
    }
}

/// Looks up the replacement name recorded for a declaration.
fn renamed_lookup<'b>(renamed: &'b Vec<(u32, String)>, k: u32) -> (r: Option<&'b String>)
    ensures
        r matches Some(nm) ==> spec_renamed(
            renamed@.map_values(|p: (u32, String)| (p.0, p.1@)), k) == Some(nm@),
        r is None <==> spec_renamed(
            renamed@.map_values(|p: (u32, String)| (p.0, p.1@)), k) is None,
{
    let ghost rv = renamed@.map_values(|p: (u32, String)| (p.0, p.1@));
    let mut i: usize = 0;
    while i < renamed.len()
        invariant
            i <= renamed@.len(),
            rv == renamed@.map_values(|p: (u32, String)| (p.0, p.1@)),
            forall|j: int| 0 <= j < i ==> (#[trigger] rv[j]).0 != k,
        decreases renamed@.len() - i,
    {
        proof {
            assert(rv[i as int] == (renamed@[i as int].0, renamed@[i as int].1@));
        }
        if renamed[i].0 == k {
            proof {
                lemma_renamed_skip(rv, k, i as int);
            }
            return Some(&renamed[i].1);
        }
        i += 1;
    }
    proof {
        lemma_renamed_skip(rv, k, renamed@.len() as int);
    }
    None
}

/// Outcome of a step that may hit a structural fault: the state reached,
/// and whether the step ran to completion.
pub ghost struct EStep {
    pub st: StateView,
    pub ok: bool,
}

/// Outcome of walking one scope member: the state reached and the
/// anonymous-name counter after it.
pub ghost struct WStep {
    pub st: StateView,
    pub counter: u32,
}

/// Which dependency edges an included declaration contributes.
pub enum EmitKind {
    Alias(DeclAlias),
    Enumeration(DeclEnum),
    Scoped(DeclScope),
}

/// Whether checking a type for a fundamental basis would itself fault.
pub open spec fn spec_basis_check_faults(pv: PartsView, ty: TypeIndex) -> bool {
    TypeSort::spec_from_u32(ty.spec_tag()) == Some(TypeSort::FUNDAMENTAL)
        && ty.spec_index() >= pv.type_fundamental.len()
}

/// Whether a declaration already carries a name or a name request; a
/// pending declaration does not.
pub open spec fn spec_has_name_entry(decisions: Seq<(u32, DispV)>, k: u32) -> bool {
    match dlookup(decisions, k) {
        Some(DispV::Required) => true,
        Some(DispV::Included(_)) => true,
        _ => false,
    }
}

/// Registering a member: a fault if it is already registered under the
/// same home scope.
pub open spec fn spec_add_member_op(st: StateView, sc: u32, m: u32, name: Seq<char>) -> EStep {
    if spec_member_present(st.members, sc, m) {
        EStep { st, ok: false }
    } else {
        EStep { st: StateView { members: st.members.push((sc, m, name)), ..st }, ok: true }
    }
}

/// The state after one scope was walked: every member visited in order,
/// with a fresh per-scope counter for anonymous names. The step fails only
/// when the scope reference or its member range is unusable, or nesting
/// exceeded the depth bound.
pub open spec fn spec_walk_scope(
    ctx: CtxView,
    st: StateView,
    container: u32,
    cname: FqnV,
    depth: nat,
) -> EStep
    decreases depth, 0nat, 0nat,
{
    if container == 0 || depth == 0 {
        EStep { st, ok: false }
    } else {
        match spec_scope_members(ctx.pv, container) {
            Some(ms) => EStep {
                st: spec_walk_members(ctx, st, ms, cname, 0, (depth - 1) as nat).st,
                ok: true,
            },
            None => EStep { st, ok: false },
        }
    }
}

/// The state and counter after a run of members was walked in order; a
/// fault inside one member leaves that member's remaining effects out and
/// the walk continues.
pub open spec fn spec_walk_members(
    ctx: CtxView,
    st: StateView,
    ms: Seq<DeclIndex>,
    cname: FqnV,
    counter: u32,
    depth: nat,
) -> WStep
    decreases depth, 7nat, ms.len(),
{
    if ms.len() == 0 {
        WStep { st, counter }
    } else {
        let w = spec_walk_member(ctx, st, ms[0], cname, counter, depth);
        spec_walk_members(ctx, w.st, ms.drop_first(), cname, w.counter, depth)
    }
}

/// The state and counter after one member declaration was examined.
pub open spec fn spec_walk_member(
    ctx: CtxView,
    st: StateView,
    d: DeclIndex,
    cname: FqnV,
    counter: u32,
    depth: nat,
) -> WStep
    decreases depth, 6nat, 0nat,
{
    match DeclSort::spec_from_u32(d.spec_tag()) {
        Some(DeclSort::ALIAS) => if d.spec_index() < ctx.pv.decl_alias.len() {
            let a = ctx.pv.decl_alias[d.spec_index() as int];
            match spec_string_at(ctx.strings, a.name as int) {
                Some(nm0) => {
                    let fixed = spec_fixup_anon(nm0, counter);
                    let cn = spec_fqn_child(cname.full, fixed.0);
                    WStep {
                        st: spec_process_type(ctx, st, d, cn, EmitKind::Alias(a), depth).st,
                        counter: fixed.1,
                    }
                },
                None => WStep { st, counter },
            }
        } else {
            WStep { st, counter }
        },
        Some(DeclSort::FUNCTION) => if d.spec_index() < ctx.pv.decl_function.len() {
            let f = ctx.pv.decl_function[d.spec_index() as int];
            if NameSort::spec_from_u32(f.name.spec_tag()) == Some(NameSort::IDENTIFIER) {
                match spec_string_at(ctx.strings, f.name.spec_index() as int) {
                    Some(nm) => if nm == "_RTL_CONSTANT_STRING_type_check"@ {
                        WStep { st, counter }
                    } else {
                        let cn = spec_fqn_child(cname.full, nm);
                        match spec_resolve(ctx, cn.full) {
                            Some(ext) => WStep {
                                st: StateView {
                                    decisions: dinsert(st.decisions, d.0,
                                        DispV::Included(spec_rn_extern(ext, cn.full))),
                                    ..st
                                },
                                counter,
                            },
                            None => if spec_filter(ctx.ff_allow, ctx.ff_block, cn.full)
                                == FilteredState::Allowed {
                                let st1 = StateView {
                                    decisions: dinsert(st.decisions, d.0,
                                        DispV::Included(spec_rn_local(cn.full))),
                                    ..st
                                };
                                WStep {
                                    st: spec_add_function_emit(ctx, st1, d, f.home_scope.0,
                                        f.type_, nm, depth).st,
                                    counter,
                                }
                            } else {
                                WStep { st, counter }
                            },
                        }
                    },
                    None => WStep { st, counter },
                }
            } else {
                WStep { st, counter }
            }
        } else {
            WStep { st, counter }
        },
        Some(DeclSort::SCOPE) => if d.spec_index() < ctx.pv.decl_scope.len() {
            let sc = ctx.pv.decl_scope[d.spec_index() as int];
            let nm_opt = match spec_renamed(ctx.renamed, d.0) {
                Some(nm) => Some(nm),
                None => spec_string_at(ctx.strings, sc.name.spec_index() as int),
            };
            match nm_opt {
                Some(nm) => {
                    let cn = spec_fqn_child(cname.full, nm);
                    if spec_basis_check_faults(ctx.pv, sc.ty) {
                        WStep { st, counter }
                    } else if crate::query::spec_is_fund_basis(ctx.pv, sc.ty,
                        TypeBasis::NAMESPACE) {
                        let e = spec_walk_scope(ctx, st, sc.initializer, cn, depth);
                        if !e.ok {
                            WStep { st: e.st, counter }
                        } else {
                            let st1 = StateView {
                                decisions: dinsert(e.st.decisions, d.0,
                                    DispV::Included(spec_rn_local(cn.full))),
                                ..e.st
                            };
                            WStep {
                                st: spec_add_member_op(st1, sc.home_scope.0, d.0, nm).st,
                                counter,
                            }
                        }
                    } else {
                        WStep {
                            st: spec_process_type(ctx, st, d, cn, EmitKind::Scoped(sc),
                                depth).st,
                            counter,
                        }
                    }
                },
                None => WStep { st, counter },
            }
        } else {
            WStep { st, counter }
        },
        Some(DeclSort::ENUMERATION) => if d.spec_index() < ctx.pv.decl_enum.len() {
            let en = ctx.pv.decl_enum[d.spec_index() as int];
            match spec_string_at(ctx.strings, en.name as int) {
                Some(nm) => {
                    let cn = spec_fqn_child(cname.full, nm);
                    WStep {
                        st: spec_process_type(ctx, st, d, cn, EmitKind::Enumeration(en),
                            depth).st,
                        counter,
                    }
                },
                None => WStep { st, counter },
            }
        } else {
            WStep { st, counter }
        },
        Some(DeclSort::VARIABLE) => if d.spec_index() < ctx.pv.decl_var.len() {
            let v = ctx.pv.decl_var[d.spec_index() as int];
            if NameSort::spec_from_u32(v.name.spec_tag()) == Some(NameSort::IDENTIFIER) {
                match spec_string_at(ctx.strings, v.name.spec_index() as int) {
                    Some(nm) => {
                        let cn = spec_fqn_child(cname.full, nm);
                        match spec_resolve(ctx, cn.full) {
                            Some(ext) => WStep {
                                st: StateView {
                                    decisions: dinsert(st.decisions, d.0,
                                        DispV::Included(spec_rn_extern(ext, cn.full))),
                                    ..st
                                },
                                counter,
                            },
                            None => if spec_filter(ctx.vf_allow, ctx.vf_block, cn.full)
                                == FilteredState::Allowed {
                                let st1 = StateView {
                                    decisions: dinsert(st.decisions, d.0,
                                        DispV::Included(spec_rn_local(cn.full))),
                                    ..st
                                };
                                let e = spec_add_member_op(st1, v.home_scope.0, d.0, nm);
                                if !e.ok {
                                    WStep { st: e.st, counter }
                                } else {
                                    WStep {
                                        st: spec_include_type(ctx, e.st, v.ty, depth).st,
                                        counter,
                                    }
                                }
                            } else {
                                WStep { st, counter }
                            },
                        }
                    },
                    None => WStep { st, counter },
                }
            } else {
                WStep { st, counter }
            }
        } else {
            WStep { st, counter }
        },
        Some(DeclSort::FIELD) => if d.spec_index() < ctx.pv.decl_field.len() {
            let fd = ctx.pv.decl_field[d.spec_index() as int];
            match spec_string_at(ctx.strings, fd.name as int) {
                Some(nm) => {
                    let cn = spec_fqn_child(cname.full, nm);
                    let e = spec_add_member_op(st, fd.home_scope.0, d.0, nm);
                    if !e.ok {
                        WStep { st: e.st, counter }
                    } else {
                        let e2 = spec_include_type(ctx, e.st, fd.ty, depth);
                        if !e2.ok {
                            WStep { st: e2.st, counter }
                        } else {
                            WStep {
                                st: StateView {
                                    decisions: dinsert(e2.st.decisions, d.0,
                                        DispV::Included(spec_rn_local(cn.full))),
                                    ..e2.st
                                },
                                counter,
                            }
                        }
                    }
                },
                None => WStep { st, counter },
            }
        } else {
            WStep { st, counter }
        },
        _ => WStep { st, counter },
    }
}

/// The dependency edges of an included function: its return type, unless
/// null or void, and its parameter types.
pub open spec fn spec_add_function_emit(
    ctx: CtxView,
    st: StateView,
    d: DeclIndex,
    home_scope: u32,
    fty: TypeIndex,
    leaf: Seq<char>,
    depth: nat,
) -> EStep
    decreases depth, 5nat, 1nat,
{
    let e = spec_add_member_op(st, home_scope, d.0, leaf);
    if !e.ok {
        e
    } else if fty.spec_index() < ctx.pv.type_function.len() {
        let ft = ctx.pv.type_function[fty.spec_index() as int];
        if ft.target.0 != 0 && spec_basis_check_faults(ctx.pv, ft.target) {
            EStep { st: e.st, ok: false }
        } else {
            let e2 = if ft.target.0 != 0 && !crate::query::spec_is_fund_basis(ctx.pv,
                ft.target, TypeBasis::VOID) {
                spec_include_type(ctx, e.st, ft.target, depth)
            } else {
                EStep { st: e.st, ok: true }
            };
            if !e2.ok {
                e2
            } else if ft.source.0 != 0 {
                spec_include_type(ctx, e2.st, ft.source, depth)
            } else {
                e2
            }
        }
    } else {
        EStep { st: e.st, ok: false }
    }
}

/// The decision for one visited declaration: satisfied by a referenced
/// module; included locally when the filter allows it, or whatever the
/// filter says when a dependency edge already requires it; otherwise
/// deferred as pending, blocked names too, so a later dependency edge can
/// still reactivate it.
pub open spec fn spec_process_type(
    ctx: CtxView,
    st: StateView,
    d: DeclIndex,
    cname: FqnV,
    kind: EmitKind,
    depth: nat,
) -> EStep
    decreases depth, 5nat, 0nat,
{
    match spec_resolve(ctx, cname.full) {
        Some(ext) => EStep {
            st: StateView {
                decisions: dinsert(st.decisions, d.0,
                    DispV::Included(spec_rn_extern(ext, cname.full))),
                ..st
            },
            ok: true,
        },
        None => {
            let f = spec_filter(ctx.tf_allow, ctx.tf_block, cname.full);
            if f == FilteredState::Allowed || spec_has_name_entry(st.decisions, d.0) {
                let st1 = StateView {
                    decisions: dinsert(st.decisions, d.0,
                        DispV::Included(spec_rn_local(cname.full))),
                    ..st
                };
                spec_add_emit(ctx, st1, d, kind, cname, depth)
            } else {
                match dlookup(st.decisions, d.0) {
                    Some(DispV::Pending(_)) => EStep { st, ok: false },
                    _ => EStep {
                        st: StateView {
                            decisions: dinsert(st.decisions, d.0, DispV::Pending(cname)),
                            ..st
                        },
                        ok: true,
                    },
                }
            }
        },
    }
}

/// The dependency edges of one included declaration: an alias pulls in its
/// aliased type, an enumeration its storage type, a scope its bases and,
/// when it has a body, every member of its own nested scope.
pub open spec fn spec_add_emit(
    ctx: CtxView,
    st: StateView,
    d: DeclIndex,
    kind: EmitKind,
    cname: FqnV,
    depth: nat,
) -> EStep
    decreases depth, 4nat, 0nat,
{
    match kind {
        EmitKind::Alias(a) => {
            let e = spec_add_member_op(st, a.home_scope.0, d.0, cname.name);
            if !e.ok {
                e
            } else {
                let s2 = spec_include_decl(ctx, e.st, d, depth);
                spec_include_type(ctx, s2, a.aliasee, depth)
            }
        },
        EmitKind::Enumeration(en) => {
            let e = spec_add_member_op(st, en.home_scope.0, d.0, cname.name);
            if !e.ok {
                e
            } else {
                let s2 = spec_include_decl(ctx, e.st, d, depth);
                spec_include_type(ctx, s2, en.base, depth)
            }
        },
        EmitKind::Scoped(sc) => {
            let e = spec_add_member_op(st, sc.home_scope.0, d.0, cname.name);
            if !e.ok {
                e
            } else {
                let s2 = spec_include_decl(ctx, e.st, d, depth);
                let e3 = spec_include_type(ctx, s2, sc.base, depth);
                if !e3.ok {
                    e3
                } else if sc.initializer != 0 {
                    spec_walk_scope(ctx, e3.st, sc.initializer, cname, depth)
                } else {
                    e3
                }
            }
        },
    }
}

/// Requires a declaration as a dependency: an untouched declaration is
/// marked required, a pending one is promoted to included and its own
/// dependency edges are replayed, a decided one is left alone.
pub open spec fn spec_include_decl(ctx: CtxView, st: StateView, d: DeclIndex, depth: nat)
    -> StateView
    decreases depth, 3nat, 0nat,
{
    match dlookup(st.decisions, d.0) {
        Some(DispV::Pending(fqn)) => {
            let st1 = StateView {
                decisions: dinsert(st.decisions, d.0,
                    DispV::Included(spec_rn_local(fqn.full))),
                ..st
            };
            if depth == 0 {
                st1
            } else {
                match DeclSort::spec_from_u32(d.spec_tag()) {
                    Some(DeclSort::ALIAS) => if d.spec_index() < ctx.pv.decl_alias.len() {
                        spec_add_emit(ctx, st1, d,
                            EmitKind::Alias(ctx.pv.decl_alias[d.spec_index() as int]),
                            fqn, (depth - 1) as nat).st
                    } else {
                        st1
                    },
                    Some(DeclSort::SCOPE) => if d.spec_index() < ctx.pv.decl_scope.len() {
                        spec_add_emit(ctx, st1, d,
                            EmitKind::Scoped(ctx.pv.decl_scope[d.spec_index() as int]),
                            fqn, (depth - 1) as nat).st
                    } else {
                        st1
                    },
                    Some(DeclSort::ENUMERATION) => if d.spec_index()
                        < ctx.pv.decl_enum.len() {
                        spec_add_emit(ctx, st1, d,
                            EmitKind::Enumeration(ctx.pv.decl_enum[d.spec_index() as int]),
                            fqn, (depth - 1) as nat).st
                    } else {
                        st1
                    },
                    _ => st1,
                }
            }
        },
        Some(_) => st,
        None => StateView {
            decisions: dinsert(st.decisions, d.0, DispV::Required),
            ..st
        },
    }
}

/// Follows a type expression through qualifiers, pointers, references,
/// arrays, bases and tuples to every named declaration it mentions, and
/// requires each as a dependency.
pub open spec fn spec_include_type(ctx: CtxView, st: StateView, ty: TypeIndex, depth: nat)
    -> EStep
    decreases depth, 2nat, 0nat,
{
    if depth == 0 {
        EStep { st, ok: false }
    } else {
        match TypeSort::spec_from_u32(ty.spec_tag()) {
            Some(TypeSort::ARRAY) => if ty.spec_index() < ctx.pv.type_array.len() {
                spec_include_type(ctx, st, ctx.pv.type_array[ty.spec_index() as int].element,
                    (depth - 1) as nat)
            } else {
                EStep { st, ok: false }
            },
            Some(TypeSort::BASE) => if ty.spec_index() < ctx.pv.type_base.len() {
                spec_include_type(ctx, st, ctx.pv.type_base[ty.spec_index() as int].ty,
                    (depth - 1) as nat)
            } else {
                EStep { st, ok: false }
            },
            Some(TypeSort::DESIGNATED) => if ty.spec_index() < ctx.pv.type_designated.len() {
                EStep {
                    st: spec_include_decl(ctx, st,
                        ctx.pv.type_designated[ty.spec_index() as int], (depth - 1) as nat),
                    ok: true,
                }
            } else {
                EStep { st, ok: false }
            },
            Some(TypeSort::FUNDAMENTAL) => EStep { st, ok: true },
            Some(TypeSort::LVALUE_REFERENCE) => if ty.spec_index()
                < ctx.pv.type_lvalue_reference.len() {
                spec_include_type(ctx, st,
                    ctx.pv.type_lvalue_reference[ty.spec_index() as int], (depth - 1) as nat)
            } else {
                EStep { st, ok: false }
            },
            Some(TypeSort::POINTER) => if ty.spec_index() < ctx.pv.type_pointer.len() {
                spec_include_type(ctx, st, ctx.pv.type_pointer[ty.spec_index() as int],
                    (depth - 1) as nat)
            } else {
                EStep { st, ok: false }
            },
            Some(TypeSort::QUALIFIED) => if ty.spec_index() < ctx.pv.type_qualified.len() {
                spec_include_type(ctx, st,
                    ctx.pv.type_qualified[ty.spec_index() as int].unqualified_type,
                    (depth - 1) as nat)
            } else {
                EStep { st, ok: false }
            },
            Some(TypeSort::RVALUE_REFERENCE) => if ty.spec_index()
                < ctx.pv.type_rvalue_reference.len() {
                spec_include_type(ctx, st,
                    ctx.pv.type_rvalue_reference[ty.spec_index() as int], (depth - 1) as nat)
            } else {
                EStep { st, ok: false }
            },
            Some(TypeSort::TUPLE) => if ty.spec_index() < ctx.pv.type_tuple.len() {
                let t = ctx.pv.type_tuple[ty.spec_index() as int];
                spec_include_tuple(ctx, st, t.start as int, t.cardinality as int, depth)
            } else {
                EStep { st, ok: false }
            },
            Some(TypeSort::VENDOR_EXTENSION) => EStep { st, ok: true },
            _ => EStep { st, ok: false },
        }
    }
}

/// Requires each component type of a tuple in order.
pub open spec fn spec_include_tuple(ctx: CtxView, st: StateView, start: int, count: int,
    depth: nat) -> EStep
    decreases depth, 1nat, (if count > 0 { count } else { 0 }),
{
    if count <= 0 {
        EStep { st, ok: true }
    } else if depth == 0 {
        EStep { st, ok: false }
    } else if 0 <= start < ctx.pv.heap_type.len() {
        let e = spec_include_type(ctx, st, ctx.pv.heap_type[start], (depth - 1) as nat);
        if !e.ok {
            e
        } else {
            spec_include_tuple(ctx, e.st, start + 1, count - 1, depth)
        }
    } else {
        EStep { st, ok: false }
    }
}

/// A verified copy of a fully qualified name.
fn fqn_copy(f: &FullyQualifiedName) -> (r: FullyQualifiedName)
    ensures
        r@ == f@,
{
    FullyQualifiedName {
        name: f.name.as_str().to_owned(),
        container: f.container.as_str().to_owned(),
        full: f.full.as_str().to_owned(),
    }
}

/// A local resolved name for a path.
fn rn_local(path: &str) -> (r: ResolvedName)
    ensures
        r@ == spec_rn_local(path@),
{
    ResolvedName { extern_crate: None, path: path.to_owned() }
}

/// A resolved name rooted in a referenced crate.
fn rn_extern(ext: &str, path: &str) -> (r: ResolvedName)
    ensures
        r@ == spec_rn_extern(ext@, path@),
{
    ResolvedName { extern_crate: Some(ext.to_owned()), path: path.to_owned() }
}

/// The crate that already defines a fully qualified name, if one does.
fn resolve_name<'b>(ctx: &DiscoveryContext<'b>, name: &str) -> (r: Option<&'b String>)
    ensures
        r matches Some(c) ==> spec_resolve(ctx.cv(), name@) == Some(c@),
        r is None <==> spec_resolve(ctx.cv(), name@) is None,
{
    let r = ctx.symbol_map.resolve(name);
    proof {
        assert(ctx.cv().crates.len() == ctx.symbol_map.crates@.len());
        if spec_lookup(sm_view(ctx.symbol_map.global_symbols@), name@) is Some {
            let ix = spec_lookup(sm_view(ctx.symbol_map.global_symbols@), name@).unwrap();
            if ix < ctx.symbol_map.crates@.len() {
                assert(ctx.cv().crates[ix as int] == ctx.symbol_map.crates@[ix as int]@);
            }
        }
    }
    r
}

/// Registers a member of a home scope; a member registered twice under the
/// same scope is a structural fault.
fn add_member(st: &mut DiscoveryState, sc: u32, m: u32, name: &str) -> (r: Result<(), Error>)
    ensures
        ({
            let e = spec_add_member_op(old(st)@, sc, m, name@);
            final(st)@ == e.st && (r is Ok <==> e.ok)
        }),
{
    if st.has_member(sc, m) {
        st.log("duplicate member in one scope");
        Err(Error::bad("duplicate member in one scope"))
    } else {
        st.push_member(sc, m, name.to_owned());
        Ok(())
    }
}

/// Requires a declaration as a dependency, promoting a pending one.
fn include_declaration(st: &mut DiscoveryState, ctx: &DiscoveryContext<'_>, d: DeclIndex,
    depth: u32)
    requires
        ctx.wf(),
    ensures
        final(st)@ == spec_include_decl(ctx.cv(), old(st)@, d, depth as nat),
    decreases depth, 3int,
{
    let found: Option<FullyQualifiedName> = match st.get_decision(d.0) {
        Some(Disposition::Pending(f)) => Some(fqn_copy(f)),
        Some(_) => {
            return ;
        },
        None => None,
    };
    match found {
        Some(fqn) => {
            st.set_decision(d.0, Disposition::Included(rn_local(fqn.full.as_str())));
            if depth == 0 {
                st.log_decl(d, fqn.full.as_str(),
                    "dependency nesting exceeded the depth bound");
                return ;
            }
            match DeclSort::from_u32(d.tag()) {
                Some(DeclSort::ALIAS) => {
                    match ctx.ifc.decl_alias().entry(d.index()) {
                        Ok(a) => {
                            let a = *a;
                            let _ = add_emit(st, ctx, d, EmitKind::Alias(a), fqn, depth - 1);
                        },
                        Err(_) => {
                            st.log_decl(d, fqn.full.as_str(), "alias row is out of range");
                        },
                    }
                },
                Some(DeclSort::SCOPE) => {
                    match ctx.ifc.decl_scope().entry(d.index()) {
                        Ok(sc) => {
                            let sc = *sc;
                            let _ = add_emit(st, ctx, d, EmitKind::Scoped(sc), fqn,
                                depth - 1);
                        },
                        Err(_) => {
                            st.log_decl(d, fqn.full.as_str(), "scope row is out of range");
                        },
                    }
                },
                Some(DeclSort::ENUMERATION) => {
                    match ctx.ifc.decl_enum().entry(d.index()) {
                        Ok(en) => {
                            let en = *en;
                            let _ = add_emit(st, ctx, d, EmitKind::Enumeration(en), fqn,
                                depth - 1);
                        },
                        Err(_) => {
                            st.log_decl(d, fqn.full.as_str(),
                                "enumeration row is out of range");
                        },
                    }
                },
                _ => {
                    st.log_decl(d, fqn.full.as_str(),
                        "unexpected pending declaration kind");
                },
            }
        },
        None => {
            st.set_decision(d.0, Disposition::Required);
        },
    }
}

/// Follows a type expression to every named declaration it mentions.
fn include_type(st: &mut DiscoveryState, ctx: &DiscoveryContext<'_>, ty: TypeIndex,
    depth: u32) -> (r: Result<(), Error>)
    requires
        ctx.wf(),
    ensures
        ({
            let e = spec_include_type(ctx.cv(), old(st)@, ty, depth as nat);
            final(st)@ == e.st && (r is Ok <==> e.ok)
        }),
    decreases depth, 2int,
{
    if depth == 0 {
        return Err(Error::MaxDepthExceeded);
    }
    match TypeSort::from_u32(ty.tag()) {
        Some(TypeSort::ARRAY) => {
            match ctx.ifc.type_array().entry(ty.index()) {
                Ok(row) => {
                    let elem = row.element;
                    include_type(st, ctx, elem, depth - 1)
                },
                Err(e) => Err(e),
            }
        },
        Some(TypeSort::BASE) => {
            match ctx.ifc.type_base().entry(ty.index()) {
                Ok(row) => {
                    let t = row.ty;
                    include_type(st, ctx, t, depth - 1)
                },
                Err(e) => Err(e),
            }
        },
        Some(TypeSort::DESIGNATED) => {
            match ctx.ifc.type_designated().entry(ty.index()) {
                Ok(row) => {
                    let dd = *row;
                    include_declaration(st, ctx, dd, depth - 1);
                    Ok(())
                },
                Err(e) => Err(e),
            }
        },
        Some(TypeSort::FUNDAMENTAL) => Ok(()),
        Some(TypeSort::LVALUE_REFERENCE) => {
            match ctx.ifc.type_lvalue_reference().entry(ty.index()) {
                Ok(row) => {
                    let t = *row;
                    include_type(st, ctx, t, depth - 1)
                },
                Err(e) => Err(e),
            }
        },
        Some(TypeSort::POINTER) => {
            match ctx.ifc.type_pointer().entry(ty.index()) {
                Ok(row) => {
                    let t = *row;
                    include_type(st, ctx, t, depth - 1)
                },
                Err(e) => Err(e),
            }
        },
        Some(TypeSort::QUALIFIED) => {
            match ctx.ifc.type_qualified().entry(ty.index()) {
                Ok(row) => {
                    let t = row.unqualified_type;
                    include_type(st, ctx, t, depth - 1)
                },
                Err(e) => Err(e),
            }
        },
        Some(TypeSort::RVALUE_REFERENCE) => {
            match ctx.ifc.type_rvalue_reference().entry(ty.index()) {
                Ok(row) => {
                    let t = *row;
                    include_type(st, ctx, t, depth - 1)
                },
                Err(e) => Err(e),
            }
        },
        Some(TypeSort::TUPLE) => {
            match ctx.ifc.type_tuple().entry(ty.index()) {
                Ok(row) => {
                    let t = *row;
                    include_tuple(st, ctx, t.start, t.cardinality, depth)
                },
                Err(e) => Err(e),
            }
        },
        Some(TypeSort::VENDOR_EXTENSION) => Ok(()),
        _ => Err(Error::bad("type shape is not supported here")),
    }
}

/// Requires each component type of a tuple in order.
fn include_tuple(st: &mut DiscoveryState, ctx: &DiscoveryContext<'_>, start: u32, count: u32,
    depth: u32) -> (r: Result<(), Error>)
    requires
        ctx.wf(),
    ensures
        ({
            let e = spec_include_tuple(ctx.cv(), old(st)@, start as int, count as int,
                depth as nat);
            final(st)@ == e.st && (r is Ok <==> e.ok)
        }),
    decreases depth, 1int,
{
    let ghost ctxv = ctx.cv();
    let ghost st0 = st@;
    let heap_len: usize = ctx.ifc.heap_type().entries.len();
    let mut k: u32 = 0;
    while k < count
        invariant
            ctx.wf(),
            ctxv == ctx.cv(),
            k <= count,
            heap_len == ctx.cv().pv.heap_type.len(),
            st0 == old(st)@,
            spec_include_tuple(ctxv, st0, start as int, count as int, depth as nat)
                == spec_include_tuple(ctxv, st@, start + k, count - k, depth as nat),
        decreases count - k,
    {
        if depth == 0 {
            return Err(Error::MaxDepthExceeded);
        }
        if (start as u64 + k as u64) >= heap_len as u64 {
            st.log("tuple component is out of range of the type heap");
            return Err(Error::bad("tuple component is out of range of the type heap"));
        }
        let hk: usize = (start as u64 + k as u64) as usize;
        let elem: TypeIndex = ctx.ifc.heap_type().entries[hk];
        match include_type(st, ctx, elem, depth - 1) {
            Ok(()) => {},
            Err(e) => {
                return Err(e);
            },
        }
        k += 1;
    }
    Ok(())
}

/// The dependency edges of one included declaration.
fn add_emit(st: &mut DiscoveryState, ctx: &DiscoveryContext<'_>, d: DeclIndex,
    kind: EmitKind, cname: FullyQualifiedName, depth: u32) -> (r: Result<(), Error>)
    requires
        ctx.wf(),
    ensures
        ({
            let e = spec_add_emit(ctx.cv(), old(st)@, d, kind, cname@, depth as nat);
            final(st)@ == e.st && (r is Ok <==> e.ok)
        }),
    decreases depth, 4int,
{
    match kind {
        EmitKind::Alias(a) => {
            match add_member(st, a.home_scope.0, d.0, cname.name.as_str()) {
                Ok(()) => {},
                Err(e) => {
                    return Err(e);
                },
            }
            include_declaration(st, ctx, d, depth);
            include_type(st, ctx, a.aliasee, depth)
        },
        EmitKind::Enumeration(en) => {
            match add_member(st, en.home_scope.0, d.0, cname.name.as_str()) {
                Ok(()) => {},
                Err(e) => {
                    return Err(e);
                },
            }
            include_declaration(st, ctx, d, depth);
            include_type(st, ctx, en.base, depth)
        },
        EmitKind::Scoped(sc) => {
            match add_member(st, sc.home_scope.0, d.0, cname.name.as_str()) {
                Ok(()) => {},
                Err(e) => {
                    return Err(e);
                },
            }
            include_declaration(st, ctx, d, depth);
            match include_type(st, ctx, sc.base, depth) {
                Ok(()) => {},
                Err(e) => {
                    return Err(e);
                },
            }
            if sc.initializer != 0 {
                walk_scope(st, ctx, sc.initializer, &cname, depth)
            } else {
                Ok(())
            }
        },
    }
}

/// Decides one visited declaration and pulls in its dependency edges.
fn process_type(st: &mut DiscoveryState, ctx: &DiscoveryContext<'_>, d: DeclIndex,
    cname: FullyQualifiedName, kind: EmitKind, depth: u32) -> (r: Result<(), Error>)
    requires
        ctx.wf(),
    ensures
        ({
            let e = spec_process_type(ctx.cv(), old(st)@, d, cname@, kind, depth as nat);
            final(st)@ == e.st && (r is Ok <==> e.ok)
        }),
    decreases depth, 5int, 0int,
{
    match resolve_name(ctx, cname.full.as_str()) {
        Some(ext) => {
            let rn = rn_extern(ext.as_str(), cname.full.as_str());
            st.set_decision(d.0, Disposition::Included(rn));
            Ok(())
        },
        None => {
            let f = ctx.type_filter.filter(cname.full.as_str());
            let present = matches!(st.get_decision(d.0),
                Some(Disposition::Required) | Some(Disposition::Included(_)));
            if f.is_allowed() || present {
                st.set_decision(d.0, Disposition::Included(rn_local(cname.full.as_str())));
                add_emit(st, ctx, d, kind, cname, depth)
            } else {
                if matches!(st.get_decision(d.0), Some(Disposition::Pending(_))) {
                    st.log_decl(d, cname.full.as_str(), "declaration was deferred twice");
                    Err(Error::bad("declaration was deferred twice"))
                } else {
                    st.set_decision(d.0, Disposition::Pending(cname));
                    Ok(())
                }
            }
        },
    }
}

/// The dependency edges of an included free function.
fn add_function_emit(st: &mut DiscoveryState, ctx: &DiscoveryContext<'_>, d: DeclIndex,
    home_scope: u32, fty: TypeIndex, leaf: &str, depth: u32) -> (r: Result<(), Error>)
    requires
        ctx.wf(),
    ensures
        ({
            let e = spec_add_function_emit(ctx.cv(), old(st)@, d, home_scope, fty, leaf@,
                depth as nat);
            final(st)@ == e.st && (r is Ok <==> e.ok)
        }),
    decreases depth, 5int, 1int,
{
    match add_member(st, home_scope, d.0, leaf) {
        Ok(()) => {},
        Err(e) => {
            return Err(e);
        },
    }
    let ft = *match ctx.ifc.type_function().entry(fty.index()) {
        Ok(v) => v,
        Err(e) => {
            return Err(e);
        },
    };
    if ft.target.0 != 0 {
        let is_void = match ctx.ifc.is_void_type(ft.target) {
            Ok(b) => b,
            Err(e) => {
                return Err(e);
            },
        };
        if !is_void {
            match include_type(st, ctx, ft.target, depth) {
                Ok(()) => {},
                Err(e) => {
                    return Err(e);
                },
            }
        }
    }
    if ft.source.0 != 0 {
        include_type(st, ctx, ft.source, depth)
    } else {
        Ok(())
    }
}

/// Examines one member declaration of a scope; a structural fault inside it
/// is recorded and the member is left out.
fn walk_member(st: &mut DiscoveryState, ctx: &DiscoveryContext<'_>, d: DeclIndex,
    cname: &FullyQualifiedName, counter: u32, depth: u32) -> (r: u32)
    requires
        ctx.wf(),
    ensures
        ({
            let w = spec_walk_member(ctx.cv(), old(st)@, d, cname@, counter, depth as nat);
            final(st)@ == w.st && r == w.counter
        }),
    decreases depth, 6int,
{
    match DeclSort::from_u32(d.tag()) {
        Some(DeclSort::ALIAS) => {
            let a = match ctx.ifc.decl_alias().entry(d.index()) {
                Ok(v) => *v,
                Err(_) => {
                    st.log_decl(d, cname.full.as_str(), "alias row is out of range");
                    return counter;
                },
            };
            let nm0 = match ctx.ifc.get_string(a.name) {
                Ok(s) => s,
                Err(_) => {
                    st.log_decl(d, cname.full.as_str(),
                        "alias name is not in the string table");
                    return counter;
                },
            };
            let mut nm: String = nm0.to_owned();
            let mut c: u32 = counter;
            fixup_anon_names(&mut nm, &mut c);
            let cn = cname.make_child(nm.as_str());
            let cn_full: String = cn.full.as_str().to_owned();
            match process_type(st, ctx, d, cn, EmitKind::Alias(a), depth) {
                Ok(()) => {},
                Err(_) => {
                    st.log_decl(d, cn_full.as_str(), "alias could not be processed");
                },
            }
            c
        },
        Some(DeclSort::FUNCTION) => {
            let f = match ctx.ifc.decl_function().entry(d.index()) {
                Ok(v) => *v,
                Err(_) => {
                    st.log_decl(d, cname.full.as_str(), "function row is out of range");
                    return counter;
                },
            };
            if !matches!(NameSort::from_u32(f.name.tag()), Some(NameSort::IDENTIFIER)) {
                return counter;
            }
            let nm = match ctx.ifc.get_string(f.name.index()) {
                Ok(s) => s,
                Err(_) => {
                    st.log_decl(d, cname.full.as_str(),
                        "function name is not in the string table");
                    return counter;
                },
            };
            if crate::bytes::str_eq(nm, "_RTL_CONSTANT_STRING_type_check") {
                return counter;
            }
            let cn = cname.make_child(nm);
            match resolve_name(ctx, cn.full.as_str()) {
                Some(ext) => {
                    let rn = rn_extern(ext.as_str(), cn.full.as_str());
                    st.set_decision(d.0, Disposition::Included(rn));
                },
                None => {
                    if ctx.function_filter.filter(cn.full.as_str()).is_allowed() {
                        st.set_decision(d.0,
                            Disposition::Included(rn_local(cn.full.as_str())));
                        match add_function_emit(st, ctx, d, f.home_scope.0, f.type_,
                            cn.name.as_str(), depth) {
                            Ok(()) => {},
                            Err(_) => {
                                st.log_decl(d, cn.full.as_str(),
                                    "function dependencies could not be included");
                            },
                        }
                    }
                },
            }
            counter
        },
        Some(DeclSort::SCOPE) => {
            let sc = match ctx.ifc.decl_scope().entry(d.index()) {
                Ok(v) => *v,
                Err(_) => {
                    st.log_decl(d, cname.full.as_str(), "scope row is out of range");
                    return counter;
                },
            };
            let nm: String = match renamed_lookup(ctx.renamed_decls, d.0) {
                Some(id) => id.as_str().to_owned(),
                None => {
                    match ctx.ifc.get_string(sc.name.index()) {
                        Ok(s) => s.to_owned(),
                        Err(_) => {
                            st.log_decl(d, cname.full.as_str(),
                                "scope name is not in the string table");
                            return counter;
                        },
                    }
                },
            };
            let cn = cname.make_child(nm.as_str());
            let is_ns = match ctx.ifc.is_type_namespace(sc.ty) {
                Ok(b) => b,
                Err(_) => {
                    st.log_decl(d, cn.full.as_str(), "scope type row is out of range");
                    return counter;
                },
            };
            if is_ns {
                match walk_scope(st, ctx, sc.initializer, &cn, depth) {
                    Ok(()) => {
                        st.set_decision(d.0,
                            Disposition::Included(rn_local(cn.full.as_str())));
                        match add_member(st, sc.home_scope.0, d.0, cn.name.as_str()) {
                            Ok(()) => {},
                            Err(_) => {
                                st.log_decl(d, cn.full.as_str(),
                                    "namespace was registered twice");
                            },
                        }
                    },
                    Err(_) => {
                        st.log_decl(d, cn.full.as_str(),
                            "namespace scope could not be walked");
                    },
                }
            } else {
                let cn_full: String = cn.full.as_str().to_owned();
                match process_type(st, ctx, d, cn, EmitKind::Scoped(sc), depth) {
                    Ok(()) => {},
                    Err(_) => {
                        st.log_decl(d, cn_full.as_str(),
                            "nested type could not be processed");
                    },
                }
            }
            counter
        },
        Some(DeclSort::ENUMERATION) => {
            let en = match ctx.ifc.decl_enum().entry(d.index()) {
                Ok(v) => *v,
                Err(_) => {
                    st.log_decl(d, cname.full.as_str(), "enumeration row is out of range");
                    return counter;
                },
            };
            let nm = match ctx.ifc.get_string(en.name) {
                Ok(s) => s,
                Err(_) => {
                    st.log_decl(d, cname.full.as_str(),
                        "enumeration name is not in the string table");
                    return counter;
                },
            };
            let cn = cname.make_child(nm);
            let cn_full: String = cn.full.as_str().to_owned();
            match process_type(st, ctx, d, cn, EmitKind::Enumeration(en), depth) {
                Ok(()) => {},
                Err(_) => {
                    st.log_decl(d, cn_full.as_str(),
                        "enumeration could not be processed");
                },
            }
            counter
        },
        Some(DeclSort::VARIABLE) => {
            let v = match ctx.ifc.decl_var().entry(d.index()) {
                Ok(x) => *x,
                Err(_) => {
                    st.log_decl(d, cname.full.as_str(), "variable row is out of range");
                    return counter;
                },
            };
            if !matches!(NameSort::from_u32(v.name.tag()), Some(NameSort::IDENTIFIER)) {
                return counter;
            }
            let nm = match ctx.ifc.get_string(v.name.index()) {
                Ok(s) => s,
                Err(_) => {
                    st.log_decl(d, cname.full.as_str(),
                        "variable name is not in the string table");
                    return counter;
                },
            };
            let cn = cname.make_child(nm);
            match resolve_name(ctx, cn.full.as_str()) {
                Some(ext) => {
                    let rn = rn_extern(ext.as_str(), cn.full.as_str());
                    st.set_decision(d.0, Disposition::Included(rn));
                },
                None => {
                    if ctx.variable_filter.filter(cn.full.as_str()).is_allowed() {
                        st.set_decision(d.0,
                            Disposition::Included(rn_local(cn.full.as_str())));
                        match add_member(st, v.home_scope.0, d.0, cn.name.as_str()) {
                            Ok(()) => {
                                match include_type(st, ctx, v.ty, depth) {
                                    Ok(()) => {},
                                    Err(_) => {
                                        st.log_decl(d, cn.full.as_str(),
                                            "variable type could not be included");
                                    },
                                }
                            },
                            Err(_) => {
                                st.log_decl(d, cn.full.as_str(),
                                    "variable was registered twice");
                            },
                        }
                    }
                },
            }
            counter
        },
        Some(DeclSort::FIELD) => {
            let fd = match ctx.ifc.decl_field().entry(d.index()) {
                Ok(v) => *v,
                Err(_) => {
                    st.log_decl(d, cname.full.as_str(), "field row is out of range");
                    return counter;
                },
            };
            let nm = match ctx.ifc.get_string(fd.name) {
                Ok(s) => s,
                Err(_) => {
                    st.log_decl(d, cname.full.as_str(),
                        "field name is not in the string table");
                    return counter;
                },
            };
            let cn = cname.make_child(nm);
            match add_member(st, fd.home_scope.0, d.0, cn.name.as_str()) {
                Ok(()) => {
                    match include_type(st, ctx, fd.ty, depth) {
                        Ok(()) => {
                            st.set_decision(d.0,
                                Disposition::Included(rn_local(cn.full.as_str())));
                        },
                        Err(_) => {
                            st.log_decl(d, cn.full.as_str(),
                                "field type could not be included");
                        },
                    }
                },
                Err(_) => {
                    st.log_decl(d, cn.full.as_str(), "field was registered twice");
                },
            }
            counter
        },
        _ => counter,
    }
}

/// Walks one scope: every member is examined in order, with a fresh
/// per-scope counter for anonymous names.
pub fn walk_scope(st: &mut DiscoveryState, ctx: &DiscoveryContext<'_>,
    container: ScopeIndex, cname: &FullyQualifiedName, depth: u32) -> (r: Result<(), Error>)
    requires
        ctx.wf(),
    ensures
        ({
            let e = spec_walk_scope(ctx.cv(), old(st)@, container, cname@, depth as nat);
            final(st)@ == e.st && (r is Ok <==> e.ok)
        }),
    decreases depth, 0int,
{
    if container == 0 || depth == 0 {
        return Err(Error::bad("scope reference is unusable"));
    }
    let it = match ctx.ifc.iter_scope(container) {
        Ok(it) => it,
        Err(e) => {
            return Err(e);
        },
    };
    let members = it.members;
    let ghost ms = members@;
    let ghost ctxv = ctx.cv();
    let ghost st0 = st@;
    proof {
        assert(ms.skip(0) =~= ms);
    }
    let mut counter: u32 = 0;
    let mut k: usize = 0;
    while k < members.len()
        invariant
            ctx.wf(),
            ctxv == ctx.cv(),
            k <= members@.len(),
            members@ == ms,
            depth >= 1,
            container != 0,
            spec_scope_members(ctxv.pv, container) == Some(ms),
            st0 == old(st)@,
            spec_walk_members(ctxv, st0, ms, cname@, 0, (depth - 1) as nat)
                == spec_walk_members(ctxv, st@, ms.skip(k as int), cname@, counter,
                    (depth - 1) as nat),
        decreases members@.len() - k,
    {
        let d = members[k];
        proof {
            assert(ms.skip(k as int)[0] == ms[k as int]);
            assert(ms.skip(k as int).drop_first() =~= ms.skip(k as int + 1));
        }
        counter = walk_member(st, ctx, d, cname, counter, depth - 1);
        k += 1;
    }
    proof {
        assert(ms.skip(ms.len() as int) =~= Seq::<DeclIndex>::empty());
    }
    Ok(())
}

/// Outcome of marking scopes reachable from the root: which scope rows were
/// seen, and whether the search ran to completion.
pub ghost struct FStep {
    pub found: Seq<bool>,
    pub ok: bool,
}

/// Marks every scope row reachable from one scope, recursing into bodies.
pub open spec fn spec_search_scope(ctx: CtxView, found: Seq<bool>, scope: u32, depth: nat)
    -> FStep
    decreases depth, 0nat, 0nat,
{
    if scope == 0 || depth == 0 {
        FStep { found, ok: false }
    } else {
        match spec_scope_members(ctx.pv, scope) {
            Some(ms) => spec_search_members(ctx, found, ms, (depth - 1) as nat),
            None => FStep { found, ok: false },
        }
    }
}

/// Marks the scope rows reachable through a run of members.
pub open spec fn spec_search_members(ctx: CtxView, found: Seq<bool>, ms: Seq<DeclIndex>,
    depth: nat) -> FStep
    decreases depth, 1nat, ms.len(),
{
    if ms.len() == 0 {
        FStep { found, ok: true }
    } else {
        let d = ms[0];
        match DeclSort::spec_from_u32(d.spec_tag()) {
            Some(DeclSort::SCOPE) => if d.spec_index() < ctx.pv.decl_scope.len()
                && d.spec_index() < found.len() {
                if found[d.spec_index() as int] {
                    spec_search_members(ctx, found, ms.drop_first(), depth)
                } else {
                    let f2 = found.update(d.spec_index() as int, true);
                    let sc = ctx.pv.decl_scope[d.spec_index() as int];
                    if sc.initializer != 0 {
                        let e = spec_search_scope(ctx, f2, sc.initializer, depth);
                        if !e.ok {
                            FStep { found: e.found, ok: false }
                        } else {
                            spec_search_members(ctx, e.found, ms.drop_first(), depth)
                        }
                    } else {
                        spec_search_members(ctx, f2, ms.drop_first(), depth)
                    }
                }
            } else {
                FStep { found, ok: false }
            },
            Some(DeclSort::FUNCTION) | Some(DeclSort::FIELD) | Some(DeclSort::ALIAS)
                | Some(DeclSort::TEMPLATE) | Some(DeclSort::EXPLICIT_INSTANTIATION)
                | Some(DeclSort::EXPLICIT_SPECIALIZATION)
                | Some(DeclSort::PARTIAL_SPECIALIZATION)
                | Some(DeclSort::USING_DECLARATION) | Some(DeclSort::ENUMERATOR)
                | Some(DeclSort::ENUMERATION) | Some(DeclSort::VARIABLE)
                | Some(DeclSort::CONSTRUCTOR) | Some(DeclSort::METHOD)
                | Some(DeclSort::DESTRUCTOR) | Some(DeclSort::INTRINSIC)
                | Some(DeclSort::BITFIELD) => spec_search_members(ctx, found,
                ms.drop_first(), depth),
            _ => FStep { found, ok: false },
        }
    }
}

/// Decides one orphan candidate: a forward-declared scope never seen while
/// walking; when it is included, it is recorded in the orphan list.
pub open spec fn spec_process_orphan(ctx: CtxView, st: StateView, d: DeclIndex, cname: FqnV,
    sc: DeclScope, depth: nat) -> EStep
    decreases depth, 5nat, 2nat,
{
    match spec_resolve(ctx, cname.full) {
        Some(ext) => EStep {
            st: StateView {
                decisions: dinsert(st.decisions, d.0,
                    DispV::Included(spec_rn_extern(ext, cname.full))),
                ..st
            },
            ok: true,
        },
        None => {
            let f = spec_filter(ctx.tf_allow, ctx.tf_block, cname.full);
            if f == FilteredState::Allowed || spec_has_name_entry(st.decisions, d.0) {
                let st1 = StateView {
                    decisions: dinsert(st.decisions, d.0,
                        DispV::Included(spec_rn_local(cname.full))),
                    orphans: st.orphans.push((d.0, cname.name)),
                    ..st
                };
                let s2 = spec_include_decl(ctx, st1, d, depth);
                let e3 = spec_include_type(ctx, s2, sc.base, depth);
                if !e3.ok {
                    e3
                } else if sc.initializer != 0 {
                    spec_walk_scope(ctx, e3.st, sc.initializer, cname, depth)
                } else {
                    e3
                }
            } else {
                match dlookup(st.decisions, d.0) {
                    Some(DispV::Pending(_)) => EStep { st, ok: false },
                    _ => EStep {
                        st: StateView {
                            decisions: dinsert(st.decisions, d.0, DispV::Pending(cname)),
                            ..st
                        },
                        ok: true,
                    },
                }
            }
        },
    }
}

/// Visits every scope row from `i` on: one not seen while walking and
/// without a body is an orphan candidate.
pub open spec fn spec_orphan_loop(ctx: CtxView, st: StateView, found: Seq<bool>, i: int)
    -> StateView
    decreases ctx.pv.decl_scope.len() - i,
{
    if i < 0 || i >= ctx.pv.decl_scope.len() {
        st
    } else {
        let st2 = if i < found.len() && !found[i] && i < 0x0800_0000 {
            let d = DeclIndex((0x06 + i * 32) as u32);
            let sc = ctx.pv.decl_scope[i];
            match spec_string_at(ctx.strings, sc.name.spec_index() as int) {
                Some(nm) => {
                    let cn = spec_fqn_child(Seq::empty(), nm);
                    if sc.initializer == 0 {
                        spec_process_orphan(ctx, st, d, cn, sc, MAX_WALK_DEPTH as nat).st
                    } else {
                        st
                    }
                },
                None => st,
            }
        } else {
            st
        };
        spec_orphan_loop(ctx, st2, found, i + 1)
    }
}

/// The state after orphan detection: a declaration reachable only as a
/// dependency, never as a member of a walked scope, is recorded exactly
/// once as an orphan.
pub open spec fn spec_find_orphans(ctx: CtxView, st: StateView) -> StateView {
    let found0 = Seq::new(ctx.pv.decl_scope.len(), |i: int| false);
    let fs = if ctx.global_scope != 0 {
        spec_search_scope(ctx, found0, ctx.global_scope, MAX_WALK_DEPTH as nat)
    } else {
        FStep { found: found0, ok: true }
    };
    spec_orphan_loop(ctx, st, fs.found, 0)
}

/// The whole closure run: the global namespace is pre-included under the
/// empty name, its scope is walked, and orphans are detected.
pub open spec fn spec_walk_global(ctx: CtxView) -> StateView {
    let st0 = StateView {
        decisions: Seq::empty().push((0u32, DispV::Included(spec_rn_local(Seq::empty())))),
        members: Seq::empty(),
        orphans: Seq::empty(),
    };
    let st1 = if ctx.global_scope != 0 {
        spec_walk_scope(ctx, st0, ctx.global_scope, spec_fqn_global(),
            MAX_WALK_DEPTH as nat).st
    } else {
        st0
    };
    spec_find_orphans(ctx, st1)
}

/// Marks every scope row reachable from one scope.
fn search_scope(found: &mut Vec<bool>, ctx: &DiscoveryContext<'_>, scope: ScopeIndex,
    depth: u32) -> (r: Result<(), Error>)
    requires
        ctx.wf(),
    ensures
        ({
            let e = spec_search_scope(ctx.cv(), old(found)@, scope, depth as nat);
            final(found)@ == e.found && (r is Ok <==> e.ok)
        }),
    decreases depth, 1int,
{
    if scope == 0 || depth == 0 {
        return Err(Error::bad("scope reference is unusable"));
    }
    let it = match ctx.ifc.iter_scope(scope) {
        Ok(it) => it,
        Err(e) => {
            return Err(e);
        },
    };
    let members = it.members;
    let ghost ms = members@;
    let ghost ctxv = ctx.cv();
    let ghost f0 = found@;
    proof {
        assert(ms.skip(0) =~= ms);
    }
    let mut k: usize = 0;
    while k < members.len()
        invariant
            ctx.wf(),
            ctxv == ctx.cv(),
            k <= members@.len(),
            members@ == ms,
            depth >= 1,
            scope != 0,
            spec_scope_members(ctxv.pv, scope) == Some(ms),
            f0 == old(found)@,
            spec_search_members(ctxv, f0, ms, (depth - 1) as nat)
                == spec_search_members(ctxv, found@, ms.skip(k as int), (depth - 1) as nat),
        decreases members@.len() - k,
    {
        let d = members[k];
        proof {
            assert(ms.skip(k as int)[0] == ms[k as int]);
            assert(ms.skip(k as int).drop_first() =~= ms.skip(k as int + 1));
        }
        match DeclSort::from_u32(d.tag()) {
            Some(DeclSort::SCOPE) => {
                let sc = match ctx.ifc.decl_scope().entry(d.index()) {
                    Ok(v) => *v,
                    Err(e) => {
                        return Err(e);
                    },
                };
                if (d.index() as usize) >= found.len() {
                    return Err(Error::bad("scope mark table is shorter than the partition"));
                }
                if !found[d.index() as usize] {
                    found.set(d.index() as usize, true);
                    if sc.initializer != 0 {
                        match search_scope(found, ctx, sc.initializer, depth - 1) {
                            Ok(()) => {},
                            Err(e) => {
                                return Err(e);
                            },
                        }
                    }
                }
            },
            Some(DeclSort::FUNCTION) | Some(DeclSort::FIELD) | Some(DeclSort::ALIAS)
                | Some(DeclSort::TEMPLATE) | Some(DeclSort::EXPLICIT_INSTANTIATION)
                | Some(DeclSort::EXPLICIT_SPECIALIZATION)
                | Some(DeclSort::PARTIAL_SPECIALIZATION)
                | Some(DeclSort::USING_DECLARATION) | Some(DeclSort::ENUMERATOR)
                | Some(DeclSort::ENUMERATION) | Some(DeclSort::VARIABLE)
                | Some(DeclSort::CONSTRUCTOR) | Some(DeclSort::METHOD)
                | Some(DeclSort::DESTRUCTOR) | Some(DeclSort::INTRINSIC)
                | Some(DeclSort::BITFIELD) => {},
            _ => {
                return Err(Error::bad("scope member kind is not recognized here"));
            },
        }
        k += 1;
    }
    proof {
        assert(ms.skip(ms.len() as int) =~= Seq::<DeclIndex>::empty());
    }
    Ok(())
}

/// Decides one orphan candidate.
fn process_orphan(st: &mut DiscoveryState, ctx: &DiscoveryContext<'_>, d: DeclIndex,
    cname: FullyQualifiedName, sc: DeclScope, depth: u32) -> (r: Result<(), Error>)
    requires
        ctx.wf(),
    ensures
        ({
            let e = spec_process_orphan(ctx.cv(), old(st)@, d, cname@, sc, depth as nat);
            final(st)@ == e.st && (r is Ok <==> e.ok)
        }),
    decreases depth, 5int, 2int,
{
    match resolve_name(ctx, cname.full.as_str()) {
        Some(ext) => {
            let rn = rn_extern(ext.as_str(), cname.full.as_str());
            st.set_decision(d.0, Disposition::Included(rn));
            Ok(())
        },
        None => {
            let f = ctx.type_filter.filter(cname.full.as_str());
            let present = matches!(st.get_decision(d.0),
                Some(Disposition::Required) | Some(Disposition::Included(_)));
            if f.is_allowed() || present {
                st.set_decision(d.0, Disposition::Included(rn_local(cname.full.as_str())));
                st.push_orphan(d.0, cname.name.as_str().to_owned());
                include_declaration(st, ctx, d, depth);
                match include_type(st, ctx, sc.base, depth) {
                    Ok(()) => {},
                    Err(e) => {
                        return Err(e);
                    },
                }
                if sc.initializer != 0 {
                    walk_scope(st, ctx, sc.initializer, &cname, depth)
                } else {
                    Ok(())
                }
            } else {
                if matches!(st.get_decision(d.0), Some(Disposition::Pending(_))) {
                    st.log_decl(d, cname.full.as_str(), "declaration was deferred twice");
                    Err(Error::bad("declaration was deferred twice"))
                } else {
                    st.set_decision(d.0, Disposition::Pending(cname));
                    Ok(())
                }
            }
        },
    }
}

/// Finds declarations reachable only as dependencies: scope rows never seen
/// while walking, without a body, become free-standing orphans.
pub fn find_orphans(st: &mut DiscoveryState, ctx: &DiscoveryContext<'_>)
    requires
        ctx.wf(),
    ensures
        final(st)@ == spec_find_orphans(ctx.cv(), old(st)@),
{
    let ghost ctxv = ctx.cv();
    let ghost st0 = st@;
    let n: usize = ctx.ifc.decl_scope().entries.len();
    let mut found: Vec<bool> = Vec::new();
    let mut j: usize = 0;
    while j < n
        invariant
            j <= n,
            found@.len() == j,
            forall|q: int| 0 <= q < j ==> !found@[q],
        decreases n - j,
    {
        found.push(false);
        j += 1;
    }
    proof {
        assert(found@ =~= Seq::new(ctxv.pv.decl_scope.len(), |i: int| false));
    }
    let gs = ctx.ifc.file_header().global_scope;
    if gs != 0 {
        match search_scope(&mut found, ctx, gs, MAX_WALK_DEPTH) {
            Ok(()) => {},
            Err(_) => {
                st.log("orphan search could not finish");
            },
        }
    }
    let ghost fseq = found@;
    let mut i: usize = 0;
    while i < n
        invariant
            ctx.wf(),
            ctxv == ctx.cv(),
            i <= n,
            n == ctxv.pv.decl_scope.len(),
            found@ == fseq,
            spec_orphan_loop(ctxv, st0, fseq, 0) == spec_orphan_loop(ctxv, st@, fseq,
                i as int),
            ({
                let f0 = Seq::new(ctxv.pv.decl_scope.len(), |q: int| false);
                fseq == (if ctxv.global_scope != 0 {
                    spec_search_scope(ctxv, f0, ctxv.global_scope,
                        MAX_WALK_DEPTH as nat).found
                } else {
                    f0
                })
            }),
            st0 == old(st)@,
        decreases n - i,
    {
        if i < found.len() && !found[i] && i < 0x0800_0000 {
            let d = DeclIndex::new(0x06, i as u32);
            proof {
                assert(d.0 == (0x06 + i * 32) as u32) by (nonlinear_arith)
                    requires d.0 == 0x06 + (i as u32) * 32, i < 0x0800_0000;
            }
            let sc = *match ctx.ifc.decl_scope().entry(i as u32) {
                Ok(v) => v,
                Err(e) => {
                    proof {
                        assert(false);
                    }
                    return ;
                },
            };
            match ctx.ifc.get_string(sc.name.index()) {
                Ok(nm) => {
                    let root = FullyQualifiedName::global_namespace();
                    let cn = root.make_child(nm);
                    if sc.initializer == 0 {
                        match process_orphan(st, ctx, d, cn, sc, MAX_WALK_DEPTH) {
                            Ok(()) => {},
                            Err(_) => {
                                st.log_decl(d, nm,
                                    "orphan declaration could not be processed");
                            },
                        }
                    }
                },
                Err(_) => {
                    st.log_decl(d, "::", "orphan name is not in the string table");
                },
            }
        }
        i += 1;
    }
}

/// Runs the whole closure: pre-includes the global namespace under the
/// empty name, walks the global scope, and detects orphans. Two runs on the
/// same container and filters yield identical decisions, members and
/// orphans.
pub fn walk_global_scope(ctx: &DiscoveryContext<'_>) -> (r: DiscoveryState)
    requires
        ctx.wf(),
    ensures
        r@ == spec_walk_global(ctx.cv()),
{
    let mut st = DiscoveryState::new();
    proof {
        assert(st@.decisions =~= Seq::<(u32, DispV)>::empty());
        assert(st@.members =~= Seq::<(u32, u32, Seq<char>)>::empty());
        assert(st@.orphans =~= Seq::<(u32, Seq<char>)>::empty());
    }
    st.set_decision(0, Disposition::Included(rn_local("")));
    proof {
        reveal_strlit("");
        assert(""@ =~= Seq::<char>::empty());
        assert(dfirst_pos(Seq::<(u32, DispV)>::empty(), 0u32) is None);
        assert(st@.decisions == Seq::<(u32, DispV)>::empty().push((0u32,
            DispV::Included(spec_rn_local(Seq::empty())))));
    }
    let gs = ctx.ifc.file_header().global_scope;
    if gs != 0 {
        let root = FullyQualifiedName::global_namespace();
        match walk_scope(&mut st, ctx, gs, &root, MAX_WALK_DEPTH) {
            Ok(()) => {},
            Err(_) => {
                st.log("the global scope could not be walked");
            },
        }
    }
    find_orphans(&mut st, ctx);
    st
}

/// Two closure runs on the same container, reference modules and filters
/// yield identical included, pending and orphan partitions and identical
/// resolved names.
pub proof fn lemma_closure_idempotent(ctx: CtxView, r1: StateView, r2: StateView)
    requires
        r1 == spec_walk_global(ctx),
        r2 == spec_walk_global(ctx),
    ensures
        r1 == r2,
{
}

/// Walking a scope never touches the orphan list.
proof fn lemma_walk_scope_orphans(ctx: CtxView, st: StateView, container: u32, cname: FqnV,
    depth: nat)
    ensures
        spec_walk_scope(ctx, st, container, cname, depth).st.orphans == st.orphans,
    decreases depth, 0nat, 0nat,
{
    if !(container == 0 || depth == 0) {
        match spec_scope_members(ctx.pv, container) {
            Some(ms) => {
                lemma_walk_members_orphans(ctx, st, ms, cname, 0, (depth - 1) as nat);
            },
            None => {},
        }
    }
}

/// Walking a run of members never touches the orphan list.
proof fn lemma_walk_members_orphans(ctx: CtxView, st: StateView, ms: Seq<DeclIndex>,
    cname: FqnV, counter: u32, depth: nat)
    ensures
        spec_walk_members(ctx, st, ms, cname, counter, depth).st.orphans == st.orphans,
    decreases depth, 7nat, ms.len(),
{
    if ms.len() != 0 {
        lemma_walk_member_orphans(ctx, st, ms[0], cname, counter, depth);
        let w = spec_walk_member(ctx, st, ms[0], cname, counter, depth);
        lemma_walk_members_orphans(ctx, w.st, ms.drop_first(), cname, w.counter, depth);
    }
}

/// Examining one member never touches the orphan list.
proof fn lemma_walk_member_orphans(ctx: CtxView, st: StateView, d: DeclIndex, cname: FqnV,
    counter: u32, depth: nat)
    ensures
        spec_walk_member(ctx, st, d, cname, counter, depth).st.orphans == st.orphans,
    decreases depth, 6nat, 0nat,
{
    match DeclSort::spec_from_u32(d.spec_tag()) {
        Some(DeclSort::ALIAS) => if d.spec_index() < ctx.pv.decl_alias.len() {
            let a = ctx.pv.decl_alias[d.spec_index() as int];
            match spec_string_at(ctx.strings, a.name as int) {
                Some(nm0) => {
                    let fixed = spec_fixup_anon(nm0, counter);
                    lemma_process_type_orphans(ctx, st, d,
                        spec_fqn_child(cname.full, fixed.0), EmitKind::Alias(a), depth);
                },
                None => {},
            }
        },
        Some(DeclSort::FUNCTION) => if d.spec_index() < ctx.pv.decl_function.len() {
            let f = ctx.pv.decl_function[d.spec_index() as int];
            if NameSort::spec_from_u32(f.name.spec_tag()) == Some(NameSort::IDENTIFIER) {
                match spec_string_at(ctx.strings, f.name.spec_index() as int) {
                    Some(nm) => if nm != "_RTL_CONSTANT_STRING_type_check"@ {
                        let cn = spec_fqn_child(cname.full, nm);
                        if spec_resolve(ctx, cn.full) is None
                            && spec_filter(ctx.ff_allow, ctx.ff_block, cn.full)
                                == FilteredState::Allowed {
                            let st1 = StateView {
                                decisions: dinsert(st.decisions, d.0,
                                    DispV::Included(spec_rn_local(cn.full))),
                                ..st
                            };
                            lemma_add_function_emit_orphans(ctx, st1, d, f.home_scope.0,
                                f.type_, nm, depth);
                        }
                    },
                    None => {},
                }
            }
        },
        Some(DeclSort::SCOPE) => if d.spec_index() < ctx.pv.decl_scope.len() {
            let sc = ctx.pv.decl_scope[d.spec_index() as int];
            let nm_opt = match spec_renamed(ctx.renamed, d.0) {
                Some(nm) => Some(nm),
                None => spec_string_at(ctx.strings, sc.name.spec_index() as int),
            };
            match nm_opt {
                Some(nm) => {
                    let cn = spec_fqn_child(cname.full, nm);
                    if !spec_basis_check_faults(ctx.pv, sc.ty) {
                        if crate::query::spec_is_fund_basis(ctx.pv, sc.ty,
                            TypeBasis::NAMESPACE) {
                            lemma_walk_scope_orphans(ctx, st, sc.initializer, cn, depth);
                        } else {
                            lemma_process_type_orphans(ctx, st, d, cn,
                                EmitKind::Scoped(sc), depth);
                        }
                    }
                },
                None => {},
            }
        },
        Some(DeclSort::ENUMERATION) => if d.spec_index() < ctx.pv.decl_enum.len() {
            let en = ctx.pv.decl_enum[d.spec_index() as int];
            match spec_string_at(ctx.strings, en.name as int) {
                Some(nm) => {
                    lemma_process_type_orphans(ctx, st, d, spec_fqn_child(cname.full, nm),
                        EmitKind::Enumeration(en), depth);
                },
                None => {},
            }
        },
        Some(DeclSort::VARIABLE) => if d.spec_index() < ctx.pv.decl_var.len() {
            let v = ctx.pv.decl_var[d.spec_index() as int];
            if NameSort::spec_from_u32(v.name.spec_tag()) == Some(NameSort::IDENTIFIER) {
                match spec_string_at(ctx.strings, v.name.spec_index() as int) {
                    Some(nm) => {
                        let cn = spec_fqn_child(cname.full, nm);
                        if spec_resolve(ctx, cn.full) is None
                            && spec_filter(ctx.vf_allow, ctx.vf_block, cn.full)
                                == FilteredState::Allowed {
                            let st1 = StateView {
                                decisions: dinsert(st.decisions, d.0,
                                    DispV::Included(spec_rn_local(cn.full))),
                                ..st
                            };
                            let e = spec_add_member_op(st1, v.home_scope.0, d.0, nm);
                            if e.ok {
                                lemma_include_type_orphans(ctx, e.st, v.ty, depth);
                            }
                        }
                    },
                    None => {},
                }
            }
        },
        Some(DeclSort::FIELD) => if d.spec_index() < ctx.pv.decl_field.len() {
            let fd = ctx.pv.decl_field[d.spec_index() as int];
            match spec_string_at(ctx.strings, fd.name as int) {
                Some(nm) => {
                    let e = spec_add_member_op(st, fd.home_scope.0, d.0, nm);
                    if e.ok {
                        lemma_include_type_orphans(ctx, e.st, fd.ty, depth);
                    }
                },
                None => {},
            }
        },
        _ => {},
    }
}

/// Function dependency edges never touch the orphan list.
proof fn lemma_add_function_emit_orphans(ctx: CtxView, st: StateView, d: DeclIndex,
    home_scope: u32, fty: TypeIndex, leaf: Seq<char>, depth: nat)
    ensures
        spec_add_function_emit(ctx, st, d, home_scope, fty, leaf, depth).st.orphans
            == st.orphans,
    decreases depth, 5nat, 1nat,
{
    let e = spec_add_member_op(st, home_scope, d.0, leaf);
    if e.ok && fty.spec_index() < ctx.pv.type_function.len() {
        let ft = ctx.pv.type_function[fty.spec_index() as int];
        if !(ft.target.0 != 0 && spec_basis_check_faults(ctx.pv, ft.target)) {
            if ft.target.0 != 0 && !crate::query::spec_is_fund_basis(ctx.pv, ft.target,
                TypeBasis::VOID) {
                lemma_include_type_orphans(ctx, e.st, ft.target, depth);
            }
            let e2 = if ft.target.0 != 0 && !crate::query::spec_is_fund_basis(ctx.pv,
                ft.target, TypeBasis::VOID) {
                spec_include_type(ctx, e.st, ft.target, depth)
            } else {
                EStep { st: e.st, ok: true }
            };
            if e2.ok && ft.source.0 != 0 {
                lemma_include_type_orphans(ctx, e2.st, ft.source, depth);
            }
        }
    }
}

/// Deciding one visited declaration never touches the orphan list.
proof fn lemma_process_type_orphans(ctx: CtxView, st: StateView, d: DeclIndex, cname: FqnV,
    kind: EmitKind, depth: nat)
    ensures
        spec_process_type(ctx, st, d, cname, kind, depth).st.orphans == st.orphans,
    decreases depth, 5nat, 0nat,
{
    if spec_resolve(ctx, cname.full) is None {
        let f = spec_filter(ctx.tf_allow, ctx.tf_block, cname.full);
        if f == FilteredState::Allowed || spec_has_name_entry(st.decisions, d.0) {
            let st1 = StateView {
                decisions: dinsert(st.decisions, d.0,
                    DispV::Included(spec_rn_local(cname.full))),
                ..st
            };
            lemma_add_emit_orphans(ctx, st1, d, kind, cname, depth);
        }
    }
}

/// Dependency edges of an included declaration never touch the orphan
/// list.
proof fn lemma_add_emit_orphans(ctx: CtxView, st: StateView, d: DeclIndex, kind: EmitKind,
    cname: FqnV, depth: nat)
    ensures
        spec_add_emit(ctx, st, d, kind, cname, depth).st.orphans == st.orphans,
    decreases depth, 4nat, 0nat,
{
    match kind {
        EmitKind::Alias(a) => {
            let e = spec_add_member_op(st, a.home_scope.0, d.0, cname.name);
            if e.ok {
                lemma_include_decl_orphans(ctx, e.st, d, depth);
                let s2 = spec_include_decl(ctx, e.st, d, depth);
                lemma_include_type_orphans(ctx, s2, a.aliasee, depth);
            }
        },
        EmitKind::Enumeration(en) => {
            let e = spec_add_member_op(st, en.home_scope.0, d.0, cname.name);
            if e.ok {
                lemma_include_decl_orphans(ctx, e.st, d, depth);
                let s2 = spec_include_decl(ctx, e.st, d, depth);
                lemma_include_type_orphans(ctx, s2, en.base, depth);
            }
        },
        EmitKind::Scoped(sc) => {
            let e = spec_add_member_op(st, sc.home_scope.0, d.0, cname.name);
            if e.ok {
                lemma_include_decl_orphans(ctx, e.st, d, depth);
                let s2 = spec_include_decl(ctx, e.st, d, depth);
                lemma_include_type_orphans(ctx, s2, sc.base, depth);
                let e3 = spec_include_type(ctx, s2, sc.base, depth);
                if e3.ok && sc.initializer != 0 {
                    lemma_walk_scope_orphans(ctx, e3.st, sc.initializer, cname, depth);
                }
            }
        },
    }
}

/// Requiring a declaration never touches the orphan list.
proof fn lemma_include_decl_orphans(ctx: CtxView, st: StateView, d: DeclIndex, depth: nat)
    ensures
        spec_include_decl(ctx, st, d, depth).orphans == st.orphans,
    decreases depth, 3nat, 0nat,
{
    match dlookup(st.decisions, d.0) {
        Some(DispV::Pending(fqn)) => {
            let st1 = StateView {
                decisions: dinsert(st.decisions, d.0,
                    DispV::Included(spec_rn_local(fqn.full))),
                ..st
            };
            if depth != 0 {
                match DeclSort::spec_from_u32(d.spec_tag()) {
                    Some(DeclSort::ALIAS) => if d.spec_index() < ctx.pv.decl_alias.len() {
                        lemma_add_emit_orphans(ctx, st1, d,
                            EmitKind::Alias(ctx.pv.decl_alias[d.spec_index() as int]),
                            fqn, (depth - 1) as nat);
                    },
                    Some(DeclSort::SCOPE) => if d.spec_index() < ctx.pv.decl_scope.len() {
                        lemma_add_emit_orphans(ctx, st1, d,
                            EmitKind::Scoped(ctx.pv.decl_scope[d.spec_index() as int]),
                            fqn, (depth - 1) as nat);
                    },
                    Some(DeclSort::ENUMERATION) => if d.spec_index()
                        < ctx.pv.decl_enum.len() {
                        lemma_add_emit_orphans(ctx, st1, d,
                            EmitKind::Enumeration(ctx.pv.decl_enum[d.spec_index() as int]),
                            fqn, (depth - 1) as nat);
                    },
                    _ => {},
                }
            }
        },
        _ => {},
    }
}

/// Following a type expression never touches the orphan list.
proof fn lemma_include_type_orphans(ctx: CtxView, st: StateView, ty: TypeIndex, depth: nat)
    ensures
        spec_include_type(ctx, st, ty, depth).st.orphans == st.orphans,
    decreases depth, 2nat, 0nat,
{
    if depth != 0 {
        match TypeSort::spec_from_u32(ty.spec_tag()) {
            Some(TypeSort::ARRAY) => if ty.spec_index() < ctx.pv.type_array.len() {
                lemma_include_type_orphans(ctx, st,
                    ctx.pv.type_array[ty.spec_index() as int].element, (depth - 1) as nat);
            },
            Some(TypeSort::BASE) => if ty.spec_index() < ctx.pv.type_base.len() {
                lemma_include_type_orphans(ctx, st,
                    ctx.pv.type_base[ty.spec_index() as int].ty, (depth - 1) as nat);
            },
            Some(TypeSort::DESIGNATED) => if ty.spec_index()
                < ctx.pv.type_designated.len() {
                lemma_include_decl_orphans(ctx, st,
                    ctx.pv.type_designated[ty.spec_index() as int], (depth - 1) as nat);
            },
            Some(TypeSort::LVALUE_REFERENCE) => if ty.spec_index()
                < ctx.pv.type_lvalue_reference.len() {
                lemma_include_type_orphans(ctx, st,
                    ctx.pv.type_lvalue_reference[ty.spec_index() as int],
                    (depth - 1) as nat);
            },
            Some(TypeSort::POINTER) => if ty.spec_index() < ctx.pv.type_pointer.len() {
                lemma_include_type_orphans(ctx, st,
                    ctx.pv.type_pointer[ty.spec_index() as int], (depth - 1) as nat);
            },
            Some(TypeSort::QUALIFIED) => if ty.spec_index() < ctx.pv.type_qualified.len() {
                lemma_include_type_orphans(ctx, st,
                    ctx.pv.type_qualified[ty.spec_index() as int].unqualified_type,
                    (depth - 1) as nat);
            },
            Some(TypeSort::RVALUE_REFERENCE) => if ty.spec_index()
                < ctx.pv.type_rvalue_reference.len() {
                lemma_include_type_orphans(ctx, st,
                    ctx.pv.type_rvalue_reference[ty.spec_index() as int],
                    (depth - 1) as nat);
            },
            Some(TypeSort::TUPLE) => if ty.spec_index() < ctx.pv.type_tuple.len() {
                let t = ctx.pv.type_tuple[ty.spec_index() as int];
                lemma_include_tuple_orphans(ctx, st, t.start as int, t.cardinality as int,
                    depth);
            },
            _ => {},
        }
    }
}

/// Requiring the components of a tuple never touches the orphan list.
proof fn lemma_include_tuple_orphans(ctx: CtxView, st: StateView, start: int, count: int,
    depth: nat)
    ensures
        spec_include_tuple(ctx, st, start, count, depth).st.orphans == st.orphans,
    decreases depth, 1nat, (if count > 0 { count } else { 0 }),
{
    if count > 0 && depth != 0 && 0 <= start < ctx.pv.heap_type.len() {
        lemma_include_type_orphans(ctx, st, ctx.pv.heap_type[start], (depth - 1) as nat);
        let e = spec_include_type(ctx, st, ctx.pv.heap_type[start], (depth - 1) as nat);
        if e.ok {
            lemma_include_tuple_orphans(ctx, e.st, start + 1, count - 1, depth);
        }
    }
}

/// Deciding one orphan candidate either leaves the orphan list alone or
/// appends exactly the candidate.
proof fn lemma_process_orphan_orphans(ctx: CtxView, st: StateView, d: DeclIndex,
    cname: FqnV, sc: DeclScope, depth: nat)
    ensures
        ({
            let r = spec_process_orphan(ctx, st, d, cname, sc, depth).st;
            r.orphans == st.orphans || r.orphans == st.orphans.push((d.0, cname.name))
        }),
{
    if spec_resolve(ctx, cname.full) is None {
        let f = spec_filter(ctx.tf_allow, ctx.tf_block, cname.full);
        if f == FilteredState::Allowed || spec_has_name_entry(st.decisions, d.0) {
            let st1 = StateView {
                decisions: dinsert(st.decisions, d.0,
                    DispV::Included(spec_rn_local(cname.full))),
                orphans: st.orphans.push((d.0, cname.name)),
                ..st
            };
            lemma_include_decl_orphans(ctx, st1, d, depth);
            let s2 = spec_include_decl(ctx, st1, d, depth);
            lemma_include_type_orphans(ctx, s2, sc.base, depth);
            let e3 = spec_include_type(ctx, s2, sc.base, depth);
            if e3.ok && sc.initializer != 0 {
                lemma_walk_scope_orphans(ctx, e3.st, sc.initializer, cname, depth);
            }
        }
    }
}

/// The orphan sweep preserves the entries already recorded and appends only
/// entries whose keys are the strictly increasing keys of later scope rows,
/// each a row the reachability search never marked and without a body.
proof fn lemma_orphan_loop_keys(ctx: CtxView, st: StateView, found: Seq<bool>, i: int)
    requires
        i >= 0,
    ensures
        ({
            let r = spec_orphan_loop(ctx, st, found, i);
            &&& r.orphans.len() >= st.orphans.len()
            &&& (forall|q: int| 0 <= q < st.orphans.len()
                ==> #[trigger] r.orphans[q] == st.orphans[q])
            &&& (forall|q: int| st.orphans.len() <= q < r.orphans.len()
                ==> (#[trigger] r.orphans[q]).0 >= 6 + 32 * i)
            &&& (forall|q1: int, q2: int| st.orphans.len() <= q1 < q2 < r.orphans.len()
                ==> (#[trigger] r.orphans[q1]).0 < (#[trigger] r.orphans[q2]).0)
            &&& (forall|q: int| st.orphans.len() <= q < r.orphans.len()
                ==> exists|i2: int|
                    #![trigger ctx.pv.decl_scope[i2]]
                    i <= i2 < ctx.pv.decl_scope.len()
                    && (#[trigger] r.orphans[q]).0 == 6 + 32 * i2
                    && i2 < found.len() && !found[i2]
                    && ctx.pv.decl_scope[i2].initializer == 0)
        }),
    decreases ctx.pv.decl_scope.len() - i,
{
    if 0 <= i < ctx.pv.decl_scope.len() {
        let st2 = if i < found.len() && !found[i] && i < 0x0800_0000 {
            let d = DeclIndex((0x06 + i * 32) as u32);
            let sc = ctx.pv.decl_scope[i];
            match spec_string_at(ctx.strings, sc.name.spec_index() as int) {
                Some(nm) => {
                    let cn = spec_fqn_child(Seq::empty(), nm);
                    if sc.initializer == 0 {
                        lemma_process_orphan_orphans(ctx, st, d, cn, sc,
                            MAX_WALK_DEPTH as nat);
                        spec_process_orphan(ctx, st, d, cn, sc, MAX_WALK_DEPTH as nat).st
                    } else {
                        st
                    }
                },
                None => st,
            }
        } else {
            st
        };
        lemma_orphan_loop_keys(ctx, st2, found, i + 1);
        let r = spec_orphan_loop(ctx, st2, found, i + 1);
        let rr = spec_orphan_loop(ctx, st, found, i);
        assert(rr == r);
        assert forall|q: int| st.orphans.len() <= q < rr.orphans.len()
            implies exists|i2: int|
                #![trigger ctx.pv.decl_scope[i2]]
                i <= i2 < ctx.pv.decl_scope.len()
                && (#[trigger] rr.orphans[q]).0 == 6 + 32 * i2
                && i2 < found.len() && !found[i2]
                && ctx.pv.decl_scope[i2].initializer == 0 by {
            assert(rr.orphans[q] == r.orphans[q]);
            if q < st2.orphans.len() {
                assert(st2.orphans.len() == st.orphans.len() + 1);
                assert(r.orphans[q] == st2.orphans[q]);
                assert(st2.orphans[q] == st2.orphans.last());
                assert(ctx.pv.decl_scope[i].initializer == 0);
                assert(i <= i < ctx.pv.decl_scope.len()
                    && rr.orphans[q].0 == 6 + 32 * i
                    && i < found.len() && !found[i]
                    && ctx.pv.decl_scope[i].initializer == 0);
            } else {
                let i3 = choose|i3: int|
                    #![trigger ctx.pv.decl_scope[i3]]
                    i + 1 <= i3 < ctx.pv.decl_scope.len()
                    && (#[trigger] r.orphans[q]).0 == 6 + 32 * i3
                    && i3 < found.len() && !found[i3]
                    && ctx.pv.decl_scope[i3].initializer == 0;
                assert(i <= i3 < ctx.pv.decl_scope.len()
                    && rr.orphans[q].0 == 6 + 32 * i3
                    && i3 < found.len() && !found[i3]
                    && ctx.pv.decl_scope[i3].initializer == 0);
            }
        }
        assert(rr.orphans.len() >= st.orphans.len());
        assert(forall|q: int| 0 <= q < st.orphans.len()
            ==> #[trigger] rr.orphans[q] == st.orphans[q]);
        assert(forall|q: int| st.orphans.len() <= q < rr.orphans.len()
            ==> (#[trigger] rr.orphans[q]).0 >= 6 + 32 * i);
        assert(forall|q1: int, q2: int| st.orphans.len() <= q1 < q2 < rr.orphans.len()
            ==> (#[trigger] rr.orphans[q1]).0 < (#[trigger] rr.orphans[q2]).0);
    }
}

/// A declaration reachable only as a dependency appears in the orphan list
/// exactly once: the whole run records no declaration key twice, and every
/// recorded key is a scope row the reachability search from the root never
/// marked as a member of any walked scope, without a body.
pub proof fn lemma_orphans_recorded_once(ctx: CtxView)
    ensures
        ({
            let r = spec_walk_global(ctx);
            forall|q1: int, q2: int| 0 <= q1 < q2 < r.orphans.len()
                ==> (#[trigger] r.orphans[q1]).0 != (#[trigger] r.orphans[q2]).0
        }),
        ({
            let r = spec_walk_global(ctx);
            let found0 = Seq::new(ctx.pv.decl_scope.len(), |i: int| false);
            let marks = if ctx.global_scope != 0 {
                spec_search_scope(ctx, found0, ctx.global_scope,
                    MAX_WALK_DEPTH as nat).found
            } else {
                found0
            };
            forall|q: int| 0 <= q < r.orphans.len()
                ==> exists|i2: int|
                    #![trigger ctx.pv.decl_scope[i2]]
                    0 <= i2 < ctx.pv.decl_scope.len()
                    && (#[trigger] r.orphans[q]).0 == 6 + 32 * i2
                    && i2 < marks.len() && !marks[i2]
                    && ctx.pv.decl_scope[i2].initializer == 0
        }),
{
    let st0 = StateView {
        decisions: Seq::empty().push((0u32, DispV::Included(spec_rn_local(Seq::empty())))),
        members: Seq::empty(),
        orphans: Seq::empty(),
    };
    if ctx.global_scope != 0 {
        lemma_walk_scope_orphans(ctx, st0, ctx.global_scope, spec_fqn_global(),
            MAX_WALK_DEPTH as nat);
    }
    let st1 = if ctx.global_scope != 0 {
        spec_walk_scope(ctx, st0, ctx.global_scope, spec_fqn_global(),
            MAX_WALK_DEPTH as nat).st
    } else {
        st0
    };
    assert(st1.orphans.len() == 0);
    let found0 = Seq::new(ctx.pv.decl_scope.len(), |i: int| false);
    let fs = if ctx.global_scope != 0 {
        spec_search_scope(ctx, found0, ctx.global_scope, MAX_WALK_DEPTH as nat)
    } else {
        FStep { found: found0, ok: true }
    };
    lemma_orphan_loop_keys(ctx, st1, fs.found, 0);
}

/// A pending declaration later required as a dependency is promoted to
/// included under its captured name and joins its home scope's emitted
/// members; shown here for an enumeration whose storage type is a
/// fundamental type and whose member registration is fresh, where the
/// promotion replays no further decision changes.
pub proof fn lemma_dependency_promotion(ctx: CtxView, st: StateView, d: DeclIndex,
    fqn: FqnV, depth: nat)
    requires
        dlookup(st.decisions, d.0) == Some(DispV::Pending(fqn)),
        DeclSort::spec_from_u32(d.spec_tag()) == Some(DeclSort::ENUMERATION),
        d.spec_index() < ctx.pv.decl_enum.len(),
        TypeSort::spec_from_u32(
            ctx.pv.decl_enum[d.spec_index() as int].base.spec_tag())
            == Some(TypeSort::FUNDAMENTAL),
        !spec_member_present(st.members,
            ctx.pv.decl_enum[d.spec_index() as int].home_scope.0, d.0),
        depth >= 2,
    ensures
        dlookup(spec_include_decl(ctx, st, d, depth).decisions, d.0)
            == Some(DispV::Included(spec_rn_local(fqn.full))),
        spec_include_decl(ctx, st, d, depth).members == st.members.push((
            ctx.pv.decl_enum[d.spec_index() as int].home_scope.0, d.0, fqn.name)),
{
    let st1 = StateView {
        decisions: dinsert(st.decisions, d.0, DispV::Included(spec_rn_local(fqn.full))),
        ..st
    };
    lemma_dinsert_lookup(st.decisions, d.0, DispV::Included(spec_rn_local(fqn.full)), d.0);
    let en = ctx.pv.decl_enum[d.spec_index() as int];
    let e = spec_add_member_op(st1, en.home_scope.0, d.0, fqn.name);
    assert(e.ok && e.st.decisions == st1.decisions);
    let s2 = spec_include_decl(ctx, e.st, d, (depth - 1) as nat);
    assert(s2 == e.st);
    let e3 = spec_include_type(ctx, s2, en.base, (depth - 1) as nat);
    assert(e3.st == s2);
}

/// Whether a declaration key is decided as included.
pub open spec fn spec_is_included(s: Seq<(u32, DispV)>, k: u32) -> bool {
    dlookup(s, k) matches Some(DispV::Included(_))
}

/// Walking a scope never takes a declaration back out of included.
pub proof fn lemma_mono_walk_scope(ctx: CtxView, st: StateView, container: u32,
    cname: FqnV, depth: nat, k: u32)
    requires
        spec_is_included(st.decisions, k),
    ensures
        spec_is_included(spec_walk_scope(ctx, st, container, cname, depth).st.decisions, k),
    decreases depth, 0nat, 0nat,
{
    if !(container == 0 || depth == 0) {
        match spec_scope_members(ctx.pv, container) {
            Some(ms) => {
                lemma_mono_walk_members(ctx, st, ms, cname, 0, (depth - 1) as nat, k);
            },
            None => {},
        }
    }
}

/// Walking a run of members never takes a declaration back out of
/// included.
proof fn lemma_mono_walk_members(ctx: CtxView, st: StateView, ms: Seq<DeclIndex>,
    cname: FqnV, counter: u32, depth: nat, k: u32)
    requires
        spec_is_included(st.decisions, k),
    ensures
        spec_is_included(spec_walk_members(ctx, st, ms, cname, counter, depth).st.decisions,
            k),
    decreases depth, 7nat, ms.len(),
{
    if ms.len() != 0 {
        lemma_mono_walk_member(ctx, st, ms[0], cname, counter, depth, k);
        let w = spec_walk_member(ctx, st, ms[0], cname, counter, depth);
        lemma_mono_walk_members(ctx, w.st, ms.drop_first(), cname, w.counter, depth, k);
    }
}

/// Examining one member never takes a declaration back out of included.
proof fn lemma_mono_walk_member(ctx: CtxView, st: StateView, d: DeclIndex, cname: FqnV,
    counter: u32, depth: nat, k: u32)
    requires
        spec_is_included(st.decisions, k),
    ensures
        spec_is_included(spec_walk_member(ctx, st, d, cname, counter, depth).st.decisions,
            k),
    decreases depth, 6nat, 0nat,
{
    match DeclSort::spec_from_u32(d.spec_tag()) {
        Some(DeclSort::ALIAS) => if d.spec_index() < ctx.pv.decl_alias.len() {
            let a = ctx.pv.decl_alias[d.spec_index() as int];
            match spec_string_at(ctx.strings, a.name as int) {
                Some(nm0) => {
                    let fixed = spec_fixup_anon(nm0, counter);
                    lemma_mono_process_type(ctx, st, d,
                        spec_fqn_child(cname.full, fixed.0), EmitKind::Alias(a), depth, k);
                },
                None => {},
            }
        },
        Some(DeclSort::FUNCTION) => if d.spec_index() < ctx.pv.decl_function.len() {
            let f = ctx.pv.decl_function[d.spec_index() as int];
            if NameSort::spec_from_u32(f.name.spec_tag()) == Some(NameSort::IDENTIFIER) {
                match spec_string_at(ctx.strings, f.name.spec_index() as int) {
                    Some(nm) => if nm != "_RTL_CONSTANT_STRING_type_check"@ {
                        let cn = spec_fqn_child(cname.full, nm);
                        match spec_resolve(ctx, cn.full) {
                            Some(ext) => {
                                lemma_dinsert_lookup(st.decisions, d.0,
                                    DispV::Included(spec_rn_extern(ext, cn.full)), k);
                            },
                            None => if spec_filter(ctx.ff_allow, ctx.ff_block, cn.full)
                                == FilteredState::Allowed {
                                lemma_dinsert_lookup(st.decisions, d.0,
                                    DispV::Included(spec_rn_local(cn.full)), k);
                                let st1 = StateView {
                                    decisions: dinsert(st.decisions, d.0,
                                        DispV::Included(spec_rn_local(cn.full))),
                                    ..st
                                };
                                lemma_mono_add_function_emit(ctx, st1, d, f.home_scope.0,
                                    f.type_, nm, depth, k);
                            },
                        }
                    },
                    None => {},
                }
            }
        },
        Some(DeclSort::SCOPE) => if d.spec_index() < ctx.pv.decl_scope.len() {
            let sc = ctx.pv.decl_scope[d.spec_index() as int];
            let nm_opt = match spec_renamed(ctx.renamed, d.0) {
                Some(nm) => Some(nm),
                None => spec_string_at(ctx.strings, sc.name.spec_index() as int),
            };
            match nm_opt {
                Some(nm) => {
                    let cn = spec_fqn_child(cname.full, nm);
                    if !spec_basis_check_faults(ctx.pv, sc.ty) {
                        if crate::query::spec_is_fund_basis(ctx.pv, sc.ty,
                            TypeBasis::NAMESPACE) {
                            lemma_mono_walk_scope(ctx, st, sc.initializer, cn, depth, k);
                            let e = spec_walk_scope(ctx, st, sc.initializer, cn, depth);
                            if e.ok {
                                lemma_dinsert_lookup(e.st.decisions, d.0,
                                    DispV::Included(spec_rn_local(cn.full)), k);
                            }
                        } else {
                            lemma_mono_process_type(ctx, st, d, cn, EmitKind::Scoped(sc),
                                depth, k);
                        }
                    }
                },
                None => {},
            }
        },
        Some(DeclSort::ENUMERATION) => if d.spec_index() < ctx.pv.decl_enum.len() {
            let en = ctx.pv.decl_enum[d.spec_index() as int];
            match spec_string_at(ctx.strings, en.name as int) {
                Some(nm) => {
                    lemma_mono_process_type(ctx, st, d, spec_fqn_child(cname.full, nm),
                        EmitKind::Enumeration(en), depth, k);
                },
                None => {},
            }
        },
        Some(DeclSort::VARIABLE) => if d.spec_index() < ctx.pv.decl_var.len() {
            let v = ctx.pv.decl_var[d.spec_index() as int];
            if NameSort::spec_from_u32(v.name.spec_tag()) == Some(NameSort::IDENTIFIER) {
                match spec_string_at(ctx.strings, v.name.spec_index() as int) {
                    Some(nm) => {
                        let cn = spec_fqn_child(cname.full, nm);
                        match spec_resolve(ctx, cn.full) {
                            Some(ext) => {
                                lemma_dinsert_lookup(st.decisions, d.0,
                                    DispV::Included(spec_rn_extern(ext, cn.full)), k);
                            },
                            None => if spec_filter(ctx.vf_allow, ctx.vf_block, cn.full)
                                == FilteredState::Allowed {
                                lemma_dinsert_lookup(st.decisions, d.0,
                                    DispV::Included(spec_rn_local(cn.full)), k);
                                let st1 = StateView {
                                    decisions: dinsert(st.decisions, d.0,
                                        DispV::Included(spec_rn_local(cn.full))),
                                    ..st
                                };
                                let e = spec_add_member_op(st1, v.home_scope.0, d.0, nm);
                                if e.ok {
                                    lemma_mono_include_type(ctx, e.st, v.ty, depth, k);
                                }
                            },
                        }
                    },
                    None => {},
                }
            }
        },
        Some(DeclSort::FIELD) => if d.spec_index() < ctx.pv.decl_field.len() {
            let fd = ctx.pv.decl_field[d.spec_index() as int];
            match spec_string_at(ctx.strings, fd.name as int) {
                Some(nm) => {
                    let cn = spec_fqn_child(cname.full, nm);
                    let e = spec_add_member_op(st, fd.home_scope.0, d.0, nm);
                    if e.ok {
                        lemma_mono_include_type(ctx, e.st, fd.ty, depth, k);
                        let e2 = spec_include_type(ctx, e.st, fd.ty, depth);
                        if e2.ok {
                            lemma_dinsert_lookup(e2.st.decisions, d.0,
                                DispV::Included(spec_rn_local(cn.full)), k);
                        }
                    }
                },
                None => {},
            }
        },
        _ => {},
    }
}

/// Function dependency edges never take a declaration back out of
/// included.
proof fn lemma_mono_add_function_emit(ctx: CtxView, st: StateView, d: DeclIndex,
    home_scope: u32, fty: TypeIndex, leaf: Seq<char>, depth: nat, k: u32)
    requires
        spec_is_included(st.decisions, k),
    ensures
        spec_is_included(spec_add_function_emit(ctx, st, d, home_scope, fty, leaf,
            depth).st.decisions, k),
    decreases depth, 5nat, 1nat,
{
    let e = spec_add_member_op(st, home_scope, d.0, leaf);
    if e.ok && fty.spec_index() < ctx.pv.type_function.len() {
        let ft = ctx.pv.type_function[fty.spec_index() as int];
        if !(ft.target.0 != 0 && spec_basis_check_faults(ctx.pv, ft.target)) {
            if ft.target.0 != 0 && !crate::query::spec_is_fund_basis(ctx.pv, ft.target,
                TypeBasis::VOID) {
                lemma_mono_include_type(ctx, e.st, ft.target, depth, k);
            }
            let e2 = if ft.target.0 != 0 && !crate::query::spec_is_fund_basis(ctx.pv,
                ft.target, TypeBasis::VOID) {
                spec_include_type(ctx, e.st, ft.target, depth)
            } else {
                EStep { st: e.st, ok: true }
            };
            if e2.ok && ft.source.0 != 0 {
                lemma_mono_include_type(ctx, e2.st, ft.source, depth, k);
            }
        }
    }
}

/// Deciding one visited declaration never takes a declaration back out of
/// included.
proof fn lemma_mono_process_type(ctx: CtxView, st: StateView, d: DeclIndex, cname: FqnV,
    kind: EmitKind, depth: nat, k: u32)
    requires
        spec_is_included(st.decisions, k),
    ensures
        spec_is_included(spec_process_type(ctx, st, d, cname, kind, depth).st.decisions, k),
    decreases depth, 5nat, 0nat,
{
    match spec_resolve(ctx, cname.full) {
        Some(ext) => {
            lemma_dinsert_lookup(st.decisions, d.0,
                DispV::Included(spec_rn_extern(ext, cname.full)), k);
        },
        None => {
            let f = spec_filter(ctx.tf_allow, ctx.tf_block, cname.full);
            if f == FilteredState::Allowed || spec_has_name_entry(st.decisions, d.0) {
                lemma_dinsert_lookup(st.decisions, d.0,
                    DispV::Included(spec_rn_local(cname.full)), k);
                let st1 = StateView {
                    decisions: dinsert(st.decisions, d.0,
                        DispV::Included(spec_rn_local(cname.full))),
                    ..st
                };
                lemma_mono_add_emit(ctx, st1, d, kind, cname, depth, k);
            } else {
                match dlookup(st.decisions, d.0) {
                    Some(DispV::Pending(_)) => {},
                    _ => {
                        lemma_dinsert_lookup(st.decisions, d.0, DispV::Pending(cname), k);
                    },
                }
            }
        },
    }
}

/// Dependency edges of an included declaration never take a declaration
/// back out of included.
proof fn lemma_mono_add_emit(ctx: CtxView, st: StateView, d: DeclIndex, kind: EmitKind,
    cname: FqnV, depth: nat, k: u32)
    requires
        spec_is_included(st.decisions, k),
    ensures
        spec_is_included(spec_add_emit(ctx, st, d, kind, cname, depth).st.decisions, k),
    decreases depth, 4nat, 0nat,
{
    match kind {
        EmitKind::Alias(a) => {
            let e = spec_add_member_op(st, a.home_scope.0, d.0, cname.name);
            if e.ok {
                lemma_mono_include_decl(ctx, e.st, d, depth, k);
                let s2 = spec_include_decl(ctx, e.st, d, depth);
                lemma_mono_include_type(ctx, s2, a.aliasee, depth, k);
            }
        },
        EmitKind::Enumeration(en) => {
            let e = spec_add_member_op(st, en.home_scope.0, d.0, cname.name);
            if e.ok {
                lemma_mono_include_decl(ctx, e.st, d, depth, k);
                let s2 = spec_include_decl(ctx, e.st, d, depth);
                lemma_mono_include_type(ctx, s2, en.base, depth, k);
            }
        },
        EmitKind::Scoped(sc) => {
            let e = spec_add_member_op(st, sc.home_scope.0, d.0, cname.name);
            if e.ok {
                lemma_mono_include_decl(ctx, e.st, d, depth, k);
                let s2 = spec_include_decl(ctx, e.st, d, depth);
                lemma_mono_include_type(ctx, s2, sc.base, depth, k);
                let e3 = spec_include_type(ctx, s2, sc.base, depth);
                if e3.ok && sc.initializer != 0 {
                    lemma_mono_walk_scope(ctx, e3.st, sc.initializer, cname, depth, k);
                }
            }
        },
    }
}

/// Requiring a declaration never takes a declaration back out of included:
/// decisions move forward only.
pub proof fn lemma_mono_include_decl(ctx: CtxView, st: StateView, d: DeclIndex,
    depth: nat, k: u32)
    requires
        spec_is_included(st.decisions, k),
    ensures
        spec_is_included(spec_include_decl(ctx, st, d, depth).decisions, k),
    decreases depth, 3nat, 0nat,
{
    match dlookup(st.decisions, d.0) {
        Some(DispV::Pending(fqn)) => {
            lemma_dinsert_lookup(st.decisions, d.0,
                DispV::Included(spec_rn_local(fqn.full)), k);
            let st1 = StateView {
                decisions: dinsert(st.decisions, d.0,
                    DispV::Included(spec_rn_local(fqn.full))),
                ..st
            };
            if depth != 0 {
                match DeclSort::spec_from_u32(d.spec_tag()) {
                    Some(DeclSort::ALIAS) => if d.spec_index() < ctx.pv.decl_alias.len() {
                        lemma_mono_add_emit(ctx, st1, d,
                            EmitKind::Alias(ctx.pv.decl_alias[d.spec_index() as int]),
                            fqn, (depth - 1) as nat, k);
                    },
                    Some(DeclSort::SCOPE) => if d.spec_index() < ctx.pv.decl_scope.len() {
                        lemma_mono_add_emit(ctx, st1, d,
                            EmitKind::Scoped(ctx.pv.decl_scope[d.spec_index() as int]),
                            fqn, (depth - 1) as nat, k);
                    },
                    Some(DeclSort::ENUMERATION) => if d.spec_index()
                        < ctx.pv.decl_enum.len() {
                        lemma_mono_add_emit(ctx, st1, d,
                            EmitKind::Enumeration(ctx.pv.decl_enum[d.spec_index() as int]),
                            fqn, (depth - 1) as nat, k);
                    },
                    _ => {},
                }
            }
        },
        Some(_) => {},
        None => {
            lemma_dinsert_lookup(st.decisions, d.0, DispV::Required, k);
        },
    }
}

/// Following a type expression never takes a declaration back out of
/// included.
proof fn lemma_mono_include_type(ctx: CtxView, st: StateView, ty: TypeIndex, depth: nat,
    k: u32)
    requires
        spec_is_included(st.decisions, k),
    ensures
        spec_is_included(spec_include_type(ctx, st, ty, depth).st.decisions, k),
    decreases depth, 2nat, 0nat,
{
    if depth != 0 {
        match TypeSort::spec_from_u32(ty.spec_tag()) {
            Some(TypeSort::ARRAY) => if ty.spec_index() < ctx.pv.type_array.len() {
                lemma_mono_include_type(ctx, st,
                    ctx.pv.type_array[ty.spec_index() as int].element, (depth - 1) as nat,
                    k);
            },
            Some(TypeSort::BASE) => if ty.spec_index() < ctx.pv.type_base.len() {
                lemma_mono_include_type(ctx, st,
                    ctx.pv.type_base[ty.spec_index() as int].ty, (depth - 1) as nat, k);
            },
            Some(TypeSort::DESIGNATED) => if ty.spec_index()
                < ctx.pv.type_designated.len() {
                lemma_mono_include_decl(ctx, st,
                    ctx.pv.type_designated[ty.spec_index() as int], (depth - 1) as nat, k);
            },
            Some(TypeSort::LVALUE_REFERENCE) => if ty.spec_index()
                < ctx.pv.type_lvalue_reference.len() {
                lemma_mono_include_type(ctx, st,
                    ctx.pv.type_lvalue_reference[ty.spec_index() as int],
                    (depth - 1) as nat, k);
            },
            Some(TypeSort::POINTER) => if ty.spec_index() < ctx.pv.type_pointer.len() {
                lemma_mono_include_type(ctx, st,
                    ctx.pv.type_pointer[ty.spec_index() as int], (depth - 1) as nat, k);
            },
            Some(TypeSort::QUALIFIED) => if ty.spec_index() < ctx.pv.type_qualified.len() {
                lemma_mono_include_type(ctx, st,
                    ctx.pv.type_qualified[ty.spec_index() as int].unqualified_type,
                    (depth - 1) as nat, k);
            },
            Some(TypeSort::RVALUE_REFERENCE) => if ty.spec_index()
                < ctx.pv.type_rvalue_reference.len() {
                lemma_mono_include_type(ctx, st,
                    ctx.pv.type_rvalue_reference[ty.spec_index() as int],
                    (depth - 1) as nat, k);
            },
            Some(TypeSort::TUPLE) => if ty.spec_index() < ctx.pv.type_tuple.len() {
                let t = ctx.pv.type_tuple[ty.spec_index() as int];
                lemma_mono_include_tuple(ctx, st, t.start as int, t.cardinality as int,
                    depth, k);
            },
            _ => {},
        }
    }
}

/// Requiring the components of a tuple never takes a declaration back out
/// of included.
proof fn lemma_mono_include_tuple(ctx: CtxView, st: StateView, start: int, count: int,
    depth: nat, k: u32)
    requires
        spec_is_included(st.decisions, k),
    ensures
        spec_is_included(spec_include_tuple(ctx, st, start, count, depth).st.decisions, k),
    decreases depth, 1nat, (if count > 0 { count } else { 0 }),
{
    if count > 0 && depth != 0 && 0 <= start < ctx.pv.heap_type.len() {
        lemma_mono_include_type(ctx, st, ctx.pv.heap_type[start], (depth - 1) as nat, k);
        let e = spec_include_type(ctx, st, ctx.pv.heap_type[start], (depth - 1) as nat);
        if e.ok {
            lemma_mono_include_tuple(ctx, e.st, start + 1, count - 1, depth, k);
        }
    }
}

/// A declaration deferred as pending and later required as a dependency is
/// promoted to included, and stays included through the replay of its own
/// dependency edges.
pub proof fn lemma_dependency_promotion_general(ctx: CtxView, st: StateView, d: DeclIndex,
    fqn: FqnV, depth: nat)
    requires
        dlookup(st.decisions, d.0) == Some(DispV::Pending(fqn)),
    ensures
        spec_is_included(spec_include_decl(ctx, st, d, depth).decisions, d.0),
{
    lemma_dinsert_lookup(st.decisions, d.0, DispV::Included(spec_rn_local(fqn.full)), d.0);
    let st1 = StateView {
        decisions: dinsert(st.decisions, d.0, DispV::Included(spec_rn_local(fqn.full))),
        ..st
    };
    if depth != 0 {
        match DeclSort::spec_from_u32(d.spec_tag()) {
            Some(DeclSort::ALIAS) => if d.spec_index() < ctx.pv.decl_alias.len() {
                lemma_mono_add_emit(ctx, st1, d,
                    EmitKind::Alias(ctx.pv.decl_alias[d.spec_index() as int]), fqn,
                    (depth - 1) as nat, d.0);
            },
            Some(DeclSort::SCOPE) => if d.spec_index() < ctx.pv.decl_scope.len() {
                lemma_mono_add_emit(ctx, st1, d,
                    EmitKind::Scoped(ctx.pv.decl_scope[d.spec_index() as int]), fqn,
                    (depth - 1) as nat, d.0);
            },
            Some(DeclSort::ENUMERATION) => if d.spec_index() < ctx.pv.decl_enum.len() {
                lemma_mono_add_emit(ctx, st1, d,
                    EmitKind::Enumeration(ctx.pv.decl_enum[d.spec_index() as int]), fqn,
                    (depth - 1) as nat, d.0);
            },
            _ => {},
        }
    }
}

} // verus!
