//! In-memory tool registry: scope -> tool name -> tool schema.
//!
//! The registry is the authoritative runtime view of registered tools. It is
//! mutated only through upsert (last write wins), read through lookup (own
//! scope first, then the global scope) and list (scoped and global entries,
//! both returned), and rebuilt from a dumped store image on startup.

use vstd::prelude::*;

use crate::tool::{ToolModel, ToolSchema};
use crate::types::TwinId;

verus! {

/// Mathematical image of one registry entry.
pub struct EntryModel {
    pub scope: u128,
    pub tool: ToolModel,
}

/// One registered tool together with the scope it was registered under.
#[derive(Debug)]
pub struct RegEntry {
    pub scope: TwinId,
    pub tool: ToolSchema,
}

impl View for RegEntry {
    type V = EntryModel;

    open spec fn view(&self) -> EntryModel {
        EntryModel { scope: self.scope.0, tool: self.tool@ }
    }
}

impl DeepView for RegEntry {
    type V = EntryModel;

    open spec fn deep_view(&self) -> EntryModel {
        self.view()
    }
}

impl Clone for RegEntry {
    fn clone(&self) -> (r: Self)
        ensures
            r@ == self@,
    {
        RegEntry { scope: self.scope, tool: self.tool.clone() }
    }
}

/// The dispatch key of an entry: scope plus tool name. A name is unique
/// within its scope; re-registering it overwrites the prior definition.
pub open spec fn entry_key(e: EntryModel) -> (u128, Seq<char>) {
    (e.scope, e.tool.name)
}

/// No two entries share a key.
pub open spec fn wf_seq(s: Seq<EntryModel>) -> bool {
    forall|i: int, j: int|
        0 <= i < j < s.len() ==> #[trigger] entry_key(s[i]) != #[trigger] entry_key(s[j])
}

/// The registry contents as a finite map from key to tool.
pub open spec fn map_of(s: Seq<EntryModel>) -> Map<(u128, Seq<char>), ToolModel>
    decreases s.len(),
{
    if s.len() == 0 {
        Map::empty()
    } else {
        map_of(s.drop_last()).insert(entry_key(s.last()), s.last().tool)
    }
}

/// What lookup returns: the scoped tool if present, else the global tool,
/// else nothing. A locally-scoped tool shadows a global tool of the same
/// name.
pub open spec fn lookup_spec(
    m: Map<(u128, Seq<char>), ToolModel>,
    scope: u128,
    name: Seq<char>,
) -> Option<ToolModel> {
    if m.contains_key((scope, name)) {
        Some(m[(scope, name)])
    } else if m.contains_key((0u128, name)) {
        Some(m[(0u128, name)])
    } else {
        None
    }
}

/// The tools of one scope, in registration order.
pub open spec fn scoped_of(s: Seq<EntryModel>, scope: u128) -> Seq<ToolModel>
    decreases s.len(),
{
    if s.len() == 0 {
        Seq::empty()
    } else {
        let rest = scoped_of(s.drop_last(), scope);
        if s.last().scope == scope {
            rest.push(s.last().tool)
        } else {
            rest
        }
    }
}

/// What list returns: the caller's scoped tools followed by the global
/// tools. Scoped entries do not override the result set; both are returned.
pub open spec fn list_spec(s: Seq<EntryModel>, scope: u128) -> Seq<ToolModel> {
    scoped_of(s, scope) + scoped_of(s, 0u128)
}

/// Every entry's tool, across all scopes.
pub open spec fn all_tools_of(s: Seq<EntryModel>) -> Seq<ToolModel> {
    s.map_values(|e: EntryModel| e.tool)
}

/// The map that results from upserting every entry of `s`, in order, into
/// `m`.
pub open spec fn insert_all(
    m: Map<(u128, Seq<char>), ToolModel>,
    s: Seq<EntryModel>,
) -> Map<(u128, Seq<char>), ToolModel>
    decreases s.len(),
{
    if s.len() == 0 {
        m
    } else {
        insert_all(m, s.drop_last()).insert(entry_key(s.last()), s.last().tool)
    }
}

/// The in-memory registry.
pub struct Registry {
    entries: Vec<RegEntry>,
}

impl View for Registry {
    type V = Seq<EntryModel>;

    closed spec fn view(&self) -> Seq<EntryModel> {
        self.entries.deep_view()
    }
}

pub proof fn lemma_map_of_push(s: Seq<EntryModel>, e: EntryModel)
    ensures
        map_of(s.push(e)) == map_of(s).insert(entry_key(e), e.tool),
{
    assert(s.push(e).drop_last() =~= s);
    assert(s.push(e).last() == e);
}

/// Each entry of a well-formed sequence is found in the map under its key.
pub proof fn lemma_map_of_index(s: Seq<EntryModel>, i: int)
    requires
        wf_seq(s),
        0 <= i < s.len(),
    ensures
        map_of(s).contains_key(entry_key(s[i])),
        map_of(s)[entry_key(s[i])] == s[i].tool,
    decreases s.len(),
{
    if i == s.len() - 1 {
    } else {
        assert(entry_key(s[i]) != entry_key(s.last()));
        assert(s.drop_last()[i] == s[i]);
        lemma_map_of_index(s.drop_last(), i);
    }
}

/// Every key of the map comes from some entry.
pub proof fn lemma_map_of_domain(s: Seq<EntryModel>, k: (u128, Seq<char>))
    requires
        map_of(s).contains_key(k),
    ensures
        exists|i: int| 0 <= i < s.len() && #[trigger] entry_key(s[i]) == k,
    decreases s.len(),
{
    if s.len() == 0 {
    } else if entry_key(s.last()) == k {
        assert(entry_key(s[s.len() - 1]) == k);
    } else {
        lemma_map_of_domain(s.drop_last(), k);
        let i = choose|i: int|
            0 <= i < s.drop_last().len() && #[trigger] entry_key(s.drop_last()[i]) == k;
        assert(entry_key(s[i]) == k);
    }
}

/// Replacing an entry in place under the same key updates the map at that
/// key and nothing else.
proof fn lemma_map_of_update(s: Seq<EntryModel>, i: int, e: EntryModel)
    requires
        wf_seq(s),
        0 <= i < s.len(),
        entry_key(s[i]) == entry_key(e),
    ensures
        map_of(s.update(i, e)) == map_of(s).insert(entry_key(e), e.tool),
    decreases s.len(),
{
    let t = s.update(i, e);
    if i == s.len() - 1 {
        assert(t.drop_last() =~= s.drop_last());
        assert(t.last() == e);
        assert(map_of(t) == map_of(s.drop_last()).insert(entry_key(e), e.tool));
        assert(map_of(s).insert(entry_key(e), e.tool) =~= map_of(s.drop_last()).insert(
            entry_key(e),
            e.tool,
        ));
    } else {
        assert(t.drop_last() =~= s.drop_last().update(i, e));
        assert(t.last() == s.last());
        assert(s.drop_last()[i] == s[i]);
        lemma_map_of_update(s.drop_last(), i, e);
        assert(entry_key(s[i]) != entry_key(s[s.len() - 1]));
        assert(map_of(t) == map_of(s.drop_last()).insert(entry_key(e), e.tool).insert(
            entry_key(s.last()),
            s.last().tool,
        ));
        assert(map_of(s.drop_last()).insert(entry_key(e), e.tool).insert(
            entry_key(s.last()),
            s.last().tool,
        ) =~= map_of(s.drop_last()).insert(entry_key(s.last()), s.last().tool).insert(
            entry_key(e),
            e.tool,
        ));
    }
}

/// A well-formed sequence has exactly one entry per key of its map.
pub proof fn lemma_wf_len(s: Seq<EntryModel>)
    requires
        wf_seq(s),
    ensures
        map_of(s).dom().finite(),
        map_of(s).dom().len() == s.len(),
    decreases s.len(),
{
    if s.len() == 0 {
        assert(map_of(s).dom() =~= Set::<(u128, Seq<char>)>::empty());
    } else {
        lemma_wf_len(s.drop_last());
        if map_of(s.drop_last()).contains_key(entry_key(s.last())) {
            lemma_map_of_domain(s.drop_last(), entry_key(s.last()));
            let i = choose|i: int|
                0 <= i < s.drop_last().len() && #[trigger] entry_key(s.drop_last()[i])
                    == entry_key(s.last());
            assert(entry_key(s[i]) == entry_key(s[s.len() - 1]));
            assert(false);
        }
        assert(map_of(s).dom() =~= map_of(s.drop_last()).dom().insert(entry_key(s.last())));
    }
}

/// Upserting a batch on top of a batch already upserted changes nothing:
/// one registration pass is idempotent.
pub proof fn lemma_insert_all_idempotent(m: Map<(u128, Seq<char>), ToolModel>, s: Seq<EntryModel>)
    ensures
        insert_all(insert_all(m, s), s) == insert_all(m, s),
    decreases s.len(),
{
    lemma_insert_all_union(insert_all(m, s), s);
    lemma_insert_all_union(m, s);
    assert(insert_all(m, s).union_prefer_right(insert_all(Map::empty(), s)) =~= m
        .union_prefer_right(insert_all(Map::empty(), s)));
}

/// Upserting a batch is the same as overlaying the batch's own map.
proof fn lemma_insert_all_union(m: Map<(u128, Seq<char>), ToolModel>, s: Seq<EntryModel>)
    ensures
        insert_all(m, s) == m.union_prefer_right(insert_all(Map::empty(), s)),
    decreases s.len(),
{
    if s.len() == 0 {
        assert(insert_all(m, s) =~= m.union_prefer_right(Map::empty()));
    } else {
        lemma_insert_all_union(m, s.drop_last());
        lemma_insert_all_union(Map::empty(), s.drop_last());
        assert(insert_all(m, s) =~= m.union_prefer_right(insert_all(Map::empty(), s)));
    }
}

/// Registration order within a prefix: one more entry extends the scoped
/// projection exactly when its scope matches.
proof fn lemma_scoped_of_step(s: Seq<EntryModel>, i: int, scope: u128)
    requires
        0 <= i < s.len(),
    ensures
        scoped_of(s.take(i + 1), scope) == if s[i].scope == scope {
            scoped_of(s.take(i), scope).push(s[i].tool)
        } else {
            scoped_of(s.take(i), scope)
        },
{
    assert(s.take(i + 1).drop_last() =~= s.take(i));
    assert(s.take(i + 1).last() == s[i]);
}

impl Registry {
    /// Well-formedness: no two entries share a (scope, name) key.
    pub open spec fn wf(&self) -> bool {
        wf_seq(self@)
    }

    /// An empty registry.
    pub fn new() -> (r: Registry)
        ensures
            r.wf(),
            r@ =~= Seq::<EntryModel>::empty(),
    {
        Registry { entries: Vec::new() }
    }

    /// Index of the entry registered under `(scope, name)`, if any.
    fn find_index(&self, scope: TwinId, name: &String) -> (r: Option<usize>)
        ensures
            match r {
                Some(i) => i < self@.len() && entry_key(self@[i as int]) == (scope.0, name@),
                None => forall|i: int|
                    0 <= i < self@.len() ==> #[trigger] entry_key(self@[i]) != (scope.0, name@),
            },
    {
        let n = self.entries.len();
        let mut i: usize = 0;
        while i < n
            invariant
                n == self@.len(),
                i <= n,
                forall|j: int| 0 <= j < i ==> #[trigger] entry_key(self@[j]) != (scope.0, name@),
            decreases n - i,
        {
            let e = &self.entries[i];
            if e.scope == scope && e.tool.name == *name {
                assert(entry_key(self@[i as int]) == (scope.0, name@));
                return Some(i);
            }
            assert(entry_key(self@[i as int]) != (scope.0, name@));
            i = i + 1;
        }
        None
    }

    /// Register or overwrite a tool under a scope. Last write wins: the map
    /// gains or replaces exactly the `(scope, name)` binding.
    pub fn upsert(&mut self, scope: TwinId, tool: ToolSchema)
        requires
            old(self).wf(),
        ensures
            final(self).wf(),
            map_of(final(self)@) == map_of(old(self)@).insert((scope.0, tool@.name), tool@),
            map_of(old(self)@).contains_key((scope.0, tool@.name)) ==> final(self)@.len() == old(
                self,
            )@.len(),
            !map_of(old(self)@).contains_key((scope.0, tool@.name)) ==> final(self)@ == old(
                self,
            )@.push(EntryModel { scope: scope.0, tool: tool@ }),
    {
        let ghost old_seq = self@;
        let entry = RegEntry { scope, tool };
        let ghost e = entry@;
        match self.find_index(scope, &entry.tool.name) {
            Some(i) => {
                proof {
                    lemma_map_of_index(old_seq, i as int);
                    lemma_map_of_update(old_seq, i as int, e);
                }
                self.entries.remove(i);
                self.entries.insert(i, entry);
                proof {
                    assert(self@ =~= old_seq.update(i as int, e));
                    assert forall|p: int, q: int| 0 <= p < q < self@.len() implies #[trigger] entry_key(
                        self@[p],
                    ) != #[trigger] entry_key(self@[q]) by {
                        assert(entry_key(old_seq[p]) != entry_key(old_seq[q]));
                        assert(entry_key(self@[p]) == if p == i {
                            entry_key(e)
                        } else {
                            entry_key(old_seq[p])
                        });
                        assert(entry_key(self@[q]) == if q == i {
                            entry_key(e)
                        } else {
                            entry_key(old_seq[q])
                        });
                    }
                }
            },
            None => {
                self.entries.push(entry);
                proof {
                    assert(self@ =~= old_seq.push(e));
                    lemma_map_of_push(old_seq, e);
                    if map_of(old_seq).contains_key(entry_key(e)) {
                        lemma_map_of_domain(old_seq, entry_key(e));
                        assert(false);
                    }
                    assert forall|p: int, q: int| 0 <= p < q < self@.len() implies #[trigger] entry_key(
                        self@[p],
                    ) != #[trigger] entry_key(self@[q]) by {
                        if q < self@.len() - 1 {
                            assert(entry_key(old_seq[p]) != entry_key(old_seq[q]));
                        } else {
                            assert(entry_key(self@[p]) == entry_key(old_seq[p]));
                        }
                    }
                }
            },
        }
    }

    /// Resolve a tool name for a caller scope: the scoped definition if
    /// present, else the global one, else nothing.
    pub fn lookup(&self, scope: TwinId, name: &String) -> (r: Option<ToolSchema>)
        requires
            self.wf(),
        ensures
            match r {
                Some(t) => lookup_spec(map_of(self@), scope.0, name@) == Some(t@),
                None => lookup_spec(map_of(self@), scope.0, name@) is None,
            },
    {
        match self.find_index(scope, name) {
            Some(i) => {
                proof {
                    lemma_map_of_index(self@, i as int);
                }
                Some(self.entries[i].tool.clone())
            },
            None => {
                proof {
                    if map_of(self@).contains_key((scope.0, name@)) {
                        lemma_map_of_domain(self@, (scope.0, name@));
                        assert(false);
                    }
                }
                if scope.0 == 0 {
                    None
                } else {
                    match self.find_index(TwinId(0), name) {
                        Some(i) => {
                            proof {
                                lemma_map_of_index(self@, i as int);
                            }
                            Some(self.entries[i].tool.clone())
                        },
                        None => {
                            proof {
                                if map_of(self@).contains_key((0u128, name@)) {
                                    lemma_map_of_domain(self@, (0u128, name@));
                                    assert(false);
                                }
                            }
                            None
                        },
                    }
                }
            },
        }
    }

    /// Append every tool of one scope, in registration order.
    fn push_scoped(&self, scope: u128, out: &mut Vec<ToolSchema>)
        ensures
            final(out).deep_view() == old(out).deep_view() + scoped_of(self@, scope),
    {
        let ghost first = out.deep_view();
        let n = self.entries.len();
        let mut j: usize = 0;
        proof {
            assert(self@.take(0int) =~= Seq::<EntryModel>::empty());
            assert(first + scoped_of(self@.take(0int), scope) =~= first);
        }
        while j < n
            invariant
                n == self@.len(),
                j <= n,
                out.deep_view() == first + scoped_of(self@.take(j as int), scope),
            decreases n - j,
        {
            proof {
                lemma_scoped_of_step(self@, j as int, scope);
            }
            let e = &self.entries[j];
            if e.scope.0 == scope {
                let ghost pre = out.deep_view();
                out.push(e.tool.clone());
                proof {
                    assert(out.deep_view() =~= pre.push(e.tool@));
                    assert(pre.push(e.tool@) =~= first + scoped_of(
                        self@.take(j as int + 1),
                        scope,
                    ));
                }
            }
            j = j + 1;
        }
        proof {
            assert(self@.take(n as int) =~= self@);
        }
    }

    /// All tools visible to a scope: its own, then the global ones. The
    /// global scope's own section is the global section, so a caller asking
    /// as the global scope is handed that section twice.
    pub fn list(&self, scope: TwinId) -> (r: Vec<ToolSchema>)
        ensures
            r.deep_view() == list_spec(self@, scope.0),
    {
        let mut out: Vec<ToolSchema> = Vec::new();
        proof {
            assert(out.deep_view() =~= Seq::<ToolModel>::empty());
            assert(Seq::<ToolModel>::empty() + scoped_of(self@, scope.0) =~= scoped_of(
                self@,
                scope.0,
            ));
        }
        self.push_scoped(scope.0, &mut out);
        self.push_scoped(0u128, &mut out);
        out
    }

    /// Every registered tool, across all scopes, in registration order.
    pub fn list_all(&self) -> (r: Vec<ToolSchema>)
        ensures
            r.deep_view() == all_tools_of(self@),
    {
        let n = self.entries.len();
        let mut out: Vec<ToolSchema> = Vec::new();
        let mut i: usize = 0;
        proof {
            assert(out.deep_view() =~= all_tools_of(self@.take(0int)));
        }
        while i < n
            invariant
                n == self@.len(),
                i <= n,
                out.deep_view() == all_tools_of(self@.take(i as int)),
            decreases n - i,
        {
            let e = &self.entries[i];
            let ghost pre = out.deep_view();
            out.push(e.tool.clone());
            proof {
                assert(out.deep_view() =~= pre.push(e.tool@));
                assert(pre.push(e.tool@) =~= all_tools_of(self@.take(i as int + 1)));
            }
            i = i + 1;
        }
        proof {
            assert(self@.take(n as int) =~= self@);
        }
        out
    }

    /// The registry's contents as a flat image, suitable for a persistent
    /// store: `rehydrate` rebuilds an identical registry from it.
    pub fn dump(&self) -> (r: Vec<RegEntry>)
        ensures
            r.deep_view() == self@,
    {
        let n = self.entries.len();
        let mut out: Vec<RegEntry> = Vec::new();
        let mut i: usize = 0;
        proof {
            assert(out.deep_view() =~= self@.take(0int));
        }
        while i < n
            invariant
                n == self@.len(),
                i <= n,
                out.deep_view() == self@.take(i as int),
            decreases n - i,
        {
            let e = self.entries[i].clone();
            let ghost ev = e@;
            let ghost pre = out.deep_view();
            out.push(e);
            proof {
                assert(out.deep_view() =~= pre.push(ev));
                assert(pre.push(ev) =~= self@.take(i as int + 1));
            }
            i = i + 1;
        }
        proof {
            assert(self@.take(n as int) =~= self@);
        }
        out
    }

    /// Rebuild the in-memory registry from a store image by upserting every
    /// item in order. On a well-formed image (as `dump` produces) this
    /// reproduces the dumped registry exactly, so every scope's `list`
    /// result is identical after the restart.
    pub fn rehydrate(items: Vec<RegEntry>) -> (r: Registry)
        ensures
            r.wf(),
            map_of(r@) == insert_all(Map::empty(), items.deep_view()),
            wf_seq(items.deep_view()) ==> r@ == items.deep_view(),
    {
        let ghost all = items.deep_view();
        let n = items.len();
        let mut reg = Registry::new();
        let mut i: usize = 0;
        proof {
            assert(all.take(0int) =~= Seq::<EntryModel>::empty());
        }
        while i < n
            invariant
                n == all.len(),
                all == items.deep_view(),
                i <= n,
                reg.wf(),
                map_of(reg@) == insert_all(Map::empty(), all.take(i as int)),
                wf_seq(all) ==> reg@ == all.take(i as int),
            decreases n - i,
        {
            let ghost pre = reg@;
            let item = items[i].clone();
            reg.upsert(item.scope, item.tool);
            proof {
                assert(all.take(i as int + 1).drop_last() =~= all.take(i as int));
                assert(all.take(i as int + 1).last() == all[i as int]);
                assert(entry_key(all[i as int]) == (item.scope.0, item.tool@.name));
                if wf_seq(all) {
                    if map_of(pre).contains_key(entry_key(all[i as int])) {
                        lemma_map_of_domain(pre, entry_key(all[i as int]));
                        let j = choose|j: int|
                            0 <= j < pre.len() && #[trigger] entry_key(pre[j]) == entry_key(
                                all[i as int],
                            );
                        assert(entry_key(all[j]) == entry_key(all[i as int]));
                        assert(false);
                    }
                    assert(reg@ =~= all.take(i as int + 1));
                }
            }
            i = i + 1;
        }
        proof {
            assert(all.take(n as int) =~= all);
        }
        reg
    }

    /// Upsert a batch of entries, in order, as one discovery pass does.
    pub fn register_all(&mut self, items: &Vec<RegEntry>)
        requires
            old(self).wf(),
        ensures
            final(self).wf(),
            map_of(final(self)@) == insert_all(map_of(old(self)@), items.deep_view()),
    {
        let ghost all = items.deep_view();
        let n = items.len();
        let mut i: usize = 0;
        proof {
            assert(all.take(0int) =~= Seq::<EntryModel>::empty());
        }
        while i < n
            invariant
                n == all.len(),
                all == items.deep_view(),
                i <= n,
                self.wf(),
                map_of(self@) == insert_all(map_of(old(self)@), all.take(i as int)),
            decreases n - i,
        {
            let item = items[i].clone();
            self.upsert(item.scope, item.tool);
            proof {
                assert(all.take(i as int + 1).drop_last() =~= all.take(i as int));
                assert(all.take(i as int + 1).last() == all[i as int]);
            }
            i = i + 1;
        }
        proof {
            assert(all.take(n as int) =~= all);
        }
    }
}

/// The persistent store's key for the global-scope namespace.
pub fn global_tools_key() -> (r: String)
    ensures
        r@ == "pagi:tools:global"@,
{
    "pagi:tools:global".to_owned()
}

/// The persistent store's key for one twin's namespace; `twin_id` is the
/// twin's textual identifier.
pub fn twin_key(twin_id: &str) -> (r: String)
    ensures
        r@ == "pagi:tools:twin:"@ + twin_id@,
{
    let mut k = "pagi:tools:twin:".to_owned();
    k.append(twin_id);
    k
}

/// Scope shadowing: where a name is registered both at a scope and
/// globally, lookup at that scope returns the scoped definition, and lookup
/// at any other scope without its own definition falls back to the global
/// one.
pub proof fn lemma_scope_shadowing(
    m: Map<(u128, Seq<char>), ToolModel>,
    scope: u128,
    other: u128,
    name: Seq<char>,
)
    requires
        m.contains_key((scope, name)),
        m.contains_key((0u128, name)),
    ensures
        lookup_spec(m, scope, name) == Some(m[(scope, name)]),
        other != scope && !m.contains_key((other, name)) ==> lookup_spec(m, other, name) == Some(
            m[(0u128, name)],
        ),
{
}

/// Upsert idempotence, map part: writing the same binding twice leaves the
/// registry map exactly as one write does.
pub proof fn lemma_upsert_idempotent(
    m: Map<(u128, Seq<char>), ToolModel>,
    scope: u128,
    name: Seq<char>,
    tool: ToolModel,
)
    ensures
        m.insert((scope, name), tool).insert((scope, name), tool) == m.insert((scope, name), tool),
{
    assert(m.insert((scope, name), tool).insert((scope, name), tool) =~= m.insert(
        (scope, name),
        tool,
    ));
}

/// The scoped projection holds exactly one tool of a given name when the
/// map holds that binding, and none when it does not.
proof fn lemma_scoped_named(s: Seq<EntryModel>, scope: u128, name: Seq<char>)
    requires
        wf_seq(s),
    ensures
        map_of(s).contains_key((scope, name)) ==> scoped_of(s, scope).filter(
            |t: ToolModel| t.name == name,
        ) =~= seq![map_of(s)[(scope, name)]],
        !map_of(s).contains_key((scope, name)) ==> scoped_of(s, scope).filter(
            |t: ToolModel| t.name == name,
        ) =~= Seq::<ToolModel>::empty(),
    decreases s.len(),
{
    reveal(Seq::filter);
    let p = |t: ToolModel| t.name == name;
    if s.len() == 0 {
        assert(scoped_of(s, scope).filter(p) =~= Seq::<ToolModel>::empty());
    } else {
        let rest = s.drop_last();
        let e = s.last();
        lemma_scoped_named(rest, scope, name);
        let base = scoped_of(rest, scope);
        if e.scope == scope {
            assert(scoped_of(s, scope) == base.push(e.tool));
            assert(base.push(e.tool).drop_last() =~= base);
            assert(base.push(e.tool).last() == e.tool);
            assert(scoped_of(s, scope).filter(p) == if p(e.tool) {
                base.filter(p).push(e.tool)
            } else {
                base.filter(p)
            });
            if e.tool.name == name {
                if map_of(rest).contains_key((scope, name)) {
                    lemma_map_of_domain(rest, (scope, name));
                    let j = choose|j: int|
                        0 <= j < rest.len() && #[trigger] entry_key(rest[j]) == (scope, name);
                    assert(entry_key(s[j]) == entry_key(s[s.len() - 1]));
                    assert(false);
                }
                assert(base.filter(p) =~= Seq::<ToolModel>::empty());
                assert(scoped_of(s, scope).filter(p) =~= seq![e.tool]);
                assert(map_of(s)[(scope, name)] == e.tool);
            } else {
                assert(entry_key(e) != (scope, name));
                assert(map_of(s).contains_key((scope, name)) == map_of(rest).contains_key(
                    (scope, name),
                ));
            }
        } else {
            assert(scoped_of(s, scope) == base);
            assert(entry_key(e) != (scope, name));
            assert(map_of(s).contains_key((scope, name)) == map_of(rest).contains_key(
                (scope, name),
            ));
        }
    }
}

/// Upsert idempotence, list part: where exactly one binding of a name
/// exists for a non-global scope and none globally, the scope's list holds
/// exactly one entry of that name, equal to that binding.
pub proof fn lemma_upsert_list_once(s: Seq<EntryModel>, scope: u128, name: Seq<char>)
    requires
        wf_seq(s),
        scope != 0,
        map_of(s).contains_key((scope, name)),
        !map_of(s).contains_key((0u128, name)),
    ensures
        list_spec(s, scope).filter(|t: ToolModel| t.name == name) =~= seq![
            map_of(s)[(scope, name)],
        ],
{
    lemma_scoped_named(s, scope, name);
    lemma_scoped_named(s, 0u128, name);
    Seq::filter_distributes_over_add(
        scoped_of(s, scope),
        scoped_of(s, 0u128),
        |t: ToolModel| t.name == name,
    );
}

} // verus!
