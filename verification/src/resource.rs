//! The shared compiler resource: the opaque key-value stores for
//! compiled-module artifacts, the module index and the module
//! dependency graph, held together for a whole session. The kernel
//! only requires the `initialize` (clear-to-empty) lifecycle and
//! insert/lookup on the caches; everything stored is opaque to it.

use vstd::prelude::*;

verus! {

/// The configuration record the kernel consumes at startup: at least
/// the target-platform compatibility flag, which decides visibility
/// defaults and foreign-compatible aliases of well-known types.
#[derive(Debug, Clone, Copy, PartialEq, Eq, Structural)]
pub struct ErgConfig {
    pub py_compatible: bool,
}

impl ErgConfig {
    /// An explicit copy of the configuration.
    pub fn copy(&self) -> (r: ErgConfig)
        ensures
            r == *self,
    {
        *self
    }
}

/// First cache entry at or after `k` whose path is `p`.
pub open spec fn cache_from(es: Seq<(Seq<char>, u64)>, p: Seq<char>, k: int) -> Option<int>
    decreases es.len() - k,
{
    if k < 0 || k >= es.len() {
        None
    } else if es[k].0 == p {
        Some(k)
    } else {
        cache_from(es, p, k + 1)
    }
}

/// The artifact a cache holds under a path.
pub open spec fn cache_lookup(es: Seq<(Seq<char>, u64)>, p: Seq<char>) -> Option<u64> {
    match cache_from(es, p, 0) {
        Some(k) => Some(es[k].1),
        None => None,
    }
}

/// Characterizes `cache_from`.
pub proof fn lemma_cache_from(es: Seq<(Seq<char>, u64)>, p: Seq<char>, k: int)
    requires
        0 <= k <= es.len(),
    ensures
        match cache_from(es, p, k) {
            Some(l) => {
                &&& k <= l < es.len()
                &&& es[l].0 == p
                &&& forall|j: int| k <= j < l ==> (#[trigger] es[j]).0 != p
            },
            None => forall|j: int| k <= j < es.len() ==> (#[trigger] es[j]).0 != p,
        },
    decreases es.len() - k,
{
    if k < es.len() && es[k].0 != p {
        lemma_cache_from(es, p, k + 1);
    }
}

/// An opaque store of compiled-module artifacts, keyed by module
/// path; artifacts themselves are opaque handles to the kernel.
#[derive(Debug)]
pub struct ModuleCache {
    pub cfg: ErgConfig,
    pub entries: Vec<(String, u64)>,
}

impl ModuleCache {
    /// The view of the store's contents.
    pub open spec fn view_entries(self) -> Seq<(Seq<char>, u64)> {
        Seq::new(self.entries@.len(), |i: int| (self.entries@[i].0@, self.entries@[i].1))
    }

    /// An empty cache for the given configuration.
    pub fn new(cfg: ErgConfig) -> (r: ModuleCache)
        ensures
            r.cfg == cfg,
            r.view_entries().len() == 0,
    {
        let r = ModuleCache { cfg, entries: Vec::new() };
        proof {
            assert(r.view_entries() =~= Seq::<(Seq<char>, u64)>::empty());
        }
        r
    }

    /// Clears the store to empty; part of the session reset.
    pub fn initialize(&mut self)
        ensures
            final(self).cfg == old(self).cfg,
            final(self).view_entries().len() == 0,
    {
        self.entries.clear();
        proof {
            assert(self.view_entries() =~= Seq::<(Seq<char>, u64)>::empty());
        }
    }

    /// Inserts an artifact under a path, replacing an earlier one.
    pub fn insert(&mut self, path: String, artifact: u64)
        ensures
            final(self).cfg == old(self).cfg,
            cache_lookup(final(self).view_entries(), path@) == Some(artifact),
            forall|q: Seq<char>|
                q != path@ ==> #[trigger] cache_lookup(final(self).view_entries(), q)
                    == cache_lookup(old(self).view_entries(), q),
    {
        let ghost old_es = self.view_entries();
        let mut i: usize = 0;
        while i < self.entries.len()
            invariant
                i <= self.entries@.len(),
                self.entries@ == old(self).entries@,
                self.cfg == old(self).cfg,
                forall|j: int| 0 <= j < i ==> (#[trigger] self.entries@[j]).0@ != path@,
            decreases self.entries@.len() - i,
        {
            if self.entries[i].0.eq(&path) {
                let ghost pre = self.view_entries();
                self.entries.set(i, (path, artifact));
                proof {
                    lemma_insert_set_ok(pre, self.view_entries(), path@, artifact, i as int);
                }
                return ;
            }
            i = i + 1;
        }
        let ghost pre = self.view_entries();
        self.entries.push((path, artifact));
        proof {
            lemma_insert_push_ok(pre, self.view_entries(), path@, artifact);
        }
    }

    /// Looks an artifact up by path.
    pub fn get(&self, path: &str) -> (r: Option<u64>)
        ensures
            r == cache_lookup(self.view_entries(), path@),
    {
        proof {
            lemma_cache_from(self.view_entries(), path@, 0);
        }
        let owned = path.to_owned();
        let mut i: usize = 0;
        while i < self.entries.len()
            invariant
                i <= self.entries@.len(),
                owned@ == path@,
                forall|j: int| 0 <= j < i ==> (#[trigger] self.entries@[j]).0@ != path@,
            decreases self.entries@.len() - i,
        {
            if self.entries[i].0.eq(&owned) {
                proof {
                    lemma_cache_from(self.view_entries(), path@, 0);
                    assert(self.view_entries()[i as int] == (
                        self.entries@[i as int].0@,
                        self.entries@[i as int].1,
                    ));
                }
                return Some(self.entries[i].1);
            }
            i = i + 1;
        }
        proof {
            lemma_cache_from(self.view_entries(), path@, 0);
        }
        None
    }
}

/// Replacing the first entry for a path keeps every other lookup.
proof fn lemma_insert_set_ok(
    pre: Seq<(Seq<char>, u64)>,
    post: Seq<(Seq<char>, u64)>,
    p: Seq<char>,
    a: u64,
    i: int,
)
    requires
        0 <= i < pre.len(),
        post =~= pre.update(i, (p, a)),
        pre[i].0 == p,
        forall|j: int| 0 <= j < i ==> (#[trigger] pre[j]).0 != p,
    ensures
        cache_lookup(post, p) == Some(a),
        forall|q: Seq<char>|
            q != p ==> #[trigger] cache_lookup(post, q) == cache_lookup(pre, q),
{
    lemma_cache_from(post, p, 0);
    assert forall|j: int| 0 <= j < i implies (#[trigger] post[j]).0 != p by {
        assert(post[j] == pre[j]);
    }
    lemma_cache_unique_prefix(post, p, i);
    assert forall|q: Seq<char>| q != p implies #[trigger] cache_lookup(post, q) == cache_lookup(
        pre,
        q,
    ) by {
        lemma_cache_same(pre, post, q, i, (p, a));
    }
}

/// With a first match at `i`, lookup returns that entry's value.
proof fn lemma_cache_unique_prefix(es: Seq<(Seq<char>, u64)>, p: Seq<char>, i: int)
    requires
        0 <= i < es.len(),
        es[i].0 == p,
        forall|j: int| 0 <= j < i ==> (#[trigger] es[j]).0 != p,
    ensures
        cache_lookup(es, p) == Some(es[i].1),
{
    lemma_cache_from(es, p, 0);
    match cache_from(es, p, 0) {
        Some(l) => {
            if l < i {
                assert(es[l].0 != p);
            }
            if i < l {
                assert(es[i].0 != p);
            }
        },
        None => {
            assert(es[i].0 != p);
        },
    }
}

/// Changing one entry whose key is not `q` leaves `q`'s lookup alone.
proof fn lemma_cache_same(
    pre: Seq<(Seq<char>, u64)>,
    post: Seq<(Seq<char>, u64)>,
    q: Seq<char>,
    i: int,
    e: (Seq<char>, u64),
)
    requires
        0 <= i < pre.len(),
        post =~= pre.update(i, e),
        e.0 != q,
        pre[i].0 != q || pre[i] == e,
    ensures
        cache_lookup(post, q) == cache_lookup(pre, q),
{
    lemma_cache_from(pre, q, 0);
    lemma_cache_from(post, q, 0);
    match cache_from(pre, q, 0) {
        Some(l) => {
            assert(post[l] == pre[l] || l == i);
            assert(post[l].0 == q);
            lemma_cache_unique_prefix(post, q, l);
        },
        None => {
            match cache_from(post, q, 0) {
                Some(l2) => {
                    assert(pre[l2].0 != q);
                    assert(post[l2] == pre[l2] || l2 == i);
                },
                None => {},
            }
        },
    }
}

/// Appending a fresh path serves it and keeps every other lookup.
proof fn lemma_insert_push_ok(
    pre: Seq<(Seq<char>, u64)>,
    post: Seq<(Seq<char>, u64)>,
    p: Seq<char>,
    a: u64,
)
    requires
        post =~= pre.push((p, a)),
        forall|j: int| 0 <= j < pre.len() ==> (#[trigger] pre[j]).0 != p,
    ensures
        cache_lookup(post, p) == Some(a),
        forall|q: Seq<char>|
            q != p ==> #[trigger] cache_lookup(post, q) == cache_lookup(pre, q),
{
    assert forall|j: int| 0 <= j < post.len() - 1 implies (#[trigger] post[j]).0 != p by {
        assert(post[j] == pre[j]);
    }
    lemma_cache_unique_prefix(post, p, post.len() - 1);
    assert forall|q: Seq<char>| q != p implies #[trigger] cache_lookup(post, q) == cache_lookup(
        pre,
        q,
    ) by {
        lemma_cache_from(pre, q, 0);
        lemma_cache_from(post, q, 0);
        match cache_from(pre, q, 0) {
            Some(l) => {
                assert(post[l] == pre[l]);
                lemma_cache_unique_prefix(post, q, l);
            },
            None => {
                match cache_from(post, q, 0) {
                    Some(l2) => {
                        if l2 < post.len() - 1 {
                            assert(pre[l2].0 != q);
                        }
                    },
                    None => {},
                }
            },
        }
    }
}

/// The index of member references across modules; opaque to the
/// kernel, holding only its clear-to-empty lifecycle here.
#[derive(Debug)]
pub struct ModuleIndex {
    pub members: Vec<String>,
}

impl ModuleIndex {
    /// An empty index.
    pub fn new() -> (r: ModuleIndex)
        ensures
            r.members@.len() == 0,
    {
        ModuleIndex { members: Vec::new() }
    }

    /// Clears the index to empty; part of the session reset.
    pub fn initialize(&mut self)
        ensures
            final(self).members@.len() == 0,
    {
        self.members.clear();
    }
}

/// The dependency graph between modules; opaque to the kernel,
/// holding only its clear-to-empty lifecycle here.
#[derive(Debug)]
pub struct ModuleGraph {
    pub edges: Vec<(String, String)>,
}

impl ModuleGraph {
    /// An empty graph.
    pub fn new() -> (r: ModuleGraph)
        ensures
            r.edges@.len() == 0,
    {
        ModuleGraph { edges: Vec::new() }
    }

    /// Clears the graph to empty; part of the session reset.
    pub fn initialize(&mut self)
        ensures
            final(self).edges@.len() == 0,
    {
        self.edges.clear();
    }
}

/// Everything a compiler session shares across edit/check cycles:
/// the two module caches (own and foreign-runtime modules), the
/// member index and the dependency graph.
#[derive(Debug)]
pub struct SharedCompilerResource {
    pub mod_cache: ModuleCache,
    pub py_mod_cache: ModuleCache,
    pub index: ModuleIndex,
    pub graph: ModuleGraph,
}

impl SharedCompilerResource {
    /// A fresh resource for the given configuration; both caches keep
    /// their own copy of it.
    pub fn new(cfg: ErgConfig) -> (r: SharedCompilerResource)
        ensures
            r.mod_cache.cfg == cfg,
            r.py_mod_cache.cfg == cfg,
            r.mod_cache.view_entries().len() == 0,
            r.py_mod_cache.view_entries().len() == 0,
            r.index.members@.len() == 0,
            r.graph.edges@.len() == 0,
    {
        SharedCompilerResource {
            mod_cache: ModuleCache::new(cfg.copy()),
            py_mod_cache: ModuleCache::new(cfg),
            index: ModuleIndex::new(),
            graph: ModuleGraph::new(),
        }
    }

    /// Full session reset: clears every store back to empty, keeping
    /// the configuration.
    pub fn clear_all(&mut self)
        ensures
            final(self).mod_cache.cfg == old(self).mod_cache.cfg,
            final(self).py_mod_cache.cfg == old(self).py_mod_cache.cfg,
            final(self).mod_cache.view_entries().len() == 0,
            final(self).py_mod_cache.view_entries().len() == 0,
            final(self).index.members@.len() == 0,
            final(self).graph.edges@.len() == 0,
    {
        self.mod_cache.initialize();
        self.py_mod_cache.initialize();
        self.index.initialize();
        self.graph.initialize();
    }
}

} // verus!
