//! The compiled-module cache: identifier to compiled module, filled lazily,
//! never evicted, one module per identifier.
use crate::config::{module_file, WasmConfig};
use vstd::prelude::*;

verus! {

/// What the most recent entry for `k` in `s` holds.
pub open spec fn lookup<M>(s: Seq<(String, M)>, k: Seq<char>) -> Option<M>
    decreases s.len(),
{
    if s.len() == 0 {
        None
    } else if s.last().0@ == k {
        Some(s.last().1)
    } else {
        lookup(s.drop_last(), k)
    }
}

pub open spec fn keys_unique<M>(s: Seq<(String, M)>) -> bool {
    forall|i: int, j: int| 0 <= i < j < s.len() ==> (#[trigger] s[i]).0@ != (#[trigger] s[j]).0@
}

proof fn lemma_lookup_found<M>(s: Seq<(String, M)>, i: int)
    requires
        keys_unique(s),
        0 <= i < s.len(),
    ensures
        lookup(s, s[i].0@) == Some(s[i].1),
    decreases s.len(),
{
    if i < s.len() - 1 {
        assert(s[i].0@ != s[s.len() - 1].0@);
        assert(s.drop_last()[i] == s[i]);
        lemma_lookup_found(s.drop_last(), i);
    }
}

proof fn lemma_lookup_absent<M>(s: Seq<(String, M)>, k: Seq<char>)
    requires
        forall|i: int| 0 <= i < s.len() ==> (#[trigger] s[i]).0@ != k,
    ensures
        lookup(s, k) is None,
    decreases s.len(),
{
    if s.len() > 0 {
        assert(s[s.len() - 1].0@ != k);
        assert forall|i: int| 0 <= i < s.drop_last().len() implies (
        #[trigger] s.drop_last()[i]).0@ != k by {
            assert(s.drop_last()[i] == s[i]);
        }
        lemma_lookup_absent(s.drop_last(), k);
    }
}

proof fn lemma_lookup_any<M>(s: Seq<(String, M)>, k: Seq<char>)
    requires
        keys_unique(s),
    ensures
        lookup(s, k) is None <==> forall|i: int| 0 <= i < s.len() ==> (#[trigger] s[i]).0@ != k,
        forall|i: int| 0 <= i < s.len() && (#[trigger] s[i]).0@ == k ==> lookup(s, k) == Some(s[i].1),
{
    assert forall|i: int| 0 <= i < s.len() && (#[trigger] s[i]).0@ == k implies lookup(s, k) == Some(
        s[i].1,
    ) by {
        lemma_lookup_found(s, i);
    }
    if forall|i: int| 0 <= i < s.len() ==> (#[trigger] s[i]).0@ != k {
        lemma_lookup_absent(s, k);
    }
}

/// Compiled modules by guest identifier.
pub struct ModuleCache<M> {
    entries: Vec<(String, M)>,
}

impl<M> ModuleCache<M> {
    /// The module cached under `id`, if any.
    pub closed spec fn cached(&self, id: Seq<char>) -> Option<M> {
        lookup(self.entries@, id)
    }

    /// The identifiers that have a cached module.
    pub open spec fn ids(&self) -> Set<Seq<char>> {
        Set::new(|k: Seq<char>| self.cached(k) is Some)
    }

    /// At most one module is held per identifier.
    #[verifier::type_invariant]
    spec fn wf(&self) -> bool {
        keys_unique(self.entries@)
    }

    pub fn new() -> (r: Self)
        ensures
            r.ids() == Set::<Seq<char>>::empty(),
            forall|id: Seq<char>| r.cached(id) is None,
    {
        ModuleCache { entries: Vec::new() }
    }

    /// The module cached under `id`.
    pub fn get(&self, id: &str) -> (r: Option<&M>)
        ensures
            r is None <==> self.cached(id@) is None,
            r matches Some(m) ==> self.cached(id@) == Some(*m),
    {
        proof {
            use_type_invariant(self);
        }
        let key = id.to_owned();
        let mut i: usize = 0;
        while i < self.entries.len()
            invariant
                i <= self.entries.len(),
                key@ == id@,
                keys_unique(self.entries@),
                forall|j: int| 0 <= j < i ==> (#[trigger] self.entries@[j]).0@ != id@,
            decreases self.entries.len() - i,
        {
            if self.entries[i].0 == key {
                proof {
                    lemma_lookup_found(self.entries@, i as int);
                }
                return Some(&self.entries[i].1);
            }
            i = i + 1;
        }
        proof {
            lemma_lookup_absent(self.entries@, id@);
        }
        None
    }

    /// Cache `m` under `id`; a module already cached under `id` is replaced.
    pub fn insert(&mut self, id: String, m: M)
        ensures
            final(self).cached(id@) == Some(m),
            forall|k: Seq<char>| k != id@ ==> final(self).cached(k) == old(self).cached(k),
            final(self).ids() == old(self).ids().insert(id@),
    {
        proof {
            use_type_invariant(&*self);
        }
        let mut entries: Vec<(String, M)> = Vec::new();
        std::mem::swap(&mut entries, &mut self.entries);
        let ghost s = entries@;
        let mut i: usize = 0;
        while i < entries.len()
            invariant
                i <= entries.len(),
                entries@ == s,
                s == old(self).entries@,
                keys_unique(s),
                forall|j: int| 0 <= j < i ==> (#[trigger] entries@[j]).0@ != id@,
            decreases entries.len() - i,
        {
            if entries[i].0 == id {
                let ghost k = id@;
                entries.set(i, (id, m));
                proof {
                    let t = entries@;
                    assert(keys_unique(t)) by {
                        assert forall|a: int, b: int| 0 <= a < b < t.len() implies (
                        #[trigger] t[a]).0@ != (#[trigger] t[b]).0@ by {
                            if a != i && b != i {
                                assert(s[a] == t[a] && s[b] == t[b]);
                            } else if a == i {
                                assert(s[b] == t[b]);
                            } else {
                                assert(s[a] == t[a]);
                            }
                        }
                    }
                    lemma_lookup_found(t, i as int);
                    assert forall|q: Seq<char>| q != k implies lookup(t, q) == lookup(s, q) by {
                        lemma_lookup_any(s, q);
                        lemma_lookup_any(t, q);
                        if exists|j: int| 0 <= j < s.len() && (#[trigger] s[j]).0@ == q {
                            let j = choose|j: int| 0 <= j < s.len() && (#[trigger] s[j]).0@ == q;
                            assert(j != i);
                            assert(s[j] == t[j]);
                        } else {
                            assert forall|j: int| 0 <= j < t.len() implies (#[trigger] t[j]).0@
                                != q by {
                                if j != i {
                                    assert(s[j] == t[j]);
                                }
                            }
                        }
                    }
                }
                self.entries = entries;
                assert forall|q: Seq<char>| q != k implies self.cached(q) == old(self).cached(q) by {
                    assert(lookup(entries@, q) == lookup(s, q));
                }
                assert(self.ids() =~= old(self).ids().insert(k));
                return;
            }
            i = i + 1;
        }
        entries.push((id, m));
        proof {
            let t = entries@;
            assert(t.drop_last() =~= s);
            assert(keys_unique(t)) by {
                assert forall|a: int, b: int| 0 <= a < b < t.len() implies (
                #[trigger] t[a]).0@ != (#[trigger] t[b]).0@ by {
                    if b < s.len() {
                        assert(s[a] == t[a] && s[b] == t[b]);
                    } else {
                        assert(s[a] == t[a]);
                    }
                }
            }
        }
        self.entries = entries;
        assert(self.ids() =~= old(self).ids().insert(id@));
    }
}

/// How an identifier resolves: to a cached module, or to the file that must
/// be read and compiled.
pub enum Resolution<'a, M> {
    Cached(&'a M),
    Load(String),
}

/// Resolve guest `id`: the cached module when there is one, otherwise the
/// path `{root}/{id}.{ext}` of its binary.
pub fn resolve<'a, M>(cache: &'a ModuleCache<M>, cfg: &WasmConfig, id: &str) -> (r: Resolution<
    'a,
    M,
>)
    ensures
        r is Cached <==> cache.ids().contains(id@),
        match r {
            Resolution::Cached(m) => cache.cached(id@) == Some(*m),
            Resolution::Load(p) => cache.cached(id@) is None && p@ == module_file(
                cfg@.root_path,
                id@,
                cfg@.wasm_ext,
            ),
        },
{
    match cache.get(id) {
        Some(m) => Resolution::Cached(m),
        None => Resolution::Load(cfg.binary_path(id)),
    }
}

/// How many binaries are read and compiled when guests `ids` are invoked in
/// turn, starting from a cache that holds `cached`: each miss loads the
/// binary once and caches it, each hit loads nothing.
pub open spec fn loads(cached: Set<Seq<char>>, ids: Seq<Seq<char>>) -> nat
    decreases ids.len(),
{
    if ids.len() == 0 {
        0
    } else if cached.contains(ids[0]) {
        loads(cached, ids.drop_first())
    } else {
        1 + loads(cached.insert(ids[0]), ids.drop_first())
    }
}

proof fn lemma_hits_load_nothing(cached: Set<Seq<char>>, ids: Seq<Seq<char>>, id: Seq<char>)
    requires
        cached.contains(id),
        forall|i: int| 0 <= i < ids.len() ==> ids[i] == id,
    ensures
        loads(cached, ids) == 0,
    decreases ids.len(),
{
    if ids.len() > 0 {
        assert(ids[0] == id);
        lemma_hits_load_nothing(cached, ids.drop_first(), id);
    }
}

/// Invoking one guest any number of times reads and compiles its binary at
/// most once; when it is already cached, not at all.
pub proof fn lemma_loaded_once(cached: Set<Seq<char>>, id: Seq<char>, n: nat)
    ensures
        loads(cached, Seq::new(n, |i: int| id)) <= 1,
        cached.contains(id) ==> loads(cached, Seq::new(n, |i: int| id)) == 0,
{
    let ids = Seq::new(n, |i: int| id);
    if cached.contains(id) {
        lemma_hits_load_nothing(cached, ids, id);
    } else if n > 0 {
        lemma_hits_load_nothing(cached.insert(id), ids.drop_first(), id);
    }
}

} // verus!
