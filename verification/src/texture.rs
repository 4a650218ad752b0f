use vstd::prelude::*;

use crate::geometry::{texture_source_eq, SpecTextureSource, TextureSource};

verus! {

/// One cache entry: the source that keys it, the frames its lease still
/// covers, and the loaded native texture.
struct CacheEntry<T> {
    source: TextureSource,
    uses_left: usize,
    texture: T,
}

/// No two entries share a key.
spec fn entry_keys_unique<T>(s: Seq<CacheEntry<T>>) -> bool {
    forall|i: int, j: int| 0 <= i < j < s.len() ==> s[i].source@ != s[j].source@
}

/// The map an entry list denotes: each source to its lease and texture.
spec fn entries_map<T>(s: Seq<CacheEntry<T>>) -> Map<SpecTextureSource, (usize, T)>
    decreases s,
{
    if s.len() == 0 {
        Map::empty()
    } else {
        entries_map(s.drop_last()).insert(
            s.last().source@,
            (s.last().uses_left, s.last().texture),
        )
    }
}

/// How an entry list relates to the map it denotes: a key is in the map
/// exactly when some entry carries it, and with unique keys each entry is
/// the map's value at its own key.
proof fn lemma_entries_map_index<T>(s: Seq<CacheEntry<T>>)
    ensures
        forall|k: SpecTextureSource| #[trigger]
            entries_map(s).dom().contains(k) ==> exists|i: int|
                0 <= i < s.len() && s[i].source@ == k,
        forall|i: int|
            0 <= i < s.len() ==> #[trigger] entries_map(s).dom().contains(s[i].source@),
        entry_keys_unique(s) ==> forall|i: int|
            #![trigger s[i].source@]
            0 <= i < s.len() ==> entries_map(s)[s[i].source@] == (s[i].uses_left, s[i].texture),
    decreases s.len(),
{
    if s.len() > 0 {
        let s0 = s.drop_last();
        lemma_entries_map_index(s0);
        assert forall|k: SpecTextureSource| #[trigger]
            entries_map(s).dom().contains(k) implies exists|i: int|
            0 <= i < s.len() && s[i].source@ == k by {
            if k == s.last().source@ {
                assert(s[s.len() - 1].source@ == k);
            } else {
                assert(entries_map(s0).dom().contains(k));
                let i = choose|i: int| 0 <= i < s0.len() && s0[i].source@ == k;
                assert(s[i].source@ == k);
            }
        }
        assert forall|i: int|
            0 <= i < s.len() implies #[trigger] entries_map(s).dom().contains(s[i].source@) by {
            if i < s.len() - 1 {
                assert(s0[i] == s[i]);
                assert(entries_map(s0).dom().contains(s0[i].source@));
            }
        }
        if entry_keys_unique(s) {
            assert(entry_keys_unique(s0));
            assert forall|i: int| #![trigger s[i].source@]
                0 <= i < s.len() implies entries_map(s)[s[i].source@] == (
                s[i].uses_left,
                s[i].texture,
            ) by {
                if i < s.len() - 1 {
                    assert(s0[i] == s[i]);
                    assert(s[i].source@ != s.last().source@);
                    assert(entries_map(s)[s[i].source@] == entries_map(s0)[s0[i].source@]);
                }
            }
        }
    }
}

/// What one whole-cache decay does to the map: every lease shrinks by one
/// frame, and the entries whose lease is spent disappear.
pub open spec fn decay_spec<T>(m: Map<SpecTextureSource, (usize, T)>) -> Map<
    SpecTextureSource,
    (usize, T),
> {
    Map::new(
        |k: SpecTextureSource| m.dom().contains(k) && m[k].0 > 1,
        |k: SpecTextureSource| (((m[k].0 - 1) as usize), m[k].1),
    )
}

/// The entry list after one decay: each lease decremented, spent entries
/// dropped, order kept.
spec fn decay_entries<T>(s: Seq<CacheEntry<T>>) -> Seq<CacheEntry<T>>
    decreases s,
{
    if s.len() == 0 {
        Seq::empty()
    } else {
        let rest = decay_entries(s.drop_last());
        if s.last().uses_left > 1 {
            rest.push(
                CacheEntry {
                    source: s.last().source,
                    uses_left: (s.last().uses_left - 1) as usize,
                    texture: s.last().texture,
                },
            )
        } else {
            rest
        }
    }
}

/// Decaying the entry list denotes exactly `decay_spec` of its map, keeps
/// keys unique, and introduces no new keys.
proof fn lemma_decay_entries<T>(s: Seq<CacheEntry<T>>)
    requires
        entry_keys_unique(s),
    ensures
        entry_keys_unique(decay_entries(s)),
        entries_map(decay_entries(s)) == decay_spec(entries_map(s)),
        forall|j: int|
            0 <= j < decay_entries(s).len() ==> exists|i: int|
                0 <= i < s.len() && s[i].source@ == #[trigger] decay_entries(s)[j].source@,
    decreases s.len(),
{
    if s.len() == 0 {
        assert(entries_map(decay_entries(s)) =~= decay_spec(entries_map(s)));
    } else {
        let s0 = s.drop_last();
        let e = s.last();
        assert(entry_keys_unique(s0));
        lemma_decay_entries(s0);
        lemma_entries_map_index(s0);
        let d0 = decay_entries(s0);
        // The last entry's key is fresh for the rest of the list.
        assert forall|j: int| 0 <= j < s0.len() implies s0[j].source@ != e.source@ by {
            assert(s[j] == s0[j]);
            assert(s[j].source@ != s[s.len() - 1].source@);
        }
        assert(!entries_map(s0).dom().contains(e.source@));
        assert forall|j: int| 0 <= j < d0.len() implies d0[j].source@ != e.source@ by {
            let i = choose|i: int| 0 <= i < s0.len() && s0[i].source@ == d0[j].source@;
        }
        if e.uses_left > 1 {
            let e2 = CacheEntry {
                source: e.source,
                uses_left: (e.uses_left - 1) as usize,
                texture: e.texture,
            };
            assert(decay_entries(s) == d0.push(e2));
            assert(entries_map(d0.push(e2)) == entries_map(d0).insert(
                e2.source@,
                (e2.uses_left, e2.texture),
            )) by {
                assert(d0.push(e2).drop_last() =~= d0);
                assert(d0.push(e2).last() == e2);
            }
            assert(entries_map(decay_entries(s)) =~= decay_spec(entries_map(s)));
            assert forall|j: int|
                0 <= j < decay_entries(s).len() implies exists|i: int|
                0 <= i < s.len() && s[i].source@ == #[trigger] decay_entries(s)[j].source@ by {
                if j < d0.len() {
                    assert(decay_entries(s)[j] == d0[j]);
                    let i = choose|i: int| 0 <= i < s0.len() && s0[i].source@ == d0[j].source@;
                    assert(s[i].source@ == decay_entries(s)[j].source@);
                } else {
                    assert(decay_entries(s)[j] == e2);
                    assert(s[s.len() - 1].source@ == e2.source@);
                }
            }
        } else {
            assert(decay_entries(s) == d0);
            assert(entries_map(decay_entries(s)) =~= decay_spec(entries_map(s)));
            assert forall|j: int|
                0 <= j < decay_entries(s).len() implies exists|i: int|
                0 <= i < s.len() && s[i].source@ == #[trigger] decay_entries(s)[j].source@ by {
                let i = choose|i: int| 0 <= i < s0.len() && s0[i].source@ == d0[j].source@;
                assert(s[i].source@ == decay_entries(s)[j].source@);
            }
        }
    }
}

/// The usage-counted texture cache. It owns the loaded native textures
/// (opaque to this crate), keyed by their sources; every reference re-arms
/// an entry's lease to the full length, and one decay per rendered frame
/// spends a lease unit, evicting entries whose lease runs out.
///
/// The cache lives on the render thread alone, so it needs no locking.
pub struct TextureBuffer<T> {
    starting_uses: usize,
    entries: Vec<CacheEntry<T>>,
}

impl<T> View for TextureBuffer<T> {
    type V = Map<SpecTextureSource, (usize, T)>;

    closed spec fn view(&self) -> Map<SpecTextureSource, (usize, T)> {
        entries_map(self.entries@)
    }
}

impl<T> TextureBuffer<T> {
    /// The cache's keys never collide.
    pub closed spec fn wf(&self) -> bool {
        entry_keys_unique(self.entries@)
    }

    /// The lease length every reference re-arms an entry to.
    pub closed spec fn lease(&self) -> usize {
        self.starting_uses
    }

    /// An empty cache with the given lease length (at least one frame).
    pub fn new(starting_uses: usize) -> (c: Self)
        ensures
            c.wf(),
            c@ == Map::<SpecTextureSource, (usize, T)>::empty(),
            c.lease() == if starting_uses == 0 { 1usize } else { starting_uses },
    {
        TextureBuffer {
            starting_uses: if starting_uses == 0 { 1 } else { starting_uses },
            entries: Vec::new(),
        }
    }

    /// The position of the entry keyed by `source`, if one exists.
    fn find(&self, source: &TextureSource) -> (r: Option<usize>)
        ensures
            match r {
                Some(i) => i < self.entries@.len() && self.entries@[i as int].source@ == source@,
                None => forall|i: int|
                    0 <= i < self.entries@.len() ==> self.entries@[i].source@ != source@,
            },
    {
        let mut i: usize = 0;
        while i < self.entries.len()
            invariant
                0 <= i <= self.entries@.len(),
                forall|j: int| 0 <= j < i ==> self.entries@[j].source@ != source@,
            decreases self.entries@.len() - i,
        {
            if texture_source_eq(&self.entries[i].source, source) {
                return Some(i);
            }
            i += 1;
        }
        None
    }

    /// Whether the renderer must load this source before the frame can
    /// reference it: true exactly when the cache has no entry for it.
    pub fn needs_load(&self, source: &TextureSource) -> (b: bool)
        requires
            self.wf(),
        ensures
            b == !self@.dom().contains(source@),
    {
        proof {
            lemma_entries_map_index(self.entries@);
        }
        let r = self.find(source);
        proof {
            if r is Some {
                let i = r->Some_0;
                assert(self@.dom().contains(self.entries@[i as int].source@));
            } else {
                if self@.dom().contains(source@) {
                    let i = choose|i: int|
                        0 <= i < self.entries@.len() && self.entries@[i].source@ == source@;
                }
            }
        }
        r.is_none()
    }

    /// Marks `source` as referenced by the current frame: if it is cached,
    /// its lease is re-armed to the full length; otherwise the freshly
    /// loaded texture is inserted with a full lease. The caller loads the
    /// texture exactly when `needs_load` says so.
    pub fn load_or_mark_use(&mut self, source: TextureSource, loaded: Option<T>)
        requires
            old(self).wf(),
            loaded is Some <==> !old(self)@.dom().contains(source@),
        ensures
            final(self).wf(),
            final(self).lease() == old(self).lease(),
            old(self)@.dom().contains(source@) ==> final(self)@ == old(self)@.insert(
                source@,
                (old(self).lease(), old(self)@[source@].1),
            ),
            !old(self)@.dom().contains(source@) ==> final(self)@ == old(self)@.insert(
                source@,
                (old(self).lease(), loaded->Some_0),
            ),
    {
        proof {
            lemma_entries_map_index(self.entries@);
        }
        let ghost s_old = self.entries@;
        match self.find(&source) {
            Some(i) => {
                proof {
                    assert(self@.dom().contains(self.entries@[i as int].source@));
                }
                let entry = self.entries.remove(i);
                let lease = self.starting_uses;
                self.entries.insert(
                    i,
                    CacheEntry { source: entry.source, uses_left: lease, texture: entry.texture },
                );
                proof {
                    let e2 = CacheEntry {
                        source: s_old[i as int].source,
                        uses_left: lease,
                        texture: s_old[i as int].texture,
                    };
                    assert(self.entries@ =~= s_old.update(i as int, e2));
                    lemma_entries_map_update(s_old, i as int, e2);
                    assert(final(self)@ == old(self)@.insert(
                        source@,
                        (old(self).lease(), old(self)@[source@].1),
                    ));
                }
            },
            None => {
                let lease = self.starting_uses;
                let texture = loaded.unwrap();
                self.entries.push(CacheEntry { source, uses_left: lease, texture });
                proof {
                    assert(self.entries@.drop_last() =~= s_old);
                    assert(entry_keys_unique(self.entries@));
                }
            },
        }
    }

    /// The cached texture for `source`, if its entry is alive. The renderer
    /// primes every source it is about to draw, so a miss means the caller
    /// broke that sequencing.
    pub fn get(&self, source: &TextureSource) -> (r: Option<&T>)
        requires
            self.wf(),
        ensures
            r is Some <==> self@.dom().contains(source@),
            r matches Some(t) ==> *t == self@[source@].1,
    {
        proof {
            lemma_entries_map_index(self.entries@);
        }
        match self.find(source) {
            Some(i) => {
                proof {
                    assert(self@.dom().contains(self.entries@[i as int].source@));
                    assert(self@[self.entries@[i as int].source@] == (
                        self.entries@[i as int].uses_left,
                        self.entries@[i as int].texture,
                    ));
                }
                Some(&self.entries[i].texture)
            },
            None => {
                proof {
                    if self@.dom().contains(source@) {
                        let i = choose|i: int|
                            0 <= i < self.entries@.len() && self.entries@[i].source@ == source@;
                    }
                }
                None
            },
        }
    }

    /// Spends one frame of every lease and evicts the entries whose lease
    /// ran out: called exactly once per rendered frame, after its draws.
    pub fn decrease_and_drop(&mut self)
        requires
            old(self).wf(),
        ensures
            final(self).wf(),
            final(self).lease() == old(self).lease(),
            final(self)@ == decay_spec(old(self)@),
    {
        let ghost orig = self.entries@;
        let mut kept: Vec<CacheEntry<T>> = Vec::new();
        let ghost mut k: int = 0;
        #[verifier::loop_isolation(false)]
        while self.entries.len() > 0
            invariant
                self.starting_uses == old(self).starting_uses,
                0 <= k <= orig.len(),
                orig.len() == k + self.entries@.len(),
                self.entries@ == orig.subrange(k, orig.len() as int),
                kept@ == decay_entries(orig.subrange(0, k)),
            decreases self.entries@.len(),
        {
            let e = self.entries.remove(0);
            proof {
                assert(e == orig[k]);
                assert(self.entries@ =~= orig.subrange(k + 1, orig.len() as int));
                assert(orig.subrange(0, k + 1).drop_last() =~= orig.subrange(0, k));
                assert(orig.subrange(0, k + 1).last() == orig[k]);
            }
            if e.uses_left > 1 {
                kept.push(
                    CacheEntry {
                        source: e.source,
                        uses_left: e.uses_left - 1,
                        texture: e.texture,
                    },
                );
            }
            proof {
                k = k + 1;
                assert(kept@ =~= decay_entries(orig.subrange(0, k)));
            }
        }
        core::mem::swap(&mut self.entries, &mut kept);
        proof {
            assert(orig.subrange(0, orig.len() as int) =~= orig);
            lemma_decay_entries(orig);
        }
    }
}

/// Replacing an entry with one that keeps its key denotes an insert at
/// that key.
proof fn lemma_entries_map_update<T>(s: Seq<CacheEntry<T>>, i: int, e2: CacheEntry<T>)
    requires
        entry_keys_unique(s),
        0 <= i < s.len(),
        e2.source@ == s[i].source@,
    ensures
        entry_keys_unique(s.update(i, e2)),
        entries_map(s.update(i, e2)) == entries_map(s).insert(e2.source@, (e2.uses_left, e2.texture)),
    decreases s.len(),
{
    lemma_entries_map_index(s);
    let s2 = s.update(i, e2);
    assert(entry_keys_unique(s2)) by {
        assert forall|p: int, q: int| 0 <= p < q < s2.len() implies s2[p].source@ != s2[q].source@
        by {
            assert(s2[p].source@ == s[p].source@ || (p == i && s2[p].source@ == s[i].source@));
            assert(s2[q].source@ == s[q].source@ || (q == i && s2[q].source@ == s[i].source@));
        }
    }
    lemma_entries_map_index(s2);
    assert forall|j: int| 0 <= j < s2.len() implies s2[j].source@ == s[j].source@ by {}
    assert(entries_map(s2) =~= entries_map(s).insert(e2.source@, (e2.uses_left, e2.texture))) by {
        let m2 = entries_map(s2);
        let mi = entries_map(s).insert(e2.source@, (e2.uses_left, e2.texture));
        assert forall|key: SpecTextureSource| #[trigger]
            m2.dom().contains(key) implies mi.dom().contains(key) && m2[key] == mi[key] by {
            let j = choose|j: int| 0 <= j < s2.len() && s2[j].source@ == key;
            assert(m2[key] == (s2[j].uses_left, s2[j].texture));
            if j == i {
                assert(key == e2.source@);
            } else {
                assert(s[j].source@ == key);
                assert(key != e2.source@);
                assert(entries_map(s).dom().contains(key));
                assert(entries_map(s)[key] == (s[j].uses_left, s[j].texture));
            }
        }
        assert forall|key: SpecTextureSource| #[trigger]
            mi.dom().contains(key) implies m2.dom().contains(key) by {
            if key == e2.source@ {
                assert(s2[i].source@ == key);
            } else {
                assert(entries_map(s).dom().contains(key));
                let j = choose|j: int| 0 <= j < s.len() && s[j].source@ == key;
                assert(s2[j].source@ == key);
            }
        }
    }
}

/// Law: one whole-cache decay keeps an entry exactly when more than one
/// frame of its lease is left, with the lease shrunk by one and the
/// texture untouched; no decay ever revives or invents an entry.
pub proof fn lemma_decay_step<T>(m: Map<SpecTextureSource, (usize, T)>, k: SpecTextureSource)
    ensures
        decay_spec(m).dom().contains(k) <==> m.dom().contains(k) && m[k].0 > 1,
        m.dom().contains(k) && m[k].0 > 1 ==> decay_spec(m)[k] == (((m[k].0 - 1) as usize), m[k].1),
{
}

/// Repeated decay: `n` whole-cache decays in sequence.
pub open spec fn decay_n<T>(m: Map<SpecTextureSource, (usize, T)>, n: nat) -> Map<
    SpecTextureSource,
    (usize, T),
>
    decreases n,
{
    if n == 0 {
        m
    } else {
        decay_n(decay_spec(m), (n - 1) as nat)
    }
}

/// A key absent from the cache stays absent under decay alone.
proof fn lemma_decay_n_absent<T>(m: Map<SpecTextureSource, (usize, T)>, k: SpecTextureSource, n: nat)
    requires
        !m.dom().contains(k),
    ensures
        !decay_n(m, n).dom().contains(k),
    decreases n,
{
    if n > 0 {
        lemma_decay_n_absent(decay_spec(m), k, (n - 1) as nat)
    }
}

/// Law: an entry that is never referenced again survives exactly as many
/// decays as its lease has frames — after `n` decays it is still cached
/// exactly when `n` is below its lease, with the lease shrunk by `n`; the
/// decay after that evicts it.
pub proof fn lemma_entry_evicts_after_exact_lease<T>(
    m: Map<SpecTextureSource, (usize, T)>,
    k: SpecTextureSource,
    n: nat,
)
    requires
        m.dom().contains(k),
        m[k].0 >= 1,
    ensures
        decay_n(m, n).dom().contains(k) <==> n < m[k].0,
        n < m[k].0 ==> decay_n(m, n)[k] == (((m[k].0 - n) as usize), m[k].1),
    decreases n,
{
    if n > 0 {
        let c = m[k].0;
        if c > 1 {
            lemma_entry_evicts_after_exact_lease(decay_spec(m), k, (n - 1) as nat);
        } else {
            lemma_decay_n_absent(decay_spec(m), k, (n - 1) as nat);
        }
    }
}

/// Law: a texture referenced every frame never evicts — marking it re-arms
/// the full lease, and the frame's decay leaves it cached whenever the
/// lease covers at least two frames.
pub proof fn lemma_marked_entry_survives_frame<T>(
    m: Map<SpecTextureSource, (usize, T)>,
    k: SpecTextureSource,
    lease: usize,
    t: T,
)
    requires
        lease >= 2,
    ensures
        decay_spec(m.insert(k, (lease, t))).dom().contains(k),
        decay_spec(m.insert(k, (lease, t)))[k] == (((lease - 1) as usize), t),
{
}

} // verus!
