use crate::family::TypeKey;
use crate::marshal::MarshalError;
use vstd::prelude::*;

verus! {

/// The metatables of the type family, by type, populated once at start-up
/// and read on every export.
pub struct MetatableRegistry<H> {
    entries: Vec<(TypeKey, H)>,
}

impl<H> MetatableRegistry<H> {
    /// Every type has at most one entry.
    pub closed spec fn wf(&self) -> bool {
        forall|i: int, j: int|
            0 <= i < j < self.entries@.len() ==> self.entries@[i].0 != self.entries@[j].0
    }

    spec fn position(&self, t: TypeKey) -> int {
        choose|i: int| 0 <= i < self.entries@.len() && self.entries@[i].0 == t
    }

    /// The registered metatables, by type.
    pub closed spec fn view(&self) -> Map<TypeKey, H> {
        Map::new(
            |t: TypeKey| exists|i: int| 0 <= i < self.entries@.len() && self.entries@[i].0 == t,
            |t: TypeKey| self.entries@[self.position(t)].1,
        )
    }

    proof fn lemma_at(&self, i: int)
        requires
            self.wf(),
            0 <= i < self.entries@.len(),
        ensures
            self@.contains_key(self.entries@[i].0),
            self@[self.entries@[i].0] == self.entries@[i].1,
    {
        let t = self.entries@[i].0;
        assert(self@.contains_key(t));
        let p = self.position(t);
        assert(p == i);
    }

    /// An empty registry.
    pub fn new() -> (r: Self)
        ensures
            r.wf(),
            r@ == Map::<TypeKey, H>::empty(),
    {
        let r = MetatableRegistry { entries: Vec::new() };
        assert(r@ =~= Map::<TypeKey, H>::empty());
        r
    }

    /// Registers `metatable` for type `t`, replacing an earlier entry.
    pub fn register(&mut self, t: TypeKey, metatable: H)
        requires
            old(self).wf(),
        ensures
            final(self).wf(),
            final(self)@ == old(self)@.insert(t, metatable),
    {
        let ghost before = self.entries@;
        let mut i: usize = 0;
        while i < self.entries.len()
            invariant
                i <= self.entries@.len(),
                self.entries@ == before,
                self.wf(),
                *self == *old(self),
                forall|j: int| 0 <= j < i ==> self.entries@[j].0 != t,
            decreases self.entries@.len() - i,
        {
            if self.entries[i].0 == t {
                let ghost old_self = *self;
                self.entries.set(i, (t, metatable));
                proof {
                    assert forall|a: int, b: int|
                        0 <= a < b < self.entries@.len() implies self.entries@[a].0
                        != self.entries@[b].0 by {
                        assert(old_self.entries@[a].0 != old_self.entries@[b].0);
                    }
                    assert forall|k: TypeKey| #[trigger] self@.contains_key(k) == old_self@.insert(
                        t,
                        metatable,
                    ).contains_key(k) by {
                        if k != t && old_self@.contains_key(k) {
                            let p = old_self.position(k);
                            assert(self.entries@[p].0 == k);
                        }
                        if k == t {
                            assert(self.entries@[i as int].0 == t);
                        }
                    }
                    assert forall|k: TypeKey| #[trigger]
                        self@.contains_key(k) implies self@[k] == old_self@.insert(
                        t,
                        metatable,
                    )[k] by {
                        let p = self.position(k);
                        self.lemma_at(p);
                        if k != t {
                            old_self.lemma_at(p);
                        }
                    }
                    assert(self@ =~= old_self@.insert(t, metatable));
                }
                return;
            }
            i = i + 1;
        }
        let ghost old_self = *self;
        self.entries.push((t, metatable));
        proof {
            let n = old_self.entries@.len() as int;
            assert forall|k: TypeKey| #[trigger] self@.contains_key(k) == old_self@.insert(
                t,
                metatable,
            ).contains_key(k) by {
                if k != t && old_self@.contains_key(k) {
                    let p = old_self.position(k);
                    assert(self.entries@[p].0 == k);
                }
                if k == t {
                    assert(self.entries@[n].0 == t);
                }
            }
            assert forall|k: TypeKey| #[trigger]
                self@.contains_key(k) implies self@[k] == old_self@.insert(t, metatable)[k] by {
                let p = self.position(k);
                self.lemma_at(p);
                if k != t {
                    old_self.lemma_at(p);
                }
            }
            assert(self@ =~= old_self@.insert(t, metatable));
        }
    }

    /// The metatable registered for `t`, or the lookup error naming its key.
    pub fn lookup(&self, t: TypeKey) -> (r: Result<&H, MarshalError>)
        requires
            self.wf(),
        ensures
            match r {
                Ok(h) => self@.contains_key(t) && *h == self@[t],
                Err(e) => !self@.contains_key(t) && e == (MarshalError::RegistryLookup {
                    target: t,
                }),
            },
    {
        let mut i: usize = 0;
        while i < self.entries.len()
            invariant
                i <= self.entries@.len(),
                self.wf(),
                forall|j: int| 0 <= j < i ==> self.entries@[j].0 != t,
            decreases self.entries@.len() - i,
        {
            if self.entries[i].0 == t {
                proof {
                    self.lemma_at(i as int);
                }
                return Ok(&self.entries[i].1);
            }
            i = i + 1;
        }
        Err(MarshalError::RegistryLookup { target: t })
    }
}

} // verus!
