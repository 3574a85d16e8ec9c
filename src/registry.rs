use vstd::prelude::*;

use crate::buffer::{BufferWrapper, ResourceKind};

verus! {

/// Identity of a resource: its kind together with its name.
pub type ResourceKey = (ResourceKind, Seq<char>);

struct Entry {
    kind: ResourceKind,
    name: String,
    value: BufferWrapper,
}

/// Store through which passes hand buffers to one another by kind and name.
pub struct Resources {
    buffers: Vec<Entry>,
}

impl View for Resources {
    type V = Map<ResourceKey, BufferWrapper>;

    closed spec fn view(&self) -> Map<ResourceKey, BufferWrapper> {
        Map::new(
            |k: ResourceKey| self.has_key(k),
            |k: ResourceKey| self.buffers@[self.index_of(k)].value,
        )
    }
}

impl Resources {
    spec fn key_at(self, i: int) -> ResourceKey {
        (self.buffers@[i].kind, self.buffers@[i].name@)
    }

    spec fn has_key(self, k: ResourceKey) -> bool {
        exists|i: int| 0 <= i < self.buffers@.len() && #[trigger] self.key_at(i) == k
    }

    spec fn index_of(self, k: ResourceKey) -> int {
        choose|i: int| 0 <= i < self.buffers@.len() && #[trigger] self.key_at(i) == k
    }

    /// No two stored entries share a key.
    pub closed spec fn wf(self) -> bool {
        forall|i: int, j: int|
            0 <= i < self.buffers@.len() && 0 <= j < self.buffers@.len() && i != j
                ==> #[trigger] self.key_at(i) != #[trigger] self.key_at(j)
    }

    proof fn lemma_entry(self, i: int)
        requires
            self.wf(),
            0 <= i < self.buffers@.len(),
        ensures
            self@.contains_key(self.key_at(i)),
            self@[self.key_at(i)] == self.buffers@[i].value,
    {
        let k = self.key_at(i);
        assert(self.has_key(k));
        let j = self.index_of(k);
        assert(self.key_at(j) == k);
    }

    pub fn new() -> (r: Resources)
        ensures
            r.wf(),
            r@ == Map::<ResourceKey, BufferWrapper>::empty(),
    {
        let r = Resources { buffers: Vec::new() };
        assert(r@ =~= Map::<ResourceKey, BufferWrapper>::empty());
        r
    }

    fn find(&self, kind: ResourceKind, name: &String) -> (r: Option<usize>)
        ensures
            match r {
                Some(i) => i < self.buffers@.len() && self.key_at(i as int) == (kind, name@),
                None => !self.has_key((kind, name@)),
            },
    {
        let mut i: usize = 0;
        while i < self.buffers.len()
            invariant
                i <= self.buffers@.len(),
                forall|j: int| 0 <= j < i ==> #[trigger] self.key_at(j) != (kind, name@),
            decreases self.buffers@.len() - i,
        {
            let e = &self.buffers[i];
            if e.kind == kind && e.name == *name {
                return Some(i);
            }
            i = i + 1;
        }
        None
    }

    /// Stores `buffer` under `kind` and `name`, replacing what was stored
    /// there before; every other entry stays as it was.
    pub fn insert(&mut self, kind: ResourceKind, name: &str, buffer: BufferWrapper)
        requires
            old(self).wf(),
        ensures
            final(self).wf(),
            final(self)@ == old(self)@.insert((kind, name@), buffer),
    {
        let owned = name.to_owned();
        let k: Ghost<ResourceKey> = Ghost((kind, name@));
        let ghost pre = *self;
        match self.find(kind, &owned) {
            Some(i) => {
                let e = Entry { kind, name: owned, value: buffer };
                self.buffers.set(i, e);
                assert forall|a: int, b: int|
                    0 <= a < self.buffers@.len() && 0 <= b < self.buffers@.len() && a != b
                        implies #[trigger] self.key_at(a) != #[trigger] self.key_at(b) by {
                    assert(self.key_at(a) == pre.key_at(a));
                    assert(self.key_at(b) == pre.key_at(b));
                }
                assert forall|k2: ResourceKey| #[trigger] self.has_key(k2) == pre@.insert(k@, buffer).contains_key(k2) by {
                    if self.has_key(k2) {
                        let j = self.index_of(k2);
                        if j != i {
                            assert(pre.key_at(j) == k2);
                        }
                    }
                    if pre.has_key(k2) {
                        let j = pre.index_of(k2);
                        assert(self.key_at(j) == k2);
                    }
                    if k2 == k@ {
                        assert(self.key_at(i as int) == k2);
                    }
                }
                assert forall|k2: ResourceKey| #[trigger] self@.contains_key(k2) implies self@[k2] == pre@.insert(k@, buffer)[k2] by {
                    let j = self.index_of(k2);
                    self.lemma_entry(j);
                    if j != i {
                        pre.lemma_entry(j);
                    }
                }
                assert(self@ =~= pre@.insert(k@, buffer));
            },
            None => {
                let e = Entry { kind, name: owned, value: buffer };
                self.buffers.push(e);
                let ghost n = pre.buffers@.len() as int;
                assert forall|a: int| 0 <= a < n implies #[trigger] self.key_at(a) == pre.key_at(a) by {}
                assert(self.key_at(n) == k@);
                assert forall|k2: ResourceKey| #[trigger] self.has_key(k2) == pre@.insert(k@, buffer).contains_key(k2) by {
                    if self.has_key(k2) {
                        let j = self.index_of(k2);
                        if j != n {
                            assert(pre.key_at(j) == k2);
                        }
                    }
                    if pre.has_key(k2) {
                        let j = pre.index_of(k2);
                        assert(self.key_at(j) == k2);
                    }
                }
                assert forall|k2: ResourceKey| #[trigger] self@.contains_key(k2) implies self@[k2] == pre@.insert(k@, buffer)[k2] by {
                    let j = self.index_of(k2);
                    self.lemma_entry(j);
                    if j != n {
                        pre.lemma_entry(j);
                    }
                }
                assert(self@ =~= pre@.insert(k@, buffer));
            },
        }
    }

    /// The buffer stored under `kind` and `name`, if there is one. A buffer
    /// stored under the same name with another kind is not returned.
    pub fn get(&self, kind: ResourceKind, name: &str) -> (r: Option<&BufferWrapper>)
        requires
            self.wf(),
        ensures
            match r {
                Some(b) => self@.contains_key((kind, name@)) && *b == self@[(kind, name@)],
                None => !self@.contains_key((kind, name@)),
            },
    {
        let owned = name.to_owned();
        match self.find(kind, &owned) {
            Some(i) => {
                proof {
                    self.lemma_entry(i as int);
                }
                Some(&self.buffers[i].value)
            },
            None => None,
        }
    }
}

/// Publishing under one kind never makes a value visible to a lookup of
/// another kind, even under the same name.
pub proof fn lemma_kind_isolation(
    published: Map<ResourceKey, BufferWrapper>,
    name: Seq<char>,
    kind: ResourceKind,
    other: ResourceKind,
    value: BufferWrapper,
)
    requires
        kind != other,
    ensures
        published.insert((kind, name), value).contains_key((other, name)) == published.contains_key((other, name)),
        published.contains_key((other, name)) ==> published.insert((kind, name), value)[(other, name)] == published[(other, name)],
{
}

/// Of two values published under one key, only the second can be retrieved.
pub proof fn lemma_overwrite(published: Map<ResourceKey, BufferWrapper>, key: ResourceKey, first: BufferWrapper, second: BufferWrapper)
    ensures
        published.insert(key, first).insert(key, second)[key] == second,
        published.insert(key, first).insert(key, second) == published.insert(key, second),
{
    assert(published.insert(key, first).insert(key, second) =~= published.insert(key, second));
}

} // verus!
