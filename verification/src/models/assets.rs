//! The asset index: every sound, texture and language file a version uses.
use crate::text::str_eq;
use vstd::prelude::*;

verus! {

/// No two entries carry the same name.
pub open spec fn names_distinct(entries: Seq<(String, AssetObject)>) -> bool {
    forall|i: int, j: int|
        0 <= i < j < entries.len() ==> (#[trigger] entries[i]).0@ != (#[trigger] entries[j]).0@
}

/// The objects of an asset index, each under its name (such as
/// "minecraft/sounds/ambient/cave/cave1.ogg"), in the order they were added.
/// No name occurs twice.
#[derive(Debug)]
pub struct AssetIndex {
    objects: Vec<(String, AssetObject)>,
}

/// One asset file.
#[derive(Debug, Default, Clone, PartialEq, Eq)]
pub struct AssetObject {
    /// The SHA-1 of the file, in lowercase hex; it also names where the file is stored.
    pub hash: String,
    pub size: u64,
}

impl AssetIndex {
    #[verifier::type_invariant]
    spec fn inv(self) -> bool {
        names_distinct(self.objects@)
    }

    /// The entries, in the order they were added.
    pub closed spec fn entries(&self) -> Seq<(String, AssetObject)> {
        self.objects@
    }

    /// An index without objects.
    pub fn new() -> (r: Self)
        ensures
            r.entries().len() == 0,
    {
        AssetIndex { objects: Vec::new() }
    }

    /// Puts `object` under `name`: it replaces the object already there, or
    /// is added at the end.
    pub fn insert(&mut self, name: String, object: AssetObject)
        ensures
            (exists|i: int| 0 <= i < old(self).entries().len() && old(self).entries()[i].0@ == name@)
                ==> exists|i: int|
                0 <= i < old(self).entries().len() && old(self).entries()[i].0@ == name@
                    && final(self).entries() == old(self).entries().update(i, (name, object)),
            (forall|i: int|
                0 <= i < old(self).entries().len() ==> old(self).entries()[i].0@ != name@)
                ==> final(self).entries() == old(self).entries().push((name, object)),
    {
        proof {
            use_type_invariant(&*self);
        }
        let mut objects = Vec::new();
        std::mem::swap(&mut objects, &mut self.objects);
        let ghost old_entries = objects@;
        assert(old_entries == old(self).entries());
        let mut i: usize = 0;
        while i < objects.len()
            invariant
                i <= objects@.len(),
                objects@ == old_entries,
                old_entries == old(self).entries(),
                names_distinct(old_entries),
                forall|k: int| 0 <= k < i ==> objects@[k].0@ != name@,
            decreases objects.len() - i,
        {
            if str_eq(objects[i].0.as_str(), name.as_str()) {
                let ghost before = objects@;
                objects.set(i, (name, object));
                assert(names_distinct(objects@)) by {
                    assert forall|a: int, b: int|
                        0 <= a < b < objects@.len() implies (#[trigger] objects@[a]).0@
                        != (#[trigger] objects@[b]).0@ by {
                        assert(before[a].0@ != before[b].0@);
                        if a == i {
                            assert(before[i as int].0@ == objects@[a].0@);
                        }
                        if b == i {
                            assert(before[i as int].0@ == objects@[b].0@);
                        }
                    }
                }
                self.objects = objects;
                assert(self.entries() == old_entries.update(i as int, (name, object)));
                assert(old_entries[i as int].0@ == name@);
                return ;
            }
            i = i + 1;
        }
        let ghost before = objects@;
        objects.push((name, object));
        assert(names_distinct(objects@)) by {
            assert forall|a: int, b: int|
                0 <= a < b < objects@.len() implies (#[trigger] objects@[a]).0@
                != (#[trigger] objects@[b]).0@ by {
                if b < before.len() {
                    assert(before[a].0@ != before[b].0@);
                } else {
                    assert(before[a].0@ != name@);
                }
            }
        }
        self.objects = objects;
    }

    /// The entries, in the order they were added; no name occurs twice.
    pub fn objects(&self) -> (r: &Vec<(String, AssetObject)>)
        ensures
            r@ == self.entries(),
            names_distinct(r@),
    {
        proof {
            use_type_invariant(self);
        }
        &self.objects
    }

    /// How many objects the index holds.
    pub fn len(&self) -> (r: usize)
        ensures
            r == self.entries().len(),
    {
        self.objects.len()
    }
}

} // verus!
