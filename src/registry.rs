use vstd::prelude::*;
use crate::error::BuildError;
use crate::intercept::pair_views;
use crate::text::same_text;
use crate::targets::views;

verus! {

/// Whether the keys of a list of pairs are all different.
pub open spec fn keys_distinct(e: Seq<(Seq<char>, Seq<char>)>) -> bool {
    forall|i: int, j: int| 0 <= i < e.len() && 0 <= j < e.len() && i != j ==> e[i].0 != e[j].0
}

/// The map that a list of pairs with distinct keys stands for.
pub open spec fn map_of(e: Seq<(Seq<char>, Seq<char>)>) -> Map<Seq<char>, Seq<char>> {
    Map::new(
        |k: Seq<char>| exists|i: int| 0 <= i < e.len() && e[i].0 == k,
        |k: Seq<char>| e[choose|i: int| 0 <= i < e.len() && e[i].0 == k].1,
    )
}

/// The path of the library built for each target, written once per target
/// while the build runs and read when it is over.
#[derive(Debug)]
pub struct ArtifactRegistry {
    entries: Vec<(String, String)>,
}

impl View for ArtifactRegistry {
    type V = Map<Seq<char>, Seq<char>>;

    closed spec fn view(&self) -> Map<Seq<char>, Seq<char>> {
        map_of(pair_views(self.entries@))
    }
}

proof fn lemma_map_of_at(e: Seq<(Seq<char>, Seq<char>)>, i: int)
    requires
        keys_distinct(e),
        0 <= i < e.len(),
    ensures
        map_of(e).contains_key(e[i].0),
        map_of(e)[e[i].0] == e[i].1,
{
    let k = e[i].0;
    assert(map_of(e).dom().contains(k));
    let c = choose|c: int| 0 <= c < e.len() && e[c].0 == k;
    assert(c == i);
}

impl ArtifactRegistry {
    /// Whether each target has at most one entry.
    pub closed spec fn wf(&self) -> bool {
        keys_distinct(pair_views(self.entries@))
    }

    /// A registry with no entry.
    pub fn new() -> (r: Self)
        ensures
            r.wf(),
            r@ == Map::<Seq<char>, Seq<char>>::empty(),
    {
        let r = ArtifactRegistry { entries: Vec::new() };
        assert(r@ =~= Map::<Seq<char>, Seq<char>>::empty());
        r
    }

    /// The position of the entry of `target`, if it has one.
    fn find(&self, target: &str) -> (r: Option<usize>)
        requires
            self.wf(),
        ensures
            match r {
                Some(i) => i < self.entries@.len() && self.entries@[i as int].0@ == target@
                    && self@.contains_key(target@) && self@[target@] == self.entries@[i as int].1@,
                None => !self@.contains_key(target@),
            },
    {
        let ghost e = pair_views(self.entries@);
        let mut i: usize = 0;
        while i < self.entries.len()
            invariant
                e == pair_views(self.entries@),
                keys_distinct(e),
                i <= self.entries@.len(),
                forall|j: int| 0 <= j < i ==> (#[trigger] e[j]).0 != target@,
            decreases self.entries@.len() - i,
        {
            if same_text(self.entries[i].0.as_str(), target) {
                proof {
                    lemma_map_of_at(e, i as int);
                }
                return Some(i);
            }
            i = i + 1;
        }
        None
    }

    /// The path recorded for `target`, if there is one.
    pub fn get(&self, target: &str) -> (r: Option<String>)
        requires
            self.wf(),
        ensures
            match r {
                Some(p) => self@.contains_key(target@) && self@[target@] == p@,
                None => !self@.contains_key(target@),
            },
    {
        match self.find(target) {
            Some(i) => Some(self.entries[i].1.clone()),
            None => None,
        }
    }

    /// Records the artifact of `target`. A target is written once: a second
    /// report for it is refused and leaves the registry as it was.
    pub fn record(&mut self, target: String, path: String) -> (r: Result<(), BuildError>)
        requires
            old(self).wf(),
        ensures
            final(self).wf(),
            old(self)@.contains_key(target@) ==> {
                &&& r matches Err(BuildError::DuplicateArtifact(t)) && t@ == target@
                &&& final(self)@ == old(self)@
            },
            !old(self)@.contains_key(target@) ==> {
                &&& r is Ok
                &&& final(self)@ == old(self)@.insert(target@, path@)
            },
    {
        if self.find(target.as_str()).is_some() {
            return Err(BuildError::DuplicateArtifact(target));
        }
        let ghost before = pair_views(self.entries@);
        let ghost k = target@;
        let ghost v = path@;
        self.entries.push((target, path));
        let ghost after = pair_views(self.entries@);
        assert(after =~= before.push((k, v)));
        assert(keys_distinct(after));
        assert(map_of(after) =~= map_of(before).insert(k, v)) by {
            assert forall|key: Seq<char>| #[trigger] map_of(after).contains_key(key)
                <==> map_of(before).insert(k, v).contains_key(key) by {
                if key == k {
                    assert(after[before.len() as int].0 == key);
                }
                if map_of(before).contains_key(key) {
                    let c = choose|c: int| 0 <= c < before.len() && before[c].0 == key;
                    assert(after[c].0 == key);
                }
                if map_of(after).contains_key(key) && key != k {
                    let c = choose|c: int| 0 <= c < after.len() && after[c].0 == key;
                    assert(before[c].0 == key);
                }
            }
            assert forall|key: Seq<char>| #[trigger] map_of(after).contains_key(key)
                implies map_of(after)[key] == map_of(before).insert(k, v)[key] by {
                if key == k {
                    lemma_map_of_at(after, before.len() as int);
                } else {
                    let c = choose|c: int| 0 <= c < after.len() && after[c].0 == key;
                    assert(before[c].0 == key);
                    lemma_map_of_at(after, c);
                    lemma_map_of_at(before, c);
                }
            }
        }
        Ok(())
    }

    /// The artifact of each requested target, in the order requested. Fails
    /// with the first requested target that has no artifact.
    pub fn collect(&self, targets: &Vec<String>) -> (r: Result<Vec<(String, String)>, BuildError>)
        requires
            self.wf(),
        ensures
            match r {
                Ok(v) => (forall|i: int| 0 <= i < targets@.len() ==> self@.contains_key(#[trigger] targets@[i]@))
                    && pair_views(v@) == views(targets@).map_values(|t: Seq<char>| (t, self@[t])),
                Err(e) => exists|i: int| {
                    &&& 0 <= i < targets@.len()
                    &&& !self@.contains_key(#[trigger] targets@[i]@)
                    &&& (forall|j: int| 0 <= j < i ==> self@.contains_key(#[trigger] targets@[j]@))
                    &&& e matches BuildError::MissingArtifact(t) && t@ == targets@[i]@
                },
            },
    {
        let mut v: Vec<(String, String)> = Vec::new();
        let mut i: usize = 0;
        while i < targets.len()
            invariant
                self.wf(),
                i <= targets@.len(),
                v@.len() == i,
                forall|j: int| 0 <= j < i ==> self@.contains_key(#[trigger] targets@[j]@),
                forall|j: int| 0 <= j < i ==> (#[trigger] v@[j]).0@ == targets@[j]@ && v@[j].1@ == self@[targets@[j]@],
            decreases targets@.len() - i,
        {
            match self.get(targets[i].as_str()) {
                Some(p) => {
                    v.push((targets[i].clone(), p));
                },
                None => {
                    return Err(BuildError::MissingArtifact(targets[i].clone()));
                },
            }
            i = i + 1;
        }
        assert(pair_views(v@) =~= views(targets@).map_values(|t: Seq<char>| (t, self@[t])));
        Ok(v)
    }
}

} // verus!
