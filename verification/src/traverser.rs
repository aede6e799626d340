//! Traversers: one record in flight, with its current value, its path, its
//! active tags and the values it has stored under tags.

use crate::path::{
    appended, lemma_same_value_reflexive, same_entries, same_value, Path, PathEntry,
};
use crate::step::StepError;
use crate::tag_set::{
    copy_tags, empty_tags, subtract_tags, tags_contain, tags_in_order, tags_of, unite_tags,
};
use crate::value::DynValue;
use bit_set::BitSet;
use std::collections::HashMap;
use vstd::prelude::*;

verus! {

broadcast use vstd::std_specs::hash::group_hash_axioms;

/// One record in flight. Whoever holds it owns it alone.
#[derive(Debug, PartialEq)]
pub struct Traverser {
    value: DynValue,
    path: Path,
    active_tags: BitSet,
    labeled: HashMap<usize, DynValue>,
}

/// What a traverser holds, as plain values.
pub ghost struct TraverserView {
    /// The current value.
    pub value: DynValue,
    /// The recorded history, oldest entry first.
    pub path: Seq<PathEntry>,
    /// The tags that are active now.
    pub active_tags: Set<usize>,
    /// The values stored under tags.
    pub labeled: Map<usize, DynValue>,
}

impl View for Traverser {
    type V = TraverserView;

    closed spec fn view(&self) -> TraverserView {
        TraverserView {
            value: self.value,
            path: self.path@,
            active_tags: tags_of(self.active_tags),
            labeled: self.labeled@,
        }
    }
}

/// The store `store` after `v` has been stored under every tag of `tags`:
/// those tags now lead to `v`, every other tag to what it led to before.
pub open spec fn fanned_out(store: Map<usize, DynValue>, tags: Set<usize>, v: DynValue) -> Map<
    usize,
    DynValue,
> {
    Map::new(
        |t: usize| store.contains_key(t) || tags.contains(t),
        |t: usize|
            if tags.contains(t) {
                v
            } else {
                store[t]
            },
    )
}

/// Whether `b` is a branch of `a`: the same value, history and active tags,
/// and under each tag a value with the same content.
pub open spec fn same_traverser(a: TraverserView, b: TraverserView) -> bool {
    &&& same_value(a.value, b.value)
    &&& same_entries(a.path, b.path)
    &&& a.active_tags == b.active_tags
    &&& a.labeled.dom() == b.labeled.dom()
    &&& forall|t: usize| #[trigger]
        a.labeled.contains_key(t) ==> same_value(a.labeled[t], b.labeled[t])
}

/// What asking the store for the value under `tag` gives.
pub open spec fn selected(store: Map<usize, DynValue>, tag: usize) -> Result<DynValue, StepError> {
    if store.contains_key(tag) {
        Ok(store[tag])
    } else {
        Err(StepError::InvalidTagReference(tag))
    }
}

proof fn lemma_take_one_more(v: Seq<usize>, i: int)
    requires
        0 <= i < v.len(),
    ensures
        forall|t: usize| #[trigger] v.take(i + 1).contains(t) <==> (v.take(i).contains(t) || t == v[i]),
{
    let shorter = v.take(i);
    let longer = v.take(i + 1);
    assert forall|t: usize| #[trigger] longer.contains(t) <==> (shorter.contains(t) || t == v[i]) by {
        if longer.contains(t) {
            let j = choose|j: int| 0 <= j < longer.len() && longer[j] == t;
            if j < i {
                assert(shorter[j] == t);
            }
        }
        if shorter.contains(t) {
            let j = choose|j: int| 0 <= j < shorter.len() && shorter[j] == t;
            assert(longer[j] == t);
        }
        if t == v[i] {
            assert(longer[i] == t);
        }
    }
}

impl Clone for Traverser {
    /// A branch: a separate traverser with the same content. What is done to
    /// one of the two afterwards does not show in the other.
    fn clone(&self) -> (r: Self)
        ensures
            same_traverser(self@, r@),
    {
        let r = Traverser {
            value: self.value.clone(),
            path: self.path.clone(),
            active_tags: copy_tags(&self.active_tags),
            labeled: self.labeled.clone(),
        };
        proof {
            assert forall|t: usize| #[trigger] self@.labeled.contains_key(t) implies same_value(
                self@.labeled[t],
                r@.labeled[t],
            ) by {
                lemma_same_value_reflexive(self@.labeled[t]);
            }
        }
        r
    }
}

impl Traverser {
    /// A traverser at a source: it holds `value`, has no history, no active
    /// tag and nothing stored.
    pub fn new(value: DynValue) -> (r: Traverser)
        ensures
            r@ == (TraverserView {
                value,
                path: Seq::empty(),
                active_tags: Set::empty(),
                labeled: Map::empty(),
            }),
    {
        Traverser { value, path: Path::new(), active_tags: empty_tags(), labeled: HashMap::new() }
    }

    /// A traverser that holds `value`, with the given history and active tags
    /// and nothing stored.
    pub fn with_history(value: DynValue, path: Path, active_tags: BitSet) -> (r: Traverser)
        ensures
            r@ == (TraverserView {
                value,
                path: path@,
                active_tags: tags_of(active_tags),
                labeled: Map::empty(),
            }),
    {
        Traverser { value, path, active_tags, labeled: HashMap::new() }
    }

    /// The current value.
    pub fn get_value(&self) -> (r: &DynValue)
        ensures
            *r == self@.value,
    {
        &self.value
    }

    /// The recorded history.
    pub fn get_path(&self) -> (r: &Path)
        ensures
            r@ == self@.path,
    {
        &self.path
    }

    /// The number of entries in the history.
    pub fn get_path_len(&self) -> (r: usize)
        ensures
            r == self@.path.len(),
    {
        self.path.len()
    }

    /// The active tags.
    pub fn get_tags(&self) -> (r: &BitSet)
        ensures
            tags_of(*r) == self@.active_tags,
    {
        &self.active_tags
    }

    /// Whether `tag` is active.
    pub fn has_tag(&self, tag: usize) -> (r: bool)
        ensures
            r == self@.active_tags.contains(tag),
    {
        tags_contain(&self.active_tags, tag)
    }

    /// The value stored under `tag`. A tag under which nothing was stored is
    /// an invalid reference.
    pub fn select(&self, tag: usize) -> (r: Result<&DynValue, StepError>)
        ensures
            r matches Ok(v) ==> selected(self@.labeled, tag) == Ok::<DynValue, StepError>(*v),
            r matches Err(e) ==> selected(self@.labeled, tag) == Err::<DynValue, StepError>(e),
    {
        match self.labeled.get(&tag) {
            Some(v) => Ok(v),
            None => Err(StepError::InvalidTagReference(tag)),
        }
    }

    /// Replaces the current value. History, tags and store stay.
    pub fn set_value(&mut self, value: DynValue)
        ensures
            final(self)@ == (TraverserView { value, ..old(self)@ }),
    {
        self.value = value;
    }

    /// Moves on to `value`: the value held so far is recorded at the end of
    /// the history, with a snapshot of the tags active now.
    pub fn advance(&mut self, value: DynValue)
        ensures
            final(self)@.value == value,
            final(self)@.active_tags == old(self)@.active_tags,
            final(self)@.labeled == old(self)@.labeled,
            final(self)@.path.len() == old(self)@.path.len() + 1,
            final(self)@.path.drop_last() == old(self)@.path,
            final(self)@.path.last().value == old(self)@.value,
            final(self)@.path.last().spec_tags() == old(self)@.active_tags,
    {
        let snapshot = copy_tags(&self.active_tags);
        let mut held = value;
        core::mem::swap(&mut self.value, &mut held);
        let ghost entry = PathEntry { value: held, tags: snapshot };
        self.path.append(held, snapshot);
        assert(appended(old(self)@.path, entry).drop_last() =~= old(self)@.path);
    }

    /// Hands out the whole history and leaves the traverser with an empty
    /// one. Value, tags and store stay.
    pub fn take_path(&mut self) -> (r: Path)
        ensures
            r@ == old(self)@.path,
            final(self)@ == (TraverserView { path: Seq::empty(), ..old(self)@ }),
    {
        let mut taken = Path::new();
        core::mem::swap(&mut self.path, &mut taken);
        taken
    }

    /// Stores the integer `value` under every tag of `tags`, visiting them in
    /// ascending order. Whether a tag is active plays no part.
    pub fn split_with_value(&mut self, value: i64, tags: &BitSet)
        ensures
            final(self)@ == (TraverserView {
                labeled: fanned_out(old(self)@.labeled, tags_of(*tags), DynValue::Int(value)),
                ..old(self)@
            }),
    {
        let order = tags_in_order(tags);
        let ghost before = self.labeled@;
        let mut i: usize = 0;
        while i < order.len()
            invariant
                i <= order.len(),
                self.value == old(self).value,
                self.path == old(self).path,
                self.active_tags == old(self).active_tags,
                before == old(self).labeled@,
                self.labeled@ =~= fanned_out(
                    before,
                    order@.take(i as int).to_set(),
                    DynValue::Int(value),
                ),
            decreases order.len() - i,
        {
            let tag = order[i];
            self.labeled.insert(tag, DynValue::Int(value));
            proof {
                lemma_take_one_more(order@, i as int);
            }
            i += 1;
        }
        proof {
            assert(order@.take(i as int) =~= order@);
            assert(order@.to_set() =~= tags_of(*tags));
        }
    }

    /// Makes every tag of `tags` active. History and store stay.
    pub fn add_tags(&mut self, tags: &BitSet)
        ensures
            final(self)@ == (TraverserView {
                active_tags: old(self)@.active_tags.union(tags_of(*tags)),
                ..old(self)@
            }),
    {
        unite_tags(&mut self.active_tags, tags);
    }

    /// Takes every tag of `tags` out of the active tags. History and store
    /// stay: entries recorded earlier keep the tags they were recorded with.
    pub fn remove_tags(&mut self, tags: &BitSet)
        ensures
            final(self)@ == (TraverserView {
                active_tags: old(self)@.active_tags.difference(tags_of(*tags)),
                ..old(self)@
            }),
    {
        subtract_tags(&mut self.active_tags, tags);
    }
}

} // verus!
