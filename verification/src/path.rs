//! Paths: the ordered history of the values a traverser has held, each with
//! the tags that were active when it was recorded.

use crate::tag_set::{copy_tags, tags_of};
use crate::value::DynValue;
use bit_set::BitSet;
use vstd::prelude::*;

verus! {

/// One recorded step: the value held and a snapshot of the active tags.
#[derive(Debug, PartialEq)]
pub struct PathEntry {
    pub value: DynValue,
    pub tags: BitSet,
}

impl PathEntry {
    /// The tags recorded with this entry.
    pub open spec fn spec_tags(self) -> Set<usize> {
        tags_of(self.tags)
    }
}

/// An append-only history of entries, oldest first.
#[derive(Debug, PartialEq)]
pub struct Path {
    entries: Vec<PathEntry>,
}

impl View for Path {
    type V = Seq<PathEntry>;

    closed spec fn view(&self) -> Seq<PathEntry> {
        self.entries@
    }
}

/// The history `s` with `e` recorded after it.
pub open spec fn appended(s: Seq<PathEntry>, e: PathEntry) -> Seq<PathEntry> {
    s.push(e)
}

/// The history `s` with every entry of `items` recorded after it, in order.
pub open spec fn appended_all(s: Seq<PathEntry>, items: Seq<PathEntry>) -> Seq<PathEntry>
    decreases items.len(),
{
    if items.len() == 0 {
        s
    } else {
        appended(appended_all(s, items.drop_last()), items.last())
    }
}

/// Whether `b` holds what `a` holds: the same kind and the same payload,
/// and, for a path, entry by entry the same value and the same tags.
pub open spec fn same_value(a: DynValue, b: DynValue) -> bool
    decreases a,
{
    match a {
        DynValue::Path(p) => match b {
            DynValue::Path(q) => {
                &&& p@.len() == q@.len()
                &&& forall|i: int|
                    0 <= i < p@.len() ==> {
                        &&& same_value((#[trigger] p@[i]).value, q@[i].value)
                        &&& p@[i].spec_tags() == q@[i].spec_tags()
                    }
            },
            _ => false,
        },
        _ => a == b,
    }
}

/// Whether the histories `a` and `b` hold, entry by entry, the same value
/// and the same tags.
pub open spec fn same_entries(a: Seq<PathEntry>, b: Seq<PathEntry>) -> bool {
    &&& a.len() == b.len()
    &&& forall|i: int|
        0 <= i < a.len() ==> {
            &&& same_value((#[trigger] a[i]).value, b[i].value)
            &&& a[i].spec_tags() == b[i].spec_tags()
        }
}

impl DynValue {
    /// A separate value with the same content, which shares nothing with
    /// this one.
    fn duplicate(&self) -> (r: DynValue)
        ensures
            same_value(*self, r),
        decreases *self,
    {
        match self {
            DynValue::Int(n) => DynValue::Int(*n),
            DynValue::Text(s) => DynValue::Text(s.clone()),
            DynValue::Element(e) => DynValue::Element(*e),
            DynValue::Path(p) => DynValue::Path(p.duplicate()),
        }
    }
}

impl Path {
    /// A separate path with the same entries in the same order, which shares
    /// nothing with this one.
    fn duplicate(&self) -> (r: Path)
        ensures
            same_entries(self@, r@),
        decreases *self,
    {
        let mut entries: Vec<PathEntry> = Vec::new();
        let mut i: usize = 0;
        while i < self.entries.len()
            invariant
                i <= self.entries.len(),
                same_entries(self.entries@.take(i as int), entries@),
            decreases self.entries.len() - i,
        {
            let entry = &self.entries[i];
            let value = entry.value.duplicate();
            let tags = copy_tags(&entry.tags);
            entries.push(PathEntry { value, tags });
            i += 1;
        }
        assert(self.entries@.take(i as int) =~= self.entries@);
        Path { entries }
    }

    /// A path with no entry.
    pub fn new() -> (r: Path)
        ensures
            r@ == Seq::<PathEntry>::empty(),
    {
        Path { entries: Vec::new() }
    }

    /// The number of recorded entries.
    pub fn len(&self) -> (r: usize)
        ensures
            r == self@.len(),
    {
        self.entries.len()
    }

    /// Whether nothing has been recorded.
    pub fn is_empty(&self) -> (r: bool)
        ensures
            r == (self@.len() == 0),
    {
        self.entries.len() == 0
    }

    /// Records a new entry after all the others, which stay as they are.
    pub fn append(&mut self, value: DynValue, tags: BitSet)
        ensures
            final(self)@ == appended(old(self)@, (PathEntry { value, tags })),
    {
        self.entries.push(PathEntry { value, tags });
    }

    /// The entry at `index`, or `None` where the path is not that long.
    pub fn entry_at(&self, index: usize) -> (r: Option<&PathEntry>)
        ensures
            index < self@.len() ==> r == Some(&self@[index as int]),
            index >= self@.len() ==> r is None,
    {
        if index < self.entries.len() {
            Some(&self.entries[index])
        } else {
            None
        }
    }

    /// The tags recorded with the entry at `index`, or `None` where the path
    /// is not that long.
    pub fn tags_at(&self, index: usize) -> (r: Option<&BitSet>)
        ensures
            index < self@.len() ==> r == Some(&self@[index as int].tags),
            index >= self@.len() ==> r is None,
    {
        if index < self.entries.len() {
            Some(&self.entries[index].tags)
        } else {
            None
        }
    }
}

impl Clone for DynValue {
    /// A separate value with the same content.
    fn clone(&self) -> (r: Self)
        ensures
            same_value(*self, r),
    {
        self.duplicate()
    }
}

impl Clone for PathEntry {
    /// A separate entry with the same value and the same tags.
    fn clone(&self) -> (r: Self)
        ensures
            same_value(self.value, r.value),
            self.spec_tags() == r.spec_tags(),
    {
        PathEntry { value: self.value.duplicate(), tags: copy_tags(&self.tags) }
    }
}

impl Clone for Path {
    /// A separate path with the same entries in the same order.
    fn clone(&self) -> (r: Self)
        ensures
            same_entries(self@, r@),
    {
        self.duplicate()
    }
}

/// Every value holds what it holds itself.
pub proof fn lemma_same_value_reflexive(a: DynValue)
    ensures
        same_value(a, a),
    decreases a,
{
    match a {
        DynValue::Path(p) => {
            assert forall|i: int| 0 <= i < p@.len() implies same_value(
                (#[trigger] p@[i]).value,
                p@[i].value,
            ) by {
                lemma_same_value_reflexive(p@[i].value);
            }
        },
        _ => {},
    }
}

/// Recording `items` one after another on any history adds exactly
/// `items.len()` entries and changes none of the earlier ones.
pub proof fn lemma_appended_all(s: Seq<PathEntry>, items: Seq<PathEntry>)
    ensures
        appended_all(s, items) == s + items,
        appended_all(s, items).len() == s.len() + items.len(),
    decreases items.len(),
{
    if items.len() == 0 {
        assert(s + items =~= s);
    } else {
        lemma_appended_all(s, items.drop_last());
        assert((s + items.drop_last()).push(items.last()) =~= s + items);
    }
}

/// After any `n` appends on an empty path, its length is `n`.
pub proof fn lemma_length_counts_appends(items: Seq<PathEntry>)
    ensures
        appended_all(Seq::<PathEntry>::empty(), items).len() == items.len(),
        appended_all(Seq::<PathEntry>::empty(), items) == items,
{
    lemma_appended_all(Seq::<PathEntry>::empty(), items);
    assert(Seq::<PathEntry>::empty() + items =~= items);
}

} // verus!
