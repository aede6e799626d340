//! The step protocol: the three shapes a step can have, the error a step
//! fails with, and the two steps that work on a traverser's own path.

use crate::path::PathEntry;
use crate::tag_set::tags_of;
use crate::traverser::{fanned_out, selected, Traverser, TraverserView};
use crate::value::{DynValue, TypeMismatch};
use bit_set::BitSet;
use vstd::prelude::*;

verus! {

/// Why a step failed on one traverser.
#[derive(Debug, PartialEq)]
pub enum StepError {
    /// A value was read as a kind it does not hold.
    TypeMismatch(TypeMismatch),
    /// A tag was asked for under which nothing was stored.
    InvalidTagReference(usize),
    /// A condition of the step itself.
    Other(String),
}

impl From<TypeMismatch> for StepError {
    /// A failed read, as the failure of the step that made it.
    fn from(e: TypeMismatch) -> (r: StepError) {
        StepError::TypeMismatch(e)
    }
}

impl vstd::std_specs::convert::FromSpecImpl<TypeMismatch> for StepError {
    open spec fn obeys_from_spec() -> bool {
        true
    }

    open spec fn from_spec(e: TypeMismatch) -> StepError {
        StepError::TypeMismatch(e)
    }
}

/// What a step returns.
pub type FnResult<T> = Result<T, StepError>;

/// A step with exactly one output for each input.
pub trait MapFunction<I, O> {
    fn exec(&self, input: I) -> FnResult<O>;
}

/// A step that lets its input pass or drops it.
pub trait FilterFunction<D> {
    fn exec(&self, input: &D) -> FnResult<bool>;
}

/// A step with a finite sequence of outputs for each input, in the order in
/// which the step yields them.
pub trait FlatMapFunction<I, O> {
    fn exec(&self, input: I) -> FnResult<Vec<O>>;
}

/// The count that stands for a path of `len` entries: `len` itself wherever
/// it fits in an `i64`.
pub open spec fn path_count(len: nat) -> i64 {
    len as i64
}

/// Whether `after` is `before` with its path made its value: the value is a
/// path with the entries of `before`, the path is empty, and the active tags
/// and the stored values are untouched.
pub open spec fn path_materialized(before: TraverserView, after: TraverserView) -> bool {
    &&& after.value.holds_path(before.path)
    &&& after.path == Seq::<PathEntry>::empty()
    &&& after.active_tags == before.active_tags
    &&& after.labeled == before.labeled
}

/// The traverser `t` after its path length has been stored under every tag
/// of `target` and then every tag of `remove` has been made inactive.
pub open spec fn path_counted(
    t: TraverserView,
    target: Set<usize>,
    remove: Set<usize>,
) -> TraverserView {
    TraverserView {
        labeled: fanned_out(t.labeled, target, DynValue::Int(path_count(t.path.len()))),
        active_tags: t.active_tags.difference(remove),
        ..t
    }
}

/// Turns a traverser's whole path into its value.
#[derive(Debug, PartialEq)]
pub struct PathStep {}

impl MapFunction<Traverser, Traverser> for PathStep {
    /// Always succeeds. The output holds the input's path as its value and
    /// an empty path of its own; active tags and stored values are those of
    /// the input.
    fn exec(&self, input: Traverser) -> (r: FnResult<Traverser>)
        ensures
            r matches Ok(out) && path_materialized(input@, out@),
    {
        let mut t = input;
        let path = t.take_path();
        t.set_value(DynValue::from_path(path));
        Ok(t)
    }
}

/// Stores the length of a traverser's path under each of `tags`, then makes
/// `remove_tags` inactive.
#[derive(Debug, PartialEq)]
pub struct PathLocalCountStep {
    pub tags: BitSet,
    pub remove_tags: BitSet,
}

impl MapFunction<Traverser, Traverser> for PathLocalCountStep {
    /// Always succeeds. Value and path are the input's; the store and the
    /// active tags are as `path_counted` says.
    fn exec(&self, input: Traverser) -> (r: FnResult<Traverser>)
        ensures
            r matches Ok(out) && out@ == path_counted(
                input@,
                tags_of(self.tags),
                tags_of(self.remove_tags),
            ),
    {
        let mut t = input;
        let count = t.get_path_len() as i64;
        t.split_with_value(count, &self.tags);
        t.remove_tags(&self.remove_tags);
        Ok(t)
    }
}

/// Materializing a path and reading the value back as a path gives the
/// entries that the traverser's path held, in order.
pub proof fn lemma_materialize_round_trip(before: TraverserView, after: TraverserView)
    requires
        path_materialized(before, after),
    ensures
        after.value.spec_as_path() is Ok,
        after.value.spec_as_path().unwrap()@ == before.path,
{
}

/// A path of up to `i64::MAX` entries is counted as its length.
pub proof fn lemma_count_is_length(len: nat)
    requires
        len <= i64::MAX,
    ensures
        path_count(len) == len,
{
}

/// After the count, every target tag leads to the count, and no other tag
/// gains or loses a value.
pub proof fn lemma_fan_out(t: TraverserView, target: Set<usize>, remove: Set<usize>, tag: usize)
    ensures
        target.contains(tag) ==> selected(path_counted(t, target, remove).labeled, tag) == Ok::<
            DynValue,
            StepError,
        >(DynValue::Int(path_count(t.path.len()))),
        !target.contains(tag) ==> selected(path_counted(t, target, remove).labeled, tag)
            == selected(t.labeled, tag),
{
}

/// Removal touches the active tags only: a removed tag is inactive after the
/// count, a tag that is not removed is active exactly if it was, and what is
/// stored does not depend on the tags removed.
pub proof fn lemma_removal_independent(
    t: TraverserView,
    target: Set<usize>,
    remove: Set<usize>,
    tag: usize,
)
    ensures
        remove.contains(tag) ==> !path_counted(t, target, remove).active_tags.contains(tag),
        !remove.contains(tag) ==> (path_counted(t, target, remove).active_tags.contains(tag)
            <==> t.active_tags.contains(tag)),
        path_counted(t, target, remove).labeled == path_counted(t, target, Set::empty()).labeled,
        target.contains(tag) ==> path_counted(t, target, remove).labeled.contains_key(tag),
{
}

/// With no target tag the store is left as it is, and the removal is still
/// applied.
pub proof fn lemma_empty_target(t: TraverserView, remove: Set<usize>)
    ensures
        path_counted(t, Set::empty(), remove).labeled == t.labeled,
        path_counted(t, Set::empty(), remove) == (TraverserView {
            active_tags: t.active_tags.difference(remove),
            ..t
        }),
{
    assert(path_counted(t, Set::empty(), remove).labeled =~= t.labeled);
}

} // verus!
