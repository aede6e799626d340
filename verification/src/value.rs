//! Dynamic values: the payload of a traverser, with its kind kept beside it
//! so that reading it as the wrong type is an error and never a guess.

use crate::path::{Path, PathEntry};
use vstd::prelude::*;

verus! {

/// Whether a graph element is a vertex or an edge.
#[derive(Clone, Copy, Debug, PartialEq, Eq, Structural)]
pub enum ElementKind {
    Vertex,
    Edge,
}

/// A reference to an element of the graph.
#[derive(Clone, Copy, Debug, PartialEq, Eq, Structural)]
pub struct GraphElement {
    pub kind: ElementKind,
    pub id: u64,
}

/// The kinds of payload that a dynamic value can hold.
#[derive(Clone, Copy, Debug, PartialEq, Eq, Structural)]
pub enum ValueKind {
    Int,
    Text,
    Element,
    Path,
}

/// A read asked for one kind and the value held another.
#[derive(Clone, Copy, Debug, PartialEq, Eq, Structural)]
pub struct TypeMismatch {
    pub expected: ValueKind,
    pub found: ValueKind,
}

/// A value whose kind is known only at run time. Exactly one variant is
/// active.
#[derive(Debug, PartialEq)]
pub enum DynValue {
    Int(i64),
    Text(String),
    Element(GraphElement),
    Path(Path),
}

impl DynValue {
    /// The kind of payload held.
    pub open spec fn spec_kind(self) -> ValueKind {
        match self {
            DynValue::Int(_) => ValueKind::Int,
            DynValue::Text(_) => ValueKind::Text,
            DynValue::Element(_) => ValueKind::Element,
            DynValue::Path(_) => ValueKind::Path,
        }
    }

    /// What a read of kind `expected` fails with, if it fails.
    pub open spec fn mismatch(self, expected: ValueKind) -> TypeMismatch {
        TypeMismatch { expected, found: self.spec_kind() }
    }

    /// What reading the value as an integer gives.
    pub open spec fn spec_as_int(self) -> Result<i64, TypeMismatch> {
        match self {
            DynValue::Int(n) => Ok(n),
            _ => Err(self.mismatch(ValueKind::Int)),
        }
    }

    /// What reading the value as text gives.
    pub open spec fn spec_as_text(self) -> Result<String, TypeMismatch> {
        match self {
            DynValue::Text(s) => Ok(s),
            _ => Err(self.mismatch(ValueKind::Text)),
        }
    }

    /// What reading the value as a graph element gives.
    pub open spec fn spec_as_element(self) -> Result<GraphElement, TypeMismatch> {
        match self {
            DynValue::Element(e) => Ok(e),
            _ => Err(self.mismatch(ValueKind::Element)),
        }
    }

    /// What reading the value as a path gives.
    pub open spec fn spec_as_path(self) -> Result<Path, TypeMismatch> {
        match self {
            DynValue::Path(p) => Ok(p),
            _ => Err(self.mismatch(ValueKind::Path)),
        }
    }

    /// Whether the value is a path whose entries are `entries`.
    pub open spec fn holds_path(self, entries: Seq<PathEntry>) -> bool {
        self matches DynValue::Path(p) && p@ == entries
    }

    /// Wraps an integer.
    pub fn from_int(n: i64) -> (r: DynValue)
        ensures
            r == DynValue::Int(n),
    {
        DynValue::Int(n)
    }

    /// Wraps a string.
    pub fn from_text(s: String) -> (r: DynValue)
        ensures
            r == DynValue::Text(s),
    {
        DynValue::Text(s)
    }

    /// Wraps a graph element.
    pub fn from_element(e: GraphElement) -> (r: DynValue)
        ensures
            r == DynValue::Element(e),
    {
        DynValue::Element(e)
    }

    /// Wraps a whole path, taking ownership of it.
    pub fn from_path(p: Path) -> (r: DynValue)
        ensures
            r == DynValue::Path(p),
    {
        DynValue::Path(p)
    }

    /// The kind of payload held.
    pub fn kind(&self) -> (r: ValueKind)
        ensures
            r == self.spec_kind(),
    {
        match self {
            DynValue::Int(_) => ValueKind::Int,
            DynValue::Text(_) => ValueKind::Text,
            DynValue::Element(_) => ValueKind::Element,
            DynValue::Path(_) => ValueKind::Path,
        }
    }

    /// Reads the value as an integer. The value itself is left as it was.
    pub fn as_int(&self) -> (r: Result<i64, TypeMismatch>)
        ensures
            r == self.spec_as_int(),
    {
        match self {
            DynValue::Int(n) => Ok(*n),
            _ => Err(TypeMismatch { expected: ValueKind::Int, found: self.kind() }),
        }
    }

    /// Reads the value as text. The value itself is left as it was.
    pub fn as_text(&self) -> (r: Result<&String, TypeMismatch>)
        ensures
            r matches Ok(s) ==> self.spec_as_text() == Ok::<String, TypeMismatch>(*s),
            r matches Err(e) ==> self.spec_as_text() == Err::<String, TypeMismatch>(e),
    {
        match self {
            DynValue::Text(s) => Ok(s),
            _ => Err(TypeMismatch { expected: ValueKind::Text, found: self.kind() }),
        }
    }

    /// Reads the value as a graph element. The value itself is left as it was.
    pub fn as_element(&self) -> (r: Result<GraphElement, TypeMismatch>)
        ensures
            r == self.spec_as_element(),
    {
        match self {
            DynValue::Element(e) => Ok(*e),
            _ => Err(TypeMismatch { expected: ValueKind::Element, found: self.kind() }),
        }
    }

    /// Reads the value as a path. The value itself is left as it was.
    pub fn as_path(&self) -> (r: Result<&Path, TypeMismatch>)
        ensures
            r matches Ok(p) ==> self.spec_as_path() == Ok::<Path, TypeMismatch>(*p),
            r matches Err(e) ==> self.spec_as_path() == Err::<Path, TypeMismatch>(e),
    {
        match self {
            DynValue::Path(p) => Ok(p),
            _ => Err(TypeMismatch { expected: ValueKind::Path, found: self.kind() }),
        }
    }

    /// Unwraps an integer, consuming the value.
    pub fn into_int(self) -> (r: Result<i64, TypeMismatch>)
        ensures
            r == self.spec_as_int(),
    {
        match self {
            DynValue::Int(n) => Ok(n),
            other => Err(TypeMismatch { expected: ValueKind::Int, found: other.kind() }),
        }
    }

    /// Unwraps a string, consuming the value.
    pub fn into_text(self) -> (r: Result<String, TypeMismatch>)
        ensures
            r == self.spec_as_text(),
    {
        match self {
            DynValue::Text(s) => Ok(s),
            other => Err(TypeMismatch { expected: ValueKind::Text, found: other.kind() }),
        }
    }

    /// Unwraps a graph element, consuming the value.
    pub fn into_element(self) -> (r: Result<GraphElement, TypeMismatch>)
        ensures
            r == self.spec_as_element(),
    {
        match self {
            DynValue::Element(e) => Ok(e),
            other => Err(TypeMismatch { expected: ValueKind::Element, found: other.kind() }),
        }
    }

    /// Unwraps a path, consuming the value.
    pub fn into_path(self) -> (r: Result<Path, TypeMismatch>)
        ensures
            r == self.spec_as_path(),
    {
        match self {
            DynValue::Path(p) => Ok(p),
            other => Err(TypeMismatch { expected: ValueKind::Path, found: other.kind() }),
        }
    }
}

/// Wrapping a path and unwrapping it again gives back the same path, entry by
/// entry.
pub proof fn lemma_path_round_trip(p: Path)
    ensures
        DynValue::Path(p).spec_as_path() == Ok::<Path, TypeMismatch>(p),
        DynValue::Path(p).spec_as_path().unwrap()@ == p@,
        DynValue::Path(p).spec_kind() == ValueKind::Path,
{
}

/// A read of the wrong kind fails with the kind asked for and the kind held,
/// and a read of the right kind succeeds whatever was asked before: reads
/// take the value by shared reference and cannot change it.
pub proof fn lemma_mismatch_then_retry(n: i64)
    ensures
        DynValue::Int(n).spec_as_element() == Err::<GraphElement, TypeMismatch>(
            TypeMismatch { expected: ValueKind::Element, found: ValueKind::Int },
        ),
        DynValue::Int(n).spec_as_int() == Ok::<i64, TypeMismatch>(n),
{
}

/// A read succeeds exactly when the kind asked for is the kind held.
pub proof fn lemma_read_succeeds_iff_kind(v: DynValue)
    ensures
        v.spec_as_int().is_ok() <==> v.spec_kind() == ValueKind::Int,
        v.spec_as_text().is_ok() <==> v.spec_kind() == ValueKind::Text,
        v.spec_as_element().is_ok() <==> v.spec_kind() == ValueKind::Element,
        v.spec_as_path().is_ok() <==> v.spec_kind() == ValueKind::Path,
{
}

} // verus!
