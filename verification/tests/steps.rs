use bit_set::BitSet;
use gremlin_core::path::Path;
use gremlin_core::step::{MapFunction, PathLocalCountStep, PathStep, StepError};
use gremlin_core::traverser::Traverser;
use gremlin_core::value::{DynValue, TypeMismatch, ValueKind};

fn tags(members: &[usize]) -> BitSet {
    let mut set = BitSet::new();
    for m in members {
        set.insert(*m);
    }
    set
}

fn path_of(len: usize) -> Path {
    let mut path = Path::new();
    for n in 0..len {
        path.append(DynValue::from_int(n as i64), BitSet::new());
    }
    path
}

fn stored(t: &Traverser, tag: usize) -> Option<i64> {
    match t.select(tag) {
        Ok(v) => Some(v.as_int().unwrap()),
        Err(e) => {
            assert_eq!(e, StepError::InvalidTagReference(tag));
            None
        }
    }
}

#[test]
fn new_traverser_has_nothing_but_its_value() {
    let t = Traverser::new(DynValue::from_int(1));
    assert_eq!(t.get_value().as_int(), Ok(1));
    assert_eq!(t.get_path_len(), 0);
    assert!(t.get_path().is_empty());
    assert!(t.get_tags().is_empty());
    assert!(!t.has_tag(0));
    assert_eq!(t.select(0), Err(StepError::InvalidTagReference(0)));
}

#[test]
fn with_history_keeps_what_it_is_given() {
    let t = Traverser::with_history(DynValue::from_int(1), path_of(4), tags(&[0, 9]));
    assert_eq!(t.get_path_len(), 4);
    assert_eq!(t.get_tags(), &tags(&[0, 9]));
    assert!(t.has_tag(0));
    assert!(t.has_tag(9));
    assert!(!t.has_tag(1));
    assert_eq!(stored(&t, 0), None);
}

#[test]
fn set_value_changes_the_value_only() {
    let mut t = Traverser::with_history(DynValue::from_int(1), path_of(2), tags(&[3]));
    t.set_value(DynValue::from_text(String::from("v")));
    assert_eq!(t.get_value().as_text(), Ok(&String::from("v")));
    assert_eq!(t.get_path_len(), 2);
    assert_eq!(t.get_tags(), &tags(&[3]));
}

#[test]
fn advance_records_the_old_value_with_a_snapshot_of_the_tags() {
    let mut t = Traverser::with_history(DynValue::from_int(1), Path::new(), tags(&[2, 4]));
    t.advance(DynValue::from_int(2));
    assert_eq!(t.get_value().as_int(), Ok(2));
    assert_eq!(t.get_path_len(), 1);
    assert_eq!(t.get_path().entry_at(0).map(|e| e.value.as_int()), Some(Ok(1)));
    assert_eq!(t.get_path().tags_at(0), Some(&tags(&[2, 4])));

    t.remove_tags(&tags(&[2]));
    assert_eq!(t.get_tags(), &tags(&[4]));
    assert_eq!(t.get_path().tags_at(0), Some(&tags(&[2, 4])));

    t.advance(DynValue::from_int(3));
    assert_eq!(t.get_path_len(), 2);
    assert_eq!(t.get_path().entry_at(0).map(|e| e.value.as_int()), Some(Ok(1)));
    assert_eq!(t.get_path().entry_at(1).map(|e| e.value.as_int()), Some(Ok(2)));
    assert_eq!(t.get_path().tags_at(1), Some(&tags(&[4])));
}

#[test]
fn add_tags_unites_and_remove_tags_subtracts() {
    let mut t = Traverser::with_history(DynValue::from_int(0), Path::new(), tags(&[1, 2]));
    t.add_tags(&tags(&[2, 40]));
    assert_eq!(t.get_tags(), &tags(&[1, 2, 40]));
    t.remove_tags(&tags(&[1, 40, 77]));
    assert_eq!(t.get_tags(), &tags(&[2]));
    t.remove_tags(&BitSet::new());
    assert_eq!(t.get_tags(), &tags(&[2]));
}

#[test]
fn take_path_leaves_an_empty_path() {
    let mut t = Traverser::with_history(DynValue::from_int(5), path_of(3), tags(&[1]));
    let taken = t.take_path();
    assert_eq!(taken, path_of(3));
    assert_eq!(t.get_path_len(), 0);
    assert_eq!(t.get_value().as_int(), Ok(5));
    assert_eq!(t.get_tags(), &tags(&[1]));
}

#[test]
fn split_with_value_stores_under_each_tag_and_overwrites() {
    let mut t = Traverser::new(DynValue::from_int(0));
    t.split_with_value(-1, &tags(&[1, 2]));
    assert_eq!(stored(&t, 1), Some(-1));
    assert_eq!(stored(&t, 2), Some(-1));
    t.split_with_value(8, &tags(&[2, 3, 64]));
    assert_eq!(stored(&t, 0), None);
    assert_eq!(stored(&t, 1), Some(-1));
    assert_eq!(stored(&t, 2), Some(8));
    assert_eq!(stored(&t, 3), Some(8));
    assert_eq!(stored(&t, 64), Some(8));
    assert_eq!(stored(&t, 65), None);
    assert!(t.get_tags().is_empty());
}

#[test]
fn path_step_makes_the_path_the_value() {
    let mut t = Traverser::with_history(DynValue::from_int(5), path_of(3), tags(&[1, 6]));
    t.split_with_value(11, &tags(&[4]));
    let out = PathStep {}.exec(t).unwrap();
    assert_eq!(out.get_value().as_path(), Ok(&path_of(3)));
    assert_eq!(out.get_path_len(), 0);
    assert_eq!(out.get_tags(), &tags(&[1, 6]));
    assert_eq!(stored(&out, 4), Some(11));
    assert_eq!(
        out.get_value().as_int(),
        Err(TypeMismatch { expected: ValueKind::Int, found: ValueKind::Path })
    );
}

#[test]
fn path_step_on_an_empty_path() {
    let out = PathStep {}.exec(Traverser::new(DynValue::from_int(0))).unwrap();
    assert_eq!(out.get_value().as_path().map(|p| p.len()), Ok(0));
    assert_eq!(out.get_path_len(), 0);
}

#[test]
fn count_is_stored_under_every_target_tag_and_no_other() {
    let step = PathLocalCountStep { tags: tags(&[2, 5, 7]), remove_tags: BitSet::new() };
    let t = Traverser::with_history(DynValue::from_int(0), path_of(4), BitSet::new());
    let out = step.exec(t).unwrap();
    for tag in 0..70usize {
        let expected = if tag == 2 || tag == 5 || tag == 7 { Some(4) } else { None };
        assert_eq!(stored(&out, tag), expected);
    }
    assert_eq!(out.get_value().as_int(), Ok(0));
    assert_eq!(out.get_path(), &path_of(4));
}

#[test]
fn count_of_an_empty_path_is_zero() {
    let step = PathLocalCountStep { tags: tags(&[0]), remove_tags: BitSet::new() };
    let out = step.exec(Traverser::new(DynValue::from_int(9))).unwrap();
    assert_eq!(stored(&out, 0), Some(0));
}

#[test]
fn removed_tags_are_inactive_but_their_counts_stay() {
    let step = PathLocalCountStep { tags: tags(&[2, 5, 7]), remove_tags: tags(&[5, 7]) };
    let t = Traverser::with_history(DynValue::from_int(0), path_of(2), tags(&[1, 2, 5, 7]));
    let out = step.exec(t).unwrap();
    assert!(!out.has_tag(5));
    assert!(!out.has_tag(7));
    assert!(out.has_tag(1));
    assert!(out.has_tag(2));
    assert_eq!(out.get_tags(), &tags(&[1, 2]));
    assert_eq!(stored(&out, 2), Some(2));
    assert_eq!(stored(&out, 5), Some(2));
    assert_eq!(stored(&out, 7), Some(2));
}

#[test]
fn empty_target_leaves_the_store_and_still_removes() {
    let mut t = Traverser::with_history(DynValue::from_int(0), path_of(6), tags(&[3, 4]));
    t.split_with_value(9, &tags(&[4]));
    let step = PathLocalCountStep { tags: BitSet::new(), remove_tags: tags(&[3]) };
    let out = step.exec(t).unwrap();
    for tag in 0..40usize {
        let expected = if tag == 4 { Some(9) } else { None };
        assert_eq!(stored(&out, tag), expected);
    }
    assert_eq!(out.get_tags(), &tags(&[4]));
    assert_eq!(out.get_path_len(), 6);
}

#[test]
fn count_replaces_an_earlier_value_under_the_same_tag() {
    let mut t = Traverser::with_history(DynValue::from_int(0), path_of(1), BitSet::new());
    t.split_with_value(50, &tags(&[2, 3]));
    let step = PathLocalCountStep { tags: tags(&[3]), remove_tags: BitSet::new() };
    let out = step.exec(t).unwrap();
    assert_eq!(stored(&out, 2), Some(50));
    assert_eq!(stored(&out, 3), Some(1));
}

#[test]
fn a_branch_shares_nothing_with_its_source() {
    let mut source = Traverser::with_history(DynValue::from_int(1), path_of(2), tags(&[3, 4]));
    source.split_with_value(7, &tags(&[3]));
    let mut branch = source.clone();
    assert_eq!(branch, source);

    branch.advance(DynValue::from_int(2));
    branch.remove_tags(&tags(&[3]));
    branch.split_with_value(8, &tags(&[3, 5]));

    assert_eq!(source.get_value().as_int(), Ok(1));
    assert_eq!(source.get_path(), &path_of(2));
    assert_eq!(source.get_tags(), &tags(&[3, 4]));
    assert_eq!(stored(&source, 3), Some(7));
    assert_eq!(stored(&source, 5), None);

    assert_eq!(branch.get_value().as_int(), Ok(2));
    assert_eq!(branch.get_path_len(), 3);
    assert_eq!(branch.get_tags(), &tags(&[4]));
    assert_eq!(stored(&branch, 3), Some(8));
    assert_eq!(stored(&branch, 5), Some(8));
}

#[test]
fn a_failed_read_becomes_a_step_error() {
    let m = DynValue::from_int(1).as_element().unwrap_err();
    assert_eq!(
        StepError::from(m),
        StepError::TypeMismatch(TypeMismatch {
            expected: ValueKind::Element,
            found: ValueKind::Int,
        })
    );
}

#[test]
fn counting_takes_the_traverser_and_gives_it_back_changed() {
    let step = PathLocalCountStep { tags: tags(&[1]), remove_tags: tags(&[1]) };
    let t = Traverser::with_history(DynValue::from_int(0), path_of(5), tags(&[1]));
    let kept = t.clone();
    let out = step.exec(t).unwrap();
    assert_ne!(out, kept);
    assert_eq!(stored(&kept, 1), None);
    assert!(kept.has_tag(1));
    assert_eq!(stored(&out, 1), Some(5));
    assert!(!out.has_tag(1));
}
