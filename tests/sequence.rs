use ownership_core::sequence::OwnedSequence;

#[test]
fn new_sequence_is_empty() {
    let s: OwnedSequence<i32> = OwnedSequence::new();
    assert_eq!(s.len(), 0);
    assert_eq!(s.get(0), None);
}

#[test]
fn push_appends_in_order() {
    let mut s = OwnedSequence::from_vec(vec![1, 2, 3]);
    s.push(5);
    assert_eq!(s.len(), 4);
    assert_eq!(*s.index(1), 2);
    assert_eq!(*s.index(3), 5);
    assert_eq!(s.into_vec(), vec![1, 2, 3, 5]);
}

#[test]
fn get_agrees_with_index_in_range() {
    let s = OwnedSequence::from_vec(vec![10, 20, 30]);
    for i in 0..s.len() {
        assert_eq!(s.get(i), Some(s.index(i)));
    }
}

#[test]
fn get_is_absent_past_the_end() {
    let s = OwnedSequence::from_vec(vec![10, 20, 30]);
    assert_eq!(s.get(3), None);
    assert_eq!(s.get(100), None);
    assert_eq!(s.get(usize::MAX), None);
}

#[test]
fn push_after_shared_view_ends() {
    let mut s = OwnedSequence::from_vec(vec![1, 2, 3, 4, 5]);
    let first = *s.index(0);
    assert_eq!(first, 1);
    s.push(6);
    assert_eq!(s.into_vec(), vec![1, 2, 3, 4, 5, 6]);
}

#[test]
fn add_to_each_shifts_every_element() {
    let mut s = OwnedSequence::from_vec(vec![100i64, 32, 57]);
    s.add_to_each(50);
    assert_eq!(s.into_vec(), vec![150, 82, 107]);
}

#[test]
fn add_to_each_on_empty_and_negative() {
    let mut e: OwnedSequence<i64> = OwnedSequence::new();
    e.add_to_each(7);
    assert_eq!(e.len(), 0);
    let mut s = OwnedSequence::from_vec(vec![i64::MAX, 0, i64::MIN + 3]);
    s.add_to_each(-3);
    assert_eq!(s.into_vec(), vec![i64::MAX - 3, -3, i64::MIN]);
}
