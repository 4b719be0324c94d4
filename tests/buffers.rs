use wisp::buffer::{Fixed, Pool, Slice};

#[test]
fn slice_new_is_zero_filled() {
    let s = Slice::new(8);
    assert_eq!(s.len(), 8);
    assert_eq!(s.as_vec(), &vec![0u8; 8]);
}

#[test]
fn slice_empty() {
    let s = Slice::new(0);
    assert_eq!(s.len(), 0);
}

#[test]
fn slice_mutation_is_seen() {
    let mut s = Slice::from_vec(vec![1, 2, 3]);
    s.as_mut_vec()[1] = 9;
    assert_eq!(s.as_vec(), &vec![1, 9, 3]);
}

#[test]
fn fixed_keeps_its_id() {
    let mut f = Fixed::new(7, 4);
    assert_eq!(f.id(), 7);
    assert_eq!(f.len(), 4);
    f.as_mut_slice().as_mut_vec()[0] = 1;
    assert_eq!(f.id(), 7);
    assert_eq!(f.as_slice().as_vec(), &vec![1, 0, 0, 0]);
}

#[test]
fn pool_take_on_empty_is_none() {
    let mut p = Pool::default();
    assert!(p.take().is_none());
    assert_eq!(p.len(), 0);
}

#[test]
fn pool_hands_out_most_recent_first() {
    let mut p = Pool::new();
    p.give(Fixed::new(0, 16));
    p.give(Fixed::new(1, 16));
    p.give(Fixed::new(2, 16));
    assert_eq!(p.len(), 3);
    assert_eq!(p.take().map(|b| b.id()), Some(2));
    assert_eq!(p.take().map(|b| b.id()), Some(1));
    p.give(Fixed::new(5, 16));
    assert_eq!(p.take().map(|b| b.id()), Some(5));
    assert_eq!(p.take().map(|b| b.id()), Some(0));
    assert!(p.take().is_none());
}
