use dynarray::array::Vec;
use dynarray::raw::RawVec;
use std::rc::Rc;

#[test]
fn basic() {
    let mut v = Vec::new();
    v.push(1);
    v.push(2);
    assert_eq!(v.pop(), Some(2));
    assert_eq!(v.pop(), Some(1));
    assert_eq!(v.pop(), None);
}

#[test]
fn scenario_capacity_after_pops() {
    let mut v = Vec::new();
    v.push(1);
    v.push(2);
    assert_eq!(v.cap(), 2);
    v.pop();
    v.pop();
    assert_eq!(v.pop(), None);
    assert_eq!(v.cap(), 2);
    assert_eq!(v.len(), 0);
}

#[test]
fn boundary_empty_array() {
    let mut v: Vec<u32> = Vec::new();
    assert_eq!(v.cap(), 0);
    assert_eq!(v.pop(), None);
    assert_eq!(v.remove(0), None);
    assert_eq!(v.cap(), 0);
    assert_eq!(v.len(), 0);
}

#[test]
fn growth_powers_of_two() {
    let mut v = Vec::new();
    let expected_caps = [1, 2, 4, 4, 8, 8, 8, 8, 16];
    for n in 0..expected_caps.len() {
        v.push(n);
        assert_eq!(v.len(), n + 1);
        assert_eq!(v.cap(), expected_caps[n]);
    }
}

#[test]
fn lifo_order() {
    let mut v = Vec::new();
    for x in 1..=5 {
        v.push(x);
    }
    for x in (1..=5).rev() {
        assert_eq!(v.pop(), Some(x));
    }
    assert_eq!(v.pop(), None);
}

#[test]
fn insert_remove_round_trip() {
    let mut v = Vec::new();
    v.push(10);
    v.push(20);
    v.push(30);
    v.insert(1, 15);
    assert_eq!(v.len(), 4);
    assert_eq!(*v.get(0), 10);
    assert_eq!(*v.get(1), 15);
    assert_eq!(*v.get(2), 20);
    assert_eq!(*v.get(3), 30);
    assert_eq!(v.remove(1), Some(15));
    assert_eq!(v.len(), 3);
    assert_eq!(*v.get(0), 10);
    assert_eq!(*v.get(1), 20);
    assert_eq!(*v.get(2), 30);
}

#[test]
fn insert_at_ends() {
    let mut v = Vec::new();
    v.insert(0, 2);
    v.insert(0, 1);
    v.insert(2, 3);
    assert_eq!(v.len(), 3);
    assert_eq!(*v.get(0), 1);
    assert_eq!(*v.get(1), 2);
    assert_eq!(*v.get(2), 3);
}

#[test]
fn remove_at_length_is_absent() {
    let mut v = Vec::new();
    v.push(7);
    assert_eq!(v.remove(1), None);
    assert_eq!(v.len(), 1);
    assert_eq!(*v.get(0), 7);
    assert_eq!(v.remove(0), Some(7));
    assert_eq!(v.len(), 0);
}

#[test]
fn indexed_read_write() {
    let mut v = Vec::new();
    v.push(5);
    v.push(6);
    v.set_at(0, 50);
    assert_eq!(*v.get(0), 50);
    assert_eq!(*v.get(1), 6);
    assert_eq!(v.pop(), Some(6));
    assert_eq!(v.pop(), Some(50));
}

#[test]
fn iterator_forward_drain() {
    let mut v = Vec::new();
    v.push(1);
    v.push(2);
    v.push(3);
    let mut it = v.into_iter();
    assert_eq!(it.next(), Some(1));
    assert_eq!(it.next(), Some(2));
    assert_eq!(it.next(), Some(3));
    assert_eq!(it.next(), None);
    assert_eq!(it.next_back(), None);
}

#[test]
fn iterator_interleaved_drain() {
    let mut v = Vec::new();
    for x in 1..=5 {
        v.push(x);
    }
    let mut it = v.into_iter();
    assert_eq!(it.size_hint(), (5, Some(5)));
    let mut yielded = vec![];
    yielded.push(it.next().unwrap());
    yielded.push(it.next_back().unwrap());
    yielded.push(it.next().unwrap());
    yielded.push(it.next_back().unwrap());
    assert_eq!(it.size_hint(), (1, Some(1)));
    yielded.push(it.next().unwrap());
    assert_eq!(it.size_hint(), (0, Some(0)));
    assert_eq!(it.next(), None);
    assert_eq!(it.next_back(), None);
    assert_eq!(yielded, vec![1, 5, 2, 4, 3]);
    yielded.sort();
    assert_eq!(yielded, vec![1, 2, 3, 4, 5]);
}

#[test]
fn iterator_empty_array() {
    let v: Vec<u8> = Vec::new();
    let mut it = v.into_iter();
    assert_eq!(it.size_hint(), (0, Some(0)));
    assert_eq!(it.next(), None);
    assert_eq!(it.next_back(), None);
}

#[test]
fn drop_accounting_array() {
    // Every clone of the marker that goes into the container must be
    // released exactly once when the container is dropped.
    let marker = Rc::new(());
    let mut v = Vec::new();
    for _ in 0..5 {
        v.push(Rc::clone(&marker));
    }
    assert_eq!(Rc::strong_count(&marker), 6);
    v.pop();
    assert_eq!(Rc::strong_count(&marker), 5);
    v.set_at(0, Rc::clone(&marker));
    assert_eq!(Rc::strong_count(&marker), 5);
    drop(v);
    assert_eq!(Rc::strong_count(&marker), 1);
}

#[test]
fn drop_accounting_partial_iterator() {
    // Elements yielded by the iterator are released by their new owners;
    // elements never yielded are released exactly once when the iterator
    // itself is dropped.
    let marker = Rc::new(());
    let mut v = Vec::new();
    for _ in 0..4 {
        v.push(Rc::clone(&marker));
    }
    let mut it = v.into_iter();
    let a = it.next().unwrap();
    let b = it.next_back().unwrap();
    assert_eq!(Rc::strong_count(&marker), 5);
    drop(it);
    assert_eq!(Rc::strong_count(&marker), 3);
    drop(a);
    drop(b);
    assert_eq!(Rc::strong_count(&marker), 1);
}

#[test]
fn raw_buffer_growth() {
    let mut b: RawVec<u32> = RawVec::new();
    assert_eq!(b.cap(), 0);
    b.grow();
    assert_eq!(b.cap(), 1);
    b.grow();
    assert_eq!(b.cap(), 2);
    b.grow();
    assert_eq!(b.cap(), 4);
}

#[test]
fn raw_buffer_slots() {
    let mut b: RawVec<u32> = RawVec::new();
    b.grow();
    b.grow();
    b.write(0, 7);
    b.write(1, 8);
    assert_eq!(*b.read(0), 7);
    b.grow();
    assert_eq!(*b.read(0), 7);
    assert_eq!(*b.read(1), 8);
    assert_eq!(b.take(1), Some(8));
    assert_eq!(b.take(1), None);
    assert_eq!(b.take(0), Some(7));
}
