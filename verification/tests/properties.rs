use myvec::MyVec;
use std::cell::Cell;
use std::rc::Rc;

/// A test element holding an external resource: its destructor bumps a
/// shared counter, so a test can check that every element ever pushed is
/// destroyed exactly once, wherever its lifetime ends.
struct Counted {
    drops: Rc<Cell<usize>>,
}

impl Drop for Counted {
    fn drop(&mut self) {
        self.drops.set(self.drops.get() + 1);
    }
}

fn counted(drops: &Rc<Cell<usize>>) -> Counted {
    Counted { drops: Rc::clone(drops) }
}

#[test]
fn pushes_keep_order_and_length() {
    let mut v = MyVec::new();
    let values: Vec<i32> = vec![3, 1, 4, 1, 5, 9, 2, 6];
    let mut i: usize = 0;
    while i < values.len() {
        v.push(values[i]);
        assert_eq!(i + 1, v.len());
        i += 1;
    }
    let mut i: usize = 0;
    while i < values.len() {
        assert_eq!(values[i], *v.get(i));
        i += 1;
    }
}

#[test]
fn capacity_doubles() {
    let mut v = MyVec::new();
    assert_eq!(0, v.cap());
    v.push(1);
    assert_eq!(1, v.cap());
    v.push(2);
    assert_eq!(2, v.cap());
    v.push(3);
    assert_eq!(4, v.cap());
    v.push(4);
    assert_eq!(4, v.cap());
    v.push(5);
    assert_eq!(8, v.cap());
}

#[test]
fn push_then_pop_is_identity() {
    let mut v = MyVec::new();
    v.push(7);
    v.push(8);
    let before: usize = v.len();
    v.push(42);
    assert_eq!(Some(42), v.pop());
    assert_eq!(before, v.len());
    assert_eq!(7, *v.get(0));
    assert_eq!(8, *v.get(1));
}

#[test]
fn pop_empty_is_none() {
    let mut v: MyVec<i32> = MyVec::new();
    assert_eq!(None, v.pop());
    v.push(1);
    assert_eq!(Some(1), v.pop());
    assert_eq!(None, v.pop());
}

#[test]
fn insert_then_remove_is_identity() {
    let mut v = MyVec::new();
    v.push(10);
    v.push(20);
    v.push(30);
    v.insert(1, 99);
    let got: i32 = v.remove(1);
    assert_eq!(99, got);
    assert_eq!(3, v.len());
    assert_eq!(10, *v.get(0));
    assert_eq!(20, *v.get(1));
    assert_eq!(30, *v.get(2));
}

#[test]
fn interleaved_iteration_yields_each_once() {
    let mut v = MyVec::new();
    let mut i: i32 = 0;
    while i < 6 {
        v.push(i);
        i += 1;
    }
    let mut it = v.into_iter();
    let mut yielded: Vec<i32> = Vec::new();
    yielded.push(it.next().unwrap());
    yielded.push(it.next_back().unwrap());
    yielded.push(it.next().unwrap());
    yielded.push(it.next().unwrap());
    yielded.push(it.next_back().unwrap());
    yielded.push(it.next_back().unwrap());
    assert_eq!(None, it.next());
    assert_eq!(None, it.next_back());
    assert_eq!(vec![0, 5, 1, 2, 4, 3], yielded);
    yielded.sort();
    assert_eq!(vec![0, 1, 2, 3, 4, 5], yielded);
}

#[test]
fn size_hint_is_exact() {
    let mut v = MyVec::new();
    let mut i: i32 = 0;
    while i < 4 {
        v.push(i);
        i += 1;
    }
    let mut it = v.into_iter();
    assert_eq!((4, Some(4)), it.size_hint());
    it.next();
    assert_eq!((3, Some(3)), it.size_hint());
    it.next_back();
    assert_eq!((2, Some(2)), it.size_hint());
    it.next();
    it.next();
    assert_eq!((0, Some(0)), it.size_hint());
}

#[test]
fn boxed_resources_destroyed_exactly_once() {
    let drops: Rc<Cell<usize>> = Rc::new(Cell::new(0));
    let mut v = MyVec::new();
    let mut i: i32 = 0;
    while i < 10 {
        v.push(Box::new(counted(&drops)));
        i += 1;
    }
    let mut it = v.into_iter();
    let first = it.next().unwrap();
    let last = it.next_back().unwrap();
    assert_eq!(0, drops.get());
    drop(it);
    assert_eq!(8, drops.get());
    drop(first);
    drop(last);
    assert_eq!(10, drops.get());
}

#[test]
fn early_dropped_drain_destroys_only_the_rest() {
    let drops: Rc<Cell<usize>> = Rc::new(Cell::new(0));
    let mut v = MyVec::new();
    let mut i: i32 = 0;
    while i < 5 {
        v.push(counted(&drops));
        i += 1;
    }
    {
        let mut d = v.drain();
        let first = d.next().unwrap();
        assert_eq!(0, drops.get());
        drop(first);
        assert_eq!(1, drops.get());
    }
    assert_eq!(5, drops.get());
    v.push(counted(&drops));
    drop(v);
    assert_eq!(6, drops.get());
}

#[test]
fn drained_source_is_empty_and_usable() {
    let mut v = MyVec::new();
    v.push(1);
    v.push(2);
    v.push(3);
    let mut d = v.drain();
    assert_eq!(0, v.len());
    v.push(40);
    v.push(50);
    assert_eq!(2, v.len());
    assert_eq!(Some(1), d.next());
    assert_eq!(Some(3), d.next_back());
    assert_eq!(Some(2), d.next());
    assert_eq!(None, d.next());
    assert_eq!(40, *v.get(0));
    assert_eq!(50, *v.get(1));
}

#[test]
fn replace_returns_previous_occupant() {
    let mut v = MyVec::new();
    v.push(10);
    v.push(20);
    v.push(30);
    let prev: i32 = v.replace(1, 99);
    assert_eq!(20, prev);
    assert_eq!(3, v.len());
    assert_eq!(10, *v.get(0));
    assert_eq!(99, *v.get(1));
    assert_eq!(30, *v.get(2));
}

#[test]
fn zst_capacity_is_unbounded() {
    let mut v: MyVec<()> = MyVec::new();
    assert_eq!(usize::MAX, v.cap());
    let mut i: i32 = 0;
    while i < 10 {
        v.push(());
        i += 1;
    }
    assert_eq!(usize::MAX, v.cap());
    assert_eq!(10, v.len());
}

#[test]
fn zst_insert_remove_replace() {
    let mut v: MyVec<()> = MyVec::new();
    v.push(());
    v.push(());
    v.insert(1, ());
    assert_eq!(3, v.len());
    v.remove(0);
    assert_eq!(2, v.len());
    v.replace(1, ());
    assert_eq!(2, v.len());
    assert_eq!(Some(()), v.pop());
}

#[test]
fn zst_drain_yields_all() {
    let mut v = MyVec::new();
    let mut i: i32 = 0;
    while i < 7 {
        v.push(());
        i += 1;
    }
    let mut count: i32 = 0;
    let mut d = v.drain();
    while let Some(_) = d.next() {
        count += 1;
    }
    assert_eq!(7, count);
    assert_eq!(0, v.len());
}

#[test]
fn remove_insert_pop_scenario() {
    let mut v = MyVec::new();
    let mut i: i32 = 1;
    while i <= 5 {
        v.push(i);
        i += 1;
    }
    let removed: i32 = v.remove(2);
    assert_eq!(3, removed);
    assert_eq!(4, v.len());
    assert_eq!(1, *v.get(0));
    assert_eq!(2, *v.get(1));
    assert_eq!(4, *v.get(2));
    assert_eq!(5, *v.get(3));
    v.insert(0, 9);
    assert_eq!(5, v.len());
    assert_eq!(9, *v.get(0));
    assert_eq!(1, *v.get(1));
    assert_eq!(2, *v.get(2));
    assert_eq!(4, *v.get(3));
    assert_eq!(5, *v.get(4));
    assert_eq!(Some(5), v.pop());
    assert_eq!(4, v.len());
    assert_eq!(9, *v.get(0));
    assert_eq!(1, *v.get(1));
    assert_eq!(2, *v.get(2));
    assert_eq!(4, *v.get(3));
}
