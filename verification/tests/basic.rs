use myvec::MyVec;

#[test]
fn create_push_pop() {
    let mut v = MyVec::new();
    v.push(1);
    assert_eq!(1, v.len());
    assert_eq!(1, *v.get(0));
    let mut i: usize = 0;
    while i < v.len() {
        let bumped: i32 = *v.get(i) + 1;
        v.set(i, bumped);
        i += 1;
    }
    v.insert(0, 5);
    let x = v.pop();
    assert_eq!(Some(2), x);
    assert_eq!(1, v.len());
    v.push(10);
    let x: i32 = v.remove(0);
    assert_eq!(5, x);
    assert_eq!(1, v.len());
}

#[test]
fn iter_test() {
    let mut v = MyVec::new();
    let mut i: i32 = 0;
    while i < 10 {
        v.push(Box::new(i));
        i += 1;
    }
    let mut iter = v.into_iter();
    let first = iter.next().unwrap();
    let last = iter.next_back().unwrap();
    drop(iter);
    assert_eq!(0, *first);
    assert_eq!(9, *last);
}

#[test]
fn test_drain() {
    let mut v = MyVec::new();
    let mut i: i32 = 0;
    while i < 10 {
        v.push(Box::new(i));
        i += 1;
    }
    {
        let mut drain = v.drain();
        let first = drain.next().unwrap();
        let last = drain.next_back().unwrap();
        assert_eq!(0, *first);
        assert_eq!(9, *last);
    }
    assert_eq!(0, v.len());
    v.push(Box::new(1));
    assert_eq!(1, *v.pop().unwrap());
}

#[test]
fn test_zst() {
    let mut v = MyVec::new();
    let mut i: i32 = 0;
    while i < 10 {
        v.push(());
        i += 1;
    }

    let mut count: i32 = 0;

    let mut iter = v.into_iter();
    while let Some(_) = iter.next() {
        count += 1;
    }

    assert_eq!(10, count);
}
