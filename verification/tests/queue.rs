use linked_lists::queue::List;

#[test]
fn fifth_basics() {
    let mut list = List::new();

    assert_eq!(0, list.len());

    // Check empty list behaves right
    assert_eq!(list.pop(), None);
    assert_eq!(0, list.len());

    // Populate list
    list.push(1);
    list.push(2);
    list.push(3);

    assert_eq!(3, list.len());

    // Check normal removal
    assert_eq!(list.pop(), Some(1));
    assert_eq!(list.pop(), Some(2));
    assert_eq!(1, list.len());

    // Push some more just to make sure nothing's corrupted
    list.push(4);
    list.push(5);
    assert_eq!(3, list.len());

    // Check normal removal
    assert_eq!(list.pop(), Some(3));
    assert_eq!(list.pop(), Some(4));
    assert_eq!(1, list.len());

    // Check exhaustion
    assert_eq!(list.pop(), Some(5));
    assert_eq!(0, list.len());
    assert_eq!(list.pop(), None);
    assert_eq!(0, list.len());

    // Check the exhaustion case fixed the pointer right
    list.push(6);
    list.push(7);
    assert_eq!(2, list.len());

    // Check normal removal
    assert_eq!(list.pop(), Some(6));
    assert_eq!(1, list.len());
    assert_eq!(list.pop(), Some(7));
    assert_eq!(0, list.len());
    assert_eq!(list.pop(), None);
    assert_eq!(0, list.len());
}

#[test]
fn fifo_order_and_tail_reset() {
    // Arrival order comes back out, and after the queue drains the tail
    // reference must have been cleared: a following push has to work and
    // its value has to come back out.
    let mut list = List::new();
    list.push(1);
    list.push(2);
    list.push(3);
    assert_eq!(list.pop(), Some(1));
    assert_eq!(list.pop(), Some(2));
    assert_eq!(list.pop(), Some(3));
    assert_eq!(list.pop(), None);
    list.push(4);
    assert_eq!(list.len(), 1);
    assert_eq!(list.pop(), Some(4));
    assert_eq!(list.pop(), None);
}

#[test]
fn pop_on_fresh_queue_is_absent() {
    let mut list: List<i32> = List::new();
    assert_eq!(list.pop(), None);
    assert_eq!(list.len(), 0);
}

#[test]
fn long_queue_fill_and_drain() {
    let mut list = List::new();
    for i in 0..100_000u32 {
        list.push(i);
    }
    assert_eq!(list.len(), 100_000);
    for i in 0..100_000u32 {
        assert_eq!(list.pop(), Some(i));
    }
    assert_eq!(list.pop(), None);
}
