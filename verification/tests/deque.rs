use linked_lists::deque::List;

#[test]
fn fourth_basics() {
    let mut list = List::new();

    // Check empty list behaves right
    assert_eq!(list.len(), 0);
    assert_eq!(list.pop_front(), None);
    assert_eq!(list.len(), 0);

    // Populate list
    list.push_front(1);
    assert_eq!(list.len(), 1);
    list.push_front(2);
    list.push_front(3);
    assert_eq!(list.len(), 3);

    // Check normal removal
    assert_eq!(list.pop_front(), Some(3));
    assert_eq!(list.pop_front(), Some(2));
    assert_eq!(list.len(), 1);

    // Push some more just to make sure nothing's corrupted
    list.push_front(4);
    list.push_front(5);
    assert_eq!(list.len(), 3);

    // Check normal removal
    assert_eq!(list.pop_front(), Some(5));
    assert_eq!(list.pop_front(), Some(4));
    assert_eq!(list.len(), 1);

    // Check exhaustion
    assert_eq!(list.pop_front(), Some(1));
    assert_eq!(list.len(), 0);
    assert_eq!(list.pop_front(), None);
    assert_eq!(list.len(), 0);
}

#[test]
fn pop_on_fresh_deque_is_absent() {
    let mut list: List<i32> = List::new();
    assert_eq!(list.pop_front(), None);
    assert_eq!(list.len(), 0);
}

#[test]
fn long_chain_teardown_deque() {
    let mut list = List::new();
    for i in 0..100_000u32 {
        list.push_front(i);
    }
    assert_eq!(list.len(), 100_000);
    // Torn down here; the iterative release must survive this length.
}
