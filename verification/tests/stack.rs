use linked_lists::stack::List;

#[test]
fn second_test_for_new_list_count() {
    let mylist1: List<i32> = List::new();
    assert_eq!(mylist1.len(), 0);
}

#[test]
fn second_test_for_push_pop_and_length() {
    let mut mylist2 = List::new();

    assert_eq!(mylist2.len(), 0);

    mylist2.push(3);
    mylist2.push(39);
    mylist2.push(7);
    mylist2.push(43);

    assert_eq!(mylist2.len(), 4);

    assert_eq!(mylist2.pop(), Some(43));

    assert_eq!(mylist2.pop(), Some(7));

    assert_eq!(mylist2.len(), 2);

    mylist2.pop();
    mylist2.pop();

    assert_eq!(mylist2.pop(), None);

    assert_eq!(mylist2.len(), 0);
}

#[test]
fn peek() {
    let mut mylist3: List<i32> = List::new();
    mylist3.push(3);
    mylist3.push(9);
    mylist3.push(138);
    mylist3.push(6);
    assert_eq!(mylist3.peek(), Some(&6));
}

#[test]
fn peek_mut() {
    let mut mylist4: List<i32> = List::new();
    mylist4.push(3);
    mylist4.push(9);
    mylist4.push(138);
    mylist4.push(6);
    assert_eq!(mylist4.peek(), Some(&6));
    mylist4.peek_mut().map(|vale| *vale = 97);
    assert_eq!(mylist4.peek(), Some(&97));
    assert_eq!(mylist4.pop(), Some(97));
}

#[test]
fn into_iter() {
    let mut list = List::new();
    list.push(1);
    list.push(2);
    list.push(3);

    let mut iter = list.into_iter();
    assert_eq!(iter.next(), Some(3));
    assert_eq!(iter.next(), Some(2));
    assert_eq!(iter.next(), Some(1));
    assert_eq!(iter.next(), None);
}

#[test]
fn second_iter() {
    let mut list = List::new();
    list.push(1);
    list.push(2);
    list.push(3);

    let mut iter = list.iter();
    assert_eq!(iter.next(), Some(&3));
    assert_eq!(iter.next(), Some(&2));
    assert_eq!(iter.next(), Some(&1));
}

#[test]
fn iter_mut() {
    let mut list = List::new();
    list.push(1);
    list.push(2);
    list.push(3);

    let mut iter = list.iter_mut();
    assert_eq!(iter.next(), Some(&mut 3));
    assert_eq!(iter.next(), Some(&mut 2));
    assert_eq!(iter.next(), Some(&mut 1));
}

#[test]
fn pop_on_fresh_stack_is_absent() {
    let mut list: List<i32> = List::new();
    assert_eq!(list.pop(), None);
    assert_eq!(list.len(), 0);
}

#[test]
fn lifo_order_matches_push_sequence() {
    // Pushing 10, 20, 30 must pop as 30, 20, 10, the exact reverse, and
    // the length must always equal pushes minus successful pops.
    let mut list = List::new();
    list.push(10);
    assert_eq!(list.len(), 1);
    list.push(20);
    assert_eq!(list.len(), 2);
    list.push(30);
    assert_eq!(list.len(), 3);
    assert_eq!(list.pop(), Some(30));
    assert_eq!(list.len(), 2);
    assert_eq!(list.pop(), Some(20));
    assert_eq!(list.len(), 1);
    assert_eq!(list.pop(), Some(10));
    assert_eq!(list.len(), 0);
    assert_eq!(list.pop(), None);
    assert_eq!(list.len(), 0);
}

#[test]
fn count_agrees_with_traversal() {
    let mut list = List::new();
    for i in 0..57 {
        list.push(i);
    }
    let mut walked: u32 = 0;
    let mut iter = list.iter();
    while iter.next().is_some() {
        walked += 1;
    }
    assert_eq!(list.len(), walked);
}

#[test]
fn iter_mut_rewrites_every_element() {
    let mut list = List::new();
    list.push(1);
    list.push(2);
    list.push(3);
    {
        let mut iter = list.iter_mut();
        while let Some(v) = iter.next() {
            *v *= 10;
        }
    }
    assert_eq!(list.pop(), Some(30));
    assert_eq!(list.pop(), Some(20));
    assert_eq!(list.pop(), Some(10));
}

#[test]
fn long_chain_teardown_stack() {
    let mut list = List::new();
    for i in 0..100_000u32 {
        list.push(i);
    }
    assert_eq!(list.len(), 100_000);
    // Torn down here; the iterative release must survive this length.
}
