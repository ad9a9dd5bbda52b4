use lifo_stack::List;

#[test]
fn list_of_int() {
    let mut list = List::new();

    // Check empty list behaves right
    assert_eq!(list.pop(), None);

    // Populate list
    list.push(1);
    list.push(2);
    list.push(3);

    // Check removal without emptying the list
    assert_eq!(list.pop(), Some(3));
    assert_eq!(list.pop(), Some(2));

    // Push again more elements
    list.push(4);
    list.push(5);

    // Check normal removal
    assert_eq!(list.pop(), Some(5));
    assert_eq!(list.pop(), Some(4));

    // Check exhaustion
    assert_eq!(list.pop(), Some(1));
    assert_eq!(list.pop(), None);
}

#[test]
fn list_of_str() {
    let mut list = List::new();

    // Check empty list behaves right
    assert_eq!(list.pop(), None);

    // Populate list
    list.push("1");
    list.push("2");
    list.push("3");

    // Check removal without emptying the list
    assert_eq!(list.pop(), Some("3"));
    assert_eq!(list.pop(), Some("2"));

    // Push again more elements
    list.push("4");
    list.push("5");

    // Check normal removal
    assert_eq!(list.pop(), Some("5"));
    assert_eq!(list.pop(), Some("4"));

    // Check exhaustion
    assert_eq!(list.pop(), Some("1"));
    assert_eq!(list.pop(), None);
}

#[test]
fn lifo_order_over_many_elements() {
    let mut list = List::new();
    for i in 0..100 {
        list.push(i);
    }
    for i in (0..100).rev() {
        assert_eq!(list.pop(), Some(i));
    }
    assert_eq!(list.pop(), None);
}

#[test]
fn pop_none_when_fresh_and_when_drained() {
    let mut list = List::new();
    assert_eq!(list.pop(), None);
    assert_eq!(list.pop(), None);
    list.push(7);
    assert_eq!(list.pop(), Some(7));
    assert_eq!(list.pop(), None);
    assert_eq!(list.pop(), None);
}

#[test]
fn drain_round_trip_leaves_no_residue() {
    let mut list = List::new();
    for i in 0..8 {
        list.push(i * 11);
    }
    for _ in 0..8 {
        assert!(list.pop().is_some());
    }
    assert_eq!(list.pop(), None);
    // The drained stack is as good as new.
    list.push(5);
    assert_eq!(list.pop(), Some(5));
    assert_eq!(list.pop(), None);
}

#[test]
fn push_then_pop_returns_the_pushed_element() {
    let mut ints = List::new();
    ints.push(i64::MIN);
    assert_eq!(ints.pop(), Some(i64::MIN));

    let mut texts = List::new();
    texts.push(String::from("top"));
    assert_eq!(texts.pop(), Some(String::from("top")));

    let mut units = List::new();
    units.push(());
    assert_eq!(units.pop(), Some(()));
}

#[test]
fn long_chain_drops_without_deep_recursion() {
    let mut list = List::new();
    for i in 0..100_000u32 {
        list.push(i);
    }
    // The stack, never popped, is torn down here; the iterative teardown
    // must finish instead of overflowing the call stack.
    drop(list);
}

#[test]
fn default_is_the_empty_stack() {
    let mut list: List<u8> = List::default();
    assert_eq!(list.pop(), None);
    list.push(9);
    assert_eq!(list.pop(), Some(9));
    assert_eq!(list.pop(), None);
}
