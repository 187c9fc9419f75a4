use cons::list::List::{Cons, Nil};
use cons::{add_to_each, expensive_computation, List, Next};

fn three() -> List<i32> {
    List::new(1, List::new(2, List::leaf(3)))
}

fn collect(list: &List<i32>) -> Vec<i32> {
    let mut out = Vec::new();
    let mut it = list.iter();
    while let Some(v) = it.next() {
        out.push(*v);
    }
    out
}

#[test]
fn list_macro() {
    let mut list = List::new(1, List::new(2, List::leaf(3)));

    assert_eq!(list.next(), Some(1));
    assert_eq!(list.next(), Some(2));
    assert_eq!(list.next(), Some(3));
    assert_eq!(list.next(), None);
}

#[test]
fn literal_consumed_then_absent_twice() {
    let mut list = three();
    assert_eq!(list.next(), Some(1));
    assert_eq!(list.next(), Some(2));
    assert_eq!(list.next(), Some(3));
    assert_eq!(list.next(), None);
    assert_eq!(list.next(), None);
    assert!(list.is_nil());
}

#[test]
fn built_list_consumed_in_order() {
    let mut list = List::from_iter(vec![5, 6, 7, 8]);
    for expected in [5, 6, 7, 8] {
        assert_eq!(list.next(), Some(expected));
    }
    for _ in 0..3 {
        assert_eq!(list.next(), None);
    }
}

#[test]
fn leaf_and_empty_lengths() {
    assert_eq!(collect(&List::leaf(9)).len(), 1);
    assert_eq!(collect(&List::<i32>::default()).len(), 0);
    assert!(List::<i32>::default().is_nil());
    assert!(!List::leaf(9).is_nil());
}

#[test]
fn build_from_empty_is_empty() {
    let built: List<i32> = List::from_iter(Vec::new());
    assert_eq!(built, List::default());
    assert_eq!(built, Nil);
}

#[test]
fn split_three() {
    let mut list = three();
    let rest = list.split();
    assert_eq!(rest, List::new(2, List::leaf(3)));
    assert_eq!(list, List::leaf(1));
}

#[test]
fn split_single_node() {
    let mut list = List::leaf(4);
    let rest = list.split();
    assert_eq!(rest, Nil);
    assert_eq!(list, List::leaf(4));
}

#[test]
fn split_empty() {
    let mut list: List<i32> = Nil;
    assert_eq!(list.split(), Nil);
    assert_eq!(list, Nil);
}

#[test]
fn extend_matches_build_of_concatenation() {
    let mut list = List::from_iter(vec![1, 2]);
    list.extend(vec![3, 4, 5]);
    assert_eq!(list, List::from_iter(vec![1, 2, 3, 4, 5]));

    let mut empty: List<i32> = Nil;
    empty.extend(vec![7]);
    assert_eq!(empty, List::leaf(7));

    let mut unchanged = three();
    unchanged.extend(Vec::new());
    assert_eq!(unchanged, three());
}

#[test]
fn tail_is_the_append_slot() {
    let mut list = three();
    {
        let slot = list.tail();
        assert!(slot.is_nil());
        *slot = List::leaf(4);
    }
    assert_eq!(collect(&list), vec![1, 2, 3, 4]);
}

fn increment_all(list: &mut List<i32>) {
    let mut it = list.iter_mut();
    while let Some(v) = it.next() {
        *v += 1;
    }
}

#[test]
fn iter_mut_increments_every_position() {
    let mut empty: List<i32> = Nil;
    increment_all(&mut empty);
    assert_eq!(collect(&empty), Vec::<i32>::new());

    let mut one = List::leaf(10);
    increment_all(&mut one);
    assert_eq!(collect(&one), vec![11]);

    let mut many = List::from_iter(vec![1, 2, 3, 4]);
    increment_all(&mut many);
    assert_eq!(collect(&many), vec![2, 3, 4, 5]);
}

#[test]
fn iterators_stay_exhausted() {
    let list = List::leaf(1);
    let mut it = list.iter();
    assert_eq!(it.next(), Some(&1));
    assert_eq!(it.next(), None);
    assert_eq!(it.next(), None);

    let mut list = List::leaf(1);
    let mut it = list.iter_mut();
    assert!(it.next().is_some());
    assert!(it.next().is_none());
    assert!(it.next().is_none());
}

#[test]
fn long_chain_drops() {
    let values: Vec<u32> = (0..100_000).collect();
    let list = List::from_iter(values);
    drop(list);
}

#[test]
fn long_chain_built_by_cons_drops() {
    let mut list = List::Nil;
    for i in 0..100_000u32 {
        list = List::new(i, list);
    }
    assert!(!list.is_nil());
}

#[test]
fn disassemble_and_assemble() {
    assert!(List::<i32>::Nil.disassemble().is_none());
    let parts = three().disassemble();
    match &parts {
        Some((head, next)) => {
            assert_eq!(*head, 1);
            assert_eq!(*next.node, List::new(2, List::leaf(3)));
        }
        None => panic!("a node has parts"),
    }
    assert_eq!(List::assemble(parts), three());
    assert_eq!(List::<i32>::assemble(None), Nil);
}

#[test]
fn value_of_head() {
    assert_eq!(three().value(), Some(1));
    assert_eq!(List::<i32>::Nil.value(), None);
}

#[test]
fn from_option() {
    assert_eq!(List::from(Some(3)), List::leaf(3));
    assert_eq!(List::<i32>::from(None), Nil);
    match List::from(Some(3)) {
        Cons(v, Next { ref node }) => {
            assert_eq!(v, 3);
            assert!(node.is_nil());
        }
        Nil => panic!("expected a node"),
    }
}

#[test]
fn ordering_is_front_to_back() {
    assert!(List::<i32>::Nil < List::leaf(0));
    assert!(List::leaf(1) < List::leaf(2));
    assert!(List::leaf(1) < List::new(1, List::leaf(0)));
    assert!(List::new(1, List::leaf(5)) < List::new(2, List::leaf(0)));
}

#[test]
fn product_of_primes() {
    assert_eq!(expensive_computation(0), 1);
    assert_eq!(expensive_computation(1), 1);
    assert_eq!(expensive_computation(2), 2);
    assert_eq!(expensive_computation(10), 210);
    assert_eq!(expensive_computation(13), 30030);
}

#[test]
fn add_to_each_through_mutable_traversal() {
    let mut empty: List<u64> = Nil;
    add_to_each(&mut empty, 1);
    assert_eq!(empty, Nil);

    let mut one = List::leaf(41u64);
    add_to_each(&mut one, 1);
    assert_eq!(one, List::leaf(42));

    let mut many = List::from_iter(vec![0u64, 10, 20]);
    add_to_each(&mut many, 5);
    assert_eq!(many, List::from_iter(vec![5, 15, 25]));
}

#[test]
fn clone_keeps_values_and_owner() {
    let original = three();
    let copy = original.clone();
    assert_eq!(copy, original);
    assert_eq!(collect(&copy), vec![1, 2, 3]);

    let values: Vec<u32> = (0..100_000).collect();
    let long = List::from_iter(values);
    let long_copy = long.clone();
    assert_eq!(long_copy.value(), Some(0));
}
