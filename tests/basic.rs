use heterovec::{BoxedElem, DropCall, DropHandler, ElemRef, HeteroSizedVec, InPlace};
use std::mem::{align_of, size_of};

/// Behaviour identity of a callable that returns the word it captured.
const RETURN_CAPTURED: usize = 0;

/// A callable capturing `n`: its captured bytes, their alignment and its
/// behaviour identity.
fn closure(n: usize) -> (Vec<u8>, usize, usize) {
    (n.to_ne_bytes().to_vec(), align_of::<usize>(), RETURN_CAPTURED)
}

/// Invoke a stored callable through its behaviour identity.
fn call(data: &[u8], meta: usize) -> usize {
    match meta {
        RETURN_CAPTURED => usize::from_ne_bytes(data.try_into().unwrap()),
        _ => panic!("unknown behaviour {}", meta),
    }
}

/// The bytes of a `[usize]` slice, and its length as metadata.
fn usize_array(items: &[usize]) -> (Vec<u8>, usize, usize) {
    let mut bytes = Vec::new();
    for item in items {
        bytes.extend_from_slice(&item.to_ne_bytes());
    }
    (bytes, align_of::<usize>(), items.len())
}

fn usize_items(e: &ElemRef) -> Vec<usize> {
    assert_eq!(e.data.len(), e.meta * size_of::<usize>());
    e.data
        .chunks(size_of::<usize>())
        .map(|c| usize::from_ne_bytes(c.try_into().unwrap()))
        .collect()
}

#[test]
fn closure_basic() {
    let mut vec: HeteroSizedVec<dyn Fn() -> usize> = HeteroSizedVec::new();
    for n in 0..10 {
        let (bytes, align, meta) = closure(n);
        vec.push_value(bytes, align, meta);
    }
    let mut it = vec.iter();
    let mut i = 0;
    while let Some(func) = it.next() {
        assert_eq!(i, call(func.data, func.meta));
        i += 1;
    }
    assert_eq!(i, 10);
}

#[test]
fn array_basic() {
    let mut vec: HeteroSizedVec<[usize]> = HeteroSizedVec::new();

    for items in [&[0][..], &[1, 2], &[3, 4, 5], &[6, 7, 8, 9], &[10, 11, 12, 13, 14]] {
        let (bytes, align, meta) = usize_array(items);
        vec.push_value(bytes, align, meta);
    }

    assert_eq!(usize_items(&vec.index(0)), [0]);
    assert_eq!(usize_items(&vec.index(1)), [1, 2]);
    assert_eq!(usize_items(&vec.index(2)), [3, 4, 5]);
    assert_eq!(usize_items(&vec.index(3)), [6, 7, 8, 9]);
    assert_eq!(usize_items(&vec.index(4)), [10, 11, 12, 13, 14]);
}

#[test]
fn array_copy_slice_basic() {
    let mut vec: HeteroSizedVec<[u8]> = HeteroSizedVec::new();

    vec.push(&[0_u8] as &[u8]);
    vec.push(&[1_u8, 2] as &[u8]);
    vec.push(&[3_u8, 4, 5] as &[u8]);
    vec.push(&[6_u8, 7, 8, 9] as &[u8]);
    vec.push(&[10_u8, 11, 12, 13, 14] as &[u8]);

    assert_eq!(vec.index(0).data, &[0]);
    assert_eq!(vec.index(1).data, &[1, 2]);
    assert_eq!(vec.index(2).data, &[3, 4, 5]);
    assert_eq!(vec.index(3).data, &[6, 7, 8, 9]);
    assert_eq!(vec.index(4).data, &[10, 11, 12, 13, 14]);
}

#[test]
fn array_from_vec_basic() {
    let mut vec: HeteroSizedVec<[u8]> = HeteroSizedVec::new();

    vec.push(vec![0_u8]);
    vec.push(vec![1_u8, 2]);
    vec.push(vec![3_u8, 4, 5]);
    vec.push(vec![6_u8, 7, 8, 9]);
    vec.push(vec![10_u8, 11, 12, 13, 14]);

    assert_eq!(vec.index(0).data, &[0]);
    assert_eq!(vec.index(1).data, &[1, 2]);
    assert_eq!(vec.index(2).data, &[3, 4, 5]);
    assert_eq!(vec.index(3).data, &[6, 7, 8, 9]);
    assert_eq!(vec.index(4).data, &[10, 11, 12, 13, 14]);
}

#[test]
fn str_basic() {
    let mut vec: HeteroSizedVec<str> = HeteroSizedVec::new();

    let strings = &["hello", "world", "foo", "bar", "baz"];

    for s in strings.iter().copied() {
        vec.push(s);
    }

    for (i, s) in strings.iter().copied().enumerate() {
        assert_eq!(std::str::from_utf8(vec.index(i).data).unwrap(), s);
    }
}

fn check_mutation(mut vec: HeteroSizedVec<[u8]>) {
    let mut i = 0;
    let mut it = vec.iter_mut();
    while let Some(array) = it.next() {
        for elem in array.data.iter_mut() {
            *elem = i;
            i += 1;
        }
    }

    let mut it = vec.iter_mut();
    while let Some(array) = it.next() {
        for elem in array.data.iter_mut() {
            *elem *= 2;
        }
    }

    let mut i = 0;
    let mut it = vec.iter();
    while let Some(array) = it.next() {
        for &elem in array.data {
            assert_eq!(elem, i * 2);
            i += 1;
        }
    }
    assert_eq!(i, 10);
}

#[test]
fn mutate_arrays() {
    let mut vec: HeteroSizedVec<[u8]> = HeteroSizedVec::new();

    vec.push_value(vec![0], 1, 1);
    vec.push_value(vec![1, 2], 1, 2);
    vec.push_value(vec![3, 4, 5], 1, 3);
    vec.push_value(vec![6, 7, 8, 9], 1, 4);

    check_mutation(vec);
}

#[test]
fn mutate_arrays_copy_slice() {
    let mut vec: HeteroSizedVec<[u8]> = HeteroSizedVec::new();

    vec.push(&[0_u8] as &[u8]);
    vec.push(&[1_u8, 2] as &[u8]);
    vec.push(&[3_u8, 4, 5] as &[u8]);
    vec.push(&[6_u8, 7, 8, 9] as &[u8]);

    check_mutation(vec);
}

#[test]
fn mutate_arrays_from_vec() {
    let mut vec: HeteroSizedVec<[u8]> = HeteroSizedVec::new();

    vec.push(vec![0]);
    vec.push(vec![1, 2]);
    vec.push(vec![3, 4, 5]);
    vec.push(vec![6, 7, 8, 9]);

    check_mutation(vec);
}

#[test]
fn closure_boxing() {
    let mut vec: HeteroSizedVec<dyn Fn() -> usize> = HeteroSizedVec::new();
    for n in 0..10 {
        let (bytes, align, meta) = closure(n);
        vec.push_value(bytes, align, meta);
    }

    let vec2: Vec<BoxedElem> = vec.into_boxed_vec();

    assert_eq!(vec2.len(), 10);
    for (i, func) in vec2.iter().enumerate() {
        assert_eq!(i, call(&func.data, func.meta));
    }
}

#[test]
#[should_panic]
fn index_out_of_bounds() {
    let mut vec: HeteroSizedVec<str> = HeteroSizedVec::new();

    for _ in 0..3 {
        vec.push("hello world");
    }

    for i in 0..4 {
        let _ = vec.index(i);
    }
}

/// Values that report the alignment they were made with.
trait Align {}

#[test]
fn test_alignment() {
    // each value's behaviour identity reports the alignment it was given,
    // and a value aligned to `n` spans `n` bytes
    let mut vec: HeteroSizedVec<dyn Align> = HeteroSizedVec::new();

    for align in [2, 16, 32, 2, 2, 1024, 16, 16, 256, 32, 4] {
        vec.push_value(vec![0; align], align, align);
    }

    let mut it = vec.iter();
    let mut n = 0;
    while let Some(elem) = it.next() {
        assert!(elem.offset % elem.meta == 0);
        assert_eq!(elem.data.len(), elem.meta);
        n += 1;
    }
    assert_eq!(n, 11);
}

#[test]
fn get_past_end_is_none() {
    let mut vec: HeteroSizedVec<str> = HeteroSizedVec::new();
    assert!(vec.get(0).is_none());
    vec.push("a");
    assert!(vec.get(0).is_some());
    assert!(vec.get(1).is_none());
    assert!(vec.get_mut(1).is_none());
    assert_eq!(vec.len(), 1);
}

#[test]
fn narrow_references_store_no_metadata() {
    let mut vec: HeteroSizedVec<u64> = HeteroSizedVec::new();
    vec.push_value(7u64.to_ne_bytes().to_vec(), 8, 99);
    assert_eq!(vec.index(0).meta, 0);
    assert_eq!(vec.index(0).data, &7u64.to_ne_bytes());

    let mut wide: HeteroSizedVec<[u8]> = HeteroSizedVec::new();
    wide.push_value(vec![1, 2, 3], 1, 3);
    assert_eq!(wide.index(0).meta, 3);
}

#[test]
fn padding_before_aligned_element() {
    let mut vec: HeteroSizedVec<[u8]> = HeteroSizedVec::new();
    vec.push_value(vec![1], 1, 1);
    vec.push_value(vec![2, 3, 4, 5, 6, 7, 8, 9], 8, 8);
    vec.push_value(vec![10, 11, 12], 1, 3);
    vec.push_value(vec![], 4, 0);
    assert_eq!(vec.index(0).offset, 0);
    assert_eq!(vec.index(1).offset, 8);
    assert_eq!(vec.index(2).offset, 16);
    assert_eq!(vec.index(3).offset, 20);
    assert_eq!(vec.index(3).data.len(), 0);
    assert_eq!(vec.index(1).data, &[2, 3, 4, 5, 6, 7, 8, 9]);
}

#[test]
fn get_mut_changes_one_element() {
    let mut vec: HeteroSizedVec<[u8]> = HeteroSizedVec::new();
    vec.push(vec![1, 2]);
    vec.push(vec![3, 4, 5]);
    vec.push(vec![6]);
    {
        let e = vec.get_mut(1).unwrap();
        assert_eq!(e.meta, 3);
        e.data[0] = 30;
        e.data[2] = 50;
    }
    {
        let e = vec.index_mut(2);
        e.data[0] = 60;
    }
    assert_eq!(vec.index(0).data, &[1, 2]);
    assert_eq!(vec.index(1).data, &[30, 4, 50]);
    assert_eq!(vec.index(2).data, &[60]);
}

#[test]
fn teardown_runs_each_destructor_once_in_order() {
    let mut vec: HeteroSizedVec<[u8]> = HeteroSizedVec::new();
    vec.push(vec![1, 2, 3]);
    vec.push(&[4_u8] as &[u8]);
    vec.push(InPlace::new(vec![5, 6], 2, 2));
    vec.push(Box::new(vec![7_u8]));
    let calls = vec.teardown();
    assert_eq!(
        calls,
        vec![
            DropCall { offset: 0, meta: 3, handler: DropHandler::EachItem },
            DropCall { offset: 3, meta: 1, handler: DropHandler::Noop },
            DropCall { offset: 4, meta: 2, handler: DropHandler::InPlace },
            DropCall { offset: 6, meta: 1, handler: DropHandler::EachItem },
        ]
    );
}

#[test]
fn teardown_of_empty_vector_runs_nothing() {
    let vec: HeteroSizedVec<str> = HeteroSizedVec::new();
    assert_eq!(vec.len(), 0);
    assert!(vec.teardown().is_empty());
}

#[test]
fn externalize_matches_indexing() {
    let mut vec: HeteroSizedVec<str> = HeteroSizedVec::new();
    vec.push("hello");
    vec.push("");
    vec.push("wörld");
    let direct: Vec<(Vec<u8>, usize)> = (0..vec.len())
        .map(|i| (vec.index(i).data.to_vec(), vec.index(i).meta))
        .collect();
    let owned = vec.into_boxed_vec();
    let moved: Vec<(Vec<u8>, usize)> = owned.into_iter().map(|b| (b.data, b.meta)).collect();
    assert_eq!(moved, direct);
    assert_eq!(moved[2].1, 6);
}

#[test]
fn round_trip_many_sizes() {
    let mut vec: HeteroSizedVec<[u8]> = HeteroSizedVec::new();
    for n in 0..40usize {
        let bytes: Vec<u8> = (0..n).map(|k| (n + k) as u8).collect();
        vec.push_value(bytes, 1 + n % 8, n);
    }
    for n in 0..40usize {
        let e = vec.index(n);
        let expected: Vec<u8> = (0..n).map(|k| (n + k) as u8).collect();
        assert_eq!(e.data, &expected[..]);
        assert_eq!(e.meta, n);
        assert_eq!(e.offset % (1 + n % 8), 0);
    }
}

#[test]
fn pointer_width_of_element_kinds() {
    assert!(heterovec::pointer_is_fat::<str>());
    assert!(heterovec::pointer_is_fat::<[u8]>());
    assert!(heterovec::pointer_is_fat::<dyn Fn() -> usize>());
    assert!(!heterovec::pointer_is_fat::<u64>());
}

#[test]
fn teardown_balances_a_live_count() {
    // every item pushed counts as alive; each destructor call releases
    // what its element owns
    for n in 0..20usize {
        let mut alive: i64 = 0;
        let mut vec: HeteroSizedVec<[u8]> = HeteroSizedVec::new();
        for i in 0..n {
            let items: Vec<u8> = vec![1; i];
            alive += i as i64;
            vec.push(items);
            vec.push(InPlace::new(vec![0; 4], 4, 4));
            alive += 1;
        }
        for call in vec.teardown() {
            match call.handler {
                DropHandler::EachItem => alive -= call.meta as i64,
                DropHandler::InPlace => alive -= 1,
                DropHandler::Noop => {}
            }
        }
        assert_eq!(alive, 0);
    }
}
