use const_vec::ConstVec;
use const_vec::IntoIter;

fn filled(capacity: usize, values: &[i32]) -> ConstVec<i32> {
    let mut vec = ConstVec::new(capacity);
    for v in values {
        vec.push(*v);
    }
    vec
}

#[test]
fn new_is_empty_with_given_capacity() {
    for capacity in [0usize, 1, 3, 100] {
        let vec: ConstVec<i32> = ConstVec::new(capacity);
        assert_eq!(vec.len(), 0);
        assert!(vec.is_empty());
        assert_eq!(vec.capacity(), capacity);
        assert!(vec.as_slice().is_empty());
    }
}

#[test]
fn pushes_grow_one_at_a_time_in_order() {
    let values = [5, -1, 7, 7, 0];
    let mut vec = ConstVec::new(values.len());
    for (i, v) in values.iter().enumerate() {
        assert_eq!(vec.len(), i);
        vec.push(*v);
        assert_eq!(vec.len(), i + 1);
        assert_eq!(vec.as_slice(), &values[..i + 1]);
    }
    assert_eq!(vec.capacity(), values.len());
}

#[test]
fn push_then_pop_restores() {
    let mut vec = filled(4, &[1, 2]);
    vec.push(9);
    assert_eq!(vec.pop(), Some(9));
    assert_eq!(vec.len(), 2);
    assert_eq!(vec.as_slice(), &[1, 2]);
}

#[test]
fn pop_on_empty_is_none() {
    let mut vec: ConstVec<i32> = ConstVec::new(3);
    assert_eq!(vec.pop(), None);
    let mut none: ConstVec<i32> = ConstVec::new(0);
    assert_eq!(none.pop(), None);
    assert_eq!(none.len(), 0);
}

#[test]
fn push_pop_scenario() {
    let mut vec = ConstVec::new(3);
    vec.push(1);
    vec.push(2);
    vec.push(3);
    assert_eq!(vec.as_slice(), &[1, 2, 3]);
    assert_eq!(vec.pop(), Some(3));
    assert!(vec == [1, 2]);
    vec.push(3);
    assert!(vec == [1, 2, 3]);
    assert_eq!(vec.len(), vec.capacity());
}

#[test]
fn clear_empties_and_keeps_capacity() {
    let mut vec = filled(5, &[1, 2, 3]);
    vec.clear();
    assert_eq!(vec.len(), 0);
    assert!(vec.is_empty());
    assert!(vec.as_slice().is_empty());
    assert_eq!(vec.capacity(), 5);
    assert_eq!(vec.len(), 0);
    vec.push(8);
    assert_eq!(vec.as_slice(), &[8]);
}

#[test]
fn clear_drops_live_elements() {
    let shared = std::rc::Rc::new(0);
    let mut vec = ConstVec::new(2);
    vec.push(shared.clone());
    vec.push(shared.clone());
    assert_eq!(std::rc::Rc::strong_count(&shared), 3);
    vec.clear();
    assert_eq!(std::rc::Rc::strong_count(&shared), 1);
}

#[test]
fn append_scenario() {
    let mut vec = filled(6, &[1, 2, 3]);
    let mut donor = vec![4, 5, 6];
    vec.append(&mut donor);
    assert!(vec == [1, 2, 3, 4, 5, 6]);
    assert_eq!(donor.len(), 0);
    assert_eq!(vec.capacity(), 6);
}

#[test]
fn append_only_when_it_fits() {
    let mut vec = filled(4, &[1, 2]);
    let mut donor = vec![3, 4, 5];
    // The combined length is checked before the call, as the contract asks.
    if vec.len() + donor.len() <= vec.capacity() {
        vec.append(&mut donor);
    }
    assert_eq!(vec.as_slice(), &[1, 2]);
    assert_eq!(donor, vec![3, 4, 5]);
    let mut smaller = vec![3, 4];
    if vec.len() + smaller.len() <= vec.capacity() {
        vec.append(&mut smaller);
    }
    assert_eq!(vec.as_slice(), &[1, 2, 3, 4]);
    assert!(smaller.is_empty());
}

#[test]
fn append_empty_donor() {
    let mut vec = filled(2, &[1, 2]);
    let mut donor: Vec<i32> = Vec::new();
    vec.append(&mut donor);
    assert_eq!(vec.as_slice(), &[1, 2]);
}

#[test]
fn vec_round_trip() {
    let vec = filled(5, &[1, 2, 3]);
    let plain: Vec<i32> = Vec::from(vec);
    assert_eq!(plain, vec![1, 2, 3]);
    let back = ConstVec::from(plain);
    assert_eq!(back.as_slice(), &[1, 2, 3]);
    assert!(back.capacity() >= 3);
}

#[test]
fn from_vec_takes_its_capacity() {
    let mut plain = Vec::with_capacity(10);
    plain.push(1u8);
    let expected = plain.capacity();
    let mut vec = ConstVec::from(plain);
    assert_eq!(vec.capacity(), expected);
    assert_eq!(vec.as_slice(), &[1]);
    vec.push(2);
    assert_eq!(vec.as_slice(), &[1, 2]);
}

#[test]
fn raw_parts_round_trip() {
    let vec = filled(3, &[-1, 0, 1]);
    let (storage, len, capacity) = vec.into_raw_parts();
    assert_eq!(len, 3);
    assert_eq!(capacity, 3);
    assert_eq!(storage, vec![-1, 0, 1]);
    let rebuilt = ConstVec::from_raw_parts(storage, len, capacity);
    assert!(rebuilt == [-1, 0, 1]);
    assert_eq!(rebuilt.capacity(), 3);
}

#[test]
fn into_iter_front_to_back() {
    let vec = filled(4, &[1, 2, 3]);
    let mut iter: IntoIter<i32> = vec.into_iter();
    assert_eq!(iter.len(), 3);
    assert_eq!(iter.size_hint(), (3, Some(3)));
    assert_eq!(iter.next(), Some(1));
    assert_eq!(iter.next(), Some(2));
    assert_eq!(iter.next(), Some(3));
    assert_eq!(iter.next(), None);
    assert!(iter.is_empty());
    assert_eq!(iter.next_back(), None);
}

#[test]
fn into_iter_from_both_ends() {
    let values = [10, 20, 30, 40, 50];
    let vec = filled(8, &values);
    let mut iter = vec.into_iter();
    let mut front = Vec::new();
    let mut back = Vec::new();
    let mut count = 0;
    loop {
        let pulled = if count % 2 == 0 { iter.next() } else { iter.next_back() };
        match pulled {
            Some(v) => {
                if count % 2 == 0 {
                    front.push(v);
                } else {
                    back.push(v);
                }
                count += 1;
                assert_eq!(iter.len(), values.len() - count);
            }
            None => break,
        }
    }
    assert_eq!(count, values.len());
    assert_eq!(front, vec![10, 20, 30]);
    assert_eq!(back, vec![50, 40]);
    back.reverse();
    front.extend(back);
    assert_eq!(front, values.to_vec());
}

#[test]
fn dropping_a_partial_iterator_drops_the_rest() {
    let shared = std::rc::Rc::new(0);
    let mut vec = ConstVec::new(3);
    vec.push(shared.clone());
    vec.push(shared.clone());
    vec.push(shared.clone());
    let mut iter = vec.into_iter();
    let first = iter.next();
    assert_eq!(std::rc::Rc::strong_count(&shared), 4);
    drop(iter);
    assert_eq!(std::rc::Rc::strong_count(&shared), 2);
    drop(first);
    assert_eq!(std::rc::Rc::strong_count(&shared), 1);
}

#[test]
fn clone_keeps_capacity_and_elements() {
    let vec = filled(7, &[1, 2, 3]);
    let mut copy = vec.clone();
    assert_eq!(copy.capacity(), 7);
    assert!(copy == vec);
    copy.push(4);
    copy.as_mut_slice()[0] = 100;
    assert_eq!(vec.as_slice(), &[1, 2, 3]);
    assert_eq!(copy.as_slice(), &[100, 2, 3, 4]);
    assert!(copy != vec);
}

#[test]
fn equality_against_slices_arrays_and_arrays_of_other_capacity() {
    let a = filled(3, &[1, 2]);
    let b = filled(9, &[1, 2]);
    assert!(a == b);
    assert!(a == [1, 2]);
    assert!(a != [1, 2, 3]);
    assert!(a != [2, 1]);
    let slice: &[i32] = &[1, 2];
    assert!(a == *slice);
    let empty: ConstVec<i32> = ConstVec::new(0);
    let nothing: [i32; 0] = [];
    assert!(empty == nothing);
}

#[test]
fn slice_views_and_mutation() {
    let mut vec = filled(4, &[3, 1, 2]);
    vec.as_mut_slice().sort();
    assert_eq!(vec.as_slice(), &[1, 2, 3]);
    let total: i32 = vec.iter().sum();
    assert_eq!(total, 6);
    assert_eq!(vec[1], 2);
    let r: &[i32] = vec.as_ref();
    assert_eq!(r, &[1, 2, 3]);
    vec.as_mut()[2] = 30;
    assert_eq!(&vec[..], &[1, 2, 30]);
}
