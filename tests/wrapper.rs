use no_copy::NoCopy;
use std::borrow::{Borrow, BorrowMut};
use std::collections::hash_map::DefaultHasher;
use std::hash::{Hash, Hasher};
use std::mem::{align_of, size_of};

fn hash_of<H: Hash>(v: &H) -> u64 {
    let mut h = DefaultHasher::new();
    v.hash(&mut h);
    h.finish()
}

#[test]
fn from_copy_then_into_inner_gives_value_back() {
    let x: u32 = 41;
    let w = NoCopy::from_copy(x);
    assert!(w == NoCopy(41));
    assert_eq!(NoCopy::into_inner(w), 41);
}

#[test]
fn from_copy_does_not_consume_its_argument() {
    let x: i32 = -7;
    let a = NoCopy::from_copy(x);
    let b = NoCopy::from_copy(x);
    assert!(a == b);
    assert_eq!(x, -7);
    assert_eq!(NoCopy::into_inner(a), NoCopy::into_inner(b));
}

#[test]
fn clone_of_copy_payload_is_equal() {
    let a = NoCopy(2u8);
    let b = a.clone();
    assert!(a == b);
    assert_eq!(b.0, 2);
}

#[test]
fn from_wraps_owned_value() {
    let w: NoCopy<String> = NoCopy::from(String::from("owned"));
    assert_eq!(w.0, "owned");
    let w2: NoCopy<Vec<u8>> = vec![1, 2].into();
    assert_eq!(w2.0, vec![1, 2]);
}

#[test]
fn default_wraps_payload_default() {
    let a: NoCopy<i64> = NoCopy::default();
    assert_eq!(a.0, 0);
    let b: NoCopy<String> = NoCopy::default();
    assert!(b.0.is_empty());
}

#[test]
fn size_and_alignment_match_payload() {
    assert_eq!(size_of::<NoCopy<u32>>(), size_of::<u32>());
    assert_eq!(align_of::<NoCopy<u32>>(), align_of::<u32>());
    assert_eq!(size_of::<NoCopy<[u8; 13]>>(), size_of::<[u8; 13]>());
    assert_eq!(align_of::<NoCopy<[u8; 13]>>(), align_of::<[u8; 13]>());
    assert_eq!(size_of::<NoCopy<usize>>(), size_of::<usize>());
    assert_eq!(size_of::<NoCopy<&u64>>(), size_of::<&u64>());
    assert_eq!(size_of::<NoCopy<Option<Box<u8>>>>(), size_of::<Option<Box<u8>>>());
}

#[test]
fn equality_with_wrapper_and_payload() {
    let a = NoCopy(5i32);
    assert!(a == 5);
    assert!(a != 6);
    assert!(a == NoCopy(5));
    assert!(a != NoCopy(4));
    let s = NoCopy(String::from("abc"));
    assert!(s == String::from("abc"));
    assert!(s != String::from("abd"));
}

#[test]
fn ordering_matches_payload() {
    let a: i32 = 3;
    let b: i32 = 9;
    assert!(NoCopy(a) < NoCopy(b));
    assert!(NoCopy(a) < b);
    assert!(a < *NoCopy(b));
    assert!(NoCopy(a) <= b);
    assert!(NoCopy(b) > a);
    assert!(NoCopy(b) >= NoCopy(b));
    assert!(NoCopy(a) == a);
    assert_eq!(NoCopy(a).partial_cmp(&b), a.partial_cmp(&b));
    assert_eq!(NoCopy(b).partial_cmp(&NoCopy(a)), b.partial_cmp(&a));
    assert_eq!(NoCopy(a).cmp(&NoCopy(b)), a.cmp(&b));
    assert_eq!(NoCopy(a).cmp(&NoCopy(a)), std::cmp::Ordering::Equal);
}

#[test]
fn float_comparison_matches_payload() {
    let nan = f64::NAN;
    assert!(NoCopy(nan) != nan);
    assert_eq!(NoCopy(nan).partial_cmp(&1.0), None);
    assert!(NoCopy(1.5f64) < 2.5);
}

#[test]
fn hash_matches_payload() {
    assert_eq!(hash_of(&NoCopy(12345u64)), hash_of(&12345u64));
    assert_eq!(hash_of(&NoCopy(String::from("key"))), hash_of(&String::from("key")));
    assert_eq!(hash_of(&NoCopy((1u8, -2i16))), hash_of(&(1u8, -2i16)));
}

#[test]
fn arithmetic_matches_payload() {
    assert_eq!(NoCopy(7i32) + 5, 12);
    assert_eq!(NoCopy(7i32) - 10, -3);
    assert_eq!(NoCopy(7i32) * 6, 42);
    assert_eq!(NoCopy(-7i32) / 2, -3);
    assert_eq!(NoCopy(-7i32) % 2, -1);
    assert_eq!(NoCopy(250u8) + 5, 255);
    assert_eq!(NoCopy(1.5f64) * 2.0, 3.0);
    assert_eq!(NoCopy(String::from("ab")) + "cd", "abcd");
}

#[test]
fn bitwise_matches_payload() {
    assert_eq!(NoCopy(0b1100u8) & 0b1010, 0b1000);
    assert_eq!(NoCopy(0b1100u8) | 0b1010, 0b1110);
    assert_eq!(NoCopy(0b1100u8) ^ 0b1010, 0b0110);
    assert_eq!(NoCopy(1u32) << 4u32, 16);
    assert_eq!(NoCopy(256u32) >> 3u32, 32);
    assert_eq!(NoCopy(-16i32) >> 2i32, -4);
    assert_eq!(NoCopy(true) ^ true, false);
}

#[test]
fn negation_and_complement_match_payload() {
    assert_eq!(-NoCopy(5i32), -5);
    assert_eq!(-NoCopy(i32::MAX), -i32::MAX);
    assert_eq!(!NoCopy(0u8), 255);
    assert_eq!(!NoCopy(0i32), -1);
    assert_eq!(!NoCopy(false), true);
    assert_eq!(-NoCopy(2.5f64), -2.5);
}

#[test]
fn summing_wrapped_values_gives_wrapped_sum() {
    let ints: Vec<i32> = vec![1, 2, 3];
    let wrapped = ints.iter().fold(NoCopy(0i32), |acc, x| NoCopy(acc + *x));
    assert!(wrapped == NoCopy(6));
    assert!(wrapped == ints.iter().sum::<i32>());
    let floats: Vec<f64> = vec![0.5, 0.25, 2.0];
    let wrapped_f = floats.iter().fold(NoCopy(0.0f64), |acc, x| NoCopy(acc + *x));
    assert!(wrapped_f == NoCopy(2.75));
    assert!(wrapped_f == floats.iter().sum::<f64>());
}

#[test]
fn indexing_matches_payload() {
    let v = vec![10u16, 20, 30];
    let w = NoCopy(v.clone());
    assert_eq!(w[0], v[0]);
    assert_eq!(w[2], 30);
    assert_eq!(&w[1..], &v[1..]);
    assert_eq!(w.get(3), v.get(3));
    assert_eq!(w.get(3), None);
    let s = NoCopy("hello");
    assert_eq!(&s[1..3], "el");
}

#[test]
fn deref_gives_payload_access() {
    let mut w = NoCopy(vec![1u8, 2]);
    assert_eq!(w.len(), 2);
    w.push(3);
    assert_eq!(*w, vec![1, 2, 3]);
    *w = vec![9];
    assert_eq!(w.0, vec![9]);
}

#[test]
fn borrow_gives_payload_access() {
    let mut w = NoCopy(String::from("a"));
    let r: &String = w.borrow();
    assert_eq!(r, "a");
    let m: &mut String = w.borrow_mut();
    m.push('b');
    assert_eq!(w.0, "ab");
}
