use gvserver::utils::{clone_bytes, options_eq};

#[test]
fn none_with_none() {
    let a: Option<i32> = Option::None;
    let b: Option<i32> = Option::None;
    assert!(options_eq(&a, &b))
}

#[test]
fn none_with_some() {
    let a: Option<i32> = Option::None;
    let inner = 222;
    let b: Option<i32> = Some(inner);
    assert!(!options_eq(&a, &b));

    let a: Option<Vec<u8>> = Option::None;
    let inner = vec![3u8, 0u8, 1u8, 22u8, 4u8];
    let b: Option<Vec<u8>> = Some(inner);
    assert!(!options_eq(&a, &b))
}

#[test]
fn some_with_none() {
    let inner = String::from("Fun_Times_Here");
    let a: Option<String> = Some(inner);
    let b: Option<String> = Option::None;
    assert!(!options_eq(&a, &b))
}

#[test]
fn some_strings() {
    let inner_a = String::from("Fun_Times_Here");
    let inner_b = String::from("Fun_Times_Here");
    let a: Option<String> = Some(inner_a);
    let b: Option<String> = Some(inner_b);
    assert!(options_eq(&a, &b))
}

#[test]
fn some_strs() {
    let inner_a = String::from("Fun_Times_Here");
    let inner_b = String::from("Fun_Times_Here");
    let a_ref = &inner_a;
    let b_ref = &inner_b;
    let a: Option<&str> = Some(a_ref);
    let b: Option<&str> = Some(b_ref);
    assert!(options_eq(&a, &b))
}

#[test]
fn some_vecs_bytes() {
    let inner_a = vec![3u8, 0u8, 1u8, 22u8];
    let inner_b = vec![3u8, 0u8, 1u8, 22u8];
    let a: Option<Vec<u8>> = Some(inner_a);
    let b: Option<Vec<u8>> = Some(inner_b);
    assert!(options_eq(&a, &b));

    let inner_a = vec![3u8, 0u8, 1u8, 22u8, 4u8];
    let inner_b = vec![3u8, 0u8, 1u8, 22u8];
    let a: Option<Vec<u8>> = Some(inner_a);
    let b: Option<Vec<u8>> = Some(inner_b);
    assert!(!options_eq(&a, &b));

    let inner_a = vec![3u8, 0u8, 1u8, 22u8, 4u8];
    let inner_b = vec![3u8, 0u8, 1u8, 22u8];
    let a: Option<Vec<u8>> = Some(inner_a);
    let b: Option<Vec<u8>> = Some(inner_b);
    assert!(!options_eq(&a, &b));
}

#[test]
fn clone_bytes_copies_contents() {
    let v = vec![1u8, 2u8, 3u8];
    let c = clone_bytes(&v);
    assert_eq!(v, c);
    let empty: Vec<u8> = Vec::new();
    assert_eq!(clone_bytes(&empty), empty);
}
