use std::collections::HashMap;

use poolkit::util::{hashmap_field_to_vec, vec_field_hashmap, vec_field_to_vec, vec_find_ok};

#[test]
fn it_works_0() {
    let mut hash1 = HashMap::new();
    hash1.insert("k1", 1);
    hash1.insert("k2", 2);
    hash1.insert("k3", 3);

    println!(
        "{:?}",
        hashmap_field_to_vec(&hash1, |_k, v| {
            if *v == 2 {
                return Some(*v);
            }
            None
        })
    );
}

#[derive(Clone, Debug, PartialEq, Eq)]
struct UserInfo {
    id: i64,
    name: String,
}

#[test]
fn it_works_1() {
    let mut hash1 = HashMap::new();
    hash1.insert(
        "k1",
        UserInfo {
            id: 1,
            name: "n1".to_string(),
        },
    );
    hash1.insert(
        "k2",
        UserInfo {
            id: 2,
            name: "n2".to_string(),
        },
    );
    hash1.insert(
        "k3",
        UserInfo {
            id: 3,
            name: "n3".to_string(),
        },
    );

    println!(
        "{:?}",
        hashmap_field_to_vec(&hash1, |_k, v| {
            if v.clone().id == 2 {
                return Some(v.clone().name);
            }
            None
        })
    );
}

#[test]
fn it_works_2() {
    let data = vec![
        UserInfo {
            id: 1,
            name: "n1".to_string(),
        },
        UserInfo {
            id: 2,
            name: "n2".to_string(),
        },
        UserInfo {
            id: 3,
            name: "n3".to_string(),
        },
    ];

    println!(
        "{:?}",
        vec_find_ok(&data, "n4".to_string(), |v1, v2| {
            if v1.name == *v2 {
                return true;
            }
            return false;
        })
    );
}

#[test]
fn it_works_3() {
    let data = vec![
        "test1".to_string(),
        "test2".to_string(),
        "test2".to_string(),
    ];
    let test_char = "test3";
    println!(
        "{:?}",
        vec_find_ok(&data, test_char, |v1, v2| {
            if v1 == v2 {
                return true;
            }
            return false;
        })
    );
}

#[test]
fn vec_field_to_vec_keeps_some_values_in_order() {
    let data = vec![1, 2, 3, 4];
    let out = vec_field_to_vec(&data, |v| if v % 2 == 0 { Some(v * 10) } else { None });
    assert_eq!(out, vec![20, 40]);
}

#[test]
fn vec_field_to_vec_empty_input_gives_empty_output() {
    let data: Vec<u32> = vec![];
    let out = vec_field_to_vec(&data, |v| Some(*v));
    assert!(out.is_empty());
}

#[test]
fn vec_field_hashmap_collects_pairs_last_wins() {
    let data = vec![(1u64, "a"), (2u64, "b"), (1u64, "c")];
    let map = vec_field_hashmap(&data, |p| Some((p.0, p.1)));
    assert_eq!(map.len(), 2);
    assert_eq!(map[&1u64], "c");
    assert_eq!(map[&2u64], "b");
}

#[test]
fn vec_field_hashmap_drops_none_answers() {
    let data = vec![1u64, 2, 3];
    let map = vec_field_hashmap(&data, |v| if *v > 1 { Some((*v, *v * 2)) } else { None });
    assert_eq!(map.len(), 2);
    assert!(!map.contains_key(&1u64));
    assert_eq!(map[&2u64], 4);
    assert_eq!(map[&3u64], 6);
}

#[test]
fn hashmap_field_to_vec_visits_every_entry() {
    let mut map = HashMap::new();
    map.insert(1u64, 10u64);
    map.insert(2u64, 20u64);
    map.insert(3u64, 30u64);
    let mut out = hashmap_field_to_vec(&map, |_k, v| Some(*v + 1));
    out.sort();
    assert_eq!(out, vec![11, 21, 31]);
}

#[test]
fn vec_find_ok_true_and_false_cases() {
    let data = vec![10u64, 20, 30];
    assert!(vec_find_ok(&data, 20u64, |a, b| *a == *b));
    assert!(!vec_find_ok(&data, 25u64, |a, b| *a == *b));
    let empty: Vec<u64> = vec![];
    assert!(!vec_find_ok(&empty, 1u64, |a, b| *a == *b));
}
