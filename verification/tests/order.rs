use exo_planets::order::{apply_order, bytes_less, sorted_order};

#[test]
fn bytes_compare_like_str_cmp() {
    for (a, b) in [
        ("", ""),
        ("", "a"),
        ("a", "b"),
        ("ab", "a"),
        ("Kepler-10 b", "Kepler-1 b"),
        ("\u{e9}", "z"),
        ("abc", "abd"),
    ] {
        assert_eq!(bytes_less(a.as_bytes(), b.as_bytes()), a < b, "{a:?} < {b:?}");
        assert_eq!(bytes_less(b.as_bytes(), a.as_bytes()), b < a, "{b:?} < {a:?}");
    }
}

#[test]
fn sorted_order_is_stable() {
    let keys: Vec<(u64, Vec<u8>)> = vec![
        (2, b"x".to_vec()),
        (1, b"b".to_vec()),
        (2, b"x".to_vec()),
        (1, b"a".to_vec()),
        (0, b"z".to_vec()),
    ];
    let p = sorted_order(&keys);
    assert_eq!(p, vec![4, 3, 1, 0, 2]);
    let items = vec!["e0", "e1", "e2", "e3", "e4"];
    assert_eq!(apply_order(items, &p), vec!["e4", "e3", "e1", "e0", "e2"]);
    assert_eq!(sorted_order(&Vec::new()), Vec::<usize>::new());
}
