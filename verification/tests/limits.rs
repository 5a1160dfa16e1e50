use weather::api::request::{path_fits, query_fits};

#[test]
fn path_needs_a_slash_and_three_bytes_for_each_byte() {
    assert!(path_fits(&[], 0));
    assert!(!path_fits(&["a"], 3));
    assert!(path_fits(&["a"], 4));
    assert!(path_fits(&["", ""], 2));
    assert!(!path_fits(&["", ""], 1));
    assert!(path_fits(&["geo", "1.0", "direct"], 39));
    assert!(!path_fits(&["geo", "1.0", "direct"], 38));
    assert!(path_fits(&["ї"], 7));
    assert!(!path_fits(&["ї"], 6));
}

#[test]
fn query_needs_a_mark_and_two_separators_for_each_pair() {
    assert!(!query_fits(&[], 0));
    assert!(query_fits(&[], 1));
    assert!(query_fits(&[("", "")], 3));
    assert!(!query_fits(&[("", "")], 2));
    assert!(query_fits(&[("q", "Kyiv")], 18));
    assert!(!query_fits(&[("q", "Kyiv")], 17));
    assert!(query_fits(&[("a", "b"), ("c", "d")], 17));
    assert!(!query_fits(&[("a", "b"), ("c", "d")], 16));
}

#[test]
fn huge_room_is_enough() {
    assert!(path_fits(&["locations", "v1", "cities", "search"], 4294967295));
    assert!(query_fits(&[("apikey", "secret"), ("q", "Kyiv")], 4294967295));
}
