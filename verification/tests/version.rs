use iloader::version::is_ios_below;

#[test]
fn versions_below_17_4() {
    for v in ["17.3", "17.3.1", "17", "16.9", "9.3.5", "15.8.3", "17.0", "0.0"] {
        assert!(is_ios_below(v, 17, 4), "{v}");
    }
}

#[test]
fn versions_from_17_4_on() {
    for v in ["17.4", "17.4.1", "17.10", "18.0", "18", "26.1", "100.0"] {
        assert!(!is_ios_below(v, 17, 4), "{v}");
    }
}

#[test]
fn what_is_no_number_counts_as_zero() {
    assert!(is_ios_below("", 17, 4));
    assert!(is_ios_below("iOS 18.0", 17, 4));
    assert!(is_ios_below("17.x", 17, 4));
    assert!(is_ios_below("17.", 17, 4));
    assert!(is_ios_below(".9", 17, 4));
    assert!(is_ios_below("4294967296.0", 17, 4));
    assert!(!is_ios_below("4294967295.0", 17, 4));
    assert!(!is_ios_below("+18.0", 17, 4));
    assert!(is_ios_below(" 18.0", 17, 4));
}

#[test]
fn no_version_is_below_all_but_zero() {
    assert!(!is_ios_below("", 0, 0));
    assert!(is_ios_below("", 0, 1));
    assert!(is_ios_below("", 1, 0));
}

#[test]
fn parts_compare_as_numbers() {
    assert!(is_ios_below("9.9", 10, 0));
    assert!(is_ios_below("17.4", 17, 10));
    assert!(!is_ios_below("17.10", 17, 9));
}

#[test]
fn further_parts_do_not_count() {
    for rest in ["", "0", "9.9", "x"] {
        assert!(!is_ios_below(&format!("17.4.{rest}"), 17, 4));
        assert!(is_ios_below(&format!("17.3.{rest}"), 17, 4));
    }
}
