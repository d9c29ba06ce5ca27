use blizzardup_aws::strutil::join_commas;
use blizzardup_aws::strutil::rfind_char;
use blizzardup_aws::strutil::split_commas;
use blizzardup_aws::strutil::u64_to_string;

#[test]
fn decimal_exact_values() {
    assert_eq!(u64_to_string(0), "0");
    assert_eq!(u64_to_string(7), "7");
    assert_eq!(u64_to_string(10), "10");
    assert_eq!(u64_to_string(100), "100");
    assert_eq!(u64_to_string(12345), "12345");
    assert_eq!(u64_to_string(u64::MAX), "18446744073709551615");
}

#[test]
fn join_exact_values() {
    let empty: Vec<String> = Vec::new();
    assert_eq!(join_commas(&empty), "");
    assert_eq!(join_commas(&vec![String::from("a")]), "a");
    assert_eq!(
        join_commas(&vec![String::from("a"), String::from("b"), String::from("c")]),
        "a,b,c"
    );
}

#[test]
fn split_exact_values() {
    assert_eq!(split_commas("a,b,c"), vec!["a", "b", "c"]);
    assert_eq!(split_commas(""), vec![""]);
    assert_eq!(split_commas("a,,b"), vec!["a", "", "b"]);
    assert_eq!(split_commas("lone"), vec!["lone"]);
    assert_eq!(split_commas(","), vec!["", ""]);
}

#[test]
fn split_then_join_round_trip() {
    for s in ["a,b,c", "", "x", "a,,b", "subnet-1,subnet-2,subnet-3"] {
        assert_eq!(join_commas(&split_commas(s)), s);
    }
}

#[test]
fn rfind_char_positions() {
    assert_eq!(rfind_char("a/b/c", '/'), Some(3));
    assert_eq!(rfind_char("abc", '/'), None);
    assert_eq!(rfind_char("/", '/'), Some(0));
}
