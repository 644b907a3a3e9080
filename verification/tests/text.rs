use openapi_lambda::fresh::unique_name;
use openapi_lambda::order::{sorted_order, text_before};
use openapi_lambda::table::find_key;
use openapi_lambda::text::{
    concat2, concat3, contains_str, decimal, join, split, starts_with, str_eq, tail_from,
};

fn s(text: &str) -> String {
    text.to_string()
}

#[test]
fn split_keeps_empty_pieces() {
    assert_eq!(split("a#b", '#'), vec!["a", "b"]);
    assert_eq!(split("", '#'), vec![""]);
    assert_eq!(split("a#", '#'), vec!["a", ""]);
    assert_eq!(split("#/x//y", '/'), vec!["#", "x", "", "y"]);
    assert_eq!(split("no separator", '#'), vec!["no separator"]);
}

#[test]
fn decimal_writes_numerals_without_leading_zeros() {
    assert_eq!(decimal(0), "0");
    assert_eq!(decimal(7), "7");
    assert_eq!(decimal(10), "10");
    assert_eq!(decimal(299), "299");
    assert_eq!(decimal(18446744073709551616), "18446744073709551616");
}

#[test]
fn join_puts_the_separator_between_items() {
    assert_eq!(join(&vec![], ", "), "");
    assert_eq!(join(&vec![s("a")], ", "), "a");
    assert_eq!(join(&vec![s("a"), s("b"), s("")], ", "), "a, b, ");
}

#[test]
fn strings_compare_by_their_characters() {
    assert!(str_eq("héllo", "héllo"));
    assert!(!str_eq("hello", "hellp"));
    assert!(!str_eq("hello", "hell"));
    assert!(starts_with("text/plain", "text/"));
    assert!(!starts_with("tex", "text/"));
    assert!(starts_with("anything", ""));
    assert_eq!(tail_from("#/components/schemas/Foo", 21), "Foo");
    assert_eq!(concat2("handle_", "add_pet"), "handle_add_pet");
    assert_eq!(concat3("a", "é", "c"), "aéc");
    assert!(contains_str(&vec![s("a"), s("b")], "b"));
    assert!(!contains_str(&vec![s("a"), s("b")], "c"));
}

#[test]
fn find_key_gives_the_first_entry_of_a_name() {
    let table = vec![(s("a"), 1u8), (s("b"), 2u8), (s("a"), 3u8)];
    assert_eq!(find_key(&table, "a"), 0);
    assert_eq!(find_key(&table, "b"), 1);
    assert_eq!(find_key(&table, "c"), 3);
}

#[test]
fn a_free_context_is_the_name() {
    let table = vec![(s("Other"), 0u8)];
    assert_eq!(unique_name(&table, "ColorParam"), "ColorParam");
}

#[test]
fn a_taken_context_gets_the_first_free_number_from_two() {
    let table = vec![(s("ColorParam"), 0u8)];
    assert_eq!(unique_name(&table, "ColorParam"), "ColorParam2");

    let table = vec![(s("ColorParam"), 0u8), (s("ColorParam2"), 0u8), (s("ColorParam3"), 0u8)];
    assert_eq!(unique_name(&table, "ColorParam"), "ColorParam4");

    // A gap is filled, and 1 is never tried.
    let table =
        vec![(s("ColorParam"), 0u8), (s("ColorParam1"), 0u8), (s("ColorParam3"), 0u8)];
    assert_eq!(unique_name(&table, "ColorParam"), "ColorParam2");
}

#[test]
fn text_order_is_by_character() {
    assert!(text_before("", ""));
    assert!(text_before("", "a"));
    assert!(!text_before("a", ""));
    assert!(text_before("abc", "abd"));
    assert!(!text_before("abd", "abc"));
    assert!(text_before("ab", "abc"));
    assert!(text_before("Z", "a"));
    assert!(text_before("same", "same"));
}

#[test]
fn sorted_order_is_by_key_and_stable() {
    let keys = vec![Some(s("b")), None, Some(s("a")), Some(s("b")), Some(s("")), None];
    assert_eq!(sorted_order(&keys), vec![1, 5, 4, 2, 0, 3]);
    assert_eq!(sorted_order(&vec![]), Vec::<usize>::new());
}
