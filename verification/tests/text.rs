use sni_prob::text::{decimal_string, join};
use sni_prob::types::Ipv4Address;

#[test]
fn decimal_of_small_and_large_numbers() {
    assert_eq!(decimal_string(0), "0");
    assert_eq!(decimal_string(7), "7");
    assert_eq!(decimal_string(10), "10");
    assert_eq!(decimal_string(443), "443");
    assert_eq!(decimal_string(1000), "1000");
    assert_eq!(decimal_string(usize::MAX), usize::MAX.to_string());
}

#[test]
fn ipv4_in_dotted_decimal() {
    assert_eq!(Ipv4Address::new(8, 8, 8, 8).to_text(), "8.8.8.8");
    assert_eq!(Ipv4Address::new(255, 0, 10, 1).to_text(), "255.0.10.1");
    assert_eq!(Ipv4Address::new(0, 0, 0, 0).to_text(), "0.0.0.0");
}

#[test]
fn join_puts_separator_between_items() {
    let none: Vec<String> = vec![];
    assert_eq!(join(&none, ", "), "");
    assert_eq!(join(&vec![String::from("google.com")], ", "), "google.com");
    let three = vec![String::from("a"), String::from("b"), String::from("c")];
    assert_eq!(join(&three, ", "), "a, b, c");
    assert_eq!(join(&three, ""), "abc");
}
