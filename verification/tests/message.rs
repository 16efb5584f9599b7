use rogue_turns::message::{push_decimal, Messages};

fn decimal(n: u32) -> String {
    let mut text = String::new();
    push_decimal(&mut text, n);
    text
}

#[test]
fn decimal_of_small_and_large_numbers() {
    assert_eq!(decimal(0), "0");
    assert_eq!(decimal(7), "7");
    assert_eq!(decimal(10), "10");
    assert_eq!(decimal(409), "409");
    assert_eq!(decimal(2147483647), "2147483647");
    assert_eq!(decimal(u32::MAX), "4294967295");
}

#[test]
fn decimal_is_appended() {
    let mut text = String::from("for ");
    push_decimal(&mut text, 12);
    assert_eq!(text, "for 12");
}

#[test]
fn log_keeps_lines_in_order() {
    let mut msgs = Messages::new();
    assert_eq!(msgs.len(), 0);
    msgs.add(String::from("first"));
    msgs.add(String::from("second"));
    assert_eq!(msgs.len(), 2);
    assert_eq!(msgs.line(0), "first");
    assert_eq!(msgs.line(1), "second");
}
