use ventil::serve::response::ApiResponse;
use ventil::text::{push_decimal, push_signed_decimal};

fn decimal(n: u64) -> String {
    let mut text = String::new();
    push_decimal(&mut text, n);
    text
}

fn signed(i: i32) -> String {
    let mut text = String::new();
    push_signed_decimal(&mut text, i);
    text
}

#[test]
fn decimal_of_small_numbers() {
    assert_eq!(decimal(0), "0");
    assert_eq!(decimal(7), "7");
    assert_eq!(decimal(9), "9");
    assert_eq!(decimal(10), "10");
    assert_eq!(decimal(99), "99");
    assert_eq!(decimal(100), "100");
    assert_eq!(decimal(1234567890), "1234567890");
}

#[test]
fn decimal_of_the_largest_number() {
    assert_eq!(decimal(u64::MAX), "18446744073709551615");
}

#[test]
fn decimal_agrees_with_the_standard_library() {
    for n in (0..5000u64).chain([65535, 65536, 999999, 1000000, u64::MAX - 1]) {
        assert_eq!(decimal(n), n.to_string());
    }
}

#[test]
fn signed_decimal_puts_a_minus_before_negative_numbers() {
    assert_eq!(signed(0), "0");
    assert_eq!(signed(42), "42");
    assert_eq!(signed(-1), "-1");
    assert_eq!(signed(-120), "-120");
    assert_eq!(signed(i32::MAX), "2147483647");
    assert_eq!(signed(i32::MIN), "-2147483648");
}

#[test]
fn push_appends_to_what_is_there() {
    let mut text = String::from("id ");
    push_decimal(&mut text, 305);
    text.push_str(", owner ");
    push_signed_decimal(&mut text, -4);
    assert_eq!(text, "id 305, owner -4");
}

#[test]
fn not_found_names_kind_and_id() {
    assert_eq!(ApiResponse::not_found("Item", 3).message, "Item with id 3 not found");
    assert_eq!(ApiResponse::not_found("Owner", -8).message, "Owner with id -8 not found");
    assert_eq!(ApiResponse::trade_not_found(12).message, "Trade with id 12 not found");
    assert_eq!(ApiResponse::new("done").message, "done");
}
