use webevent::decimal::i64_to_string;
use webevent::decimal::u128_to_string;
use webevent::numbers::add_one;
use webevent::user::build_user;
use webevent::user::User;

#[test]
fn add_sums() {
    assert_eq!(webevent::numbers::add(10, 20), 30);
    assert_eq!(webevent::numbers::add(-3, 3), 0);
}

#[test]
fn add_one_increments() {
    assert_eq!(add_one(3), 4);
    assert_eq!(add_one(-1), 0);
}

#[test]
fn build_user_defaults() {
    let u = build_user(String::from("someone@example.com"), String::from("someusername123"));
    assert_eq!(u.email, "someone@example.com");
    assert_eq!(u.username, "someusername123");
    assert!(u.active);
    assert_eq!(u.sign_in_count, 1);
}

#[test]
fn user_format_joins_username_and_email() {
    let u = User {
        username: String::from("anotherusername567"),
        email: String::from("another@example.com"),
        sign_in_count: 1,
        active: true,
    };
    assert_eq!(u.format(), "anotherusername567, another@example.com");
}

#[test]
fn decimal_small_values() {
    assert_eq!(u128_to_string(0), "0");
    assert_eq!(u128_to_string(7), "7");
    assert_eq!(u128_to_string(10), "10");
    assert_eq!(u128_to_string(100000), "100000");
}

#[test]
fn decimal_large_values() {
    assert_eq!(
        u128_to_string(340282366920938463463374607431768211455),
        "340282366920938463463374607431768211455"
    );
    assert_eq!(i64_to_string(9223372036854775807), "9223372036854775807");
    assert_eq!(i64_to_string(-9223372036854775808), "-9223372036854775808");
}

#[test]
fn decimal_signed_values() {
    assert_eq!(i64_to_string(0), "0");
    assert_eq!(i64_to_string(42), "42");
    assert_eq!(i64_to_string(-1), "-1");
    assert_eq!(i64_to_string(-20), "-20");
}
