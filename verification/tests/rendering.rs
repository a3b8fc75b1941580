use ibc_gamm::digits::u128_to_dec_string;
use ibc_gamm::lex::{str_eq, str_lt};

#[test]
fn renders_decimal_amounts_exactly() {
    assert_eq!("0", u128_to_dec_string(0));
    assert_eq!("7", u128_to_dec_string(7));
    assert_eq!("10", u128_to_dec_string(10));
    assert_eq!("1500", u128_to_dec_string(1500));
    assert_eq!("90061", u128_to_dec_string(90061));
    assert_eq!(
        "340282366920938463463374607431768211455",
        u128_to_dec_string(u128::MAX)
    );
}

#[test]
fn string_order_is_lexicographic() {
    assert!(str_lt("", "a"));
    assert!(!str_lt("a", ""));
    assert!(str_lt("a", "b"));
    assert!(str_lt("ab", "b"));
    assert!(str_lt("channel-11", "channel-2"));
    assert!(!str_lt("channel-2", "channel-11"));
    assert!(!str_lt("same", "same"));
    assert!(str_eq("same", "same"));
    assert!(!str_eq("same", "samey"));
}
