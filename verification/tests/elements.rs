use playing_with_hlists::decimal::{signed_to_string, unsigned_to_string};
use playing_with_hlists::printable::Printable;
use playing_with_hlists::sink::Sink;

fn text_of<T: Printable>(value: T) -> String {
    let mut f = Sink::unbounded();
    assert!(value.fmt(&mut f).is_ok());
    f.into_string()
}

#[test]
fn unsigned_integers_are_written_in_decimal() {
    assert_eq!("0", unsigned_to_string(0));
    assert_eq!("7", unsigned_to_string(7));
    assert_eq!("10", unsigned_to_string(10));
    assert_eq!("1005", unsigned_to_string(1005));
    assert_eq!("120300", unsigned_to_string(120300));
    assert_eq!("340282366920938463463374607431768211455", unsigned_to_string(u128::MAX));
}

#[test]
fn signed_integers_are_written_with_their_sign() {
    assert_eq!("0", signed_to_string(0));
    assert_eq!("42", signed_to_string(42));
    assert_eq!("-1", signed_to_string(-1));
    assert_eq!("-90", signed_to_string(-90));
    assert_eq!("170141183460469231731687303715884105727", signed_to_string(i128::MAX));
    assert_eq!("-170141183460469231731687303715884105728", signed_to_string(i128::MIN));
}

#[test]
fn decimal_agrees_with_the_standard_formatting() {
    let mut n: u128 = 1;
    let mut k: u32 = 0;
    while k < 38 {
        assert_eq!(format!("{}", n), unsigned_to_string(n));
        assert_eq!(format!("{}", n - 1), unsigned_to_string(n - 1));
        assert_eq!(format!("{}", n + 7), unsigned_to_string(n + 7));
        assert_eq!(format!("-{}", n), signed_to_string(-(n as i128)));
        n *= 10;
        k += 1;
    }
}

#[test]
fn every_unsigned_type_is_an_element() {
    assert_eq!("255", text_of(u8::MAX));
    assert_eq!("65535", text_of(u16::MAX));
    assert_eq!("4294967295", text_of(u32::MAX));
    assert_eq!("18446744073709551615", text_of(u64::MAX));
    assert_eq!("340282366920938463463374607431768211455", text_of(u128::MAX));
    assert_eq!(format!("{}", usize::MAX), text_of(usize::MAX));
    assert_eq!("0", text_of(0u8));
}

#[test]
fn every_signed_type_is_an_element() {
    assert_eq!("-128", text_of(i8::MIN));
    assert_eq!("127", text_of(i8::MAX));
    assert_eq!("-32768", text_of(i16::MIN));
    assert_eq!("-2147483648", text_of(i32::MIN));
    assert_eq!("2147483647", text_of(i32::MAX));
    assert_eq!("-9223372036854775808", text_of(i64::MIN));
    assert_eq!("-170141183460469231731687303715884105728", text_of(i128::MIN));
    assert_eq!(format!("{}", isize::MIN), text_of(isize::MIN));
    assert_eq!("0", text_of(0i64));
}

#[test]
fn texts_are_elements() {
    assert_eq!("abcde", text_of("abcde"));
    assert_eq!("Wow!", text_of(String::from("Wow!")));
    assert_eq!("", text_of(""));
    assert_eq!("h\u{e9}llo", text_of("h\u{e9}llo"));
}

#[test]
fn characters_and_booleans_are_elements() {
    assert_eq!("x", text_of('x'));
    assert_eq!("\u{e9}", text_of('\u{e9}'));
    assert_eq!("true", text_of(true));
    assert_eq!("false", text_of(false));
}

#[test]
fn references_are_elements() {
    let n: i32 = -5;
    let s = String::from("s");
    assert_eq!("-5", text_of(&n));
    assert_eq!("-5", text_of(&&n));
    assert_eq!("s", text_of(&s));
}

#[test]
fn element_that_does_not_fit_is_not_written_at_all() {
    let mut f = Sink::bounded(4);
    assert!(12345u32.fmt(&mut f).is_err());
    assert_eq!("", f.as_str());
    assert_eq!(Some(4), f.remaining());
    assert!(1234u32.fmt(&mut f).is_ok());
    assert_eq!("1234", f.as_str());
    assert_eq!(Some(0), f.remaining());
    assert!(true.fmt(&mut f).is_err());
    assert!('c'.fmt(&mut f).is_err());
    assert!("".fmt(&mut f).is_ok());
    assert_eq!("1234", f.as_str());
}

#[test]
fn every_kind_of_element_is_one_piece() {
    let mut out: Vec<String> = Vec::new();
    "abc".push_pieces(&mut out);
    String::from("de").push_pieces(&mut out);
    'f'.push_pieces(&mut out);
    true.push_pieces(&mut out);
    false.push_pieces(&mut out);
    0u8.push_pieces(&mut out);
    (-12i64).push_pieces(&mut out);
    u128::MAX.push_pieces(&mut out);
    (&&7usize).push_pieces(&mut out);
    "".push_pieces(&mut out);
    assert_eq!(
        vec![
            "abc",
            "de",
            "f",
            "true",
            "false",
            "0",
            "-12",
            "340282366920938463463374607431768211455",
            "7",
            "",
        ],
        out
    );
}
