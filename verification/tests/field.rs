use tenki_core::field::{digit_of, parse, Field};
use tenki_core::weather::{WeatherKind, WindDirection};

#[test]
fn letters_are_no_temperature() {
    let failure = parse::<i32>("abc", "temp").unwrap_err();
    assert!(failure.contains("abc"));
    assert!(failure.contains("temp"));
    assert_eq!(failure, "failed to parse `abc` as `temp`");
}

#[test]
fn failure_names_text_and_field() {
    assert_eq!(
        parse::<u32>("", "humidity"),
        Err(String::from("failed to parse `` as `humidity`"))
    );
    assert_eq!(
        parse::<u32>("1 2", "wind_speed"),
        Err(String::from("failed to parse `1 2` as `wind_speed`"))
    );
    assert_eq!(
        parse::<WeatherKind>("快晴", "kind"),
        Err(String::from("failed to parse `快晴` as `kind`"))
    );
    assert_eq!(
        parse::<WindDirection>("north", "wind_direction"),
        Err(String::from("failed to parse `north` as `wind_direction`"))
    );
}

#[test]
fn unsigned_numbers() {
    assert_eq!(parse::<u32>("0", "n"), Ok(0));
    assert_eq!(parse::<u32>("7", "n"), Ok(7));
    assert_eq!(parse::<u32>("007", "n"), Ok(7));
    assert_eq!(parse::<u32>("+42", "n"), Ok(42));
    assert_eq!(parse::<u32>("100", "n"), Ok(100));
    assert_eq!(parse::<u32>("4294967295", "n"), Ok(u32::MAX));
    assert_eq!(parse::<u32>("0000000004294967295", "n"), Ok(u32::MAX));
    assert!(parse::<u32>("4294967296", "n").is_err());
    assert!(parse::<u32>("99999999999999999999999999", "n").is_err());
    assert!(parse::<u32>("-0", "n").is_err());
    assert!(parse::<u32>("-1", "n").is_err());
    assert!(parse::<u32>("+", "n").is_err());
    assert!(parse::<u32>("++1", "n").is_err());
    assert!(parse::<u32>("1+", "n").is_err());
    assert!(parse::<u32>(" 1", "n").is_err());
    assert!(parse::<u32>("1.5", "n").is_err());
    assert!(parse::<u32>("１", "n").is_err());
    assert!(parse::<u32>("---", "n").is_err());
}

#[test]
fn signed_numbers() {
    assert_eq!(parse::<i32>("0", "n"), Ok(0));
    assert_eq!(parse::<i32>("-0", "n"), Ok(0));
    assert_eq!(parse::<i32>("-5", "n"), Ok(-5));
    assert_eq!(parse::<i32>("+5", "n"), Ok(5));
    assert_eq!(parse::<i32>("23", "n"), Ok(23));
    assert_eq!(parse::<i32>("2147483647", "n"), Ok(i32::MAX));
    assert_eq!(parse::<i32>("-2147483648", "n"), Ok(i32::MIN));
    assert!(parse::<i32>("2147483648", "n").is_err());
    assert!(parse::<i32>("-2147483649", "n").is_err());
    assert!(parse::<i32>("", "n").is_err());
    assert!(parse::<i32>("-", "n").is_err());
    assert!(parse::<i32>("+", "n").is_err());
    assert!(parse::<i32>("+-5", "n").is_err());
    assert!(parse::<i32>("--5", "n").is_err());
    assert!(parse::<i32>("5-", "n").is_err());
    assert!(parse::<i32>("12.5", "n").is_err());
}

#[test]
fn numbers_agree_with_std() {
    let texts = [
        "", "0", "1", "+1", "-1", "+", "-", "10", "010", "4294967295", "4294967296", "2147483647",
        "2147483648", "-2147483648", "-2147483649", "1a", "a1", " 1", "1 ", "+-1", "-+1", "0x10",
        "1_000", "٣", "12345678901234567890",
    ];
    for text in texts {
        assert_eq!(u32::from_text(text), text.parse::<u32>().ok());
        assert_eq!(i32::from_text(text), text.parse::<i32>().ok());
    }
}

#[test]
fn digits_have_values() {
    assert_eq!(digit_of('0'), Some(0));
    assert_eq!(digit_of('5'), Some(5));
    assert_eq!(digit_of('9'), Some(9));
    assert_eq!(digit_of('/'), None);
    assert_eq!(digit_of(':'), None);
    assert_eq!(digit_of('a'), None);
    assert_eq!(digit_of('５'), None);
}
