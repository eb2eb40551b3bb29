use openweather::error::{ClientError, ErrorKind};
use openweather::request::{address, checked_url, is_sendable, request_url, MAX_CITY_AND_KEY};

#[test]
fn address_holds_city_and_key() {
    assert_eq!(
        address("Tokyo", "k"),
        "https://api.openweathermap.org/data/2.5/weather?q=Tokyo&appid=k"
    );
}

#[test]
fn address_takes_the_city_verbatim() {
    assert_eq!(
        address("New York&x=1#y", "abc"),
        "https://api.openweathermap.org/data/2.5/weather?q=New York&x=1#y&appid=abc"
    );
}

#[test]
fn address_of_empty_city_and_key() {
    assert_eq!(address("", ""), "https://api.openweathermap.org/data/2.5/weather?q=&appid=");
}

#[test]
fn url_carries_units_and_language() {
    assert_eq!(
        request_url("Tokyo", "k"),
        Ok(String::from(
            "https://api.openweathermap.org/data/2.5/weather?q=Tokyo&appid=k&units=metric&lang=ja"
        ))
    );
}

#[test]
fn url_is_not_the_address_handed_back() {
    let url = request_url("Paris", "abc123").unwrap();
    assert_ne!(url, address("Paris", "abc123"));
    assert!(url.starts_with("https://api.openweathermap.org/data/2.5/weather?q=Paris&appid=abc123"));
    assert!(url.ends_with("&units=metric&lang=ja"));
}

#[test]
fn url_escapes_a_space_in_the_city() {
    assert_eq!(
        request_url("New York", "k"),
        Ok(String::from(
            "https://api.openweathermap.org/data/2.5/weather?q=New%20York&appid=k&units=metric&lang=ja"
        ))
    );
}

#[test]
fn url_agrees_with_the_parser() {
    for city in ["Tokyo", "São Paulo", "a&b=c", "東京", ""] {
        let expected = reqwest::Url::parse_with_params(
            &format!("https://api.openweathermap.org/data/2.5/weather?q={}&appid={}", city, "k"),
            &[("units", "metric"), ("lang", "ja")],
        )
        .unwrap();
        assert_eq!(request_url(city, "k"), Ok(String::from(expected.as_str())));
    }
}

#[test]
fn parsed_url_is_kept() {
    assert_eq!(checked_url(Ok(String::from("https://example.net/"))), Ok(String::from("https://example.net/")));
}

#[test]
fn parse_error_becomes_invalid_url() {
    assert_eq!(
        checked_url(Err(String::from("empty host"))),
        Err(ClientError { kind: ErrorKind::InvalidUrl, message: String::from("empty host") })
    );
}

#[test]
fn ordinary_names_are_sendable() {
    assert!(is_sendable("Tokyo", "k"));
    assert!(is_sendable("", ""));
    assert!(is_sendable("São Paulo", "0123456789abcdef0123456789abcdef"));
}

#[test]
fn sendable_up_to_the_limit() {
    assert_eq!(MAX_CITY_AND_KEY, 16_000_000);
    let city = "a".repeat(MAX_CITY_AND_KEY - 3);
    assert!(is_sendable(&city, "key"));
    assert!(!is_sendable(&city, "key4"));
    let city = "a".repeat(MAX_CITY_AND_KEY);
    assert!(is_sendable(&city, ""));
    assert!(is_sendable("", &city));
    assert!(!is_sendable(&city, "k"));
    assert!(!is_sendable("c", &city));
    assert!(!is_sendable(&city, &city));
}

#[test]
fn sendable_counts_characters_not_bytes() {
    let city = "東".repeat(MAX_CITY_AND_KEY);
    assert!(city.len() > MAX_CITY_AND_KEY);
    assert!(is_sendable(&city, ""));
    assert!(!is_sendable(&city, "京"));
}

#[test]
fn url_of_a_long_city() {
    let city = "x".repeat(100_000);
    let url = request_url(&city, "k").unwrap();
    assert_eq!(
        url,
        format!(
            "https://api.openweathermap.org/data/2.5/weather?q={}&appid=k&units=metric&lang=ja",
            city
        )
    );
}

#[test]
fn url_keeps_a_fragment_behind_the_parameters() {
    assert_eq!(
        request_url("Tokyo#now", "k"),
        Ok(String::from(
            "https://api.openweathermap.org/data/2.5/weather?q=Tokyo&units=metric&lang=ja#now&appid=k"
        ))
    );
}
