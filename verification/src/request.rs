//! The request for a city's current weather.

use vstd::prelude::*;
use crate::error::{result_view, ClientError, ClientErrorView, ErrorKind};

verus! {

/// The address that is asked, up to and including the name of the city
/// parameter.
pub open spec fn endpoint_text() -> Seq<char> {
    "https://api.openweathermap.org/data/2.5/weather?q="@
}

/// What is written between the city and the key.
pub open spec fn key_parameter_text() -> Seq<char> {
    "&appid="@
}

/// The address with the city and the key written into it exactly as given:
/// neither is checked or escaped.
pub open spec fn address_text(city: Seq<char>, key: Seq<char>) -> Seq<char> {
    endpoint_text() + city + key_parameter_text() + key
}

/// The parameters that every request carries besides the city and the key:
/// metric units, and the language of the descriptions.
pub open spec fn fixed_parameters() -> Seq<(Seq<char>, Seq<char>)> {
    seq![("units"@, "metric"@), ("lang"@, "ja"@)]
}

/// The most characters that a city and a key may have between them.
pub const MAX_CITY_AND_KEY: usize = 16_000_000;

/// The most characters that a text and the parameters added to it may have
/// between them when they are made into a URL.
const MAX_URL_SOURCE: usize = 16_777_216;

/// Whether a request can be made for this city with this key: whether the
/// two are short enough.
pub open spec fn sendable(city: Seq<char>, key: Seq<char>) -> bool {
    city.len() + key.len() <= MAX_CITY_AND_KEY
}

/// The URL that `Url::parse_with_params` makes of a text and a list of
/// parameters, as text, or the description of the reason why it makes none.
pub uninterp spec fn url_with_params(input: Seq<char>, params: Seq<(Seq<char>, Seq<char>)>) -> Result<Seq<char>, Seq<char>>;

/// Parses `input` as an absolute URL and appends two parameters to its query,
/// by `reqwest::Url::parse_with_params`.
///
/// Not proved: that the outcome is a function of the text and the parameters
/// alone. The URL is handed back as its text, a parse error as the text that
/// it displays.
///
/// The parser keeps positions in 32 bits and stops the program when it puts
/// back the fragment of a URL that has grown past 4 GiB. The limit on the
/// lengths keeps every URL far below that.
#[verifier::external_body]
fn parse_with_two_params(input: &str, first: (&str, &str), second: (&str, &str)) -> (r: Result<
    String,
    String,
>)
    requires
        input@.len() + first.0@.len() + first.1@.len() + second.0@.len() + second.1@.len()
            <= MAX_URL_SOURCE,
    ensures
        result_view(r) == url_with_params(
            input@,
            seq![(first.0@, first.1@), (second.0@, second.1@)],
        ),
{
    match reqwest::Url::parse_with_params(input, &[first, second]) {
        Ok(url) => Ok(url.into()),
        Err(e) => Err(e.to_string()),
    }
}

/// What a request comes to, given what became of its address: the URL to
/// get, or the failure to report.
pub open spec fn request_outcome(parsed: Result<Seq<char>, Seq<char>>) -> Result<
    Seq<char>,
    ClientErrorView,
> {
    match parsed {
        Ok(url) => Ok(url),
        Err(reason) => Err(ClientErrorView { kind: ErrorKind::InvalidUrl, message: reason }),
    }
}

/// Writes the city and the key into the address.
pub fn address(city: &str, key: &str) -> (r: String)
    ensures
        r@ == address_text(city@, key@),
{
    let mut r = String::from_str("https://api.openweathermap.org/data/2.5/weather?q=");
    r.append(city);
    r.append("&appid=");
    r.append(key);
    r
}

/// Whether a request can be made for this city with this key.
pub fn is_sendable(city: &str, key: &str) -> (r: bool)
    ensures
        r == sendable(city@, key@),
{
    let city_len = city.unicode_len();
    let key_len = key.unicode_len();
    city_len <= MAX_CITY_AND_KEY && key_len <= MAX_CITY_AND_KEY - city_len
}

/// Turns a parsed address into the URL to get, or a parse error into the
/// failure to report.
pub fn checked_url(parsed: Result<String, String>) -> (r: Result<String, ClientError>)
    ensures
        result_view(r) == request_outcome(result_view(parsed)),
{
    match parsed {
        Ok(url) => Ok(url),
        Err(reason) => Err(ClientError::new(ErrorKind::InvalidUrl, reason)),
    }
}

/// The URL to get for the current weather of `city`, asked with `key`.
pub fn request_url(city: &str, key: &str) -> (r: Result<String, ClientError>)
    requires
        sendable(city@, key@),
    ensures
        result_view(r) == request_outcome(
            url_with_params(address_text(city@, key@), fixed_parameters()),
        ),
{
    let text = address(city, key);
    proof {
        reveal_strlit("https://api.openweathermap.org/data/2.5/weather?q=");
        reveal_strlit("&appid=");
        reveal_strlit("units");
        reveal_strlit("metric");
        reveal_strlit("lang");
        reveal_strlit("ja");
    }
    let parsed = parse_with_two_params(text.as_str(), ("units", "metric"), ("lang", "ja"));
    checked_url(parsed)
}

} // verus!
