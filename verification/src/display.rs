//! The lines that present a report.

use vstd::prelude::*;
use crate::decimal::{decimal, decimal_text};
use crate::local_time::{displayed_local_time, local_time_text};
use crate::report::{Report, ReportView};

verus! {

/// The line that names the city: the name that the service gave, followed in
/// round brackets by the name that was asked for where the two differ.
pub open spec fn city_line_text(name: Seq<char>, asked: Seq<char>) -> Seq<char> {
    if name == asked {
        "城市: "@ + name
    } else {
        "城市: "@ + name + "("@ + asked + ")"@
    }
}

/// The line that gives the local time of the observation, given that time as
/// it is displayed.
pub open spec fn time_line_text(time: Seq<char>) -> Seq<char> {
    "当前时刻: "@ + time
}

/// The line that gives the current temperature.
pub open spec fn temperature_line_text(degrees: Seq<char>) -> Seq<char> {
    "当前温度: "@ + degrees + "°C"@
}

/// The line that gives the highest temperature.
pub open spec fn highest_line_text(degrees: Seq<char>) -> Seq<char> {
    "最高温度: "@ + degrees + "°C"@
}

/// The line that gives the lowest temperature.
pub open spec fn lowest_line_text(degrees: Seq<char>) -> Seq<char> {
    "最低温度： "@ + degrees + "°C"@
}

/// The line that gives the humidity.
pub open spec fn humidity_line_text(percent: nat) -> Seq<char> {
    "湿度: "@ + decimal_text(percent) + "%"@
}

/// The six lines that present a report, in order, given the local time of
/// the observation as it is displayed.
pub open spec fn report_lines(report: ReportView, asked: Seq<char>, time: Seq<char>) -> Seq<
    Seq<char>,
> {
    seq![
        city_line_text(report.name, asked),
        time_line_text(time),
        temperature_line_text(report.temp),
        highest_line_text(report.temp_max),
        lowest_line_text(report.temp_min),
        humidity_line_text(report.humidity),
    ]
}

/// Whether two texts are the same, character for character.
fn same_text(a: &str, b: &str) -> (same: bool)
    ensures
        same == (a@ == b@),
{
    let a = String::from_str(a);
    let b = String::from_str(b);
    a.eq(&b)
}

/// The line that names the city.
pub fn city_line(name: &str, asked: &str) -> (line: String)
    ensures
        line@ == city_line_text(name@, asked@),
{
    let mut line = String::from_str("城市: ");
    line.append(name);
    if !same_text(name, asked) {
        line.append("(");
        line.append(asked);
        line.append(")");
    }
    line
}

/// The line that gives the local time, given that time as it is displayed.
pub fn time_line_of(time: &str) -> (line: String)
    ensures
        line@ == time_line_text(time@),
{
    String::from_str("当前时刻: ").concat(time)
}

/// The line that gives the local time of the moment `timestamp` seconds after
/// the Unix epoch, on a clock `offset` seconds ahead of UTC; `None` where that
/// local time cannot be displayed, as on a clock a day or more off UTC.
pub fn time_line(offset: i32, timestamp: i64) -> (line: Option<String>)
    ensures
        match local_time_text(offset as int, timestamp as int) {
            Some(time) => line is Some && line->Some_0@ == time_line_text(time),
            None => line is None,
        },
        !(-86_400 < offset < 86_400) ==> line is None,
{
    match displayed_local_time(offset, timestamp) {
        Some(time) => Some(time_line_of(time.as_str())),
        None => None,
    }
}

/// The line that gives the current temperature.
pub fn temperature_line(degrees: &str) -> (line: String)
    ensures
        line@ == temperature_line_text(degrees@),
{
    String::from_str("当前温度: ").concat(degrees).concat("°C")
}

/// The line that gives the highest temperature.
pub fn highest_line(degrees: &str) -> (line: String)
    ensures
        line@ == highest_line_text(degrees@),
{
    String::from_str("最高温度: ").concat(degrees).concat("°C")
}

/// The line that gives the lowest temperature.
pub fn lowest_line(degrees: &str) -> (line: String)
    ensures
        line@ == lowest_line_text(degrees@),
{
    String::from_str("最低温度： ").concat(degrees).concat("°C")
}

/// The line that gives the humidity.
pub fn humidity_line(percent: u32) -> (line: String)
    ensures
        line@ == humidity_line_text(percent as nat),
{
    let numeral = decimal(percent);
    String::from_str("湿度: ").concat(numeral.as_str()).concat("%")
}

/// The six lines that present `report` to someone who asked for the city
/// `asked`, given the local time of the observation as it is displayed.
pub fn lines_at(report: &Report, asked: &str, time: &str) -> (lines: Vec<String>)
    ensures
        lines.len() == 6,
        lines.deep_view() == report_lines(report@, asked@, time@),
{
    let mut lines: Vec<String> = Vec::new();
    lines.push(city_line(report.name.as_str(), asked));
    lines.push(time_line_of(time));
    lines.push(temperature_line(report.temp.as_str()));
    lines.push(highest_line(report.temp_max.as_str()));
    lines.push(lowest_line(report.temp_min.as_str()));
    lines.push(humidity_line(report.humidity));
    assert(lines.deep_view() =~= report_lines(report@, asked@, time@));
    lines
}

/// The six lines that present `report` to someone who asked for the city
/// `asked`; `None` where the local time of the observation cannot be
/// displayed, as on a clock a day or more off UTC.
pub fn lines(report: &Report, asked: &str) -> (lines: Option<Vec<String>>)
    ensures
        match local_time_text(report@.timezone, report@.dt) {
            Some(time) => lines is Some && lines->Some_0.len() == 6
                && lines->Some_0.deep_view() == report_lines(report@, asked@, time),
            None => lines is None,
        },
        !(-86_400 < report@.timezone < 86_400) ==> lines is None,
{
    match displayed_local_time(report.timezone, report.dt) {
        Some(time) => Some(lines_at(report, asked, time.as_str())),
        None => None,
    }
}

} // verus!
