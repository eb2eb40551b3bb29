//! The weather report of one city.

use vstd::prelude::*;

verus! {

/// What the service reports for one city, as far as it is presented.
///
/// A temperature is held as the decimal numeral of its value in degrees
/// Celsius, which is the only form in which it is ever used.
#[derive(Clone, Debug, PartialEq, Eq)]
pub struct Report {
    /// The city's name as the service spells it.
    pub name: String,
    /// Seconds to add to a UTC time to get the city's local time.
    pub timezone: i32,
    /// When the observation was made, in seconds since the Unix epoch.
    pub dt: i64,
    /// The current temperature.
    pub temp: String,
    /// The highest temperature observed at the moment.
    pub temp_max: String,
    /// The lowest temperature observed at the moment.
    pub temp_min: String,
    /// Relative humidity, in percent.
    pub humidity: u32,
}

/// A report as a mathematical value.
pub ghost struct ReportView {
    pub name: Seq<char>,
    pub timezone: int,
    pub dt: int,
    pub temp: Seq<char>,
    pub temp_max: Seq<char>,
    pub temp_min: Seq<char>,
    pub humidity: nat,
}

impl View for Report {
    type V = ReportView;

    open spec fn view(&self) -> ReportView {
        ReportView {
            name: self.name@,
            timezone: self.timezone as int,
            dt: self.dt as int,
            temp: self.temp@,
            temp_max: self.temp_max@,
            temp_min: self.temp_min@,
            humidity: self.humidity as nat,
        }
    }
}

} // verus!
