//! The forecast stage: the query sent for the selected place, the reading
//! that comes back, and the answer made of both.

use vstd::prelude::*;
use crate::geocode::{GeoCandidate, Place};

verus! {

/// A measured value, held as the bit pattern of an IEEE 754 double. The
/// library hands measures on and never computes with them.
#[derive(Clone, Copy, Debug, PartialEq, Eq, Structural)]
pub struct Measure {
    pub bits: u64,
}

/// Current conditions as the forecast service reports them: temperature in
/// degrees Celsius, wind speed, and the service's own code for the kind of
/// weather.
#[derive(Clone, Copy, Debug, PartialEq, Eq, Structural)]
pub struct WeatherReading {
    pub temperature: Measure,
    pub wind_speed: Measure,
    pub weather_code: u8,
}

impl DeepView for WeatherReading {
    type V = WeatherReading;

    open spec fn deep_view(&self) -> WeatherReading {
        *self
    }
}

/// The answer to a lookup: where the weather was read, and the reading.
#[derive(Debug, PartialEq, Eq)]
pub struct WeatherResponse {
    pub location: String,
    pub temperature: Measure,
    pub wind_speed: Measure,
    pub weather_code: u8,
}

/// What a [`WeatherResponse`] holds, with the location as a sequence of
/// characters.
pub ghost struct Report {
    pub location: Seq<char>,
    pub temperature: Measure,
    pub wind_speed: Measure,
    pub weather_code: u8,
}

impl View for WeatherResponse {
    type V = Report;

    open spec fn view(&self) -> Report {
        Report {
            location: self.location@,
            temperature: self.temperature,
            wind_speed: self.wind_speed,
            weather_code: self.weather_code,
        }
    }
}

impl DeepView for WeatherResponse {
    type V = Report;

    open spec fn deep_view(&self) -> Report {
        self.view()
    }
}

/// The address of the current-conditions query for a place.
pub open spec fn forecast_query(place: Place) -> Seq<char> {
    "https://api.open-meteo.com/v1/forecast?latitude="@ + place.latitude + "&longitude="@
        + place.longitude + "&current_weather=true"@
}

/// Builds the address of the current-conditions query for a candidate, from
/// its coordinates as they stand.
pub fn forecast_url(place: &GeoCandidate) -> (url: String)
    ensures
        url@ == forecast_query(place@),
{
    let mut url = String::from_str("https://api.open-meteo.com/v1/forecast?latitude=");
    url.append(place.latitude.as_str());
    url.append("&longitude=");
    url.append(place.longitude.as_str());
    url.append("&current_weather=true");
    url
}

/// How a place is named in an answer: its display name, a comma and a space,
/// and its country.
pub open spec fn label(place: Place) -> Seq<char> {
    place.display_name + ", "@ + place.country
}

/// The answer for a place and the reading taken there: the place's label, and
/// the three values of the reading unchanged.
pub open spec fn report(place: Place, reading: WeatherReading) -> Report {
    Report {
        location: label(place),
        temperature: reading.temperature,
        wind_speed: reading.wind_speed,
        weather_code: reading.weather_code,
    }
}

/// Makes the answer for the selected candidate and the reading taken there.
pub fn compose(place: &GeoCandidate, reading: WeatherReading) -> (response: WeatherResponse)
    ensures
        response@ == report(place@, reading),
{
    let mut location = place.display_name.clone();
    location.append(", ");
    location.append(place.country.as_str());
    WeatherResponse {
        location,
        temperature: reading.temperature,
        wind_speed: reading.wind_speed,
        weather_code: reading.weather_code,
    }
}

} // verus!
