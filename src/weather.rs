//! The forecast query, and the mapping from the service's reply to a report.
use crate::coordinate::{decimal_text, push_decimal, Coordinate};
use crate::json::{is_json_number, json_u8_of, member, member_of, option_view, parse_number, parse_u8};
use crate::request::{Request, RequestError};
use crate::sky_cover::{label_of, sky_cover_of, SkyCover};
use vstd::prelude::*;

verus! {

pub const WEATHER_SERVICE_API: &'static str = "https://api.open-meteo.com/v1/forecast";

pub const FIELDS_TO_DISPLAY: &'static str = "temperature_2m,cloud_cover,is_day";

/// The current weather at a place.
#[derive(Debug)]
pub struct Weather {
    /// The temperature in degrees Celsius, as the JSON number the service sent.
    pub temperature: String,
    pub sky_cover: SkyCover,
}

/// Why no report could be made.
#[derive(Debug, Clone, Copy, PartialEq, Eq, Structural)]
pub enum WeatherError {
    /// The transport could not fetch the reply.
    TransportFailure,
    /// The reply is not JSON of the expected shape.
    ParseFailure,
}

/// The query for the current temperature, cloud cover and day flag at a place
/// given in millionths of a degree.
pub open spec fn url_of(latitude: int, longitude: int) -> Seq<char> {
    WEATHER_SERVICE_API@ + "?latitude="@ + decimal_text(latitude) + "&longitude="@
        + decimal_text(longitude) + "&current="@ + FIELDS_TO_DISPLAY@
}

/// What a reply holds: the raw temperature text, the cloud cover and the day
/// flag of its "current" object; `None` where one is missing or malformed.
pub open spec fn payload_of(body: Seq<char>) -> Option<(Seq<char>, u8, u8)> {
    match member_of(body, "current"@) {
        Some(current) => match (
            member_of(current, "temperature_2m"@),
            member_of(current, "cloud_cover"@),
            member_of(current, "is_day"@),
        ) {
            (Some(t), Some(c), Some(d)) => match (json_u8_of(c), json_u8_of(d)) {
                (Some(cloud_cover), Some(is_day)) => if is_json_number(t) {
                    Some((t, cloud_cover, is_day))
                } else {
                    None
                },
                _ => None,
            },
            _ => None,
        },
        None => None,
    }
}

/// The outcome owed for a reply body.
pub open spec fn body_result(body: Seq<char>, r: Result<Weather, WeatherError>) -> bool {
    match payload_of(body) {
        Some((t, c, d)) => r matches Ok(w) && w.temperature@ == t && w.sky_cover == sky_cover_of(
            c as int,
            d as int,
        ),
        None => r matches Err(e) && e == WeatherError::ParseFailure,
    }
}

/// The outcome owed for what the transport handed back.
pub open spec fn response_result(
    response: Result<String, RequestError>,
    r: Result<Weather, WeatherError>,
) -> bool {
    match response {
        Ok(body) => body_result(body@, r),
        Err(_) => r matches Err(e) && e == WeatherError::TransportFailure,
    }
}

/// The forecast query for a place given in millionths of a degree.
pub fn url(latitude: i64, longitude: i64) -> (r: String)
    ensures
        r@ == url_of(latitude as int, longitude as int),
{
    let mut s = String::from_str(WEATHER_SERVICE_API);
    s.append("?latitude=");
    push_decimal(&mut s, latitude);
    s.append("&longitude=");
    push_decimal(&mut s, longitude);
    s.append("&current=");
    s.append(FIELDS_TO_DISPLAY);
    s
}

/// Reads a reply body into a report.
pub fn weather_from_body(body: &str) -> (r: Result<Weather, WeatherError>)
    ensures
        body_result(body@, r),
{
    let current = match member(body, "current") {
        Some(c) => c,
        None => return Err(WeatherError::ParseFailure),
    };
    let temperature = member(current.as_str(), "temperature_2m");
    let cloud_cover = member(current.as_str(), "cloud_cover");
    let is_day = member(current.as_str(), "is_day");
    match (temperature, cloud_cover, is_day) {
        (Some(t), Some(c), Some(d)) => match (parse_u8(c.as_str()), parse_u8(d.as_str())) {
            (Some(cloud_cover), Some(is_day)) => {
                if parse_number(t.as_str()) {
                    Ok(Weather { temperature: t, sky_cover: SkyCover::new(cloud_cover, is_day) })
                } else {
                    Err(WeatherError::ParseFailure)
                }
            },
            _ => Err(WeatherError::ParseFailure),
        },
        _ => Err(WeatherError::ParseFailure),
    }
}

/// Maps what the transport handed back to a report: a failed fetch is a
/// transport failure and nothing is parsed; a body is read as a reply.
pub fn weather_from_response(response: Result<String, RequestError>) -> (r: Result<
    Weather,
    WeatherError,
>)
    ensures
        response_result(response, r),
{
    match response {
        Ok(body) => weather_from_body(body.as_str()),
        Err(_) => Err(WeatherError::TransportFailure),
    }
}

/// Fetches the current weather at `coord` through `request`, which is asked
/// for `url(coord.latitude, coord.longitude)` once.
pub fn get_weather<R: Request>(request: &R, coord: &Coordinate) -> (r: Result<Weather, WeatherError>)
    ensures
        exists|response: Result<String, RequestError>| response_result(response, r),
{
    let query = url(coord.latitude, coord.longitude);
    let response = request.get(query);
    let ghost fetched = response;
    let r = weather_from_response(response);
    assert(response_result(fetched, r));
    r
}

impl Weather {
    /// The sentence reported to the user.
    pub fn summary(&self) -> (r: String)
        ensures
            r@ == "Currently, the temperature is "@ + self.temperature@ + " C and the sky is "@
                + label_of(self.sky_cover),
    {
        let mut s = String::from_str("Currently, the temperature is ");
        s.append(self.temperature.as_str());
        s.append(" C and the sky is ");
        s.append(self.sky_cover.label().as_str());
        s
    }
}

} // verus!
