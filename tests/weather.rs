use std::cell::Cell;
use weather_cli::coordinate::{push_decimal, Coordinate};
use weather_cli::json::{find_member, member};
use weather_cli::request::{Request, RequestError};
use weather_cli::sky_cover::SkyCover;
use weather_cli::weather::{
    get_weather, url, weather_from_body, weather_from_response, Weather, WeatherError,
};

/// A transport that expects one URL and answers it with a fixed reply.
struct StubRequest {
    expected_url: String,
    reply: Result<String, String>,
    calls: Cell<u32>,
}

impl StubRequest {
    fn new(expected_url: String, reply: Result<String, String>) -> Self {
        StubRequest { expected_url, reply, calls: Cell::new(0) }
    }
}

impl Request for StubRequest {
    fn get(&self, url: String) -> Result<String, RequestError> {
        assert_eq!(url, self.expected_url);
        self.calls.set(self.calls.get() + 1);
        match &self.reply {
            Ok(body) => Ok(body.clone()),
            Err(message) => Err(RequestError { message: message.clone() }),
        }
    }
}

fn micro(degrees: f32) -> i64 {
    (degrees as f64 * 1_000_000.0).round() as i64
}

fn decimal(m: i64) -> String {
    let mut s = String::new();
    push_decimal(&mut s, m);
    s
}

#[test]
fn test_get_weather() {
    let result = String::from(
        r#"{"current":{"interval":10,"temperature_2m":10.0,"time":"10","cloud_cover":90,"is_day":1}}"#,
    );
    let url = url(micro(10.0), micro(10.0));
    let mock = StubRequest::new(url, Ok(result));

    let coord = Coordinate { latitude: micro(10.0), longitude: micro(10.0) };

    let result = get_weather(&mock, &coord).expect("Error parsing");
    assert_eq!(result.temperature.parse::<f32>().unwrap(), 10.0);
    assert_eq!(mock.calls.get(), 1);
}

#[test]
fn forecast_url_for_whole_degrees() {
    assert_eq!(
        url(10_000_000, 10_000_000),
        "https://api.open-meteo.com/v1/forecast?latitude=10&longitude=10&current=temperature_2m,cloud_cover,is_day"
    );
}

#[test]
fn forecast_url_with_fractions_and_signs() {
    assert_eq!(
        url(52_520_000, -13_410_500),
        "https://api.open-meteo.com/v1/forecast?latitude=52.52&longitude=-13.4105&current=temperature_2m,cloud_cover,is_day"
    );
}

#[test]
fn decimal_text_of_millionths() {
    assert_eq!(decimal(0), "0");
    assert_eq!(decimal(10_000_000), "10");
    assert_eq!(decimal(-2_500_000), "-2.5");
    assert_eq!(decimal(1), "0.000001");
    assert_eq!(decimal(-120), "-0.00012");
    assert_eq!(decimal(180_000_000), "180");
    assert_eq!(decimal(i64::MIN), "-9223372036854.775808");
    assert_eq!(decimal(i64::MAX), "9223372036854.775807");
}

#[test]
fn decimal_appends_to_existing_text() {
    let mut s = String::from("x=");
    push_decimal(&mut s, 47_606_200);
    assert_eq!(s, "x=47.6062");
}

#[test]
fn stub_reply_gives_mostly_cloudy() {
    let body = r#"{"current":{"temperature_2m":10.0,"cloud_cover":90,"is_day":1}}"#;
    let stub = StubRequest::new(url(10_000_000, 10_000_000), Ok(String::from(body)));
    let coord = Coordinate { latitude: 10_000_000, longitude: 10_000_000 };
    let w = get_weather(&stub, &coord).unwrap();
    assert_eq!(w.temperature, "10.0");
    assert_eq!(w.sky_cover, SkyCover::MostlyCloudy);
    assert_eq!(stub.calls.get(), 1);
}

#[test]
fn non_json_reply_is_parse_failure() {
    let stub = StubRequest::new(url(0, 0), Ok(String::from("<html>busy</html>")));
    let coord = Coordinate { latitude: 0, longitude: 0 };
    assert_eq!(get_weather(&stub, &coord).unwrap_err(), WeatherError::ParseFailure);
}

#[test]
fn missing_field_is_parse_failure() {
    let bodies = [
        r#"{"current":{"temperature_2m":10.0,"cloud_cover":90}}"#,
        r#"{"current":{"cloud_cover":90,"is_day":1}}"#,
        r#"{"current":{"temperature_2m":10.0,"is_day":1}}"#,
        r#"{"latitude":10.0}"#,
        r#"{"current":[1,2,3]}"#,
        r#"[1,2,3]"#,
        "",
    ];
    for body in bodies {
        assert_eq!(weather_from_body(body).unwrap_err(), WeatherError::ParseFailure, "{}", body);
    }
}

#[test]
fn mistyped_field_is_parse_failure() {
    let bodies = [
        r#"{"current":{"temperature_2m":"warm","cloud_cover":90,"is_day":1}}"#,
        r#"{"current":{"temperature_2m":10.0,"cloud_cover":256,"is_day":1}}"#,
        r#"{"current":{"temperature_2m":10.0,"cloud_cover":-1,"is_day":1}}"#,
        r#"{"current":{"temperature_2m":10.0,"cloud_cover":90,"is_day":true}}"#,
        r#"{"current":{"temperature_2m":10.0,"cloud_cover":90.5,"is_day":1}}"#,
    ];
    for body in bodies {
        assert_eq!(weather_from_body(body).unwrap_err(), WeatherError::ParseFailure, "{}", body);
    }
}

#[test]
fn extra_fields_are_ignored() {
    let body = r#"{"latitude":52.52,"current":{"time":"2024-01-01T00:00","interval":900,
        "temperature_2m": -3.5 ,"cloud_cover":20,"is_day":0},"elevation":38.0}"#;
    let w = weather_from_body(body).unwrap();
    assert_eq!(w.temperature, "-3.5");
    assert_eq!(w.sky_cover, SkyCover::MostlyClear);
}

#[test]
fn transport_error_is_transport_failure() {
    let stub = StubRequest::new(url(1, -1), Err(String::from("network unreachable")));
    let coord = Coordinate { latitude: 1, longitude: -1 };
    assert_eq!(get_weather(&stub, &coord).unwrap_err(), WeatherError::TransportFailure);
    assert_eq!(stub.calls.get(), 1);
}

#[test]
fn response_mapping() {
    let failed = weather_from_response(Err(RequestError { message: String::from("timeout") }));
    assert_eq!(failed.unwrap_err(), WeatherError::TransportFailure);
    let body = String::from(r#"{"current":{"temperature_2m":21,"cloud_cover":50,"is_day":1}}"#);
    let w = weather_from_response(Ok(body)).unwrap();
    assert_eq!(w.temperature, "21");
    assert_eq!(w.sky_cover, SkyCover::PartlySunny);
}

#[test]
fn members_by_key() {
    let members = vec![
        (String::from("a"), String::from("1")),
        (String::from("b"), String::from("[2]")),
        (String::from("a"), String::from("3")),
    ];
    assert_eq!(find_member(&members, "a"), Some(String::from("1")));
    assert_eq!(find_member(&members, "b"), Some(String::from("[2]")));
    assert_eq!(find_member(&members, "c"), None);
    assert_eq!(find_member(&Vec::new(), "a"), None);
}

#[test]
fn member_gives_raw_value_text() {
    let text = r#"{ "x" : { "y" : [1, 2] } , "z": "s" }"#;
    assert_eq!(member(text, "x"), Some(String::from(r#"{ "y" : [1, 2] }"#)));
    assert_eq!(member(text, "z"), Some(String::from(r#""s""#)));
    assert_eq!(member(text, "w"), None);
    assert_eq!(member("not json", "x"), None);
    assert_eq!(member("7", "x"), None);
}

#[test]
fn clear_for_low_cover() {
    for c in 0..=10u8 {
        assert_eq!(SkyCover::new(c, 0), SkyCover::Clear);
        assert_eq!(SkyCover::new(c, 1), SkyCover::Clear);
    }
}

#[test]
fn light_cover_depends_on_day() {
    for c in 11..=30u8 {
        assert_eq!(SkyCover::new(c, 1), SkyCover::MostlySunny);
        assert_eq!(SkyCover::new(c, 0), SkyCover::MostlyClear);
    }
}

#[test]
fn partial_cover_depends_on_day() {
    for c in 31..=70u8 {
        assert_eq!(SkyCover::new(c, 1), SkyCover::PartlySunny);
        assert_eq!(SkyCover::new(c, 0), SkyCover::PartlyCloudy);
    }
}

#[test]
fn heavy_cover_ignores_day() {
    for c in 71..=90u8 {
        assert_eq!(SkyCover::new(c, 1), SkyCover::MostlyCloudy);
        assert_eq!(SkyCover::new(c, 0), SkyCover::MostlyCloudy);
    }
}

#[test]
fn full_cover_ignores_day() {
    for c in 91..=100u8 {
        assert_eq!(SkyCover::new(c, 1), SkyCover::Cloudy);
        assert_eq!(SkyCover::new(c, 0), SkyCover::Cloudy);
    }
}

#[test]
fn out_of_range_cover_is_undefined() {
    assert_eq!(SkyCover::new(101, 1), SkyCover::Undefined);
    assert_eq!(SkyCover::new(255, 0), SkyCover::Undefined);
}

#[test]
fn other_day_flags_count_as_night() {
    assert_eq!(SkyCover::new(20, 2), SkyCover::MostlyClear);
    assert_eq!(SkyCover::new(50, 7), SkyCover::PartlyCloudy);
}

#[test]
fn labels() {
    assert_eq!(SkyCover::Cloudy.label(), "cloudy");
    assert_eq!(SkyCover::MostlyCloudy.label(), "mostly cloudy");
    assert_eq!(SkyCover::PartlyCloudy.label(), "partly cloudy");
    assert_eq!(SkyCover::PartlySunny.label(), "partly sunny");
    assert_eq!(SkyCover::MostlySunny.label(), "mostly sunny");
    assert_eq!(SkyCover::MostlyClear.label(), "mostly clear");
    assert_eq!(SkyCover::Clear.label(), "clear");
    assert_eq!(SkyCover::Undefined.label(), "undefined sky cover");
}

#[test]
fn summary_sentence() {
    let w = Weather { temperature: String::from("10.0"), sky_cover: SkyCover::MostlyCloudy };
    assert_eq!(w.summary(), "Currently, the temperature is 10.0 C and the sky is mostly cloudy");
}
