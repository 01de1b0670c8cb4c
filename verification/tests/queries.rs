use weather_lookup::forecast::{compose, forecast_url, Measure, WeatherReading};
use weather_lookup::geocode::{geocode_url, GeoCandidate, WeatherRequest};

fn measure(value: f64) -> Measure {
    Measure { bits: value.to_bits() }
}

fn paris() -> GeoCandidate {
    GeoCandidate {
        latitude: String::from("48.85341"),
        longitude: String::from("2.3488"),
        display_name: String::from("Paris"),
        country: String::from("France"),
    }
}

#[test]
fn a_request_needs_a_city() {
    assert_eq!(WeatherRequest::from_query(None, None), None);
    assert_eq!(WeatherRequest::from_query(None, Some(String::from("FR"))), None);
}

#[test]
fn a_request_needs_a_city_that_is_not_empty() {
    assert_eq!(WeatherRequest::from_query(Some(String::new()), None), None);
    let country = Some(String::from("FR"));
    assert_eq!(WeatherRequest::from_query(Some(String::new()), country), None);
}

#[test]
fn a_request_keeps_its_parameters() {
    let plain = WeatherRequest::from_query(Some(String::from("Paris")), None);
    assert_eq!(plain, Some(WeatherRequest { city: String::from("Paris"), country: None }));
    let country = Some(String::from("FR"));
    let narrowed = WeatherRequest::from_query(Some(String::from("Paris")), country);
    assert_eq!(
        narrowed,
        Some(WeatherRequest { city: String::from("Paris"), country: Some(String::from("FR")) })
    );
    let blank_country = WeatherRequest::from_query(Some(String::from("x")), Some(String::new()));
    assert_eq!(
        blank_country,
        Some(WeatherRequest { city: String::from("x"), country: Some(String::new()) })
    );
}

#[test]
fn geocode_url_without_a_country() {
    let request = WeatherRequest { city: String::from("Paris"), country: None };
    assert_eq!(geocode_url(&request), "https://geocoding-api.open-meteo.com/v1/search?name=Paris");
}

#[test]
fn geocode_url_with_a_country() {
    let request = WeatherRequest {
        city: String::from("Paris"),
        country: Some(String::from("FR")),
    };
    assert_eq!(
        geocode_url(&request),
        "https://geocoding-api.open-meteo.com/v1/search?name=Paris&country=FR"
    );
}

#[test]
fn geocode_url_writes_the_parameters_as_they_came() {
    let request = WeatherRequest {
        city: String::from("New York"),
        country: Some(String::new()),
    };
    assert_eq!(
        geocode_url(&request),
        "https://geocoding-api.open-meteo.com/v1/search?name=New York&country="
    );
}

#[test]
fn forecast_url_holds_the_coordinates() {
    assert_eq!(
        forecast_url(&paris()),
        "https://api.open-meteo.com/v1/forecast\
         ?latitude=48.85341&longitude=2.3488&current_weather=true"
    );
}

#[test]
fn forecast_url_keeps_signs_and_order() {
    let lima = GeoCandidate {
        latitude: String::from("-12.04318"),
        longitude: String::from("-77.02824"),
        display_name: String::from("Lima"),
        country: String::from("Peru"),
    };
    assert_eq!(
        forecast_url(&lima),
        "https://api.open-meteo.com/v1/forecast\
         ?latitude=-12.04318&longitude=-77.02824&current_weather=true"
    );
}

#[test]
fn compose_labels_the_place_and_copies_the_reading() {
    let reading = WeatherReading {
        temperature: measure(21.5),
        wind_speed: measure(10.2),
        weather_code: 3,
    };
    let response = compose(&paris(), reading);
    assert_eq!(response.location, "Paris, France");
    assert_eq!(f64::from_bits(response.temperature.bits), 21.5);
    assert_eq!(f64::from_bits(response.wind_speed.bits), 10.2);
    assert_eq!(response.weather_code, 3);
}

#[test]
fn compose_changes_no_bit_of_a_measure() {
    let reading = WeatherReading {
        temperature: measure(-0.0),
        wind_speed: Measure { bits: 0x7ff8_0000_0000_1234 },
        weather_code: 255,
    };
    let response = compose(&paris(), reading);
    assert_eq!(response.temperature, reading.temperature);
    assert_eq!(response.temperature.bits, 0x8000_0000_0000_0000);
    assert_eq!(response.wind_speed.bits, 0x7ff8_0000_0000_1234);
    assert_eq!(response.weather_code, 255);
}

#[test]
fn compose_with_empty_names() {
    let nowhere = GeoCandidate {
        latitude: String::from("0"),
        longitude: String::from("0"),
        display_name: String::new(),
        country: String::new(),
    };
    let reading = WeatherReading {
        temperature: measure(0.0),
        wind_speed: measure(0.0),
        weather_code: 0,
    };
    assert_eq!(compose(&nowhere, reading).location, ", ");
}
