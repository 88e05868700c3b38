use kamela_bot::weather::{
    forecast_reply, interpret_response, request_url, resolve_forecast, Forecast, WeatherError,
};

#[test]
fn successful_lookup_yields_nonempty_forecast() {
    let body = "{\"location\":{\"name\":\"London\"},\"headline\":{\"overview\":\"Cloudy with a chance of rain\"}}";
    match resolve_forecast(Ok((200, body.to_string()))) {
        Ok(f) => {
            assert_eq!(f.location, "London");
            assert_eq!(f.overview, "Cloudy with a chance of rain");
            assert!(!f.location.is_empty());
            assert!(!f.overview.is_empty());
        }
        Err(_) => panic!("a well-formed answer must yield a forecast"),
    }
}

#[test]
fn extra_fields_and_order_do_not_matter() {
    let body = "{\"units\":\"metric\",\"headline\":{\"overview\":\"Sunny\",\"severity\":1},\"location\":{\"country\":\"FR\",\"name\":\"Paris\"}}";
    match interpret_response(204, body) {
        Ok(f) => {
            assert_eq!(f.location, "Paris");
            assert_eq!(f.overview, "Sunny");
        }
        Err(_) => panic!("extra fields must not break the interpretation"),
    }
}

#[test]
fn transport_failure_is_typed() {
    match resolve_forecast(Err("connection refused".to_string())) {
        Err(WeatherError::Transport(m)) => assert_eq!(m, "connection refused"),
        _ => panic!("a transport failure must surface as the transport error"),
    }
}

#[test]
fn non_success_status_is_typed() {
    match resolve_forecast(Ok((404, "{}".to_string()))) {
        Err(WeatherError::Status(c)) => assert_eq!(c, 404),
        _ => panic!("a non-2xx status must surface as the status error"),
    }
    match interpret_response(500, "ignored") {
        Err(WeatherError::Status(c)) => assert_eq!(c, 500),
        _ => panic!("a non-2xx status must surface as the status error"),
    }
}

#[test]
fn invalid_json_is_malformed() {
    match resolve_forecast(Ok((200, "not json".to_string()))) {
        Err(WeatherError::Malformed) => {}
        _ => panic!("an unparsable body must surface as malformed"),
    }
}

#[test]
fn missing_fields_are_typed() {
    match interpret_response(200, "{\"location\":{\"name\":\"London\"}}") {
        Err(WeatherError::MissingField) => {}
        _ => panic!("a body without a headline must surface as a missing field"),
    }
    match interpret_response(200, "{\"location\":\"London\",\"headline\":{\"overview\":\"Sunny\"}}") {
        Err(WeatherError::MissingField) => {}
        _ => panic!("a location that is not an object must surface as a missing field"),
    }
    match interpret_response(200, "{\"location\":{\"name\":\"London\"},\"headline\":{\"overview\":5}}") {
        Err(WeatherError::MissingField) => {}
        _ => panic!("an overview that is not a string must surface as a missing field"),
    }
}

#[test]
fn empty_fields_are_missing() {
    match interpret_response(200, "{\"location\":{\"name\":\"\"},\"headline\":{\"overview\":\"Sunny\"}}") {
        Err(WeatherError::MissingField) => {}
        _ => panic!("an empty location must surface as a missing field"),
    }
    match interpret_response(200, "{\"location\":{\"name\":\"London\"},\"headline\":{\"overview\":\"\"}}") {
        Err(WeatherError::MissingField) => {}
        _ => panic!("an empty overview must surface as a missing field"),
    }
}

#[test]
fn error_messages() {
    assert_eq!(
        WeatherError::Status(404).message(),
        "the weather provider returned status 404"
    );
    assert_eq!(
        WeatherError::Transport("timed out".to_string()).message(),
        "could not reach the weather provider: timed out"
    );
    assert_eq!(
        WeatherError::Malformed.message(),
        "the weather provider sent malformed data"
    );
    assert_eq!(
        WeatherError::MissingField.message(),
        "the weather provider response is missing a field"
    );
}

#[test]
fn weather_reply_success_carries_place_in_title() {
    let f = Forecast {
        location: "London".to_string(),
        overview: "Cloudy".to_string(),
    };
    let e = forecast_reply("london", Ok(f));
    assert_eq!(e.title, "Weather: london");
    assert!(e.title.contains("london"));
    assert_eq!(e.description, "Forecast: Cloudy in London");
    assert_eq!(e.colour, 0xDFFF00);
    assert_eq!(e.footer, "Kamela Bot v0.1.0");
}

#[test]
fn weather_reply_failure_is_error_embed() {
    let e = forecast_reply("london", Err(WeatherError::Status(500)));
    assert_eq!(e.title, "Error!");
    assert_eq!(e.description, "Error: the weather provider returned status 500");
    assert_eq!(e.colour, 0xFF0037);
}

#[test]
fn request_url_concatenation() {
    assert_eq!(
        request_url("https://api.example.com/forecast", "KEY", "London"),
        "https://api.example.com/forecast?key=KEY&q=London"
    );
}
