//! The weather client's logic: the request URL, the interpretation of the
//! provider's response, and the formatting of the outcome into a reply.
//!
//! The outbound HTTP call itself is I/O and lives outside this crate; the
//! caller hands its outcome — transport failure, or status and body — to
//! `resolve_forecast`. The provider is expected to answer with a JSON object
//! holding the resolved location under `location.name` and a short summary
//! under `headline.overview`.

use vstd::prelude::*;
use crate::embed::{Embed, spec_error_embed, spec_weather_embed, error_embed, weather_embed};
use crate::json::{json_parses, extract_nested_str, spec_json_parses, spec_nested_str};
use crate::text::{spec_decimal, u16_to_decimal};

verus! {

/// One successful weather lookup: the resolved location name and the
/// headline summary.
pub struct Forecast {
    pub location: String,
    pub overview: String,
}

/// The mathematical model of a `Forecast`.
pub ghost struct ForecastView {
    pub location: Seq<char>,
    pub overview: Seq<char>,
}

impl View for Forecast {
    type V = ForecastView;

    open spec fn view(&self) -> ForecastView {
        ForecastView { location: self.location@, overview: self.overview@ }
    }
}

/// Why a weather lookup failed.
pub enum WeatherError {
    /// The provider could not be reached; carries the transport's message.
    Transport(String),
    /// The provider answered with a status outside the 200 range.
    Status(u16),
    /// The provider's body is not valid JSON.
    Malformed,
    /// The body lacks one of the expected fields, or a field is empty.
    MissingField,
}

/// The mathematical model of a `WeatherError`.
pub ghost enum WeatherErrorView {
    Transport(Seq<char>),
    Status(u16),
    Malformed,
    MissingField,
}

impl View for WeatherError {
    type V = WeatherErrorView;

    open spec fn view(&self) -> WeatherErrorView {
        match self {
            WeatherError::Transport(m) => WeatherErrorView::Transport(m@),
            WeatherError::Status(c) => WeatherErrorView::Status(*c),
            WeatherError::Malformed => WeatherErrorView::Malformed,
            WeatherError::MissingField => WeatherErrorView::MissingField,
        }
    }
}

impl WeatherError {
    /// The human-readable message of this failure.
    pub open spec fn spec_message(&self) -> Seq<char> {
        match self {
            WeatherError::Transport(m) => "could not reach the weather provider: "@ + m@,
            WeatherError::Status(c) => "the weather provider returned status "@ + spec_decimal(
                *c as nat,
            ),
            WeatherError::Malformed => "the weather provider sent malformed data"@,
            WeatherError::MissingField => "the weather provider response is missing a field"@,
        }
    }

    pub fn message(&self) -> (s: String)
        ensures
            s@ == self.spec_message(),
    {
        match self {
            WeatherError::Transport(m) => "could not reach the weather provider: ".to_owned()
                .concat(m.as_str()),
            WeatherError::Status(c) => {
                let digits = u16_to_decimal(*c);
                "the weather provider returned status ".to_owned().concat(digits.as_str())
            },
            WeatherError::Malformed => "the weather provider sent malformed data".to_owned(),
            WeatherError::MissingField => "the weather provider response is missing a field"
                .to_owned(),
        }
    }
}

/// The URL of one lookup: the provider base, the API key and the place.
pub open spec fn spec_request_url(base: Seq<char>, api_key: Seq<char>, place: Seq<char>) -> Seq<
    char,
> {
    base + "?key="@ + api_key + "&q="@ + place
}

/// Builds the URL of one lookup.
pub fn request_url(base: &str, api_key: &str, place: &str) -> (u: String)
    ensures
        u@ == spec_request_url(base@, api_key@, place@),
{
    base.to_owned().concat("?key=").concat(api_key).concat("&q=").concat(place)
}

/// What interpreting a provider body owes: the malformed failure exactly
/// when the body is not valid JSON; otherwise the outcome that the strings
/// under `location.name` and `headline.overview` determine — the forecast
/// holding exactly those strings when both are present and non-empty, the
/// missing-field failure otherwise.
pub open spec fn spec_body_outcome(body: Seq<char>, r: Result<Forecast, WeatherError>) -> bool {
    &&& !spec_json_parses(body) ==> (r matches Err(e) && e@ is Malformed)
    &&& spec_json_parses(body) ==> match (
        spec_nested_str(body, "location"@, "name"@),
        spec_nested_str(body, "headline"@, "overview"@),
    ) {
        (Some(l), Some(o)) => if l.len() > 0 && o.len() > 0 {
            r matches Ok(f) && f@ == (ForecastView { location: l, overview: o })
        } else {
            r matches Err(e) && e@ is MissingField
        },
        _ => (r matches Err(e) && e@ is MissingField),
    }
}

/// Decides the outcome of a lookup from the two extracted fields: a
/// forecast exactly when both are present and non-empty, the missing-field
/// failure otherwise.
pub fn forecast_from_fields(location: Option<String>, overview: Option<String>) -> (r: Result<
    Forecast,
    WeatherError,
>)
    ensures
        ({
            match (location, overview) {
                (Some(l), Some(o)) => if l@.len() > 0 && o@.len() > 0 {
                    r matches Ok(f) && f@ == (ForecastView { location: l@, overview: o@ })
                } else {
                    r matches Err(e) && e@ == WeatherErrorView::MissingField
                },
                _ => r matches Err(e) && e@ == WeatherErrorView::MissingField,
            }
        }),
{
    match (location, overview) {
        (Some(l), Some(o)) => {
            if !l.as_str().is_empty() && !o.as_str().is_empty() {
                Ok(Forecast { location: l, overview: o })
            } else {
                Err(WeatherError::MissingField)
            }
        },
        _ => Err(WeatherError::MissingField),
    }
}

/// Interprets a provider body: parses it as JSON, extracts `location.name`
/// and `headline.overview`, and decides the outcome.
pub fn interpret_body(body: &str) -> (r: Result<Forecast, WeatherError>)
    ensures
        spec_body_outcome(body@, r),
{
    if !json_parses(body) {
        Err(WeatherError::Malformed)
    } else {
        let location = extract_nested_str(body, "location", "name");
        let overview = extract_nested_str(body, "headline", "overview");
        forecast_from_fields(location, overview)
    }
}

/// Interprets a provider answer: a status outside the 200 range is that
/// status failure; otherwise the body decides.
pub fn interpret_response(status: u16, body: &str) -> (r: Result<Forecast, WeatherError>)
    ensures
        !(200 <= status < 300) ==> (r matches Err(e) && e@ == WeatherErrorView::Status(status)),
        200 <= status < 300 ==> spec_body_outcome(body@, r),
{
    if status < 200 || status >= 300 {
        Err(WeatherError::Status(status))
    } else {
        interpret_body(body)
    }
}

/// Decides the outcome of a whole lookup from what the transport produced:
/// a transport failure becomes the transport error with its message, an
/// answer is interpreted by status and body. A forecast comes back exactly
/// when the answer is a 2xx whose body holds a non-empty location name and
/// a non-empty headline overview, and it holds those strings; every
/// failure is a typed error, never a panic.
pub fn resolve_forecast(outcome: Result<(u16, String), String>) -> (r: Result<
    Forecast,
    WeatherError,
>)
    ensures
        outcome matches Err(m) ==> (r matches Err(e) && e@ == WeatherErrorView::Transport(m@)),
        outcome matches Ok(p) ==> ({
            if !(200 <= p.0 < 300) {
                r matches Err(e) && e@ == WeatherErrorView::Status(p.0)
            } else {
                spec_body_outcome(p.1@, r)
            }
        }),
        r matches Ok(f) ==> f@.location.len() > 0 && f@.overview.len() > 0,
{
    match outcome {
        Err(m) => Err(WeatherError::Transport(m)),
        Ok((status, body)) => interpret_response(status, body.as_str()),
    }
}

/// Formats the outcome of a lookup into the one reply for the `weather`
/// command: the place in the title on success, the error embed with the
/// failure's message otherwise.
pub fn forecast_reply(place: &str, result: Result<Forecast, WeatherError>) -> (e: Embed)
    ensures
        result matches Ok(f) ==> e@ == spec_weather_embed(place@, f@.location, f@.overview),
        result matches Err(err) ==> e@ == spec_error_embed(err.spec_message()),
{
    match result {
        Ok(f) => weather_embed(place, f.location.as_str(), f.overview.as_str()),
        Err(err) => {
            let m = err.message();
            error_embed(m.as_str())
        },
    }
}

} // verus!
