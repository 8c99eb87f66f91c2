//! The decision logic of the two operations.
//!
//! Each operation builds a URL, has the caller fetch and decode it, and
//! maps the outcome to its reply text.  The forecast operation proceeds in
//! two steps: the points lookup yields the forecast-grid URL, and only a
//! successful lookup leads to the second fetch.

use vstd::prelude::*;
use vstd::string::StringExecFns;

use crate::model::AlertResponse;
use crate::model::GridPointsResponse;
use crate::model::PointsResponse;
use crate::render::format_alerts;
use crate::render::format_forecast;
use crate::render::spec_format_alerts;
use crate::render::spec_format_forecast;

verus! {

/// Why a fetch yielded no decoded value: the transport failed, the status
/// was not a success, or the body did not decode as the expected shape.
pub enum FetchError {
    Transport(String),
    Status(u16),
    Decode(String),
}

/// The alerts URL for a state code, the state inserted verbatim.
pub open spec fn alerts_url_chars(state: Seq<char>) -> Seq<char> {
    "https://api.weather.gov/alerts/active?area="@ + state
}

/// The points URL for a coordinate, latitude and longitude inserted
/// verbatim with a comma between them.
pub open spec fn points_url_chars(latitude: Seq<char>, longitude: Seq<char>) -> Seq<char> {
    "https://api.weather.gov/points/"@ + latitude + ","@ + longitude
}

/// Builds the alerts URL for a state code.
pub fn alerts_url(state: &str) -> (r: String)
    ensures
        r@ == alerts_url_chars(state@),
{
    let mut u = String::from_str("https://api.weather.gov/alerts/active?area=");
    u.append(state);
    u
}

/// Builds the points URL for a coordinate.
pub fn points_url(latitude: &str, longitude: &str) -> (r: String)
    ensures
        r@ == points_url_chars(latitude@, longitude@),
{
    let mut u = String::from_str("https://api.weather.gov/points/");
    u.append(latitude);
    u.append(",");
    u.append(longitude);
    proof {
        assert(u@ =~= points_url_chars(latitude@, longitude@));
    }
    u
}

/// The alerts reply for a fetch outcome: the rendered alert list on
/// success, the fixed failure sentence on any failure.
pub fn alerts_reply(outcome: Result<AlertResponse, FetchError>) -> (r: String)
    ensures
        outcome matches Ok(a) ==> r@ == spec_format_alerts(a.features@),
        outcome is Err ==> r@ == "No alerts found or an error occurred."@,
{
    match outcome {
        Ok(a) => format_alerts(&a.features),
        Err(_) => String::from_str("No alerts found or an error occurred."),
    }
}

/// What the forecast operation does next after the points lookup: fetch
/// the forecast-grid URL, or stop with a finished reply.
pub enum ForecastStep {
    FetchForecast(String),
    Reply(String),
}

/// Decides the step after the points lookup.  A failed lookup ends the
/// operation with the fixed failure sentence, so the forecast-grid
/// endpoint is never fetched; a successful one hands back exactly the URL
/// the points response carries.
pub fn forecast_after_points(outcome: Result<PointsResponse, FetchError>) -> (r: ForecastStep)
    ensures
        outcome matches Ok(p) ==> (r matches ForecastStep::FetchForecast(u) && u@
            == p.properties.forecast@),
        outcome is Err ==> (r matches ForecastStep::Reply(m) && m@
            == "No forecast found or an error occurred."@),
{
    match outcome {
        Ok(p) => ForecastStep::FetchForecast(p.properties.forecast),
        Err(_) => ForecastStep::Reply(
            String::from_str("No forecast found or an error occurred."),
        ),
    }
}

/// The forecast reply for the second fetch's outcome: the rendered period
/// list on success, the fixed failure sentence on any failure.
pub fn forecast_after_grid(outcome: Result<GridPointsResponse, FetchError>) -> (r: String)
    ensures
        outcome matches Ok(g) ==> r@ == spec_format_forecast(g.properties.periods@),
        outcome is Err ==> r@ == "No forecast found or an error occurred."@,
{
    match outcome {
        Ok(g) => format_forecast(&g.properties.periods),
        Err(_) => String::from_str("No forecast found or an error occurred."),
    }
}

} // verus!
