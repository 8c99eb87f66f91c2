//! The request-scoped data model: every entity is built from one upstream
//! JSON response and is immutable once constructed.

use vstd::prelude::*;

verus! {

/// The displayed properties of one active alert.
#[derive(Debug, Clone)]
pub struct FeatureProps {
    pub event: String,
    pub area_desc: String,
    pub severity: String,
    pub status: String,
    pub headline: String,
}

/// One alert record of the alerts endpoint's response.
#[derive(Debug, Clone)]
pub struct Feature {
    pub properties: FeatureProps,
}

/// The alerts endpoint's response: the list of active alerts.
#[derive(Debug, Clone)]
pub struct AlertResponse {
    pub features: Vec<Feature>,
}

/// The metadata the points endpoint yields for a coordinate.
#[derive(Debug, Clone)]
pub struct PointsProps {
    pub forecast: String,
}

/// The points endpoint's response.
#[derive(Debug, Clone)]
pub struct PointsResponse {
    pub properties: PointsProps,
}

/// One forecast time window.
#[derive(Debug, Clone)]
pub struct Period {
    pub name: String,
    pub temperature: i32,
    pub temperature_unit: String,
    pub wind_speed: String,
    pub wind_direction: String,
    pub short_forecast: String,
}

/// The forecast-grid endpoint's payload: the list of periods.
#[derive(Debug, Clone)]
pub struct GridPointsProps {
    pub periods: Vec<Period>,
}

/// The forecast-grid endpoint's response.
#[derive(Debug, Clone)]
pub struct GridPointsResponse {
    pub properties: GridPointsProps,
}

/// The argument of the alerts operation.
#[derive(Debug, Clone)]
pub struct GetAlertsRequest {
    pub state: String,
}

/// The argument of the forecast operation.
#[derive(Debug, Clone)]
pub struct GetForecastRequest {
    pub latitude: String,
    pub longitude: String,
}

/// A coordinate handed to the points endpoint.
#[derive(Debug, Clone)]
pub struct PointsRequest {
    pub latitude: String,
    pub longitude: String,
}

} // verus!
