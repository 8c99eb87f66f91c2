//! Weather summaries over the National Weather Service REST API.
//!
//! The library holds the request-scoped data model, the plain-text
//! rendering of alerts and forecasts, and the decision logic of the two
//! operations (`get_alerts`, `get_forecast`).  The HTTP transport and the
//! JSON decoding live outside the library and hand it plain values.

pub mod flow;
pub mod model;
pub mod render;
pub mod text;
