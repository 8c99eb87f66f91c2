use weather::model::Feature;
use weather::model::FeatureProps;
use weather::model::Period;
use weather::render::format_alerts;
use weather::render::format_forecast;
use weather::text::push_int;
use weather::text::push_uint;

fn alert(event: &str, area: &str, severity: &str, status: &str, headline: &str) -> Feature {
    Feature {
        properties: FeatureProps {
            event: event.to_string(),
            area_desc: area.to_string(),
            severity: severity.to_string(),
            status: status.to_string(),
            headline: headline.to_string(),
        },
    }
}

fn period(
    name: &str,
    temperature: i32,
    unit: &str,
    wind_speed: &str,
    wind_direction: &str,
    short_forecast: &str,
) -> Period {
    Period {
        name: name.to_string(),
        temperature,
        temperature_unit: unit.to_string(),
        wind_speed: wind_speed.to_string(),
        wind_direction: wind_direction.to_string(),
        short_forecast: short_forecast.to_string(),
    }
}

#[test]
fn empty_alert_list_yields_fixed_sentence() {
    let out = format_alerts(&vec![]);
    assert_eq!(out, "No active alerts found.");
}

#[test]
fn empty_period_list_yields_fixed_sentence() {
    let out = format_forecast(&vec![]);
    assert_eq!(out, "No forecast data available.");
}

#[test]
fn one_alert_one_block() {
    let alerts = vec![alert(
        "Flood Warning",
        "Sacramento County",
        "Severe",
        "Actual",
        "Flooding expected",
    )];
    let out = format_alerts(&alerts);
    assert_eq!(
        out,
        "Event: Flood Warning\nArea: Sacramento County\nSeverity: Severe\nStatus: Actual\nHeadline: Flooding expected\n---\n"
    );
}

#[test]
fn two_alerts_two_blocks_in_input_order() {
    let alerts = vec![
        alert("Heat Advisory", "Yuma County", "Moderate", "Actual", "Hot afternoon"),
        alert("Dust Storm", "Pinal County", "Severe", "Actual", "Blowing dust"),
    ];
    let out = format_alerts(&alerts);
    let expected = "Event: Heat Advisory\nArea: Yuma County\nSeverity: Moderate\nStatus: Actual\nHeadline: Hot afternoon\n---\nEvent: Dust Storm\nArea: Pinal County\nSeverity: Severe\nStatus: Actual\nHeadline: Blowing dust\n---\n";
    assert_eq!(out, expected);
    assert_eq!(out.lines().filter(|l| *l == "---").count(), 2);
}

#[test]
fn two_periods_exact_template() {
    let periods = vec![
        period("Tonight", 40, "F", "5 mph", "NW", "Clear"),
        period("Tomorrow", 55, "F", "10 mph", "SW", "Sunny"),
    ];
    let out = format_forecast(&periods);
    let expected = "Name: Tonight\nTemperature: 40\u{00B0}F\nWind: 5 mph NW\nForecast: Clear\n---\nName: Tomorrow\nTemperature: 55\u{00B0}F\nWind: 10 mph SW\nForecast: Sunny\n---\n";
    assert_eq!(out, expected);
}

#[test]
fn negative_temperature_keeps_sign_before_digits() {
    let periods = vec![period("Tonight", -12, "C", "3 km/h", "N", "Snow")];
    let out = format_forecast(&periods);
    assert_eq!(
        out,
        "Name: Tonight\nTemperature: -12\u{00B0}C\nWind: 3 km/h N\nForecast: Snow\n---\n"
    );
}

#[test]
fn decimal_rendering_edges() {
    let mut s = String::new();
    push_int(&mut s, 0);
    assert_eq!(s, "0");

    let mut s = String::new();
    push_int(&mut s, i32::MIN);
    assert_eq!(s, "-2147483648");

    let mut s = String::new();
    push_int(&mut s, i32::MAX);
    assert_eq!(s, "2147483647");

    let mut s = String::new();
    push_uint(&mut s, u64::MAX);
    assert_eq!(s, "18446744073709551615");

    let mut s = "x".to_string();
    push_uint(&mut s, 10);
    assert_eq!(s, "x10");
}
