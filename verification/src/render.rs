//! Plain-text rendering of alerts and forecast periods.
//!
//! Each record becomes one block of labelled lines terminated by a line
//! `---`; a reply is the concatenation of the blocks in input order, or a
//! fixed sentence when the list is empty.

use vstd::prelude::*;
use vstd::string::StringExecFns;

use crate::model::Feature;
use crate::model::FeatureProps;
use crate::model::Period;
use crate::text::int_chars;
use crate::text::push_int;

verus! {

/// The block of text that displays one alert.
pub open spec fn alert_block(p: FeatureProps) -> Seq<char> {
    "Event: "@ + p.event@ + "\nArea: "@ + p.area_desc@ + "\nSeverity: "@ + p.severity@
        + "\nStatus: "@ + p.status@ + "\nHeadline: "@ + p.headline@ + "\n---\n"@
}

/// The block of text that displays one forecast period.  The degree sign
/// stands directly before the temperature unit, with no space between.
pub open spec fn period_block(p: Period) -> Seq<char> {
    "Name: "@ + p.name@ + "\nTemperature: "@ + int_chars(p.temperature as int) + "\u{00B0}"@
        + p.temperature_unit@ + "\nWind: "@ + p.wind_speed@ + " "@ + p.wind_direction@
        + "\nForecast: "@ + p.short_forecast@ + "\n---\n"@
}

/// The concatenation of the alert blocks, in input order.
pub open spec fn alert_cat(s: Seq<Feature>) -> Seq<char>
    decreases s.len(),
{
    if s.len() == 0 {
        Seq::empty()
    } else {
        alert_cat(s.drop_last()) + alert_block(s.last().properties)
    }
}

/// The concatenation of the period blocks, in input order.
pub open spec fn period_cat(s: Seq<Period>) -> Seq<char>
    decreases s.len(),
{
    if s.len() == 0 {
        Seq::empty()
    } else {
        period_cat(s.drop_last()) + period_block(s.last())
    }
}

/// What the alerts operation displays for a decoded alert list.
pub open spec fn spec_format_alerts(s: Seq<Feature>) -> Seq<char> {
    if s.len() == 0 {
        "No active alerts found."@
    } else {
        alert_cat(s)
    }
}

/// What the forecast operation displays for a decoded period list.
pub open spec fn spec_format_forecast(s: Seq<Period>) -> Seq<char> {
    if s.len() == 0 {
        "No forecast data available."@
    } else {
        period_cat(s)
    }
}

/// Every alert block is terminated by a line `---`: its last four
/// characters are `---` followed by a newline.
pub proof fn lemma_alert_block_terminated(p: FeatureProps)
    ensures
        alert_block(p).len() >= 4,
        alert_block(p).subrange(alert_block(p).len() - 4, alert_block(p).len() as int) == "---\n"@,
{
    reveal_strlit("\n---\n");
    reveal_strlit("---\n");
    assert(alert_block(p).subrange(alert_block(p).len() - 4, alert_block(p).len() as int)
        =~= "---\n"@);
}

/// Every period block is terminated by a line `---`: its last four
/// characters are `---` followed by a newline.
pub proof fn lemma_period_block_terminated(p: Period)
    ensures
        period_block(p).len() >= 4,
        period_block(p).subrange(period_block(p).len() - 4, period_block(p).len() as int)
            == "---\n"@,
{
    reveal_strlit("\n---\n");
    reveal_strlit("---\n");
    assert(period_block(p).subrange(period_block(p).len() - 4, period_block(p).len() as int)
        =~= "---\n"@);
}

/// The concatenation of the alert blocks is the flattening of the
/// sequence of blocks taken in input order.
proof fn lemma_alert_cat_is_flatten(s: Seq<Feature>)
    ensures
        alert_cat(s) == s.map_values(|a: Feature| alert_block(a.properties)).flatten(),
    decreases s.len(),
{
    let f = |a: Feature| alert_block(a.properties);
    if s.len() == 0 {
        assert(s.map_values(f) =~= Seq::<Seq<char>>::empty());
        assert(alert_cat(s) =~= s.map_values(f).flatten());
    } else {
        lemma_alert_cat_is_flatten(s.drop_last());
        assert(s.drop_last().map_values(f).push(f(s.last())) =~= s.map_values(f));
        s.drop_last().map_values(f).lemma_flatten_push(f(s.last()));
        assert(alert_cat(s) =~= s.map_values(f).flatten());
    }
}

/// The concatenation of the period blocks is the flattening of the
/// sequence of blocks taken in input order.
proof fn lemma_period_cat_is_flatten(s: Seq<Period>)
    ensures
        period_cat(s) == s.map_values(|p: Period| period_block(p)).flatten(),
    decreases s.len(),
{
    let f = |p: Period| period_block(p);
    if s.len() == 0 {
        assert(s.map_values(f) =~= Seq::<Seq<char>>::empty());
        assert(period_cat(s) =~= s.map_values(f).flatten());
    } else {
        lemma_period_cat_is_flatten(s.drop_last());
        assert(s.drop_last().map_values(f).push(f(s.last())) =~= s.map_values(f));
        s.drop_last().map_values(f).lemma_flatten_push(f(s.last()));
        assert(period_cat(s) =~= s.map_values(f).flatten());
    }
}

/// For a non-empty alert list of N items the displayed text is exactly the
/// flattening of N blocks, the block at position i displaying the alert at
/// position i, each block terminated by a line `---`.
pub proof fn lemma_alerts_output_blocks(s: Seq<Feature>)
    requires
        s.len() > 0,
    ensures
        ({
            let blocks = s.map_values(|a: Feature| alert_block(a.properties));
            &&& blocks.len() == s.len()
            &&& spec_format_alerts(s) == blocks.flatten()
            &&& forall|i: int|
                0 <= i < blocks.len() ==> (#[trigger] blocks[i]) == alert_block(s[i].properties)
            &&& forall|i: int|
                0 <= i < blocks.len() ==> (#[trigger] blocks[i]).len() >= 4 && blocks[i].subrange(
                    blocks[i].len() - 4,
                    blocks[i].len() as int,
                ) == "---\n"@
        }),
{
    lemma_alert_cat_is_flatten(s);
    let blocks = s.map_values(|a: Feature| alert_block(a.properties));
    assert forall|i: int| 0 <= i < blocks.len() implies (#[trigger] blocks[i]).len() >= 4
        && blocks[i].subrange(blocks[i].len() - 4, blocks[i].len() as int) == "---\n"@ by {
        lemma_alert_block_terminated(s[i].properties);
    }
}

/// For a non-empty period list of N items the displayed text is exactly
/// the flattening of N blocks, the block at position i displaying the
/// period at position i, each block terminated by a line `---`.
pub proof fn lemma_forecast_output_blocks(s: Seq<Period>)
    requires
        s.len() > 0,
    ensures
        ({
            let blocks = s.map_values(|p: Period| period_block(p));
            &&& blocks.len() == s.len()
            &&& spec_format_forecast(s) == blocks.flatten()
            &&& forall|i: int|
                0 <= i < blocks.len() ==> (#[trigger] blocks[i]) == period_block(s[i])
            &&& forall|i: int|
                0 <= i < blocks.len() ==> (#[trigger] blocks[i]).len() >= 4 && blocks[i].subrange(
                    blocks[i].len() - 4,
                    blocks[i].len() as int,
                ) == "---\n"@
        }),
{
    lemma_period_cat_is_flatten(s);
    let blocks = s.map_values(|p: Period| period_block(p));
    assert forall|i: int| 0 <= i < blocks.len() implies (#[trigger] blocks[i]).len() >= 4
        && blocks[i].subrange(blocks[i].len() - 4, blocks[i].len() as int) == "---\n"@ by {
        lemma_period_block_terminated(s[i]);
    }
}

/// Appends the block for one alert to `out`.
fn push_alert(out: &mut String, a: &Feature)
    ensures
        final(out)@ == old(out)@ + alert_block(a.properties),
{
    out.append("Event: ");
    out.append(a.properties.event.as_str());
    out.append("\nArea: ");
    out.append(a.properties.area_desc.as_str());
    out.append("\nSeverity: ");
    out.append(a.properties.severity.as_str());
    out.append("\nStatus: ");
    out.append(a.properties.status.as_str());
    out.append("\nHeadline: ");
    out.append(a.properties.headline.as_str());
    out.append("\n---\n");
    proof {
        assert(out@ =~= old(out)@ + alert_block(a.properties));
    }
}

/// Appends the block for one forecast period to `out`.
fn push_period(out: &mut String, p: &Period)
    ensures
        final(out)@ == old(out)@ + period_block(*p),
{
    out.append("Name: ");
    out.append(p.name.as_str());
    out.append("\nTemperature: ");
    push_int(out, p.temperature);
    out.append("\u{00B0}");
    out.append(p.temperature_unit.as_str());
    out.append("\nWind: ");
    out.append(p.wind_speed.as_str());
    out.append(" ");
    out.append(p.wind_direction.as_str());
    out.append("\nForecast: ");
    out.append(p.short_forecast.as_str());
    out.append("\n---\n");
    proof {
        assert(out@ =~= old(out)@ + period_block(*p));
    }
}

/// Renders the alert list: one block per alert in input order, or the
/// fixed sentence when the list is empty.
pub fn format_alerts(alerts: &Vec<Feature>) -> (r: String)
    ensures
        r@ == spec_format_alerts(alerts@),
{
    if alerts.len() == 0 {
        return String::from_str("No active alerts found.");
    }
    let mut result = String::new();
    let mut i: usize = 0;
    while i < alerts.len()
        invariant
            i <= alerts.len(),
            result@ == alert_cat(alerts@.take(i as int)),
        decreases alerts.len() - i,
    {
        push_alert(&mut result, &alerts[i]);
        proof {
            let t = alerts@.take(i + 1 as int);
            assert(t.drop_last() =~= alerts@.take(i as int));
            assert(t.last() == alerts@[i as int]);
        }
        i = i + 1;
    }
    proof {
        assert(alerts@.take(alerts.len() as int) =~= alerts@);
    }
    result
}

/// Renders the period list: one block per period in input order, or the
/// fixed sentence when the list is empty.
pub fn format_forecast(periods: &Vec<Period>) -> (r: String)
    ensures
        r@ == spec_format_forecast(periods@),
{
    if periods.len() == 0 {
        return String::from_str("No forecast data available.");
    }
    let mut result = String::new();
    let mut i: usize = 0;
    while i < periods.len()
        invariant
            i <= periods.len(),
            result@ == period_cat(periods@.take(i as int)),
        decreases periods.len() - i,
    {
        push_period(&mut result, &periods[i]);
        proof {
            let t = periods@.take(i + 1 as int);
            assert(t.drop_last() =~= periods@.take(i as int));
            assert(t.last() == periods@[i as int]);
        }
        i = i + 1;
    }
    proof {
        assert(periods@.take(periods.len() as int) =~= periods@);
    }
    result
}

} // verus!
