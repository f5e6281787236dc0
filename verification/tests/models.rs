use chrono::{TimeZone, Utc};
use orderx_core::models::{EconomicEvent, EventSource, FxEventRaw};
use orderx_core::time::UtcTimestamp;

fn instant(y: i32, mo: u32, d: u32, h: u32, mi: u32, s: u32) -> UtcTimestamp {
    let dt = Utc.with_ymd_and_hms(y, mo, d, h, mi, s).unwrap();
    UtcTimestamp::new(dt.timestamp(), dt.timestamp_subsec_nanos()).unwrap()
}

fn figure(v: f64) -> Option<String> {
    Some(v.to_string())
}

fn figure_value(text: &Option<String>) -> Option<f64> {
    text.as_ref().map(|t| t.parse::<f64>().unwrap())
}

fn sample_raw() -> FxEventRaw {
    FxEventRaw {
        id: "evt-001".to_string(),
        date: instant(2026, 3, 19, 14, 30, 0),
        country: Some("US".to_string()),
        currency: Some("USD".to_string()),
        title: "Nonfarm Payrolls".to_string(),
        actual: figure(200_000.0),
        forecast: figure(195_000.0),
        previous: figure(210_000.0),
    }
}

#[test]
fn from_raw_webhook() {
    let raw = sample_raw();
    let date = raw.date;
    let event = EconomicEvent::from_raw(raw, EventSource::Webhook);
    assert_eq!(event.event_id, "evt-001");
    assert_eq!(event.event_time, date);
    assert_eq!(event.country.as_deref(), Some("US"));
    assert_eq!(event.currency.as_deref(), Some("USD"));
    assert_eq!(event.title, "Nonfarm Payrolls");
    assert_eq!(figure_value(&event.actual), Some(200_000.0));
    assert_eq!(event.source, EventSource::Webhook);
    assert!(event.ingested_at.timestamp() <= Utc::now().timestamp() + 1);
}

#[test]
fn from_raw_backfill() {
    let raw = sample_raw();
    let event = EconomicEvent::from_raw(raw, EventSource::Backfill);
    assert_eq!(event.source, EventSource::Backfill);
}

#[test]
fn event_source_ilp_tags_match_serde_lowercase() {
    assert_eq!(EventSource::Webhook.as_ilp_tag(), "webhook");
    assert_eq!(EventSource::Backfill.as_ilp_tag(), "backfill");
}

#[test]
fn from_raw_at_keeps_every_field_and_the_given_ingestion_instant() {
    let ingested = instant(2026, 3, 19, 15, 0, 0);
    let event = EconomicEvent::from_raw_at(sample_raw(), EventSource::Backfill, ingested);
    assert_eq!(event.ingested_at, ingested);
    assert_eq!(figure_value(&event.forecast), Some(195_000.0));
    assert_eq!(figure_value(&event.previous), Some(210_000.0));
    assert_eq!(event.event_time, instant(2026, 3, 19, 14, 30, 0));
}

#[test]
fn from_raw_reads_the_clock() {
    let before = Utc::now().timestamp();
    let event = EconomicEvent::from_raw(sample_raw(), EventSource::Webhook);
    let after = Utc::now().timestamp();
    assert!(before <= event.ingested_at.timestamp());
    assert!(event.ingested_at.timestamp() <= after);
    assert!(event.ingested_at.timestamp_subsec_nanos() < 1_000_000_000);
}
