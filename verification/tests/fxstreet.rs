use chrono::{TimeZone, Utc};
use orderx_core::error::CoreError;
use orderx_core::fxstreet::{api_answer, is_success, mock_event, Fetch, FxstreetClient, FxstreetMode, Page};
use orderx_core::time::UtcTimestamp;

fn stamp(dt: chrono::DateTime<Utc>) -> UtcTimestamp {
    UtcTimestamp::new(dt.timestamp(), dt.timestamp_subsec_nanos()).unwrap()
}

#[test]
fn mock_by_id_returns_event() {
    let client = FxstreetClient::new_mock();
    let event = match client.fetch_event_date_by_id("abc-123").expect("mock by id should succeed") {
        Fetch::Ready(event) => event,
        Fetch::Send(_) => panic!("mock by id should not send a request"),
    };
    assert_eq!(event.id, "abc-123");
    assert!(event.title.contains("Mock Event"));
}

#[test]
fn mock_range_returns_first_page_only() {
    let client = FxstreetClient::new_mock();
    let from = stamp(Utc.with_ymd_and_hms(2026, 3, 1, 0, 0, 0).unwrap());
    let to = stamp(Utc.with_ymd_and_hms(2026, 3, 2, 0, 0, 0).unwrap());

    let first_page = match client.fetch_event_dates_range(from, to, 0, 10).expect("first mock page should succeed") {
        Fetch::Ready(events) => events,
        Fetch::Send(_) => panic!("mock range should not send a request"),
    };
    assert_eq!(first_page.len(), 2);

    let second_page = match client.fetch_event_dates_range(from, to, 10, 10).expect("second mock page should succeed") {
        Fetch::Ready(events) => events,
        Fetch::Send(_) => panic!("mock range should not send a request"),
    };
    assert!(second_page.is_empty());
}

#[test]
fn mock_range_first_page_is_cut_to_take() {
    let client = FxstreetClient::new_mock();
    let from = UtcTimestamp::new(100, 0).unwrap();
    let to = UtcTimestamp::new(200, 0).unwrap();
    for (take, len) in [(0usize, 0usize), (1, 1), (2, 2), (3, 2)] {
        match client.fetch_event_dates_range(from, to, 0, take).unwrap() {
            Fetch::Ready(events) => {
                assert_eq!(events.len(), len);
                if len > 0 {
                    assert_eq!(events[0].id, "mock-range-1");
                    assert_eq!(events[0].date, from);
                }
                if len > 1 {
                    assert_eq!(events[1].id, "mock-range-2");
                    assert_eq!(events[1].date, to);
                }
            }
            Fetch::Send(_) => panic!("mock"),
        }
    }
}

#[test]
fn mock_event_fields() {
    let date = UtcTimestamp::new(5, 0).unwrap();
    let e = mock_event("x", date);
    assert_eq!(e.id, "x");
    assert_eq!(e.date, date);
    assert_eq!(e.country.as_deref(), Some("US"));
    assert_eq!(e.currency.as_deref(), Some("USD"));
    assert_eq!(e.title, "Mock Event x");
    assert_eq!(e.actual.as_deref().map(|t| t.parse::<f64>().unwrap()), Some(1.1));
    assert_eq!(e.forecast.as_deref().map(|t| t.parse::<f64>().unwrap()), Some(1.0));
    assert_eq!(e.previous.as_deref().map(|t| t.parse::<f64>().unwrap()), Some(0.9));
    assert_eq!(e.actual.as_deref(), Some(format!("{}", 1.1f64).as_str()));
    assert_eq!(e.forecast.as_deref(), Some(format!("{}", 1.0f64).as_str()));
    assert_eq!(e.previous.as_deref(), Some(format!("{}", 0.9f64).as_str()));
}

#[test]
fn mode_settings_are_case_insensitive() {
    assert_eq!(FxstreetMode::from_env("mock").unwrap(), FxstreetMode::Mock);
    assert_eq!(FxstreetMode::from_env("MOCK").unwrap(), FxstreetMode::Mock);
    assert_eq!(FxstreetMode::from_env("Real").unwrap(), FxstreetMode::Real);
    // the Kelvin sign lower-cases to `k`
    assert_eq!(FxstreetMode::from_env("MOC\u{212A}").unwrap(), FxstreetMode::Mock);
    let e = FxstreetMode::from_env("Live").unwrap_err();
    assert_eq!(e, CoreError::Config("Invalid FXSTREET_MODE 'live', expected 'mock' or 'real'".to_string()));
    assert!(FxstreetMode::from_env(" mock").is_err());
}

#[test]
fn client_settings() {
    // with no mode set the client uses the real API
    let c = FxstreetClient::from_env(None, None, Some("  \t".into())).unwrap();
    assert_eq!(c.mode(), FxstreetMode::Real);
    assert_eq!(c.base_url, "https://calendar-api.fxstreet.com/en/api/v1");
    assert!(c.bearer_token.is_none());
    let c = FxstreetClient::from_env(None, None, Some("tok".into())).unwrap();
    assert_eq!(c.mode(), FxstreetMode::Real);
    assert_eq!(c.bearer_token.as_deref(), Some("tok"));
    let c = FxstreetClient::from_env(Some("Mock".into()), None, None).unwrap();
    assert_eq!(c.mode(), FxstreetMode::Mock);
    let c = FxstreetClient::from_env(Some("REAL".into()), Some("http://x/".into()), Some("tok".into())).unwrap();
    assert_eq!(c.mode(), FxstreetMode::Real);
    assert_eq!(c.bearer_token.as_deref(), Some("tok"));
    assert!(FxstreetClient::from_env(Some("nope".into()), None, None).is_err());
    let m = FxstreetClient::new_mock();
    assert_eq!(m.base_url, "http://mock.local");
    assert!(m.bearer_token.is_none());
}

#[test]
fn real_mode_requests() {
    let c = FxstreetClient::from_env(Some("real".into()), Some("https://api.example//".into()), Some("tok".into())).unwrap();
    match c.fetch_event_date_by_id("e-1").unwrap() {
        Fetch::Send(r) => {
            assert_eq!(r.url, "https://api.example/eventDates/e-1");
            assert_eq!(r.bearer_token, "tok");
            assert_eq!(r.page, None);
        }
        Fetch::Ready(_) => panic!("real mode should send a request"),
    }
    let from = UtcTimestamp::new(1_772_323_200, 0).unwrap();
    let to = UtcTimestamp::new(1_772_409_600, 500).unwrap();
    match c.fetch_event_dates_range(from, to, 20, 10).unwrap() {
        Fetch::Send(r) => {
            assert_eq!(r.url, "https://api.example/eventDates/2026-03-01T00:00:00Z/2026-03-02T00:00:00Z");
            assert_eq!(r.page, Some(Page { skip: 20, take: 10 }));
        }
        Fetch::Ready(_) => panic!("real mode should send a request"),
    }
}

#[test]
fn real_mode_without_token_is_a_configuration_error() {
    let c = FxstreetClient::from_env(Some("real".into()), None, None).unwrap();
    let missing = CoreError::Config("Missing FXSTREET_BEARER_TOKEN in real mode".to_string());
    assert_eq!(c.fetch_event_date_by_id("e").unwrap_err(), missing);
    let t = UtcTimestamp::new(0, 0).unwrap();
    assert_eq!(c.fetch_event_dates_range(t, t, 0, 1).unwrap_err(), missing);
}

#[test]
fn success_statuses() {
    assert!(is_success(200));
    assert!(is_success(299));
    assert!(!is_success(199));
    assert!(!is_success(300));
    assert!(!is_success(404));
}

#[test]
fn api_answers() {
    assert_eq!(api_answer(200, "[]"), Ok(()));
    assert_eq!(api_answer(204, ""), Ok(()));
    assert_eq!(
        api_answer(404, ""),
        Err(CoreError::ExternalApiStatus { status: 404, message: "empty response body".to_string() })
    );
    let long = "x".repeat(300);
    assert_eq!(
        api_answer(503, &long),
        Err(CoreError::ExternalApiStatus { status: 503, message: "x".repeat(240) })
    );
    assert!(api_answer(302, "moved").is_err());
}
