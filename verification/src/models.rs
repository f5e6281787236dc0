//! Domain models for economic calendar events.
//!
//! - `FxEventRaw`: an event occurrence as the calendar API describes it.
//! - `EconomicEvent`: the canonical record that is stored.
//!
//! Figures (actual, forecast, previous) are held as their decimal text, the text that
//! `Display` writes for the `f64` the API sent (`200000`, `0.2`, `-1.5`, `NaN`, `inf`); that text
//! reads back as the same `f64`.

use vstd::prelude::*;
use crate::time::{utc_now, UtcTimestamp};

verus! {

/// An event occurrence as the calendar API describes it.
#[derive(Debug)]
pub struct FxEventRaw {
    /// Id of the event occurrence.
    pub id: String,
    /// When the event occurs.
    pub date: UtcTimestamp,
    /// Country code (ISO 3166-1).
    pub country: Option<String>,
    /// Currency code (ISO 4217).
    pub currency: Option<String>,
    /// Name of the recurrent event.
    pub title: String,
    /// Actual figure, as decimal text.
    pub actual: Option<String>,
    /// Consensus figure, as decimal text.
    pub forecast: Option<String>,
    /// Previous figure, as decimal text.
    pub previous: Option<String>,
}

/// Where an event came from.
#[derive(Clone, Copy, Debug, PartialEq, Eq, Structural)]
pub enum EventSource {
    Webhook,
    Backfill,
}

impl EventSource {
    /// The tag that stands for the source in a stored line: its name in lower case.
    pub open spec fn tag(self) -> Seq<char> {
        match self {
            EventSource::Webhook => seq!['w', 'e', 'b', 'h', 'o', 'o', 'k'],
            EventSource::Backfill => seq!['b', 'a', 'c', 'k', 'f', 'i', 'l', 'l'],
        }
    }

    /// Stable tag for the `source` column: the variant's name in lower case.
    pub fn as_ilp_tag(self) -> (res: &'static str)
        ensures
            res@ == self.tag(),
    {
        match self {
            EventSource::Webhook => {
                proof {
                    reveal_strlit("webhook");
                }
                "webhook"
            },
            EventSource::Backfill => {
                proof {
                    reveal_strlit("backfill");
                }
                "backfill"
            },
        }
    }
}

/// The canonical record of an event that is stored.
#[derive(Debug)]
pub struct EconomicEvent {
    pub event_id: String,
    pub event_time: UtcTimestamp,
    pub country: Option<String>,
    pub currency: Option<String>,
    pub title: String,
    pub actual: Option<String>,
    pub forecast: Option<String>,
    pub previous: Option<String>,
    pub source: EventSource,
    pub ingested_at: UtcTimestamp,
}

impl EconomicEvent {
    /// Whether `self` carries every field of `raw`, comes from `source`, and was ingested at
    /// `ingested_at`.
    pub open spec fn built_from(self, raw: FxEventRaw, source: EventSource) -> bool {
        &&& self.event_id == raw.id
        &&& self.event_time == raw.date
        &&& self.country == raw.country
        &&& self.currency == raw.currency
        &&& self.title == raw.title
        &&& self.actual == raw.actual
        &&& self.forecast == raw.forecast
        &&& self.previous == raw.previous
        &&& self.source == source
    }

    /// Builds the record of `raw` from `source`, ingested at `ingested_at`.
    pub fn from_raw_at(raw: FxEventRaw, source: EventSource, ingested_at: UtcTimestamp) -> (res:
        EconomicEvent)
        ensures
            res.built_from(raw, source),
            res.ingested_at == ingested_at,
    {
        EconomicEvent {
            event_id: raw.id,
            event_time: raw.date,
            country: raw.country,
            currency: raw.currency,
            title: raw.title,
            actual: raw.actual,
            forecast: raw.forecast,
            previous: raw.previous,
            source,
            ingested_at,
        }
    }

    /// Builds the record of `raw` from `source`, ingested now (by the system clock).
    pub fn from_raw(raw: FxEventRaw, source: EventSource) -> (res: EconomicEvent)
        ensures
            res.built_from(raw, source),
            res.ingested_at@.1 < 1_000_000_000,
    {
        let now = utc_now();
        EconomicEvent::from_raw_at(raw, source, now)
    }
}

} // verus!
