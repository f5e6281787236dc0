//! The calendar API client: its configuration, the requests it sends, and the events it
//! makes up in mock mode.

use vstd::prelude::*;
use crate::error::{api_error_message, CoreError};
use crate::models::{EconomicEvent, EventSource, FxEventRaw};
use vstd::utf8::is_ascii_chars;
use crate::text::{ascii_lowercase, is_blank, is_blank_text, same_text, spec_trim_end, to_lowercase, trim_end_char, unicode_lowercase};
use crate::time::{rfc3339_seconds_text, utc_now, UtcTimestamp};

verus! {

/// Whether events are made up locally or fetched from the calendar API.
#[derive(Clone, Copy, Debug, PartialEq, Eq, Structural)]
pub enum FxstreetMode {
    Mock,
    Real,
}

/// The base URL of the calendar API when none is configured.
pub const DEFAULT_API_BASE: &'static str = "https://calendar-api.fxstreet.com/en/api/v1";

/// The base URL of the mock client.
pub const MOCK_API_BASE: &'static str = "http://mock.local";

/// The mode setting when none is configured: the real calendar API.
pub const DEFAULT_MODE: &'static str = "real";

/// The message of the error for a mode setting that names no mode.
pub open spec fn invalid_mode_message(lower: Seq<char>) -> Seq<char> {
    "Invalid FXSTREET_MODE '"@ + lower + "', expected 'mock' or 'real'"@
}

/// The mode that lower-case text names: `mock` or `real`, anything else being a configuration
/// error that quotes the text.
pub open spec fn mode_named(lower: Seq<char>, res: Result<FxstreetMode, CoreError>) -> bool {
    if lower == "mock"@ {
        res == Ok::<FxstreetMode, CoreError>(FxstreetMode::Mock)
    } else if lower == "real"@ {
        res == Ok::<FxstreetMode, CoreError>(FxstreetMode::Real)
    } else {
        res matches Err(CoreError::Config(m)) && m@ == invalid_mode_message(lower)
    }
}

/// Law: the mode setting is read without regard to case. Two settings with the same lower-case
/// form name the same mode, or are both refused.
pub proof fn law_mode_ignores_case(
    a: Seq<char>,
    b: Seq<char>,
    ra: Result<FxstreetMode, CoreError>,
    rb: Result<FxstreetMode, CoreError>,
)
    requires
        unicode_lowercase(a) == unicode_lowercase(b),
        mode_named(unicode_lowercase(a), ra),
        mode_named(unicode_lowercase(b), rb),
    ensures
        ra is Ok ==> ra == rb,
        ra is Err <==> rb is Err,
{
}

impl FxstreetMode {
    /// The mode that the lower-case text `lower` names.
    pub fn from_lowercase(lower: &str) -> (res: Result<FxstreetMode, CoreError>)
        ensures
            mode_named(lower@, res),
    {
        if same_text(lower, "mock") {
            Ok(FxstreetMode::Mock)
        } else if same_text(lower, "real") {
            Ok(FxstreetMode::Real)
        } else {
            let mut m = String::from_str("Invalid FXSTREET_MODE '");
            m.append(lower);
            m.append("', expected 'mock' or 'real'");
            Err(CoreError::Config(m))
        }
    }

    /// The mode that the setting `mode` names, in any case (`Mock`, `REAL`, ...).
    pub fn from_env(mode: &str) -> (res: Result<FxstreetMode, CoreError>)
        ensures
            mode_named(unicode_lowercase(mode@), res),
            is_ascii_chars(mode@) ==> mode_named(ascii_lowercase(mode@), res),
    {
        let lower = to_lowercase(mode);
        FxstreetMode::from_lowercase(lower.as_str())
    }
}

/// A page of a range query: how many events to skip and how many to take.
#[derive(Clone, Copy, Debug, PartialEq, Eq, Structural)]
pub struct Page {
    pub skip: usize,
    pub take: usize,
}

/// A `GET` request to the calendar API, authorised by a bearer token.
#[derive(Debug)]
pub struct ApiRequest {
    pub url: String,
    pub bearer_token: String,
    /// The `skip` and `take` query parameters, for a range query.
    pub page: Option<Page>,
}

/// What fetching comes to: a value ready at once (mock mode), or a request to send.
#[derive(Debug)]
pub enum Fetch<T> {
    Ready(T),
    Send(ApiRequest),
}

/// The calendar API client's configuration.
#[derive(Debug)]
pub struct FxstreetClient {
    pub mode: FxstreetMode,
    pub base_url: String,
    /// The bearer token (`from_env` drops a blank one).
    pub bearer_token: Option<String>,
}

/// Whether `e` is the mock event with id `id` at `date`.
pub open spec fn is_mock_event(e: FxEventRaw, id: Seq<char>, date: UtcTimestamp) -> bool {
    &&& e.id@ == id
    &&& e.date == date
    &&& e.country matches Some(c) && c@ == "US"@
    &&& e.currency matches Some(c) && c@ == "USD"@
    &&& e.title@ == "Mock Event "@ + id
    &&& e.actual matches Some(v) && v@ == "1.1"@
    &&& e.forecast matches Some(v) && v@ == "1"@
    &&& e.previous matches Some(v) && v@ == "0.9"@
}

/// Whether `e` is the record of the mock event with id `id` from `source` (at any instant).
pub open spec fn is_mock_record(e: EconomicEvent, id: Seq<char>, source: EventSource) -> bool {
    &&& e.event_id@ == id
    &&& e.country matches Some(c) && c@ == "US"@
    &&& e.currency matches Some(c) && c@ == "USD"@
    &&& e.title@ == "Mock Event "@ + id
    &&& e.actual matches Some(v) && v@ == "1.1"@
    &&& e.forecast matches Some(v) && v@ == "1"@
    &&& e.previous matches Some(v) && v@ == "0.9"@
    &&& e.source == source
}

/// A made-up event with id `id` at `date`.
pub fn mock_event(id: &str, date: UtcTimestamp) -> (res: FxEventRaw)
    ensures
        is_mock_event(res, id@, date),
{
    FxEventRaw {
        id: id.to_owned(),
        date,
        country: Some(String::from_str("US")),
        currency: Some(String::from_str("USD")),
        title: String::from_str("Mock Event ").concat(id),
        actual: Some(String::from_str("1.1")),
        forecast: Some(String::from_str("1")),
        previous: Some(String::from_str("0.9")),
    }
}

/// The URL of one event occurrence: the base URL without trailing slashes, then
/// `/eventDates/` and the id.
pub open spec fn event_date_url(base: Seq<char>, id: Seq<char>) -> Seq<char> {
    spec_trim_end(base, '/') + "/eventDates/"@ + id
}

/// The URL of the occurrences between two instants, written in RFC 3339 with whole seconds.
pub open spec fn event_dates_range_url(base: Seq<char>, from: UtcTimestamp, to: UtcTimestamp) -> Seq<
    char,
> {
    spec_trim_end(base, '/') + "/eventDates/"@ + rfc3339_seconds_text(from@.0, from@.1) + "/"@
        + rfc3339_seconds_text(to@.0, to@.1)
}

/// The message of the error for real mode without a bearer token.
pub open spec fn missing_token_message() -> Seq<char> {
    "Missing FXSTREET_BEARER_TOKEN in real mode"@
}

/// Whether an HTTP status is a success (`2xx`).
pub open spec fn is_success_status(status: int) -> bool {
    200 <= status && status <= 299
}

/// Whether an HTTP status is a success (`2xx`).
pub fn is_success(status: u16) -> (res: bool)
    ensures
        res == is_success_status(status as int),
{
    200 <= status && status <= 299
}

/// What an answer of the calendar API with `status` and `body` comes to before its body is
/// decoded: a `2xx` status lets the body be decoded; any other is the error that carries the
/// status and the body's first 240 characters, or a note that the body was empty.
pub fn api_answer(status: u16, body: &str) -> (res: Result<(), CoreError>)
    ensures
        is_success_status(status as int) <==> res is Ok,
        res matches Err(e) ==> e == (CoreError::ExternalApiStatus { status, message: e->message })
            && e->message@ == api_error_message(body@),
{
    if is_success(status) {
        Ok(())
    } else {
        Err(CoreError::api_status(status, body))
    }
}

/// The two mock events of a range's first page, cut to `take`.
pub open spec fn is_mock_first_page(events: Seq<FxEventRaw>, from: UtcTimestamp, to: UtcTimestamp, take: int) -> bool {
    &&& events.len() == if take < 2 { take } else { 2 }
    &&& events.len() > 0 ==> is_mock_event(events[0], "mock-range-1"@, from)
    &&& events.len() > 1 ==> is_mock_event(events[1], "mock-range-2"@, to)
}

impl FxstreetClient {
    /// The client configured by the environment variables `FXSTREET_MODE`, `FXSTREET_API_BASE`
    /// and `FXSTREET_BEARER_TOKEN`, given as their values (`None` where unset): the mode
    /// (default `real`, in any case), the base URL (default the public calendar API) and the
    /// bearer token (dropped when blank).
    pub fn from_env(mode: Option<String>, base_url: Option<String>, bearer_token: Option<
        String,
    >) -> (res: Result<FxstreetClient, CoreError>)
        ensures
            ({
                let mode_text = match mode {
                    Some(m) => m@,
                    None => DEFAULT_MODE@,
                };
                match res {
                    Ok(c) => {
                        &&& mode_named(unicode_lowercase(mode_text), Ok(c.mode))
                        &&& is_ascii_chars(mode_text) ==> mode_named(ascii_lowercase(mode_text), Ok(c.mode))
                        &&& c.base_url@ == (match base_url {
                            Some(b) => b@,
                            None => DEFAULT_API_BASE@,
                        })
                        &&& c.bearer_token == (match bearer_token {
                            Some(t) => if is_blank_text(t@) {
                                None
                            } else {
                                Some(t)
                            },
                            None => None,
                        })
                    },
                    Err(e) => {
                        &&& mode_named(unicode_lowercase(mode_text), Err(e))
                        &&& is_ascii_chars(mode_text) ==> mode_named(ascii_lowercase(mode_text), Err(e))
                    },
                }
            }),
    {
        let mode_text = match mode {
            Some(m) => m,
            None => DEFAULT_MODE.to_owned(),
        };
        let mode = FxstreetMode::from_env(mode_text.as_str())?;
        let base_url = match base_url {
            Some(b) => b,
            None => DEFAULT_API_BASE.to_owned(),
        };
        let bearer_token = match bearer_token {
            Some(t) => if is_blank(t.as_str()) {
                None
            } else {
                Some(t)
            },
            None => None,
        };
        Ok(FxstreetClient { mode, base_url, bearer_token })
    }

    /// The mock client: mock mode, a local base URL, no bearer token.
    pub fn new_mock() -> (res: FxstreetClient)
        ensures
            res.mode == FxstreetMode::Mock,
            res.base_url@ == MOCK_API_BASE@,
            res.bearer_token is None,
    {
        FxstreetClient {
            mode: FxstreetMode::Mock,
            base_url: MOCK_API_BASE.to_owned(),
            bearer_token: None,
        }
    }

    /// The client's mode.
    pub fn mode(&self) -> (res: FxstreetMode)
        ensures
            res == self.mode,
    {
        self.mode
    }

    fn token(&self) -> (res: Result<String, CoreError>)
        ensures
            match self.bearer_token {
                Some(t) => res == Ok::<String, CoreError>(t),
                None => res matches Err(CoreError::Config(m)) && m@ == missing_token_message(),
            },
    {
        match &self.bearer_token {
            Some(t) => Ok(t.clone()),
            None => Err(CoreError::Config(String::from_str("Missing FXSTREET_BEARER_TOKEN in real mode"))),
        }
    }

    fn event_date_request(&self, event_date_id: &str) -> (res: Result<ApiRequest, CoreError>)
        ensures
            match self.bearer_token {
                Some(t) => res matches Ok(r) && r.url@ == event_date_url(self.base_url@, event_date_id@)
                    && r.bearer_token == t && r.page is None,
                None => res matches Err(CoreError::Config(m)) && m@ == missing_token_message(),
            },
    {
        let token = self.token()?;
        let mut url = trim_end_char(self.base_url.as_str(), '/').to_owned();
        url.append("/eventDates/");
        url.append(event_date_id);
        Ok(ApiRequest { url, bearer_token: token, page: None })
    }

    /// Fetching occurrence `event_date_id`, where `now` is the current instant: in mock mode the
    /// mock event with that id at `now`; in real mode a request for it, which needs the bearer
    /// token.
    pub fn fetch_event_date_by_id_at(&self, event_date_id: &str, now: UtcTimestamp) -> (res: Result<
        Fetch<FxEventRaw>,
        CoreError,
    >)
        ensures
            self.mode == FxstreetMode::Mock ==> (res matches Ok(Fetch::Ready(e)) && is_mock_event(
                e,
                event_date_id@,
                now,
            )),
            self.mode == FxstreetMode::Real ==> match self.bearer_token {
                Some(t) => res matches Ok(Fetch::Send(r)) && r.url@ == event_date_url(
                    self.base_url@,
                    event_date_id@,
                ) && r.bearer_token == t && r.page is None,
                None => res matches Err(CoreError::Config(m)) && m@ == missing_token_message(),
            },
    {
        match self.mode {
            FxstreetMode::Mock => Ok(Fetch::Ready(mock_event(event_date_id, now))),
            FxstreetMode::Real => Ok(Fetch::Send(self.event_date_request(event_date_id)?)),
        }
    }

    /// Fetching occurrence `event_date_id`: in mock mode the mock event with that id at the
    /// current instant (by the system clock); in real mode a request for it, whose answer
    /// `api_answer` judges.
    pub fn fetch_event_date_by_id(&self, event_date_id: &str) -> (res: Result<Fetch<FxEventRaw>, CoreError>)
        ensures
            self.mode == FxstreetMode::Mock ==> (res matches Ok(Fetch::Ready(e)) && e.id@
                == event_date_id@ && is_mock_event(e, event_date_id@, e.date) && e.date@.1
                < 1_000_000_000),
            self.mode == FxstreetMode::Real ==> match self.bearer_token {
                Some(t) => res matches Ok(Fetch::Send(r)) && r.url@ == event_date_url(
                    self.base_url@,
                    event_date_id@,
                ) && r.bearer_token == t && r.page is None,
                None => res matches Err(CoreError::Config(m)) && m@ == missing_token_message(),
            },
    {
        match self.mode {
            FxstreetMode::Mock => {
                let now = utc_now();
                self.fetch_event_date_by_id_at(event_date_id, now)
            },
            FxstreetMode::Real => Ok(Fetch::Send(self.event_date_request(event_date_id)?)),
        }
    }

    /// Fetching page `skip`, `take` of the occurrences between `from` and `to`: in mock mode the
    /// two mock events at `from` and `to` cut to `take` on the first page and nothing on
    /// any later one; in real mode a request for the page, which needs the bearer token, and
    /// whose answer `api_answer` judges.
    pub fn fetch_event_dates_range(&self, from: UtcTimestamp, to: UtcTimestamp, skip: usize, take: usize) -> (res: Result<
        Fetch<Vec<FxEventRaw>>,
        CoreError,
    >)
        ensures
            self.mode == FxstreetMode::Mock ==> (res matches Ok(Fetch::Ready(events)) && (if skip
                > 0 {
                events@.len() == 0
            } else {
                is_mock_first_page(events@, from, to, take as int)
            })),
            self.mode == FxstreetMode::Real ==> match self.bearer_token {
                Some(t) => res matches Ok(Fetch::Send(r)) && r.url@ == event_dates_range_url(
                    self.base_url@,
                    from,
                    to,
                ) && r.bearer_token == t && r.page == Some(Page { skip, take }),
                None => res matches Err(CoreError::Config(m)) && m@ == missing_token_message(),
            },
    {
        match self.mode {
            FxstreetMode::Mock => {
                if skip > 0 {
                    return Ok(Fetch::Ready(Vec::new()));
                }
                let from_event = mock_event("mock-range-1", from);
                let to_event = mock_event("mock-range-2", to);
                let mut all = Vec::new();
                all.push(from_event);
                all.push(to_event);
                all.truncate(take);
                Ok(Fetch::Ready(all))
            },
            FxstreetMode::Real => {
                let token = self.token()?;
                let mut url = trim_end_char(self.base_url.as_str(), '/').to_owned();
                url.append("/eventDates/");
                url.append(from.to_rfc3339_seconds().as_str());
                url.append("/");
                url.append(to.to_rfc3339_seconds().as_str());
                Ok(Fetch::Send(ApiRequest { url, bearer_token: token, page: Some(Page { skip, take }) }))
            },
        }
    }
}

} // verus!
