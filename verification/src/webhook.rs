//! Webhook ingestion: the decisions of answering a webhook call, from reading its head to
//! the reply, and the handling of the secrets and logs around it.
//!
//! Receiving the call, parsing its body, fetching the event, waiting and writing are done by
//! the caller: `WebhookHandler::step` takes what the last action came to and says what to do
//! next.

use vstd::prelude::*;
use crate::error::CoreError;
use crate::fxstreet::{is_mock_record, Fetch, FxstreetClient};
use crate::models::{EconomicEvent, EventSource, FxEventRaw};
use crate::text::{is_blank, is_blank_text, parse_unsigned, same_text, spec_parse_unsigned};
use vstd::utf8::encode_utf8;

verus! {

/// The body of a webhook call.
#[derive(Debug)]
pub struct WebhookPayload {
    /// The call's `type`.
    pub event_type: Option<String>,
    /// The call's `eventDateId`: the occurrence to fetch.
    pub event_date_id: Option<String>,
    /// The call's `eventId`.
    pub event_id: Option<String>,
}

/// What the handler reads of a call before its body.
#[derive(Debug)]
pub struct RequestHead {
    /// Whether the method is `POST`.
    pub is_post: bool,
    /// The `X-Webhook-Token` header, where present and readable as text.
    pub token: Option<String>,
    /// The `X-Test-Mode` header, where present and readable as text.
    pub test_mode: Option<String>,
}

/// The token a call presents: its `X-Webhook-Token` header, or the empty text.
pub open spec fn presented_token(head: RequestHead) -> Seq<char> {
    match head.token {
        Some(t) => t@,
        None => Seq::empty(),
    }
}

/// A call asks for test mode with the header `X-Test-Mode: true`.
pub open spec fn asks_test_mode(head: RequestHead) -> bool {
    head.test_mode matches Some(v) && v@ == "true"@
}

/// A call is let in when no token is expected or it presents the expected one.
pub open spec fn is_authorized(expected: Seq<char>, head: RequestHead) -> bool {
    expected.len() == 0 || presented_token(head) == expected
}

/// The token a call presents.
pub fn webhook_token(head: &RequestHead) -> (res: &str)
    ensures
        res@ == presented_token(*head),
{
    match &head.token {
        Some(t) => t.as_str(),
        None => {
            proof {
                reveal_strlit("");
            }
            ""
        },
    }
}

/// Whether a call asks for test mode.
pub fn is_test_mode(head: &RequestHead) -> (res: bool)
    ensures
        res == asks_test_mode(*head),
{
    match &head.test_mode {
        Some(v) => same_text(v.as_str(), "true"),
        None => false,
    }
}

/// What parsing a call's body came to.
#[derive(Debug)]
pub enum PayloadParse {
    /// There was no body.
    EmptyBody,
    /// The body is not a payload; the parser's description of why.
    InvalidJson(String),
    /// The payload.
    Parsed(WebhookPayload),
}

/// A reply to a webhook call.
#[derive(Debug)]
pub struct Reply {
    pub status: u16,
    pub body: String,
}

/// What the caller does next.
#[derive(Debug)]
pub enum HandlerAction {
    /// Answer the call; the handler is done.
    Respond(Reply),
    /// Parse the call's body.
    ParseBody,
    /// Fetch this occurrence from the calendar API.
    FetchEventDate(String),
    /// Wait this many milliseconds.
    Wait { millis: u64 },
    /// Write this record.
    WriteEvent(EconomicEvent),
}

/// What the caller's last action came to.
#[derive(Debug)]
pub enum HandlerEvent {
    /// The call arrived.
    Received(RequestHead),
    BodyParsed(PayloadParse),
    Fetched(Result<FxEventRaw, CoreError>),
    Waited,
    Written(Result<(), CoreError>),
}

/// Where the handling of a call stands.
#[derive(Clone, Copy, Debug, PartialEq, Eq, Structural)]
pub enum HandlerPhase {
    /// Waiting for the call.
    Start,
    /// Writing the test record.
    WritingTestEvent,
    /// Parsing the body.
    ParsingBody,
    /// Fetching the occurrence.
    Fetching,
    /// Waiting before fetching again.
    Waiting,
    /// Writing the fetched record.
    WritingEvent,
    /// Replied.
    Done,
}

/// Retries of a failed fetch of the occurrence.
pub const FETCH_MAX_RETRIES: u32 = 2;

/// The id of the record that test mode writes.
pub const TEST_EVENT_ID: &'static str = "lambda-test-dummy";

/// The wait before retry `attempt + 1` of a fetch: `500 · (attempt + 1)` milliseconds.
pub open spec fn fetch_backoff_ms(attempt: nat) -> nat {
    500 * (attempt + 1)
}

/// Whether `action` answers with `status` and `body`.
pub open spec fn replies(action: HandlerAction, status: u16, body: Seq<char>) -> bool {
    action matches HandlerAction::Respond(r) && r.status == status && r.body@ == body
}

/// The handling of one webhook call.
#[derive(Debug)]
pub struct WebhookHandler {
    /// The token calls must present; empty when any call is let in.
    pub expected_token: String,
    pub phase: HandlerPhase,
    /// Whether the call was let in.
    pub accepted: bool,
    /// The occurrence being fetched.
    pub event_date_id: String,
    /// Failed fetches of the occurrence so far.
    pub attempt: u32,
}

impl WebhookHandler {
    /// The invariant: only a call that was let in gets past its head, and the fetch attempts
    /// stay within the retries.
    pub open spec fn wf(&self) -> bool {
        &&& (self.phase != HandlerPhase::Start && self.phase != HandlerPhase::Done)
            ==> self.accepted
        &&& self.phase == HandlerPhase::Start ==> !self.accepted
        &&& self.attempt <= FETCH_MAX_RETRIES
    }

    /// Whether `event` answers the action that `self` is waiting on.
    pub open spec fn expects(&self, event: HandlerEvent) -> bool {
        match event {
            HandlerEvent::Received(_) => self.phase == HandlerPhase::Start,
            HandlerEvent::BodyParsed(_) => self.phase == HandlerPhase::ParsingBody,
            HandlerEvent::Fetched(_) => self.phase == HandlerPhase::Fetching,
            HandlerEvent::Waited => self.phase == HandlerPhase::Waiting,
            HandlerEvent::Written(_) => self.phase == HandlerPhase::WritingTestEvent || self.phase
                == HandlerPhase::WritingEvent,
        }
    }

    /// Whether `step` may take `event` now: the handler is well formed and waits on that kind
    /// of event.
    pub fn can_step(&self, event: &HandlerEvent) -> (res: bool)
        ensures
            res == (self.wf() && self.expects(*event)),
    {
        let start = matches!(self.phase, HandlerPhase::Start);
        let done = matches!(self.phase, HandlerPhase::Done);
        let wf = (start || done || self.accepted) && (!start || !self.accepted) && self.attempt
            <= FETCH_MAX_RETRIES;
        let expects = match event {
            HandlerEvent::Received(_) => start,
            HandlerEvent::BodyParsed(_) => matches!(self.phase, HandlerPhase::ParsingBody),
            HandlerEvent::Fetched(_) => matches!(self.phase, HandlerPhase::Fetching),
            HandlerEvent::Waited => matches!(self.phase, HandlerPhase::Waiting),
            HandlerEvent::Written(_) => matches!(self.phase, HandlerPhase::WritingTestEvent)
                || matches!(self.phase, HandlerPhase::WritingEvent),
        };
        wf && expects
    }

    /// A handler waiting for a call, expecting `expected_token` (empty: any call is let in).
    pub fn new(expected_token: String) -> (res: WebhookHandler)
        ensures
            res.wf(),
            res.expected_token == expected_token,
            res.phase == HandlerPhase::Start,
            !res.accepted,
            res.attempt == 0,
    {
        WebhookHandler {
            expected_token,
            phase: HandlerPhase::Start,
            accepted: false,
            event_date_id: String::new(),
            attempt: 0,
        }
    }

    fn respond(&mut self, status: u16, body: &str) -> (res: HandlerAction)
        ensures
            res == HandlerAction::Respond(Reply { status, body: res->Respond_0.body }),
            res->Respond_0.body@ == body@,
            final(self).phase == HandlerPhase::Done,
            final(self).accepted == old(self).accepted,
            final(self).expected_token == old(self).expected_token,
            final(self).attempt == old(self).attempt,
            final(self).event_date_id == old(self).event_date_id,
    {
        self.phase = HandlerPhase::Done;
        HandlerAction::Respond(Reply { status, body: body.to_owned() })
    }

    /// Takes what the last action came to and says what to do next.
    ///
    /// - A call that is not a `POST` is answered `405`; one that does not present the expected
    ///   token `403`. A call let in that asks for test mode has a made-up record written; any
    ///   other has its body parsed.
    /// - No body is answered `400 Empty Body (Bad Request)`, a body that is no payload
    ///   `400 Bad Request`, a payload without `eventDateId` `202`; otherwise that occurrence is
    ///   fetched.
    /// - A fetch that failed transiently is retried after `500 · (attempt + 1)` milliseconds
    ///   while retries are left; any other failed fetch is answered `500`. A fetched occurrence
    ///   has its record written.
    /// - A failed write is answered `500`; a written record `200 OK`, or `200 OK (test mode)`
    ///   for the test record.
    pub fn step(&mut self, event: HandlerEvent) -> (res: HandlerAction)
        requires
            old(self).wf(),
            old(self).expects(event),
        ensures
            final(self).wf(),
            final(self).expected_token == old(self).expected_token,
            // nothing is fetched or written for a call that was not let in
            (res is WriteEvent || res is FetchEventDate) ==> final(self).accepted,
            res is Respond <==> final(self).phase == HandlerPhase::Done,
            match event {
                HandlerEvent::Received(head) => {
                    &&& final(self).accepted == (head.is_post && is_authorized(
                        old(self).expected_token@,
                        head,
                    ))
                    &&& if !head.is_post {
                        replies(res, 405, "Method Not Allowed"@)
                    } else if !is_authorized(old(self).expected_token@, head) {
                        replies(res, 403, "Forbidden"@)
                    } else if asks_test_mode(head) {
                        &&& final(self).phase == HandlerPhase::WritingTestEvent
                        &&& res matches HandlerAction::WriteEvent(e) && is_mock_record(
                            e,
                            TEST_EVENT_ID@,
                            EventSource::Webhook,
                        ) && e.event_time@.1 < 1_000_000_000 && e.ingested_at@.1 < 1_000_000_000
                    } else {
                        res == HandlerAction::ParseBody && final(self).phase
                            == HandlerPhase::ParsingBody
                    }
                },
                HandlerEvent::BodyParsed(p) => match p {
                    PayloadParse::EmptyBody => replies(res, 400, "Empty Body (Bad Request)"@),
                    PayloadParse::InvalidJson(_) => replies(res, 400, "Bad Request"@),
                    PayloadParse::Parsed(payload) => match payload.event_date_id {
                        None => replies(
                            res,
                            202,
                            "Accepted: event type not handled by eventDate ingestion"@,
                        ),
                        Some(id) => {
                            &&& res matches HandlerAction::FetchEventDate(f) && f == id
                            &&& final(self).event_date_id == id
                            &&& final(self).attempt == 0
                            &&& final(self).phase == HandlerPhase::Fetching
                        },
                    },
                },
                HandlerEvent::Fetched(r) => match r {
                    Ok(raw) => {
                        &&& final(self).phase == HandlerPhase::WritingEvent
                        // the record carries the occurrence, stamped with a clock reading
                        &&& res matches HandlerAction::WriteEvent(e) && e.built_from(
                            raw,
                            EventSource::Webhook,
                        ) && e.ingested_at@.1 < 1_000_000_000
                    },
                    Err(e) => if e.retryable() && old(self).attempt < FETCH_MAX_RETRIES {
                        &&& res == (HandlerAction::Wait {
                            millis: fetch_backoff_ms(old(self).attempt as nat) as u64,
                        })
                        &&& final(self).attempt == old(self).attempt + 1
                        &&& final(self).phase == HandlerPhase::Waiting
                        &&& final(self).event_date_id == old(self).event_date_id
                    } else {
                        replies(res, 500, "Internal Server Error"@)
                    },
                },
                HandlerEvent::Waited => {
                    &&& res == HandlerAction::FetchEventDate(old(self).event_date_id)
                    &&& final(self).phase == HandlerPhase::Fetching
                    &&& final(self).attempt == old(self).attempt
                    &&& final(self).event_date_id == old(self).event_date_id
                },
                HandlerEvent::Written(r) => match r {
                    Err(_) => replies(res, 500, "Internal Server Error"@),
                    Ok(_) => if old(self).phase == HandlerPhase::WritingTestEvent {
                        replies(res, 200, "OK (test mode)"@)
                    } else {
                        replies(res, 200, "OK"@)
                    },
                },
            },
    {
        match event {
            HandlerEvent::Received(head) => {
                if !head.is_post {
                    return self.respond(405, "Method Not Allowed");
                }
                let token = webhook_token(&head);
                if !self.expected_token.as_str().is_empty() && !same_text(
                    token,
                    self.expected_token.as_str(),
                ) {
                    return self.respond(403, "Forbidden");
                }
                self.accepted = true;
                if is_test_mode(&head) {
                    let dummy_client = FxstreetClient::new_mock();
                    match dummy_client.fetch_event_date_by_id(TEST_EVENT_ID) {
                        Ok(Fetch::Ready(raw)) => {
                            let event = EconomicEvent::from_raw(raw, EventSource::Webhook);
                            self.phase = HandlerPhase::WritingTestEvent;
                            HandlerAction::WriteEvent(event)
                        },
                        _ => self.respond(500, "Internal Server Error"),
                    }
                } else {
                    self.phase = HandlerPhase::ParsingBody;
                    HandlerAction::ParseBody
                }
            },
            HandlerEvent::BodyParsed(parsed) => match parsed {
                PayloadParse::EmptyBody => self.respond(400, "Empty Body (Bad Request)"),
                PayloadParse::InvalidJson(_) => self.respond(400, "Bad Request"),
                PayloadParse::Parsed(payload) => match payload.event_date_id {
                    None => self.respond(
                        202,
                        "Accepted: event type not handled by eventDate ingestion",
                    ),
                    Some(id) => {
                        self.event_date_id = id.clone();
                        self.attempt = 0;
                        self.phase = HandlerPhase::Fetching;
                        HandlerAction::FetchEventDate(id)
                    },
                },
            },
            HandlerEvent::Fetched(result) => match result {
                Ok(raw) => {
                    let event = EconomicEvent::from_raw(raw, EventSource::Webhook);
                    self.phase = HandlerPhase::WritingEvent;
                    HandlerAction::WriteEvent(event)
                },
                Err(e) => {
                    if e.is_retryable() && self.attempt < FETCH_MAX_RETRIES {
                        let millis: u64 = 500 * (self.attempt as u64 + 1);
                        self.attempt = self.attempt + 1;
                        self.phase = HandlerPhase::Waiting;
                        HandlerAction::Wait { millis }
                    } else {
                        self.respond(500, "Internal Server Error")
                    }
                },
            },
            HandlerEvent::Waited => {
                self.phase = HandlerPhase::Fetching;
                HandlerAction::FetchEventDate(self.event_date_id.clone())
            },
            HandlerEvent::Written(result) => {
                let test = self.phase == HandlerPhase::WritingTestEvent;
                match result {
                    Err(_) => self.respond(500, "Internal Server Error"),
                    Ok(()) => if test {
                        self.respond(200, "OK (test mode)")
                    } else {
                        self.respond(200, "OK")
                    },
                }
            },
        }
    }
}

// ---------------------------------------------------------------------------------------------
// Logs of records that could not be written
// ---------------------------------------------------------------------------------------------

/// The most bytes of a serialised record that a log keeps when nothing else is configured.
pub const DEFAULT_FAILED_EVENT_LOG_MAX_BYTES: usize = 2048;

/// The byte budget of a failed-record log: the setting when it is a positive `usize`, the
/// default otherwise.
pub open spec fn spec_log_max_bytes(setting: Option<String>) -> nat {
    match setting {
        Some(t) => match spec_parse_unsigned(t@, usize::MAX as nat) {
            Some(v) => if v > 0 {
                v
            } else {
                DEFAULT_FAILED_EVENT_LOG_MAX_BYTES as nat
            },
            None => DEFAULT_FAILED_EVENT_LOG_MAX_BYTES as nat,
        },
        None => DEFAULT_FAILED_EVENT_LOG_MAX_BYTES as nat,
    }
}

/// The byte budget of a failed-record log, from its setting.
pub fn failed_event_log_max_bytes(setting: Option<String>) -> (res: usize)
    ensures
        res == spec_log_max_bytes(setting),
{
    match setting {
        Some(t) => match parse_unsigned(t.as_str(), usize::MAX as u64) {
            Some(v) => if v > 0 {
                v as usize
            } else {
                DEFAULT_FAILED_EVENT_LOG_MAX_BYTES
            },
            None => DEFAULT_FAILED_EVENT_LOG_MAX_BYTES,
        },
        None => DEFAULT_FAILED_EVENT_LOG_MAX_BYTES,
    }
}

/// A serialised record as logged: whole when its UTF-8 encoding fits in `max_bytes` bytes,
/// otherwise its first `max_bytes` characters and a truncation mark.
pub open spec fn spec_log_payload(serialized: Seq<char>, max_bytes: nat) -> Seq<char> {
    if encode_utf8(serialized).len() <= max_bytes {
        serialized
    } else if serialized.len() <= max_bytes {
        serialized + "...(truncated)"@
    } else {
        serialized.take(max_bytes as int) + "...(truncated)"@
    }
}

/// A serialised record as logged, within `max_bytes`: the whole is measured in UTF-8 bytes,
/// the cut is made after `max_bytes` characters.
pub fn failed_event_log_payload(serialized: &str, max_bytes: usize) -> (res: String)
    ensures
        res@ == spec_log_payload(serialized@, max_bytes as nat),
{
    if serialized.as_bytes().len() <= max_bytes {
        return serialized.to_owned();
    }
    let n = serialized.unicode_len();
    let keep = if n <= max_bytes {
        n
    } else {
        max_bytes
    };
    let mut out = serialized.substring_char(0, keep).to_owned();
    out.append("...(truncated)");
    proof {
        if n <= max_bytes {
            assert(serialized@.subrange(0, n as int) == serialized@);
        }
    }
    out
}

// ---------------------------------------------------------------------------------------------
// Secrets
// ---------------------------------------------------------------------------------------------

/// Where a secret comes from.
#[derive(Debug)]
pub enum SecretSource {
    /// Given directly.
    Direct(String),
    /// Read from the parameter store, under this name.
    Parameter(String),
    /// Not configured: the secret is empty.
    Unset,
}

/// Where a secret comes from: a value given directly wins when it is not blank; otherwise a
/// parameter name that is not blank; otherwise the secret is unset.
pub fn secret_source(direct: Option<String>, parameter_name: Option<String>) -> (res:
    SecretSource)
    ensures
        match direct {
            Some(v) if !is_blank_text(v@) => res == SecretSource::Direct(v),
            _ => match parameter_name {
                Some(p) if !is_blank_text(p@) => res == SecretSource::Parameter(p),
                _ => res == SecretSource::Unset,
            },
        },
{
    match direct {
        Some(v) => {
            if !is_blank(v.as_str()) {
                return SecretSource::Direct(v);
            }
        },
        None => {},
    }
    match parameter_name {
        Some(p) => {
            if !is_blank(p.as_str()) {
                SecretSource::Parameter(p)
            } else {
                SecretSource::Unset
            }
        },
        None => SecretSource::Unset,
    }
}

/// The secret read from the parameter store under `parameter_name`: its value, or an error
/// when the parameter has none.
pub fn parameter_secret(parameter_name: &str, value: Option<String>) -> (res: Result<String, String>)
    ensures
        match value {
            Some(v) => res == Ok::<String, String>(v),
            None => res matches Err(m) && m@ == "SSM parameter '"@ + parameter_name@ + "' has no value"@,
        },
{
    match value {
        Some(v) => Ok(v),
        None => {
            let mut m = String::from_str("SSM parameter '");
            m.append(parameter_name);
            m.append("' has no value");
            Err(m)
        },
    }
}

} // verus!
