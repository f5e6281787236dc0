//! Storage in QuestDB: the line-protocol (ILP) text of a record, the writer's configuration,
//! and the retry policy of ILP writes.

use vstd::prelude::*;
use vstd::std_specs::iter::IteratorSpec;
use crate::error::CoreError;
use crate::fxstreet::{is_success, is_success_status};
use crate::models::EconomicEvent;
use crate::text::{
    parse_unsigned, push_char, push_int, spec_int_text, spec_parse_unsigned,
};
use crate::time::{micros_of, nanos_opt_of};
use vstd::arithmetic::power2::{
    lemma2_to64, lemma2_to64_rest, lemma_pow2_strictly_increases, lemma_pow2_unfold, pow2,
};

verus! {

// ---------------------------------------------------------------------------------------------
// Escaping
// ---------------------------------------------------------------------------------------------

/// Characters that a tag value escapes with a backslash.
pub open spec fn is_tag_special(c: char) -> bool {
    c == ',' || c == '=' || c == ' '
}

/// How one character of a tag value is written.
pub open spec fn escape_tag_char(c: char) -> Seq<char> {
    if is_tag_special(c) {
        seq!['\\', c]
    } else {
        seq![c]
    }
}

/// A tag value with `,`, `=` and ` ` preceded by a backslash, every other character kept.
pub open spec fn spec_escape_tag(s: Seq<char>) -> Seq<char>
    decreases s.len(),
{
    if s.len() == 0 {
        seq![]
    } else {
        spec_escape_tag(s.drop_last()) + escape_tag_char(s.last())
    }
}

/// Characters that a string field escapes.
pub open spec fn is_string_special(c: char) -> bool {
    c == '"' || c == '\n' || c == '\r'
}

/// How one character of a string field is written: `"` as `\"`, a line feed as `\n`, a carriage
/// return as `\r`, every other character as itself.
pub open spec fn escape_string_char(c: char) -> Seq<char> {
    if c == '"' {
        seq!['\\', '"']
    } else if c == '\n' {
        seq!['\\', 'n']
    } else if c == '\r' {
        seq!['\\', 'r']
    } else {
        seq![c]
    }
}

/// A string field with quotes, line feeds and carriage returns escaped.
pub open spec fn spec_escape_string_field(s: Seq<char>) -> Seq<char>
    decreases s.len(),
{
    if s.len() == 0 {
        seq![]
    } else {
        spec_escape_string_field(s.drop_last()) + escape_string_char(s.last())
    }
}

/// Appends `val` escaped as a tag value.
pub fn push_escaped_tag(out: &mut String, val: &str)
    ensures
        final(out)@ == old(out)@ + spec_escape_tag(val@),
{
    let ghost src = val@;
    let ghost start = out@;
    for c in it: val.chars()
        invariant
            it.seq() == src,
            out@ == start + spec_escape_tag(src.take(it.index() as int)),
    {
        proof {
            assert(src.take(it.index() + 1).drop_last() == src.take(it.index() as int));
        }
        if c == ',' || c == '=' || c == ' ' {
            push_char(out, '\\');
        }
        push_char(out, c);
    }
    proof {
        assert(src.take(src.len() as int) == src);
    }
}

/// Appends `val` escaped as a string field.
pub fn push_escaped_string_field(out: &mut String, val: &str)
    ensures
        final(out)@ == old(out)@ + spec_escape_string_field(val@),
{
    let ghost src = val@;
    let ghost start = out@;
    for c in it: val.chars()
        invariant
            it.seq() == src,
            out@ == start + spec_escape_string_field(src.take(it.index() as int)),
    {
        proof {
            assert(src.take(it.index() + 1).drop_last() == src.take(it.index() as int));
        }
        if c == '"' {
            push_char(out, '\\');
            push_char(out, '"');
        } else if c == '\n' {
            push_char(out, '\\');
            push_char(out, 'n');
        } else if c == '\r' {
            push_char(out, '\\');
            push_char(out, 'r');
        } else {
            push_char(out, c);
        }
    }
    proof {
        assert(src.take(src.len() as int) == src);
    }
}

/// `val` escaped as a tag value: `,`, `=` and ` ` preceded by a backslash.
pub fn escape_tag(val: &str) -> (res: String)
    ensures
        res@ == spec_escape_tag(val@),
{
    let mut out = String::new();
    push_escaped_tag(&mut out, val);
    assert(out@ == spec_escape_tag(val@));
    out
}

/// `val` escaped as a string field: `"`, line feed and carriage return written as `\"`, `\n`
/// and `\r`.
pub fn escape_string_field(val: &str) -> (res: String)
    ensures
        res@ == spec_escape_string_field(val@),
{
    let mut out = String::new();
    push_escaped_string_field(&mut out, val);
    assert(out@ == spec_escape_string_field(val@));
    out
}

/// A tag value read back: every backslash that directly precedes `,`, `=` or ` ` dropped.
pub open spec fn spec_unescape_tag(t: Seq<char>) -> Seq<char>
    decreases t.len(),
{
    if t.len() == 0 {
        seq![]
    } else if t.len() >= 2 && is_tag_special(t.last()) && t[t.len() - 2] == '\\' {
        spec_unescape_tag(t.take(t.len() - 2)).push(t.last())
    } else {
        spec_unescape_tag(t.drop_last()).push(t.last())
    }
}

/// The character that an escape code letter of a string field stands for.
pub open spec fn string_code_char(c: char) -> char {
    if c == 'n' {
        '\n'
    } else if c == 'r' {
        '\r'
    } else {
        c
    }
}

/// A string field read back: `\"`, `\n` and `\r` turned back into a quote, a line feed and a
/// carriage return.
pub open spec fn spec_unescape_string_field(t: Seq<char>) -> Seq<char>
    decreases t.len(),
{
    if t.len() == 0 {
        seq![]
    } else if t.len() >= 2 && (t.last() == '"' || t.last() == 'n' || t.last() == 'r') && t[t.len()
        - 2] == '\\' {
        spec_unescape_string_field(t.take(t.len() - 2)).push(string_code_char(t.last()))
    } else {
        spec_unescape_string_field(t.drop_last()).push(t.last())
    }
}

/// Law: escaping a tag value loses nothing. Reading the escaped text back (dropping the
/// backslash before each `,`, `=` and ` `) gives the value that was escaped, so two different
/// tag values are never stored as the same text.
pub proof fn law_tag_escape_round_trip(s: Seq<char>)
    ensures
        spec_unescape_tag(spec_escape_tag(s)) == s,
    decreases s.len(),
{
    if s.len() > 0 {
        let init = s.drop_last();
        let c = s.last();
        law_tag_escape_round_trip(init);
        let t = spec_escape_tag(s);
        if is_tag_special(c) {
            assert(t.take(t.len() - 2) == spec_escape_tag(init));
        } else {
            assert(t.drop_last() == spec_escape_tag(init));
        }
        assert(init.push(c) == s);
    }
}

/// Law: in an escaped tag value every `,`, `=` and ` ` is preceded by a backslash, so none of
/// them can end the tag or the tag set of the line.
pub proof fn law_tag_escape_guards_separators(s: Seq<char>, i: int)
    requires
        0 <= i < spec_escape_tag(s).len(),
        is_tag_special(spec_escape_tag(s)[i]),
    ensures
        i >= 1,
        spec_escape_tag(s)[i - 1] == '\\',
    decreases s.len(),
{
    let t = spec_escape_tag(s);
    if s.len() > 0 {
        let init = s.drop_last();
        let e = spec_escape_tag(init);
        assert(t == e + escape_tag_char(s.last()));
        if i < e.len() {
            assert(t[i] == e[i]);
            law_tag_escape_guards_separators(init, i);
            assert(t[i - 1] == e[i - 1]);
        }
    }
}

/// Whether a string field holds a backslash directly followed by `n` or `r`: text that its
/// escaping leaves as it is, so that it reads back as a line feed or a carriage return.
pub open spec fn has_backslash_code(s: Seq<char>) -> bool {
    exists|i: int| 0 <= i < s.len() - 1 && s[i] == '\\' && (#[trigger] s[i + 1] == 'n' || s[i + 1] == 'r')
}

/// Law: escaping a string field loses nothing, for every field that does not itself hold a
/// backslash directly followed by `n` or `r` (such a field reads back with a line break there,
/// since backslashes are not escaped).
pub proof fn law_string_field_escape_round_trip(s: Seq<char>)
    requires
        !has_backslash_code(s),
    ensures
        spec_unescape_string_field(spec_escape_string_field(s)) == s,
    decreases s.len(),
{
    if s.len() > 0 {
        let init = s.drop_last();
        let c = s.last();
        assert(!has_backslash_code(init)) by {
            if has_backslash_code(init) {
                let i = choose|i: int| 0 <= i < init.len() - 1 && init[i] == '\\' && (#[trigger] init[i + 1] == 'n' || init[i + 1] == 'r');
                assert(s[i] == init[i] && s[i + 1] == init[i + 1]);
            }
        }
        law_string_field_escape_round_trip(init);
        let e = spec_escape_string_field(init);
        let t = spec_escape_string_field(s);
        assert(t == e + escape_string_char(c));
        if is_string_special(c) {
            assert(t.take(t.len() - 2) == e);
        } else {
            assert(t.drop_last() == e);
            if t.len() >= 2 && (c == 'n' || c == 'r') && t[t.len() - 2] == '\\' {
                // the escaped text before `c` ends in a backslash only when `init` does
                lemma_escape_string_last(init);
                assert(s[s.len() - 2] == '\\');
                assert(s[(s.len() - 2) + 1] == c);
                assert(has_backslash_code(s));
            }
        }
        assert(init.push(c) == s);
    }
}

proof fn lemma_escape_string_last(s: Seq<char>)
    requires
        s.len() > 0,
        spec_escape_string_field(s).last() == '\\',
    ensures
        s.last() == '\\',
{
}

/// Law: the wait before a retry doubles from one retry to the next, until it saturates.
pub proof fn law_ilp_backoff_doubles(base: nat, attempt: nat)
    ensures
        spec_ilp_backoff_ms(base, attempt + 1) == if 2 * spec_ilp_backoff_ms(base, attempt)
            > u64::MAX {
            u64::MAX as nat
        } else {
            2 * spec_ilp_backoff_ms(base, attempt)
        },
{
    lemma_pow2_unfold(attempt + 1);
    assert(base * pow2(attempt + 1) == 2 * (base * pow2(attempt))) by (nonlinear_arith)
        requires
            pow2(attempt + 1) == 2 * pow2(attempt),
    ;
}

// ---------------------------------------------------------------------------------------------
// Lines
// ---------------------------------------------------------------------------------------------

/// `prefix` and the escaped tag value, for a tag that is present and not empty.
pub open spec fn optional_tag(prefix: Seq<char>, value: Option<String>) -> Seq<char> {
    match value {
        Some(v) => if v@.len() > 0 {
            prefix + spec_escape_tag(v@)
        } else {
            seq![]
        },
        None => seq![],
    }
}

/// `prefix` and the figure's decimal text, for a figure that is present.
pub open spec fn optional_figure(prefix: Seq<char>, value: Option<String>) -> Seq<char> {
    match value {
        Some(v) => prefix + v@,
        None => seq![],
    }
}

/// The designated timestamp of a line: the event time in nanoseconds, `0` where that does not
/// fit in an `i64`.
pub open spec fn line_timestamp(e: EconomicEvent) -> int {
    match nanos_opt_of(e.event_time@) {
        Some(n) => n,
        None => 0,
    }
}

/// The ILP line of a record: the measurement `economic_events`; the tags `event_id`, `source`,
/// and `country` and `currency` where present and not empty; the string field `title`; the
/// figures `actual`, `forecast`, `previous` where present; the field `ingested_at` in
/// microseconds; and the event time in nanoseconds.
pub open spec fn spec_ilp_line(e: EconomicEvent) -> Seq<char> {
    "economic_events,event_id="@ + spec_escape_tag(e.event_id@) + ",source="@ + spec_escape_tag(
        e.source.tag(),
    ) + optional_tag(",country="@, e.country) + optional_tag(",currency="@, e.currency)
        + " title=\""@ + spec_escape_string_field(e.title@) + "\""@ + optional_figure(
        ",actual="@,
        e.actual,
    ) + optional_figure(",forecast="@, e.forecast) + optional_figure(",previous="@, e.previous)
        + ",ingested_at="@ + spec_int_text(micros_of(e.ingested_at@)) + "t "@ + spec_int_text(
        line_timestamp(e),
    )
}

/// Whether `t` occurs in `s`.
pub open spec fn occurs_in(t: Seq<char>, s: Seq<char>) -> bool {
    exists|i: int| 0 <= i && i + t.len() <= s.len() && #[trigger] s.subrange(i, i + t.len()) == t
}

proof fn lemma_occurs_at_end(x: Seq<char>, t: Seq<char>)
    ensures
        occurs_in(t, x + t),
{
    let s = x + t;
    assert(s.subrange(x.len() as int, s.len() as int) =~= t);
}

proof fn lemma_occurs_at_end2(x: Seq<char>, a: Seq<char>, b: Seq<char>)
    ensures
        occurs_in(a + b, x + a + b),
{
    assert(x + a + b =~= x + (a + b));
    lemma_occurs_at_end(x, a + b);
}

proof fn lemma_occurs_at_end3(x: Seq<char>, a: Seq<char>, b: Seq<char>, c: Seq<char>)
    ensures
        occurs_in(a + b + c, x + a + b + c),
{
    assert(x + a + b + c =~= x + (a + b + c));
    lemma_occurs_at_end(x, a + b + c);
}

proof fn lemma_occurs_extend(t: Seq<char>, s: Seq<char>, y: Seq<char>)
    requires
        occurs_in(t, s),
    ensures
        occurs_in(t, s + y),
{
    let i = choose|i: int| 0 <= i && i + t.len() <= s.len() && #[trigger] s.subrange(i, i + t.len()) == t;
    assert((s + y).subrange(i, i + t.len()) =~= s.subrange(i, i + t.len()));
}

/// Law: the line of a record carries every value of the record. It starts with the
/// measurement and the escaped event id; it holds the source tag, the country and currency tags
/// where they are present and not empty, the escaped title, each figure that is present (whatever
/// the other figures are), and the ingestion time in microseconds; and it ends with a space and
/// the event time in nanoseconds (`0` where that does not fit in an `i64`).
#[verifier::rlimit(50)]
pub proof fn law_ilp_line_carries_every_value(e: EconomicEvent)
    ensures
        ({
            let line = spec_ilp_line(e);
            let head = "economic_events,event_id="@ + spec_escape_tag(e.event_id@);
            let ts = spec_int_text(
                match nanos_opt_of(e.event_time@) {
                    Some(n) => n,
                    None => 0,
                },
            );
            &&& line.len() >= head.len() && line.subrange(0, head.len() as int) == head
            &&& occurs_in(",source="@ + spec_escape_tag(e.source.tag()), line)
            &&& (e.country matches Some(c) && c@.len() > 0) ==> occurs_in(
                ",country="@ + spec_escape_tag(e.country->0@),
                line,
            )
            &&& (e.currency matches Some(c) && c@.len() > 0) ==> occurs_in(
                ",currency="@ + spec_escape_tag(e.currency->0@),
                line,
            )
            &&& occurs_in(" title=\""@ + spec_escape_string_field(e.title@) + "\""@, line)
            &&& e.actual is Some ==> occurs_in(",actual="@ + e.actual->0@, line)
            &&& e.forecast is Some ==> occurs_in(",forecast="@ + e.forecast->0@, line)
            &&& e.previous is Some ==> occurs_in(",previous="@ + e.previous->0@, line)
            &&& occurs_in(",ingested_at="@ + spec_int_text(micros_of(e.ingested_at@)), line)
            &&& line.len() > ts.len() && line.subrange(line.len() - ts.len() - 1, line.len() as int)
                == seq![' '] + ts
        }),
{
    let head = "economic_events,event_id="@ + spec_escape_tag(e.event_id@);
    let l1 = head + ",source="@ + spec_escape_tag(e.source.tag());
    let l2 = l1 + optional_tag(",country="@, e.country);
    let l3 = l2 + optional_tag(",currency="@, e.currency);
    let l4 = l3 + " title=\""@ + spec_escape_string_field(e.title@) + "\""@;
    let l5 = l4 + optional_figure(",actual="@, e.actual);
    let l6 = l5 + optional_figure(",forecast="@, e.forecast);
    let l7 = l6 + optional_figure(",previous="@, e.previous);
    let l8 = l7 + ",ingested_at="@ + spec_int_text(micros_of(e.ingested_at@));
    let l9 = l8 + "t "@;
    let ts = spec_int_text(line_timestamp(e));
    let line = l9 + ts;
    assert(line == spec_ilp_line(e));
    let r8 = "t "@ + ts;
    assert(line =~= l8 + r8);
    let r7 = ",ingested_at="@ + spec_int_text(micros_of(e.ingested_at@)) + r8;
    assert(line =~= l7 + r7);
    let r6 = optional_figure(",previous="@, e.previous) + r7;
    assert(line =~= l6 + r6);
    let r5 = optional_figure(",forecast="@, e.forecast) + r6;
    assert(line =~= l5 + r5);
    let r4 = optional_figure(",actual="@, e.actual) + r5;
    assert(line =~= l4 + r4);
    let r3 = " title=\""@ + spec_escape_string_field(e.title@) + "\""@ + r4;
    assert(line =~= l3 + r3);
    let r2 = optional_tag(",currency="@, e.currency) + r3;
    assert(line =~= l2 + r2);
    let r1 = optional_tag(",country="@, e.country) + r2;
    assert(line =~= l1 + r1);
    let r0 = ",source="@ + spec_escape_tag(e.source.tag()) + r1;
    assert(line =~= head + r0);
    // the head
    assert(line.subrange(0, head.len() as int) =~= head);
    // each piece occurs at the end of its prefix, and so in the whole line
    lemma_occurs_at_end2(head, ",source="@, spec_escape_tag(e.source.tag()));
    lemma_occurs_extend(",source="@ + spec_escape_tag(e.source.tag()), l1, r1);
    if e.country matches Some(c) && c@.len() > 0 {
        lemma_occurs_at_end(l1, optional_tag(",country="@, e.country));
        lemma_occurs_extend(optional_tag(",country="@, e.country), l2, r2);
    }
    if e.currency matches Some(c) && c@.len() > 0 {
        lemma_occurs_at_end(l2, optional_tag(",currency="@, e.currency));
        lemma_occurs_extend(optional_tag(",currency="@, e.currency), l3, r3);
    }
    lemma_occurs_at_end3(l3, " title=\""@, spec_escape_string_field(e.title@), "\""@);
    lemma_occurs_extend(" title=\""@ + spec_escape_string_field(e.title@) + "\""@, l4, r4);
    if e.actual is Some {
        lemma_occurs_at_end(l4, optional_figure(",actual="@, e.actual));
        lemma_occurs_extend(optional_figure(",actual="@, e.actual), l5, r5);
    }
    if e.forecast is Some {
        lemma_occurs_at_end(l5, optional_figure(",forecast="@, e.forecast));
        lemma_occurs_extend(optional_figure(",forecast="@, e.forecast), l6, r6);
    }
    if e.previous is Some {
        lemma_occurs_at_end(l6, optional_figure(",previous="@, e.previous));
        lemma_occurs_extend(optional_figure(",previous="@, e.previous), l7, r7);
    }
    lemma_occurs_at_end2(l7, ",ingested_at="@, spec_int_text(micros_of(e.ingested_at@)));
    lemma_occurs_extend(",ingested_at="@ + spec_int_text(micros_of(e.ingested_at@)), l8, r8);
    // the tail
    reveal_strlit("t ");
    assert(line.subrange(line.len() - ts.len() - 1, line.len() as int) =~= seq![' '] + ts);
}

fn push_optional_tag(out: &mut String, prefix: &str, value: &Option<String>)
    ensures
        final(out)@ == old(out)@ + optional_tag(prefix@, *value),
{
    match value {
        Some(v) => {
            if !v.as_str().is_empty() {
                out.append(prefix);
                push_escaped_tag(out, v.as_str());
            } else {
                assert(old(out)@ + seq![] == old(out)@);
            }
        },
        None => {
            assert(old(out)@ + seq![] == old(out)@);
        },
    }
}

fn push_optional_figure(out: &mut String, prefix: &str, value: &Option<String>)
    ensures
        final(out)@ == old(out)@ + optional_figure(prefix@, *value),
{
    match value {
        Some(v) => {
            out.append(prefix);
            out.append(v.as_str());
        },
        None => {
            assert(old(out)@ + seq![] == old(out)@);
        },
    }
}

/// Appends the ILP line of `event`, without a line end.
pub fn push_ilp_line(out: &mut String, event: &EconomicEvent)
    ensures
        final(out)@ == old(out)@ + spec_ilp_line(*event),
{
    let ghost start = out@;
    let ghost e = *event;
    out.append("economic_events,event_id=");
    push_escaped_tag(out, event.event_id.as_str());
    out.append(",source=");
    push_escaped_tag(out, event.source.as_ilp_tag());
    push_optional_tag(out, ",country=", &event.country);
    push_optional_tag(out, ",currency=", &event.currency);
    out.append(" title=\"");
    push_escaped_string_field(out, event.title.as_str());
    out.append("\"");
    push_optional_figure(out, ",actual=", &event.actual);
    push_optional_figure(out, ",forecast=", &event.forecast);
    push_optional_figure(out, ",previous=", &event.previous);
    out.append(",ingested_at=");
    push_int(out, event.ingested_at.timestamp_micros());
    out.append("t ");
    let nanos: i64 = match event.event_time.timestamp_nanos_opt() {
        Some(n) => n,
        None => 0,
    };
    push_int(out, nanos);
    assert(out@ == start + spec_ilp_line(e));
}

/// The ILP line of `event` (without a line end).
pub fn to_ilp_line(event: &EconomicEvent) -> (res: String)
    ensures
        res@ == spec_ilp_line(*event),
{
    let mut out = String::new();
    push_ilp_line(&mut out, event);
    assert(out@ == spec_ilp_line(*event));
    out
}

/// The ILP text of a batch: each record's line followed by a line feed.
pub open spec fn spec_ilp_payload(events: Seq<EconomicEvent>) -> Seq<char>
    decreases events.len(),
{
    if events.len() == 0 {
        seq![]
    } else {
        spec_ilp_payload(events.drop_last()) + spec_ilp_line(events.last()) + seq!['\n']
    }
}

/// The ILP text to send for a batch, or `None` for an empty batch (which is not sent at all).
pub fn ilp_batch_payload(events: &[EconomicEvent]) -> (res: Option<String>)
    ensures
        res is None <==> events@.len() == 0,
        res matches Some(p) ==> p@ == spec_ilp_payload(events@),
{
    if events.len() == 0 {
        return None;
    }
    let mut payload = String::new();
    let mut i: usize = 0;
    while i < events.len()
        invariant
            i <= events@.len(),
            payload@ == spec_ilp_payload(events@.take(i as int)),
        decreases events@.len() - i,
    {
        push_ilp_line(&mut payload, &events[i]);
        push_char(&mut payload, '\n');
        proof {
            assert(events@.take(i + 1).drop_last() == events@.take(i as int));
        }
        i = i + 1;
    }
    proof {
        assert(events@.take(events@.len() as int) == events@);
    }
    Some(payload)
}

// ---------------------------------------------------------------------------------------------
// Writer configuration
// ---------------------------------------------------------------------------------------------

/// The statement that creates the events table when it does not exist yet.
pub const CREATE_TABLE_QUERY: &'static str = "CREATE TABLE IF NOT EXISTS economic_events (
            event_id SYMBOL,
            country SYMBOL,
            currency SYMBOL,
            title STRING,
            actual DOUBLE,
            forecast DOUBLE,
            previous DOUBLE,
            source SYMBOL,
            ingested_at TIMESTAMP,
            event_time TIMESTAMP
        ) TIMESTAMP(event_time) PARTITION BY MONTH
        DEDUP UPSERT KEYS(event_time, event_id);";

/// A setting's text: the value given, or the default.
pub open spec fn setting_or(value: Option<String>, default: Seq<char>) -> Seq<char> {
    match value {
        Some(v) => v@,
        None => default,
    }
}

/// Where a QuestDB instance listens: its host, its HTTP port (for statements) and its ILP port
/// (for writes).
#[derive(Debug)]
pub struct QuestDbWriter {
    pub host: String,
    pub http_port: u16,
    pub ilp_port: u16,
}

impl QuestDbWriter {
    /// The writer configured by the environment variables `QUESTDB_HOST`, `QUESTDB_ILP_PORT`
    /// and `QUESTDB_HTTP_PORT`, given as their values (`None` where unset): the host (default
    /// `127.0.0.1`), the ILP port (default `9009`) and the HTTP port (default `9000`). A port
    /// that is not a `u16` is a configuration error, the ILP port's checked first.
    pub fn from_env(host: Option<String>, ilp_port: Option<String>, http_port: Option<
        String,
    >) -> (res: Result<QuestDbWriter, CoreError>)
        ensures
            ({
                let ilp = spec_parse_unsigned(setting_or(ilp_port, "9009"@), u16::MAX as nat);
                let http = spec_parse_unsigned(setting_or(http_port, "9000"@), u16::MAX as nat);
                match res {
                    Ok(w) => ilp is Some && http is Some && w.host@ == setting_or(
                        host,
                        "127.0.0.1"@,
                    ) && w.ilp_port == ilp.unwrap() && w.http_port == http.unwrap(),
                    Err(e) => e is Config && (if ilp is None {
                        e->Config_0@ == "Invalid QUESTDB_ILP_PORT"@
                    } else {
                        http is None && e->Config_0@ == "Invalid QUESTDB_HTTP_PORT"@
                    }),
                }
            }),
    {
        let host = match host {
            Some(h) => h,
            None => String::from_str("127.0.0.1"),
        };
        let ilp_text = match ilp_port {
            Some(p) => p,
            None => String::from_str("9009"),
        };
        let ilp_port = match parse_unsigned(ilp_text.as_str(), 65535) {
            Some(p) => p as u16,
            None => {
                return Err(CoreError::Config(String::from_str("Invalid QUESTDB_ILP_PORT")));
            },
        };
        let http_text = match http_port {
            Some(p) => p,
            None => String::from_str("9000"),
        };
        let http_port = match parse_unsigned(http_text.as_str(), 65535) {
            Some(p) => p as u16,
            None => {
                return Err(CoreError::Config(String::from_str("Invalid QUESTDB_HTTP_PORT")));
            },
        };
        Ok(QuestDbWriter { host, http_port, ilp_port })
    }

    /// The address that ILP writes go to: `host:ilp_port`.
    pub fn ilp_address(&self) -> (res: String)
        ensures
            res@ == self.host@ + ":"@ + spec_int_text(self.ilp_port as int),
    {
        let mut out = self.host.clone();
        out.append(":");
        push_int(&mut out, self.ilp_port as i64);
        out
    }

    /// The URL that statements go to: `http://host:http_port/exec`.
    pub fn exec_url(&self) -> (res: String)
        ensures
            res@ == "http://"@ + self.host@ + ":"@ + spec_int_text(self.http_port as int)
                + "/exec"@,
    {
        let mut out = String::from_str("http://");
        out.append(self.host.as_str());
        out.append(":");
        push_int(&mut out, self.http_port as i64);
        out.append("/exec");
        out
    }
}

/// The error for a table-creation statement that QuestDB refused, given the status line and
/// the body of its answer.
pub fn table_creation_error(status: &str, body: &str) -> (res: CoreError)
    ensures
        res is QuestDb,
        res->QuestDb_0@ == "Failed to create table. Status: "@ + status@ + ", body: "@ + body@,
{
    let mut out = String::from_str("Failed to create table. Status: ");
    out.append(status);
    out.append(", body: ");
    out.append(body);
    CoreError::QuestDb(out)
}

/// The outcome of the table-creation statement, from QuestDB's answer: its status code, its
/// status line and its body. A `2xx` status is success; any other is the error that quotes the
/// status line and the body.
pub fn table_creation_result(status: u16, status_line: &str, body: &str) -> (res: Result<
    (),
    CoreError,
>)
    ensures
        is_success_status(status as int) ==> res is Ok,
        !is_success_status(status as int) ==> (res matches Err(CoreError::QuestDb(m)) && m@
            == "Failed to create table. Status: "@ + status_line@ + ", body: "@ + body@),
{
    if is_success(status) {
        Ok(())
    } else {
        Err(table_creation_error(status_line, body))
    }
}

// ---------------------------------------------------------------------------------------------
// Retry policy of ILP writes
// ---------------------------------------------------------------------------------------------

/// `2` to the power `e`, for `e` below 64.
pub fn pow2_u64(e: u32) -> (res: u64)
    requires
        e < 64,
    ensures
        res == pow2(e as nat),
{
    let mut r: u64 = 1;
    let mut i: u32 = 0;
    proof {
        lemma2_to64();
    }
    while i < e
        invariant
            i <= e < 64,
            r == pow2(i as nat),
        decreases e - i,
    {
        proof {
            lemma_pow2_unfold((i + 1) as nat);
            lemma_pow2_strictly_increases(i as nat, 63);
            lemma2_to64_rest();
        }
        r = r * 2;
        i = i + 1;
    }
    r
}

/// How long to wait before retry `attempt + 1`: `base · 2^attempt` milliseconds, saturating at
/// `u64::MAX`.
pub open spec fn spec_ilp_backoff_ms(base: nat, attempt: nat) -> nat {
    if base * pow2(attempt) > u64::MAX {
        u64::MAX as nat
    } else {
        base * pow2(attempt)
    }
}

/// How often and how patiently ILP writes are retried.
#[derive(Clone, Copy, Debug, PartialEq, Eq, Structural)]
pub struct IlpRetryPolicy {
    /// Retries after the first attempt.
    pub max_retries: u32,
    /// The wait before the first retry, in milliseconds.
    pub base_backoff_ms: u64,
}

/// What to do after an ILP write attempt failed.
#[derive(Debug)]
pub enum IlpRetryStep {
    /// Wait this many milliseconds, then try again.
    Retry { backoff_ms: u64 },
    /// Stop, failing with this error.
    GiveUp(CoreError),
}

impl IlpRetryPolicy {
    /// The policy configured by `QUESTDB_WRITE_MAX_RETRIES` and `QUESTDB_WRITE_RETRY_BASE_MS`,
    /// given as their values (`None` where unset): the retries (default `3`) and the base wait
    /// in milliseconds (default `200`); a value that does not parse takes its default.
    pub fn from_settings(max_retries: Option<String>, base_backoff_ms: Option<String>) -> (res:
        IlpRetryPolicy)
        ensures
            res.max_retries == (match max_retries {
                Some(t) => match spec_parse_unsigned(t@, u32::MAX as nat) {
                    Some(v) => v,
                    None => 3,
                },
                None => 3,
            }),
            res.base_backoff_ms == (match base_backoff_ms {
                Some(t) => match spec_parse_unsigned(t@, u64::MAX as nat) {
                    Some(v) => v,
                    None => 200,
                },
                None => 200,
            }),
    {
        let max_retries: u32 = match max_retries {
            Some(t) => match parse_unsigned(t.as_str(), 0xFFFF_FFFF) {
                Some(v) => v as u32,
                None => 3,
            },
            None => 3,
        };
        let base_backoff_ms: u64 = match base_backoff_ms {
            Some(t) => match parse_unsigned(t.as_str(), 0xFFFF_FFFF_FFFF_FFFF) {
                Some(v) => v,
                None => 200,
            },
            None => 200,
        };
        IlpRetryPolicy { max_retries, base_backoff_ms }
    }

    /// The wait before retry `attempt + 1`, in milliseconds.
    pub fn backoff_ms(&self, attempt: u32) -> (res: u64)
        requires
            attempt < 64,
        ensures
            res == spec_ilp_backoff_ms(self.base_backoff_ms as nat, attempt as nat),
    {
        let factor = pow2_u64(attempt);
        match self.base_backoff_ms.checked_mul(factor) {
            Some(v) => v,
            None => 0xFFFF_FFFF_FFFF_FFFFu64,
        }
    }

    /// What to do after attempt `attempt` (counted from `0`) failed with `error`: retry after the
    /// backoff while retries are left, otherwise give up with that error.
    pub fn after_failure(&self, attempt: u32, error: CoreError) -> (res: IlpRetryStep)
        requires
            attempt <= self.max_retries,
            attempt < self.max_retries ==> attempt < 64,
        ensures
            attempt < self.max_retries ==> res == (IlpRetryStep::Retry {
                backoff_ms: spec_ilp_backoff_ms(self.base_backoff_ms as nat, attempt as nat) as u64,
            }),
            attempt == self.max_retries ==> res == IlpRetryStep::GiveUp(error),
    {
        if attempt < self.max_retries {
            IlpRetryStep::Retry { backoff_ms: self.backoff_ms(attempt) }
        } else {
            IlpRetryStep::GiveUp(error)
        }
    }
}

} // verus!
