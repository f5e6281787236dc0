# orderx_core

Verified core of an ingestion engine for economic-calendar events: events are fetched from a
calendar API (by webhook or by a historical backfill) and stored in QuestDB over the InfluxDB
line protocol (ILP).

The library (`src/`) is written in Verus. Its functions carry contracts that Verus proves, except
four small wrappers around outside calls (`String::push`, `str::to_lowercase`, chrono's RFC 3339
formatting and the system clock), whose contracts are trusted and say so in their doc comments.

- `text`: decimal rendering and parsing of integers, Unicode white space, trimming.
- `time`: `UtcTimestamp`, an instant in the range of `chrono::DateTime<Utc>`.
- `error`: `CoreError`, and which errors are transient and retried.
- `models`: the raw API event, the stored record, and the conversion between them.
- `questdb`: escaping, the ILP line of a record, the writer's configuration, the write retry
  policy; and the laws that escaping loses nothing.
- `fxstreet`: the API client's configuration, the requests it sends, its mock events.
- `backfill`: paging through a date range as a state machine (fetch, retry, write, count).
- `webhook`: answering a webhook call as a state machine (authorise, parse, fetch, write).

`app/` holds the programs around it (the backfill command line and the webhook Lambda): reading
the environment and arguments, HTTP and TCP, JSON, timers and logging. It drives the library's
state machines and performs the actions they return.
