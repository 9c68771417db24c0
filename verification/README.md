# dam_db

Postgres access for an asset library: who may see what, what is written, what is refused, and why.

The library under `src/` never talks to a server. Each module takes rows as plain values, decides, and hands back
plain values, a refusal, or a statement to run. Its contracts are stated and proved with Verus. `app/` is the ordinary
Rust around it: it acquires connections, runs the statements with sqlx, and turns rows into the library's values.

## Plain values

- An identifier is its 128 bits (`Uuid`), an instant is microseconds since the Unix epoch (`Instant`), a calendar day is
  days since the epoch.
- A document is a `json::Json`; its object form with unique keys is a `json::Document`. A number that is no 64-bit
  integer keeps the text it is written in, so no floating point is needed.
- A condition that a planner rendered is a `query_sql::Planned`: text and values in alternation.

## Two kinds of statement

- `sql::Statement` is assembled piece by piece (`sqlx::QueryBuilder`). Every renderer says which text and which bound
  values it makes of the statement it was given, so that nothing a caller typed ever becomes text.
- `commands::Command` has a fixed text and a value for each placeholder. Where a write is governed, the function that
  decides returns the command or the refusal.

## Where things are

- People: `auth`, `members`, `audit`, `comments`, `engagement`, `proofing`, `events`, `judgements`.
- The library: `access`, `assets`, `attachments`, `categories`, `collections`, `facets`, `orders`, `insights`.
- Metadata: `fields`, `metadata`, `metadata_types`, `auto_import`, `enrichment`, `imports`, `bulk`.
- Sites: `branding`, `connectors`, `connector_refs`, `conversions`, `portals`.
- Storage: `derivatives`, `integrity`, `metering`.
- The queue and notifications: `jobs` (with `turns`, which orders what waits), `paths`.
- Tenancy: `migrate`, `provision`.
- Shared: `text`, `lists`, `json`, `sql`, `commands`, `query_sql`, `versions`.

What holds across functions is stated as public proof functions beside the functions it is about, each under a name
that says it: `jobs::tenants_take_turns`, `audit::an_altered_entry_is_reported`,
`members::an_administrator_always_remains` and the like.
