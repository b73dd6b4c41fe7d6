# yagna (verified core)

The decision-making parts of a Golem network node, proved with Verus.

- `src/` — the verified library:
  - `web`, `market_provider`, `activity_provider`: which REST call each
    Market/Activity API operation makes (verb, path, query, payload).
  - `time`: instants and spans as plain numbers; the system clock (read
    through `std::time::SystemTime`, which unlike `chrono::Utc::now` does not
    panic on a clock set before 1970). Instants are well-formed when their
    sub-second part is below one second, which leaves out chrono's
    leap-second instants.
  - `task_manager`, `props_table`, `task_flow`: the provider's task manager —
    agreement messages, expiration timers, the table of agreement properties,
    and each message handler as a step machine with its plan. The properties
    table is a `Vec` of entries with unique keys rather than a `HashMap`:
    vstd's `HashMap` specification, with `String` keys, gives nothing that
    proofs of a lookup after an insert can use, so the table is proved on
    its own.
  - `version_db`: what is stored of a published release and which stored
    release is offered as an update.
  - `batch_requestor`, `command_helpers`: the batch requestor's builders and
    its session with the market as a step machine.
- `app/` — the I/O around it: HTTP calls, the release table in SQLite, actix
  actors and message types, serde models with floating-point fields.
- `tests/` — tests of the library on concrete values.
