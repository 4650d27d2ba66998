# meshops

Dynamic DNS service: it looks up the host's public address, keeps Cloudflare
DNS records pointed at it on a schedule, and offers a token-protected HTTP API
for the records, a status report and Prometheus counters.

`src/` is the library, verified with Verus:

- `config` — the configuration sections, their defaults, and validation.
- `models` — the values the API reads and answers with.
- `store` — the rows kept in the record database, record updates, access tokens.
- `metrics` — the counters and their text exposition.
- `ip` — which lookup service answers for which record type, and reading its answer.
- `cloudflare` — zone of a name, request URLs and headers, and updating one record as a state machine.
- `sync` — one synchronisation run as a state machine, and the status report.
- `scheduler` — when the next run happens.
- `limits` — retry with exponential backoff, and the API's per-minute rate limit.
- `api` — the decisions behind the HTTP endpoints.
- `text`, `http`, `clock` — string operations, and the calls into `reqwest` and `chrono`.

`app/` is the service around it: configuration file loading, the SQLite
database, HTTP requests to the lookup services and to Cloudflare, the axum
server and the scheduler loop.
