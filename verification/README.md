# blooio

Typed bindings for the Blooio messaging API, built as a sans-IO core whose
logic is verified with Verus.

## Layout

- `src/` holds the verified library: the request model (`request`, `options`,
  `operation`), the retry and rate-limit rules (`retry`, `ratelimit`,
  `executor`), the pagination cursor (`pagination`), error mapping (`error`,
  `response`), raw response data (`raw`), JSON and multipart encoding (`json`, `multipart`, `encode`),
  credentials and secrets (`credentials`, `secret`), redacted diagnostics
  (`diagnostics`), and one module per API resource under `resources/`.
  Public functions state in `ensures` what they return or change; the laws that
  span several functions are public proof functions named `law_*`.
- `app/` holds the transports that Verus does not see: the async client
  (reqwest), the blocking client (ureq), the paginator loop, environment
  lookup, serde copies of the wire types and the tracing sinks.
- `tests/` runs the library on concrete values.

Calls into outside crates that stay inside the library (`http` for header and
URI validation and header maps, `bytes` for response bodies, `uuid` for idempotency keys, `serde_json` for value
maps and JSON strings) sit
behind small trusted wrappers whose doc comments state what is assumed of them.
