# qubit-http, verified core

The decision-making core of an HTTP client toolkit, written in Verus. The
functions in `src/` are verified by Verus against their `requires`/`ensures`
contracts; a few trusted wrappers around outside crates (marked
`#[verifier::external_body]`) carry contracts that are assumed, not proved.

## Layout

- `src/options/` — client settings: timeouts, proxy, logging, retry, SSE
  defaults, sensitive headers; reading them from configuration values and
  validating them, with errors that name the offending configuration path.
- `src/error/` — the error model: kinds, retry hints, retry diagnostics,
  transport-failure classification, `Retry-After` parsing, body previews.
- `src/client/` — client-side decisions: the transport build plan, request
  URL resolution, status checks, retry classification and the error a retry
  flow ends with, SSE reconnect state, streamed-body read steps.
- `src/logging/`, `src/redact/` — masking of sensitive header values, the log
  redactor built from the redaction settings (through `qubit-redact`), the
  redacted TRACE lines of requests and responses, and URLs redacted inside
  diagnostic text.
- `src/header.rs`, `src/content_type.rs`, `src/text.rs` — header lists,
  Content-Type parsing, and the text helpers the rest is built on.
- `app/` — ordinary Rust around the core: reading configuration, building the
  `reqwest` client from the verified plan, emitting the verified log lines,
  JSON decoding, the fractional retry settings, and sending one request
  with the verified pieces. The retry loop and the SSE reconnect runner are
  not part of this crate; their decisions are in `src/client/`.
- `tests/` — executable tests of the library.

The calls into outside crates that `src/` makes (`http`, `url`, `httpdate`,
`serde_json`, `reqwest`, `qubit-redact`, std formatting, lower-casing, UTF-8
decoding and the clock) go through small trusted wrappers; each one's doc
comment says what its contract assumes.
