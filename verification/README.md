# openintent-adapters

Service adapters for an intent-driven assistant: e-mail (IMAP/SMTP), CalDAV
calendars, GitHub, Feishu, Discord, Bilibili live rooms, DingTalk robots,
Douyin, a headless Chrome browser driven over the DevTools protocol, a
sandboxed filesystem, an in-memory cron registry and a daily briefing.

Each adapter lists its tools (name, description, JSON parameter schema) and
turns a tool call into either a result or a request for the network, and
turns the service's reply back into a result.

## Layout

- `src/` — the library, verified with Verus. Every adapter decides here:
  which tool a call names, which parameters are missing, what request goes
  out (URL, method, body, signatures), how a reply or an error from the
  service is read, and what the tool returns. Shared pieces: `json` (a JSON
  value model, lookups and compact serialization), `text` (string and
  sequence utilities with their specifications), `error`, `traits` (tool
  definitions, health, auth requirements), `crypto`, `urlencoding`.
  Calls into outside crates (base64, sha2/hmac, chrono, uuid, url,
  serde_json) stand behind small trusted wrappers whose contracts say what
  those crates document.
- `tests/` — tests of the library, run against the real outside crates.
- `app/` — the asynchronous services around the library: HTTP with
  `reqwest`, IMAP/SMTP over TLS, the DevTools WebSocket, file access and
  environment settings. Each service asks the library what to do, performs
  the I/O and hands the reply back to the library; the multi-step mail and
  DevTools conversations are decided step by step in the library
  (`email::session`, `browser::cdp`).

## Laws proved in `src/`

- The tools an adapter lists are exactly those it executes
  (`law_listed_tools_are_executed` in each adapter).
- Cron registry: ids stay unique, a created job can be deleted, deleting
  forgets, toggling sets the flag (`cron.rs`).
- Filesystem: normalization is idempotent, leaves no `.` and `..` only at
  the start, and a resolved path stays under the root
  (`law_normalize_idempotent`, `law_normalized_shape`,
  `law_resolved_path_stays_in_root`); an existing target acts on its
  canonical path, refused when that leaves the root (`canonical_request`).
- URL encoding: decoding an encoding gives back the bytes
  (`law_decode_encoded`).
- Calendar: the text `generate_ical_event` writes reads back as one event
  with the keys `uid`, `dtstart`, … and the fields given
  (`law_parse_generated_event`), and as JSON its fields are those
  written (`law_generated_event_json`).
- Token caches: a token read right after it is stored is that token, until
  it is close to expiry (DingTalk, Douyin).
- Tool schemas render as their exact JSON text (`ParamSchema::to_json`).
- E-mail: calls are refused before parameters are read
  (`law_refusals_come_first`); the inbox window of `count` messages ends at the newest message
  (`law_inbox_window`).
