# MotorGuard

A motorcycle safety and group-riding platform: ride tracking, live group
location sharing over WebSocket, emergency SOS alerts to emergency contacts,
and phone-number authentication with one-time passcodes and JSON Web Tokens.

## Layout

- `src/` — the library, written in Verus. The platform's rules on integer,
  text and identifier data are functions with contracts proved by Verus;
  the floating point location and ride statistics and the storage and
  network I/O are in `app/`:
  - `errors` — the application error type, its HTTP status, code and message.
  - `ids`, `types`, `models` — identifiers (UUID values), enumerations with
    their textual and stored forms, and the domain records.
  - `rides` — the ride lifecycle (who may start, pause, resume, finish a
    ride, and the status it moves to), durations and paging.
  - `safety`, `notifications` — SOS decisions: how alerts go out under the
    configuration, how many contacts count as notified, which events may be
    resolved; SMS provider requests.
  - `groups`, `live` — group membership rules, the registry of per-group
    broadcast channels, and the admission and event handling of live
    sessions.
  - `auth` — phone number format, passcodes (bcrypt-hashed), and HS256
    access and refresh tokens.
  - `api`, `config`, `storage` — request field rules and responses, reading
    the configuration from environment values, and storage error mapping.
- `tests/` — tests of the library on concrete values.
- `app/` — the server around the library: Axum routes and handlers, the
  WebSocket loop, SQLite storage with SQLx, SMS delivery, and the floating
  point location and ride statistics.

Instants are kept as microseconds since the Unix epoch; floating point
quantities in records are carried as the bit patterns of their `f64` values.
