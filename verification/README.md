# pgwire_replication

The verified core of a PostgreSQL logical replication client, in Verus, and the
tokio client around it.

- `src/` is the library. All of its own logic is verified.
  - `protocol/` reads error responses, authentication requests and data rows, and
    the server identity that `IDENTIFY_SYSTEM` reports.
  - `client/` decides what the client does around its background worker: the
    connection to open, the start of the stream, and what `recv`, `join`,
    `shutdown`, `abort` and dropping the client come to.
  - `config.rs`, `error.rs`, `lsn.rs` and `text.rs` hold what both share.
- `app/` is the client itself: sockets, channels and tasks. The replication
  protocol on the open stream and the implementation of TLS are plugged in through
  the traits `StreamWorker` and `TlsUpgrade`.
- `tests/` runs the library.

A spec function says what each message means; the function that reads it is proved
to give exactly that. The proof functions named `law_..` state what holds across
functions, such as that a row, a response or an identity is read back from the
bytes that carry it.

## What is believed without proof

Seven functions wrap a call into the `bytes` crate or the standard library. Verus
believes their contracts; the doc comment above each says what it claims.

| Function | Calls |
|---|---|
| `protocol::wire::get_i16` | `bytes::Buf::get_i16` |
| `protocol::wire::get_i32` | `bytes::Buf::get_i32` |
| `protocol::wire::advance` | `bytes::Buf::advance` |
| `text::from_utf8_lossy` | `String::from_utf8_lossy` |
| `text::from_utf8` | `std::str::from_utf8` |
| `text::parse_u32` | `str::parse::<u32>` |
| `client::startup::duration_text` | `Debug` of `std::time::Duration` |

Four declarations make outside types known, with nothing seen inside them:
`text::ExParseIntError` for `std::num::ParseIntError`,
`client::worker::ExJoinError` for `tokio::task::JoinError`, `error::ExIoError` for
`std::io::Error` and `error::ExIoErrorKind` for `std::io::ErrorKind`.

Three names stand for results that depend on their arguments alone and are not
spelled out: `text::utf8_replaced`, `text::parse_u32_complaint` and
`client::startup::duration_debug`.
