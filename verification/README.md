# tricoredb

A client for TriCoreDB: SQL, documents, vectors, graphs and cache over one
native connection. Everything that is decided about a session is verified with
[Verus](https://github.com/verus-lang/verus); sockets, files and threads are
ordinary Rust around it.

## Layout

| Path | Contents |
| --- | --- |
| `src/` | The verified library. It opens no socket. |
| `app/` | The blocking client over TCP and TLS, and the pool shared by threads. |
| `tests/` | Tests of the library. |

## How the library is used

A `Client` holds what is known of one session. A call such as `Client::query`
returns the frame to write, or refuses its arguments; the matching reply method
takes the frame that was read, or the failure to read one, and returns the typed
result. A reply that does not come, or that the connection cannot outlive, ends
the session, and every later call reports it.

`Pool` decides who may borrow which connection, `Dial` which address is tried
next, and `tls` whom a session trusts. JSON is read and written by `serde_json`,
certificates and server names are checked by `rustls`; `src/codec.rs`,
`src/tls.rs` and `src/text.rs` hold the few calls that are trusted.
