# clickhouse_c

Verified core of a ClickHouse client for the Native format and the native TCP
protocol. The [clickhouse-c](https://github.com/ClickHouse/clickhouse-c) library
encodes and decodes bytes; this crate holds what surrounds it, and Verus proves
it against its contracts.

- `src/` is the verified library. `sys` describes the records of the C interface
  as plain values. `column` and `block` give access to decoded data and validate
  it, `builder` describes columns and blocks over borrowed data, `types` inspects
  types, `client`, `query` and `codec` check and convert settings and turn packets
  into events, `ioless` and `async_client` order the steps of clients that do
  their own I/O, `io` and `tls` hold the parts of transports that need no socket,
  and `error` and `text` say what went wrong. Functions named `law_*` state what
  holds of several operations together.
- `app/` is ordinary Rust around the library: the C declarations, ownership of C
  memory, sockets, TLS streams and the Tokio client.
- `tests/` runs the library on concrete values.

The codes in `sys` must be those of the linked clickhouse-c revision. Its LZ4
and Zstandard codecs need liblz4 and libzstd. Unix only.
