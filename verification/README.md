# tmq (XPUB/XSUB)

XPUB and XSUB socket types over ZeroMQ.

- `src/` is the verified library: the subscription messages an XSUB socket
  sends upstream (`subscription.rs`), the XPUB socket options and the
  last-endpoint query (`socket_types/xpub.rs`), the XSUB socket
  (`socket_types/xsub.rs`), the error type (`error.rs`) and the ZeroMQ calls
  the library relies on (`zmq_api.rs`).
- `app/` creates, binds and connects sockets, sends subscription messages
  without blocking, and sets the two XPUB options the `zmq` crate does not
  expose.
- `tests/` exercises the library, partly against real ZeroMQ sockets over
  `inproc://` endpoints.
