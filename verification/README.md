# warqueen

Message based networking over QUIC, no async, no blocking: a client connects,
sends messages and polls events in a loop; a server polls new clients, and for
each client sends messages and polls events.

- `src/` is the verified library: the life cycle of a client connection
  (`client`, with its laws in `client_laws`), the classification of the
  transport's errors and of sending results (`transport_errors`, `sending`),
  the server's decisions (`server`), the waiting for a proper disconnection
  (`disconnection`) and the choice of async runtime (`runtime`).
- `app/` is the transport around it: Quinn endpoints and connections, the
  tokio tasks that send and receive, MessagePack serialization, the TLS
  configuration. It hands every outcome of the transport to the library and
  does what the library decides.
- `tests/` runs the library on concrete values.
