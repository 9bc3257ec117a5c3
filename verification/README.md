# quicssh_rs

An SSH-over-QUIC proxy, split into a verified library and a thin program.

- `src/` (verified with Verus): socket addresses (`addr`), the MTU upper
  bound option and a `u16` reader (`mtu`), string helpers (`text`), the
  proxy table (`proxy`), the client's URL, options and connection target
  (`client`), the server's configuration, routing and QUIC server
  configuration (`server`), transport settings (`transport`), the steps of
  the byte relays (`relay`) and the logging configuration (`logging`).
- `app/`: the command line, name resolution, sockets, the TLS certificate
  verifier, the async relay loops and log4rs set-up, all calling the library
  for their decisions.
- `tests/`: tests of the library.
