# sni_prob

Probes for SNI-based blocking: it connects to given IP addresses and starts a
TLS handshake with each domain under test as the server name, then judges from
how the handshake ends whether the name is blocked (the connection was reset),
served with a mismatched certificate (not blocked), or reachable.

- `src/` is the verified library: the classification of handshake outcomes
  (`utils`, `types`), the per-probe state machine (`probe`), the TLS client
  set-up through rustls (`tls`), text rendering (`text`), error types
  (`error`) and the laws that hold across them (`laws`).
- `app/` is the command-line program: argument parsing, the TCP and TLS I/O
  that the state machine asks for, and the coloured output.
