# spectre

Verified core of the SPECTRE fleet services, written in Verus.

- `src/` is the library. Each module states its behaviour in contracts and
  proves them: identities and their text forms (`types`, `encoding`), the
  shared error type (`error`), service configuration (`config`), the proxy's
  circuit breaker (`circuit`), authentication decisions (`auth`), HTTP error
  answers and guarded publication (`proxy`), events and NATS connection
  planning (`events`, `bus`), observability choices (`observability`), TLS
  material from PEM text (`tls`), and the
  secrets engine (`secrets`: password-based encryption, rotation, storage).
  Calls into outside crates (uuid, hex, argon2, aes-gcm, rand, chrono,
  async-nats, rustls-pemfile, tracing-subscriber) and the clock go through small trusted wrappers whose
  contracts are documented beside them.
- `app/` is the program around it: environment and files, logging and
  telemetry, the NATS client, the HTTP server, the TLS server setup.
- `tests/` exercises the library on concrete values.
