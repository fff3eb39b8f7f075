# rust_basics

A small workspace of HTTP services (`ping`, `heartbeat`, `tasks`, `consumer`)
and the libraries they share, with its core written in Verus and proved.

- `src/` — the verified library:
  - `resilient_client` — circuit breaker (a state machine with its laws),
    full-jitter backoff, outcome classification, retry rule, per-target
    policies with a default fallback;
  - `httpx` — readiness registry and report, RFC 9457 problem documents,
    server configuration and the environment overlay of YAML configuration;
  - `secrets` — AES-256-GCM sealing (aes-gcm) with the nonce prepended,
    base64 key loading, constant-time comparison, a cache of named secrets;
  - `ratelimit` — a keyed GCRA limiter (governor);
  - `kafka`, `valkey`, `otelx`, `heartbeat`, `consumer`, `tasks`, `ping` —
    configuration and the rules of each service (commit rule of the consume
    loop, task validation and listing order, Bearer authorization, client
    keys for rate limiting);
  - `strmap`, `text` — a sorted string-keyed map and string helpers.
- `tests/` — tests of the library, run against the real outside crates.
- `app/` — the services themselves: axum routes and server, rdkafka, redis,
  reqwest, prometheus, OpenTelemetry and configuration loading. The rules of
  the services are the library's; app/ reads the outside world into the
  library's values (a transport error into `ExecOutcome`, a limiter's answer
  into `cell_free`) and carries out what the library decides.
