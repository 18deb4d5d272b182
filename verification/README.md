# ethryx

A sidecar for an Ethereum execution-layer / consensus-layer pair: it forwards
HTTP and WebSocket traffic to the right upstream, and tells whether the pair is
up, ready and how it is doing.

- `src/` is the verified library. Every decision stands there with a contract
  that Verus checks: routing, header handling, the WebSocket handshake, the
  readiness verdict and the health snapshot, the EL transport verdict, the
  poller, the access log, configuration and startup checks.
- `app/` is the program around it: the command line, sockets, TLS, telemetry,
  and the JSON forms of the library's types.
- `tests/` runs the library.

| Module     | What it decides                                                    |
|------------|--------------------------------------------------------------------|
| `config`   | network presets and how explicit values override them               |
| `state`    | whether the sidecar may start, and what it resolves before it does  |
| `health`   | `/readyz`, `/healthz` and `/eth/v1/node/health`                     |
| `upstream` | what an upstream's answers mean, and which HTTP version the EL uses |
| `poll`     | what the poller does next and when readiness is logged              |
| `proxy`    | where a request goes, and how it is forwarded                       |
| `ws`       | the upstream WebSocket handshake, and the bridge                    |
| `headers`  | hop-by-hop headers, upgrade marks, header injection                 |
| `serve`    | observation of requests, the access log, gauges, the accept loop    |

The laws of the library are the public proof functions whose names start with
`law_`. What rests on outside crates is stated at the functions marked
`external_body` and at the `assume_specification` items, each with a comment
that says what is claimed.

The startup line shows `git describe` when the program is built with
`ETHRYX_GIT_DESCRIBE` set to its output, and `unknown` otherwise.
