# wasmx

A host for WebAssembly components, whose decisions are verified with Verus.

`src/` is the library. Each part of the host's WASI implementation that
decides something — a state machine, a parser, a permission check, a
choice of error — stands there as a function with a `requires`/`ensures`
contract, proved by Verus. The work that only the operating system, the
network or the component runtime can do is not in the library: its
functions take the outcome of that work as an argument (a plain value, or a
closure that performs it) and state what they do for every outcome.

- `engine::wasi::sockets::tcp` — the life cycle of a TCP socket (bind,
  connect, listen, accept) and the limits on its options.
- `engine::wasi::filesystem` — the permission checks of descriptors and
  what `open-at` asks the operating system for.
- `engine::wasi::http` — header fields over `http::HeaderMap`, the
  `Content-Length` accounting and the life cycle of bodies, requests and
  responses, and how the default client connects and reports failures.
- `engine::wasi::io` — stream outcomes and the deadline of `poll`.
- `engine::wasi::random` — the deterministic generator.
- `engine::wasi` — which interfaces a linker receives, in which order.
- `engine::workload::value` — moving component values, and the resource
  handles in them, between stores.
- `engine::plugin` — how a native library's functions are linked.
- `host` — the HTTP proxy's admission of requests, as a step function from
  state and event to next state and action (the workload's name, then an
  instance permit, then the hand-over to the engine), and where component
  code is fetched from.
- `wasmtime` — the engine's configuration.
- `config` — the manifest's component and network settings.

The laws that relate several operations are public proof functions next to
the operations they are about (for example `lemma_get_after_set` in
`engine::wasi::http::fields`).

`tests/` exercises the library on concrete values; `app/` is the command
that reads settings from the environment and the manifest, fetches the
components' code, and serves the proxy endpoint by running the library's
proxy steps (this build has no component engine, so admitted requests are
answered as by a proxy whose engine is gone).
