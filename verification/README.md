# rawtoh-module-sdk

What a Rust module needs to talk to a Rawtoh hub: enrollment, signed
registration, JSON-RPC 2.0 sessions, and a hub connection that reconnects and
fans events out to subscriptions. A module is a CLI or a daemon, enrolled once
with a token from the hub UI.

The library (`src/`) is verified with [Verus](https://github.com/verus-lang/verus).
It decides and does no input or output: each function takes what happened and
returns what to do. The async SDK that modules link (`app/`) owns the sockets,
timers and tasks and carries those decisions out.

| module      | what it holds                                                      |
|-------------|--------------------------------------------------------------------|
| `base64url` | URL-safe base64 without padding                                    |
| `identity`  | enrollment and challenge signing                                   |
| `ws`        | one session: requests, answers, inbound calls, closing, watchdog   |
| `hub`       | registration, subscriptions, event fan-out, reconnecting           |
| `error`     | JSON-RPC error objects and the library's own errors                |
| `json`      | JSON values: what `serde_json` reads, holds and writes             |
| `random`    | random bytes and subscription ids                                  |
| `text`      | small string operations                                            |

Contracts speak of mathematical values: `Json` for JSON, `WsState` for a
session, `HubState` for a connection. The public proof functions state what
holds across calls, for instance that a call goes there and back
(`ws::call_goes_there_and_back`), that unsubscribing undoes subscribing
(`hub::unsubscribe_undoes_subscribe`) and that pauses double up to a limit
(`hub::backoff_doubles_up_to_the_limit`).

What is trusted about `base64`, `ed25519-dalek`, `getrandom`, `reqwest` and
`serde_json` is stated at the functions that call them, each marked
`external_body` or `assume_specification`.
