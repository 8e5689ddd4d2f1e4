# io_timer

A timer that runs through named cycles, and a line-based
request/response protocol to control it, written in Verus.

- `src/timer.rs`: the timer, its cycles, loops, states and events, the
  specifications of every timer operation and their laws.
- `src/protocol.rs`: message framing (one message per line).
- `src/server/coroutines/handle.rs`: the server coroutine, which
  receives a request line, has it decoded, applies the request to the
  timer, has the response encoded and sends it back.
- `src/client/coroutines/send.rs`: the client coroutine, which has a
  request encoded, sends it and receives the response line to decode.
- `src/stream.rs`, `src/platform.rs`: the stream I/O values, the calls
  into `io-stream`, `memchr` and std's clock, with the contracts they
  are trusted with.
- `app/`: the JSON encodings, with serde and serde_json, and drivers
  that serve the coroutines for io-stream's runtimes.
