# actix_send

An actor library that runs on async runtimes, with a websocket helper for
actix-web. The crate is split in two:

- `src/` is the verified library: the logic of the actors and of the
  websocket helper, each function with a Verus contract. It holds the
  active-actor counter and its shutdown marker (`actor`), builder settings and
  the spawn plans over arbiters (`builder`), what the actor attributes generate (`codegen`), the context lifecycle with
  restarts and manual shutdown (`context`), cancellation of spawned tasks
  (`future_handle`), the keyed set of interval futures (`interval`), the
  closable lock and the steps on its lock word (`lock`), error texts
  (`error`), the answers of addresses and the decision that the last address
  was dropped (`address`), the websocket handshake (`handshake`, `header`),
  and the websocket settings, frame decoding, messages, heartbeat and
  encoding decisions (`websocket`). Laws that span several calls are public
  proof functions named `law_*`.
- `app/` is the runtime around it: tokio tasks, `async-channel` channels,
  timers, the actor loop, addresses and streams, the lock that threads share
  (its atomics and its guard), and the actix-web extractor and streams of the
  websocket helper. It performs what the library decides: the compare-and-swap
  loops, the polling of streams and timers, and the sending of messages.

What the attributes `actor`, `message`, `handler`, `actor_mod` and
`handler_v2` generate for an actor is decided in `codegen` and `message`:
the message and result enums and their variants, the `From` and `MapResult`
impls, the arms of `Handler::handle` and the attributes carried to the
message enum, each over the names and type texts that the attributes read.
The procedural-macro crate that would parse items and print this code, and
its re-export in the prelude, are not part of this crate: a procedural-macro
crate is a crate of its own. Actors are written by hand meanwhile: the
message enum, the `Actor` and `Handler` impls and the `MapResult` impls that
a plan describes.

A websocket's codec is set through `FrameCodec` (`FrameCodec::new()`,
`.max_size(..)`, `.client_mode()`), which keeps the codec's settings as plain
values beside the `actix-http` codec.
