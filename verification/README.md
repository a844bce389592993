# webrtc_datachannels

A verified core for WebRTC data channels: the lifecycle of a peer connection,
the sans-I/O peer, the signaling mailbox on both of its sides, and the driver
that runs conformance suites over them. Contracts are stated and proved in
[Verus](https://github.com/verus-lang/verus).

| Path | What it holds |
| --- | --- |
| `src/connection.rs` | A peer-connection resource as a state machine: builds, closes, callbacks of the stack, and what each method does next. |
| `src/peer.rs` | The sans-I/O peer over the `rtc` stack. |
| `src/description.rs`, `src/candidate.rs` | Session descriptions and ICE candidates. |
| `src/context.rs`, `src/host.rs`, `src/demo.rs` | Host configuration, the provisioning of a suite instance, the demo hosts' context. |
| `src/signaling.rs`, `src/mailbox.rs` | The mailbox protocol: the server's handlers and a client session. |
| `src/args.rs`, `src/commands.rs` | The driver's command lines. |
| `src/orchestrate.rs`, `src/verdict.rs` | Child commands, reference runs, merging of results. |
| `src/text.rs` | Texts and numbers. |
| `tests/` | Tests of the library. |
| `app/` | The driver and the hosts around the library: processes, sockets, tasks. |

Functions marked `#[verifier::external_body]` call the outside crates (`rtc`,
`serde_json`) or the standard library; their doc comments say what is claimed of
each call. Everything else is proved. Public proof functions state the laws that
span several functions, such as that a built connection is torn down exactly
once, or that a child reads the command line that the driver writes.
