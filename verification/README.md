# sd-core

Verified core logic of a Spacedrive node, written in Verus.

- `src/primitives.rs`: sizes and key-derivation parameters of the crypto layer.
- `src/protocol.rs`: protocol support levels and the checks on length-prefixed frames.
- `src/response_upgrade.rs`, `src/request_upgrade.rs`: the responder and requester
  sides of a request/response substream as state machines, with proofs of which
  report sequences lead to which outcome.
- `src/exchange.rs`: both machines side by side: a request reaches the handler and
  its answer comes back to the requester.
- `src/discovery.rs`: the state shared by the discovery manager and the node's
  services, and what the manager does on each wake-up.
- `src/skynet.rs`: where the ONNX runtime library lies and how its environment is set up.
- `src/p2p.rs`: the application name on the network.

`app/` holds the parts that perform I/O (libp2p substreams, tokio channels, mDNS,
loading the runtime) and drive the library's state machines.
