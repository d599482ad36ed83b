# p2p-mpc

A node of a peer-to-peer threshold-signing network. Nodes find each other over
libp2p gossip, a coordinator assigns party indices to the connected peers, and
the parties then run auxiliary-information generation, key generation and
signing (CGGMP24) in that order, driven through a JSON-RPC interface.

## Layout

- `src/` is the verified library (Verus):
  - `cli.rs`: configuration defaults, file values and command-line overrides;
  - `mpc/orchestrator.rs`: the protocol state machine of a node, with the laws
    that order its phases;
  - `mpc/execution_id.rs`: execution identifiers that all parties derive alike;
  - `network.rs`: assignment messages and the bookkeeping of peers and addresses;
  - `rpc.rs`: sessions of party-index assignments and every JSON-RPC reply;
  - `str_map.rs`: a string-keyed map modelled as a `Map`;
  - `text.rs`: decimal, hexadecimal and big-endian encodings.
- `tests/` runs the library on concrete values.
- `app/` is the executable around it: argument parsing, logging, metrics, the
  libp2p swarm, the JSON-RPC server and the protocol runs.
