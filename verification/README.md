# p2p_conv

Conversion of a Starknet node's block data into the messages of the
peer-to-peer sync protocol, with every conversion proved against its contract.

- `src/felt.rs`: field elements (`Felt`) and their integer value.
- `src/common.rs`: the node's own data: block headers, state updates,
  transactions, receipts, events. Maps keyed by address are lists of pairs
  whose keys are distinct (`StateUpdate::wf`).
- `src/proto.rs`: the protocol messages.
- `src/conv.rs`: the `ToProto` trait, its implementations, and the spec
  functions that say which message each value is carried by.
- `src/laws.rs`: properties that hold of every conversion.
- `tests/`: conversions on concrete values.

A block header's time is carried as seconds since the Unix epoch; the
conversion is defined on times that fit in a signed 64-bit count of seconds.
A receipt's resource counts must fit in 32 bits.
