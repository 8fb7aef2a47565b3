# protos

The gRPC protocol of a shop backend: 193 request and response messages and
the 127 unary methods of the `grpc_services.GRPCServices` service.

`src/` is a Verus library:

- `wire`: varints, field keys, little-endian words and two's complement, over
  prost's `encoding` functions, with their laws.
- `record`: the codec of messages whose fields are 64-bit integers, doubles
  and strings (plain or optional): encoding, decoding, encoded length, and the
  laws that decoding an encoding gives the message back and that decoding two
  encodings one after the other merges them.
- `message`: the traits `ProtoMessage` and `ProtoList` (a list of messages in
  field 1), with codec methods whose contracts say what bytes they produce
  and accept.
- `messages`: the message types.
- `service`: the methods, their names and request paths.
- `router`: routing a request path to its method, the answer to a path that
  names none, and the server's message size limits.
- `rpc`: the trait `Rpc` and one type per method, naming its request and
  response messages.

`app/` is ordinary Rust: the message types with their prost and serde derives
and conversions to the library's types, a tonic codec that uses the
library's codec, and the tonic client and server of the service.
