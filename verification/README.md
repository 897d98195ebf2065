# peerlink

Peer discovery for hosts on the same IPv6 link. Each host multicasts a hello to
`ff12::1` on its link; a host that hears a hello from another host answers with a
connect message and records the peer; a hello that carries the host's own
identifier is answered with a conflict, and a host told of a conflict draws a new
identifier. Messages travel in length-prefixed frames (two-byte big-endian length
counting the whole frame, one byte of protocol version, then the encoded message).

## Layout

- `src/` — the library, verified with Verus:
  - `addr_v6/` — IPv6 addresses and their classification, scopes (`Lan`/`Wan`),
    socket addresses;
  - `msg/` — messages, the framing codec and the text codec, socket plans, the
    inbound/outbound routing of parcels;
  - `peer/` — peer events, the event handler's state machine and its peer table,
    the hello reply, the repeated hello, session states;
  - `env/`, `utils/` — host settings, identifiers, adapter tables, interface
    choice;
  - `discovery.rs` — the discovery endpoint and the table of peers it fills;
  - `event/` — the events the event executor works on;
  - `interceptor/` — the filter that drops messages carrying this host's own
    identifier;
  - `solution/` — the event executor, the solutions that subscribe to it and
    the connection-request reply;
  - `protocol/` — the control codes.
- `tests/` — tests of the library on concrete values.
- `app/` — the program: sockets, channels, tasks and the serialisable copies of
  the message types.
