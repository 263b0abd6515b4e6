# rusty_mine

A Minecraft server front end (protocol 773, game version 1.21.10): the handshake,
the server list status and ping, and the online-mode login with RSA key exchange
and the session server check.

- `src/` is the verified library.
  - `protocol/types`: the wire types (variable-length integers, strings,
    big-endian integers, UUIDs, prefixed arrays and options, NBT held as its
    bytes), each with a decoding and an encoding model and the round-trip law.
  - `protocol/packets`: the packets of the handshaking, status, login and
    configuration states, and their dispatch by packet id.
  - `protocol/mod.rs`: encoding of outgoing packets, length framing, and the
    decoding of incoming packets by connection state.
  - `server`: the per-connection state machine (handshake, status, login) and
    the server id hash of the login.
  - `config.rs`: the settings and their defaults.
- `app/` runs the server on tokio: sockets, the properties file, logging, the
  JSON of the status response and of the session server, and NBT through simdnbt.
- `tests/` exercises the library on concrete values.
