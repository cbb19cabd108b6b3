# proxy_core

The verified core of a Minecraft proxy: the conversion of packets between releases from 1.6.4 to
1.21, the dialogue of a connection from its first byte to the end of the play, and the throttle
that guards the listening socket.

- `src/` is the library. Its functions state what they return over bytes and plain values, and
  Verus proves it. Laws that relate several functions are public proof functions beside them.
  - `wire`, `writer`, `varint`, `text`, `nbt`, `slot`, `position`, `number`: the formats on the
    wire. Floating-point values are handled by their bits.
  - `version`, `flattening`, `ident`: releases, the tables of the 1.13 flattening, unique ids.
  - `converter`: a module for each conversion between two releases, the items and the chunk data,
    and `dispatch`, which finds the way from one release to another.
  - `connection`: the state machines of a connection. Each takes an event and gives the actions
    that are due.
  - `connection_throttle`: token buckets and bans by address and by network.
- `app/` performs the actions: sockets, timers, and the services of a running proxy.
- `tests/` runs the library with the outside crates linked.

What the library takes from outside crates stands behind small wrappers. Their contracts are
believed, not proved, and their doc comments say what is claimed of the outside function.
