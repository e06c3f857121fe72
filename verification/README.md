# tentacli

A World of Warcraft 3.3.5 client core whose logic is verified with Verus.

- `src/` is the verified library: the opcode and update-field tables, the layouts of the
  packets the client reads and writes, the RC4 header cipher, the SRP6 login handshake,
  the packet handlers (each with the exact outputs and state changes it produces, the
  fields it read from the packet among them), the routing of incoming packets to
  handlers and the running of them in order, which stops where a handler asks to wait
  for the user's choice of a realm or a character and goes on once the choice is made,
  the decisions the client loop takes for each handler output, and the reading of the
  YAML config documents.
- Outside crates are reached through a few trusted wrappers: `num-bigint` (big-number
  arithmetic), `sha-1` and `hmac-sha` (hashes), `flate2` (zlib), `regex` (realm and
  character patterns), `yaml-rust` (the config text) and `rand` (ephemeral keys, seeds,
  new character names).
- `app/` holds what touches the outside world: reading the config and environment files,
  the TCP connection (with the header ciphers once on the world server), and the client
  loop that moves packets between the connection, the user and the library.
- `tests/` runs the library on concrete packets and config texts.

Some packets are routed to handlers that never run, so nothing is shown for them:
`ConnectToRealm`, `ParseMotd`, `InitWorldStates` and `CheckCharacterCreateStatus` have no
source, and `HandleUpdateData`, `HandleInitialSpells` and `WardenSendData` need the layouts
of update blocks, spells and warden messages, which are not part of this project.
`HandleUpdateData` and the spell list are verified on blocks and spell ids already read
(`handle_blocks`, `handle_spells`).
