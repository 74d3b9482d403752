# arctica

The logic of an offline Bitcoin key-ceremony installer, verified with Verus.

- `src/text.rs` — splitting text on a separator character.
- `src/config.rs` — the `name=value` config file: reading its entries and
  setting a value, with the laws of reading back what was written.
- `src/script.rs` — commands as scripts of outside actions; the state machine
  that decides, from the outcomes so far, the next step or the answer.
- `src/commands.rs` — each installer command as its script.
- `src/keys.rs` — Bitcoin key pairs over the `bitcoin` and `secp256k1` crates.
- `app/main.rs` — performs the scripts (programs, files, printing) and
  dispatches commands by name.
