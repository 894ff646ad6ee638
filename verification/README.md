# foksal

The verified core of the foksal music server and its client library.

- `src/` is the library, checked by Verus: the playback queue and its modes,
  the player and sink state machines, the song database table (sorted by
  path, with metadata and select queries), tag keys and their order, filters,
  configuration merging, the JSON request/response model, the session and
  subscription bookkeeping, the client protocol decoding and the `ctl`
  commands.
- `app/` is the `foksal-ctl` command line client: argument parsing, the
  WebSocket connection and the serde mapping of the wire messages.
- `tests/` exercises the library on concrete values.

Calls into outside crates (rand, globset, regex, unidecode, base64 and a few
std path functions) go through small trusted wrappers whose contracts are
stated in the source next to them.
