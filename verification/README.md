# warp_extension

The extension host and the Git extension for Warp, with their logic verified
by Verus.

- `src/` is the verified library: the protocol's types and gates, manifest
  validation, the host's frame reader, lifecycle, discovery, session and log
  redaction, the Git plugin's parsers, panel and decisions, the plugin
  client's bookkeeping, and the decisions of the example plugin and the
  development host. Every public function states what it returns in its
  `ensures`; the laws that span functions are public proof functions.
- `app/` is the edge: processes, files, the terminal, and the JSON and TOML
  encodings. It carries out what the library decides.
- `tests/` runs the library on concrete values.
