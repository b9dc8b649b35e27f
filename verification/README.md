# necron_prism

The decision-making core of a Minecraft proxy, written in Verus: every
function in `src/` carries a contract that Verus proves.

## Layout

- `src/minecraft.rs`, `src/minecraft/`: the wire format of the first packets
  of a connection (VarInts, strings, frames, the handshake, login hello,
  status, ping and pong), with round-trip laws.
- `src/config/`: the relay core's configuration: defaults, conversion from
  the file's shape, validation, and canonicalisation for the platform.
- `src/proxy/config/`: the proxy's configuration: normalisation of the raw
  file (addresses given explicit ports, paths resolved, URLs trimmed) and its
  checks.
- `src/proxy/motd/`: status responses: the `&` formatting codes, the
  protocol number and icon rewrites, legacy ping answers, upstream probes and
  the LRU caches of statuses and icons.
- `src/motd/`: latency measurement decisions and their cache.
- `src/proxy/hooks.rs`, `src/proxy/api/`, `src/proxy/routing.rs`: what a
  login asks the API and what its answer means.
- `src/proxy/logging/`: the source column and the layout of a log line.
- `src/benchmark/`: benchmark traffic plans and the benchmark selection.
- `src/json.rs`, `src/text.rs`: JSON values as the library holds them, and
  text helpers (decimal digits, searches, trimming).
- `app/`: the program around the library: reading and writing files,
  sockets, TOML parsing, terminal colours.
- `tests/`: tests of the library through its public interface.
