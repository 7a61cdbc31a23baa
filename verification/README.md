# bngtester

A BNG subscriber test tool: a client sends timestamped UDP test traffic
through the BNG to a server, which measures latency, jitter, loss and
throughput and reports them as text, JSON or JUnit XML.

## Layout

- `src/` — the library, verified with Verus. Every function has a
  contract; the laws of the library are public proof functions.
  - `traffic/` — the data packet wire format (header encoding and decoding,
    with its round trip), packet-size patterns (fixed, IMIX, sweep), the
    decisions of a UDP generator, and TCP stream bookkeeping.
  - `protocol/` — control message types and their length-prefixed framing,
    names of modes, patterns and protocols, clock-offset estimation and
    latency correction, heartbeats, and the client and server sides of a
    control session as state machines.
  - `dscp.rs` — DSCP and ECN: parsing, names, the TOS byte, ECN counters.
  - `stream/` — the stream registry and per-stream overrides.
  - `metrics/` — loss and reordering, throughput, per-second totals and the
    latency histogram, all in integers.
  - `report/` — JUnit XML rendering, the JSON-lines framing, the text
    report's heading and stream titles, threshold settings.
  - `strutil.rs` — decimal numbers and string helpers the above build on.
- `app/` — the `bngtester` binary (`client` and `server` subcommands):
  sockets, async I/O, JSON and YAML through serde, and the measurements that
  are floating-point numbers. It drives the library's state machines and
  hands it plain values.
- `tests/` — tests of the library.
