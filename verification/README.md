# ipc_benchmark

The verified core of an interprocess-communication benchmark: the message
model and its wire encoding, stream framing, the byte ring and the
single-slot exchange of the shared-memory transports, queue and segment
bookkeeping, the waiting and retry decisions of the transports, the
standalone server's reply rules, and the throughput and latency counters.

Layout:

- `src/` — the library, verified with Verus. Each module states its
  behaviour in `requires`/`ensures` contracts; the laws that relate several
  operations are public proof functions (`lemma_*`).
- `tests/` — executable tests of the library.
- `app/` — a small standalone benchmark program (server and client over TCP
  or Unix domain sockets) built on the library. It holds the I/O, the
  command line and the floating-point statistics.
