# Stride

An RDMA benchmarking tool (send, write and read; bandwidth and latency)
with device probing, whose core is a library verified with Verus.

- `src/` is the `stride` library. Its functions carry contracts that Verus
  proves, except a few small wrappers around calls into std, memmap2 and
  rand, whose contracts are trusted (marked `external_body`, each with a
  doc comment saying what it claims). The library covers command line
  plans, buffer layout and addressing, request bookkeeping of workers,
  credit-based flow control, the framing of control messages, MTU
  negotiation, huge page fallbacks, device identification, and the exact
  text of every report line and table. Laws that relate several functions
  (read after write, framing round trips, credit restoration, table widths,
  and more) are public proof functions next to the code they speak of.
- `app/` holds the two programs, `stride-perf` and `stride-probe`: argument
  parsing, the RDMA verbs calls, sockets, threads, clocks, histograms and
  the floating point results. The decisions of its loops (batch sizes,
  slots, work request ids and kinds, roles) come from the library; the
  simple single-queue-pair test runner keeps its two loop conditions.
- `tests/` runs the library on concrete values.
