# rayhunter

Detection heuristics for cellular IMSI catchers (cell-site simulators), with
the bookkeeping around them, written in Verus and proved against their
contracts.

- `src/analysis/` — the analyzers (attach-reject storms, authentication
  anomalies, IMSI paging, Type-0 SMS), the serving-cell tracker, the MCC/MNC
  operator table, and the harness that runs the analyzers over a capture and
  stamps their events. Any type implementing `Analyzer` can be added to a
  harness. `Harness::new_with_config` adds one analyzer per flag set in
  `AnalyzerConfig`, in a fixed order: the four analyzers above come from this
  crate, and the eight others (IMSI requested, 2G redirect, SIB 6/7
  downgrade, null cipher, NAS null cipher, incomplete SIB, test, diagnostic)
  are supplied by the caller in an `ExternalAnalyzers`.
- `src/diag/` — decoding of the LTE ML1 serving-cell measurement log.
- `src/daemon/` — the decisions behind the daemon's endpoints: the health
  snapshot, the injected test event, which recording a pcap request is
  served from (or why it is refused),
  following a growing recording, and the GPS fix nearest to a packet.
- `app/` — the unverified side: serde forms of the report types, report-line
  normalization, the live event channel, and the reader that follows a
  recording on disk.
- `tests/` — tests of the library on concrete values.
