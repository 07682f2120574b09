# agenomic

Agentic evaluation metrics and behavioral-fingerprint bookkeeping, with
contracts proved by Verus.

* `src/` — the verified library: the v0.3 trace model and the metrics of a
  single trace (`trace`), the count-based metric scores as exact ratios
  (`metrics`), fingerprint schemas and sample-size recommendations
  (`schema`, `calibration`), validation of run batches and the probe layout
  (`estimation`), the comparability check of two fingerprints (`distance`),
  the CUSUM alert decision (`cusum`), and content hashing and ed25519
  signing at the byte level (`fingerprint`, with the calls into `blake3`
  and `ed25519-dalek` in `crypto`).
* `app/` — ordinary Rust around it: everything computed on floating point
  (means and covariances, Mahalanobis distance and the χ² test, CUSUM
  statistics and calibration, Hoeffding bounds, Jensen–Shannon divergence,
  the floating-point scores and thresholds), the clock, and the JSON and
  CBOR forms of the types.
* `tests/` — tests of the library.
