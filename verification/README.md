# osc_uploader

Transfer of oscillography files (COMTRADE) from substations to the ONS
receiving server, with mutual TLS, SHA-256 verification on both ends, a
persistent upload queue, local retention, and automatic renewal of the
stations' certificates through a small PKI server.

The decisions of the three programs are a library verified with Verus:

- `src/substation/`: the agent. Event manifests, the upload queue (which
  items are due and in what order), the retry plan with its capped
  exponential backoff, the reading of the server's acknowledgement, the
  inbox debouncer, the disk-aware retention schedule, and the renewal
  decision and request.
- `src/ons/`: the receiving server. The upload checks (required fields,
  allowlist, the per-station rate limit, duplicates, manifest digests),
  the answers, and whether an upload goes to the repository or to
  quarantine.
- `src/pki/`: the PKI server. Validation of a station's current
  certificate, signing of its renewal request, the renewal endpoint's
  answers and audit events, and the bootstrap of the certificate
  hierarchy. Every certificate the library issues is read back before it
  is handed out, and refused unless it carries the subject, issuer, basic
  constraints, key usages, extended key usages, alternative names and
  validity it was issued with, and the key handed out beside it is its
  own. A renewal is signed only for a client whose TLS certificate is the
  one it asks to renew.
- `src/issuance.rs`, `src/certs.rs`, `src/digest.rs`, `src/clock.rs`,
  `src/text.rs`: what the library reads and issues through rcgen,
  x509-parser, pem, sha2, hex and chrono, behind small trusted wrappers
  whose contracts say what those crates document.

`app/` holds what Verus does not see: the command line, configuration
files, logging, the filesystem, HTTP (axum, reqwest), the servers' TLS
(TLS 1.2 or later, client certificates required) and the loops that run
the library's decisions. `tests/` runs the library with the real
crates linked.
