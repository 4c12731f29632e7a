# meson

File upload storage for the Meson File trait: flat object keys, byte stores
(local directory, RustFS / S3-compatible buckets with SigV4 signing), the
virus-scan quarantine pipeline, readiness gates and File image status helpers.

- `src/` — the verified library. Every decision is a Verus-checked function:
  key validation and generation, store selection from `MESON_*` settings,
  request signing, reply mapping, the promote and scan-task state machines,
  the ClamAV INSTREAM framing and reply parsing, the adapter registry and the
  owner-scoped row selection.
- `app/` — host wiring: process-wide installs, async filesystem / HTTP / socket
  calls, and the drivers that perform the calls the library's state machines
  ask for.
- `tests/` — unit and scenario tests of the library.
