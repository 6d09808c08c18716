# higgs

Host wiring for a shared Valence context, as a verified library.

- `src/identity.rs` — session snapshots (`SessionSnapshot`, constant-time
  `auth_hash_eq`) and the `SessionIdentity` adapter trait.
- `src/host.rs` — the request context (`HostRequestCtx`: router handle plus optional
  session), the `Actor` it maps to, and the fail-closed `require_session`.
- `src/higgs_core/` — the Valence/session hub: `HiggsConfig` with its required
  factory, the per-request `Higgs` context, and the permission payload
  encoders/parser in `server_runtime` (with character helpers in `text`).
- `src/platform/` — the hub plus optional scheduler, pub/sub and work-engine
  handles, and a request context with accessors for them.
- `app/` — what runs at request time and cannot be verified: Axum/Leptos extraction,
  the task-local operation name, log lines, serde forms of the value types.
