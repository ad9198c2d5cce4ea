# dioxus-clerk

Clerk authentication for Dioxus apps: server-side verification of Clerk
session tokens for Axum, SSR seeding of the client's auth state, and the
decisions of the browser client around clerk-js. The logic is written in
Verus and proved against its contracts.

## Layout

- `src/` — the verified library.
  - `auth/` — auth state, session and user models, errors, verification
    outcomes, and the provider's runtime auth state machine.
  - `server/` — request credentials, the JWKS cache, JWT header and claim
    checks, organization-permission decoding, configuration, extractors and
    SSR helpers for the server side.
  - `ssr.rs` — the SSR initial-state seed and the provider's startup.
  - `hooks.rs`, `control.rs`, `client.rs`, `lifecycle.rs`, `loader.rs`,
    `widget.rs` — the browser client's decisions: what a reader and the
    control-flow components see, how clerk-js is found, loaded and waited
    for, and how widgets and queued actions proceed.
  - `options.rs`, `options/` — the clerk-js option builders.
  - `publishable_key.rs` — the Frontend API host inside a publishable key.
  - `testing.rs`, `testing/` — Clerk's packed permission encoding and the
    claim sets of minted test tokens.
  - `json.rs`, `text.rs` — JSON values and string helpers shared by the
    modules above.
- `tests/` — tests of the library's public API.
- `app/` — the runtime around the library: the Tower layer and Axum
  extractors, JWKS fetching and JWT signature checks, serde shapes of the
  library's types, and test-token signing.
