# chirp-auth-client

A Verus-verified client for ID tokens issued by
[ChirpAuth](https://signin.chirpauth.com), a personal OIDC sign-in service.

- Verifies RS256-signed ID tokens against the published signing keys.
- Validates the standard OIDC claims (`iss`, `aud`, `exp`).
- Dispatches on the `act` claim to distinguish human from machine tokens.
- Enforces the environment (`Production`/`Test`) that follows from the issuer.
- Caches machine tokens, and backs off after a rejected credential.

## Layout

- `src/` is the verified library. It decides, and does no I/O. `src/verify.rs` takes
  a token through its stages; `src/identity.rs` judges claims; `src/mint.rs` holds
  the token caches.
- `src/laws.rs` and `src/mint/laws.rs` state what holds of the library as a whole.
- `src/outside.rs` holds every call into another crate, and what is believed of it.
- `app/` is the network side: it fetches keys and tokens, parses JSON, and reads the
  environment.
- `tests/` runs the library on concrete values.

## Usage

```rust
// The address of the keys is derived as `{issuer}/jwks.json`.
let config = ChirpAuthConfig::new(DEFAULT_ISSUER, "cs_live_your_client_id");

let identity = verify_from_headers(
    &http_client,
    request_headers,
    &config,
    VerifyOptions { accept_machine: true, ..Default::default() },
)
.await?;

match identity {
    ChirpVerifiedIdentity::Human { sub, email, name, root_sub } => { /* ... */ }
    ChirpVerifiedIdentity::Machine { sub, owner_sub, client_id } => { /* ... */ }
}
```
