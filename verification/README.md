# distribution

The distribution logic of an artifact registry, verified with Verus:
metadata generation for Maven (`maven-metadata.xml`), npm and Docker
manifests, and the request rules of the Docker Registry V2 API and of a
Maven repository.

## Layout

- `src/` — the verified library.
  - `text.rs`, `digest.rs`, `clock.rs`: string helpers, SHA-256 digests in
    registry form (the hash comes from `sha2`), and clock readings and
    RFC 3339 parsing (from `chrono`).
  - `domain.rs`: Maven coordinates and versions, npm package names.
  - `json.rs`: JSON documents as plain values (the parse is `serde_json`'s)
    and the reading of members, strings and lists out of them.
  - `features/`: one module per feature. Each use case is a step machine:
    it says which port to ask next, and it decides from each port's answer
    what comes after. The `ports` modules hold what the ports exchange; the
    `adapter` modules hold the storage-side rules (keys, documents, error
    answers).
- `tests/` — tests of the library.
- `app/` — the asynchronous ports, the runners that drive the step
  machines through them, a Redis-backed metadata cache, the object-store
  generators, the HTTP handlers, and the JSON forms of the manifests.
