# amagi

Request builders, signing primitives, header rules and payload readers for
the Kuaishou and Twitter/X web protocols, written in Verus with their
behaviour stated as contracts and proved.

Layout:

- `src/` — the verified library.
  - `kuaishou/` — the `live_api` request descriptions and their signing
    input, the signing byte transforms, the live-api headers and answer
    checks, and the readers that assemble user profiles, work lists and
    live rooms from the platform's JSON answers.
  - `twitter/` — the GraphQL URL builders, the session headers, the
    requests that fetch the home page through its migration steps, the
    transaction-id material read from it and the cache that keeps it, and
    the readers of users, tweets, timelines, Spaces and paged media
    timelines.
  - `pairs.rs`, `text.rs`, `scan.rs`, `weburl.rs` — name/value lists kept as
    ordered maps, text helpers, searching, and the URL operations (the only
    place that calls `reqwest::Url`).
- `tests/` — tests of the library on concrete values.
- `app/` — the async clients around the library: HTTP through `reqwest`,
  JSON text through `serde_json`, the fetch operations that send the
  library's requests and hand the answers to its readers, and the
  floating-point animation of the transaction key.
