# CultNet

Typed MessagePack messages between peers, 4-byte length-prefixed framing, security
helpers, signed service identities and runtime contracts, and the replication of cached
documents. The library under `src/` is verified with Verus: what each function does is
stated in its contract and proved.

## Layout

| Module | What it holds |
| --- | --- |
| `contracts` | the messages, their rules, and their two wire contracts: `cultnet.schema.v0` (schema-versioned MessagePack objects) and `gamecult.networking.v0` (a tag and an array of fields) |
| `framing`, `transport` | frames, transport profiles, connections, reconnect delays |
| `security` | derived keys, encrypted strings, session tokens, base64url |
| `service_identity` | enrollment, opening, signing, verifying, trust anchors |
| `idunn_lifecycle_brake`, `idunn_deployment_brake` | when a restart or a deployment is permitted |
| `provider_health_contracts` | signed health statements, trust anchors, projections |
| `runtime_authority_contracts` | expected incarnations, activations, presence, write leases, and Odin's topology receipts |
| `replication`, `snapshot_query` | documents in and out of a cache, read-only snapshots |
| `schema_discovery`, `builtin_schemas` | the schema catalog and its canonical hashes |
| `interop_peer` | what an interop peer answers, and the steps in which it dials another |
| `text`, `number`, `json`, `wire`, `record`, `rules`, `envelope`, `ordered_map`, `sorted_list`, `error` | what the others are built on |
| `primitives` | digests, ciphers, signatures, randomness and time from outside crates |

`app/` is what stands around the library: files, sockets and clocks, documents as Rust types,
and the interop peer on the command line (`serve`, `probe` and `dial`).

## What is taken on trust

The functions marked `external_body` in `primitives`, `wire`, `json` and `text` call
outside crates. Their contracts say what is claimed of those crates, and everything else
is proved from them. Results that depend on nothing but their arguments are named by
functions without a body, such as `sha256_digest`; of random bytes and of the clock
nothing is claimed.

## Schema discovery

`builtin_schema_registry()` gives the standard catalog: core wire messages, the
`gamecult.networking.v0` payloads, the schema catalog's own messages, and the
`ghostlight.agent-state` document payload. A `CultNetSchemaRegistry` of one's own
advertises exactly the schemas that were registered with it.
