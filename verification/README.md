# sprout_routes

The decision logic of the Sprout server's HTTP routes, as a Verus library.

Every route of the server authenticates a caller, reads rows in a database
transaction, decides, and writes. This crate holds the deciding part: who
may do what, which request is well formed, which error answers which
refusal, how identifiers, commitments, signed messages and log entries are
derived byte for byte, and how stored values read back. Each public function
states its result exactly in its `ensures`, over spec functions in the same
module; the properties that span several functions are public proof
functions next to them.

Layout of `src/`:

- `error.rs` – the error answers and the exact bad-request messages.
- `codec.rs` – hex, base64 and SHA-256 (the last two through the `base64` and
  `sha2` crates), big-endian encodings and version-8 derived identifiers.
- `text.rs` – whitespace, blank and lower-case text as `std` defines them.
- `domain.rs`, `assignments.rs`, `comments.rs`, `dev_auth.rs`,
  `agent_chat.rs` – resources, tasks, assignments, comments, development
  login and chat history.
- `device_keys.rs` – device key registration and rotation, revocation
  messages and the transparency log.
- `agent_tools.rs` – external tool calls: authorization, leases, retries,
  terminal observations.
- `agents.rs` – governed agents: provisioning, local goals, invocations,
  cross-owner assignments, signed failure observations.
- `agent_runs.rs` – collaborative runs: stored values, status names, canonical
  fact listings.

`app/` holds the wire forms of the request types (serde, redacting `Debug`)
and the conversions between UUIDs, timestamps and JSON and the library's
plain values. The route handlers themselves (database transactions, axum
extractors, signature verification) are not part of this repository.
