# vibetown

The server side of Vibetown, a workspace for multi-agent software development, with
its logic verified by Verus.

- `src/` is the verified library:
  - `auth/`: user authentication — configuration from environment variables, errors
    and their HTTP statuses, users, sessions and session tokens, the session cookie
    and the authentication middleware's decisions, the local, LDAP and OpenID Connect
    providers (PKCE flows, pending states), and the authentication service;
  - `routes/`: what the HTTP routes decide and answer (cookies, client details,
    administration, orchestration, mail, feed, readiness, terminal);
  - `db/`: the rows of the orchestration tables and the values new rows take;
  - `api_types/`: the bodies of the orchestration API;
  - `engine/`: the messages of the orchestration engine and the requests the server
    sends it;
  - `text.rs`: text operations with their specifications;
  - `external.rs`: the calls into outside crates (hashing, randomness, base64, URL
    encoding, dates, UUIDs), each with the contract that the library relies on.
- `tests/` runs the library on concrete values.
- `app/` is the server around the library: the environment, the database queries,
  the LDAP and OpenID Connect requests, and the axum handlers.

Notes on the design:

- The pending OpenID Connect flows of a provider are a `Vec` of `(state, verifier)`
  pairs with a ghost `Map` from state to verifier as their model, tied to the pairs
  by an invariant (`PendingAuths::wf`). A `HashMap` keyed by `String` was not used:
  vstd specifies `HashMap` only for keys that obey its hashing model, and for a
  `String` key that has to be assumed, which this crate does not do. With the pairs,
  taking a state is proved to remove exactly that flow.
- Work-item rows and answers carry a floating-point sort order. The library holds
  everything else about creating one (`db::work_item`, `routes::work_items`); the
  types that carry the sort order are in `app/`.

Not included:

- Password hashing: the server's password module is not part of these sources, so
  `app/` cannot hash or check passwords, and local sign-in and the creation of users
  with a password fail with an internal error.
- The `/health` route: its response type comes from a shared crate that is not part
  of these sources; `/ready` is served.
- The gRPC transport to the engine: the engine's protocol definitions are not part
  of these sources and no gRPC crate is used, so the library holds the messages and
  the requests the client builds, and there is no connection code.
