# vrcapi-proxy

A proxy for the VRChat REST and WebSocket APIs. The logic of the proxy is a
library verified with Verus (`src/`); the HTTP server, the stream client and
the file handling around it are ordinary Rust (`app/`).

- `src/friends.rs`, `src/ordering.rs`, `src/friend_laws.rs`: the friend lists
  kept from the events of the stream, their stable order by status, and the
  laws that every event keeps (lists ordered, no friend twice).
- `src/unsanitize.rs`: undoing the look-alike characters that the API puts in
  free text (through `aho-corasick`).
- `src/request.rs`, `src/text.rs`: reading the colon-separated request bodies.
- `src/store.rs`, `src/config.rs`: the stored credentials and the settings.
- `src/endpoint.rs`, `src/auth.rs`, `src/response.rs`, `src/cors.rs`: the
  addresses, login headers, replies and CORS headers.
- `src/connection.rs`: classifying stream messages, reconnecting, noticing a
  quiet stream.
- `src/res_user.rs`, `src/listing.rs`, `src/instance.rs`, `src/world.rs`,
  `src/profile.rs`: what the routes answer with.
