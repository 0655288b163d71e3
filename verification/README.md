# koochelib

The back end of the Kooche marketplace: accounts of buyers and sellers, products, orders,
verification codes sent by SMS, session tokens, and uploads of pictures.

- `src/` is the library, verified with Verus. Its request handlers are state machines: each
  starts from what the client sent, names the outside operation it needs (a database query or
  write, a cache access, a text message, a piece of an uploaded form), and, for each outcome of
  that operation, decides the next operation or the reply. `src/app/services/laws.rs` states
  and proves what holds across their steps.
- `app/` is the server around it: the HTTP routes, the connections to MongoDB and Redis, the
  SMS gateway, file writes, and the serde forms of the library's records.
- `tests/` runs the library on concrete inputs.
