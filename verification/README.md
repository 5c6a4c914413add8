# cln_extension

A core-lightning plugin that lets a gateway intercept HTLCs, with its decisions
verified by Verus, and the layout of the federation server's global database.

- `src/` is the verified library. `interceptor` decides which HTLCs go to which
  subscription and who waits for their outcome; `service` and `route_hints` answer
  the gateway's requests; `laws` states what holds over any course of events; `db`
  holds the kinds of database records and their keys. The other modules hold the
  values that these work on: amounts, short channel ids, deadlines, messages and errors.
- `app/` is the plugin around it: the hook, the RPC socket of the node and the gRPC
  server. It performs what the library decides and hands back what came of it.
- `tests/` runs the library on concrete values.
