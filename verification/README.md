# todo_gateway

A todo service and its REST gateway, with the logic verified by Verus.

- `src/` is the verified library: the wire messages (`wire`), the paging
  model and its conversions to and from the wire with their round-trip laws
  (`paging`), the todo entity and its wire form (`model`, `timestamp`), the
  service's handler decisions and error reporting (`service`), the
  gateway's role set and request shaping (`web`), decimal text (`text`) and
  the `-v`/`-q` log level (`logging`).
- `app/` is the program around it: command line, SQLite through diesel,
  the HTTP routes, sessions and tracing.
- `tests/` exercises the library on concrete values.
