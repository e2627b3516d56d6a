# rustfs

The decisions of an S3 server that speaks HTTP and HTTPS, written in Verus and
proved against their contracts.

- `src/` is the library. Each module holds one decision, its model and the laws
  that hold of it: the start of the server (`startup`), its listener (`listener`,
  `backlog`), what it announces (`banner`), its certificates (`tls`), its domains
  (`host`), the guard of its RPC service (`auth`), what a trace records
  (`trace`), the course and the errors of a connection (`connection`), the worker
  that accepts connections and shuts down (`worker`), and S3 Select queries
  (`query`).
- `app/` performs what the library decides: sockets, files, signals and the HTTP
  stack.
- `tests/` runs the library.
