# pg_search

Full-text search for Postgres: a server through which clients change search indexes, and the
search state through which rows are matched. The decisions of both are a verified library; what
reads, writes and sends stands around it.

- `src/` is the library. What it decides is verified with Verus, function by function, against
  contracts. Only of calls into `tantivy` and `rustc-hash` the contracts are taken on trust; the
  comment above each of these says which function is called and what is not proved of it.
- `tests/` runs the library, with the real `tantivy` and `rustc-hash`.
- `app/` is ordinary Rust around the library: the HTTP server and its threads, the index writers,
  the searches, and the operator that Postgres calls.

The laws that span several functions are public proof functions whose names begin with `law_`:
what is done about a request and how it is answered (`request`), how a transfer ends (`transfer`),
which thread serves a transaction (`channels`, `server`), what comes of a request to change an
index (`course`, `term`), and which rows match (`value`, `operator`).
