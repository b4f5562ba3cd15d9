# kcl_requests

The request handling of a KCL language server, verified with Verus.

The library decides: which requests are admitted and which handler serves them,
which documents a handler may look at, when a request has to be tried again, and
what is answered or logged. Locks, threads, the client's channel and the analyses
of the compiler are the caller's.

- `src/server.rs`: admitting requests and telling their handlers.
- `src/snapshot.rs`: what the file system and the tables of analyses and open
  versions say of one document.
- `src/exchange.rs`: the course of a request. A handler takes what is known so far
  and the latest event, and gives back a question or the reply.
- `src/handlers.rs`, `src/rename.rs`, `src/formatting.rs`: the handlers.
- `src/laws.rs`: what holds of the handlers as a whole.
- `src/outside.rs`: everything that is believed of other crates and of the standard
  library.
- `app/`: the server around the library, in ordinary Rust. The compiler's analyses
  enter through the trait `LanguageService`.
