# drop_reverse_proxy

A reverse proxy that serves music "drops" to visitors who scan an NFC tag:
a tag visit issues an access token (set as a cookie), and token-protected
routes forward the drop's playlist, tracks and files from an upstream web
server. Drops are imported from `drop_*.tar.gz` archives dropped in an import
directory.

- `src/` is the verified library (Verus): character-level text helpers
  (`text`), the tag, token and URI texts (`links`), the access decisions and
  route guards (`access`), the route state machines (`routes`), the search and
  checking of drop archives (`import`), the import of a drop (`service::drop`),
  the stored records (`repository`) and the settings types (`lib.rs`). Each
  state machine asks for one repository call, file operation or upstream
  fetch at a time; its driver performs it and hands back the outcome.
- `app/` is the executable: configuration files, PostgreSQL repositories,
  the axum router, and the drivers that run the library's state machines.
- `tests/` exercises the library.
