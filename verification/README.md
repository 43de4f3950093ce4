# terse

A terminal client for Terse answer servers: search for answers, read them,
publish your own, and keep a list of servers to talk to.

- `src/` is the client's logic, verified with Verus: server addresses
  (`address`), accounts and server answers (`account`, `posts`), a server's
  requests and how it is named (`server`), the list of known servers and its
  selection (`serverlist`), the keys of the search menu (`search`, `tui`), and
  the command line (`cli`). The contracts are stated over views of these types.
- `app/` is the `ts` program around it: clap parsing, the storage file,
  HTTP with reqwest, and drawing with ratatui.
- `tests/` runs the library on concrete values.
