# Reliquary

Read-only access to the client database tables (DBC files) of a 1.12 game
client, kept in MPQ archives, for Lua code running inside the client.

- `src/` is the verified library:
  - `dbc.rs`: the WDBC format and its parser, with the parse result stated
    as a function of the bytes;
  - `schemas.rs`: the column layout of every known table and the registry
    that maps table names to layouts;
  - `layout_names.rs`: the proof that no layout repeats a column name;
  - `mpq.rs`: the archive load order (base archives, then patch archives
    sorted by their sort key);
  - `store.rs`: the table cache and the queries answered from it (by key, by
    position, all rows, matching rows, row count); a query on a table not
    read yet asks its caller to read the table file;
  - `scripts.rs`: which columns a row table shows under which names, field
    name resolution, and the `ItemSubClass` lookup key;
  - `text.rs`: character-level string helpers.
- `app/` is the client extension around it: hooking, the Lua bindings, the
  process-wide cache, reading archives from disk and logging.
- `tests/` exercises the library.
