# cockpit_web_console

The request handling of the local web console of Cockpit Tools, verified with
Verus, and the server around it.

- `src/` — the verified library:
  - `http` reads a request from a stream of reads (`RequestReader`), parses
    its head, and bounds what it buffers;
  - `response` routes a request and frames the response head;
  - `paths` normalises paths, resolves a request path under the frontend
    root without leaving it, and picks content types;
  - `port` holds the console's port and searches for a free one;
  - `invoke` and `commands` decide how the invoke bridge answers a command
    and read its arguments; `import` describes the adapter calls for import
    and export;
  - `text` holds the character-level helpers and their specifications.
- `app/` — the asynchronous server (sockets, files, JSON) that drives the
  library.
- `tests/` — tests of the library on concrete requests and paths.
