# lib

A runtime for Rust code embedded in a JavaScript host (a WebAssembly module
that imports a small set of host functions). Host values are reached through
integer handles.

- `src/` is verified with Verus:
  - `value` — the value types (`Value`, `AnyObject`, `Symbol`, descriptors) and
    their mathematical views; numbers travel as the bits of their doubles.
  - `handles` — the handles that the runtime reserves, truthiness of host
    numbers, the descriptor templates that property edits use.
  - `text` — UTF-16, as the host stores strings.
  - `intern` — each number and string is made on the host once and then
    travels as the same handle.
  - `reader`, `descriptor` — step machines that decide which host question to
    ask next and what the answers make; each is proved equal to a direct
    reading of a host model.
  - `call`, `callbacks`, `setup` — argument arrays, the callback registry, and
    the start-up script with its checks.
- `app/` performs the host calls: the imports, the entry points `run` and
  `callback`, and the object and function operations, each driving the
  library.
- `tests/` run the library on concrete values.
