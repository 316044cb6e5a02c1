# fimo_utils

Building blocks of the fimo module runtime, written in Verus and verified:
FFI-friendly value types (`Optional`, `ArrayString`, spans, strings, error
info), the object-pointer layer (vtable heads, object metadata, checked
casts, UUIDs), the error kinds of the module layer, and the resource map of a
context. Adding and removing modules and interfaces never creates a cycle in
its dependency graph; adding a dependency `a -> b` creates one exactly when
`a` can already be reached from `b`.

Layout:

- `src/` — the verified library. Each public function states its result in
  `ensures`; laws that relate several functions are public proof functions.
  Calls into `uuid`, `petgraph` and a few functions of `std` go through small
  trusted wrappers whose doc comments say what is assumed of them.
- `tests/` — tests that run the library on concrete values.
- `app/` — the serde form of the module manifest and the file access around
  it (not verified).
