# route_bucket

The domain of a cycling-route planner, with its behaviour stated as Verus
contracts and proved.

- `src/` — the verified library: coordinates in fixed point (1e-5 degrees,
  millimetres), segments and segment lists, edit operations with undo and
  redo (and the laws relating them in `laws.rs`), route search queries and
  their SQL text, users and their validation, permissions, the reserved-id
  list, bearer tokens and the identity-service token bookkeeping, routing
  service addresses, and the reading of SRTM GeoTIFF tiles.
- `tests/` — tests on concrete values.
- `app/` — a small command-line program around the library: everything that
  computes on floating-point degrees (polyline coding, great-circle
  distances, GPX export, pixel lookup in tiles), the file access, the
  transaction loop over a connection, and checking or signing tokens with
  keys read from files.
