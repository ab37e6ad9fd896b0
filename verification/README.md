# name_mapping

Puts field ids into the schemas of files that were written without them.

A `NameMapping` lists field ids with the column names they go with, level by level.
`apply_name_mapping` looks every field of a `Schema` up in it and stores the id that it finds in
the field's metadata, under `PARQUET:field_id`. Fields of schemas and structs are looked up under
their own names, list elements as `element`, map keys and values as `key` and `value`. The parts
of a nested column are looked up among the children of the column's own entry.

- `src/` is the library. All of it is verified with Verus; `src/resolve.rs` says what applying a
  mapping means, `src/laws.rs` what holds of every mapped schema. One fact is taken on trust: the
  text of Parquet's metadata key (`src/keys.rs`).
- `app/` is the same function on the schemas of `arrow_schema`.
- `tests/` runs the library.
