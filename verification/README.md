# Snapshots of an Iceberg table

A verified library for table snapshots. Its contracts are checked by Verus.

- `src/snapshot.rs`: `Operation`, `Summary` and `Snapshot`, with what a snapshot says of itself and
  how it finds its schema and its parent in the table metadata.
- `src/snapshot/record.rs`: the records in which the two format versions store a snapshot, the
  conversions, and the laws of storing and reading back.
- `src/snapshot/builder.rs`: the builder of snapshots.
- `src/reference.rs`: branches and tags.
- `src/table_metadata.rs`: the part of the table metadata that snapshots refer to.
- `src/time.rs`: milliseconds as points in time, by way of `chrono`.
- `src/error.rs`: the error type.
- `app/`: the JSON form of the records, by way of `serde`, `chrono` dates, and the loading of
  manifest lists.
