# sparsey

The query layer of a sparse set-based Entity Component System, written in
Verus and proved against its contracts.

- `src/entity.rs`: entities and the sparse vector that maps them to dense
  indexes.
- `src/storage.rs`: component storages (sparse sets with change ticks).
- `src/group.rs`: grouping information and the dense ranges of grouped
  storages.
- `src/view.rs`: shared and mutable views over storages; mutable views
  hand out components by entity, by dense position or as a slice.
- `src/query/`: query parts, queries over single entities (`QueryOne`) and
  over all entities (`QueryAll`), sparse and dense iteration, slices of
  grouped queries, entity and element filters, parallel iteration, and
  updates of a mutable view driven by a query (`get_mut_with`,
  `update_with`).
- `app/`: parallel callbacks and the error type with its standard traits.

The central facts are stated as proof functions in `src/query/query_all.rs`:
iteration yields exactly the entities that match a query, once each, with
the items a single-entity query gets for them; dense iteration over grouped
storages yields what sparse iteration yields.
