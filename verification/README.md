# pgdog

Verified pieces of a PostgreSQL connection pooler: what it knows of a database's
position in the write-ahead log, and the hints by which it routes a client.

- `src/lsn_stats.rs`, `src/data_row.rs`: log positions, replica lag, and how long
  a replica needs to reach a position.
- `src/lsn_monitor.rs`: the monitor loop as a state machine, with the queries it
  runs.
- `src/sticky.rs`, `src/parameters.rs`: routing hints from a client's connection
  parameters.
- `src/fnv1a.rs`: the hash by which clients with one key share a replica.
- `src/request.rs`: requests for a connection.
- `src/time.rs`, `src/random.rs`: clocks and chance.
- `app/`: runs the monitor on tokio, over any pool that implements its traits.

Chance, the clocks and the FNV hash come from outside the proofs, each through a
function whose comment says what is taken for granted of it.
