//! Replication monitoring and routing hints for a PostgreSQL connection pooler.

pub mod data_row;
pub mod fnv1a;
pub mod lsn_monitor;
pub mod lsn_stats;
pub mod parameters;
pub mod random;
pub mod request;
pub mod sticky;
pub mod time;
