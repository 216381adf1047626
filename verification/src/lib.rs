//! A declarative metrics registry: a fixed schema of named, typed, documented
//! measurements, registered once with a Prometheus collection backend at
//! construction, refreshed on demand from collaborating subsystems (a database
//! connection pool, a job queue, and, where available, OS process statistics),
//! and read out as an exportable snapshot.

pub mod backend;
pub mod live;
pub mod registry;
pub mod schema;
pub mod snapshot;
