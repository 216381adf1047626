//! The metrics registry: owns one live metric per applicable schema entry,
//! registers each with the collection backend exactly once at construction,
//! and refreshes the subsystem gauges on demand before reading everything out
//! as a snapshot.

use vstd::prelude::*;

use crate::backend::{
    backend_names, counter_step, label_id, metric_id, no_colliding_name, observed,
    observed_sample, Backend,
};
use crate::live::{
    is_counter_family, is_counter_vec_family, is_gauge_family, is_histogram_vec_family,
    series_report, Counter, Gauge, VecCounter, VecHistogram,
};
use crate::schema::{fq, lemma_fq_injective, namespace, schema, MetricDecl};
use crate::snapshot::{family_kind, Family, FamilyData, Snapshot};

verus! {

/// An error reported by the job-queue accessor, carried verbatim.
#[derive(Debug)]
pub struct QueueError {
    pub message: String,
}

/// The connection pool's current state; all three reads are infallible.
pub struct PoolStats {
    pub idle_connections: u32,
    pub used_connections: u32,
    pub max_size: u32,
}

/// The job queue's readings; each may fail independently (the backing store
/// may be unreachable).
pub struct QueueStats {
    pub pending_count: Result<i64, QueueError>,
    pub prioritized_count: Result<i64, QueueError>,
    pub failed_count: Result<i64, QueueError>,
}

/// Why the registry could not be constructed: the backend refused a
/// registration, whose message is carried verbatim.
#[derive(Debug)]
pub struct RegistryError {
    pub message: String,
}

/// Why a gather returned no snapshot: the first collaborator failure, carried
/// verbatim; no partial snapshot is produced.
#[derive(Debug)]
pub enum GatherError {
    /// A job-queue read failed.
    Queue(QueueError),
    /// The process introspection read failed.
    ProcessStats(String),
}

/// The mathematical state of every live metric of the registry.
pub ghost struct MetricsModel {
    pub queued: i64,
    pub prioritized: i64,
    pub failed_crates: i64,
    pub idle_db: i64,
    pub used_db: i64,
    pub max_db: i64,
    pub failed_db: u64,
    pub proc_fds: Option<i64>,
    pub proc_threads: Option<i64>,
    pub routes: Map<u64, u64>,
    pub routes_labels: Seq<Seq<char>>,
    pub response: Map<u64, u64>,
    pub response_labels: Seq<Seq<char>>,
    pub rustdoc: Map<u64, u64>,
    pub rustdoc_labels: Seq<Seq<char>>,
    pub total_builds: u64,
    pub successful_builds: u64,
    pub failed_builds: u64,
    pub non_library_builds: u64,
    pub uploaded_files: u64,
    pub html_rewrite_ooms: u64,
}

/// The model of a freshly constructed registry: every gauge at zero, every
/// counter at zero, no series observed.
pub open spec fn fresh_model(with_process_metrics: bool) -> MetricsModel {
    MetricsModel {
        queued: 0,
        prioritized: 0,
        failed_crates: 0,
        idle_db: 0,
        used_db: 0,
        max_db: 0,
        failed_db: 0,
        proc_fds: if with_process_metrics {
            Some(0i64)
        } else {
            None
        },
        proc_threads: if with_process_metrics {
            Some(0i64)
        } else {
            None
        },
        routes: Map::empty(),
        routes_labels: Seq::empty(),
        response: Map::empty(),
        response_labels: Seq::empty(),
        rustdoc: Map::empty(),
        rustdoc_labels: Seq::empty(),
        total_builds: 0,
        successful_builds: 0,
        failed_builds: 0,
        non_library_builds: 0,
        uploaded_files: 0,
        html_rewrite_ooms: 0,
    }
}

/// The ambient metrics — the ones mutated as domain events occur, outside the
/// gather path — are the same in both models.
pub open spec fn ambient_same(a: MetricsModel, b: MetricsModel) -> bool {
    &&& b.failed_db == a.failed_db
    &&& b.routes == a.routes
    &&& b.routes_labels == a.routes_labels
    &&& b.response == a.response
    &&& b.response_labels == a.response_labels
    &&& b.rustdoc == a.rustdoc
    &&& b.rustdoc_labels == a.rustdoc_labels
    &&& b.total_builds == a.total_builds
    &&& b.successful_builds == a.successful_builds
    &&& b.failed_builds == a.failed_builds
    &&& b.non_library_builds == a.non_library_builds
    &&& b.uploaded_files == a.uploaded_files
    &&& b.html_rewrite_ooms == a.html_rewrite_ooms
}

/// The process gauges are the same in both models.
pub open spec fn process_same(a: MetricsModel, b: MetricsModel) -> bool {
    b.proc_fds == a.proc_fds && b.proc_threads == a.proc_threads
}

/// None of the schema's exported names is already taken among `names`.
pub open spec fn schema_free_in(names: Set<Seq<char>>, with_process_metrics: bool) -> bool {
    &&& !names.contains(fq(namespace(), schema()[0].name))
    &&& !names.contains(fq(namespace(), schema()[1].name))
    &&& !names.contains(fq(namespace(), schema()[2].name))
    &&& !names.contains(fq(namespace(), schema()[3].name))
    &&& !names.contains(fq(namespace(), schema()[4].name))
    &&& !names.contains(fq(namespace(), schema()[5].name))
    &&& !names.contains(fq(namespace(), schema()[6].name))
    &&& (with_process_metrics ==> !names.contains(fq(namespace(), schema()[7].name))
        && !names.contains(fq(namespace(), schema()[8].name)))
    &&& !names.contains(fq(namespace(), schema()[9].name))
    &&& !names.contains(fq(namespace(), schema()[10].name))
    &&& !names.contains(fq(namespace(), schema()[11].name))
    &&& !names.contains(fq(namespace(), schema()[12].name))
    &&& !names.contains(fq(namespace(), schema()[13].name))
    &&& !names.contains(fq(namespace(), schema()[14].name))
    &&& !names.contains(fq(namespace(), schema()[15].name))
    &&& !names.contains(fq(namespace(), schema()[16].name))
    &&& !names.contains(fq(namespace(), schema()[17].name))
}

/// The schema's exported names carry pairwise distinct 64-bit identities.
/// The names themselves are proved pairwise distinct
/// (`lemma_schema_fq_names_distinct`); that their hashes also differ is a
/// property of the hash on these inputs, which the backend alone decides, so
/// it stands as a hypothesis where registration success is promised.
pub open spec fn schema_ids_distinct() -> bool {
    &&& metric_id(fq(namespace(), schema()[0].name)) != metric_id(
        fq(namespace(), schema()[1].name),
    )
    &&& metric_id(fq(namespace(), schema()[0].name)) != metric_id(
        fq(namespace(), schema()[2].name),
    )
    &&& metric_id(fq(namespace(), schema()[0].name)) != metric_id(
        fq(namespace(), schema()[3].name),
    )
    &&& metric_id(fq(namespace(), schema()[0].name)) != metric_id(
        fq(namespace(), schema()[4].name),
    )
    &&& metric_id(fq(namespace(), schema()[0].name)) != metric_id(
        fq(namespace(), schema()[5].name),
    )
    &&& metric_id(fq(namespace(), schema()[0].name)) != metric_id(
        fq(namespace(), schema()[6].name),
    )
    &&& metric_id(fq(namespace(), schema()[0].name)) != metric_id(
        fq(namespace(), schema()[7].name),
    )
    &&& metric_id(fq(namespace(), schema()[0].name)) != metric_id(
        fq(namespace(), schema()[8].name),
    )
    &&& metric_id(fq(namespace(), schema()[0].name)) != metric_id(
        fq(namespace(), schema()[9].name),
    )
    &&& metric_id(fq(namespace(), schema()[0].name)) != metric_id(
        fq(namespace(), schema()[10].name),
    )
    &&& metric_id(fq(namespace(), schema()[0].name)) != metric_id(
        fq(namespace(), schema()[11].name),
    )
    &&& metric_id(fq(namespace(), schema()[0].name)) != metric_id(
        fq(namespace(), schema()[12].name),
    )
    &&& metric_id(fq(namespace(), schema()[0].name)) != metric_id(
        fq(namespace(), schema()[13].name),
    )
    &&& metric_id(fq(namespace(), schema()[0].name)) != metric_id(
        fq(namespace(), schema()[14].name),
    )
    &&& metric_id(fq(namespace(), schema()[0].name)) != metric_id(
        fq(namespace(), schema()[15].name),
    )
    &&& metric_id(fq(namespace(), schema()[0].name)) != metric_id(
        fq(namespace(), schema()[16].name),
    )
    &&& metric_id(fq(namespace(), schema()[0].name)) != metric_id(
        fq(namespace(), schema()[17].name),
    )
    &&& metric_id(fq(namespace(), schema()[1].name)) != metric_id(
        fq(namespace(), schema()[2].name),
    )
    &&& metric_id(fq(namespace(), schema()[1].name)) != metric_id(
        fq(namespace(), schema()[3].name),
    )
    &&& metric_id(fq(namespace(), schema()[1].name)) != metric_id(
        fq(namespace(), schema()[4].name),
    )
    &&& metric_id(fq(namespace(), schema()[1].name)) != metric_id(
        fq(namespace(), schema()[5].name),
    )
    &&& metric_id(fq(namespace(), schema()[1].name)) != metric_id(
        fq(namespace(), schema()[6].name),
    )
    &&& metric_id(fq(namespace(), schema()[1].name)) != metric_id(
        fq(namespace(), schema()[7].name),
    )
    &&& metric_id(fq(namespace(), schema()[1].name)) != metric_id(
        fq(namespace(), schema()[8].name),
    )
    &&& metric_id(fq(namespace(), schema()[1].name)) != metric_id(
        fq(namespace(), schema()[9].name),
    )
    &&& metric_id(fq(namespace(), schema()[1].name)) != metric_id(
        fq(namespace(), schema()[10].name),
    )
    &&& metric_id(fq(namespace(), schema()[1].name)) != metric_id(
        fq(namespace(), schema()[11].name),
    )
    &&& metric_id(fq(namespace(), schema()[1].name)) != metric_id(
        fq(namespace(), schema()[12].name),
    )
    &&& metric_id(fq(namespace(), schema()[1].name)) != metric_id(
        fq(namespace(), schema()[13].name),
    )
    &&& metric_id(fq(namespace(), schema()[1].name)) != metric_id(
        fq(namespace(), schema()[14].name),
    )
    &&& metric_id(fq(namespace(), schema()[1].name)) != metric_id(
        fq(namespace(), schema()[15].name),
    )
    &&& metric_id(fq(namespace(), schema()[1].name)) != metric_id(
        fq(namespace(), schema()[16].name),
    )
    &&& metric_id(fq(namespace(), schema()[1].name)) != metric_id(
        fq(namespace(), schema()[17].name),
    )
    &&& metric_id(fq(namespace(), schema()[2].name)) != metric_id(
        fq(namespace(), schema()[3].name),
    )
    &&& metric_id(fq(namespace(), schema()[2].name)) != metric_id(
        fq(namespace(), schema()[4].name),
    )
    &&& metric_id(fq(namespace(), schema()[2].name)) != metric_id(
        fq(namespace(), schema()[5].name),
    )
    &&& metric_id(fq(namespace(), schema()[2].name)) != metric_id(
        fq(namespace(), schema()[6].name),
    )
    &&& metric_id(fq(namespace(), schema()[2].name)) != metric_id(
        fq(namespace(), schema()[7].name),
    )
    &&& metric_id(fq(namespace(), schema()[2].name)) != metric_id(
        fq(namespace(), schema()[8].name),
    )
    &&& metric_id(fq(namespace(), schema()[2].name)) != metric_id(
        fq(namespace(), schema()[9].name),
    )
    &&& metric_id(fq(namespace(), schema()[2].name)) != metric_id(
        fq(namespace(), schema()[10].name),
    )
    &&& metric_id(fq(namespace(), schema()[2].name)) != metric_id(
        fq(namespace(), schema()[11].name),
    )
    &&& metric_id(fq(namespace(), schema()[2].name)) != metric_id(
        fq(namespace(), schema()[12].name),
    )
    &&& metric_id(fq(namespace(), schema()[2].name)) != metric_id(
        fq(namespace(), schema()[13].name),
    )
    &&& metric_id(fq(namespace(), schema()[2].name)) != metric_id(
        fq(namespace(), schema()[14].name),
    )
    &&& metric_id(fq(namespace(), schema()[2].name)) != metric_id(
        fq(namespace(), schema()[15].name),
    )
    &&& metric_id(fq(namespace(), schema()[2].name)) != metric_id(
        fq(namespace(), schema()[16].name),
    )
    &&& metric_id(fq(namespace(), schema()[2].name)) != metric_id(
        fq(namespace(), schema()[17].name),
    )
    &&& metric_id(fq(namespace(), schema()[3].name)) != metric_id(
        fq(namespace(), schema()[4].name),
    )
    &&& metric_id(fq(namespace(), schema()[3].name)) != metric_id(
        fq(namespace(), schema()[5].name),
    )
    &&& metric_id(fq(namespace(), schema()[3].name)) != metric_id(
        fq(namespace(), schema()[6].name),
    )
    &&& metric_id(fq(namespace(), schema()[3].name)) != metric_id(
        fq(namespace(), schema()[7].name),
    )
    &&& metric_id(fq(namespace(), schema()[3].name)) != metric_id(
        fq(namespace(), schema()[8].name),
    )
    &&& metric_id(fq(namespace(), schema()[3].name)) != metric_id(
        fq(namespace(), schema()[9].name),
    )
    &&& metric_id(fq(namespace(), schema()[3].name)) != metric_id(
        fq(namespace(), schema()[10].name),
    )
    &&& metric_id(fq(namespace(), schema()[3].name)) != metric_id(
        fq(namespace(), schema()[11].name),
    )
    &&& metric_id(fq(namespace(), schema()[3].name)) != metric_id(
        fq(namespace(), schema()[12].name),
    )
    &&& metric_id(fq(namespace(), schema()[3].name)) != metric_id(
        fq(namespace(), schema()[13].name),
    )
    &&& metric_id(fq(namespace(), schema()[3].name)) != metric_id(
        fq(namespace(), schema()[14].name),
    )
    &&& metric_id(fq(namespace(), schema()[3].name)) != metric_id(
        fq(namespace(), schema()[15].name),
    )
    &&& metric_id(fq(namespace(), schema()[3].name)) != metric_id(
        fq(namespace(), schema()[16].name),
    )
    &&& metric_id(fq(namespace(), schema()[3].name)) != metric_id(
        fq(namespace(), schema()[17].name),
    )
    &&& metric_id(fq(namespace(), schema()[4].name)) != metric_id(
        fq(namespace(), schema()[5].name),
    )
    &&& metric_id(fq(namespace(), schema()[4].name)) != metric_id(
        fq(namespace(), schema()[6].name),
    )
    &&& metric_id(fq(namespace(), schema()[4].name)) != metric_id(
        fq(namespace(), schema()[7].name),
    )
    &&& metric_id(fq(namespace(), schema()[4].name)) != metric_id(
        fq(namespace(), schema()[8].name),
    )
    &&& metric_id(fq(namespace(), schema()[4].name)) != metric_id(
        fq(namespace(), schema()[9].name),
    )
    &&& metric_id(fq(namespace(), schema()[4].name)) != metric_id(
        fq(namespace(), schema()[10].name),
    )
    &&& metric_id(fq(namespace(), schema()[4].name)) != metric_id(
        fq(namespace(), schema()[11].name),
    )
    &&& metric_id(fq(namespace(), schema()[4].name)) != metric_id(
        fq(namespace(), schema()[12].name),
    )
    &&& metric_id(fq(namespace(), schema()[4].name)) != metric_id(
        fq(namespace(), schema()[13].name),
    )
    &&& metric_id(fq(namespace(), schema()[4].name)) != metric_id(
        fq(namespace(), schema()[14].name),
    )
    &&& metric_id(fq(namespace(), schema()[4].name)) != metric_id(
        fq(namespace(), schema()[15].name),
    )
    &&& metric_id(fq(namespace(), schema()[4].name)) != metric_id(
        fq(namespace(), schema()[16].name),
    )
    &&& metric_id(fq(namespace(), schema()[4].name)) != metric_id(
        fq(namespace(), schema()[17].name),
    )
    &&& metric_id(fq(namespace(), schema()[5].name)) != metric_id(
        fq(namespace(), schema()[6].name),
    )
    &&& metric_id(fq(namespace(), schema()[5].name)) != metric_id(
        fq(namespace(), schema()[7].name),
    )
    &&& metric_id(fq(namespace(), schema()[5].name)) != metric_id(
        fq(namespace(), schema()[8].name),
    )
    &&& metric_id(fq(namespace(), schema()[5].name)) != metric_id(
        fq(namespace(), schema()[9].name),
    )
    &&& metric_id(fq(namespace(), schema()[5].name)) != metric_id(
        fq(namespace(), schema()[10].name),
    )
    &&& metric_id(fq(namespace(), schema()[5].name)) != metric_id(
        fq(namespace(), schema()[11].name),
    )
    &&& metric_id(fq(namespace(), schema()[5].name)) != metric_id(
        fq(namespace(), schema()[12].name),
    )
    &&& metric_id(fq(namespace(), schema()[5].name)) != metric_id(
        fq(namespace(), schema()[13].name),
    )
    &&& metric_id(fq(namespace(), schema()[5].name)) != metric_id(
        fq(namespace(), schema()[14].name),
    )
    &&& metric_id(fq(namespace(), schema()[5].name)) != metric_id(
        fq(namespace(), schema()[15].name),
    )
    &&& metric_id(fq(namespace(), schema()[5].name)) != metric_id(
        fq(namespace(), schema()[16].name),
    )
    &&& metric_id(fq(namespace(), schema()[5].name)) != metric_id(
        fq(namespace(), schema()[17].name),
    )
    &&& metric_id(fq(namespace(), schema()[6].name)) != metric_id(
        fq(namespace(), schema()[7].name),
    )
    &&& metric_id(fq(namespace(), schema()[6].name)) != metric_id(
        fq(namespace(), schema()[8].name),
    )
    &&& metric_id(fq(namespace(), schema()[6].name)) != metric_id(
        fq(namespace(), schema()[9].name),
    )
    &&& metric_id(fq(namespace(), schema()[6].name)) != metric_id(
        fq(namespace(), schema()[10].name),
    )
    &&& metric_id(fq(namespace(), schema()[6].name)) != metric_id(
        fq(namespace(), schema()[11].name),
    )
    &&& metric_id(fq(namespace(), schema()[6].name)) != metric_id(
        fq(namespace(), schema()[12].name),
    )
    &&& metric_id(fq(namespace(), schema()[6].name)) != metric_id(
        fq(namespace(), schema()[13].name),
    )
    &&& metric_id(fq(namespace(), schema()[6].name)) != metric_id(
        fq(namespace(), schema()[14].name),
    )
    &&& metric_id(fq(namespace(), schema()[6].name)) != metric_id(
        fq(namespace(), schema()[15].name),
    )
    &&& metric_id(fq(namespace(), schema()[6].name)) != metric_id(
        fq(namespace(), schema()[16].name),
    )
    &&& metric_id(fq(namespace(), schema()[6].name)) != metric_id(
        fq(namespace(), schema()[17].name),
    )
    &&& metric_id(fq(namespace(), schema()[7].name)) != metric_id(
        fq(namespace(), schema()[8].name),
    )
    &&& metric_id(fq(namespace(), schema()[7].name)) != metric_id(
        fq(namespace(), schema()[9].name),
    )
    &&& metric_id(fq(namespace(), schema()[7].name)) != metric_id(
        fq(namespace(), schema()[10].name),
    )
    &&& metric_id(fq(namespace(), schema()[7].name)) != metric_id(
        fq(namespace(), schema()[11].name),
    )
    &&& metric_id(fq(namespace(), schema()[7].name)) != metric_id(
        fq(namespace(), schema()[12].name),
    )
    &&& metric_id(fq(namespace(), schema()[7].name)) != metric_id(
        fq(namespace(), schema()[13].name),
    )
    &&& metric_id(fq(namespace(), schema()[7].name)) != metric_id(
        fq(namespace(), schema()[14].name),
    )
    &&& metric_id(fq(namespace(), schema()[7].name)) != metric_id(
        fq(namespace(), schema()[15].name),
    )
    &&& metric_id(fq(namespace(), schema()[7].name)) != metric_id(
        fq(namespace(), schema()[16].name),
    )
    &&& metric_id(fq(namespace(), schema()[7].name)) != metric_id(
        fq(namespace(), schema()[17].name),
    )
    &&& metric_id(fq(namespace(), schema()[8].name)) != metric_id(
        fq(namespace(), schema()[9].name),
    )
    &&& metric_id(fq(namespace(), schema()[8].name)) != metric_id(
        fq(namespace(), schema()[10].name),
    )
    &&& metric_id(fq(namespace(), schema()[8].name)) != metric_id(
        fq(namespace(), schema()[11].name),
    )
    &&& metric_id(fq(namespace(), schema()[8].name)) != metric_id(
        fq(namespace(), schema()[12].name),
    )
    &&& metric_id(fq(namespace(), schema()[8].name)) != metric_id(
        fq(namespace(), schema()[13].name),
    )
    &&& metric_id(fq(namespace(), schema()[8].name)) != metric_id(
        fq(namespace(), schema()[14].name),
    )
    &&& metric_id(fq(namespace(), schema()[8].name)) != metric_id(
        fq(namespace(), schema()[15].name),
    )
    &&& metric_id(fq(namespace(), schema()[8].name)) != metric_id(
        fq(namespace(), schema()[16].name),
    )
    &&& metric_id(fq(namespace(), schema()[8].name)) != metric_id(
        fq(namespace(), schema()[17].name),
    )
    &&& metric_id(fq(namespace(), schema()[9].name)) != metric_id(
        fq(namespace(), schema()[10].name),
    )
    &&& metric_id(fq(namespace(), schema()[9].name)) != metric_id(
        fq(namespace(), schema()[11].name),
    )
    &&& metric_id(fq(namespace(), schema()[9].name)) != metric_id(
        fq(namespace(), schema()[12].name),
    )
    &&& metric_id(fq(namespace(), schema()[9].name)) != metric_id(
        fq(namespace(), schema()[13].name),
    )
    &&& metric_id(fq(namespace(), schema()[9].name)) != metric_id(
        fq(namespace(), schema()[14].name),
    )
    &&& metric_id(fq(namespace(), schema()[9].name)) != metric_id(
        fq(namespace(), schema()[15].name),
    )
    &&& metric_id(fq(namespace(), schema()[9].name)) != metric_id(
        fq(namespace(), schema()[16].name),
    )
    &&& metric_id(fq(namespace(), schema()[9].name)) != metric_id(
        fq(namespace(), schema()[17].name),
    )
    &&& metric_id(fq(namespace(), schema()[10].name)) != metric_id(
        fq(namespace(), schema()[11].name),
    )
    &&& metric_id(fq(namespace(), schema()[10].name)) != metric_id(
        fq(namespace(), schema()[12].name),
    )
    &&& metric_id(fq(namespace(), schema()[10].name)) != metric_id(
        fq(namespace(), schema()[13].name),
    )
    &&& metric_id(fq(namespace(), schema()[10].name)) != metric_id(
        fq(namespace(), schema()[14].name),
    )
    &&& metric_id(fq(namespace(), schema()[10].name)) != metric_id(
        fq(namespace(), schema()[15].name),
    )
    &&& metric_id(fq(namespace(), schema()[10].name)) != metric_id(
        fq(namespace(), schema()[16].name),
    )
    &&& metric_id(fq(namespace(), schema()[10].name)) != metric_id(
        fq(namespace(), schema()[17].name),
    )
    &&& metric_id(fq(namespace(), schema()[11].name)) != metric_id(
        fq(namespace(), schema()[12].name),
    )
    &&& metric_id(fq(namespace(), schema()[11].name)) != metric_id(
        fq(namespace(), schema()[13].name),
    )
    &&& metric_id(fq(namespace(), schema()[11].name)) != metric_id(
        fq(namespace(), schema()[14].name),
    )
    &&& metric_id(fq(namespace(), schema()[11].name)) != metric_id(
        fq(namespace(), schema()[15].name),
    )
    &&& metric_id(fq(namespace(), schema()[11].name)) != metric_id(
        fq(namespace(), schema()[16].name),
    )
    &&& metric_id(fq(namespace(), schema()[11].name)) != metric_id(
        fq(namespace(), schema()[17].name),
    )
    &&& metric_id(fq(namespace(), schema()[12].name)) != metric_id(
        fq(namespace(), schema()[13].name),
    )
    &&& metric_id(fq(namespace(), schema()[12].name)) != metric_id(
        fq(namespace(), schema()[14].name),
    )
    &&& metric_id(fq(namespace(), schema()[12].name)) != metric_id(
        fq(namespace(), schema()[15].name),
    )
    &&& metric_id(fq(namespace(), schema()[12].name)) != metric_id(
        fq(namespace(), schema()[16].name),
    )
    &&& metric_id(fq(namespace(), schema()[12].name)) != metric_id(
        fq(namespace(), schema()[17].name),
    )
    &&& metric_id(fq(namespace(), schema()[13].name)) != metric_id(
        fq(namespace(), schema()[14].name),
    )
    &&& metric_id(fq(namespace(), schema()[13].name)) != metric_id(
        fq(namespace(), schema()[15].name),
    )
    &&& metric_id(fq(namespace(), schema()[13].name)) != metric_id(
        fq(namespace(), schema()[16].name),
    )
    &&& metric_id(fq(namespace(), schema()[13].name)) != metric_id(
        fq(namespace(), schema()[17].name),
    )
    &&& metric_id(fq(namespace(), schema()[14].name)) != metric_id(
        fq(namespace(), schema()[15].name),
    )
    &&& metric_id(fq(namespace(), schema()[14].name)) != metric_id(
        fq(namespace(), schema()[16].name),
    )
    &&& metric_id(fq(namespace(), schema()[14].name)) != metric_id(
        fq(namespace(), schema()[17].name),
    )
    &&& metric_id(fq(namespace(), schema()[15].name)) != metric_id(
        fq(namespace(), schema()[16].name),
    )
    &&& metric_id(fq(namespace(), schema()[15].name)) != metric_id(
        fq(namespace(), schema()[17].name),
    )
    &&& metric_id(fq(namespace(), schema()[16].name)) != metric_id(
        fq(namespace(), schema()[17].name),
    )
}

/// No name already among `names` is filed under the same identity as any
/// applicable schema name; in particular none of the schema's names is
/// already taken.
pub open spec fn schema_clear_in(names: Set<Seq<char>>, with_process_metrics: bool) -> bool {
    &&& no_colliding_name(names, fq(namespace(), schema()[0].name))
    &&& no_colliding_name(names, fq(namespace(), schema()[1].name))
    &&& no_colliding_name(names, fq(namespace(), schema()[2].name))
    &&& no_colliding_name(names, fq(namespace(), schema()[3].name))
    &&& no_colliding_name(names, fq(namespace(), schema()[4].name))
    &&& no_colliding_name(names, fq(namespace(), schema()[5].name))
    &&& no_colliding_name(names, fq(namespace(), schema()[6].name))
    &&& (with_process_metrics ==> no_colliding_name(names, fq(namespace(), schema()[7].name))
        && no_colliding_name(names, fq(namespace(), schema()[8].name)))
    &&& no_colliding_name(names, fq(namespace(), schema()[9].name))
    &&& no_colliding_name(names, fq(namespace(), schema()[10].name))
    &&& no_colliding_name(names, fq(namespace(), schema()[11].name))
    &&& no_colliding_name(names, fq(namespace(), schema()[12].name))
    &&& no_colliding_name(names, fq(namespace(), schema()[13].name))
    &&& no_colliding_name(names, fq(namespace(), schema()[14].name))
    &&& no_colliding_name(names, fq(namespace(), schema()[15].name))
    &&& no_colliding_name(names, fq(namespace(), schema()[16].name))
    &&& no_colliding_name(names, fq(namespace(), schema()[17].name))
}

/// Every applicable exported name of the schema is taken among `names`.
pub open spec fn schema_taken_in(names: Set<Seq<char>>, with_process_metrics: bool) -> bool {
    &&& names.contains(fq(namespace(), schema()[0].name))
    &&& names.contains(fq(namespace(), schema()[1].name))
    &&& names.contains(fq(namespace(), schema()[2].name))
    &&& names.contains(fq(namespace(), schema()[3].name))
    &&& names.contains(fq(namespace(), schema()[4].name))
    &&& names.contains(fq(namespace(), schema()[5].name))
    &&& names.contains(fq(namespace(), schema()[6].name))
    &&& (with_process_metrics ==> names.contains(fq(namespace(), schema()[7].name))
        && names.contains(fq(namespace(), schema()[8].name)))
    &&& names.contains(fq(namespace(), schema()[9].name))
    &&& names.contains(fq(namespace(), schema()[10].name))
    &&& names.contains(fq(namespace(), schema()[11].name))
    &&& names.contains(fq(namespace(), schema()[12].name))
    &&& names.contains(fq(namespace(), schema()[13].name))
    &&& names.contains(fq(namespace(), schema()[14].name))
    &&& names.contains(fq(namespace(), schema()[15].name))
    &&& names.contains(fq(namespace(), schema()[16].name))
    &&& names.contains(fq(namespace(), schema()[17].name))
}

/// Every schema entry is one the backend is sure to accept, by its own
/// validation rules: valid name characters, non-empty help, valid label.
pub open spec fn schema_acceptable() -> bool {
    &&& acceptable_decl(schema()[0])
    &&& acceptable_decl(schema()[1])
    &&& acceptable_decl(schema()[2])
    &&& acceptable_decl(schema()[3])
    &&& acceptable_decl(schema()[4])
    &&& acceptable_decl(schema()[5])
    &&& acceptable_decl(schema()[6])
    &&& acceptable_decl(schema()[7])
    &&& acceptable_decl(schema()[8])
    &&& acceptable_decl(schema()[9])
    &&& acceptable_decl(schema()[10])
    &&& acceptable_decl(schema()[11])
    &&& acceptable_decl(schema()[12])
    &&& acceptable_decl(schema()[13])
    &&& acceptable_decl(schema()[14])
    &&& acceptable_decl(schema()[15])
    &&& acceptable_decl(schema()[16])
    &&& acceptable_decl(schema()[17])
}

/// One schema entry the backend is sure to accept.
pub open spec fn acceptable_decl(d: crate::schema::MetricDecl) -> bool {
    &&& crate::backend::acceptable_opts(namespace(), d.name, d.help)
    &&& (d.label matches Some(l) ==> crate::backend::acceptable_label(l))
}

/// The metrics registry: one live metric per applicable schema entry, each
/// registered once with the backend at construction.
pub struct Metrics {
    queued_crates_count: Gauge,
    prioritized_crates_count: Gauge,
    failed_crates_count: Gauge,
    idle_db_connections: Gauge,
    used_db_connections: Gauge,
    max_db_connections: Gauge,
    failed_db_connections: Counter,
    open_file_descriptors: Option<Gauge>,
    running_threads: Option<Gauge>,
    routes_visited: VecCounter,
    response_time: VecHistogram,
    rustdoc_rendering_times: VecHistogram,
    total_builds: Counter,
    successful_builds: Counter,
    failed_builds: Counter,
    non_library_builds: Counter,
    uploaded_files_total: Counter,
    html_rewrite_ooms: Counter,
}

impl Metrics {
    /// Whether the platform-conditional process metrics exist in this
    /// registry.
    pub closed spec fn has_process_metrics(self) -> bool {
        self.open_file_descriptors is Some
    }

    /// The mathematical state of every live metric.
    pub closed spec fn model(self) -> MetricsModel {
        MetricsModel {
            queued: self.queued_crates_count.val(),
            prioritized: self.prioritized_crates_count.val(),
            failed_crates: self.failed_crates_count.val(),
            idle_db: self.idle_db_connections.val(),
            used_db: self.used_db_connections.val(),
            max_db: self.max_db_connections.val(),
            failed_db: self.failed_db_connections.val(),
            proc_fds: match self.open_file_descriptors {
                Some(g) => Some(g.val()),
                None => None,
            },
            proc_threads: match self.running_threads {
                Some(g) => Some(g.val()),
                None => None,
            },
            routes: self.routes_visited.counts(),
            routes_labels: self.routes_visited.label_seq(),
            response: self.response_time.counts(),
            response_labels: self.response_time.label_seq(),
            rustdoc: self.rustdoc_rendering_times.counts(),
            rustdoc_labels: self.rustdoc_rendering_times.label_seq(),
            total_builds: self.total_builds.val(),
            successful_builds: self.successful_builds.val(),
            failed_builds: self.failed_builds.val(),
            non_library_builds: self.non_library_builds.val(),
            uploaded_files: self.uploaded_files_total.val(),
            html_rewrite_ooms: self.html_rewrite_ooms.val(),
        }
    }

    /// Every live metric carries the name and help of its schema entry, the
    /// platform-conditional pair is present or absent together, and the vector
    /// families' label bookkeeping is consistent.
    pub closed spec fn wf(self) -> bool {
        &&& self.queued_crates_count.named(namespace(), schema()[0].name, schema()[0].help)
        &&& self.prioritized_crates_count.named(namespace(), schema()[1].name, schema()[1].help)
        &&& self.failed_crates_count.named(namespace(), schema()[2].name, schema()[2].help)
        &&& self.idle_db_connections.named(namespace(), schema()[3].name, schema()[3].help)
        &&& self.used_db_connections.named(namespace(), schema()[4].name, schema()[4].help)
        &&& self.max_db_connections.named(namespace(), schema()[5].name, schema()[5].help)
        &&& self.failed_db_connections.named(namespace(), schema()[6].name, schema()[6].help)
        &&& (self.open_file_descriptors matches Some(g) ==> g.named(
            namespace(),
            schema()[7].name,
            schema()[7].help,
        ))
        &&& (self.running_threads matches Some(g) ==> g.named(
            namespace(),
            schema()[8].name,
            schema()[8].help,
        ))
        &&& (self.open_file_descriptors is Some <==> self.running_threads is Some)
        &&& self.routes_visited.named(namespace(), schema()[9].name, schema()[9].help)
        &&& self.routes_visited.wf()
        &&& self.response_time.named(namespace(), schema()[10].name, schema()[10].help)
        &&& self.response_time.wf()
        &&& self.rustdoc_rendering_times.named(namespace(), schema()[11].name, schema()[11].help)
        &&& self.rustdoc_rendering_times.wf()
        &&& self.total_builds.named(namespace(), schema()[12].name, schema()[12].help)
        &&& self.successful_builds.named(namespace(), schema()[13].name, schema()[13].help)
        &&& self.failed_builds.named(namespace(), schema()[14].name, schema()[14].help)
        &&& self.non_library_builds.named(namespace(), schema()[15].name, schema()[15].help)
        &&& self.uploaded_files_total.named(namespace(), schema()[16].name, schema()[16].help)
        &&& self.html_rewrite_ooms.named(namespace(), schema()[17].name, schema()[17].help)
    }

    /// The snapshot `s` reports this registry: one family per applicable
    /// schema entry, in schema order, each carrying its exported name, its
    /// help text and the current value(s), verbatim.
    pub closed spec fn reports(self, s: Snapshot) -> bool {
        let off: int = if self.has_process_metrics() {
            9
        } else {
            7
        };
        &&& s.families@.len() == off + 9
        &&& is_gauge_family(s.families@[0], self.queued_crates_count)
        &&& is_gauge_family(s.families@[1], self.prioritized_crates_count)
        &&& is_gauge_family(s.families@[2], self.failed_crates_count)
        &&& is_gauge_family(s.families@[3], self.idle_db_connections)
        &&& is_gauge_family(s.families@[4], self.used_db_connections)
        &&& is_gauge_family(s.families@[5], self.max_db_connections)
        &&& is_counter_family(s.families@[6], self.failed_db_connections)
        &&& (self.open_file_descriptors matches Some(g) ==> is_gauge_family(s.families@[7], g))
        &&& (self.running_threads matches Some(g) ==> is_gauge_family(s.families@[8], g))
        &&& is_counter_vec_family(s.families@[off], self.routes_visited)
        &&& is_histogram_vec_family(s.families@[off + 1], self.response_time)
        &&& is_histogram_vec_family(s.families@[off + 2], self.rustdoc_rendering_times)
        &&& is_counter_family(s.families@[off + 3], self.total_builds)
        &&& is_counter_family(s.families@[off + 4], self.successful_builds)
        &&& is_counter_family(s.families@[off + 5], self.failed_builds)
        &&& is_counter_family(s.families@[off + 6], self.non_library_builds)
        &&& is_counter_family(s.families@[off + 7], self.uploaded_files_total)
        &&& is_counter_family(s.families@[off + 8], self.html_rewrite_ooms)
    }

    /// Builds every applicable live metric and registers each with the
    /// backend, exactly once, under the shared namespace. Construction
    /// succeeds whenever the backend accepts the schema — it does if nothing
    /// already registered collides with a schema name's identity and the
    /// schema's own identities are distinct — and is refused if any schema
    /// name is already registered; the backend is the final authority.
    #[verifier::rlimit(100)]
    pub fn new(b: &mut Backend, with_process_metrics: bool) -> (r: Result<Metrics, RegistryError>)
        ensures
            r matches Ok(m) ==> {
                &&& m.wf()
                &&& m.has_process_metrics() == with_process_metrics
                &&& m.model() == fresh_model(with_process_metrics)
            },
            r is Ok ==> schema_free_in(backend_names(*old(b)), with_process_metrics)
                && schema_taken_in(backend_names(*final(b)), with_process_metrics),
            schema_ids_distinct() && schema_clear_in(backend_names(*old(b)), with_process_metrics)
                ==> r is Ok,
            backend_names(*old(b)).subset_of(backend_names(*final(b))),
    {
        proof {
            lemma_fq_injective(namespace());
            crate::schema::lemma_schema_fq_names_distinct();
            lemma_schema_acceptable();
            reveal_strlit("docsrs");
            reveal_strlit("queued_crates_count");
            reveal_strlit("prioritized_crates_count");
            reveal_strlit("failed_crates_count");
            reveal_strlit("idle_db_connections");
            reveal_strlit("used_db_connections");
            reveal_strlit("max_db_connections");
            reveal_strlit("failed_db_connections");
            reveal_strlit("open_file_descriptors");
            reveal_strlit("running_threads");
            reveal_strlit("routes_visited");
            reveal_strlit("response_time");
            reveal_strlit("rustdoc_rendering_times");
            reveal_strlit("total_builds");
            reveal_strlit("successful_builds");
            reveal_strlit("failed_builds");
            reveal_strlit("non_library_builds");
            reveal_strlit("uploaded_files_total");
            reveal_strlit("html_rewrite_ooms");
            reveal_strlit("route");
            reveal_strlit("step");
            assert("route"@.len() == 5 && "step"@.len() == 4);
            assert(namespace() == "docsrs"@);
            assert(schema()[0].name == "queued_crates_count"@);
            assert(schema()[1].name == "prioritized_crates_count"@);
            assert(schema()[2].name == "failed_crates_count"@);
            assert(schema()[3].name == "idle_db_connections"@);
            assert(schema()[4].name == "used_db_connections"@);
            assert(schema()[5].name == "max_db_connections"@);
            assert(schema()[6].name == "failed_db_connections"@);
            assert(schema()[7].name == "open_file_descriptors"@);
            assert(schema()[8].name == "running_threads"@);
            assert(schema()[9].name == "routes_visited"@);
            assert(schema()[10].name == "response_time"@);
            assert(schema()[11].name == "rustdoc_rendering_times"@);
            assert(schema()[12].name == "total_builds"@);
            assert(schema()[13].name == "successful_builds"@);
            assert(schema()[14].name == "failed_builds"@);
            assert(schema()[15].name == "non_library_builds"@);
            assert(schema()[16].name == "uploaded_files_total"@);
            assert(schema()[17].name == "html_rewrite_ooms"@);
        }
        let queued_crates_count = match Gauge::register(
            b,
            "docsrs",
            "queued_crates_count",
            "Number of crates in the build queue",
        ) {
            Ok(g) => g,
            Err(message) => return Err(RegistryError { message }),
        };
        let prioritized_crates_count = match Gauge::register(
            b,
            "docsrs",
            "prioritized_crates_count",
            "Number of crates in the build queue that have a positive priority",
        ) {
            Ok(g) => g,
            Err(message) => return Err(RegistryError { message }),
        };
        let failed_crates_count = match Gauge::register(
            b,
            "docsrs",
            "failed_crates_count",
            "Number of crates that failed to build",
        ) {
            Ok(g) => g,
            Err(message) => return Err(RegistryError { message }),
        };
        let idle_db_connections = match Gauge::register(
            b,
            "docsrs",
            "idle_db_connections",
            "The number of idle database connections",
        ) {
            Ok(g) => g,
            Err(message) => return Err(RegistryError { message }),
        };
        let used_db_connections = match Gauge::register(
            b,
            "docsrs",
            "used_db_connections",
            "The number of used database connections",
        ) {
            Ok(g) => g,
            Err(message) => return Err(RegistryError { message }),
        };
        let max_db_connections = match Gauge::register(
            b,
            "docsrs",
            "max_db_connections",
            "The maximum number of database connections",
        ) {
            Ok(g) => g,
            Err(message) => return Err(RegistryError { message }),
        };
        let failed_db_connections = match Counter::register(
            b,
            "docsrs",
            "failed_db_connections",
            "Number of attempted and failed connections to the database",
        ) {
            Ok(c) => c,
            Err(message) => return Err(RegistryError { message }),
        };
        let open_file_descriptors = if with_process_metrics {
            match Gauge::register(
                b,
                "docsrs",
                "open_file_descriptors",
                "The number of currently opened file descriptors",
            ) {
                Ok(g) => Some(g),
                Err(message) => return Err(RegistryError { message }),
            }
        } else {
            None
        };
        let running_threads = if with_process_metrics {
            match Gauge::register(
                b,
                "docsrs",
                "running_threads",
                "The number of threads being used by docs.rs",
            ) {
                Ok(g) => Some(g),
                Err(message) => return Err(RegistryError { message }),
            }
        } else {
            None
        };
        let routes_visited = match VecCounter::register(
            b,
            "docsrs",
            "routes_visited",
            "The traffic of various docs.rs routes",
            "route",
        ) {
            Ok(v) => v,
            Err(message) => return Err(RegistryError { message }),
        };
        let response_time = match VecHistogram::register(
            b,
            "docsrs",
            "response_time",
            "The response times of various docs.rs routes",
            "route",
        ) {
            Ok(v) => v,
            Err(message) => return Err(RegistryError { message }),
        };
        let rustdoc_rendering_times = match VecHistogram::register(
            b,
            "docsrs",
            "rustdoc_rendering_times",
            "The time it takes to render a rustdoc page",
            "step",
        ) {
            Ok(v) => v,
            Err(message) => return Err(RegistryError { message }),
        };
        let total_builds = match Counter::register(
            b,
            "docsrs",
            "total_builds",
            "Number of crates built",
        ) {
            Ok(c) => c,
            Err(message) => return Err(RegistryError { message }),
        };
        let successful_builds = match Counter::register(
            b,
            "docsrs",
            "successful_builds",
            "Number of builds that successfully generated docs",
        ) {
            Ok(c) => c,
            Err(message) => return Err(RegistryError { message }),
        };
        let failed_builds = match Counter::register(
            b,
            "docsrs",
            "failed_builds",
            "Number of builds that generated a compiler error",
        ) {
            Ok(c) => c,
            Err(message) => return Err(RegistryError { message }),
        };
        let non_library_builds = match Counter::register(
            b,
            "docsrs",
            "non_library_builds",
            "Number of builds that did not complete due to not being a library",
        ) {
            Ok(c) => c,
            Err(message) => return Err(RegistryError { message }),
        };
        let uploaded_files_total = match Counter::register(
            b,
            "docsrs",
            "uploaded_files_total",
            "Number of files uploaded to the storage backend",
        ) {
            Ok(c) => c,
            Err(message) => return Err(RegistryError { message }),
        };
        let html_rewrite_ooms = match Counter::register(
            b,
            "docsrs",
            "html_rewrite_ooms",
            "The number of attempted files that failed due to a memory limit",
        ) {
            Ok(c) => c,
            Err(message) => return Err(RegistryError { message }),
        };
        Ok(
            Metrics {
                queued_crates_count,
                prioritized_crates_count,
                failed_crates_count,
                idle_db_connections,
                used_db_connections,
                max_db_connections,
                failed_db_connections,
                open_file_descriptors,
                running_threads,
                routes_visited,
                response_time,
                rustdoc_rendering_times,
                total_builds,
                successful_builds,
                failed_builds,
                non_library_builds,
                uploaded_files_total,
                html_rewrite_ooms,
            },
        )
    }

    /// Counts one more failed database connection.
    pub fn failed_db_connections_inc(&mut self)
        requires
            old(self).wf(),
        ensures
            final(self).wf(),
            final(self).has_process_metrics() == old(self).has_process_metrics(),
            final(self).model() == (MetricsModel {
                failed_db: counter_step(old(self).model().failed_db),
                ..old(self).model()
            }),
    {
        self.failed_db_connections.inc();
    }

    /// Counts one more crate built.
    pub fn total_builds_inc(&mut self)
        requires
            old(self).wf(),
        ensures
            final(self).wf(),
            final(self).has_process_metrics() == old(self).has_process_metrics(),
            final(self).model() == (MetricsModel {
                total_builds: counter_step(old(self).model().total_builds),
                ..old(self).model()
            }),
    {
        self.total_builds.inc();
    }

    /// Counts one more build that successfully generated docs.
    pub fn successful_builds_inc(&mut self)
        requires
            old(self).wf(),
        ensures
            final(self).wf(),
            final(self).has_process_metrics() == old(self).has_process_metrics(),
            final(self).model() == (MetricsModel {
                successful_builds: counter_step(old(self).model().successful_builds),
                ..old(self).model()
            }),
    {
        self.successful_builds.inc();
    }

    /// Counts one more build that generated a compiler error.
    pub fn failed_builds_inc(&mut self)
        requires
            old(self).wf(),
        ensures
            final(self).wf(),
            final(self).has_process_metrics() == old(self).has_process_metrics(),
            final(self).model() == (MetricsModel {
                failed_builds: counter_step(old(self).model().failed_builds),
                ..old(self).model()
            }),
    {
        self.failed_builds.inc();
    }

    /// Counts one more build that did not complete for not being a library.
    pub fn non_library_builds_inc(&mut self)
        requires
            old(self).wf(),
        ensures
            final(self).wf(),
            final(self).has_process_metrics() == old(self).has_process_metrics(),
            final(self).model() == (MetricsModel {
                non_library_builds: counter_step(old(self).model().non_library_builds),
                ..old(self).model()
            }),
    {
        self.non_library_builds.inc();
    }

    /// Counts one more file uploaded to the storage backend.
    pub fn uploaded_files_total_inc(&mut self)
        requires
            old(self).wf(),
        ensures
            final(self).wf(),
            final(self).has_process_metrics() == old(self).has_process_metrics(),
            final(self).model() == (MetricsModel {
                uploaded_files: counter_step(old(self).model().uploaded_files),
                ..old(self).model()
            }),
    {
        self.uploaded_files_total.inc();
    }

    /// Counts one more file that failed rewriting under the memory limit.
    pub fn html_rewrite_ooms_inc(&mut self)
        requires
            old(self).wf(),
        ensures
            final(self).wf(),
            final(self).has_process_metrics() == old(self).has_process_metrics(),
            final(self).model() == (MetricsModel {
                html_rewrite_ooms: counter_step(old(self).model().html_rewrite_ooms),
                ..old(self).model()
            }),
    {
        self.html_rewrite_ooms.inc();
    }

    /// Counts one more visit of the route named `route`, creating its series
    /// on first use; no series under another identity is touched.
    pub fn routes_visited_inc(&mut self, route: &str)
        requires
            old(self).wf(),
        ensures
            final(self).wf(),
            final(self).has_process_metrics() == old(self).has_process_metrics(),
            final(self).model() == (MetricsModel {
                routes: observed(old(self).model().routes, label_id(route@)),
                routes_labels: if old(self).model().routes_labels.contains(route@) {
                    old(self).model().routes_labels
                } else {
                    old(self).model().routes_labels.push(route@)
                },
                ..old(self).model()
            }),
    {
        self.routes_visited.observe(route);
    }

    /// Records one response of `seconds` for the route named `route`.
    pub fn response_time_observe(&mut self, route: &str, seconds: u64)
        requires
            old(self).wf(),
        ensures
            final(self).wf(),
            final(self).has_process_metrics() == old(self).has_process_metrics(),
            final(self).model() == (MetricsModel {
                response: observed_sample(old(self).model().response, label_id(route@)),
                response_labels: if old(self).model().response_labels.contains(route@) {
                    old(self).model().response_labels
                } else {
                    old(self).model().response_labels.push(route@)
                },
                ..old(self).model()
            }),
    {
        self.response_time.observe(route, seconds);
    }

    /// Records that the rendering step named `step` took `seconds`.
    pub fn rustdoc_rendering_times_observe(&mut self, step: &str, seconds: u64)
        requires
            old(self).wf(),
        ensures
            final(self).wf(),
            final(self).has_process_metrics() == old(self).has_process_metrics(),
            final(self).model() == (MetricsModel {
                rustdoc: observed_sample(old(self).model().rustdoc, label_id(step@)),
                rustdoc_labels: if old(self).model().rustdoc_labels.contains(step@) {
                    old(self).model().rustdoc_labels
                } else {
                    old(self).model().rustdoc_labels.push(step@)
                },
                ..old(self).model()
            }),
    {
        self.rustdoc_rendering_times.observe(step, seconds);
    }

    /// Sets the two process gauges from freshly read values.
    pub fn set_process_stats(&mut self, fds: i64, threads: i64)
        requires
            old(self).wf(),
            old(self).has_process_metrics(),
        ensures
            final(self).wf(),
            final(self).has_process_metrics() == old(self).has_process_metrics(),
            final(self).model() == (MetricsModel {
                proc_fds: Some(fds),
                proc_threads: Some(threads),
                ..old(self).model()
            }),
    {
        match &mut self.open_file_descriptors {
            Some(g) => g.set(fds),
            None => {},
        }
        match &mut self.running_threads {
            Some(g) => g.set(threads),
            None => {},
        }
    }

    /// Where the platform exposes process introspection, reads the current
    /// open file descriptor count and live thread count and sets the two
    /// process gauges; a read failure is surfaced and changes nothing. Where
    /// the platform does not, does nothing.
    pub fn gather_system_performance(&mut self) -> (r: Result<(), GatherError>)
        requires
            old(self).wf(),
        ensures
            final(self).wf(),
            final(self).has_process_metrics() == old(self).has_process_metrics(),
            final(self).model() == (MetricsModel {
                proc_fds: final(self).model().proc_fds,
                proc_threads: final(self).model().proc_threads,
                ..old(self).model()
            }),
            !old(self).has_process_metrics() ==> r is Ok && final(self).model() == old(self).model(),
            r is Err ==> (r matches Err(e) && e is ProcessStats) && final(self).model() == old(self).model(),
            r is Ok && old(self).has_process_metrics() ==> (final(self).model().proc_fds matches
                Some(f) && f >= 0),
    {
        if self.open_file_descriptors.is_none() {
            return Ok(());
        }
        match read_process_stats() {
            Ok(v) => {
                self.set_process_stats(v.0, v.1);
                Ok(())
            },
            Err(message) => Err(GatherError::ProcessStats(message)),
        }
    }

    /// Reads every registered metric out as one snapshot, in schema order.
    fn snapshot(&self) -> (s: Snapshot)
        requires
            self.wf(),
        ensures
            self.reports(s),
    {
        let mut families: Vec<Family> = Vec::new();
        families.push(self.queued_crates_count.family());
        families.push(self.prioritized_crates_count.family());
        families.push(self.failed_crates_count.family());
        families.push(self.idle_db_connections.family());
        families.push(self.used_db_connections.family());
        families.push(self.max_db_connections.family());
        families.push(self.failed_db_connections.family());
        match &self.open_file_descriptors {
            Some(g) => families.push(g.family()),
            None => {},
        }
        match &self.running_threads {
            Some(g) => families.push(g.family()),
            None => {},
        }
        families.push(self.routes_visited.family());
        families.push(self.response_time.family());
        families.push(self.rustdoc_rendering_times.family());
        families.push(self.total_builds.family());
        families.push(self.successful_builds.family());
        families.push(self.failed_builds.family());
        families.push(self.non_library_builds.family());
        families.push(self.uploaded_files_total.family());
        families.push(self.html_rewrite_ooms.family());
        Snapshot { families }
    }

    /// Refreshes the subsystem gauges — pool first, then the three queue
    /// reads in order, then the process gauges — and reads everything out as
    /// a snapshot. The first failing read aborts the gather: its error is
    /// returned verbatim and no snapshot is produced.
    pub fn gather(&mut self, pool: &PoolStats, queue: QueueStats) -> (r: Result<
        Snapshot,
        GatherError,
    >)
        requires
            old(self).wf(),
        ensures
            final(self).wf(),
            final(self).has_process_metrics() == old(self).has_process_metrics(),
            ambient_same(old(self).model(), final(self).model()),
            final(self).model().idle_db == pool.idle_connections as i64,
            final(self).model().used_db == pool.used_connections as i64,
            final(self).model().max_db == pool.max_size as i64,
            queue.pending_count matches Err(e) ==> r == Err::<Snapshot, GatherError>(
                GatherError::Queue(e),
            ) && final(self).model().queued == old(self).model().queued && final(self).model().prioritized == old(self).model().prioritized && final(self).model().failed_crates == old(self).model().failed_crates && process_same(
                old(self).model(),
                final(self).model(),
            ),
            queue.pending_count matches Ok(v) ==> final(self).model().queued == v,
            queue.pending_count is Ok ==> (queue.prioritized_count matches Err(e) ==> r == Err::<
                Snapshot,
                GatherError,
            >(GatherError::Queue(e)) && final(self).model().prioritized == old(self).model().prioritized && final(self).model().failed_crates == old(self).model().failed_crates && process_same(old(self).model(), final(self).model())),
            queue.pending_count is Ok ==> (queue.prioritized_count matches Ok(v) ==> final(self).model().prioritized == v),
            queue.pending_count is Ok && queue.prioritized_count is Ok ==> (queue.failed_count
                matches Err(e) ==> r == Err::<Snapshot, GatherError>(GatherError::Queue(e))
                && final(self).model().failed_crates == old(self).model().failed_crates
                && process_same(old(self).model(), final(self).model())),
            queue.pending_count is Ok && queue.prioritized_count is Ok ==> (queue.failed_count
                matches Ok(v) ==> final(self).model().failed_crates == v),
            queue.pending_count is Ok && queue.prioritized_count is Ok && queue.failed_count is Ok
                && !old(self).has_process_metrics() ==> r is Ok && process_same(
                old(self).model(),
                final(self).model(),
            ),
            queue.pending_count is Ok && queue.prioritized_count is Ok && queue.failed_count is Ok
                && r is Err ==> (r matches Err(e2) && e2 is ProcessStats) && process_same(
                old(self).model(),
                final(self).model(),
            ),
            r matches Ok(s) ==> final(self).reports(s),
    {
        self.idle_db_connections.set(pool.idle_connections as i64);
        self.used_db_connections.set(pool.used_connections as i64);
        self.max_db_connections.set(pool.max_size as i64);
        let pending = match queue.pending_count {
            Ok(v) => v,
            Err(e) => return Err(GatherError::Queue(e)),
        };
        self.queued_crates_count.set(pending);
        let prioritized = match queue.prioritized_count {
            Ok(v) => v,
            Err(e) => return Err(GatherError::Queue(e)),
        };
        self.prioritized_crates_count.set(prioritized);
        let failed = match queue.failed_count {
            Ok(v) => v,
            Err(e) => return Err(GatherError::Queue(e)),
        };
        self.failed_crates_count.set(failed);
        match self.gather_system_performance() {
            Ok(_) => {},
            Err(e) => return Err(e),
        }
        Ok(self.snapshot())
    }
}

/// Relies on `procfs`: `Process::myself`, `Process::fd_count` and
/// `Process::stat` read this process's open file descriptor count and live
/// thread count from the proc filesystem. What comes back depends on the
/// machine and the moment, so nothing is promised of the values beyond the
/// count being non-negative.
#[verifier::external_body]
fn read_process_stats() -> (r: Result<(i64, i64), String>)
    ensures
        r matches Ok(v) ==> v.0 >= 0,
{
    let process = procfs::process::Process::myself().map_err(|e| e.to_string())?;
    let fds = process.fd_count().map_err(|e| e.to_string())?;
    let stat = process.stat().map_err(|e| e.to_string())?;
    let fd_count = i64::try_from(fds).map_err(|e| e.to_string())?;
    Ok((fd_count, stat.num_threads))
}

/// The fixed schema is one the backend accepts: every name is made of valid
/// metric name characters, every help text is non-empty, and both label
/// dimensions are valid label names. With `lemma_schema_fq_names_distinct`,
/// this is why constructing the registry against a fresh backend never fails.
pub proof fn lemma_schema_acceptable()
    ensures
        schema_acceptable(),
{
    reveal_strlit("docsrs");
    assert("docsrs"@[0] == 'd');
    assert forall|i: int| 0 <= i < "docsrs"@.len() implies crate::backend::name_char(
        "docsrs"@[i],
    ) by {
        reveal_strlit("docsrs");
    }
    reveal_strlit("queued_crates_count");
    assert forall|i: int| 0 <= i < "queued_crates_count"@.len() implies crate::backend::name_char(
        "queued_crates_count"@[i],
    ) by {
        reveal_strlit("queued_crates_count");
    }
    reveal_strlit("prioritized_crates_count");
    assert forall|i: int| 0 <= i < "prioritized_crates_count"@.len() implies crate::backend::name_char(
        "prioritized_crates_count"@[i],
    ) by {
        reveal_strlit("prioritized_crates_count");
    }
    reveal_strlit("failed_crates_count");
    assert forall|i: int| 0 <= i < "failed_crates_count"@.len() implies crate::backend::name_char(
        "failed_crates_count"@[i],
    ) by {
        reveal_strlit("failed_crates_count");
    }
    reveal_strlit("idle_db_connections");
    assert forall|i: int| 0 <= i < "idle_db_connections"@.len() implies crate::backend::name_char(
        "idle_db_connections"@[i],
    ) by {
        reveal_strlit("idle_db_connections");
    }
    reveal_strlit("used_db_connections");
    assert forall|i: int| 0 <= i < "used_db_connections"@.len() implies crate::backend::name_char(
        "used_db_connections"@[i],
    ) by {
        reveal_strlit("used_db_connections");
    }
    reveal_strlit("max_db_connections");
    assert forall|i: int| 0 <= i < "max_db_connections"@.len() implies crate::backend::name_char(
        "max_db_connections"@[i],
    ) by {
        reveal_strlit("max_db_connections");
    }
    reveal_strlit("failed_db_connections");
    assert forall|i: int| 0 <= i < "failed_db_connections"@.len() implies crate::backend::name_char(
        "failed_db_connections"@[i],
    ) by {
        reveal_strlit("failed_db_connections");
    }
    reveal_strlit("open_file_descriptors");
    assert forall|i: int| 0 <= i < "open_file_descriptors"@.len() implies crate::backend::name_char(
        "open_file_descriptors"@[i],
    ) by {
        reveal_strlit("open_file_descriptors");
    }
    reveal_strlit("running_threads");
    assert forall|i: int| 0 <= i < "running_threads"@.len() implies crate::backend::name_char(
        "running_threads"@[i],
    ) by {
        reveal_strlit("running_threads");
    }
    reveal_strlit("routes_visited");
    assert forall|i: int| 0 <= i < "routes_visited"@.len() implies crate::backend::name_char(
        "routes_visited"@[i],
    ) by {
        reveal_strlit("routes_visited");
    }
    reveal_strlit("response_time");
    assert forall|i: int| 0 <= i < "response_time"@.len() implies crate::backend::name_char(
        "response_time"@[i],
    ) by {
        reveal_strlit("response_time");
    }
    reveal_strlit("rustdoc_rendering_times");
    assert forall|i: int| 0 <= i < "rustdoc_rendering_times"@.len() implies crate::backend::name_char(
        "rustdoc_rendering_times"@[i],
    ) by {
        reveal_strlit("rustdoc_rendering_times");
    }
    reveal_strlit("total_builds");
    assert forall|i: int| 0 <= i < "total_builds"@.len() implies crate::backend::name_char(
        "total_builds"@[i],
    ) by {
        reveal_strlit("total_builds");
    }
    reveal_strlit("successful_builds");
    assert forall|i: int| 0 <= i < "successful_builds"@.len() implies crate::backend::name_char(
        "successful_builds"@[i],
    ) by {
        reveal_strlit("successful_builds");
    }
    reveal_strlit("failed_builds");
    assert forall|i: int| 0 <= i < "failed_builds"@.len() implies crate::backend::name_char(
        "failed_builds"@[i],
    ) by {
        reveal_strlit("failed_builds");
    }
    reveal_strlit("non_library_builds");
    assert forall|i: int| 0 <= i < "non_library_builds"@.len() implies crate::backend::name_char(
        "non_library_builds"@[i],
    ) by {
        reveal_strlit("non_library_builds");
    }
    reveal_strlit("uploaded_files_total");
    assert forall|i: int| 0 <= i < "uploaded_files_total"@.len() implies crate::backend::name_char(
        "uploaded_files_total"@[i],
    ) by {
        reveal_strlit("uploaded_files_total");
    }
    reveal_strlit("html_rewrite_ooms");
    assert forall|i: int| 0 <= i < "html_rewrite_ooms"@.len() implies crate::backend::name_char(
        "html_rewrite_ooms"@[i],
    ) by {
        reveal_strlit("html_rewrite_ooms");
    }
    reveal_strlit("Number of crates in the build queue");
    reveal_strlit("Number of crates in the build queue that have a positive priority");
    reveal_strlit("Number of crates that failed to build");
    reveal_strlit("The number of idle database connections");
    reveal_strlit("The number of used database connections");
    reveal_strlit("The maximum number of database connections");
    reveal_strlit("Number of attempted and failed connections to the database");
    reveal_strlit("The number of currently opened file descriptors");
    reveal_strlit("The number of threads being used by docs.rs");
    reveal_strlit("The traffic of various docs.rs routes");
    reveal_strlit("The response times of various docs.rs routes");
    reveal_strlit("The time it takes to render a rustdoc page");
    reveal_strlit("Number of crates built");
    reveal_strlit("Number of builds that successfully generated docs");
    reveal_strlit("Number of builds that generated a compiler error");
    reveal_strlit("Number of builds that did not complete due to not being a library");
    reveal_strlit("Number of files uploaded to the storage backend");
    reveal_strlit("The number of attempted files that failed due to a memory limit");
    reveal_strlit("route");
    assert("route"@[0] == 'r');
    assert forall|i: int| 0 <= i < "route"@.len() implies crate::backend::label_char(
        "route"@[i],
    ) by {
        reveal_strlit("route");
    }
    reveal_strlit("step");
    assert("step"@[0] == 's');
    assert forall|i: int| 0 <= i < "step"@.len() implies crate::backend::label_char(
        "step"@[i],
    ) by {
        reveal_strlit("step");
    }
}




/// In a fresh backend no name is taken and nothing can collide, so nothing
/// stands in the way of constructing the registry: together with the
/// construction contract, a valid, duplicate-free schema whose names carry
/// distinct identities registers successfully against a fresh backend.
pub proof fn lemma_fresh_backend_accepts_schema(with_process_metrics: bool)
    ensures
        schema_free_in(Set::<Seq<char>>::empty(), with_process_metrics),
        schema_clear_in(Set::<Seq<char>>::empty(), with_process_metrics),
{
}

/// Declaring the same schema again under the same namespace in the same
/// backend fails: a successful construction leaves every applicable schema
/// name taken, and construction is refused while any schema name is taken.
pub proof fn lemma_second_construction_refused(names: Set<Seq<char>>, with_process_metrics: bool)
    requires
        schema_taken_in(names, with_process_metrics),
    ensures
        !schema_free_in(names, with_process_metrics),
{
}

/// A snapshot reports every scalar metric verbatim, under its schema name: the
/// gauges' levels and the counters' cumulative counts appear untransformed and
/// unclamped.
pub proof fn lemma_snapshot_reports_scalars_verbatim(m: Metrics, s: Snapshot)
    requires
        m.wf(),
        m.reports(s),
    ensures
        forall|i: int| 0 <= i < 7 ==> (#[trigger] s.families@[i]).name@ == fq(
            namespace(),
            schema()[i].name,
        ),
        s.families@[0].data == FamilyData::Gauge(m.model().queued),
        s.families@[1].data == FamilyData::Gauge(m.model().prioritized),
        s.families@[2].data == FamilyData::Gauge(m.model().failed_crates),
        s.families@[3].data == FamilyData::Gauge(m.model().idle_db),
        s.families@[4].data == FamilyData::Gauge(m.model().used_db),
        s.families@[5].data == FamilyData::Gauge(m.model().max_db),
        s.families@[6].data == FamilyData::Counter(m.model().failed_db),
{
}


/// The schema entry a snapshot family at index `i` stands for: with the
/// process metrics present the snapshot follows the schema one to one, and
/// without them the two platform-conditional entries are skipped.
pub open spec fn snapshot_decl(with_process_metrics: bool, i: int) -> MetricDecl {
    if with_process_metrics || i < 7 {
        schema()[i]
    } else {
        schema()[i + 2]
    }
}

/// A snapshot holds one family per applicable schema entry, in schema order:
/// none is missing, none is extra, and each family carries its entry's
/// exported name, its help text verbatim, and its kind. With
/// `lemma_schema_fq_names_distinct`, no name appears twice.
pub proof fn lemma_snapshot_structure(m: Metrics, s: Snapshot)
    requires
        m.wf(),
        m.reports(s),
    ensures
        s.families@.len() == (if m.has_process_metrics() {
            18int
        } else {
            16int
        }),
        forall|i: int|
            0 <= i < s.families@.len() ==> (#[trigger] s.families@[i]).name@ == fq(
                namespace(),
                snapshot_decl(m.has_process_metrics(), i).name,
            ),
        forall|i: int|
            0 <= i < s.families@.len() ==> (#[trigger] s.families@[i]).help@ == snapshot_decl(
                m.has_process_metrics(),
                i,
            ).help,
        forall|i: int|
            0 <= i < s.families@.len() ==> family_kind((#[trigger] s.families@[i]).data)
                == snapshot_decl(m.has_process_metrics(), i).kind,
{
}

/// A snapshot reports the ambient counters verbatim: the exact cumulative
/// count of each, untransformed.
pub proof fn lemma_snapshot_reports_ambient_counters(m: Metrics, s: Snapshot)
    requires
        m.wf(),
        m.reports(s),
    ensures
        ({
            let off: int = if m.has_process_metrics() {
                9
            } else {
                7
            };
            &&& s.families@[off + 3].data == FamilyData::Counter(m.model().total_builds)
            &&& s.families@[off + 4].data == FamilyData::Counter(m.model().successful_builds)
            &&& s.families@[off + 5].data == FamilyData::Counter(m.model().failed_builds)
            &&& s.families@[off + 6].data == FamilyData::Counter(m.model().non_library_builds)
            &&& s.families@[off + 7].data == FamilyData::Counter(m.model().uploaded_files)
            &&& s.families@[off + 8].data == FamilyData::Counter(m.model().html_rewrite_ooms)
        }),
{
}

/// A snapshot reports each vector family verbatim: one series per observed
/// label value, in order of first use, each carrying the count filed under
/// its label's identity.
pub proof fn lemma_snapshot_reports_vector_series(m: Metrics, s: Snapshot)
    requires
        m.wf(),
        m.reports(s),
    ensures
        ({
            let off: int = if m.has_process_metrics() {
                9
            } else {
                7
            };
            &&& (s.families@[off].data matches FamilyData::CounterSeries(series) && series_report(
                series@,
                m.model().routes_labels,
                m.model().routes,
            ))
            &&& (s.families@[off + 1].data matches FamilyData::HistogramSeries(series)
                && series_report(series@, m.model().response_labels, m.model().response))
            &&& (s.families@[off + 2].data matches FamilyData::HistogramSeries(series)
                && series_report(series@, m.model().rustdoc_labels, m.model().rustdoc))
        }),
{
}

/// Where the process metrics exist, a snapshot reports the two process gauges
/// verbatim.
pub proof fn lemma_snapshot_reports_process_gauges(m: Metrics, s: Snapshot)
    requires
        m.wf(),
        m.reports(s),
        m.has_process_metrics(),
    ensures
        m.model().proc_fds matches Some(v) ==> s.families@[7].data == FamilyData::Gauge(v),
        m.model().proc_threads matches Some(v) ==> s.families@[8].data == FamilyData::Gauge(v),
{
}

} // verus!
