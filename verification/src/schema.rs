//! The metric declaration schema: the fixed, ordered table of every metric this
//! process exposes, each with its name, kind, help text, optional label
//! dimension and platform condition. The table is the source of truth for what
//! the registry constructs and what a snapshot contains.

use vstd::prelude::*;

verus! {

/// The kind of a declared metric: a settable level, a monotonic count, or a
/// label-keyed family of counters or histograms.
#[derive(Clone, Copy, PartialEq, Eq, Structural)]
pub enum MetricKind {
    Gauge,
    Counter,
    CounterVec,
    HistogramVec,
}

/// One entry of the declaration schema.
pub ghost struct MetricDecl {
    /// The metric's own name, without the namespace prefix.
    pub name: Seq<char>,
    /// The help text exported verbatim with the metric.
    pub help: Seq<char>,
    pub kind: MetricKind,
    /// The single label dimension; present exactly for the vector kinds.
    pub label: Option<Seq<char>>,
    /// True for metrics that exist only where the platform exposes process
    /// introspection.
    pub platform_only: bool,
}

/// The shared prefix under which every metric of this process is exported.
pub open spec fn namespace() -> Seq<char> {
    "docsrs"@
}

/// The exported, fully qualified name of a metric: `namespace _ name`.
pub open spec fn fq(ns: Seq<char>, name: Seq<char>) -> Seq<char> {
    ns + seq!['_'] + name
}

/// The complete schema, in export order.
pub open spec fn schema() -> Seq<MetricDecl> {
    seq![
        MetricDecl {
            name: "queued_crates_count"@,
            help: "Number of crates in the build queue"@,
            kind: MetricKind::Gauge,
            label: None,
            platform_only: false,
        },
        MetricDecl {
            name: "prioritized_crates_count"@,
            help: "Number of crates in the build queue that have a positive priority"@,
            kind: MetricKind::Gauge,
            label: None,
            platform_only: false,
        },
        MetricDecl {
            name: "failed_crates_count"@,
            help: "Number of crates that failed to build"@,
            kind: MetricKind::Gauge,
            label: None,
            platform_only: false,
        },
        MetricDecl {
            name: "idle_db_connections"@,
            help: "The number of idle database connections"@,
            kind: MetricKind::Gauge,
            label: None,
            platform_only: false,
        },
        MetricDecl {
            name: "used_db_connections"@,
            help: "The number of used database connections"@,
            kind: MetricKind::Gauge,
            label: None,
            platform_only: false,
        },
        MetricDecl {
            name: "max_db_connections"@,
            help: "The maximum number of database connections"@,
            kind: MetricKind::Gauge,
            label: None,
            platform_only: false,
        },
        MetricDecl {
            name: "failed_db_connections"@,
            help: "Number of attempted and failed connections to the database"@,
            kind: MetricKind::Counter,
            label: None,
            platform_only: false,
        },
        MetricDecl {
            name: "open_file_descriptors"@,
            help: "The number of currently opened file descriptors"@,
            kind: MetricKind::Gauge,
            label: None,
            platform_only: true,
        },
        MetricDecl {
            name: "running_threads"@,
            help: "The number of threads being used by docs.rs"@,
            kind: MetricKind::Gauge,
            label: None,
            platform_only: true,
        },
        MetricDecl {
            name: "routes_visited"@,
            help: "The traffic of various docs.rs routes"@,
            kind: MetricKind::CounterVec,
            label: Some("route"@),
            platform_only: false,
        },
        MetricDecl {
            name: "response_time"@,
            help: "The response times of various docs.rs routes"@,
            kind: MetricKind::HistogramVec,
            label: Some("route"@),
            platform_only: false,
        },
        MetricDecl {
            name: "rustdoc_rendering_times"@,
            help: "The time it takes to render a rustdoc page"@,
            kind: MetricKind::HistogramVec,
            label: Some("step"@),
            platform_only: false,
        },
        MetricDecl {
            name: "total_builds"@,
            help: "Number of crates built"@,
            kind: MetricKind::Counter,
            label: None,
            platform_only: false,
        },
        MetricDecl {
            name: "successful_builds"@,
            help: "Number of builds that successfully generated docs"@,
            kind: MetricKind::Counter,
            label: None,
            platform_only: false,
        },
        MetricDecl {
            name: "failed_builds"@,
            help: "Number of builds that generated a compiler error"@,
            kind: MetricKind::Counter,
            label: None,
            platform_only: false,
        },
        MetricDecl {
            name: "non_library_builds"@,
            help: "Number of builds that did not complete due to not being a library"@,
            kind: MetricKind::Counter,
            label: None,
            platform_only: false,
        },
        MetricDecl {
            name: "uploaded_files_total"@,
            help: "Number of files uploaded to the storage backend"@,
            kind: MetricKind::Counter,
            label: None,
            platform_only: false,
        },
        MetricDecl {
            name: "html_rewrite_ooms"@,
            help: "The number of attempted files that failed due to a memory limit"@,
            kind: MetricKind::Counter,
            label: None,
            platform_only: false,
        },
    ]
}

/// Distinct metric names stay distinct after the namespace prefix is applied:
/// prefixing with `namespace _` is injective.
pub proof fn lemma_fq_injective(ns: Seq<char>)
    ensures
        forall|a: Seq<char>, b: Seq<char>| a != b ==> #[trigger] fq(ns, a) != #[trigger] fq(ns, b),
{
    assert forall|a: Seq<char>, b: Seq<char>| a != b implies #[trigger] fq(ns, a) != #[trigger] fq(
        ns,
        b,
    ) by {
        if fq(ns, a) == fq(ns, b) {
            assert(fq(ns, a).len() == ns.len() + 1 + a.len());
            assert(fq(ns, b).len() == ns.len() + 1 + b.len());
            assert(a.len() == b.len());
            assert(a =~= b) by {
                assert forall|i: int| 0 <= i < a.len() implies a[i] == b[i] by {
                    assert(fq(ns, a)[ns.len() + 1 + i] == a[i]);
                    assert(fq(ns, b)[ns.len() + 1 + i] == b[i]);
                }
            }
        }
    }
}



/// Exactly the two process introspection metrics are platform-conditional:
/// construction materializes every other entry unconditionally and those two
/// only where the platform exposes the data.
pub proof fn lemma_platform_conditional_entries()
    ensures
        !schema()[0].platform_only,
        !schema()[1].platform_only,
        !schema()[2].platform_only,
        !schema()[3].platform_only,
        !schema()[4].platform_only,
        !schema()[5].platform_only,
        !schema()[6].platform_only,
        schema()[7].platform_only,
        schema()[8].platform_only,
        !schema()[9].platform_only,
        !schema()[10].platform_only,
        !schema()[11].platform_only,
        !schema()[12].platform_only,
        !schema()[13].platform_only,
        !schema()[14].platform_only,
        !schema()[15].platform_only,
        !schema()[16].platform_only,
        !schema()[17].platform_only,
{
}

/// The schema's exported names are pairwise distinct: the metric names differ,
/// and the namespace prefix keeps distinct names distinct.
pub proof fn lemma_schema_fq_names_distinct()
    ensures
        fq(namespace(), schema()[0].name) != fq(namespace(), schema()[1].name),
        fq(namespace(), schema()[0].name) != fq(namespace(), schema()[2].name),
        fq(namespace(), schema()[0].name) != fq(namespace(), schema()[3].name),
        fq(namespace(), schema()[0].name) != fq(namespace(), schema()[4].name),
        fq(namespace(), schema()[0].name) != fq(namespace(), schema()[5].name),
        fq(namespace(), schema()[0].name) != fq(namespace(), schema()[6].name),
        fq(namespace(), schema()[0].name) != fq(namespace(), schema()[7].name),
        fq(namespace(), schema()[0].name) != fq(namespace(), schema()[8].name),
        fq(namespace(), schema()[0].name) != fq(namespace(), schema()[9].name),
        fq(namespace(), schema()[0].name) != fq(namespace(), schema()[10].name),
        fq(namespace(), schema()[0].name) != fq(namespace(), schema()[11].name),
        fq(namespace(), schema()[0].name) != fq(namespace(), schema()[12].name),
        fq(namespace(), schema()[0].name) != fq(namespace(), schema()[13].name),
        fq(namespace(), schema()[0].name) != fq(namespace(), schema()[14].name),
        fq(namespace(), schema()[0].name) != fq(namespace(), schema()[15].name),
        fq(namespace(), schema()[0].name) != fq(namespace(), schema()[16].name),
        fq(namespace(), schema()[0].name) != fq(namespace(), schema()[17].name),
        fq(namespace(), schema()[1].name) != fq(namespace(), schema()[2].name),
        fq(namespace(), schema()[1].name) != fq(namespace(), schema()[3].name),
        fq(namespace(), schema()[1].name) != fq(namespace(), schema()[4].name),
        fq(namespace(), schema()[1].name) != fq(namespace(), schema()[5].name),
        fq(namespace(), schema()[1].name) != fq(namespace(), schema()[6].name),
        fq(namespace(), schema()[1].name) != fq(namespace(), schema()[7].name),
        fq(namespace(), schema()[1].name) != fq(namespace(), schema()[8].name),
        fq(namespace(), schema()[1].name) != fq(namespace(), schema()[9].name),
        fq(namespace(), schema()[1].name) != fq(namespace(), schema()[10].name),
        fq(namespace(), schema()[1].name) != fq(namespace(), schema()[11].name),
        fq(namespace(), schema()[1].name) != fq(namespace(), schema()[12].name),
        fq(namespace(), schema()[1].name) != fq(namespace(), schema()[13].name),
        fq(namespace(), schema()[1].name) != fq(namespace(), schema()[14].name),
        fq(namespace(), schema()[1].name) != fq(namespace(), schema()[15].name),
        fq(namespace(), schema()[1].name) != fq(namespace(), schema()[16].name),
        fq(namespace(), schema()[1].name) != fq(namespace(), schema()[17].name),
        fq(namespace(), schema()[2].name) != fq(namespace(), schema()[3].name),
        fq(namespace(), schema()[2].name) != fq(namespace(), schema()[4].name),
        fq(namespace(), schema()[2].name) != fq(namespace(), schema()[5].name),
        fq(namespace(), schema()[2].name) != fq(namespace(), schema()[6].name),
        fq(namespace(), schema()[2].name) != fq(namespace(), schema()[7].name),
        fq(namespace(), schema()[2].name) != fq(namespace(), schema()[8].name),
        fq(namespace(), schema()[2].name) != fq(namespace(), schema()[9].name),
        fq(namespace(), schema()[2].name) != fq(namespace(), schema()[10].name),
        fq(namespace(), schema()[2].name) != fq(namespace(), schema()[11].name),
        fq(namespace(), schema()[2].name) != fq(namespace(), schema()[12].name),
        fq(namespace(), schema()[2].name) != fq(namespace(), schema()[13].name),
        fq(namespace(), schema()[2].name) != fq(namespace(), schema()[14].name),
        fq(namespace(), schema()[2].name) != fq(namespace(), schema()[15].name),
        fq(namespace(), schema()[2].name) != fq(namespace(), schema()[16].name),
        fq(namespace(), schema()[2].name) != fq(namespace(), schema()[17].name),
        fq(namespace(), schema()[3].name) != fq(namespace(), schema()[4].name),
        fq(namespace(), schema()[3].name) != fq(namespace(), schema()[5].name),
        fq(namespace(), schema()[3].name) != fq(namespace(), schema()[6].name),
        fq(namespace(), schema()[3].name) != fq(namespace(), schema()[7].name),
        fq(namespace(), schema()[3].name) != fq(namespace(), schema()[8].name),
        fq(namespace(), schema()[3].name) != fq(namespace(), schema()[9].name),
        fq(namespace(), schema()[3].name) != fq(namespace(), schema()[10].name),
        fq(namespace(), schema()[3].name) != fq(namespace(), schema()[11].name),
        fq(namespace(), schema()[3].name) != fq(namespace(), schema()[12].name),
        fq(namespace(), schema()[3].name) != fq(namespace(), schema()[13].name),
        fq(namespace(), schema()[3].name) != fq(namespace(), schema()[14].name),
        fq(namespace(), schema()[3].name) != fq(namespace(), schema()[15].name),
        fq(namespace(), schema()[3].name) != fq(namespace(), schema()[16].name),
        fq(namespace(), schema()[3].name) != fq(namespace(), schema()[17].name),
        fq(namespace(), schema()[4].name) != fq(namespace(), schema()[5].name),
        fq(namespace(), schema()[4].name) != fq(namespace(), schema()[6].name),
        fq(namespace(), schema()[4].name) != fq(namespace(), schema()[7].name),
        fq(namespace(), schema()[4].name) != fq(namespace(), schema()[8].name),
        fq(namespace(), schema()[4].name) != fq(namespace(), schema()[9].name),
        fq(namespace(), schema()[4].name) != fq(namespace(), schema()[10].name),
        fq(namespace(), schema()[4].name) != fq(namespace(), schema()[11].name),
        fq(namespace(), schema()[4].name) != fq(namespace(), schema()[12].name),
        fq(namespace(), schema()[4].name) != fq(namespace(), schema()[13].name),
        fq(namespace(), schema()[4].name) != fq(namespace(), schema()[14].name),
        fq(namespace(), schema()[4].name) != fq(namespace(), schema()[15].name),
        fq(namespace(), schema()[4].name) != fq(namespace(), schema()[16].name),
        fq(namespace(), schema()[4].name) != fq(namespace(), schema()[17].name),
        fq(namespace(), schema()[5].name) != fq(namespace(), schema()[6].name),
        fq(namespace(), schema()[5].name) != fq(namespace(), schema()[7].name),
        fq(namespace(), schema()[5].name) != fq(namespace(), schema()[8].name),
        fq(namespace(), schema()[5].name) != fq(namespace(), schema()[9].name),
        fq(namespace(), schema()[5].name) != fq(namespace(), schema()[10].name),
        fq(namespace(), schema()[5].name) != fq(namespace(), schema()[11].name),
        fq(namespace(), schema()[5].name) != fq(namespace(), schema()[12].name),
        fq(namespace(), schema()[5].name) != fq(namespace(), schema()[13].name),
        fq(namespace(), schema()[5].name) != fq(namespace(), schema()[14].name),
        fq(namespace(), schema()[5].name) != fq(namespace(), schema()[15].name),
        fq(namespace(), schema()[5].name) != fq(namespace(), schema()[16].name),
        fq(namespace(), schema()[5].name) != fq(namespace(), schema()[17].name),
        fq(namespace(), schema()[6].name) != fq(namespace(), schema()[7].name),
        fq(namespace(), schema()[6].name) != fq(namespace(), schema()[8].name),
        fq(namespace(), schema()[6].name) != fq(namespace(), schema()[9].name),
        fq(namespace(), schema()[6].name) != fq(namespace(), schema()[10].name),
        fq(namespace(), schema()[6].name) != fq(namespace(), schema()[11].name),
        fq(namespace(), schema()[6].name) != fq(namespace(), schema()[12].name),
        fq(namespace(), schema()[6].name) != fq(namespace(), schema()[13].name),
        fq(namespace(), schema()[6].name) != fq(namespace(), schema()[14].name),
        fq(namespace(), schema()[6].name) != fq(namespace(), schema()[15].name),
        fq(namespace(), schema()[6].name) != fq(namespace(), schema()[16].name),
        fq(namespace(), schema()[6].name) != fq(namespace(), schema()[17].name),
        fq(namespace(), schema()[7].name) != fq(namespace(), schema()[8].name),
        fq(namespace(), schema()[7].name) != fq(namespace(), schema()[9].name),
        fq(namespace(), schema()[7].name) != fq(namespace(), schema()[10].name),
        fq(namespace(), schema()[7].name) != fq(namespace(), schema()[11].name),
        fq(namespace(), schema()[7].name) != fq(namespace(), schema()[12].name),
        fq(namespace(), schema()[7].name) != fq(namespace(), schema()[13].name),
        fq(namespace(), schema()[7].name) != fq(namespace(), schema()[14].name),
        fq(namespace(), schema()[7].name) != fq(namespace(), schema()[15].name),
        fq(namespace(), schema()[7].name) != fq(namespace(), schema()[16].name),
        fq(namespace(), schema()[7].name) != fq(namespace(), schema()[17].name),
        fq(namespace(), schema()[8].name) != fq(namespace(), schema()[9].name),
        fq(namespace(), schema()[8].name) != fq(namespace(), schema()[10].name),
        fq(namespace(), schema()[8].name) != fq(namespace(), schema()[11].name),
        fq(namespace(), schema()[8].name) != fq(namespace(), schema()[12].name),
        fq(namespace(), schema()[8].name) != fq(namespace(), schema()[13].name),
        fq(namespace(), schema()[8].name) != fq(namespace(), schema()[14].name),
        fq(namespace(), schema()[8].name) != fq(namespace(), schema()[15].name),
        fq(namespace(), schema()[8].name) != fq(namespace(), schema()[16].name),
        fq(namespace(), schema()[8].name) != fq(namespace(), schema()[17].name),
        fq(namespace(), schema()[9].name) != fq(namespace(), schema()[10].name),
        fq(namespace(), schema()[9].name) != fq(namespace(), schema()[11].name),
        fq(namespace(), schema()[9].name) != fq(namespace(), schema()[12].name),
        fq(namespace(), schema()[9].name) != fq(namespace(), schema()[13].name),
        fq(namespace(), schema()[9].name) != fq(namespace(), schema()[14].name),
        fq(namespace(), schema()[9].name) != fq(namespace(), schema()[15].name),
        fq(namespace(), schema()[9].name) != fq(namespace(), schema()[16].name),
        fq(namespace(), schema()[9].name) != fq(namespace(), schema()[17].name),
        fq(namespace(), schema()[10].name) != fq(namespace(), schema()[11].name),
        fq(namespace(), schema()[10].name) != fq(namespace(), schema()[12].name),
        fq(namespace(), schema()[10].name) != fq(namespace(), schema()[13].name),
        fq(namespace(), schema()[10].name) != fq(namespace(), schema()[14].name),
        fq(namespace(), schema()[10].name) != fq(namespace(), schema()[15].name),
        fq(namespace(), schema()[10].name) != fq(namespace(), schema()[16].name),
        fq(namespace(), schema()[10].name) != fq(namespace(), schema()[17].name),
        fq(namespace(), schema()[11].name) != fq(namespace(), schema()[12].name),
        fq(namespace(), schema()[11].name) != fq(namespace(), schema()[13].name),
        fq(namespace(), schema()[11].name) != fq(namespace(), schema()[14].name),
        fq(namespace(), schema()[11].name) != fq(namespace(), schema()[15].name),
        fq(namespace(), schema()[11].name) != fq(namespace(), schema()[16].name),
        fq(namespace(), schema()[11].name) != fq(namespace(), schema()[17].name),
        fq(namespace(), schema()[12].name) != fq(namespace(), schema()[13].name),
        fq(namespace(), schema()[12].name) != fq(namespace(), schema()[14].name),
        fq(namespace(), schema()[12].name) != fq(namespace(), schema()[15].name),
        fq(namespace(), schema()[12].name) != fq(namespace(), schema()[16].name),
        fq(namespace(), schema()[12].name) != fq(namespace(), schema()[17].name),
        fq(namespace(), schema()[13].name) != fq(namespace(), schema()[14].name),
        fq(namespace(), schema()[13].name) != fq(namespace(), schema()[15].name),
        fq(namespace(), schema()[13].name) != fq(namespace(), schema()[16].name),
        fq(namespace(), schema()[13].name) != fq(namespace(), schema()[17].name),
        fq(namespace(), schema()[14].name) != fq(namespace(), schema()[15].name),
        fq(namespace(), schema()[14].name) != fq(namespace(), schema()[16].name),
        fq(namespace(), schema()[14].name) != fq(namespace(), schema()[17].name),
        fq(namespace(), schema()[15].name) != fq(namespace(), schema()[16].name),
        fq(namespace(), schema()[15].name) != fq(namespace(), schema()[17].name),
        fq(namespace(), schema()[16].name) != fq(namespace(), schema()[17].name),
{
    lemma_fq_injective(namespace());
    reveal_strlit("queued_crates_count");
    reveal_strlit("prioritized_crates_count");
    reveal_strlit("failed_crates_count");
    reveal_strlit("idle_db_connections");
    reveal_strlit("used_db_connections");
    reveal_strlit("max_db_connections");
    reveal_strlit("failed_db_connections");
    reveal_strlit("open_file_descriptors");
    reveal_strlit("running_threads");
    reveal_strlit("routes_visited");
    reveal_strlit("response_time");
    reveal_strlit("rustdoc_rendering_times");
    reveal_strlit("total_builds");
    reveal_strlit("successful_builds");
    reveal_strlit("failed_builds");
    reveal_strlit("non_library_builds");
    reveal_strlit("uploaded_files_total");
    reveal_strlit("html_rewrite_ooms");
    assert("queued_crates_count"@[0] == 'q' && "failed_crates_count"@[0] == 'f');
    assert("queued_crates_count"@[0] == 'q' && "idle_db_connections"@[0] == 'i');
    assert("queued_crates_count"@[0] == 'q' && "used_db_connections"@[0] == 'u');
    assert("failed_crates_count"@[0] == 'f' && "idle_db_connections"@[0] == 'i');
    assert("failed_crates_count"@[0] == 'f' && "used_db_connections"@[0] == 'u');
    assert("idle_db_connections"@[0] == 'i' && "used_db_connections"@[0] == 'u');
    assert("max_db_connections"@[0] == 'm' && "non_library_builds"@[0] == 'n');
    assert("failed_db_connections"@[0] == 'f' && "open_file_descriptors"@[0] == 'o');
    assert("response_time"@[0] == 'r' && "failed_builds"@[0] == 'f');
    assert("successful_builds"@[0] == 's' && "html_rewrite_ooms"@[0] == 'h');
}

} // verus!
