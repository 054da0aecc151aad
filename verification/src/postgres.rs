//! What the executor hooks decide about a query: the instrumentation they
//! request, whether the query is slow enough to be exported, which tables its
//! plan reads, and which spans it yields.
//!
//! The hooks read PostgreSQL's structures into the plain values below
//! (`QueryDescInfo`, `PlanStateNode`, ...) and hand them to these functions.

use vstd::prelude::*;
use vstd::utf8::*;
use vstd::string::StringExecFns;
use crate::text::{pg_str, str_eq};
use crate::bounded::queued_spans;
use crate::queue::{SpanQueue, enqueue_span, offer_all, lemma_offer_all_add};
use crate::span::{AttributesView, HeaplessSpan, SpanView, has_span, law_plan_span_reports_node, plan_span, plan_name_fits, query_span, time_has_room};
use crate::trace::{query_trace, trace_of_query};

verus! {

broadcast use {
    vstd::utf8::encode_utf8_valid_utf8,
    vstd::utf8::encode_utf8_decode_utf8,
    vstd::utf8::decode_utf8_encode_utf8,
};

/// PostgreSQL's `INSTRUMENT_TIMER` option bit.
pub const INSTRUMENT_TIMER: i32 = 1;

/// PostgreSQL's `INSTRUMENT_ROWS` option bit.
pub const INSTRUMENT_ROWS: i32 = 4;

/// The instrumentation options of a query descriptor.
#[derive(Clone, Copy, Debug, PartialEq, Eq, Structural)]
pub struct InstrumentOptions {
    /// `QueryDesc.query_instr_options`: instrumentation of the query as a whole.
    pub query_instr_options: i32,
    /// `QueryDesc.instrument_options`: instrumentation of every plan node.
    pub instrument_options: i32,
}

/// Asks PostgreSQL to time the query and count its rows, for the query and
/// for each plan node, keeping the options that were already requested.
pub fn request_instrumentation(query_desc: &mut InstrumentOptions)
    ensures
        final(query_desc).query_instr_options == old(query_desc).query_instr_options | (INSTRUMENT_ROWS | INSTRUMENT_TIMER),
        final(query_desc).instrument_options == old(query_desc).instrument_options | (INSTRUMENT_ROWS | INSTRUMENT_TIMER),
{
    query_desc.query_instr_options = query_desc.query_instr_options | (INSTRUMENT_ROWS | INSTRUMENT_TIMER);
    query_desc.instrument_options = query_desc.instrument_options | (INSTRUMENT_ROWS | INSTRUMENT_TIMER);
}

/// Whether a query that ran `duration_ns` nanoseconds is exported when the
/// slow query threshold (`log_min_duration_statement`) is `threshold_ms`
/// milliseconds: a negative threshold exports nothing, any other exports the
/// queries that ran at least that long.
pub open spec fn is_slow_query(duration_ns: int, threshold_ms: int) -> bool {
    threshold_ms >= 0 && duration_ns >= threshold_ms * 1_000_000
}

/// Whether a query that ran `duration_ns` nanoseconds is slow enough to be
/// exported under the threshold `threshold_ms` of `log_min_duration_statement`.
pub fn meets_slow_query_threshold(duration_ns: i64, threshold_ms: i32) -> (r: bool)
    ensures
        r == is_slow_query(duration_ns as int, threshold_ms as int),
        r ==> threshold_ms >= 0 && duration_ns as int >= (threshold_ms as int) * 1_000_000,
        threshold_ms >= 0 && duration_ns as int >= (threshold_ms as int) * 1_000_000 ==> r,
{
    threshold_ms >= 0 && duration_ns >= (threshold_ms as i64) * 1_000_000
}

/// Requesting instrumentation twice requests nothing more than once, keeps
/// every option that was already requested, and always leaves timing and row
/// counting requested.
pub proof fn law_request_instrumentation_idempotent(options: i32)
    ensures
        (options | (INSTRUMENT_ROWS | INSTRUMENT_TIMER)) | (INSTRUMENT_ROWS | INSTRUMENT_TIMER)
            == options | (INSTRUMENT_ROWS | INSTRUMENT_TIMER),
        (options | (INSTRUMENT_ROWS | INSTRUMENT_TIMER)) & options == options,
        (options | (INSTRUMENT_ROWS | INSTRUMENT_TIMER)) & (INSTRUMENT_ROWS | INSTRUMENT_TIMER)
            == INSTRUMENT_ROWS | INSTRUMENT_TIMER,
{
    assert((options | (4i32 | 1i32)) | (4i32 | 1i32) == options | (4i32 | 1i32)) by (bit_vector);
    assert((options | (4i32 | 1i32)) & options == options) by (bit_vector);
    assert((options | (4i32 | 1i32)) & (4i32 | 1i32) == 4i32 | 1i32) by (bit_vector);
}

/// The slow query threshold: a negative threshold (such as -1) exports no
/// query, a threshold of 0 exports every query, and a query that is exported
/// stays exported if it ran longer.
pub proof fn law_slow_query_threshold(duration_ns: int, longer_ns: int, threshold_ms: int)
    ensures
        threshold_ms < 0 ==> !is_slow_query(duration_ns, threshold_ms),
        threshold_ms == 0 && duration_ns >= 0 ==> is_slow_query(duration_ns, threshold_ms),
        is_slow_query(duration_ns, threshold_ms) && longer_ns >= duration_ns ==> is_slow_query(longer_ns, threshold_ms),
{
}

/// A non-negative threshold of `threshold_ms` milliseconds is a lower bound
/// of `threshold_ms * 1_000_000` nanoseconds, taken over the integers (so
/// that no threshold wraps around): a query at least that long is exported,
/// a shorter one is not. A negative threshold exports nothing.
pub proof fn law_slow_query_lower_bound(duration_ns: int, threshold_ms: int)
    ensures
        is_slow_query(duration_ns, threshold_ms) ==> threshold_ms >= 0,
        is_slow_query(duration_ns, threshold_ms) ==> duration_ns >= threshold_ms * 1_000_000,
        threshold_ms >= 0 && duration_ns < threshold_ms * 1_000_000 ==> !is_slow_query(duration_ns, threshold_ms),
        threshold_ms >= 0 && duration_ns >= threshold_ms * 1_000_000 ==> is_slow_query(duration_ns, threshold_ms),
{
}

/// The process to signal so that the background worker wakes up: none while
/// the worker has not published its process id (0 until it starts and after
/// it exits).
pub fn wake_target(worker_pid: i32) -> (r: Option<i32>)
    ensures
        r == (if worker_pid == 0 { None } else { Some(worker_pid) }),
{
    if worker_pid == 0 {
        None
    } else {
        Some(worker_pid)
    }
}

/// What the query-level instrumentation measured, in the ticks of
/// PostgreSQL's `instr_time` (nanoseconds).
#[derive(Clone, Copy, Debug, PartialEq, Eq, Structural)]
pub struct QueryInstrumentation {
    /// `starttime`: when the query's instrumentation started.
    pub starttime_ticks: i64,
    /// `total`: how long the query ran.
    pub total_ticks: i64,
}

/// A query descriptor (`QueryDesc`) at the end of its execution.
#[derive(Debug)]
pub struct QueryDescInfo {
    /// `operation`, a `CmdType`.
    pub operation: u32,
    /// `query_instr`, `None` when the pointer is null.
    pub query_instr: Option<QueryInstrumentation>,
    /// The bytes of `sourceText`, without the terminating NUL.
    pub source_text: Vec<u8>,
    /// `planstate`, `None` when the pointer is null.
    pub planstate: Option<Box<PlanStateNode>>,
}

/// The names of a relation read from PostgreSQL's catalogs, as the bytes of
/// the C strings that `get_rel_name` and `get_namespace_name_or_temp` return
/// (`None` for a null pointer).
#[derive(Debug)]
pub struct RelationNames {
    pub rel_name: Option<Vec<u8>>,
    pub namespace_name: Option<Vec<u8>>,
}

/// What a plan node states of itself (`Plan`). The floating-point estimates
/// are held as their IEEE-754 bits (`f64::to_bits`).
#[derive(Clone, Copy, Debug, PartialEq, Eq, Structural)]
pub struct PlanCosts {
    pub startup_cost: u64,
    pub total_cost: u64,
    pub plan_rows: u64,
    pub plan_width: i32,
    pub parallel_aware: bool,
    pub parallel_safe: bool,
    pub async_capable: bool,
}

/// A plan node (`Plan`): its node tag, as PostgreSQL names it (such as
/// `T_SeqScan`), and its estimates.
#[derive(Debug)]
pub struct PlanInfo {
    pub node_tag: String,
    pub costs: PlanCosts,
}

/// What the instrumentation of a plan node measured. Times are in the ticks
/// of PostgreSQL's `instr_time` (nanoseconds); the counters are held as their
/// IEEE-754 bits (`f64::to_bits`).
#[derive(Clone, Copy, Debug, PartialEq, Eq, Structural)]
pub struct NodeInstrumentation {
    /// `instr.starttime`: when the node started, after the query's start.
    pub starttime_ticks: i64,
    /// `instr.total`: the time spent in the node.
    pub total_ticks: i64,
    /// `startup`: the time to the node's first tuple.
    pub startup_ticks: i64,
    pub ntuples: u64,
    pub ntuples2: u64,
    pub nloops: u64,
    pub nfiltered1: u64,
    pub nfiltered2: u64,
}

/// A node of the plan state tree (`PlanState`).
#[derive(Debug)]
pub struct PlanStateNode {
    /// The node tag of the plan state, as PostgreSQL names it (such as `T_SeqScanState`).
    pub node_tag: String,
    /// `instrument`, `None` when the pointer is null.
    pub instrument: Option<NodeInstrumentation>,
    /// `plan`, `None` when the pointer is null.
    pub plan: Option<PlanInfo>,
    /// For a scan (see `is_scan_node`), the names of `ss_currentRelation`;
    /// `None` when that pointer is null, and for every node that is no scan.
    pub relation: Option<RelationNames>,
    pub lefttree: Option<Box<PlanStateNode>>,
    pub righttree: Option<Box<PlanStateNode>>,
}

/// The node tags of the plans that scan a relation.
pub open spec fn scan_node_tags() -> Seq<Seq<char>> {
    seq![
        "T_SeqScan"@, "T_SampleScan"@, "T_IndexScan"@, "T_IndexOnlyScan"@,
        "T_BitmapIndexScan"@, "T_BitmapHeapScan"@, "T_TidScan"@, "T_TidRangeScan"@,
        "T_SubqueryScan"@, "T_FunctionScan"@, "T_ValuesScan"@, "T_TableFuncScan"@,
        "T_CteScan"@, "T_NamedTuplestoreScan"@, "T_WorkTableScan"@, "T_ForeignScan"@,
        "T_CustomScan"@,
    ]
}

/// Whether a plan with this node tag scans a relation, whose state then
/// starts with a `ScanState`.
pub fn is_scan_node(node_tag: &str) -> (r: bool)
    ensures
        r == scan_node_tags().contains(node_tag@),
{
    let tags: [&str; 17] = [
        "T_SeqScan", "T_SampleScan", "T_IndexScan", "T_IndexOnlyScan",
        "T_BitmapIndexScan", "T_BitmapHeapScan", "T_TidScan", "T_TidRangeScan",
        "T_SubqueryScan", "T_FunctionScan", "T_ValuesScan", "T_TableFuncScan",
        "T_CteScan", "T_NamedTuplestoreScan", "T_WorkTableScan", "T_ForeignScan",
        "T_CustomScan",
    ];
    let ghost expected = scan_node_tags();
    assert(tags@.map_values(|t: &str| t@) =~= expected);
    let mut i: usize = 0;
    while i < 17
        invariant
            i <= 17,
            tags@.map_values(|t: &str| t@) == expected,
            expected == scan_node_tags(),
            tags@.len() == 17,
            forall|j: int| 0 <= j < i ==> expected[j] != node_tag@,
        decreases 17 - i,
    {
        assert(tags@.map_values(|t: &str| t@)[i as int] == tags@[i as int]@);
        if str_eq(node_tag, tags[i]) {
            assert(expected[i as int] == node_tag@);
            assert(expected.contains(node_tag@));
            return true;
        }
        i = i + 1;
    }
    proof {
        if expected.contains(node_tag@) {
            let j = choose|j: int| 0 <= j < expected.len() && expected[j] == node_tag@;
            assert(expected[j] != node_tag@);
        }
    }
    false
}

/// Each of PostgreSQL's seventeen scan plans is a scan: sequential, sample,
/// index, index-only, bitmap index and bitmap heap, TID and TID range,
/// subquery, function, values, table function, CTE, named tuplestore, work
/// table, foreign and custom scans.
pub proof fn law_scan_node_tags()
    ensures
        scan_node_tags().contains("T_SeqScan"@),
        scan_node_tags().contains("T_SampleScan"@),
        scan_node_tags().contains("T_IndexScan"@),
        scan_node_tags().contains("T_IndexOnlyScan"@),
        scan_node_tags().contains("T_BitmapIndexScan"@),
        scan_node_tags().contains("T_BitmapHeapScan"@),
        scan_node_tags().contains("T_TidScan"@),
        scan_node_tags().contains("T_TidRangeScan"@),
        scan_node_tags().contains("T_SubqueryScan"@),
        scan_node_tags().contains("T_FunctionScan"@),
        scan_node_tags().contains("T_ValuesScan"@),
        scan_node_tags().contains("T_TableFuncScan"@),
        scan_node_tags().contains("T_CteScan"@),
        scan_node_tags().contains("T_NamedTuplestoreScan"@),
        scan_node_tags().contains("T_WorkTableScan"@),
        scan_node_tags().contains("T_ForeignScan"@),
        scan_node_tags().contains("T_CustomScan"@),
        scan_node_tags().len() == 17,
{
    assert(scan_node_tags()[0] == "T_SeqScan"@);
    assert(scan_node_tags()[1] == "T_SampleScan"@);
    assert(scan_node_tags()[2] == "T_IndexScan"@);
    assert(scan_node_tags()[3] == "T_IndexOnlyScan"@);
    assert(scan_node_tags()[4] == "T_BitmapIndexScan"@);
    assert(scan_node_tags()[5] == "T_BitmapHeapScan"@);
    assert(scan_node_tags()[6] == "T_TidScan"@);
    assert(scan_node_tags()[7] == "T_TidRangeScan"@);
    assert(scan_node_tags()[8] == "T_SubqueryScan"@);
    assert(scan_node_tags()[9] == "T_FunctionScan"@);
    assert(scan_node_tags()[10] == "T_ValuesScan"@);
    assert(scan_node_tags()[11] == "T_TableFuncScan"@);
    assert(scan_node_tags()[12] == "T_CteScan"@);
    assert(scan_node_tags()[13] == "T_NamedTuplestoreScan"@);
    assert(scan_node_tags()[14] == "T_WorkTableScan"@);
    assert(scan_node_tags()[15] == "T_ForeignScan"@);
    assert(scan_node_tags()[16] == "T_CustomScan"@);
}

/// The text of a C string, when it is valid UTF-8.
pub open spec fn c_text(bytes: Option<Vec<u8>>) -> Option<Seq<char>> {
    match bytes {
        Some(b) => if valid_utf8(b@) { Some(decode_utf8(b@)) } else { None },
        None => None,
    }
}

/// The name a relation is reported under: `namespace.relation`, or the bare
/// relation name when the namespace's name cannot be read; none when the
/// relation's own name cannot be read.
pub open spec fn table_identifier(relation: RelationNames) -> Option<Seq<char>> {
    match c_text(relation.rel_name) {
        None => None,
        Some(rel) => match c_text(relation.namespace_name) {
            Some(ns) => Some(ns + seq!['.'] + rel),
            None => Some(rel),
        },
    }
}

/// A relation is reported as its namespace's name, a dot and its own name;
/// as its own name alone when the namespace's name cannot be read; and not at
/// all when its own name cannot be read. Its own name always ends what is
/// reported.
pub proof fn law_table_identifier_format(relation: RelationNames)
    ensures
        c_text(relation.rel_name) is None ==> table_identifier(relation) is None,
        c_text(relation.rel_name) matches Some(rel) ==> (table_identifier(relation) matches Some(id)
            && id.len() >= rel.len() && id.subrange(id.len() - rel.len(), id.len() as int) == rel),
        c_text(relation.rel_name) matches Some(rel) ==> (c_text(relation.namespace_name) matches Some(ns)
            ==> (table_identifier(relation) matches Some(id) && id.len() == ns.len() + 1 + rel.len()
            && id.take(ns.len() as int) == ns && id[ns.len() as int] == '.'
            && id.skip((ns.len() + 1) as int) == rel)),
        c_text(relation.rel_name) matches Some(rel) ==> (c_text(relation.namespace_name) is None
            ==> table_identifier(relation) == Some(rel)),
{
    match c_text(relation.rel_name) {
        Some(rel) => match c_text(relation.namespace_name) {
            Some(ns) => {
                let id = ns + seq!['.'] + rel;
                assert(id.subrange(id.len() - rel.len(), id.len() as int) =~= rel);
                assert(id.take(ns.len() as int) =~= ns);
                assert(id.skip((ns.len() + 1) as int) =~= rel);
            },
            None => {
                assert(rel.subrange(0, rel.len() as int) =~= rel);
            },
        },
        None => {},
    }
}

/// Only a scan node with a plan and a relation reports a table, and it
/// reports that relation's name.
pub proof fn law_plan_table_only_for_scans(node: PlanStateNode)
    ensures
        plan_table_spec(node) is Some ==> node.plan is Some && node.relation is Some
            && scan_node_tags().contains(node.plan->Some_0.node_tag@),
        node.plan matches Some(plan) ==> (scan_node_tags().contains(plan.node_tag@) ==> (node.relation matches Some(r)
            ==> plan_table_spec(node) == table_identifier(r))),
{
}

/// The view of an optional `String`.
pub open spec fn opt_text(s: Option<String>) -> Option<Seq<char>> {
    match s {
        Some(t) => Some(t@),
        None => None,
    }
}

/// Reads the text of an optional C string.
fn read_c_text(bytes: &Option<Vec<u8>>) -> (r: Option<&str>)
    ensures
        match r {
            Some(t) => c_text(*bytes) == Some(t@),
            None => c_text(*bytes) is None,
        },
{
    match bytes {
        Some(b) => pg_str(b.as_slice()),
        None => None,
    }
}

/// The name under which a relation is reported, from its catalog names.
pub fn plan_table_identifier(relation: &RelationNames) -> (r: Option<String>)
    ensures
        opt_text(r) == table_identifier(*relation),
{
    let relation_name = match read_c_text(&relation.rel_name) {
        Some(t) => t,
        None => return None,
    };
    match read_c_text(&relation.namespace_name) {
        Some(namespace_name) => {
            let mut s = String::from_str(namespace_name);
            s.append(".");
            s.append(relation_name);
            proof {
                reveal_strlit(".");
            }
            Some(s)
        },
        None => Some(String::from_str(relation_name)),
    }
}

/// The table a plan state node reads, if it is a scan of a named relation.
pub open spec fn plan_table_spec(node: PlanStateNode) -> Option<Seq<char>> {
    match node.plan {
        None => None,
        Some(plan) => if !scan_node_tags().contains(plan.node_tag@) {
            None
        } else {
            match node.relation {
                None => None,
                Some(relation) => table_identifier(relation),
            }
        },
    }
}

/// The table that a plan state node scans, if any.
pub fn plan_table_name(state: &PlanStateNode) -> (r: Option<String>)
    ensures
        opt_text(r) == plan_table_spec(*state),
{
    let plan = match &state.plan {
        Some(p) => p,
        None => return None,
    };
    if !is_scan_node(plan.node_tag.as_str()) {
        return None;
    }
    match &state.relation {
        Some(relation) => plan_table_identifier(relation),
        None => None,
    }
}


/// The texts of a sequence of `String`s.
pub open spec fn texts(v: Seq<String>) -> Seq<Seq<char>> {
    v.map_values(|s: String| s@)
}

/// `names` with `name` appended, unless `names` holds it already.
pub open spec fn with_unique(names: Seq<Seq<char>>, name: Seq<char>) -> Seq<Seq<char>> {
    if names.contains(name) {
        names
    } else {
        names.push(name)
    }
}

/// `names` with each of `more` appended in turn, unless already held.
pub open spec fn with_all_unique(names: Seq<Seq<char>>, more: Seq<Seq<char>>) -> Seq<Seq<char>>
    decreases more.len(),
{
    if more.len() == 0 {
        names
    } else {
        with_unique(with_all_unique(names, more.drop_last()), more.last())
    }
}

/// The distinct names of `names`, in the order of their first occurrence.
pub open spec fn distinct_in_order(names: Seq<Seq<char>>) -> Seq<Seq<char>> {
    with_all_unique(Seq::empty(), names)
}

/// The tables scanned in a subtree of the plan state tree, in post-order
/// (left subtree, right subtree, node), with repetitions.
pub open spec fn subtree_tables(tree: Option<Box<PlanStateNode>>) -> Seq<Seq<char>>
    decreases tree,
{
    match tree {
        Some(node) => node_tables(*node),
        None => Seq::empty(),
    }
}

/// The tables scanned under and at a plan state node, in post-order.
pub open spec fn node_tables(node: PlanStateNode) -> Seq<Seq<char>>
    decreases node,
{
    subtree_tables(node.lefttree) + subtree_tables(node.righttree) + match plan_table_spec(node) {
        Some(t) => seq![t],
        None => Seq::empty(),
    }
}

/// The tables scanned under and at an optional plan state node.
pub open spec fn state_tables(state: Option<&PlanStateNode>) -> Seq<Seq<char>> {
    match state {
        Some(node) => node_tables(*node),
        None => Seq::empty(),
    }
}

proof fn lemma_with_all_unique_contains(names: Seq<Seq<char>>, more: Seq<Seq<char>>, x: Seq<char>)
    ensures
        with_all_unique(names, more).contains(x) <==> names.contains(x) || more.contains(x),
    decreases more.len(),
{
    if more.len() > 0 {
        let prev = with_all_unique(names, more.drop_last());
        lemma_with_all_unique_contains(names, more.drop_last(), x);
        if more.drop_last().contains(x) {
            let j = choose|j: int| 0 <= j < more.drop_last().len() && more.drop_last()[j] == x;
            assert(more[j] == x);
        }
        if more.contains(x) && !more.drop_last().contains(x) {
            let j = choose|j: int| 0 <= j < more.len() && more[j] == x;
            if j < more.len() - 1 {
                assert(more.drop_last()[j] == x);
            }
            assert(x == more.last());
        }
        if !prev.contains(more.last()) {
            assert(prev.push(more.last())[prev.len() as int] == more.last());
            if prev.contains(x) {
                let j = choose|j: int| 0 <= j < prev.len() && prev[j] == x;
                assert(prev.push(more.last())[j] == x);
            }
            if prev.push(more.last()).contains(x) && x != more.last() {
                let j = choose|j: int| 0 <= j < prev.len() + 1 && prev.push(more.last())[j] == x;
                assert(prev[j] == x);
            }
        }
    }
}

proof fn lemma_with_all_unique_add(names: Seq<Seq<char>>, a: Seq<Seq<char>>, b: Seq<Seq<char>>)
    ensures
        with_all_unique(names, a + b) == with_all_unique(with_all_unique(names, a), b),
    decreases b.len(),
{
    if b.len() == 0 {
        assert(a + b =~= a);
    } else {
        lemma_with_all_unique_add(names, a, b.drop_last());
        assert((a + b).drop_last() =~= a + b.drop_last());
        assert((a + b).last() == b.last());
    }
}

proof fn lemma_with_all_unique_distinct(names: Seq<Seq<char>>, more: Seq<Seq<char>>)
    ensures
        with_all_unique(names, distinct_in_order(more)) == with_all_unique(names, more),
    decreases more.len(),
{
    if more.len() > 0 {
        let rest = more.drop_last();
        let last = more.last();
        let d = distinct_in_order(rest);
        lemma_with_all_unique_distinct(names, rest);
        if d.contains(last) {
            lemma_with_all_unique_contains(Seq::empty(), rest, last);
            lemma_with_all_unique_contains(names, rest, last);
        } else {
            assert(d.push(last).drop_last() =~= d);
            assert(d.push(last).last() == last);
        }
    }
}

proof fn lemma_distinct_in_order_no_duplicates(names: Seq<Seq<char>>, more: Seq<Seq<char>>)
    requires
        names.no_duplicates(),
    ensures
        with_all_unique(names, more).no_duplicates(),
    decreases more.len(),
{
    if more.len() > 0 {
        lemma_distinct_in_order_no_duplicates(names, more.drop_last());
        let prev = with_all_unique(names, more.drop_last());
        if !prev.contains(more.last()) {
            let next = prev.push(more.last());
            assert forall|i: int, j: int| 0 <= i < next.len() && 0 <= j < next.len() && i != j
                implies next[i] != next[j] by {
                if i < prev.len() && j < prev.len() {
                } else if i < prev.len() {
                    assert(next[j] == more.last());
                    assert(prev[i] == next[i]);
                } else if j < prev.len() {
                    assert(next[i] == more.last());
                    assert(prev[j] == next[j]);
                }
            }
        }
    }
}

/// The tables listed for a plan state node are those listed for its left
/// subtree, then those listed for its right subtree, then its own table, each
/// kept once, at its first place.
pub proof fn law_collected_tables_recursive(node: PlanStateNode)
    ensures
        distinct_in_order(node_tables(node)) == distinct_in_order(
            distinct_in_order(subtree_tables(node.lefttree)) + distinct_in_order(subtree_tables(node.righttree))
                + match plan_table_spec(node) {
                Some(t) => seq![t],
                None => Seq::<Seq<char>>::empty(),
            },
        ),
{
    let l = subtree_tables(node.lefttree);
    let r = subtree_tables(node.righttree);
    let own = match plan_table_spec(node) {
        Some(t) => seq![t],
        None => Seq::<Seq<char>>::empty(),
    };
    let e = Seq::<Seq<char>>::empty();
    lemma_with_all_unique_add(e, distinct_in_order(l) + distinct_in_order(r), own);
    lemma_with_all_unique_add(e, distinct_in_order(l), distinct_in_order(r));
    lemma_with_all_unique_distinct(e, l);
    lemma_with_all_unique_distinct(with_all_unique(e, l), r);
    lemma_with_all_unique_add(e, l, r);
    lemma_with_all_unique_add(e, l + r, own);
    assert(node_tables(node) == l + r + own);
}

/// The tables listed for a plan are those that its scans read, each once.
pub proof fn law_collected_tables_distinct_and_complete(node: PlanStateNode)
    ensures
        distinct_in_order(node_tables(node)).no_duplicates(),
        forall|t: Seq<char>| distinct_in_order(node_tables(node)).contains(t)
            <==> node_tables(node).contains(t),
{
    lemma_distinct_in_order_no_duplicates(Seq::empty(), node_tables(node));
    assert forall|t: Seq<char>| distinct_in_order(node_tables(node)).contains(t)
        <==> node_tables(node).contains(t) by {
        lemma_with_all_unique_contains(Seq::empty(), node_tables(node), t);
    }
}

/// Appends `value` to `values` unless an equal string is already there.
pub fn push_unique(values: &mut Vec<String>, value: String)
    ensures
        texts(final(values)@) == with_unique(texts(old(values)@), value@),
{
    let mut i: usize = 0;
    while i < values.len()
        invariant
            values@ == old(values)@,
            i <= values.len(),
            forall|j: int| 0 <= j < i ==> texts(values@)[j] != value@,
        decreases values.len() - i,
    {
        if values[i].eq(&value) {
            proof {
                assert(texts(values@)[i as int] == value@);
            }
            return;
        }
        i = i + 1;
    }
    proof {
        assert(!texts(values@).contains(value@));
    }
    values.push(value);
    proof {
        assert(texts(values@) =~= texts(old(values)@).push(value@));
    }
}

fn push_all_unique(values: &mut Vec<String>, more: &Vec<String>)
    ensures
        texts(final(values)@) == with_all_unique(texts(old(values)@), texts(more@)),
{
    let mut i: usize = 0;
    while i < more.len()
        invariant
            i <= more.len(),
            texts(values@) == with_all_unique(texts(old(values)@), texts(more@).take(i as int)),
        decreases more.len() - i,
    {
        let item = more[i].clone();
        push_unique(values, item);
        proof {
            assert(texts(more@).take(i + 1).drop_last() =~= texts(more@).take(i as int));
        }
        i = i + 1;
    }
    proof {
        assert(texts(more@).take(more.len() as int) =~= texts(more@));
    }
}

fn subtree_table_names(tree: &Option<Box<PlanStateNode>>) -> (r: Vec<String>)
    ensures
        texts(r@) == distinct_in_order(subtree_tables(*tree)),
    decreases tree,
{
    match tree {
        Some(node) => node_table_names(&**node),
        None => {
            let r: Vec<String> = Vec::new();
            proof {
                assert(texts(r@) =~= Seq::<Seq<char>>::empty());
            }
            r
        },
    }
}

fn node_table_names(node: &PlanStateNode) -> (r: Vec<String>)
    ensures
        texts(r@) == distinct_in_order(node_tables(*node)),
    decreases node,
{
    let ghost left_tables = subtree_tables(node.lefttree);
    let ghost right_tables = subtree_tables(node.righttree);
    let mut tables: Vec<String> = Vec::new();
    proof {
        assert(texts(tables@) =~= Seq::<Seq<char>>::empty());
    }
    let left = subtree_table_names(&node.lefttree);
    push_all_unique(&mut tables, &left);
    proof {
        lemma_with_all_unique_distinct(Seq::empty(), left_tables);
    }
    let right = subtree_table_names(&node.righttree);
    push_all_unique(&mut tables, &right);
    proof {
        lemma_with_all_unique_distinct(distinct_in_order(left_tables), right_tables);
        lemma_with_all_unique_add(Seq::empty(), left_tables, right_tables);
    }
    let own = plan_table_name(node);
    match own {
        Some(table) => {
            push_unique(&mut tables, table);
            proof {
                let both = left_tables + right_tables;
                assert(node_tables(*node) =~= both.push(opt_text(own)->Some_0));
                assert(both.push(opt_text(own)->Some_0).drop_last() =~= both);
            }
        },
        None => {
            proof {
                assert(node_tables(*node) =~= left_tables + right_tables);
            }
        },
    }
    tables
}

/// The names of the tables scanned in the plan state tree under `state`
/// (empty for a null node), each once, in the order in which a post-order
/// walk (left subtree, right subtree, node) first meets them.
pub fn collect_table_names(state: Option<&PlanStateNode>) -> (r: Vec<String>)
    ensures
        texts(r@) == distinct_in_order(state_tables(state)),
{
    match state {
        Some(node) => node_table_names(node),
        None => {
            let r: Vec<String> = Vec::new();
            proof {
                assert(texts(r@) =~= Seq::<Seq<char>>::empty());
            }
            r
        },
    }
}


/// The span id that follows `id` (wrapping around).
pub open spec fn next_span_id(id: u64) -> u64 {
    if id == u64::MAX {
        0
    } else {
        (id + 1) as u64
    }
}

fn following_span_id(id: u64) -> (r: u64)
    ensures
        r == next_span_id(id),
{
    if id == u64::MAX {
        0
    } else {
        id + 1
    }
}

/// The spans of a subtree of the plan state tree, in post-order, as children
/// of the span `parent_id` in the trace `trace_id`, with span ids given in
/// pre-order from `next_id` on; and the span id that follows the last one
/// given. A node without a span (no instrumentation or no plan) hides its
/// subtree.
pub open spec fn subtree_spans(
    tree: Option<Box<PlanStateNode>>,
    wall_start: i128,
    trace_id: u128,
    parent_id: u64,
    next_id: u64,
) -> (Seq<SpanView>, u64)
    decreases tree,
{
    match tree {
        Some(node) => node_spans(*node, wall_start, trace_id, parent_id, next_id),
        None => (Seq::empty(), next_id),
    }
}

/// The spans under and at a plan state node, in post-order: the node's span
/// takes the span id `next_id` and is the parent of its children's spans.
pub open spec fn node_spans(
    node: PlanStateNode,
    wall_start: i128,
    trace_id: u128,
    parent_id: u64,
    next_id: u64,
) -> (Seq<SpanView>, u64)
    decreases node,
{
    match plan_span(node, wall_start, trace_id, parent_id, next_id) {
        None => (Seq::empty(), next_id),
        Some(span) => {
            let left = subtree_spans(node.lefttree, wall_start, trace_id, next_id, next_span_id(next_id));
            let right = subtree_spans(node.righttree, wall_start, trace_id, next_id, left.1);
            (left.0 + right.0 + seq![span], right.1)
        },
    }
}

/// Whether every span name built for a subtree fits in a span.
pub open spec fn subtree_names_fit(tree: Option<Box<PlanStateNode>>) -> bool
    decreases tree,
{
    match tree {
        Some(node) => node_names_fit(*node),
        None => true,
    }
}

/// Whether every span name built under and at a plan state node fits in a span.
pub open spec fn node_names_fit(node: PlanStateNode) -> bool
    decreases node,
{
    &&& plan_name_fits(node)
    &&& has_span(node) ==> subtree_names_fit(node.lefttree) && subtree_names_fit(node.righttree)
}

/// The spans of an optional plan state node as children of `parent`, with
/// span ids following `parent`'s.
pub open spec fn state_spans(state: Option<&PlanStateNode>, wall_start: i128, parent: SpanView) -> Seq<SpanView> {
    match state {
        Some(node) => node_spans(*node, wall_start, parent.trace_id, parent.span_id, next_span_id(parent.span_id)).0,
        None => Seq::empty(),
    }
}

fn collect_subtree_spans(
    tree: &Option<Box<PlanStateNode>>,
    wall_start: i128,
    parent: &HeaplessSpan,
    next_id: u64,
    queue: &mut SpanQueue,
) -> (r: u64)
    requires
        time_has_room(wall_start),
        subtree_names_fit(*tree),
    ensures
        queued_spans(*final(queue)) == offer_all(
            queued_spans(*old(queue)),
            subtree_spans(*tree, wall_start, parent.trace_id, parent.span_id, next_id).0,
        ),
        r == subtree_spans(*tree, wall_start, parent.trace_id, parent.span_id, next_id).1,
    decreases tree,
{
    match tree {
        Some(node) => collect_node_spans(&**node, wall_start, parent, next_id, queue),
        None => next_id,
    }
}

fn collect_node_spans(
    node: &PlanStateNode,
    wall_start: i128,
    parent: &HeaplessSpan,
    next_id: u64,
    queue: &mut SpanQueue,
) -> (r: u64)
    requires
        time_has_room(wall_start),
        node_names_fit(*node),
    ensures
        queued_spans(*final(queue)) == offer_all(
            queued_spans(*old(queue)),
            node_spans(*node, wall_start, parent.trace_id, parent.span_id, next_id).0,
        ),
        r == node_spans(*node, wall_start, parent.trace_id, parent.span_id, next_id).1,
    decreases node,
{
    let span = match HeaplessSpan::from_plan(Some(node), wall_start, parent, next_id) {
        Some(s) => s,
        None => return next_id,
    };
    let ghost q0 = queued_spans(*queue);
    let ghost trace_id = parent.trace_id;
    let ghost left = subtree_spans(node.lefttree, wall_start, trace_id, next_id, next_span_id(next_id));
    let ghost right = subtree_spans(node.righttree, wall_start, trace_id, next_id, left.1);
    let after = following_span_id(next_id);
    let after_left = collect_subtree_spans(&node.lefttree, wall_start, &span, after, queue);
    let after_right = collect_subtree_spans(&node.righttree, wall_start, &span, after_left, queue);
    let ghost v = span@;
    let _ = enqueue_span(queue, span);
    proof {
        lemma_offer_all_add(q0, left.0, right.0);
        lemma_offer_all_add(q0, left.0 + right.0, seq![v]);
        let mid = offer_all(q0, left.0 + right.0);
        assert(seq![v].drop_last() =~= Seq::<SpanView>::empty());
        assert(offer_all(mid, seq![v]) == crate::queue::offer(offer_all(mid, Seq::empty()), v));
    }
    after_right
}

/// Offers the spans of the plan state tree under `planstate` to the queue,
/// children before their parent (left subtree, right subtree, node). A node
/// without instrumentation or plan yields no span and hides its subtree.
/// Every span is in `parent`'s trace and is a child of the span of its parent
/// node (of `parent` for `planstate` itself); span ids are given in pre-order,
/// from the one that follows `parent`'s.
pub fn collect_plan_spans(
    planstate: Option<&PlanStateNode>,
    wall_start: i128,
    parent: &HeaplessSpan,
    queue: &mut SpanQueue,
)
    requires
        time_has_room(wall_start),
        planstate matches Some(n) ==> node_names_fit(*n),
    ensures
        queued_spans(*final(queue)) == offer_all(queued_spans(*old(queue)), state_spans(planstate, wall_start, parent@)),
{
    match planstate {
        Some(node) => {
            let first = following_span_id(parent.span_id);
            let _ = collect_node_spans(node, wall_start, parent, first, queue);
        },
        None => {},
    }
}

/// Every span of a plan subtree is in the given trace.
pub proof fn law_plan_spans_share_trace(
    tree: Option<Box<PlanStateNode>>,
    wall_start: i128,
    trace_id: u128,
    parent_id: u64,
    next_id: u64,
)
    ensures
        forall|i: int| 0 <= i < subtree_spans(tree, wall_start, trace_id, parent_id, next_id).0.len()
            ==> #[trigger] subtree_spans(tree, wall_start, trace_id, parent_id, next_id).0[i].trace_id == trace_id,
    decreases tree,
{
    match tree {
        Some(node) => {
            if plan_span(*node, wall_start, trace_id, parent_id, next_id) is Some {
                law_plan_spans_share_trace(node.lefttree, wall_start, trace_id, next_id, next_span_id(next_id));
                let left = subtree_spans(node.lefttree, wall_start, trace_id, next_id, next_span_id(next_id));
                law_plan_spans_share_trace(node.righttree, wall_start, trace_id, next_id, left.1);
                let right = subtree_spans(node.righttree, wall_start, trace_id, next_id, left.1);
                let all = left.0 + right.0 + seq![plan_span(*node, wall_start, trace_id, parent_id, next_id)->Some_0];
                assert forall|i: int| 0 <= i < all.len() implies #[trigger] all[i].trace_id == trace_id by {
                    if i < left.0.len() {
                        assert(all[i] == left.0[i]);
                    } else if i < left.0.len() + right.0.len() {
                        assert(all[i] == right.0[i - left.0.len()]);
                    }
                }
            }
        },
        None => {},
    }
}

/// The span of a plan state node with a span comes after its subtree's spans,
/// takes the span id `next_id`, and is a child of `parent_id`; the spans of
/// its two subtrees are its children.
pub proof fn law_plan_span_links(
    node: PlanStateNode,
    wall_start: i128,
    trace_id: u128,
    parent_id: u64,
    next_id: u64,
)
    requires
        has_span(node),
    ensures
        ({
            let spans = node_spans(node, wall_start, trace_id, parent_id, next_id).0;
            let left = subtree_spans(node.lefttree, wall_start, trace_id, next_id, next_span_id(next_id));
            let right = subtree_spans(node.righttree, wall_start, trace_id, next_id, left.1);
            &&& spans.last().span_id == next_id
            &&& spans.last().parent_id == parent_id
            &&& spans.last().trace_id == trace_id
            &&& spans == left.0 + right.0 + seq![spans.last()]
        }),
{
}

/// Every span of a plan subtree is a plan node span timed from `wall_start`:
/// it starts its node's start time after `wall_start` and ends its node's
/// total time after it.
pub proof fn law_plan_spans_timed(
    tree: Option<Box<PlanStateNode>>,
    wall_start: i128,
    trace_id: u128,
    parent_id: u64,
    next_id: u64,
)
    requires
        time_has_room(wall_start),
    ensures
        forall|i: int| 0 <= i < subtree_spans(tree, wall_start, trace_id, parent_id, next_id).0.len() ==> {
            let s = #[trigger] subtree_spans(tree, wall_start, trace_id, parent_id, next_id).0[i];
            &&& s.attributes matches AttributesView::PlanNode { instrument, .. }
            &&& s.start_time == wall_start + (instrument.starttime_ticks as u64)
            &&& s.end_time == wall_start + (instrument.total_ticks as u64)
        },
    decreases tree,
{
    match tree {
        Some(node) => {
            if plan_span(*node, wall_start, trace_id, parent_id, next_id) is Some {
                law_plan_span_reports_node(*node, wall_start, trace_id, parent_id, next_id);
                law_plan_spans_timed(node.lefttree, wall_start, trace_id, next_id, next_span_id(next_id));
                let left = subtree_spans(node.lefttree, wall_start, trace_id, next_id, next_span_id(next_id));
                law_plan_spans_timed(node.righttree, wall_start, trace_id, next_id, left.1);
                let right = subtree_spans(node.righttree, wall_start, trace_id, next_id, left.1);
                let all = left.0 + right.0 + seq![plan_span(*node, wall_start, trace_id, parent_id, next_id)->Some_0];
                assert forall|i: int| 0 <= i < all.len() implies {
                    let s = #[trigger] all[i];
                    &&& s.attributes matches AttributesView::PlanNode { instrument, .. }
                    &&& s.start_time == wall_start + (instrument.starttime_ticks as u64)
                    &&& s.end_time == wall_start + (instrument.total_ticks as u64)
                } by {
                    if i < left.0.len() {
                        assert(all[i] == left.0[i]);
                    } else if i < left.0.len() + right.0.len() {
                        assert(all[i] == right.0[i - left.0.len()]);
                    }
                }
            }
        },
        None => {},
    }
}

/// What `collect_spans` queues for an exported query that ended at
/// `end_time` after running `total` nanoseconds is timed from the query's
/// start, `end_time - total`: the query span (last) starts its start time
/// after it and lasts its total time, and every plan span before it starts
/// its node's start time after it and ends its node's total time after it.
/// All are in the query span's trace, and the span of the plan's root node
/// (just before the query span) is the query span's child.
pub proof fn law_query_spans_timed_from_query_start(
    query: QueryDescInfo,
    end_time: i128,
    setting: Option<Vec<u8>>,
    span_id: u64,
)
    requires
        query.query_instr is Some,
        end_time - (u64::MAX as int) >= i128::MIN,
        time_has_room(end_time),
    ensures
        ({
            let spans = query_spans(query, end_time, setting, span_id);
            let instr = query.query_instr->Some_0;
            let start = end_time - (instr.total_ticks as u64);
            let own = spans.last();
            &&& spans.len() >= 1
            &&& own.span_id == span_id
            &&& own.start_time == start + (instr.starttime_ticks as u64)
            &&& own.end_time == own.start_time + (instr.total_ticks as u64)
            &&& forall|i: int| 0 <= i < spans.len() - 1 ==> {
                let s = #[trigger] spans[i];
                &&& s.attributes matches AttributesView::PlanNode { instrument, .. }
                &&& s.start_time == start + (instrument.starttime_ticks as u64)
                &&& s.end_time == start + (instrument.total_ticks as u64)
                &&& s.trace_id == own.trace_id
            }
            &&& (query.planstate matches Some(root) ==> (has_span(*root) ==> spans.len() >= 2
                && spans[spans.len() - 2].parent_id == span_id))
        }),
{
    let instr = query.query_instr->Some_0;
    let wall_start = query_wall_start(end_time, instr.total_ticks);
    assert(wall_start == end_time - (instr.total_ticks as u64));
    let own = query_own_span(query, end_time, setting, span_id);
    let plan = subtree_spans(query.planstate, wall_start, own.trace_id, span_id, next_span_id(span_id)).0;
    let spans = query_spans(query, end_time, setting, span_id);
    assert(spans == plan + seq![own]);
    law_plan_spans_timed(query.planstate, wall_start, own.trace_id, span_id, next_span_id(span_id));
    law_plan_spans_share_trace(query.planstate, wall_start, own.trace_id, span_id, next_span_id(span_id));
    assert(spans.last() == own);
    assert forall|i: int| 0 <= i < spans.len() - 1 implies {
        let s = #[trigger] spans[i];
        &&& s.attributes matches AttributesView::PlanNode { instrument, .. }
        &&& s.start_time == (end_time - (instr.total_ticks as u64)) + (instrument.starttime_ticks as u64)
        &&& s.end_time == (end_time - (instr.total_ticks as u64)) + (instrument.total_ticks as u64)
        &&& s.trace_id == own.trace_id
    } by {
        assert(spans[i] == plan[i]);
    }
    match query.planstate {
        Some(root) => {
            if has_span(*root) {
                law_plan_span_links(*root, wall_start, own.trace_id, span_id, next_span_id(span_id));
                assert(spans[spans.len() - 2] == plan.last());
            }
        },
        None => {},
    }
}

/// When the query started: `end_time` less the query's total time, read as
/// an unsigned number of nanoseconds.
pub open spec fn query_wall_start(end_time: i128, total_ticks: i64) -> i128 {
    (end_time - (total_ticks as u64)) as i128
}

/// The span of a query that ended at `end_time`, with span id `span_id`, in
/// the trace that its text or the `pg_otel.traceparent` setting gives.
pub open spec fn query_own_span(query: QueryDescInfo, end_time: i128, setting: Option<Vec<u8>>, span_id: u64) -> SpanView {
    let wall_start = query_wall_start(end_time, query.query_instr->Some_0.total_ticks);
    query_span(query, wall_start, query_trace(query.source_text@, setting), span_id)->Some_0
}

/// What `collect_spans` offers to the queue for a query that ended at
/// `end_time`: the spans of its plan, as children of the query's span, then
/// the query's span.
pub open spec fn query_spans(query: QueryDescInfo, end_time: i128, setting: Option<Vec<u8>>, span_id: u64) -> Seq<SpanView> {
    let wall_start = query_wall_start(end_time, query.query_instr->Some_0.total_ticks);
    let own = query_own_span(query, end_time, setting, span_id);
    subtree_spans(query.planstate, wall_start, own.trace_id, span_id, next_span_id(span_id)).0 + seq![own]
}

/// Whether the query is exported: it has query instrumentation and ran at
/// least as long as the slow query threshold.
pub open spec fn query_is_exported(query: QueryDescInfo, log_min_duration_statement: i32) -> bool {
    match query.query_instr {
        Some(instr) => is_slow_query(instr.total_ticks as int, log_min_duration_statement as int),
        None => false,
    }
}

/// At the end of a query's execution: when the query has instrumentation and
/// ran at least as long as the slow query threshold
/// (`log_min_duration_statement`, in milliseconds; negative turns exporting
/// off), offers the spans of its plan and then its own span to the queue,
/// and returns `true`: the background worker is then to be woken. Otherwise
/// leaves the queue as it is and returns `false`.
///
/// The query's span takes the span id `query_span_id`; it is a child of the
/// caller's span that the query's text (after `pg_otel.traceparent=`) or,
/// failing that, the `pg_otel.traceparent` setting names.
pub fn collect_spans(
    query_desc: Option<&QueryDescInfo>,
    end_time: i128,
    log_min_duration_statement: i32,
    traceparent_setting: &Option<Vec<u8>>,
    query_span_id: u64,
    queue: &mut SpanQueue,
) -> (wake: bool)
    requires
        end_time - (u64::MAX as int) >= i128::MIN,
        time_has_room(end_time),
        query_desc matches Some(q) ==> (query_is_exported(*q, log_min_duration_statement)
            ==> subtree_names_fit(q.planstate)),
    ensures
        match query_desc {
            Some(q) if query_is_exported(*q, log_min_duration_statement) => wake
                && queued_spans(*final(queue)) == offer_all(
                queued_spans(*old(queue)),
                query_spans(*q, end_time, *traceparent_setting, query_span_id),
            ),
            _ => !wake && queued_spans(*final(queue)) == queued_spans(*old(queue)),
        },
{
    let query_desc = match query_desc {
        Some(q) => q,
        None => return false,
    };
    let total = match &query_desc.query_instr {
        Some(i) => i.total_ticks,
        None => return false,
    };
    if !meets_slow_query_threshold(total, log_min_duration_statement) {
        return false;
    }
    let wall_start = end_time - ((total as u64) as i128);
    let trace = trace_of_query(query_desc.source_text.as_slice(), traceparent_setting);
    let span = match HeaplessSpan::from_query(Some(query_desc), wall_start, trace, query_span_id) {
        Some(s) => s,
        None => return false,
    };
    let ghost q0 = queued_spans(*queue);
    let ghost own = span@;
    let ghost plan_spans = subtree_spans(query_desc.planstate, wall_start, own.trace_id, query_span_id, next_span_id(query_span_id)).0;
    let planstate: Option<&PlanStateNode> = match &query_desc.planstate {
        Some(node) => Some(&**node),
        None => None,
    };
    collect_plan_spans(planstate, wall_start, &span, queue);
    let _ = enqueue_span(queue, span);
    proof {
        lemma_offer_all_add(q0, plan_spans, seq![own]);
        let mid = offer_all(q0, plan_spans);
        assert(seq![own].drop_last() =~= Seq::<SpanView>::empty());
        assert(offer_all(mid, seq![own]) == crate::queue::offer(offer_all(mid, Seq::empty()), own));
        assert(wall_start == query_wall_start(end_time, total));
        assert(query_spans(*query_desc, end_time, *traceparent_setting, query_span_id) == plan_spans + seq![own]);
    }
    true
}

} // verus!
