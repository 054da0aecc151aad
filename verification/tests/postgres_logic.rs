
use pg_otel::postgres::{
    collect_plan_spans, collect_spans, collect_table_names, is_scan_node, meets_slow_query_threshold,
    wake_target, plan_table_identifier, plan_table_name, push_unique, request_instrumentation,
    InstrumentOptions, NodeInstrumentation, PlanCosts, PlanInfo, PlanStateNode, QueryDescInfo,
    QueryInstrumentation, RelationNames,
};
use pg_otel::queue::{drain_queue, new_boxed_span_queue, SpanQueue};
use pg_otel::span::{HeaplessSpan, HeaplessSpanAttributes};

fn costs() -> PlanCosts {
    PlanCosts {
        startup_cost: 0,
        total_cost: 10.5f64.to_bits(),
        plan_rows: 3.0f64.to_bits(),
        plan_width: 8,
        parallel_aware: false,
        parallel_safe: true,
        async_capable: false,
    }
}

fn instr(starttime: i64, total: i64) -> NodeInstrumentation {
    NodeInstrumentation {
        starttime_ticks: starttime,
        total_ticks: total,
        startup_ticks: 5,
        ntuples: 1.0f64.to_bits(),
        ntuples2: 0,
        nloops: 1.0f64.to_bits(),
        nfiltered1: 0,
        nfiltered2: 0,
    }
}

fn names(ns: Option<&[u8]>, rel: Option<&[u8]>) -> RelationNames {
    RelationNames { rel_name: rel.map(|r| r.to_vec()), namespace_name: ns.map(|n| n.to_vec()) }
}

fn scan(state_tag: &str, plan_tag: &str, table: &str) -> PlanStateNode {
    PlanStateNode {
        node_tag: state_tag.to_string(),
        instrument: Some(instr(10, 20)),
        plan: Some(PlanInfo { node_tag: plan_tag.to_string(), costs: costs() }),
        relation: Some(names(Some(b"public"), Some(table.as_bytes()))),
        lefttree: None,
        righttree: None,
    }
}

fn join(tag: &str, left: PlanStateNode, right: PlanStateNode) -> PlanStateNode {
    PlanStateNode {
        node_tag: tag.to_string(),
        instrument: Some(instr(1, 100)),
        plan: Some(PlanInfo { node_tag: "T_HashJoin".to_string(), costs: costs() }),
        relation: None,
        lefttree: Some(Box::new(left)),
        righttree: Some(Box::new(right)),
    }
}

#[test]
fn request_instrumentation_sets_rows_and_timer() {
    let mut options = InstrumentOptions { query_instr_options: 0, instrument_options: 2 };
    request_instrumentation(&mut options);
    assert_eq!(options, InstrumentOptions { query_instr_options: 5, instrument_options: 7 });
    request_instrumentation(&mut options);
    assert_eq!(options, InstrumentOptions { query_instr_options: 5, instrument_options: 7 });
}

#[test]
fn slow_query_threshold_follows_log_min_duration_statement() {
    assert!(!meets_slow_query_threshold(1_000_000_000, -1));
    assert!(meets_slow_query_threshold(0, 0));
    assert!(meets_slow_query_threshold(250_000_000, 250));
    assert!(!meets_slow_query_threshold(249_999_999, 250));
    assert!(meets_slow_query_threshold(i64::MAX, i32::MAX));
}

#[test]
fn scan_nodes_are_recognised() {
    assert!(is_scan_node("T_SeqScan"));
    assert!(is_scan_node("T_CustomScan"));
    assert!(is_scan_node("T_IndexOnlyScan"));
    assert!(!is_scan_node("T_HashJoin"));
    assert!(!is_scan_node("T_SeqScanState"));
    assert!(!is_scan_node(""));
}

#[test]
fn table_identifier_joins_namespace_and_relation() {
    assert_eq!(plan_table_identifier(&names(Some(b"public"), Some(b"users"))), Some("public.users".to_string()));
    assert_eq!(plan_table_identifier(&names(None, Some(b"users"))), Some("users".to_string()));
    assert_eq!(plan_table_identifier(&names(Some(b"\xff"), Some(b"users"))), Some("users".to_string()));
    assert_eq!(plan_table_identifier(&names(Some(b"public"), Some(b"\xc3"))), None);
    assert_eq!(plan_table_identifier(&names(Some(b"public"), None)), None);
    assert_eq!(plan_table_identifier(&names(Some("sch\u{e9}ma".as_bytes()), Some(b"t"))), Some("sch\u{e9}ma.t".to_string()));
}

#[test]
fn table_name_only_for_scans_of_relations() {
    let node = scan("T_SeqScanState", "T_SeqScan", "orders");
    assert_eq!(plan_table_name(&node), Some("public.orders".to_string()));
    let mut not_scan = scan("T_ResultState", "T_Result", "orders");
    assert_eq!(plan_table_name(&not_scan), None);
    not_scan.plan = None;
    assert_eq!(plan_table_name(&not_scan), None);
    let mut no_relation = scan("T_SeqScanState", "T_SeqScan", "orders");
    no_relation.relation = None;
    assert_eq!(plan_table_name(&no_relation), None);
}

#[test]
fn push_unique_skips_values_already_held() {
    let mut values = vec!["a".to_string(), "b".to_string()];
    push_unique(&mut values, "b".to_string());
    assert_eq!(values, vec!["a".to_string(), "b".to_string()]);
    push_unique(&mut values, "c".to_string());
    assert_eq!(values, vec!["a".to_string(), "b".to_string(), "c".to_string()]);
}

#[test]
fn table_names_in_first_post_order_occurrence() {
    let tree = join(
        "T_HashJoinState",
        join("T_NestLoopState", scan("T_SeqScanState", "T_SeqScan", "b"), scan("T_IndexScanState", "T_IndexScan", "a")),
        join("T_MergeJoinState", scan("T_SeqScanState", "T_SeqScan", "a"), scan("T_SeqScanState", "T_SeqScan", "c")),
    );
    assert_eq!(
        collect_table_names(Some(&tree)),
        vec!["public.b".to_string(), "public.a".to_string(), "public.c".to_string()]
    );
    assert!(collect_table_names(None).is_empty());
}

#[test]
fn wake_target_needs_a_published_pid() {
    assert_eq!(wake_target(0), None);
    assert_eq!(wake_target(4242), Some(4242));
}

#[test]
fn plan_spans_are_offered_children_first() {
    let mut hidden = scan("T_SeqScanState", "T_SeqScan", "hidden");
    hidden.instrument = None;
    let tree = join(
        "T_HashJoinState",
        scan("T_SeqScanState", "T_SeqScan", "left"),
        join("T_HashState", hidden, scan("T_SeqScanState", "T_SeqScan", "never")),
    );
    let root_query = query(1, None);
    let parent = HeaplessSpan::from_query(Some(&root_query), 0, None, 100).unwrap();
    let mut queue: Box<SpanQueue> = new_boxed_span_queue();
    collect_plan_spans(Some(&tree), 1_000, &parent, &mut queue);
    let spans = drain_queue(&mut queue);
    let names: Vec<&str> = spans.iter().map(|s| s.name.as_str()).collect();
    // The hash node's left child has no instrumentation: it yields no span, and the
    // hash node's right child is visited all the same.
    assert_eq!(
        names,
        vec![
            "postgres.operation.T_SeqScanState",
            "postgres.operation.T_SeqScanState",
            "postgres.operation.T_HashState",
            "postgres.operation.T_HashJoinState",
        ]
    );
    assert_eq!(spans[0].start_time, 1_010);
    assert_eq!(spans[0].end_time, 1_020);
    // Span ids in pre-order from the one after the parent's; each span is a
    // child of its parent node's span.
    let ids: Vec<(u64, u64)> = spans.iter().map(|s| (s.span_id, s.parent_id)).collect();
    assert_eq!(ids, vec![(102, 101), (104, 103), (103, 101), (101, 100)]);
    assert!(spans.iter().all(|s| s.trace_id == parent.trace_id));
}

fn query(total: i64, planstate: Option<PlanStateNode>) -> QueryDescInfo {
    query_text(total, planstate, b"SELECT * FROM orders")
}

fn query_text(total: i64, planstate: Option<PlanStateNode>, text: &[u8]) -> QueryDescInfo {
    QueryDescInfo {
        operation: 1,
        query_instr: Some(QueryInstrumentation { starttime_ticks: 7, total_ticks: total }),
        source_text: text.to_vec(),
        planstate: planstate.map(Box::new),
    }
}

#[test]
fn collect_spans_offers_plan_then_query() {
    let mut queue: Box<SpanQueue> = new_boxed_span_queue();
    let q = query(500_000_000, Some(scan("T_SeqScanState", "T_SeqScan", "orders")));
    assert!(collect_spans(Some(&q), 10_000_000_000, 100, &None, 77, &mut queue));
    let spans = drain_queue(&mut queue);
    assert_eq!(spans.len(), 2);
    assert_eq!(spans[0].name.as_str(), "postgres.operation.T_SeqScanState");
    assert_eq!(spans[1].name.as_str(), "SELECT");
    // The query started its total time before the end time.
    assert_eq!(spans[1].start_time, 9_500_000_000 + 7);
    assert_eq!(spans[1].end_time, 9_500_000_000 + 7 + 500_000_000);
    assert_eq!((spans[1].trace_id, spans[1].span_id, spans[1].parent_id), (0, 77, 0));
    assert_eq!((spans[0].span_id, spans[0].parent_id), (78, 77));
    match &spans[0].attributes {
        HeaplessSpanAttributes::PlanNode { plan_tables, .. } => {
            assert_eq!(plan_tables.len(), 1);
            assert_eq!(plan_tables[0].as_str(), "public.orders");
        }
        _ => panic!("a plan node span"),
    }
    match &spans[1].attributes {
        HeaplessSpanAttributes::Query { query_text, operation, .. } => {
            assert_eq!(query_text.as_str(), "SELECT * FROM orders");
            assert_eq!(*operation, 1);
        }
        _ => panic!("a query span"),
    }
}

#[test]
fn collect_spans_skips_fast_queries_and_disabled_export() {
    let mut queue: Box<SpanQueue> = new_boxed_span_queue();
    let q = query(1_000, None);
    assert!(!collect_spans(Some(&q), 10_000_000_000, 1, &None, 1, &mut queue));
    assert!(!collect_spans(Some(&q), 10_000_000_000, -1, &None, 1, &mut queue));
    assert!(!collect_spans(None, 10_000_000_000, 0, &None, 1, &mut queue));
    let mut uninstrumented = query(1_000, None);
    uninstrumented.query_instr = None;
    assert!(!collect_spans(Some(&uninstrumented), 10_000_000_000, 0, &None, 1, &mut queue));
    assert!(drain_queue(&mut queue).is_empty());
    assert!(collect_spans(Some(&q), 10_000_000_000, 0, &None, 1, &mut queue));
    assert_eq!(drain_queue(&mut queue).len(), 1);
}

const TRACEPARENT: &str = "00-4bf92f3577b34da6a3ce929d0e0e4736-00f067aa0ba902b7-01";
const OTHER_TRACEPARENT: &str = "00-0af7651916cd43dd8448eb211c80319c-b7ad6b7169203331-00";

#[test]
fn spans_join_the_trace_of_the_session_setting() {
    let mut queue: Box<SpanQueue> = new_boxed_span_queue();
    let q = query(500_000_000, Some(scan("T_SeqScanState", "T_SeqScan", "orders")));
    let setting = Some(TRACEPARENT.as_bytes().to_vec());
    assert!(collect_spans(Some(&q), 10_000_000_000, 0, &setting, 9, &mut queue));
    let spans = drain_queue(&mut queue);
    let trace = 0x4bf92f3577b34da6a3ce929d0e0e4736u128;
    assert_eq!((spans[1].trace_id, spans[1].span_id, spans[1].parent_id), (trace, 9, 0x00f067aa0ba902b7));
    assert_eq!((spans[0].trace_id, spans[0].span_id, spans[0].parent_id), (trace, 10, 9));
}

#[test]
fn a_query_comment_names_the_trace() {
    let mut queue: Box<SpanQueue> = new_boxed_span_queue();
    let text = format!("SELECT * /* pg_otel.traceparent={} */ FROM my_table WHERE id = 1", OTHER_TRACEPARENT);
    let q = query_text(500_000_000, None, text.as_bytes());
    let setting = Some(TRACEPARENT.as_bytes().to_vec());
    assert!(collect_spans(Some(&q), 10_000_000_000, 0, &setting, 5, &mut queue));
    let spans = drain_queue(&mut queue);
    assert_eq!(spans[0].trace_id, 0x0af7651916cd43dd8448eb211c80319cu128);
    assert_eq!(spans[0].parent_id, 0xb7ad6b7169203331);
}

#[test]
fn invalid_traceparents_leave_spans_unlinked() {
    let mut queue: Box<SpanQueue> = new_boxed_span_queue();
    let text = "SELECT 1 /* pg_otel.traceparent=00-00000000000000000000000000000000-00f067aa0ba902b7-01 */";
    let q = query_text(500_000_000, None, text.as_bytes());
    let setting = Some(b"not-a-traceparent".to_vec());
    assert!(collect_spans(Some(&q), 10_000_000_000, 0, &setting, 5, &mut queue));
    let spans = drain_queue(&mut queue);
    assert_eq!((spans[0].trace_id, spans[0].parent_id), (0, 0));
}
