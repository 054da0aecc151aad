use pg_otel::postgres::{NodeInstrumentation, PlanCosts, PlanInfo, PlanStateNode, QueryDescInfo, QueryInstrumentation, RelationNames};
use pg_otel::span::{query_name, HeaplessSpan, HeaplessSpanAttributes};
use pg_otel::trace::{parse_traceparent, traceparent_from_query_text, TraceParent};
use pg_otel::text::{pg_str, str_eq, truncate_at_char_boundary};

fn query(operation: u32, text: &[u8]) -> QueryDescInfo {
    QueryDescInfo {
        operation,
        query_instr: Some(QueryInstrumentation { starttime_ticks: 3, total_ticks: 40 }),
        source_text: text.to_vec(),
        planstate: None,
    }
}

fn parent() -> HeaplessSpan {
    HeaplessSpan::from_query(Some(&query(1, b"SELECT 1")), 0, Some(TraceParent { trace_id: 7, parent_id: 8 }), 9).unwrap()
}

fn query_text(span: &HeaplessSpan) -> String {
    match &span.attributes {
        HeaplessSpanAttributes::Query { query_text, .. } => query_text.as_str().to_string(),
        _ => panic!("a query span"),
    }
}

#[test]
fn query_names_follow_cmd_type() {
    assert_eq!(query_name(0), "UNKNOWN");
    assert_eq!(query_name(1), "SELECT");
    assert_eq!(query_name(2), "UPDATE");
    assert_eq!(query_name(3), "INSERT");
    assert_eq!(query_name(4), "DELETE");
    assert_eq!(query_name(5), "MERGE");
    assert_eq!(query_name(6), "UTILITY");
    assert_eq!(query_name(7), "NOTHING");
    assert_eq!(query_name(99), "UNKNOWN");
}

#[test]
fn query_span_times_and_fields() {
    let span = HeaplessSpan::from_query(Some(&query(3, b"INSERT INTO t VALUES (1)")), 1_000, Some(TraceParent { trace_id: 7, parent_id: 8 }), 9).unwrap();
    assert_eq!(span.name.as_str(), "INSERT");
    assert_eq!(span.start_time, 1_003);
    assert_eq!(span.end_time, 1_043);
    assert_eq!((span.trace_id, span.span_id, span.parent_id), (7, 9, 8));
    assert_eq!(query_text(&span), "INSERT INTO t VALUES (1)");
    match &span.attributes {
        HeaplessSpanAttributes::Query { exec_startup_time_ticks, exec_total_time_ticks, .. } => {
            assert_eq!((*exec_startup_time_ticks, *exec_total_time_ticks), (3, 40));
        }
        _ => panic!("a query span"),
    }
}

#[test]
fn query_span_needs_descriptor_and_instrumentation() {
    assert!(HeaplessSpan::from_query(None, 0, None, 1).is_none());
    let mut q = query(1, b"SELECT 1");
    q.query_instr = None;
    assert!(HeaplessSpan::from_query(Some(&q), 0, None, 1).is_none());
}

#[test]
fn query_text_is_cut_at_a_char_boundary() {
    // 1023 ASCII bytes, then a two-byte character that crosses the 1024 byte limit.
    let mut text = "a".repeat(1023);
    text.push('\u{e9}');
    text.push_str("tail");
    let span = HeaplessSpan::from_query(Some(&query(1, text.as_bytes())), 0, None, 1).unwrap();
    assert_eq!(query_text(&span), "a".repeat(1023));
    let exact = "b".repeat(1024);
    let span = HeaplessSpan::from_query(Some(&query(1, exact.as_bytes())), 0, None, 1).unwrap();
    assert_eq!(query_text(&span), exact);
}

#[test]
fn invalid_utf8_query_text_is_empty() {
    let span = HeaplessSpan::from_query(Some(&query(1, b"SELECT \xff")), 0, None, 1).unwrap();
    assert_eq!(query_text(&span), "");
}

#[test]
fn text_helpers() {
    assert_eq!(pg_str(b"abc"), Some("abc"));
    assert_eq!(pg_str(b"\xe2\x82"), None);
    assert!(str_eq("abc", "abc"));
    assert!(!str_eq("abc", "abd"));
    assert!(!str_eq("abc", "ab"));
    assert_eq!(truncate_at_char_boundary("h\u{e9}llo", 2), "h");
    assert_eq!(truncate_at_char_boundary("h\u{e9}llo", 3), "h\u{e9}");
    assert_eq!(truncate_at_char_boundary("short", 100), "short");
    assert_eq!(truncate_at_char_boundary("\u{1f600}", 3), "");
}

fn plan_node(tables: usize) -> PlanStateNode {
    let mut node = PlanStateNode {
        node_tag: "T_AppendState".to_string(),
        instrument: Some(NodeInstrumentation {
            starttime_ticks: 2,
            total_ticks: 9,
            startup_ticks: 4,
            ntuples: 10.0f64.to_bits(),
            ntuples2: 0,
            nloops: 1.0f64.to_bits(),
            nfiltered1: 2.0f64.to_bits(),
            nfiltered2: 0,
        }),
        plan: Some(PlanInfo {
            node_tag: "T_Append".to_string(),
            costs: PlanCosts {
                startup_cost: 0,
                total_cost: 1.5f64.to_bits(),
                plan_rows: 10.0f64.to_bits(),
                plan_width: 16,
                parallel_aware: true,
                parallel_safe: true,
                async_capable: false,
            },
        }),
        relation: None,
        lefttree: None,
        righttree: None,
    };
    // A left-deep chain of scans of distinct tables under the append node.
    let mut chain: Option<Box<PlanStateNode>> = None;
    for i in 0..tables {
        chain = Some(Box::new(PlanStateNode {
            node_tag: "T_SeqScanState".to_string(),
            instrument: None,
            plan: Some(PlanInfo {
                node_tag: "T_SeqScan".to_string(),
                costs: node.plan.as_ref().unwrap().costs,
            }),
            relation: Some(RelationNames { rel_name: Some(format!("t{}", i).into_bytes()), namespace_name: None }),
            lefttree: chain,
            righttree: None,
        }));
    }
    node.lefttree = chain;
    node
}

#[test]
fn plan_span_fields() {
    let node = plan_node(2);
    let span = HeaplessSpan::from_plan(Some(&node), 100, &parent(), 31).unwrap();
    assert_eq!(span.name.as_str(), "postgres.operation.T_AppendState");
    assert_eq!(span.start_time, 102);
    assert_eq!(span.end_time, 109);
    match &span.attributes {
        HeaplessSpanAttributes::PlanNode { plan_node_type, plan_tables, plan, instrument } => {
            assert_eq!(plan_node_type.as_str(), "T_AppendState");
            assert_eq!((span.trace_id, span.span_id, span.parent_id), (7, 31, 9));
            let tables: Vec<&str> = plan_tables.iter().map(|t| t.as_str()).collect();
            assert_eq!(tables, vec!["t0", "t1"]);
            assert_eq!(plan.plan_width, 16);
            assert!(plan.parallel_aware);
            assert_eq!(f64::from_bits(plan.total_cost), 1.5);
            assert_eq!(instrument.startup_ticks, 4);
            assert_eq!(f64::from_bits(instrument.nfiltered1), 2.0);
        }
        _ => panic!("a plan node span"),
    }
}

#[test]
fn plan_span_lists_at_most_64_tables() {
    let node = plan_node(70);
    let span = HeaplessSpan::from_plan(Some(&node), 0, &parent(), 31).unwrap();
    match &span.attributes {
        HeaplessSpanAttributes::PlanNode { plan_tables, .. } => {
            assert_eq!(plan_tables.len(), 64);
            assert_eq!(plan_tables[0].as_str(), "t0");
            assert_eq!(plan_tables[63].as_str(), "t63");
        }
        _ => panic!("a plan node span"),
    }
}

#[test]
fn plan_span_needs_instrumentation_and_plan() {
    assert!(HeaplessSpan::from_plan(None, 0, &parent(), 31).is_none());
    let mut node = plan_node(0);
    node.plan = None;
    assert!(HeaplessSpan::from_plan(Some(&node), 0, &parent(), 31).is_none());
    let mut node = plan_node(0);
    node.instrument = None;
    assert!(HeaplessSpan::from_plan(Some(&node), 0, &parent(), 31).is_none());
}

#[test]
fn long_table_names_are_cut_to_128_bytes() {
    let mut node = plan_node(1);
    let long = "x".repeat(200);
    node.lefttree.as_mut().unwrap().relation = Some(RelationNames {
        rel_name: Some(long.clone().into_bytes()),
        namespace_name: None,
    });
    let span = HeaplessSpan::from_plan(Some(&node), 0, &parent(), 31).unwrap();
    match &span.attributes {
        HeaplessSpanAttributes::PlanNode { plan_tables, .. } => assert_eq!(plan_tables[0].as_str(), &long[..128]),
        _ => panic!("a plan node span"),
    }
}

#[test]
fn traceparent_parsing() {
    let tp = parse_traceparent(b"00-4bf92f3577b34da6a3ce929d0e0e4736-00f067aa0ba902b7-01").unwrap();
    assert_eq!(tp, TraceParent { trace_id: 0x4bf92f3577b34da6a3ce929d0e0e4736, parent_id: 0x00f067aa0ba902b7 });
    let max = parse_traceparent(b"00-ffffffffffffffffffffffffffffffff-ffffffffffffffff-00").unwrap();
    assert_eq!(max, TraceParent { trace_id: u128::MAX, parent_id: u64::MAX });
    // Upper case, a wrong version, zero ids, a wrong length or a missing dash are refused.
    assert_eq!(parse_traceparent(b"00-4BF92F3577B34DA6A3CE929D0E0E4736-00f067aa0ba902b7-01"), None);
    assert_eq!(parse_traceparent(b"01-4bf92f3577b34da6a3ce929d0e0e4736-00f067aa0ba902b7-01"), None);
    assert_eq!(parse_traceparent(b"00-00000000000000000000000000000000-00f067aa0ba902b7-01"), None);
    assert_eq!(parse_traceparent(b"00-4bf92f3577b34da6a3ce929d0e0e4736-0000000000000000-01"), None);
    assert_eq!(parse_traceparent(b"00-4bf92f3577b34da6a3ce929d0e0e4736-00f067aa0ba902b7-0"), None);
    assert_eq!(parse_traceparent(b"00-4bf92f3577b34da6a3ce929d0e0e4736_00f067aa0ba902b7-01"), None);
}

#[test]
fn traceparent_in_query_text() {
    let text = b"SELECT * /* pg_otel.traceparent=00-4bf92f3577b34da6a3ce929d0e0e4736-00f067aa0ba902b7-01 */ FROM t";
    assert_eq!(traceparent_from_query_text(text).map(|t| t.parent_id), Some(0x00f067aa0ba902b7));
    assert_eq!(traceparent_from_query_text(b"SELECT 1"), None);
    assert_eq!(traceparent_from_query_text(b"/* pg_otel.traceparent=00-4bf9 */"), None);
}
