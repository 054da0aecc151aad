
use pg_otel::postgres::{NodeInstrumentation, PlanCosts, PlanInfo, PlanStateNode, QueryDescInfo, QueryInstrumentation};
use pg_otel::queue::{drain_queue, enqueue_span, new_boxed_span_queue, SpanQueue};
use pg_otel::span::{HeaplessSpan, HeaplessSpanAttributes};

fn leaf(tag: &str, starttime: i64, total: i64) -> PlanStateNode {
    PlanStateNode {
        node_tag: tag.to_string(),
        instrument: Some(NodeInstrumentation {
            starttime_ticks: starttime,
            total_ticks: total,
            startup_ticks: 1,
            ntuples: 0,
            ntuples2: 0,
            nloops: 0,
            nfiltered1: 0,
            nfiltered2: 0,
        }),
        plan: Some(PlanInfo {
            node_tag: "T_Result".to_string(),
            costs: PlanCosts {
                startup_cost: 0,
                total_cost: 0,
                plan_rows: 0,
                plan_width: 4,
                parallel_aware: false,
                parallel_safe: true,
                async_capable: false,
            },
        }),
        relation: None,
        lefttree: None,
        righttree: None,
    }
}

fn root() -> HeaplessSpan {
    let query = QueryDescInfo {
        operation: 1,
        query_instr: Some(QueryInstrumentation { starttime_ticks: 0, total_ticks: 1 }),
        source_text: b"SELECT 1".to_vec(),
        planstate: None,
    };
    HeaplessSpan::from_query(Some(&query), 0, None, 1).unwrap()
}

fn span_named(tag: &str, start: i64) -> HeaplessSpan {
    HeaplessSpan::from_plan(Some(&leaf(tag, start, start + 1)), 0, &root(), 2).unwrap()
}

#[test]
fn test() {
    println!("{}", std::mem::size_of::<HeaplessSpan>());
    println!("{}", std::mem::size_of::<heapless::spsc::Queue<HeaplessSpan, 1024>>());
    println!("{}", std::mem::size_of::<SpanQueue>());
}

#[test]
fn queue_drains_in_fifo_order() {
    let mut queue: Box<SpanQueue> = new_boxed_span_queue();
    assert!(enqueue_span(&mut queue, span_named("T_A", 1)));
    assert!(enqueue_span(&mut queue, span_named("T_B", 2)));
    assert!(enqueue_span(&mut queue, span_named("T_C", 3)));
    let spans = drain_queue(&mut queue);
    let names: Vec<&str> = spans.iter().map(|s| s.name.as_str()).collect();
    assert_eq!(names, vec!["postgres.operation.T_A", "postgres.operation.T_B", "postgres.operation.T_C"]);
    assert!(drain_queue(&mut queue).is_empty());
}

#[test]
fn full_queue_drops_spans() {
    let mut queue: Box<SpanQueue> = new_boxed_span_queue();
    for i in 0..1024 {
        assert!(enqueue_span(&mut queue, span_named("T_X", i)));
    }
    assert!(!enqueue_span(&mut queue, span_named("T_Dropped", 5000)));
    let spans = drain_queue(&mut queue);
    assert_eq!(spans.len(), 1024);
    assert_eq!(spans[0].start_time, 0);
    assert_eq!(spans[1023].start_time, 1023);
    assert!(spans.iter().all(|s| s.name.as_str() == "postgres.operation.T_X"));
    match &spans[5].attributes {
        HeaplessSpanAttributes::PlanNode { plan_node_type, .. } => assert_eq!(plan_node_type.as_str(), "T_X"),
        _ => panic!("a plan node span"),
    }
}
