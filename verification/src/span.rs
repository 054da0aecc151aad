//! Spans as they wait in the queue for the background worker.

use vstd::prelude::*;
use vstd::utf8::*;
use vstd::string::{StringExecFns, StringSliceAdditionalSpecFns};
use crate::bounded::{
    long_string_from, short_string_from, short_text, table_list, table_list_new, table_list_push,
    table_name_from,
};
use crate::trace::TraceParent;
use crate::postgres::{
    NodeInstrumentation, PlanCosts, PlanStateNode, QueryDescInfo, collect_table_names,
    distinct_in_order, node_tables, texts,
};
use crate::text::{
    floor_char_boundary, lemma_floor_char_boundary, lemma_encode_utf8_add, lemma_encode_utf8_len_bound, pg_str,
    truncate_at_char_boundary, truncate_chars,
};

verus! {

/// The longest query text a span holds, in bytes.
pub const QUERY_TEXT_MAX_LEN: usize = 1024;

/// The longest span name, in bytes.
pub const PLAN_NODE_NAME_MAX_LEN: usize = 64;

/// The most tables a plan node span lists.
pub const PLAN_TABLES_MAX_LEN: usize = 64;

/// The longest table name a plan node span holds, in bytes: room for a
/// namespace and a relation name of at most 63 bytes each (PostgreSQL's
/// `NAMEDATALEN` less one) and the dot between them.
pub const TABLE_NAME_MAX_LEN: usize = 128;

/// A span whose text is stored inline, so that it can wait in shared memory.
/// Times are nanoseconds since the UNIX epoch. An id of 0 is the invalid id:
/// a query without a trace context has trace id 0 and parent id 0.
pub struct HeaplessSpan {
    pub trace_id: u128,
    pub span_id: u64,
    pub parent_id: u64,
    pub name: heapless::String<PLAN_NODE_NAME_MAX_LEN>,
    pub start_time: i128,
    pub end_time: i128,
    pub attributes: HeaplessSpanAttributes,
}

/// What a span reports of the query or of the plan node it stands for.
pub enum HeaplessSpanAttributes {
    Query {
        /// `CmdType` of the query.
        operation: u32,
        query_text: heapless::String<QUERY_TEXT_MAX_LEN>,
        exec_startup_time_ticks: i64,
        exec_total_time_ticks: i64,
    },
    PlanNode {
        /// The node tag of the plan state.
        plan_node_type: heapless::String<PLAN_NODE_NAME_MAX_LEN>,
        /// The names of the tables scanned under the node.
        plan_tables: heapless::Vec<heapless::String<TABLE_NAME_MAX_LEN>, PLAN_TABLES_MAX_LEN>,
        plan: PlanCosts,
        instrument: NodeInstrumentation,
    },
}

/// The abstract content of a span's attributes.
pub enum AttributesView {
    Query {
        operation: u32,
        query_text: Seq<char>,
        exec_startup_time_ticks: i64,
        exec_total_time_ticks: i64,
    },
    PlanNode {
        plan_node_type: Seq<char>,
        plan_tables: Seq<Seq<char>>,
        plan: PlanCosts,
        instrument: NodeInstrumentation,
    },
}

/// The abstract content of a span.
pub struct SpanView {
    pub trace_id: u128,
    pub span_id: u64,
    pub parent_id: u64,
    pub name: Seq<char>,
    pub start_time: i128,
    pub end_time: i128,
    pub attributes: AttributesView,
}

impl View for HeaplessSpanAttributes {
    type V = AttributesView;

    open spec fn view(&self) -> AttributesView {
        match self {
            HeaplessSpanAttributes::Query {
                operation,
                query_text,
                exec_startup_time_ticks,
                exec_total_time_ticks,
            } => AttributesView::Query {
                operation: *operation,
                query_text: crate::bounded::long_text(*query_text),
                exec_startup_time_ticks: *exec_startup_time_ticks,
                exec_total_time_ticks: *exec_total_time_ticks,
            },
            HeaplessSpanAttributes::PlanNode { plan_node_type, plan_tables, plan, instrument } =>
                AttributesView::PlanNode {
                plan_node_type: crate::bounded::short_text(*plan_node_type),
                plan_tables: crate::bounded::table_list(*plan_tables),
                plan: *plan,
                instrument: *instrument,
            },
        }
    }
}

impl View for HeaplessSpan {
    type V = SpanView;

    open spec fn view(&self) -> SpanView {
        SpanView {
            trace_id: self.trace_id,
            span_id: self.span_id,
            parent_id: self.parent_id,
            name: crate::bounded::short_text(self.name),
            start_time: self.start_time,
            end_time: self.end_time,
            attributes: self.attributes@,
        }
    }
}


/// The view of an optional span.
pub open spec fn opt_span_view(span: Option<HeaplessSpan>) -> Option<SpanView> {
    match span {
        Some(s) => Some(s@),
        None => None,
    }
}

/// Whether a time in nanoseconds, plus two offsets of at most `u64::MAX`
/// nanoseconds, stays within the range of `i128`.
pub open spec fn time_has_room(wall_start: i128) -> bool {
    wall_start + 2 * (u64::MAX as int) <= i128::MAX
}

/// PostgreSQL's `CmdType` of a `SELECT`.
pub const CMD_SELECT: u32 = 1;
/// PostgreSQL's `CmdType` of an `UPDATE`.
pub const CMD_UPDATE: u32 = 2;
/// PostgreSQL's `CmdType` of an `INSERT`.
pub const CMD_INSERT: u32 = 3;
/// PostgreSQL's `CmdType` of a `DELETE`.
pub const CMD_DELETE: u32 = 4;
/// PostgreSQL's `CmdType` of a `MERGE`.
pub const CMD_MERGE: u32 = 5;
/// PostgreSQL's `CmdType` of a utility command.
pub const CMD_UTILITY: u32 = 6;
/// PostgreSQL's `CmdType` of a command that does nothing.
pub const CMD_NOTHING: u32 = 7;

/// The name of a query span: the command of the query.
pub open spec fn query_name_text(command: u32) -> Seq<char> {
    if command == CMD_SELECT {
        "SELECT"@
    } else if command == CMD_UPDATE {
        "UPDATE"@
    } else if command == CMD_INSERT {
        "INSERT"@
    } else if command == CMD_DELETE {
        "DELETE"@
    } else if command == CMD_MERGE {
        "MERGE"@
    } else if command == CMD_UTILITY {
        "UTILITY"@
    } else if command == CMD_NOTHING {
        "NOTHING"@
    } else {
        "UNKNOWN"@
    }
}

/// A query span is named after PostgreSQL's command type (`CmdType`, where
/// 1 is `SELECT` up to 7 for a command that does nothing); 0
/// (`CMD_UNKNOWN`) and any value past 7 name it `UNKNOWN`.
pub proof fn law_query_names(command: u32)
    ensures
        command == 1 ==> query_name_text(command) == "SELECT"@,
        command == 2 ==> query_name_text(command) == "UPDATE"@,
        command == 3 ==> query_name_text(command) == "INSERT"@,
        command == 4 ==> query_name_text(command) == "DELETE"@,
        command == 5 ==> query_name_text(command) == "MERGE"@,
        command == 6 ==> query_name_text(command) == "UTILITY"@,
        command == 7 ==> query_name_text(command) == "NOTHING"@,
        command == 0 || command > 7 ==> query_name_text(command) == "UNKNOWN"@,
{
}

/// The name of PostgreSQL's command type `command`; `UNKNOWN` for any value
/// that is none of `CMD_SELECT` to `CMD_NOTHING`.
pub fn query_name(command: u32) -> (r: &'static str)
    ensures
        r@ == query_name_text(command),
        r.spec_bytes().len() <= 28,
{
    let r = if command == CMD_SELECT {
        "SELECT"
    } else if command == CMD_UPDATE {
        "UPDATE"
    } else if command == CMD_INSERT {
        "INSERT"
    } else if command == CMD_DELETE {
        "DELETE"
    } else if command == CMD_MERGE {
        "MERGE"
    } else if command == CMD_UTILITY {
        "UTILITY"
    } else if command == CMD_NOTHING {
        "NOTHING"
    } else {
        "UNKNOWN"
    };
    proof {
        reveal_strlit("SELECT");
        reveal_strlit("UPDATE");
        reveal_strlit("INSERT");
        reveal_strlit("DELETE");
        reveal_strlit("MERGE");
        reveal_strlit("UTILITY");
        reveal_strlit("NOTHING");
        reveal_strlit("UNKNOWN");
        lemma_encode_utf8_len_bound(r@);
    }
    r
}

/// The query text a span reports: the source text cut to 1024 bytes at a
/// character boundary, or nothing when the source text is not valid UTF-8.
pub open spec fn query_text_spec(source: Seq<u8>) -> Seq<char> {
    if valid_utf8(source) {
        truncate_chars(decode_utf8(source), QUERY_TEXT_MAX_LEN as int)
    } else {
        Seq::empty()
    }
}

/// The query text of a span is a prefix of the query's source text that
/// takes at most 1024 bytes, and is the whole source text when that fits.
pub proof fn law_query_text_bounded_prefix(source: Seq<u8>)
    requires
        valid_utf8(source),
    ensures
        decode_utf8(source).take(query_text_spec(source).len() as int) == query_text_spec(source),
        encode_utf8(query_text_spec(source)).len() <= QUERY_TEXT_MAX_LEN,
        source.len() <= QUERY_TEXT_MAX_LEN ==> query_text_spec(source) == decode_utf8(source),
{
    let chars = decode_utf8(source);
    vstd::utf8::decode_utf8_encode_utf8(source);
    let k = floor_char_boundary(source, QUERY_TEXT_MAX_LEN as int);
    lemma_floor_char_boundary(source, QUERY_TEXT_MAX_LEN as int);
    let head = source.subrange(0, k);
    vstd::utf8::decode_utf8_split(source, k);
    vstd::utf8::valid_utf8_split(source, k);
    vstd::utf8::decode_utf8_encode_utf8(head);
    assert(query_text_spec(source) == decode_utf8(head));
    let rest = decode_utf8(source.subrange(k, source.len() as int));
    assert(chars == decode_utf8(head) + rest);
    assert(chars.take(decode_utf8(head).len() as int) =~= decode_utf8(head));
    if source.len() <= QUERY_TEXT_MAX_LEN {
        assert(head =~= source);
    }
}

/// The span of a query whose execution started at `wall_start`, with span id
/// `span_id`, in the trace of `trace` (trace id and parent id 0 without one).
pub open spec fn query_span(
    query: QueryDescInfo,
    wall_start: i128,
    trace: Option<TraceParent>,
    span_id: u64,
) -> Option<SpanView> {
    match query.query_instr {
        None => None,
        Some(instr) => {
            let start = wall_start + (instr.starttime_ticks as u64);
            Some(SpanView {
                trace_id: match trace {
                    Some(t) => t.trace_id,
                    None => 0,
                },
                span_id,
                parent_id: match trace {
                    Some(t) => t.parent_id,
                    None => 0,
                },
                name: query_name_text(query.operation),
                start_time: start as i128,
                end_time: (start + (instr.total_ticks as u64)) as i128,
                attributes: AttributesView::Query {
                    operation: query.operation,
                    query_text: query_text_spec(query.source_text@),
                    exec_startup_time_ticks: instr.starttime_ticks,
                    exec_total_time_ticks: instr.total_ticks,
                },
            })
        },
    }
}

/// The name of the span of a plan node whose plan state has this node tag.
pub open spec fn plan_span_name(node_tag: Seq<char>) -> Seq<char> {
    "postgres.operation."@ + node_tag
}

/// The first `PLAN_TABLES_MAX_LEN` of `names`.
pub open spec fn first_tables(names: Seq<Seq<char>>) -> Seq<Seq<char>> {
    if names.len() <= PLAN_TABLES_MAX_LEN {
        names
    } else {
        names.take(PLAN_TABLES_MAX_LEN as int)
    }
}

/// A table name as a span holds it: cut to `TABLE_NAME_MAX_LEN` bytes at a
/// character boundary (which never cuts a name that PostgreSQL gives).
pub open spec fn held_table_name(name: Seq<char>) -> Seq<char> {
    truncate_chars(name, TABLE_NAME_MAX_LEN as int)
}

/// The table names that the span of a plan node lists.
pub open spec fn span_tables(node: PlanStateNode) -> Seq<Seq<char>> {
    first_tables(distinct_in_order(node_tables(node))).map_values(|t: Seq<char>| held_table_name(t))
}

/// Whether a plan state node yields a span: it has both instrumentation and a plan.
pub open spec fn has_span(node: PlanStateNode) -> bool {
    node.instrument is Some && node.plan is Some
}

/// The span of a plan node, with span id `span_id`, as a child of the span
/// `parent_id` in the trace `trace_id`: none unless the node has both
/// instrumentation and a plan.
pub open spec fn plan_span(
    node: PlanStateNode,
    wall_start: i128,
    trace_id: u128,
    parent_id: u64,
    span_id: u64,
) -> Option<SpanView> {
    match node.instrument {
        None => None,
        Some(instr) => match node.plan {
            None => None,
            Some(plan) => Some(SpanView {
                trace_id,
                span_id,
                parent_id,
                name: plan_span_name(node.node_tag@),
                start_time: (wall_start + (instr.starttime_ticks as u64)) as i128,
                end_time: (wall_start + (instr.total_ticks as u64)) as i128,
                attributes: AttributesView::PlanNode {
                    plan_node_type: node.node_tag@,
                    plan_tables: span_tables(node),
                    plan: plan.costs,
                    instrument: instr,
                },
            }),
        },
    }
}

/// The span of a plan node reports the node as it is: a node has a span
/// exactly when it has both instrumentation and a plan; the span carries the
/// node's instrumentation and plan estimates unchanged (every counter in its
/// own place), the node's tag as its type and in its name, and it is timed
/// from the query's start by the node's start and total times. It takes the
/// given span id, trace and parent.
pub proof fn law_plan_span_reports_node(
    node: PlanStateNode,
    wall_start: i128,
    trace_id: u128,
    parent_id: u64,
    span_id: u64,
)
    requires
        time_has_room(wall_start),
    ensures
        plan_span(node, wall_start, trace_id, parent_id, span_id) is Some <==> (node.instrument is Some
            && node.plan is Some),
        plan_span(node, wall_start, trace_id, parent_id, span_id) matches Some(s) ==> {
            &&& s.span_id == span_id
            &&& s.trace_id == trace_id
            &&& s.parent_id == parent_id
            &&& s.name == "postgres.operation."@ + node.node_tag@
            &&& s.start_time == wall_start + (node.instrument->Some_0.starttime_ticks as u64)
            &&& s.end_time == wall_start + (node.instrument->Some_0.total_ticks as u64)
            &&& s.attributes matches AttributesView::PlanNode { plan_node_type, plan, instrument, .. }
            &&& plan_node_type == node.node_tag@
            &&& plan == node.plan->Some_0.costs
            &&& instrument == node.instrument->Some_0
            &&& instrument.ntuples == node.instrument->Some_0.ntuples
            &&& instrument.nloops == node.instrument->Some_0.nloops
        },
{
}

/// Whether the span name of a plan node fits in a span: PostgreSQL's node
/// tags are short enough for it.
pub open spec fn plan_name_fits(node: PlanStateNode) -> bool {
    has_span(node) ==> encode_utf8(plan_span_name(node.node_tag@)).len()
        <= PLAN_NODE_NAME_MAX_LEN
}

impl HeaplessSpan {
    /// The span of a query whose execution started at `wall_start`, with span
    /// id `span_id`, as a child of the caller's span that `trace` names;
    /// none for a null query descriptor or one without query instrumentation.
    pub fn from_query(
        query_desc: Option<&QueryDescInfo>,
        wall_start: i128,
        trace: Option<TraceParent>,
        span_id: u64,
    ) -> (r: Option<Self>)
        requires
            time_has_room(wall_start),
        ensures
            opt_span_view(r) == match query_desc {
                Some(q) => query_span(*q, wall_start, trace, span_id),
                None => None,
            },
            r is Some <==> (query_desc matches Some(q) && q.query_instr is Some),
            r matches Some(s) ==> {
                &&& s.span_id == span_id
                &&& s.trace_id == (match trace { Some(t) => t.trace_id, None => 0 })
                &&& s.parent_id == (match trace { Some(t) => t.parent_id, None => 0 })
                &&& s.start_time == wall_start + (query_desc->Some_0.query_instr->Some_0.starttime_ticks as u64)
                &&& s.end_time == s.start_time + (query_desc->Some_0.query_instr->Some_0.total_ticks as u64)
            },
            r matches Some(s) ==> (s.attributes matches HeaplessSpanAttributes::Query {
                operation: op,
                exec_startup_time_ticks: startup,
                exec_total_time_ticks: total,
                ..
            } && op == query_desc->Some_0.operation
                && startup == query_desc->Some_0.query_instr->Some_0.starttime_ticks
                && total == query_desc->Some_0.query_instr->Some_0.total_ticks),
    {
        let query_desc = match query_desc {
            Some(q) => q,
            None => return None,
        };
        let operation = query_desc.operation;
        let command = query_name(operation);
        let name = short_string_from(command).unwrap();
        let instrument = match &query_desc.query_instr {
            Some(i) => i,
            None => return None,
        };
        let start_time = wall_start + ((instrument.starttime_ticks as u64) as i128);
        let end_time = start_time + ((instrument.total_ticks as u64) as i128);
        let source = match pg_str(query_desc.source_text.as_slice()) {
            Some(t) => t,
            None => "",
        };
        let truncated = truncate_at_char_boundary(source, QUERY_TEXT_MAX_LEN);
        let query_text = long_string_from(truncated).unwrap();
        proof {
            reveal_strlit("");
            if !valid_utf8(query_desc.source_text@) {
                assert(encode_utf8(source@) =~= Seq::<u8>::empty());
                assert(encode_utf8(source@).subrange(0, 0) =~= Seq::<u8>::empty());
            }
        }
        let (trace_id, parent_id) = match trace {
            Some(t) => (t.trace_id, t.parent_id),
            None => (0, 0),
        };
        Some(HeaplessSpan {
            trace_id,
            span_id,
            parent_id,
            name,
            start_time,
            end_time,
            attributes: HeaplessSpanAttributes::Query {
                operation,
                query_text,
                exec_startup_time_ticks: instrument.starttime_ticks,
                exec_total_time_ticks: instrument.total_ticks,
            },
        })
    }

    /// The span of a plan node whose query started at `wall_start`, with span
    /// id `span_id`, as a child of `parent` in `parent`'s trace; none for a
    /// null node, or one without instrumentation or plan. It lists the first
    /// 64 of the tables scanned under the node.
    pub fn from_plan(
        plan_node: Option<&PlanStateNode>,
        wall_start: i128,
        parent: &HeaplessSpan,
        span_id: u64,
    ) -> (r: Option<Self>)
        requires
            time_has_room(wall_start),
            plan_node matches Some(n) ==> plan_name_fits(*n),
        ensures
            opt_span_view(r) == match plan_node {
                Some(n) => plan_span(*n, wall_start, parent.trace_id, parent.span_id, span_id),
                None => None,
            },
            r is Some <==> (plan_node matches Some(n) && n.instrument is Some && n.plan is Some),
            r matches Some(s) ==> {
                &&& s.span_id == span_id
                &&& s.trace_id == parent.trace_id
                &&& s.parent_id == parent.span_id
                &&& s.start_time == wall_start + (plan_node->Some_0.instrument->Some_0.starttime_ticks as u64)
                &&& s.end_time == wall_start + (plan_node->Some_0.instrument->Some_0.total_ticks as u64)
            },
            r matches Some(s) ==> (s.attributes matches HeaplessSpanAttributes::PlanNode {
                instrument: measured,
                plan: costs,
                ..
            } && measured == plan_node->Some_0.instrument->Some_0
                && costs == plan_node->Some_0.plan->Some_0.costs),
    {
        let plan_node = match plan_node {
            Some(n) => n,
            None => return None,
        };
        let instrument = match &plan_node.instrument {
            Some(i) => i,
            None => return None,
        };
        let plan = match &plan_node.plan {
            Some(p) => p,
            None => return None,
        };
        let mut full_name = String::from_str("postgres.operation.");
        full_name.append(plan_node.node_tag.as_str());
        let name = short_string_from(full_name.as_str()).unwrap();
        proof {
            lemma_encode_utf8_add("postgres.operation."@, plan_node.node_tag@);
        }
        let plan_node_type = short_string_from(plan_node.node_tag.as_str()).unwrap();
        let start_time = wall_start + ((instrument.starttime_ticks as u64) as i128);
        let end_time = wall_start + ((instrument.total_ticks as u64) as i128);
        let names = collect_table_names(Some(plan_node));
        let ghost all = texts(names@);
        let ghost held = all.map_values(|t: Seq<char>| held_table_name(t));
        let mut plan_tables = table_list_new();
        let mut i: usize = 0;
        while i < names.len()
            invariant
                i <= names.len(),
                all == texts(names@),
                held == all.map_values(|t: Seq<char>| held_table_name(t)),
                table_list(plan_tables) == held.take(if i <= PLAN_TABLES_MAX_LEN { i as int } else { PLAN_TABLES_MAX_LEN as int }),
            decreases names.len() - i,
        {
            let cut = truncate_at_char_boundary(names[i].as_str(), TABLE_NAME_MAX_LEN);
            let item = table_name_from(cut).unwrap();
            let _ = table_list_push(&mut plan_tables, item);
            proof {
                assert(held[i as int] == held_table_name(all[i as int]));
                if i < PLAN_TABLES_MAX_LEN {
                    assert(held.take(i + 1) =~= held.take(i as int).push(held[i as int]));
                }
            }
            i = i + 1;
        }
        proof {
            if names.len() <= PLAN_TABLES_MAX_LEN {
                assert(held.take(names.len() as int) =~= held);
                assert(held =~= span_tables(*plan_node));
            } else {
                assert(held.take(PLAN_TABLES_MAX_LEN as int) =~= span_tables(*plan_node));
            }
        }
        Some(HeaplessSpan {
            trace_id: parent.trace_id,
            span_id,
            parent_id: parent.span_id,
            name,
            start_time,
            end_time,
            attributes: HeaplessSpanAttributes::PlanNode {
                plan_node_type,
                plan_tables,
                plan: plan.costs,
                instrument: *instrument,
            },
        })
    }
}

} // verus!
