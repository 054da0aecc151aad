//! The queue that carries spans from the backends to the background worker.
//! It holds at most `queue_capacity()` spans; a span offered to a full queue
//! is dropped.

use vstd::prelude::*;
use crate::bounded::{queue_capacity, queued_spans, span_queue_dequeue, span_queue_enqueue, span_queue_new};
use crate::span::{HeaplessSpan, SpanView};

verus! {

/// The queue shared by the backends and the background worker: it holds up to
/// 1024 spans.
pub type SpanQueue = heapless::spsc::Queue<HeaplessSpan, 1025>;

/// A new, empty queue.
pub fn new_span_queue() -> (queue: SpanQueue)
    ensures
        queued_spans(queue).len() == 0,
{
    span_queue_new()
}

/// A new, empty queue, on the heap.
pub fn new_boxed_span_queue() -> (queue: Box<SpanQueue>)
    ensures
        queued_spans(*queue).len() == 0,
{
    Box::new(span_queue_new())
}

/// The spans of `queue` once `span` is offered to it: appended when there is
/// room, dropped otherwise.
pub open spec fn offer(queue: Seq<SpanView>, span: SpanView) -> Seq<SpanView> {
    if queue.len() < queue_capacity() {
        queue.push(span)
    } else {
        queue
    }
}

/// The spans of `queue` once each of `spans` is offered to it in turn.
pub open spec fn offer_all(queue: Seq<SpanView>, spans: Seq<SpanView>) -> Seq<SpanView>
    decreases spans.len(),
{
    if spans.len() == 0 {
        queue
    } else {
        offer(offer_all(queue, spans.drop_last()), spans.last())
    }
}

/// The views of a sequence of spans.
pub open spec fn span_views(spans: Seq<HeaplessSpan>) -> Seq<SpanView> {
    spans.map_values(|s: HeaplessSpan| s@)
}

/// Offering two batches in turn is offering them together.
pub proof fn lemma_offer_all_add(queue: Seq<SpanView>, a: Seq<SpanView>, b: Seq<SpanView>)
    ensures
        offer_all(queue, a + b) == offer_all(offer_all(queue, a), b),
    decreases b.len(),
{
    if b.len() == 0 {
        assert(a + b =~= a);
    } else {
        lemma_offer_all_add(queue, a, b.drop_last());
        assert((a + b).drop_last() =~= a + b.drop_last());
        assert((a + b).last() == b.last());
    }
}

/// A queue that holds at most its capacity keeps the spans offered to it in
/// order, up to its capacity, and drops the rest.
pub proof fn law_offer_all_keeps_order_up_to_capacity(queue: Seq<SpanView>, spans: Seq<SpanView>)
    requires
        queue.len() <= queue_capacity(),
    ensures
        offer_all(queue, spans) == (queue + spans).take(
            if queue.len() + spans.len() <= queue_capacity() {
                (queue.len() + spans.len()) as int
            } else {
                queue_capacity() as int
            },
        ),
    decreases spans.len(),
{
    if spans.len() == 0 {
        assert((queue + spans).take(queue.len() as int) =~= queue);
    } else {
        let rest = spans.drop_last();
        law_offer_all_keeps_order_up_to_capacity(queue, rest);
        let prev = offer_all(queue, rest);
        if queue.len() + spans.len() <= queue_capacity() {
            assert((queue + spans).take((queue.len() + spans.len()) as int) =~= (queue + rest).take(
                (queue.len() + rest.len()) as int,
            ).push(spans.last()));
        } else if queue.len() + rest.len() < queue_capacity() {
            assert((queue + spans).take(queue_capacity() as int) =~= (queue + rest).take(
                (queue.len() + rest.len()) as int,
            ).push(spans.last()));
        } else {
            assert((queue + spans).take(queue_capacity() as int) =~= (queue + rest).take(
                queue_capacity() as int,
            ));
        }
    }
}

/// Offers `span` to the queue: it is appended when the queue has room and
/// dropped otherwise. Returns whether it was appended.
pub fn enqueue_span(queue: &mut SpanQueue, span: HeaplessSpan) -> (appended: bool)
    ensures
        queued_spans(*final(queue)) == offer(queued_spans(*old(queue)), span@),
        appended == (queued_spans(*old(queue)).len() < queue_capacity()),
        queued_spans(*final(queue)).len() <= queue_capacity(),
{
    match span_queue_enqueue(queue, span) {
        Ok(()) => true,
        Err(_) => false,
    }
}

/// Takes every span out of the queue, oldest first.
pub fn drain_queue(queue: &mut SpanQueue) -> (spans: Vec<HeaplessSpan>)
    ensures
        span_views(spans@) == queued_spans(*old(queue)),
        queued_spans(*final(queue)).len() == 0,
{
    let mut spans: Vec<HeaplessSpan> = Vec::new();
    loop
        invariant
            span_views(spans@) + queued_spans(*queue) == queued_spans(*old(queue)),
        ensures
            span_views(spans@) == queued_spans(*old(queue)),
            queued_spans(*queue).len() == 0,
        decreases queued_spans(*queue).len(),
    {
        let ghost before = queued_spans(*queue);
        match span_queue_dequeue(queue) {
            Some(span) => {
                let ghost v = span@;
                spans.push(span);
                proof {
                    assert(span_views(spans@) =~= span_views(spans@.drop_last()).push(v));
                    assert(before =~= seq![v] + before.drop_first());
                    assert(span_views(spans@) + queued_spans(*queue) =~= span_views(spans@.drop_last())
                        + before);
                }
            },
            None => {
                proof {
                    assert(span_views(spans@) + queued_spans(*queue) =~= span_views(spans@));
                }
                break;
            },
        }
    }
    spans
}

} // verus!
