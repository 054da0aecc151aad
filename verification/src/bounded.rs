//! The fixed-capacity containers of `heapless` that the spans are made of and
//! that carry them to the background worker, with what this library relies on
//! of each of their operations.

use vstd::prelude::*;
use vstd::string::StringSliceAdditionalSpecFns;
use crate::span::{HeaplessSpan, SpanView};

verus! {

/// `heapless::String<N>`: text stored inline, at most `N` bytes.
#[verifier::external_type_specification]
#[verifier::external_body]
pub struct ExHeaplessString<const N: usize>(heapless::String<N>);

/// `heapless::Vec<T, N>`: at most `N` items stored inline.
#[verifier::external_type_specification]
#[verifier::external_body]
#[verifier::reject_recursive_types(T)]
pub struct ExHeaplessVec<T, const N: usize>(heapless::Vec<T, N>);

/// `heapless::spsc::Queue<T, N>`: a ring buffer that holds at most `N - 1` items.
#[verifier::external_type_specification]
#[verifier::external_body]
#[verifier::reject_recursive_types(T)]
pub struct ExHeaplessQueue<T, const N: usize>(heapless::spsc::Queue<T, N>);

/// The text held by a span name.
pub uninterp spec fn short_text(s: heapless::String<64>) -> Seq<char>;

/// The text held by a query text attribute.
pub uninterp spec fn long_text(s: heapless::String<1024>) -> Seq<char>;

/// The text held by a table name.
pub uninterp spec fn table_text(s: heapless::String<128>) -> Seq<char>;

/// The texts of the table names held by a plan node's table list, in order.
pub uninterp spec fn table_list(v: heapless::Vec<heapless::String<128>, 64>) -> Seq<Seq<char>>;

/// The spans waiting in the queue, oldest first.
pub uninterp spec fn queued_spans(q: heapless::spsc::Queue<HeaplessSpan, 1025>) -> Seq<SpanView>;

/// How many spans the queue can hold: 1024. `heapless::spsc::Queue<T, N>`
/// keeps one slot of its ring free and holds `N - 1` items, so the queue has
/// 1025 slots.
pub open spec fn queue_capacity() -> nat {
    1024
}

/// `heapless::String::<64>::try_from(&str)`.
///
/// Trusted: the conversion copies the bytes of `s` and succeeds exactly when
/// they fit in the 64 bytes of the string (`push_str` refuses what does not
/// fit and leaves the string unchanged).
#[verifier::external_body]
pub(crate) fn short_string_from(s: &str) -> (r: Option<heapless::String<64>>)
    ensures
        r is Some <==> s.spec_bytes().len() <= 64,
        r matches Some(h) ==> short_text(h) == s@,
{
    heapless::String::try_from(s).ok()
}

/// `heapless::String::<1024>::try_from(&str)`.
///
/// Trusted: as for `short_string_from`, with a capacity of 1024 bytes.
#[verifier::external_body]
pub(crate) fn long_string_from(s: &str) -> (r: Option<heapless::String<1024>>)
    ensures
        r is Some <==> s.spec_bytes().len() <= 1024,
        r matches Some(h) ==> long_text(h) == s@,
{
    heapless::String::try_from(s).ok()
}

/// `heapless::String::<128>::try_from(&str)`.
///
/// Trusted: as for `short_string_from`, with a capacity of 128 bytes.
#[verifier::external_body]
pub(crate) fn table_name_from(s: &str) -> (r: Option<heapless::String<128>>)
    ensures
        r is Some <==> s.spec_bytes().len() <= 128,
        r matches Some(h) ==> table_text(h) == s@,
{
    heapless::String::try_from(s).ok()
}

/// `heapless::Vec::<heapless::String<128>, 64>::new()`.
///
/// Trusted: the new vector is empty.
#[verifier::external_body]
pub(crate) fn table_list_new() -> (v: heapless::Vec<heapless::String<128>, 64>)
    ensures
        table_list(v) == Seq::<Seq<char>>::empty(),
{
    heapless::Vec::new()
}

/// `heapless::Vec::<heapless::String<128>, 64>::push`.
///
/// Trusted: `push` appends the item when fewer than 64 items are held, and
/// otherwise hands the item back and leaves the vector unchanged.
#[verifier::external_body]
pub(crate) fn table_list_push(
    v: &mut heapless::Vec<heapless::String<128>, 64>,
    item: heapless::String<128>,
) -> (r: Result<(), heapless::String<128>>)
    ensures
        table_list(*old(v)).len() < 64 ==> r is Ok && table_list(*final(v)) == table_list(*old(v)).push(
            table_text(item),
        ),
        table_list(*old(v)).len() >= 64 ==> (r matches Err(back) && back == item) && table_list(*final(v)) == table_list(*old(v)),
        table_list(*final(v)).len() <= 64,
{
    v.push(item)
}

/// `heapless::spsc::Queue::<HeaplessSpan, 1025>::new()`.
///
/// Trusted: the new queue is empty.
#[verifier::external_body]
pub(crate) fn span_queue_new() -> (q: heapless::spsc::Queue<HeaplessSpan, 1025>)
    ensures
        queued_spans(q) == Seq::<SpanView>::empty(),
{
    heapless::spsc::Queue::new()
}

/// `heapless::spsc::Queue::<HeaplessSpan, 1025>::enqueue`.
///
/// Trusted: the span goes to the back of the queue when fewer than 1024
/// spans are held; otherwise it is handed back and the queue is unchanged.
#[verifier::external_body]
pub(crate) fn span_queue_enqueue(
    q: &mut heapless::spsc::Queue<HeaplessSpan, 1025>,
    span: HeaplessSpan,
) -> (r: Result<(), HeaplessSpan>)
    ensures
        queued_spans(*old(q)).len() < queue_capacity() ==> r is Ok && queued_spans(*final(q))
            == queued_spans(*old(q)).push(span@),
        queued_spans(*old(q)).len() >= queue_capacity() ==> (r matches Err(back) && back == span)
            && queued_spans(*final(q)) == queued_spans(*old(q)),
        queued_spans(*final(q)).len() <= queue_capacity(),
{
    q.enqueue(span)
}

/// `heapless::spsc::Queue::<HeaplessSpan, 1025>::dequeue`.
///
/// Trusted: the oldest span leaves the queue and is returned; an empty
/// queue gives `None` and stays empty.
#[verifier::external_body]
pub(crate) fn span_queue_dequeue(
    q: &mut heapless::spsc::Queue<HeaplessSpan, 1025>,
) -> (r: Option<HeaplessSpan>)
    ensures
        queued_spans(*old(q)).len() == 0 ==> r is None && queued_spans(*final(q)) == queued_spans(*old(q)),
        queued_spans(*old(q)).len() > 0 ==> (r matches Some(s) && s@ == queued_spans(*old(q))[0])
            && queued_spans(*final(q)) == queued_spans(*old(q)).drop_first(),
        queued_spans(*final(q)).len() <= queue_capacity(),
{
    q.dequeue()
}

} // verus!
