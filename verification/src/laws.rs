//! The laws of the counting operation and of the action lifecycle,
//! each stated over the library's mathematical models and proved once
//! and for all.

use vstd::prelude::*;

use crate::action::{
    complete_spec, destroy_spec, submit_spec, ActionModel, ActionView, EntryView,
};
use crate::multipart::{
    chunk_total, concat_chunks, concat_fields, fields_total, request_clean, request_outcome,
    FieldView, RequestView, UploadError, UploadResult,
};

verus! {

/// A field's chunk total is the length of its concatenated payload: no
/// byte is counted twice, none is lost.
pub proof fn lemma_chunk_total_is_payload_len(chunks: Seq<Seq<u8>>)
    ensures
        chunk_total(chunks) == concat_chunks(chunks).len(),
    decreases chunks.len(),
{
    if chunks.len() != 0 {
        lemma_chunk_total_is_payload_len(chunks.drop_last());
    }
}

/// The count a request yields is the length of all its bytes laid end
/// to end: each chunk of each field is counted exactly once.
pub proof fn lemma_count_is_payload_len(fields: Seq<FieldView>)
    ensures
        fields_total(fields) == concat_fields(fields).len(),
    decreases fields.len(),
{
    if fields.len() != 0 {
        lemma_count_is_payload_len(fields.drop_last());
        lemma_chunk_total_is_payload_len(fields.last().chunks);
    }
}

/// Chunking is transparent: two requests that deliver the same bytes,
/// however differently divided into chunks or fields, count the same.
pub proof fn lemma_chunking_transparent(a: Seq<FieldView>, b: Seq<FieldView>)
    requires
        concat_fields(a) == concat_fields(b),
    ensures
        fields_total(a) == fields_total(b),
{
    lemma_count_is_payload_len(a);
    lemma_count_is_payload_len(b);
}

/// On two fully delivered streams carrying the same bytes the whole
/// operation returns the same result.
pub proof fn lemma_outcome_chunking_transparent(a: RequestView, b: RequestView)
    requires
        request_clean(a),
        request_clean(b),
        concat_fields(a.fields) == concat_fields(b.fields),
    ensures
        request_outcome(a) == request_outcome(b),
{
    lemma_chunking_transparent(a.fields, b.fields);
}

/// A request with zero fields succeeds with a count of zero; it is not
/// an error.
pub proof fn lemma_empty_request(r: RequestView)
    requires
        r.fields.len() == 0,
        !r.truncated,
    ensures
        request_outcome(r) == UploadResult::Success(0usize),
{
}

/// Field names play no part in the count: fields with the same chunks
/// under different names count the same.
pub proof fn lemma_names_irrelevant(a: Seq<FieldView>, b: Seq<FieldView>)
    requires
        a.len() == b.len(),
        forall|i: int| 0 <= i < a.len() ==> (#[trigger] a[i]).chunks == b[i].chunks,
    ensures
        fields_total(a) == fields_total(b),
    decreases a.len(),
{
    if a.len() != 0 {
        lemma_names_irrelevant(a.drop_last(), b.drop_last());
    }
}

/// Removing one field removes exactly its chunk total from the count.
pub proof fn lemma_fields_total_remove(s: Seq<FieldView>, i: int)
    requires
        0 <= i < s.len(),
    ensures
        fields_total(s) == fields_total(s.remove(i)) + chunk_total(s[i].chunks),
    decreases s.len(),
{
    if i == s.len() - 1 {
        assert(s.remove(i) =~= s.drop_last());
    } else {
        assert(s.remove(i).drop_last() =~= s.drop_last().remove(i));
        assert(s.remove(i).last() == s.last());
        lemma_fields_total_remove(s.drop_last(), i);
    }
}

/// Field order plays no part in the count: any rearrangement of the
/// same fields counts the same.
pub proof fn lemma_order_irrelevant(a: Seq<FieldView>, b: Seq<FieldView>)
    requires
        a.to_multiset() == b.to_multiset(),
    ensures
        fields_total(a) == fields_total(b),
    decreases a.len(),
{
    broadcast use vstd::seq_lib::group_to_multiset_ensures;

    a.to_multiset_ensures();
    b.to_multiset_ensures();
    if a.len() == 0 {
        assert(b.len() == 0);
    } else {
        let x = a.last();
        assert(a[a.len() - 1] == x);
        assert(a.contains(x));
        assert(b.to_multiset().count(x) > 0);
        assert(b.contains(x));
        let j = choose|j: int| 0 <= j < b.len() && b[j] == x;
        assert(a.drop_last() =~= a.remove(a.len() - 1));
        assert(a.remove(a.len() - 1).to_multiset() =~= a.to_multiset().remove(x));
        assert(b.remove(j).to_multiset() =~= b.to_multiset().remove(x));
        lemma_order_irrelevant(a.drop_last(), b.remove(j));
        lemma_fields_total_remove(b, j);
    }
}

/// Failure is atomic: on any stream the transport cut off anywhere,
/// the operation fails outright — never a success with a partial
/// count.
pub proof fn lemma_failure_atomic(r: RequestView)
    requires
        !request_clean(r),
    ensures
        request_outcome(r) == UploadResult::Failure(UploadError::TransportError),
{
}

/// The action lifecycle: a submission to a live action is immediately
/// pending with its snapshot, and the completion that then arrives
/// settles the action exactly once, with that snapshot and that
/// result.
pub proof fn lemma_action_lifecycle(m: ActionModel, input: Seq<EntryView>, result: UploadResult)
    requires
        !m.destroyed,
    ensures
        submit_spec(m, input).state == ActionView::Pending(input),
        !submit_spec(m, input).destroyed,
        complete_spec(submit_spec(m, input), result).state == ActionView::Settled(input, result),
{
}

/// A completion that arrives after the owning view was torn down is
/// discarded: it changes nothing.
pub proof fn lemma_stale_completion_discarded(m: ActionModel, result: UploadResult)
    ensures
        complete_spec(destroy_spec(m), result) == destroy_spec(m),
{
}

} // verus!
