//! The multipart counting operation: the data model of a received
//! multipart request and the operation that tallies the bytes of every
//! chunk of every field.
//!
//! A request is an ordered sequence of named fields; each field body
//! arrives as a sequence of byte chunks whose boundaries carry no
//! meaning. A `truncated` flag on a field (or on the request itself)
//! records that the transport cut off before that part of the stream
//! was fully delivered.

use vstd::prelude::*;

verus! {

/// Why the counting operation failed.
#[derive(Clone, Copy, Debug, PartialEq, Eq, Structural)]
pub enum UploadError {
    /// The multipart body could not be streamed to completion.
    TransportError,
    /// The operation was invoked with no multipart payload attached.
    PreconditionError,
}

/// The outcome of one counting operation: the total number of bytes
/// received, or the reason the whole operation failed.
#[derive(Clone, Copy, Debug, PartialEq, Eq, Structural)]
pub enum UploadResult {
    Success(usize),
    Failure(UploadError),
}

/// One named section of a multipart body, with the byte chunks the
/// transport delivered for it.
pub struct UploadField {
    pub name: String,
    pub chunks: Vec<Vec<u8>>,
    /// True when the transport cut off while this field's chunks were
    /// being streamed: the listed chunks are all that arrived.
    pub truncated: bool,
}

/// A multipart request body as received: its fields in arrival order.
pub struct UploadRequest {
    pub fields: Vec<UploadField>,
    /// True when the transport cut off between fields, so the field
    /// sequence itself is incomplete.
    pub truncated: bool,
}

/// The mathematical model of one field.
pub struct FieldView {
    pub name: Seq<char>,
    pub chunks: Seq<Seq<u8>>,
    pub truncated: bool,
}

/// The mathematical model of a request body.
pub struct RequestView {
    pub fields: Seq<FieldView>,
    pub truncated: bool,
}

impl View for UploadField {
    type V = FieldView;

    open spec fn view(&self) -> FieldView {
        FieldView { name: self.name@, chunks: self.chunks.deep_view(), truncated: self.truncated }
    }
}

impl View for UploadRequest {
    type V = RequestView;

    open spec fn view(&self) -> RequestView {
        RequestView {
            fields: Seq::new(self.fields@.len(), |i: int| self.fields@[i]@),
            truncated: self.truncated,
        }
    }
}

/// The sum of the lengths of a sequence of chunks.
pub open spec fn chunk_total(chunks: Seq<Seq<u8>>) -> nat
    decreases chunks.len(),
{
    if chunks.len() == 0 {
        0
    } else {
        chunk_total(chunks.drop_last()) + chunks.last().len()
    }
}

/// The running total across a whole request: field boundaries do not
/// reset the counter.
pub open spec fn fields_total(fields: Seq<FieldView>) -> nat
    decreases fields.len(),
{
    if fields.len() == 0 {
        0
    } else {
        fields_total(fields.drop_last()) + chunk_total(fields.last().chunks)
    }
}

/// All the chunks of one field, concatenated: the field's payload.
pub open spec fn concat_chunks(chunks: Seq<Seq<u8>>) -> Seq<u8>
    decreases chunks.len(),
{
    if chunks.len() == 0 {
        Seq::empty()
    } else {
        concat_chunks(chunks.drop_last()) + chunks.last()
    }
}

/// The payloads of all fields of a request, concatenated.
pub open spec fn concat_fields(fields: Seq<FieldView>) -> Seq<u8>
    decreases fields.len(),
{
    if fields.len() == 0 {
        Seq::empty()
    } else {
        concat_fields(fields.drop_last()) + concat_chunks(fields.last().chunks)
    }
}

/// A request whose stream was delivered to exhaustion: no truncation
/// anywhere.
pub open spec fn request_clean(r: RequestView) -> bool {
    &&& !r.truncated
    &&& forall|i: int| 0 <= i < r.fields.len() ==> !(#[trigger] r.fields[i]).truncated
}

/// What the counting operation returns for a request that is actually
/// attached: the full count on a clean stream, and a transport failure
/// (with the partial count discarded) otherwise.
pub open spec fn request_outcome(r: RequestView) -> UploadResult {
    if request_clean(r) {
        UploadResult::Success(fields_total(r.fields) as usize)
    } else {
        UploadResult::Failure(UploadError::TransportError)
    }
}

/// Extending a prefix of the chunk sequence by one chunk adds exactly
/// that chunk's length to the partial total.
pub proof fn lemma_chunk_total_take_step(chunks: Seq<Seq<u8>>, j: int)
    requires
        0 <= j < chunks.len(),
    ensures
        chunk_total(chunks.take(j + 1)) == chunk_total(chunks.take(j)) + chunks[j].len(),
{
    assert(chunks.take(j + 1).drop_last() =~= chunks.take(j));
    assert(chunks.take(j + 1).last() == chunks[j]);
}

/// A partial total never exceeds the total of the whole chunk sequence.
pub proof fn lemma_chunk_total_take_le(chunks: Seq<Seq<u8>>, j: int)
    requires
        0 <= j <= chunks.len(),
    ensures
        chunk_total(chunks.take(j)) <= chunk_total(chunks),
    decreases chunks.len() - j,
{
    if j == chunks.len() {
        assert(chunks.take(j) =~= chunks);
    } else {
        lemma_chunk_total_take_step(chunks, j);
        lemma_chunk_total_take_le(chunks, j + 1);
    }
}

/// Extending a prefix of the field sequence by one field adds exactly
/// that field's chunk total to the partial total.
pub proof fn lemma_fields_total_take_step(fields: Seq<FieldView>, i: int)
    requires
        0 <= i < fields.len(),
    ensures
        fields_total(fields.take(i + 1)) == fields_total(fields.take(i)) + chunk_total(
            fields[i].chunks,
        ),
{
    assert(fields.take(i + 1).drop_last() =~= fields.take(i));
    assert(fields.take(i + 1).last() == fields[i]);
}

/// A partial total never exceeds the total of the whole request.
pub proof fn lemma_fields_total_take_le(fields: Seq<FieldView>, i: int)
    requires
        0 <= i <= fields.len(),
    ensures
        fields_total(fields.take(i)) <= fields_total(fields),
    decreases fields.len() - i,
{
    if i == fields.len() {
        assert(fields.take(i) =~= fields);
    } else {
        lemma_fields_total_take_step(fields, i);
        lemma_fields_total_take_le(fields, i + 1);
    }
}

/// Reads one field's chunk sequence to exhaustion and returns how many
/// bytes it carried.
pub fn field_byte_len(field: &UploadField) -> (n: usize)
    requires
        chunk_total(field@.chunks) <= usize::MAX,
    ensures
        n == chunk_total(field@.chunks),
{
    let mut n: usize = 0;
    let mut j: usize = 0;
    while j < field.chunks.len()
        invariant
            0 <= j <= field.chunks@.len(),
            field@.chunks.len() == field.chunks@.len(),
            n == chunk_total(field@.chunks.take(j as int)),
            chunk_total(field@.chunks) <= usize::MAX,
        decreases field.chunks@.len() - j,
    {
        proof {
            lemma_chunk_total_take_step(field@.chunks, j as int);
            lemma_chunk_total_take_le(field@.chunks, j as int + 1);
            assert(field@.chunks[j as int] == field.chunks@[j as int]@);
        }
        n = n + field.chunks[j].len();
        j = j + 1;
    }
    proof {
        assert(field@.chunks.take(j as int) =~= field@.chunks);
    }
    n
}

/// Decides whether the whole stream was delivered to exhaustion.
pub fn request_is_clean(req: &UploadRequest) -> (b: bool)
    ensures
        b == request_clean(req@),
{
    if req.truncated {
        return false;
    }
    let mut i: usize = 0;
    while i < req.fields.len()
        invariant
            0 <= i <= req.fields@.len(),
            forall|k: int| 0 <= k < i ==> !(#[trigger] req@.fields[k]).truncated,
        decreases req.fields@.len() - i,
    {
        if req.fields[i].truncated {
            assert(req@.fields[i as int].truncated);
            return false;
        }
        i = i + 1;
    }
    true
}

/// The multipart counting operation.
///
/// `data` is the multipart payload as the endpoint received it, or
/// `None` when the operation was invoked with no payload attached.
/// Every chunk of every field is counted exactly once, as a running
/// total across the whole request; a truncated stream fails the whole
/// operation and the partial count is discarded.
///
/// The one bound the machine forces: on a fully delivered stream the
/// total must fit in `usize`, since that is the type of the count.
pub fn file_length(data: Option<&UploadRequest>) -> (r: UploadResult)
    requires
        (match data {
            Option::Some(req) => request_clean(req@) ==> fields_total(req@.fields) <= usize::MAX,
            Option::None => true,
        }),
    ensures
        r == (match data {
            Option::Some(req) => request_outcome(req@),
            Option::None => UploadResult::Failure(UploadError::PreconditionError),
        }),
{
    let req = match data {
        Option::None => {
            return UploadResult::Failure(UploadError::PreconditionError);
        },
        Option::Some(req) => req,
    };
    if !request_is_clean(req) {
        return UploadResult::Failure(UploadError::TransportError);
    }
    let mut count: usize = 0;
    let mut i: usize = 0;
    while i < req.fields.len()
        invariant
            0 <= i <= req.fields@.len(),
            req@.fields.len() == req.fields@.len(),
            count == fields_total(req@.fields.take(i as int)),
            fields_total(req@.fields) <= usize::MAX,
        decreases req.fields@.len() - i,
    {
        proof {
            lemma_fields_total_take_step(req@.fields, i as int);
            lemma_fields_total_take_le(req@.fields, i as int + 1);
            assert(req@.fields[i as int] == req.fields@[i as int]@);
        }
        let n = field_byte_len(&req.fields[i]);
        count = count + n;
        i = i + 1;
    }
    proof {
        assert(req@.fields.take(i as int) =~= req@.fields);
    }
    UploadResult::Success(count)
}

} // verus!
