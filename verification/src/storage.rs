use crate::utilities::{base58_text, compute_identity, sha256};
use vstd::prelude::*;
use vstd::slice::{slice_subrange, slice_to_vec};

verus! {

/// Size of the pieces in which stored content is sent back: one mebibyte.
pub const DOWNLOAD_CHUNK_SIZE: usize = 1048576;

/// Whether `chunks` is `data` cut, in order, into pieces of `size` bytes: none of them empty,
/// each of `size` bytes but the last, which holds what is left.
pub open spec fn is_chunking(data: Seq<u8>, size: nat, chunks: Seq<Seq<u8>>) -> bool {
    &&& chunks.flatten() == data
    &&& forall|i: int| 0 <= i < chunks.len() ==> 0 < #[trigger] chunks[i].len() <= size
    &&& forall|i: int| 0 <= i < chunks.len() - 1 ==> #[trigger] chunks[i].len() == size
}

/// The bytes of each piece.
pub open spec fn pieces(chunks: Seq<Vec<u8>>) -> Seq<Seq<u8>> {
    chunks.map_values(|chunk: Vec<u8>| chunk@)
}

/// What an upload made of the messages' `chunks` stores: the chunks one after the other;
/// nothing when the upload has no message.
pub open spec fn upload_content(chunks: Seq<Seq<u8>>) -> Option<Seq<u8>> {
    if chunks.len() == 0 {
        None
    } else {
        Some(chunks.flatten())
    }
}

/// The pieces in which `data` is sent: `size` bytes each, in order, the last one shorter when
/// the length is not a multiple of `size`; none for empty data.
pub fn split_chunks(data: &[u8], size: usize) -> (chunks: Vec<Vec<u8>>)
    requires
        size > 0,
    ensures
        is_chunking(data@, size as nat, pieces(chunks@)),
{
    let mut chunks: Vec<Vec<u8>> = Vec::new();
    let mut start: usize = 0;
    while start < data.len()
        invariant
            size > 0,
            start <= data@.len(),
            pieces(chunks@).flatten() == data@.take(start as int),
            forall|i: int| 0 <= i < chunks@.len() ==> 0 < #[trigger] pieces(chunks@)[i].len() <= size,
            forall|i: int| 0 <= i < chunks@.len() - 1 ==> #[trigger] pieces(chunks@)[i].len() == size,
            chunks@.len() > 0 && pieces(chunks@).last().len() < size ==> start == data@.len(),
        decreases data.len() - start,
    {
        let end: usize = if data.len() - start > size {
            start + size
        } else {
            data.len()
        };
        let piece = slice_to_vec(slice_subrange(data, start, end));
        let ghost before = pieces(chunks@);
        chunks.push(piece);
        proof {
            assert(pieces(chunks@) =~= before.push(piece@));
            before.lemma_flatten_push(piece@);
            assert(data@.take(end as int) =~= data@.take(start as int) + piece@);
            assert forall|i: int| 0 <= i < chunks@.len() implies 0 < #[trigger] pieces(chunks@)[i].len() <= size by {
                if i < before.len() {
                    assert(pieces(chunks@)[i] == before[i]);
                }
            }
            assert forall|i: int| 0 <= i < chunks@.len() - 1 implies #[trigger] pieces(chunks@)[i].len() == size by {
                assert(pieces(chunks@)[i] == before[i]);
                if i == before.len() - 1 {
                    assert(before.last() == before[i]);
                }
            }
        }
        start = end;
    }
    assert(data@.take(start as int) =~= data@);
    chunks
}

/// What an upload made of the messages' `chunks` stores: the chunks one after the other;
/// `None` when the upload has no message.
pub fn assemble_upload(chunks: &Vec<Vec<u8>>) -> (content: Option<Vec<u8>>)
    ensures
        match content {
            Some(c) => upload_content(pieces(chunks@)) == Some(c@),
            None => upload_content(pieces(chunks@)) is None,
        },
{
    if chunks.len() == 0 {
        return None;
    }
    let mut content: Vec<u8> = Vec::new();
    let mut i: usize = 0;
    while i < chunks.len()
        invariant
            i <= chunks@.len(),
            content@ == pieces(chunks@).take(i as int).flatten(),
        decreases chunks.len() - i,
    {
        let ghost before = content@;
        let piece = &chunks[i];
        let mut k: usize = 0;
        while k < piece.len()
            invariant
                i < chunks@.len(),
                *piece == chunks@[i as int],
                k <= chunks@[i as int]@.len(),
                content@ == before + chunks@[i as int]@.take(k as int),
            decreases piece@.len() - k,
        {
            content.push(piece[k]);
            proof {
                assert(content@ =~= before + chunks@[i as int]@.take(k + 1));
            }
            k = k + 1;
        }
        proof {
            let taken = pieces(chunks@).take(i as int);
            assert(pieces(chunks@).take(i + 1) =~= taken.push(chunks@[i as int]@));
            taken.lemma_flatten_push(chunks@[i as int]@);
            assert(chunks@[i as int]@.take(k as int) =~= chunks@[i as int]@);
        }
        i = i + 1;
    }
    assert(pieces(chunks@).take(i as int) =~= pieces(chunks@));
    Some(content)
}

/// What an upload made of the messages' `chunks` is answered with: the identity of the
/// content it stores, with that content; `None` when the upload has no message (the answer
/// then names no identity).
pub fn receive_upload(chunks: &Vec<Vec<u8>>) -> (stored: Option<(Vec<u8>, String)>)
    ensures
        stored is None <==> chunks@.len() == 0,
        stored matches Some((content, identity)) ==> {
            &&& Some(content@) == upload_content(pieces(chunks@))
            &&& identity@ == base58_text(sha256(content@))
        },
{
    match assemble_upload(chunks) {
        Some(content) => {
            let identity = compute_identity(content.as_slice());
            Some((content, identity))
        },
        None => None,
    }
}

/// The pieces in which stored content is sent back: pieces of `DOWNLOAD_CHUNK_SIZE` bytes.
pub fn download_chunks(content: &[u8]) -> (chunks: Vec<Vec<u8>>)
    ensures
        is_chunking(content@, DOWNLOAD_CHUNK_SIZE as nat, pieces(chunks@)),
{
    split_chunks(content, DOWNLOAD_CHUNK_SIZE)
}

/// Whether stored content exists, and its length (zero when it does not), given the length
/// of the stored file when there is one.
pub fn storage_state(stored_length: Option<u64>) -> (state: (bool, u64))
    ensures
        state == (match stored_length {
            Some(length) => (true, length),
            None => (false, 0u64),
        }),
{
    match stored_length {
        Some(length) => (true, length),
        None => (false, 0),
    }
}

/// Law: content cut into pieces and received back as an upload of those pieces is stored
/// unchanged; empty content makes an upload with no message.
pub proof fn lemma_chunked_content_uploads_unchanged(data: Seq<u8>, size: nat, chunks: Seq<Seq<u8>>)
    requires
        is_chunking(data, size, chunks),
    ensures
        upload_content(chunks) == (if data.len() == 0 {
            None::<Seq<u8>>
        } else {
            Some(data)
        }),
{
    if chunks.len() > 0 {
        lemma_flatten_at_least_first(chunks);
    }
}

/// The first piece of a non-empty list of pieces is within what they hold together.
proof fn lemma_flatten_at_least_first(chunks: Seq<Seq<u8>>)
    requires
        chunks.len() > 0,
    ensures
        chunks.flatten().len() >= chunks[0].len(),
{
    assert(chunks.flatten() == chunks.first() + chunks.drop_first().flatten());
}

} // verus!
