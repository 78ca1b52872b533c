use vstd::prelude::*;

verus! {

/// Size of the virtual reservation made once when a file is mapped: one tebibyte.
/// The logical size of a mapped file never exceeds it.
pub const RESERVATION: u64 = 1099511627776;

/// Whether the byte range `[offset, offset + len)` lies inside content of `size` bytes.
pub open spec fn fits(offset: int, len: int, size: int) -> bool {
    offset + len <= size
}

/// The content after `data` is appended to `content`.
pub open spec fn appended(content: Seq<u8>, data: Seq<u8>) -> Seq<u8> {
    content + data
}

/// The content after `data` replaces the bytes of `content` from `offset` on.
pub open spec fn overwritten(content: Seq<u8>, offset: int, data: Seq<u8>) -> Seq<u8> {
    content.subrange(0, offset) + data + content.subrange(offset + data.len(), content.len() as int)
}

/// The content after its last `n` bytes are dropped.
pub open spec fn truncated(content: Seq<u8>, n: int) -> Seq<u8> {
    content.subrange(0, content.len() - n)
}

/// The `len` bytes of `content` that start at `offset`.
pub open spec fn window(content: Seq<u8>, offset: int, len: int) -> Seq<u8> {
    content.subrange(offset, offset + len)
}

/// Reading back the range that an append filled gives exactly the appended bytes,
/// and the bytes that were there before stay as they were.
pub proof fn lemma_append_then_read(content: Seq<u8>, data: Seq<u8>)
    ensures
        appended(content, data).len() == content.len() + data.len(),
        window(appended(content, data), content.len() as int, data.len() as int) == data,
        window(appended(content, data), 0, content.len() as int) == content,
{
    assert(window(appended(content, data), content.len() as int, data.len() as int) =~= data);
    assert(window(appended(content, data), 0, content.len() as int) =~= content);
}

/// Reading back an overwritten range gives exactly the bytes written; the size and
/// every byte outside the range are unchanged.
pub proof fn lemma_overwrite_then_read(content: Seq<u8>, offset: int, data: Seq<u8>)
    requires
        0 <= offset,
        fits(offset, data.len() as int, content.len() as int),
    ensures
        overwritten(content, offset, data).len() == content.len(),
        window(overwritten(content, offset, data), offset, data.len() as int) == data,
        forall|i: int|
            0 <= i < content.len() && !(offset <= i < offset + data.len())
                ==> #[trigger] overwritten(content, offset, data)[i] == content[i],
{
    let r = overwritten(content, offset, data);
    assert(window(r, offset, data.len() as int) =~= data);
}

/// Dropping `n` bytes from the tail and appending `n` bytes again brings the size back
/// to what it was, and the bytes before the dropped range are unchanged.
pub proof fn lemma_drop_then_append_back(content: Seq<u8>, n: int, data: Seq<u8>)
    requires
        0 <= n <= content.len(),
        data.len() == n,
    ensures
        appended(truncated(content, n), data).len() == content.len(),
        window(appended(truncated(content, n), data), 0, content.len() - n) == window(
            content,
            0,
            content.len() - n,
        ),
{
    let r = appended(truncated(content, n), data);
    assert(window(r, 0, content.len() - n) =~= window(content, 0, content.len() - n));
}

} // verus!
