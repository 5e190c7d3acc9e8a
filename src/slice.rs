use vstd::prelude::*;

verus! {

/// A non-owning view of bytes as the native side takes it: where the bytes
/// are, and how many there are. It never outlives the memory it refers to.
#[derive(Clone, Copy, Debug)]
pub struct rocksdb_Slice<'a> {
    data_: &'a [u8],
    size_: usize,
}

impl<'a> rocksdb_Slice<'a> {
    /// The descriptor's length agrees with the memory it refers to.
    pub closed spec fn wf(&self) -> bool {
        self.size_ == self.data_@.len()
    }

    /// The bytes the descriptor refers to.
    pub closed spec fn bytes(&self) -> Seq<u8> {
        self.data_@
    }

    /// The length that the descriptor records.
    pub closed spec fn len_spec(&self) -> nat {
        self.size_ as nat
    }
}

/// Describes `src` as a native slice: the same bytes and the same length,
/// with nothing copied.
pub fn r(src: &[u8]) -> (d: rocksdb_Slice)
    ensures
        d.wf(),
        d.bytes() == src@,
        d.len_spec() == src@.len(),
{
    rocksdb_Slice { data_: src, size_: src.len() }
}

/// Views the bytes that a native slice describes, with nothing copied.
pub fn s<'a>(src: rocksdb_Slice<'a>) -> (out: &'a [u8])
    requires
        src.wf(),
    ensures
        out@ == src.bytes(),
        out@.len() == src.len_spec(),
{
    src.data_
}

/// Describing bytes as a native slice and viewing that slice again gives the
/// same bytes and the same length: what `s` returns for what `r` built is
/// what was handed to `r`.
pub proof fn lemma_slice_round_trip(src: Seq<u8>, d: rocksdb_Slice, out: Seq<u8>)
    requires
        d.wf(),
        d.bytes() == src,
        d.len_spec() == src.len(),
        out == d.bytes(),
    ensures
        out == src,
        out.len() == src.len(),
{
}

} // verus!
