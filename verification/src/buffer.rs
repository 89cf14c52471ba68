use vstd::prelude::*;

verus! {

/// The fixed contents of the sample buffer.
pub open spec fn buffer_contents() -> Seq<u8> {
    seq![1u8, 2u8, 3u8, 4u8, 5u8]
}

/// The byte of the five-element sample buffer at `index`, or `None` when
/// `index` is out of bounds. The access is bounds-checked; no out-of-range
/// index can reach the buffer.
pub fn unsafe_buffer_access(index: usize) -> (r: Option<u8>)
    ensures
        index < buffer_contents().len() ==> r == Some(buffer_contents()[index as int]),
        index >= buffer_contents().len() ==> r is None,
{
    let buffer: Vec<u8> = vec![1u8, 2u8, 3u8, 4u8, 5u8];
    assert(buffer@ =~= buffer_contents());
    if index < buffer.len() {
        Some(buffer[index])
    } else {
        None
    }
}

} // verus!
