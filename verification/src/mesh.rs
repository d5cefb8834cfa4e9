//! The index data of the mesh, as the graphics device takes it.
use vstd::prelude::*;

verus! {

/// `bytes` holds `indices` one after the other, two bytes each, the low
/// byte first.
pub open spec fn low_byte_first(bytes: Seq<u8>, indices: Seq<u16>) -> bool {
    &&& bytes.len() == 2 * indices.len()
    &&& forall|i: int|
        0 <= i < indices.len() ==> bytes[2 * i] + 256 * bytes[2 * i + 1] == #[trigger] indices[i]
}

/// `bytes` holds `indices` one after the other, two bytes each, the high
/// byte first.
pub open spec fn high_byte_first(bytes: Seq<u8>, indices: Seq<u16>) -> bool {
    &&& bytes.len() == 2 * indices.len()
    &&& forall|i: int|
        0 <= i < indices.len() ==> 256 * bytes[2 * i] + bytes[2 * i + 1] == #[trigger] indices[i]
}

/// The contents of an index buffer, and the number of indices in it.
#[derive(Debug, PartialEq, Eq)]
pub struct IndexBuffer {
    pub contents: Vec<u8>,
    pub num_indices: u32,
}

/// The bytes of `indices` as they lie in memory.
///
/// Calls `bytemuck::cast_slice` from `u16` to `u8`, which reads the same
/// memory as bytes and cannot fail in this direction: every index gives
/// two bytes, in the byte order of the machine. The contract claims that
/// much and leaves open which of the two orders it is.
#[verifier::external_body]
fn index_bytes(indices: &[u16]) -> (bytes: Vec<u8>)
    ensures
        low_byte_first(bytes@, indices@) || high_byte_first(bytes@, indices@),
{
    bytemuck::cast_slice::<u16, u8>(indices).to_vec()
}

/// The index buffer for `indices`; `None` when there are more indices
/// than one draw can cover.
pub fn index_buffer(indices: &[u16]) -> (r: Option<IndexBuffer>)
    ensures
        r is Some <==> indices@.len() <= u32::MAX,
        r matches Some(buffer) ==> {
            &&& buffer.num_indices == indices@.len()
            &&& (low_byte_first(buffer.contents@, indices@) || high_byte_first(
                buffer.contents@,
                indices@,
            ))
        },
{
    if indices.len() > u32::MAX as usize {
        return None;
    }
    let contents = index_bytes(indices);
    Some(IndexBuffer { contents, num_indices: indices.len() as u32 })
}

} // verus!
