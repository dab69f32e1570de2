//! Byte views of plain data, as uploaded into GPU buffers.
use vstd::prelude::*;
use vstd::bytes::spec_u32_to_le_bytes;

verus! {

/// The four bytes of `x` in big-endian order.
pub open spec fn spec_u32_to_be_bytes(x: u32) -> Seq<u8> {
    spec_u32_to_le_bytes(x).reverse()
}

/// Whether `bytes` holds the values one after the other, each as its four
/// little-endian bytes.
pub open spec fn all_le(values: Seq<u32>, bytes: Seq<u8>) -> bool {
    &&& bytes.len() == 4 * values.len()
    &&& forall|i: int|
        0 <= i < values.len() ==> #[trigger] bytes.subrange(4 * i, 4 * i + 4) == spec_u32_to_le_bytes(
            values[i],
        )
}

/// Whether `bytes` holds the values one after the other, each as its four
/// big-endian bytes.
pub open spec fn all_be(values: Seq<u32>, bytes: Seq<u8>) -> bool {
    &&& bytes.len() == 4 * values.len()
    &&& forall|i: int|
        0 <= i < values.len() ==> #[trigger] bytes.subrange(4 * i, 4 * i + 4) == spec_u32_to_be_bytes(
            values[i],
        )
}

/// Copies the bytes of `values`, four per value, in the machine's byte order,
/// through `bytemuck::cast_slice::<u32, u8>`.
///
/// Trusted: bytemuck reinterprets the memory of the slice, so each value
/// becomes the four bytes it is stored as, one value after the other. The
/// machine stores every `u32` in one byte order, little-endian or
/// big-endian; which one is left open.
#[verifier::external_body]
pub(crate) fn u32s_to_bytes(values: &[u32]) -> (bytes: Vec<u8>)
    ensures
        all_le(values@, bytes@) || all_be(values@, bytes@),
{
    bytemuck::cast_slice::<u32, u8>(values).to_vec()
}

} // verus!
