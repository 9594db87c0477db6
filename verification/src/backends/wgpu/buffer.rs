use vstd::prelude::*;

verus! {

/// The bytes of a list of `u16`, each value low byte first.
pub open spec fn le_bytes(s: Seq<u16>) -> Seq<u8> {
    Seq::new(
        2 * s.len(),
        |k: int|
            if k % 2 == 0 {
                (s[k / 2] % 256) as u8
            } else {
                (s[k / 2] / 256) as u8
            },
    )
}

/// The bytes of a list of `u16`, each value high byte first.
pub open spec fn be_bytes(s: Seq<u16>) -> Seq<u8> {
    Seq::new(
        2 * s.len(),
        |k: int|
            if k % 2 == 0 {
                (s[k / 2] / 256) as u8
            } else {
                (s[k / 2] % 256) as u8
            },
    )
}

/// Calls `bytemuck::cast_slice::<u16, u8>`, which views the memory of the
/// slice as bytes (it cannot fail for this pair of types), and copies the
/// bytes out. The bytes are each value in the machine's byte order, which is
/// low byte first or high byte first for the whole slice; the contract says
/// no more than that one of the two holds.
#[verifier::external_body]
fn cast_u16_slice_to_bytes(values: &[u16]) -> (r: Vec<u8>)
    ensures
        r@ == le_bytes(values@) || r@ == be_bytes(values@),
{
    bytemuck::cast_slice::<u16, u8>(values).to_vec()
}

/// The contents of the GPU index buffer for the given indices: two bytes per
/// index, in the machine's byte order.
pub fn index_buffer_contents(indices: &Vec<u16>) -> (r: Vec<u8>)
    ensures
        r@.len() == 2 * indices@.len(),
        r@ == le_bytes(indices@) || r@ == be_bytes(indices@),
{
    cast_u16_slice_to_bytes(indices.as_slice())
}

/// Whichever byte order the machine has, index `i` can be read back from
/// its two bytes.
pub proof fn lemma_index_bytes_round_trip(s: Seq<u16>, bytes: Seq<u8>, i: int)
    requires
        bytes == le_bytes(s) || bytes == be_bytes(s),
        0 <= i < s.len(),
    ensures
        bytes == le_bytes(s) ==> bytes[2 * i] + 256 * bytes[2 * i + 1] == s[i],
        bytes == be_bytes(s) ==> 256 * bytes[2 * i] + bytes[2 * i + 1] == s[i],
{
    assert((2 * i) / 2 == i && (2 * i) % 2 == 0);
    assert((2 * i + 1) / 2 == i && (2 * i + 1) % 2 == 1);
    let v = s[i];
    assert(v % 256 + 256 * (v / 256) == v) by (nonlinear_arith);
    assert(v / 256 < 256) by (nonlinear_arith)
        requires v < 65536;
}

} // verus!
