use vstd::prelude::*;

verus! {

/// The signed 16-bit sample that an unsigned 16-bit microphone sample stands
/// for: the unsigned range is shifted down by half, so that its midpoint
/// 32768 becomes silence.
pub open spec fn signed_sample(sample: u16) -> int {
    sample - 32768
}

/// An unsigned sample as the signed sample that is written to the WAV file.
pub fn sample_from_u16(sample: u16) -> (r: i16)
    ensures
        r == signed_sample(sample),
{
    (sample as i32 - 32768) as i16
}

/// A buffer of unsigned samples as the signed samples written to the WAV file,
/// in the same order.
pub fn samples_from_u16(data: &[u16]) -> (r: Vec<i16>)
    ensures
        r@.len() == data@.len(),
        forall|i: int| 0 <= i < data@.len() ==> r@[i] == signed_sample(#[trigger] data@[i]),
{
    let mut out: Vec<i16> = Vec::new();
    let mut i: usize = 0;
    while i < data.len()
        invariant
            i <= data@.len(),
            out@.len() == i,
            forall|j: int| 0 <= j < i ==> out@[j] == signed_sample(#[trigger] data@[j]),
        decreases data@.len() - i,
    {
        out.push(sample_from_u16(data[i]));
        i = i + 1;
    }
    out
}

/// The conversion keeps the order of samples and loses none: louder in, louder
/// out, and the full unsigned range maps onto the full signed range.
pub proof fn law_sample_conversion_is_order_preserving(a: u16, b: u16)
    ensures
        a < b <==> signed_sample(a) < signed_sample(b),
        a == b <==> signed_sample(a) == signed_sample(b),
        signed_sample(0) == i16::MIN,
        signed_sample(u16::MAX) == i16::MAX,
{
}

} // verus!
