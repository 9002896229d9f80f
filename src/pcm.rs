use vstd::prelude::*;

verus! {

/// Converts an unsigned 8-bit PCM sample, whose silence level is 128, into
/// the signed sample with silence at 0.
pub fn pcm8_to_signed(x: u8) -> (r: i8)
    ensures
        r as int == x as int - 128,
{
    let flipped: u8 = x ^ 0x80u8;
    assert(flipped as int == if x < 128 { x as int + 128 } else { x as int - 128 }) by (bit_vector)
        requires
            flipped == x ^ 0x80u8,
    ;
    if flipped < 128 {
        flipped as i8
    } else {
        (flipped as i16 - 256) as i8
    }
}

/// Whether a rounded sample value can be stored as 16-bit PCM.
pub open spec fn fits_i16(v: i64) -> bool {
    i16::MIN <= v <= i16::MAX
}

/// Stores rounded sample values as 16-bit PCM. Refuses the whole buffer with
/// `None` when any value lies outside the 16-bit range: writing it would clip.
pub fn pcm16_from_rounded(values: &Vec<i64>) -> (r: Option<Vec<i16>>)
    ensures
        r is Some <==> forall|i: int| 0 <= i < values@.len() ==> fits_i16(#[trigger] values@[i]),
        r is Some ==> r->Some_0@.len() == values@.len() && forall|i: int|
            0 <= i < values@.len() ==> #[trigger] r->Some_0@[i] as i64 == values@[i],
{
    let mut out: Vec<i16> = Vec::new();
    let mut i: usize = 0;
    while i < values.len()
        invariant
            i <= values@.len(),
            out@.len() == i,
            forall|j: int| 0 <= j < i ==> fits_i16(#[trigger] values@[j]),
            forall|j: int| 0 <= j < i ==> #[trigger] out@[j] as i64 == values@[j],
        decreases values@.len() - i,
    {
        let v = values[i];
        if v < -32768 || v > 32767 {
            return None;
        }
        out.push(v as i16);
        i = i + 1;
    }
    Some(out)
}

} // verus!
