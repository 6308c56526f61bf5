//! Pixel channel reordering between the capture backend's native BGRA
//! layout and the canonical RGBA layout of the output buffers.
use vstd::prelude::*;

verus! {

/// The buffer with the first and third channel of each 4-byte pixel
/// exchanged; trailing bytes that do not make up a whole pixel are
/// dropped. Swapping is its own inverse on whole-pixel buffers.
pub open spec fn spec_channel_swapped(data: Seq<u8>) -> Seq<u8> {
    Seq::new(
        (data.len() / 4) * 4,
        |i: int|
            if i % 4 == 0 {
                data[i + 2]
            } else if i % 4 == 2 {
                data[i - 2]
            } else {
                data[i]
            },
    )
}

/// Converts a BGRA byte buffer into RGBA order: within every 4-byte
/// pixel the blue and red channels trade places while the green and
/// alpha channels are kept byte-exact. Only whole pixels are emitted.
pub fn bgra_to_rgba(bgra_data: &[u8]) -> (r: Vec<u8>)
    ensures
        r@ == spec_channel_swapped(bgra_data@),
{
    let n: usize = bgra_data.len();
    let pixel_count: usize = n / 4;
    let mut rgba_data: Vec<u8> = Vec::new();
    assert(4 * pixel_count <= n) by {
        assert(n == 4 * (n / 4) + n % 4);
    }
    let mut i: usize = 0;
    while i < pixel_count
        invariant
            i <= pixel_count,
            n == bgra_data@.len(),
            pixel_count == bgra_data@.len() / 4,
            4 * pixel_count <= n,
            rgba_data@.len() == 4 * i,
            forall|j: int|
                0 <= j < 4 * i ==> rgba_data@[j] == spec_channel_swapped(bgra_data@)[j],
        decreases pixel_count - i,
    {
        assert(i * 4 + 4 <= 4 * pixel_count);
        let base: usize = i * 4;
        rgba_data.push(bgra_data[base + 2]);
        rgba_data.push(bgra_data[base + 1]);
        rgba_data.push(bgra_data[base]);
        rgba_data.push(bgra_data[base + 3]);
        i = i + 1;
    }
    assert(rgba_data@ =~= spec_channel_swapped(bgra_data@));
    rgba_data
}

/// Applying the channel swap twice restores a whole-pixel buffer
/// byte-exactly: the reordering is a round trip.
pub proof fn lemma_channel_swap_round_trip(data: Seq<u8>)
    requires
        data.len() % 4 == 0,
    ensures
        spec_channel_swapped(spec_channel_swapped(data)) == data,
{
    let once = spec_channel_swapped(data);
    assert(once.len() == data.len());
    assert(spec_channel_swapped(once) =~= data);
}

} // verus!
