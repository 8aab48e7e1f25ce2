//! Frame layout of the spectrum analyzer: the FFT size, how much input a
//! frame takes and how many magnitude bins it yields.
use vstd::prelude::*;

verus! {

/// `n` is a power of two.
pub open spec fn is_pow2(n: nat) -> bool
    decreases n,
{
    if n == 1 {
        true
    } else if n == 0 || n % 2 == 1 {
        false
    } else {
        is_pow2(n / 2)
    }
}

/// The FFT size for a requested size: the smallest power of two not below it
/// (1 for a request of 0).
pub fn fft_size_for(requested: usize) -> (r: usize)
    requires
        requested <= usize::MAX / 2 + 1,
    ensures
        is_pow2(r as nat),
        requested <= r,
        r == 1 || r / 2 < requested,
{
    let mut size: usize = 1;
    while size < requested
        invariant
            is_pow2(size as nat),
            size == 1 || size / 2 < requested,
            size >= 1,
            requested <= usize::MAX / 2 + 1,
        decreases usize::MAX - size,
    {
        assert(is_pow2((size * 2) as nat));
        size = size * 2;
    }
    size
}

/// How many input samples a frame of `fft_size` takes from `input_len`
/// available; the rest of the frame is zero padding.
pub fn frame_len(input_len: usize, fft_size: usize) -> (r: usize)
    ensures
        r == if input_len < fft_size {
            input_len
        } else {
            fft_size
        },
{
    if input_len < fft_size {
        input_len
    } else {
        fft_size
    }
}

/// How many magnitude bins are written to an output of `output_len`: the
/// positive-frequency half of the spectrum, or less if the output is shorter.
pub fn bin_count(output_len: usize, fft_size: usize) -> (r: usize)
    ensures
        r == if output_len < fft_size / 2 {
            output_len
        } else {
            fft_size / 2
        },
{
    let half = fft_size / 2;
    if output_len < half {
        output_len
    } else {
        half
    }
}

} // verus!
