use vstd::prelude::*;

verus! {

/// The bytes a grant takes: the counters word, two words for every upcall,
/// read-only allow and read-write allow slot, padding up to the alignment of
/// the capsule's type `T`, and `T` itself. `word` is the machine word size.
pub open spec fn spec_grant_size(upcalls: usize, allow_ro: usize, allow_rw: usize, t_size: usize, t_align: usize, word: usize) -> int {
    let kernel_managed = word + upcalls * (2 * word) + allow_ro * (2 * word) + allow_rw * (2 * word);
    let mask = (t_align - 1) as usize;
    let padding = ((t_align - ((kernel_managed as usize) & mask)) as usize) & mask;
    kernel_managed + padding + t_size
}

/// The bytes the kernel stores for a grant with these slot counts and a
/// capsule type of this size and alignment, on this machine.
///
/// `t_align` is a type's alignment, so a power of two.
pub fn grant_size(upcalls: usize, allow_ro: usize, allow_rw: usize, t_size: usize, t_align: usize) -> (size: usize)
    requires
        t_align > 0,
        t_align & (t_align - 1) as usize == 0,
        spec_grant_size(upcalls, allow_ro, allow_rw, t_size, t_align, (usize::BITS / 8) as usize) <= usize::MAX,
        (usize::BITS / 8) as int + upcalls * (2 * (usize::BITS / 8) as int) + allow_ro * (2 * (usize::BITS / 8) as int)
            + allow_rw * (2 * (usize::BITS / 8) as int) <= usize::MAX,
    ensures
        size == spec_grant_size(upcalls, allow_ro, allow_rw, t_size, t_align, (usize::BITS / 8) as usize),
{
    broadcast use vstd::layout::layout_of_primitives;
    let word = core::mem::size_of::<usize>();
    assert(word == usize::BITS / 8);
    let slot = 2 * word;
    assert(upcalls * slot <= usize::MAX && allow_ro * slot <= usize::MAX && allow_rw * slot <= usize::MAX) by (nonlinear_arith)
        requires
            word + upcalls * (2 * word) + allow_ro * (2 * word) + allow_rw * (2 * word) <= usize::MAX,
            slot == 2 * word,
            word >= 4,
    ;
    let kernel_managed = word + upcalls * slot + allow_ro * slot + allow_rw * slot;
    let mask = t_align - 1;
    let low = kernel_managed & mask;
    assert(kernel_managed & mask <= mask) by (bit_vector);
    let padding = (t_align - low) & mask;
    assert((t_align - low) as usize & mask <= mask) by (bit_vector);
    kernel_managed + padding + t_size
}

/// The padding puts the capsule's type at an offset that is a multiple of
/// its alignment, and is always less than one alignment.
pub proof fn lemma_padding_aligns(kernel_managed: usize, t_align: usize)
    requires
        t_align > 0,
        t_align & (t_align - 1) as usize == 0,
        kernel_managed + t_align <= usize::MAX,
    ensures
        ({
            let mask = (t_align - 1) as usize;
            let padding = ((t_align - (kernel_managed & mask)) as usize) & mask;
            &&& padding < t_align
            &&& ((kernel_managed + padding) as usize) & mask == 0
        }),
{
    let mask = (t_align - 1) as usize;
    assert(kernel_managed & mask <= mask) by (bit_vector);
    let padding = ((t_align - (kernel_managed & mask)) as usize) & mask;
    assert(padding <= mask) by (bit_vector)
        requires
            padding == ((t_align - (kernel_managed & mask)) as usize) & mask,
    ;
    assert(((kernel_managed + padding) as usize) & mask == 0) by (bit_vector)
        requires
            t_align > 0,
            t_align & (t_align - 1) as usize == 0,
            mask == (t_align - 1) as usize,
            padding == ((t_align - (kernel_managed & mask)) as usize) & mask,
    ;
}

} // verus!
