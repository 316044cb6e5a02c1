//! Layout arithmetic of the shared allocation behind an object `Arc`.
use vstd::prelude::*;

verus! {

broadcast use vstd::layout::layout_of_primitives;

/// The smallest multiple of `align` that is at least `size`.
pub open spec fn round_up(size: nat, align: nat) -> nat
    recommends
        align > 0,
{
    if size % align == 0 {
        size
    } else {
        (size + (align - size % align)) as nat
    }
}

/// Size in bytes of the header of the shared allocation: the strong and the
/// weak counter, one `usize` each.
pub open spec fn header_size() -> nat {
    2 * vstd::layout::size_of::<usize>()
}

/// Offset of the value from the start of the shared allocation, for a value
/// of alignment `align`: the header, padded up to that alignment.
pub fn data_offset_align(align: usize) -> (off: isize)
    requires
        0 < align <= isize::MAX / 2,
    ensures
        off == round_up(header_size(), align as nat),
        off >= header_size(),
        (off as int) % (align as int) == 0,
{
    let size: usize = 2 * core::mem::size_of::<usize>();
    let rem: usize = size % align;
    let padded: usize = if rem == 0 { size } else { size + (align - rem) };
    proof {
        assert(size == header_size());
        if rem != 0 {
            vstd::arithmetic::div_mod::lemma_fundamental_div_mod(size as int, align as int);
            assert((size + (align - rem)) as int == align * (size as int / align as int) + align);
            vstd::arithmetic::div_mod::lemma_mod_multiples_basic(size as int / align as int + 1, align as int);
            assert(align * (size as int / align as int) + align == (size as int / align as int + 1) * align) by (nonlinear_arith);
        }
    }
    padded as isize
}

/// A weak pointer that was never attached to an allocation holds the
/// sentinel address `usize::MAX`.
pub fn is_dangling(addr: usize) -> (b: bool)
    ensures
        b <==> addr == usize::MAX,
{
    addr == usize::MAX
}

} // verus!
