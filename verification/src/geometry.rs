//! Row alignment and linear buffer sizing for texture readback.
//!
//! A GPU copies a texture into a linear buffer row by row, and every row of
//! the buffer starts at a multiple of an alignment that the backend dictates.
//! The functions here compute the padded row length and the size of the whole
//! buffer for a given image size, pixel size and alignment.
use vstd::prelude::*;

verus! {

/// `n` rounded up to the next multiple of `alignment`.
pub open spec fn align_up(n: nat, alignment: nat) -> nat
    recommends
        alignment > 0,
{
    if n % alignment == 0 {
        n
    } else {
        (n + alignment - n % alignment) as nat
    }
}

/// Whether `m` is a whole number of alignment units.
pub open spec fn is_multiple_of(m: nat, alignment: nat) -> bool
    recommends
        alignment > 0,
{
    m % alignment == 0
}

/// Length in bytes of one dense image row.
pub open spec fn row_bytes_of(width: nat, bytes_per_pixel: nat) -> nat {
    width * bytes_per_pixel
}

/// Length in bytes of one image row inside an aligned readback buffer.
pub open spec fn padded_row_bytes_of(width: nat, bytes_per_pixel: nat, alignment: nat) -> nat
    recommends
        alignment > 0,
{
    align_up(row_bytes_of(width, bytes_per_pixel), alignment)
}

/// Size in bytes of the readback buffer of an image.
pub open spec fn buffer_size_of(
    width: nat,
    height: nat,
    bytes_per_pixel: nat,
    alignment: nat,
) -> nat
    recommends
        alignment > 0,
{
    padded_row_bytes_of(width, bytes_per_pixel, alignment) * height
}

/// `align_up(n, alignment)` is the least multiple of `alignment` that is not
/// below `n`: it is a multiple, it lies in `n .. n + alignment`, and no
/// multiple lies strictly between `n` and it.
pub proof fn lemma_align_up_is_least_multiple(n: nat, alignment: nat)
    requires
        alignment > 0,
    ensures
        is_multiple_of(align_up(n, alignment), alignment),
        n <= align_up(n, alignment) < n + alignment,
        forall|m: nat|
            n <= m && #[trigger] is_multiple_of(m, alignment) ==> align_up(n, alignment) <= m,
{
    let a = alignment as int;
    let r = (n as int) % a;
    let q = (n as int) / a;
    assert(n as int == a * q + r && 0 <= r < a) by {
        vstd::arithmetic::div_mod::lemma_fundamental_div_mod(n as int, a);
        vstd::arithmetic::div_mod::lemma_mod_bound(n as int, a);
    }
    if r == 0 {
    } else {
        let up = n as int + a - r;
        assert(up == a * (q + 1)) by (nonlinear_arith)
            requires
                n as int == a * q + r,
                up == n as int + a - r,
        ;
        assert(up % a == 0) by {
            vstd::arithmetic::div_mod::lemma_mod_multiples_basic(q + 1, a);
            assert(a * (q + 1) == (q + 1) * a) by (nonlinear_arith);
        }
    }
    assert forall|m: nat| n <= m && #[trigger] is_multiple_of(m, alignment) implies align_up(
        n,
        alignment,
    ) <= m by {
        if r != 0 {
            let k = (m as int) / a;
            assert(m as int == a * k) by {
                vstd::arithmetic::div_mod::lemma_fundamental_div_mod(m as int, a);
            }
            assert(k >= q + 1) by (nonlinear_arith)
                requires
                    a * k >= a * q + r,
                    r > 0,
                    a > 0,
            ;
            assert(a * k >= a * (q + 1)) by (nonlinear_arith)
                requires
                    k >= q + 1,
                    a > 0,
            ;
            assert(n as int + a - r == a * (q + 1)) by (nonlinear_arith)
                requires
                    n as int == a * q + r,
            ;
        }
    }
}

/// Rounds `row_bytes` up to the next multiple of `alignment`.
pub fn align_copy_bytes_per_row(row_bytes: usize, alignment: usize) -> (aligned: usize)
    requires
        alignment > 0,
        align_up(row_bytes as nat, alignment as nat) <= usize::MAX,
    ensures
        aligned == align_up(row_bytes as nat, alignment as nat),
{
    let rem: usize = row_bytes % alignment;
    if rem == 0 {
        row_bytes
    } else {
        row_bytes + (alignment - rem)
    }
}

/// Rounds `row_bytes` up to the next multiple of `alignment`, or returns
/// `None` where the rounded value does not fit the machine word.
pub fn checked_align_copy_bytes_per_row(row_bytes: usize, alignment: usize) -> (aligned: Option<
    usize,
>)
    requires
        alignment > 0,
    ensures
        aligned.is_some() <==> align_up(row_bytes as nat, alignment as nat) <= usize::MAX,
        aligned.is_some() ==> aligned.unwrap() == align_up(row_bytes as nat, alignment as nat),
{
    let rem: usize = row_bytes % alignment;
    if rem == 0 {
        Some(row_bytes)
    } else if alignment - rem <= usize::MAX - row_bytes {
        Some(row_bytes + (alignment - rem))
    } else {
        None
    }
}

/// The padded length in bytes of one row of an image `width` pixels wide.
///
/// The result always fits: a row of `u32::MAX` pixels of `u32::MAX` bytes,
/// rounded up by less than `u32::MAX`, stays below `2^64`.
pub fn padded_bytes_per_row(width: u32, bytes_per_pixel: u32, alignment: u32) -> (padded: u64)
    requires
        alignment > 0,
    ensures
        padded == padded_row_bytes_of(width as nat, bytes_per_pixel as nat, alignment as nat),
        padded % (alignment as u64) == 0,
        width * bytes_per_pixel <= padded < width * bytes_per_pixel + alignment,
{
    proof {
        assert(width * bytes_per_pixel <= 0xffff_ffff * 0xffff_ffff) by (nonlinear_arith)
            requires
                width <= 0xffff_ffff,
                bytes_per_pixel <= 0xffff_ffff,
        ;
        lemma_align_up_is_least_multiple(
            row_bytes_of(width as nat, bytes_per_pixel as nat),
            alignment as nat,
        );
    }
    let row: u64 = (width as u64) * (bytes_per_pixel as u64);
    let a: u64 = alignment as u64;
    let rem: u64 = row % a;
    if rem == 0 {
        row
    } else {
        row + (a - rem)
    }
}

/// The size in bytes of the linear buffer that receives an image of the given
/// dimensions: the padded row length times the number of rows.
pub fn buffer_size(dimensions: (u32, u32), bytes_per_pixel: u32, alignment: u32) -> (size: u64)
    requires
        alignment > 0,
        buffer_size_of(
            dimensions.0 as nat,
            dimensions.1 as nat,
            bytes_per_pixel as nat,
            alignment as nat,
        ) <= u64::MAX,
    ensures
        size == buffer_size_of(
            dimensions.0 as nat,
            dimensions.1 as nat,
            bytes_per_pixel as nat,
            alignment as nat,
        ),
{
    let padded: u64 = padded_bytes_per_row(dimensions.0, bytes_per_pixel, alignment);
    padded * (dimensions.1 as u64)
}

/// The size in bytes of the readback buffer, or `None` where it exceeds
/// `u64::MAX`.
pub fn checked_buffer_size(dimensions: (u32, u32), bytes_per_pixel: u32, alignment: u32) -> (size:
    Option<u64>)
    requires
        alignment > 0,
    ensures
        size.is_some() <==> buffer_size_of(
            dimensions.0 as nat,
            dimensions.1 as nat,
            bytes_per_pixel as nat,
            alignment as nat,
        ) <= u64::MAX,
        size.is_some() ==> size.unwrap() == buffer_size_of(
            dimensions.0 as nat,
            dimensions.1 as nat,
            bytes_per_pixel as nat,
            alignment as nat,
        ),
{
    let padded: u64 = padded_bytes_per_row(dimensions.0, bytes_per_pixel, alignment);
    padded.checked_mul(dimensions.1 as u64)
}

} // verus!
