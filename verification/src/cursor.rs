//! The access-pattern generator: offsets advance by a fixed stride and wrap
//! back into the region by a single subtraction.

use vstd::prelude::*;

verus! {

/// One cursor step: advance `offset` by `stride`, wrapping by a single
/// subtraction of `len`. Meaningful when `offset < len` and `stride < len`,
/// so the sum is always below `2 * len`.
pub open spec fn wrap_add(offset: nat, stride: nat, len: nat) -> nat {
    if offset + stride >= len {
        (offset + stride - len) as nat
    } else {
        offset + stride
    }
}

/// The offset read by the `k`-th access when the effective (already
/// normalized) stride is `stride`: the cursor starts at 0 and takes one
/// `wrap_add` step per access.
pub open spec fn cursor_offset(len: nat, stride: nat, k: nat) -> nat
    decreases k,
{
    if k == 0 {
        0
    } else {
        wrap_add(cursor_offset(len, stride, (k - 1) as nat), stride, len)
    }
}

/// The offset read by the `k`-th access for a configured (not yet
/// normalized) stride: the stride is first reduced modulo the region length.
pub open spec fn offset_seq(len: nat, stride: nat, k: nat) -> nat {
    cursor_offset(len, stride % len, k)
}

/// Every offset the cursor produces lies inside the region: for any region
/// length `len > 0`, any configured stride and any access index `k`,
/// `offset_seq(len, stride, k) < len`.
pub proof fn lemma_offsets_in_bounds(len: nat, stride: nat, k: nat)
    requires
        len > 0,
    ensures
        offset_seq(len, stride, k) < len,
{
    lemma_cursor_in_bounds(len, stride % len, k);
}

/// In-bounds property for an already-normalized stride.
pub proof fn lemma_cursor_in_bounds(len: nat, stride: nat, k: nat)
    requires
        0 < len,
        stride < len,
    ensures
        cursor_offset(len, stride, k) < len,
    decreases k,
{
    if k > 0 {
        lemma_cursor_in_bounds(len, stride, (k - 1) as nat);
    }
}

/// Closed form of the cursor sequence: once the stride is below the region
/// length, the `k`-th offset is exactly `(k * stride) % len`.
pub proof fn lemma_cursor_offset_closed_form(len: nat, stride: nat, k: nat)
    requires
        0 < len,
        stride < len,
    ensures
        cursor_offset(len, stride, k) == (k * stride) % len,
    decreases k,
{
    if k == 0 {
        assert(k * stride == 0) by (nonlinear_arith)
            requires
                k == 0,
        ;
        vstd::arithmetic::div_mod::lemma_small_mod(0, len);
    } else {
        lemma_cursor_offset_closed_form(len, stride, (k - 1) as nat);
        let prev = (((k - 1) as nat) * stride) as int;
        let p = prev % (len as int);
        vstd::arithmetic::div_mod::lemma_mod_division_less_than_divisor(prev, len as int);
        assert(k * stride == prev + stride) by (nonlinear_arith)
            requires
                k > 0,
                prev == ((k - 1) as nat) * stride,
        ;
        assert((p + stride) % (len as int) == (prev + stride) % (len as int)) by {
            vstd::arithmetic::div_mod::lemma_add_mod_noop(prev, stride as int, len as int);
            vstd::arithmetic::div_mod::lemma_small_mod(stride, len);
        }
        if p + stride < len {
            vstd::arithmetic::div_mod::lemma_small_mod((p + stride) as nat, len);
        } else {
            vstd::arithmetic::div_mod::lemma_mod_sub_multiples_vanish(p + stride, len as int);
            vstd::arithmetic::div_mod::lemma_small_mod((p + stride - len) as nat, len);
        }
    }
}

/// Closed form at the configured-stride level: the `k`-th offset is
/// `(k * (stride % len)) % len`.
pub proof fn lemma_offset_seq_closed_form(len: nat, stride: nat, k: nat)
    requires
        len > 0,
    ensures
        offset_seq(len, stride, k) == (k * (stride % len)) % len,
{
    vstd::arithmetic::div_mod::lemma_mod_division_less_than_divisor(stride as int, len as int);
    lemma_cursor_offset_closed_form(len, stride % len, k);
}

/// A stride equal to the region length degenerates to a stride of zero:
/// both configurations produce the constant offset sequence 0, 0, 0, ...
pub proof fn lemma_full_stride_degenerates(len: nat, k: nat)
    requires
        len > 0,
    ensures
        offset_seq(len, len, k) == offset_seq(len, 0, k),
        offset_seq(len, 0, k) == 0,
    decreases k,
{
    assert(len % len == 0) by {
        assert(len == len * 1 + 0) by (nonlinear_arith);
        vstd::arithmetic::div_mod::lemma_fundamental_div_mod_converse_mod(
            len as int, len as int, 1, 0);
    }
    if k > 0 {
        lemma_full_stride_degenerates(len, (k - 1) as nat);
    }
}

/// The first `count` offsets of the access sequence for a region of `len`
/// bytes and a configured stride of `stride` bytes.
pub fn offsets(len: usize, stride: usize, count: usize) -> (r: Vec<usize>)
    requires
        len > 0,
    ensures
        r@.len() == count,
        forall|k: int| 0 <= k < count ==> r@[k] == offset_seq(len as nat, stride as nat, k as nat),
{
    let s = stride % len;
    let mut r: Vec<usize> = Vec::new();
    let mut i: usize = 0;
    let mut done: usize = 0;
    while done < count
        invariant
            done <= count,
            r@.len() == done,
            s == stride % len,
            s < len,
            0 < len,
            i < len,
            i == cursor_offset(len as nat, s as nat, done as nat),
            forall|k: int| 0 <= k < done ==> r@[k] == offset_seq(len as nat, stride as nat, k as nat),
        decreases count - done,
    {
        r.push(i);
        i = if s >= len - i {
            s - (len - i)
        } else {
            i + s
        };
        done = done + 1;
    }
    r
}

} // verus!
