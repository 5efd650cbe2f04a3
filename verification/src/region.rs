//! The memory-region model: the page-granularity constant, the rounding of a
//! requested length up to a whole number of pages, and the page-residency
//! advice modes.

use vstd::prelude::*;

verus! {

/// The fixed mapping granularity in bytes (the huge-page size). Every mapped
/// length is a whole multiple of it, in both advice modes.
pub const PAGE_GRANULARITY: usize = 2097152;

/// Page-residency advice for a region: `Normal` discourages transparent
/// huge-page promotion, `Huge` requests huge-page backing outright.
#[derive(Clone, Copy, Debug, PartialEq, Eq, Structural)]
pub enum Advice {
    Normal,
    Huge,
}

impl Advice {
    /// Whether this advice mode asks for huge-page backing.
    pub fn is_huge(&self) -> (r: bool)
        ensures
            r == (*self is Huge),
    {
        match self {
            Advice::Normal => false,
            Advice::Huge => true,
        }
    }
}

/// `requested` rounded up to the nearest multiple of the page granularity.
pub open spec fn rounded_len(requested: nat) -> nat {
    if requested % (PAGE_GRANULARITY as nat) == 0 {
        requested
    } else {
        (requested + ((PAGE_GRANULARITY as nat) - requested % (PAGE_GRANULARITY as nat))) as nat
    }
}

/// The sizes of one region: the caller-visible logical length and the
/// page-rounded mapped length that the mapping itself uses.
pub struct RegionLayout {
    /// The originally requested length; callers index `[0, logical_len)`.
    pub logical_len: usize,
    /// The length actually mapped: `logical_len` rounded up to a whole
    /// multiple of `PAGE_GRANULARITY`.
    pub mapped_len: usize,
}

impl RegionLayout {
    /// The layout invariant: the mapped length covers the logical length, is
    /// an exact page multiple, and carries less than one page of padding.
    pub open spec fn wf(self) -> bool {
        &&& 0 < self.logical_len
        &&& self.logical_len <= self.mapped_len
        &&& (self.mapped_len as nat) % (PAGE_GRANULARITY as nat) == 0
        &&& self.mapped_len < self.logical_len + PAGE_GRANULARITY
    }

    /// Plan a region for `requested` bytes: the logical length is kept as
    /// given and the mapped length is rounded up to a page multiple.
    pub fn plan(requested: usize) -> (r: Self)
        requires
            0 < requested,
            requested <= usize::MAX - PAGE_GRANULARITY + 1,
        ensures
            r.wf(),
            r.logical_len == requested,
            r.mapped_len == rounded_len(requested as nat),
    {
        let rem = requested % PAGE_GRANULARITY;
        let mapped = if rem == 0 {
            requested
        } else {
            requested + (PAGE_GRANULARITY - rem)
        };
        proof {
            if rem != 0 {
                let q = requested as int / PAGE_GRANULARITY as int;
                assert(requested as int == PAGE_GRANULARITY * q + rem) by {
                    vstd::arithmetic::div_mod::lemma_fundamental_div_mod(
                        requested as int, PAGE_GRANULARITY as int);
                }
                assert(mapped as int == PAGE_GRANULARITY * (q + 1)) by (nonlinear_arith)
                    requires
                        requested as int == PAGE_GRANULARITY * q + rem,
                        mapped == requested + (PAGE_GRANULARITY - rem),
                ;
                assert(mapped as int % PAGE_GRANULARITY as int == 0) by {
                    vstd::arithmetic::div_mod::lemma_mod_multiples_basic(
                        q + 1, PAGE_GRANULARITY as int);
                }
            }
        }
        RegionLayout { logical_len: requested, mapped_len: mapped }
    }
}

/// The extra diagnostic appended when mapping fails: under `Huge` advice it
/// points at the pre-reserved huge-page pool; otherwise it is empty.
pub fn mmap_failure_hint(advice: Advice) -> (r: &'static str)
    ensures
        advice is Huge ==> r@ == "\n(what's the value of /proc/sys/vm/nr_hugepages?)"@,
        advice is Normal ==> r@ == ""@,
{
    match advice {
        Advice::Normal => "",
        Advice::Huge => "\n(what's the value of /proc/sys/vm/nr_hugepages?)",
    }
}

} // verus!
