//! The size of a segment: a payload's length rounded up to whole pages.

use vstd::prelude::*;
use vstd::arithmetic::div_mod::lemma_fundamental_div_mod;
use vstd::arithmetic::div_mod::lemma_mod_multiples_basic;

verus! {

/// The number of whole pages that hold `len` bytes: `len / page`, rounded up.
pub open spec fn pages_for(len: nat, page: nat) -> nat
    recommends
        page > 0,
{
    if len % page == 0 {
        len / page
    } else {
        len / page + 1
    }
}

/// The size a segment must have to hold `len` bytes: `ceil(len / page) * page`.
pub open spec fn best_size(len: nat, page: nat) -> nat
    recommends
        page > 0,
{
    pages_for(len, page) * page
}

/// `best_size` in closed form: the length itself where it is a multiple of the
/// page size, and else the length filled up to the end of its last page.
pub proof fn lemma_best_size_closed_form(len: nat, page: nat)
    requires
        page > 0,
    ensures
        len % page == 0 ==> best_size(len, page) == len,
        len % page != 0 ==> best_size(len, page) == len + page - len % page,
{
    lemma_fundamental_div_mod(len as int, page as int);
    let q = len / page;
    assert(page * q == q * page) by (nonlinear_arith);
    assert((q + 1) * page == q * page + page) by (nonlinear_arith);
}

/// The rounded size is a multiple of the page size, holds the payload, and
/// wastes less than one page.
pub proof fn lemma_best_size_bounds(len: nat, page: nat)
    requires
        page > 0,
    ensures
        best_size(len, page) % page == 0,
        len <= best_size(len, page) < len + page,
{
    lemma_best_size_closed_form(len, page);
    lemma_mod_multiples_basic(pages_for(len, page) as int, page as int);
}

/// No smaller multiple of the page size holds the payload.
pub proof fn lemma_best_size_least(len: nat, page: nat, k: nat)
    requires
        page > 0,
        len <= k * page,
    ensures
        best_size(len, page) <= k * page,
{
    lemma_best_size_bounds(len, page);
    let p = pages_for(len, page) as int;
    let k = k as int;
    let page = page as int;
    if p > k {
        assert(p * page >= k * page + page) by (nonlinear_arith)
            requires
                p >= k + 1,
                page > 0,
        ;
    } else {
        assert(p * page <= k * page) by (nonlinear_arith)
            requires
                p <= k,
                page > 0,
        ;
    }
}

/// Two lengths that end in the same page round to the same size.
pub proof fn lemma_best_size_same_page(len: nat, other: nat, page: nat)
    requires
        page > 0,
        best_size(len, page) - page < other <= best_size(len, page),
    ensures
        best_size(other, page) == best_size(len, page),
{
    lemma_best_size_bounds(len, page);
    lemma_best_size_bounds(other, page);
    lemma_best_size_least(other, page, pages_for(len, page));
    let p = pages_for(len, page) as int;
    let q = pages_for(other, page) as int;
    let page = page as int;
    if q < p {
        assert(q * page <= p * page - page) by (nonlinear_arith)
            requires
                q <= p - 1,
                page > 0,
        ;
    } else {
        assert(q * page >= p * page) by (nonlinear_arith)
            requires
                q >= p,
                page > 0,
        ;
    }
}

/// Rounds `minimal_size` up to whole pages. `None` says that the rounded size
/// is more than a `usize` holds.
pub fn round_to_pages(minimal_size: usize, page_size: usize) -> (best: Option<usize>)
    requires
        page_size > 0,
    ensures
        best == if best_size(minimal_size as nat, page_size as nat) <= usize::MAX {
            Some(best_size(minimal_size as nat, page_size as nat) as usize)
        } else {
            None
        },
{
    proof {
        lemma_best_size_closed_form(minimal_size as nat, page_size as nat);
    }
    let rest: usize = minimal_size % page_size;
    if rest == 0 {
        Some(minimal_size)
    } else {
        let fill: usize = page_size - rest;
        if minimal_size <= usize::MAX - fill {
            Some(minimal_size + fill)
        } else {
            None
        }
    }
}

} // verus!
