//! Normalization of caller-supplied pagination parameters.
//!
//! A listing request may carry an optional `page` and an optional `per_page`.
//! Resolution substitutes a fixed default for each absent value and passes a
//! present value through unchanged, whatever it is: absence is the only
//! condition handled, and resolution never fails.

use vstd::prelude::*;

verus! {

/// Default for an absent `page`.
pub const DEFAULT_PAGE: u64 = 1;

/// Default for an absent `per_page`.
pub const DEFAULT_PER_PAGE: u64 = 10;

/// Pagination parameters as supplied by the caller: each may be absent.
#[derive(Clone, Copy, Debug, PartialEq, Eq)]
pub struct PaginationRequest {
    pub page: Option<u64>,
    pub per_page: Option<u64>,
}

/// Concrete pagination values, both always present.
#[derive(Clone, Copy, Debug, PartialEq, Eq)]
pub struct PaginationResolved {
    pub page: u64,
    pub per_page: u64,
}

/// What resolution returns: each supplied value unchanged, the default where
/// the value is absent.
pub open spec fn resolved_of(req: PaginationRequest) -> PaginationResolved {
    PaginationResolved {
        page: match req.page {
            Some(p) => p,
            None => DEFAULT_PAGE,
        },
        per_page: match req.per_page {
            Some(pp) => pp,
            None => DEFAULT_PER_PAGE,
        },
    }
}

impl PaginationRequest {
    /// Substitute the defaults for absent values. Pure and total: no input is
    /// rejected, and a supplied value (zero included) passes through unchanged.
    pub fn resolve(&self) -> (r: PaginationResolved)
        ensures
            r == resolved_of(*self),
    {
        PaginationResolved {
            page: match self.page {
                Some(p) => p,
                None => DEFAULT_PAGE,
            },
            per_page: match self.per_page {
                Some(pp) => pp,
                None => DEFAULT_PER_PAGE,
            },
        }
    }
}

/// Law: when both values are supplied, resolution returns them unchanged,
/// whatever they are.
pub proof fn lemma_resolve_supplied(req: PaginationRequest, p: u64, pp: u64)
    requires
        req.page == Some(p),
        req.per_page == Some(pp),
    ensures
        resolved_of(req) == (PaginationResolved { page: p, per_page: pp }),
{
}

/// Law: when `page` is absent, the resolved page is the default, whatever
/// `per_page` holds.
pub proof fn lemma_resolve_page_default(req: PaginationRequest)
    requires
        req.page is None,
    ensures
        resolved_of(req).page == DEFAULT_PAGE,
{
}

/// Law: when `per_page` is absent, the resolved per-page count is the
/// default, whatever `page` holds.
pub proof fn lemma_resolve_per_page_default(req: PaginationRequest)
    requires
        req.per_page is None,
    ensures
        resolved_of(req).per_page == DEFAULT_PER_PAGE,
{
}

/// Law: when both values are absent, both defaults are returned.
pub proof fn lemma_resolve_both_default(req: PaginationRequest)
    requires
        req.page is None,
        req.per_page is None,
    ensures
        resolved_of(req) == (PaginationResolved { page: DEFAULT_PAGE, per_page: DEFAULT_PER_PAGE }),
{
}

/// Law: resolution is deterministic. Two results obtained from the same
/// request are identical.
pub proof fn lemma_resolve_deterministic(req: PaginationRequest, r1: PaginationResolved, r2: PaginationResolved)
    requires
        r1 == resolved_of(req),
        r2 == resolved_of(req),
    ensures
        r1 == r2,
{
}

/// Law: resolution is idempotent. Feeding a resolved pair back in as a fully
/// supplied request resolves to the same pair.
pub proof fn lemma_resolve_idempotent(req: PaginationRequest)
    ensures
        resolved_of(
            PaginationRequest {
                page: Some(resolved_of(req).page),
                per_page: Some(resolved_of(req).per_page),
            },
        ) == resolved_of(req),
{
}

} // verus!
