//! Sums over the invoice registry, which the protocol's running totals
//! must equal.

use vstd::prelude::*;
use crate::types::{Invoice, RiskVerdict, STATUS_FUNDED, STATUS_SETTLED, STATUS_DEFAULTED};

verus! {

/// The sum of `f` over the items of `s`.
pub open spec fn sum_of<T>(s: Seq<T>, f: spec_fn(T) -> nat) -> nat
    decreases s.len(),
{
    if s.len() == 0 {
        0
    } else {
        sum_of(s.drop_last(), f) + f(s.last())
    }
}

/// Appending an item adds its part to the sum.
pub proof fn lemma_sum_push<T>(s: Seq<T>, x: T, f: spec_fn(T) -> nat)
    ensures
        sum_of(s.push(x), f) == sum_of(s, f) + f(x),
{
    assert(s.push(x).drop_last() =~= s);
}

/// Replacing one item changes the sum by the difference of their parts.
pub proof fn lemma_sum_update<T>(s: Seq<T>, i: int, x: T, f: spec_fn(T) -> nat)
    requires
        0 <= i < s.len(),
    ensures
        sum_of(s.update(i, x), f) + f(s[i]) == sum_of(s, f) + f(x),
    decreases s.len(),
{
    let t = s.update(i, x);
    if i == s.len() - 1 {
        assert(t.drop_last() =~= s.drop_last());
    } else {
        lemma_sum_update(s.drop_last(), i, x, f);
        assert(t.drop_last() =~= s.drop_last().update(i, x));
    }
}

/// What an invoice contributes to the capital advanced by funders.
pub open spec fn funded_part(inv: Invoice) -> nat {
    if inv.status >= STATUS_FUNDED {
        inv.advance_amount@
    } else {
        0
    }
}

/// What an invoice contributes to the face value repaid on settlement.
pub open spec fn settled_part(inv: Invoice) -> nat {
    if inv.status == STATUS_SETTLED {
        inv.face_amount@
    } else {
        0
    }
}

/// What an invoice contributes to the capital written off on default.
pub open spec fn defaulted_part(inv: Invoice) -> nat {
    if inv.status == STATUS_DEFAULTED {
        inv.advance_amount@
    } else {
        0
    }
}

/// What a verdict slot contributes to the data-feed spending.
pub open spec fn x402_part(v: Option<RiskVerdict>) -> nat {
    match v {
        Some(v) => v.x402_cost@,
        None => 0,
    }
}

} // verus!
