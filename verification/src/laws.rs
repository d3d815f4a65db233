//! Properties of the protocol as a whole, proved over the state views.

use vstd::prelude::*;
use crate::address::Address;
use crate::ledger::{sum_of, funded_part, defaulted_part};
use crate::motes::{bps_of, lemma_bps_of_le, Motes};
use crate::protocol::{
    AgriTrustView, evolves, invoice_evolves, status_reaches, fund_error, other_than, funded_fn,
    defaulted_fn, registered_invoice, verdict_of, lemma_filter_no_duplicates, init_error,
    owner_error, set_fee_error, register_error, post_verdict_error, repay_error, default_error,
};
use crate::types::{Error, Invoice, STATUS_EVALUATED, STATUS_FUNDED, STATUS_REGISTERED, STATUS_SETTLED,
    STATUS_DEFAULTED};

verus! {

/// Any state can follow itself.
pub proof fn lemma_evolves_reflexive(a: AgriTrustView)
    ensures
        evolves(a, a),
{
}

/// Following is transitive: along any sequence of calls, invoices are never
/// removed nor their registered data changed, statuses only move forward,
/// verdicts stay and no total decreases.
pub proof fn lemma_evolves_transitive(a: AgriTrustView, b: AgriTrustView, c: AgriTrustView)
    requires
        evolves(a, b),
        evolves(b, c),
    ensures
        evolves(a, c),
{
    assert forall|i: int| #![trigger c.invoices[i]]
        0 <= i < a.invoices.len() implies invoice_evolves(a.invoices[i], c.invoices[i]) by {
        assert(invoice_evolves(a.invoices[i], b.invoices[i]));
        assert(invoice_evolves(b.invoices[i], c.invoices[i]));
    }
    assert forall|i: int| #![trigger c.verdicts[i]]
        0 <= i < a.verdicts.len() && a.verdicts[i] is Some implies c.verdicts[i]
        == a.verdicts[i] by {
        assert(b.verdicts[i] == a.verdicts[i]);
    }
}

/// Settled and defaulted invoices are final: no later state changes their
/// status.
pub proof fn lemma_terminal_statuses(a: AgriTrustView, b: AgriTrustView, id: u64)
    requires
        evolves(a, b),
        a.has_invoice(id),
        a.invoice(id).status == STATUS_SETTLED || a.invoice(id).status == STATUS_DEFAULTED,
    ensures
        b.invoice(id).status == a.invoice(id).status,
{
    assert(invoice_evolves(a.invoices[id as int], b.invoices[id as int]));
}

/// Every invoice that was funded got at most the share of its face value
/// that its verdict allows, and so at most its face value.
pub proof fn lemma_advance_within_cap(s: AgriTrustView, id: u64)
    requires
        s.wf(),
        s.has_invoice(id),
        s.invoice(id).status >= STATUS_FUNDED,
    ensures
        s.verdicts[id as int] is Some,
        0 < s.invoice(id).advance_amount@ <= bps_of(
            s.invoice(id).face_amount@,
            verdict_of(s, id).max_advance_bps as nat,
        ),
        s.invoice(id).advance_amount@ <= s.invoice(id).face_amount@,
{
    let i = id as int;
    assert(crate::protocol::invoice_wf(i, s.invoices[i], s.verdicts[i]));
    lemma_bps_of_le(s.invoice(id).face_amount@, verdict_of(s, id).max_advance_bps as nat);
}

/// An invoice has a verdict exactly when it is past registration.
pub proof fn lemma_verdict_iff_evaluated(s: AgriTrustView, id: u64)
    requires
        s.wf(),
        s.has_invoice(id),
    ensures
        s.verdicts[id as int] is Some <==> s.invoice(id).status != STATUS_REGISTERED,
{
    let i = id as int;
    assert(crate::protocol::invoice_wf(i, s.invoices[i], s.verdicts[i]));
}

/// Funding is never refused with `VerdictNotFound`: every evaluated
/// invoice has a verdict.
pub proof fn lemma_fund_verdict_found(s: AgriTrustView, id: u64, advance_amount: nat)
    requires
        s.wf(),
    ensures
        fund_error(s, id, advance_amount, advance_amount) != Some(Error::VerdictNotFound),
{
    if advance_amount != 0 && s.has_invoice(id) {
        lemma_verdict_iff_evaluated(s, id);
    }
}

/// Sums are monotone in the parts.
proof fn lemma_sum_mono(s: Seq<Invoice>, f: spec_fn(Invoice) -> nat, g: spec_fn(Invoice) -> nat)
    requires
        forall|i: int| 0 <= i < s.len() ==> #[trigger] f(s[i]) <= g(s[i]),
    ensures
        sum_of(s, f) <= sum_of(s, g),
    decreases s.len(),
{
    if s.len() > 0 {
        let t = s.drop_last();
        assert forall|i: int| 0 <= i < t.len() implies #[trigger] f(t[i]) <= g(t[i]) by {
            assert(t[i] == s[i]);
        }
        lemma_sum_mono(t, f, g);
        assert(f(s[s.len() - 1]) <= g(s[s.len() - 1]));
    }
}

/// What is written off never exceeds what was advanced.
pub proof fn lemma_defaulted_within_funded(s: AgriTrustView)
    requires
        s.wf(),
    ensures
        s.total_defaulted <= s.total_funded,
{
    assert forall|i: int| 0 <= i < s.invoices.len() implies #[trigger] defaulted_fn()(s.invoices[i])
        <= funded_fn()(s.invoices[i]) by {
        assert(defaulted_part(s.invoices[i]) <= funded_part(s.invoices[i]));
    }
    lemma_sum_mono(s.invoices, defaulted_fn(), funded_fn());
}

/// On settlement the fee is at most the face value, so the funder's payout
/// (face value less fee) never underflows; fee and payout add up to the
/// face value.
pub proof fn lemma_settlement_split(s: AgriTrustView, face: nat)
    requires
        s.wf(),
    ensures
        bps_of(face, s.protocol_fee_bps as nat) <= face,
        (face - bps_of(face, s.protocol_fee_bps as nat)) + bps_of(face, s.protocol_fee_bps as nat)
            == face,
{
    lemma_bps_of_le(face, s.protocol_fee_bps as nat);
}

/// After a revocation the agent is no longer authorized, every other agent
/// keeps its authorization, and no agent is listed twice.
pub proof fn lemma_revoke_removes_only(agents: Seq<Address>, agent: Address)
    requires
        agents.no_duplicates(),
    ensures
        !agents.filter(other_than(agent)).contains(agent),
        forall|a: Address| a != agent ==> (#[trigger] agents.filter(other_than(agent)).contains(a)
            <==> agents.contains(a)),
        agents.filter(other_than(agent)).no_duplicates(),
{
    broadcast use vstd::seq_lib::group_filter_ensures;

    let kept = agents.filter(other_than(agent));
    if kept.contains(agent) {
        let j = choose|j: int| 0 <= j < kept.len() && kept[j] == agent;
        assert(other_than(agent)(kept[j]));
    }
    assert forall|a: Address| a != agent implies (#[trigger] kept.contains(a) <==> agents.contains(
        a,
    )) by {
        if kept.contains(a) {
            agents.lemma_filter_contains_rev(other_than(agent), a);
        }
        if agents.contains(a) {
            let j = choose|j: int| 0 <= j < agents.len() && agents[j] == a;
            agents.lemma_filter_contains(other_than(agent), j);
        }
    }
    lemma_filter_no_duplicates(agents, other_than(agent));
}

/// After authorization the agent is authorized and no agent is listed
/// twice.
pub proof fn lemma_authorize_adds(agents: Seq<Address>, agent: Address)
    requires
        agents.no_duplicates(),
        !agents.contains(agent),
    ensures
        agents.push(agent).contains(agent),
        agents.push(agent).no_duplicates(),
{
    let pushed = agents.push(agent);
    assert(pushed[agents.len() as int] == agent);
    assert forall|i: int, j: int| 0 <= i < pushed.len() && 0 <= j < pushed.len() && i != j
        implies pushed[i] != pushed[j] by {
        if i < agents.len() && j < agents.len() {
            assert(pushed[i] == agents[i] && pushed[j] == agents[j]);
        } else if i == agents.len() {
            assert(pushed[j] == agents[j]);
        } else {
            assert(pushed[i] == agents[i]);
        }
    }
}

/// A registered invoice reads back, under the id that registration
/// returned, with what the farmer registered.
pub proof fn lemma_register_then_read(
    pre: AgriTrustView,
    post: AgriTrustView,
    id: u64,
    farmer: Address,
    commodity: String,
    region: String,
    face_amount: Motes,
    maturity: u64,
    now: u64,
)
    requires
        pre.wf(),
        id == pre.invoice_count,
        post.invoices == pre.invoices.push(post.invoices.last()),
        registered_invoice(post.invoices.last(), id, farmer, commodity, region, face_amount, maturity, now),
    ensures
        post.has_invoice(id),
        registered_invoice(post.invoice(id), id, farmer, commodity, region, face_amount, maturity, now),
        forall|j: u64| pre.has_invoice(j) ==> #[trigger] post.invoice(j) == pre.invoice(j),
{
    assert forall|j: u64| pre.has_invoice(j) implies #[trigger] post.invoice(j) == pre.invoice(j) by {
        assert(post.invoices[j as int] == pre.invoices.push(post.invoices.last())[j as int]);
    }
}

/// Deployment succeeds exactly when the fee is below one whole (10 000
/// basis points) and the grace period is below 90 days (7 776 000 s).
pub proof fn lemma_init_accepts(protocol_fee_bps: u32, grace_period_secs: u64)
    ensures
        init_error(protocol_fee_bps, grace_period_secs) is None <==> (protocol_fee_bps < 10_000
            && grace_period_secs < 7_776_000),
{
}

/// Authorizing and revoking agents succeed exactly for the owner.
pub proof fn lemma_owner_calls_accept(s: AgriTrustView, caller: Address)
    ensures
        owner_error(s, caller) is None <==> caller == s.owner,
        owner_error(s, caller) is Some ==> owner_error(s, caller) == Some(Error::NotOwner),
{
}

/// The owner may set any fee below one whole; anyone else is refused.
pub proof fn lemma_set_fee_accepts(s: AgriTrustView, caller: Address, fee_bps: u32)
    ensures
        set_fee_error(s, caller, fee_bps) is None <==> (caller == s.owner && fee_bps < 10_000),
        caller != s.owner ==> set_fee_error(s, caller, fee_bps) == Some(Error::NotOwner),
{
}

/// Registration succeeds exactly for a nonzero face value maturing after
/// the current block time.
pub proof fn lemma_register_accepts(face_amount: nat, maturity: u64, now: u64)
    ensures
        register_error(face_amount, maturity, now) is None <==> (face_amount > 0 && maturity > now),
{
}

/// An authorized agent may post any verdict whose score is within 0..=1000
/// and whose two rates are at most one whole, on any registered invoice;
/// every other verdict is refused.
pub proof fn lemma_post_verdict_accepts(
    s: AgriTrustView,
    caller: Address,
    invoice_id: u64,
    score: u32,
    max_advance_bps: u32,
    discount_rate_bps: u32,
)
    ensures
        post_verdict_error(s, caller, invoice_id, score, max_advance_bps, discount_rate_bps)
            is None <==> {
            &&& s.agents.contains(caller)
            &&& score <= 1000
            &&& max_advance_bps <= 10_000
            &&& discount_rate_bps <= 10_000
            &&& invoice_id < s.invoices.len()
            &&& s.invoices[invoice_id as int].status == STATUS_REGISTERED
        },
{
}

/// Any advance from one mote up to the verdict's cap (face value times the
/// verdict's basis points over 10 000, rounded down) is accepted on an
/// evaluated invoice when exactly that amount is attached; nothing else is.
pub proof fn lemma_fund_accepts(s: AgriTrustView, invoice_id: u64, advance_amount: nat, attached: nat)
    requires
        s.wf(),
    ensures
        fund_error(s, invoice_id, advance_amount, attached) is None <==> {
            &&& invoice_id < s.invoices.len()
            &&& s.invoices[invoice_id as int].status == STATUS_EVALUATED
            &&& 0 < advance_amount
            &&& advance_amount <= s.invoices[invoice_id as int].face_amount@
                * s.verdicts[invoice_id as int]->Some_0.max_advance_bps / 10_000
            &&& attached == advance_amount
        },
{
    if invoice_id < s.invoices.len() {
        lemma_verdict_iff_evaluated(s, invoice_id);
    }
}

/// A funded invoice may be repaid at any block time from its maturity on,
/// however late, with at least its face value attached; nothing else is
/// accepted.
pub proof fn lemma_repay_accepts(s: AgriTrustView, now: u64, invoice_id: u64, attached: nat)
    ensures
        repay_error(s, now, invoice_id, attached) is None <==> {
            &&& invoice_id < s.invoices.len()
            &&& s.invoices[invoice_id as int].status == STATUS_FUNDED
            &&& now >= s.invoices[invoice_id as int].maturity
            &&& attached >= s.invoices[invoice_id as int].face_amount@
        },
{
}

/// A default can be declared only once the block time has reached maturity
/// plus the grace period, whoever the caller, and then by the funder or by
/// any agent: exactly then.
pub proof fn lemma_default_accepts(s: AgriTrustView, caller: Address, now: u64, invoice_id: u64)
    ensures
        default_error(s, caller, now, invoice_id) is None <==> {
            &&& invoice_id < s.invoices.len()
            &&& s.invoices[invoice_id as int].status == STATUS_FUNDED
            &&& now >= s.invoices[invoice_id as int].maturity as int + s.grace_period_secs as int
            &&& (caller == s.invoices[invoice_id as int].funder || s.agents.contains(caller))
        },
        invoice_id < s.invoices.len() && s.invoices[invoice_id as int].status == STATUS_FUNDED
            && now < s.invoices[invoice_id as int].maturity as int + s.grace_period_secs as int
            ==> default_error(s, caller, now, invoice_id) == Some(Error::NotPastGrace),
{
}

} // verus!
