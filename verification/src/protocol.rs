//! The AgriTrust protocol state and its entry points.
//!
//! Every entry point takes, as plain values, what the chain tells a
//! contract (the caller, the block time) and returns either the event the
//! call emits or the error the call reverts with; a refused call leaves the
//! state unchanged.

use vstd::prelude::*;
use crate::address::{Address, is_zero_address, zero_address};
use crate::ledger::{sum_of, funded_part, settled_part, defaulted_part, x402_part, lemma_sum_push,
    lemma_sum_update};
use crate::motes::{Motes, BPS_DENOM, bps_of, motes_bound, lemma_bps_of_le};
use crate::types::{Error, Invoice, RiskVerdict, ProtocolStats, InvoiceRegistered, VerdictPosted,
    InvoiceFunded, InvoiceSettled, InvoiceDefaulted, AgentAuthorized, Payment, STATUS_REGISTERED,
    STATUS_EVALUATED, STATUS_FUNDED, STATUS_SETTLED, STATUS_DEFAULTED};

verus! {

/// The longest grace period the protocol accepts: 90 days in seconds.
pub const MAX_GRACE_PERIOD_SECS: u64 = 7_776_000;

/// The protocol state: owner, agents, the invoice registry and the totals.
pub struct AgriTrust {
    owner: Address,
    authorized_agents: Vec<Address>,
    invoice_count: u64,
    invoices: Vec<Invoice>,
    verdicts: Vec<Option<RiskVerdict>>,
    total_funded: Motes,
    total_settled: Motes,
    total_defaulted: Motes,
    total_x402_spent: Motes,
    protocol_fee_bps: u32,
    grace_period_secs: u64,
}

/// The protocol state as mathematical values.
#[verifier::ext_equal]
pub struct AgriTrustView {
    /// Deployer; authorizes agents and receives protocol fees.
    pub owner: Address,
    /// Allow-listed underwriting agents.
    pub agents: Seq<Address>,
    /// The invoice registry: invoice `i` has id `i`.
    pub invoices: Seq<Invoice>,
    /// The verdict posted for invoice `i`, if any.
    pub verdicts: Seq<Option<RiskVerdict>>,
    /// Number of invoices ever registered.
    pub invoice_count: nat,
    /// Capital advanced to farmers.
    pub total_funded: nat,
    /// Face value repaid by farmers.
    pub total_settled: nat,
    /// Capital written off on default.
    pub total_defaulted: nat,
    /// Spending of agents on data feeds.
    pub total_x402_spent: nat,
    /// Fee on settlement, in basis points.
    pub protocol_fee_bps: u32,
    /// Time after maturity before a default may be declared.
    pub grace_period_secs: u64,
}

impl View for AgriTrust {
    type V = AgriTrustView;

    closed spec fn view(&self) -> AgriTrustView {
        AgriTrustView {
            owner: self.owner,
            agents: self.authorized_agents@,
            invoices: self.invoices@,
            verdicts: self.verdicts@,
            invoice_count: self.invoice_count as nat,
            total_funded: self.total_funded@,
            total_settled: self.total_settled@,
            total_defaulted: self.total_defaulted@,
            total_x402_spent: self.total_x402_spent@,
            protocol_fee_bps: self.protocol_fee_bps,
            grace_period_secs: self.grace_period_secs,
        }
    }
}

/// Part of each invoice in the capital advanced.
pub open spec fn funded_fn() -> spec_fn(Invoice) -> nat {
    |inv: Invoice| funded_part(inv)
}

/// Part of each invoice in the face value settled.
pub open spec fn settled_fn() -> spec_fn(Invoice) -> nat {
    |inv: Invoice| settled_part(inv)
}

/// Part of each invoice in the capital written off.
pub open spec fn defaulted_fn() -> spec_fn(Invoice) -> nat {
    |inv: Invoice| defaulted_part(inv)
}

/// Part of each verdict slot in the data-feed spending.
pub open spec fn x402_fn() -> spec_fn(Option<RiskVerdict>) -> nat {
    |v: Option<RiskVerdict>| x402_part(v)
}

/// What holds of invoice `i` and the verdict slot beside it.
pub open spec fn invoice_wf(i: int, inv: Invoice, v: Option<RiskVerdict>) -> bool {
    &&& inv.id == i
    &&& inv.status <= STATUS_DEFAULTED
    &&& inv.face_amount@ > 0
    &&& inv.created_at < inv.maturity
    &&& (inv.status == STATUS_REGISTERED <==> v is None)
    &&& (v matches Some(vd) ==> {
        &&& vd.invoice_id == i
        &&& vd.score <= 1000
        &&& vd.max_advance_bps <= BPS_DENOM
        &&& vd.discount_rate_bps <= BPS_DENOM
    })
    &&& (inv.status <= STATUS_EVALUATED ==> inv.advance_amount@ == 0 && is_zero_address(inv.funder))
    &&& (inv.status >= STATUS_FUNDED ==> (v matches Some(vd) && 0 < inv.advance_amount@
        <= bps_of(inv.face_amount@, vd.max_advance_bps as nat)))
}

/// A status may stay, or move forward along registered, evaluated, funded,
/// then settled or defaulted; settled and defaulted are final.
pub open spec fn status_reaches(from: u8, to: u8) -> bool {
    to == from || (from < to && from <= STATUS_FUNDED)
}

/// What registration fixed of an invoice is unchanged in `b`, its status
/// only moved forward, and once funded, advance and funder stay.
pub open spec fn invoice_evolves(a: Invoice, b: Invoice) -> bool {
    &&& b.id == a.id
    &&& b.farmer == a.farmer
    &&& b.commodity == a.commodity
    &&& b.region == a.region
    &&& b.face_amount == a.face_amount
    &&& b.maturity == a.maturity
    &&& b.created_at == a.created_at
    &&& status_reaches(a.status, b.status)
    &&& (a.status >= STATUS_FUNDED ==> b.advance_amount == a.advance_amount && b.funder == a.funder)
}

/// State `b` can follow state `a`: the owner stays, invoices are never
/// removed, each invoice evolves, posted verdicts stay, and no total
/// decreases.
pub open spec fn evolves(a: AgriTrustView, b: AgriTrustView) -> bool {
    &&& b.owner == a.owner
    &&& a.invoices.len() <= b.invoices.len()
    &&& a.invoice_count <= b.invoice_count
    &&& a.verdicts.len() <= b.verdicts.len()
    &&& forall|i: int| #![trigger b.invoices[i]]
        0 <= i < a.invoices.len() ==> invoice_evolves(a.invoices[i], b.invoices[i])
    &&& forall|i: int| #![trigger b.verdicts[i]]
        0 <= i < a.verdicts.len() && a.verdicts[i] is Some ==> b.verdicts[i] == a.verdicts[i]
    &&& a.total_funded <= b.total_funded
    &&& a.total_settled <= b.total_settled
    &&& a.total_defaulted <= b.total_defaulted
    &&& a.total_x402_spent <= b.total_x402_spent
}

/// Every invoice of `a` keeps its status in `b`.
pub open spec fn statuses_kept(a: AgriTrustView, b: AgriTrustView) -> bool {
    &&& a.invoices.len() <= b.invoices.len()
    &&& forall|i: int| #![trigger b.invoices[i]]
        0 <= i < a.invoices.len() ==> b.invoices[i].status == a.invoices[i].status
}

/// Invoice `id` of `a` went from status `from` to status `to` in `b`, and
/// every other invoice of `a` keeps its status.
pub open spec fn status_moves(a: AgriTrustView, b: AgriTrustView, id: u64, from: u8, to: u8) -> bool {
    &&& a.invoices.len() <= b.invoices.len()
    &&& a.has_invoice(id)
    &&& a.invoice(id).status == from
    &&& b.invoice(id).status == to
    &&& forall|i: int| #![trigger b.invoices[i]]
        0 <= i < a.invoices.len() && i != id ==> b.invoices[i].status == a.invoices[i].status
}

impl AgriTrustView {
    /// The protocol's invariant.
    pub open spec fn wf(self) -> bool {
        &&& self.invoice_count == self.invoices.len()
        &&& self.verdicts.len() == self.invoices.len()
        &&& self.protocol_fee_bps < BPS_DENOM
        &&& self.grace_period_secs < MAX_GRACE_PERIOD_SECS
        &&& self.agents.no_duplicates()
        &&& forall|i: int| #![trigger self.invoices[i]]
            0 <= i < self.invoices.len() ==> invoice_wf(i, self.invoices[i], self.verdicts[i])
        &&& self.total_funded == sum_of(self.invoices, funded_fn())
        &&& self.total_settled == sum_of(self.invoices, settled_fn())
        &&& self.total_defaulted == sum_of(self.invoices, defaulted_fn())
        &&& self.total_x402_spent == sum_of(self.verdicts, x402_fn())
    }

    /// Whether `id` names a registered invoice.
    pub open spec fn has_invoice(self, id: u64) -> bool {
        id < self.invoices.len()
    }

    /// The invoice with id `id`.
    pub open spec fn invoice(self, id: u64) -> Invoice {
        self.invoices[id as int]
    }

    /// Whether `a` is an authorized agent.
    pub open spec fn is_agent(self, a: Address) -> bool {
        self.agents.contains(a)
    }
}

/// The error `init` reverts with, if any.
pub open spec fn init_error(protocol_fee_bps: u32, grace_period_secs: u64) -> Option<Error> {
    if protocol_fee_bps >= BPS_DENOM {
        Some(Error::InvalidAmount)
    } else if grace_period_secs >= MAX_GRACE_PERIOD_SECS {
        Some(Error::InvalidAmount)
    } else {
        None
    }
}

/// Whether a fee in basis points is below one whole.
fn protocol_fee_bps_valid(fee_bps: u32) -> (r: bool)
    ensures
        r == (fee_bps < BPS_DENOM),
{
    fee_bps < BPS_DENOM
}

/// Whether `a` occurs in `v`.
fn contains_address(v: &Vec<Address>, a: &Address) -> (r: bool)
    ensures
        r == v@.contains(*a),
{
    let mut i: usize = 0;
    while i < v.len()
        invariant
            0 <= i <= v.len(),
            forall|j: int| 0 <= j < i ==> v@[j] != *a,
        decreases v.len() - i,
    {
        if v[i] == *a {
            return true;
        }
        i = i + 1;
    }
    false
}

/// Replacing invoice `i` and its verdict slot keeps the invariant when the
/// new invoice is well formed and each total moves by the change of its part.
proof fn lemma_invoice_update(
    o: AgriTrustView,
    n: AgriTrustView,
    i: int,
    inv: Invoice,
    v: Option<RiskVerdict>,
)
    requires
        o.wf(),
        0 <= i < o.invoices.len(),
        n.invoices == o.invoices.update(i, inv),
        n.verdicts == o.verdicts.update(i, v),
        invoice_wf(i, inv, v),
        n.invoice_count == o.invoice_count,
        n.agents == o.agents,
        n.protocol_fee_bps == o.protocol_fee_bps,
        n.grace_period_secs == o.grace_period_secs,
        n.total_funded + funded_part(o.invoices[i]) == o.total_funded + funded_part(inv),
        n.total_settled + settled_part(o.invoices[i]) == o.total_settled + settled_part(inv),
        n.total_defaulted + defaulted_part(o.invoices[i]) == o.total_defaulted + defaulted_part(inv),
        n.total_x402_spent + x402_part(o.verdicts[i]) == o.total_x402_spent + x402_part(v),
    ensures
        n.wf(),
{
    lemma_sum_update(o.invoices, i, inv, funded_fn());
    lemma_sum_update(o.invoices, i, inv, settled_fn());
    lemma_sum_update(o.invoices, i, inv, defaulted_fn());
    lemma_sum_update(o.verdicts, i, v, x402_fn());
    assert forall|k: int| #![trigger n.invoices[k]]
        0 <= k < n.invoices.len() implies invoice_wf(k, n.invoices[k], n.verdicts[k]) by {
        if k != i {
            assert(n.invoices[k] == o.invoices[k]);
            assert(n.verdicts[k] == o.verdicts[k]);
        }
    }
}

/// Keeps every address but `agent`.
pub open spec fn other_than(agent: Address) -> spec_fn(Address) -> bool {
    |a: Address| a != agent
}

/// Filtering a sequence without duplicates leaves none.
pub proof fn lemma_filter_no_duplicates<A>(s: Seq<A>, pred: spec_fn(A) -> bool)
    requires
        s.no_duplicates(),
    ensures
        s.filter(pred).no_duplicates(),
    decreases s.len(),
{
    reveal(Seq::filter);
    if s.len() > 0 {
        let rest = s.drop_last();
        assert(rest.no_duplicates());
        lemma_filter_no_duplicates(rest, pred);
        if pred(s.last()) {
            if rest.filter(pred).contains(s.last()) {
                rest.lemma_filter_contains_rev(pred, s.last());
                let j = choose|j: int| 0 <= j < rest.len() && rest[j] == s.last();
                assert(s[j] == s[s.len() - 1]);
            }
        }
    }
}

/// The error an owner-only call reverts with, if any.
pub open spec fn owner_error(s: AgriTrustView, caller: Address) -> Option<Error> {
    if caller != s.owner {
        Some(Error::NotOwner)
    } else {
        None
    }
}

/// The error `set_protocol_fee_bps` reverts with, if any.
pub open spec fn set_fee_error(s: AgriTrustView, caller: Address, fee_bps: u32) -> Option<Error> {
    if caller != s.owner {
        Some(Error::NotOwner)
    } else if fee_bps >= BPS_DENOM {
        Some(Error::InvalidAmount)
    } else {
        None
    }
}

/// The error `register_invoice` reverts with, if any.
pub open spec fn register_error(face_amount: nat, maturity: u64, now: u64) -> Option<Error> {
    if face_amount == 0 {
        Some(Error::InvalidAmount)
    } else if maturity <= now {
        Some(Error::InvalidAmount)
    } else {
        None
    }
}

/// `inv` is the invoice that `register_invoice` records.
pub open spec fn registered_invoice(
    inv: Invoice,
    id: u64,
    farmer: Address,
    commodity: String,
    region: String,
    face_amount: Motes,
    maturity: u64,
    now: u64,
) -> bool {
    &&& inv.id == id
    &&& inv.farmer == farmer
    &&& inv.commodity == commodity
    &&& inv.region == region
    &&& inv.face_amount == face_amount
    &&& inv.advance_amount@ == 0
    &&& inv.maturity == maturity
    &&& inv.status == STATUS_REGISTERED
    &&& is_zero_address(inv.funder)
    &&& inv.created_at == now
}

/// The error `post_verdict` reverts with, if any, in the order the
/// contract checks.
pub open spec fn post_verdict_error(
    s: AgriTrustView,
    caller: Address,
    invoice_id: u64,
    score: u32,
    max_advance_bps: u32,
    discount_rate_bps: u32,
) -> Option<Error> {
    if !s.is_agent(caller) {
        Some(Error::NotAuthorized)
    } else if score > 1000 {
        Some(Error::InvalidAmount)
    } else if max_advance_bps > BPS_DENOM {
        Some(Error::AdvanceTooHigh)
    } else if discount_rate_bps > BPS_DENOM {
        Some(Error::AdvanceTooHigh)
    } else if !s.has_invoice(invoice_id) {
        Some(Error::InvoiceNotFound)
    } else if s.invoice(invoice_id).status != STATUS_REGISTERED {
        Some(Error::WrongStatus)
    } else {
        None
    }
}

/// The invoice `inv` with the status `status`.
pub open spec fn with_status(inv: Invoice, status: u8) -> Invoice {
    Invoice { status, ..inv }
}

/// The verdict posted on invoice `id` (meaningful when there is one).
pub open spec fn verdict_of(s: AgriTrustView, id: u64) -> RiskVerdict {
    s.verdicts[id as int]->Some_0
}

/// `fund_invoice` gets as far as computing the advance cap.
pub open spec fn fund_reaches_cap(s: AgriTrustView, invoice_id: u64, advance_amount: nat) -> bool {
    &&& advance_amount != 0
    &&& s.has_invoice(invoice_id)
    &&& s.invoice(invoice_id).status == STATUS_EVALUATED
    &&& s.verdicts[invoice_id as int] is Some
}

/// The error `fund_invoice` reverts with, if any, in the order the
/// contract checks; the call must carry exactly the advance.
pub open spec fn fund_error(
    s: AgriTrustView,
    invoice_id: u64,
    advance_amount: nat,
    attached: nat,
) -> Option<Error> {
    if advance_amount == 0 {
        Some(Error::InvalidAmount)
    } else if !s.has_invoice(invoice_id) {
        Some(Error::InvoiceNotFound)
    } else if s.invoice(invoice_id).status != STATUS_EVALUATED {
        Some(Error::NotEvaluated)
    } else if s.verdicts[invoice_id as int] is None {
        Some(Error::VerdictNotFound)
    } else if advance_amount > bps_of(
        s.invoice(invoice_id).face_amount@,
        verdict_of(s, invoice_id).max_advance_bps as nat,
    ) {
        Some(Error::AdvanceTooHigh)
    } else if attached != advance_amount {
        Some(Error::InsufficientPayment)
    } else {
        None
    }
}

/// The invoice `inv` once funded by `funder` with `advance_amount`.
pub open spec fn funded_invoice(inv: Invoice, funder: Address, advance_amount: Motes) -> Invoice {
    Invoice { advance_amount, funder, status: STATUS_FUNDED, ..inv }
}

/// The error `repay_and_settle` reverts with, if any; the call must carry
/// at least the face value.
pub open spec fn repay_error(s: AgriTrustView, now: u64, invoice_id: u64, attached: nat) -> Option<
    Error,
> {
    if !s.has_invoice(invoice_id) {
        Some(Error::InvoiceNotFound)
    } else if s.invoice(invoice_id).status != STATUS_FUNDED {
        Some(Error::NotFunded)
    } else if now < s.invoice(invoice_id).maturity {
        Some(Error::CannotRepayEarly)
    } else if attached < s.invoice(invoice_id).face_amount@ {
        Some(Error::InsufficientPayment)
    } else {
        None
    }
}

/// The error `declare_default` reverts with, if any.
pub open spec fn default_error(s: AgriTrustView, caller: Address, now: u64, invoice_id: u64) -> Option<
    Error,
> {
    if !s.has_invoice(invoice_id) {
        Some(Error::InvoiceNotFound)
    } else if s.invoice(invoice_id).status != STATUS_FUNDED {
        Some(Error::NotFunded)
    } else if now < s.invoice(invoice_id).maturity + s.grace_period_secs {
        Some(Error::NotPastGrace)
    } else if caller != s.invoice(invoice_id).funder && !s.is_agent(caller) {
        Some(Error::UnauthorizedFunder)
    } else {
        None
    }
}

impl AgriTrust {
    /// The invariant of the state.
    pub open spec fn wf(&self) -> bool {
        self@.wf()
    }

    /// Deploys the protocol with `caller` as owner. The fee must be below one
    /// whole and the grace period below 90 days.
    pub fn init(caller: Address, protocol_fee_bps: u32, grace_period_secs: u64) -> (r: Result<
        AgriTrust,
        Error,
    >)
        ensures
            match r {
                Ok(s) => {
                    &&& init_error(protocol_fee_bps, grace_period_secs) is None
                    &&& s.wf()
                    &&& s@.owner == caller
                    &&& s@.agents.len() == 0
                    &&& s@.invoices.len() == 0
                    &&& s@.invoice_count == 0
                    &&& s@.total_funded == 0
                    &&& s@.total_settled == 0
                    &&& s@.total_defaulted == 0
                    &&& s@.total_x402_spent == 0
                    &&& s@.protocol_fee_bps == protocol_fee_bps
                    &&& s@.grace_period_secs == grace_period_secs
                },
                Err(e) => init_error(protocol_fee_bps, grace_period_secs) == Some(e),
            },
    {
        if !protocol_fee_bps_valid(protocol_fee_bps) {
            return Err(Error::InvalidAmount);
        }
        if grace_period_secs >= MAX_GRACE_PERIOD_SECS {
            return Err(Error::InvalidAmount);
        }
        let s = AgriTrust {
            owner: caller,
            authorized_agents: Vec::new(),
            invoice_count: 0,
            invoices: Vec::new(),
            verdicts: Vec::new(),
            total_funded: Motes::zero(),
            total_settled: Motes::zero(),
            total_defaulted: Motes::zero(),
            total_x402_spent: Motes::zero(),
            protocol_fee_bps,
            grace_period_secs,
        };
        proof {
            assert(s@.invoices =~= Seq::<Invoice>::empty());
            assert(s@.verdicts =~= Seq::<Option<RiskVerdict>>::empty());
        }
        Ok(s)
    }

    /// Whether `agent` is an authorized agent.
    pub fn is_authorized_agent(&self, agent: Address) -> (r: bool)
        ensures
            r == self@.is_agent(agent),
    {
        contains_address(&self.authorized_agents, &agent)
    }

    /// Owner-only: authorizes an agent. Returns the event when the agent
    /// is new; an agent already authorized is left as it is.
    pub fn authorize_agent(&mut self, caller: Address, agent: Address) -> (r: Result<
        Option<AgentAuthorized>,
        Error,
    >)
        requires
            old(self).wf(),
        ensures
            final(self).wf(),
            evolves(old(self)@, final(self)@),
            statuses_kept(old(self)@, final(self)@),
            match r {
                Err(e) => {
                    &&& owner_error(old(self)@, caller) == Some(e)
                    &&& *final(self) == *old(self)
                },
                Ok(ev) => {
                    &&& owner_error(old(self)@, caller) is None
                    &&& if old(self)@.agents.contains(agent) {
                        &&& ev is None
                        &&& final(self)@ == old(self)@
                    } else {
                        &&& ev == Some(AgentAuthorized { agent })
                        &&& final(self)@ == (AgriTrustView {
                            agents: old(self)@.agents.push(agent),
                            ..old(self)@
                        })
                    }
                },
            },
    {
        if !(caller == self.owner) {
            return Err(Error::NotOwner);
        }
        if contains_address(&self.authorized_agents, &agent) {
            return Ok(None);
        }
        self.authorized_agents.push(agent);
        proof {
            crate::laws::lemma_authorize_adds(old(self)@.agents, agent);
            assert(self@.agents =~= old(self)@.agents.push(agent));
        }
        Ok(Some(AgentAuthorized { agent }))
    }

    /// Owner-only: revokes an agent (removes every occurrence).
    pub fn revoke_agent(&mut self, caller: Address, agent: Address) -> (r: Result<(), Error>)
        requires
            old(self).wf(),
        ensures
            final(self).wf(),
            evolves(old(self)@, final(self)@),
            statuses_kept(old(self)@, final(self)@),
            match r {
                Err(e) => {
                    &&& owner_error(old(self)@, caller) == Some(e)
                    &&& *final(self) == *old(self)
                },
                Ok(_) => {
                    &&& owner_error(old(self)@, caller) is None
                    &&& final(self)@ == (AgriTrustView {
                        agents: old(self)@.agents.filter(other_than(agent)),
                        ..old(self)@
                    })
                },
            },
    {
        if !(caller == self.owner) {
            return Err(Error::NotOwner);
        }
        let ghost pred = other_than(agent);
        let mut kept: Vec<Address> = Vec::new();
        let mut i: usize = 0;
        while i < self.authorized_agents.len()
            invariant
                0 <= i <= self.authorized_agents.len(),
                kept@ == self.authorized_agents@.take(i as int).filter(pred),
                pred == other_than(agent),
            decreases self.authorized_agents.len() - i,
        {
            let a = self.authorized_agents[i];
            proof {
                reveal(Seq::filter);
                assert(self.authorized_agents@.take(i + 1).drop_last()
                    =~= self.authorized_agents@.take(i as int));
            }
            if !(a == agent) {
                kept.push(a);
            }
            i = i + 1;
        }
        proof {
            assert(self.authorized_agents@.take(i as int) =~= self.authorized_agents@);
            lemma_filter_no_duplicates(self.authorized_agents@, pred);
        }
        self.authorized_agents = kept;
        Ok(())
    }

    /// Owner-only: sets the fee on settlement, which must stay below one whole.
    pub fn set_protocol_fee_bps(&mut self, caller: Address, fee_bps: u32) -> (r: Result<(), Error>)
        requires
            old(self).wf(),
        ensures
            final(self).wf(),
            evolves(old(self)@, final(self)@),
            statuses_kept(old(self)@, final(self)@),
            match r {
                Err(e) => {
                    &&& set_fee_error(old(self)@, caller, fee_bps) == Some(e)
                    &&& *final(self) == *old(self)
                },
                Ok(_) => {
                    &&& set_fee_error(old(self)@, caller, fee_bps) is None
                    &&& final(self)@ == (AgriTrustView { protocol_fee_bps: fee_bps, ..old(self)@ })
                },
            },
    {
        if !(caller == self.owner) {
            return Err(Error::NotOwner);
        }
        if !protocol_fee_bps_valid(fee_bps) {
            return Err(Error::InvalidAmount);
        }
        self.protocol_fee_bps = fee_bps;
        Ok(())
    }

    /// A farmer (`caller`) tokenizes a harvest as an invoice at block time
    /// `now`. Returns the new invoice id and the event.
    pub fn register_invoice(
        &mut self,
        caller: Address,
        now: u64,
        commodity: String,
        region: String,
        face_amount: Motes,
        maturity: u64,
    ) -> (r: Result<(u64, InvoiceRegistered), Error>)
        requires
            old(self).wf(),
            register_error(face_amount@, maturity, now) is None ==> old(self)@.invoice_count
                < u64::MAX,
        ensures
            final(self).wf(),
            evolves(old(self)@, final(self)@),
            statuses_kept(old(self)@, final(self)@),
            match r {
                Err(e) => {
                    &&& register_error(face_amount@, maturity, now) == Some(e)
                    &&& *final(self) == *old(self)
                },
                Ok((id, ev)) => {
                    &&& register_error(face_amount@, maturity, now) is None
                    &&& id == old(self)@.invoice_count
                    &&& registered_invoice(
                        final(self)@.invoices.last(),
                        id,
                        caller,
                        commodity,
                        region,
                        face_amount,
                        maturity,
                        now,
                    )
                    &&& final(self)@ == (AgriTrustView {
                        invoices: old(self)@.invoices.push(final(self)@.invoices.last()),
                        verdicts: old(self)@.verdicts.push(None),
                        invoice_count: old(self)@.invoice_count + 1,
                        ..old(self)@
                    })
                    &&& ev.invoice_id == id
                    &&& ev.farmer == caller
                    &&& ev.commodity == commodity
                    &&& ev.face_amount == face_amount
                },
            },
    {
        if face_amount.is_zero() {
            return Err(Error::InvalidAmount);
        }
        if maturity <= now {
            return Err(Error::InvalidAmount);
        }
        let id = self.invoice_count;
        self.invoice_count = id + 1;
        let event_commodity = commodity.clone();
        let invoice = Invoice {
            id,
            farmer: caller,
            commodity,
            region,
            face_amount,
            advance_amount: Motes::zero(),
            maturity,
            status: STATUS_REGISTERED,
            funder: zero_address(),
            created_at: now,
        };
        let ghost inv = invoice;
        self.invoices.push(invoice);
        self.verdicts.push(None);
        proof {
            let o = old(self)@;
            lemma_sum_push(o.invoices, inv, funded_fn());
            lemma_sum_push(o.invoices, inv, settled_fn());
            lemma_sum_push(o.invoices, inv, defaulted_fn());
            lemma_sum_push(o.verdicts, None, x402_fn());
            assert(self@.invoices =~= o.invoices.push(inv));
            assert(self@.verdicts =~= o.verdicts.push(None));
            assert forall|i: int| #![trigger self@.invoices[i]]
                0 <= i < self@.invoices.len() implies invoice_wf(
                i,
                self@.invoices[i],
                self@.verdicts[i],
            ) by {
                if i < o.invoices.len() {
                    assert(self@.invoices[i] == o.invoices[i]);
                    assert(self@.verdicts[i] == o.verdicts[i]);
                }
            }
        }
        Ok((id, InvoiceRegistered { invoice_id: id, farmer: caller, commodity: event_commodity, face_amount }))
    }

    /// The invoice with id `invoice_id`; refused with `InvoiceNotFound` when
    /// there is none.
    pub fn get_invoice(&self, invoice_id: u64) -> (r: Result<Invoice, Error>)
        requires
            self.wf(),
        ensures
            match r {
                Ok(inv) => self@.has_invoice(invoice_id) && inv == self@.invoice(invoice_id),
                Err(e) => !self@.has_invoice(invoice_id) && e == Error::InvoiceNotFound,
            },
    {
        if invoice_id < self.invoice_count {
            assert(self@.invoices.len() == self.invoice_count);
            assert(self.invoices.len() == self.invoice_count);
            Ok(self.invoices[invoice_id as usize].clone())
        } else {
            Err(Error::InvoiceNotFound)
        }
    }

    /// The verdict posted for `invoice_id`, if any.
    pub fn get_verdict(&self, invoice_id: u64) -> (r: Option<RiskVerdict>)
        requires
            self.wf(),
        ensures
            r == (if self@.has_invoice(invoice_id) {
                self@.verdicts[invoice_id as int]
            } else {
                None
            }),
    {
        if invoice_id < self.invoice_count {
            assert(self@.verdicts.len() == self.verdicts.len());
            assert(self.verdicts.len() == self.invoice_count);
            match &self.verdicts[invoice_id as usize] {
                Some(v) => Some(v.clone()),
                None => None,
            }
        } else {
            None
        }
    }

    /// An authorized agent (`caller`) posts its verdict on a registered
    /// invoice at block time `now`, having spent `x402_cost` on data feeds.
    /// The invoice becomes evaluated, and so fundable.
    pub fn post_verdict(
        &mut self,
        caller: Address,
        now: u64,
        invoice_id: u64,
        score: u32,
        risk_band: String,
        max_advance_bps: u32,
        discount_rate_bps: u32,
        data_hash: String,
        x402_cost: Motes,
    ) -> (r: Result<VerdictPosted, Error>)
        requires
            old(self).wf(),
            post_verdict_error(
                old(self)@,
                caller,
                invoice_id,
                score,
                max_advance_bps,
                discount_rate_bps,
            ) is None ==> old(self)@.total_x402_spent + x402_cost@ < motes_bound(),
        ensures
            final(self).wf(),
            evolves(old(self)@, final(self)@),
            match r {
                Err(e) => {
                    &&& post_verdict_error(
                        old(self)@,
                        caller,
                        invoice_id,
                        score,
                        max_advance_bps,
                        discount_rate_bps,
                    ) == Some(e)
                    &&& *final(self) == *old(self)
                    &&& statuses_kept(old(self)@, final(self)@)
                },
                Ok(ev) => {
                    &&& post_verdict_error(
                        old(self)@,
                        caller,
                        invoice_id,
                        score,
                        max_advance_bps,
                        discount_rate_bps,
                    ) is None
                    &&& final(self)@ == (AgriTrustView {
                        invoices: old(self)@.invoices.update(
                            invoice_id as int,
                            with_status(old(self)@.invoice(invoice_id), STATUS_EVALUATED),
                        ),
                        verdicts: old(self)@.verdicts.update(
                            invoice_id as int,
                            Some(
                                RiskVerdict {
                                    invoice_id,
                                    score,
                                    risk_band,
                                    max_advance_bps,
                                    discount_rate_bps,
                                    data_hash,
                                    agent: caller,
                                    timestamp: now,
                                    x402_cost,
                                },
                            ),
                        ),
                        total_x402_spent: old(self)@.total_x402_spent + x402_cost@,
                        ..old(self)@
                    })
                    &&& status_moves(
                        old(self)@,
                        final(self)@,
                        invoice_id,
                        STATUS_REGISTERED,
                        STATUS_EVALUATED,
                    )
                    &&& ev == (VerdictPosted {
                        invoice_id,
                        score,
                        risk_band,
                        agent: caller,
                        x402_cost,
                    })
                },
            },
    {
        if !self.is_authorized_agent(caller) {
            return Err(Error::NotAuthorized);
        }
        if score > 1000 {
            return Err(Error::InvalidAmount);
        }
        if max_advance_bps > BPS_DENOM {
            return Err(Error::AdvanceTooHigh);
        }
        if discount_rate_bps > BPS_DENOM {
            return Err(Error::AdvanceTooHigh);
        }
        let mut invoice = match self.get_invoice(invoice_id) {
            Ok(inv) => inv,
            Err(e) => return Err(e),
        };
        if invoice.status != STATUS_REGISTERED {
            return Err(Error::WrongStatus);
        }
        let band = risk_band.clone();
        let verdict = RiskVerdict {
            invoice_id,
            score,
            risk_band,
            max_advance_bps,
            discount_rate_bps,
            data_hash,
            agent: caller,
            timestamp: now,
            x402_cost,
        };
        let ghost o = old(self)@;
        assert(o.invoices.len() == self.invoices.len());
        let idx = invoice_id as usize;
        let ghost v = Some(verdict);
        self.verdicts.set(idx, Some(verdict));
        self.total_x402_spent = self.total_x402_spent.add(&x402_cost);
        invoice.status = STATUS_EVALUATED;
        let ghost inv = invoice;
        self.invoices.set(idx, invoice);
        proof {
            lemma_invoice_update(o, self@, invoice_id as int, inv, v);
        }
        Ok(VerdictPosted { invoice_id, score, risk_band: band, agent: caller, x402_cost })
    }

    /// A liquidity provider (`caller`) funds an evaluated invoice with
    /// `advance_amount`, at most the share of the face value that the
    /// verdict allows, and must attach exactly that amount to the call
    /// (`attached`). The invoice becomes funded and the whole advance is
    /// paid to the farmer: the returned payment.
    pub fn fund_invoice(
        &mut self,
        caller: Address,
        invoice_id: u64,
        advance_amount: Motes,
        attached: Motes,
    ) -> (r: Result<(InvoiceFunded, Payment), Error>)
        requires
            old(self).wf(),
            fund_reaches_cap(old(self)@, invoice_id, advance_amount@) ==> old(self)@.invoice(
                invoice_id,
            ).face_amount@ * verdict_of(old(self)@, invoice_id).max_advance_bps < motes_bound(),
            fund_error(old(self)@, invoice_id, advance_amount@, attached@) is None ==> old(
                self,
            )@.total_funded + advance_amount@ < motes_bound(),
        ensures
            final(self).wf(),
            evolves(old(self)@, final(self)@),
            match r {
                Err(e) => {
                    &&& fund_error(old(self)@, invoice_id, advance_amount@, attached@) == Some(e)
                    &&& *final(self) == *old(self)
                    &&& statuses_kept(old(self)@, final(self)@)
                },
                Ok((ev, payment)) => {
                    &&& fund_error(old(self)@, invoice_id, advance_amount@, attached@) is None
                    &&& final(self)@ == (AgriTrustView {
                        invoices: old(self)@.invoices.update(
                            invoice_id as int,
                            funded_invoice(old(self)@.invoice(invoice_id), caller, advance_amount),
                        ),
                        total_funded: old(self)@.total_funded + advance_amount@,
                        ..old(self)@
                    })
                    &&& ev == (InvoiceFunded { invoice_id, funder: caller, advance_amount })
                    &&& payment == (Payment {
                        to: old(self)@.invoice(invoice_id).farmer,
                        amount: advance_amount,
                    })
                    &&& status_moves(
                        old(self)@,
                        final(self)@,
                        invoice_id,
                        STATUS_EVALUATED,
                        STATUS_FUNDED,
                    )
                },
            },
    {
        if advance_amount.is_zero() {
            return Err(Error::InvalidAmount);
        }
        let mut invoice = match self.get_invoice(invoice_id) {
            Ok(inv) => inv,
            Err(e) => return Err(e),
        };
        if invoice.status != STATUS_EVALUATED {
            return Err(Error::NotEvaluated);
        }
        let verdict = match self.get_verdict(invoice_id) {
            Some(v) => v,
            None => return Err(Error::VerdictNotFound),
        };
        let max_advance = invoice.face_amount.bps_share(verdict.max_advance_bps);
        if !advance_amount.le(&max_advance) {
            return Err(Error::AdvanceTooHigh);
        }
        if !(attached.le(&advance_amount) && advance_amount.le(&attached)) {
            return Err(Error::InsufficientPayment);
        }
        let ghost o = old(self)@;
        assert(o.invoices.len() == self.invoices.len());
        let idx = invoice_id as usize;
        let farmer = invoice.farmer;
        invoice.advance_amount = advance_amount;
        invoice.funder = caller;
        invoice.status = STATUS_FUNDED;
        let ghost inv = invoice;
        self.invoices.set(idx, invoice);
        self.total_funded = self.total_funded.add(&advance_amount);
        proof {
            let i = invoice_id as int;
            assert(o.verdicts.update(i, o.verdicts[i]) =~= o.verdicts);
            lemma_invoice_update(o, self@, i, inv, o.verdicts[i]);
        }
        Ok((
            InvoiceFunded { invoice_id, funder: caller, advance_amount },
            Payment { to: farmer, amount: advance_amount },
        ))
    }

    /// The farmer repays a funded invoice at or after maturity (`now` is the
    /// block time), attaching at least its face value (`attached`). The
    /// funder is paid the face value less the protocol fee and the owner is
    /// paid the fee: the two returned payments, in that order.
    pub fn repay_and_settle(&mut self, now: u64, invoice_id: u64, attached: Motes) -> (r: Result<
        (InvoiceSettled, Payment, Payment),
        Error,
    >)
        requires
            old(self).wf(),
            repay_error(old(self)@, now, invoice_id, attached@) is None ==> {
                &&& old(self)@.invoice(invoice_id).face_amount@ * old(self)@.protocol_fee_bps
                    < motes_bound()
                &&& old(self)@.total_settled + old(self)@.invoice(invoice_id).face_amount@
                    < motes_bound()
            },
        ensures
            final(self).wf(),
            evolves(old(self)@, final(self)@),
            match r {
                Err(e) => {
                    &&& repay_error(old(self)@, now, invoice_id, attached@) == Some(e)
                    &&& *final(self) == *old(self)
                    &&& statuses_kept(old(self)@, final(self)@)
                },
                Ok((ev, to_funder, to_owner)) => {
                    &&& repay_error(old(self)@, now, invoice_id, attached@) is None
                    &&& final(self)@ == (AgriTrustView {
                        invoices: old(self)@.invoices.update(
                            invoice_id as int,
                            with_status(old(self)@.invoice(invoice_id), STATUS_SETTLED),
                        ),
                        total_settled: old(self)@.total_settled + old(self)@.invoice(
                            invoice_id,
                        ).face_amount@,
                        ..old(self)@
                    })
                    &&& ev.invoice_id == invoice_id
                    &&& ev.funder == old(self)@.invoice(invoice_id).funder
                    &&& ev.repayment == old(self)@.invoice(invoice_id).face_amount
                    &&& ev.fee@ == bps_of(
                        old(self)@.invoice(invoice_id).face_amount@,
                        old(self)@.protocol_fee_bps as nat,
                    )
                    &&& to_funder.to == old(self)@.invoice(invoice_id).funder
                    &&& to_funder.amount@ == ev.repayment@ - ev.fee@
                    &&& to_owner.to == old(self)@.owner
                    &&& to_owner.amount == ev.fee
                    &&& status_moves(
                        old(self)@,
                        final(self)@,
                        invoice_id,
                        STATUS_FUNDED,
                        STATUS_SETTLED,
                    )
                },
            },
    {
        let mut invoice = match self.get_invoice(invoice_id) {
            Ok(inv) => inv,
            Err(e) => return Err(e),
        };
        if invoice.status != STATUS_FUNDED {
            return Err(Error::NotFunded);
        }
        if now < invoice.maturity {
            return Err(Error::CannotRepayEarly);
        }
        let face = invoice.face_amount;
        if !face.le(&attached) {
            return Err(Error::InsufficientPayment);
        }
        let funder = invoice.funder;
        let fee = face.bps_share(self.protocol_fee_bps);
        proof {
            lemma_bps_of_le(face@, self.protocol_fee_bps as nat);
        }
        let payout = face.sub(&fee);
        let ghost o = old(self)@;
        assert(o.invoices.len() == self.invoices.len());
        let idx = invoice_id as usize;
        invoice.status = STATUS_SETTLED;
        let ghost inv = invoice;
        self.invoices.set(idx, invoice);
        self.total_settled = self.total_settled.add(&face);
        proof {
            let i = invoice_id as int;
            assert(o.verdicts.update(i, o.verdicts[i]) =~= o.verdicts);
            lemma_invoice_update(o, self@, i, inv, o.verdicts[i]);
        }
        Ok((
            InvoiceSettled { invoice_id, funder, repayment: face, fee },
            Payment { to: funder, amount: payout },
            Payment { to: self.owner, amount: fee },
        ))
    }

    /// The funder of a funded invoice, or an agent (`caller`), declares it in
    /// default once `now` is past maturity plus the grace period. The
    /// advance is written off.
    pub fn declare_default(&mut self, caller: Address, now: u64, invoice_id: u64) -> (r: Result<
        InvoiceDefaulted,
        Error,
    >)
        requires
            old(self).wf(),
            default_error(old(self)@, caller, now, invoice_id) is None ==> old(self)@.total_defaulted
                + old(self)@.invoice(invoice_id).advance_amount@ < motes_bound(),
        ensures
            final(self).wf(),
            evolves(old(self)@, final(self)@),
            match r {
                Err(e) => {
                    &&& default_error(old(self)@, caller, now, invoice_id) == Some(e)
                    &&& *final(self) == *old(self)
                    &&& statuses_kept(old(self)@, final(self)@)
                },
                Ok(ev) => {
                    &&& default_error(old(self)@, caller, now, invoice_id) is None
                    &&& final(self)@ == (AgriTrustView {
                        invoices: old(self)@.invoices.update(
                            invoice_id as int,
                            with_status(old(self)@.invoice(invoice_id), STATUS_DEFAULTED),
                        ),
                        total_defaulted: old(self)@.total_defaulted + old(self)@.invoice(
                            invoice_id,
                        ).advance_amount@,
                        ..old(self)@
                    })
                    &&& ev == (InvoiceDefaulted {
                        invoice_id,
                        funder: old(self)@.invoice(invoice_id).funder,
                    })
                    &&& status_moves(
                        old(self)@,
                        final(self)@,
                        invoice_id,
                        STATUS_FUNDED,
                        STATUS_DEFAULTED,
                    )
                },
            },
    {
        let mut invoice = match self.get_invoice(invoice_id) {
            Ok(inv) => inv,
            Err(e) => return Err(e),
        };
        if invoice.status != STATUS_FUNDED {
            return Err(Error::NotFunded);
        }
        if (now as u128) < (invoice.maturity as u128) + (self.grace_period_secs as u128) {
            return Err(Error::NotPastGrace);
        }
        let is_funder = caller == invoice.funder;
        let is_agent = self.is_authorized_agent(caller);
        if !(is_funder || is_agent) {
            return Err(Error::UnauthorizedFunder);
        }
        let advance = invoice.advance_amount;
        let funder = invoice.funder;
        let ghost o = old(self)@;
        assert(o.invoices.len() == self.invoices.len());
        let idx = invoice_id as usize;
        invoice.status = STATUS_DEFAULTED;
        let ghost inv = invoice;
        self.invoices.set(idx, invoice);
        self.total_defaulted = self.total_defaulted.add(&advance);
        proof {
            let i = invoice_id as int;
            assert(o.verdicts.update(i, o.verdicts[i]) =~= o.verdicts);
            lemma_invoice_update(o, self@, i, inv, o.verdicts[i]);
        }
        Ok(InvoiceDefaulted { invoice_id, funder })
    }

    /// The owner.
    pub fn owner(&self) -> (r: Address)
        ensures
            r == self@.owner,
    {
        self.owner
    }

    /// The fee on settlement, in basis points.
    pub fn protocol_fee_bps(&self) -> (r: u32)
        ensures
            r == self@.protocol_fee_bps,
    {
        self.protocol_fee_bps
    }

    /// The grace period after maturity.
    pub fn grace_period_secs(&self) -> (r: u64)
        ensures
            r == self@.grace_period_secs,
    {
        self.grace_period_secs
    }

    /// Number of invoices registered.
    pub fn total_invoices(&self) -> (r: u64)
        ensures
            r == self@.invoice_count,
    {
        self.invoice_count
    }

    /// Capital advanced to farmers.
    pub fn total_funded(&self) -> (r: Motes)
        ensures
            r@ == self@.total_funded,
    {
        self.total_funded
    }

    /// Face value repaid by farmers.
    pub fn total_settled(&self) -> (r: Motes)
        ensures
            r@ == self@.total_settled,
    {
        self.total_settled
    }

    /// Capital written off on default.
    pub fn total_defaulted(&self) -> (r: Motes)
        ensures
            r@ == self@.total_defaulted,
    {
        self.total_defaulted
    }

    /// Spending of agents on data feeds.
    pub fn total_x402_spent(&self) -> (r: Motes)
        ensures
            r@ == self@.total_x402_spent,
    {
        self.total_x402_spent
    }

    /// All the totals at once, with the number of agents (as `u32`).
    pub fn stats(&self) -> (r: ProtocolStats)
        ensures
            r.total_invoices == self@.invoice_count,
            r.total_funded@ == self@.total_funded,
            r.total_settled@ == self@.total_settled,
            r.total_defaulted@ == self@.total_defaulted,
            r.total_x402_spent@ == self@.total_x402_spent,
            r.active_agents == self@.agents.len() as u32,
    {
        ProtocolStats {
            total_invoices: self.invoice_count,
            total_funded: self.total_funded,
            total_settled: self.total_settled,
            total_defaulted: self.total_defaulted,
            total_x402_spent: self.total_x402_spent,
            active_agents: self.authorized_agents.len() as u32,
        }
    }
}

} // verus!
