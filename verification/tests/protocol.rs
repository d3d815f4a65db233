use agritrust::address::{zero_address, Address};
use agritrust::motes::Motes;
use agritrust::protocol::AgriTrust;
use agritrust::types::{
    Error, STATUS_DEFAULTED, STATUS_EVALUATED, STATUS_FUNDED, STATUS_REGISTERED, STATUS_SETTLED,
};

const OWNER: Address = Address::Account([1u8; 32]);
const AGENT: Address = Address::Account([2u8; 32]);
const FARMER: Address = Address::Account([3u8; 32]);
const FUNDER: Address = Address::Contract([4u8; 32]);
const STRANGER: Address = Address::Account([5u8; 32]);

const FACE: u64 = 100_000_000_000;

fn m(x: u64) -> Motes {
    Motes::from_u64(x)
}

fn deployed() -> AgriTrust {
    AgriTrust::init(OWNER, 50, 259_200).unwrap()
}

/// Owner authorizes AGENT, FARMER registers an invoice maturing at 2000 (now 1000).
fn with_invoice() -> (AgriTrust, u64) {
    let mut s = deployed();
    s.authorize_agent(OWNER, AGENT).unwrap();
    let (id, _) = s
        .register_invoice(FARMER, 1000, "Maize".to_string(), "Ashanti, Ghana".to_string(), m(FACE), 2000)
        .unwrap();
    (s, id)
}

fn evaluated() -> (AgriTrust, u64) {
    let (mut s, id) = with_invoice();
    s.post_verdict(AGENT, 1100, id, 820, "AA".to_string(), 8000, 750, "hash".to_string(), m(100_000_000))
        .unwrap();
    (s, id)
}

fn funded() -> (AgriTrust, u64) {
    let (mut s, id) = evaluated();
    s.fund_invoice(FUNDER, id, m(80_000_000_000), m(80_000_000_000)).unwrap();
    (s, id)
}

#[test]
fn init_sets_owner_fee_and_grace() {
    let s = deployed();
    assert_eq!(s.owner(), OWNER);
    assert_eq!(s.protocol_fee_bps(), 50);
    assert_eq!(s.grace_period_secs(), 259_200);
    assert_eq!(s.total_invoices(), 0);
    assert_eq!(s.total_funded(), m(0));
    let st = s.stats();
    assert_eq!(st.active_agents, 0);
    assert_eq!(st.total_x402_spent, m(0));
}

#[test]
fn init_rejects_fee_of_one_whole() {
    assert_eq!(AgriTrust::init(OWNER, 10_000, 0).err(), Some(Error::InvalidAmount));
    assert!(AgriTrust::init(OWNER, 9_999, 0).is_ok());
}

#[test]
fn init_rejects_grace_of_ninety_days() {
    assert_eq!(AgriTrust::init(OWNER, 50, 90 * 86_400).err(), Some(Error::InvalidAmount));
    assert!(AgriTrust::init(OWNER, 50, 90 * 86_400 - 1).is_ok());
}

#[test]
fn authorize_agent_is_owner_only_and_idempotent() {
    let mut s = deployed();
    assert_eq!(s.authorize_agent(STRANGER, AGENT).err(), Some(Error::NotOwner));
    assert!(!s.is_authorized_agent(AGENT));
    let ev = s.authorize_agent(OWNER, AGENT).unwrap();
    assert_eq!(ev.map(|e| e.agent), Some(AGENT));
    assert!(s.is_authorized_agent(AGENT));
    let again = s.authorize_agent(OWNER, AGENT).unwrap();
    assert!(again.is_none());
    assert_eq!(s.stats().active_agents, 1);
}

#[test]
fn revoke_agent_removes_only_that_agent() {
    let mut s = deployed();
    s.authorize_agent(OWNER, AGENT).unwrap();
    s.authorize_agent(OWNER, STRANGER).unwrap();
    assert_eq!(s.revoke_agent(AGENT, AGENT).err(), Some(Error::NotOwner));
    s.revoke_agent(OWNER, AGENT).unwrap();
    assert!(!s.is_authorized_agent(AGENT));
    assert!(s.is_authorized_agent(STRANGER));
    assert_eq!(s.stats().active_agents, 1);
    // Revoking an agent that is not there changes nothing.
    s.revoke_agent(OWNER, AGENT).unwrap();
    assert_eq!(s.stats().active_agents, 1);
}

#[test]
fn set_protocol_fee_checks_owner_then_bound() {
    let mut s = deployed();
    assert_eq!(s.set_protocol_fee_bps(STRANGER, 20_000).err(), Some(Error::NotOwner));
    assert_eq!(s.set_protocol_fee_bps(OWNER, 10_000).err(), Some(Error::InvalidAmount));
    assert_eq!(s.protocol_fee_bps(), 50);
    s.set_protocol_fee_bps(OWNER, 100).unwrap();
    assert_eq!(s.protocol_fee_bps(), 100);
}

#[test]
fn register_invoice_records_and_reads_back() {
    let mut s = deployed();
    let (id0, ev) = s
        .register_invoice(FARMER, 1000, "Cocoa".to_string(), "Ashanti".to_string(), m(500), 5000)
        .unwrap();
    assert_eq!(id0, 0);
    assert_eq!(ev.invoice_id, 0);
    assert_eq!(ev.farmer, FARMER);
    assert_eq!(ev.commodity, "Cocoa");
    assert_eq!(ev.face_amount, m(500));
    let (id1, _) = s
        .register_invoice(STRANGER, 1000, "Maize".to_string(), "Kano".to_string(), m(7), 1001)
        .unwrap();
    assert_eq!(id1, 1);
    assert_eq!(s.total_invoices(), 2);
    let inv = s.get_invoice(0).unwrap();
    assert_eq!(inv.id, 0);
    assert_eq!(inv.farmer, FARMER);
    assert_eq!(inv.commodity, "Cocoa");
    assert_eq!(inv.region, "Ashanti");
    assert_eq!(inv.face_amount, m(500));
    assert_eq!(inv.advance_amount, m(0));
    assert_eq!(inv.maturity, 5000);
    assert_eq!(inv.status, STATUS_REGISTERED);
    assert_eq!(inv.funder, zero_address());
    assert_eq!(inv.created_at, 1000);
    assert!(s.get_verdict(0).is_none());
}

#[test]
fn register_invoice_rejects_zero_face_and_past_maturity() {
    let mut s = deployed();
    let r = s.register_invoice(FARMER, 1000, "A".to_string(), "B".to_string(), m(0), 5000);
    assert_eq!(r.err(), Some(Error::InvalidAmount));
    let r = s.register_invoice(FARMER, 1000, "A".to_string(), "B".to_string(), m(1), 1000);
    assert_eq!(r.err(), Some(Error::InvalidAmount));
    assert_eq!(s.total_invoices(), 0);
}

#[test]
fn get_invoice_of_unknown_id_is_not_found() {
    let s = deployed();
    assert_eq!(s.get_invoice(0).err(), Some(Error::InvoiceNotFound));
    assert!(s.get_verdict(3).is_none());
}

#[test]
fn post_verdict_evaluates_and_counts_x402() {
    let (mut s, id) = with_invoice();
    let ev = s
        .post_verdict(AGENT, 1100, id, 820, "AA".to_string(), 8000, 750, "h".to_string(), m(100))
        .unwrap();
    assert_eq!(ev.invoice_id, id);
    assert_eq!(ev.score, 820);
    assert_eq!(ev.risk_band, "AA");
    assert_eq!(ev.agent, AGENT);
    assert_eq!(ev.x402_cost, m(100));
    assert_eq!(s.get_invoice(id).unwrap().status, STATUS_EVALUATED);
    let v = s.get_verdict(id).unwrap();
    assert_eq!(v.invoice_id, id);
    assert_eq!(v.max_advance_bps, 8000);
    assert_eq!(v.discount_rate_bps, 750);
    assert_eq!(v.data_hash, "h");
    assert_eq!(v.agent, AGENT);
    assert_eq!(v.timestamp, 1100);
    assert_eq!(s.total_x402_spent(), m(100));
}

#[test]
fn post_verdict_errors_in_check_order() {
    let (mut s, id) = with_invoice();
    let post = |s: &mut AgriTrust, who: Address, id: u64, score: u32, max: u32, disc: u32| {
        s.post_verdict(who, 1100, id, score, "B".to_string(), max, disc, "h".to_string(), m(1))
            .err()
    };
    assert_eq!(post(&mut s, STRANGER, 99, 2000, 20_000, 20_000), Some(Error::NotAuthorized));
    assert_eq!(post(&mut s, AGENT, 99, 1001, 20_000, 20_000), Some(Error::InvalidAmount));
    assert_eq!(post(&mut s, AGENT, 99, 1000, 10_001, 20_000), Some(Error::AdvanceTooHigh));
    assert_eq!(post(&mut s, AGENT, 99, 1000, 10_000, 10_001), Some(Error::AdvanceTooHigh));
    assert_eq!(post(&mut s, AGENT, 99, 1000, 10_000, 10_000), Some(Error::InvoiceNotFound));
    assert_eq!(post(&mut s, AGENT, id, 1000, 10_000, 10_000), None);
    assert_eq!(post(&mut s, AGENT, id, 1000, 10_000, 10_000), Some(Error::WrongStatus));
    assert_eq!(s.total_x402_spent(), m(1));
}

#[test]
fn fund_invoice_pays_within_the_cap() {
    let (mut s, id) = evaluated();
    // Cap: 100 CSPR * 8000 / 10000 = 80 CSPR.
    assert_eq!(s.fund_invoice(FUNDER, id, m(80_000_000_001), m(80_000_000_001)).err(), Some(Error::AdvanceTooHigh));
    let (ev, pay) = s.fund_invoice(FUNDER, id, m(80_000_000_000), m(80_000_000_000)).unwrap();
    assert_eq!(pay.to, FARMER);
    assert_eq!(pay.amount, m(80_000_000_000));
    assert_eq!(ev.invoice_id, id);
    assert_eq!(ev.funder, FUNDER);
    assert_eq!(ev.advance_amount, m(80_000_000_000));
    let inv = s.get_invoice(id).unwrap();
    assert_eq!(inv.status, STATUS_FUNDED);
    assert_eq!(inv.funder, FUNDER);
    assert_eq!(inv.advance_amount, m(80_000_000_000));
    assert_eq!(s.total_funded(), m(80_000_000_000));
}

#[test]
fn fund_invoice_errors() {
    let (mut s, id) = with_invoice();
    assert_eq!(s.fund_invoice(FUNDER, id, m(0), m(0)).err(), Some(Error::InvalidAmount));
    assert_eq!(s.fund_invoice(FUNDER, 7, m(1), m(1)).err(), Some(Error::InvoiceNotFound));
    assert_eq!(s.fund_invoice(FUNDER, id, m(1), m(1)).err(), Some(Error::NotEvaluated));
    assert_eq!(s.total_funded(), m(0));
}

#[test]
fn repay_and_settle_splits_fee_and_payout() {
    let (mut s, id) = funded();
    assert_eq!(s.repay_and_settle(1999, id, m(FACE)).err(), Some(Error::CannotRepayEarly));
    assert_eq!(s.repay_and_settle(2000, id, m(FACE - 1)).err(), Some(Error::InsufficientPayment));
    let (ev, to_funder, to_owner) = s.repay_and_settle(2000, id, m(FACE)).unwrap();
    let payout = to_funder.amount;
    assert_eq!(to_funder.to, FUNDER);
    assert_eq!(to_owner.to, OWNER);
    assert_eq!(to_owner.amount, m(500_000_000));
    assert_eq!(ev.invoice_id, id);
    assert_eq!(ev.funder, FUNDER);
    assert_eq!(ev.repayment, m(FACE));
    // 0.5% of 100 CSPR.
    assert_eq!(ev.fee, m(500_000_000));
    assert_eq!(payout, m(99_500_000_000));
    assert_eq!(s.get_invoice(id).unwrap().status, STATUS_SETTLED);
    assert_eq!(s.total_settled(), m(FACE));
    assert_eq!(s.repay_and_settle(3000, id, m(FACE)).err(), Some(Error::NotFunded));
}

#[test]
fn repay_errors_before_funding() {
    let (mut s, id) = evaluated();
    assert_eq!(s.repay_and_settle(5000, 9, m(FACE)).err(), Some(Error::InvoiceNotFound));
    assert_eq!(s.repay_and_settle(5000, id, m(FACE)).err(), Some(Error::NotFunded));
}

#[test]
fn declare_default_after_grace_by_funder() {
    let (mut s, id) = funded();
    let grace_end = 2000 + 259_200;
    assert_eq!(s.declare_default(FUNDER, grace_end - 1, id).err(), Some(Error::NotPastGrace));
    assert_eq!(s.declare_default(STRANGER, grace_end, id).err(), Some(Error::UnauthorizedFunder));
    let ev = s.declare_default(FUNDER, grace_end, id).unwrap();
    assert_eq!(ev.invoice_id, id);
    assert_eq!(ev.funder, FUNDER);
    assert_eq!(s.get_invoice(id).unwrap().status, STATUS_DEFAULTED);
    assert_eq!(s.total_defaulted(), m(80_000_000_000));
    // Defaulted is final: it can be neither settled nor defaulted again.
    assert_eq!(s.repay_and_settle(grace_end, id, m(FACE)).err(), Some(Error::NotFunded));
    assert_eq!(s.declare_default(FUNDER, grace_end, id).err(), Some(Error::NotFunded));
}

#[test]
fn declare_default_by_agent() {
    let (mut s, id) = funded();
    assert!(s.declare_default(AGENT, 2000 + 259_200, id).is_ok());
    assert_eq!(s.declare_default(AGENT, 0, 42).err(), Some(Error::InvoiceNotFound));
}

#[test]
fn defaulted_total_never_exceeds_funded_total() {
    let (mut s, id) = funded();
    s.declare_default(FUNDER, 10_000_000, id).unwrap();
    let st = s.stats();
    assert!(st.total_defaulted.le(&st.total_funded));
}

#[test]
fn full_lifecycle_stats() {
    let (mut s, id) = funded();
    s.repay_and_settle(2000, id, m(FACE)).unwrap();
    let st = s.stats();
    assert_eq!(st.total_invoices, 1);
    assert_eq!(st.total_funded, m(80_000_000_000));
    assert_eq!(st.total_settled, m(FACE));
    assert_eq!(st.total_defaulted, m(0));
    assert_eq!(st.total_x402_spent, m(100_000_000));
    assert_eq!(st.active_agents, 1);
}

#[test]
fn refused_calls_leave_state_unchanged() {
    let (mut s, id) = evaluated();
    let before = s.get_invoice(id).unwrap();
    assert!(s.fund_invoice(FUNDER, id, m(FACE), m(FACE)).is_err());
    let after = s.get_invoice(id).unwrap();
    assert_eq!(before.status, after.status);
    assert_eq!(before.advance_amount, after.advance_amount);
    assert_eq!(s.total_funded(), m(0));
}

#[test]
fn error_codes_match_the_contract() {
    let codes = [
        (Error::NotOwner, 1),
        (Error::NotAuthorized, 2),
        (Error::InvoiceNotFound, 3),
        (Error::NotEvaluated, 5),
        (Error::InsufficientPayment, 6),
        (Error::AdvanceTooHigh, 9),
        (Error::InvalidAmount, 10),
        (Error::UnauthorizedFunder, 11),
        (Error::NotFunded, 12),
        (Error::WrongStatus, 13),
        (Error::CannotRepayEarly, 14),
        (Error::NotPastGrace, 15),
        (Error::VerdictNotFound, 16),
    ];
    for (e, c) in codes {
        assert_eq!(e.code(), c);
    }
}

#[test]
fn address_equality_compares_kind_and_hash() {
    assert_eq!(Address::Account([7u8; 32]), Address::Account([7u8; 32]));
    assert_ne!(Address::Account([7u8; 32]), Address::Contract([7u8; 32]));
    let mut h = [7u8; 32];
    h[31] = 8;
    assert_ne!(Address::Account([7u8; 32]), Address::Account(h));
    assert_eq!(zero_address(), Address::Account([0u8; 32]));
}

#[test]
fn later_calls_keep_registered_data_and_move_statuses_forward() {
    let (mut s, first) = funded();
    let (second, _) = s
        .register_invoice(STRANGER, 1500, "Coffee".to_string(), "Sidama".to_string(), m(9), 3000)
        .unwrap();
    s.repay_and_settle(2000, first, m(FACE)).unwrap();
    let a = s.get_invoice(first).unwrap();
    assert_eq!(a.id, first);
    assert_eq!(a.farmer, FARMER);
    assert_eq!(a.commodity, "Maize");
    assert_eq!(a.face_amount, m(FACE));
    assert_eq!(a.advance_amount, m(80_000_000_000));
    assert_eq!(a.funder, FUNDER);
    assert_eq!(a.status, STATUS_SETTLED);
    let b = s.get_invoice(second).unwrap();
    assert_eq!(b.id, second);
    assert_eq!(b.farmer, STRANGER);
    assert_eq!(b.status, STATUS_REGISTERED);
    // The verdict of the first invoice stays.
    assert_eq!(s.get_verdict(first).unwrap().score, 820);
    assert!(s.get_verdict(second).is_none());
}

#[test]
fn amounts_beyond_64_bits() {
    let mut s = deployed();
    s.authorize_agent(OWNER, AGENT).unwrap();
    // 2^64 motes.
    let face = Motes::from_words([0, 1, 0, 0, 0, 0, 0, 0]);
    let (id, _) = s
        .register_invoice(FARMER, 0, "Cocoa".to_string(), "Ashanti".to_string(), face, 10)
        .unwrap();
    s.post_verdict(AGENT, 1, id, 500, "B".to_string(), 5000, 0, "h".to_string(), m(0)).unwrap();
    // Half of 2^64.
    let half = Motes::from_u64(1u64 << 63);
    assert_eq!(s.fund_invoice(FUNDER, id, half.add(&m(1)), half.add(&m(1))).err(), Some(Error::AdvanceTooHigh));
    s.fund_invoice(FUNDER, id, half, half).unwrap();
    let (ev, to_funder, to_owner) = s.repay_and_settle(10, id, face).unwrap();
    let payout = to_funder.amount;
    assert_eq!(to_owner.amount, ev.fee);
    // 0.5% of 2^64 rounded down, and the rest to the funder.
    assert_eq!(ev.fee, m(92_233_720_368_547_758));
    assert_eq!(payout.add(&ev.fee), face);
    assert_eq!(s.total_settled(), face);
}

#[test]
fn fund_invoice_needs_exactly_the_advance_attached() {
    let (mut s, id) = evaluated();
    let adv = m(50_000_000_000);
    assert_eq!(s.fund_invoice(FUNDER, id, adv, m(49_999_999_999)).err(), Some(Error::InsufficientPayment));
    assert_eq!(s.fund_invoice(FUNDER, id, adv, m(50_000_000_001)).err(), Some(Error::InsufficientPayment));
    assert_eq!(s.fund_invoice(FUNDER, id, adv, m(0)).err(), Some(Error::InsufficientPayment));
    assert_eq!(s.get_invoice(id).unwrap().status, STATUS_EVALUATED);
    assert_eq!(s.total_funded(), m(0));
    // The cap is checked before the payment.
    assert_eq!(s.fund_invoice(FUNDER, id, m(FACE), m(0)).err(), Some(Error::AdvanceTooHigh));
    let (_, pay) = s.fund_invoice(FUNDER, id, adv, adv).unwrap();
    assert_eq!(pay.to, FARMER);
    assert_eq!(pay.amount, adv);
}

#[test]
fn unpaid_repayment_keeps_invoice_open_to_default() {
    let (mut s, id) = funded();
    assert_eq!(s.repay_and_settle(2000, id, m(0)).err(), Some(Error::InsufficientPayment));
    assert_eq!(s.get_invoice(id).unwrap().status, STATUS_FUNDED);
    assert!(s.declare_default(FUNDER, 2000 + 259_200, id).is_ok());
}

#[test]
fn overpaid_repayment_still_pays_face_split() {
    let (mut s, id) = funded();
    let (_, to_funder, to_owner) = s.repay_and_settle(2000, id, m(FACE + 7)).unwrap();
    assert_eq!(to_funder.amount.add(&to_owner.amount), m(FACE));
}

#[test]
fn default_grace_check_does_not_overflow() {
    let mut s = deployed();
    s.authorize_agent(OWNER, AGENT).unwrap();
    let (id, _) = s
        .register_invoice(FARMER, 0, "Tea".to_string(), "Kericho".to_string(), m(100), u64::MAX)
        .unwrap();
    s.post_verdict(AGENT, 1, id, 900, "A".to_string(), 10_000, 0, "h".to_string(), m(0)).unwrap();
    s.fund_invoice(FUNDER, id, m(100), m(100)).unwrap();
    // Maturity plus grace is past u64::MAX, so the grace period never ends.
    assert_eq!(s.declare_default(FUNDER, u64::MAX, id).err(), Some(Error::NotPastGrace));
}
