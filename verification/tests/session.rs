use agritrust::motes::Motes;
use agritrust::session::{proxy_step, ProxyStep};

#[test]
fn zero_amount_calls_directly() {
    assert_eq!(proxy_step(&Motes::zero()), ProxyStep::CallDirectly);
}

#[test]
fn positive_amount_funds_a_cargo_purse() {
    assert_eq!(proxy_step(&Motes::from_u64(1)), ProxyStep::FundCargoPurse);
    assert_eq!(
        proxy_step(&Motes::from_words([0, 0, 0, 0, 0, 0, 0, 1])),
        ProxyStep::FundCargoPurse
    );
}
