use bidding_platform::msg::{QueryMsg, QueryResponse};
use bidding_platform::query;
use bidding_platform::state::{BidStatus, Config, Ledger};

fn config(commission: u128) -> Config {
    Config {
        commodity: "gold".to_string(),
        contract_owner: "owner".to_string(),
        commission,
        denom: "uatom".to_string(),
        status: BidStatus::Opened,
    }
}

fn entries(list: &[(&str, u128)]) -> Vec<(String, u128)> {
    list.iter().map(|(p, a)| (p.to_string(), *a)).collect()
}

#[test]
fn restore_accepts_consistent_parts() {
    let ledger = Ledger::restore(
        config(1000),
        ("alex".to_string(), 10),
        entries(&[("owner", 5), ("alex", 10), ("ann", 0)]),
    )
    .unwrap();
    match query(&ledger, QueryMsg::HighestBidder {}).unwrap() {
        QueryResponse::HighestBidder(h) => {
            assert_eq!(h.addr, "alex");
            assert_eq!(h.total_bid, 10);
        }
        other => panic!("unexpected answer {:?}", other),
    }
    assert_eq!(ledger.total_of(&"owner".to_string()), 5);
    assert_eq!(ledger.entries().len(), 3);
}

#[test]
fn restore_refuses_inconsistent_parts() {
    let winner = ("alex".to_string(), 10);
    // the winner's entry differs from the winning total
    assert!(Ledger::restore(config(1000), winner.clone(), entries(&[("alex", 9)])).is_none());
    // the winner has no entry
    assert!(Ledger::restore(config(1000), winner.clone(), entries(&[("owner", 10)])).is_none());
    // a party appears twice
    assert!(Ledger::restore(
        config(1000),
        winner.clone(),
        entries(&[("owner", 1), ("alex", 10), ("owner", 2)])
    )
    .is_none());
    // an entry exceeds the winning total
    assert!(Ledger::restore(
        config(1000),
        winner.clone(),
        entries(&[("alex", 10), ("ann", 11)])
    )
    .is_none());
    // the rate is above 100%
    assert!(Ledger::restore(config(1_000_001), winner.clone(), entries(&[("alex", 10)])).is_none());
}
