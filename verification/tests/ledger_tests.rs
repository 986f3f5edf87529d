use er_transfer::ledger::{transfer_amounts, Ledger};
use er_transfer::model::{Authority, DelegateParams, Domain, ErrorCode, RelayOutcome, Signature};

#[test]
fn initialize_creates_zero_balance() {
    let mut l = Ledger::new();
    assert_eq!(l.balance_of(1), None);
    assert_eq!(l.initialize(&Signature { signer: 1 }), Ok(()));
    assert_eq!(l.balance_of(1), Some(0));
    assert!(matches!(l.authority_of(1), Some(Authority::Based)));
}

#[test]
fn initialize_twice_rejected() {
    let mut l = Ledger::from_balances(&vec![(1u64, 25u64)]);
    assert_eq!(
        l.initialize(&Signature { signer: 1 }),
        Err(ErrorCode::AlreadyInitialized)
    );
    assert_eq!(l.balance_of(1), Some(25));
}

#[test]
fn funded_transfer_scenario() {
    let mut l = Ledger::from_balances(&vec![(99u64, 100u64)]);
    assert_eq!(l.initialize(&Signature { signer: 1 }), Ok(()));
    assert_eq!(l.initialize(&Signature { signer: 2 }), Ok(()));
    assert_eq!(
        l.transfer(Domain::Base, &Signature { signer: 1 }, 1, 2, 10),
        Err(ErrorCode::InsufficientBalance)
    );
    assert_eq!(l.balance_of(1), Some(0));
    assert_eq!(l.balance_of(2), Some(0));
    assert_eq!(
        l.transfer(Domain::Base, &Signature { signer: 99 }, 99, 1, 10),
        Ok(())
    );
    assert_eq!(
        l.transfer(Domain::Base, &Signature { signer: 1 }, 1, 2, 10),
        Ok(())
    );
    assert_eq!(l.balance_of(1), Some(0));
    assert_eq!(l.balance_of(2), Some(10));
    assert_eq!(l.balance_of(99), Some(90));
}

#[test]
fn delegated_transfer_commits_scenario() {
    let mut l = Ledger::from_balances(&vec![(1u64, 100u64)]);
    let auth = Signature { signer: 1 };
    let params = DelegateParams {
        commit_frequency_ms: 1000,
        validator: None,
    };
    assert_eq!(l.delegate_balance(&auth, 1, params), Ok(()));
    assert_eq!(l.transfer(Domain::Rollup, &auth, 1, 2, 30), Ok(()));
    assert_eq!(l.undelegate(&auth, 1, RelayOutcome::Committed), Ok(()));
    assert_eq!(l.balance_of(1), Some(70));
    assert!(matches!(l.authority_of(1), Some(Authority::Based)));
    assert_eq!(l.balance_of(2), Some(30));
}

#[test]
fn delegate_twice_rejected() {
    let mut l = Ledger::from_balances(&vec![(1u64, 40u64)]);
    let auth = Signature { signer: 1 };
    let first = DelegateParams {
        commit_frequency_ms: 1000,
        validator: Some(7),
    };
    let second = DelegateParams {
        commit_frequency_ms: 2000,
        validator: None,
    };
    assert_eq!(l.delegate_balance(&auth, 1, first), Ok(()));
    assert_eq!(
        l.delegate_balance(&auth, 1, second),
        Err(ErrorCode::AlreadyDelegated)
    );
    assert_eq!(l.balance_of(1), Some(40));
    match l.authority_of(1) {
        Some(Authority::Delegated(p)) => {
            assert_eq!(p.commit_frequency_ms, 1000);
            assert_eq!(p.validator, Some(7));
        }
        _ => panic!("record should still be delegated under the first parameters"),
    }
}

#[test]
fn undelegate_never_delegated() {
    let mut l = Ledger::from_balances(&vec![(1u64, 5u64)]);
    assert_eq!(
        l.undelegate(&Signature { signer: 1 }, 1, RelayOutcome::Committed),
        Err(ErrorCode::NotDelegated)
    );
    assert_eq!(l.balance_of(1), Some(5));
    assert!(matches!(l.authority_of(1), Some(Authority::Based)));
}

#[test]
fn undelegate_relay_failure_is_retryable() {
    let mut l = Ledger::from_balances(&vec![(1u64, 60u64)]);
    let auth = Signature { signer: 1 };
    let params = DelegateParams {
        commit_frequency_ms: 500,
        validator: None,
    };
    assert_eq!(l.delegate_balance(&auth, 1, params), Ok(()));
    assert_eq!(
        l.undelegate(&auth, 1, RelayOutcome::Failed),
        Err(ErrorCode::ReconciliationFailed)
    );
    assert!(matches!(l.authority_of(1), Some(Authority::Delegated(_))));
    assert_eq!(l.balance_of(1), Some(60));
    assert_eq!(l.undelegate(&auth, 1, RelayOutcome::Committed), Ok(()));
    assert!(matches!(l.authority_of(1), Some(Authority::Based)));
    assert_eq!(l.balance_of(1), Some(60));
}

#[test]
fn unauthorized_signature_rejected() {
    let mut l = Ledger::from_balances(&vec![(1u64, 50u64)]);
    let wrong = Signature { signer: 2 };
    let params = DelegateParams {
        commit_frequency_ms: 100,
        validator: None,
    };
    assert_eq!(
        l.delegate_balance(&wrong, 1, params),
        Err(ErrorCode::Unauthorized)
    );
    assert_eq!(
        l.transfer(Domain::Base, &wrong, 1, 3, 5),
        Err(ErrorCode::Unauthorized)
    );
    assert_eq!(
        l.undelegate(&wrong, 1, RelayOutcome::Committed),
        Err(ErrorCode::Unauthorized)
    );
    assert_eq!(l.balance_of(1), Some(50));
    assert!(matches!(l.authority_of(1), Some(Authority::Based)));
}

#[test]
fn missing_record_rejected() {
    let mut l = Ledger::new();
    let auth = Signature { signer: 1 };
    let params = DelegateParams {
        commit_frequency_ms: 100,
        validator: None,
    };
    assert_eq!(
        l.delegate_balance(&auth, 1, params),
        Err(ErrorCode::NotInitialized)
    );
    assert_eq!(
        l.transfer(Domain::Base, &auth, 1, 2, 0),
        Err(ErrorCode::NotInitialized)
    );
    assert_eq!(
        l.undelegate(&auth, 1, RelayOutcome::Committed),
        Err(ErrorCode::NotInitialized)
    );
}

#[test]
fn base_transfer_rejected_while_delegated() {
    let mut l = Ledger::from_balances(&vec![(1u64, 80u64), (2u64, 0u64)]);
    let auth = Signature { signer: 1 };
    let params = DelegateParams {
        commit_frequency_ms: 1000,
        validator: None,
    };
    assert_eq!(l.delegate_balance(&auth, 1, params), Ok(()));
    assert_eq!(
        l.transfer(Domain::Base, &auth, 1, 2, 10),
        Err(ErrorCode::AlreadyDelegated)
    );
    assert_eq!(l.balance_of(1), Some(80));
    assert_eq!(l.balance_of(2), Some(0));
}

#[test]
fn rollup_transfer_rejected_while_based() {
    let mut l = Ledger::from_balances(&vec![(1u64, 80u64)]);
    let auth = Signature { signer: 1 };
    assert_eq!(
        l.transfer(Domain::Rollup, &auth, 1, 2, 10),
        Err(ErrorCode::NotDelegated)
    );
    assert_eq!(l.balance_of(1), Some(80));
    assert_eq!(l.balance_of(2), None);
}

#[test]
fn rollup_transfer_rejected_to_based_receiver() {
    let mut l = Ledger::from_balances(&vec![(1u64, 80u64), (2u64, 3u64)]);
    let auth = Signature { signer: 1 };
    let params = DelegateParams {
        commit_frequency_ms: 1000,
        validator: None,
    };
    assert_eq!(l.delegate_balance(&auth, 1, params), Ok(()));
    assert_eq!(
        l.transfer(Domain::Rollup, &auth, 1, 2, 10),
        Err(ErrorCode::NotDelegated)
    );
    assert_eq!(l.balance_of(1), Some(80));
    assert_eq!(l.balance_of(2), Some(3));
}

#[test]
fn lazy_receiver_mirrors_senders_authority() {
    let mut l = Ledger::from_balances(&vec![(1u64, 80u64)]);
    let auth = Signature { signer: 1 };
    let params = DelegateParams {
        commit_frequency_ms: 250,
        validator: Some(9),
    };
    assert_eq!(l.delegate_balance(&auth, 1, params), Ok(()));
    assert_eq!(l.transfer(Domain::Rollup, &auth, 1, 2, 10), Ok(()));
    assert_eq!(l.balance_of(2), Some(10));
    match l.authority_of(2) {
        Some(Authority::Delegated(p)) => {
            assert_eq!(p.commit_frequency_ms, 250);
            assert_eq!(p.validator, Some(9));
        }
        _ => panic!("lazily created receiver should mirror the sender's authority domain"),
    }
}

#[test]
fn transfer_conserves_value() {
    let mut l = Ledger::from_balances(&vec![(1u64, 40u64), (2u64, 7u64)]);
    let before = l.balance_of(1).unwrap() + l.balance_of(2).unwrap();
    assert_eq!(
        l.transfer(Domain::Base, &Signature { signer: 1 }, 1, 2, 15),
        Ok(())
    );
    assert_eq!(l.balance_of(1), Some(25));
    assert_eq!(l.balance_of(2), Some(22));
    let after = l.balance_of(1).unwrap() + l.balance_of(2).unwrap();
    assert_eq!(before, after);
}

#[test]
fn self_transfer_changes_nothing() {
    let mut l = Ledger::from_balances(&vec![(1u64, 50u64)]);
    let auth = Signature { signer: 1 };
    assert_eq!(l.transfer(Domain::Base, &auth, 1, 1, 20), Ok(()));
    assert_eq!(l.balance_of(1), Some(50));
    assert_eq!(
        l.transfer(Domain::Base, &auth, 1, 1, 60),
        Err(ErrorCode::InsufficientBalance)
    );
    assert_eq!(l.balance_of(1), Some(50));
}

#[test]
fn transfer_amounts_exact_values() {
    assert_eq!(transfer_amounts(100, 5, 30), Ok((70, 35)));
    assert_eq!(transfer_amounts(10, 0, 10), Ok((0, 10)));
    assert_eq!(
        transfer_amounts(10, 0, 11),
        Err(ErrorCode::InsufficientBalance)
    );
    let (s, r) = transfer_amounts(100, 5, 30).unwrap();
    assert_eq!(s + r, 100 + 5);
}

#[test]
fn later_snapshot_entry_supersedes() {
    let l = Ledger::from_balances(&vec![(1u64, 5u64), (1u64, 9u64)]);
    assert_eq!(l.balance_of(1), Some(9));
}
