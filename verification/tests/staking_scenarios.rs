use staking_ledger::contract::{
    execute_stake, execute_withdraw, instantiate, query_config, query_staking_info,
};
use staking_ledger::error::ContractError;
use staking_ledger::msg::{Coin, ExecuteAck, InstantiateMsg};

fn usei(amount: u128) -> Vec<Coin> {
    vec![Coin {
        denom: "usei".to_string(),
        amount,
    }]
}

#[test]
fn test_staking() {
    let admin = "admin".to_string();
    let user = "user".to_string();
    let mut ledger = instantiate(InstantiateMsg { fee: 10000 }, admin.clone());

    let config = query_config(&ledger);
    assert_eq!(config.fee, 10000);
    assert_eq!(config.owner, admin);

    execute_stake(&mut ledger, admin.clone(), &usei(20000)).unwrap();
    assert_eq!(query_staking_info(&ledger, &admin), Ok(20000));

    execute_stake(&mut ledger, user.clone(), &usei(20000)).unwrap();
    assert_eq!(query_staking_info(&ledger, &user), Ok(20000));

    let ack = execute_withdraw(&mut ledger, admin.clone(), 40000).unwrap();
    match ack {
        ExecuteAck::Withdrawn { transfer } => {
            assert_eq!(transfer.to_address, admin);
            assert_eq!(transfer.denom, "usei".to_string());
            assert_eq!(transfer.amount, 40000);
        }
        other => panic!("unexpected ack: {:?}", other),
    }
    // The drawdown is independent of the recorded stakes.
    assert_eq!(query_staking_info(&ledger, &admin), Ok(20000));
    assert_eq!(query_staking_info(&ledger, &user), Ok(20000));
}

#[test]
fn insufficient_stake_creates_no_record() {
    let admin = "admin".to_string();
    let user = "user".to_string();
    let mut ledger = instantiate(InstantiateMsg { fee: 10000 }, admin.clone());

    let r = execute_stake(&mut ledger, user.clone(), &usei(5000));
    assert_eq!(r, Err(ContractError::Insufficient));
    assert_eq!(
        query_staking_info(&ledger, &user),
        Err(ContractError::NotFound)
    );

    // A failed stake alters no existing record either.
    execute_stake(&mut ledger, user.clone(), &usei(12000)).unwrap();
    let r = execute_stake(&mut ledger, user.clone(), &usei(5000));
    assert_eq!(r, Err(ContractError::Insufficient));
    assert_eq!(query_staking_info(&ledger, &user), Ok(12000));
}
