use mitosis::error::ContractError;
use mitosis::liquidity_manager::contract::{LiquidityManager, REPLY_CREATE_DENOM_SUCCESS};
use mitosis::liquidity_manager::msg::{ExecuteMsg, QueryMsg, QueryResponse};
use mitosis::pause::PauseInfo;
use mitosis::types::{coin, Coin, Env, MessageInfo};

const A1: &str = "osmo1a1";
const A2: &str = "osmo1a2";
const LM: &str = "osmo1liquiditymanager";

fn env_at(now: u64) -> Env {
    Env { now, contract_address: LM.to_string() }
}

fn info(sender: &str, funds: &[Coin]) -> MessageInfo {
    MessageInfo { sender: sender.to_string(), funds: funds.to_vec() }
}

fn lp() -> String {
    format!("factory/{}/uusdc", LM)
}

fn manager(now: u64) -> LiquidityManager {
    let (mut lm, _) = LiquidityManager::instantiate(
        &env_at(now),
        &info(A1, &[]),
        "uusdc".to_string(),
        "uusdc".to_string(),
        20,
    );
    lm.reply(REPLY_CREATE_DENOM_SUCCESS, Some(lp())).unwrap();
    lm
}

fn balances_of(lm: &LiquidityManager, who: &str) -> Vec<Coin> {
    match lm.query(QueryMsg::GetBalance { depositor: who.to_string() }).unwrap() {
        QueryResponse::Balance(b) => b.assets,
        other => panic!("unexpected {:?}", other),
    }
}

#[test]
fn happy_path_deposit() {
    let mut lm = manager(100);
    lm.deposit(&env_at(100), info(A2, &[coin(100000, "uusdc")]), Some(A2.to_string())).unwrap();
    assert_eq!(lm.balances.balance_of(&A2.to_string(), &"uusdc".to_string()), Some(100000));
    assert_eq!(balances_of(&lm, A2), vec![coin(100000, "uusdc")]);
}

#[test]
fn deposit_depositor_override() {
    let mut lm = manager(100);
    lm.deposit(&env_at(100), info(A1, &[coin(100000, "uosmo"), coin(200000, "uusdc")]), Some(A2.to_string()))
        .unwrap();
    assert_eq!(balances_of(&lm, A1), vec![]);
    assert_eq!(lm.balances.balance_of(&A2.to_string(), &"uosmo".to_string()), Some(100000));
    assert_eq!(lm.balances.balance_of(&A2.to_string(), &"uusdc".to_string()), Some(200000));
}

#[test]
fn withdraw_insufficient() {
    let mut lm = manager(100);
    lm.deposit(&env_at(100), info(A1, &[coin(100000, "uosmo")]), None).unwrap();
    let err = lm.withdraw(&env_at(100), info(A1, &[]), Some(A1.to_string()), coin(300000, "uosmo")).unwrap_err();
    assert!(matches!(err, ContractError::InsufficientWithdrawableAsset {}));
    assert_eq!(lm.balances.balance_of(&A1.to_string(), &"uosmo".to_string()), Some(100000));
}

#[test]
fn bond_unbond_timing() {
    let mut lm = manager(0);
    lm.bond_lp(&env_at(0), info(A1, &[coin(100000, &lp())])).unwrap();
    lm.start_unbond_lp(&env_at(10), info(A1, &[]), 40000).unwrap();
    let u = lm.get_unbond(0).unwrap();
    assert_eq!(u.unbond_time, 30);
    let err = lm.finish_unbond_lp(&env_at(25), info(A1, &[]), 0).unwrap_err();
    assert!(matches!(err, ContractError::UnbondingNotFinished {}));
    let resp = lm.finish_unbond_lp(&env_at(31), info(A1, &[]), 0).unwrap();
    assert_eq!(resp.messages.len(), 1);
    assert_eq!(lm.get_bonds(&A1.to_string()).amount, 60000);
    assert!(lm.get_unbond(0).is_err());
}

#[test]
fn start_unbond_over_available() {
    let mut lm = manager(0);
    lm.bond_lp(&env_at(0), info(A1, &[coin(100, &lp())])).unwrap();
    lm.start_unbond_lp(&env_at(1), info(A1, &[]), 60).unwrap();
    let err = lm.start_unbond_lp(&env_at(1), info(A1, &[]), 41).unwrap_err();
    assert!(matches!(err, ContractError::InsufficientBondAmount {}));
    lm.start_unbond_lp(&env_at(1), info(A1, &[]), 40).unwrap();
    let err = lm.bond_lp(&env_at(1), info(A1, &[coin(5, "uusdc")])).unwrap_err();
    assert!(matches!(err, ContractError::DenomNotFound { .. }));
}

#[test]
fn pause_then_expire() {
    let now = 1000;
    let mut lm = manager(now);
    lm.pause(&env_at(now), info(A1, &[]), now + 1000).unwrap();
    let err = lm.deposit(&env_at(now), info(A2, &[coin(1, "uusdc")]), None).unwrap_err();
    assert!(matches!(err, ContractError::PausedError {}));
    let err = lm.deposit(&env_at(now + 999), info(A2, &[coin(1, "uusdc")]), None).unwrap_err();
    assert!(matches!(err, ContractError::PausedError {}));
    lm.deposit(&env_at(now + 1001), info(A2, &[coin(1, "uusdc")]), None).unwrap();
    assert_eq!(lm.gov.paused, PauseInfo::default());
}

#[test]
fn pause_blocks_every_ledger_message() {
    let now = 50;
    let mut lm = manager(now);
    lm.pause(&env_at(now), info(A1, &[]), now + 10).unwrap();
    let msgs = vec![
        ExecuteMsg::Deposit { depositor: None },
        ExecuteMsg::Withdraw { withdrawer: None, amount: coin(1, "uusdc") },
        ExecuteMsg::Delegate {},
        ExecuteMsg::Undelegate {},
        ExecuteMsg::Bond {},
        ExecuteMsg::StartUnbond { amount: 1 },
        ExecuteMsg::Unbond { unbond_id: 0 },
    ];
    for m in msgs {
        let err = lm.execute(&env_at(now + 9), info(A1, &[coin(1, "uusdc")]), m).unwrap_err();
        assert!(matches!(err, ContractError::PausedError {}));
    }
}

#[test]
fn deposit_withdraw_round_trip() {
    let mut lm = manager(0);
    lm.deposit(&env_at(0), info(A1, &[coin(7, "uosmo")]), None).unwrap();
    let before = balances_of(&lm, A1);
    lm.deposit(&env_at(0), info(A1, &[coin(5, "uosmo")]), None).unwrap();
    lm.withdraw(&env_at(0), info(A1, &[]), None, coin(5, "uosmo")).unwrap();
    assert_eq!(balances_of(&lm, A1), before);
    lm.deposit(&env_at(0), info(A1, &[coin(3, "uusdc")]), None).unwrap();
    lm.withdraw(&env_at(0), info(A1, &[]), None, coin(3, "uusdc")).unwrap();
    assert_eq!(balances_of(&lm, A1), vec![coin(7, "uosmo"), coin(0, "uusdc")]);
}

#[test]
fn bond_unbond_round_trip() {
    let mut lm = manager(0);
    lm.bond_lp(&env_at(0), info(A1, &[coin(100, &lp())])).unwrap();
    let before = lm.get_bonds(&A1.to_string());
    lm.bond_lp(&env_at(1), info(A1, &[coin(30, &lp())])).unwrap();
    lm.start_unbond_lp(&env_at(2), info(A1, &[]), 30).unwrap();
    lm.finish_unbond_lp(&env_at(22), info(A1, &[]), 0).unwrap();
    assert_eq!(lm.get_bonds(&A1.to_string()), before);
    assert!(lm.get_unbonds_by_owner(&A1.to_string()).items.is_empty());
}

#[test]
fn delegate_tracks_lp_supply() {
    let mut lm = manager(0);
    lm.delegate(&env_at(0), info(A1, &[coin(500, "uusdc")])).unwrap();
    lm.delegate(&env_at(0), info(A2, &[coin(250, "uusdc")])).unwrap();
    lm.undelegate(&env_at(0), info(A1, &[coin(100, &lp())])).unwrap();
    assert_eq!(lm.delegated, 650);
    match lm.query(QueryMsg::GetTotalDelegates {}).unwrap() {
        QueryResponse::TotalDelegates(t) => assert_eq!(t.amount, coin(650, &lp())),
        other => panic!("unexpected {:?}", other),
    }
    let err = lm.delegate(&env_at(0), info(A1, &[coin(1, "uusdc"), coin(1, "uusdc")])).unwrap_err();
    assert!(matches!(err, ContractError::DelegateAssetNotMatches {}));
    let err = lm.delegate(&env_at(0), info(A1, &[])).unwrap_err();
    assert!(matches!(err, ContractError::DelegateAssetNotMatches {}));
}

#[test]
fn ledger_total_follows_coins_in_and_out() {
    let mut lm = manager(0);
    let total = |lm: &LiquidityManager| -> u128 {
        [A1, A2]
            .iter()
            .map(|a| lm.balances.balance_of(&a.to_string(), &"uosmo".to_string()).unwrap_or(0))
            .sum()
    };
    let mut held: u128 = 0;
    lm.deposit(&env_at(0), info(A1, &[coin(300, "uosmo"), coin(9, "uusdc")]), None).unwrap();
    held += 300;
    lm.deposit(&env_at(0), info(A1, &[coin(200, "uosmo")]), Some(A2.to_string())).unwrap();
    held += 200;
    assert_eq!(total(&lm), held);
    lm.withdraw(&env_at(0), info(A2, &[]), None, coin(150, "uosmo")).unwrap();
    held -= 150;
    assert_eq!(total(&lm), held);
    assert!(lm.withdraw(&env_at(0), info(A2, &[]), None, coin(51, "uosmo")).is_err());
    assert_eq!(total(&lm), 350);
}
