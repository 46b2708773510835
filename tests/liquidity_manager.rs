use mitosis::context::{get_unbond_info, get_withdraw_info, set_unbond_info, set_withdraw_info, WithdrawInfo};
use mitosis::error::ContractError;
use mitosis::gov::{Governance, GATEWAY_ROLE};
use mitosis::liquidity_manager::balances::Balances;
use mitosis::liquidity_manager::bond::{BondInfo, Bonds};
use mitosis::liquidity_manager::contract::{
    LiquidityManager, REPLY_CREATE_DENOM_SUCCESS, REPLY_WITHDRAW_SUBMESSAGE_FAILURE,
};
use mitosis::liquidity_manager::delegates::{delegate_balance, undelegate_balance};
use mitosis::liquidity_manager::msg::{ExecuteMsg, QueryMsg, QueryResponse};
use mitosis::pause::PauseInfo;
use mitosis::types::{attr, coin, sub_msg, Coin, Env, MessageInfo, Msg, ReplyOn, SubMsg};

const ADDR1: &str = "addr1";
const ADDR2: &str = "addr2";
const NOW: u64 = 1_571_797_419;
const CONTRACT: &str = "cosmos2contract";

fn mock_env() -> Env {
    Env { now: NOW, contract_address: CONTRACT.to_string() }
}

fn env_at(now: u64) -> Env {
    Env { now, contract_address: CONTRACT.to_string() }
}

fn mock_info(sender: &str, funds: &[Coin]) -> MessageInfo {
    MessageInfo { sender: sender.to_string(), funds: funds.to_vec() }
}

fn lp_denom() -> String {
    format!("factory/{}/uusdc", CONTRACT)
}

/// A manager of "uusdc" owned by `owner`, with its LP denomination created.
fn manager(owner: &str, unbonding_period: u64) -> LiquidityManager {
    let (mut lm, resp) = LiquidityManager::instantiate(
        &mock_env(),
        &mock_info(owner, &[]),
        "uusdc".to_string(),
        "uusdc".to_string(),
        unbonding_period,
    );
    assert_eq!(
        resp.messages,
        vec![SubMsg {
            id: REPLY_CREATE_DENOM_SUCCESS,
            msg: Msg::CreateDenom { sender: CONTRACT.to_string(), subdenom: "uusdc".to_string() },
            reply_on: ReplyOn::Success,
        }]
    );
    lm.reply(REPLY_CREATE_DENOM_SUCCESS, Some(lp_denom())).unwrap();
    lm
}

fn resume(lm: &mut LiquidityManager) {
    lm.gov.paused = PauseInfo { paused: true, expires_at: Some(NOW - 1000) };
}

fn stop(lm: &mut LiquidityManager) {
    lm.gov.paused = PauseInfo { paused: true, expires_at: Some(NOW + 1000) };
}

fn mock_balances(lm: &mut LiquidityManager) {
    lm.balances.deposit_balance(vec![coin(100000, "uosmo")], &ADDR1.to_string()).unwrap();
    lm.balances.deposit_balance(vec![coin(200000, "uosmo")], &ADDR2.to_string()).unwrap();
}

// ---- ledger ----

#[test]
fn test_deposit_single_balance() {
    let mut b = Balances::new();
    let a1 = ADDR1.to_string();
    let r = b.deposit_balance(vec![coin(100000, "uosmo")], &a1).unwrap();
    assert_eq!(r, vec![coin(100000, "uosmo")]);
    assert_eq!(b.balance_of(&a1, &"uosmo".to_string()), Some(100000));
    let r = b.deposit_balance(vec![coin(100000, "uosmo")], &a1).unwrap();
    assert_eq!(r, vec![coin(100000, "uosmo")]);
    assert_eq!(b.balance_of(&a1, &"uosmo".to_string()), Some(200000));
}

#[test]
fn test_deposit_single_balance_to_other() {
    let mut b = Balances::new();
    let r = b.deposit_balance(vec![coin(100000, "uosmo")], &ADDR2.to_string()).unwrap();
    assert_eq!(r, vec![coin(100000, "uosmo")]);
    assert_eq!(b.balance_of(&ADDR1.to_string(), &"uosmo".to_string()), None);
    assert_eq!(b.balance_of(&ADDR2.to_string(), &"uosmo".to_string()), Some(100000));
}

#[test]
fn test_deposit_multiple_balances() {
    let mut b = Balances::new();
    let a1 = ADDR1.to_string();
    let funds = vec![coin(100000, "uosmo"), coin(200000, "uusdc")];
    assert_eq!(b.deposit_balance(funds.clone(), &a1).unwrap(), funds);
    assert_eq!(b.balance_of(&a1, &"uosmo".to_string()), Some(100000));
    assert_eq!(b.balance_of(&a1, &"uusdc".to_string()), Some(200000));
}

#[test]
fn deposit_same_denom_twice_in_one_call() {
    let mut b = Balances::new();
    let a1 = ADDR1.to_string();
    b.deposit_balance(vec![coin(5, "uosmo"), coin(7, "uosmo")], &a1).unwrap();
    assert_eq!(b.balance_of(&a1, &"uosmo".to_string()), Some(12));
}

#[test]
fn deposit_overflow_changes_nothing() {
    let mut b = Balances::new();
    let a1 = ADDR1.to_string();
    b.deposit_balance(vec![coin(u128::MAX - 1, "uosmo")], &a1).unwrap();
    let err = b.deposit_balance(vec![coin(1, "uusdc"), coin(2, "uosmo")], &a1).unwrap_err();
    assert!(matches!(err, ContractError::Overflow {}));
    assert_eq!(b.balance_of(&a1, &"uosmo".to_string()), Some(u128::MAX - 1));
    assert_eq!(b.balance_of(&a1, &"uusdc".to_string()), None);
    assert!(!b.can_deposit(&a1, &vec![coin(u128::MAX, "x"), coin(1, "x")]));
}

#[test]
fn test_inquiry_balances() {
    let mut b = Balances::new();
    let a1 = ADDR1.to_string();
    b.deposit_balance(vec![coin(100000, "uosmo")], &a1).unwrap();
    b.deposit_balance(vec![coin(200000, "uusdc")], &a1).unwrap();
    assert_eq!(b.inquiry_balance(&a1), vec![coin(100000, "uosmo"), coin(200000, "uusdc")]);
    assert_eq!(b.inquiry_balance(&ADDR2.to_string()), vec![]);
}

#[test]
fn balances_test_withdraw_insufficient_balance() {
    let mut b = Balances::new();
    let a1 = ADDR1.to_string();
    let err = b.withdraw_balance(&a1, coin(200000, "uosmo")).unwrap_err();
    assert!(matches!(err, ContractError::DepositAssetNotFound { .. }));
    b.deposit_balance(vec![coin(100000, "uosmo")], &a1).unwrap();
    let err = b.withdraw_balance(&a1, coin(200000, "uosmo")).unwrap_err();
    assert!(matches!(err, ContractError::InsufficientWithdrawableAsset { .. }));
}

#[test]
fn test_withdraw_sufficient_balance() {
    let mut b = Balances::new();
    let a1 = ADDR1.to_string();
    b.deposit_balance(vec![coin(200000, "uosmo")], &a1).unwrap();
    assert_eq!(b.withdraw_balance(&a1, coin(50000, "uosmo")).unwrap(), coin(50000, "uosmo"));
    assert_eq!(b.balance_of(&a1, &"uosmo".to_string()), Some(150000));
}

// ---- bonds ----

fn bonds_with(bonder: &str, amount: u128, bond_time: u64) -> Bonds {
    let mut b = Bonds::new();
    b.bond(bond_time, &bonder.to_string(), amount).unwrap();
    b
}

#[test]
fn test_initialize_bond() {
    let mut b = Bonds::new();
    let r = b.bond(NOW, &ADDR1.to_string(), 100000).unwrap();
    assert_eq!(r, b.query_bond(&ADDR1.to_string()));
    assert_eq!(r, BondInfo { amount: 100000, bond_time: NOW });
}

#[test]
fn test_exist_bond() {
    let mut b = bonds_with(ADDR1, 100000, 0);
    let r = b.bond(NOW, &ADDR1.to_string(), 100000).unwrap();
    assert_eq!(r, b.query_bond(&ADDR1.to_string()));
    assert_eq!(r.amount, 200000);
    assert_eq!(r.bond_time, 0);
}

#[test]
fn test_start_unbond_successfully() {
    let mut b = bonds_with(ADDR1, 100000, 0);
    b.init_unbonds_id();
    let first = b.start_unbond(NOW, 20, &ADDR1.to_string(), 50000).unwrap();
    assert_eq!(first.amount, 50000);
    assert_eq!(first.unbond_id, 0);
    let second = b.start_unbond(NOW, 20, &ADDR1.to_string(), 40000).unwrap();
    assert_eq!(second.amount, 40000);
    assert_eq!(second.unbond_id, 1);
}

#[test]
fn test_start_unbond_failure() {
    let mut b = bonds_with(ADDR1, 100000, 0);
    b.init_unbonds_id();
    b.start_unbond(0, 0, &ADDR1.to_string(), 40000).unwrap();
    b.start_unbond(0, 0, &ADDR1.to_string(), 60000).unwrap();
    let err = b.start_unbond(NOW, 20, &ADDR1.to_string(), 50000).unwrap_err();
    assert!(matches!(err, ContractError::InsufficientBondAmount {}));
}

#[test]
fn test_finish_unbond_failure() {
    let mut b = bonds_with(ADDR1, 100000, 0);
    b.bond(0, &ADDR2.to_string(), 100000).unwrap();
    b.init_unbonds_id();
    let u = b.start_unbond(NOW, 40, &ADDR1.to_string(), 40000).unwrap();
    let err = b.finish_unbond(NOW, &ADDR1.to_string(), u.unbond_id).unwrap_err();
    assert!(matches!(err, ContractError::UnbondingNotFinished {}));
    let err = b.finish_unbond(NOW, &ADDR2.to_string(), u.unbond_id).unwrap_err();
    assert!(matches!(err, ContractError::Unauthorized {}));
}

#[test]
fn test_finish_unbond_success() {
    let mut b = bonds_with(ADDR1, 100000, 0);
    b.init_unbonds_id();
    let u = b.start_unbond(NOW - 50, 20, &ADDR1.to_string(), 40000).unwrap();
    let done = b.finish_unbond(NOW, &ADDR1.to_string(), u.unbond_id).unwrap();
    assert_eq!(done.amount, 40000);
    assert_eq!(b.query_bond(&ADDR1.to_string()).amount, 60000);
    assert!(b.query_unbond(u.unbond_id).is_err());
}

#[test]
fn test_query_bond() {
    let b = Bonds::new();
    assert_eq!(b.query_bond(&ADDR1.to_string()), BondInfo { amount: 0, bond_time: 0 });
    let b = bonds_with(ADDR1, 100000, 12);
    assert_eq!(b.query_bond(&ADDR1.to_string()), BondInfo { amount: 100000, bond_time: 12 });
}

#[test]
fn unbonds_by_owner_in_id_order() {
    let mut b = bonds_with(ADDR1, 100, 0);
    b.bond(0, &ADDR2.to_string(), 100).unwrap();
    b.start_unbond(0, 5, &ADDR1.to_string(), 10).unwrap();
    b.start_unbond(0, 5, &ADDR2.to_string(), 20).unwrap();
    b.start_unbond(0, 5, &ADDR1.to_string(), 30).unwrap();
    let mine = b.get_unbonds_by_owner(&ADDR1.to_string());
    assert_eq!(mine.iter().map(|u| (u.unbond_id, u.amount)).collect::<Vec<_>>(), vec![(0, 10), (2, 30)]);
    assert_eq!(b.query_unbonds_by_owner(&ADDR2.to_string()).len(), 1);
}

// ---- contexts ----

#[test]
fn test_set_withdraw_success() {
    let mut slot = None;
    set_withdraw_info(&mut slot, ADDR1.to_string(), coin(100000, "uosmo")).unwrap();
    let saved = slot.unwrap();
    assert_eq!(saved.to_address, ADDR1.to_string());
    assert_eq!(saved.amount, coin(100000, "uosmo"));
}

#[test]
fn test_set_withdraw_failure() {
    let mut slot = Some(WithdrawInfo { to_address: ADDR1.to_string(), amount: coin(100000, "uosmo") });
    let err = set_withdraw_info(&mut slot, ADDR1.to_string(), coin(1000, "uosmo")).unwrap_err();
    assert!(matches!(err, ContractError::WithdrawNotFlushed {}));
}

#[test]
fn test_get_withdraw_success() {
    let mut slot = Some(WithdrawInfo { to_address: ADDR1.to_string(), amount: coin(100000, "uosmo") });
    let r = get_withdraw_info(&mut slot).unwrap();
    assert_eq!(r, WithdrawInfo { to_address: ADDR1.to_string(), amount: coin(100000, "uosmo") });
    assert!(matches!(get_withdraw_info(&mut slot), Err(ContractError::NotFound { .. })));
}

#[test]
fn test_set_unbond_success() {
    let mut slot = None;
    set_unbond_info(&mut slot, ADDR1.to_string(), coin(100000, "uosmo")).unwrap();
    let saved = slot.unwrap();
    assert_eq!(saved.to_address, ADDR1.to_string());
    assert_eq!(saved.amount, coin(100000, "uosmo"));
}

#[test]
fn test_set_unbond_failure() {
    let mut slot = Some(WithdrawInfo { to_address: ADDR1.to_string(), amount: coin(100000, "uosmo") });
    let err = set_unbond_info(&mut slot, ADDR1.to_string(), coin(1000, "uosmo")).unwrap_err();
    assert!(matches!(err, ContractError::UnbondNotFlushed {}));
}

#[test]
fn test_get_unbond_success() {
    let mut slot = Some(WithdrawInfo { to_address: ADDR1.to_string(), amount: coin(100000, "uosmo") });
    let r = get_unbond_info(&mut slot).unwrap();
    assert_eq!(r, WithdrawInfo { to_address: ADDR1.to_string(), amount: coin(100000, "uosmo") });
    assert!(matches!(get_unbond_info(&mut slot), Err(ContractError::NotFound { .. })));
}

// ---- delegates ----

#[test]
fn test_delegates() {
    let mut total: u128 = 1000;
    assert_eq!(delegate_balance(&mut total, 2000).unwrap(), 3000);
    assert_eq!(total, 3000);
}

#[test]
fn test_undelegate_success() {
    let mut total: u128 = 3000;
    assert_eq!(undelegate_balance(&mut total, 2000).unwrap(), 1000);
    assert_eq!(total, 1000);
}

#[test]
fn test_undelegate_failure() {
    let mut total: u128 = 3000;
    let err = undelegate_balance(&mut total, 4000).unwrap_err();
    assert!(matches!(err, ContractError::InsufficientUndelegateAsset {}));
    assert_eq!(total, 3000);
}

// ---- governance state ----

#[test]
fn test_assert_owned() {
    let g = Governance::new(ADDR1.to_string());
    g.assert_owned(&ADDR1.to_string()).unwrap();
    assert!(matches!(g.assert_owned(&ADDR2.to_string()), Err(ContractError::Unauthorized {})));
}

#[test]
fn test_change_owner() {
    let mut g = Governance::new(ADDR1.to_string());
    g.change_owner(ADDR2.to_string());
    assert_eq!(g.owner, ADDR2.to_string());
}

#[test]
fn test_assert_role() {
    let mut g = Governance::new(ADDR1.to_string());
    let role = GATEWAY_ROLE.to_string();
    g.grant_role(role.clone(), ADDR1.to_string());
    g.assert_role(&role, &ADDR1.to_string()).unwrap();
    assert!(matches!(g.assert_role(&role, &ADDR2.to_string()), Err(ContractError::RoleNotExist { .. })));
}

#[test]
fn test_grant_role() {
    let mut g = Governance::new(ADDR1.to_string());
    let role = GATEWAY_ROLE.to_string();
    let r = g.grant_role(role.clone(), ADDR1.to_string());
    assert_eq!(r, (role.clone(), ADDR1.to_string()));
    assert!(g.assert_role(&role, &ADDR1.to_string()).is_ok());
}

#[test]
fn test_revoke_role() {
    let mut g = Governance::new(ADDR1.to_string());
    let role = GATEWAY_ROLE.to_string();
    let err = g.revoke_role(role.clone(), ADDR1.to_string()).unwrap_err();
    assert!(matches!(err, ContractError::RoleNotExist { .. }));
    g.grant_role(role.clone(), ADDR1.to_string());
    let r = g.revoke_role(role.clone(), ADDR1.to_string()).unwrap();
    assert_eq!(r, (role.clone(), ADDR1.to_string()));
    assert!(g.assert_role(&role, &ADDR1.to_string()).is_err());
}

// ---- handlers ----

#[test]
fn test_deposit_paused() {
    let mut lm = manager("owner", 20);
    stop(&mut lm);
    let err = lm.deposit(&mock_env(), mock_info(ADDR1, &[]), Some(ADDR1.to_string())).unwrap_err();
    assert!(matches!(err, ContractError::PausedError {}));
}

#[test]
fn deposit_without_funds() {
    let mut lm = manager("owner", 20);
    let err = lm.deposit(&mock_env(), mock_info(ADDR1, &[]), None).unwrap_err();
    assert!(matches!(err, ContractError::AssetNotFound {}));
}

#[test]
fn test_deposit() {
    let mut lm = manager("owner", 20);
    resume(&mut lm);
    let funds = [coin(100000, "uosmo"), coin(200000, "uusdc")];
    let resp = lm.deposit(&mock_env(), mock_info(ADDR1, &funds), Some(ADDR1.to_string())).unwrap();
    assert_eq!(
        resp.attributes,
        vec![
            attr("action", "deposit".to_string()),
            attr("executor", ADDR1.to_string()),
            attr("depositor", ADDR1.to_string()),
            attr("uosmo", "100000".to_string()),
            attr("uusdc", "200000".to_string()),
        ]
    );
    assert_eq!(lm.gov.paused, PauseInfo::default());
}

#[test]
fn test_deposit_to_other() {
    let mut lm = manager("owner", 20);
    resume(&mut lm);
    let funds = [coin(100000, "uosmo"), coin(200000, "uusdc")];
    let resp = lm.deposit(&mock_env(), mock_info(ADDR1, &funds), Some(ADDR2.to_string())).unwrap();
    assert_eq!(
        resp.attributes,
        vec![
            attr("action", "deposit".to_string()),
            attr("executor", ADDR1.to_string()),
            attr("depositor", ADDR2.to_string()),
            attr("uosmo", "100000".to_string()),
            attr("uusdc", "200000".to_string()),
        ]
    );
}

#[test]
fn test_withdraw_paused() {
    let mut lm = manager(ADDR1, 20);
    stop(&mut lm);
    let err = lm
        .withdraw(&mock_env(), mock_info(ADDR1, &[]), Some(ADDR1.to_string()), coin(100000, "uosmo"))
        .unwrap_err();
    assert!(matches!(err, ContractError::PausedError {}));
}

/// Only the owner or the gateway may withdraw on behalf of another account.
#[test]
fn test_ownership_unauthorized() {
    let mut lm = manager(ADDR1, 20);
    resume(&mut lm);
    mock_balances(&mut lm);
    let err = lm
        .withdraw(&mock_env(), mock_info(ADDR2, &[]), Some(ADDR1.to_string()), coin(100000, "uosmo"))
        .unwrap_err();
    assert!(matches!(err, ContractError::Unauthorized {}));
}

#[test]
fn withdraw_own_balance_and_by_gateway_role() {
    let mut lm = manager("owner", 20);
    mock_balances(&mut lm);
    lm.withdraw(&mock_env(), mock_info(ADDR2, &[]), None, coin(1000, "uosmo")).unwrap();
    assert_eq!(lm.balances.balance_of(&ADDR2.to_string(), &"uosmo".to_string()), Some(199000));
    lm.gov.grant_role(GATEWAY_ROLE.to_string(), "gateway".to_string());
    lm.withdraw(&mock_env(), mock_info("gateway", &[]), Some(ADDR1.to_string()), coin(1000, "uosmo"))
        .unwrap();
    assert_eq!(lm.balances.balance_of(&ADDR1.to_string(), &"uosmo".to_string()), Some(99000));
}

fn withdraw_send(to: &str, amount: Coin) -> SubMsg {
    SubMsg {
        id: REPLY_WITHDRAW_SUBMESSAGE_FAILURE,
        msg: Msg::BankSend { to_address: to.to_string(), amount: vec![amount] },
        reply_on: ReplyOn::Error,
    }
}

#[test]
fn test_withdraw() {
    let mut lm = manager(ADDR1, 20);
    resume(&mut lm);
    mock_balances(&mut lm);
    let amount = coin(50000, "uosmo");
    let resp = lm.withdraw(&mock_env(), mock_info(ADDR1, &[]), None, amount.clone()).unwrap();
    assert_eq!(
        resp.attributes,
        vec![
            attr("action", "withdraw".to_string()),
            attr("executor", ADDR1.to_string()),
            attr("withdrawer", ADDR1.to_string()),
        ]
    );
    assert_eq!(resp.messages, vec![withdraw_send(ADDR1, amount.clone())]);
    let resp = lm
        .withdraw(&mock_env(), mock_info(ADDR1, &[]), Some(ADDR2.to_string()), amount.clone())
        .unwrap();
    assert_eq!(
        resp.attributes,
        vec![
            attr("action", "withdraw".to_string()),
            attr("executor", ADDR1.to_string()),
            attr("withdrawer", ADDR2.to_string()),
        ]
    );
    assert_eq!(resp.messages, vec![withdraw_send(ADDR2, amount)]);
}

#[test]
fn test_withdraw_not_exist_balance() {
    let mut lm = manager(ADDR1, 20);
    resume(&mut lm);
    let amount = coin(300000, "uosmo");
    let err = lm.withdraw(&mock_env(), mock_info(ADDR1, &[]), None, amount.clone()).unwrap_err();
    assert!(matches!(err, ContractError::DepositAssetNotFound { .. }));
    let err = lm
        .withdraw(&mock_env(), mock_info(ADDR1, &[]), Some(ADDR2.to_string()), amount)
        .unwrap_err();
    assert!(matches!(err, ContractError::DepositAssetNotFound { .. }));
}

#[test]
fn withdraw_test_withdraw_insufficient_balance() {
    let mut lm = manager(ADDR1, 20);
    resume(&mut lm);
    mock_balances(&mut lm);
    let amount = coin(300000, "uosmo");
    let err = lm.withdraw(&mock_env(), mock_info(ADDR1, &[]), None, amount.clone()).unwrap_err();
    assert!(matches!(err, ContractError::InsufficientWithdrawableAsset { .. }));
    let err = lm
        .withdraw(&mock_env(), mock_info(ADDR1, &[]), Some(ADDR2.to_string()), amount)
        .unwrap_err();
    assert!(matches!(err, ContractError::InsufficientWithdrawableAsset { .. }));
}

#[test]
fn test_delegate_paused() {
    let mut lm = manager("owner", 20);
    stop(&mut lm);
    let err = lm.delegate(&mock_env(), mock_info(ADDR1, &[coin(200000, "uusdc")])).unwrap_err();
    assert!(matches!(err, ContractError::PausedError {}));
}

#[test]
fn test_delegate_wrong_coin() {
    let mut lm = manager("owner", 20);
    resume(&mut lm);
    let err = lm.delegate(&mock_env(), mock_info(ADDR1, &[coin(200000, "uosmo")])).unwrap_err();
    assert!(matches!(err, ContractError::DelegateAssetNotMatches {}));
}

#[test]
fn test_delegate() {
    let mut lm = manager("owner", 20);
    resume(&mut lm);
    let resp = lm.delegate(&mock_env(), mock_info(ADDR1, &[coin(200000, "uusdc")])).unwrap();
    assert_eq!(
        resp.messages,
        vec![
            sub_msg(Msg::Mint { sender: CONTRACT.to_string(), amount: coin(200000, &lp_denom()) }),
            sub_msg(Msg::Transfer {
                from_address: CONTRACT.to_string(),
                to_address: ADDR1.to_string(),
                amount: vec![coin(200000, &lp_denom())],
            }),
        ]
    );
    assert_eq!(
        resp.attributes,
        vec![
            attr("action", "delegate".to_string()),
            attr("executor", ADDR1.to_string()),
            attr("amount", "200000".to_string()),
            attr("total", "200000".to_string()),
        ]
    );
    assert_eq!(lm.delegated, 200000);
}

#[test]
fn test_undelegate_paused() {
    let mut lm = manager("owner", 20);
    stop(&mut lm);
    let err = lm.undelegate(&mock_env(), mock_info(ADDR1, &[coin(200000, "uusdc")])).unwrap_err();
    assert!(matches!(err, ContractError::PausedError {}));
}

#[test]
fn test_undelegate_wrong_coin() {
    let mut lm = manager("owner", 20);
    resume(&mut lm);
    let err = lm.undelegate(&mock_env(), mock_info(ADDR1, &[coin(200000, "uosmo")])).unwrap_err();
    assert!(matches!(err, ContractError::DelegateAssetNotMatches {}));
}

#[test]
fn test_undelegate() {
    let mut lm = manager("owner", 20);
    resume(&mut lm);
    lm.delegated = 300000;
    let resp = lm.undelegate(&mock_env(), mock_info(ADDR1, &[coin(200000, &lp_denom())])).unwrap();
    assert_eq!(
        resp.messages,
        vec![
            sub_msg(Msg::Burn { sender: CONTRACT.to_string(), amount: coin(200000, &lp_denom()) }),
            sub_msg(Msg::Transfer {
                from_address: CONTRACT.to_string(),
                to_address: ADDR1.to_string(),
                amount: vec![coin(200000, "uusdc")],
            }),
        ]
    );
    assert_eq!(
        resp.attributes,
        vec![
            attr("action", "undelegate".to_string()),
            attr("executor", ADDR1.to_string()),
            attr("amount", "200000".to_string()),
            attr("total", "100000".to_string()),
        ]
    );
}

#[test]
fn undelegate_more_than_delegated() {
    let mut lm = manager("owner", 20);
    let err = lm.undelegate(&mock_env(), mock_info(ADDR1, &[coin(1, &lp_denom())])).unwrap_err();
    assert!(matches!(err, ContractError::InsufficientUndelegateAsset {}));
}

#[test]
fn reply_ids() {
    let mut lm = manager("owner", 20);
    assert_eq!(lm.denom.lp_denom, lp_denom());
    assert!(lm.reply(REPLY_WITHDRAW_SUBMESSAGE_FAILURE, None).is_ok());
    assert!(matches!(lm.reply(99, None), Err(ContractError::ReplyIdNotFound { id: 99 })));
    assert!(matches!(lm.reply(REPLY_CREATE_DENOM_SUCCESS, None), Err(ContractError::NotFound { .. })));
}

#[test]
fn queries_answer_state() {
    let mut lm = manager("owner", 20);
    mock_balances(&mut lm);
    match lm.query(QueryMsg::GetConfig {}).unwrap() {
        QueryResponse::Config(c) => {
            assert_eq!(c.owner, "owner".to_string());
            assert_eq!(c.unbonding_period, 20);
            assert_eq!(c.denom, "uusdc".to_string());
            assert_eq!(c.lp_denom, lp_denom());
        }
        other => panic!("unexpected {:?}", other),
    }
    match lm.query(QueryMsg::GetBalance { depositor: ADDR1.to_string() }).unwrap() {
        QueryResponse::Balance(b) => assert_eq!(b.assets, vec![coin(100000, "uosmo")]),
        other => panic!("unexpected {:?}", other),
    }
    assert!(lm.query(QueryMsg::GetUnbond { unbond_id: 0 }).is_err());
}

#[test]
fn dispatcher_holds_ledger_calls_while_paused() {
    let mut lm = manager("owner", 20);
    stop(&mut lm);
    let err = lm
        .execute(&mock_env(), mock_info(ADDR1, &[coin(1, "uusdc")]), ExecuteMsg::Deposit { depositor: None })
        .unwrap_err();
    assert!(matches!(err, ContractError::PausedError {}));
    let err = lm.execute(&mock_env(), mock_info(ADDR1, &[]), ExecuteMsg::StartUnbond { amount: 1 }).unwrap_err();
    assert!(matches!(err, ContractError::PausedError {}));
    lm.execute(&env_at(NOW + 1000), mock_info(ADDR1, &[coin(1, "uusdc")]), ExecuteMsg::Deposit { depositor: None })
        .unwrap();
}
