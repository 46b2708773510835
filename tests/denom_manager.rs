use mitosis::denom_manager::{Aliases, DenomManager, InstantiateMsg};
use mitosis::error::ContractError;
use mitosis::gateway::contract::Gateway;
use mitosis::gov::GATEWAY_ROLE;
use mitosis::pause::PauseInfo;
use mitosis::types::{attr, Env, MessageInfo};

const ADDR1: &str = "ADDR1";
const ADDR2: &str = "ADDR2";
const NOW: u64 = 1_571_797_419;

fn mock_env() -> Env {
    Env { now: NOW, contract_address: "cosmos2contract".to_string() }
}

fn mock_info(sender: &str) -> MessageInfo {
    MessageInfo { sender: sender.to_string(), funds: vec![] }
}

fn manager(owner: &str) -> DenomManager {
    DenomManager::instantiate(&mock_info(owner), InstantiateMsg {}).0
}

fn resume(dm: &mut DenomManager) {
    dm.gov.paused = PauseInfo { paused: true, expires_at: Some(NOW - 1000) };
}

fn stop(dm: &mut DenomManager) {
    dm.gov.paused = PauseInfo { paused: true, expires_at: Some(NOW + 1000) };
}

fn gateway(owner: &str) -> Gateway {
    Gateway::new(owner.to_string(), "lm".to_string(), "dm".to_string())
}

#[test]
fn test_add_alias_paused() {
    let mut dm = manager(ADDR1);
    stop(&mut dm);
    let err = dm
        .add_alias(&mock_env(), mock_info(ADDR1), "token".to_string(), "alias".to_string())
        .unwrap_err();
    assert!(matches!(err, ContractError::PausedError {}));
}

#[test]
fn test_add_alias_not_owned() {
    let mut dm = manager(ADDR1);
    resume(&mut dm);
    let err = dm
        .add_alias(&mock_env(), mock_info(ADDR2), "token".to_string(), "alias".to_string())
        .unwrap_err();
    assert!(matches!(err, ContractError::Unauthorized {}));
}

#[test]
fn denoms_test_add_alias() {
    let mut aliases = Aliases::new();
    let result = aliases.add_alias("0x0".to_string(), "ETH".to_string());
    assert_eq!(result, ("0x0".to_string(), "ETH".to_string()));
    assert_eq!(aliases.convert_denoms("0x0".to_string()).unwrap(), "ETH".to_string());

    let mut dm = manager(ADDR1);
    resume(&mut dm);
    let response = dm
        .add_alias(&mock_env(), mock_info(ADDR1), "token".to_string(), "alias".to_string())
        .unwrap();
    assert_eq!(
        response.attributes,
        vec![
            attr("action", "add_alias".to_string()),
            attr("executor", ADDR1.to_string()),
            attr("token", "token".to_string()),
            attr("alias", "alias".to_string()),
        ]
    );
}

fn mock_aliases() -> Aliases {
    let mut aliases = Aliases::new();
    aliases.add_alias("0x0".to_string(), "ETH".to_string());
    aliases.add_alias("0x1".to_string(), "OSMO".to_string());
    aliases
}

#[test]
fn test_convert_denom_exists() {
    let aliases = mock_aliases();
    assert_eq!(aliases.convert_denoms("0x0".to_string()).unwrap(), "ETH".to_string());
    assert_eq!(aliases.convert_denoms("0x1".to_string()).unwrap(), "OSMO".to_string());
}

#[test]
fn test_convert_denom_not_exists() {
    let aliases = mock_aliases();
    let err = aliases.convert_denoms("0x2".to_string()).unwrap_err();
    assert!(matches!(err, ContractError::DenomNotFound { .. }));
}

#[test]
fn add_alias_overwrites_earlier_alias() {
    let mut aliases = mock_aliases();
    aliases.add_alias("0x0".to_string(), "WETH".to_string());
    assert_eq!(aliases.convert_denoms("0x0".to_string()).unwrap(), "WETH".to_string());
    assert_eq!(aliases.convert_denoms("0x1".to_string()).unwrap(), "OSMO".to_string());
}

#[test]
fn gov_test_check_authority() {
    let env = mock_env();
    let mut dm = manager(ADDR1);
    let err = dm.pause(&env, mock_info(ADDR2), 0).unwrap_err();
    assert!(matches!(err, ContractError::Unauthorized {}));
    dm.gov.paused = PauseInfo { paused: true, expires_at: Some(NOW + 1) };
    let err = dm.release(&env, mock_info(ADDR2)).unwrap_err();
    assert!(matches!(err, ContractError::Unauthorized {}));

    let mut gw = gateway(ADDR1);
    let err = gw.pause(&env, mock_info(ADDR2), 0).unwrap_err();
    assert!(matches!(err, ContractError::Unauthorized {}));
    gw.gov.paused = PauseInfo { paused: true, expires_at: Some(NOW + 1) };
    let err = gw.release(&env, mock_info(ADDR2)).unwrap_err();
    assert!(matches!(err, ContractError::Unauthorized {}));
}

#[test]
fn gov_test_check_paused_state() {
    let env = mock_env();
    let mut dm = manager(ADDR1);
    dm.gov.paused = PauseInfo { paused: true, expires_at: Some(NOW + 1) };
    let err = dm.pause(&env, mock_info(ADDR1), NOW + 1).unwrap_err();
    assert!(matches!(err, ContractError::PausedError {}));
    dm.gov.paused = PauseInfo::default();
    let err = dm.release(&env, mock_info(ADDR1)).unwrap_err();
    assert!(matches!(err, ContractError::NotPausedError {}));

    let mut gw = gateway(ADDR1);
    gw.gov.paused = PauseInfo { paused: true, expires_at: Some(NOW + 1) };
    let err = gw.pause(&env, mock_info(ADDR1), NOW + 1).unwrap_err();
    assert!(matches!(err, ContractError::PausedError {}));
    gw.gov.paused = PauseInfo::default();
    let err = gw.release(&env, mock_info(ADDR1)).unwrap_err();
    assert!(matches!(err, ContractError::NotPausedError {}));
}

#[test]
fn gov_test_pause_expires_at_past() {
    let env = mock_env();
    let mut dm = manager(ADDR1);
    let err = dm.pause(&env, mock_info(ADDR1), NOW - 1).unwrap_err();
    assert!(matches!(err, ContractError::InvalidArgument { .. }));
    let mut gw = gateway(ADDR1);
    let err = gw.pause(&env, mock_info(ADDR1), NOW - 1).unwrap_err();
    assert!(matches!(err, ContractError::InvalidArgument { .. }));
}

#[test]
fn gov_test_successfully_pause() {
    let env = mock_env();
    let expires_at = NOW + 1;
    let expected = vec![
        attr("action", "pause".to_string()),
        attr("executor", ADDR1.to_string()),
        attr("expires_at", expires_at.to_string()),
    ];
    let mut dm = manager(ADDR1);
    assert_eq!(dm.pause(&env, mock_info(ADDR1), expires_at).unwrap().attributes, expected);
    assert_eq!(dm.gov.paused, PauseInfo { paused: true, expires_at: Some(expires_at) });
    let mut gw = gateway(ADDR1);
    assert_eq!(gw.pause(&env, mock_info(ADDR1), expires_at).unwrap().attributes, expected);
}

#[test]
fn gov_test_successfully_release() {
    let env = mock_env();
    let expected =
        vec![attr("action", "release".to_string()), attr("executor", ADDR1.to_string())];
    let mut dm = manager(ADDR1);
    dm.gov.paused = PauseInfo { paused: true, expires_at: Some(NOW + 1) };
    assert_eq!(dm.release(&env, mock_info(ADDR1)).unwrap().attributes, expected);
    assert_eq!(dm.gov.paused, PauseInfo::default());
    let mut gw = gateway(ADDR1);
    gw.gov.paused = PauseInfo { paused: true, expires_at: Some(NOW + 1) };
    assert_eq!(gw.release(&env, mock_info(ADDR1)).unwrap().attributes, expected);
}

#[test]
fn test_abuser_grant_role() {
    let mut dm = manager(ADDR1);
    resume(&mut dm);
    let err = dm
        .grant_role(&mock_env(), mock_info(ADDR2), GATEWAY_ROLE.to_string(), ADDR2.to_string())
        .unwrap_err();
    assert!(matches!(err, ContractError::Unauthorized {}));
}

#[test]
fn test_abuser_revoke_role() {
    let mut dm = manager(ADDR1);
    resume(&mut dm);
    let err = dm
        .revoke_role(&mock_env(), mock_info(ADDR2), GATEWAY_ROLE.to_string(), ADDR2.to_string())
        .unwrap_err();
    assert!(matches!(err, ContractError::Unauthorized {}));
}

#[test]
fn test_owner_try_revoke_not_granted_role() {
    let mut dm = manager(ADDR1);
    resume(&mut dm);
    let err = dm
        .revoke_role(&mock_env(), mock_info(ADDR1), GATEWAY_ROLE.to_string(), ADDR2.to_string())
        .unwrap_err();
    assert!(matches!(err, ContractError::RoleNotExist { .. }));
}

#[test]
fn test_successfully_grant_role() {
    let mut dm = manager(ADDR1);
    resume(&mut dm);
    let role = GATEWAY_ROLE.to_string();
    let response = dm
        .grant_role(&mock_env(), mock_info(ADDR1), role.clone(), ADDR2.to_string())
        .unwrap();
    assert_eq!(
        response.attributes,
        vec![
            attr("action", "grant_role".to_string()),
            attr("executor", ADDR1.to_string()),
            attr("role", role.clone()),
            attr("addr", ADDR2.to_string()),
        ]
    );
    assert!(dm.gov.assert_role(&role, &ADDR2.to_string()).is_ok());
}

#[test]
fn test_successfully_revoke_role() {
    let mut dm = manager(ADDR1);
    resume(&mut dm);
    let role = GATEWAY_ROLE.to_string();
    dm.gov.grant_role(role.clone(), ADDR2.to_string());
    let response = dm
        .revoke_role(&mock_env(), mock_info(ADDR1), role.clone(), ADDR2.to_string())
        .unwrap();
    assert_eq!(
        response.attributes,
        vec![
            attr("action", "revoke_role".to_string()),
            attr("executor", ADDR1.to_string()),
            attr("role", role.clone()),
            attr("addr", ADDR2.to_string()),
        ]
    );
    assert!(dm.gov.assert_role(&role, &ADDR2.to_string()).is_err());
}
