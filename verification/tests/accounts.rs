use pandora_launcher::account::{plan_login, BackendAccount, LoginPlan, MinecraftLoginInfo};
use pandora_launcher::models::{MinecraftAccessToken, MinecraftProfileResponse};
use uuid::Uuid;

fn id(number: u128) -> Uuid {
    Uuid::from_u128(number)
}

#[test]
fn offline_account_needs_no_login() {
    let account = BackendAccount { username: "Steve".to_string(), offline: true };
    assert_eq!(
        plan_login(Some(id(7)), Some(&account)),
        LoginPlan::Offline(MinecraftLoginInfo {
            uuid: id(7),
            username: "Steve".to_string(),
            access_token: None
        })
    );
}

#[test]
fn known_online_account_logs_in_with_its_record() {
    let account = BackendAccount { username: "Alex".to_string(), offline: false };
    assert_eq!(plan_login(Some(id(9)), Some(&account)), LoginPlan::Login { account: Some(id(9)) });
}

#[test]
fn unknown_or_missing_selection_logs_in_afresh() {
    let account = BackendAccount { username: "Alex".to_string(), offline: true };
    assert_eq!(plan_login(Some(id(9)), None), LoginPlan::Login { account: None });
    assert_eq!(plan_login(None, None), LoginPlan::Login { account: None });
    assert_eq!(plan_login(None, Some(&account)), LoginPlan::Login { account: None });
}

#[test]
fn finished_login_hands_the_player_and_the_token_to_the_game() {
    let profile = MinecraftProfileResponse { id: id(42), name: "Steve".to_string(), skins: vec![] };
    let info = MinecraftLoginInfo::from_login(&profile, MinecraftAccessToken("game".to_string()));
    assert_eq!(
        info,
        MinecraftLoginInfo {
            uuid: id(42),
            username: "Steve".to_string(),
            access_token: Some(MinecraftAccessToken("game".to_string())),
        }
    );
}
