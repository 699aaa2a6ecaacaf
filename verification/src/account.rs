//! How the account to play with is picked, and what a finished login hands to
//! the game.

use vstd::prelude::*;
use uuid::Uuid;
use crate::models::{MinecraftAccessToken, MinecraftProfileResponse};

verus! {

/// One account as the account list keeps it.
#[derive(Debug, PartialEq, Eq)]
pub struct BackendAccount {
    pub username: String,
    /// The account plays without the game service and so without a login.
    pub offline: bool,
}

/// What the game is started with: the player, and the access token unless the
/// account plays offline.
#[derive(Debug, PartialEq, Eq)]
pub struct MinecraftLoginInfo {
    pub uuid: Uuid,
    pub username: String,
    pub access_token: Option<MinecraftAccessToken>,
}

/// What has to happen before the game can start.
#[derive(Debug, PartialEq, Eq)]
pub enum LoginPlan {
    /// Nothing: the selected account plays offline.
    Offline(MinecraftLoginInfo),
    /// A login, with the credential record of `account` where one is named,
    /// else with an empty one.
    Login { account: Option<Uuid> },
}

/// What has to happen before the game can start with the account `selected`,
/// of which the account list holds the entry `found`, if it holds one.
pub open spec fn planned(selected: Option<Uuid>, found: Option<&BackendAccount>) -> LoginPlan {
    match (selected, found) {
        (Some(uuid), Some(account)) => if account.offline {
            LoginPlan::Offline(
                MinecraftLoginInfo { uuid, username: account.username, access_token: None },
            )
        } else {
            LoginPlan::Login { account: Some(uuid) }
        },
        _ => LoginPlan::Login { account: None },
    }
}

/// Plans the start of the game for the selected account. `found` is the entry
/// of the account list for `selected`, if the list has one. An account that
/// the list does not know is not logged in again: the login starts afresh.
pub fn plan_login(selected: Option<Uuid>, found: Option<&BackendAccount>) -> (plan: LoginPlan)
    ensures
        plan == planned(selected, found),
{
    match (selected, found) {
        (Some(uuid), Some(account)) => {
            if account.offline {
                LoginPlan::Offline(
                    MinecraftLoginInfo {
                        uuid,
                        username: account.username.clone(),
                        access_token: None,
                    },
                )
            } else {
                LoginPlan::Login { account: Some(uuid) }
            }
        },
        _ => LoginPlan::Login { account: None },
    }
}

impl MinecraftLoginInfo {
    /// What a finished login hands to the game: the player of the profile, and
    /// the access token that the profile confirmed.
    pub fn from_login(
        profile: &MinecraftProfileResponse,
        access_token: MinecraftAccessToken,
    ) -> (info: MinecraftLoginInfo)
        ensures
            info == (MinecraftLoginInfo {
                uuid: profile.id,
                username: profile.name,
                access_token: Some(access_token),
            }),
    {
        MinecraftLoginInfo {
            uuid: profile.id,
            username: profile.name.clone(),
            access_token: Some(access_token),
        }
    }
}

} // verus!
