use pandora_launcher::credentials::{
    AccountCredentials, AuthStage, AuthStageWithData, AUTH_STAGE_COUNT,
};
use pandora_launcher::models::{MinecraftAccessToken, TokenWithExpiry, XstsToken};
use pandora_launcher::time::Timestamp;

fn at(secs: i64) -> Timestamp {
    Timestamp { secs, nanos: 0 }
}

fn token(text: &str, expiry_secs: i64) -> TokenWithExpiry {
    TokenWithExpiry { token: text.to_string(), expiry: at(expiry_secs) }
}

fn full_record(expiry_secs: i64) -> AccountCredentials {
    AccountCredentials {
        msa_refresh: Some("refresh".to_string()),
        msa_refresh_force_client_id: Some("client".to_string()),
        msa_access: Some(token("msa", expiry_secs)),
        xbl: Some(token("xbl", expiry_secs)),
        xsts: Some(XstsToken {
            token: "xsts".to_string(),
            expiry: at(expiry_secs),
            userhash: "hash".to_string(),
        }),
        access_token: Some(token("game", expiry_secs)),
    }
}

#[test]
fn access_token_is_used_until_its_expiry_and_dropped_after() {
    let start = 1_000;
    let mut record = AccountCredentials::new();
    record.access_token = Some(token("game", start + 10));

    let stage = record.resolve(at(start));
    assert_eq!(stage, AuthStageWithData::AccessToken(MinecraftAccessToken("game".to_string())));
    assert_eq!(stage.stage(), AuthStage::AccessToken);
    assert!(record.access_token.is_some());

    let stage = record.resolve(at(start + 11));
    assert_eq!(stage, AuthStageWithData::Initial);
    assert_eq!(record.access_token, None);
    assert_eq!(record, AccountCredentials::new());
}

#[test]
fn token_is_expired_at_the_instant_of_its_expiry() {
    let mut record = AccountCredentials::new();
    record.xbl = Some(TokenWithExpiry {
        token: "xbl".to_string(),
        expiry: Timestamp { secs: 50, nanos: 500 },
    });

    let just_before = Timestamp { secs: 50, nanos: 499 };
    assert_eq!(record.resolve(just_before), AuthStageWithData::XboxLive("xbl".to_string()));
    assert!(record.xbl.is_some());

    let exactly = Timestamp { secs: 50, nanos: 500 };
    assert_eq!(record.resolve(exactly), AuthStageWithData::Initial);
    assert_eq!(record.xbl, None);
}

#[test]
fn seconds_order_instants_before_nanoseconds() {
    let early = Timestamp { secs: 9, nanos: 999_999_999 };
    let late = Timestamp { secs: 10, nanos: 0 };
    assert!(early.before(&late));
    assert!(!late.before(&early));
    assert!(!early.before(&early));
    assert!(Timestamp::new(-5, 3).before(&Timestamp::new(-5, 4)));
    assert!(Timestamp::new(-6, 900).before(&Timestamp::new(-5, 0)));
}

#[test]
fn empty_record_resolves_to_the_start() {
    let mut record = AccountCredentials::new();
    assert_eq!(record.resolve(at(0)), AuthStageWithData::Initial);
    assert_eq!(record, AccountCredentials::new());
    assert_eq!(AccountCredentials::default(), AccountCredentials::new());
}

#[test]
fn deepest_live_token_wins_and_nothing_is_dropped() {
    let mut record = full_record(100);
    let stage = record.resolve(at(99));
    assert_eq!(stage, AuthStageWithData::AccessToken(MinecraftAccessToken("game".to_string())));
    assert_eq!(record, full_record(100));
}

#[test]
fn resolver_walks_down_the_chain() {
    let mut record = full_record(100);
    record.access_token = Some(token("game", 10));
    let stage = record.resolve(at(50));
    assert_eq!(
        stage,
        AuthStageWithData::XboxSecure { xsts: "xsts".to_string(), userhash: "hash".to_string() }
    );
    assert_eq!(stage.stage(), AuthStage::XboxSecure);
    assert_eq!(record.access_token, None);
    assert!(record.xsts.is_some());

    record.xsts = None;
    let stage = record.resolve(at(50));
    assert_eq!(stage, AuthStageWithData::XboxLive("xbl".to_string()));
    assert_eq!(stage.stage(), AuthStage::XboxLive);

    record.xbl = Some(token("xbl", 50));
    let stage = record.resolve(at(50));
    assert_eq!(stage, AuthStageWithData::MsaAccess("msa".to_string()));
    assert_eq!(stage.stage(), AuthStage::MsaAccess);
    assert_eq!(record.xbl, None);

    let stage = record.resolve(at(100));
    assert_eq!(stage, AuthStageWithData::MsaRefresh("refresh".to_string()));
    assert_eq!(stage.stage(), AuthStage::MsaRefresh);
    assert_eq!(record.msa_access, None);
    assert_eq!(record.msa_refresh, Some("refresh".to_string()));
    assert_eq!(record.msa_refresh_force_client_id, Some("client".to_string()));

    record.msa_refresh = None;
    let stage = record.resolve(at(100));
    assert_eq!(stage, AuthStageWithData::Initial);
    assert_eq!(stage.stage(), AuthStage::Initial);
    assert_eq!(record.msa_refresh_force_client_id, Some("client".to_string()));
}

#[test]
fn expired_tokens_are_dropped_down_to_the_refresh_token() {
    let mut record = full_record(100);
    let stage = record.resolve(at(100));
    assert_eq!(stage, AuthStageWithData::MsaRefresh("refresh".to_string()));
    let mut expected = AccountCredentials::new();
    expected.msa_refresh = Some("refresh".to_string());
    expected.msa_refresh_force_client_id = Some("client".to_string());
    assert_eq!(record, expected);
}

#[test]
fn shallower_tokens_are_not_tested_once_a_deeper_one_is_live() {
    let mut record = full_record(10);
    record.xsts = Some(XstsToken {
        token: "xsts".to_string(),
        expiry: at(1_000),
        userhash: "hash".to_string(),
    });
    let stage = record.resolve(at(500));
    assert_eq!(
        stage,
        AuthStageWithData::XboxSecure { xsts: "xsts".to_string(), userhash: "hash".to_string() }
    );
    assert_eq!(record.access_token, None);
    assert_eq!(record.xbl, Some(token("xbl", 10)));
    assert_eq!(record.msa_access, Some(token("msa", 10)));
}

#[test]
fn resolving_twice_at_one_instant_changes_nothing_more() {
    let mut record = full_record(100);
    record.xbl = Some(token("xbl", 500));
    let first = record.resolve(at(200));
    let after_first = record.clone();
    let second = record.resolve(at(200));
    assert_eq!(first, second);
    assert_eq!(first, AuthStageWithData::XboxLive("xbl".to_string()));
    assert_eq!(record, after_first);
    assert_eq!(record.access_token, None);
    assert_eq!(record.xsts, None);
    assert_eq!(record.msa_access, Some(token("msa", 100)));
}

#[test]
fn stages_are_ordered_as_the_chain_passes_them() {
    let chain = [
        AuthStage::Initial,
        AuthStage::MsaRefresh,
        AuthStage::MsaAccess,
        AuthStage::XboxLive,
        AuthStage::XboxSecure,
        AuthStage::AccessToken,
    ];
    assert_eq!(chain.len(), AUTH_STAGE_COUNT as usize);
    for (place, stage) in chain.iter().enumerate() {
        assert_eq!(stage.ordinal() as usize, place);
    }
    for pair in chain.windows(2) {
        assert!(pair[0] < pair[1]);
        assert!(pair[0].ordinal() < pair[1].ordinal());
    }
}

#[test]
fn stage_reads_the_system_clock() {
    let mut record = AccountCredentials::new();
    record.access_token = Some(token("old", 1));
    record.xsts = Some(XstsToken {
        token: "xsts".to_string(),
        expiry: at(i64::MAX),
        userhash: "hash".to_string(),
    });
    let stage = record.stage();
    assert_eq!(
        stage,
        AuthStageWithData::XboxSecure { xsts: "xsts".to_string(), userhash: "hash".to_string() }
    );
    assert_eq!(record.access_token, None);

    let mut stale = full_record(1);
    stale.msa_refresh = None;
    assert_eq!(stale.stage(), AuthStageWithData::Initial);
    assert_eq!(stale.access_token, None);
    assert_eq!(stale.xsts, None);
    assert_eq!(stale.xbl, None);
    assert_eq!(stale.msa_access, None);
}

#[test]
fn token_copies_are_equal_to_their_source() {
    let source = full_record(77);
    let copy = source.clone();
    assert_eq!(copy, source);
    let secure = source.xsts.clone();
    assert_eq!(secure, source.xsts);
    assert!(token("a", 5).is_live(&at(4)));
    assert!(!token("a", 5).is_live(&at(5)));
    let made = XstsToken::new("t".to_string(), at(9), "h".to_string());
    assert!(made.is_live(&at(8)));
    assert!(!made.is_live(&at(9)));
    assert_eq!(TokenWithExpiry::new("t".to_string(), at(9)), token("t", 9));
}
