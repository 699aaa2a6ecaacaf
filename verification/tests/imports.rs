use pandora_launcher::credentials::AccountCredentials;
use pandora_launcher::import::{
    assemble_credentials, import_credentials, ImportFromOtherLauncher, ImportedAccount,
    ImportedExpiries, ImportedToken, OtherLauncher,
};
use pandora_launcher::models::{TokenWithExpiry, XstsToken};
use pandora_launcher::time::Timestamp;

fn moment(secs: i64) -> Timestamp {
    Timestamp { secs, nanos: 0 }
}

fn kept(text: &str, exp: Option<i64>) -> ImportedToken {
    ImportedToken { token: text.to_string(), userhash: None, refresh_token: None, exp }
}

fn whole_account(exp: i64) -> ImportedAccount {
    ImportedAccount {
        msa_client_id: Some("their-client".to_string()),
        msa: Some(ImportedToken {
            token: "msa".to_string(),
            userhash: None,
            refresh_token: Some("refresh".to_string()),
            exp: Some(exp),
        }),
        utoken: Some(kept("xbl", Some(exp))),
        xrp_mc: Some(ImportedToken {
            token: "xsts".to_string(),
            userhash: Some("uhs".to_string()),
            refresh_token: None,
            exp: Some(exp),
        }),
        ygg: Some(kept("game", Some(exp))),
    }
}

#[test]
fn valid_tokens_of_another_launcher_are_taken_over() {
    let record = import_credentials(whole_account(2_000_000_000), moment(1_700_000_000));
    let expiry = moment(2_000_000_000);
    assert_eq!(
        record,
        Some(AccountCredentials {
            msa_refresh: Some("refresh".to_string()),
            msa_refresh_force_client_id: Some("their-client".to_string()),
            msa_access: Some(TokenWithExpiry { token: "msa".to_string(), expiry }),
            xbl: Some(TokenWithExpiry { token: "xbl".to_string(), expiry }),
            xsts: Some(XstsToken {
                token: "xsts".to_string(),
                expiry,
                userhash: "uhs".to_string()
            }),
            access_token: Some(TokenWithExpiry { token: "game".to_string(), expiry }),
        })
    );
}

#[test]
fn expired_tokens_of_another_launcher_are_left_behind() {
    let record = import_credentials(whole_account(1_600_000_000), moment(1_700_000_000));
    let mut expected = AccountCredentials::new();
    expected.msa_refresh = Some("refresh".to_string());
    expected.msa_refresh_force_client_id = Some("their-client".to_string());
    assert_eq!(record, Some(expected));

    let record = import_credentials(whole_account(1_700_000_000), moment(1_700_000_000));
    assert_eq!(record.map(|record| record.access_token), Some(None));
}

#[test]
fn account_that_brings_nothing_gives_no_record() {
    let nothing = ImportedAccount {
        msa_client_id: Some("their-client".to_string()),
        msa: None,
        utoken: None,
        xrp_mc: None,
        ygg: None,
    };
    assert_eq!(import_credentials(nothing, moment(0)), None);

    let mut stale = whole_account(10);
    stale.msa_client_id = None;
    assert_eq!(import_credentials(stale, moment(20)), None);

    let mut undated = whole_account(10);
    undated.msa = Some(ImportedToken {
        token: "msa".to_string(),
        userhash: None,
        refresh_token: Some("refresh".to_string()),
        exp: None,
    });
    undated.utoken = Some(kept("xbl", None));
    undated.xrp_mc = None;
    undated.ygg = None;
    assert_eq!(import_credentials(undated, moment(0)), None);
}

#[test]
fn refresh_token_needs_the_client_id_it_was_issued_to() {
    let mut account = whole_account(100);
    account.msa_client_id = None;
    let record = import_credentials(account, moment(50)).expect("tokens are valid");
    assert_eq!(record.msa_refresh, None);
    assert_eq!(record.msa_refresh_force_client_id, None);
    assert_eq!(
        record.msa_access,
        Some(TokenWithExpiry { token: "msa".to_string(), expiry: moment(100) })
    );
}

#[test]
fn secure_token_needs_its_userhash() {
    let mut account = whole_account(100);
    account.xrp_mc = Some(kept("xsts", Some(100)));
    let record = import_credentials(account, moment(50)).expect("tokens are valid");
    assert_eq!(record.xsts, None);
    assert!(record.xbl.is_some());
    assert!(record.access_token.is_some());
}

#[test]
fn expiry_beyond_the_calendar_drops_the_token() {
    let mut account = whole_account(100);
    account.ygg = Some(kept("game", Some(i64::MAX)));
    account.utoken = Some(kept("xbl", Some(i64::MIN)));
    let record = import_credentials(account, moment(50)).expect("tokens are valid");
    assert_eq!(record.access_token, None);
    assert_eq!(record.xbl, None);
    assert_eq!(
        record.msa_access,
        Some(TokenWithExpiry { token: "msa".to_string(), expiry: moment(100) })
    );
}

#[test]
fn record_is_assembled_from_the_given_expiries() {
    let expiries = ImportedExpiries {
        msa: Some(Timestamp { secs: 100, nanos: 7 }),
        utoken: None,
        xrp_mc: Some(moment(40)),
        ygg: Some(moment(51)),
    };
    let record = assemble_credentials(whole_account(100), expiries, moment(50))
        .expect("tokens are valid");
    assert_eq!(
        record.msa_access,
        Some(TokenWithExpiry {
            token: "msa".to_string(),
            expiry: Timestamp { secs: 100, nanos: 7 }
        })
    );
    assert_eq!(record.xbl, None);
    assert_eq!(record.xsts, None);
    assert_eq!(
        record.access_token,
        Some(TokenWithExpiry { token: "game".to_string(), expiry: moment(51) })
    );
    assert_eq!(record.msa_refresh, Some("refresh".to_string()));
}

#[test]
fn other_launchers_are_told_apart() {
    assert_ne!(OtherLauncher::Prism, OtherLauncher::MultiMC);
    assert_ne!(OtherLauncher::Modrinth, OtherLauncher::MultiMC);
    let found = ImportFromOtherLauncher {
        can_import_accounts: true,
        paths: vec!["/home/u/.local/share/PrismLauncher/instances/a".to_string()],
    };
    assert_eq!(found.paths.len(), 1);
    assert!(found.can_import_accounts);
}
