//! Taking over the accounts of another launcher: which of the tokens that it
//! kept go into a credential record.

use vstd::prelude::*;
use crate::credentials::{AccountCredentials, CredentialsView};
use crate::models::{text_of, TokenWithExpiry, TokenWithExpiryView, XstsToken, XstsTokenView};
use crate::time::Timestamp;

verus! {

/// The launchers whose data can be taken over.
#[derive(Debug, Clone, Copy, PartialEq, Eq, Structural)]
pub enum OtherLauncher {
    Prism,
    Modrinth,
    MultiMC,
}

/// What was found of one other launcher: the directories of its instances,
/// and whether its accounts can be taken over too.
#[derive(Debug, PartialEq, Eq)]
pub struct ImportFromOtherLauncher {
    pub can_import_accounts: bool,
    pub paths: Vec<String>,
}

/// One token as the other launcher kept it: `exp` is its expiry in seconds
/// since the Unix epoch.
#[derive(Debug, PartialEq, Eq)]
pub struct ImportedToken {
    pub token: String,
    pub userhash: Option<String>,
    pub refresh_token: Option<String>,
    pub exp: Option<i64>,
}

/// The tokens of one Microsoft account as the other launcher kept them.
#[derive(Debug, PartialEq, Eq)]
pub struct ImportedAccount {
    /// The client id under which the other launcher got its refresh token.
    pub msa_client_id: Option<String>,
    /// The Microsoft access token, with the refresh token beside it.
    pub msa: Option<ImportedToken>,
    /// The Xbox Live token.
    pub utoken: Option<ImportedToken>,
    /// The secure token, with the userhash beside it.
    pub xrp_mc: Option<ImportedToken>,
    /// The access token of the game service.
    pub ygg: Option<ImportedToken>,
}

/// The expiries of the four tokens of an [`ImportedAccount`] as instants,
/// each absent where the token or its expiry is absent or the calendar does
/// not reach that far.
#[derive(Debug, Clone, Copy, PartialEq, Eq, Structural)]
pub struct ImportedExpiries {
    pub msa: Option<Timestamp>,
    pub utoken: Option<Timestamp>,
    pub xrp_mc: Option<Timestamp>,
    pub ygg: Option<Timestamp>,
}

/// The instant that `chrono::DateTime::from_timestamp_secs` makes of a number
/// of seconds since the Unix epoch, where the calendar reaches that far.
pub uninterp spec fn date_time_of_secs(secs: int) -> Option<Timestamp>;

/// Makes an instant of seconds since the Unix epoch with
/// `chrono::DateTime::from_timestamp_secs`, which returns nothing where the
/// seconds lie outside the years that the calendar of `chrono` holds. An
/// instant that it returns gives back the same seconds through
/// `DateTime::timestamp`, and no nanoseconds.
#[verifier::external_body]
pub(crate) fn instant_of_secs(secs: i64) -> (made: Option<Timestamp>)
    ensures
        made == date_time_of_secs(secs as int),
        made matches Some(instant) ==> instant.secs == secs && instant.nanos == 0,
{
    match chrono::DateTime::from_timestamp_secs(secs) {
        Some(at) => Some(Timestamp { secs: at.timestamp(), nanos: at.timestamp_subsec_nanos() }),
        None => None,
    }
}

/// The expiry of a kept token as an instant.
pub open spec fn expiry_of(token: Option<ImportedToken>) -> Option<Timestamp> {
    match token {
        Some(ImportedToken { exp: Some(secs), .. }) => date_time_of_secs(secs as int),
        _ => None,
    }
}

impl ImportedAccount {
    /// The expiries of the four tokens as instants.
    pub open spec fn expiries(self) -> ImportedExpiries {
        ImportedExpiries {
            msa: expiry_of(self.msa),
            utoken: expiry_of(self.utoken),
            xrp_mc: expiry_of(self.xrp_mc),
            ygg: expiry_of(self.ygg),
        }
    }

    /// The refresh token is taken over: it is there, with an expiry for the
    /// access token beside it and the client id it was issued to.
    pub open spec fn brings_refresh(self) -> bool {
        &&& self.msa matches Some(msa)
        &&& msa.exp is Some
        &&& msa.refresh_token is Some
        &&& self.msa_client_id is Some
    }

    /// The record that the account gives at `now`, with `expiries` as the
    /// instants at which its tokens expire. A token is taken over only where
    /// it is still valid at `now`, and the secure token only with its
    /// userhash. The refresh token keeps the client id of the other launcher.
    pub open spec fn record_at(self, expiries: ImportedExpiries, now: Timestamp)
        -> CredentialsView {
        CredentialsView {
            msa_refresh: if self.brings_refresh() {
                text_of(self.msa->0.refresh_token)
            } else {
                None
            },
            msa_refresh_force_client_id: if self.brings_refresh() {
                text_of(self.msa_client_id)
            } else {
                None
            },
            msa_access: kept_token(self.msa, expiries.msa, now),
            xbl: kept_token(self.utoken, expiries.utoken, now),
            xsts: match (self.xrp_mc, expiries.xrp_mc) {
                (
                    Some(ImportedToken { token, userhash: Some(userhash), exp: Some(_), .. }),
                    Some(expiry),
                ) if now.is_before(expiry) => Some(
                    XstsTokenView { token: token@, expiry, userhash: userhash@ },
                ),
                _ => None,
            },
            access_token: kept_token(self.ygg, expiries.ygg, now),
        }
    }
}

/// What a kept token with the expiry `expiry` gives at `now`: the token where
/// it has an expiry that lies after `now`, else nothing.
pub open spec fn kept_token(token: Option<ImportedToken>, expiry: Option<Timestamp>, now: Timestamp)
    -> Option<TokenWithExpiryView> {
    match (token, expiry) {
        (Some(ImportedToken { token, exp: Some(_), .. }), Some(expiry)) if now.is_before(
            expiry,
        ) => Some(TokenWithExpiryView { token: token@, expiry }),
        _ => None,
    }
}

/// Takes a kept token over where it is still valid at `now`.
fn keep_token(token: Option<ImportedToken>, expiry: Option<Timestamp>, now: &Timestamp) -> (kept:
    Option<TokenWithExpiry>)
    ensures
        crate::credentials::token_of(kept) == kept_token(token, expiry, *now),
{
    match (token, expiry) {
        (Some(token), Some(expiry)) => {
            if token.exp.is_some() && now.before(&expiry) {
                Some(TokenWithExpiry { token: token.token, expiry })
            } else {
                None
            }
        },
        _ => None,
    }
}

/// Builds the credential record of an account of another launcher, with
/// `expiries` as the instants at which its tokens expire. Returns nothing
/// where the account brings no token at all.
pub fn assemble_credentials(account: ImportedAccount, expiries: ImportedExpiries, now: Timestamp)
    -> (record: Option<AccountCredentials>)
    ensures
        account.record_at(expiries, now) == CredentialsView::empty() ==> record is None,
        account.record_at(expiries, now) != CredentialsView::empty() ==> record is Some
            && record->0@ == account.record_at(expiries, now),
{
    let ImportedAccount { msa_client_id, msa, utoken, xrp_mc, ygg } = account;
    let mut record = AccountCredentials::new();
    let mut msa_token: Option<ImportedToken> = None;
    if let Some(msa) = msa {
        let ImportedToken { token, userhash, refresh_token, exp } = msa;
        if exp.is_some() && refresh_token.is_some() && msa_client_id.is_some() {
            record.msa_refresh = refresh_token;
            record.msa_refresh_force_client_id = msa_client_id;
            msa_token = Some(ImportedToken { token, userhash, refresh_token: None, exp });
        } else {
            msa_token = Some(ImportedToken { token, userhash, refresh_token, exp });
        }
    }
    record.msa_access = keep_token(msa_token, expiries.msa, &now);
    record.xbl = keep_token(utoken, expiries.utoken, &now);
    if let Some(xsts) = xrp_mc {
        if let Some(expiry) = expiries.xrp_mc {
            if let Some(userhash) = xsts.userhash {
                if xsts.exp.is_some() && now.before(&expiry) {
                    record.xsts = Some(XstsToken { token: xsts.token, expiry, userhash });
                }
            }
        }
    }
    record.access_token = keep_token(ygg, expiries.ygg, &now);
    let nothing = record.msa_refresh.is_none() && record.msa_refresh_force_client_id.is_none()
        && record.msa_access.is_none() && record.xbl.is_none() && record.xsts.is_none()
        && record.access_token.is_none();
    if nothing {
        None
    } else {
        Some(record)
    }
}

/// The expiry of a kept token as an instant.
fn expiry_instant(token: &Option<ImportedToken>) -> (expiry: Option<Timestamp>)
    ensures
        expiry == expiry_of(*token),
{
    match token {
        Some(token) => match token.exp {
            Some(secs) => instant_of_secs(secs),
            None => None,
        },
        None => None,
    }
}

/// Builds the credential record of an account of another launcher at `now`.
/// Returns nothing where the account brings no token at all.
pub fn import_credentials(account: ImportedAccount, now: Timestamp) -> (record: Option<
    AccountCredentials,
>)
    ensures
        account.record_at(account.expiries(), now) == CredentialsView::empty() ==> record is None,
        account.record_at(account.expiries(), now) != CredentialsView::empty() ==> record is Some
            && record->0@ == account.record_at(account.expiries(), now),
{
    let expiries = ImportedExpiries {
        msa: expiry_instant(&account.msa),
        utoken: expiry_instant(&account.utoken),
        xrp_mc: expiry_instant(&account.xrp_mc),
        ygg: expiry_instant(&account.ygg),
    };
    assemble_credentials(account, expiries, now)
}

} // verus!
