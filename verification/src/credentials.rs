//! The credential record of one account, and the resolver that maps it to the
//! stage from which a login can resume.

use vstd::prelude::*;
use crate::models::{
    clone_text, text_of, MinecraftAccessToken, TokenWithExpiry, TokenWithExpiryView, XstsToken,
    XstsTokenView,
};
use crate::time::{system_now, Timestamp};

verus! {

/// The staged token bundle of one account. Each field is absent or holds what
/// was valid when it was written; only [`AccountCredentials::resolve`] drops
/// fields that have expired.
#[derive(Debug, PartialEq, Eq)]
pub struct AccountCredentials {
    pub msa_refresh: Option<String>,
    pub msa_refresh_force_client_id: Option<String>,
    pub msa_access: Option<TokenWithExpiry>,
    pub xbl: Option<TokenWithExpiry>,
    pub xsts: Option<XstsToken>,
    pub access_token: Option<TokenWithExpiry>,
}

/// The mathematical value of an [`AccountCredentials`].
pub struct CredentialsView {
    pub msa_refresh: Option<Seq<char>>,
    pub msa_refresh_force_client_id: Option<Seq<char>>,
    pub msa_access: Option<TokenWithExpiryView>,
    pub xbl: Option<TokenWithExpiryView>,
    pub xsts: Option<XstsTokenView>,
    pub access_token: Option<TokenWithExpiryView>,
}

/// What a token field holds, where it holds one.
pub open spec fn token_of(field: Option<TokenWithExpiry>) -> Option<TokenWithExpiryView> {
    match field {
        Some(token) => Some(token@),
        None => None,
    }
}

/// What the secure token field holds, where it holds one.
pub open spec fn xsts_of(field: Option<XstsToken>) -> Option<XstsTokenView> {
    match field {
        Some(token) => Some(token@),
        None => None,
    }
}

impl View for AccountCredentials {
    type V = CredentialsView;

    open spec fn view(&self) -> CredentialsView {
        CredentialsView {
            msa_refresh: text_of(self.msa_refresh),
            msa_refresh_force_client_id: text_of(self.msa_refresh_force_client_id),
            msa_access: token_of(self.msa_access),
            xbl: token_of(self.xbl),
            xsts: xsts_of(self.xsts),
            access_token: token_of(self.access_token),
        }
    }
}

/// The steps of the chain, in the order in which a login passes them.
#[derive(Clone, Copy, PartialEq, Eq, PartialOrd, Ord, Debug, Structural)]
pub enum AuthStage {
    Initial,
    MsaRefresh,
    MsaAccess,
    XboxLive,
    XboxSecure,
    AccessToken,
}

/// The number of stages.
pub const AUTH_STAGE_COUNT: u8 = 6;

impl AuthStage {
    /// The place of the stage in the chain, counted from 0.
    pub open spec fn rank(self) -> nat {
        match self {
            AuthStage::Initial => 0,
            AuthStage::MsaRefresh => 1,
            AuthStage::MsaAccess => 2,
            AuthStage::XboxLive => 3,
            AuthStage::XboxSecure => 4,
            AuthStage::AccessToken => 5,
        }
    }

    /// The place of the stage in the chain, counted from 0.
    pub fn ordinal(&self) -> (place: u8)
        ensures
            place == self.rank(),
            place < AUTH_STAGE_COUNT,
    {
        match self {
            AuthStage::Initial => 0,
            AuthStage::MsaRefresh => 1,
            AuthStage::MsaAccess => 2,
            AuthStage::XboxLive => 3,
            AuthStage::XboxSecure => 4,
            AuthStage::AccessToken => 5,
        }
    }
}

/// A stage with what its exchange call needs.
#[derive(Debug, PartialEq, Eq)]
pub enum AuthStageWithData {
    Initial,
    MsaRefresh(String),
    MsaAccess(String),
    XboxLive(String),
    XboxSecure { xsts: String, userhash: String },
    AccessToken(MinecraftAccessToken),
}

/// The mathematical value of an [`AuthStageWithData`].
pub enum StageView {
    Initial,
    MsaRefresh(Seq<char>),
    MsaAccess(Seq<char>),
    XboxLive(Seq<char>),
    XboxSecure { xsts: Seq<char>, userhash: Seq<char> },
    AccessToken(Seq<char>),
}

impl StageView {
    /// The stage without its data.
    pub open spec fn stage(self) -> AuthStage {
        match self {
            StageView::Initial => AuthStage::Initial,
            StageView::MsaRefresh(..) => AuthStage::MsaRefresh,
            StageView::MsaAccess(..) => AuthStage::MsaAccess,
            StageView::XboxLive(..) => AuthStage::XboxLive,
            StageView::XboxSecure { .. } => AuthStage::XboxSecure,
            StageView::AccessToken(..) => AuthStage::AccessToken,
        }
    }
}

impl View for AuthStageWithData {
    type V = StageView;

    open spec fn view(&self) -> StageView {
        match self {
            AuthStageWithData::Initial => StageView::Initial,
            AuthStageWithData::MsaRefresh(token) => StageView::MsaRefresh(token@),
            AuthStageWithData::MsaAccess(token) => StageView::MsaAccess(token@),
            AuthStageWithData::XboxLive(token) => StageView::XboxLive(token@),
            AuthStageWithData::XboxSecure { xsts, userhash } => StageView::XboxSecure {
                xsts: xsts@,
                userhash: userhash@,
            },
            AuthStageWithData::AccessToken(token) => StageView::AccessToken(token@),
        }
    }
}

impl AuthStageWithData {
    /// The stage without its data.
    pub fn stage(&self) -> (stage: AuthStage)
        ensures
            stage == self@.stage(),
    {
        match self {
            AuthStageWithData::Initial => AuthStage::Initial,
            AuthStageWithData::MsaRefresh(..) => AuthStage::MsaRefresh,
            AuthStageWithData::MsaAccess(..) => AuthStage::MsaAccess,
            AuthStageWithData::XboxLive(..) => AuthStage::XboxLive,
            AuthStageWithData::XboxSecure { .. } => AuthStage::XboxSecure,
            AuthStageWithData::AccessToken(..) => AuthStage::AccessToken,
        }
    }
}

impl CredentialsView {
    /// The record with nothing in it.
    pub open spec fn empty() -> CredentialsView {
        CredentialsView {
            msa_refresh: None,
            msa_refresh_force_client_id: None,
            msa_access: None,
            xbl: None,
            xsts: None,
            access_token: None,
        }
    }

    /// The game-service access token is present and not expired at `now`.
    pub open spec fn access_token_live(self, now: Timestamp) -> bool {
        self.access_token matches Some(token) && token.is_live(now)
    }

    /// The secure token is present and not expired at `now`.
    pub open spec fn xsts_live(self, now: Timestamp) -> bool {
        self.xsts matches Some(token) && token.is_live(now)
    }

    /// The Xbox Live token is present and not expired at `now`.
    pub open spec fn xbl_live(self, now: Timestamp) -> bool {
        self.xbl matches Some(token) && token.is_live(now)
    }

    /// The Microsoft access token is present and not expired at `now`.
    pub open spec fn msa_access_live(self, now: Timestamp) -> bool {
        self.msa_access matches Some(token) && token.is_live(now)
    }

    /// The stage from which a login resumes at `now`: that of the deepest
    /// token of the chain that is present and not expired; failing those, the
    /// refresh token, which has no expiry to test; failing that, the start.
    pub open spec fn resolved_stage(self, now: Timestamp) -> StageView {
        if self.access_token_live(now) {
            StageView::AccessToken(self.access_token->0.token)
        } else if self.xsts_live(now) {
            StageView::XboxSecure { xsts: self.xsts->0.token, userhash: self.xsts->0.userhash }
        } else if self.xbl_live(now) {
            StageView::XboxLive(self.xbl->0.token)
        } else if self.msa_access_live(now) {
            StageView::MsaAccess(self.msa_access->0.token)
        } else if self.msa_refresh is Some {
            StageView::MsaRefresh(self.msa_refresh->0)
        } else {
            StageView::Initial
        }
    }

    /// The record as resolving at `now` leaves it: a token field is dropped
    /// when neither it nor any token deeper in the chain is live. The refresh
    /// token and its client id are never dropped.
    pub open spec fn pruned(self, now: Timestamp) -> CredentialsView {
        let keep_access_token = self.access_token_live(now);
        let keep_xsts = keep_access_token || self.xsts_live(now);
        let keep_xbl = keep_xsts || self.xbl_live(now);
        let keep_msa_access = keep_xbl || self.msa_access_live(now);
        CredentialsView {
            msa_refresh: self.msa_refresh,
            msa_refresh_force_client_id: self.msa_refresh_force_client_id,
            msa_access: if keep_msa_access { self.msa_access } else { None },
            xbl: if keep_xbl { self.xbl } else { None },
            xsts: if keep_xsts { self.xsts } else { None },
            access_token: if keep_access_token { self.access_token } else { None },
        }
    }
}

impl CredentialsView {
    /// The record holds no token of the chain that belongs to a later stage
    /// than `stage`.
    pub open spec fn holds_nothing_beyond(self, stage: AuthStage) -> bool {
        &&& stage.rank() < AuthStage::AccessToken.rank() ==> self.access_token is None
        &&& stage.rank() < AuthStage::XboxSecure.rank() ==> self.xsts is None
        &&& stage.rank() < AuthStage::XboxLive.rank() ==> self.xbl is None
        &&& stage.rank() < AuthStage::MsaAccess.rank() ==> self.msa_access is None
        &&& stage.rank() < AuthStage::MsaRefresh.rank() ==> self.msa_refresh is None
    }
}

/// Resolving a second time at the same instant, with nothing written in
/// between, returns the same stage and drops nothing more.
pub proof fn lemma_resolve_is_idempotent(record: CredentialsView, now: Timestamp)
    ensures
        record.pruned(now).resolved_stage(now) == record.resolved_stage(now),
        record.pruned(now).pruned(now) == record.pruned(now),
{
}

/// Resolving never touches the refresh token or its client id, and what it
/// leaves of a token field is what the field held.
pub proof fn lemma_resolve_only_drops(record: CredentialsView, now: Timestamp)
    ensures
        record.pruned(now).msa_refresh == record.msa_refresh,
        record.pruned(now).msa_refresh_force_client_id == record.msa_refresh_force_client_id,
        record.pruned(now).msa_access is Some ==> record.pruned(now).msa_access
            == record.msa_access,
        record.pruned(now).xbl is Some ==> record.pruned(now).xbl == record.xbl,
        record.pruned(now).xsts is Some ==> record.pruned(now).xsts == record.xsts,
        record.pruned(now).access_token is Some ==> record.pruned(now).access_token
            == record.access_token,
{
}

/// After resolving, the record holds nothing beyond the stage that was
/// returned, and the token of that stage is live.
pub proof fn lemma_resolve_leaves_the_chain_up_to_the_stage(
    record: CredentialsView,
    now: Timestamp,
)
    ensures
        record.pruned(now).holds_nothing_beyond(record.resolved_stage(now).stage()),
        match record.resolved_stage(now) {
            StageView::AccessToken(token) => record.pruned(now).access_token_live(now)
                && record.pruned(now).access_token->0.token == token,
            StageView::XboxSecure { xsts, userhash } => record.pruned(now).xsts_live(now)
                && record.pruned(now).xsts->0.token == xsts && record.pruned(now).xsts->0.userhash
                == userhash,
            StageView::XboxLive(token) => record.pruned(now).xbl_live(now) && record.pruned(
                now,
            ).xbl->0.token == token,
            StageView::MsaAccess(token) => record.pruned(now).msa_access_live(now)
                && record.pruned(now).msa_access->0.token == token,
            StageView::MsaRefresh(token) => record.pruned(now).msa_refresh == Some(token),
            StageView::Initial => true,
        },
{
}

/// A record that holds nothing beyond a stage resolves, at any instant, to
/// that stage or an earlier one.
pub proof fn lemma_resolve_stays_within(record: CredentialsView, bound: AuthStage, now: Timestamp)
    requires
        record.holds_nothing_beyond(bound),
    ensures
        record.resolved_stage(now).stage().rank() <= bound.rank(),
{
}

/// The empty record resolves to the start at any instant.
pub proof fn lemma_empty_record_resolves_to_the_start(now: Timestamp)
    ensures
        CredentialsView::empty().resolved_stage(now) == StageView::Initial,
        CredentialsView::empty().pruned(now) == CredentialsView::empty(),
{
}

impl AccountCredentials {
    /// A record with nothing in it, as for an account that was just added.
    pub fn new() -> (record: AccountCredentials)
        ensures
            record@ == CredentialsView::empty(),
    {
        AccountCredentials {
            msa_refresh: None,
            msa_refresh_force_client_id: None,
            msa_access: None,
            xbl: None,
            xsts: None,
            access_token: None,
        }
    }

    /// Resolves the record at `now`: returns the stage from which a login
    /// resumes, and drops the token fields that were found expired on the way.
    pub fn resolve(&mut self, now: Timestamp) -> (stage: AuthStageWithData)
        ensures
            stage@ == old(self)@.resolved_stage(now),
            final(self)@ == old(self)@.pruned(now),
    {
        if let Some(access_token) = &self.access_token {
            if access_token.is_live(&now) {
                return AuthStageWithData::AccessToken(
                    MinecraftAccessToken(access_token.token.clone()),
                );
            }
        }
        self.access_token = None;

        if let Some(xsts) = &self.xsts {
            if xsts.is_live(&now) {
                return AuthStageWithData::XboxSecure {
                    xsts: xsts.token.clone(),
                    userhash: xsts.userhash.clone(),
                };
            }
        }
        self.xsts = None;

        if let Some(xbl) = &self.xbl {
            if xbl.is_live(&now) {
                return AuthStageWithData::XboxLive(xbl.token.clone());
            }
        }
        self.xbl = None;

        if let Some(msa_access) = &self.msa_access {
            if msa_access.is_live(&now) {
                return AuthStageWithData::MsaAccess(msa_access.token.clone());
            }
        }
        self.msa_access = None;

        if let Some(msa_refresh) = &self.msa_refresh {
            return AuthStageWithData::MsaRefresh(msa_refresh.clone());
        }

        AuthStageWithData::Initial
    }

    /// Resolves the record at the instant that the system clock shows. Which
    /// instant that is cannot be known beforehand, so the result is that of
    /// [`AccountCredentials::resolve`] at some instant.
    pub fn stage(&mut self) -> (stage: AuthStageWithData)
        ensures
            exists|now: Timestamp|
                stage@ == #[trigger] old(self)@.resolved_stage(now) && final(self)@ == old(
                    self,
                )@.pruned(now),
    {
        let now = system_now();
        self.resolve(now)
    }
}

impl Default for AccountCredentials {
    fn default() -> (record: AccountCredentials)
        ensures
            record@ == CredentialsView::empty(),
    {
        AccountCredentials::new()
    }
}

impl Clone for AccountCredentials {
    fn clone(&self) -> (copy: AccountCredentials)
        ensures
            copy == *self,
    {
        AccountCredentials {
            msa_refresh: clone_text(&self.msa_refresh),
            msa_refresh_force_client_id: clone_text(&self.msa_refresh_force_client_id),
            msa_access: clone_token(&self.msa_access),
            xbl: clone_token(&self.xbl),
            xsts: match &self.xsts {
                Some(token) => Some(token.clone()),
                None => None,
            },
            access_token: clone_token(&self.access_token),
        }
    }
}

/// Copies an optional token.
pub fn clone_token(field: &Option<TokenWithExpiry>) -> (copy: Option<TokenWithExpiry>)
    ensures
        copy == *field,
{
    match field {
        Some(token) => Some(token.clone()),
        None => None,
    }
}

} // verus!
