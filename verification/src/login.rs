//! The decisions of one login attempt. The caller runs the loop: it asks
//! [`LoginAttempt::begin_iteration`] for the stage to work on, performs that
//! stage's exchange with the provider, and hands the answer to
//! [`LoginAttempt::apply`], which moves the credential record forward, clears a
//! field so that the resolver falls back, or ends the attempt.

use vstd::prelude::*;
use crate::credentials::{
    AccountCredentials, AuthStage, AuthStageWithData, CredentialsView, StageView,
    AUTH_STAGE_COUNT,
};
use crate::errors::{
    LoginError, MsaAuthorizationError, ProcessAuthorizationError, XboxAuthenticateError,
};
use crate::models::{
    MinecraftAccessToken, MinecraftProfileResponse, MsaTokens, MsaTokensView, TokenWithExpiry,
    TokenWithExpiryView, XstsToken, XstsTokenView,
};
use crate::time::{system_now, Timestamp};

verus! {

/// The number of steps that the progress of a login counts: one for each
/// stage, and a last one for the profile that confirms the access token.
pub const LOGIN_PROGRESS_TOTAL: usize = 7;

/// The state of one login attempt.
#[derive(Debug)]
pub struct LoginAttempt {
    last_stage: Option<AuthStage>,
    allow_backwards: bool,
    progress_count: usize,
    cancel_requested: bool,
}

/// The mathematical value of a [`LoginAttempt`].
pub struct AttemptView {
    /// The stage of the last iteration that passed the stage check.
    pub last_stage: Option<AuthStage>,
    /// No iteration has yet resolved to a later stage than the one before it.
    pub allow_backwards: bool,
    /// The steps that the progress shows as reached.
    pub progress_count: nat,
    /// The user has asked to end the attempt.
    pub cancel_requested: bool,
}

/// What the provider answered to the exchange of one stage.
#[derive(Debug, PartialEq, Eq)]
pub enum ExchangeResult {
    /// The answer to the authorization through the browser.
    Authorization(Result<MsaTokens, ProcessAuthorizationError>),
    /// The answer to the redeeming of the refresh token; `Ok(None)` where the
    /// provider reported the grant as invalid.
    RefreshMsa(Result<Option<MsaTokens>, MsaAuthorizationError>),
    /// The answer to the exchange of the Microsoft access token for an Xbox
    /// Live token.
    AuthenticateXbox(Result<TokenWithExpiry, XboxAuthenticateError>),
    /// The answer to the exchange of the Xbox Live token for a secure token.
    ObtainXsts(Result<XstsToken, XboxAuthenticateError>),
    /// The answer to the exchange of the secure token and userhash for the
    /// access token of the game service.
    AuthenticateMinecraft(Result<TokenWithExpiry, XboxAuthenticateError>),
    /// The answer to the request for the profile of `access_token`.
    MinecraftProfile {
        access_token: MinecraftAccessToken,
        result: Result<MinecraftProfileResponse, XboxAuthenticateError>,
    },
}

/// The mathematical value of an [`ExchangeResult`].
pub enum ExchangeView {
    Authorization(Result<MsaTokensView, ProcessAuthorizationError>),
    RefreshMsa(Result<Option<MsaTokensView>, MsaAuthorizationError>),
    AuthenticateXbox(Result<TokenWithExpiryView, XboxAuthenticateError>),
    ObtainXsts(Result<XstsTokenView, XboxAuthenticateError>),
    AuthenticateMinecraft(Result<TokenWithExpiryView, XboxAuthenticateError>),
    MinecraftProfile {
        access_token: Seq<char>,
        result: Result<MinecraftProfileResponse, XboxAuthenticateError>,
    },
}

impl View for ExchangeResult {
    type V = ExchangeView;

    open spec fn view(&self) -> ExchangeView {
        match self {
            ExchangeResult::Authorization(Ok(tokens)) => ExchangeView::Authorization(Ok(tokens@)),
            ExchangeResult::Authorization(Err(error)) => ExchangeView::Authorization(Err(*error)),
            ExchangeResult::RefreshMsa(Ok(Some(tokens))) => ExchangeView::RefreshMsa(
                Ok(Some(tokens@)),
            ),
            ExchangeResult::RefreshMsa(Ok(None)) => ExchangeView::RefreshMsa(Ok(None)),
            ExchangeResult::RefreshMsa(Err(error)) => ExchangeView::RefreshMsa(Err(*error)),
            ExchangeResult::AuthenticateXbox(Ok(token)) => ExchangeView::AuthenticateXbox(
                Ok(token@),
            ),
            ExchangeResult::AuthenticateXbox(Err(error)) => ExchangeView::AuthenticateXbox(
                Err(*error),
            ),
            ExchangeResult::ObtainXsts(Ok(token)) => ExchangeView::ObtainXsts(Ok(token@)),
            ExchangeResult::ObtainXsts(Err(error)) => ExchangeView::ObtainXsts(Err(*error)),
            ExchangeResult::AuthenticateMinecraft(Ok(token)) => {
                ExchangeView::AuthenticateMinecraft(Ok(token@))
            },
            ExchangeResult::AuthenticateMinecraft(Err(error)) => {
                ExchangeView::AuthenticateMinecraft(Err(*error))
            },
            ExchangeResult::MinecraftProfile { access_token, result } => {
                ExchangeView::MinecraftProfile { access_token: access_token@, result: *result }
            },
        }
    }
}

/// What an answer did to the attempt, where it did not end it in failure.
#[derive(Debug, PartialEq, Eq)]
pub enum LoginStep {
    /// The exchange succeeded and its tokens stand in the record.
    Advanced,
    /// The exchange failed, and the field whose token it used was cleared, so
    /// that the next iteration resolves to an earlier stage. `unexpected`
    /// tells a failure that is worth a warning from the expected sign of a
    /// token that is no longer accepted.
    FellBack { unexpected: bool },
    /// The profile confirmed the access token: the attempt is over.
    Finished { profile: MinecraftProfileResponse, access_token: MinecraftAccessToken },
}

/// The mathematical value of a [`LoginStep`].
pub enum StepView {
    Advanced,
    FellBack { unexpected: bool },
    Finished { profile: MinecraftProfileResponse, access_token: Seq<char> },
}

impl View for LoginStep {
    type V = StepView;

    open spec fn view(&self) -> StepView {
        match self {
            LoginStep::Advanced => StepView::Advanced,
            LoginStep::FellBack { unexpected } => StepView::FellBack { unexpected: *unexpected },
            LoginStep::Finished { profile, access_token } => StepView::Finished {
                profile: *profile,
                access_token: access_token@,
            },
        }
    }
}

/// What a result of [`LoginAttempt::apply`] holds.
pub open spec fn step_of(result: Result<LoginStep, LoginError>) -> Result<StepView, LoginError> {
    match result {
        Ok(step) => Ok(step@),
        Err(error) => Err(error),
    }
}

impl ExchangeView {
    /// The stage whose exchange the answer belongs to.
    pub open spec fn answers(self) -> AuthStage {
        match self {
            ExchangeView::Authorization(_) => AuthStage::Initial,
            ExchangeView::RefreshMsa(_) => AuthStage::MsaRefresh,
            ExchangeView::AuthenticateXbox(_) => AuthStage::MsaAccess,
            ExchangeView::ObtainXsts(_) => AuthStage::XboxLive,
            ExchangeView::AuthenticateMinecraft(_) => AuthStage::XboxSecure,
            ExchangeView::MinecraftProfile { .. } => AuthStage::AccessToken,
        }
    }

    /// The failure that the answer reports, as the attempt would end with it.
    /// An invalid grant counts as a failure of the refresh, however the
    /// provider's answer was handed on.
    pub open spec fn failure(self) -> Option<LoginError> {
        match self {
            ExchangeView::Authorization(Err(error)) => Some(
                LoginError::ProcessAuthorizationError(error),
            ),
            ExchangeView::RefreshMsa(Ok(None)) => Some(
                LoginError::MsaAuthorizationError(MsaAuthorizationError::InvalidGrant),
            ),
            ExchangeView::RefreshMsa(Err(error)) => Some(LoginError::MsaAuthorizationError(error)),
            ExchangeView::AuthenticateXbox(Err(error)) => Some(
                LoginError::XboxAuthenticateError(error),
            ),
            ExchangeView::ObtainXsts(Err(error)) => Some(LoginError::XboxAuthenticateError(error)),
            ExchangeView::AuthenticateMinecraft(Err(error)) => Some(
                LoginError::XboxAuthenticateError(error),
            ),
            ExchangeView::MinecraftProfile { result: Err(error), .. } => Some(
                LoginError::XboxAuthenticateError(error),
            ),
            _ => None,
        }
    }

    /// The answer reports that the provider was not reached.
    pub open spec fn connection_failure(self) -> bool {
        match self.failure() {
            Some(LoginError::MsaAuthorizationError(error)) => error.connection_error(),
            Some(LoginError::XboxAuthenticateError(error)) => error.connection_error(),
            _ => false,
        }
    }

    /// The answer reports a failure after which the attempt may go on from an
    /// earlier stage. The authorization through the browser has no earlier
    /// stage; a provider that was not reached says nothing of the token.
    pub open spec fn may_fall_back(self) -> bool {
        match self.failure() {
            Some(LoginError::MsaAuthorizationError(error)) => !error.connection_error(),
            Some(LoginError::XboxAuthenticateError(error)) => !error.connection_error(),
            _ => false,
        }
    }

    /// The failure is the expected sign of a token that is no longer accepted:
    /// an invalid grant for the refresh token, the unauthorized status for the
    /// others.
    pub open spec fn expected_failure(self) -> bool {
        match self.failure() {
            Some(LoginError::MsaAuthorizationError(error)) => error is InvalidGrant,
            Some(LoginError::XboxAuthenticateError(error)) => error.unauthorized(),
            _ => false,
        }
    }
}

impl CredentialsView {
    /// The record with the tokens of a successful answer in their fields. An
    /// authorization also drops the client id that was forced on the old
    /// refresh token.
    pub open spec fn with_tokens_of(self, answer: ExchangeView) -> CredentialsView {
        match answer {
            ExchangeView::Authorization(Ok(tokens)) => CredentialsView {
                msa_access: Some(tokens.access),
                msa_refresh: tokens.refresh,
                msa_refresh_force_client_id: None,
                ..self
            },
            ExchangeView::RefreshMsa(Ok(Some(tokens))) => CredentialsView {
                msa_access: Some(tokens.access),
                msa_refresh: tokens.refresh,
                ..self
            },
            ExchangeView::AuthenticateXbox(Ok(token)) => CredentialsView {
                xbl: Some(token),
                ..self
            },
            ExchangeView::ObtainXsts(Ok(token)) => CredentialsView { xsts: Some(token), ..self },
            ExchangeView::AuthenticateMinecraft(Ok(token)) => CredentialsView {
                access_token: Some(token),
                ..self
            },
            _ => self,
        }
    }

    /// The record without the field whose token the failed exchange used.
    pub open spec fn without_token_of(self, answer: ExchangeView) -> CredentialsView {
        match answer {
            ExchangeView::RefreshMsa(_) => CredentialsView {
                msa_refresh: None,
                msa_refresh_force_client_id: None,
                ..self
            },
            ExchangeView::AuthenticateXbox(_) => CredentialsView { msa_access: None, ..self },
            ExchangeView::ObtainXsts(_) => CredentialsView { xbl: None, ..self },
            ExchangeView::AuthenticateMinecraft(_) => CredentialsView { xsts: None, ..self },
            ExchangeView::MinecraftProfile { .. } => CredentialsView { access_token: None, ..self },
            ExchangeView::Authorization(_) => self,
        }
    }
}

impl AttemptView {
    /// The state in which an attempt starts.
    pub open spec fn fresh() -> AttemptView {
        AttemptView {
            last_stage: None,
            allow_backwards: true,
            progress_count: 0,
            cancel_requested: false,
        }
    }

    /// Why the attempt cannot go on from `stage`, if it cannot: the stage is
    /// the one of the iteration before, or it lies before that one after the
    /// attempt had already moved forward.
    pub open spec fn stage_fault(self, stage: AuthStage) -> Option<LoginError> {
        match self.last_stage {
            Some(last) if stage.rank() < last.rank() && !self.allow_backwards => Some(
                LoginError::LoginStageErrorBackwards,
            ),
            Some(last) if stage == last => Some(LoginError::LoginStageErrorDidntChange),
            _ => None,
        }
    }

    /// The state after the stage check on `stage`. The progress shows the
    /// stage's place, counted from 1. Where the check passes, the stage is
    /// remembered, and moving back is ruled out for good once the stage lies
    /// after the one before it.
    pub open spec fn observed(self, stage: AuthStage) -> AttemptView {
        if self.stage_fault(stage) is Some {
            AttemptView { progress_count: stage.rank() + 1, ..self }
        } else {
            AttemptView {
                last_stage: Some(stage),
                allow_backwards: self.allow_backwards && !(self.last_stage matches Some(last)
                    && stage.rank() > last.rank()),
                progress_count: stage.rank() + 1,
                ..self
            }
        }
    }

    /// The most iterations that can still pass the stage check. While moving
    /// back is allowed, the next stage lies before the last one, or after it
    /// and then moving back is over; after that, every stage lies after the
    /// one before it.
    pub open spec fn iterations_left(self) -> nat {
        match self.last_stage {
            None => (2 * AUTH_STAGE_COUNT as nat - 1) as nat,
            Some(last) => if self.allow_backwards {
                (AUTH_STAGE_COUNT as nat - 1 + last.rank()) as nat
            } else {
                (AUTH_STAGE_COUNT as nat - 1 - last.rank()) as nat
            },
        }
    }

    /// What an answer leads to: the end of the attempt in failure, or the
    /// step that was taken.
    pub open spec fn step_on(self, answer: ExchangeView) -> Result<StepView, LoginError> {
        if self.cancel_requested {
            Err(LoginError::CancelledByUser)
        } else {
            match answer.failure() {
                Some(error) => if self.allow_backwards && answer.may_fall_back() {
                    Ok(StepView::FellBack { unexpected: !answer.expected_failure() })
                } else {
                    Err(error)
                },
                None => match answer {
                    ExchangeView::MinecraftProfile { access_token, result: Ok(profile) } => Ok(
                        StepView::Finished { profile, access_token },
                    ),
                    _ => Ok(StepView::Advanced),
                },
            }
        }
    }

    /// The state after an answer: the progress is complete once the profile
    /// has confirmed the access token, and nothing else changes.
    pub open spec fn after(self, answer: ExchangeView) -> AttemptView {
        match self.step_on(answer) {
            Ok(StepView::Finished { .. }) => AttemptView {
                progress_count: LOGIN_PROGRESS_TOTAL as nat,
                ..self
            },
            _ => self,
        }
    }

    /// The record after an answer: untouched where the attempt ends, moved
    /// forward where the exchange succeeded, and without the field of the
    /// token that was used where the attempt falls back.
    pub open spec fn record_after(self, record: CredentialsView, answer: ExchangeView)
        -> CredentialsView {
        match self.step_on(answer) {
            Ok(StepView::Advanced) => record.with_tokens_of(answer),
            Ok(StepView::FellBack { .. }) => record.without_token_of(answer),
            _ => record,
        }
    }
}

/// Moving back is ruled out for good: neither a stage check nor an answer
/// allows it again, and an attempt that a request to cancel has reached stays
/// cancelled.
pub proof fn lemma_no_way_back_is_permanent(
    attempt: AttemptView,
    stage: AuthStage,
    answer: ExchangeView,
)
    ensures
        !attempt.allow_backwards ==> !attempt.observed(stage).allow_backwards,
        attempt.after(answer).allow_backwards == attempt.allow_backwards,
        attempt.observed(stage).cancel_requested == attempt.cancel_requested,
        attempt.after(answer).cancel_requested == attempt.cancel_requested,
{
}

/// The first stage of an attempt passes the stage check, whatever it is, and
/// leaves moving back allowed.
pub proof fn lemma_first_stage_passes(stage: AuthStage)
    ensures
        AttemptView::fresh().stage_fault(stage) is None,
        AttemptView::fresh().observed(stage).allow_backwards,
        AttemptView::fresh().observed(stage).last_stage == Some(stage),
{
}

/// A stage after the one before it passes the stage check and rules out
/// moving back.
pub proof fn lemma_later_stage_forbids_way_back(attempt: AttemptView, stage: AuthStage)
    requires
        attempt.last_stage matches Some(last) && last.rank() < stage.rank(),
    ensures
        attempt.stage_fault(stage) is None,
        !attempt.observed(stage).allow_backwards,
        attempt.observed(stage).last_stage == Some(stage),
{
}

/// Once the attempt has moved forward, a stage before the one of the last
/// iteration ends it, and the attempt remembers nothing of that stage.
pub proof fn lemma_earlier_stage_after_advance_ends_attempt(attempt: AttemptView, stage: AuthStage)
    requires
        attempt.last_stage matches Some(last) && stage.rank() < last.rank(),
        !attempt.allow_backwards,
    ensures
        attempt.stage_fault(stage) == Some(LoginError::LoginStageErrorBackwards),
        attempt.observed(stage).last_stage == attempt.last_stage,
        !attempt.observed(stage).allow_backwards,
{
}

/// While moving back is allowed, a stage before the one of the last iteration
/// passes the stage check and leaves moving back allowed.
pub proof fn lemma_earlier_stage_passes_before_advance(attempt: AttemptView, stage: AuthStage)
    requires
        attempt.last_stage matches Some(last) && stage.rank() < last.rank(),
        attempt.allow_backwards,
    ensures
        attempt.stage_fault(stage) is None,
        attempt.observed(stage).allow_backwards,
        attempt.observed(stage).last_stage == Some(stage),
{
}

/// The stage of the last iteration, seen again, ends the attempt, whether or
/// not moving back is allowed.
pub proof fn lemma_same_stage_ends_attempt(attempt: AttemptView, stage: AuthStage)
    requires
        attempt.last_stage == Some(stage),
    ensures
        attempt.stage_fault(stage) == Some(LoginError::LoginStageErrorDidntChange),
{
}

/// An iteration that begins on the record as the iteration before left it, at
/// the same instant, ends the attempt: nothing has changed.
pub proof fn lemma_unchanged_record_ends_attempt(
    attempt: AttemptView,
    record: CredentialsView,
    now: Timestamp,
)
    requires
        attempt.stage_fault(record.resolved_stage(now).stage()) is None,
    ensures
        attempt.observed(record.resolved_stage(now).stage()).stage_fault(
            record.pruned(now).resolved_stage(now).stage(),
        ) == Some(LoginError::LoginStageErrorDidntChange),
{
}

/// An attempt cannot go round for ever: every iteration that passes the stage
/// check uses up one of the iterations that are left, of which a new attempt
/// has eleven, and no answer gives one back.
pub proof fn lemma_attempt_runs_out(attempt: AttemptView, stage: AuthStage, answer: ExchangeView)
    ensures
        AttemptView::fresh().iterations_left() == 11,
        attempt.stage_fault(stage) is None ==> attempt.observed(stage).iterations_left()
            < attempt.iterations_left(),
        attempt.after(answer).iterations_left() == attempt.iterations_left(),
{
}

/// A provider that was not reached ends the attempt, also while moving back
/// is still allowed: the attempt ends with that failure, or as cancelled
/// where the user has asked for that, and the record and the attempt stay as
/// they were.
pub proof fn lemma_connection_failure_ends_attempt(
    attempt: AttemptView,
    record: CredentialsView,
    answer: ExchangeView,
)
    requires
        answer.connection_failure(),
    ensures
        answer.failure() is Some,
        attempt.step_on(answer) == Err::<StepView, LoginError>(
            if attempt.cancel_requested {
                LoginError::CancelledByUser
            } else {
                answer.failure()->0
            },
        ),
        attempt.record_after(record, answer) == record,
        attempt.after(answer) == attempt,
{
}

/// Once the attempt has moved forward, every failure ends it: with that
/// failure, or as cancelled where the user has asked for that, and the record
/// and the attempt stay as they were.
pub proof fn lemma_failure_after_advance_ends_attempt(
    attempt: AttemptView,
    record: CredentialsView,
    answer: ExchangeView,
)
    requires
        !attempt.allow_backwards,
        answer.failure() is Some,
    ensures
        attempt.step_on(answer) == Err::<StepView, LoginError>(
            if attempt.cancel_requested {
                LoginError::CancelledByUser
            } else {
                answer.failure()->0
            },
        ),
        attempt.record_after(record, answer) == record,
        attempt.after(answer) == attempt,
{
}

/// A failed authorization through the browser always ends the attempt: there
/// is no earlier stage.
pub proof fn lemma_failed_authorization_ends_attempt(
    attempt: AttemptView,
    record: CredentialsView,
    error: ProcessAuthorizationError,
)
    requires
        !attempt.cancel_requested,
    ensures
        attempt.step_on(ExchangeView::Authorization(Err(error))) == Err::<StepView, LoginError>(
            LoginError::ProcessAuthorizationError(error),
        ),
        attempt.record_after(record, ExchangeView::Authorization(Err(error))) == record,
{
}

/// While moving back is allowed, a failure of another stage than the first
/// that comes from a provider that was reached does not end the attempt: the
/// field of the token that was used is cleared, and a warning is due unless
/// the failure is the expected one.
pub proof fn lemma_failure_before_advance_falls_back(
    attempt: AttemptView,
    record: CredentialsView,
    answer: ExchangeView,
)
    requires
        !attempt.cancel_requested,
        attempt.allow_backwards,
        answer.failure() is Some,
        !(answer is Authorization),
        !answer.connection_failure(),
    ensures
        attempt.step_on(answer) == Ok::<StepView, LoginError>(
            StepView::FellBack { unexpected: !answer.expected_failure() },
        ),
        attempt.record_after(record, answer) == record.without_token_of(answer),
        attempt.after(answer) == attempt,
{
}

/// After a fallback the attempt goes on: the record, resolved at any instant,
/// gives a stage before the one that failed, and that stage passes the stage
/// check.
pub proof fn lemma_fallback_resumes_at_an_earlier_stage(
    attempt: AttemptView,
    record: CredentialsView,
    now: Timestamp,
    answer: ExchangeView,
    later: Timestamp,
)
    requires
        attempt.stage_fault(record.resolved_stage(now).stage()) is None,
        answer.answers() == record.resolved_stage(now).stage(),
        attempt.observed(answer.answers()).step_on(answer) is Ok,
        attempt.observed(answer.answers()).step_on(answer)->Ok_0 is FellBack,
    ensures
        ({
            let begun = attempt.observed(answer.answers());
            let left = begun.record_after(record.pruned(now), answer);
            let next = left.resolved_stage(later).stage();
            &&& next.rank() < answer.answers().rank()
            &&& begun.after(answer).stage_fault(next) is None
            &&& begun.after(answer).observed(next).allow_backwards
        }),
{
}

/// An invalid grant at the first stage of an attempt clears the refresh token
/// and its client id, and the attempt goes on from the start.
pub proof fn lemma_invalid_grant_at_first_stage_restarts(
    record: CredentialsView,
    now: Timestamp,
    later: Timestamp,
)
    requires
        record.resolved_stage(now) is MsaRefresh,
    ensures
        ({
            let begun = AttemptView::fresh().observed(AuthStage::MsaRefresh);
            let answer = ExchangeView::RefreshMsa(Ok(None));
            let left = begun.record_after(record.pruned(now), answer);
            &&& AttemptView::fresh().stage_fault(AuthStage::MsaRefresh) is None
            &&& begun.step_on(answer) == Ok::<StepView, LoginError>(
                StepView::FellBack { unexpected: false },
            )
            &&& left.msa_refresh is None
            &&& left.msa_refresh_force_client_id is None
            &&& left.resolved_stage(later) == StageView::Initial
            &&& begun.after(answer).stage_fault(AuthStage::Initial) is None
        }),
{
}

/// After a success the attempt moves forward: where the new token is live at
/// the next resolving, the record gives the stage of that token, which lies
/// after the stage that was answered.
pub proof fn lemma_success_resumes_at_the_next_token(
    attempt: AttemptView,
    record: CredentialsView,
    now: Timestamp,
    answer: ExchangeView,
    later: Timestamp,
)
    requires
        !attempt.cancel_requested,
        answer.answers() == record.resolved_stage(now).stage(),
        attempt.step_on(answer) == Ok::<StepView, LoginError>(StepView::Advanced),
        match answer {
            ExchangeView::Authorization(Ok(tokens)) => tokens.access.is_live(later),
            ExchangeView::RefreshMsa(Ok(Some(tokens))) => tokens.access.is_live(later),
            ExchangeView::AuthenticateXbox(Ok(token)) => token.is_live(later),
            ExchangeView::ObtainXsts(Ok(token)) => token.is_live(later),
            ExchangeView::AuthenticateMinecraft(Ok(token)) => token.is_live(later),
            _ => true,
        },
    ensures
        ({
            let left = attempt.record_after(record.pruned(now), answer);
            let next = left.resolved_stage(later);
            &&& next.stage().rank() > answer.answers().rank()
            &&& match answer {
                ExchangeView::Authorization(Ok(tokens)) => next == StageView::MsaAccess(
                    tokens.access.token,
                ),
                ExchangeView::RefreshMsa(Ok(Some(tokens))) => next == StageView::MsaAccess(
                    tokens.access.token,
                ),
                ExchangeView::AuthenticateXbox(Ok(token)) => next == StageView::XboxLive(
                    token.token,
                ),
                ExchangeView::ObtainXsts(Ok(token)) => next == (StageView::XboxSecure {
                    xsts: token.token,
                    userhash: token.userhash,
                }),
                ExchangeView::AuthenticateMinecraft(Ok(token)) => next == StageView::AccessToken(
                    token.token,
                ),
                _ => true,
            }
        }),
{
}

/// The profile of the access token ends the attempt with that profile and
/// token, completes the progress and leaves the record as it was.
pub proof fn lemma_profile_finishes_attempt(
    attempt: AttemptView,
    record: CredentialsView,
    access_token: Seq<char>,
    profile: MinecraftProfileResponse,
)
    requires
        !attempt.cancel_requested,
    ensures
        ({
            let answer = ExchangeView::MinecraftProfile { access_token, result: Ok(profile) };
            &&& attempt.step_on(answer) == Ok::<StepView, LoginError>(
                StepView::Finished { profile, access_token },
            )
            &&& attempt.after(answer).progress_count == AUTH_STAGE_COUNT + 1
            &&& attempt.record_after(record, answer) == record
        }),
{
}

/// An attempt that a request to cancel has reached ends on every answer and
/// applies none.
pub proof fn lemma_cancelled_attempt_applies_nothing(
    attempt: AttemptView,
    record: CredentialsView,
    answer: ExchangeView,
)
    requires
        attempt.cancel_requested,
    ensures
        attempt.step_on(answer) == Err::<StepView, LoginError>(LoginError::CancelledByUser),
        attempt.record_after(record, answer) == record,
        attempt.after(answer) == attempt,
{
}

/// How an iteration begins at `now`: `attempt` and `record` are the state and
/// the record before, `begun` and `left` after, and `next` is what the caller
/// is told. Where the user has asked to cancel, the attempt ends and nothing
/// is touched. Otherwise the record is resolved at `now` and the stage is
/// checked: a fault ends the attempt, else the stage is handed out with its
/// data.
pub open spec fn begins_at(
    attempt: AttemptView,
    record: CredentialsView,
    now: Timestamp,
    begun: AttemptView,
    left: CredentialsView,
    next: Result<AuthStageWithData, LoginError>,
) -> bool {
    if attempt.cancel_requested {
        &&& next == Err::<AuthStageWithData, LoginError>(LoginError::CancelledByUser)
        &&& begun == attempt
        &&& left == record
    } else {
        let stage = record.resolved_stage(now);
        &&& left == record.pruned(now)
        &&& begun == attempt.observed(stage.stage())
        &&& match attempt.stage_fault(stage.stage()) {
            Some(fault) => next == Err::<AuthStageWithData, LoginError>(fault),
            None => next is Ok && next->Ok_0@ == stage,
        }
    }
}

impl View for LoginAttempt {
    type V = AttemptView;

    closed spec fn view(&self) -> AttemptView {
        AttemptView {
            last_stage: self.last_stage,
            allow_backwards: self.allow_backwards,
            progress_count: self.progress_count as nat,
            cancel_requested: self.cancel_requested,
        }
    }
}

impl LoginAttempt {
    #[verifier::type_invariant]
    spec fn progress_in_range(&self) -> bool {
        self.progress_count <= LOGIN_PROGRESS_TOTAL
    }

    /// Starts an attempt: no stage seen, moving back allowed, no progress, no
    /// request to cancel.
    pub fn new() -> (attempt: LoginAttempt)
        ensures
            attempt@ == AttemptView::fresh(),
    {
        LoginAttempt {
            last_stage: None,
            allow_backwards: true,
            progress_count: 0,
            cancel_requested: false,
        }
    }

    /// The stage of the last iteration that passed the stage check.
    pub fn last_stage(&self) -> (stage: Option<AuthStage>)
        ensures
            stage == self@.last_stage,
    {
        self.last_stage
    }

    /// Whether the attempt may still fall back to an earlier stage.
    pub fn allows_backwards(&self) -> (allowed: bool)
        ensures
            allowed == self@.allow_backwards,
    {
        self.allow_backwards
    }

    /// Whether the user has asked to end the attempt.
    pub fn has_requested_cancel(&self) -> (requested: bool)
        ensures
            requested == self@.cancel_requested,
    {
        self.cancel_requested
    }

    /// The progress to show: the steps reached, and the steps there are.
    pub fn progress(&self) -> (shown: (usize, usize))
        ensures
            shown.0 == self@.progress_count,
            shown.1 == AUTH_STAGE_COUNT + 1,
            shown.0 <= shown.1,
    {
        proof {
            use_type_invariant(self);
        }
        (self.progress_count, LOGIN_PROGRESS_TOTAL)
    }

    /// Records that the user has asked to end the attempt. From then on the
    /// attempt applies no answer and begins no iteration.
    pub fn request_cancel(&mut self)
        ensures
            final(self)@ == (AttemptView { cancel_requested: true, ..old(self)@ }),
    {
        proof {
            use_type_invariant(&*self);
        }
        self.cancel_requested = true;
    }

    /// The stage check of an iteration: shows the stage in the progress, and
    /// holds the stage against that of the iteration before.
    pub fn observe_stage(&mut self, stage: AuthStage) -> (checked: Result<(), LoginError>)
        ensures
            final(self)@ == old(self)@.observed(stage),
            match old(self)@.stage_fault(stage) {
                Some(fault) => checked == Err::<(), LoginError>(fault),
                None => checked is Ok,
            },
    {
        proof {
            use_type_invariant(&*self);
        }
        let place = stage.ordinal();
        self.progress_count = place as usize + 1;
        if let Some(last) = self.last_stage {
            let last_place = last.ordinal();
            if place > last_place {
                self.allow_backwards = false;
            } else if place < last_place && !self.allow_backwards {
                return Err(LoginError::LoginStageErrorBackwards);
            } else if place == last_place {
                return Err(LoginError::LoginStageErrorDidntChange);
            }
        }
        self.last_stage = Some(stage);
        Ok(())
    }

    /// Begins an iteration at `now`. Where the user has asked to cancel, the
    /// attempt ends and nothing is touched. Otherwise the record is resolved,
    /// the stage is checked against the iteration before, and the stage is
    /// returned with what its exchange needs.
    pub fn begin_iteration_at(
        &mut self,
        credentials: &mut AccountCredentials,
        now: Timestamp,
    ) -> (next: Result<AuthStageWithData, LoginError>)
        ensures
            begins_at(old(self)@, old(credentials)@, now, final(self)@, final(credentials)@, next),
    {
        if self.cancel_requested {
            return Err(LoginError::CancelledByUser);
        }
        let stage = credentials.resolve(now);
        match self.observe_stage(stage.stage()) {
            Ok(()) => Ok(stage),
            Err(fault) => Err(fault),
        }
    }

    /// Begins an iteration at the instant that the system clock shows. Which
    /// instant that is cannot be known beforehand, so the iteration begins as
    /// [`LoginAttempt::begin_iteration_at`] begins it at some instant.
    pub fn begin_iteration(&mut self, credentials: &mut AccountCredentials) -> (next: Result<
        AuthStageWithData,
        LoginError,
    >)
        ensures
            exists|now: Timestamp| #[trigger]
                begins_at(
                    old(self)@,
                    old(credentials)@,
                    now,
                    final(self)@,
                    final(credentials)@,
                    next,
                ),
    {
        let now = system_now();
        self.begin_iteration_at(credentials, now)
    }

    /// Applies the answer to the exchange of the current stage. Where the
    /// user has asked to cancel, the answer is dropped. A success moves the
    /// record forward; the profile ends the attempt. A failure ends the
    /// attempt when the provider was not reached, when the attempt has
    /// already moved forward, or when the authorization itself failed;
    /// otherwise the field of the token that was used is cleared.
    pub fn apply(&mut self, credentials: &mut AccountCredentials, answer: ExchangeResult) -> (taken:
        Result<LoginStep, LoginError>)
        ensures
            step_of(taken) == old(self)@.step_on(answer@),
            final(self)@ == old(self)@.after(answer@),
            final(credentials)@ == old(self)@.record_after(old(credentials)@, answer@),
    {
        proof {
            use_type_invariant(&*self);
        }
        if self.cancel_requested {
            return Err(LoginError::CancelledByUser);
        }
        match answer {
            ExchangeResult::Authorization(Ok(tokens)) => {
                credentials.msa_access = Some(tokens.access);
                credentials.msa_refresh = tokens.refresh;
                credentials.msa_refresh_force_client_id = None;
                Ok(LoginStep::Advanced)
            },
            ExchangeResult::Authorization(Err(error)) => Err(LoginError::from(error)),
            ExchangeResult::RefreshMsa(Ok(Some(tokens))) => {
                credentials.msa_access = Some(tokens.access);
                credentials.msa_refresh = tokens.refresh;
                Ok(LoginStep::Advanced)
            },
            ExchangeResult::RefreshMsa(Ok(None)) => {
                if !self.allow_backwards {
                    return Err(LoginError::from(MsaAuthorizationError::InvalidGrant));
                }
                credentials.msa_refresh = None;
                credentials.msa_refresh_force_client_id = None;
                Ok(LoginStep::FellBack { unexpected: false })
            },
            ExchangeResult::RefreshMsa(Err(error)) => {
                if !self.allow_backwards || error.is_connection_error() {
                    return Err(LoginError::from(error));
                }
                credentials.msa_refresh = None;
                credentials.msa_refresh_force_client_id = None;
                Ok(LoginStep::FellBack { unexpected: !error.is_invalid_grant() })
            },
            ExchangeResult::AuthenticateXbox(Ok(token)) => {
                credentials.xbl = Some(token);
                Ok(LoginStep::Advanced)
            },
            ExchangeResult::AuthenticateXbox(Err(error)) => {
                let unexpected = self.fall_back_on(error)?;
                credentials.msa_access = None;
                Ok(LoginStep::FellBack { unexpected })
            },
            ExchangeResult::ObtainXsts(Ok(token)) => {
                credentials.xsts = Some(token);
                Ok(LoginStep::Advanced)
            },
            ExchangeResult::ObtainXsts(Err(error)) => {
                let unexpected = self.fall_back_on(error)?;
                credentials.xbl = None;
                Ok(LoginStep::FellBack { unexpected })
            },
            ExchangeResult::AuthenticateMinecraft(Ok(token)) => {
                credentials.access_token = Some(token);
                Ok(LoginStep::Advanced)
            },
            ExchangeResult::AuthenticateMinecraft(Err(error)) => {
                let unexpected = self.fall_back_on(error)?;
                credentials.xsts = None;
                Ok(LoginStep::FellBack { unexpected })
            },
            ExchangeResult::MinecraftProfile { access_token, result: Ok(profile) } => {
                self.progress_count = LOGIN_PROGRESS_TOTAL;
                Ok(LoginStep::Finished { profile, access_token })
            },
            ExchangeResult::MinecraftProfile { access_token: _, result: Err(error) } => {
                let unexpected = self.fall_back_on(error)?;
                credentials.access_token = None;
                Ok(LoginStep::FellBack { unexpected })
            },
        }
    }

    /// Decides on a failed exchange with Xbox Live or the game service: the
    /// failure itself where it ends the attempt, else whether the fallback is
    /// worth a warning.
    fn fall_back_on(&self, error: XboxAuthenticateError) -> (decided: Result<bool, LoginError>)
        ensures
            decided == if !self@.allow_backwards || error.connection_error() {
                Err::<bool, LoginError>(LoginError::XboxAuthenticateError(error))
            } else {
                Ok::<bool, LoginError>(!error.unauthorized())
            },
    {
        if !self.allow_backwards || error.is_connection_error() {
            return Err(LoginError::from(error));
        }
        Ok(!error.is_unauthorized())
    }
}

} // verus!
