//! The course of a whole login attempt, as the iterations of
//! [`crate::login::LoginAttempt`] follow each other, and the bound on its
//! length.

use vstd::prelude::*;
use crate::credentials::CredentialsView;
use crate::errors::LoginError;
use crate::login::{AttemptView, ExchangeView, StepView};
use crate::models::{MinecraftProfileResponse, MsaTokensView, TokenWithExpiryView, XstsTokenView};
use crate::time::Timestamp;

verus! {

/// How an attempt ended.
pub enum RunEnd {
    /// With the profile and the access token that it confirmed.
    LoggedIn { profile: MinecraftProfileResponse, access_token: Seq<char> },
    /// In failure.
    Failed(LoginError),
}

/// Where an attempt stands after some iterations.
pub struct RunView {
    pub attempt: AttemptView,
    pub record: CredentialsView,
    /// How the attempt ended, if it has.
    pub end: Option<RunEnd>,
    /// The iterations that were begun.
    pub iterations: nat,
}

/// One turn of the loop: the instant at which the iteration begins, and the
/// answer that the provider gives to the exchange of its stage.
pub struct Turn {
    pub now: Timestamp,
    pub answer: ExchangeView,
}

/// One iteration: the iteration begins at `turn.now`, and where it yields a
/// stage, `turn.answer` is applied.
pub open spec fn iterate(attempt: AttemptView, record: CredentialsView, turn: Turn) -> RunView {
    if attempt.cancel_requested {
        RunView {
            attempt,
            record,
            end: Some(RunEnd::Failed(LoginError::CancelledByUser)),
            iterations: 1,
        }
    } else {
        let stage = record.resolved_stage(turn.now).stage();
        let begun = attempt.observed(stage);
        let left = record.pruned(turn.now);
        match attempt.stage_fault(stage) {
            Some(fault) => RunView {
                attempt: begun,
                record: left,
                end: Some(RunEnd::Failed(fault)),
                iterations: 1,
            },
            None => RunView {
                attempt: begun.after(turn.answer),
                record: begun.record_after(left, turn.answer),
                end: match begun.step_on(turn.answer) {
                    Ok(StepView::Finished { profile, access_token }) => Some(
                        RunEnd::LoggedIn { profile, access_token },
                    ),
                    Ok(_) => None,
                    Err(error) => Some(RunEnd::Failed(error)),
                },
                iterations: 1,
            },
        }
    }
}

/// The attempt run over `turns`, one iteration for each turn until the
/// attempt ends or the turns are used up.
pub open spec fn run(attempt: AttemptView, record: CredentialsView, turns: Seq<Turn>) -> RunView
    decreases turns.len(),
{
    if turns.len() == 0 {
        RunView { attempt, record, end: None, iterations: 0 }
    } else {
        let first = iterate(attempt, record, turns[0]);
        if first.end is Some {
            first
        } else {
            let rest = run(first.attempt, first.record, turns.skip(1));
            RunView { iterations: rest.iterations + 1, ..rest }
        }
    }
}

/// An iteration that does not end the attempt uses up one of the iterations
/// that are left to it.
pub proof fn lemma_iteration_uses_up_the_attempt(
    attempt: AttemptView,
    record: CredentialsView,
    turn: Turn,
)
    requires
        iterate(attempt, record, turn).end is None,
    ensures
        iterate(attempt, record, turn).attempt.iterations_left() < attempt.iterations_left(),
{
}

/// An attempt ends: whatever the clock shows and the providers answer, an
/// attempt that is given more turns than it has iterations left has ended
/// before the turns are used up, and it never begins more iterations than it
/// has left, and one more that ends it.
pub proof fn lemma_attempt_ends(attempt: AttemptView, record: CredentialsView, turns: Seq<Turn>)
    ensures
        run(attempt, record, turns).iterations <= attempt.iterations_left() + 1,
        run(attempt, record, turns).iterations <= turns.len(),
        turns.len() > attempt.iterations_left() ==> run(attempt, record, turns).end is Some,
        run(attempt, record, turns).end is None ==> run(attempt, record, turns).iterations
            == turns.len(),
    decreases turns.len(),
{
    if turns.len() > 0 {
        let first = iterate(attempt, record, turns[0]);
        if first.end is None {
            lemma_iteration_uses_up_the_attempt(attempt, record, turns[0]);
            lemma_attempt_ends(first.attempt, first.record, turns.skip(1));
        }
    }
}

/// A new attempt has ended after twelve iterations at the latest.
pub proof fn lemma_new_attempt_ends_within_twelve_iterations(
    record: CredentialsView,
    turns: Seq<Turn>,
)
    ensures
        run(AttemptView::fresh(), record, turns).iterations <= 12,
        turns.len() >= 12 ==> run(AttemptView::fresh(), record, turns).end is Some,
{
    lemma_attempt_ends(AttemptView::fresh(), record, turns);
}

/// The turns of a login that starts with nothing and meets no failure: the
/// authorization, the three exchanges down the chain and the profile, each
/// at its instant.
pub open spec fn straight_turns(
    instants: Seq<Timestamp>,
    msa: MsaTokensView,
    xbl: TokenWithExpiryView,
    xsts: XstsTokenView,
    game: TokenWithExpiryView,
    profile: MinecraftProfileResponse,
) -> Seq<Turn> {
    seq![
        Turn { now: instants[0], answer: ExchangeView::Authorization(Ok(msa)) },
        Turn { now: instants[1], answer: ExchangeView::AuthenticateXbox(Ok(xbl)) },
        Turn { now: instants[2], answer: ExchangeView::ObtainXsts(Ok(xsts)) },
        Turn { now: instants[3], answer: ExchangeView::AuthenticateMinecraft(Ok(game)) },
        Turn {
            now: instants[4],
            answer: ExchangeView::MinecraftProfile {
                access_token: game.token,
                result: Ok(profile),
            },
        },
    ]
}

/// A login that starts with the empty record and meets no failure runs
/// straight through: where each token is still live when the next iteration
/// begins, the attempt ends after five iterations with the profile and the
/// access token of the game service, the progress is complete, and the record
/// holds every token that was handed out.
pub proof fn lemma_login_from_nothing_runs_straight_through(
    instants: Seq<Timestamp>,
    msa: MsaTokensView,
    xbl: TokenWithExpiryView,
    xsts: XstsTokenView,
    game: TokenWithExpiryView,
    profile: MinecraftProfileResponse,
)
    requires
        instants.len() == 5,
        msa.access.is_live(instants[1]),
        xbl.is_live(instants[2]),
        xsts.is_live(instants[3]),
        game.is_live(instants[4]),
    ensures
        ({
            let turns = straight_turns(instants, msa, xbl, xsts, game, profile);
            let done = run(AttemptView::fresh(), CredentialsView::empty(), turns);
            &&& done.end == Some(RunEnd::LoggedIn { profile, access_token: game.token })
            &&& done.iterations == 5
            &&& done.attempt.progress_count == 7
            &&& done.record == (CredentialsView {
                msa_refresh: msa.refresh,
                msa_refresh_force_client_id: None,
                msa_access: Some(msa.access),
                xbl: Some(xbl),
                xsts: Some(xsts),
                access_token: Some(game),
            })
        }),
{
    let turns = straight_turns(instants, msa, xbl, xsts, game, profile);
    let start = CredentialsView::empty();
    let first = iterate(AttemptView::fresh(), start, turns[0]);
    let second = iterate(first.attempt, first.record, turns[1]);
    let third = iterate(second.attempt, second.record, turns[2]);
    let fourth = iterate(third.attempt, third.record, turns[3]);
    let fifth = iterate(fourth.attempt, fourth.record, turns[4]);
    assert(first.end is None && second.end is None && third.end is None && fourth.end is None);
    assert(fifth.end == Some(RunEnd::LoggedIn { profile, access_token: game.token }));
    let rest1 = turns.skip(1);
    let rest2 = rest1.skip(1);
    let rest3 = rest2.skip(1);
    let rest4 = rest3.skip(1);
    assert(rest1[0] == turns[1] && rest2[0] == turns[2] && rest3[0] == turns[3] && rest4[0]
        == turns[4]);
    assert(run(fourth.attempt, fourth.record, rest4) == fifth);
    assert(run(third.attempt, third.record, rest3).iterations == 2);
    assert(run(second.attempt, second.record, rest2).iterations == 3);
    assert(run(first.attempt, first.record, rest1).iterations == 4);
}

} // verus!
