//! Interpreting a game for display: which phase it is in and what each
//! fired shot came to.
//!
//! The caller resolves the invite, the deployment proofs linked to it,
//! and the latest transcript revision, and hands in plain values; the
//! interpretation itself is a pure function.

use vstd::prelude::*;

use crate::game_invite::GameInvite;
use crate::game_invite::GameInviteView;
use crate::game_transcript::get_game_turn;
use crate::game_transcript::shots_view;
use crate::game_transcript::outcomes_view;
use crate::game_transcript::turn_spec;
use crate::game_transcript::GameTranscript;
use crate::game_transcript::GameTurn;
use crate::game_transcript::Shot;
use crate::game_transcript::ShotView;
use crate::game_transcript::TranscriptView;

verus! {

/// One shot as a viewer sees it: where it went, whether its outcome is
/// still unproven, and whether it hit.
#[derive(Clone, Copy, Debug, PartialEq, Eq)]
pub struct ShotOutcome {
    pub shot: Shot,
    pub pending: bool,
    pub hit: bool,
}

pub ghost struct ShotOutcomeView {
    pub shot: ShotView,
    pub pending: bool,
    pub hit: bool,
}

impl View for ShotOutcome {
    type V = ShotOutcomeView;

    open spec fn view(&self) -> ShotOutcomeView {
        ShotOutcomeView { shot: self.shot@, pending: self.pending, hit: self.hit }
    }
}

/// A started game, read out for a viewer: the phase, and each side's
/// shots with their proven outcomes.
#[derive(Clone, Debug, PartialEq, Eq)]
pub struct InterpretedTranscript {
    pub turn: GameTurn,
    pub shots_aimed_at_home: Vec<ShotOutcome>,
    pub shots_aimed_at_away: Vec<ShotOutcome>,
}

pub ghost struct InterpretedTranscriptView {
    pub turn: GameTurn,
    pub shots_aimed_at_home: Seq<ShotOutcomeView>,
    pub shots_aimed_at_away: Seq<ShotOutcomeView>,
}

impl View for InterpretedTranscript {
    type V = InterpretedTranscriptView;

    open spec fn view(&self) -> InterpretedTranscriptView {
        InterpretedTranscriptView {
            turn: self.turn,
            shots_aimed_at_home: self.shots_aimed_at_home@.map_values(|o: ShotOutcome| o@),
            shots_aimed_at_away: self.shots_aimed_at_away@.map_values(|o: ShotOutcome| o@),
        }
    }
}

/// Where a game stands, as far as the invite's records show.
#[derive(Clone, Debug, PartialEq, Eq)]
pub enum GameState {
    AwaitingHomeDeployment,
    AwaitingAwayDeployment,
    AwaitingBothDeployments,
    GameStarted(InterpretedTranscript),
}

pub ghost enum GameStateView {
    AwaitingHomeDeployment,
    AwaitingAwayDeployment,
    AwaitingBothDeployments,
    GameStarted(InterpretedTranscriptView),
}

impl View for GameState {
    type V = GameStateView;

    open spec fn view(&self) -> GameStateView {
        match self {
            GameState::AwaitingHomeDeployment => GameStateView::AwaitingHomeDeployment,
            GameState::AwaitingAwayDeployment => GameStateView::AwaitingAwayDeployment,
            GameState::AwaitingBothDeployments => GameStateView::AwaitingBothDeployments,
            GameState::GameStarted(t) => GameStateView::GameStarted(t@),
        }
    }
}

/// Why a game's records cannot be read as a state.
#[derive(Clone, Copy, Debug, PartialEq, Eq)]
pub enum GameStateError {
    /// Someone who is not a participant published a deployment proof
    /// for this invite.
    NonPlayerDeployed,
    /// More than two deployment proofs are linked to this invite.
    TooManyDeployments,
}

/// Pair one side's shots with the opponent's outcome proofs, in order:
/// a shot with no proof yet is pending.
pub open spec fn outcomes_against(
    shots: Seq<ShotView>,
    proofs: Seq<crate::game_transcript::ShotOutcomeView>,
) -> Seq<ShotOutcomeView> {
    Seq::new(
        shots.len(),
        |i: int|
            ShotOutcomeView {
                shot: shots[i],
                pending: i >= proofs.len(),
                hit: i < proofs.len() && proofs[i].hit,
            },
    )
}

/// How a transcript reads for a viewer.
pub open spec fn interpret_spec(t: TranscriptView) -> InterpretedTranscriptView {
    InterpretedTranscriptView {
        turn: turn_spec(t),
        shots_aimed_at_home: outcomes_against(
            t.away_player_shots,
            t.home_player_hit_or_miss_proofs,
        ),
        shots_aimed_at_away: outcomes_against(
            t.home_player_shots,
            t.away_player_hit_or_miss_proofs,
        ),
    }
}

/// The empty interpretation of a game whose transcript has not been
/// created yet: the away player opens.
pub open spec fn untouched_game() -> InterpretedTranscriptView {
    InterpretedTranscriptView {
        turn: GameTurn::AwayShot,
        shots_aimed_at_home: Seq::empty(),
        shots_aimed_at_away: Seq::empty(),
    }
}

/// The exact state of a game given the invite, the authors of the
/// deployment proofs linked to it, and the latest transcript revision
/// if one exists.
pub open spec fn game_state_spec(
    invite: GameInviteView,
    deployment_authors: Seq<Seq<u8>>,
    transcript: Option<TranscriptView>,
) -> Result<GameStateView, GameStateError> {
    if deployment_authors.len() == 0 {
        Ok(GameStateView::AwaitingBothDeployments)
    } else if deployment_authors.len() == 1 {
        if deployment_authors[0] == invite.home_player {
            Ok(GameStateView::AwaitingAwayDeployment)
        } else if deployment_authors[0] == invite.away_player {
            Ok(GameStateView::AwaitingHomeDeployment)
        } else {
            Err(GameStateError::NonPlayerDeployed)
        }
    } else if deployment_authors.len() == 2 {
        match transcript {
            Option::None => Ok(GameStateView::GameStarted(untouched_game())),
            Option::Some(t) => Ok(GameStateView::GameStarted(interpret_spec(t))),
        }
    } else {
        Err(GameStateError::TooManyDeployments)
    }
}

/// The view of a state result, for stating contracts.
pub open spec fn state_result_view(r: Result<GameState, GameStateError>) -> Result<
    GameStateView,
    GameStateError,
> {
    match r {
        Ok(g) => Ok(g@),
        Err(e) => Err(e),
    }
}

/// Pair one side's shots with the opponent's outcome proofs.
fn interpret_outcomes(
    shots: &Vec<Shot>,
    proofs: &Vec<crate::game_transcript::ShotOutcome>,
) -> (r: Vec<ShotOutcome>)
    ensures
        r@.map_values(|o: ShotOutcome| o@) == outcomes_against(
            shots_view(shots@),
            outcomes_view(proofs@),
        ),
{
    let mut out: Vec<ShotOutcome> = Vec::new();
    let mut i: usize = 0;
    while i < shots.len()
        invariant
            i <= shots@.len(),
            out@.len() == i,
            forall|j: int|
                0 <= j < i ==> out@.map_values(|o: ShotOutcome| o@)[j] == outcomes_against(
                    shots_view(shots@),
                    outcomes_view(proofs@),
                )[j],
        decreases shots@.len() - i,
    {
        let pending = i >= proofs.len();
        let hit = if i < proofs.len() {
            proofs[i].hit
        } else {
            false
        };
        out.push(ShotOutcome { shot: shots[i], pending, hit });
        i += 1;
    }
    proof {
        assert(out@.map_values(|o: ShotOutcome| o@) =~= outcomes_against(
            shots_view(shots@),
            outcomes_view(proofs@),
        ));
    }
    out
}

/// Read a game's state from its resolved records: which deployments
/// exist, and, once both do, how the latest transcript reads.
pub fn get_game_state(
    game_invite: &GameInvite,
    deployment_authors: &Vec<Vec<u8>>,
    transcript: Option<&GameTranscript>,
) -> (r: Result<GameState, GameStateError>)
    ensures
        state_result_view(r) == game_state_spec(
            game_invite@,
            deployment_authors@.map_values(|v: Vec<u8>| v@),
            match transcript {
                Option::Some(t) => Option::Some(t@),
                Option::None => Option::None,
            },
        ),
{
    if deployment_authors.len() == 0 {
        return Ok(GameState::AwaitingBothDeployments);
    }
    if deployment_authors.len() == 1 {
        if crate::helpers::bytes_eq(&deployment_authors[0], &game_invite.home_player) {
            return Ok(GameState::AwaitingAwayDeployment);
        }
        if crate::helpers::bytes_eq(&deployment_authors[0], &game_invite.away_player) {
            return Ok(GameState::AwaitingHomeDeployment);
        }
        return Err(GameStateError::NonPlayerDeployed);
    }
    if deployment_authors.len() > 2 {
        return Err(GameStateError::TooManyDeployments);
    }
    match transcript {
        Option::None => {
            let interp = InterpretedTranscript {
                turn: GameTurn::AwayShot,
                shots_aimed_at_home: Vec::new(),
                shots_aimed_at_away: Vec::new(),
            };
            proof {
                assert(interp@.shots_aimed_at_home =~= untouched_game().shots_aimed_at_home);
                assert(interp@.shots_aimed_at_away =~= untouched_game().shots_aimed_at_away);
            }
            Ok(GameState::GameStarted(interp))
        },
        Option::Some(t) => {
            let interp = InterpretedTranscript {
                turn: get_game_turn(t),
                shots_aimed_at_home: interpret_outcomes(
                    &t.away_player_shots,
                    &t.home_player_hit_or_miss_proofs,
                ),
                shots_aimed_at_away: interpret_outcomes(
                    &t.home_player_shots,
                    &t.away_player_hit_or_miss_proofs,
                ),
            };
            Ok(GameState::GameStarted(interp))
        },
    }
}

} // verus!
