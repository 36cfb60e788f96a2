//! Building the records a player submits: the opening transcript, the
//! next shot, and the reading of the transcript's update chain.
//!
//! The ledger calls around these (fetching links, creating records)
//! live with the caller; everything here is a pure function from
//! resolved values to the record to submit.

use vstd::prelude::*;

use crate::game_invite::GameInvite;
use crate::game_invite::GameInviteView;
use crate::game_transcript::get_game_turn;
use crate::game_transcript::shots_view;
use crate::game_transcript::outcomes_view;
use crate::game_transcript::turn_spec;
use crate::game_transcript::GameTranscript;
use crate::game_transcript::GameTurn;
use crate::game_transcript::Shot;
use crate::game_transcript::ShotOutcome;
use crate::game_transcript::ShotView;
use crate::game_transcript::TranscriptView;
use crate::helpers::bytes_eq;
use crate::helpers::copy_bytes;
use crate::helpers::StoredRecord;
use crate::helpers::StoredRecordView;
use crate::validation::ValidateCallbackResult;

verus! {

/// Why a move cannot be built from the resolved records.
#[derive(Clone, Copy, Debug, PartialEq, Eq)]
pub enum PlayError {
    /// A game needs exactly two deployment proofs before it starts.
    MissingDeploymentProofs,
    /// The two deployment proofs are not authored by the two players.
    DeploymentProofsDontMatchPlayers,
    /// The transcript's phase calls for a proof, not a shot.
    WrongTimeToFire,
    /// A player has linked more than one placement to the invite.
    MultipleDeployments,
}

/// Copy a shot list.
fn copy_shots(v: &Vec<Shot>) -> (r: Vec<Shot>)
    ensures
        shots_view(r@) == shots_view(v@),
{
    let mut out: Vec<Shot> = Vec::new();
    let mut i: usize = 0;
    while i < v.len()
        invariant
            i <= v@.len(),
            out@.len() == i,
            forall|j: int| 0 <= j < i ==> shots_view(out@)[j] == shots_view(v@)[j],
        decreases v@.len() - i,
    {
        out.push(v[i]);
        i += 1;
    }
    proof {
        assert(shots_view(out@) =~= shots_view(v@));
    }
    out
}

/// Copy an outcome list.
fn copy_outcomes(v: &Vec<ShotOutcome>) -> (r: Vec<ShotOutcome>)
    ensures
        outcomes_view(r@) == outcomes_view(v@),
{
    let mut out: Vec<ShotOutcome> = Vec::new();
    let mut i: usize = 0;
    while i < v.len()
        invariant
            i <= v@.len(),
            out@.len() == i,
            forall|j: int| 0 <= j < i ==> outcomes_view(out@)[j] == outcomes_view(v@)[j],
        decreases v@.len() - i,
    {
        out.push(ShotOutcome { proof_hash: copy_bytes(&v[i].proof_hash), hit: v[i].hit });
        i += 1;
    }
    proof {
        assert(outcomes_view(out@) =~= outcomes_view(v@));
    }
    out
}

/// The opening transcript: the away player's first shot, both
/// deployment proofs bound in, everything else empty.
pub open spec fn opening_transcript(
    invite_address: Seq<u8>,
    home_deployment_proof: Seq<u8>,
    away_deployment_proof: Seq<u8>,
    shot: ShotView,
) -> TranscriptView {
    TranscriptView {
        invite: invite_address,
        home_player_deployment_proof: home_deployment_proof,
        away_player_deployment_proof: away_deployment_proof,
        home_player_shots: Seq::empty(),
        away_player_shots: seq![shot],
        home_player_hit_or_miss_proofs: Seq::empty(),
        away_player_hit_or_miss_proofs: Seq::empty(),
    }
}

/// The exact opening move: exactly two deployment proofs must be
/// linked to the invite, one per player in either order, and the new
/// transcript binds each to its player.
pub open spec fn first_shot_spec(
    invite: GameInviteView,
    invite_address: Seq<u8>,
    deployment_proofs: Seq<StoredRecordView>,
    shot: ShotView,
) -> Result<TranscriptView, PlayError> {
    if deployment_proofs.len() != 2 {
        Err(PlayError::MissingDeploymentProofs)
    } else if deployment_proofs[0].author == invite.home_player && deployment_proofs[1].author
        == invite.away_player {
        Ok(
            opening_transcript(
                invite_address,
                deployment_proofs[0].address,
                deployment_proofs[1].address,
                shot,
            ),
        )
    } else if deployment_proofs[0].author == invite.away_player && deployment_proofs[1].author
        == invite.home_player {
        Ok(
            opening_transcript(
                invite_address,
                deployment_proofs[1].address,
                deployment_proofs[0].address,
                shot,
            ),
        )
    } else {
        Err(PlayError::DeploymentProofsDontMatchPlayers)
    }
}

/// The view of a transcript result, for stating contracts.
pub open spec fn transcript_result_view(r: Result<GameTranscript, PlayError>) -> Result<
    TranscriptView,
    PlayError,
> {
    match r {
        Ok(t) => Ok(t@),
        Err(e) => Err(e),
    }
}

/// Build the opening transcript for the away player's first shot, from
/// the invite and the deployment-proof records linked to it.
pub fn fire_first_shot(
    game_invite: &GameInvite,
    game_invite_hash: &Vec<u8>,
    deployment_proofs: &Vec<StoredRecord>,
    shot: Shot,
) -> (r: Result<GameTranscript, PlayError>)
    ensures
        transcript_result_view(r) == first_shot_spec(
            game_invite@,
            game_invite_hash@,
            deployment_proofs@.map_values(|x: StoredRecord| x@),
            shot@,
        ),
{
    if deployment_proofs.len() != 2 {
        return Err(PlayError::MissingDeploymentProofs);
    }
    let first_is_home = bytes_eq(&deployment_proofs[0].author, &game_invite.home_player);
    let first_is_away = bytes_eq(&deployment_proofs[0].author, &game_invite.away_player);
    let second_is_home = bytes_eq(&deployment_proofs[1].author, &game_invite.home_player);
    let second_is_away = bytes_eq(&deployment_proofs[1].author, &game_invite.away_player);
    let (home_dep, away_dep) = if first_is_home && second_is_away {
        (copy_bytes(&deployment_proofs[0].address), copy_bytes(&deployment_proofs[1].address))
    } else if first_is_away && second_is_home {
        (copy_bytes(&deployment_proofs[1].address), copy_bytes(&deployment_proofs[0].address))
    } else {
        return Err(PlayError::DeploymentProofsDontMatchPlayers);
    };
    let mut away_shots: Vec<Shot> = Vec::new();
    away_shots.push(shot);
    let t = GameTranscript {
        invite: copy_bytes(game_invite_hash),
        home_player_deployment_proof: home_dep,
        away_player_deployment_proof: away_dep,
        home_player_shots: Vec::new(),
        away_player_shots: away_shots,
        home_player_hit_or_miss_proofs: Vec::new(),
        away_player_hit_or_miss_proofs: Vec::new(),
    };
    proof {
        assert(t@.home_player_shots =~= Seq::<ShotView>::empty());
        assert(t@.away_player_shots =~= seq![shot@]);
        assert(t@.home_player_hit_or_miss_proofs =~= Seq::<
            crate::game_transcript::ShotOutcomeView,
        >::empty());
        assert(t@.away_player_hit_or_miss_proofs =~= Seq::<
            crate::game_transcript::ShotOutcomeView,
        >::empty());
    }
    Ok(t)
}

/// The exact next-shot move: only in a shot phase, and the shot goes
/// at the tail of the acting player's list.
pub open spec fn next_shot_spec(t: TranscriptView, shot: ShotView) -> Result<
    TranscriptView,
    PlayError,
> {
    match turn_spec(t) {
        GameTurn::HomeShot => Ok(
            TranscriptView {
                invite: t.invite,
                home_player_deployment_proof: t.home_player_deployment_proof,
                away_player_deployment_proof: t.away_player_deployment_proof,
                home_player_shots: t.home_player_shots.push(shot),
                away_player_shots: t.away_player_shots,
                home_player_hit_or_miss_proofs: t.home_player_hit_or_miss_proofs,
                away_player_hit_or_miss_proofs: t.away_player_hit_or_miss_proofs,
            },
        ),
        GameTurn::AwayShot => Ok(
            TranscriptView {
                invite: t.invite,
                home_player_deployment_proof: t.home_player_deployment_proof,
                away_player_deployment_proof: t.away_player_deployment_proof,
                home_player_shots: t.home_player_shots,
                away_player_shots: t.away_player_shots.push(shot),
                home_player_hit_or_miss_proofs: t.home_player_hit_or_miss_proofs,
                away_player_hit_or_miss_proofs: t.away_player_hit_or_miss_proofs,
            },
        ),
        _ => Err(PlayError::WrongTimeToFire),
    }
}

/// Build the next transcript revision for a shot, if it is a shot
/// phase for either player.
pub fn fire_next_shot(game_transcript: &GameTranscript, shot: Shot) -> (r: Result<
    GameTranscript,
    PlayError,
>)
    ensures
        transcript_result_view(r) == next_shot_spec(game_transcript@, shot@),
{
    let turn = get_game_turn(game_transcript);
    let is_home = match turn {
        GameTurn::HomeShot => true,
        GameTurn::AwayShot => false,
        _ => {
            return Err(PlayError::WrongTimeToFire);
        },
    };
    let mut home_shots = copy_shots(&game_transcript.home_player_shots);
    let mut away_shots = copy_shots(&game_transcript.away_player_shots);
    if is_home {
        home_shots.push(shot);
    } else {
        away_shots.push(shot);
    }
    let t = GameTranscript {
        invite: copy_bytes(&game_transcript.invite),
        home_player_deployment_proof: copy_bytes(&game_transcript.home_player_deployment_proof),
        away_player_deployment_proof: copy_bytes(&game_transcript.away_player_deployment_proof),
        home_player_shots: home_shots,
        away_player_shots: away_shots,
        home_player_hit_or_miss_proofs: copy_outcomes(
            &game_transcript.home_player_hit_or_miss_proofs,
        ),
        away_player_hit_or_miss_proofs: copy_outcomes(
            &game_transcript.away_player_hit_or_miss_proofs,
        ),
    };
    proof {
        if is_home {
            assert(t@.home_player_shots =~= game_transcript@.home_player_shots.push(shot@));
        } else {
            assert(t@.away_player_shots =~= game_transcript@.away_player_shots.push(shot@));
        }
    }
    Ok(t)
}

/// A shot built by the next-shot rule passes the shot-step validation
/// rule, provided the cell is on the board and fresh: the two sides of
/// the protocol agree.
pub proof fn lemma_fired_shot_is_accepted(t: TranscriptView, shot: ShotView, bs: int)
    requires
        turn_spec(t) == GameTurn::HomeShot || turn_spec(t) == GameTurn::AwayShot,
        crate::game_transcript::shot_on_board(shot, bs),
        turn_spec(t) == GameTurn::HomeShot ==> !crate::game_transcript::shots_contain(
            t.home_player_shots,
            shot,
        ),
        turn_spec(t) == GameTurn::AwayShot ==> !crate::game_transcript::shots_contain(
            t.away_player_shots,
            shot,
        ),
    ensures
        next_shot_spec(t, shot) matches Ok(u) && crate::game_transcript::add_shot_verdict(
            u,
            t,
            turn_spec(t) == GameTurn::HomeShot,
            bs,
        ) == ValidateCallbackResult::Valid,
{
    let u = next_shot_spec(t, shot)->Ok_0;
    if turn_spec(t) == GameTurn::HomeShot {
        assert(u.home_player_shots.drop_last() =~= t.home_player_shots);
    } else {
        assert(u.away_player_shots.drop_last() =~= t.away_player_shots);
    }
}

/// One link of the transcript's update chain, as the ledger reports
/// it: the revision it points to and when the link was made.
#[derive(Clone, Debug, PartialEq, Eq)]
pub struct UpdateLink {
    pub target: Vec<u8>,
    pub timestamp: i64,
}

pub ghost struct UpdateLinkView {
    pub target: Seq<u8>,
    pub timestamp: int,
}

impl View for UpdateLink {
    type V = UpdateLinkView;

    open spec fn view(&self) -> UpdateLinkView {
        UpdateLinkView { target: self.target@, timestamp: self.timestamp as int }
    }
}

/// Strict lexicographic order on byte strings.
pub open spec fn lex_lt(a: Seq<u8>, b: Seq<u8>) -> bool
    decreases a.len(),
{
    if b.len() == 0 {
        false
    } else if a.len() == 0 {
        true
    } else if a[0] < b[0] {
        true
    } else if a[0] > b[0] {
        false
    } else {
        lex_lt(a.skip(1), b.skip(1))
    }
}

/// Whether link `a` wins over link `b` as the latest revision: by
/// timestamp, with ties broken by content address for determinism.
pub open spec fn link_newer(a: UpdateLinkView, b: UpdateLinkView) -> bool {
    a.timestamp > b.timestamp || (a.timestamp == b.timestamp && lex_lt(b.target, a.target))
}

/// The winning link of a list, scanned in order; an earlier link keeps
/// its place against a later equal one.
pub open spec fn pick_latest(links: Seq<UpdateLinkView>) -> Option<UpdateLinkView>
    decreases links.len(),
{
    if links.len() == 0 {
        None
    } else {
        match pick_latest(links.drop_last()) {
            Option::None => Some(links.last()),
            Option::Some(best) => {
                if link_newer(links.last(), best) {
                    Some(links.last())
                } else {
                    Some(best)
                }
            },
        }
    }
}

/// Compare two byte strings lexicographically.
fn bytes_lt(a: &Vec<u8>, b: &Vec<u8>) -> (r: bool)
    ensures
        r == lex_lt(a@, b@),
{
    let mut i: usize = 0;
    proof {
        assert(a@.skip(0) =~= a@);
        assert(b@.skip(0) =~= b@);
    }
    while i < a.len() && i < b.len()
        invariant
            i <= a@.len(),
            i <= b@.len(),
            lex_lt(a@, b@) == lex_lt(a@.skip(i as int), b@.skip(i as int)),
            forall|j: int| 0 <= j < i ==> a@[j] == b@[j],
        decreases a@.len() - i,
    {
        proof {
            assert(a@.skip(i as int)[0] == a@[i as int]);
            assert(b@.skip(i as int)[0] == b@[i as int]);
        }
        if a[i] < b[i] {
            return true;
        }
        if a[i] > b[i] {
            return false;
        }
        proof {
            assert(a@.skip(i as int).skip(1) =~= a@.skip(i + 1));
            assert(b@.skip(i as int).skip(1) =~= b@.skip(i + 1));
        }
        i += 1;
    }
    let r = a.len() < b.len();
    proof {
        if a@.len() <= b@.len() {
            assert(a@.skip(i as int).len() == 0);
        } else {
            assert(b@.skip(i as int).len() == 0);
        }
    }
    r
}

/// Pick the latest revision of the transcript's update chain: the link
/// with the greatest timestamp, ties broken by content address. `None`
/// means the original revision is still the latest.
pub fn get_latest_game_transcript_revision(links: &Vec<UpdateLink>) -> (r: Option<&UpdateLink>)
    ensures
        match pick_latest(links@.map_values(|l: UpdateLink| l@)) {
            Option::None => r is None,
            Option::Some(best) => (r matches Some(l) && l@ == best),
        },
{
    if links.len() == 0 {
        return None;
    }
    let ghost lv = links@.map_values(|l: UpdateLink| l@);
    let mut best: usize = 0;
    let mut i: usize = 1;
    proof {
        assert(pick_latest(Seq::<UpdateLinkView>::empty()) is None);
        assert(lv.take(1).drop_last() =~= Seq::<UpdateLinkView>::empty());
        assert(lv.take(1).last() == lv[0]);
        assert(pick_latest(lv.take(1)) == Some(lv[0]));
    }
    while i < links.len()
        invariant
            1 <= i <= links@.len(),
            best < i,
            lv == links@.map_values(|l: UpdateLink| l@),
            pick_latest(lv.take(i as int)) == Some(lv[best as int]),
        decreases links@.len() - i,
    {
        proof {
            assert(lv.take(i + 1).drop_last() =~= lv.take(i as int));
            assert(lv.take(i + 1).last() == lv[i as int]);
        }
        let newer = links[i].timestamp > links[best].timestamp || (links[i].timestamp
            == links[best].timestamp && bytes_lt(&links[best].target, &links[i].target));
        proof {
            assert(newer == link_newer(lv[i as int], lv[best as int]));
        }
        if newer {
            best = i;
        }
        i += 1;
    }
    proof {
        assert(lv.take(links@.len() as int) =~= lv);
    }
    Some(&links[best])
}

/// The original transcript for an invite: the target of the last
/// game link, if the game has started.
pub fn get_original_game_transcript_hash_for_game_invite(links: &Vec<UpdateLink>) -> (r: Option<
    &Vec<u8>,
>)
    ensures
        links@.len() == 0 ==> r is None,
        links@.len() > 0 ==> (r matches Some(t) && t@ == links@.last().target@),
{
    if links.len() == 0 {
        None
    } else {
        Some(&links[links.len() - 1].target)
    }
}

/// A player's own placement among the records linked to an invite:
/// there must be at most one record of theirs; the last one wins, as
/// the ledger reports links in order.
pub open spec fn your_deployment_spec(
    records: Seq<StoredRecordView>,
    you: Seq<u8>,
) -> Result<Option<StoredRecordView>, PlayError> {
    let yours = records.filter(|r: StoredRecordView| r.author == you);
    if yours.len() > 1 {
        Err(PlayError::MultipleDeployments)
    } else if yours.len() == 1 {
        Ok(Some(yours.last()))
    } else {
        Ok(None)
    }
}

/// Find a player's own record among those linked to an invite,
/// insisting there is at most one.
pub fn get_your_ship_deployment_for_invite<'a>(
    records: &'a Vec<StoredRecord>,
    you: &Vec<u8>,
) -> (r: Result<Option<&'a StoredRecord>, PlayError>)
    ensures
        match your_deployment_spec(records@.map_values(|x: StoredRecord| x@), you@) {
            Ok(Option::None) => r == Ok::<Option<&'a StoredRecord>, PlayError>(
                Option::None::<&'a StoredRecord>,
            ),
            Ok(Option::Some(v)) => (r matches Ok(Some(rec)) && rec@ == v),
            Err(e) => (r matches Err(e2) && e2 == e),
        },
{
    let ghost rv = records@.map_values(|x: StoredRecord| x@);
    let ghost pred = |r: StoredRecordView| r.author == you@;
    let mut count: usize = 0;
    let mut found: usize = 0;
    let mut i: usize = 0;
    proof {
        assert(rv.take(0).filter(pred) =~= Seq::<StoredRecordView>::empty());
    }
    while i < records.len()
        invariant
            i <= records@.len(),
            rv == records@.map_values(|x: StoredRecord| x@),
            pred == (|r: StoredRecordView| r.author == you@),
            count == rv.take(i as int).filter(pred).len(),
            count > 0 ==> (found < i && rv.take(i as int).filter(pred).last() == rv[found as int]),
            count <= i,
        decreases records@.len() - i,
    {
        proof {
            assert(rv.take(i + 1).drop_last() =~= rv.take(i as int));
            assert(rv.take(i + 1).last() == rv[i as int]);
            reveal_with_fuel(Seq::filter, 2);
        }
        if bytes_eq(&records[i].author, you) {
            count = count + 1;
            found = i;
        }
        i += 1;
    }
    proof {
        assert(rv.take(records@.len() as int) =~= rv);
    }
    if count > 1 {
        return Err(PlayError::MultipleDeployments);
    }
    if count == 1 {
        return Ok(Some(&records[found]));
    }
    Ok(None)
}

} // verus!
