//! The shared game transcript and its turn-validation state machine.
//!
//! The transcript is the one logically mutable entity of the game,
//! realized as an append-only chain of revisions. Whose turn it is gets
//! inferred purely from the lengths of its four lists; an update is
//! accepted only when it appends exactly one legal item for the player
//! whose turn it is and leaves every other field untouched.

use vstd::prelude::*;

use crate::helpers::bytes_eq;
use crate::helpers::must_get_valid_app_entry_and_author;
use crate::helpers::EntryCreationAction;
use crate::helpers::RecordStore;
use crate::helpers::StoredRecordView;
use crate::helpers::store_lookup;
use crate::ship_deployment::GameRules;
use crate::validation::Rejection;
use crate::validation::ValidateCallbackResult;
use crate::validation::ValidationError;
use crate::EntryTypes;
use crate::EntryView;

verus! {

/// One fired shot: a board cell.
#[derive(Clone, Copy, Debug, PartialEq, Eq)]
pub struct Shot {
    pub x: usize,
    pub y: usize,
}

pub ghost struct ShotView {
    pub x: int,
    pub y: int,
}

impl View for Shot {
    type V = ShotView;

    open spec fn view(&self) -> ShotView {
        ShotView { x: self.x as int, y: self.y as int }
    }
}

/// A recorded outcome: a reference to a hit-or-miss proof record and
/// the hit flag it claims.
#[derive(Clone, Debug, PartialEq, Eq)]
pub struct ShotOutcome {
    pub proof_hash: Vec<u8>,
    pub hit: bool,
}

pub ghost struct ShotOutcomeView {
    pub proof_hash: Seq<u8>,
    pub hit: bool,
}

impl View for ShotOutcome {
    type V = ShotOutcomeView;

    open spec fn view(&self) -> ShotOutcomeView {
        ShotOutcomeView { proof_hash: self.proof_hash@, hit: self.hit }
    }
}

pub open spec fn shots_view(v: Seq<Shot>) -> Seq<ShotView> {
    v.map_values(|s: Shot| s@)
}

pub open spec fn outcomes_view(v: Seq<ShotOutcome>) -> Seq<ShotOutcomeView> {
    v.map_values(|o: ShotOutcome| o@)
}

/// The shared transcript: the records of the game so far. The first
/// revision is created by the away player firing the opening shot;
/// every later revision appends exactly one item.
#[derive(Clone, Debug, PartialEq, Eq)]
pub struct GameTranscript {
    pub invite: Vec<u8>,
    pub home_player_deployment_proof: Vec<u8>,
    pub away_player_deployment_proof: Vec<u8>,
    pub home_player_shots: Vec<Shot>,
    pub away_player_shots: Vec<Shot>,
    pub home_player_hit_or_miss_proofs: Vec<ShotOutcome>,
    pub away_player_hit_or_miss_proofs: Vec<ShotOutcome>,
}

pub ghost struct TranscriptView {
    pub invite: Seq<u8>,
    pub home_player_deployment_proof: Seq<u8>,
    pub away_player_deployment_proof: Seq<u8>,
    pub home_player_shots: Seq<ShotView>,
    pub away_player_shots: Seq<ShotView>,
    pub home_player_hit_or_miss_proofs: Seq<ShotOutcomeView>,
    pub away_player_hit_or_miss_proofs: Seq<ShotOutcomeView>,
}

impl View for GameTranscript {
    type V = TranscriptView;

    open spec fn view(&self) -> TranscriptView {
        TranscriptView {
            invite: self.invite@,
            home_player_deployment_proof: self.home_player_deployment_proof@,
            away_player_deployment_proof: self.away_player_deployment_proof@,
            home_player_shots: shots_view(self.home_player_shots@),
            away_player_shots: shots_view(self.away_player_shots@),
            home_player_hit_or_miss_proofs: outcomes_view(self.home_player_hit_or_miss_proofs@),
            away_player_hit_or_miss_proofs: outcomes_view(self.away_player_hit_or_miss_proofs@),
        }
    }
}

/// The phase of the fixed four-step cycle a transcript is in, or
/// `Corrupt` for a list shape no legal play reaches.
#[derive(Clone, Copy, Debug, PartialEq, Eq)]
pub enum GameTurn {
    AwayShot,
    HomeProof,
    HomeShot,
    AwayProof,
    Corrupt,
}

pub open spec fn min2(a: int, b: int) -> int {
    if a <= b {
        a
    } else {
        b
    }
}

/// The common baseline: the least of the four list lengths.
pub open spec fn baseline(t: TranscriptView) -> int {
    min2(
        min2(t.home_player_shots.len() as int, t.away_player_shots.len() as int),
        min2(
            t.home_player_hit_or_miss_proofs.len() as int,
            t.away_player_hit_or_miss_proofs.len() as int,
        ),
    )
}

/// Turn inference: normalize the four list lengths by their common
/// baseline; the pattern of differences names the phase, and any other
/// pattern is corrupt.
pub open spec fn turn_spec(t: TranscriptView) -> GameTurn {
    let b = baseline(t);
    let a = t.away_player_shots.len() - b;
    let hp = t.home_player_hit_or_miss_proofs.len() - b;
    let h = t.home_player_shots.len() - b;
    let ap = t.away_player_hit_or_miss_proofs.len() - b;
    if a == 0 && hp == 0 && h == 0 && ap == 0 {
        GameTurn::AwayShot
    } else if a == 1 && hp == 0 && h == 0 && ap == 0 {
        GameTurn::HomeProof
    } else if a == 1 && hp == 1 && h == 0 && ap == 0 {
        GameTurn::HomeShot
    } else if a == 1 && hp == 1 && h == 1 && ap == 0 {
        GameTurn::AwayProof
    } else {
        GameTurn::Corrupt
    }
}

/// Infer whose turn it is from the transcript's list lengths alone.
/// Total: every transcript, however malformed, maps to a phase, and
/// repeated calls agree because the result is a pure function of the
/// lists.
pub fn get_game_turn(game_transcript: &GameTranscript) -> (r: GameTurn)
    ensures
        r == turn_spec(game_transcript@),
{
    let away_shot_len = game_transcript.away_player_shots.len();
    let home_proof_len = game_transcript.home_player_hit_or_miss_proofs.len();
    let home_shot_len = game_transcript.home_player_shots.len();
    let away_proof_len = game_transcript.away_player_hit_or_miss_proofs.len();
    let min_shots = if home_shot_len <= away_shot_len {
        home_shot_len
    } else {
        away_shot_len
    };
    let min_proofs = if home_proof_len <= away_proof_len {
        home_proof_len
    } else {
        away_proof_len
    };
    let b = if min_shots <= min_proofs {
        min_shots
    } else {
        min_proofs
    };
    let a = away_shot_len - b;
    let hp = home_proof_len - b;
    let h = home_shot_len - b;
    let ap = away_proof_len - b;
    if a == 0 && hp == 0 && h == 0 && ap == 0 {
        GameTurn::AwayShot
    } else if a == 1 && hp == 0 && h == 0 && ap == 0 {
        GameTurn::HomeProof
    } else if a == 1 && hp == 1 && h == 0 && ap == 0 {
        GameTurn::HomeShot
    } else if a == 1 && hp == 1 && h == 1 && ap == 0 {
        GameTurn::AwayProof
    } else {
        GameTurn::Corrupt
    }
}

pub open spec fn shot_on_board(s: ShotView, bs: int) -> bool {
    0 <= s.x < bs && 0 <= s.y < bs
}

/// Whether a shot names a cell of the board.
pub fn shot_is_on_board(shot: &Shot, rules: &GameRules) -> (r: bool)
    ensures
        r == shot_on_board(shot@, rules@.board_size),
{
    shot.x < rules.board_size && shot.y < rules.board_size
}

pub open spec fn shots_contain(s: Seq<ShotView>, shot: ShotView) -> bool {
    exists|i: int| 0 <= i < s.len() && s[i] == shot
}

/// Whether the list already holds this shot.
fn contains_shot(shots: &Vec<Shot>, shot: &Shot, upto: usize) -> (r: bool)
    requires
        upto <= shots@.len(),
    ensures
        r == shots_contain(shots_view(shots@).take(upto as int), shot@),
{
    let mut i: usize = 0;
    while i < upto
        invariant
            i <= upto <= shots@.len(),
            forall|j: int| 0 <= j < i ==> shots_view(shots@)[j] != shot@,
        decreases upto - i,
    {
        if shots[i].x == shot.x && shots[i].y == shot.y {
            proof {
                assert(shots_view(shots@).take(upto as int)[i as int] == shot@);
            }
            return true;
        }
        proof {
            assert(shots_view(shots@)[i as int] == shots@[i as int]@);
        }
        i += 1;
    }
    proof {
        if shots_contain(shots_view(shots@).take(upto as int), shot@) {
            let j = choose|j: int|
                0 <= j < upto as int && shots_view(shots@).take(upto as int)[j] == shot@;
            assert(shots_view(shots@)[j] == shot@);
        }
    }
    false
}

/// A further shot is valid when it is on the board and has not been
/// fired into that list before.
pub open spec fn additional_shot_ok(existing: Seq<ShotView>, shot: ShotView, bs: int) -> bool {
    shot_on_board(shot, bs) && !shots_contain(existing, shot)
}

/// Whether a shot may be appended after the given ones.
pub fn additional_shot_is_valid(
    existing_shots: &Vec<Shot>,
    upto: usize,
    shot: &Shot,
    rules: &GameRules,
) -> (r: bool)
    requires
        upto <= existing_shots@.len(),
    ensures
        r == additional_shot_ok(shots_view(existing_shots@).take(upto as int), shot@, rules@.board_size),
{
    shot_is_on_board(shot, rules) && !contains_shot(existing_shots, shot, upto)
}

/// Everything but the chosen shot list agrees between the two
/// transcripts.
pub open spec fn eq_except_shots(u: TranscriptView, o: TranscriptView, by_home: bool) -> bool {
    &&& u.invite == o.invite
    &&& u.home_player_deployment_proof == o.home_player_deployment_proof
    &&& u.away_player_deployment_proof == o.away_player_deployment_proof
    &&& (if by_home {
        u.away_player_shots == o.away_player_shots
    } else {
        u.home_player_shots == o.home_player_shots
    })
    &&& u.home_player_hit_or_miss_proofs == o.home_player_hit_or_miss_proofs
    &&& u.away_player_hit_or_miss_proofs == o.away_player_hit_or_miss_proofs
}

/// Everything but the chosen proof list agrees between the two
/// transcripts.
pub open spec fn eq_except_proofs(u: TranscriptView, o: TranscriptView, by_home: bool) -> bool {
    &&& u.invite == o.invite
    &&& u.home_player_deployment_proof == o.home_player_deployment_proof
    &&& u.away_player_deployment_proof == o.away_player_deployment_proof
    &&& u.home_player_shots == o.home_player_shots
    &&& u.away_player_shots == o.away_player_shots
    &&& (if by_home {
        u.away_player_hit_or_miss_proofs == o.away_player_hit_or_miss_proofs
    } else {
        u.home_player_hit_or_miss_proofs == o.home_player_hit_or_miss_proofs
    })
}

/// The exact verdict on a shot step: the acting player's list must have
/// gained exactly one trailing shot, on the board and not a repeat, and
/// nothing else may differ.
pub open spec fn add_shot_verdict(
    upd: TranscriptView,
    orig: TranscriptView,
    by_home: bool,
    bs: int,
) -> ValidateCallbackResult {
    let new_shots = if by_home {
        upd.home_player_shots
    } else {
        upd.away_player_shots
    };
    let old_shots = if by_home {
        orig.home_player_shots
    } else {
        orig.away_player_shots
    };
    if new_shots.len() == 0 {
        ValidateCallbackResult::Invalid(Rejection::ShotMissing)
    } else if !additional_shot_ok(new_shots.drop_last(), new_shots.last(), bs) {
        ValidateCallbackResult::Invalid(Rejection::InvalidShot)
    } else if !(new_shots.drop_last() == old_shots && eq_except_shots(upd, orig, by_home)) {
        ValidateCallbackResult::Invalid(Rejection::ShotNotLoneChange)
    } else {
        ValidateCallbackResult::Valid
    }
}

/// Byte-string lists are equal.
fn outcome_lists_eq(a: &Vec<ShotOutcome>, b: &Vec<ShotOutcome>) -> (r: bool)
    ensures
        r == (outcomes_view(a@) == outcomes_view(b@)),
{
    if a.len() != b.len() {
        proof {
            assert(outcomes_view(a@).len() != outcomes_view(b@).len());
        }
        return false;
    }
    let mut i: usize = 0;
    while i < a.len()
        invariant
            i <= a@.len(),
            a@.len() == b@.len(),
            forall|j: int| 0 <= j < i ==> outcomes_view(a@)[j] == outcomes_view(b@)[j],
        decreases a@.len() - i,
    {
        let same = bytes_eq(&a[i].proof_hash, &b[i].proof_hash) && a[i].hit == b[i].hit;
        if !same {
            proof {
                assert(outcomes_view(a@)[i as int] != outcomes_view(b@)[i as int]);
            }
            return false;
        }
        proof {
            assert(outcomes_view(a@)[i as int] == outcomes_view(b@)[i as int]);
        }
        i += 1;
    }
    proof {
        assert(outcomes_view(a@) =~= outcomes_view(b@));
    }
    true
}

/// Shot lists are equal.
fn shot_lists_eq(a: &Vec<Shot>, b: &Vec<Shot>) -> (r: bool)
    ensures
        r == (shots_view(a@) == shots_view(b@)),
{
    if a.len() != b.len() {
        proof {
            assert(shots_view(a@).len() != shots_view(b@).len());
        }
        return false;
    }
    let mut i: usize = 0;
    while i < a.len()
        invariant
            i <= a@.len(),
            a@.len() == b@.len(),
            forall|j: int| 0 <= j < i ==> shots_view(a@)[j] == shots_view(b@)[j],
        decreases a@.len() - i,
    {
        if !(a[i].x == b[i].x && a[i].y == b[i].y) {
            proof {
                assert(shots_view(a@)[i as int] != shots_view(b@)[i as int]);
            }
            return false;
        }
        proof {
            assert(shots_view(a@)[i as int] == shots_view(b@)[i as int]);
        }
        i += 1;
    }
    proof {
        assert(shots_view(a@) =~= shots_view(b@));
    }
    true
}

/// The first elements of `a` (all but its last) equal `b` exactly.
fn shot_list_prefix_eq(a: &Vec<Shot>, b: &Vec<Shot>) -> (r: bool)
    requires
        a@.len() >= 1,
    ensures
        r == (shots_view(a@).drop_last() == shots_view(b@)),
{
    if a.len() - 1 != b.len() {
        proof {
            assert(shots_view(a@).drop_last().len() != shots_view(b@).len());
        }
        return false;
    }
    let mut i: usize = 0;
    while i < b.len()
        invariant
            i <= b@.len(),
            a@.len() == b@.len() + 1,
            forall|j: int| 0 <= j < i ==> shots_view(a@)[j] == shots_view(b@)[j],
        decreases b@.len() - i,
    {
        if !(a[i].x == b[i].x && a[i].y == b[i].y) {
            proof {
                assert(shots_view(a@).drop_last()[i as int] != shots_view(b@)[i as int]);
            }
            return false;
        }
        proof {
            assert(shots_view(a@)[i as int] == shots_view(b@)[i as int]);
        }
        i += 1;
    }
    proof {
        assert(shots_view(a@).drop_last() =~= shots_view(b@));
    }
    true
}

/// The first elements of `a` (all but its last) equal `b` exactly.
fn outcome_list_prefix_eq(a: &Vec<ShotOutcome>, b: &Vec<ShotOutcome>) -> (r: bool)
    requires
        a@.len() >= 1,
    ensures
        r == (outcomes_view(a@).drop_last() == outcomes_view(b@)),
{
    if a.len() - 1 != b.len() {
        proof {
            assert(outcomes_view(a@).drop_last().len() != outcomes_view(b@).len());
        }
        return false;
    }
    let mut i: usize = 0;
    while i < b.len()
        invariant
            i <= b@.len(),
            a@.len() == b@.len() + 1,
            forall|j: int| 0 <= j < i ==> outcomes_view(a@)[j] == outcomes_view(b@)[j],
        decreases b@.len() - i,
    {
        let same = bytes_eq(&a[i].proof_hash, &b[i].proof_hash) && a[i].hit == b[i].hit;
        if !same {
            proof {
                assert(outcomes_view(a@).drop_last()[i as int] != outcomes_view(b@)[i as int]);
            }
            return false;
        }
        proof {
            assert(outcomes_view(a@)[i as int] == outcomes_view(b@)[i as int]);
        }
        i += 1;
    }
    proof {
        assert(outcomes_view(a@).drop_last() =~= outcomes_view(b@));
    }
    true
}

/// Accept a shot step exactly when the acting player's list gained one
/// legal trailing shot and nothing else changed.
pub fn validate_add_shot(
    game_transcript: &GameTranscript,
    original_game_transcript: &GameTranscript,
    is_by_home_player: bool,
    rules: &GameRules,
) -> (r: ValidateCallbackResult)
    ensures
        r == add_shot_verdict(
            game_transcript@,
            original_game_transcript@,
            is_by_home_player,
            rules@.board_size,
        ),
{
    let changed_shots = if is_by_home_player {
        &game_transcript.home_player_shots
    } else {
        &game_transcript.away_player_shots
    };
    let original_shots = if is_by_home_player {
        &original_game_transcript.home_player_shots
    } else {
        &original_game_transcript.away_player_shots
    };
    if changed_shots.len() == 0 {
        return ValidateCallbackResult::Invalid(Rejection::ShotMissing);
    }
    let shot = changed_shots[changed_shots.len() - 1];
    proof {
        assert(shots_view(changed_shots@).last() == shot@);
        assert(shots_view(changed_shots@).take(changed_shots@.len() - 1) =~= shots_view(
            changed_shots@,
        ).drop_last());
    }
    if !additional_shot_is_valid(changed_shots, changed_shots.len() - 1, &shot, rules) {
        return ValidateCallbackResult::Invalid(Rejection::InvalidShot);
    }
    let prefix_ok = shot_list_prefix_eq(changed_shots, original_shots);
    let others_ok = bytes_eq(&game_transcript.invite, &original_game_transcript.invite)
        && bytes_eq(
        &game_transcript.home_player_deployment_proof,
        &original_game_transcript.home_player_deployment_proof,
    ) && bytes_eq(
        &game_transcript.away_player_deployment_proof,
        &original_game_transcript.away_player_deployment_proof,
    ) && (if is_by_home_player {
        shot_lists_eq(
            &game_transcript.away_player_shots,
            &original_game_transcript.away_player_shots,
        )
    } else {
        shot_lists_eq(
            &game_transcript.home_player_shots,
            &original_game_transcript.home_player_shots,
        )
    }) && outcome_lists_eq(
        &game_transcript.home_player_hit_or_miss_proofs,
        &original_game_transcript.home_player_hit_or_miss_proofs,
    ) && outcome_lists_eq(
        &game_transcript.away_player_hit_or_miss_proofs,
        &original_game_transcript.away_player_hit_or_miss_proofs,
    );
    if !(prefix_ok && others_ok) {
        return ValidateCallbackResult::Invalid(Rejection::ShotNotLoneChange);
    }
    ValidateCallbackResult::Valid
}

/// The exact verdict on a proof step: the acting player's proof list
/// must have gained exactly one trailing outcome whose referenced
/// hit-or-miss proof exists, agrees on the hit flag, was authored by
/// the actor, speaks of the opponent's committed board and of the
/// opponent's last shot; and nothing else may differ.
pub open spec fn add_proof_verdict(
    upd: TranscriptView,
    orig: TranscriptView,
    author: Seq<u8>,
    by_home: bool,
    store: Seq<StoredRecordView>,
) -> Result<ValidateCallbackResult, ValidationError> {
    let new_list = if by_home {
        upd.home_player_hit_or_miss_proofs
    } else {
        upd.away_player_hit_or_miss_proofs
    };
    let old_list = if by_home {
        orig.home_player_hit_or_miss_proofs
    } else {
        orig.away_player_hit_or_miss_proofs
    };
    if new_list.len() == 0 {
        Ok(ValidateCallbackResult::Invalid(Rejection::ProofMissing))
    } else {
        match store_lookup(store, new_list.last().proof_hash) {
            Option::None => Err(ValidationError::MissingRecord),
            Option::Some(rec) => match rec.entry {
                EntryView::HitOrMissProof(hom) => {
                    if new_list.last().hit != hom.hit {
                        Ok(ValidateCallbackResult::Invalid(Rejection::OutcomeHitMismatch))
                    } else if rec.author != author {
                        Ok(ValidateCallbackResult::Invalid(Rejection::ProofAuthorMismatch))
                    } else {
                        let opp_dep = if by_home {
                            upd.away_player_deployment_proof
                        } else {
                            upd.home_player_deployment_proof
                        };
                        match store_lookup(store, opp_dep) {
                            Option::None => Err(ValidationError::MissingRecord),
                            Option::Some(dep_rec) => match dep_rec.entry {
                                EntryView::ShipDeploymentProof(dep) => {
                                    if hom.deployment_commitment != dep.commitment {
                                        Ok(
                                            ValidateCallbackResult::Invalid(
                                                Rejection::ProofForDifferentDeployment,
                                            ),
                                        )
                                    } else {
                                        let opp_shots = if by_home {
                                            upd.away_player_shots
                                        } else {
                                            upd.home_player_shots
                                        };
                                        if opp_shots.len() == 0 || hom.shot != opp_shots.last() {
                                            Ok(
                                                ValidateCallbackResult::Invalid(
                                                    Rejection::ProofForDifferentShot,
                                                ),
                                            )
                                        } else if !(new_list.drop_last() == old_list
                                            && eq_except_proofs(upd, orig, by_home)) {
                                            Ok(
                                                ValidateCallbackResult::Invalid(
                                                    Rejection::ProofNotLoneChange,
                                                ),
                                            )
                                        } else {
                                            Ok(ValidateCallbackResult::Valid)
                                        }
                                    }
                                },
                                _ => Ok(
                                    ValidateCallbackResult::Invalid(Rejection::NotADeploymentProof),
                                ),
                            },
                        }
                    }
                },
                _ => Ok(ValidateCallbackResult::Invalid(Rejection::NotAHitOrMissProof)),
            },
        }
    }
}

/// Accept a proof step exactly when the acting player's proof list
/// gained one trailing outcome consistent with the opponent's board
/// and last shot, and nothing else changed.
pub fn validate_add_proof(
    game_transcript: &GameTranscript,
    original_game_transcript: &GameTranscript,
    author: &Vec<u8>,
    is_by_home_player: bool,
    store: &RecordStore,
) -> (r: Result<ValidateCallbackResult, ValidationError>)
    ensures
        r == add_proof_verdict(
            game_transcript@,
            original_game_transcript@,
            author@,
            is_by_home_player,
            store@,
        ),
{
    let changed_proofs = if is_by_home_player {
        &game_transcript.home_player_hit_or_miss_proofs
    } else {
        &game_transcript.away_player_hit_or_miss_proofs
    };
    let original_proofs = if is_by_home_player {
        &original_game_transcript.home_player_hit_or_miss_proofs
    } else {
        &original_game_transcript.away_player_hit_or_miss_proofs
    };
    if changed_proofs.len() == 0 {
        return Ok(ValidateCallbackResult::Invalid(Rejection::ProofMissing));
    }
    let shot_outcome = &changed_proofs[changed_proofs.len() - 1];
    proof {
        assert(outcomes_view(changed_proofs@).last() == shot_outcome@);
    }
    let rec = match must_get_valid_app_entry_and_author(store, &shot_outcome.proof_hash) {
        Ok(rec) => rec,
        Err(e) => {
            return Err(e);
        },
    };
    let hit_or_miss_proof = match &rec.entry {
        EntryTypes::HitOrMissProof(h) => h,
        _ => {
            return Ok(ValidateCallbackResult::Invalid(Rejection::NotAHitOrMissProof));
        },
    };
    if shot_outcome.hit != hit_or_miss_proof.hit {
        return Ok(ValidateCallbackResult::Invalid(Rejection::OutcomeHitMismatch));
    }
    if !bytes_eq(&rec.author, author) {
        return Ok(ValidateCallbackResult::Invalid(Rejection::ProofAuthorMismatch));
    }
    let expected_deployment_proof = if is_by_home_player {
        &game_transcript.away_player_deployment_proof
    } else {
        &game_transcript.home_player_deployment_proof
    };
    let dep_rec = match must_get_valid_app_entry_and_author(store, expected_deployment_proof) {
        Ok(rec) => rec,
        Err(e) => {
            return Err(e);
        },
    };
    let dep = match &dep_rec.entry {
        EntryTypes::ShipDeploymentProof(d) => d,
        _ => {
            return Ok(ValidateCallbackResult::Invalid(Rejection::NotADeploymentProof));
        },
    };
    if !bytes_eq(&hit_or_miss_proof.deployment_commitment, &dep.commitment) {
        return Ok(ValidateCallbackResult::Invalid(Rejection::ProofForDifferentDeployment));
    }
    let opponent_shots = if is_by_home_player {
        &game_transcript.away_player_shots
    } else {
        &game_transcript.home_player_shots
    };
    if opponent_shots.len() == 0 {
        return Ok(ValidateCallbackResult::Invalid(Rejection::ProofForDifferentShot));
    }
    let last_shot = &opponent_shots[opponent_shots.len() - 1];
    proof {
        assert(shots_view(opponent_shots@).last() == last_shot@);
    }
    if !(hit_or_miss_proof.shot.x == last_shot.x && hit_or_miss_proof.shot.y == last_shot.y) {
        return Ok(ValidateCallbackResult::Invalid(Rejection::ProofForDifferentShot));
    }
    let prefix_ok = outcome_list_prefix_eq(changed_proofs, original_proofs);
    let others_ok = bytes_eq(&game_transcript.invite, &original_game_transcript.invite)
        && bytes_eq(
        &game_transcript.home_player_deployment_proof,
        &original_game_transcript.home_player_deployment_proof,
    ) && bytes_eq(
        &game_transcript.away_player_deployment_proof,
        &original_game_transcript.away_player_deployment_proof,
    ) && shot_lists_eq(
        &game_transcript.home_player_shots,
        &original_game_transcript.home_player_shots,
    ) && shot_lists_eq(
        &game_transcript.away_player_shots,
        &original_game_transcript.away_player_shots,
    ) && (if is_by_home_player {
        outcome_lists_eq(
            &game_transcript.away_player_hit_or_miss_proofs,
            &original_game_transcript.away_player_hit_or_miss_proofs,
        )
    } else {
        outcome_lists_eq(
            &game_transcript.home_player_hit_or_miss_proofs,
            &original_game_transcript.home_player_hit_or_miss_proofs,
        )
    });
    if !(prefix_ok && others_ok) {
        return Ok(ValidateCallbackResult::Invalid(Rejection::ProofNotLoneChange));
    }
    Ok(ValidateCallbackResult::Valid)
}

/// The shape every transcript has at creation.
pub open spec fn creation_shape(t: TranscriptView) -> bool {
    &&& t.home_player_shots.len() == 0
    &&& t.away_player_shots.len() == 1
    &&& t.home_player_hit_or_miss_proofs.len() == 0
    &&& t.away_player_hit_or_miss_proofs.len() == 0
}

/// The exact verdict on a new transcript: list shapes first, then the
/// invite, then the author, then the two deployment proofs with their
/// authors. A creation that arrives as part of an update is judged by
/// the update rule instead and passes here.
pub open spec fn create_transcript_verdict(
    t: TranscriptView,
    is_update: bool,
    author: Seq<u8>,
    store: Seq<StoredRecordView>,
    bs: int,
) -> Result<ValidateCallbackResult, ValidationError> {
    if is_update {
        Ok(ValidateCallbackResult::Valid)
    } else if t.home_player_shots.len() != 0 {
        Ok(ValidateCallbackResult::Invalid(Rejection::HomeShotsPrefilled))
    } else if t.away_player_shots.len() != 1 {
        Ok(ValidateCallbackResult::Invalid(Rejection::OpeningShotCount))
    } else if !shot_on_board(t.away_player_shots[0], bs) {
        Ok(ValidateCallbackResult::Invalid(Rejection::OpeningShotOffBoard))
    } else if t.home_player_hit_or_miss_proofs.len() != 0 || t.away_player_hit_or_miss_proofs.len()
        != 0 {
        Ok(ValidateCallbackResult::Invalid(Rejection::ProofsPrefilled))
    } else {
        match store_lookup(store, t.invite) {
            Option::None => Err(ValidationError::MissingRecord),
            Option::Some(inv_rec) => match inv_rec.entry {
                EntryView::GameInvite(invite) => {
                    if invite.away_player != author {
                        Ok(ValidateCallbackResult::Invalid(Rejection::AwayPlayerMustOpen))
                    } else {
                        match store_lookup(store, t.home_player_deployment_proof) {
                            Option::None => Err(ValidationError::MissingRecord),
                            Option::Some(hrec) => match hrec.entry {
                                EntryView::ShipDeploymentProof(_) => {
                                    if hrec.author != invite.home_player {
                                        Ok(
                                            ValidateCallbackResult::Invalid(
                                                Rejection::HomeDeploymentWrongAuthor,
                                            ),
                                        )
                                    } else {
                                        match store_lookup(store, t.away_player_deployment_proof) {
                                            Option::None => Err(ValidationError::MissingRecord),
                                            Option::Some(arec) => match arec.entry {
                                                EntryView::ShipDeploymentProof(_) => {
                                                    if arec.author != invite.away_player {
                                                        Ok(
                                                            ValidateCallbackResult::Invalid(
                                                                Rejection::AwayDeploymentWrongAuthor,
                                                            ),
                                                        )
                                                    } else {
                                                        Ok(ValidateCallbackResult::Valid)
                                                    }
                                                },
                                                _ => Ok(
                                                    ValidateCallbackResult::Invalid(
                                                        Rejection::AwayDeploymentWrongType,
                                                    ),
                                                ),
                                            },
                                        }
                                    }
                                },
                                _ => Ok(
                                    ValidateCallbackResult::Invalid(
                                        Rejection::HomeDeploymentWrongType,
                                    ),
                                ),
                            },
                        }
                    }
                },
                _ => Ok(ValidateCallbackResult::Invalid(Rejection::InviteWrongType)),
            },
        }
    }
}

/// Accept a new transcript exactly when the away player opens the game
/// with one on-board shot, no other list holds anything, and the two
/// deployment-proof references resolve to deployment proofs authored by
/// the invite's two players.
pub fn validate_create_game_transcript(
    action: &EntryCreationAction,
    game_transcript: &GameTranscript,
    store: &RecordStore,
    rules: &GameRules,
) -> (r: Result<ValidateCallbackResult, ValidationError>)
    ensures
        r == create_transcript_verdict(
            game_transcript@,
            action.is_update(),
            action.author_spec(),
            store@,
            rules@.board_size,
        ),
{
    if let EntryCreationAction::Update { .. } = action {
        // No meaningful judgment is possible without the original
        // revision; the update rule takes over from here.
        return Ok(ValidateCallbackResult::Valid);
    }
    if game_transcript.home_player_shots.len() != 0 {
        return Ok(ValidateCallbackResult::Invalid(Rejection::HomeShotsPrefilled));
    }
    if game_transcript.away_player_shots.len() != 1 {
        return Ok(ValidateCallbackResult::Invalid(Rejection::OpeningShotCount));
    }
    let opening = &game_transcript.away_player_shots[0];
    if !shot_is_on_board(opening, rules) {
        return Ok(ValidateCallbackResult::Invalid(Rejection::OpeningShotOffBoard));
    }
    if game_transcript.home_player_hit_or_miss_proofs.len() != 0
        || game_transcript.away_player_hit_or_miss_proofs.len() != 0 {
        return Ok(ValidateCallbackResult::Invalid(Rejection::ProofsPrefilled));
    }
    let inv_rec = match must_get_valid_app_entry_and_author(store, &game_transcript.invite) {
        Ok(rec) => rec,
        Err(e) => {
            return Err(e);
        },
    };
    let game_invite = match &inv_rec.entry {
        EntryTypes::GameInvite(inv) => inv,
        _ => {
            return Ok(ValidateCallbackResult::Invalid(Rejection::InviteWrongType));
        },
    };
    if !bytes_eq(&game_invite.away_player, action.author()) {
        return Ok(ValidateCallbackResult::Invalid(Rejection::AwayPlayerMustOpen));
    }
    let hrec = match must_get_valid_app_entry_and_author(
        store,
        &game_transcript.home_player_deployment_proof,
    ) {
        Ok(rec) => rec,
        Err(e) => {
            return Err(e);
        },
    };
    match &hrec.entry {
        EntryTypes::ShipDeploymentProof(_) => {},
        _ => {
            return Ok(ValidateCallbackResult::Invalid(Rejection::HomeDeploymentWrongType));
        },
    }
    if !bytes_eq(&hrec.author, &game_invite.home_player) {
        return Ok(ValidateCallbackResult::Invalid(Rejection::HomeDeploymentWrongAuthor));
    }
    let arec = match must_get_valid_app_entry_and_author(
        store,
        &game_transcript.away_player_deployment_proof,
    ) {
        Ok(rec) => rec,
        Err(e) => {
            return Err(e);
        },
    };
    match &arec.entry {
        EntryTypes::ShipDeploymentProof(_) => {},
        _ => {
            return Ok(ValidateCallbackResult::Invalid(Rejection::AwayDeploymentWrongType));
        },
    }
    if !bytes_eq(&arec.author, &game_invite.away_player) {
        return Ok(ValidateCallbackResult::Invalid(Rejection::AwayDeploymentWrongAuthor));
    }
    Ok(ValidateCallbackResult::Valid)
}

/// The exact verdict on a transcript update: resolve the invite, infer
/// the phase from the original revision, demand the matching author,
/// and judge the step by the shot or proof rule.
pub open spec fn update_transcript_verdict(
    upd: TranscriptView,
    orig: TranscriptView,
    author: Seq<u8>,
    store: Seq<StoredRecordView>,
    bs: int,
) -> Result<ValidateCallbackResult, ValidationError> {
    match store_lookup(store, upd.invite) {
        Option::None => Err(ValidationError::MissingRecord),
        Option::Some(inv_rec) => match inv_rec.entry {
            EntryView::GameInvite(invite) => match turn_spec(orig) {
                GameTurn::AwayShot => {
                    if author != invite.away_player {
                        Ok(ValidateCallbackResult::Invalid(Rejection::AwayPlayersTurn))
                    } else {
                        Ok(add_shot_verdict(upd, orig, false, bs))
                    }
                },
                GameTurn::HomeProof => {
                    if author != invite.home_player {
                        Ok(ValidateCallbackResult::Invalid(Rejection::HomePlayersTurn))
                    } else {
                        add_proof_verdict(upd, orig, author, true, store)
                    }
                },
                GameTurn::HomeShot => {
                    if author != invite.home_player {
                        Ok(ValidateCallbackResult::Invalid(Rejection::HomePlayersTurn))
                    } else {
                        Ok(add_shot_verdict(upd, orig, true, bs))
                    }
                },
                GameTurn::AwayProof => {
                    if author != invite.away_player {
                        Ok(ValidateCallbackResult::Invalid(Rejection::AwayPlayersTurn))
                    } else {
                        add_proof_verdict(upd, orig, author, false, store)
                    }
                },
                GameTurn::Corrupt => Ok(
                    ValidateCallbackResult::Invalid(Rejection::OriginalCorrupt),
                ),
            },
            _ => Ok(ValidateCallbackResult::Invalid(Rejection::InviteWrongType)),
        },
    }
}

/// Accept a transcript update exactly when the player whose turn the
/// original revision names appends the one item that turn calls for.
pub fn validate_update_game_transcript(
    author: &Vec<u8>,
    game_transcript: &GameTranscript,
    original_game_transcript: &GameTranscript,
    store: &RecordStore,
    rules: &GameRules,
) -> (r: Result<ValidateCallbackResult, ValidationError>)
    ensures
        r == update_transcript_verdict(
            game_transcript@,
            original_game_transcript@,
            author@,
            store@,
            rules@.board_size,
        ),
{
    let inv_rec = match must_get_valid_app_entry_and_author(store, &game_transcript.invite) {
        Ok(rec) => rec,
        Err(e) => {
            return Err(e);
        },
    };
    let game_invite = match &inv_rec.entry {
        EntryTypes::GameInvite(inv) => inv,
        _ => {
            return Ok(ValidateCallbackResult::Invalid(Rejection::InviteWrongType));
        },
    };
    match get_game_turn(original_game_transcript) {
        GameTurn::AwayShot => {
            if !bytes_eq(author, &game_invite.away_player) {
                return Ok(ValidateCallbackResult::Invalid(Rejection::AwayPlayersTurn));
            }
            Ok(validate_add_shot(game_transcript, original_game_transcript, false, rules))
        },
        GameTurn::HomeProof => {
            if !bytes_eq(author, &game_invite.home_player) {
                return Ok(ValidateCallbackResult::Invalid(Rejection::HomePlayersTurn));
            }
            validate_add_proof(game_transcript, original_game_transcript, author, true, store)
        },
        GameTurn::HomeShot => {
            if !bytes_eq(author, &game_invite.home_player) {
                return Ok(ValidateCallbackResult::Invalid(Rejection::HomePlayersTurn));
            }
            Ok(validate_add_shot(game_transcript, original_game_transcript, true, rules))
        },
        GameTurn::AwayProof => {
            if !bytes_eq(author, &game_invite.away_player) {
                return Ok(ValidateCallbackResult::Invalid(Rejection::AwayPlayersTurn));
            }
            validate_add_proof(game_transcript, original_game_transcript, author, false, store)
        },
        GameTurn::Corrupt => {
            // A corrupt original means a corrupt state once made it
            // through validation; reject loudly.
            Ok(ValidateCallbackResult::Invalid(Rejection::OriginalCorrupt))
        },
    }
}

/// Transcripts can never be deleted.
pub fn validate_delete_game_transcript(
    author: &Vec<u8>,
    original_action: &EntryCreationAction,
    original_game_transcript: &GameTranscript,
) -> (r: ValidateCallbackResult)
    ensures
        r == ValidateCallbackResult::Invalid(Rejection::TranscriptsCannotBeDeleted),
{
    ValidateCallbackResult::Invalid(Rejection::TranscriptsCannotBeDeleted)
}

/// Both endpoints of a transcript-update link must resolve to game
/// transcripts.
pub open spec fn link_transcript_updates_verdict(
    store: Seq<StoredRecordView>,
    base: Seq<u8>,
    target: Seq<u8>,
) -> Result<ValidateCallbackResult, ValidationError> {
    match store_lookup(store, base) {
        Option::None => Err(ValidationError::MissingRecord),
        Option::Some(brec) => match brec.entry {
            EntryView::GameTranscript(_) => match store_lookup(store, target) {
                Option::None => Err(ValidationError::MissingRecord),
                Option::Some(trec) => match trec.entry {
                    EntryView::GameTranscript(_) => Ok(ValidateCallbackResult::Valid),
                    _ => Err(ValidationError::WrongEntryType),
                },
            },
            _ => Err(ValidationError::WrongEntryType),
        },
    }
}

/// A link in the transcript's update chain is valid when both its
/// endpoints are transcript revisions.
pub fn validate_create_link_game_transcript_updates(
    author: &Vec<u8>,
    base_address: &Vec<u8>,
    target_address: &Vec<u8>,
    store: &RecordStore,
) -> (r: Result<ValidateCallbackResult, ValidationError>)
    ensures
        r == link_transcript_updates_verdict(store@, base_address@, target_address@),
{
    let brec = match must_get_valid_app_entry_and_author(store, base_address) {
        Ok(rec) => rec,
        Err(e) => {
            return Err(e);
        },
    };
    match &brec.entry {
        EntryTypes::GameTranscript(_) => {},
        _ => {
            return Err(ValidationError::WrongEntryType);
        },
    }
    let trec = match must_get_valid_app_entry_and_author(store, target_address) {
        Ok(rec) => rec,
        Err(e) => {
            return Err(e);
        },
    };
    match &trec.entry {
        EntryTypes::GameTranscript(_) => Ok(ValidateCallbackResult::Valid),
        _ => Err(ValidationError::WrongEntryType),
    }
}

/// The phase that follows an accepted step of the given phase in the
/// fixed cycle.
pub open spec fn next_turn(g: GameTurn) -> GameTurn {
    match g {
        GameTurn::AwayShot => GameTurn::HomeProof,
        GameTurn::HomeProof => GameTurn::HomeShot,
        GameTurn::HomeShot => GameTurn::AwayProof,
        GameTurn::AwayProof => GameTurn::AwayShot,
        GameTurn::Corrupt => GameTurn::Corrupt,
    }
}

/// A transcript in its creation shape awaits the home player's proof,
/// and in particular is not corrupt.
pub proof fn lemma_creation_turn(t: TranscriptView)
    requires
        creation_shape(t),
    ensures
        turn_spec(t) == GameTurn::HomeProof,
{
}

/// Every transcript the creation rule accepts has the creation shape,
/// so a game always starts in the home player's proof phase.
pub proof fn lemma_accepted_creation_turn(
    t: TranscriptView,
    author: Seq<u8>,
    store: Seq<StoredRecordView>,
    bs: int,
)
    requires
        create_transcript_verdict(t, false, author, store, bs) == Result::<
            ValidateCallbackResult,
            ValidationError,
        >::Ok(ValidateCallbackResult::Valid),
    ensures
        creation_shape(t),
        turn_spec(t) == GameTurn::HomeProof,
{
}

/// Every accepted update advances the turn by exactly one step of the
/// cycle; in particular, no accepted revision of a transcript whose
/// original was not corrupt is ever corrupt.
pub proof fn lemma_accepted_update_advances_turn(
    upd: TranscriptView,
    orig: TranscriptView,
    author: Seq<u8>,
    store: Seq<StoredRecordView>,
    bs: int,
)
    requires
        update_transcript_verdict(upd, orig, author, store, bs) == Result::<
            ValidateCallbackResult,
            ValidationError,
        >::Ok(ValidateCallbackResult::Valid),
    ensures
        turn_spec(orig) != GameTurn::Corrupt,
        turn_spec(upd) == next_turn(turn_spec(orig)),
        turn_spec(upd) != GameTurn::Corrupt,
{
    match turn_spec(orig) {
        GameTurn::AwayShot => {
            assert(upd.away_player_shots.drop_last() == orig.away_player_shots);
            assert(upd.away_player_shots.len() == orig.away_player_shots.len() + 1);
        },
        GameTurn::HomeProof => {
            assert(upd.home_player_hit_or_miss_proofs.drop_last()
                == orig.home_player_hit_or_miss_proofs);
            assert(upd.home_player_hit_or_miss_proofs.len()
                == orig.home_player_hit_or_miss_proofs.len() + 1);
        },
        GameTurn::HomeShot => {
            assert(upd.home_player_shots.drop_last() == orig.home_player_shots);
            assert(upd.home_player_shots.len() == orig.home_player_shots.len() + 1);
        },
        GameTurn::AwayProof => {
            assert(upd.away_player_hit_or_miss_proofs.drop_last()
                == orig.away_player_hit_or_miss_proofs);
            assert(upd.away_player_hit_or_miss_proofs.len()
                == orig.away_player_hit_or_miss_proofs.len() + 1);
        },
        GameTurn::Corrupt => {
            assert(false);
        },
    }
}

/// An update differs from its original by exactly one element appended
/// at the tail of exactly one of the four lists, everything else equal.
pub open spec fn single_append_diff(orig: TranscriptView, upd: TranscriptView) -> bool {
    ||| (upd.away_player_shots.len() >= 1 && upd.away_player_shots.drop_last()
        == orig.away_player_shots && eq_except_shots(upd, orig, false))
    ||| (upd.home_player_shots.len() >= 1 && upd.home_player_shots.drop_last()
        == orig.home_player_shots && eq_except_shots(upd, orig, true))
    ||| (upd.home_player_hit_or_miss_proofs.len() >= 1
        && upd.home_player_hit_or_miss_proofs.drop_last() == orig.home_player_hit_or_miss_proofs
        && eq_except_proofs(upd, orig, true))
    ||| (upd.away_player_hit_or_miss_proofs.len() >= 1
        && upd.away_player_hit_or_miss_proofs.drop_last() == orig.away_player_hit_or_miss_proofs
        && eq_except_proofs(upd, orig, false))
}

/// Every accepted update differs from its original by exactly one
/// appended element at the tail of one list: removing that element
/// leaves the two transcripts identical field for field.
pub proof fn lemma_accepted_update_single_diff(
    upd: TranscriptView,
    orig: TranscriptView,
    author: Seq<u8>,
    store: Seq<StoredRecordView>,
    bs: int,
)
    requires
        update_transcript_verdict(upd, orig, author, store, bs) == Result::<
            ValidateCallbackResult,
            ValidationError,
        >::Ok(ValidateCallbackResult::Valid),
    ensures
        single_append_diff(orig, upd),
{
    match turn_spec(orig) {
        GameTurn::AwayShot => {
            assert(upd.away_player_shots.drop_last() == orig.away_player_shots);
        },
        GameTurn::HomeProof => {
            assert(upd.home_player_hit_or_miss_proofs.drop_last()
                == orig.home_player_hit_or_miss_proofs);
        },
        GameTurn::HomeShot => {
            assert(upd.home_player_shots.drop_last() == orig.home_player_shots);
        },
        GameTurn::AwayProof => {
            assert(upd.away_player_hit_or_miss_proofs.drop_last()
                == orig.away_player_hit_or_miss_proofs);
        },
        GameTurn::Corrupt => {
            assert(false);
        },
    }
}

} // verus!
