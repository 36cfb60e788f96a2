//! The outcomes a validator can produce.
//!
//! A record is either valid or rejected with an explicit reason; a
//! rejection never corrupts prior history. Separately, a validator can
//! fail hard when a cross-referenced record cannot be resolved at all or
//! a proof cannot even be read; those failures are errors, not verdicts.

use vstd::prelude::*;

use crate::groth16::Groth16Error;

verus! {

/// The verdict of a validator on a well-formed record.
#[derive(Clone, Copy, Debug, PartialEq, Eq)]
pub enum ValidateCallbackResult {
    Valid,
    Invalid(Rejection),
}

/// Why a record was rejected. Every rejection is explicit so that an
/// honest author can see which rule the record broke.
#[derive(Clone, Copy, Debug, PartialEq, Eq)]
pub enum Rejection {
    /// The invite's home player must be its author.
    HomePlayerMustBeAuthor,
    /// The invite's away player cannot be its author.
    AwayPlayerCannotBeAuthor,
    /// Game invites are immutable.
    GameInvitesCannotBeUpdated,
    /// Game invites are permanent.
    GameInvitesCannotBeDeleted,
    /// A deployment must field exactly the fixed fleet.
    WrongShipCount,
    /// A ship reaches outside the board.
    ShipOutOfBounds,
    /// Two ships share a cell.
    ShipCollision,
    /// Ship deployments are immutable.
    ShipDeploymentsCannotBeUpdated,
    /// Ship deployments are permanent.
    ShipDeploymentsCannotBeDeleted,
    /// The fleet-legality proof did not verify against the commitment.
    InvalidDeploymentProof,
    /// Deployment proofs are immutable.
    DeploymentProofsCannotBeUpdated,
    /// Deployment proofs are permanent.
    DeploymentProofsCannotBeDeleted,
    /// The hit-or-miss proof names a commitment other than the one of
    /// the deployment proof it references.
    CommitmentMismatch,
    /// The referenced record is not a deployment proof.
    NotADeploymentProof,
    /// The shot-consistency proof did not verify.
    InvalidHitOrMissProof,
    /// Hit-or-miss proofs are immutable.
    HitOrMissProofsCannotBeUpdated,
    /// Hit-or-miss proofs are permanent.
    HitOrMissProofsCannotBeDeleted,
    /// A transcript must start with no home shots.
    HomeShotsPrefilled,
    /// A transcript must start with exactly one away shot.
    OpeningShotCount,
    /// The opening shot is off the board.
    OpeningShotOffBoard,
    /// A transcript must start with no hit-or-miss proofs.
    ProofsPrefilled,
    /// The transcript's invite reference is not a game invite.
    InviteWrongType,
    /// Only the invite's away player may create the transcript.
    AwayPlayerMustOpen,
    /// The home deployment proof reference is not a deployment proof.
    HomeDeploymentWrongType,
    /// The away deployment proof reference is not a deployment proof.
    AwayDeploymentWrongType,
    /// The home deployment proof was not authored by the home player.
    HomeDeploymentWrongAuthor,
    /// The away deployment proof was not authored by the away player.
    AwayDeploymentWrongAuthor,
    /// It is the away player's turn.
    AwayPlayersTurn,
    /// It is the home player's turn.
    HomePlayersTurn,
    /// The original transcript is corrupt; it should never have been
    /// accepted.
    OriginalCorrupt,
    /// The acting player's shot list gained no shot.
    ShotMissing,
    /// The appended shot is off the board or repeats an earlier cell.
    InvalidShot,
    /// Something besides the acting player's one appended shot changed.
    ShotNotLoneChange,
    /// The acting player's proof list gained no entry.
    ProofMissing,
    /// The referenced record is not a hit-or-miss proof.
    NotAHitOrMissProof,
    /// The recorded hit flag disagrees with the referenced proof.
    OutcomeHitMismatch,
    /// The referenced proof has a different author than the actor.
    ProofAuthorMismatch,
    /// The referenced proof speaks of a different deployment than the
    /// opponent's.
    ProofForDifferentDeployment,
    /// The referenced proof speaks of a shot other than the opponent's
    /// last.
    ProofForDifferentShot,
    /// Something besides the acting player's one appended proof changed.
    ProofNotLoneChange,
    /// Game transcripts are permanent.
    TranscriptsCannotBeDeleted,
    /// An update must keep the entry's type.
    EntryTypeMismatch,
    /// Links are permanent.
    LinksCannotBeDeleted,
}

/// A hard validation failure: the record cannot even be judged.
#[derive(Clone, Copy, Debug, PartialEq, Eq)]
pub enum ValidationError {
    /// A cross-referenced record could not be resolved.
    MissingRecord,
    /// A cross-referenced record resolved to the wrong kind of entity.
    WrongEntryType,
    /// A zero-knowledge proof or verifying key could not be read.
    ProofEncoding(Groth16Error),
}

/// The three kinds of failure the design distinguishes.
#[derive(Clone, Copy, Debug, PartialEq, Eq)]
pub enum ErrorKind {
    /// A well-formed record that violates a game rule; the author can
    /// recover by submitting a corrected record.
    PolicyRejection,
    /// A record that fails to parse; its producer does not conform to
    /// the protocol.
    MalformedInput,
    /// A cross-reference that resolves to the wrong entity or to an
    /// entity that does not fit the one under validation.
    ReferenceError,
}

/// Which rejections are disagreements about cross-referenced entities
/// rather than plain rule violations.
pub open spec fn rejection_kind(r: Rejection) -> ErrorKind {
    match r {
        Rejection::InviteWrongType => ErrorKind::ReferenceError,
        Rejection::HomeDeploymentWrongType => ErrorKind::ReferenceError,
        Rejection::AwayDeploymentWrongType => ErrorKind::ReferenceError,
        Rejection::NotADeploymentProof => ErrorKind::ReferenceError,
        Rejection::NotAHitOrMissProof => ErrorKind::ReferenceError,
        Rejection::CommitmentMismatch => ErrorKind::ReferenceError,
        Rejection::ProofForDifferentDeployment => ErrorKind::ReferenceError,
        Rejection::ProofForDifferentShot => ErrorKind::ReferenceError,
        _ => ErrorKind::PolicyRejection,
    }
}

impl Rejection {
    /// Classify this rejection.
    pub fn kind(&self) -> (r: ErrorKind)
        ensures
            r == rejection_kind(*self),
    {
        match *self {
            Rejection::InviteWrongType => ErrorKind::ReferenceError,
            Rejection::HomeDeploymentWrongType => ErrorKind::ReferenceError,
            Rejection::AwayDeploymentWrongType => ErrorKind::ReferenceError,
            Rejection::NotADeploymentProof => ErrorKind::ReferenceError,
            Rejection::NotAHitOrMissProof => ErrorKind::ReferenceError,
            Rejection::CommitmentMismatch => ErrorKind::ReferenceError,
            Rejection::ProofForDifferentDeployment => ErrorKind::ReferenceError,
            Rejection::ProofForDifferentShot => ErrorKind::ReferenceError,
            _ => ErrorKind::PolicyRejection,
        }
    }
}

impl ValidationError {
    /// Classify this hard failure.
    pub fn kind(&self) -> (r: ErrorKind)
        ensures
            self is ProofEncoding ==> r == ErrorKind::MalformedInput,
            !(self is ProofEncoding) ==> r == ErrorKind::ReferenceError,
    {
        match *self {
            ValidationError::MissingRecord => ErrorKind::ReferenceError,
            ValidationError::WrongEntryType => ErrorKind::ReferenceError,
            ValidationError::ProofEncoding(_) => ErrorKind::MalformedInput,
        }
    }
}

} // verus!
