//! Inbound/outbound activity processing engine for a federated node.
//!
//! Incoming typed activities (add moderator, update community, delete,
//! vote, undo-follow, create-or-update post) are verified against the
//! local record state and federation policy, then applied exactly once.
//! Outbound activities are built as correctly addressed envelopes handed
//! to a delivery plan. All record-store state is held as plain data so
//! that every decision the engine makes is stated and proved.

use vstd::prelude::*;

pub mod activities;
pub mod budget;
pub mod checks;
pub mod codec;
pub mod dispatch;
pub mod envelope;
pub mod queue;
pub mod model;
pub mod resolve;
pub mod settings;
pub mod urls;

verus! {

/// Why a reference could not be materialized.
#[derive(Clone, Copy, Debug, PartialEq, Eq, Structural)]
pub enum ResolveError {
    /// The per-activity fetch budget was already used up.
    BudgetExhausted,
    /// Neither the local store nor the remote node knows the object.
    NotFound,
    /// The fetched representation claims an id under a different domain.
    DomainMismatch,
}

/// Which verification check rejected an activity.
#[derive(Clone, Copy, Debug, PartialEq, Eq, Structural)]
pub enum VerifyFail {
    /// The activity id's domain is not allowed by federation policy.
    InstanceNotAllowed,
    /// The envelope does not carry the required protocol context.
    WrongContext,
    /// The actor is not a confirmed member of the community.
    NotAMember,
    /// The actor does not hold a moderator relation on the community.
    NotAModerator,
    /// Two URLs that must be structurally equal differ.
    UrlMismatch,
    /// An authoring actor's domain differs from the object id's domain.
    DomainMismatch,
    /// The target field is not the community's moderators-collection URL.
    InvalidModeratorsTarget,
    /// A remote moderator tried to remove a locally owned community.
    LocalCommunityRemoval,
    /// A self-deletion was issued by someone other than the owner.
    NotOwner,
    /// A newly created post arrived already stickied or locked.
    NewPostRestricted,
}

/// Outcome classes for one processed activity.
#[derive(Clone, Copy, Debug, PartialEq, Eq, Structural)]
pub enum ActivityError {
    /// Authorization or authenticity was violated; nothing was mutated.
    VerificationFailed(VerifyFail),
    /// A referenced object could not be resolved.
    ResolveFailed(ResolveError),
    /// The wire kind tag is not in the closed set of known variants.
    UnsupportedActivityType,
    /// The record store failed; the sender should retry.
    StoreError,
    /// A raw vote score was neither +1 nor -1.
    InvalidVoteValue,
}

/// The notification tag a successful mutation asks the local client
/// layer to broadcast. Emitting it is fire-and-forget for the caller.
#[derive(Clone, Copy, Debug, PartialEq, Eq, Structural)]
pub enum UserOperationCrud {
    EditCommunity,
    DeleteCommunity,
    RemoveCommunity,
    CreatePost,
    EditPost,
    DeletePost,
    RemovePost,
    DeleteComment,
    RemoveComment,
}

} // verus!
