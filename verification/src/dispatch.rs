//! Inbound dispatch: the closed union of activity variants a node
//! accepts, and the one entry point that runs `verify` before
//! `receive` — never the reverse, and never `receive` after a failed
//! `verify`.

use vstd::prelude::*;

use crate::activities::add_mod::{spec_add_mod_verdict, AddMod};
use crate::activities::create_or_update_post::{
    spec_page_locked, spec_page_mod_action, spec_page_stickied, CreateOrUpdatePost,
};
use crate::activities::delete::{
    spec_delete_accept, spec_deleted_applied, spec_removed_applied, targets_local_community, Delete,
};
use crate::activities::undo_follow::UndoFollowCommunity;
use crate::activities::update_community::{spec_updated_community, UpdateCommunity};
use crate::activities::vote::{spec_vote_applied, Vote};
use crate::budget::RequestBudget;
use crate::checks::{is_protocol_context, spec_instance_allowed};
use crate::envelope::CreateOrUpdateType;
use crate::model::{Post, Store};
use crate::resolve::RemoteObjects;
use crate::settings::Settings;
use crate::ActivityError;
use crate::UserOperationCrud;

verus! {

/// The closed set of activity variants accepted in an inbound
/// envelope. A wire kind outside this set is rejected with
/// `UnsupportedActivityType` before any handler runs.
#[derive(Debug, PartialEq)]
pub enum InboundActivity {
    AddMod(AddMod),
    UpdateCommunity(UpdateCommunity),
    Delete(Delete),
    UndoFollowCommunity(UndoFollowCommunity),
    CreateOrUpdatePost(CreateOrUpdatePost),
    Vote(Vote),
}


/// The dispatcher's promise for an add-moderator envelope whose
/// actor, target person and community are locally known: acceptance
/// exactly per the verification verdict, and on success exactly one
/// moderator row for the pair.
pub open spec fn spec_addmod_outcome(
    a: AddMod,
    s: Store,
    s2: Store,
    settings: &Settings,
    r: Result<Option<UserOperationCrud>, ActivityError>,
) -> bool {
    s.has_person(&a.actor) && s.has_person(&a.object) && s.has_community(&a.cc) ==> {
        &&& (forall|p: int, c: int|
            #[trigger] s.local_match(&a.actor, &a.cc, p, c) ==> (r is Ok
                <==> spec_add_mod_verdict(&a, s, settings, p, c) == Ok::<(), ActivityError>(())))
        &&& (r is Ok ==> r == Ok::<Option<UserOperationCrud>, ActivityError>(None) && (forall|
            p: int,
            c: int,
        |
            #[trigger] s.local_match(&a.object, &a.cc, p, c) ==> s2.is_moderator(
                s.communities@[c].id,
                s.persons@[p].id,
            ) && s2.moderator_count(s.communities@[c].id, s.persons@[p].id) == 1))
    }
}

/// The dispatcher's promise for an update-community envelope with a
/// locally known actor and community: acceptance iff policy, context,
/// membership and moderator authority hold, and on success the
/// community's descriptive fields are rewritten from the embedded
/// object.
pub open spec fn spec_update_outcome(
    u: UpdateCommunity,
    s: Store,
    s2: Store,
    settings: &Settings,
    r: Result<Option<UserOperationCrud>, ActivityError>,
) -> bool {
    s.has_person(&u.actor) && s.has_community(&u.cc) ==> {
        &&& (forall|p: int, c: int|
            #[trigger] s.local_match(&u.actor, &u.cc, p, c) ==> (r is Ok <==> spec_instance_allowed(
                &settings.federation,
                u.id.domain@,
            ) && is_protocol_context(&u.context) && s.is_follower(
                s.communities@[c].id,
                s.persons@[p].id,
            ) && s.is_moderator(s.communities@[c].id, s.persons@[p].id)))
        &&& (r is Ok ==> r == Ok::<Option<UserOperationCrud>, ActivityError>(
            Some(UserOperationCrud::EditCommunity),
        ) && (forall|c: int|
            0 <= c < s.communities@.len() && #[trigger] s.communities@[c].actor_id.same_as(&u.cc)
                ==> s2.communities@ == s.communities@.update(
                c,
                spec_updated_community(s.communities@[c], u.object),
            )))
    }
}

/// The dispatcher's promise for a delete envelope with a locally known
/// actor and community: acceptance iff policy, context and the
/// deletion authority hold (a removal additionally needs a known,
/// non-local target), and on success the self-delete or removal
/// effect, with its moderation-log row exactly when a summary marked
/// a removal.
pub open spec fn spec_delete_outcome(
    d: Delete,
    s: Store,
    s2: Store,
    settings: &Settings,
    r: Result<Option<UserOperationCrud>, ActivityError>,
) -> bool {
    s.has_person(&d.actor) && s.has_community(&d.cc) ==> {
        &&& (forall|p: int, c: int|
            #[trigger] s.local_match(&d.actor, &d.cc, p, c) ==> (r is Ok <==> spec_instance_allowed(
                &settings.federation,
                d.id.domain@,
            ) && is_protocol_context(&d.context) && spec_delete_accept(
                &s,
                &d.object,
                &d.cc,
                s.communities@[c].id,
                s.persons@[p].id,
                d.summary is Some,
            ) && (d.summary is Some ==> (s.has_community(&d.object) || s.has_post(&d.object)
                || s.has_comment(&d.object)) && !targets_local_community(&s, &d.object))))
        &&& (d.summary is None && r is Ok ==> s2.mod_log == s.mod_log && spec_deleted_applied(
            s,
            s2,
            &d.object,
            true,
        ))
        &&& (match d.summary {
            Some(sm) => r is Ok ==> spec_removed_applied(s, s2, &d.object) && s2.mod_log@.len()
                == s.mod_log@.len() + 1 && s2.mod_log@.drop_last() == s.mod_log@
                && s2.mod_log@.last().removed && s2.mod_log@.last().reason == (if sm@.len() == 0 {
                Option::<String>::None
            } else {
                Option::<String>::Some(sm)
            }),
            None => true,
        })
    }
}

/// The dispatcher's promise for an undo-follow envelope with a locally
/// known actor and community: acceptance iff the envelope checks and
/// the anti-spoofing matches hold, and on success no follower relation
/// remains for the pair (an absent relation having been a no-op).
pub open spec fn spec_undo_outcome(
    x: UndoFollowCommunity,
    s: Store,
    s2: Store,
    settings: &Settings,
    r: Result<Option<UserOperationCrud>, ActivityError>,
) -> bool {
    s.has_person(&x.actor) && s.has_community(&x.to) ==> {
        &&& (r is Ok <==> spec_instance_allowed(&settings.federation, x.id.domain@)
            && is_protocol_context(&x.context) && x.to.same_as(&x.object.object)
            && x.actor.same_as(&x.object.actor) && spec_instance_allowed(
            &settings.federation,
            x.object.id.domain@,
        ) && is_protocol_context(&x.object.context))
        &&& (r is Ok ==> r == Ok::<Option<UserOperationCrud>, ActivityError>(None) && (forall|
            p: int,
            c: int,
        |
            #[trigger] s.local_match(&x.actor, &x.to, p, c) ==> !s2.has_follower_row(
                s.communities@[c].id,
                s.persons@[p].id,
            ) && (!s.has_follower_row(s.communities@[c].id, s.persons@[p].id) ==> s2.followers
                == s.followers)))
    }
}

/// The dispatcher's promise for a create-or-update-post envelope with
/// a locally known actor and community: acceptance iff policy,
/// context, membership and the kind's own conditions hold, and on
/// success the post is upserted from the embedded page.
pub open spec fn spec_create_post_outcome(
    cp: CreateOrUpdatePost,
    s: Store,
    s2: Store,
    settings: &Settings,
    r: Result<Option<UserOperationCrud>, ActivityError>,
) -> bool {
    s.has_person(&cp.actor) && s.has_community(&cp.cc) ==> {
        &&& (forall|p: int, c: int|
            #[trigger] s.local_match(&cp.actor, &cp.cc, p, c) ==> (r is Ok
                <==> spec_instance_allowed(&settings.federation, cp.id.domain@)
                && is_protocol_context(&cp.context) && s.is_follower(
                s.communities@[c].id,
                s.persons@[p].id,
            ) && spec_create_post_accepted(&cp, s, p, c)))
        &&& (r is Ok ==> r == Ok::<Option<UserOperationCrud>, ActivityError>(
            Some(spec_create_post_op(cp.kind)),
        ) && (forall|i: int|
            0 <= i < s.posts@.len() && #[trigger] s.posts@[i].ap_id.same_as(&cp.object.id)
                ==> s2.posts@ == s.posts@.update(
                i,
                (Post {
                    name: cp.object.name,
                    stickied: spec_page_stickied(&cp.object),
                    locked: spec_page_locked(&cp.object),
                    ..s.posts@[i]
                }),
            )) && (!s.has_post(&cp.object.id) ==> (forall|p: int, c: int|
            #[trigger] s.local_match(&cp.actor, &cp.cc, p, c) ==> s2.posts@.len() == s.posts@.len()
                + 1 && s2.posts@.drop_last() == s.posts@ && s2.posts@.last().ap_id == cp.object.id
                && s2.posts@.last().creator_id == s.persons@[p].id && s2.posts@.last().community_id
                == s.communities@[c].id && s2.posts@.last().name == cp.object.name)))
    }
}

/// The kind-specific acceptance condition of a create-or-update-post.
pub open spec fn spec_create_post_accepted(cp: &CreateOrUpdatePost, s: Store, p: int, c: int) -> bool {
    match cp.kind {
        CreateOrUpdateType::Create => cp.actor.domain@ == cp.object.id.domain@ && cp.actor.same_as(
            &cp.object.attributed_to,
        ) && !(s.communities@[c].local && (spec_page_stickied(&cp.object) || spec_page_locked(
            &cp.object,
        ))),
        CreateOrUpdateType::Update => if spec_page_mod_action(&cp.object, &s) {
            s.is_moderator(s.communities@[c].id, s.persons@[p].id)
        } else {
            cp.actor.domain@ == cp.object.id.domain@ && cp.actor.same_as(&cp.object.attributed_to)
        },
    }
}

/// The notification tag a create-or-update-post emits.
pub open spec fn spec_create_post_op(kind: CreateOrUpdateType) -> UserOperationCrud {
    match kind {
        CreateOrUpdateType::Create => UserOperationCrud::CreatePost,
        CreateOrUpdateType::Update => UserOperationCrud::EditPost,
    }
}

/// The dispatcher's promise for a vote envelope with a locally known
/// actor, community and voted-on object: acceptance iff policy,
/// context and membership hold, and on success the vote is reconciled
/// into the matching table.
pub open spec fn spec_vote_outcome(
    v: Vote,
    s: Store,
    s2: Store,
    settings: &Settings,
    r: Result<Option<UserOperationCrud>, ActivityError>,
) -> bool {
    &&& (s.has_person(&v.actor) && s.has_community(&v.cc) && s.has_post(&v.object) ==> {
        &&& (forall|p: int, c: int|
            #[trigger] s.local_match(&v.actor, &v.cc, p, c) ==> (r is Ok <==> spec_instance_allowed(
                &settings.federation,
                v.id.domain@,
            ) && is_protocol_context(&v.context) && s.is_follower(
                s.communities@[c].id,
                s.persons@[p].id,
            )))
        &&& (r is Ok ==> r == Ok::<Option<UserOperationCrud>, ActivityError>(None)
            && s2.comment_votes == s.comment_votes && (forall|p: int, i: int|
            0 <= p < s.persons@.len() && 0 <= i < s.posts@.len() && (
            #[trigger] s.persons@[p].actor_id.same_as(&v.actor)) && (
            #[trigger] s.posts@[i].ap_id.same_as(&v.object)) ==> spec_vote_applied(
                s.post_votes@,
                s2.post_votes@,
                s.persons@[p].id,
                s.posts@[i].id,
                v.kind,
            )))
    })
    &&& (s.has_person(&v.actor) && s.has_community(&v.cc) && !s.has_post(&v.object)
        && s.has_comment(&v.object) ==> (r is Ok ==> s2.post_votes == s.post_votes && (forall|
        p: int,
        i: int,
    |
        0 <= p < s.persons@.len() && 0 <= i < s.comments@.len() && (
        #[trigger] s.persons@[p].actor_id.same_as(&v.actor)) && (
        #[trigger] s.comments@[i].ap_id.same_as(&v.object)) ==> spec_vote_applied(
            s.comment_votes@,
            s2.comment_votes@,
            s.persons@[p].id,
            s.comments@[i].id,
            v.kind,
        ))))
}

/// What processing one inbound activity promises, by variant, when the
/// objects it references are locally known: acceptance exactly under
/// that variant's verification conditions, and on success that
/// variant's mutation.
pub open spec fn spec_dispatch_outcome(
    activity: InboundActivity,
    s: Store,
    s2: Store,
    settings: &Settings,
    r: Result<Option<UserOperationCrud>, ActivityError>,
) -> bool {
    match activity {
        InboundActivity::AddMod(a) => spec_addmod_outcome(a, s, s2, settings, r),
        InboundActivity::UpdateCommunity(u) => spec_update_outcome(u, s, s2, settings, r),
        InboundActivity::Delete(d) => spec_delete_outcome(d, s, s2, settings, r),
        InboundActivity::UndoFollowCommunity(x) => spec_undo_outcome(x, s, s2, settings, r),
        InboundActivity::CreateOrUpdatePost(cp) => spec_create_post_outcome(cp, s, s2, settings, r),
        InboundActivity::Vote(v) => spec_vote_outcome(v, s, s2, settings, r),
    }
}

/// Process one inbound activity: verification first, and the mutation
/// only after it passed. On any error the relation and content
/// mutations are withheld: the moderator, follower, vote and
/// moderation-log tables are exactly what they were.
pub fn receive_activity(
    activity: InboundActivity,
    store: &mut Store,
    remote: &RemoteObjects,
    settings: &Settings,
    budget: &mut RequestBudget,
) -> (r: Result<Option<UserOperationCrud>, ActivityError>)
    requires
        old(store).wf(),
        old(budget).wf(),
    ensures
        final(store).wf(),
        final(budget).wf(),
        final(budget).limit == old(budget).limit,
        r is Err ==> final(store).moderators == old(store).moderators && final(store).followers
            == old(store).followers && final(store).post_votes == old(store).post_votes && final(store).comment_votes == old(store).comment_votes && final(store).mod_log == old(store).mod_log,
        spec_dispatch_outcome(activity, *old(store), *final(store), settings, r),
{
    match activity {
        InboundActivity::AddMod(a) => {
            if let Err(e) = a.verify(store, remote, settings, budget) {
                return Err(e);
            }
            match a.receive(store, remote, budget) {
                Ok(_) => Ok(None),
                Err(e) => Err(e),
            }
        },
        InboundActivity::UpdateCommunity(a) => {
            if let Err(e) = a.verify(store, remote, settings, budget) {
                return Err(e);
            }
            match a.receive(store, budget) {
                Ok(op) => Ok(Some(op)),
                Err(e) => Err(e),
            }
        },
        InboundActivity::Delete(a) => {
            if let Err(e) = a.verify(store, remote, settings, budget) {
                return Err(e);
            }
            match a.receive(store, remote, budget) {
                Ok(op) => Ok(Some(op)),
                Err(e) => Err(e),
            }
        },
        InboundActivity::UndoFollowCommunity(a) => {
            if let Err(e) = a.verify(store, remote, settings, budget) {
                return Err(e);
            }
            match a.receive(store, remote, budget) {
                Ok(_) => Ok(None),
                Err(e) => Err(e),
            }
        },
        InboundActivity::CreateOrUpdatePost(a) => {
            if let Err(e) = a.verify(store, remote, settings, budget) {
                return Err(e);
            }
            match a.receive(store, remote, budget) {
                Ok(op) => Ok(Some(op)),
                Err(e) => Err(e),
            }
        },
        InboundActivity::Vote(a) => {
            if let Err(e) = a.verify(store, remote, settings, budget) {
                return Err(e);
            }
            match a.receive(store, remote, budget) {
                Ok(_) => Ok(None),
                Err(e) => Err(e),
            }
        },
    }
}

} // verus!
