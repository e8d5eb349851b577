//! Delete activity. Four distinct situations share this envelope: a
//! person deletes their own post, a person deletes their own comment,
//! a remote community mod removes content, and a remote community
//! deletes itself. The `summary` field disambiguates: present means a
//! moderator removal (its text is the reason, an empty text meaning
//! "no reason given"), absent means a self-deletion by the owner.

use vstd::prelude::*;
use vstd::pervasive::VecAdditionalExecFns;

use crate::budget::RequestBudget;
use crate::checks::{
    is_protocol_context, protocol_context, spec_instance_allowed, verify_activity,
    verify_mod_action, verify_person_in_community, verify_urls_match,
};
use crate::envelope::{DeleteType, PublicMarker, Unparsed};
use crate::model::{Comment, Community, ModLogEntry, ModLogTarget, Person, Post, Store};
use crate::queue::{generate_activity_id, send_to_community, DeliveryPlan};
use crate::resolve::{resolve_person, DeletableObjects, RemoteObjects};
use crate::settings::Settings;
use crate::urls::Url;
use crate::{ActivityError, ResolveError, UserOperationCrud, VerifyFail};

verus! {

/// The delete envelope. `summary` present marks a moderator removal;
/// absent, a deletion by the content's owner.
#[derive(Debug, PartialEq)]
pub struct Delete {
    pub actor: Url,
    pub to: PublicMarker,
    pub object: Url,
    pub cc: Url,
    pub kind: DeleteType,
    pub summary: Option<String>,
    pub id: Url,
    pub context: Url,
    pub unparsed: Unparsed,
}

/// Whether some local community record matches `url` and is locally
/// owned: the one target a remote moderator may never remove.
pub open spec fn targets_local_community(s: &Store, url: &Url) -> bool {
    exists|c: int|
        0 <= c < s.communities@.len() && #[trigger] s.communities@[c].actor_id.same_as(url)
            && s.communities@[c].local
}

/// Whether `pid` may self-delete the object at `url`: a community only
/// ever deletes itself (so the object must be the addressed community),
/// and a post or comment only falls to its own creator.
pub open spec fn spec_self_delete_allowed(s: &Store, url: &Url, community: &Url, pid: u64) -> bool {
    if s.has_community(url) {
        url.same_as(community)
    } else if s.has_post(url) {
        forall|i: int|
            0 <= i < s.posts@.len() && #[trigger] s.posts@[i].ap_id.same_as(url)
                ==> s.posts@[i].creator_id == pid
    } else if s.has_comment(url) {
        forall|i: int|
            0 <= i < s.comments@.len() && #[trigger] s.comments@[i].ap_id.same_as(url)
                ==> s.comments@[i].creator_id == pid
    } else {
        false
    }
}

/// The acceptance condition of a delete by the person `pid` within
/// the community `cid`: membership always; moderator authority for a
/// removal; ownership of the object for a self-deletion.
pub open spec fn spec_delete_accept(
    s: &Store,
    object: &Url,
    community: &Url,
    cid: u64,
    pid: u64,
    is_mod_action: bool,
) -> bool {
    &&& s.is_follower(cid, pid)
    &&& (is_mod_action ==> s.is_moderator(cid, pid))
    &&& (!is_mod_action ==> spec_self_delete_allowed(s, object, community, pid))
}

/// Shared verification of a delete: the actor must be a community
/// member; a removal additionally needs moderator authority, while a
/// self-deletion needs the actor to own the object (a community only
/// ever deletes itself).
pub fn verify_delete_activity(
    object: &Url,
    actor: &Url,
    community: &Url,
    is_mod_action: bool,
    store: &mut Store,
    remote: &RemoteObjects,
    budget: &mut RequestBudget,
) -> (r: Result<(), ActivityError>)
    requires
        old(store).wf(),
        old(budget).wf(),
    ensures
        final(store).wf(),
        final(budget).wf(),
        final(budget).limit == old(budget).limit,
        old(budget).used <= final(budget).used <= old(budget).used + 4,
        final(store).posts == old(store).posts,
        final(store).comments == old(store).comments,
        final(store).moderators == old(store).moderators,
        final(store).followers == old(store).followers,
        final(store).post_votes == old(store).post_votes,
        final(store).comment_votes == old(store).comment_votes,
        final(store).mod_log == old(store).mod_log,
        old(store).has_person(actor) && old(store).has_community(community) ==> *final(store)
            == *old(store) && *final(budget) == *old(budget) && (forall|p: int, c: int|
            #[trigger] old(store).local_match(actor, community, p, c) ==> (r is Ok
                <==> spec_delete_accept(
                old(store),
                object,
                community,
                old(store).communities@[c].id,
                old(store).persons@[p].id,
                is_mod_action,
            ))),
{
    let pc = match verify_person_in_community(actor, community, store, remote, budget) {
        Ok(pc) => pc,
        Err(e) => {
            return Err(e);
        },
    };
    proof {
        if old(store).has_person(actor) && old(store).has_community(community) {
            let ps = old(store).persons@;
            let cs = old(store).communities@;
            assert forall|p2: int, c2: int|
                old(store).local_match(actor, community, p2, c2) implies p2 == pc.0 && c2
                == pc.1 by {
                if p2 < pc.0 as int {
                    assert(!ps[p2].actor_id.same_as(&ps[pc.0 as int].actor_id));
                } else if (pc.0 as int) < p2 {
                    assert(!ps[pc.0 as int].actor_id.same_as(&ps[p2].actor_id));
                }
                if c2 < pc.1 as int {
                    assert(!cs[c2].actor_id.same_as(&cs[pc.1 as int].actor_id));
                } else if (pc.1 as int) < c2 {
                    assert(!cs[pc.1 as int].actor_id.same_as(&cs[c2].actor_id));
                }
            }
        }
    }
    if is_mod_action {
        if let Err(e) = verify_mod_action(actor, community, store, remote, budget) {
            return Err(e);
        }
        Ok(())
    } else {
        match DeletableObjects::read_from_db(store, object) {
            Err(e) => Err(ActivityError::ResolveFailed(e)),
            Ok(DeletableObjects::Community(_)) => {
                // A community deletes itself: the deleted object must be
                // the very community the envelope is addressed to.
                verify_urls_match(object, community)
            },
            Ok(DeletableObjects::Post(i)) => {
                if store.posts[i].creator_id == store.persons[pc.0].id {
                    proof {
                        let posts = store.posts@;
                        assert forall|i2: int|
                            0 <= i2 < posts.len() && #[trigger] posts[i2].ap_id.same_as(
                                object,
                            ) implies i2 == i by {
                            if i2 < i as int {
                                assert(!posts[i2].ap_id.same_as(&posts[i as int].ap_id));
                            } else if (i as int) < i2 {
                                assert(!posts[i as int].ap_id.same_as(&posts[i2].ap_id));
                            }
                        }
                    }
                    Ok(())
                } else {
                    Err(ActivityError::VerificationFailed(VerifyFail::NotOwner))
                }
            },
            Ok(DeletableObjects::Comment(i)) => {
                if store.comments[i].creator_id == store.persons[pc.0].id {
                    proof {
                        let comments = store.comments@;
                        assert forall|i2: int|
                            0 <= i2 < comments.len() && #[trigger] comments[i2].ap_id.same_as(
                                object,
                            ) implies i2 == i by {
                            if i2 < i as int {
                                assert(!comments[i2].ap_id.same_as(&comments[i as int].ap_id));
                            } else if (i as int) < i2 {
                                assert(!comments[i as int].ap_id.same_as(&comments[i2].ap_id));
                            }
                        }
                    }
                    Ok(())
                } else {
                    Err(ActivityError::VerificationFailed(VerifyFail::NotOwner))
                }
            },
        }
    }
}

/// The effect of a self-deletion on the content tables: the object at
/// `url` — a community, else a post, else a comment — has its
/// `deleted` flag set to `deleted`, and the other two tables are
/// untouched.
pub open spec fn spec_deleted_applied(s: Store, s2: Store, url: &Url, deleted: bool) -> bool {
    &&& (forall|c: int|
        0 <= c < s.communities@.len() && #[trigger] s.communities@[c].actor_id.same_as(url)
            ==> s2.communities@ == s.communities@.update(
            c,
            (Community { deleted, ..s.communities@[c] }),
        ) && s2.posts == s.posts && s2.comments == s.comments)
    &&& (!s.has_community(url) ==> (forall|i: int|
        0 <= i < s.posts@.len() && #[trigger] s.posts@[i].ap_id.same_as(url) ==> s2.posts@
            == s.posts@.update(i, (Post { deleted, ..s.posts@[i] })) && s2.communities
            == s.communities && s2.comments == s.comments))
    &&& (!s.has_community(url) && !s.has_post(url) ==> (forall|i: int|
        0 <= i < s.comments@.len() && #[trigger] s.comments@[i].ap_id.same_as(url) ==> s2.comments@
            == s.comments@.update(i, (Comment { deleted, ..s.comments@[i] })) && s2.communities
            == s.communities && s2.posts == s.posts))
}

/// The effect of a moderator removal on the content tables: the object
/// at `url` has its `removed` flag set true, the other two tables are
/// untouched, and the appended moderation-log row names it.
pub open spec fn spec_removed_applied(s: Store, s2: Store, url: &Url) -> bool {
    &&& (forall|c: int|
        0 <= c < s.communities@.len() && #[trigger] s.communities@[c].actor_id.same_as(url)
            ==> s2.communities@ == s.communities@.update(
            c,
            (Community { removed: true, ..s.communities@[c] }),
        ) && s2.mod_log@.last().target == ModLogTarget::Community(s.communities@[c].id)
            && s2.posts == s.posts && s2.comments == s.comments)
    &&& (!s.has_community(url) ==> (forall|i: int|
        0 <= i < s.posts@.len() && #[trigger] s.posts@[i].ap_id.same_as(url) ==> s2.posts@
            == s.posts@.update(i, (Post { removed: true, ..s.posts@[i] }))
            && s2.mod_log@.last().target == ModLogTarget::Post(s.posts@[i].id) && s2.communities
            == s.communities && s2.comments == s.comments))
    &&& (!s.has_community(url) && !s.has_post(url) ==> (forall|i: int|
        0 <= i < s.comments@.len() && #[trigger] s.comments@[i].ap_id.same_as(url) ==> s2.comments@
            == s.comments@.update(i, (Comment { removed: true, ..s.comments@[i] }))
            && s2.mod_log@.last().target == ModLogTarget::Comment(s.comments@[i].id)
            && s2.communities == s.communities && s2.posts == s.posts))
}

/// A moderator removal: writes the moderation-log row and flips the
/// target's `removed` flag. A locally owned community is refused
/// outright — only a local admin may remove it, never a remote mod.
pub fn receive_remove_action(
    actor: &Url,
    object: &Url,
    reason: Option<String>,
    store: &mut Store,
    remote: &RemoteObjects,
    budget: &mut RequestBudget,
) -> (r: Result<UserOperationCrud, ActivityError>)
    requires
        old(store).wf(),
        old(budget).wf(),
    ensures
        final(store).wf(),
        final(budget).wf(),
        final(budget).limit == old(budget).limit,
        old(budget).used <= final(budget).used <= old(budget).used + 1,
        final(store).moderators == old(store).moderators,
        final(store).followers == old(store).followers,
        final(store).post_votes == old(store).post_votes,
        final(store).comment_votes == old(store).comment_votes,
        targets_local_community(old(store), object) ==> r is Err && final(store).mod_log == old(store).mod_log && final(store).communities == old(store).communities && final(store).posts
            == old(store).posts && final(store).comments == old(store).comments,
        targets_local_community(old(store), object) && old(store).has_person(actor) ==> r == Err::<
            UserOperationCrud,
            ActivityError,
        >(ActivityError::VerificationFailed(VerifyFail::LocalCommunityRemoval)),
        r is Err ==> final(store).mod_log == old(store).mod_log && final(store).communities == old(store).communities && final(store).posts == old(store).posts && final(store).comments == old(store).comments,
        r is Ok ==> final(store).mod_log@.len() == old(store).mod_log@.len() + 1 && final(store).mod_log@.last().reason == reason && final(store).mod_log@.last().removed && final(store).mod_log@.drop_last() == old(store).mod_log@,
        old(store).has_person(actor) && r is Ok ==> (forall|a: int|
            0 <= a < old(store).persons@.len() && #[trigger] old(store).persons@[a].actor_id.same_as(
                actor,
            ) ==> final(store).mod_log@.last().mod_person_id == old(store).persons@[a].id),
        old(store).has_person(actor) && !old(store).has_community(object) && !old(store).has_post(
            object,
        ) && !old(store).has_comment(object) ==> r == Err::<UserOperationCrud, ActivityError>(
            ActivityError::ResolveFailed(ResolveError::NotFound),
        ),
        old(store).has_person(actor) && !targets_local_community(old(store), object) ==> (forall|
            c: int,
        |
            0 <= c < old(store).communities@.len() && #[trigger] old(store).communities@[c].actor_id.same_as(object) ==> r == Ok::<
                UserOperationCrud,
                ActivityError,
            >(UserOperationCrud::RemoveCommunity) && final(store).communities@ == old(store).communities@.update(
                c,
                (Community { removed: true, ..old(store).communities@[c] }),
            ) && final(store).mod_log@.last().target == ModLogTarget::Community(
                old(store).communities@[c].id,
            ) && final(store).posts == old(store).posts && final(store).comments == old(store).comments),
        old(store).has_person(actor) && !old(store).has_community(object) ==> (forall|i: int|
            0 <= i < old(store).posts@.len() && #[trigger] old(store).posts@[i].ap_id.same_as(
                object,
            ) ==> r == Ok::<UserOperationCrud, ActivityError>(UserOperationCrud::RemovePost)
                && final(store).posts@ == old(store).posts@.update(
                i,
                (Post { removed: true, ..old(store).posts@[i] }),
            ) && final(store).mod_log@.last().target == ModLogTarget::Post(old(store).posts@[i].id)
                && final(store).communities == old(store).communities && final(store).comments
                == old(store).comments),
        old(store).has_person(actor) && !old(store).has_community(object) && !old(store).has_post(
            object,
        ) ==> (forall|i: int|
            0 <= i < old(store).comments@.len() && #[trigger] old(store).comments@[i].ap_id.same_as(
                object,
            ) ==> r == Ok::<UserOperationCrud, ActivityError>(UserOperationCrud::RemoveComment)
                && final(store).comments@ == old(store).comments@.update(
                i,
                (Comment { removed: true, ..old(store).comments@[i] }),
            ) && final(store).mod_log@.last().target == ModLogTarget::Comment(
                old(store).comments@[i].id,
            ) && final(store).communities == old(store).communities && final(store).posts == old(store).posts),
{
    let pa = match resolve_person(store, remote, budget, actor) {
        Ok(p) => p,
        Err(e) => {
            return Err(ActivityError::ResolveFailed(e));
        },
    };
    let mod_person_id = store.persons[pa].id;
    proof {
        if old(store).has_person(actor) {
            let ps = old(store).persons@;
            assert forall|a2: int|
                0 <= a2 < ps.len() && #[trigger] ps[a2].actor_id.same_as(actor) implies a2
                == pa by {
                if a2 < pa as int {
                    assert(!ps[a2].actor_id.same_as(&ps[pa as int].actor_id));
                } else if (pa as int) < a2 {
                    assert(!ps[pa as int].actor_id.same_as(&ps[a2].actor_id));
                }
            }
        }
    }
    match DeletableObjects::read_from_db(store, object) {
        Err(_) => Err(ActivityError::ResolveFailed(ResolveError::NotFound)),
        Ok(DeletableObjects::Community(ci)) => {
            proof {
                let cs = old(store).communities@;
                assert forall|c2: int|
                    0 <= c2 < cs.len() && #[trigger] cs[c2].actor_id.same_as(object) implies c2
                    == ci by {
                    if c2 < ci as int {
                        assert(!cs[c2].actor_id.same_as(&cs[ci as int].actor_id));
                    } else if (ci as int) < c2 {
                        assert(!cs[ci as int].actor_id.same_as(&cs[c2].actor_id));
                    }
                }
            }
            if store.communities[ci].local {
                return Err(ActivityError::VerificationFailed(VerifyFail::LocalCommunityRemoval));
            }
            let cid = store.communities[ci].id;
            store.mod_log.push(
                ModLogEntry {
                    mod_person_id,
                    target: ModLogTarget::Community(cid),
                    removed: true,
                    reason,
                },
            );
            let mut updated = store.communities[ci].clone();
            updated.removed = true;
            store.communities.set(ci, updated);
            proof {
                let olds = old(store).communities@;
                let news = store.communities@;
                assert forall|a: int, b: int|
                    0 <= a < b < news.len() implies !news[a].actor_id.same_as(
                    &news[b].actor_id,
                ) by {
                    assert(!olds[a].actor_id.same_as(&olds[b].actor_id));
                }
            }
            Ok(UserOperationCrud::RemoveCommunity)
        },
        Ok(DeletableObjects::Post(pi)) => {
            proof {
                let posts = old(store).posts@;
                assert forall|i2: int|
                    0 <= i2 < posts.len() && #[trigger] posts[i2].ap_id.same_as(object) implies i2
                    == pi by {
                    if i2 < pi as int {
                        assert(!posts[i2].ap_id.same_as(&posts[pi as int].ap_id));
                    } else if (pi as int) < i2 {
                        assert(!posts[pi as int].ap_id.same_as(&posts[i2].ap_id));
                    }
                }
            }
            let tid = store.posts[pi].id;
            store.mod_log.push(
                ModLogEntry { mod_person_id, target: ModLogTarget::Post(tid), removed: true, reason },
            );
            let mut updated = store.posts[pi].clone();
            updated.removed = true;
            store.posts.set(pi, updated);
            proof {
                let olds = old(store).posts@;
                let news = store.posts@;
                assert forall|a: int, b: int|
                    0 <= a < b < news.len() implies !news[a].ap_id.same_as(&news[b].ap_id) by {
                    assert(!olds[a].ap_id.same_as(&olds[b].ap_id));
                }
            }
            Ok(UserOperationCrud::RemovePost)
        },
        Ok(DeletableObjects::Comment(cj)) => {
            proof {
                let comments = old(store).comments@;
                assert forall|i2: int|
                    0 <= i2 < comments.len() && #[trigger] comments[i2].ap_id.same_as(
                        object,
                    ) implies i2 == cj by {
                    if i2 < cj as int {
                        assert(!comments[i2].ap_id.same_as(&comments[cj as int].ap_id));
                    } else if (cj as int) < i2 {
                        assert(!comments[cj as int].ap_id.same_as(&comments[i2].ap_id));
                    }
                }
            }
            let tid = store.comments[cj].id;
            store.mod_log.push(
                ModLogEntry {
                    mod_person_id,
                    target: ModLogTarget::Comment(tid),
                    removed: true,
                    reason,
                },
            );
            let mut updated = store.comments[cj].clone();
            updated.removed = true;
            store.comments.set(cj, updated);
            proof {
                let olds = old(store).comments@;
                let news = store.comments@;
                assert forall|a: int, b: int|
                    0 <= a < b < news.len() implies !news[a].ap_id.same_as(&news[b].ap_id) by {
                    assert(!olds[a].ap_id.same_as(&olds[b].ap_id));
                }
            }
            Ok(UserOperationCrud::RemoveComment)
        },
    }
}

/// A deletion by the owner: flips the object's `deleted` flag to
/// `deleted` and writes no moderation-log row.
pub fn receive_delete_action(object: &Url, deleted: bool, store: &mut Store) -> (r: Result<
    UserOperationCrud,
    ActivityError,
>)
    requires
        old(store).wf(),
    ensures
        final(store).wf(),
        final(store).persons == old(store).persons,
        final(store).moderators == old(store).moderators,
        final(store).followers == old(store).followers,
        final(store).post_votes == old(store).post_votes,
        final(store).comment_votes == old(store).comment_votes,
        final(store).mod_log == old(store).mod_log,
        r is Err ==> *final(store) == *old(store) && r == Err::<UserOperationCrud, ActivityError>(
            ActivityError::ResolveFailed(ResolveError::NotFound),
        ),
        !old(store).has_community(object) && !old(store).has_post(object) && !old(
            store,
        ).has_comment(object) ==> r == Err::<UserOperationCrud, ActivityError>(
            ActivityError::ResolveFailed(ResolveError::NotFound),
        ),
        old(store).has_community(object) || old(store).has_post(object) || old(store).has_comment(
            object,
        ) ==> r is Ok,
        forall|c: int|
            0 <= c < old(store).communities@.len() && #[trigger] old(store).communities@[c].actor_id.same_as(object) ==> r == Ok::<
                UserOperationCrud,
                ActivityError,
            >(UserOperationCrud::DeleteCommunity) && final(store).communities@ == old(store).communities@.update(c, (Community { deleted, ..old(store).communities@[c] }))
                && final(store).posts == old(store).posts && final(store).comments == old(store).comments,
        !old(store).has_community(object) ==> (forall|i: int|
            0 <= i < old(store).posts@.len() && #[trigger] old(store).posts@[i].ap_id.same_as(
                object,
            ) ==> r == Ok::<UserOperationCrud, ActivityError>(UserOperationCrud::DeletePost)
                && final(store).posts@ == old(store).posts@.update(
                i,
                (Post { deleted, ..old(store).posts@[i] }),
            ) && final(store).communities == old(store).communities && final(store).comments == old(store).comments),
        !old(store).has_community(object) && !old(store).has_post(object) ==> (forall|i: int|
            0 <= i < old(store).comments@.len() && #[trigger] old(store).comments@[i].ap_id.same_as(
                object,
            ) ==> r == Ok::<UserOperationCrud, ActivityError>(UserOperationCrud::DeleteComment)
                && final(store).comments@ == old(store).comments@.update(
                i,
                (Comment { deleted, ..old(store).comments@[i] }),
            ) && final(store).communities == old(store).communities && final(store).posts == old(store).posts),
{
    match DeletableObjects::read_from_db(store, object) {
        Err(_) => Err(ActivityError::ResolveFailed(ResolveError::NotFound)),
        Ok(DeletableObjects::Community(ci)) => {
            proof {
                let cs = old(store).communities@;
                assert forall|c2: int|
                    0 <= c2 < cs.len() && #[trigger] cs[c2].actor_id.same_as(object) implies c2
                    == ci by {
                    if c2 < ci as int {
                        assert(!cs[c2].actor_id.same_as(&cs[ci as int].actor_id));
                    } else if (ci as int) < c2 {
                        assert(!cs[ci as int].actor_id.same_as(&cs[c2].actor_id));
                    }
                }
            }
            let mut updated = store.communities[ci].clone();
            updated.deleted = deleted;
            store.communities.set(ci, updated);
            proof {
                let olds = old(store).communities@;
                let news = store.communities@;
                assert forall|a: int, b: int|
                    0 <= a < b < news.len() implies !news[a].actor_id.same_as(
                    &news[b].actor_id,
                ) by {
                    assert(!olds[a].actor_id.same_as(&olds[b].actor_id));
                }
            }
            Ok(UserOperationCrud::DeleteCommunity)
        },
        Ok(DeletableObjects::Post(pi)) => {
            proof {
                let posts = old(store).posts@;
                assert forall|i2: int|
                    0 <= i2 < posts.len() && #[trigger] posts[i2].ap_id.same_as(object) implies i2
                    == pi by {
                    if i2 < pi as int {
                        assert(!posts[i2].ap_id.same_as(&posts[pi as int].ap_id));
                    } else if (pi as int) < i2 {
                        assert(!posts[pi as int].ap_id.same_as(&posts[i2].ap_id));
                    }
                }
            }
            let mut updated = store.posts[pi].clone();
            updated.deleted = deleted;
            store.posts.set(pi, updated);
            proof {
                let olds = old(store).posts@;
                let news = store.posts@;
                assert forall|a: int, b: int|
                    0 <= a < b < news.len() implies !news[a].ap_id.same_as(&news[b].ap_id) by {
                    assert(!olds[a].ap_id.same_as(&olds[b].ap_id));
                }
            }
            Ok(UserOperationCrud::DeletePost)
        },
        Ok(DeletableObjects::Comment(cj)) => {
            proof {
                let comments = old(store).comments@;
                assert forall|i2: int|
                    0 <= i2 < comments.len() && #[trigger] comments[i2].ap_id.same_as(
                        object,
                    ) implies i2 == cj by {
                    if i2 < cj as int {
                        assert(!comments[i2].ap_id.same_as(&comments[cj as int].ap_id));
                    } else if (cj as int) < i2 {
                        assert(!comments[cj as int].ap_id.same_as(&comments[i2].ap_id));
                    }
                }
            }
            let mut updated = store.comments[cj].clone();
            updated.deleted = deleted;
            store.comments.set(cj, updated);
            proof {
                let olds = old(store).comments@;
                let news = store.comments@;
                assert forall|a: int, b: int|
                    0 <= a < b < news.len() implies !news[a].ap_id.same_as(&news[b].ap_id) by {
                    assert(!olds[a].ap_id.same_as(&olds[b].ap_id));
                }
            }
            Ok(UserOperationCrud::DeleteComment)
        },
    }
}

impl Delete {
    /// Build a delete envelope. `summary` present makes it a removal.
    pub fn new(
        actor: &Person,
        community: &Community,
        object_id: Url,
        summary: Option<String>,
        settings: &Settings,
        suffix: &str,
    ) -> (r: Delete)
        ensures
            r.actor == actor.actor_id,
            r.object == object_id,
            r.cc == community.actor_id,
            r.summary == summary,
            r.id.domain@ == settings.hostname@,
            r.id.path@ == "/activities/"@ + "delete"@ + "/"@ + suffix@,
            is_protocol_context(&r.context),
            r.unparsed.fields@.len() == 0,
    {
        Delete {
            actor: actor.actor_id.clone(),
            to: PublicMarker::Public,
            object: object_id,
            cc: community.actor_id.clone(),
            kind: DeleteType::Delete,
            summary,
            id: generate_activity_id("delete", &settings.hostname, suffix),
            context: protocol_context(),
            unparsed: Unparsed::new(),
        }
    }

    /// Build the outbound envelope and its delivery plan, relayed
    /// through the community.
    pub fn send(
        actor: &Person,
        community: &Community,
        object_id: Url,
        summary: Option<String>,
        settings: &Settings,
        suffix: &str,
    ) -> (r: (Delete, DeliveryPlan))
        ensures
            r.0.actor == actor.actor_id,
            r.0.object == object_id,
            r.0.cc == community.actor_id,
            r.0.summary == summary,
            r.1.activity_id == r.0.id,
            community.local ==> r.1.inboxes@.len() == 0,
            !community.local ==> r.1.inboxes@ == seq![community.spec_shared_inbox_or_inbox()],
    {
        let delete = Delete::new(actor, community, object_id, summary, settings, suffix);
        let id = delete.id.clone();
        let plan = send_to_community(id, community, Vec::new());
        proof {
            if !community.local {
                assert(plan.inboxes@ =~= seq![community.spec_shared_inbox_or_inbox()]);
            }
        }
        (delete, plan)
    }

    /// Read-only verification: envelope structure, federation policy,
    /// and the deletion-specific authority checks.
    pub fn verify(
        &self,
        store: &mut Store,
        remote: &RemoteObjects,
        settings: &Settings,
        budget: &mut RequestBudget,
    ) -> (r: Result<(), ActivityError>)
        requires
            old(store).wf(),
            old(budget).wf(),
        ensures
            final(store).wf(),
            final(budget).wf(),
            final(budget).limit == old(budget).limit,
            old(budget).used <= final(budget).used <= old(budget).used + 4,
            final(store).posts == old(store).posts,
            final(store).comments == old(store).comments,
            final(store).moderators == old(store).moderators,
            final(store).followers == old(store).followers,
            final(store).post_votes == old(store).post_votes,
            final(store).comment_votes == old(store).comment_votes,
            final(store).mod_log == old(store).mod_log,
            r is Ok ==> spec_instance_allowed(&settings.federation, self.id.domain@)
                && is_protocol_context(&self.context),
            old(store).has_person(&self.actor) && old(store).has_community(&self.cc) ==> *final(store) == *old(store) && *final(budget) == *old(budget) && (forall|p: int, c: int|
                #[trigger] old(store).local_match(&self.actor, &self.cc, p, c) ==> (r is Ok
                    <==> spec_instance_allowed(&settings.federation, self.id.domain@)
                    && is_protocol_context(&self.context) && spec_delete_accept(
                    old(store),
                    &self.object,
                    &self.cc,
                    old(store).communities@[c].id,
                    old(store).persons@[p].id,
                    self.summary is Some,
                ))),
    {
        if let Err(e) = verify_activity(&self.id, &self.context, settings) {
            return Err(e);
        }
        let is_mod_action = self.summary.is_some();
        verify_delete_activity(
            &self.object,
            &self.actor,
            &self.cc,
            is_mod_action,
            store,
            remote,
            budget,
        )
    }

    /// Apply the mutation, disambiguating on `summary`: absent means
    /// the owner deletes their content (no moderation-log row is ever
    /// written); present means a moderator removal whose reason is the
    /// summary text, an empty text recorded as no reason.
    pub fn receive(
        self,
        store: &mut Store,
        remote: &RemoteObjects,
        budget: &mut RequestBudget,
    ) -> (r: Result<UserOperationCrud, ActivityError>)
        requires
            old(store).wf(),
            old(budget).wf(),
        ensures
            final(store).wf(),
            final(budget).wf(),
            final(budget).limit == old(budget).limit,
            old(budget).used <= final(budget).used <= old(budget).used + 1,
            final(store).moderators == old(store).moderators,
            final(store).followers == old(store).followers,
            final(store).post_votes == old(store).post_votes,
            final(store).comment_votes == old(store).comment_votes,
            self.summary is None ==> final(store).mod_log == old(store).mod_log,
            r is Err ==> final(store).mod_log == old(store).mod_log,
            self.summary matches Some(s) ==> (r is Ok ==> final(store).mod_log@.len() == old(store).mod_log@.len() + 1 && final(store).mod_log@.drop_last() == old(store).mod_log@
                && final(store).mod_log@.last().removed && final(store).mod_log@.last().reason
                == (if s@.len() == 0 {
                Option::<String>::None
            } else {
                Option::<String>::Some(s)
            })),
            self.summary is Some && targets_local_community(old(store), &self.object) ==> r is Err
                && final(store).mod_log == old(store).mod_log && final(store).communities == old(store).communities && final(store).posts == old(store).posts && final(store).comments == old(store).comments,
            self.summary is Some && targets_local_community(old(store), &self.object) && old(store).has_person(&self.actor) ==> r == Err::<UserOperationCrud, ActivityError>(
                ActivityError::VerificationFailed(VerifyFail::LocalCommunityRemoval),
            ),
            self.summary is None ==> *final(budget) == *old(budget) && final(store).persons
                == old(store).persons && spec_deleted_applied(
                *old(store),
                *final(store),
                &self.object,
                true,
            ),
            self.summary is Some && old(store).has_person(&self.actor)
                && !targets_local_community(old(store), &self.object) ==> spec_removed_applied(
                *old(store),
                *final(store),
                &self.object,
            ),
            self.summary is Some && old(store).has_person(&self.actor) && r is Ok ==> (forall|
                a: int,
            |
                0 <= a < old(store).persons@.len() && #[trigger] old(store).persons@[a].actor_id.same_as(&self.actor) ==> final(store).mod_log@.last().mod_person_id == old(store).persons@[a].id),
            self.summary is None && (old(store).has_community(&self.object) || old(store).has_post(
                &self.object,
            ) || old(store).has_comment(&self.object)) ==> r is Ok,
            self.summary is None && !old(store).has_community(&self.object) && !old(
                store,
            ).has_post(&self.object) && !old(store).has_comment(&self.object) ==> r == Err::<
                UserOperationCrud,
                ActivityError,
            >(ActivityError::ResolveFailed(ResolveError::NotFound)),
            self.summary is Some && old(store).has_person(&self.actor) && (old(
                store,
            ).has_community(&self.object) || old(store).has_post(&self.object) || old(
                store,
            ).has_comment(&self.object)) && !targets_local_community(old(store), &self.object)
                ==> r is Ok,
            self.summary is Some && old(store).has_person(&self.actor) && !old(
                store,
            ).has_community(&self.object) && !old(store).has_post(&self.object) && !old(
                store,
            ).has_comment(&self.object) ==> r == Err::<UserOperationCrud, ActivityError>(
                ActivityError::ResolveFailed(ResolveError::NotFound),
            ),
    {
        match self.summary {
            Some(reason) => {
                // An empty reason text distinguishes a removal from a
                // deletion on the wire; stored, it means no reason.
                let reason_opt: Option<String> = if reason.as_str().is_empty() {
                    None
                } else {
                    Some(reason)
                };
                receive_remove_action(&self.actor, &self.object, reason_opt, store, remote, budget)
            },
            None => receive_delete_action(&self.object, true, store),
        }
    }
}

} // verus!
