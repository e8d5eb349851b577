//! Undo-follow activity: a person unwinds their own follow of a
//! community. The wrapped follow's actor and community must match the
//! undo's own, so nobody can unwind a follow they did not issue.
//! Unfollowing without a standing follower relation is a quiet no-op.

use vstd::prelude::*;

use crate::budget::RequestBudget;
use crate::checks::{
    is_protocol_context, protocol_context, spec_instance_allowed, verify_activity,
    verify_person, verify_urls_match,
};
use crate::envelope::{FollowType, UndoType, Unparsed};
use crate::model::{Community, Person, Store};
use crate::queue::{generate_activity_id, send_activity, DeliveryPlan};
use crate::resolve::{resolve_community, resolve_person, RemoteObjects};
use crate::settings::Settings;
use crate::urls::Url;
use crate::ActivityError;

verus! {

/// A follow envelope, as wrapped inside an undo: the `object` is the
/// community being followed.
#[derive(Debug, PartialEq)]
pub struct FollowCommunity {
    pub actor: Url,
    pub object: Url,
    pub kind: FollowType,
    pub id: Url,
    pub context: Url,
    pub unparsed: Unparsed,
}

impl FollowCommunity {
    /// Build a follow envelope for `actor` on `community`.
    pub fn new(actor: &Person, community: &Community, settings: &Settings, suffix: &str) -> (r:
        FollowCommunity)
        ensures
            r.actor == actor.actor_id,
            r.object == community.actor_id,
            r.id.domain@ == settings.hostname@,
            r.id.path@ == "/activities/"@ + "follow"@ + "/"@ + suffix@,
            is_protocol_context(&r.context),
            r.unparsed.fields@.len() == 0,
    {
        FollowCommunity {
            actor: actor.actor_id.clone(),
            object: community.actor_id.clone(),
            kind: FollowType::Follow,
            id: generate_activity_id("follow", &settings.hostname, suffix),
            context: protocol_context(),
            unparsed: Unparsed::new(),
        }
    }

    /// Read-only verification of the wrapped follow: envelope
    /// structure and a resolvable acting person.
    pub fn verify(
        &self,
        store: &mut Store,
        remote: &RemoteObjects,
        settings: &Settings,
        budget: &mut RequestBudget,
    ) -> (r: Result<(), ActivityError>)
        requires
            old(store).wf(),
            old(budget).wf(),
        ensures
            final(store).wf(),
            final(budget).wf(),
            final(budget).limit == old(budget).limit,
            old(budget).used <= final(budget).used <= old(budget).used + 1,
            final(store).communities == old(store).communities,
            final(store).posts == old(store).posts,
            final(store).comments == old(store).comments,
            final(store).moderators == old(store).moderators,
            final(store).followers == old(store).followers,
            final(store).post_votes == old(store).post_votes,
            final(store).comment_votes == old(store).comment_votes,
            final(store).mod_log == old(store).mod_log,
            r is Ok ==> spec_instance_allowed(&settings.federation, self.id.domain@)
                && is_protocol_context(&self.context),
            old(store).has_person(&self.actor) ==> *final(store) == *old(store) && *final(budget)
                == *old(budget) && (r is Ok <==> spec_instance_allowed(
                &settings.federation,
                self.id.domain@,
            ) && is_protocol_context(&self.context)),
    {
        if let Err(e) = verify_activity(&self.id, &self.context, settings) {
            return Err(e);
        }
        match verify_person(&self.actor, store, remote, budget) {
            Ok(_) => Ok(()),
            Err(e) => Err(e),
        }
    }
}

/// The undo-follow envelope: `to` names the community, `object` holds
/// the follow being unwound.
#[derive(Debug, PartialEq)]
pub struct UndoFollowCommunity {
    pub actor: Url,
    pub to: Url,
    pub object: FollowCommunity,
    pub kind: UndoType,
    pub id: Url,
    pub context: Url,
    pub unparsed: Unparsed,
}

impl UndoFollowCommunity {
    /// Build the outbound envelope and its delivery plan, posted
    /// straight to the community's inbox.
    pub fn send(
        actor: &Person,
        community: &Community,
        settings: &Settings,
        follow_suffix: &str,
        suffix: &str,
    ) -> (r: (UndoFollowCommunity, DeliveryPlan))
        ensures
            r.0.actor == actor.actor_id,
            r.0.to == community.actor_id,
            r.0.object.actor == actor.actor_id,
            r.0.object.object == community.actor_id,
            r.0.id.domain@ == settings.hostname@,
            r.0.id.path@ == "/activities/"@ + "undo"@ + "/"@ + suffix@,
            is_protocol_context(&r.0.context),
            r.0.unparsed.fields@.len() == 0,
            r.1.activity_id == r.0.id,
            r.1.inboxes@ == seq![community.spec_shared_inbox_or_inbox()],
    {
        let object = FollowCommunity::new(actor, community, settings, follow_suffix);
        let undo = UndoFollowCommunity {
            actor: actor.actor_id.clone(),
            to: community.actor_id.clone(),
            object,
            kind: UndoType::Undo,
            id: generate_activity_id("undo", &settings.hostname, suffix),
            context: protocol_context(),
            unparsed: Unparsed::new(),
        };
        let id = undo.id.clone();
        let mut inboxes: Vec<Url> = Vec::new();
        inboxes.push(community.get_shared_inbox_or_inbox_url());
        let plan = send_activity(id, inboxes);
        proof {
            assert(plan.inboxes@ =~= seq![community.spec_shared_inbox_or_inbox()]);
        }
        (undo, plan)
    }

    /// Read-only verification: envelope structure, and the wrapped
    /// follow's actor and community pinned to the undo's own — the
    /// anti-spoofing rule for follow unwinds.
    pub fn verify(
        &self,
        store: &mut Store,
        remote: &RemoteObjects,
        settings: &Settings,
        budget: &mut RequestBudget,
    ) -> (r: Result<(), ActivityError>)
        requires
            old(store).wf(),
            old(budget).wf(),
        ensures
            final(store).wf(),
            final(budget).wf(),
            final(budget).limit == old(budget).limit,
            old(budget).used <= final(budget).used <= old(budget).used + 2,
            final(store).communities == old(store).communities,
            final(store).posts == old(store).posts,
            final(store).comments == old(store).comments,
            final(store).moderators == old(store).moderators,
            final(store).followers == old(store).followers,
            final(store).post_votes == old(store).post_votes,
            final(store).comment_votes == old(store).comment_votes,
            final(store).mod_log == old(store).mod_log,
            r is Ok ==> spec_instance_allowed(&settings.federation, self.id.domain@)
                && is_protocol_context(&self.context) && self.to.same_as(&self.object.object)
                && self.actor.same_as(&self.object.actor) && spec_instance_allowed(
                &settings.federation,
                self.object.id.domain@,
            ) && is_protocol_context(&self.object.context),
            old(store).has_person(&self.actor) ==> *final(store) == *old(store) && *final(budget)
                == *old(budget) && (r is Ok <==> spec_instance_allowed(
                &settings.federation,
                self.id.domain@,
            ) && is_protocol_context(&self.context) && self.to.same_as(&self.object.object)
                && self.actor.same_as(&self.object.actor) && spec_instance_allowed(
                &settings.federation,
                self.object.id.domain@,
            ) && is_protocol_context(&self.object.context)),
    {
        if let Err(e) = verify_activity(&self.id, &self.context, settings) {
            return Err(e);
        }
        if let Err(e) = verify_urls_match(&self.to, &self.object.object) {
            return Err(e);
        }
        if let Err(e) = verify_urls_match(&self.actor, &self.object.actor) {
            return Err(e);
        }
        if let Err(e) = match verify_person(&self.actor, store, remote, budget) {
            Ok(_) => Ok(()),
            Err(e) => Err(e),
        } {
            return Err(e);
        }
        proof {
            // The wrapped follow's actor was just pinned to the undo's
            // own, so a locally known undo actor is a locally known
            // follow actor.
            if old(store).has_person(&self.actor) {
                let ps = old(store).persons@;
                let w = choose|i: int|
                    0 <= i < ps.len() && #[trigger] ps[i].actor_id.same_as(&self.actor);
                assert(ps[w].actor_id.same_as(&self.object.actor));
                assert(old(store).has_person(&self.object.actor));
            }
        }
        self.object.verify(store, remote, settings, budget)
    }

    /// Apply the mutation: drop the follower relation. The relation
    /// not existing is tolerated silently: unfollowing a community one
    /// does not follow succeeds and changes nothing.
    pub fn receive(
        self,
        store: &mut Store,
        remote: &RemoteObjects,
        budget: &mut RequestBudget,
    ) -> (r: Result<(), ActivityError>)
        requires
            old(store).wf(),
            old(budget).wf(),
        ensures
            final(store).wf(),
            final(budget).wf(),
            final(budget).limit == old(budget).limit,
            old(budget).used <= final(budget).used <= old(budget).used + 2,
            final(store).posts == old(store).posts,
            final(store).comments == old(store).comments,
            final(store).moderators == old(store).moderators,
            final(store).post_votes == old(store).post_votes,
            final(store).comment_votes == old(store).comment_votes,
            final(store).mod_log == old(store).mod_log,
            r is Err ==> final(store).followers == old(store).followers && (r matches Err(e) && e
                matches ActivityError::ResolveFailed(_)),
            old(store).has_person(&self.actor) && old(store).has_community(&self.to) ==> r is Ok
                && *final(budget) == *old(budget) && final(store).persons == old(store).persons
                && final(store).communities == old(store).communities && (forall|p: int, c: int|
                #[trigger] old(store).local_match(&self.actor, &self.to, p, c) ==> {
                    let cid = old(store).communities@[c].id;
                    let pid = old(store).persons@[p].id;
                    &&& !final(store).has_follower_row(cid, pid)
                    &&& (!old(store).has_follower_row(cid, pid) ==> final(store).followers == old(store).followers)
                    &&& (old(store).has_follower_row(cid, pid) ==> exists|i: int|
                        0 <= i < old(store).followers@.len() && (#[trigger] old(store).followers@[i]).community_id == cid && old(store).followers@[i].person_id
                            == pid && final(store).followers@ == old(store).followers@.remove(i))
                }),
    {
        let p = match resolve_person(store, remote, budget, &self.actor) {
            Ok(p) => p,
            Err(e) => {
                return Err(ActivityError::ResolveFailed(e));
            },
        };
        let c = match resolve_community(store, remote, budget, &self.to) {
            Ok(c) => c,
            Err(e) => {
                return Err(ActivityError::ResolveFailed(e));
            },
        };
        let cid = store.communities[c].id;
        let pid = store.persons[p].id;
        proof {
            if old(store).has_person(&self.actor) && old(store).has_community(&self.to) {
                let ps = old(store).persons@;
                let cs = old(store).communities@;
                assert forall|p2: int, c2: int|
                    old(store).local_match(&self.actor, &self.to, p2, c2) implies p2 == p && c2
                    == c by {
                    if p2 < p as int {
                        assert(!ps[p2].actor_id.same_as(&ps[p as int].actor_id));
                    } else if (p as int) < p2 {
                        assert(!ps[p as int].actor_id.same_as(&ps[p2].actor_id));
                    }
                    if c2 < c as int {
                        assert(!cs[c2].actor_id.same_as(&cs[c as int].actor_id));
                    } else if (c as int) < c2 {
                        assert(!cs[c as int].actor_id.same_as(&cs[c2].actor_id));
                    }
                }
            }
        }
        let ghost oldfs = store.followers@;
        match store.find_follower(cid, pid) {
            Some(i) => {
                store.followers.remove(i);
                proof {
                    let news = store.followers@;
                    assert forall|a: int, b: int|
                        0 <= a < b < news.len() implies !(#[trigger] news[a].community_id
                        == #[trigger] news[b].community_id && news[a].person_id
                        == news[b].person_id) by {
                        let a2: int = if a < i as int {
                            a
                        } else {
                            a + 1
                        };
                        let b2: int = if b < i as int {
                            b
                        } else {
                            b + 1
                        };
                        assert(news[a] == oldfs[a2]);
                        assert(news[b] == oldfs[b2]);
                        assert(!(oldfs[a2].community_id == oldfs[b2].community_id
                            && oldfs[a2].person_id == oldfs[b2].person_id));
                    }
                    assert forall|j: int|
                        0 <= j < store.followers@.len() implies !(#[trigger] (
                        store.followers@[j]).community_id == cid && store.followers@[j].person_id
                        == pid) by {
                        let j2: int = if j < i as int {
                            j
                        } else {
                            j + 1
                        };
                        assert(store.followers@[j] == oldfs[j2]);
                        if j2 != i as int {
                            assert(!(oldfs[j2].community_id == oldfs[i as int].community_id
                                && oldfs[j2].person_id == oldfs[i as int].person_id));
                        }
                    }
                }
            },
            None => {},
        }
        Ok(())
    }
}

} // verus!
