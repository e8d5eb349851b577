//! Add-moderator activity: a community moderator grants another person
//! moderator authority over the community.

use vstd::prelude::*;

use crate::budget::RequestBudget;
use crate::checks::{
    is_protocol_context, protocol_context, spec_instance_allowed, verify_activity,
    verify_add_remove_moderator_target, verify_mod_action, verify_person_in_community,
};
use crate::envelope::{AddType, PublicMarker, Unparsed};
use crate::model::{
    lemma_count_mod_absent, lemma_count_mod_push, lemma_count_mod_unique, Community,
    ModeratorRelation, Person, Store,
};
use crate::queue::{generate_activity_id, send_to_community, DeliveryPlan};
use crate::resolve::{resolve_community, resolve_person, RemoteObjects};
use crate::settings::Settings;
use crate::urls::Url;
use crate::{ActivityError, VerifyFail};

verus! {

/// The add-moderator envelope: `object` is the person being granted
/// moderator authority, `cc` the community, and `target` must be the
/// community's well-known moderators-collection URL.
#[derive(Debug, PartialEq)]
pub struct AddMod {
    pub actor: Url,
    pub to: PublicMarker,
    pub object: Url,
    pub target: Url,
    pub cc: Url,
    pub kind: AddType,
    pub id: Url,
    pub context: Url,
    pub unparsed: Unparsed,
}

/// The verdict `AddMod::verify` reaches when actor and community are
/// already known locally: each check in order, first failure wins.
pub open spec fn spec_add_mod_verdict(
    a: &AddMod,
    s: Store,
    settings: &Settings,
    p: int,
    c: int,
) -> Result<(), ActivityError> {
    let cid = s.communities@[c].id;
    let pid = s.persons@[p].id;
    if !spec_instance_allowed(&settings.federation, a.id.domain@) {
        Err(ActivityError::VerificationFailed(VerifyFail::InstanceNotAllowed))
    } else if !is_protocol_context(&a.context) {
        Err(ActivityError::VerificationFailed(VerifyFail::WrongContext))
    } else if !s.is_follower(cid, pid) {
        Err(ActivityError::VerificationFailed(VerifyFail::NotAMember))
    } else if !s.is_moderator(cid, pid) {
        Err(ActivityError::VerificationFailed(VerifyFail::NotAModerator))
    } else if !(a.target.domain@ == a.cc.domain@ && a.target.path@ == a.cc.path@
        + "/moderators"@) {
        Err(ActivityError::VerificationFailed(VerifyFail::InvalidModeratorsTarget))
    } else {
        Ok(())
    }
}

impl AddMod {
    /// Build the outbound envelope and its delivery plan: addressed to
    /// public, relayed through the community, and delivered directly
    /// to the added moderator's own inbox.
    pub fn send(
        community: &Community,
        added_mod: &Person,
        actor: &Person,
        settings: &Settings,
        suffix: &str,
    ) -> (r: (AddMod, DeliveryPlan))
        ensures
            r.0.actor == actor.actor_id,
            r.0.object == added_mod.actor_id,
            r.0.cc == community.actor_id,
            r.0.target.domain@ == community.actor_id.domain@,
            r.0.target.path@ == community.actor_id.path@ + "/moderators"@,
            r.0.id.domain@ == settings.hostname@,
            r.0.id.path@ == "/activities/"@ + "add"@ + "/"@ + suffix@,
            is_protocol_context(&r.0.context),
            r.0.unparsed.fields@.len() == 0,
            r.1.activity_id == r.0.id,
            community.local ==> r.1.inboxes@ == seq![added_mod.spec_shared_inbox_or_inbox()],
            !community.local ==> r.1.inboxes@ == seq![
                community.spec_shared_inbox_or_inbox(),
                added_mod.spec_shared_inbox_or_inbox(),
            ],
    {
        let id = generate_activity_id("add", &settings.hostname, suffix);
        let add = AddMod {
            actor: actor.actor_id.clone(),
            to: PublicMarker::Public,
            object: added_mod.actor_id.clone(),
            target: crate::checks::generate_moderators_url(&community.actor_id),
            cc: community.actor_id.clone(),
            kind: AddType::Add,
            id: id.clone(),
            context: protocol_context(),
            unparsed: Unparsed::new(),
        };
        let mut inboxes: Vec<Url> = Vec::new();
        inboxes.push(added_mod.get_shared_inbox_or_inbox_url());
        let plan = send_to_community(id, community, inboxes);
        proof {
            if !community.local {
                assert(plan.inboxes@ =~= seq![
                    community.spec_shared_inbox_or_inbox(),
                    added_mod.spec_shared_inbox_or_inbox(),
                ]);
            }
        }
        (add, plan)
    }

    /// Read-only verification: envelope structure, federation policy,
    /// the actor's membership and moderator authority, and the shape
    /// of the moderators-collection target.
    pub fn verify(
        &self,
        store: &mut Store,
        remote: &RemoteObjects,
        settings: &Settings,
        budget: &mut RequestBudget,
    ) -> (r: Result<(), ActivityError>)
        requires
            old(store).wf(),
            old(budget).wf(),
        ensures
            final(store).wf(),
            final(budget).wf(),
            final(budget).limit == old(budget).limit,
            old(budget).used <= final(budget).used <= old(budget).used + 4,
            final(store).posts == old(store).posts,
            final(store).comments == old(store).comments,
            final(store).moderators == old(store).moderators,
            final(store).followers == old(store).followers,
            final(store).post_votes == old(store).post_votes,
            final(store).comment_votes == old(store).comment_votes,
            final(store).mod_log == old(store).mod_log,
            r is Ok ==> spec_instance_allowed(&settings.federation, self.id.domain@)
                && is_protocol_context(&self.context) && self.target.domain@ == self.cc.domain@
                && self.target.path@ == self.cc.path@ + "/moderators"@,
            old(store).has_person(&self.actor) && old(store).has_community(&self.cc) ==> *final(store) == *old(store) && *final(budget) == *old(budget) && (forall|p: int, c: int|
                #[trigger] old(store).local_match(&self.actor, &self.cc, p, c) ==> r
                    == spec_add_mod_verdict(self, *old(store), settings, p, c)),
    {
        if let Err(e) = verify_activity(&self.id, &self.context, settings) {
            return Err(e);
        }
        if let Err(e) = verify_person_in_community(&self.actor, &self.cc, store, remote, budget) {
            return Err(e);
        }
        if let Err(e) = verify_mod_action(&self.actor, &self.cc, store, remote, budget) {
            return Err(e);
        }
        if let Err(e) = verify_add_remove_moderator_target(&self.target, &self.cc) {
            return Err(e);
        }
        Ok(())
    }

    /// Apply the mutation: ensure exactly one moderator relation row
    /// exists for the pair. Resolving the community may already have
    /// applied the addition, so the row is only inserted when absent —
    /// a deliberate idempotency measure, not an optimization.
    pub fn receive(
        self,
        store: &mut Store,
        remote: &RemoteObjects,
        budget: &mut RequestBudget,
    ) -> (r: Result<(), ActivityError>)
        requires
            old(store).wf(),
            old(budget).wf(),
        ensures
            final(store).wf(),
            final(budget).wf(),
            final(budget).limit == old(budget).limit,
            old(budget).used <= final(budget).used <= old(budget).used + 2,
            final(store).posts == old(store).posts,
            final(store).comments == old(store).comments,
            final(store).followers == old(store).followers,
            final(store).post_votes == old(store).post_votes,
            final(store).comment_votes == old(store).comment_votes,
            final(store).mod_log == old(store).mod_log,
            r is Err ==> final(store).moderators == old(store).moderators && (r matches Err(e)
                && e matches ActivityError::ResolveFailed(_)),
            old(store).has_person(&self.object) && old(store).has_community(&self.cc) ==> r is Ok
                && *final(budget) == *old(budget) && final(store).persons == old(store).persons
                && final(store).communities == old(store).communities && (forall|p: int, c: int|
                #[trigger] old(store).local_match(&self.object, &self.cc, p, c) ==> {
                    let cid = old(store).communities@[c].id;
                    let pid = old(store).persons@[p].id;
                    &&& final(store).is_moderator(cid, pid)
                    &&& final(store).moderator_count(cid, pid) == 1
                    &&& (old(store).is_moderator(cid, pid) ==> final(store).moderators == old(store).moderators)
                    &&& (!old(store).is_moderator(cid, pid) ==> final(store).moderators@ == old(store).moderators@.push(ModeratorRelation { community_id: cid, person_id: pid }))
                }),
    {
        let c = match resolve_community(store, remote, budget, &self.cc) {
            Ok(c) => c,
            Err(e) => {
                return Err(ActivityError::ResolveFailed(e));
            },
        };
        let p = match resolve_person(store, remote, budget, &self.object) {
            Ok(p) => p,
            Err(e) => {
                return Err(ActivityError::ResolveFailed(e));
            },
        };
        let cid = store.communities[c].id;
        let pid = store.persons[p].id;
        proof {
            if old(store).has_person(&self.object) && old(store).has_community(&self.cc) {
                let ps = old(store).persons@;
                let cs = old(store).communities@;
                assert forall|p2: int, c2: int|
                    old(store).local_match(&self.object, &self.cc, p2, c2) implies p2 == p && c2
                    == c by {
                    if p2 < p as int {
                        assert(!ps[p2].actor_id.same_as(&ps[p as int].actor_id));
                    } else if (p as int) < p2 {
                        assert(!ps[p as int].actor_id.same_as(&ps[p2].actor_id));
                    }
                    if c2 < c as int {
                        assert(!cs[c2].actor_id.same_as(&cs[c as int].actor_id));
                    } else if (c as int) < c2 {
                        assert(!cs[c as int].actor_id.same_as(&cs[c2].actor_id));
                    }
                }
            }
        }
        let already = store.find_moderator(cid, pid).is_some();
        if !already {
            let ghost oldms = store.moderators@;
            store.moderators.push(ModeratorRelation { community_id: cid, person_id: pid });
            proof {
                let row = ModeratorRelation { community_id: cid, person_id: pid };
                let news = store.moderators@;
                assert forall|a: int, b: int|
                    0 <= a < b < news.len() implies !(#[trigger] news[a].community_id
                    == #[trigger] news[b].community_id && news[a].person_id
                    == news[b].person_id) by {
                    if b < oldms.len() {
                        assert(!(oldms[a].community_id == oldms[b].community_id
                            && oldms[a].person_id == oldms[b].person_id));
                    } else {
                        assert(oldms[a] != row);
                    }
                }
                lemma_count_mod_push(oldms, row, cid, pid);
                lemma_count_mod_absent(oldms, cid, pid);
                assert(store.moderators@.last() == row);
                assert(store.is_moderator(cid, pid));
            }
        } else {
            proof {
                lemma_count_mod_unique(store.moderators@, cid, pid);
            }
        }
        Ok(())
    }
}

} // verus!
