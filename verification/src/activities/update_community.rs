//! Update-community activity: a remote community moderator rewrites
//! the descriptive fields of a community record. Moderation relations
//! and status flags are never altered by it.

use vstd::prelude::*;
use vstd::pervasive::VecAdditionalExecFns;

use crate::budget::RequestBudget;
use crate::checks::{
    is_protocol_context, protocol_context, spec_instance_allowed, verify_activity,
    verify_mod_action, verify_person_in_community,
};
use crate::envelope::{PublicMarker, Unparsed, UpdateType};
use crate::model::{Community, Person, Store};
use crate::queue::{generate_activity_id, send_to_community, DeliveryPlan};
use crate::resolve::RemoteObjects;
use crate::settings::Settings;
use crate::urls::Url;
use crate::{ActivityError, ResolveError, UserOperationCrud};

verus! {

/// The embedded community object carried by an update: exactly the
/// descriptive fields the update may rewrite.
#[derive(Debug, PartialEq)]
pub struct Group {
    pub name: String,
    pub title: String,
    pub description: Option<String>,
    pub nsfw: bool,
    pub icon: Option<String>,
    pub banner: Option<String>,
}

/// The update-community envelope: `object` carries the new field
/// values, `cc` names the community being updated.
#[derive(Debug, PartialEq)]
pub struct UpdateCommunity {
    pub actor: Url,
    pub to: PublicMarker,
    pub object: Group,
    pub cc: Url,
    pub kind: UpdateType,
    pub id: Url,
    pub context: Url,
    pub unparsed: Unparsed,
}

/// The community record after an update rewrote its descriptive
/// fields from `g`: everything else is kept.
pub open spec fn spec_updated_community(old_c: Community, g: Group) -> Community {
    Community {
        name: g.name,
        title: g.title,
        description: g.description,
        nsfw: g.nsfw,
        icon: g.icon,
        banner: g.banner,
        ..old_c
    }
}

impl UpdateCommunity {
    /// Build the outbound envelope and its delivery plan, relayed
    /// through the community itself.
    pub fn send(community: &Community, actor: &Person, settings: &Settings, suffix: &str) -> (r: (
        UpdateCommunity,
        DeliveryPlan,
    ))
        ensures
            r.0.actor == actor.actor_id,
            r.0.cc == community.actor_id,
            r.0.object.name == community.name,
            r.0.object.title == community.title,
            r.0.object.description == community.description,
            r.0.object.nsfw == community.nsfw,
            r.0.object.icon == community.icon,
            r.0.object.banner == community.banner,
            r.0.id.domain@ == settings.hostname@,
            r.0.id.path@ == "/activities/"@ + "update"@ + "/"@ + suffix@,
            is_protocol_context(&r.0.context),
            r.0.unparsed.fields@.len() == 0,
            r.1.activity_id == r.0.id,
            community.local ==> r.1.inboxes@.len() == 0,
            !community.local ==> r.1.inboxes@ == seq![community.spec_shared_inbox_or_inbox()],
    {
        let id = generate_activity_id("update", &settings.hostname, suffix);
        let update = UpdateCommunity {
            actor: actor.actor_id.clone(),
            to: PublicMarker::Public,
            object: Group {
                name: community.name.clone(),
                title: community.title.clone(),
                description: match &community.description {
                    Some(d) => Some(d.clone()),
                    None => None,
                },
                nsfw: community.nsfw,
                icon: match &community.icon {
                    Some(d) => Some(d.clone()),
                    None => None,
                },
                banner: match &community.banner {
                    Some(d) => Some(d.clone()),
                    None => None,
                },
            },
            cc: community.actor_id.clone(),
            kind: UpdateType::Update,
            id: id.clone(),
            context: protocol_context(),
            unparsed: Unparsed::new(),
        };
        let plan = send_to_community(id, community, Vec::new());
        proof {
            if !community.local {
                assert(plan.inboxes@ =~= seq![community.spec_shared_inbox_or_inbox()]);
            }
        }
        (update, plan)
    }

    /// Read-only verification: envelope structure, federation policy,
    /// membership and moderator authority of the acting person.
    pub fn verify(
        &self,
        store: &mut Store,
        remote: &RemoteObjects,
        settings: &Settings,
        budget: &mut RequestBudget,
    ) -> (r: Result<(), ActivityError>)
        requires
            old(store).wf(),
            old(budget).wf(),
        ensures
            final(store).wf(),
            final(budget).wf(),
            final(budget).limit == old(budget).limit,
            old(budget).used <= final(budget).used <= old(budget).used + 4,
            final(store).posts == old(store).posts,
            final(store).comments == old(store).comments,
            final(store).moderators == old(store).moderators,
            final(store).followers == old(store).followers,
            final(store).post_votes == old(store).post_votes,
            final(store).comment_votes == old(store).comment_votes,
            final(store).mod_log == old(store).mod_log,
            r is Ok ==> spec_instance_allowed(&settings.federation, self.id.domain@)
                && is_protocol_context(&self.context),
            old(store).has_person(&self.actor) && old(store).has_community(&self.cc) ==> *final(store) == *old(store) && *final(budget) == *old(budget) && (forall|p: int, c: int|
                #[trigger] old(store).local_match(&self.actor, &self.cc, p, c) ==> {
                    let cid = old(store).communities@[c].id;
                    let pid = old(store).persons@[p].id;
                    &&& (r is Ok <==> spec_instance_allowed(&settings.federation, self.id.domain@)
                        && is_protocol_context(&self.context) && old(store).is_follower(cid, pid)
                        && old(store).is_moderator(cid, pid))
                }),
    {
        if let Err(e) = verify_activity(&self.id, &self.context, settings) {
            return Err(e);
        }
        if let Err(e) = verify_person_in_community(&self.actor, &self.cc, store, remote, budget) {
            return Err(e);
        }
        if let Err(e) = verify_mod_action(&self.actor, &self.cc, store, remote, budget) {
            return Err(e);
        }
        Ok(())
    }

    /// Apply the mutation: rewrite the community's descriptive fields
    /// from the embedded object. The community is read from the local
    /// store only; an unknown community fails without mutating.
    pub fn receive(self, store: &mut Store, budget: &mut RequestBudget) -> (r: Result<
        UserOperationCrud,
        ActivityError,
    >)
        requires
            old(store).wf(),
        ensures
            final(store).wf(),
            *final(budget) == *old(budget),
            final(store).persons == old(store).persons,
            final(store).posts == old(store).posts,
            final(store).comments == old(store).comments,
            final(store).moderators == old(store).moderators,
            final(store).followers == old(store).followers,
            final(store).post_votes == old(store).post_votes,
            final(store).comment_votes == old(store).comment_votes,
            final(store).mod_log == old(store).mod_log,
            !old(store).has_community(&self.cc) ==> r == Err::<UserOperationCrud, ActivityError>(
                ActivityError::ResolveFailed(ResolveError::NotFound),
            ) && *final(store) == *old(store),
            old(store).has_community(&self.cc) ==> r == Ok::<UserOperationCrud, ActivityError>(
                UserOperationCrud::EditCommunity,
            ) && (forall|c: int|
                0 <= c < old(store).communities@.len() && #[trigger] old(store).communities@[c].actor_id.same_as(&self.cc) ==> final(store).communities@ == old(store).communities@.update(c, spec_updated_community(old(store).communities@[c], self.object))),
    {
        let c = match store.find_community(&self.cc) {
            Some(c) => c,
            None => {
                return Err(ActivityError::ResolveFailed(ResolveError::NotFound));
            },
        };
        proof {
            let cs = old(store).communities@;
            assert forall|c2: int|
                0 <= c2 < cs.len() && #[trigger] cs[c2].actor_id.same_as(&self.cc) implies c2
                == c by {
                if c2 < c as int {
                    assert(!cs[c2].actor_id.same_as(&cs[c as int].actor_id));
                } else if (c as int) < c2 {
                    assert(!cs[c as int].actor_id.same_as(&cs[c2].actor_id));
                }
            }
        }
        let mut updated = store.communities[c].clone();
        updated.name = self.object.name;
        updated.title = self.object.title;
        updated.description = self.object.description;
        updated.nsfw = self.object.nsfw;
        updated.icon = self.object.icon;
        updated.banner = self.object.banner;
        store.communities.set(c, updated);
        proof {
            let olds = old(store).communities@;
            let news = store.communities@;
            assert forall|a: int, b: int|
                0 <= a < b < news.len() implies !news[a].actor_id.same_as(&news[b].actor_id) by {
                assert(!olds[a].actor_id.same_as(&olds[b].actor_id));
            }
        }
        Ok(UserOperationCrud::EditCommunity)
    }
}

} // verus!
