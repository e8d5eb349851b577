//! Create-or-update-post activity. On create, the author's identity is
//! pinned to the post's id and attribution, and a post in a local
//! community may not arrive already stickied or locked (those states
//! are only reachable through a later update; backfills of remote
//! posts are exempt since their community is never local). On update,
//! a moderation toggle needs moderator authority while a content edit
//! needs the attribution checks instead.

use vstd::prelude::*;
use vstd::pervasive::VecAdditionalExecFns;

use crate::budget::RequestBudget;
use crate::checks::{
    is_protocol_context, protocol_context, spec_instance_allowed, verify_activity,
    verify_domains_match, verify_mod_action, verify_person_in_community, verify_urls_match,
};
use crate::envelope::{CreateOrUpdateType, PublicMarker, Unparsed};
use crate::model::{Community, Person, Post, Store};
use crate::queue::{generate_activity_id, send_to_community, DeliveryPlan};
use crate::resolve::{resolve_community, resolve_person, RemoteObjects};
use crate::settings::Settings;
use crate::urls::Url;
use crate::{ActivityError, UserOperationCrud, VerifyFail};

verus! {

/// The embedded post object: its claimed id, its claimed author, and
/// the fields the engine reads.
#[derive(Debug, PartialEq)]
pub struct Page {
    pub id: Url,
    pub attributed_to: Url,
    pub name: String,
    pub stickied: Option<bool>,
    pub comments_enabled: Option<bool>,
}

/// Whether the page claims the stickied state.
pub open spec fn spec_page_stickied(page: &Page) -> bool {
    match page.stickied {
        Some(b) => b,
        None => false,
    }
}

/// Whether the page claims the locked state (comments disabled).
pub open spec fn spec_page_locked(page: &Page) -> bool {
    match page.comments_enabled {
        Some(b) => !b,
        None => false,
    }
}

/// Whether applying `page` to the stored post would toggle a
/// moderation-controlled state (stickied or locked).
pub open spec fn spec_page_mod_action(page: &Page, s: &Store) -> bool {
    exists|i: int|
        0 <= i < s.posts@.len() && #[trigger] s.posts@[i].ap_id.same_as(&page.id) && (
        spec_page_stickied(page) != s.posts@[i].stickied || spec_page_locked(page)
            != s.posts@[i].locked)
}

impl Page {
    /// Whether this page toggles a moderation-controlled state of the
    /// stored post it updates. A page for an unknown post toggles
    /// nothing.
    pub fn is_mod_action(&self, store: &Store) -> (r: bool)
        requires
            store.wf(),
        ensures
            r == spec_page_mod_action(self, store),
    {
        let stickied = match self.stickied {
            Some(b) => b,
            None => false,
        };
        let locked = match self.comments_enabled {
            Some(b) => !b,
            None => false,
        };
        match store.find_post(&self.id) {
            Some(i) => {
                let r = store.posts[i].stickied != stickied || store.posts[i].locked != locked;
                proof {
                    let ps = store.posts@;
                    assert forall|i2: int|
                        0 <= i2 < ps.len() && #[trigger] ps[i2].ap_id.same_as(&self.id) implies i2
                        == i by {
                        if i2 < i as int {
                            assert(!ps[i2].ap_id.same_as(&ps[i as int].ap_id));
                        } else if (i as int) < i2 {
                            assert(!ps[i as int].ap_id.same_as(&ps[i2].ap_id));
                        }
                    }
                }
                r
            },
            None => false,
        }
    }
}

/// The create-or-update-post envelope: `object` is the embedded post,
/// `cc` the community it belongs to.
#[derive(Debug, PartialEq)]
pub struct CreateOrUpdatePost {
    pub actor: Url,
    pub to: PublicMarker,
    pub object: Page,
    pub cc: Url,
    pub kind: CreateOrUpdateType,
    pub id: Url,
    pub context: Url,
    pub unparsed: Unparsed,
}

impl CreateOrUpdatePost {
    /// Build the outbound envelope and its delivery plan for the post
    /// at index `p`, relayed through its community. The community is
    /// read from the local store by the post's community id.
    pub fn send(
        p: usize,
        actor: &Person,
        kind: CreateOrUpdateType,
        store: &Store,
        settings: &Settings,
        suffix: &str,
    ) -> (r: Result<(CreateOrUpdatePost, DeliveryPlan), ActivityError>)
        requires
            p < store.posts@.len(),
        ensures
            (exists|i: int|
                0 <= i < store.communities@.len() && #[trigger] store.communities@[i].id
                    == store.posts@[p as int].community_id) <==> r is Ok,
            r matches Ok(v) ==> v.0.actor == actor.actor_id && v.0.kind == kind
                && v.0.object.id == store.posts@[p as int].ap_id && v.0.object.name
                == store.posts@[p as int].name && v.0.object.attributed_to == actor.actor_id
                && v.0.object.stickied == Some(store.posts@[p as int].stickied)
                && v.0.object.comments_enabled == Some(!store.posts@[p as int].locked)
                && v.1.activity_id == v.0.id && v.0.id.domain@ == settings.hostname@
                && v.0.id.path@ == "/activities/"@ + (match kind {
                CreateOrUpdateType::Create => "create"@,
                CreateOrUpdateType::Update => "update"@,
            }) + "/"@ + suffix@ && is_protocol_context(&v.0.context) && v.0.unparsed.fields@.len() == 0 && (exists|
                i: int,
            |
                0 <= i < store.communities@.len() && (#[trigger] store.communities@[i].id)
                    == store.posts@[p as int].community_id && v.0.cc
                    == store.communities@[i].actor_id && (store.communities@[i].local
                    ==> v.1.inboxes@.len() == 0) && (!store.communities@[i].local ==> v.1.inboxes@
                    == seq![store.communities@[i].spec_shared_inbox_or_inbox()])),
            r is Err ==> r == Err::<(CreateOrUpdatePost, DeliveryPlan), ActivityError>(
                ActivityError::ResolveFailed(crate::ResolveError::NotFound),
            ),
    {
        let post = &store.posts[p];
        let c = match store.find_community_by_id(post.community_id) {
            Some(c) => c,
            None => {
                return Err(ActivityError::ResolveFailed(crate::ResolveError::NotFound));
            },
        };
        let tag = match kind {
            CreateOrUpdateType::Create => "create",
            CreateOrUpdateType::Update => "update",
        };
        let id = generate_activity_id(tag, &settings.hostname, suffix);
        let envelope = CreateOrUpdatePost {
            actor: actor.actor_id.clone(),
            to: PublicMarker::Public,
            object: Page {
                id: post.ap_id.clone(),
                attributed_to: actor.actor_id.clone(),
                name: post.name.clone(),
                stickied: Some(post.stickied),
                comments_enabled: Some(!post.locked),
            },
            cc: store.communities[c].actor_id.clone(),
            kind,
            id: id.clone(),
            context: protocol_context(),
            unparsed: Unparsed::new(),
        };
        let plan = send_to_community(id, &store.communities[c], Vec::new());
        proof {
            if !store.communities@[c as int].local {
                assert(plan.inboxes@ =~= seq![
                    store.communities@[c as int].spec_shared_inbox_or_inbox(),
                ]);
            }
        }
        Ok((envelope, plan))
    }

    /// Read-only verification, branching on the kind: a creation pins
    /// the author to the post and refuses pre-stickied or pre-locked
    /// posts in local communities; an update needs moderator authority
    /// exactly when it toggles a moderation-controlled state.
    pub fn verify(
        &self,
        store: &mut Store,
        remote: &RemoteObjects,
        settings: &Settings,
        budget: &mut RequestBudget,
    ) -> (r: Result<(), ActivityError>)
        requires
            old(store).wf(),
            old(budget).wf(),
        ensures
            final(store).wf(),
            final(budget).wf(),
            final(budget).limit == old(budget).limit,
            old(budget).used <= final(budget).used <= old(budget).used + 5,
            final(store).posts == old(store).posts,
            final(store).comments == old(store).comments,
            final(store).moderators == old(store).moderators,
            final(store).followers == old(store).followers,
            final(store).post_votes == old(store).post_votes,
            final(store).comment_votes == old(store).comment_votes,
            final(store).mod_log == old(store).mod_log,
            r is Ok ==> spec_instance_allowed(&settings.federation, self.id.domain@)
                && is_protocol_context(&self.context),
            r is Ok && self.kind == CreateOrUpdateType::Create ==> self.actor.domain@
                == self.object.id.domain@ && self.actor.same_as(&self.object.attributed_to),
            old(store).has_person(&self.actor) && old(store).has_community(&self.cc) ==> *final(store) == *old(store) && *final(budget) == *old(budget) && (forall|p: int, c: int|
                #[trigger] old(store).local_match(&self.actor, &self.cc, p, c) ==> (r is Ok
                    <==> spec_instance_allowed(&settings.federation, self.id.domain@)
                    && is_protocol_context(&self.context) && old(store).is_follower(
                    old(store).communities@[c].id,
                    old(store).persons@[p].id,
                ) && (match self.kind {
                    CreateOrUpdateType::Create => self.actor.domain@ == self.object.id.domain@
                        && self.actor.same_as(&self.object.attributed_to) && !(old(store).communities@[c].local && (spec_page_stickied(&self.object)
                        || spec_page_locked(&self.object))),
                    CreateOrUpdateType::Update => if spec_page_mod_action(&self.object, old(store)) {
                        old(store).is_moderator(
                            old(store).communities@[c].id,
                            old(store).persons@[p].id,
                        )
                    } else {
                        self.actor.domain@ == self.object.id.domain@ && self.actor.same_as(
                            &self.object.attributed_to,
                        )
                    },
                }))),
    {
        if let Err(e) = verify_activity(&self.id, &self.context, settings) {
            return Err(e);
        }
        let c = match resolve_community(store, remote, budget, &self.cc) {
            Ok(c) => c,
            Err(e) => {
                return Err(ActivityError::ResolveFailed(e));
            },
        };
        let community_local = store.communities[c].local;
        if let Err(e) = verify_person_in_community(&self.actor, &self.cc, store, remote, budget) {
            return Err(e);
        }
        proof {
            if old(store).has_person(&self.actor) && old(store).has_community(&self.cc) {
                let cs = old(store).communities@;
                assert forall|p2: int, c2: int|
                    old(store).local_match(&self.actor, &self.cc, p2, c2) implies c2 == c by {
                    if c2 < c as int {
                        assert(!cs[c2].actor_id.same_as(&cs[c as int].actor_id));
                    } else if (c as int) < c2 {
                        assert(!cs[c as int].actor_id.same_as(&cs[c2].actor_id));
                    }
                }
            }
        }
        match self.kind {
            CreateOrUpdateType::Create => {
                if let Err(e) = verify_domains_match(&self.actor, &self.object.id) {
                    return Err(e);
                }
                if let Err(e) = verify_urls_match(&self.actor, &self.object.attributed_to) {
                    return Err(e);
                }
                let stickied = match self.object.stickied {
                    Some(b) => b,
                    None => false,
                };
                let locked = match self.object.comments_enabled {
                    Some(b) => !b,
                    None => false,
                };
                if community_local && (stickied || locked) {
                    return Err(ActivityError::VerificationFailed(VerifyFail::NewPostRestricted));
                }
                Ok(())
            },
            CreateOrUpdateType::Update => {
                if self.object.is_mod_action(store) {
                    match verify_mod_action(&self.actor, &self.cc, store, remote, budget) {
                        Ok(_) => Ok(()),
                        Err(e) => Err(e),
                    }
                } else {
                    if let Err(e) = verify_domains_match(&self.actor, &self.object.id) {
                        return Err(e);
                    }
                    if let Err(e) = verify_urls_match(&self.actor, &self.object.attributed_to) {
                        return Err(e);
                    }
                    Ok(())
                }
            },
        }
    }

    /// Apply the mutation: upsert the post from the embedded page. An
    /// existing post (matched by its canonical URL) has its content
    /// and state rewritten; an unknown one is inserted for the
    /// resolved author within the addressed community.
    pub fn receive(
        self,
        store: &mut Store,
        remote: &RemoteObjects,
        budget: &mut RequestBudget,
    ) -> (r: Result<UserOperationCrud, ActivityError>)
        requires
            old(store).wf(),
            old(budget).wf(),
        ensures
            final(store).wf(),
            final(budget).wf(),
            final(budget).limit == old(budget).limit,
            old(budget).used <= final(budget).used <= old(budget).used + 2,
            final(store).comments == old(store).comments,
            final(store).moderators == old(store).moderators,
            final(store).followers == old(store).followers,
            final(store).post_votes == old(store).post_votes,
            final(store).comment_votes == old(store).comment_votes,
            final(store).mod_log == old(store).mod_log,
            r is Err ==> final(store).posts == old(store).posts && (r matches Err(e) && e
                matches ActivityError::ResolveFailed(_)),
            r is Ok ==> r == Ok::<UserOperationCrud, ActivityError>(
                match self.kind {
                    CreateOrUpdateType::Create => UserOperationCrud::CreatePost,
                    CreateOrUpdateType::Update => UserOperationCrud::EditPost,
                },
            ),
            old(store).has_person(&self.actor) && old(store).has_community(&self.cc) ==> r is Ok
                && (forall|i: int|
                0 <= i < old(store).posts@.len() && #[trigger] old(store).posts@[i].ap_id.same_as(
                    &self.object.id,
                ) ==> final(store).posts@ == old(store).posts@.update(
                    i,
                    (Post {
                        name: self.object.name,
                        stickied: spec_page_stickied(&self.object),
                        locked: spec_page_locked(&self.object),
                        ..old(store).posts@[i]
                    }),
                )) && (!old(store).has_post(&self.object.id) ==> (forall|p: int, c: int|
                #[trigger] old(store).local_match(&self.actor, &self.cc, p, c) ==> final(store).posts@.len() == old(store).posts@.len() + 1 && final(store).posts@.drop_last()
                    == old(store).posts@ && final(store).posts@.last().ap_id == self.object.id
                    && final(store).posts@.last().creator_id == old(store).persons@[p].id && final(store).posts@.last().community_id == old(store).communities@[c].id && final(store).posts@.last().name == self.object.name && final(store).posts@.last().stickied
                    == spec_page_stickied(&self.object) && final(store).posts@.last().locked
                    == spec_page_locked(&self.object) && !final(store).posts@.last().removed
                    && !final(store).posts@.last().deleted)),
    {
        let p = match resolve_person(store, remote, budget, &self.actor) {
            Ok(p) => p,
            Err(e) => {
                return Err(ActivityError::ResolveFailed(e));
            },
        };
        let creator_id = store.persons[p].id;
        let c = match resolve_community(store, remote, budget, &self.cc) {
            Ok(c) => c,
            Err(e) => {
                return Err(ActivityError::ResolveFailed(e));
            },
        };
        let community_id = store.communities[c].id;
        proof {
            if old(store).has_person(&self.actor) && old(store).has_community(&self.cc) {
                let ps = old(store).persons@;
                let cs = old(store).communities@;
                assert forall|p2: int, c2: int|
                    old(store).local_match(&self.actor, &self.cc, p2, c2) implies p2 == p && c2
                    == c by {
                    if p2 < p as int {
                        assert(!ps[p2].actor_id.same_as(&ps[p as int].actor_id));
                    } else if (p as int) < p2 {
                        assert(!ps[p as int].actor_id.same_as(&ps[p2].actor_id));
                    }
                    if c2 < c as int {
                        assert(!cs[c2].actor_id.same_as(&cs[c as int].actor_id));
                    } else if (c as int) < c2 {
                        assert(!cs[c as int].actor_id.same_as(&cs[c2].actor_id));
                    }
                }
            }
        }
        let stickied = match self.object.stickied {
            Some(b) => b,
            None => false,
        };
        let locked = match self.object.comments_enabled {
            Some(b) => !b,
            None => false,
        };
        match store.find_post(&self.object.id) {
            Some(i) => {
                proof {
                    let ps = old(store).posts@;
                    assert forall|i2: int|
                        0 <= i2 < ps.len() && #[trigger] ps[i2].ap_id.same_as(
                            &self.object.id,
                        ) implies i2 == i by {
                        if i2 < i as int {
                            assert(!ps[i2].ap_id.same_as(&ps[i as int].ap_id));
                        } else if (i as int) < i2 {
                            assert(!ps[i as int].ap_id.same_as(&ps[i2].ap_id));
                        }
                    }
                }
                let mut updated = store.posts[i].clone();
                updated.name = self.object.name;
                updated.stickied = stickied;
                updated.locked = locked;
                store.posts.set(i, updated);
                proof {
                    let olds = old(store).posts@;
                    let news = store.posts@;
                    assert forall|a: int, b: int|
                        0 <= a < b < news.len() implies !news[a].ap_id.same_as(&news[b].ap_id) by {
                        assert(!olds[a].ap_id.same_as(&olds[b].ap_id));
                    }
                }
            },
            None => {
                let mut max_id: u64 = 0;
                let n = store.posts.len();
                for j in 0..n
                    invariant
                        n == store.posts@.len(),
                {
                    if store.posts[j].id > max_id {
                        max_id = store.posts[j].id;
                    }
                }
                let new_id: u64 = if max_id < u64::MAX {
                    max_id + 1
                } else {
                    max_id
                };
                let ghost olds = store.posts@;
                store.posts.push(
                    Post {
                        id: new_id,
                        ap_id: self.object.id,
                        creator_id,
                        community_id,
                        name: self.object.name,
                        locked,
                        stickied,
                        removed: false,
                        deleted: false,
                    },
                );
                proof {
                    let news = store.posts@;
                    assert forall|a: int, b: int|
                        0 <= a < b < news.len() implies !news[a].ap_id.same_as(&news[b].ap_id) by {
                        if b < olds.len() {
                            assert(!olds[a].ap_id.same_as(&olds[b].ap_id));
                        } else {
                            assert(!olds[a].ap_id.same_as(&news[b].ap_id));
                        }
                    }
                }
            },
        }
        match self.kind {
            CreateOrUpdateType::Create => Ok(UserOperationCrud::CreatePost),
            CreateOrUpdateType::Update => Ok(UserOperationCrud::EditPost),
        }
    }
}

} // verus!
