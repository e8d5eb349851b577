//! The verification layer: composable checks over actor identity,
//! community membership, moderator authority, URL and domain
//! consistency, and federation policy. All checks are read-only with
//! respect to the relation tables; the ones that resolve references
//! may cache fetched objects, as the resolver does.

use vstd::prelude::*;
use vstd::string::StringExecFns;

use crate::budget::RequestBudget;
use crate::model::Store;
use crate::resolve::RemoteObjects;
use crate::resolve::{resolve_community, resolve_person};
use crate::settings::{FederationConfig, Settings};
use crate::urls::Url;
use crate::{ActivityError, VerifyFail};

verus! {

/// Whether `domain` occurs in `list`.
pub open spec fn domain_in_list(list: Seq<String>, domain: Seq<char>) -> bool {
    exists|i: int| 0 <= i < list.len() && #[trigger] list[i]@ == domain
}

/// Federation policy on one instance domain: it must not be blocked,
/// and under a strict allowlist it must be explicitly allowed.
pub open spec fn spec_instance_allowed(fed: &FederationConfig, domain: Seq<char>) -> bool {
    &&& match fed.blocked_instances {
        Some(blocked) => !domain_in_list(blocked@, domain),
        None => true,
    }
    &&& match fed.allowed_instances {
        Some(allowed) => !fed.strict_allowlist || domain_in_list(allowed@, domain),
        None => true,
    }
}

/// Whether `u` is the protocol's required context marker.
pub open spec fn is_protocol_context(u: &Url) -> bool {
    u.domain@ == "www.w3.org"@ && u.path@ == "/ns/activitystreams"@
}

/// The protocol context marker carried by every outbound envelope.
pub fn protocol_context() -> (r: Url)
    ensures
        is_protocol_context(&r),
{
    Url { domain: String::from_str("www.w3.org"), path: String::from_str("/ns/activitystreams") }
}

fn list_contains_domain(list: &Vec<String>, domain: &String) -> (r: bool)
    ensures
        r == domain_in_list(list@, domain@),
{
    let n = list.len();
    for i in 0..n
        invariant
            n == list@.len(),
            forall|j: int| 0 <= j < i ==> #[trigger] list@[j]@ != domain@,
    {
        if list[i] == *domain {
            return true;
        }
    }
    false
}

/// Whether federation policy lets this node exchange with `domain`.
pub fn instance_allowed(fed: &FederationConfig, domain: &String) -> (r: bool)
    ensures
        r == spec_instance_allowed(fed, domain@),
{
    let blocked_ok = match &fed.blocked_instances {
        Some(blocked) => !list_contains_domain(blocked, domain),
        None => true,
    };
    let allowed_ok = match &fed.allowed_instances {
        Some(allowed) => !fed.strict_allowlist || list_contains_domain(allowed, domain),
        None => true,
    };
    blocked_ok && allowed_ok
}

/// Structural checks on an inbound envelope: its id must come from an
/// instance the federation policy accepts, and it must carry the
/// required protocol context.
pub fn verify_activity(id: &Url, context: &Url, settings: &Settings) -> (r: Result<
    (),
    ActivityError,
>)
    ensures
        r == if !spec_instance_allowed(&settings.federation, id.domain@) {
            Err::<(), ActivityError>(ActivityError::VerificationFailed(VerifyFail::InstanceNotAllowed))
        } else if !is_protocol_context(context) {
            Err::<(), ActivityError>(ActivityError::VerificationFailed(VerifyFail::WrongContext))
        } else {
            Ok::<(), ActivityError>(())
        },
{
    if !instance_allowed(&settings.federation, &id.domain) {
        return Err(ActivityError::VerificationFailed(VerifyFail::InstanceNotAllowed));
    }
    let expected = protocol_context();
    if !context.matches(&expected) {
        return Err(ActivityError::VerificationFailed(VerifyFail::WrongContext));
    }
    Ok(())
}

/// Structural equality of two URLs, as a check: used to pin an
/// embedded sub-object's claimed actor to the outer envelope's actor.
pub fn verify_urls_match(a: &Url, b: &Url) -> (r: Result<(), ActivityError>)
    ensures
        r == if a.same_as(b) {
            Ok::<(), ActivityError>(())
        } else {
            Err::<(), ActivityError>(ActivityError::VerificationFailed(VerifyFail::UrlMismatch))
        },
{
    if a.matches(b) {
        Ok(())
    } else {
        Err(ActivityError::VerificationFailed(VerifyFail::UrlMismatch))
    }
}

/// The authoring actor's domain must equal the object id's domain: a
/// remote node may not author content under another node's identity.
pub fn verify_domains_match(a: &Url, b: &Url) -> (r: Result<(), ActivityError>)
    ensures
        r == if a.domain@ == b.domain@ {
            Ok::<(), ActivityError>(())
        } else {
            Err::<(), ActivityError>(ActivityError::VerificationFailed(VerifyFail::DomainMismatch))
        },
{
    if a.domain == b.domain {
        Ok(())
    } else {
        Err(ActivityError::VerificationFailed(VerifyFail::DomainMismatch))
    }
}

/// The well-known moderators-collection URL of a community, derived
/// deterministically from its canonical id.
pub fn generate_moderators_url(community_id: &Url) -> (r: Url)
    ensures
        r.domain@ == community_id.domain@,
        r.path@ == community_id.path@ + "/moderators"@,
{
    Url {
        domain: community_id.domain.clone(),
        path: community_id.path.clone().concat("/moderators"),
    }
}

/// The target of an add/remove-moderator activity must be exactly the
/// community's moderators-collection URL.
pub fn verify_add_remove_moderator_target(target: &Url, community_id: &Url) -> (r: Result<
    (),
    ActivityError,
>)
    ensures
        r == if target.domain@ == community_id.domain@ && target.path@ == community_id.path@
            + "/moderators"@ {
            Ok::<(), ActivityError>(())
        } else {
            Err::<(), ActivityError>(ActivityError::VerificationFailed(
                VerifyFail::InvalidModeratorsTarget,
            ))
        },
{
    let expected = generate_moderators_url(community_id);
    if target.matches(&expected) {
        Ok(())
    } else {
        Err(ActivityError::VerificationFailed(VerifyFail::InvalidModeratorsTarget))
    }
}

/// Resolve `actor` as a person, mapping a resolution failure into the
/// activity error taxonomy.
pub fn verify_person(
    actor: &Url,
    store: &mut Store,
    remote: &RemoteObjects,
    budget: &mut RequestBudget,
) -> (r: Result<usize, ActivityError>)
    requires
        old(store).wf(),
        old(budget).wf(),
    ensures
        final(store).wf(),
        final(budget).wf(),
        final(budget).limit == old(budget).limit,
        old(budget).used <= final(budget).used <= old(budget).used + 1,
        final(store).communities == old(store).communities,
        final(store).posts == old(store).posts,
        final(store).comments == old(store).comments,
        final(store).moderators == old(store).moderators,
        final(store).followers == old(store).followers,
        final(store).post_votes == old(store).post_votes,
        final(store).comment_votes == old(store).comment_votes,
        final(store).mod_log == old(store).mod_log,
        r matches Ok(i) ==> i < final(store).persons@.len() && final(store).persons@[i as int].actor_id.domain@ == actor.domain@,
        r matches Err(e) ==> (e matches ActivityError::ResolveFailed(_)) && final(store).persons
            == old(store).persons,
        old(store).has_person(actor) ==> r is Ok && *final(store) == *old(store) && *final(budget)
            == *old(budget) && (r matches Ok(i) ==> final(store).persons@[i as int].actor_id.same_as(
            actor,
        )),
        !old(store).has_person(actor) && old(budget).used == old(budget).limit ==> r == Err::<
            usize,
            ActivityError,
        >(ActivityError::ResolveFailed(crate::ResolveError::BudgetExhausted)),
{
    match resolve_person(store, remote, budget, actor) {
        Ok(i) => Ok(i),
        Err(e) => Err(ActivityError::ResolveFailed(e)),
    }
}

/// Resolve actor and community and require a confirmed membership:
/// fails with `NotAMember` where the actor does not follow the
/// community.
pub fn verify_person_in_community(
    actor: &Url,
    community: &Url,
    store: &mut Store,
    remote: &RemoteObjects,
    budget: &mut RequestBudget,
) -> (r: Result<(usize, usize), ActivityError>)
    requires
        old(store).wf(),
        old(budget).wf(),
    ensures
        final(store).wf(),
        final(budget).wf(),
        final(budget).limit == old(budget).limit,
        old(budget).used <= final(budget).used <= old(budget).used + 2,
        final(store).posts == old(store).posts,
        final(store).comments == old(store).comments,
        final(store).moderators == old(store).moderators,
        final(store).followers == old(store).followers,
        final(store).post_votes == old(store).post_votes,
        final(store).comment_votes == old(store).comment_votes,
        final(store).mod_log == old(store).mod_log,
        r matches Ok(pc) ==> pc.0 < final(store).persons@.len() && pc.1 < final(store).communities@.len() && final(store).is_follower(
            final(store).communities@[pc.1 as int].id,
            final(store).persons@[pc.0 as int].id,
        ) && final(store).persons@[pc.0 as int].actor_id.domain@ == actor.domain@ && final(store).communities@[pc.1 as int].actor_id.domain@ == community.domain@,
        old(store).has_person(actor) && old(store).has_community(community) ==> *final(store)
            == *old(store) && *final(budget) == *old(budget) && (r matches Ok(pc) ==> final(store).persons@[pc.0 as int].actor_id.same_as(actor) && final(store).communities@[pc.1 as int].actor_id.same_as(community)) && (forall|p: int, c: int|
            0 <= p < old(store).persons@.len() && 0 <= c < old(store).communities@.len()
                && (#[trigger] old(store).persons@[p].actor_id.same_as(actor)) && (
            #[trigger] old(store).communities@[c].actor_id.same_as(community)) ==> (r is Ok
                <==> old(store).is_follower(
                old(store).communities@[c].id,
                old(store).persons@[p].id,
            )) && (r is Err ==> r == Err::<(usize, usize), ActivityError>(
                ActivityError::VerificationFailed(VerifyFail::NotAMember),
            ))),
{
    let p = match verify_person(actor, store, remote, budget) {
        Ok(p) => p,
        Err(e) => {
            return Err(e);
        },
    };
    let c = match resolve_community(store, remote, budget, community) {
        Ok(c) => c,
        Err(e) => {
            return Err(ActivityError::ResolveFailed(e));
        },
    };
    proof {
        if old(store).has_person(actor) && old(store).has_community(community) {
            let ps = old(store).persons@;
            let cs = old(store).communities@;
            assert forall|p2: int, c2: int|
                0 <= p2 < ps.len() && 0 <= c2 < cs.len() && (
                #[trigger] ps[p2].actor_id.same_as(actor)) && (#[trigger] cs[c2].actor_id.same_as(
                community,
            )) implies p2 == p && c2 == c by {
                if p2 < p as int {
                    assert(!ps[p2].actor_id.same_as(&ps[p as int].actor_id));
                } else if (p as int) < p2 {
                    assert(!ps[p as int].actor_id.same_as(&ps[p2].actor_id));
                }
                if c2 < c as int {
                    assert(!cs[c2].actor_id.same_as(&cs[c as int].actor_id));
                } else if (c as int) < c2 {
                    assert(!cs[c as int].actor_id.same_as(&cs[c2].actor_id));
                }
            }
        }
    }
    if store.member_check(store.communities[c].id, store.persons[p].id) {
        Ok((p, c))
    } else {
        Err(ActivityError::VerificationFailed(VerifyFail::NotAMember))
    }
}

/// Resolve actor and community and require moderator authority:
/// fails with `NotAModerator` where the actor holds no moderator
/// relation on the community.
pub fn verify_mod_action(
    actor: &Url,
    community: &Url,
    store: &mut Store,
    remote: &RemoteObjects,
    budget: &mut RequestBudget,
) -> (r: Result<(usize, usize), ActivityError>)
    requires
        old(store).wf(),
        old(budget).wf(),
    ensures
        final(store).wf(),
        final(budget).wf(),
        final(budget).limit == old(budget).limit,
        old(budget).used <= final(budget).used <= old(budget).used + 2,
        final(store).posts == old(store).posts,
        final(store).comments == old(store).comments,
        final(store).moderators == old(store).moderators,
        final(store).followers == old(store).followers,
        final(store).post_votes == old(store).post_votes,
        final(store).comment_votes == old(store).comment_votes,
        final(store).mod_log == old(store).mod_log,
        r matches Ok(pc) ==> pc.0 < final(store).persons@.len() && pc.1 < final(store).communities@.len() && final(store).is_moderator(
            final(store).communities@[pc.1 as int].id,
            final(store).persons@[pc.0 as int].id,
        ),
        old(store).has_person(actor) && old(store).has_community(community) ==> *final(store)
            == *old(store) && *final(budget) == *old(budget) && (forall|p: int, c: int|
            0 <= p < old(store).persons@.len() && 0 <= c < old(store).communities@.len()
                && (#[trigger] old(store).persons@[p].actor_id.same_as(actor)) && (
            #[trigger] old(store).communities@[c].actor_id.same_as(community)) ==> (r is Ok
                <==> old(store).is_moderator(
                old(store).communities@[c].id,
                old(store).persons@[p].id,
            )) && (r is Err ==> r == Err::<(usize, usize), ActivityError>(
                ActivityError::VerificationFailed(VerifyFail::NotAModerator),
            ))),
{
    let p = match verify_person(actor, store, remote, budget) {
        Ok(p) => p,
        Err(e) => {
            return Err(e);
        },
    };
    let c = match resolve_community(store, remote, budget, community) {
        Ok(c) => c,
        Err(e) => {
            return Err(ActivityError::ResolveFailed(e));
        },
    };
    proof {
        if old(store).has_person(actor) && old(store).has_community(community) {
            let ps = old(store).persons@;
            let cs = old(store).communities@;
            assert forall|p2: int, c2: int|
                0 <= p2 < ps.len() && 0 <= c2 < cs.len() && (
                #[trigger] ps[p2].actor_id.same_as(actor)) && (#[trigger] cs[c2].actor_id.same_as(
                community,
            )) implies p2 == p && c2 == c by {
                if p2 < p as int {
                    assert(!ps[p2].actor_id.same_as(&ps[p as int].actor_id));
                } else if (p as int) < p2 {
                    assert(!ps[p as int].actor_id.same_as(&ps[p2].actor_id));
                }
                if c2 < c as int {
                    assert(!cs[c2].actor_id.same_as(&cs[c as int].actor_id));
                } else if (c as int) < c2 {
                    assert(!cs[c as int].actor_id.same_as(&cs[c2].actor_id));
                }
            }
        }
    }
    if store.find_moderator(store.communities[c].id, store.persons[p].id).is_some() {
        Ok((p, c))
    } else {
        Err(ActivityError::VerificationFailed(VerifyFail::NotAModerator))
    }
}

} // verus!
