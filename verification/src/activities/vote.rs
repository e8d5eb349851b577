//! Vote activity: a like or dislike on a post or a comment, reconciled
//! into a vote record and the target's aggregate score. Re-voting with
//! the same kind changes nothing; re-voting with the opposite kind
//! moves the aggregate by twice the vote weight.

use vstd::prelude::*;
use vstd::pervasive::VecAdditionalExecFns;

use crate::budget::RequestBudget;
use crate::checks::{
    is_protocol_context, protocol_context, spec_instance_allowed, verify_activity,
    verify_person_in_community,
};
use crate::envelope::{PublicMarker, Unparsed};
use crate::model::{
    lemma_votes_total_push, lemma_votes_total_update, votes_total, Community, Person, Store,
    VoteRecord,
};
use crate::queue::{generate_activity_id, send_to_community, DeliveryPlan};
use crate::resolve::{resolve_person, resolve_post_or_comment, PostOrComment, RemoteObjects};
use crate::settings::Settings;
use crate::urls::Url;
use crate::{ActivityError, ResolveError};

verus! {

/// The closed vote kinds, isomorphic to the scores +1 and -1.
#[derive(Clone, Copy, Debug, PartialEq, Eq, Structural)]
pub enum VoteType {
    Like,
    Dislike,
}

impl VoteType {
    /// The signed score this vote kind is worth.
    pub open spec fn spec_score(self) -> i16 {
        match self {
            VoteType::Like => 1i16,
            VoteType::Dislike => -1i16,
        }
    }

    /// Conversion from a raw wire score: only +1 and -1 are vote
    /// kinds; every other value is a conversion error.
    pub fn try_from(value: i16) -> (r: Result<VoteType, ActivityError>)
        ensures
            r == if value == 1 {
                Ok::<VoteType, ActivityError>(VoteType::Like)
            } else if value == -1 {
                Ok::<VoteType, ActivityError>(VoteType::Dislike)
            } else {
                Err::<VoteType, ActivityError>(ActivityError::InvalidVoteValue)
            },
    {
        if value == 1 {
            Ok(VoteType::Like)
        } else if value == -1 {
            Ok(VoteType::Dislike)
        } else {
            Err(ActivityError::InvalidVoteValue)
        }
    }

    /// The signed score, as an executable value.
    pub fn score(&self) -> (r: i16)
        ensures
            r == self.spec_score(),
    {
        match self {
            VoteType::Like => 1,
            VoteType::Dislike => -1,
        }
    }
}

/// The vote reconciliation relation: `vs2` is `vs` after the vote
/// `kind` by `pid` on `tid` was applied. An identical standing vote
/// leaves the table alone; an opposite one is rewritten, moving the
/// target's total by the score difference (twice the weight); a
/// missing one is appended. Totals of other targets never move.
pub open spec fn spec_vote_applied(
    vs: Seq<VoteRecord>,
    vs2: Seq<VoteRecord>,
    pid: u64,
    tid: u64,
    kind: VoteType,
) -> bool {
    let w = kind.spec_score();
    &&& (forall|i: int|
        0 <= i < vs.len() && #[trigger] vs[i].person_id == pid && vs[i].target_id == tid ==> {
            &&& (vs[i].score == w ==> vs2 == vs)
            &&& (vs[i].score != w ==> vs2 == vs.update(
                i,
                VoteRecord { person_id: pid, target_id: tid, score: w },
            ) && votes_total(vs2, tid) == votes_total(vs, tid) + w - vs[i].score)
        })
    &&& ((forall|i: int|
        0 <= i < vs.len() ==> !(#[trigger] vs[i].person_id == pid && vs[i].target_id == tid))
        ==> vs2 == vs.push(VoteRecord { person_id: pid, target_id: tid, score: w }) && votes_total(
        vs2,
        tid,
    ) == votes_total(vs, tid) + w)
    &&& (forall|t: u64| t != tid ==> #[trigger] votes_total(vs2, t) == votes_total(vs, t))
}

/// Upsert the vote `kind` by `person_id` on the post at index `p` and
/// reconcile the aggregate: an identical standing vote is left alone,
/// an opposite one is rewritten (moving the total by twice the
/// weight), a missing one is inserted.
pub fn vote_post(kind: &VoteType, person_id: u64, p: usize, store: &mut Store) -> (r: Result<
    (),
    ActivityError,
>)
    requires
        old(store).wf(),
        p < old(store).posts@.len(),
    ensures
        final(store).wf(),
        r is Ok,
        final(store).persons == old(store).persons,
        final(store).communities == old(store).communities,
        final(store).posts == old(store).posts,
        final(store).comments == old(store).comments,
        final(store).moderators == old(store).moderators,
        final(store).followers == old(store).followers,
        final(store).comment_votes == old(store).comment_votes,
        final(store).mod_log == old(store).mod_log,
        spec_vote_applied(
            old(store).post_votes@,
            final(store).post_votes@,
            person_id,
            old(store).posts@[p as int].id,
            *kind,
        ),
{
    let tid = store.posts[p].id;
    let w = kind.score();
    let row = VoteRecord { person_id, target_id: tid, score: w };
    let ghost oldvs = store.post_votes@;
    match store.find_post_vote(person_id, tid) {
        Some(i) => {
            proof {
                let vs = oldvs;
                assert forall|i2: int|
                    0 <= i2 < vs.len() && #[trigger] vs[i2].person_id == person_id
                        && vs[i2].target_id == tid implies i2 == i by {
                    if i2 < i as int {
                        assert(!(vs[i2].person_id == vs[i as int].person_id && vs[i2].target_id
                            == vs[i as int].target_id));
                    } else if (i as int) < i2 {
                        assert(!(vs[i as int].person_id == vs[i2].person_id && vs[i as int].target_id
                            == vs[i2].target_id));
                    }
                }
            }
            if store.post_votes[i].score != w {
                store.post_votes.set(i, row);
                proof {
                    let news = store.post_votes@;
                    assert forall|a: int, b: int|
                        0 <= a < b < news.len() implies !(#[trigger] news[a].person_id
                        == #[trigger] news[b].person_id && news[a].target_id
                        == news[b].target_id) by {
                        assert(!(oldvs[a].person_id == oldvs[b].person_id && oldvs[a].target_id
                            == oldvs[b].target_id));
                    }
                    assert forall|t: u64| true implies #[trigger] votes_total(news, t)
                        == votes_total(oldvs, t) + if t == tid {
                        w - oldvs[i as int].score
                    } else {
                        0
                    } by {
                        lemma_votes_total_update(oldvs, i as int, row, t);
                    }
                }
            }
        },
        None => {
            store.post_votes.push(row);
            proof {
                let news = store.post_votes@;
                assert forall|a: int, b: int|
                    0 <= a < b < news.len() implies !(#[trigger] news[a].person_id
                    == #[trigger] news[b].person_id && news[a].target_id == news[b].target_id) by {
                    if b < oldvs.len() {
                        assert(!(oldvs[a].person_id == oldvs[b].person_id && oldvs[a].target_id
                            == oldvs[b].target_id));
                    } else {
                        assert(!(oldvs[a].person_id == person_id && oldvs[a].target_id == tid));
                    }
                }
                assert forall|t: u64| true implies #[trigger] votes_total(news, t) == votes_total(
                    oldvs,
                    t,
                ) + if t == tid {
                    w as int
                } else {
                    0
                } by {
                    lemma_votes_total_push(oldvs, row, t);
                }
            }
        },
    }
    Ok(())
}

/// Upsert the vote `kind` by `person_id` on the comment at index `c`,
/// exactly as `vote_post` does for posts.
pub fn vote_comment(kind: &VoteType, person_id: u64, c: usize, store: &mut Store) -> (r: Result<
    (),
    ActivityError,
>)
    requires
        old(store).wf(),
        c < old(store).comments@.len(),
    ensures
        final(store).wf(),
        r is Ok,
        final(store).persons == old(store).persons,
        final(store).communities == old(store).communities,
        final(store).posts == old(store).posts,
        final(store).comments == old(store).comments,
        final(store).moderators == old(store).moderators,
        final(store).followers == old(store).followers,
        final(store).post_votes == old(store).post_votes,
        final(store).mod_log == old(store).mod_log,
        spec_vote_applied(
            old(store).comment_votes@,
            final(store).comment_votes@,
            person_id,
            old(store).comments@[c as int].id,
            *kind,
        ),
{
    let tid = store.comments[c].id;
    let w = kind.score();
    let row = VoteRecord { person_id, target_id: tid, score: w };
    let ghost oldvs = store.comment_votes@;
    match store.find_comment_vote(person_id, tid) {
        Some(i) => {
            proof {
                let vs = oldvs;
                assert forall|i2: int|
                    0 <= i2 < vs.len() && #[trigger] vs[i2].person_id == person_id
                        && vs[i2].target_id == tid implies i2 == i by {
                    if i2 < i as int {
                        assert(!(vs[i2].person_id == vs[i as int].person_id && vs[i2].target_id
                            == vs[i as int].target_id));
                    } else if (i as int) < i2 {
                        assert(!(vs[i as int].person_id == vs[i2].person_id && vs[i as int].target_id
                            == vs[i2].target_id));
                    }
                }
            }
            if store.comment_votes[i].score != w {
                store.comment_votes.set(i, row);
                proof {
                    let news = store.comment_votes@;
                    assert forall|a: int, b: int|
                        0 <= a < b < news.len() implies !(#[trigger] news[a].person_id
                        == #[trigger] news[b].person_id && news[a].target_id
                        == news[b].target_id) by {
                        assert(!(oldvs[a].person_id == oldvs[b].person_id && oldvs[a].target_id
                            == oldvs[b].target_id));
                    }
                    assert forall|t: u64| true implies #[trigger] votes_total(news, t)
                        == votes_total(oldvs, t) + if t == tid {
                        w - oldvs[i as int].score
                    } else {
                        0
                    } by {
                        lemma_votes_total_update(oldvs, i as int, row, t);
                    }
                }
            }
        },
        None => {
            store.comment_votes.push(row);
            proof {
                let news = store.comment_votes@;
                assert forall|a: int, b: int|
                    0 <= a < b < news.len() implies !(#[trigger] news[a].person_id
                    == #[trigger] news[b].person_id && news[a].target_id == news[b].target_id) by {
                    if b < oldvs.len() {
                        assert(!(oldvs[a].person_id == oldvs[b].person_id && oldvs[a].target_id
                            == oldvs[b].target_id));
                    } else {
                        assert(!(oldvs[a].person_id == person_id && oldvs[a].target_id == tid));
                    }
                }
                assert forall|t: u64| true implies #[trigger] votes_total(news, t) == votes_total(
                    oldvs,
                    t,
                ) + if t == tid {
                    w as int
                } else {
                    0
                } by {
                    lemma_votes_total_push(oldvs, row, t);
                }
            }
        },
    }
    Ok(())
}

/// The vote envelope: `object` is the voted-on post or comment.
#[derive(Debug, PartialEq)]
pub struct Vote {
    pub actor: Url,
    pub to: PublicMarker,
    pub object: Url,
    pub cc: Url,
    pub kind: VoteType,
    pub id: Url,
    pub context: Url,
    pub unparsed: Unparsed,
}

impl Vote {
    /// Build a vote envelope addressed to public within `community`.
    pub fn new(
        object_ap_id: &Url,
        actor: &Person,
        community: &Community,
        kind: VoteType,
        settings: &Settings,
        suffix: &str,
    ) -> (r: Vote)
        ensures
            r.actor == actor.actor_id,
            r.object == *object_ap_id,
            r.cc == community.actor_id,
            r.kind == kind,
            r.id.domain@ == settings.hostname@,
            r.id.path@ == "/activities/"@ + (match kind {
                VoteType::Like => "like"@,
                VoteType::Dislike => "dislike"@,
            }) + "/"@ + suffix@,
            is_protocol_context(&r.context),
            r.unparsed.fields@.len() == 0,
    {
        let id = match kind {
            VoteType::Like => generate_activity_id("like", &settings.hostname, suffix),
            VoteType::Dislike => generate_activity_id("dislike", &settings.hostname, suffix),
        };
        Vote {
            actor: actor.actor_id.clone(),
            to: PublicMarker::Public,
            object: object_ap_id.clone(),
            cc: community.actor_id.clone(),
            kind,
            id,
            context: protocol_context(),
            unparsed: Unparsed::new(),
        }
    }

    /// Build the outbound envelope and its delivery plan. The
    /// community is read from the local store by its numeric id; a
    /// vote within an unknown community cannot be sent.
    pub fn send(
        object_ap_id: &Url,
        actor: &Person,
        community_id: u64,
        kind: VoteType,
        store: &Store,
        settings: &Settings,
        suffix: &str,
    ) -> (r: Result<(Vote, DeliveryPlan), ActivityError>)
        ensures
            (exists|i: int|
                0 <= i < store.communities@.len() && #[trigger] store.communities@[i].id
                    == community_id) <==> r is Ok,
            r matches Ok(v) ==> v.0.actor == actor.actor_id && v.0.object == *object_ap_id
                && v.0.kind == kind && v.1.activity_id == v.0.id && v.0.id.domain@
                == settings.hostname@ && is_protocol_context(&v.0.context)
                && v.0.unparsed.fields@.len() == 0 && (exists|i: int|
                0 <= i < store.communities@.len() && (#[trigger] store.communities@[i].id)
                    == community_id && v.0.cc == store.communities@[i].actor_id && (
                store.communities@[i].local ==> v.1.inboxes@.len() == 0) && (
                !store.communities@[i].local ==> v.1.inboxes@ == seq![
                    store.communities@[i].spec_shared_inbox_or_inbox(),
                ])),
            r is Err ==> r == Err::<(Vote, DeliveryPlan), ActivityError>(
                ActivityError::ResolveFailed(ResolveError::NotFound),
            ),
    {
        let c = match store.find_community_by_id(community_id) {
            Some(c) => c,
            None => {
                return Err(ActivityError::ResolveFailed(ResolveError::NotFound));
            },
        };
        let vote = Vote::new(object_ap_id, actor, &store.communities[c], kind, settings, suffix);
        let id = vote.id.clone();
        let plan = send_to_community(id, &store.communities[c], Vec::new());
        proof {
            if !store.communities@[c as int].local {
                assert(plan.inboxes@ =~= seq![
                    store.communities@[c as int].spec_shared_inbox_or_inbox(),
                ]);
            }
        }
        Ok((vote, plan))
    }

    /// Read-only verification: envelope structure, federation policy,
    /// and the actor's membership in the community.
    pub fn verify(
        &self,
        store: &mut Store,
        remote: &RemoteObjects,
        settings: &Settings,
        budget: &mut RequestBudget,
    ) -> (r: Result<(), ActivityError>)
        requires
            old(store).wf(),
            old(budget).wf(),
        ensures
            final(store).wf(),
            final(budget).wf(),
            final(budget).limit == old(budget).limit,
            old(budget).used <= final(budget).used <= old(budget).used + 2,
            final(store).posts == old(store).posts,
            final(store).comments == old(store).comments,
            final(store).moderators == old(store).moderators,
            final(store).followers == old(store).followers,
            final(store).post_votes == old(store).post_votes,
            final(store).comment_votes == old(store).comment_votes,
            final(store).mod_log == old(store).mod_log,
            r is Ok ==> spec_instance_allowed(&settings.federation, self.id.domain@)
                && is_protocol_context(&self.context),
            old(store).has_person(&self.actor) && old(store).has_community(&self.cc) ==> *final(store) == *old(store) && *final(budget) == *old(budget) && (forall|p: int, c: int|
                #[trigger] old(store).local_match(&self.actor, &self.cc, p, c) ==> (r is Ok
                    <==> spec_instance_allowed(&settings.federation, self.id.domain@)
                    && is_protocol_context(&self.context) && old(store).is_follower(
                    old(store).communities@[c].id,
                    old(store).persons@[p].id,
                ))),
    {
        if let Err(e) = verify_activity(&self.id, &self.context, settings) {
            return Err(e);
        }
        if let Err(e) = verify_person_in_community(&self.actor, &self.cc, store, remote, budget) {
            return Err(e);
        }
        Ok(())
    }

    /// Apply the mutation: resolve the voted-on object and reconcile
    /// the vote into the matching table.
    pub fn receive(
        self,
        store: &mut Store,
        remote: &RemoteObjects,
        budget: &mut RequestBudget,
    ) -> (r: Result<(), ActivityError>)
        requires
            old(store).wf(),
            old(budget).wf(),
        ensures
            final(store).wf(),
            final(budget).wf(),
            final(budget).limit == old(budget).limit,
            old(budget).used <= final(budget).used <= old(budget).used + 2,
            final(store).moderators == old(store).moderators,
            final(store).followers == old(store).followers,
            final(store).mod_log == old(store).mod_log,
            r is Err ==> final(store).post_votes == old(store).post_votes && final(store).comment_votes == old(store).comment_votes && (r matches Err(e) && e
                matches ActivityError::ResolveFailed(_)),
            !old(store).has_person(&self.actor) && old(budget).used == old(budget).limit ==> r
                == Err::<(), ActivityError>(ActivityError::ResolveFailed(
                ResolveError::BudgetExhausted,
            )),
            old(store).has_person(&self.actor) && old(store).has_post(&self.object) ==> r is Ok
                && *final(budget) == *old(budget) && final(store).persons == old(store).persons
                && final(store).communities == old(store).communities && final(store).comment_votes
                == old(store).comment_votes && (forall|p: int, i: int|
                0 <= p < old(store).persons@.len() && 0 <= i < old(store).posts@.len() && (
                #[trigger] old(store).persons@[p].actor_id.same_as(&self.actor)) && (#[trigger] old(store).posts@[i].ap_id.same_as(&self.object)) ==> spec_vote_applied(
                    old(store).post_votes@,
                    final(store).post_votes@,
                    old(store).persons@[p].id,
                    old(store).posts@[i].id,
                    self.kind,
                )),
            old(store).has_person(&self.actor) && !old(store).has_post(&self.object) && old(store).has_comment(&self.object) ==> r is Ok && *final(budget) == *old(budget) && final(store).persons == old(store).persons && final(store).communities == old(store).communities
                && final(store).post_votes == old(store).post_votes && (forall|p: int, i: int|
                0 <= p < old(store).persons@.len() && 0 <= i < old(store).comments@.len() && (
                #[trigger] old(store).persons@[p].actor_id.same_as(&self.actor)) && (#[trigger] old(store).comments@[i].ap_id.same_as(&self.object)) ==> spec_vote_applied(
                    old(store).comment_votes@,
                    final(store).comment_votes@,
                    old(store).persons@[p].id,
                    old(store).comments@[i].id,
                    self.kind,
                )),
    {
        let p = match resolve_person(store, remote, budget, &self.actor) {
            Ok(p) => p,
            Err(e) => {
                return Err(ActivityError::ResolveFailed(e));
            },
        };
        let person_id = store.persons[p].id;
        match resolve_post_or_comment(store, remote, budget, &self.object) {
            Ok(PostOrComment::Post(i)) => {
                proof {
                    if old(store).has_person(&self.actor) && old(store).has_post(&self.object) {
                        let ps = old(store).persons@;
                        let posts = old(store).posts@;
                        assert forall|p2: int, i2: int|
                            0 <= p2 < ps.len() && 0 <= i2 < posts.len() && (
                            #[trigger] ps[p2].actor_id.same_as(&self.actor)) && (
                            #[trigger] posts[i2].ap_id.same_as(&self.object)) implies p2 == p && i2
                            == i by {
                            if p2 < p as int {
                                assert(!ps[p2].actor_id.same_as(&ps[p as int].actor_id));
                            } else if (p as int) < p2 {
                                assert(!ps[p as int].actor_id.same_as(&ps[p2].actor_id));
                            }
                            if i2 < i as int {
                                assert(!posts[i2].ap_id.same_as(&posts[i as int].ap_id));
                            } else if (i as int) < i2 {
                                assert(!posts[i as int].ap_id.same_as(&posts[i2].ap_id));
                            }
                        }
                    }
                }
                vote_post(&self.kind, person_id, i, store)
            },
            Ok(PostOrComment::Comment(i)) => {
                proof {
                    if old(store).has_person(&self.actor) && !old(store).has_post(&self.object)
                        && old(store).has_comment(&self.object) {
                        let ps = old(store).persons@;
                        let comments = old(store).comments@;
                        assert forall|p2: int, i2: int|
                            0 <= p2 < ps.len() && 0 <= i2 < comments.len() && (
                            #[trigger] ps[p2].actor_id.same_as(&self.actor)) && (
                            #[trigger] comments[i2].ap_id.same_as(&self.object)) implies p2 == p
                            && i2 == i by {
                            if p2 < p as int {
                                assert(!ps[p2].actor_id.same_as(&ps[p as int].actor_id));
                            } else if (p as int) < p2 {
                                assert(!ps[p as int].actor_id.same_as(&ps[p2].actor_id));
                            }
                            if i2 < i as int {
                                assert(!comments[i2].ap_id.same_as(&comments[i as int].ap_id));
                            } else if (i as int) < i2 {
                                assert(!comments[i as int].ap_id.same_as(&comments[i2].ap_id));
                            }
                        }
                    }
                }
                vote_comment(&self.kind, person_id, i, store)
            },
            Err(e) => Err(ActivityError::ResolveFailed(e)),
        }
    }
}

} // verus!
