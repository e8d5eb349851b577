//! The typed reference resolver: turns an opaque URL into a local
//! record, fetching and caching from the remote node when the store
//! has no copy, under the session's fetch budget.
//!
//! What a remote fetch of each URL would return is handed in as plain
//! data (`RemoteObjects`); the deployment performs the actual HTTP
//! exchange and feeds the answers through here, so every decision —
//! cache hit, budget charge, anti-spoofing check, upsert — is verified.

use vstd::prelude::*;
use vstd::pervasive::VecAdditionalExecFns;

use crate::budget::RequestBudget;
use crate::model::{Comment, Community, Person, Post, Store};
use crate::urls::Url;
use crate::ResolveError;

verus! {

/// What the remote node answers for each URL the session may fetch:
/// pairs of (fetched URL, returned representation), first match wins.
pub struct RemoteObjects {
    pub persons: Vec<(Url, Person)>,
    pub communities: Vec<(Url, Community)>,
    pub posts: Vec<(Url, Post)>,
    pub comments: Vec<(Url, Comment)>,
}

/// The representation a fetch of `url` returns: the first entry whose
/// key equals `url`, if any.
pub open spec fn lookup_in<T>(entries: Seq<(Url, T)>, url: &Url) -> Option<T>
    decreases entries.len(),
{
    if entries.len() == 0 {
        None
    } else if entries[0].0.same_as(url) {
        Some(entries[0].1)
    } else {
        lookup_in(entries.drop_first(), url)
    }
}

/// Where no entry before `i` matches, the lookup outcome is decided by
/// the entries from `i` on.
proof fn lemma_lookup_skip<T>(entries: Seq<(Url, T)>, url: &Url, i: int)
    requires
        0 <= i <= entries.len(),
        forall|j: int| 0 <= j < i ==> !#[trigger] entries[j].0.same_as(url),
    ensures
        lookup_in(entries, url) == lookup_in(entries.skip(i), url),
    decreases i,
{
    if i > 0 {
        lemma_lookup_skip(entries.drop_first(), url, i - 1);
        assert(entries.drop_first().skip(i - 1) =~= entries.skip(i));
    } else {
        assert(entries.skip(0) =~= entries);
    }
}

/// First entry whose key equals `url`, as an index.
fn find_entry<T>(entries: &Vec<(Url, T)>, url: &Url) -> (r: Option<usize>)
    ensures
        r matches Some(j) ==> j < entries@.len() && lookup_in(entries@, url) == Some(
            entries@[j as int].1,
        ),
        r is None ==> lookup_in(entries@, url) is None,
{
    let n = entries.len();
    for i in 0..n
        invariant
            n == entries@.len(),
            forall|j: int| 0 <= j < i ==> !#[trigger] entries@[j].0.same_as(url),
    {
        if entries[i].0.matches(url) {
            proof {
                lemma_lookup_skip(entries@, url, i as int);
                assert(entries@.skip(i as int)[0] == entries@[i as int]);
            }
            return Some(i);
        }
    }
    proof {
        lemma_lookup_skip(entries@, url, n as int);
        assert(entries@.skip(n as int).len() == 0);
    }
    None
}

/// Resolve `url` to a person: the cached copy if one exists, else a
/// budget-charged fetch, validated against spoofing and upserted.
pub fn resolve_person(
    store: &mut Store,
    remote: &RemoteObjects,
    budget: &mut RequestBudget,
    url: &Url,
) -> (r: Result<usize, ResolveError>)
    requires
        old(store).wf(),
        old(budget).wf(),
    ensures
        final(store).wf(),
        final(budget).wf(),
        final(budget).limit == old(budget).limit,
        old(budget).used <= final(budget).used <= old(budget).used + 1,
        final(store).communities == old(store).communities,
        final(store).posts == old(store).posts,
        final(store).comments == old(store).comments,
        final(store).moderators == old(store).moderators,
        final(store).followers == old(store).followers,
        final(store).post_votes == old(store).post_votes,
        final(store).comment_votes == old(store).comment_votes,
        final(store).mod_log == old(store).mod_log,
        match r {
            Ok(i) => i < final(store).persons@.len() && final(store).persons@[i as int].actor_id.domain@ == url.domain@,
            Err(_) => final(store).persons == old(store).persons,
        },
        old(store).has_person(url) ==> r is Ok && *final(store) == *old(store) && *final(budget)
            == *old(budget) && (r matches Ok(i) ==> final(store).persons@[i as int].actor_id.same_as(
            url,
        )),
        !old(store).has_person(url) && old(budget).used == old(budget).limit ==> r == Err::<usize, ResolveError>(
            ResolveError::BudgetExhausted,
        ) && *final(budget) == *old(budget),
        !old(store).has_person(url) && old(budget).used < old(budget).limit ==> {
            &&& final(budget).used == old(budget).used + 1
            &&& match lookup_in(remote.persons@, url) {
                None => r == Err::<usize, ResolveError>(ResolveError::NotFound),
                Some(p) => if p.actor_id.domain@ == url.domain@ {
                    r matches Ok(i) && final(store).persons@[i as int] == p
                } else {
                    r == Err::<usize, ResolveError>(ResolveError::DomainMismatch)
                },
            }
        },
{
    if let Some(i) = store.find_person(url) {
        return Ok(i);
    }
    if !budget.try_charge() {
        return Err(ResolveError::BudgetExhausted);
    }
    match find_entry(&remote.persons, url) {
        None => Err(ResolveError::NotFound),
        Some(j) => {
            let fetched = remote.persons[j].1.clone();
            if fetched.actor_id.domain == url.domain {
                let ghost fsnap = fetched;
                match store.find_person(&fetched.actor_id) {
                    Some(k) => {
                        store.persons.set(k, fetched);
                        proof {
                            let olds = old(store).persons@;
                            let news = store.persons@;
                            assert forall|a: int, b: int|
                                0 <= a < b < news.len() implies !news[a].actor_id.same_as(
                                &news[b].actor_id,
                            ) by {
                                assert(!olds[a].actor_id.same_as(&olds[b].actor_id));
                            }
                        }
                        Ok(k)
                    },
                    None => {
                        let n = store.persons.len();
                        store.persons.push(fetched);
                        proof {
                            let olds = old(store).persons@;
                            let news = store.persons@;
                            assert forall|a: int, b: int|
                                0 <= a < b < news.len() implies !news[a].actor_id.same_as(
                                &news[b].actor_id,
                            ) by {
                                if b < olds.len() {
                                    assert(!olds[a].actor_id.same_as(&olds[b].actor_id));
                                } else {
                                    assert(!olds[a].actor_id.same_as(&fsnap.actor_id));
                                }
                            }
                        }
                        Ok(n)
                    },
                }
            } else {
                Err(ResolveError::DomainMismatch)
            }
        },
    }
}

/// Resolve `url` to a community, as `resolve_person` does for persons.
pub fn resolve_community(
    store: &mut Store,
    remote: &RemoteObjects,
    budget: &mut RequestBudget,
    url: &Url,
) -> (r: Result<usize, ResolveError>)
    requires
        old(store).wf(),
        old(budget).wf(),
    ensures
        final(store).wf(),
        final(budget).wf(),
        final(budget).limit == old(budget).limit,
        old(budget).used <= final(budget).used <= old(budget).used + 1,
        final(store).persons == old(store).persons,
        final(store).posts == old(store).posts,
        final(store).comments == old(store).comments,
        final(store).moderators == old(store).moderators,
        final(store).followers == old(store).followers,
        final(store).post_votes == old(store).post_votes,
        final(store).comment_votes == old(store).comment_votes,
        final(store).mod_log == old(store).mod_log,
        match r {
            Ok(i) => i < final(store).communities@.len() && final(store).communities@[i as int].actor_id.domain@ == url.domain@,
            Err(_) => final(store).communities == old(store).communities,
        },
        old(store).has_community(url) ==> r is Ok && *final(store) == *old(store) && *final(budget)
            == *old(budget) && (r matches Ok(i) ==> final(store).communities@[i as int].actor_id.same_as(url)),
        !old(store).has_community(url) && old(budget).used == old(budget).limit ==> r == Err::<usize, ResolveError>(
            ResolveError::BudgetExhausted,
        ) && *final(budget) == *old(budget),
        !old(store).has_community(url) && old(budget).used < old(budget).limit ==> {
            &&& final(budget).used == old(budget).used + 1
            &&& match lookup_in(remote.communities@, url) {
                None => r == Err::<usize, ResolveError>(ResolveError::NotFound),
                Some(c) => if c.actor_id.domain@ == url.domain@ {
                    r matches Ok(i) && final(store).communities@[i as int] == c
                } else {
                    r == Err::<usize, ResolveError>(ResolveError::DomainMismatch)
                },
            }
        },
{
    if let Some(i) = store.find_community(url) {
        return Ok(i);
    }
    if !budget.try_charge() {
        return Err(ResolveError::BudgetExhausted);
    }
    match find_entry(&remote.communities, url) {
        None => Err(ResolveError::NotFound),
        Some(j) => {
            let fetched = remote.communities[j].1.clone();
            if fetched.actor_id.domain == url.domain {
                let ghost fsnap = fetched;
                match store.find_community(&fetched.actor_id) {
                    Some(k) => {
                        store.communities.set(k, fetched);
                        proof {
                            let olds = old(store).communities@;
                            let news = store.communities@;
                            assert forall|a: int, b: int|
                                0 <= a < b < news.len() implies !news[a].actor_id.same_as(
                                &news[b].actor_id,
                            ) by {
                                assert(!olds[a].actor_id.same_as(&olds[b].actor_id));
                            }
                        }
                        Ok(k)
                    },
                    None => {
                        let n = store.communities.len();
                        store.communities.push(fetched);
                        proof {
                            let olds = old(store).communities@;
                            let news = store.communities@;
                            assert forall|a: int, b: int|
                                0 <= a < b < news.len() implies !news[a].actor_id.same_as(
                                &news[b].actor_id,
                            ) by {
                                if b < olds.len() {
                                    assert(!olds[a].actor_id.same_as(&olds[b].actor_id));
                                } else {
                                    assert(!olds[a].actor_id.same_as(&fsnap.actor_id));
                                }
                            }
                        }
                        Ok(n)
                    },
                }
            } else {
                Err(ResolveError::DomainMismatch)
            }
        },
    }
}

/// A voted-on object: either a post or a comment, as an index into the
/// corresponding store table.
#[derive(Clone, Copy, Debug, PartialEq, Eq, Structural)]
pub enum PostOrComment {
    Post(usize),
    Comment(usize),
}

/// Resolve `url` to a post or a comment: local copies first (posts
/// before comments), else one budget-charged fetch answered by the
/// remote node with whichever of the two it holds.
pub fn resolve_post_or_comment(
    store: &mut Store,
    remote: &RemoteObjects,
    budget: &mut RequestBudget,
    url: &Url,
) -> (r: Result<PostOrComment, ResolveError>)
    requires
        old(store).wf(),
        old(budget).wf(),
    ensures
        final(store).wf(),
        final(budget).wf(),
        final(budget).limit == old(budget).limit,
        old(budget).used <= final(budget).used <= old(budget).used + 1,
        final(store).persons == old(store).persons,
        final(store).communities == old(store).communities,
        final(store).moderators == old(store).moderators,
        final(store).followers == old(store).followers,
        final(store).post_votes == old(store).post_votes,
        final(store).comment_votes == old(store).comment_votes,
        final(store).mod_log == old(store).mod_log,
        match r {
            Ok(PostOrComment::Post(i)) => i < final(store).posts@.len(),
            Ok(PostOrComment::Comment(i)) => i < final(store).comments@.len(),
            Err(_) => *final(store) == *old(store),
        },
        old(store).has_post(url) ==> *final(store) == *old(store) && *final(budget) == *old(budget)
            && (r matches Ok(v) && v matches PostOrComment::Post(i) && final(store).posts@[i as int].ap_id.same_as(url)),
        !old(store).has_post(url) && old(store).has_comment(url) ==> *final(store) == *old(store)
            && *final(budget) == *old(budget) && (r matches Ok(v) && v
            matches PostOrComment::Comment(i) && final(store).comments@[i as int].ap_id.same_as(url)),
        !old(store).has_post(url) && !old(store).has_comment(url) && old(budget).used == old(budget).limit ==> r == Err::<PostOrComment, ResolveError>(ResolveError::BudgetExhausted) && *final(budget) == *old(budget),
        !old(store).has_post(url) && !old(store).has_comment(url) && old(budget).used < old(budget).limit ==> {
            &&& final(budget).used == old(budget).used + 1
            &&& match lookup_in(remote.posts@, url) {
                Some(p) => if p.ap_id.domain@ == url.domain@ {
                    r matches Ok(v) && v matches PostOrComment::Post(i) && final(store).posts@[i as int] == p
                } else {
                    r == Err::<PostOrComment, ResolveError>(ResolveError::DomainMismatch)
                },
                None => match lookup_in(remote.comments@, url) {
                    Some(c) => if c.ap_id.domain@ == url.domain@ {
                        r matches Ok(v) && v matches PostOrComment::Comment(i) && final(store).comments@[i as int] == c
                    } else {
                        r == Err::<PostOrComment, ResolveError>(ResolveError::DomainMismatch)
                    },
                    None => r == Err::<PostOrComment, ResolveError>(ResolveError::NotFound),
                },
            }
        },
{
    if let Some(i) = store.find_post(url) {
        return Ok(PostOrComment::Post(i));
    }
    if let Some(i) = store.find_comment(url) {
        return Ok(PostOrComment::Comment(i));
    }
    if !budget.try_charge() {
        return Err(ResolveError::BudgetExhausted);
    }
    if let Some(j) = find_entry(&remote.posts, url) {
        let fetched = remote.posts[j].1.clone();
        if fetched.ap_id.domain == url.domain {
            let ghost fsnap = fetched;
            match store.find_post(&fetched.ap_id) {
                Some(k) => {
                    store.posts.set(k, fetched);
                    proof {
                        let olds = old(store).posts@;
                        let news = store.posts@;
                        assert forall|a: int, b: int|
                            0 <= a < b < news.len() implies !news[a].ap_id.same_as(
                            &news[b].ap_id,
                        ) by {
                            assert(!olds[a].ap_id.same_as(&olds[b].ap_id));
                        }
                    }
                    Ok(PostOrComment::Post(k))
                },
                None => {
                    let n = store.posts.len();
                    store.posts.push(fetched);
                    proof {
                        let olds = old(store).posts@;
                        let news = store.posts@;
                        assert forall|a: int, b: int|
                            0 <= a < b < news.len() implies !news[a].ap_id.same_as(
                            &news[b].ap_id,
                        ) by {
                            if b < olds.len() {
                                assert(!olds[a].ap_id.same_as(&olds[b].ap_id));
                            } else {
                                assert(!olds[a].ap_id.same_as(&fsnap.ap_id));
                            }
                        }
                    }
                    Ok(PostOrComment::Post(n))
                },
            }
        } else {
            Err(ResolveError::DomainMismatch)
        }
    } else if let Some(j) = find_entry(&remote.comments, url) {
        let fetched = remote.comments[j].1.clone();
        if fetched.ap_id.domain == url.domain {
            let ghost fsnap = fetched;
            match store.find_comment(&fetched.ap_id) {
                Some(k) => {
                    store.comments.set(k, fetched);
                    proof {
                        let olds = old(store).comments@;
                        let news = store.comments@;
                        assert forall|a: int, b: int|
                            0 <= a < b < news.len() implies !news[a].ap_id.same_as(
                            &news[b].ap_id,
                        ) by {
                            assert(!olds[a].ap_id.same_as(&olds[b].ap_id));
                        }
                    }
                    Ok(PostOrComment::Comment(k))
                },
                None => {
                    let n = store.comments.len();
                    store.comments.push(fetched);
                    proof {
                        let olds = old(store).comments@;
                        let news = store.comments@;
                        assert forall|a: int, b: int|
                            0 <= a < b < news.len() implies !news[a].ap_id.same_as(
                            &news[b].ap_id,
                        ) by {
                            if b < olds.len() {
                                assert(!olds[a].ap_id.same_as(&olds[b].ap_id));
                            } else {
                                assert(!olds[a].ap_id.same_as(&fsnap.ap_id));
                            }
                        }
                    }
                    Ok(PostOrComment::Comment(n))
                },
            }
        } else {
            Err(ResolveError::DomainMismatch)
        }
    } else {
        Err(ResolveError::NotFound)
    }
}

/// A deletion target, resolved generically from a bare URL against the
/// local store: deletions and removals never trigger a remote fetch.
#[derive(Clone, Copy, Debug, PartialEq, Eq, Structural)]
pub enum DeletableObjects {
    Community(usize),
    Post(usize),
    Comment(usize),
}

impl DeletableObjects {
    /// Determine the concrete kind of the object at `url` from the
    /// local store: communities first, then posts, then comments.
    pub fn read_from_db(store: &Store, url: &Url) -> (r: Result<DeletableObjects, ResolveError>)
        ensures
            store.has_community(url) ==> (r matches Ok(d) && d matches DeletableObjects::Community(i)
                && i < store.communities@.len() && store.communities@[i as int].actor_id.same_as(url)),
            !store.has_community(url) && store.has_post(url) ==> (r matches Ok(d) && d
                matches DeletableObjects::Post(i) && i < store.posts@.len()
                && store.posts@[i as int].ap_id.same_as(url)),
            !store.has_community(url) && !store.has_post(url) && store.has_comment(url) ==> (r
                matches Ok(d) && d matches DeletableObjects::Comment(i) && i < store.comments@.len()
                && store.comments@[i as int].ap_id.same_as(url)),
            !store.has_community(url) && !store.has_post(url) && !store.has_comment(url) ==> r
                == Err::<DeletableObjects, ResolveError>(ResolveError::NotFound),
    {
        if let Some(i) = store.find_community(url) {
            return Ok(DeletableObjects::Community(i));
        }
        if let Some(i) = store.find_post(url) {
            return Ok(DeletableObjects::Post(i));
        }
        if let Some(i) = store.find_comment(url) {
            return Ok(DeletableObjects::Comment(i));
        }
        Err(ResolveError::NotFound)
    }
}

} // verus!
