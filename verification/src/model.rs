//! The engine's view of the record store: communities, posts, comments,
//! persons, and the relation tables (moderator, follower, vote,
//! moderation log). The store is held as plain data so that every
//! mutation a handler performs is stated in its contract. A deployment
//! keeps this state in its own database; the engine only ever asks for
//! key-addressed reads, upserts and point updates, which this model
//! captures exactly.

use vstd::prelude::*;

use crate::urls::Url;

verus! {

/// An identity capable of issuing activities.
pub struct Person {
    pub id: u64,
    pub actor_id: Url,
    pub inbox: Url,
    pub shared_inbox: Option<Url>,
    pub local: bool,
}

/// A community actor: a group that owns posts and relays activities
/// to its followers.
pub struct Community {
    pub id: u64,
    pub actor_id: Url,
    pub inbox: Url,
    pub shared_inbox: Option<Url>,
    pub local: bool,
    pub name: String,
    pub title: String,
    pub description: Option<String>,
    pub nsfw: bool,
    pub icon: Option<String>,
    pub banner: Option<String>,
    pub removed: bool,
    pub deleted: bool,
}

/// A post within a community.
pub struct Post {
    pub id: u64,
    pub ap_id: Url,
    pub creator_id: u64,
    pub community_id: u64,
    pub name: String,
    pub locked: bool,
    pub stickied: bool,
    pub removed: bool,
    pub deleted: bool,
}

/// A comment on a post.
pub struct Comment {
    pub id: u64,
    pub ap_id: Url,
    pub creator_id: u64,
    pub post_id: u64,
    pub content: String,
    pub removed: bool,
    pub deleted: bool,
}

/// Elevated authority of a person over a community.
#[derive(Clone, Copy, Debug, PartialEq, Eq, Structural)]
pub struct ModeratorRelation {
    pub community_id: u64,
    pub person_id: u64,
}

/// A standing subscription of a person to a community.
#[derive(Clone, Copy, Debug, PartialEq, Eq, Structural)]
pub struct FollowerRelation {
    pub community_id: u64,
    pub person_id: u64,
    pub pending: bool,
}

/// One cast vote: `score` is +1 (like) or -1 (dislike).
#[derive(Clone, Copy, Debug, PartialEq, Eq, Structural)]
pub struct VoteRecord {
    pub person_id: u64,
    pub target_id: u64,
    pub score: i16,
}

/// What a moderation-log entry is about.
#[derive(Clone, Copy, Debug, PartialEq, Eq, Structural)]
pub enum ModLogTarget {
    Community(u64),
    Post(u64),
    Comment(u64),
}

/// A row of the moderation log, recording a moderator removal.
#[derive(Debug, PartialEq)]
pub struct ModLogEntry {
    pub mod_person_id: u64,
    pub target: ModLogTarget,
    pub removed: bool,
    pub reason: Option<String>,
}

/// The record store as the engine sees it.
pub struct Store {
    pub persons: Vec<Person>,
    pub communities: Vec<Community>,
    pub posts: Vec<Post>,
    pub comments: Vec<Comment>,
    pub moderators: Vec<ModeratorRelation>,
    pub followers: Vec<FollowerRelation>,
    pub post_votes: Vec<VoteRecord>,
    pub comment_votes: Vec<VoteRecord>,
    pub mod_log: Vec<ModLogEntry>,
}

impl Store {
    /// No two persons share a canonical identity URL.
    pub open spec fn persons_unique(&self) -> bool {
        forall|i: int, j: int|
            0 <= i < j < self.persons@.len() ==> !#[trigger] self.persons@[i].actor_id.same_as(
                &#[trigger] self.persons@[j].actor_id,
            )
    }

    /// No two communities share a canonical identity URL.
    pub open spec fn communities_unique(&self) -> bool {
        forall|i: int, j: int|
            0 <= i < j < self.communities@.len() ==> !#[trigger] self.communities@[i].actor_id.same_as(
                &#[trigger] self.communities@[j].actor_id,
            )
    }

    /// No two posts share a canonical object URL.
    pub open spec fn posts_unique(&self) -> bool {
        forall|i: int, j: int|
            0 <= i < j < self.posts@.len() ==> !#[trigger] self.posts@[i].ap_id.same_as(
                &#[trigger] self.posts@[j].ap_id,
            )
    }

    /// No two comments share a canonical object URL.
    pub open spec fn comments_unique(&self) -> bool {
        forall|i: int, j: int|
            0 <= i < j < self.comments@.len() ==> !#[trigger] self.comments@[i].ap_id.same_as(
                &#[trigger] self.comments@[j].ap_id,
            )
    }

    /// At most one moderator row per (community, person) pair.
    pub open spec fn moderators_unique(&self) -> bool {
        forall|i: int, j: int|
            0 <= i < j < self.moderators@.len() ==> !(#[trigger] self.moderators@[i].community_id
                == #[trigger] self.moderators@[j].community_id && self.moderators@[i].person_id
                == self.moderators@[j].person_id)
    }

    /// At most one follower row per (community, person) pair.
    pub open spec fn followers_unique(&self) -> bool {
        forall|i: int, j: int|
            0 <= i < j < self.followers@.len() ==> !(#[trigger] self.followers@[i].community_id
                == #[trigger] self.followers@[j].community_id && self.followers@[i].person_id
                == self.followers@[j].person_id)
    }

    /// At most one vote per (person, target) pair, each worth +1 or -1.
    pub open spec fn votes_wf(vs: Seq<VoteRecord>) -> bool {
        &&& forall|i: int, j: int|
            0 <= i < j < vs.len() ==> !(#[trigger] vs[i].person_id == #[trigger] vs[j].person_id
                && vs[i].target_id == vs[j].target_id)
        &&& forall|i: int| 0 <= i < vs.len() ==> (#[trigger] vs[i].score == 1 || vs[i].score == -1)
    }

    /// Well-formedness of the whole store.
    pub open spec fn wf(&self) -> bool {
        &&& self.persons_unique()
        &&& self.communities_unique()
        &&& self.posts_unique()
        &&& self.comments_unique()
        &&& self.moderators_unique()
        &&& self.followers_unique()
        &&& Self::votes_wf(self.post_votes@)
        &&& Self::votes_wf(self.comment_votes@)
    }

    /// Whether some person's canonical URL equals `url`.
    pub open spec fn has_person(&self, url: &Url) -> bool {
        exists|i: int|
            0 <= i < self.persons@.len() && #[trigger] self.persons@[i].actor_id.same_as(url)
    }

    /// Whether some community's canonical URL equals `url`.
    pub open spec fn has_community(&self, url: &Url) -> bool {
        exists|i: int|
            0 <= i < self.communities@.len() && #[trigger] self.communities@[i].actor_id.same_as(url)
    }

    /// Whether some post's canonical URL equals `url`.
    pub open spec fn has_post(&self, url: &Url) -> bool {
        exists|i: int| 0 <= i < self.posts@.len() && #[trigger] self.posts@[i].ap_id.same_as(url)
    }

    /// Whether some comment's canonical URL equals `url`.
    pub open spec fn has_comment(&self, url: &Url) -> bool {
        exists|i: int|
            0 <= i < self.comments@.len() && #[trigger] self.comments@[i].ap_id.same_as(url)
    }

    /// Whether indices (p, c) pick out the person at `actor` and the
    /// community at `community`: the shape every locally-decidable
    /// activity contract quantifies over.
    pub open spec fn local_match(&self, actor: &Url, community: &Url, p: int, c: int) -> bool {
        0 <= p < self.persons@.len() && 0 <= c < self.communities@.len()
            && self.persons@[p].actor_id.same_as(actor) && self.communities@[c].actor_id.same_as(
            community,
        )
    }

    /// Whether `person_id` holds a moderator relation on `community_id`.
    pub open spec fn is_moderator(&self, community_id: u64, person_id: u64) -> bool {
        exists|i: int|
            0 <= i < self.moderators@.len() && #[trigger] self.moderators@[i]
                == (ModeratorRelation { community_id, person_id })
    }

    /// How many moderator rows exist for the (community, person) pair.
    pub open spec fn moderator_count(&self, community_id: u64, person_id: u64) -> nat {
        count_mod_rows(self.moderators@, community_id, person_id)
    }

    /// Whether `person_id` is a confirmed (non-pending) follower of
    /// `community_id`.
    pub open spec fn is_follower(&self, community_id: u64, person_id: u64) -> bool {
        exists|i: int|
            0 <= i < self.followers@.len() && #[trigger] self.followers@[i].community_id
                == community_id && self.followers@[i].person_id == person_id
                && !self.followers@[i].pending
    }

    /// Whether any follower row (pending or not) exists for the pair.
    pub open spec fn has_follower_row(&self, community_id: u64, person_id: u64) -> bool {
        exists|i: int|
            0 <= i < self.followers@.len() && #[trigger] self.followers@[i].community_id
                == community_id && self.followers@[i].person_id == person_id
    }
}

/// How many rows of `ms` are the (cid, pid) moderator relation.
pub open spec fn count_mod_rows(ms: Seq<ModeratorRelation>, cid: u64, pid: u64) -> nat
    decreases ms.len(),
{
    if ms.len() == 0 {
        0
    } else {
        count_mod_rows(ms.drop_last(), cid, pid) + if ms.last() == (ModeratorRelation {
            community_id: cid,
            person_id: pid,
        }) {
            1nat
        } else {
            0nat
        }
    }
}

/// Appending a row raises exactly its own pair's count by one.
pub proof fn lemma_count_mod_push(ms: Seq<ModeratorRelation>, m: ModeratorRelation, cid: u64, pid: u64)
    ensures
        count_mod_rows(ms.push(m), cid, pid) == count_mod_rows(ms, cid, pid) + if m
            == (ModeratorRelation { community_id: cid, person_id: pid }) {
            1nat
        } else {
            0nat
        },
{
    assert(ms.push(m).drop_last() =~= ms);
}

/// A sequence without the pair has count zero.
pub proof fn lemma_count_mod_absent(ms: Seq<ModeratorRelation>, cid: u64, pid: u64)
    requires
        forall|i: int|
            0 <= i < ms.len() ==> #[trigger] ms[i] != (ModeratorRelation {
                community_id: cid,
                person_id: pid,
            }),
    ensures
        count_mod_rows(ms, cid, pid) == 0,
    decreases ms.len(),
{
    if ms.len() > 0 {
        lemma_count_mod_absent(ms.drop_last(), cid, pid);
    }
}

/// In a table with at most one row per pair, a present pair has count
/// exactly one.
pub proof fn lemma_count_mod_unique(ms: Seq<ModeratorRelation>, cid: u64, pid: u64)
    requires
        forall|i: int, j: int|
            0 <= i < j < ms.len() ==> !(#[trigger] ms[i].community_id == #[trigger] ms[j].community_id
                && ms[i].person_id == ms[j].person_id),
        exists|i: int|
            0 <= i < ms.len() && #[trigger] ms[i] == (ModeratorRelation {
                community_id: cid,
                person_id: pid,
            }),
    ensures
        count_mod_rows(ms, cid, pid) == 1,
    decreases ms.len(),
{
    let row = ModeratorRelation { community_id: cid, person_id: pid };
    let k = choose|i: int| 0 <= i < ms.len() && #[trigger] ms[i] == row;
    if k == ms.len() - 1 {
        assert forall|i: int| 0 <= i < ms.drop_last().len() implies #[trigger] ms.drop_last()[i]
            != row by {
            assert(!(ms[i].community_id == ms[k].community_id && ms[i].person_id == ms[k].person_id));
        }
        lemma_count_mod_absent(ms.drop_last(), cid, pid);
    } else {
        assert(ms.drop_last()[k] == row);
        lemma_count_mod_unique(ms.drop_last(), cid, pid);
        assert(!(ms[k].community_id == ms[ms.len() - 1].community_id && ms[k].person_id
            == ms[ms.len() - 1].person_id));
    }
}

/// The aggregate score of `target`: the sum of all its vote scores.
pub open spec fn votes_total(vs: Seq<VoteRecord>, target: u64) -> int
    decreases vs.len(),
{
    if vs.len() == 0 {
        0
    } else {
        votes_total(vs.drop_last(), target) + if vs.last().target_id == target {
            vs.last().score as int
        } else {
            0
        }
    }
}

/// Appending a vote row adds its score to its own target's total and
/// leaves every other target's total unchanged.
pub proof fn lemma_votes_total_push(vs: Seq<VoteRecord>, v: VoteRecord, target: u64)
    ensures
        votes_total(vs.push(v), target) == votes_total(vs, target) + if v.target_id == target {
            v.score as int
        } else {
            0
        },
{
    assert(vs.push(v).drop_last() =~= vs);
}

/// Rewriting the vote row at `i` shifts its target's total by the
/// difference of the scores; other targets are unaffected.
pub proof fn lemma_votes_total_update(vs: Seq<VoteRecord>, i: int, v: VoteRecord, target: u64)
    requires
        0 <= i < vs.len(),
        vs[i].target_id == v.target_id,
    ensures
        votes_total(vs.update(i, v), target) == votes_total(vs, target) + if v.target_id == target {
            v.score - vs[i].score
        } else {
            0
        },
    decreases vs.len(),
{
    let upd = vs.update(i, v);
    if i == vs.len() - 1 {
        assert(upd.drop_last() =~= vs.drop_last());
        assert(upd.last() == v);
    } else {
        assert(upd.drop_last() =~= vs.drop_last().update(i, v));
        assert(upd.last() == vs.last());
        lemma_votes_total_update(vs.drop_last(), i, v, target);
    }
}

impl Store {
    /// Index of the person whose canonical URL equals `url`, if any.
    pub fn find_person(&self, url: &Url) -> (r: Option<usize>)
        ensures
            r matches Some(i) ==> i < self.persons@.len() && self.persons@[i as int].actor_id.same_as(url),
            r is None ==> forall|i: int|
                0 <= i < self.persons@.len() ==> !#[trigger] self.persons@[i].actor_id.same_as(url),
    {
        let n = self.persons.len();
        for i in 0..n
            invariant
                n == self.persons@.len(),
                forall|j: int| 0 <= j < i ==> !#[trigger] self.persons@[j].actor_id.same_as(url),
        {
            if self.persons[i].actor_id.matches(url) {
                return Some(i);
            }
        }
        None
    }

    /// Index of the community whose canonical URL equals `url`, if any.
    pub fn find_community(&self, url: &Url) -> (r: Option<usize>)
        ensures
            r matches Some(i) ==> i < self.communities@.len() && self.communities@[i as int].actor_id.same_as(url),
            r is None ==> forall|i: int|
                0 <= i < self.communities@.len() ==> !#[trigger] self.communities@[i].actor_id.same_as(url),
    {
        let n = self.communities.len();
        for i in 0..n
            invariant
                n == self.communities@.len(),
                forall|j: int| 0 <= j < i ==> !#[trigger] self.communities@[j].actor_id.same_as(url),
        {
            if self.communities[i].actor_id.matches(url) {
                return Some(i);
            }
        }
        None
    }

    /// Index of the post whose canonical URL equals `url`, if any.
    pub fn find_post(&self, url: &Url) -> (r: Option<usize>)
        ensures
            r matches Some(i) ==> i < self.posts@.len() && self.posts@[i as int].ap_id.same_as(url),
            r is None ==> forall|i: int|
                0 <= i < self.posts@.len() ==> !#[trigger] self.posts@[i].ap_id.same_as(url),
    {
        let n = self.posts.len();
        for i in 0..n
            invariant
                n == self.posts@.len(),
                forall|j: int| 0 <= j < i ==> !#[trigger] self.posts@[j].ap_id.same_as(url),
        {
            if self.posts[i].ap_id.matches(url) {
                return Some(i);
            }
        }
        None
    }

    /// Index of the comment whose canonical URL equals `url`, if any.
    pub fn find_comment(&self, url: &Url) -> (r: Option<usize>)
        ensures
            r matches Some(i) ==> i < self.comments@.len() && self.comments@[i as int].ap_id.same_as(url),
            r is None ==> forall|i: int|
                0 <= i < self.comments@.len() ==> !#[trigger] self.comments@[i].ap_id.same_as(url),
    {
        let n = self.comments.len();
        for i in 0..n
            invariant
                n == self.comments@.len(),
                forall|j: int| 0 <= j < i ==> !#[trigger] self.comments@[j].ap_id.same_as(url),
        {
            if self.comments[i].ap_id.matches(url) {
                return Some(i);
            }
        }
        None
    }

    /// Index of the first community whose numeric id is `id`, if any.
    pub fn find_community_by_id(&self, id: u64) -> (r: Option<usize>)
        ensures
            r matches Some(i) ==> i < self.communities@.len() && self.communities@[i as int].id
                == id,
            r is None ==> forall|i: int|
                0 <= i < self.communities@.len() ==> #[trigger] self.communities@[i].id != id,
    {
        let n = self.communities.len();
        for i in 0..n
            invariant
                n == self.communities@.len(),
                forall|j: int| 0 <= j < i ==> #[trigger] self.communities@[j].id != id,
        {
            if self.communities[i].id == id {
                return Some(i);
            }
        }
        None
    }

    /// Index of the moderator row for the (community, person) pair.
    pub fn find_moderator(&self, community_id: u64, person_id: u64) -> (r: Option<usize>)
        ensures
            r matches Some(i) ==> i < self.moderators@.len() && self.moderators@[i as int]
                == (ModeratorRelation { community_id, person_id }),
            r is None ==> !self.is_moderator(community_id, person_id),
            r is Some <==> self.is_moderator(community_id, person_id),
    {
        let n = self.moderators.len();
        for i in 0..n
            invariant
                n == self.moderators@.len(),
                forall|j: int|
                    0 <= j < i ==> #[trigger] self.moderators@[j] != (ModeratorRelation {
                        community_id,
                        person_id,
                    }),
        {
            let m = self.moderators[i];
            if m.community_id == community_id && m.person_id == person_id {
                return Some(i);
            }
        }
        None
    }

    /// Index of any follower row for the (community, person) pair.
    pub fn find_follower(&self, community_id: u64, person_id: u64) -> (r: Option<usize>)
        ensures
            r matches Some(i) ==> i < self.followers@.len() && self.followers@[i as int].community_id
                == community_id && self.followers@[i as int].person_id == person_id,
            r is Some <==> self.has_follower_row(community_id, person_id),
    {
        let n = self.followers.len();
        for i in 0..n
            invariant
                n == self.followers@.len(),
                forall|j: int|
                    0 <= j < i ==> !(#[trigger] self.followers@[j].community_id == community_id
                        && self.followers@[j].person_id == person_id),
        {
            let f = self.followers[i];
            if f.community_id == community_id && f.person_id == person_id {
                return Some(i);
            }
        }
        None
    }

    /// Whether `person_id` is a confirmed member of `community_id`.
    pub fn member_check(&self, community_id: u64, person_id: u64) -> (r: bool)
        ensures
            r == self.is_follower(community_id, person_id),
    {
        let n = self.followers.len();
        for i in 0..n
            invariant
                n == self.followers@.len(),
                forall|j: int|
                    0 <= j < i ==> !(#[trigger] self.followers@[j].community_id == community_id
                        && self.followers@[j].person_id == person_id && !self.followers@[j].pending),
        {
            let f = self.followers[i];
            if f.community_id == community_id && f.person_id == person_id && !f.pending {
                return true;
            }
        }
        false
    }

    /// Index of the vote row in `vs` cast by `person_id` on `target_id`.
    fn find_vote_in(vs: &Vec<VoteRecord>, person_id: u64, target_id: u64) -> (r: Option<usize>)
        ensures
            r matches Some(i) ==> i < vs@.len() && vs@[i as int].person_id == person_id
                && vs@[i as int].target_id == target_id,
            r is None ==> forall|i: int|
                0 <= i < vs@.len() ==> !(#[trigger] vs@[i].person_id == person_id && vs@[i].target_id
                    == target_id),
    {
        let n = vs.len();
        for i in 0..n
            invariant
                n == vs@.len(),
                forall|j: int|
                    0 <= j < i ==> !(#[trigger] vs@[j].person_id == person_id && vs@[j].target_id
                        == target_id),
        {
            let v = vs[i];
            if v.person_id == person_id && v.target_id == target_id {
                return Some(i);
            }
        }
        None
    }

    /// Index of the post-vote row cast by `person_id` on `target_id`.
    pub fn find_post_vote(&self, person_id: u64, target_id: u64) -> (r: Option<usize>)
        ensures
            r matches Some(i) ==> i < self.post_votes@.len() && self.post_votes@[i as int].person_id
                == person_id && self.post_votes@[i as int].target_id == target_id,
            r is None ==> forall|i: int|
                0 <= i < self.post_votes@.len() ==> !(#[trigger] self.post_votes@[i].person_id
                    == person_id && self.post_votes@[i].target_id == target_id),
    {
        Self::find_vote_in(&self.post_votes, person_id, target_id)
    }

    /// Index of the comment-vote row cast by `person_id` on `target_id`.
    pub fn find_comment_vote(&self, person_id: u64, target_id: u64) -> (r: Option<usize>)
        ensures
            r matches Some(i) ==> i < self.comment_votes@.len() && self.comment_votes@[i as int].person_id
                == person_id && self.comment_votes@[i as int].target_id == target_id,
            r is None ==> forall|i: int|
                0 <= i < self.comment_votes@.len() ==> !(#[trigger] self.comment_votes@[i].person_id
                    == person_id && self.comment_votes@[i].target_id == target_id),
    {
        Self::find_vote_in(&self.comment_votes, person_id, target_id)
    }
}

impl Clone for Person {
    fn clone(&self) -> (r: Self)
        ensures
            r == *self,
    {
        Person {
            id: self.id,
            actor_id: self.actor_id.clone(),
            inbox: self.inbox.clone(),
            shared_inbox: match &self.shared_inbox {
                Some(u) => Some(u.clone()),
                None => None,
            },
            local: self.local,
        }
    }
}

impl Clone for Community {
    fn clone(&self) -> (r: Self)
        ensures
            r == *self,
    {
        Community {
            id: self.id,
            actor_id: self.actor_id.clone(),
            inbox: self.inbox.clone(),
            shared_inbox: match &self.shared_inbox {
                Some(u) => Some(u.clone()),
                None => None,
            },
            local: self.local,
            name: self.name.clone(),
            title: self.title.clone(),
            description: match &self.description {
                Some(d) => Some(d.clone()),
                None => None,
            },
            nsfw: self.nsfw,
            icon: match &self.icon {
                Some(d) => Some(d.clone()),
                None => None,
            },
            banner: match &self.banner {
                Some(d) => Some(d.clone()),
                None => None,
            },
            removed: self.removed,
            deleted: self.deleted,
        }
    }
}

impl Clone for Post {
    fn clone(&self) -> (r: Self)
        ensures
            r == *self,
    {
        Post {
            id: self.id,
            ap_id: self.ap_id.clone(),
            creator_id: self.creator_id,
            community_id: self.community_id,
            name: self.name.clone(),
            locked: self.locked,
            stickied: self.stickied,
            removed: self.removed,
            deleted: self.deleted,
        }
    }
}

impl Clone for Comment {
    fn clone(&self) -> (r: Self)
        ensures
            r == *self,
    {
        Comment {
            id: self.id,
            ap_id: self.ap_id.clone(),
            creator_id: self.creator_id,
            post_id: self.post_id,
            content: self.content.clone(),
            removed: self.removed,
            deleted: self.deleted,
        }
    }
}

impl Person {
    /// The shared inbox where one exists, else the direct inbox; the
    /// fan-out set for deliveries to this actor.
    pub open spec fn spec_shared_inbox_or_inbox(&self) -> Url {
        match self.shared_inbox {
            Some(u) => u,
            None => self.inbox,
        }
    }

    /// Delivery endpoint: the shared inbox if present, else the inbox.
    pub fn get_shared_inbox_or_inbox_url(&self) -> (r: Url)
        ensures
            r == self.spec_shared_inbox_or_inbox(),
    {
        match &self.shared_inbox {
            Some(u) => u.clone(),
            None => self.inbox.clone(),
        }
    }
}

impl Community {
    /// The shared inbox where one exists, else the direct inbox.
    pub open spec fn spec_shared_inbox_or_inbox(&self) -> Url {
        match self.shared_inbox {
            Some(u) => u,
            None => self.inbox,
        }
    }

    /// Delivery endpoint: the shared inbox if present, else the inbox.
    pub fn get_shared_inbox_or_inbox_url(&self) -> (r: Url)
        ensures
            r == self.spec_shared_inbox_or_inbox(),
    {
        match &self.shared_inbox {
            Some(u) => u.clone(),
            None => self.inbox.clone(),
        }
    }
}

} // verus!
