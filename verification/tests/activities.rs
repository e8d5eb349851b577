use apub_engine::activities::add_mod::AddMod;
use apub_engine::activities::create_or_update_post::{CreateOrUpdatePost, Page};
use apub_engine::activities::delete::Delete;
use apub_engine::activities::undo_follow::UndoFollowCommunity;
use apub_engine::activities::update_community::{Group, UpdateCommunity};
use apub_engine::activities::vote::{vote_post, Vote, VoteType};
use apub_engine::budget::RequestBudget;
use apub_engine::checks::{generate_moderators_url, instance_allowed, protocol_context};
use apub_engine::dispatch::{receive_activity, InboundActivity};
use apub_engine::envelope::{AddType, CreateOrUpdateType, PublicMarker, UpdateType, Unparsed};
use apub_engine::model::{
    Comment, Community, FollowerRelation, ModLogTarget, ModeratorRelation, Person, Post, Store,
    VoteRecord,
};
use apub_engine::queue::{generate_activity_id, send_to_community};
use apub_engine::resolve::RemoteObjects;
use apub_engine::settings::{FederationConfig, Settings};
use apub_engine::urls::{parse_url, Url};
use apub_engine::{ActivityError, ResolveError, UserOperationCrud, VerifyFail};

fn url(d: &str, p: &str) -> Url {
    Url {
        domain: d.to_string(),
        path: p.to_string(),
    }
}

fn person(id: u64, domain: &str, name: &str, local: bool) -> Person {
    Person {
        id,
        actor_id: url(domain, &format!("/u/{}", name)),
        inbox: url(domain, &format!("/u/{}/inbox", name)),
        shared_inbox: None,
        local,
    }
}

fn community(id: u64, domain: &str, name: &str, local: bool) -> Community {
    Community {
        id,
        actor_id: url(domain, &format!("/c/{}", name)),
        inbox: url(domain, &format!("/c/{}/inbox", name)),
        shared_inbox: Some(url(domain, "/inbox")),
        local,
        name: name.to_string(),
        title: name.to_string(),
        description: None,
        nsfw: false,
        icon: None,
        banner: None,
        removed: false,
        deleted: false,
    }
}

fn post(id: u64, domain: &str, creator_id: u64, community_id: u64) -> Post {
    Post {
        id,
        ap_id: url(domain, &format!("/post/{}", id)),
        creator_id,
        community_id,
        name: format!("post {}", id),
        locked: false,
        stickied: false,
        removed: false,
        deleted: false,
    }
}

fn empty_store() -> Store {
    Store {
        persons: vec![],
        communities: vec![],
        posts: vec![],
        comments: vec![],
        moderators: vec![],
        followers: vec![],
        post_votes: vec![],
        comment_votes: vec![],
        mod_log: vec![],
    }
}

fn empty_remote() -> RemoteObjects {
    RemoteObjects {
        persons: vec![],
        communities: vec![],
        posts: vec![],
        comments: vec![],
    }
}

fn settings() -> Settings {
    let mut s = Settings::default();
    s.hostname = "home.example".to_string();
    s
}

/// A store where person 1 moderates and follows community 1, and
/// person 2 follows it.
fn store_with_mod() -> Store {
    let mut s = empty_store();
    s.communities.push(community(1, "far.example", "rust", false));
    s.persons.push(person(1, "far.example", "alice", false));
    s.persons.push(person(2, "far.example", "bob", false));
    s.moderators.push(ModeratorRelation {
        community_id: 1,
        person_id: 1,
    });
    s.followers.push(FollowerRelation {
        community_id: 1,
        person_id: 1,
        pending: false,
    });
    s.followers.push(FollowerRelation {
        community_id: 1,
        person_id: 2,
        pending: false,
    });
    s
}

fn mod_count(s: &Store, cid: u64, pid: u64) -> usize {
    s.moderators
        .iter()
        .filter(|m| m.community_id == cid && m.person_id == pid)
        .count()
}

fn post_score(s: &Store, target: u64) -> i64 {
    s.post_votes
        .iter()
        .filter(|v| v.target_id == target)
        .map(|v| v.score as i64)
        .sum()
}

#[test]
fn add_mod_received_twice_leaves_one_row() {
    let mut store = store_with_mod();
    let remote = empty_remote();
    let cfg = settings();
    let comm = store.communities[0].clone();
    let alice = store.persons[0].clone();
    let bob = store.persons[1].clone();
    for _ in 0..2 {
        let (envelope, _plan) = AddMod::send(&comm, &bob, &alice, &cfg, "aaa");
        let mut budget = RequestBudget::new(4);
        let r = receive_activity(
            InboundActivity::AddMod(envelope),
            &mut store,
            &remote,
            &cfg,
            &mut budget,
        );
        assert!(r.is_ok());
    }
    assert_eq!(mod_count(&store, 1, 2), 1);
    assert_eq!(store.moderators.len(), 2);
}

#[test]
fn add_mod_needs_moderator_authority() {
    let mut store = store_with_mod();
    store.moderators.clear();
    let remote = empty_remote();
    let cfg = settings();
    let comm = store.communities[0].clone();
    let alice = store.persons[0].clone();
    let bob = store.persons[1].clone();
    let (envelope, _) = AddMod::send(&comm, &bob, &alice, &cfg, "aaa");
    let mut budget = RequestBudget::new(4);
    let r = envelope.verify(&mut store, &remote, &cfg, &mut budget);
    assert_eq!(
        r,
        Err(ActivityError::VerificationFailed(VerifyFail::NotAModerator))
    );
}

#[test]
fn add_mod_needs_membership() {
    let mut store = store_with_mod();
    store.followers.clear();
    let remote = empty_remote();
    let cfg = settings();
    let comm = store.communities[0].clone();
    let alice = store.persons[0].clone();
    let bob = store.persons[1].clone();
    let (envelope, _) = AddMod::send(&comm, &bob, &alice, &cfg, "aaa");
    let mut budget = RequestBudget::new(4);
    let r = envelope.verify(&mut store, &remote, &cfg, &mut budget);
    assert_eq!(
        r,
        Err(ActivityError::VerificationFailed(VerifyFail::NotAMember))
    );
}

#[test]
fn add_mod_rejects_wrong_target() {
    let mut store = store_with_mod();
    let remote = empty_remote();
    let cfg = settings();
    let comm = store.communities[0].clone();
    let alice = store.persons[0].clone();
    let bob = store.persons[1].clone();
    let (mut envelope, _) = AddMod::send(&comm, &bob, &alice, &cfg, "aaa");
    envelope.target = url("far.example", "/c/rust/followers");
    let mut budget = RequestBudget::new(4);
    let r = envelope.verify(&mut store, &remote, &cfg, &mut budget);
    assert_eq!(
        r,
        Err(ActivityError::VerificationFailed(
            VerifyFail::InvalidModeratorsTarget
        ))
    );
}

#[test]
fn blocked_instance_is_refused() {
    let mut store = store_with_mod();
    let remote = empty_remote();
    let mut cfg = settings();
    cfg.federation.blocked_instances = Some(vec!["evil.example".to_string()]);
    let comm = store.communities[0].clone();
    let alice = store.persons[0].clone();
    let bob = store.persons[1].clone();
    let (mut envelope, _) = AddMod::send(&comm, &bob, &alice, &cfg, "aaa");
    envelope.id = url("evil.example", "/activities/add/aaa");
    let mut budget = RequestBudget::new(4);
    let r = envelope.verify(&mut store, &remote, &cfg, &mut budget);
    assert_eq!(
        r,
        Err(ActivityError::VerificationFailed(
            VerifyFail::InstanceNotAllowed
        ))
    );
}

#[test]
fn wrong_context_is_refused() {
    let mut store = store_with_mod();
    let remote = empty_remote();
    let cfg = settings();
    let comm = store.communities[0].clone();
    let alice = store.persons[0].clone();
    let bob = store.persons[1].clone();
    let (mut envelope, _) = AddMod::send(&comm, &bob, &alice, &cfg, "aaa");
    envelope.context = url("www.w3.org", "/ns/something-else");
    let mut budget = RequestBudget::new(4);
    let r = envelope.verify(&mut store, &remote, &cfg, &mut budget);
    assert_eq!(
        r,
        Err(ActivityError::VerificationFailed(VerifyFail::WrongContext))
    );
}

#[test]
fn update_community_rewrites_descriptive_fields() {
    let mut store = store_with_mod();
    let envelope = UpdateCommunity {
        actor: store.persons[0].actor_id.clone(),
        to: PublicMarker::Public,
        object: Group {
            name: "rust".to_string(),
            title: "The Rust Community".to_string(),
            description: Some("all about rust".to_string()),
            nsfw: true,
            icon: None,
            banner: None,
        },
        cc: store.communities[0].actor_id.clone(),
        kind: UpdateType::Update,
        id: url("home.example", "/activities/update/bbb"),
        context: protocol_context(),
        unparsed: Unparsed { fields: vec![] },
    };
    let mut budget = RequestBudget::new(0);
    let r = envelope.receive(&mut store, &mut budget);
    assert_eq!(r, Ok(UserOperationCrud::EditCommunity));
    assert_eq!(store.communities[0].title, "The Rust Community");
    assert_eq!(
        store.communities[0].description,
        Some("all about rust".to_string())
    );
    assert!(store.communities[0].nsfw);
    assert_eq!(store.communities[0].id, 1);
    assert!(!store.communities[0].removed);
}

#[test]
fn delete_without_summary_never_logs() {
    let mut store = store_with_mod();
    store.posts.push(post(7, "far.example", 1, 1));
    let remote = empty_remote();
    let cfg = settings();
    let comm = store.communities[0].clone();
    let alice = store.persons[0].clone();
    let object_id = store.posts[0].ap_id.clone();
    let (envelope, _) = Delete::send(&alice, &comm, object_id, None, &cfg, "ccc");
    let mut budget = RequestBudget::new(4);
    let r = envelope.receive(&mut store, &remote, &mut budget);
    assert_eq!(r, Ok(UserOperationCrud::DeletePost));
    assert!(store.mod_log.is_empty());
    assert!(store.posts[0].deleted);
    assert!(!store.posts[0].removed);
}

#[test]
fn remove_with_empty_reason_logs_no_reason() {
    let mut store = store_with_mod();
    store.posts.push(post(7, "far.example", 1, 1));
    let remote = empty_remote();
    let cfg = settings();
    let comm = store.communities[0].clone();
    let alice = store.persons[0].clone();
    let object_id = store.posts[0].ap_id.clone();
    let (envelope, _) = Delete::send(&alice, &comm, object_id, Some(String::new()), &cfg, "ccc");
    let mut budget = RequestBudget::new(4);
    let r = envelope.receive(&mut store, &remote, &mut budget);
    assert_eq!(r, Ok(UserOperationCrud::RemovePost));
    assert_eq!(store.mod_log.len(), 1);
    assert_eq!(store.mod_log[0].reason, None);
    assert_eq!(store.mod_log[0].target, ModLogTarget::Post(7));
    assert!(store.mod_log[0].removed);
    assert!(store.posts[0].removed);
    assert!(!store.posts[0].deleted);
}

#[test]
fn remove_with_reason_logs_it() {
    let mut store = store_with_mod();
    store.posts.push(post(7, "far.example", 1, 1));
    let remote = empty_remote();
    let cfg = settings();
    let comm = store.communities[0].clone();
    let alice = store.persons[0].clone();
    let object_id = store.posts[0].ap_id.clone();
    let (envelope, _) = Delete::send(
        &alice,
        &comm,
        object_id,
        Some("spam".to_string()),
        &cfg,
        "ccc",
    );
    let mut budget = RequestBudget::new(4);
    let r = envelope.receive(&mut store, &remote, &mut budget);
    assert_eq!(r, Ok(UserOperationCrud::RemovePost));
    assert_eq!(store.mod_log.len(), 1);
    assert_eq!(store.mod_log[0].reason, Some("spam".to_string()));
}

#[test]
fn remove_of_local_community_is_always_rejected() {
    let mut store = store_with_mod();
    store.communities[0].local = true;
    let remote = empty_remote();
    let cfg = settings();
    let comm = store.communities[0].clone();
    let alice = store.persons[0].clone();
    let object_id = comm.actor_id.clone();
    let (envelope, _) = Delete::send(
        &alice,
        &comm,
        object_id,
        Some("takeover".to_string()),
        &cfg,
        "ccc",
    );
    let mut budget = RequestBudget::new(4);
    let r = envelope.receive(&mut store, &remote, &mut budget);
    assert_eq!(
        r,
        Err(ActivityError::VerificationFailed(
            VerifyFail::LocalCommunityRemoval
        ))
    );
    assert!(store.mod_log.is_empty());
    assert!(!store.communities[0].removed);
}

#[test]
fn remove_of_remote_community_succeeds() {
    let mut store = store_with_mod();
    let remote = empty_remote();
    let cfg = settings();
    let comm = store.communities[0].clone();
    let alice = store.persons[0].clone();
    let object_id = comm.actor_id.clone();
    let (envelope, _) = Delete::send(
        &alice,
        &comm,
        object_id,
        Some("abandoned".to_string()),
        &cfg,
        "ccc",
    );
    let mut budget = RequestBudget::new(4);
    let r = envelope.receive(&mut store, &remote, &mut budget);
    assert_eq!(r, Ok(UserOperationCrud::RemoveCommunity));
    assert_eq!(store.mod_log.len(), 1);
    assert_eq!(store.mod_log[0].target, ModLogTarget::Community(1));
    assert!(store.communities[0].removed);
}

#[test]
fn same_vote_twice_counts_once() {
    let mut store = store_with_mod();
    store.posts.push(post(7, "far.example", 1, 1));
    assert!(vote_post(&VoteType::Like, 2, 0, &mut store).is_ok());
    assert_eq!(post_score(&store, 7), 1);
    assert!(vote_post(&VoteType::Like, 2, 0, &mut store).is_ok());
    assert_eq!(post_score(&store, 7), 1);
    assert_eq!(store.post_votes.len(), 1);
}

#[test]
fn opposite_vote_moves_score_by_two() {
    let mut store = store_with_mod();
    store.posts.push(post(7, "far.example", 1, 1));
    assert!(vote_post(&VoteType::Like, 2, 0, &mut store).is_ok());
    assert_eq!(post_score(&store, 7), 1);
    assert!(vote_post(&VoteType::Dislike, 2, 0, &mut store).is_ok());
    assert_eq!(post_score(&store, 7), -1);
    assert_eq!(store.post_votes.len(), 1);
}

#[test]
fn vote_envelope_reaches_the_post() {
    let mut store = store_with_mod();
    store.posts.push(post(7, "far.example", 1, 1));
    let remote = empty_remote();
    let cfg = settings();
    let envelope = Vote::new(
        &store.posts[0].ap_id.clone(),
        &store.persons[1].clone(),
        &store.communities[0].clone(),
        VoteType::Dislike,
        &cfg,
        "ddd",
    );
    let mut budget = RequestBudget::new(4);
    let r = receive_activity(
        InboundActivity::Vote(envelope),
        &mut store,
        &remote,
        &cfg,
        &mut budget,
    );
    assert!(r.is_ok());
    assert_eq!(post_score(&store, 7), -1);
    assert_eq!(
        store.post_votes[0],
        VoteRecord {
            person_id: 2,
            target_id: 7,
            score: -1
        }
    );
}

#[test]
fn vote_type_conversions() {
    assert_eq!(VoteType::try_from(1), Ok(VoteType::Like));
    assert_eq!(VoteType::try_from(-1), Ok(VoteType::Dislike));
    assert_eq!(VoteType::try_from(0), Err(ActivityError::InvalidVoteValue));
    assert_eq!(VoteType::try_from(5), Err(ActivityError::InvalidVoteValue));
    assert_eq!(VoteType::Like.score(), 1);
    assert_eq!(VoteType::Dislike.score(), -1);
}

#[test]
fn unfollow_without_relation_is_a_quiet_noop() {
    let mut store = store_with_mod();
    store.followers.clear();
    let remote = empty_remote();
    let cfg = settings();
    let alice = store.persons[0].clone();
    let comm = store.communities[0].clone();
    let (envelope, _) = UndoFollowCommunity::send(&alice, &comm, &cfg, "fff", "uuu");
    let mut budget = RequestBudget::new(4);
    let r = envelope.receive(&mut store, &remote, &mut budget);
    assert_eq!(r, Ok(()));
    assert!(store.followers.is_empty());
}

#[test]
fn unfollow_removes_only_the_one_relation() {
    let mut store = store_with_mod();
    let remote = empty_remote();
    let cfg = settings();
    let alice = store.persons[0].clone();
    let comm = store.communities[0].clone();
    let (envelope, _) = UndoFollowCommunity::send(&alice, &comm, &cfg, "fff", "uuu");
    let mut budget = RequestBudget::new(4);
    let r = envelope.receive(&mut store, &remote, &mut budget);
    assert_eq!(r, Ok(()));
    assert_eq!(store.followers.len(), 1);
    assert_eq!(store.followers[0].person_id, 2);
}

#[test]
fn undo_follow_spoof_is_rejected() {
    let mut store = store_with_mod();
    let remote = empty_remote();
    let cfg = settings();
    let alice = store.persons[0].clone();
    let comm = store.communities[0].clone();
    let (mut envelope, _) = UndoFollowCommunity::send(&alice, &comm, &cfg, "fff", "uuu");
    envelope.object.actor = store.persons[1].actor_id.clone();
    let mut budget = RequestBudget::new(4);
    let r = envelope.verify(&mut store, &remote, &cfg, &mut budget);
    assert_eq!(
        r,
        Err(ActivityError::VerificationFailed(VerifyFail::UrlMismatch))
    );
}

#[test]
fn budget_of_one_stops_a_second_fetch() {
    let mut store = empty_store();
    let comm = community(1, "far.example", "rust", false);
    let bob = person(2, "far.example", "bob", false);
    let remote = RemoteObjects {
        persons: vec![(bob.actor_id.clone(), bob.clone())],
        communities: vec![(comm.actor_id.clone(), comm.clone())],
        posts: vec![],
        comments: vec![],
    };
    let envelope = AddMod {
        actor: url("far.example", "/u/alice"),
        to: PublicMarker::Public,
        object: bob.actor_id.clone(),
        target: generate_moderators_url(&comm.actor_id),
        cc: comm.actor_id.clone(),
        kind: AddType::Add,
        id: url("far.example", "/activities/add/x"),
        context: protocol_context(),
        unparsed: Unparsed { fields: vec![] },
    };
    let mut budget = RequestBudget::new(1);
    let r = envelope.receive(&mut store, &remote, &mut budget);
    assert_eq!(
        r,
        Err(ActivityError::ResolveFailed(ResolveError::BudgetExhausted))
    );
    assert_eq!(budget.used, 1);
}

#[test]
fn resolved_objects_are_cached() {
    let mut store = empty_store();
    let comm = community(1, "far.example", "rust", false);
    let bob = person(2, "far.example", "bob", false);
    let remote = RemoteObjects {
        persons: vec![(bob.actor_id.clone(), bob.clone())],
        communities: vec![(comm.actor_id.clone(), comm.clone())],
        posts: vec![],
        comments: vec![],
    };
    let make = || AddMod {
        actor: url("far.example", "/u/alice"),
        to: PublicMarker::Public,
        object: bob.actor_id.clone(),
        target: generate_moderators_url(&comm.actor_id),
        cc: comm.actor_id.clone(),
        kind: AddType::Add,
        id: url("far.example", "/activities/add/x"),
        context: protocol_context(),
        unparsed: Unparsed { fields: vec![] },
    };
    let mut budget = RequestBudget::new(2);
    assert!(make().receive(&mut store, &remote, &mut budget).is_ok());
    assert_eq!(budget.used, 2);
    assert_eq!(store.communities.len(), 1);
    assert_eq!(store.persons.len(), 1);
    // A second delivery finds everything cached: no budget is needed.
    let mut fresh = RequestBudget::new(0);
    assert!(make().receive(&mut store, &remote, &mut fresh).is_ok());
    assert_eq!(fresh.used, 0);
    assert_eq!(mod_count(&store, 1, 2), 1);
}

#[test]
fn spoofed_fetch_is_rejected() {
    let mut store = empty_store();
    // The remote answers the fetch with an object claiming an id under
    // another domain.
    let impostor = person(9, "other.example", "mallory", false);
    let asked = url("far.example", "/u/mallory");
    let remote = RemoteObjects {
        persons: vec![(asked.clone(), impostor)],
        communities: vec![],
        posts: vec![],
        comments: vec![],
    };
    let mut budget = RequestBudget::new(4);
    let r = apub_engine::resolve::resolve_person(&mut store, &remote, &mut budget, &asked);
    assert_eq!(r, Err(ResolveError::DomainMismatch));
    assert!(store.persons.is_empty());
}

#[test]
fn new_local_post_cannot_arrive_stickied() {
    let mut store = store_with_mod();
    store.communities[0].local = true;
    let remote = empty_remote();
    let cfg = settings();
    let envelope = CreateOrUpdatePost {
        actor: store.persons[0].actor_id.clone(),
        to: PublicMarker::Public,
        object: Page {
            id: url("far.example", "/post/50"),
            attributed_to: store.persons[0].actor_id.clone(),
            name: "hello".to_string(),
            stickied: Some(true),
            comments_enabled: Some(true),
        },
        cc: store.communities[0].actor_id.clone(),
        kind: CreateOrUpdateType::Create,
        id: url("far.example", "/activities/create/x"),
        context: protocol_context(),
        unparsed: Unparsed { fields: vec![] },
    };
    let mut budget = RequestBudget::new(4);
    let r = envelope.verify(&mut store, &remote, &cfg, &mut budget);
    assert_eq!(
        r,
        Err(ActivityError::VerificationFailed(
            VerifyFail::NewPostRestricted
        ))
    );
}

#[test]
fn create_post_is_pinned_to_its_author() {
    let mut store = store_with_mod();
    let remote = empty_remote();
    let cfg = settings();
    let envelope = CreateOrUpdatePost {
        actor: store.persons[0].actor_id.clone(),
        to: PublicMarker::Public,
        object: Page {
            id: url("far.example", "/post/50"),
            attributed_to: store.persons[1].actor_id.clone(),
            name: "hello".to_string(),
            stickied: None,
            comments_enabled: None,
        },
        cc: store.communities[0].actor_id.clone(),
        kind: CreateOrUpdateType::Create,
        id: url("far.example", "/activities/create/x"),
        context: protocol_context(),
        unparsed: Unparsed { fields: vec![] },
    };
    let mut budget = RequestBudget::new(4);
    let r = envelope.verify(&mut store, &remote, &cfg, &mut budget);
    assert_eq!(
        r,
        Err(ActivityError::VerificationFailed(VerifyFail::UrlMismatch))
    );
}

#[test]
fn create_post_receive_inserts_it() {
    let mut store = store_with_mod();
    let remote = empty_remote();
    let envelope = CreateOrUpdatePost {
        actor: store.persons[0].actor_id.clone(),
        to: PublicMarker::Public,
        object: Page {
            id: url("far.example", "/post/50"),
            attributed_to: store.persons[0].actor_id.clone(),
            name: "hello".to_string(),
            stickied: None,
            comments_enabled: None,
        },
        cc: store.communities[0].actor_id.clone(),
        kind: CreateOrUpdateType::Create,
        id: url("far.example", "/activities/create/x"),
        context: protocol_context(),
        unparsed: Unparsed { fields: vec![] },
    };
    let mut budget = RequestBudget::new(4);
    let r = envelope.receive(&mut store, &remote, &mut budget);
    assert_eq!(r, Ok(UserOperationCrud::CreatePost));
    assert_eq!(store.posts.len(), 1);
    assert_eq!(store.posts[0].name, "hello");
    assert_eq!(store.posts[0].creator_id, 1);
    assert_eq!(store.posts[0].community_id, 1);
    assert!(!store.posts[0].stickied);
}

#[test]
fn sticky_toggle_needs_moderator() {
    let mut store = store_with_mod();
    store.posts.push(post(7, "far.example", 2, 1));
    let remote = empty_remote();
    let cfg = settings();
    let make = |actor: &Person| CreateOrUpdatePost {
        actor: actor.actor_id.clone(),
        to: PublicMarker::Public,
        object: Page {
            id: url("far.example", "/post/7"),
            attributed_to: actor.actor_id.clone(),
            name: "post 7".to_string(),
            stickied: Some(true),
            comments_enabled: Some(true),
        },
        cc: url("far.example", "/c/rust"),
        kind: CreateOrUpdateType::Update,
        id: url("far.example", "/activities/update/x"),
        context: protocol_context(),
        unparsed: Unparsed { fields: vec![] },
    };
    let bob = store.persons[1].clone();
    let mut budget = RequestBudget::new(4);
    let r = make(&bob).verify(&mut store, &remote, &cfg, &mut budget);
    assert_eq!(
        r,
        Err(ActivityError::VerificationFailed(VerifyFail::NotAModerator))
    );
    let alice = store.persons[0].clone();
    let mut budget2 = RequestBudget::new(4);
    let r2 = make(&alice).verify(&mut store, &remote, &cfg, &mut budget2);
    assert_eq!(r2, Ok(()));
}

#[test]
fn failed_verification_mutates_nothing() {
    let mut store = store_with_mod();
    store.moderators.clear();
    let remote = empty_remote();
    let cfg = settings();
    let comm = store.communities[0].clone();
    let alice = store.persons[0].clone();
    let bob = store.persons[1].clone();
    let (envelope, _) = AddMod::send(&comm, &bob, &alice, &cfg, "aaa");
    let mut budget = RequestBudget::new(4);
    let r = receive_activity(
        InboundActivity::AddMod(envelope),
        &mut store,
        &remote,
        &cfg,
        &mut budget,
    );
    assert!(r.is_err());
    assert!(store.moderators.is_empty());
    assert!(store.mod_log.is_empty());
}

#[test]
fn moderators_collection_url_shape() {
    let m = generate_moderators_url(&url("far.example", "/c/rust"));
    assert_eq!(m.domain, "far.example");
    assert_eq!(m.path, "/c/rust/moderators");
}

#[test]
fn activity_ids_carry_origin_and_kind() {
    let id = generate_activity_id("add", &"home.example".to_string(), "0f3a");
    assert_eq!(id.domain, "home.example");
    assert_eq!(id.path, "/activities/add/0f3a");
}

#[test]
fn urls_parse_into_domain_and_path() {
    let u = parse_url("https://far.example/u/alice").unwrap();
    assert_eq!(u.domain, "far.example");
    assert_eq!(u.path, "/u/alice");
    assert!(parse_url("not a url").is_none());
    assert!(parse_url("data:text/plain,hi").is_none());
}

#[test]
fn federation_policy_lists() {
    let mut fed = FederationConfig::default();
    fed.allowed_instances = Some(vec!["friend.example".to_string()]);
    fed.strict_allowlist = true;
    assert!(instance_allowed(&fed, &"friend.example".to_string()));
    assert!(!instance_allowed(&fed, &"stranger.example".to_string()));
    fed.strict_allowlist = false;
    assert!(instance_allowed(&fed, &"stranger.example".to_string()));
    fed.blocked_instances = Some(vec!["stranger.example".to_string()]);
    assert!(!instance_allowed(&fed, &"stranger.example".to_string()));
}

#[test]
fn settings_defaults_match_the_documented_values() {
    let s = Settings::default();
    assert_eq!(s.hostname, "unset");
    assert_eq!(s.port, 8536);
    assert!(s.tls_enabled);
    assert_eq!(s.actor_name_max_length, 20);
    assert!(!s.federation.enabled);
    let rl = s.rate_limit.unwrap();
    assert_eq!(rl.message, 180);
    assert_eq!(rl.register_per_second, 3600);
    assert_eq!(s.database.port, 5432);
    assert!(!s.captcha.enabled);
}

#[test]
fn delivery_plans_route_by_community_locality() {
    let local = community(1, "home.example", "rust", true);
    let remote_c = community(2, "far.example", "go", false);
    let direct = vec![url("x.example", "/u/a/inbox")];
    let p1 = send_to_community(url("home.example", "/activities/add/1"), &local, direct.clone());
    assert_eq!(p1.inboxes, direct);
    let p2 = send_to_community(url("home.example", "/activities/add/2"), &remote_c, direct.clone());
    assert_eq!(p2.inboxes.len(), 2);
    assert_eq!(p2.inboxes[0], url("far.example", "/inbox"));
    assert_eq!(p2.inboxes[1], direct[0]);
}

#[test]
fn shared_inbox_is_preferred() {
    let mut p = person(1, "far.example", "alice", false);
    assert_eq!(
        p.get_shared_inbox_or_inbox_url(),
        url("far.example", "/u/alice/inbox")
    );
    p.shared_inbox = Some(url("far.example", "/inbox"));
    assert_eq!(p.get_shared_inbox_or_inbox_url(), url("far.example", "/inbox"));
}

#[test]
fn unknown_object_fails_resolution() {
    let mut store = store_with_mod();
    let remote = empty_remote();
    let cfg = settings();
    let comm = store.communities[0].clone();
    let alice = store.persons[0].clone();
    let (envelope, _) = Delete::send(
        &alice,
        &comm,
        url("far.example", "/post/404"),
        Some("spam".to_string()),
        &cfg,
        "ccc",
    );
    let mut budget = RequestBudget::new(4);
    let r = envelope.receive(&mut store, &remote, &mut budget);
    assert_eq!(r, Err(ActivityError::ResolveFailed(ResolveError::NotFound)));
    assert!(store.mod_log.is_empty());
}

#[test]
fn self_delete_by_non_owner_is_rejected() {
    let mut store = store_with_mod();
    store.posts.push(post(7, "far.example", 1, 1));
    let remote = empty_remote();
    let cfg = settings();
    let comm = store.communities[0].clone();
    let bob = store.persons[1].clone();
    let object_id = store.posts[0].ap_id.clone();
    let (envelope, _) = Delete::send(&bob, &comm, object_id, None, &cfg, "ccc");
    let mut budget = RequestBudget::new(4);
    let r = envelope.verify(&mut store, &remote, &cfg, &mut budget);
    assert_eq!(
        r,
        Err(ActivityError::VerificationFailed(VerifyFail::NotOwner))
    );
}

#[test]
fn community_self_delete_must_target_the_addressed_community() {
    let mut store = store_with_mod();
    store
        .communities
        .push(community(2, "far.example", "go", false));
    let remote = empty_remote();
    let cfg = settings();
    let comm = store.communities[0].clone();
    let other = store.communities[1].actor_id.clone();
    let alice = store.persons[0].clone();
    let (envelope, _) = Delete::send(&alice, &comm, other, None, &cfg, "ccc");
    let mut budget = RequestBudget::new(4);
    let r = envelope.verify(&mut store, &remote, &cfg, &mut budget);
    assert_eq!(
        r,
        Err(ActivityError::VerificationFailed(VerifyFail::UrlMismatch))
    );
}

#[test]
fn vote_envelope_reaches_a_comment_too() {
    let mut store = store_with_mod();
    store.posts.push(post(7, "far.example", 1, 1));
    store.comments.push(Comment {
        id: 40,
        ap_id: url("far.example", "/comment/40"),
        creator_id: 1,
        post_id: 7,
        content: "first".to_string(),
        removed: false,
        deleted: false,
    });
    let remote = empty_remote();
    let cfg = settings();
    let envelope = Vote::new(
        &url("far.example", "/comment/40"),
        &store.persons[1].clone(),
        &store.communities[0].clone(),
        VoteType::Like,
        &cfg,
        "eee",
    );
    let mut budget = RequestBudget::new(4);
    let r = receive_activity(
        InboundActivity::Vote(envelope),
        &mut store,
        &remote,
        &cfg,
        &mut budget,
    );
    assert!(r.is_ok());
    assert!(store.post_votes.is_empty());
    assert_eq!(
        store.comment_votes[0],
        VoteRecord {
            person_id: 2,
            target_id: 40,
            score: 1
        }
    );
}

#[test]
fn removal_through_the_dispatcher() {
    let mut store = store_with_mod();
    store.posts.push(post(7, "far.example", 2, 1));
    let remote = empty_remote();
    let cfg = settings();
    let comm = store.communities[0].clone();
    let alice = store.persons[0].clone();
    let object_id = store.posts[0].ap_id.clone();
    let (envelope, _) = Delete::send(
        &alice,
        &comm,
        object_id,
        Some("off topic".to_string()),
        &cfg,
        "ggg",
    );
    let mut budget = RequestBudget::new(4);
    let r = receive_activity(
        InboundActivity::Delete(envelope),
        &mut store,
        &remote,
        &cfg,
        &mut budget,
    );
    assert_eq!(r, Ok(Some(UserOperationCrud::RemovePost)));
    assert!(store.posts[0].removed);
    assert_eq!(store.mod_log.len(), 1);
    assert_eq!(store.mod_log[0].mod_person_id, 1);
    assert_eq!(store.mod_log[0].target, ModLogTarget::Post(7));
    assert_eq!(store.mod_log[0].reason, Some("off topic".to_string()));
}
