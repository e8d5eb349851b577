use apub_engine::activities::add_mod::AddMod;
use apub_engine::activities::create_or_update_post::{CreateOrUpdatePost, Page};
use apub_engine::activities::delete::Delete;
use apub_engine::activities::undo_follow::{FollowCommunity, UndoFollowCommunity};
use apub_engine::activities::update_community::{Group, UpdateCommunity};
use apub_engine::activities::vote::{Vote, VoteType};
use apub_engine::codec::{decode, encode, WireValue};
use apub_engine::checks::protocol_context;
use apub_engine::dispatch::InboundActivity;
use apub_engine::envelope::{
    AddType, CreateOrUpdateType, DeleteType, FollowType, PublicMarker, UndoType, Unparsed,
    UpdateType,
};
use apub_engine::urls::Url;
use apub_engine::ActivityError;

fn url(d: &str, p: &str) -> Url {
    Url {
        domain: d.to_string(),
        path: p.to_string(),
    }
}

fn bag(pairs: &[(&str, &str)]) -> Unparsed {
    Unparsed {
        fields: pairs
            .iter()
            .map(|(k, v)| (k.to_string(), v.to_string()))
            .collect(),
    }
}

fn round_trips(a: InboundActivity) -> InboundActivity {
    let wire = encode(&a);
    let back = decode(&wire).expect("a stream the engine wrote must read back");
    assert_eq!(back, a);
    back
}

#[test]
fn add_mod_round_trips() {
    round_trips(InboundActivity::AddMod(AddMod {
        actor: url("far.example", "/u/alice"),
        to: PublicMarker::Public,
        object: url("far.example", "/u/bob"),
        target: url("far.example", "/c/rust/moderators"),
        cc: url("far.example", "/c/rust"),
        kind: AddType::Add,
        id: url("home.example", "/activities/add/1"),
        context: protocol_context(),
        unparsed: bag(&[("ostatus:conversation", "tag:far.example,2021")]),
    }));
}

#[test]
fn update_community_round_trips() {
    round_trips(InboundActivity::UpdateCommunity(UpdateCommunity {
        actor: url("far.example", "/u/alice"),
        to: PublicMarker::Public,
        object: Group {
            name: "rust".to_string(),
            title: "Rust".to_string(),
            description: None,
            nsfw: false,
            icon: Some("https://far.example/icon.png".to_string()),
            banner: None,
        },
        cc: url("far.example", "/c/rust"),
        kind: UpdateType::Update,
        id: url("home.example", "/activities/update/2"),
        context: protocol_context(),
        unparsed: bag(&[]),
    }));
}

#[test]
fn delete_round_trips_with_empty_summary() {
    round_trips(InboundActivity::Delete(Delete {
        actor: url("far.example", "/u/alice"),
        to: PublicMarker::Public,
        object: url("far.example", "/post/7"),
        cc: url("far.example", "/c/rust"),
        kind: DeleteType::Delete,
        summary: Some(String::new()),
        id: url("home.example", "/activities/delete/3"),
        context: protocol_context(),
        unparsed: bag(&[("a", "1"), ("b", "2")]),
    }));
    round_trips(InboundActivity::Delete(Delete {
        actor: url("far.example", "/u/alice"),
        to: PublicMarker::Public,
        object: url("far.example", "/post/7"),
        cc: url("far.example", "/c/rust"),
        kind: DeleteType::Delete,
        summary: None,
        id: url("home.example", "/activities/delete/4"),
        context: protocol_context(),
        unparsed: bag(&[]),
    }));
}

#[test]
fn undo_follow_round_trips() {
    round_trips(InboundActivity::UndoFollowCommunity(UndoFollowCommunity {
        actor: url("far.example", "/u/alice"),
        to: url("home.example", "/c/rust"),
        object: FollowCommunity {
            actor: url("far.example", "/u/alice"),
            object: url("home.example", "/c/rust"),
            kind: FollowType::Follow,
            id: url("far.example", "/activities/follow/5"),
            context: protocol_context(),
            unparsed: bag(&[("inner", "kept")]),
        },
        kind: UndoType::Undo,
        id: url("far.example", "/activities/undo/6"),
        context: protocol_context(),
        unparsed: bag(&[("outer", "kept too")]),
    }));
}

#[test]
fn create_or_update_post_round_trips() {
    round_trips(InboundActivity::CreateOrUpdatePost(CreateOrUpdatePost {
        actor: url("far.example", "/u/alice"),
        to: PublicMarker::Public,
        object: Page {
            id: url("far.example", "/post/50"),
            attributed_to: url("far.example", "/u/alice"),
            name: "hello".to_string(),
            stickied: Some(false),
            comments_enabled: None,
        },
        cc: url("far.example", "/c/rust"),
        kind: CreateOrUpdateType::Create,
        id: url("far.example", "/activities/create/7"),
        context: protocol_context(),
        unparsed: bag(&[]),
    }));
}

#[test]
fn vote_round_trips() {
    round_trips(InboundActivity::Vote(Vote {
        actor: url("far.example", "/u/bob"),
        to: PublicMarker::Public,
        object: url("far.example", "/post/50"),
        cc: url("far.example", "/c/rust"),
        kind: VoteType::Dislike,
        id: url("far.example", "/activities/dislike/8"),
        context: protocol_context(),
        unparsed: bag(&[]),
    }));
}

#[test]
fn extension_fields_survive_the_round_trip_verbatim() {
    let a = InboundActivity::Vote(Vote {
        actor: url("far.example", "/u/bob"),
        to: PublicMarker::Public,
        object: url("far.example", "/post/50"),
        cc: url("far.example", "/c/rust"),
        kind: VoteType::Like,
        id: url("far.example", "/activities/like/9"),
        context: protocol_context(),
        unparsed: bag(&[("x-sig", "keyId=main,algo=none"), ("x-hop", "3")]),
    });
    let back = round_trips(a);
    match back {
        InboundActivity::Vote(v) => {
            assert_eq!(v.unparsed.fields.len(), 2);
            assert_eq!(v.unparsed.fields[0].0, "x-sig");
            assert_eq!(v.unparsed.fields[1], ("x-hop".to_string(), "3".to_string()));
        }
        _ => panic!("wrong variant after round trip"),
    }
}

#[test]
fn unknown_kind_tag_is_unsupported() {
    let stream = vec![WireValue::U(99)];
    assert_eq!(
        decode(&stream),
        Err(ActivityError::UnsupportedActivityType)
    );
}

#[test]
fn malformed_streams_are_rejected() {
    assert_eq!(
        decode(&vec![]),
        Err(ActivityError::UnsupportedActivityType)
    );
    assert_eq!(
        decode(&vec![WireValue::U(0), WireValue::B(true)]),
        Err(ActivityError::UnsupportedActivityType)
    );
    // A truncated pair count: the header claims one pair, none follows.
    let mut stream = Vec::new();
    stream.push(WireValue::U(5));
    for _ in 0..6 {
        stream.push(WireValue::S("x".to_string()));
    }
    stream.push(WireValue::U(1));
    for _ in 0..4 {
        stream.push(WireValue::S("x".to_string()));
    }
    stream.push(WireValue::U(1));
    assert_eq!(decode(&stream), Err(ActivityError::UnsupportedActivityType));
}
