//! Wire codec: an activity envelope is flattened into a sequence of
//! self-describing wire scalars (strings, numbers, booleans and an
//! absent-marker), and recovered from one. This is the engine's own
//! canonical wire form, whose round trip is proved below; the
//! deployment renders envelopes into the protocol's concrete JSON
//! shape separately, outside the verified core. Serializing an
//! envelope and deserializing the result yields the envelope back,
//! field for field, unrecognized extension fields included; the kind
//! tag of an unknown activity is rejected as unsupported.

use vstd::prelude::*;

use crate::activities::add_mod::AddMod;
use crate::activities::create_or_update_post::{CreateOrUpdatePost, Page};
use crate::activities::delete::Delete;
use crate::activities::undo_follow::{FollowCommunity, UndoFollowCommunity};
use crate::activities::update_community::{Group, UpdateCommunity};
use crate::activities::vote::{Vote, VoteType};
use crate::dispatch::InboundActivity;
use crate::envelope::{
    AddType, CreateOrUpdateType, DeleteType, FollowType, PublicMarker, UndoType, Unparsed,
    UpdateType,
};
use crate::urls::Url;
use crate::ActivityError;

verus! {

/// One scalar of the wire stream.
#[derive(Debug, PartialEq)]
pub enum WireValue {
    /// An unsigned number (kind tags, counts, small enums).
    U(u64),
    /// A boolean flag.
    B(bool),
    /// A text value.
    S(String),
    /// An absent optional field.
    N,
}

impl Clone for WireValue {
    fn clone(&self) -> (r: Self)
        ensures
            r == *self,
    {
        match self {
            WireValue::U(v) => WireValue::U(*v),
            WireValue::B(b) => WireValue::B(*b),
            WireValue::S(s) => WireValue::S(s.clone()),
            WireValue::N => WireValue::N,
        }
    }
}

/// The token an optional text encodes to.
pub open spec fn enc_opt_str(o: Option<String>) -> WireValue {
    match o {
        Some(s) => WireValue::S(s),
        None => WireValue::N,
    }
}

/// The token an optional boolean encodes to.
pub open spec fn enc_opt_bool(o: Option<bool>) -> WireValue {
    match o {
        Some(b) => WireValue::B(b),
        None => WireValue::N,
    }
}

/// The token a vote kind encodes to.
pub open spec fn enc_vote_kind(k: VoteType) -> WireValue {
    match k {
        VoteType::Like => WireValue::U(1),
        VoteType::Dislike => WireValue::U(2),
    }
}

/// The token a create-or-update kind encodes to.
pub open spec fn enc_cou_kind(k: CreateOrUpdateType) -> WireValue {
    match k {
        CreateOrUpdateType::Create => WireValue::U(1),
        CreateOrUpdateType::Update => WireValue::U(2),
    }
}

/// The token stream an extension bag's pairs encode to: each pair as
/// its name then its raw value.
pub open spec fn enc_pairs(ps: Seq<(String, String)>) -> Seq<WireValue>
    decreases ps.len(),
{
    if ps.len() == 0 {
        Seq::empty()
    } else {
        enc_pairs(ps.drop_last()) + seq![
            WireValue::S(ps.last().0),
            WireValue::S(ps.last().1),
        ]
    }
}

/// An encoded pair list is twice as long as the list.
pub proof fn lemma_enc_pairs_len(ps: Seq<(String, String)>)
    ensures
        enc_pairs(ps).len() == 2 * ps.len(),
    decreases ps.len(),
{
    if ps.len() > 0 {
        lemma_enc_pairs_len(ps.drop_last());
    }
}

/// Splitting two equal concatenations at the same point yields equal
/// parts.
pub proof fn lemma_split_eq(
    p1: Seq<WireValue>,
    s1: Seq<WireValue>,
    p2: Seq<WireValue>,
    s2: Seq<WireValue>,
)
    requires
        p1 + s1 == p2 + s2,
        p1.len() == p2.len(),
    ensures
        p1 == p2,
        s1 == s2,
{
    assert forall|i: int| 0 <= i < p1.len() implies p1[i] == p2[i] by {
        assert((p1 + s1)[i] == p1[i]);
        assert((p2 + s2)[i] == p2[i]);
    }
    assert(p1 =~= p2);
    assert((p1 + s1).len() == p1.len() + s1.len());
    assert((p2 + s2).len() == p2.len() + s2.len());
    assert(s1.len() == s2.len());
    assert forall|i: int| 0 <= i < s1.len() implies s1[i] == s2[i] by {
        assert((p1 + s1)[p1.len() + i] == s1[i]);
        assert((p2 + s2)[p2.len() + i] == s2[i]);
    }
    assert(s1 =~= s2);
}

/// Equal encodings come from equal pair lists.
pub proof fn lemma_enc_pairs_inj(p: Seq<(String, String)>, q: Seq<(String, String)>)
    requires
        enc_pairs(p) == enc_pairs(q),
    ensures
        p =~= q,
    decreases p.len(),
{
    lemma_enc_pairs_len(p);
    lemma_enc_pairs_len(q);
    if p.len() > 0 {
        lemma_split_eq(
            enc_pairs(p.drop_last()),
            seq![WireValue::S(p.last().0), WireValue::S(p.last().1)],
            enc_pairs(q.drop_last()),
            seq![WireValue::S(q.last().0), WireValue::S(q.last().1)],
        );
        lemma_enc_pairs_inj(p.drop_last(), q.drop_last());
        assert(seq![WireValue::S(p.last().0), WireValue::S(p.last().1)][0] == seq![
            WireValue::S(q.last().0),
            WireValue::S(q.last().1),
        ][0]);
        assert(seq![WireValue::S(p.last().0), WireValue::S(p.last().1)][1] == seq![
            WireValue::S(q.last().0),
            WireValue::S(q.last().1),
        ][1]);
        assert(p.last() == q.last());
        assert forall|i: int| 0 <= i < p.len() implies p[i] == q[i] by {
            if i < p.len() - 1 {
                assert(p[i] == p.drop_last()[i]);
                assert(q[i] == q.drop_last()[i]);
            }
        }
    }
}

/// Every token of an encoded pair list is a text token.
pub proof fn lemma_enc_pairs_all_s(ps: Seq<(String, String)>)
    ensures
        forall|i: int| 0 <= i < enc_pairs(ps).len() ==> (#[trigger] enc_pairs(ps)[i]) is S,
    decreases ps.len(),
{
    if ps.len() > 0 {
        lemma_enc_pairs_all_s(ps.drop_last());
    }
}

/// The fixed-position tokens of each variant, ahead of its extension
/// pairs (for an undo, of both its own and its wrapped follow's).
pub open spec fn enc_fixed(a: InboundActivity) -> Seq<WireValue> {
    match a {
        InboundActivity::AddMod(x) => seq![
            WireValue::U(0),
            WireValue::S(x.actor.domain),
            WireValue::S(x.actor.path),
            WireValue::S(x.object.domain),
            WireValue::S(x.object.path),
            WireValue::S(x.target.domain),
            WireValue::S(x.target.path),
            WireValue::S(x.cc.domain),
            WireValue::S(x.cc.path),
            WireValue::S(x.id.domain),
            WireValue::S(x.id.path),
            WireValue::S(x.context.domain),
            WireValue::S(x.context.path),
            WireValue::U(x.unparsed.fields@.len() as u64),
        ],
        InboundActivity::UpdateCommunity(x) => seq![
            WireValue::U(1),
            WireValue::S(x.actor.domain),
            WireValue::S(x.actor.path),
            WireValue::S(x.object.name),
            WireValue::S(x.object.title),
            enc_opt_str(x.object.description),
            WireValue::B(x.object.nsfw),
            enc_opt_str(x.object.icon),
            enc_opt_str(x.object.banner),
            WireValue::S(x.cc.domain),
            WireValue::S(x.cc.path),
            WireValue::S(x.id.domain),
            WireValue::S(x.id.path),
            WireValue::S(x.context.domain),
            WireValue::S(x.context.path),
            WireValue::U(x.unparsed.fields@.len() as u64),
        ],
        InboundActivity::Delete(x) => seq![
            WireValue::U(2),
            WireValue::S(x.actor.domain),
            WireValue::S(x.actor.path),
            WireValue::S(x.object.domain),
            WireValue::S(x.object.path),
            WireValue::S(x.cc.domain),
            WireValue::S(x.cc.path),
            enc_opt_str(x.summary),
            WireValue::S(x.id.domain),
            WireValue::S(x.id.path),
            WireValue::S(x.context.domain),
            WireValue::S(x.context.path),
            WireValue::U(x.unparsed.fields@.len() as u64),
        ],
        InboundActivity::UndoFollowCommunity(x) => seq![
            WireValue::U(3),
            WireValue::S(x.actor.domain),
            WireValue::S(x.actor.path),
            WireValue::S(x.to.domain),
            WireValue::S(x.to.path),
            WireValue::S(x.object.actor.domain),
            WireValue::S(x.object.actor.path),
            WireValue::S(x.object.object.domain),
            WireValue::S(x.object.object.path),
            WireValue::S(x.object.id.domain),
            WireValue::S(x.object.id.path),
            WireValue::S(x.object.context.domain),
            WireValue::S(x.object.context.path),
            WireValue::S(x.id.domain),
            WireValue::S(x.id.path),
            WireValue::S(x.context.domain),
            WireValue::S(x.context.path),
            WireValue::U(x.object.unparsed.fields@.len() as u64),
            WireValue::U(x.unparsed.fields@.len() as u64),
        ],
        InboundActivity::CreateOrUpdatePost(x) => seq![
            WireValue::U(4),
            WireValue::S(x.actor.domain),
            WireValue::S(x.actor.path),
            WireValue::S(x.object.id.domain),
            WireValue::S(x.object.id.path),
            WireValue::S(x.object.attributed_to.domain),
            WireValue::S(x.object.attributed_to.path),
            WireValue::S(x.object.name),
            enc_opt_bool(x.object.stickied),
            enc_opt_bool(x.object.comments_enabled),
            WireValue::S(x.cc.domain),
            WireValue::S(x.cc.path),
            enc_cou_kind(x.kind),
            WireValue::S(x.id.domain),
            WireValue::S(x.id.path),
            WireValue::S(x.context.domain),
            WireValue::S(x.context.path),
            WireValue::U(x.unparsed.fields@.len() as u64),
        ],
        InboundActivity::Vote(x) => seq![
            WireValue::U(5),
            WireValue::S(x.actor.domain),
            WireValue::S(x.actor.path),
            WireValue::S(x.object.domain),
            WireValue::S(x.object.path),
            WireValue::S(x.cc.domain),
            WireValue::S(x.cc.path),
            enc_vote_kind(x.kind),
            WireValue::S(x.id.domain),
            WireValue::S(x.id.path),
            WireValue::S(x.context.domain),
            WireValue::S(x.context.path),
            WireValue::U(x.unparsed.fields@.len() as u64),
        ],
    }
}

/// The trailing variable-length tokens of each variant: its extension
/// pairs (for an undo, the wrapped follow's first).
pub open spec fn enc_tail(a: InboundActivity) -> Seq<WireValue> {
    match a {
        InboundActivity::UndoFollowCommunity(x) => enc_pairs(x.object.unparsed.fields@)
            + enc_pairs(x.unparsed.fields@),
        InboundActivity::AddMod(x) => enc_pairs(x.unparsed.fields@),
        InboundActivity::UpdateCommunity(x) => enc_pairs(x.unparsed.fields@),
        InboundActivity::Delete(x) => enc_pairs(x.unparsed.fields@),
        InboundActivity::CreateOrUpdatePost(x) => enc_pairs(x.unparsed.fields@),
        InboundActivity::Vote(x) => enc_pairs(x.unparsed.fields@),
    }
}

/// The full wire stream of an envelope.
pub open spec fn spec_encode(a: InboundActivity) -> Seq<WireValue> {
    enc_fixed(a) + enc_tail(a)
}

/// Two extension bags carrying the same pairs.
pub open spec fn same_unparsed(a: Unparsed, b: Unparsed) -> bool {
    a.fields@ == b.fields@
}

/// Field-for-field sameness of two envelopes: every field equal, the
/// extension bags compared by their contents.
pub open spec fn same_envelope(a: InboundActivity, b: InboundActivity) -> bool {
    match (a, b) {
        (InboundActivity::AddMod(x), InboundActivity::AddMod(y)) => x.actor == y.actor && x.object
            == y.object && x.target == y.target && x.cc == y.cc && x.id == y.id && x.context
            == y.context && same_unparsed(x.unparsed, y.unparsed),
        (InboundActivity::UpdateCommunity(x), InboundActivity::UpdateCommunity(y)) => x.actor
            == y.actor && x.object.name == y.object.name && x.object.title == y.object.title
            && x.object.description == y.object.description && x.object.nsfw == y.object.nsfw
            && x.object.icon == y.object.icon && x.object.banner == y.object.banner && x.cc == y.cc
            && x.id == y.id && x.context == y.context && same_unparsed(x.unparsed, y.unparsed),
        (InboundActivity::Delete(x), InboundActivity::Delete(y)) => x.actor == y.actor && x.object
            == y.object && x.cc == y.cc && x.summary == y.summary && x.id == y.id && x.context
            == y.context && same_unparsed(x.unparsed, y.unparsed),
        (InboundActivity::UndoFollowCommunity(x), InboundActivity::UndoFollowCommunity(y)) => x.actor
            == y.actor && x.to == y.to && x.object.actor == y.object.actor && x.object.object
            == y.object.object && x.object.id == y.object.id && x.object.context
            == y.object.context && same_unparsed(x.object.unparsed, y.object.unparsed) && x.id
            == y.id && x.context == y.context && same_unparsed(x.unparsed, y.unparsed),
        (InboundActivity::CreateOrUpdatePost(x), InboundActivity::CreateOrUpdatePost(y)) => x.actor
            == y.actor && x.object.id == y.object.id && x.object.attributed_to
            == y.object.attributed_to && x.object.name == y.object.name && x.object.stickied
            == y.object.stickied && x.object.comments_enabled == y.object.comments_enabled && x.cc
            == y.cc && x.kind == y.kind && x.id == y.id && x.context == y.context && same_unparsed(
            x.unparsed,
            y.unparsed,
        ),
        (InboundActivity::Vote(x), InboundActivity::Vote(y)) => x.actor == y.actor && x.object
            == y.object && x.cc == y.cc && x.kind == y.kind && x.id == y.id && x.context
            == y.context && same_unparsed(x.unparsed, y.unparsed),
        _ => false,
    }
}

/// The kind tag each variant opens its stream with.
pub open spec fn spec_tag(a: InboundActivity) -> u64 {
    match a {
        InboundActivity::AddMod(_) => 0,
        InboundActivity::UpdateCommunity(_) => 1,
        InboundActivity::Delete(_) => 2,
        InboundActivity::UndoFollowCommunity(_) => 3,
        InboundActivity::CreateOrUpdatePost(_) => 4,
        InboundActivity::Vote(_) => 5,
    }
}

/// An encoded stream opens with its variant's kind tag.
pub proof fn lemma_encode_head(a: InboundActivity)
    ensures
        spec_encode(a).len() >= 1,
        spec_encode(a)[0] == WireValue::U(spec_tag(a)),
{
    assert(spec_encode(a)[0] == enc_fixed(a)[0]);
}

/// Round trip, stated as unambiguity: an envelope is fully recovered
/// from its wire stream, for two envelopes with one and the same
/// stream are the same, field for field, extension bags included.
pub proof fn lemma_encode_injective(a: InboundActivity, b: InboundActivity)
    requires
        spec_encode(a) == spec_encode(b),
    ensures
        same_envelope(a, b),
{
    lemma_encode_head(a);
    lemma_encode_head(b);
    assert(spec_tag(a) == spec_tag(b));
    match (a, b) {
        (InboundActivity::AddMod(x), InboundActivity::AddMod(y)) => {
            lemma_split_eq(enc_fixed(a), enc_tail(a), enc_fixed(b), enc_tail(b));
            assert forall|i: int| 0 <= i < 14 implies enc_fixed(a)[i] == enc_fixed(b)[i] by {}
            lemma_enc_pairs_inj(x.unparsed.fields@, y.unparsed.fields@);
        },
        (InboundActivity::UpdateCommunity(x), InboundActivity::UpdateCommunity(y)) => {
            lemma_split_eq(enc_fixed(a), enc_tail(a), enc_fixed(b), enc_tail(b));
            assert forall|i: int| 0 <= i < 16 implies enc_fixed(a)[i] == enc_fixed(b)[i] by {}
            lemma_enc_pairs_inj(x.unparsed.fields@, y.unparsed.fields@);
        },
        (InboundActivity::Delete(x), InboundActivity::Delete(y)) => {
            lemma_split_eq(enc_fixed(a), enc_tail(a), enc_fixed(b), enc_tail(b));
            assert forall|i: int| 0 <= i < 13 implies enc_fixed(a)[i] == enc_fixed(b)[i] by {}
            lemma_enc_pairs_inj(x.unparsed.fields@, y.unparsed.fields@);
        },
        (InboundActivity::UndoFollowCommunity(x), InboundActivity::UndoFollowCommunity(y)) => {
            lemma_split_eq(enc_fixed(a), enc_tail(a), enc_fixed(b), enc_tail(b));
            assert forall|i: int| 0 <= i < 19 implies enc_fixed(a)[i] == enc_fixed(b)[i] by {}
            assert(x.object.unparsed.fields.len() == x.object.unparsed.fields@.len());
            assert(y.object.unparsed.fields.len() == y.object.unparsed.fields@.len());
            assert(enc_fixed(a)[17] == enc_fixed(b)[17]);
            assert(x.object.unparsed.fields@.len() == y.object.unparsed.fields@.len());
            lemma_enc_pairs_len(x.object.unparsed.fields@);
            lemma_enc_pairs_len(y.object.unparsed.fields@);
            lemma_split_eq(
                enc_pairs(x.object.unparsed.fields@),
                enc_pairs(x.unparsed.fields@),
                enc_pairs(y.object.unparsed.fields@),
                enc_pairs(y.unparsed.fields@),
            );
            lemma_enc_pairs_inj(x.object.unparsed.fields@, y.object.unparsed.fields@);
            lemma_enc_pairs_inj(x.unparsed.fields@, y.unparsed.fields@);
        },
        (InboundActivity::CreateOrUpdatePost(x), InboundActivity::CreateOrUpdatePost(y)) => {
            lemma_split_eq(enc_fixed(a), enc_tail(a), enc_fixed(b), enc_tail(b));
            assert forall|i: int| 0 <= i < 18 implies enc_fixed(a)[i] == enc_fixed(b)[i] by {}
            lemma_enc_pairs_inj(x.unparsed.fields@, y.unparsed.fields@);
        },
        (InboundActivity::Vote(x), InboundActivity::Vote(y)) => {
            lemma_split_eq(enc_fixed(a), enc_tail(a), enc_fixed(b), enc_tail(b));
            assert forall|i: int| 0 <= i < 13 implies enc_fixed(a)[i] == enc_fixed(b)[i] by {}
            lemma_enc_pairs_inj(x.unparsed.fields@, y.unparsed.fields@);
        },
        _ => {
            assert(false);
        },
    }
}

fn get_s(t: &Vec<WireValue>, i: usize) -> (r: Option<String>)
    ensures
        r matches Some(s) ==> i < t@.len() && t@[i as int] == WireValue::S(s),
        r is None ==> !(i < t@.len() && t@[i as int] is S),
{
    if i < t.len() {
        match &t[i] {
            WireValue::S(s) => Some(s.clone()),
            _ => None,
        }
    } else {
        None
    }
}

fn get_u(t: &Vec<WireValue>, i: usize) -> (r: Option<u64>)
    ensures
        r matches Some(v) ==> i < t@.len() && t@[i as int] == WireValue::U(v),
        r is None ==> !(i < t@.len() && t@[i as int] is U),
{
    if i < t.len() {
        match &t[i] {
            WireValue::U(v) => Some(*v),
            _ => None,
        }
    } else {
        None
    }
}

fn get_b(t: &Vec<WireValue>, i: usize) -> (r: Option<bool>)
    ensures
        r matches Some(v) ==> i < t@.len() && t@[i as int] == WireValue::B(v),
        r is None ==> !(i < t@.len() && t@[i as int] is B),
{
    if i < t.len() {
        match &t[i] {
            WireValue::B(v) => Some(*v),
            _ => None,
        }
    } else {
        None
    }
}

fn get_opt_s(t: &Vec<WireValue>, i: usize) -> (r: Option<Option<String>>)
    ensures
        r matches Some(o) ==> i < t@.len() && t@[i as int] == enc_opt_str(o),
        r is None ==> !(i < t@.len() && (t@[i as int] is S || t@[i as int] is N)),
{
    if i < t.len() {
        match &t[i] {
            WireValue::S(s) => Some(Some(s.clone())),
            WireValue::N => Some(None),
            _ => None,
        }
    } else {
        None
    }
}

fn get_opt_b(t: &Vec<WireValue>, i: usize) -> (r: Option<Option<bool>>)
    ensures
        r matches Some(o) ==> i < t@.len() && t@[i as int] == enc_opt_bool(o),
        r is None ==> !(i < t@.len() && (t@[i as int] is B || t@[i as int] is N)),
{
    if i < t.len() {
        match &t[i] {
            WireValue::B(b) => Some(Some(*b)),
            WireValue::N => Some(None),
            _ => None,
        }
    } else {
        None
    }
}

/// Append the wire form of an extension bag's pairs.
fn push_pairs(r: &mut Vec<WireValue>, ps: &Vec<(String, String)>)
    ensures
        final(r)@ == old(r)@ + enc_pairs(ps@),
{
    let n = ps.len();
    for j in 0..n
        invariant
            n == ps@.len(),
            r@ == old(r)@ + enc_pairs(ps@.take(j as int)),
    {
        let ghost prev = r@;
        r.push(WireValue::S(ps[j].0.clone()));
        r.push(WireValue::S(ps[j].1.clone()));
        proof {
            let taken = ps@.take(j as int + 1);
            assert(taken.drop_last() =~= ps@.take(j as int));
            assert(taken.last() == ps@[j as int]);
            assert(r@ =~= old(r)@ + enc_pairs(ps@.take(j as int + 1)));
        }
    }
    proof {
        assert(ps@.take(ps@.len() as int) =~= ps@);
    }
}

/// Read `n` extension pairs starting at `start`; `None` where the
/// stream does not hold that many text tokens there.
fn parse_pairs(t: &Vec<WireValue>, start: usize, n: u64) -> (r: Option<Vec<(String, String)>>)
    ensures
        r matches Some(v) ==> v@.len() == n && start + 2 * (n as int) <= t@.len() && enc_pairs(v@)
            == t@.subrange(start as int, start as int + 2 * (n as int)),
        r is None ==> !(start + 2 * (n as int) <= t@.len() && (forall|i: int|
            start <= i < start + 2 * (n as int) ==> (#[trigger] t@[i]) is S)),
{
    let len = t.len();
    if start > len {
        return None;
    }
    let avail = len - start;
    if n > (avail / 2) as u64 {
        return None;
    }
    let n_us = n as usize;
    let mut acc: Vec<(String, String)> = Vec::new();
    for j in 0..n_us
        invariant
            n_us == n,
            len == t@.len(),
            start + 2 * (n as int) <= t@.len(),
            acc@.len() == j,
            enc_pairs(acc@) == t@.subrange(start as int, start as int + 2 * (j as int)),
    {
        let i0 = start + 2 * j;
        let s0 = match get_s(t, i0) {
            Some(s) => s,
            None => {
                return None;
            },
        };
        let s1 = match get_s(t, i0 + 1) {
            Some(s) => s,
            None => {
                return None;
            },
        };
        let ghost prev = acc@;
        acc.push((s0, s1));
        proof {
            assert(acc@.drop_last() =~= prev);
            assert(t@.subrange(start as int, start as int + 2 * (j as int + 1)) =~= t@.subrange(
                start as int,
                start as int + 2 * (j as int),
            ) + seq![t@[i0 as int], t@[i0 as int + 1]]);
            assert(enc_pairs(acc@) =~= t@.subrange(start as int, start as int + 2 * (j as int + 1)));
        }
    }
    Some(acc)
}

/// Position facts of an encoded stream: the fixed tokens sit at their
/// fixed indexes, the tail follows.
proof fn lemma_shape(a: InboundActivity, t: Seq<WireValue>)
    requires
        t == spec_encode(a),
    ensures
        t.len() == enc_fixed(a).len() + enc_tail(a).len(),
        forall|i: int| 0 <= i < enc_fixed(a).len() ==> #[trigger] t[i] == enc_fixed(a)[i],
        forall|i: int|
            enc_fixed(a).len() <= i < t.len() ==> #[trigger] t[i] == enc_tail(a)[i - enc_fixed(
                a,
            ).len()],
{
    assert forall|i: int| 0 <= i < enc_fixed(a).len() implies #[trigger] t[i] == enc_fixed(a)[i] by {
        assert((enc_fixed(a) + enc_tail(a))[i] == enc_fixed(a)[i]);
    }
    assert forall|i: int| enc_fixed(a).len() <= i < t.len() implies #[trigger] t[i] == enc_tail(
        a,
    )[i - enc_fixed(a).len()] by {
        assert((enc_fixed(a) + enc_tail(a))[i] == enc_tail(a)[i - enc_fixed(a).len()]);
    }
}

/// Serialize an envelope into its wire stream.
pub fn encode(a: &InboundActivity) -> (r: Vec<WireValue>)
    ensures
        r@ == spec_encode(*a),
{
    let mut r: Vec<WireValue> = Vec::new();
    match a {
        InboundActivity::AddMod(x) => {
            r.push(WireValue::U(0));
            r.push(WireValue::S(x.actor.domain.clone()));
            r.push(WireValue::S(x.actor.path.clone()));
            r.push(WireValue::S(x.object.domain.clone()));
            r.push(WireValue::S(x.object.path.clone()));
            r.push(WireValue::S(x.target.domain.clone()));
            r.push(WireValue::S(x.target.path.clone()));
            r.push(WireValue::S(x.cc.domain.clone()));
            r.push(WireValue::S(x.cc.path.clone()));
            r.push(WireValue::S(x.id.domain.clone()));
            r.push(WireValue::S(x.id.path.clone()));
            r.push(WireValue::S(x.context.domain.clone()));
            r.push(WireValue::S(x.context.path.clone()));
            r.push(WireValue::U(x.unparsed.fields.len() as u64));
            proof {
                assert(r@ =~= enc_fixed(*a));
            }
            push_pairs(&mut r, &x.unparsed.fields);
        },
        InboundActivity::UpdateCommunity(x) => {
            r.push(WireValue::U(1));
            r.push(WireValue::S(x.actor.domain.clone()));
            r.push(WireValue::S(x.actor.path.clone()));
            r.push(WireValue::S(x.object.name.clone()));
            r.push(WireValue::S(x.object.title.clone()));
            match &x.object.description {
                Some(d) => r.push(WireValue::S(d.clone())),
                None => r.push(WireValue::N),
            }
            r.push(WireValue::B(x.object.nsfw));
            match &x.object.icon {
                Some(d) => r.push(WireValue::S(d.clone())),
                None => r.push(WireValue::N),
            }
            match &x.object.banner {
                Some(d) => r.push(WireValue::S(d.clone())),
                None => r.push(WireValue::N),
            }
            r.push(WireValue::S(x.cc.domain.clone()));
            r.push(WireValue::S(x.cc.path.clone()));
            r.push(WireValue::S(x.id.domain.clone()));
            r.push(WireValue::S(x.id.path.clone()));
            r.push(WireValue::S(x.context.domain.clone()));
            r.push(WireValue::S(x.context.path.clone()));
            r.push(WireValue::U(x.unparsed.fields.len() as u64));
            proof {
                assert(r@ =~= enc_fixed(*a));
            }
            push_pairs(&mut r, &x.unparsed.fields);
        },
        InboundActivity::Delete(x) => {
            r.push(WireValue::U(2));
            r.push(WireValue::S(x.actor.domain.clone()));
            r.push(WireValue::S(x.actor.path.clone()));
            r.push(WireValue::S(x.object.domain.clone()));
            r.push(WireValue::S(x.object.path.clone()));
            r.push(WireValue::S(x.cc.domain.clone()));
            r.push(WireValue::S(x.cc.path.clone()));
            match &x.summary {
                Some(s) => r.push(WireValue::S(s.clone())),
                None => r.push(WireValue::N),
            }
            r.push(WireValue::S(x.id.domain.clone()));
            r.push(WireValue::S(x.id.path.clone()));
            r.push(WireValue::S(x.context.domain.clone()));
            r.push(WireValue::S(x.context.path.clone()));
            r.push(WireValue::U(x.unparsed.fields.len() as u64));
            proof {
                assert(r@ =~= enc_fixed(*a));
            }
            push_pairs(&mut r, &x.unparsed.fields);
        },
        InboundActivity::UndoFollowCommunity(x) => {
            r.push(WireValue::U(3));
            r.push(WireValue::S(x.actor.domain.clone()));
            r.push(WireValue::S(x.actor.path.clone()));
            r.push(WireValue::S(x.to.domain.clone()));
            r.push(WireValue::S(x.to.path.clone()));
            r.push(WireValue::S(x.object.actor.domain.clone()));
            r.push(WireValue::S(x.object.actor.path.clone()));
            r.push(WireValue::S(x.object.object.domain.clone()));
            r.push(WireValue::S(x.object.object.path.clone()));
            r.push(WireValue::S(x.object.id.domain.clone()));
            r.push(WireValue::S(x.object.id.path.clone()));
            r.push(WireValue::S(x.object.context.domain.clone()));
            r.push(WireValue::S(x.object.context.path.clone()));
            r.push(WireValue::S(x.id.domain.clone()));
            r.push(WireValue::S(x.id.path.clone()));
            r.push(WireValue::S(x.context.domain.clone()));
            r.push(WireValue::S(x.context.path.clone()));
            r.push(WireValue::U(x.object.unparsed.fields.len() as u64));
            r.push(WireValue::U(x.unparsed.fields.len() as u64));
            proof {
                assert(r@ =~= enc_fixed(*a));
            }
            push_pairs(&mut r, &x.object.unparsed.fields);
            push_pairs(&mut r, &x.unparsed.fields);
            proof {
                assert(enc_fixed(*a) + enc_pairs(x.object.unparsed.fields@) + enc_pairs(
                    x.unparsed.fields@,
                ) =~= enc_fixed(*a) + (enc_pairs(x.object.unparsed.fields@) + enc_pairs(
                    x.unparsed.fields@,
                )));
            }
        },
        InboundActivity::CreateOrUpdatePost(x) => {
            r.push(WireValue::U(4));
            r.push(WireValue::S(x.actor.domain.clone()));
            r.push(WireValue::S(x.actor.path.clone()));
            r.push(WireValue::S(x.object.id.domain.clone()));
            r.push(WireValue::S(x.object.id.path.clone()));
            r.push(WireValue::S(x.object.attributed_to.domain.clone()));
            r.push(WireValue::S(x.object.attributed_to.path.clone()));
            r.push(WireValue::S(x.object.name.clone()));
            match x.object.stickied {
                Some(b) => r.push(WireValue::B(b)),
                None => r.push(WireValue::N),
            }
            match x.object.comments_enabled {
                Some(b) => r.push(WireValue::B(b)),
                None => r.push(WireValue::N),
            }
            r.push(WireValue::S(x.cc.domain.clone()));
            r.push(WireValue::S(x.cc.path.clone()));
            match x.kind {
                CreateOrUpdateType::Create => r.push(WireValue::U(1)),
                CreateOrUpdateType::Update => r.push(WireValue::U(2)),
            }
            r.push(WireValue::S(x.id.domain.clone()));
            r.push(WireValue::S(x.id.path.clone()));
            r.push(WireValue::S(x.context.domain.clone()));
            r.push(WireValue::S(x.context.path.clone()));
            r.push(WireValue::U(x.unparsed.fields.len() as u64));
            proof {
                assert(r@ =~= enc_fixed(*a));
            }
            push_pairs(&mut r, &x.unparsed.fields);
        },
        InboundActivity::Vote(x) => {
            r.push(WireValue::U(5));
            r.push(WireValue::S(x.actor.domain.clone()));
            r.push(WireValue::S(x.actor.path.clone()));
            r.push(WireValue::S(x.object.domain.clone()));
            r.push(WireValue::S(x.object.path.clone()));
            r.push(WireValue::S(x.cc.domain.clone()));
            r.push(WireValue::S(x.cc.path.clone()));
            match x.kind {
                VoteType::Like => r.push(WireValue::U(1)),
                VoteType::Dislike => r.push(WireValue::U(2)),
            }
            r.push(WireValue::S(x.id.domain.clone()));
            r.push(WireValue::S(x.id.path.clone()));
            r.push(WireValue::S(x.context.domain.clone()));
            r.push(WireValue::S(x.context.path.clone()));
            r.push(WireValue::U(x.unparsed.fields.len() as u64));
            proof {
                assert(r@ =~= enc_fixed(*a));
            }
            push_pairs(&mut r, &x.unparsed.fields);
        },
    }
    r
}

/// Deserialize a wire stream back into an envelope. A stream that no
/// envelope encodes to — an unknown kind tag ahead of all — is
/// rejected as unsupported.
#[verifier::rlimit(100)]
pub fn decode(t: &Vec<WireValue>) -> (r: Result<InboundActivity, ActivityError>)
    ensures
        r matches Ok(a) ==> t@ == spec_encode(a),
        (exists|a: InboundActivity| t@ == spec_encode(a)) ==> r is Ok,
        r is Err ==> r == Err::<InboundActivity, ActivityError>(
            ActivityError::UnsupportedActivityType,
        ),
{
    let ghost has_witness = exists|a: InboundActivity| t@ == spec_encode(a);
    let ghost w: InboundActivity = if has_witness {
        choose|a: InboundActivity| t@ == spec_encode(a)
    } else {
        arbitrary()
    };
    proof {
        if has_witness {
            lemma_encode_head(w);
            lemma_shape(w, t@);
            match w {
                InboundActivity::AddMod(y) => {
                    lemma_enc_pairs_len(y.unparsed.fields@);
                    lemma_enc_pairs_all_s(y.unparsed.fields@);
                    assert(y.unparsed.fields.len() == y.unparsed.fields@.len());
                },
                InboundActivity::UpdateCommunity(y) => {
                    lemma_enc_pairs_len(y.unparsed.fields@);
                    lemma_enc_pairs_all_s(y.unparsed.fields@);
                    assert(y.unparsed.fields.len() == y.unparsed.fields@.len());
                },
                InboundActivity::Delete(y) => {
                    lemma_enc_pairs_len(y.unparsed.fields@);
                    lemma_enc_pairs_all_s(y.unparsed.fields@);
                    assert(y.unparsed.fields.len() == y.unparsed.fields@.len());
                },
                InboundActivity::UndoFollowCommunity(y) => {
                    lemma_enc_pairs_len(y.unparsed.fields@);
                    lemma_enc_pairs_all_s(y.unparsed.fields@);
                    assert(y.unparsed.fields.len() == y.unparsed.fields@.len());
                    lemma_enc_pairs_len(y.object.unparsed.fields@);
                    lemma_enc_pairs_all_s(y.object.unparsed.fields@);
                    assert(y.object.unparsed.fields.len() == y.object.unparsed.fields@.len());
                },
                InboundActivity::CreateOrUpdatePost(y) => {
                    lemma_enc_pairs_len(y.unparsed.fields@);
                    lemma_enc_pairs_all_s(y.unparsed.fields@);
                    assert(y.unparsed.fields.len() == y.unparsed.fields@.len());
                },
                InboundActivity::Vote(y) => {
                    lemma_enc_pairs_len(y.unparsed.fields@);
                    lemma_enc_pairs_all_s(y.unparsed.fields@);
                    assert(y.unparsed.fields.len() == y.unparsed.fields@.len());
                },
            }
        }
    }
    let tag = match get_u(t, 0) {
        Some(v) => v,
        None => {
            proof {
                if has_witness {
                    assert(false);
                }
            }
            return Err(ActivityError::UnsupportedActivityType);
        },
    };
    if tag == 0 {
        match (
            get_s(t, 1),
            get_s(t, 2),
            get_s(t, 3),
            get_s(t, 4),
            get_s(t, 5),
            get_s(t, 6),
            get_s(t, 7),
            get_s(t, 8),
            get_s(t, 9),
            get_s(t, 10),
            get_s(t, 11),
            get_s(t, 12),
            get_u(t, 13),
        ) {
            (
                Some(v1),
                Some(v2),
                Some(v3),
                Some(v4),
                Some(v5),
                Some(v6),
                Some(v7),
                Some(v8),
                Some(v9),
                Some(v10),
                Some(v11),
                Some(v12),
                Some(cnt),
            ) => {
                match parse_pairs(t, 14, cnt) {
                    Some(pairs) => {
                        let total = t.len();
                        proof {
                            assert(14 + 2 * pairs@.len() <= total);
                        }
                        if 14 + 2 * pairs.len() == total {
                            let av = InboundActivity::AddMod(
                                AddMod {
                                    actor: Url { domain: v1, path: v2 },
                                    to: PublicMarker::Public,
                                    object: Url { domain: v3, path: v4 },
                                    target: Url { domain: v5, path: v6 },
                                    cc: Url { domain: v7, path: v8 },
                                    kind: AddType::Add,
                                    id: Url { domain: v9, path: v10 },
                                    context: Url { domain: v11, path: v12 },
                                    unparsed: Unparsed { fields: pairs },
                                },
                            );
                            proof {
                                lemma_enc_pairs_len(av->AddMod_0.unparsed.fields@);
                                assert forall|i: int| 0 <= i < t@.len() implies t@[i]
                                    == spec_encode(av)[i] by {
                                    assert((enc_fixed(av) + enc_tail(av))[i] == if i < 14 {
                                        enc_fixed(av)[i]
                                    } else {
                                        enc_tail(av)[i - 14]
                                    });
                                    if i >= 14 {
                                        assert(t@[i] == t@.subrange(14, t@.len() as int)[i - 14]);
                                        assert(t@.subrange(14, t@.len() as int) == enc_pairs(
                                            av->AddMod_0.unparsed.fields@,
                                        ));
                                    }
                                }
                                assert(t@ =~= spec_encode(av));
                            }
                            Ok(av)
                        } else {
                            proof {
                                if has_witness {
                                    assert(false);
                                }
                            }
                            Err(ActivityError::UnsupportedActivityType)
                        }
                    },
                    None => {
                        proof {
                            if has_witness {
                                assert(false);
                            }
                        }
                        Err(ActivityError::UnsupportedActivityType)
                    },
                }
            },
            _ => {
                proof {
                    if has_witness {
                        assert(false);
                    }
                }
                Err(ActivityError::UnsupportedActivityType)
            },
        }
    } else if tag == 1 {
        match (
            get_s(t, 1),
            get_s(t, 2),
            get_s(t, 3),
            get_s(t, 4),
            get_opt_s(t, 5),
            get_b(t, 6),
            get_opt_s(t, 7),
            get_opt_s(t, 8),
            get_s(t, 9),
            get_s(t, 10),
            get_s(t, 11),
            get_s(t, 12),
            get_s(t, 13),
            get_s(t, 14),
            get_u(t, 15),
        ) {
            (
                Some(v1),
                Some(v2),
                Some(v3),
                Some(v4),
                Some(v5),
                Some(v6),
                Some(v7),
                Some(v8),
                Some(v9),
                Some(v10),
                Some(v11),
                Some(v12),
                Some(v13),
                Some(v14),
                Some(cnt),
            ) => {
                match parse_pairs(t, 16, cnt) {
                    Some(pairs) => {
                        let total = t.len();
                        proof {
                            assert(16 + 2 * pairs@.len() <= total);
                        }
                        if 16 + 2 * pairs.len() == total {
                            let av = InboundActivity::UpdateCommunity(
                                UpdateCommunity {
                                    actor: Url { domain: v1, path: v2 },
                                    to: PublicMarker::Public,
                                    object: Group {
                                        name: v3,
                                        title: v4,
                                        description: v5,
                                        nsfw: v6,
                                        icon: v7,
                                        banner: v8,
                                    },
                                    cc: Url { domain: v9, path: v10 },
                                    kind: UpdateType::Update,
                                    id: Url { domain: v11, path: v12 },
                                    context: Url { domain: v13, path: v14 },
                                    unparsed: Unparsed { fields: pairs },
                                },
                            );
                            proof {
                                lemma_enc_pairs_len(av->UpdateCommunity_0.unparsed.fields@);
                                assert forall|i: int| 0 <= i < t@.len() implies t@[i]
                                    == spec_encode(av)[i] by {
                                    assert((enc_fixed(av) + enc_tail(av))[i] == if i < 16 {
                                        enc_fixed(av)[i]
                                    } else {
                                        enc_tail(av)[i - 16]
                                    });
                                    if i >= 16 {
                                        assert(t@[i] == t@.subrange(16, t@.len() as int)[i - 16]);
                                        assert(t@.subrange(16, t@.len() as int) == enc_pairs(
                                            av->UpdateCommunity_0.unparsed.fields@,
                                        ));
                                    }
                                }
                                assert(t@ =~= spec_encode(av));
                            }
                            Ok(av)
                        } else {
                            proof {
                                if has_witness {
                                    assert(false);
                                }
                            }
                            Err(ActivityError::UnsupportedActivityType)
                        }
                    },
                    None => {
                        proof {
                            if has_witness {
                                assert(false);
                            }
                        }
                        Err(ActivityError::UnsupportedActivityType)
                    },
                }
            },
            _ => {
                proof {
                    if has_witness {
                        assert(false);
                    }
                }
                Err(ActivityError::UnsupportedActivityType)
            },
        }
    } else if tag == 2 {
        match (
            get_s(t, 1),
            get_s(t, 2),
            get_s(t, 3),
            get_s(t, 4),
            get_s(t, 5),
            get_s(t, 6),
            get_opt_s(t, 7),
            get_s(t, 8),
            get_s(t, 9),
            get_s(t, 10),
            get_s(t, 11),
            get_u(t, 12),
        ) {
            (
                Some(v1),
                Some(v2),
                Some(v3),
                Some(v4),
                Some(v5),
                Some(v6),
                Some(v7),
                Some(v8),
                Some(v9),
                Some(v10),
                Some(v11),
                Some(cnt),
            ) => {
                match parse_pairs(t, 13, cnt) {
                    Some(pairs) => {
                        let total = t.len();
                        proof {
                            assert(13 + 2 * pairs@.len() <= total);
                        }
                        if 13 + 2 * pairs.len() == total {
                            let av = InboundActivity::Delete(
                                Delete {
                                    actor: Url { domain: v1, path: v2 },
                                    to: PublicMarker::Public,
                                    object: Url { domain: v3, path: v4 },
                                    cc: Url { domain: v5, path: v6 },
                                    kind: DeleteType::Delete,
                                    summary: v7,
                                    id: Url { domain: v8, path: v9 },
                                    context: Url { domain: v10, path: v11 },
                                    unparsed: Unparsed { fields: pairs },
                                },
                            );
                            proof {
                                lemma_enc_pairs_len(av->Delete_0.unparsed.fields@);
                                assert forall|i: int| 0 <= i < t@.len() implies t@[i]
                                    == spec_encode(av)[i] by {
                                    assert((enc_fixed(av) + enc_tail(av))[i] == if i < 13 {
                                        enc_fixed(av)[i]
                                    } else {
                                        enc_tail(av)[i - 13]
                                    });
                                    if i >= 13 {
                                        assert(t@[i] == t@.subrange(13, t@.len() as int)[i - 13]);
                                        assert(t@.subrange(13, t@.len() as int) == enc_pairs(
                                            av->Delete_0.unparsed.fields@,
                                        ));
                                    }
                                }
                                assert(t@ =~= spec_encode(av));
                            }
                            Ok(av)
                        } else {
                            proof {
                                if has_witness {
                                    assert(false);
                                }
                            }
                            Err(ActivityError::UnsupportedActivityType)
                        }
                    },
                    None => {
                        proof {
                            if has_witness {
                                assert(false);
                            }
                        }
                        Err(ActivityError::UnsupportedActivityType)
                    },
                }
            },
            _ => {
                proof {
                    if has_witness {
                        assert(false);
                    }
                }
                Err(ActivityError::UnsupportedActivityType)
            },
        }
    } else if tag == 3 {
        match (
            get_s(t, 1),
            get_s(t, 2),
            get_s(t, 3),
            get_s(t, 4),
            get_s(t, 5),
            get_s(t, 6),
            get_s(t, 7),
            get_s(t, 8),
            get_s(t, 9),
            get_s(t, 10),
            get_s(t, 11),
            get_s(t, 12),
            get_s(t, 13),
            get_s(t, 14),
            get_s(t, 15),
            get_s(t, 16),
            get_u(t, 17),
            get_u(t, 18),
        ) {
            (
                Some(v1),
                Some(v2),
                Some(v3),
                Some(v4),
                Some(v5),
                Some(v6),
                Some(v7),
                Some(v8),
                Some(v9),
                Some(v10),
                Some(v11),
                Some(v12),
                Some(v13),
                Some(v14),
                Some(v15),
                Some(v16),
                Some(cnt_in),
                Some(cnt_out),
            ) => {
                match parse_pairs(t, 19, cnt_in) {
                    Some(pairs_in) => {
                        let total0 = t.len();
                        proof {
                            assert(19 + 2 * pairs_in@.len() <= total0);
                        }
                        let start2 = 19 + 2 * pairs_in.len();
                        match parse_pairs(t, start2, cnt_out) {
                            Some(pairs_out) => {
                                let total = t.len();
                                proof {
                                    assert(start2 + 2 * pairs_out@.len() <= total);
                                }
                                if start2 + 2 * pairs_out.len() == total {
                                    let ghost n_in = pairs_in@.len() as int;
                                    let av = InboundActivity::UndoFollowCommunity(
                                        UndoFollowCommunity {
                                            actor: Url { domain: v1, path: v2 },
                                            to: Url { domain: v3, path: v4 },
                                            object: FollowCommunity {
                                                actor: Url { domain: v5, path: v6 },
                                                object: Url { domain: v7, path: v8 },
                                                kind: FollowType::Follow,
                                                id: Url { domain: v9, path: v10 },
                                                context: Url { domain: v11, path: v12 },
                                                unparsed: Unparsed { fields: pairs_in },
                                            },
                                            kind: UndoType::Undo,
                                            id: Url { domain: v13, path: v14 },
                                            context: Url { domain: v15, path: v16 },
                                            unparsed: Unparsed { fields: pairs_out },
                                        },
                                    );
                                    proof {
                                        let inps = av->UndoFollowCommunity_0.object.unparsed.fields@;
                                        let outps = av->UndoFollowCommunity_0.unparsed.fields@;
                                        lemma_enc_pairs_len(inps);
                                        lemma_enc_pairs_len(outps);
                                        assert forall|i: int| 0 <= i < t@.len() implies t@[i]
                                            == spec_encode(av)[i] by {
                                            assert((enc_fixed(av) + enc_tail(av))[i] == if i < 19 {
                                                enc_fixed(av)[i]
                                            } else {
                                                enc_tail(av)[i - 19]
                                            });
                                            if i >= 19 {
                                                assert((enc_pairs(inps) + enc_pairs(outps))[i - 19]
                                                    == if i - 19 < 2 * n_in {
                                                    enc_pairs(inps)[i - 19]
                                                } else {
                                                    enc_pairs(outps)[i - 19 - 2 * n_in]
                                                });
                                                if i - 19 < 2 * n_in {
                                                    assert(t@[i] == t@.subrange(
                                                        19,
                                                        19 + 2 * n_in,
                                                    )[i - 19]);
                                                } else {
                                                    assert(t@[i] == t@.subrange(
                                                        start2 as int,
                                                        start2 as int + 2 * (outps.len() as int),
                                                    )[i - start2]);
                                                }
                                            }
                                        }
                                        assert(t@ =~= spec_encode(av));
                                    }
                                    Ok(av)
                                } else {
                                    proof {
                                        if has_witness {
                                            assert(false);
                                        }
                                    }
                                    Err(ActivityError::UnsupportedActivityType)
                                }
                            },
                            None => {
                                proof {
                                    if has_witness {
                                        assert(false);
                                    }
                                }
                                Err(ActivityError::UnsupportedActivityType)
                            },
                        }
                    },
                    None => {
                        proof {
                            if has_witness {
                                assert(false);
                            }
                        }
                        Err(ActivityError::UnsupportedActivityType)
                    },
                }
            },
            _ => {
                proof {
                    if has_witness {
                        assert(false);
                    }
                }
                Err(ActivityError::UnsupportedActivityType)
            },
        }
    } else if tag == 4 {
        match (
            get_s(t, 1),
            get_s(t, 2),
            get_s(t, 3),
            get_s(t, 4),
            get_s(t, 5),
            get_s(t, 6),
            get_s(t, 7),
            get_opt_b(t, 8),
            get_opt_b(t, 9),
            get_s(t, 10),
            get_s(t, 11),
            get_u(t, 12),
            get_s(t, 13),
            get_s(t, 14),
            get_s(t, 15),
            get_s(t, 16),
            get_u(t, 17),
        ) {
            (
                Some(v1),
                Some(v2),
                Some(v3),
                Some(v4),
                Some(v5),
                Some(v6),
                Some(v7),
                Some(v8),
                Some(v9),
                Some(v10),
                Some(v11),
                Some(ku),
                Some(v12),
                Some(v13),
                Some(v14),
                Some(v15),
                Some(cnt),
            ) => {
                if ku == 1 || ku == 2 {
                    let kind = if ku == 1 {
                        CreateOrUpdateType::Create
                    } else {
                        CreateOrUpdateType::Update
                    };
                    match parse_pairs(t, 18, cnt) {
                        Some(pairs) => {
                            let total = t.len();
                            proof {
                                assert(18 + 2 * pairs@.len() <= total);
                            }
                            if 18 + 2 * pairs.len() == total {
                                let av = InboundActivity::CreateOrUpdatePost(
                                    CreateOrUpdatePost {
                                        actor: Url { domain: v1, path: v2 },
                                        to: PublicMarker::Public,
                                        object: Page {
                                            id: Url { domain: v3, path: v4 },
                                            attributed_to: Url { domain: v5, path: v6 },
                                            name: v7,
                                            stickied: v8,
                                            comments_enabled: v9,
                                        },
                                        cc: Url { domain: v10, path: v11 },
                                        kind,
                                        id: Url { domain: v12, path: v13 },
                                        context: Url { domain: v14, path: v15 },
                                        unparsed: Unparsed { fields: pairs },
                                    },
                                );
                                proof {
                                    lemma_enc_pairs_len(av->CreateOrUpdatePost_0.unparsed.fields@);
                                    assert forall|i: int| 0 <= i < t@.len() implies t@[i]
                                        == spec_encode(av)[i] by {
                                        assert((enc_fixed(av) + enc_tail(av))[i] == if i < 18 {
                                            enc_fixed(av)[i]
                                        } else {
                                            enc_tail(av)[i - 18]
                                        });
                                        if i >= 18 {
                                            assert(t@[i] == t@.subrange(
                                                18,
                                                t@.len() as int,
                                            )[i - 18]);
                                            assert(t@.subrange(18, t@.len() as int) == enc_pairs(
                                                av->CreateOrUpdatePost_0.unparsed.fields@,
                                            ));
                                        }
                                    }
                                    assert(t@ =~= spec_encode(av));
                                }
                                Ok(av)
                            } else {
                                proof {
                                    if has_witness {
                                        assert(false);
                                    }
                                }
                                Err(ActivityError::UnsupportedActivityType)
                            }
                        },
                        None => {
                            proof {
                                if has_witness {
                                    assert(false);
                                }
                            }
                            Err(ActivityError::UnsupportedActivityType)
                        },
                    }
                } else {
                    proof {
                        if has_witness {
                            assert(false);
                        }
                    }
                    Err(ActivityError::UnsupportedActivityType)
                }
            },
            _ => {
                proof {
                    if has_witness {
                        assert(false);
                    }
                }
                Err(ActivityError::UnsupportedActivityType)
            },
        }
    } else if tag == 5 {
        match (
            get_s(t, 1),
            get_s(t, 2),
            get_s(t, 3),
            get_s(t, 4),
            get_s(t, 5),
            get_s(t, 6),
            get_u(t, 7),
            get_s(t, 8),
            get_s(t, 9),
            get_s(t, 10),
            get_s(t, 11),
            get_u(t, 12),
        ) {
            (
                Some(v1),
                Some(v2),
                Some(v3),
                Some(v4),
                Some(v5),
                Some(v6),
                Some(ku),
                Some(v7),
                Some(v8),
                Some(v9),
                Some(v10),
                Some(cnt),
            ) => {
                if ku == 1 || ku == 2 {
                    let kind = if ku == 1 {
                        VoteType::Like
                    } else {
                        VoteType::Dislike
                    };
                    match parse_pairs(t, 13, cnt) {
                        Some(pairs) => {
                            let total = t.len();
                            proof {
                                assert(13 + 2 * pairs@.len() <= total);
                            }
                            if 13 + 2 * pairs.len() == total {
                                let av = InboundActivity::Vote(
                                    Vote {
                                        actor: Url { domain: v1, path: v2 },
                                        to: PublicMarker::Public,
                                        object: Url { domain: v3, path: v4 },
                                        cc: Url { domain: v5, path: v6 },
                                        kind,
                                        id: Url { domain: v7, path: v8 },
                                        context: Url { domain: v9, path: v10 },
                                        unparsed: Unparsed { fields: pairs },
                                    },
                                );
                                proof {
                                    lemma_enc_pairs_len(av->Vote_0.unparsed.fields@);
                                    assert forall|i: int| 0 <= i < t@.len() implies t@[i]
                                        == spec_encode(av)[i] by {
                                        assert((enc_fixed(av) + enc_tail(av))[i] == if i < 13 {
                                            enc_fixed(av)[i]
                                        } else {
                                            enc_tail(av)[i - 13]
                                        });
                                        if i >= 13 {
                                            assert(t@[i] == t@.subrange(
                                                13,
                                                t@.len() as int,
                                            )[i - 13]);
                                            assert(t@.subrange(13, t@.len() as int) == enc_pairs(
                                                av->Vote_0.unparsed.fields@,
                                            ));
                                        }
                                    }
                                    assert(t@ =~= spec_encode(av));
                                }
                                Ok(av)
                            } else {
                                proof {
                                    if has_witness {
                                        assert(false);
                                    }
                                }
                                Err(ActivityError::UnsupportedActivityType)
                            }
                        },
                        None => {
                            proof {
                                if has_witness {
                                    assert(false);
                                }
                            }
                            Err(ActivityError::UnsupportedActivityType)
                        },
                    }
                } else {
                    proof {
                        if has_witness {
                            assert(false);
                        }
                    }
                    Err(ActivityError::UnsupportedActivityType)
                }
            },
            _ => {
                proof {
                    if has_witness {
                        assert(false);
                    }
                }
                Err(ActivityError::UnsupportedActivityType)
            },
        }
    } else {
        proof {
            if has_witness {
                assert(false);
            }
        }
        Err(ActivityError::UnsupportedActivityType)
    }
}

} // verus!
