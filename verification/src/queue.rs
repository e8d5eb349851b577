//! The delivery side of the broadcast queue: stamping outbound
//! activities with a fresh origin-scoped id and computing the set of
//! recipient inboxes. The deployment performs the per-inbox posts,
//! attempting each recipient independently so that one failing inbox
//! never blocks the others.

use vstd::prelude::*;
use vstd::string::StringExecFns;

use crate::model::Community;
use crate::urls::Url;

verus! {

/// An outbound activity ready for transport: its unique id and the
/// inboxes it must be posted to. An empty inbox list means the
/// addressed community performs the follower fan-out itself.
pub struct DeliveryPlan {
    pub activity_id: Url,
    pub inboxes: Vec<Url>,
}

/// A freshly stamped activity id under this node's own hostname:
/// `{hostname}/activities/{kind}/{suffix}`. The caller supplies an
/// opaque `suffix` that it guarantees unique per origin instance.
pub fn generate_activity_id(kind: &str, hostname: &String, suffix: &str) -> (r: Url)
    ensures
        r.domain@ == hostname@,
        r.path@ == "/activities/"@ + kind@ + "/"@ + suffix@,
{
    let path = String::from_str("/activities/").concat(kind).concat("/").concat(suffix);
    Url { domain: hostname.clone(), path }
}

/// Address an activity to a community: a local community relays to its
/// own followers (so only the extra direct inboxes are posted), while
/// a remote community is reached through its shared inbox, ahead of
/// any extra direct inboxes.
pub fn send_to_community(activity_id: Url, community: &Community, direct_inboxes: Vec<Url>) -> (r:
    DeliveryPlan)
    ensures
        r.activity_id == activity_id,
        community.local ==> r.inboxes@ == direct_inboxes@,
        !community.local ==> r.inboxes@ == seq![community.spec_shared_inbox_or_inbox()]
            + direct_inboxes@,
{
    if community.local {
        DeliveryPlan { activity_id, inboxes: direct_inboxes }
    } else {
        let mut inboxes: Vec<Url> = Vec::new();
        inboxes.push(community.get_shared_inbox_or_inbox_url());
        let mut rest = direct_inboxes;
        inboxes.append(&mut rest);
        proof {
            assert(inboxes@ =~= seq![community.spec_shared_inbox_or_inbox()] + direct_inboxes@);
        }
        DeliveryPlan { activity_id, inboxes }
    }
}

/// Address an activity to an explicit inbox list, with no relay.
pub fn send_activity(activity_id: Url, inboxes: Vec<Url>) -> (r: DeliveryPlan)
    ensures
        r.activity_id == activity_id,
        r.inboxes == inboxes,
{
    DeliveryPlan { activity_id, inboxes }
}

} // verus!
