//! What users browse, from the request to the answer: channels, plans, and subscriptions.
use vstd::prelude::*;

use crate::admin_auth;
use crate::channel::ChannelRecord;
use crate::db;
use crate::error::{AppError, ErrorKind, Refusal};
use crate::http::common;
use crate::http::gate;
use crate::http::gate::{Admitted, Entry, EntryAction, EntryReply, EntryStep, Service};
use crate::http::listings;
use crate::http::listings::{
    ChannelView, FoundChannel, FoundPlan, MySubscriptionView, SubscriptionPlanView,
};
use crate::lists;
use crate::sub2api::{Sub2ApiGroup, Sub2ApiSubscription};
use crate::subscription_plan::SubscriptionPlanRecord;

verus! {

/// What a user browses.
#[derive(Debug, Clone, Copy, PartialEq, Eq, Structural)]
pub enum Shelf {
    Channels,
    Plans,
    Subscriptions,
}

impl Shelf {
    pub open spec fn service(self) -> Service {
        match self {
            Shelf::Channels => Service::Channels,
            Shelf::Plans => Service::SubscriptionPlans,
            Shelf::Subscriptions => Service::MySubscriptions,
        }
    }

    pub fn to_service(self) -> (r: Service)
        ensures
            r == self.service(),
    {
        match self {
            Shelf::Channels => Service::Channels,
            Shelf::Plans => Service::SubscriptionPlans,
            Shelf::Subscriptions => Service::MySubscriptions,
        }
    }
}

/// What is to be done next.
#[derive(Debug)]
pub enum BrowseAction {
    /// Take a step towards letting the user in.
    Enter { action: EntryAction },
    /// List the channels that are enabled.
    ListChannels,
    /// List the plans that are for sale.
    ListPlans,
    GetGroup { group_id: i64, admin_key: String },
    /// Ask the platform for a user's subscriptions, and for all groups.
    GetSubscriptions { user_id: i64, admin_key: String },
}

/// What came of it.
#[derive(Debug)]
pub enum BrowseReply {
    Error { message: String },
    Entry { reply: EntryReply },
    Channels { channels: Vec<ChannelRecord> },
    Plans { plans: Vec<SubscriptionPlanRecord> },
    Group { group: Option<Sub2ApiGroup> },
    Subscriptions { items: Vec<Sub2ApiSubscription>, groups: Vec<Sub2ApiGroup> },
}

/// How far the work has come. What is yet to be looked up stands last first.
#[derive(Debug)]
pub enum Browse {
    Entering { shelf: Shelf, entry: Entry },
    ListingChannels { admin_key: String },
    LookingUpChannels {
        admin_key: String,
        channels_found: Vec<FoundChannel>,
        channel: ChannelRecord,
        channels_left: Vec<ChannelRecord>,
    },
    ListingPlans { admin_key: String },
    LookingUpPlans {
        admin_key: String,
        plans_found: Vec<FoundPlan>,
        plan: SubscriptionPlanRecord,
        plans_left: Vec<SubscriptionPlanRecord>,
    },
    ListingSubscriptions,
}

/// What the user is shown.
#[derive(Debug)]
pub enum Shown {
    Channels { channels: Vec<ChannelView> },
    Plans { plans: Vec<SubscriptionPlanView> },
    Subscriptions { subscriptions: Vec<MySubscriptionView> },
}

#[derive(Debug)]
pub enum BrowseStep {
    Act { action: BrowseAction, next: Browse },
    Done { result: Result<Shown, AppError> },
}

pub open spec fn refuses(out: BrowseStep, refusal: Refusal) -> bool {
    out matches BrowseStep::Done { result: Err(e) } && e@ == refusal
}

fn refuse(e: AppError) -> (r: BrowseStep)
    ensures
        refuses(r, e@),
{
    BrowseStep::Done { result: Err(e) }
}

fn unexpected_reply() -> (r: BrowseStep)
    ensures
        refuses(r, gate::unexpected()),
{
    refuse(AppError::internal("unexpected reply"))
}

// ---------------------------------------------------------------------------
// Letting the user in
// ---------------------------------------------------------------------------
/// What follows from a step towards letting the user in.
pub open spec fn entered(out: BrowseStep, shelf: Shelf, step: EntryStep) -> bool {
    match step {
        EntryStep::Act { action, next } => out == (BrowseStep::Act {
            action: BrowseAction::Enter { action },
            next: Browse::Entering { shelf, entry: next },
        }),
        EntryStep::Done { result: Err(e) } => refuses(out, e@),
        EntryStep::Done { result: Ok(admitted) } => match admitted.admin_key {
            None => refuses(out, gate::unexpected()),
            Some(key) => match shelf {
                Shelf::Channels => out == (BrowseStep::Act {
                    action: BrowseAction::ListChannels,
                    next: Browse::ListingChannels { admin_key: key },
                }),
                Shelf::Plans => out == (BrowseStep::Act {
                    action: BrowseAction::ListPlans,
                    next: Browse::ListingPlans { admin_key: key },
                }),
                Shelf::Subscriptions => out == (BrowseStep::Act {
                    action: BrowseAction::GetSubscriptions {
                        user_id: admitted.user.id,
                        admin_key: key,
                    },
                    next: Browse::ListingSubscriptions,
                }),
            },
        },
    }
}

fn enter(shelf: Shelf, step: EntryStep) -> (r: BrowseStep)
    ensures
        entered(r, shelf, step),
{
    match step {
        EntryStep::Act { action, next } => BrowseStep::Act {
            action: BrowseAction::Enter { action },
            next: Browse::Entering { shelf, entry: next },
        },
        EntryStep::Done { result } => match result {
            Err(e) => refuse(e),
            Ok(admitted) => match admitted.admin_key {
                None => unexpected_reply(),
                Some(admin_key) => match shelf {
                    Shelf::Channels => BrowseStep::Act {
                        action: BrowseAction::ListChannels,
                        next: Browse::ListingChannels { admin_key },
                    },
                    Shelf::Plans => BrowseStep::Act {
                        action: BrowseAction::ListPlans,
                        next: Browse::ListingPlans { admin_key },
                    },
                    Shelf::Subscriptions => BrowseStep::Act {
                        action: BrowseAction::GetSubscriptions {
                            user_id: admitted.user.id,
                            admin_key,
                        },
                        next: Browse::ListingSubscriptions,
                    },
                },
            },
        },
    }
}

/// Begins to show a user what they ask for.
pub fn begin_browse(shelf: Shelf, token: Option<&str>, lang: Option<&str>, platform: bool) -> (r:
    BrowseStep)
    ensures
        match gate::door_refusal(
            shelf.service(),
            db::opt_str(token),
            common::locale(db::opt_str(lang)),
            platform,
        ) {
            Some(refusal) => refuses(r, refusal),
            None => {
                &&& r matches BrowseStep::Act { action, next }
                &&& action matches BrowseAction::Enter { action: asked }
                &&& next matches Browse::Entering { shelf: s, entry }
                &&& s == shelf
                &&& gate::asks_for_user(
                    EntryStep::Act { action: asked, next: entry },
                    shelf.service(),
                    admin_auth::filled_trimmed(db::opt_str(token))->0,
                    common::locale(db::opt_str(lang)),
                )
            },
        },
{
    let locale = common::resolve_locale(lang);
    enter(shelf, gate::begin_entry(shelf.to_service(), token, locale, platform))
}

// ---------------------------------------------------------------------------
// Channels
// ---------------------------------------------------------------------------
/// The channels that are open are shown, in their order.
pub open spec fn shows_channels(out: BrowseStep, found: Seq<FoundChannel>) -> bool {
    &&& out matches BrowseStep::Done { result: Ok(Shown::Channels { channels }) }
    &&& channels@.len() == listings::shown_channels(found).len()
    &&& forall|i: int|
        0 <= i < channels@.len() ==> listings::channel_view(
            #[trigger] channels@[i],
            listings::shown_channels(found)[i].channel,
        )
}

/// The group of the next channel that has one is asked for; without one, what was found is
/// shown.
pub open spec fn looks_up_channels(
    out: BrowseStep,
    key: Seq<char>,
    found: Seq<FoundChannel>,
    rest: Seq<ChannelRecord>,
) -> bool
    decreases rest.len(),
{
    if rest.len() == 0 {
        shows_channels(out, found)
    } else {
        let channel = rest.last();
        match channel.group_id {
            None => looks_up_channels(
                out,
                key,
                found.push(FoundChannel { channel, group: None }),
                rest.drop_last(),
            ),
            Some(id) => {
                &&& out matches BrowseStep::Act { action, next }
                &&& action matches BrowseAction::GetGroup { group_id, admin_key }
                &&& group_id == id
                &&& admin_key@ == key
                &&& next matches Browse::LookingUpChannels {
                    admin_key: k,
                    channels_found: f,
                    channel: c,
                    channels_left: r,
                }
                &&& k@ == key
                &&& f@ == found
                &&& c == channel
                &&& r@ == rest.drop_last()
            },
        }
    }
}

#[verifier::loop_isolation(false)]
fn look_up_channels(
    admin_key: String,
    mut found: Vec<FoundChannel>,
    mut rest: Vec<ChannelRecord>,
) -> (r: BrowseStep)
    ensures
        looks_up_channels(r, admin_key@, found@, rest@),
{
    let ghost first_found = found@;
    let ghost first_rest = rest@;
    loop
        invariant
            forall|out: BrowseStep|
                looks_up_channels(out, admin_key@, found@, rest@) ==> #[trigger] looks_up_channels(
                    out,
                    admin_key@,
                    first_found,
                    first_rest,
                ),
        decreases rest@.len(),
    {
        let ghost before = rest@;
        match rest.pop() {
            None => {
                let channels = listings::list_channels(&found);
                let out = BrowseStep::Done { result: Ok(Shown::Channels { channels }) };
                assert(looks_up_channels(out, admin_key@, found@, rest@));
                return out;
            },
            Some(channel) => {
                assert(rest@ == before.drop_last() && channel == before.last());
                match channel.group_id {
                    None => {
                        found.push(FoundChannel { channel, group: None });
                    },
                    Some(group_id) => {
                        let ghost k = admin_key@;
                        let ghost f = found@;
                        let out = BrowseStep::Act {
                            action: BrowseAction::GetGroup {
                                group_id,
                                admin_key: admin_key.clone(),
                            },
                            next: Browse::LookingUpChannels {
                                admin_key,
                                channels_found: found,
                                channel,
                                channels_left: rest,
                            },
                        };
                        assert(looks_up_channels(out, k, f, before));
                        return out;
                    },
                }
            },
        }
    }
}

// ---------------------------------------------------------------------------
// Plans
// ---------------------------------------------------------------------------
/// The plans that are open are shown, in their order.
pub open spec fn shows_plans(out: BrowseStep, found: Seq<FoundPlan>) -> bool {
    &&& out matches BrowseStep::Done { result: Ok(Shown::Plans { plans }) }
    &&& plans@.len() == listings::shown_plans(found).len()
    &&& forall|i: int|
        0 <= i < plans@.len() ==> listings::shown_plans(found)[i].group is Some
            && listings::plan_view(
            #[trigger] plans@[i],
            listings::shown_plans(found)[i].plan,
            listings::shown_plans(found)[i].group->0,
        )
}

/// The group of the next plan that has one is asked for; without one, what was found is
/// shown.
pub open spec fn looks_up_plans(
    out: BrowseStep,
    key: Seq<char>,
    found: Seq<FoundPlan>,
    rest: Seq<SubscriptionPlanRecord>,
) -> bool
    decreases rest.len(),
{
    if rest.len() == 0 {
        shows_plans(out, found)
    } else {
        let plan = rest.last();
        match plan.group_id {
            None => looks_up_plans(
                out,
                key,
                found.push(FoundPlan { plan, group: None }),
                rest.drop_last(),
            ),
            Some(id) => {
                &&& out matches BrowseStep::Act { action, next }
                &&& action matches BrowseAction::GetGroup { group_id, admin_key }
                &&& group_id == id
                &&& admin_key@ == key
                &&& next matches Browse::LookingUpPlans {
                    admin_key: k,
                    plans_found: f,
                    plan: p,
                    plans_left: r,
                }
                &&& k@ == key
                &&& f@ == found
                &&& p == plan
                &&& r@ == rest.drop_last()
            },
        }
    }
}

#[verifier::loop_isolation(false)]
fn look_up_plans(
    admin_key: String,
    mut found: Vec<FoundPlan>,
    mut rest: Vec<SubscriptionPlanRecord>,
) -> (r: BrowseStep)
    ensures
        looks_up_plans(r, admin_key@, found@, rest@),
{
    let ghost first_found = found@;
    let ghost first_rest = rest@;
    loop
        invariant
            forall|out: BrowseStep|
                looks_up_plans(out, admin_key@, found@, rest@) ==> #[trigger] looks_up_plans(
                    out,
                    admin_key@,
                    first_found,
                    first_rest,
                ),
        decreases rest@.len(),
    {
        let ghost before = rest@;
        match rest.pop() {
            None => {
                let plans = listings::list_subscription_plans(&found);
                let out = BrowseStep::Done { result: Ok(Shown::Plans { plans }) };
                assert(looks_up_plans(out, admin_key@, found@, rest@));
                return out;
            },
            Some(plan) => {
                assert(rest@ == before.drop_last() && plan == before.last());
                match plan.group_id {
                    None => {
                        found.push(FoundPlan { plan, group: None });
                    },
                    Some(group_id) => {
                        let ghost k = admin_key@;
                        let ghost f = found@;
                        let out = BrowseStep::Act {
                            action: BrowseAction::GetGroup {
                                group_id,
                                admin_key: admin_key.clone(),
                            },
                            next: Browse::LookingUpPlans {
                                admin_key,
                                plans_found: found,
                                plan,
                                plans_left: rest,
                            },
                        };
                        assert(looks_up_plans(out, k, f, before));
                        return out;
                    },
                }
            },
        }
    }
}

// ---------------------------------------------------------------------------
// The steps
// ---------------------------------------------------------------------------
/// A group that was asked for, as far as the platform tells.
pub open spec fn group_told(reply: BrowseReply) -> Option<Option<Sub2ApiGroup>> {
    match reply {
        BrowseReply::Group { group } => Some(group),
        BrowseReply::Error { .. } => Some(None),
        _ => None,
    }
}

fn read_group(reply: BrowseReply) -> (r: Option<Option<Sub2ApiGroup>>)
    ensures
        r == group_told(reply),
{
    match reply {
        BrowseReply::Group { group } => Some(group),
        BrowseReply::Error { .. } => Some(None),
        _ => None,
    }
}

/// What one step does.
pub open spec fn browse_next(state: Browse, reply: BrowseReply, out: BrowseStep) -> bool {
    match state {
        Browse::Entering { shelf, entry } => match reply {
            BrowseReply::Entry { reply: r } => exists|step: EntryStep| #[trigger]
                gate::entry_next(entry, r, step) && entered(out, shelf, step),
            _ => refuses(out, gate::unexpected()),
        },
        Browse::ListingChannels { admin_key } => match reply {
            BrowseReply::Error { message } => refuses(out, (ErrorKind::Internal, message@)),
            BrowseReply::Channels { channels } => looks_up_channels(
                out,
                admin_key@,
                Seq::empty(),
                channels@.reverse(),
            ),
            _ => refuses(out, gate::unexpected()),
        },
        Browse::LookingUpChannels {
            admin_key,
            channels_found,
            channel,
            channels_left,
        } => match group_told(reply) {
            Some(group) => looks_up_channels(
                out,
                admin_key@,
                channels_found@.push(FoundChannel { channel, group }),
                channels_left@,
            ),
            None => refuses(out, gate::unexpected()),
        },
        Browse::ListingPlans { admin_key } => match reply {
            BrowseReply::Error { message } => refuses(out, (ErrorKind::Internal, message@)),
            BrowseReply::Plans { plans } => looks_up_plans(
                out,
                admin_key@,
                Seq::empty(),
                plans@.reverse(),
            ),
            _ => refuses(out, gate::unexpected()),
        },
        Browse::LookingUpPlans {
            admin_key,
            plans_found,
            plan,
            plans_left,
        } => match group_told(reply) {
            Some(group) => looks_up_plans(
                out,
                admin_key@,
                plans_found@.push(FoundPlan { plan, group }),
                plans_left@,
            ),
            None => refuses(out, gate::unexpected()),
        },
        Browse::ListingSubscriptions => match reply {
            BrowseReply::Error { message } => refuses(out, (ErrorKind::Internal, message@)),
            BrowseReply::Subscriptions { items, groups } => {
                &&& out matches BrowseStep::Done {
                    result: Ok(Shown::Subscriptions { subscriptions }),
                }
                &&& subscriptions@.len() == items@.len()
                &&& forall|i: int|
                    0 <= i < items@.len() ==> listings::subscription_view(
                        #[trigger] subscriptions@[i],
                        items@[i],
                        groups@,
                    )
            },
            _ => refuses(out, gate::unexpected()),
        },
    }
}

/// Goes one step on from a reply.
pub fn browse_step(state: Browse, reply: BrowseReply) -> (r: BrowseStep)
    ensures
        browse_next(state, reply, r),
{
    match state {
        Browse::Entering { shelf, entry } => match reply {
            BrowseReply::Entry { reply } => {
                let step = gate::entry_step(entry, reply);
                assert(gate::entry_next(entry, reply, step));
                enter(shelf, step)
            },
            _ => unexpected_reply(),
        },
        Browse::ListingChannels { admin_key } => match reply {
            BrowseReply::Error { message } => refuse(AppError::internal(message.as_str())),
            BrowseReply::Channels { channels } => {
                let found: Vec<FoundChannel> = Vec::new();
                assert(found@ =~= Seq::empty());
                look_up_channels(admin_key, found, lists::reversed(channels))
            },
            _ => unexpected_reply(),
        },
        Browse::LookingUpChannels {
            admin_key,
            channels_found,
            channel,
            channels_left,
        } => match read_group(reply) {
            Some(group) => {
                let mut found = channels_found;
                found.push(FoundChannel { channel, group });
                look_up_channels(admin_key, found, channels_left)
            },
            None => unexpected_reply(),
        },
        Browse::ListingPlans { admin_key } => match reply {
            BrowseReply::Error { message } => refuse(AppError::internal(message.as_str())),
            BrowseReply::Plans { plans } => {
                let found: Vec<FoundPlan> = Vec::new();
                assert(found@ =~= Seq::empty());
                look_up_plans(admin_key, found, lists::reversed(plans))
            },
            _ => unexpected_reply(),
        },
        Browse::LookingUpPlans {
            admin_key,
            plans_found,
            plan,
            plans_left,
        } => match read_group(reply) {
            Some(group) => {
                let mut found = plans_found;
                found.push(FoundPlan { plan, group });
                look_up_plans(admin_key, found, plans_left)
            },
            None => unexpected_reply(),
        },
        Browse::ListingSubscriptions => match reply {
            BrowseReply::Error { message } => refuse(AppError::internal(message.as_str())),
            BrowseReply::Subscriptions { items, groups } => {
                let subscriptions = listings::list_my_subscriptions(items, &groups);
                BrowseStep::Done { result: Ok(Shown::Subscriptions { subscriptions }) }
            },
            _ => unexpected_reply(),
        },
    }
}

// ---------------------------------------------------------------------------
// Laws
// ---------------------------------------------------------------------------
/// The user is let in to what they browse, and to nothing else.
pub open spec fn at_its_door(state: Browse) -> bool {
    state matches Browse::Entering { shelf, entry } ==> match entry {
        Entry::Identifying { service, .. } => service == shelf.service(),
        Entry::FindingKey { service, .. } => service == shelf.service(),
    }
}

/// Nothing is listed for a user before the platform has named them and its key was found.
pub proof fn law_nothing_is_listed_before_entry(
    state: Browse,
    reply: BrowseReply,
    action: BrowseAction,
    next: Browse,
)
    requires
        at_its_door(state),
        browse_next(state, reply, BrowseStep::Act { action, next }),
    ensures
        at_its_door(next),
        action is ListChannels || action is ListPlans || action is GetSubscriptions ==> {
            &&& state matches Browse::Entering { entry, .. }
            &&& entry is FindingKey
            &&& reply matches BrowseReply::Entry { reply: r }
            &&& r is Setting
        },
        action matches BrowseAction::GetSubscriptions { user_id, .. } ==> {
            &&& state matches Browse::Entering { entry, .. }
            &&& entry matches Entry::FindingKey { user, .. }
            &&& user_id == user.id
        },
        action is GetGroup ==> !(state is Entering),
{
    if state is ListingChannels {
        if let BrowseReply::Channels { channels } = reply {
            lemma_channels_ask_for_groups(
                BrowseStep::Act { action, next },
                state->ListingChannels_admin_key@,
                Seq::empty(),
                channels@.reverse(),
            );
        }
    } else if state is LookingUpChannels && group_told(reply) is Some {
        lemma_channels_ask_for_groups(
            BrowseStep::Act { action, next },
            state->LookingUpChannels_admin_key@,
            state->channels_found@.push(
                FoundChannel { channel: state->channel, group: group_told(reply)->0 },
            ),
            state->channels_left@,
        );
    } else if state is ListingPlans {
        if let BrowseReply::Plans { plans } = reply {
            lemma_plans_ask_for_groups(
                BrowseStep::Act { action, next },
                state->ListingPlans_admin_key@,
                Seq::empty(),
                plans@.reverse(),
            );
        }
    } else if state is LookingUpPlans && group_told(reply) is Some {
        lemma_plans_ask_for_groups(
            BrowseStep::Act { action, next },
            state->LookingUpPlans_admin_key@,
            state->plans_found@.push(
                FoundPlan { plan: state->plan, group: group_told(reply)->0 },
            ),
            state->plans_left@,
        );
    }
}

proof fn lemma_channels_ask_for_groups(
    out: BrowseStep,
    key: Seq<char>,
    found: Seq<FoundChannel>,
    rest: Seq<ChannelRecord>,
)
    requires
        looks_up_channels(out, key, found, rest),
    ensures
        out matches BrowseStep::Act { action, next } ==> action is GetGroup && !(next is Entering),
    decreases rest.len(),
{
    if rest.len() > 0 && rest.last().group_id is None {
        lemma_channels_ask_for_groups(
            out,
            key,
            found.push(FoundChannel { channel: rest.last(), group: None }),
            rest.drop_last(),
        );
    }
}

proof fn lemma_plans_ask_for_groups(
    out: BrowseStep,
    key: Seq<char>,
    found: Seq<FoundPlan>,
    rest: Seq<SubscriptionPlanRecord>,
)
    requires
        looks_up_plans(out, key, found, rest),
    ensures
        out matches BrowseStep::Act { action, next } ==> action is GetGroup && !(next is Entering),
    decreases rest.len(),
{
    if rest.len() > 0 && rest.last().group_id is None {
        lemma_plans_ask_for_groups(
            out,
            key,
            found.push(FoundPlan { plan: rest.last(), group: None }),
            rest.drop_last(),
        );
    }
}

/// Browsing goes on by steps.
pub proof fn law_browsing_goes_on_by_steps(state: Browse, reply: BrowseReply, out: BrowseStep)
    requires
        call_ensures(browse_step, (state, reply), out),
    ensures
        browse_next(state, reply, out),
{
}

/// A group is looked up for each channel and each plan that has one, under the platform's key,
/// and a user's subscriptions are their own.
pub proof fn law_groups_are_looked_up(
    admin_key: String,
    channels: Vec<ChannelRecord>,
    plans: Vec<SubscriptionPlanRecord>,
    first: BrowseStep,
    second: BrowseStep,
)
    requires
        browse_next(
            Browse::ListingChannels { admin_key },
            BrowseReply::Channels { channels },
            first,
        ),
        browse_next(Browse::ListingPlans { admin_key }, BrowseReply::Plans { plans }, second),
        channels@.len() > 0 && channels@[0].group_id is Some,
        plans@.len() > 0 && plans@[0].group_id is Some,
    ensures
        first matches BrowseStep::Act { action: BrowseAction::GetGroup { group_id, admin_key: k }, .. }
            && Some(group_id) == channels@[0].group_id && k@ == admin_key@,
        second matches BrowseStep::Act {
            action: BrowseAction::GetGroup { group_id, admin_key: k },
            ..
        } && Some(group_id) == plans@[0].group_id && k@ == admin_key@,
{
    assert(channels@.reverse().last() == channels@[0]);
    assert(plans@.reverse().last() == plans@[0]);
}

/// The subscriptions that are listed are those of the visitor.
pub proof fn law_visitors_see_their_own_subscriptions(
    shelf: Shelf,
    admitted: Admitted,
    out: BrowseStep,
)
    requires
        entered(out, shelf, EntryStep::Done { result: Ok(admitted) }),
        admitted.admin_key is Some,
    ensures
        shelf is Subscriptions ==> (out matches BrowseStep::Act {
            action: BrowseAction::GetSubscriptions { user_id, admin_key },
            ..
        } && user_id == admitted.user.id && admin_key == admitted.admin_key->0),
        shelf is Channels ==> (out matches BrowseStep::Act { action, .. } && action
            is ListChannels),
        shelf is Plans ==> (out matches BrowseStep::Act { action, .. } && action is ListPlans),
{
}

}
