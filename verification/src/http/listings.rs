//! What is on offer to users, and what they have.
use vstd::prelude::*;

use crate::channel::ChannelRecord;
use crate::db;
use crate::http::admin::subscription_plans::{filled_name, shown_name};
use crate::json;
use crate::lists;
use crate::sub2api::{Float64, Sub2ApiGroup, Sub2ApiSubscription};
use crate::subscription_plan::SubscriptionPlanRecord;
use crate::text;

verus! {

/// Whether a group was found and is active.
pub open spec fn is_open(group: Option<Sub2ApiGroup>) -> bool {
    group matches Some(g) && g.status@ == "active"@
}

// ---------------------------------------------------------------------------
// Channels
// ---------------------------------------------------------------------------
/// A channel with its group, as it was looked up.
#[derive(Debug)]
pub struct FoundChannel {
    pub channel: ChannelRecord,
    pub group: Option<Sub2ApiGroup>,
}

/// A channel is shown that has no group, or whose group is active.
pub open spec fn channel_is_shown(c: FoundChannel) -> bool {
    c.channel.group_id is None || is_open(c.group)
}

/// A channel as users see it. The rate is in ten thousandths.
#[derive(Debug)]
pub struct ChannelView {
    pub id: String,
    pub group_id: Option<i64>,
    pub name: String,
    pub platform: String,
    pub rate_multiplier_bps: i64,
    pub description: Option<String>,
    pub models: Vec<String>,
    pub features: Vec<String>,
    pub sort_order: i64,
}

pub open spec fn channel_view(v: ChannelView, channel: ChannelRecord) -> bool {
    &&& v.id@ == channel.id@
    &&& v.group_id == channel.group_id
    &&& v.name@ == channel.name@
    &&& v.platform@ == channel.platform@
    &&& v.rate_multiplier_bps == channel.rate_multiplier_bps
    &&& db::opt_text(v.description) == db::opt_text(channel.description)
    &&& text::texts(v.models@) == json::listed(db::opt_text(channel.models))
    &&& text::texts(v.features@) == json::listed(db::opt_text(channel.features))
    &&& v.sort_order == channel.sort_order
}

pub fn to_channel_view(channel: &ChannelRecord) -> (r: ChannelView)
    ensures
        channel_view(r, *channel),
{
    ChannelView {
        id: channel.id.clone(),
        group_id: channel.group_id,
        name: channel.name.clone(),
        platform: channel.platform.clone(),
        rate_multiplier_bps: channel.rate_multiplier_bps,
        description: db::copy_opt(&channel.description),
        models: json::parse_string_array(db::as_deref(&channel.models)),
        features: json::parse_string_array(db::as_deref(&channel.features)),
        sort_order: channel.sort_order,
    }
}

fn group_is_open(group: &Option<Sub2ApiGroup>) -> (r: bool)
    ensures
        r == is_open(*group),
{
    match group {
        Some(g) => text::same(g.status.as_str(), "active"),
        None => false,
    }
}

/// The channels that are shown.
pub open spec fn shown_channels(found: Seq<FoundChannel>) -> Seq<FoundChannel> {
    found.filter(|c: FoundChannel| channel_is_shown(c))
}

/// Shows the channels that are open, in their order.
pub fn list_channels(found: &Vec<FoundChannel>) -> (r: Vec<ChannelView>)
    ensures
        r@.len() == shown_channels(found@).len(),
        forall|i: int|
            0 <= i < r@.len() ==> channel_view(
                #[trigger] r@[i],
                shown_channels(found@)[i].channel,
            ),
{
    let ghost all = found@;
    let ghost p = |c: FoundChannel| channel_is_shown(c);
    let mut out: Vec<ChannelView> = Vec::new();
    let mut i: usize = 0;
    proof {
        reveal(Seq::filter);
        assert(all.take(0).filter(p).len() == 0);
    }
    while i < found.len()
        invariant
            i <= found@.len(),
            all == found@,
            p == (|c: FoundChannel| channel_is_shown(c)),
            out@.len() == all.take(i as int).filter(p).len(),
            forall|j: int|
                0 <= j < out@.len() ==> channel_view(
                    #[trigger] out@[j],
                    all.take(i as int).filter(p)[j].channel,
                ),
        decreases found@.len() - i,
    {
        proof {
            reveal(Seq::filter);
            assert(all.take(i + 1).drop_last() =~= all.take(i as int));
            assert(all.take(i + 1).last() == all[i as int]);
        }
        if found[i].channel.group_id.is_none() || group_is_open(&found[i].group) {
            out.push(to_channel_view(&found[i].channel));
        }
        i += 1;
    }
    assert(all.take(i as int) =~= all);
    out
}

/// A channel whose group is not active is not shown.
pub proof fn law_closed_channels_are_not_shown(found: Seq<FoundChannel>, i: int)
    requires
        0 <= i < shown_channels(found).len(),
    ensures
        found.contains(shown_channels(found)[i]),
        shown_channels(found)[i].channel.group_id is Some ==> is_open(
            shown_channels(found)[i].group,
        ),
{
    let p = |c: FoundChannel| channel_is_shown(c);
    found.lemma_filter_pred(p, i);
    assert(shown_channels(found).contains(shown_channels(found)[i]));
    found.lemma_filter_contains_rev(p, shown_channels(found)[i]);
}

// ---------------------------------------------------------------------------
// Plans
// ---------------------------------------------------------------------------
/// A plan with its group, as it was looked up.
#[derive(Debug)]
pub struct FoundPlan {
    pub plan: SubscriptionPlanRecord,
    pub group: Option<Sub2ApiGroup>,
}

/// A plan is shown that has a group, and whose group is active.
pub open spec fn plan_is_shown(p: FoundPlan) -> bool {
    p.plan.group_id is Some && is_open(p.group)
}

/// A plan as users see it, with its group. Prices are in cents.
#[derive(Debug)]
pub struct SubscriptionPlanView {
    pub id: String,
    pub group_id: i64,
    pub group_name: Option<String>,
    pub name: String,
    pub description: Option<String>,
    pub price_cents: i64,
    pub original_price_cents: Option<i64>,
    pub validity_days: i64,
    pub validity_unit: String,
    pub features: Vec<String>,
    pub product_name: Option<String>,
    pub platform: Option<String>,
    pub rate_multiplier: Option<Float64>,
    pub daily_limit_usd: Option<Float64>,
    pub weekly_limit_usd: Option<Float64>,
    pub monthly_limit_usd: Option<Float64>,
    pub allow_messages_dispatch: bool,
    pub default_mapped_model: Option<String>,
}

pub open spec fn plan_view(
    v: SubscriptionPlanView,
    plan: SubscriptionPlanRecord,
    group: Sub2ApiGroup,
) -> bool {
    &&& v.id@ == plan.id@
    &&& Some(v.group_id) == plan.group_id
    &&& db::opt_text(v.group_name) == shown_name(group.name@)
    &&& v.name@ == plan.name@
    &&& db::opt_text(v.description) == db::opt_text(plan.description)
    &&& v.price_cents == plan.price_cents
    &&& v.original_price_cents == plan.original_price_cents
    &&& v.validity_days == plan.validity_days
    &&& v.validity_unit@ == plan.validity_unit@
    &&& text::texts(v.features@) == json::listed(db::opt_text(plan.features))
    &&& db::opt_text(v.product_name) == db::opt_text(plan.product_name)
    &&& db::opt_text(v.platform) == db::opt_text(group.platform)
    &&& v.rate_multiplier == group.rate_multiplier
    &&& v.daily_limit_usd == group.daily_limit_usd
    &&& v.weekly_limit_usd == group.weekly_limit_usd
    &&& v.monthly_limit_usd == group.monthly_limit_usd
    &&& v.allow_messages_dispatch == group.allow_messages_dispatch
    &&& db::opt_text(v.default_mapped_model) == db::opt_text(group.default_mapped_model)
}

pub fn to_subscription_plan_view(plan: &SubscriptionPlanRecord, group: &Sub2ApiGroup, group_id: i64) -> (r:
    SubscriptionPlanView)
    requires
        plan.group_id == Some(group_id),
    ensures
        plan_view(r, *plan, *group),
{
    SubscriptionPlanView {
        id: plan.id.clone(),
        group_id,
        group_name: filled_name(group.name.clone()),
        name: plan.name.clone(),
        description: db::copy_opt(&plan.description),
        price_cents: plan.price_cents,
        original_price_cents: plan.original_price_cents,
        validity_days: plan.validity_days,
        validity_unit: plan.validity_unit.clone(),
        features: json::parse_string_array(db::as_deref(&plan.features)),
        product_name: db::copy_opt(&plan.product_name),
        platform: db::copy_opt(&group.platform),
        rate_multiplier: group.rate_multiplier,
        daily_limit_usd: group.daily_limit_usd,
        weekly_limit_usd: group.weekly_limit_usd,
        monthly_limit_usd: group.monthly_limit_usd,
        allow_messages_dispatch: group.allow_messages_dispatch,
        default_mapped_model: db::copy_opt(&group.default_mapped_model),
    }
}

/// The plans that are shown.
pub open spec fn shown_plans(found: Seq<FoundPlan>) -> Seq<FoundPlan> {
    found.filter(|p: FoundPlan| plan_is_shown(p))
}

/// Shows the plans that can be bought, in their order.
pub fn list_subscription_plans(found: &Vec<FoundPlan>) -> (r: Vec<SubscriptionPlanView>)
    ensures
        r@.len() == shown_plans(found@).len(),
        forall|i: int|
            0 <= i < r@.len() ==> shown_plans(found@)[i].group is Some && plan_view(
                #[trigger] r@[i],
                shown_plans(found@)[i].plan,
                shown_plans(found@)[i].group->0,
            ),
{
    let ghost all = found@;
    let ghost p = |p: FoundPlan| plan_is_shown(p);
    let mut out: Vec<SubscriptionPlanView> = Vec::new();
    let mut i: usize = 0;
    proof {
        reveal(Seq::filter);
        assert(all.take(0).filter(p).len() == 0);
    }
    while i < found.len()
        invariant
            i <= found@.len(),
            all == found@,
            p == (|p: FoundPlan| plan_is_shown(p)),
            out@.len() == all.take(i as int).filter(p).len(),
            forall|j: int|
                0 <= j < out@.len() ==> all.take(i as int).filter(p)[j].group is Some && plan_view(
                    #[trigger] out@[j],
                    all.take(i as int).filter(p)[j].plan,
                    all.take(i as int).filter(p)[j].group->0,
                ),
        decreases found@.len() - i,
    {
        proof {
            reveal(Seq::filter);
            assert(all.take(i + 1).drop_last() =~= all.take(i as int));
            assert(all.take(i + 1).last() == all[i as int]);
        }
        if let Some(group_id) = found[i].plan.group_id {
            if let Some(group) = &found[i].group {
                if text::same(group.status.as_str(), "active") {
                    out.push(to_subscription_plan_view(&found[i].plan, group, group_id));
                }
            }
        }
        i += 1;
    }
    assert(all.take(i as int) =~= all);
    out
}

/// A plan without a group, or whose group is not active, is not shown.
pub proof fn law_closed_plans_are_not_shown(found: Seq<FoundPlan>, i: int)
    requires
        0 <= i < shown_plans(found).len(),
    ensures
        found.contains(shown_plans(found)[i]),
        shown_plans(found)[i].plan.group_id is Some,
        is_open(shown_plans(found)[i].group),
{
    let p = |p: FoundPlan| plan_is_shown(p);
    found.lemma_filter_pred(p, i);
    assert(shown_plans(found).contains(shown_plans(found)[i]));
    found.lemma_filter_contains_rev(p, shown_plans(found)[i]);
}

// ---------------------------------------------------------------------------
// Subscriptions
// ---------------------------------------------------------------------------
/// A subscription as its holder sees it, with what its group is called.
#[derive(Debug)]
pub struct MySubscriptionView {
    pub subscription: Sub2ApiSubscription,
    pub group_name: Option<String>,
    pub platform: Option<String>,
}

/// The group with a number: of two, the later.
pub open spec fn group_with(groups: Seq<Sub2ApiGroup>, id: i64) -> Option<Sub2ApiGroup>
    decreases groups.len(),
{
    if groups.len() == 0 {
        None
    } else if groups.last().id == id {
        Some(groups.last())
    } else {
        group_with(groups.drop_last(), id)
    }
}

fn find_group<'a>(groups: &'a Vec<Sub2ApiGroup>, id: i64) -> (r: Option<&'a Sub2ApiGroup>)
    ensures
        match r {
            Some(g) => group_with(groups@, id) == Some(*g),
            None => group_with(groups@, id) is None,
        },
{
    let mut n: usize = groups.len();
    assert(groups@.take(n as int) =~= groups@);
    while n > 0
        invariant
            n <= groups@.len(),
            group_with(groups@, id) == group_with(groups@.take(n as int), id),
        decreases n,
    {
        assert(groups@.take(n as int).drop_last() =~= groups@.take(n - 1));
        if groups[n - 1].id == id {
            return Some(&groups[n - 1]);
        }
        n -= 1;
    }
    None
}

pub open spec fn subscription_view(
    v: MySubscriptionView,
    item: Sub2ApiSubscription,
    groups: Seq<Sub2ApiGroup>,
) -> bool {
    &&& v.subscription == item
    &&& db::opt_text(v.group_name) == match group_with(groups, item.group_id) {
        Some(g) => shown_name(g.name@),
        None => None,
    }
    &&& db::opt_text(v.platform) == match group_with(groups, item.group_id) {
        Some(g) => db::opt_text(g.platform),
        None => None,
    }
}

pub fn to_my_subscription_view(item: Sub2ApiSubscription, groups: &Vec<Sub2ApiGroup>) -> (r:
    MySubscriptionView)
    ensures
        subscription_view(r, item, groups@),
{
    match find_group(groups, item.group_id) {
        Some(g) => MySubscriptionView {
            subscription: item,
            group_name: filled_name(g.name.clone()),
            platform: db::copy_opt(&g.platform),
        },
        None => MySubscriptionView { subscription: item, group_name: None, platform: None },
    }
}

/// Shows a user's subscriptions, in their order.
pub fn list_my_subscriptions(items: Vec<Sub2ApiSubscription>, groups: &Vec<Sub2ApiGroup>) -> (r: Vec<
    MySubscriptionView,
>)
    ensures
        r@.len() == items@.len(),
        forall|i: int|
            0 <= i < r@.len() ==> subscription_view(#[trigger] r@[i], items@[i], groups@),
{
    let ghost all = items@;
    let mut rest = lists::reversed(items);
    assert(all.skip(0) =~= all);
    let mut out: Vec<MySubscriptionView> = Vec::new();
    while rest.len() > 0
        invariant
            rest@.len() + out@.len() == all.len(),
            rest@ == all.skip(out@.len() as int).reverse(),
            forall|j: int|
                0 <= j < out@.len() ==> subscription_view(#[trigger] out@[j], all[j], groups@),
        decreases rest@.len(),
    {
        let ghost n = out@.len() as int;
        let ghost before = rest@;
        if let Some(item) = rest.pop() {
            assert(before.last() == all[n]);
            assert(rest@ =~= all.skip(n + 1).reverse());
            out.push(to_my_subscription_view(item, groups));
        }
    }
    out
}

/// A channel is shown exactly where it has no group or its group is active, and a plan exactly
/// where it has a group that is active.
pub proof fn law_what_is_open_is_shown(channels: Seq<FoundChannel>, plans: Seq<FoundPlan>, i: int)
    ensures
        0 <= i < channels.len() ==> (shown_channels(channels).contains(channels[i])
            <==> channels[i].channel.group_id is None || (channels[i].group matches Some(g)
            && g.status@ == "active"@)),
        0 <= i < plans.len() ==> (shown_plans(plans).contains(plans[i])
            <==> plans[i].plan.group_id is Some && (plans[i].group matches Some(g) && g.status@
            == "active"@)),
{
    if 0 <= i < channels.len() {
        let p = |c: FoundChannel| channel_is_shown(c);
        if p(channels[i]) {
            channels.lemma_filter_contains(p, i);
        } else if shown_channels(channels).contains(channels[i]) {
            let j = choose|j: int|
                0 <= j < shown_channels(channels).len() && shown_channels(channels)[j]
                    == channels[i];
            channels.lemma_filter_pred(p, j);
        }
    }
    if 0 <= i < plans.len() {
        let p = |c: FoundPlan| plan_is_shown(c);
        if p(plans[i]) {
            plans.lemma_filter_contains(p, i);
        } else if shown_plans(plans).contains(plans[i]) {
            let j = choose|j: int|
                0 <= j < shown_plans(plans).len() && shown_plans(plans)[j] == plans[i];
            plans.lemma_filter_pred(p, j);
        }
    }
}

/// A plan is shown with its own price, length and name and with its group's limits; a channel
/// with its own rate, name and platform.
pub proof fn law_offers_are_shown_as_they_are(
    v: SubscriptionPlanView,
    plan: SubscriptionPlanRecord,
    group: Sub2ApiGroup,
    c: ChannelView,
    channel: ChannelRecord,
)
    requires
        plan_view(v, plan, group),
        channel_view(c, channel),
    ensures
        v.id@ == plan.id@ && v.name@ == plan.name@ && Some(v.group_id) == plan.group_id,
        v.price_cents == plan.price_cents,
        v.original_price_cents == plan.original_price_cents,
        v.validity_days == plan.validity_days && v.validity_unit@ == plan.validity_unit@,
        v.rate_multiplier == group.rate_multiplier,
        v.daily_limit_usd == group.daily_limit_usd,
        v.weekly_limit_usd == group.weekly_limit_usd,
        v.monthly_limit_usd == group.monthly_limit_usd,
        group.name@.len() > 0 ==> (v.group_name matches Some(n) && n@ == group.name@),
        group.name@.len() == 0 ==> v.group_name is None,
        c.id@ == channel.id@ && c.name@ == channel.name@ && c.platform@ == channel.platform@,
        c.rate_multiplier_bps == channel.rate_multiplier_bps,
        c.sort_order == channel.sort_order && c.group_id == channel.group_id,
{
}

/// A subscription is shown as it is, with the name and platform of the last group of its number
/// in the list, and with neither where there is none.
pub proof fn law_subscriptions_are_shown_with_their_group(
    v: MySubscriptionView,
    item: Sub2ApiSubscription,
    groups: Seq<Sub2ApiGroup>,
    i: int,
)
    requires
        subscription_view(v, item, groups),
    ensures
        v.subscription == item,
        0 <= i < groups.len() && groups[i].id == item.group_id && (forall|j: int|
            i < j < groups.len() ==> (#[trigger] groups[j]).id != item.group_id) ==> {
            &&& groups[i].name@.len() > 0 ==> (v.group_name matches Some(n) && n@
                == groups[i].name@)
            &&& db::opt_text(v.platform) == db::opt_text(groups[i].platform)
        },
        (forall|j: int| 0 <= j < groups.len() ==> (#[trigger] groups[j]).id != item.group_id)
            ==> v.group_name is None && v.platform is None,
{
    lemma_group_with(groups, item.group_id, i);
}

proof fn lemma_group_with(groups: Seq<Sub2ApiGroup>, id: i64, i: int)
    ensures
        0 <= i < groups.len() && groups[i].id == id && (forall|j: int|
            i < j < groups.len() ==> (#[trigger] groups[j]).id != id) ==> group_with(groups, id)
            == Some(groups[i]),
        (forall|j: int| 0 <= j < groups.len() ==> (#[trigger] groups[j]).id != id) ==> group_with(
            groups,
            id,
        ) is None,
    decreases groups.len(),
{
    if groups.len() > 0 {
        let before = groups.drop_last();
        let n = before.len() as int;
        assert(groups[n] == groups.last());
        lemma_group_with(before, id, i);
        if forall|j: int| 0 <= j < groups.len() ==> (#[trigger] groups[j]).id != id {
            assert(groups[n].id != id);
            assert forall|j: int| 0 <= j < before.len() implies (#[trigger] before[j]).id != id by {
                assert(groups[j].id != id);
            }
        }
        if 0 <= i < n && (forall|j: int|
            i < j < groups.len() ==> (#[trigger] groups[j]).id != id) {
            assert(groups[n].id != id);
            assert forall|j: int| i < j < before.len() implies (#[trigger] before[j]).id != id by {
                assert(groups[j].id != id);
            }
        }
    }
}

/// What is offered is shown with its texts and with what its group allows.
pub proof fn law_offers_are_shown_with_their_texts(
    v: SubscriptionPlanView,
    plan: SubscriptionPlanRecord,
    group: Sub2ApiGroup,
    c: ChannelView,
    channel: ChannelRecord,
)
    requires
        plan_view(v, plan, group),
        channel_view(c, channel),
    ensures
        db::opt_text(v.description) == db::opt_text(plan.description),
        db::opt_text(v.product_name) == db::opt_text(plan.product_name),
        db::opt_text(v.platform) == db::opt_text(group.platform),
        db::opt_text(v.default_mapped_model) == db::opt_text(group.default_mapped_model),
        v.allow_messages_dispatch == group.allow_messages_dispatch,
        text::texts(v.features@) == json::listed(db::opt_text(plan.features)),
        db::opt_text(c.description) == db::opt_text(channel.description),
        text::texts(c.models@) == json::listed(db::opt_text(channel.models)),
        text::texts(c.features@) == json::listed(db::opt_text(channel.features)),
{
}

}
