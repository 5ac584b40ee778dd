//! The platform's users, groups and subscriptions, as administrators see them.
use vstd::prelude::*;

use crate::admin_auth;
use crate::db;
use crate::error::{AppError, ErrorKind, Refusal};
use crate::http::admin::orders::{parse_positive_i64, positive_in};
use crate::lists;
use crate::sub2api::{
    ListSubscriptionsParams, PaginatedSubscriptions, Sub2ApiSubscription, Sub2ApiUser,
};
use crate::text;

verus! {

/// What an administrator asks for.
#[derive(Debug)]
pub struct AdminSubscriptionsQuery {
    pub user_id: Option<String>,
    pub group_id: Option<String>,
    pub status: Option<String>,
    pub page: Option<i64>,
    pub page_size: Option<i64>,
}

/// What is asked of the platform: one user's subscriptions, or a page of all.
#[derive(Debug)]
pub enum SubscriptionsAsk {
    OfUser { user_id: i64, group_id: Option<i64> },
    Listing { params: ListSubscriptionsParams },
}

pub open spec fn at_least_one(n: Option<i64>) -> Option<i64> {
    match n {
        Some(v) => Some(
            if v < 1 {
                1
            } else {
                v
            },
        ),
        None => None,
    }
}

pub open spec fn one_to_two_hundred(n: Option<i64>) -> Option<i64> {
    match n {
        Some(v) => Some(
            if v < 1 {
                1
            } else if v > 200 {
                200
            } else {
                v
            },
        ),
        None => None,
    }
}

/// The parameters of a listing of all.
pub open spec fn listing_for(p: ListSubscriptionsParams, q: AdminSubscriptionsQuery) -> bool {
    &&& p.user_id is None
    &&& p.group_id == positive_in(db::opt_text(q.group_id))
    &&& db::opt_text(p.status) == db::opt_text(q.status)
    &&& p.page == at_least_one(q.page)
    &&& p.page_size == one_to_two_hundred(q.page_size)
}

/// What the query asks for: a user's number that is given must be one.
pub open spec fn ask_is(r: Result<SubscriptionsAsk, AppError>, q: AdminSubscriptionsQuery) -> bool {
    match admin_auth::filled_trimmed(db::opt_text(q.user_id)) {
        Some(id) => match positive_in(Some(id)) {
            Some(n) => r == Ok::<SubscriptionsAsk, AppError>(
                SubscriptionsAsk::OfUser {
                    user_id: n,
                    group_id: positive_in(db::opt_text(q.group_id)),
                },
            ),
            None => r matches Err(e) && e@ == (ErrorKind::BadRequest, "无效的 user_id"@),
        },
        None => r matches Ok(SubscriptionsAsk::Listing { params }) && listing_for(params, q),
    }
}

pub fn read_query(q: AdminSubscriptionsQuery) -> (r: Result<SubscriptionsAsk, AppError>)
    ensures
        ask_is(r, q),
{
    let group_id: Option<i64> = parse_positive_i64(db::as_deref(&q.group_id));
    if let Some(id) = admin_auth::trim_filled(db::as_deref(&q.user_id)) {
        return match parse_positive_i64(Some(id)) {
            Some(user_id) => Ok(SubscriptionsAsk::OfUser { user_id, group_id }),
            None => Err(AppError::bad_request("无效的 user_id")),
        };
    }
    let page: Option<i64> = match q.page {
        Some(n) => Some(
            if n < 1 {
                1
            } else {
                n
            },
        ),
        None => None,
    };
    let page_size: Option<i64> = match q.page_size {
        Some(n) => Some(
            if n < 1 {
                1
            } else if n > 200 {
                200
            } else {
                n
            },
        ),
        None => None,
    };
    Ok(
        SubscriptionsAsk::Listing {
            params: ListSubscriptionsParams {
                user_id: None,
                group_id,
                status: q.status,
                page,
                page_size,
            },
        },
    )
}

/// A user that the platform does not know is no fault.
pub fn found_user(answer: Result<Sub2ApiUser, String>) -> (r: Result<Option<Sub2ApiUser>, String>)
    ensures
        match answer {
            Ok(u) => r == Ok::<Option<Sub2ApiUser>, String>(Some(u)),
            Err(e) => if e@ == "USER_NOT_FOUND"@ {
                r == Ok::<Option<Sub2ApiUser>, String>(None)
            } else {
                r == Err::<Option<Sub2ApiUser>, String>(e)
            },
        },
{
    match answer {
        Ok(u) => Ok(Some(u)),
        Err(e) => if text::same(e.as_str(), "USER_NOT_FOUND") {
            Ok(None)
        } else {
            Err(e)
        },
    }
}

/// A user, as they are named beside their subscriptions.
#[derive(Debug)]
pub struct UserView {
    pub id: i64,
    pub username: Option<String>,
    pub email: Option<String>,
}

#[derive(Debug)]
pub struct AdminSubscriptionsResponse {
    pub subscriptions: Vec<Sub2ApiSubscription>,
    pub total: i64,
    pub page: i64,
    pub page_size: i64,
    pub user: Option<UserView>,
}

/// The subscriptions in a group, or all where none is asked for.
pub open spec fn in_group(items: Seq<Sub2ApiSubscription>, group_id: Option<i64>) -> Seq<
    Sub2ApiSubscription,
> {
    match group_id {
        Some(g) => items.filter(|s: Sub2ApiSubscription| s.group_id == g),
        None => items,
    }
}

fn keep_group(items: Vec<Sub2ApiSubscription>, group_id: i64) -> (r: Vec<Sub2ApiSubscription>)
    ensures
        r@ == items@.filter(|s: Sub2ApiSubscription| s.group_id == group_id),
{
    let ghost all = items@;
    let ghost p = |s: Sub2ApiSubscription| s.group_id == group_id;
    let mut flipped = lists::reversed(items);
    let mut out: Vec<Sub2ApiSubscription> = Vec::new();
    proof {
        reveal(Seq::filter);
        assert(out@ =~= all.take(0).filter(p));
    }
    while flipped.len() > 0
        invariant
            flipped@.len() <= all.len(),
            flipped@ == all.skip(all.len() - flipped@.len()).reverse(),
            p == (|s: Sub2ApiSubscription| s.group_id == group_id),
            out@ == all.take(all.len() - flipped@.len()).filter(p),
        decreases flipped@.len(),
    {
        let ghost n = all.len() - flipped@.len();
        let ghost before = flipped@;
        if let Some(item) = flipped.pop() {
            proof {
                reveal(Seq::filter);
                assert(before.last() == all[n]);
                assert(all.take(n + 1).drop_last() =~= all.take(n));
                assert(all.take(n + 1).last() == item);
                assert(flipped@ =~= all.skip(n + 1).reverse());
            }
            if item.group_id == group_id {
                out.push(item);
            }
        }
    }
    assert(all.take(all.len() as int) =~= all);
    out
}

/// The subscriptions of one user, on one page.
pub open spec fn user_page(
    r: AdminSubscriptionsResponse,
    items: Seq<Sub2ApiSubscription>,
    group_id: Option<i64>,
    user: Option<Sub2ApiUser>,
) -> bool {
    &&& r.subscriptions@ == in_group(items, group_id)
    &&& r.total == in_group(items, group_id).len()
    &&& r.page == 1
    &&& r.page_size == in_group(items, group_id).len()
    &&& match user {
        Some(u) => r.user matches Some(v) && v.id == u.id && v.username == u.username && v.email
            == u.email,
        None => r.user is None,
    }
}

pub fn user_subscriptions_response(
    items: Vec<Sub2ApiSubscription>,
    group_id: Option<i64>,
    user: Option<Sub2ApiUser>,
) -> (r: AdminSubscriptionsResponse)
    requires
        items@.len() <= i64::MAX,
    ensures
        user_page(r, items@, group_id, user),
{
    let ghost all = items@;
    let subscriptions = match group_id {
        Some(g) => {
            proof {
                all.lemma_filter_len(|s: Sub2ApiSubscription| s.group_id == g);
            }
            keep_group(items, g)
        },
        None => items,
    };
    let count: i64 = subscriptions.len() as i64;
    let user = match user {
        Some(u) => Some(UserView { id: u.id, username: u.username, email: u.email }),
        None => None,
    };
    AdminSubscriptionsResponse {
        subscriptions,
        total: count,
        page: 1,
        page_size: count,
        user,
    }
}

/// A page of all subscriptions.
pub fn to_admin_subscriptions_response(result: PaginatedSubscriptions) -> (r:
    AdminSubscriptionsResponse)
    ensures
        r.subscriptions == result.subscriptions,
        r.total == result.total,
        r.page == result.page,
        r.page_size == result.page_size,
        r.user is None,
{
    AdminSubscriptionsResponse {
        subscriptions: result.subscriptions,
        total: result.total,
        page: result.page,
        page_size: result.page_size,
        user: None,
    }
}

/// The number of a user whose balance is asked for.
pub open spec fn balance_user(user_id: Option<Seq<char>>) -> Result<i64, Refusal> {
    match positive_in(user_id) {
        Some(n) => Ok(n),
        None => Err((ErrorKind::BadRequest, "Invalid userId"@)),
    }
}

pub fn read_balance_user(user_id: Option<&str>) -> (r: Result<i64, AppError>)
    ensures
        match r {
            Ok(n) => balance_user(db::opt_str(user_id)) == Ok::<i64, Refusal>(n),
            Err(e) => balance_user(db::opt_str(user_id)) == Err::<i64, Refusal>(e@),
        },
{
    match parse_positive_i64(user_id) {
        Some(n) => Ok(n),
        None => Err(AppError::bad_request("Invalid userId")),
    }
}

/// What an administrator asks of the platform.
#[derive(Debug, Clone, Copy, PartialEq, Eq, Structural)]
pub enum PlatformService {
    Groups,
    SearchUsers,
    Subscriptions,
    UserBalance,
    Catalogue,
}

/// What is said when the platform cannot be asked.
pub open spec fn platform_fault(service: PlatformService) -> Seq<char> {
    match service {
        PlatformService::Groups => "获取 Sub2API 分组列表失败"@,
        PlatformService::SearchUsers => "搜索用户失败"@,
        PlatformService::Subscriptions => "查询订阅信息失败"@,
        PlatformService::UserBalance => "Failed to fetch user balance"@,
        PlatformService::Catalogue => "获取分组信息失败"@,
    }
}

pub fn platform_fault_error(service: PlatformService) -> (r: AppError)
    ensures
        r@ == (ErrorKind::PublicInternal, platform_fault(service)),
{
    AppError::public_internal(
        match service {
            PlatformService::Groups => "获取 Sub2API 分组列表失败",
            PlatformService::SearchUsers => "搜索用户失败",
            PlatformService::Subscriptions => "查询订阅信息失败",
            PlatformService::UserBalance => "Failed to fetch user balance",
            PlatformService::Catalogue => "获取分组信息失败",
        },
    )
}

/// What is said when the administration key of the platform is not set.
pub open spec fn key_fault(service: PlatformService) -> Seq<char> {
    match service {
        PlatformService::Groups => "Sub2API admin api key is not configured"@,
        PlatformService::SearchUsers => "Sub2API admin api key is not configured"@,
        PlatformService::Subscriptions => "查询订阅信息失败"@,
        PlatformService::UserBalance => "Failed to fetch user balance"@,
        PlatformService::Catalogue => "Platform admin api key is not configured"@,
    }
}

pub fn key_fault_error(service: PlatformService) -> (r: AppError)
    ensures
        r@ == (ErrorKind::PublicInternal, key_fault(service)),
{
    AppError::public_internal(
        match service {
            PlatformService::Groups => "Sub2API admin api key is not configured",
            PlatformService::SearchUsers => "Sub2API admin api key is not configured",
            PlatformService::Subscriptions => "查询订阅信息失败",
            PlatformService::UserBalance => "Failed to fetch user balance",
            PlatformService::Catalogue => "Platform admin api key is not configured",
        },
    )
}

/// The setting that holds the platform's key for a service.
pub open spec fn key_setting(service: PlatformService) -> Seq<char> {
    match service {
        PlatformService::UserBalance => "PLATFORM_ADMIN_API_KEY"@,
        PlatformService::Catalogue => "PLATFORM_ADMIN_API_KEY"@,
        _ => "SUB2API_ADMIN_API_KEY"@,
    }
}

pub fn key_setting_name(service: PlatformService) -> (r: &'static str)
    ensures
        r@ == key_setting(service),
{
    match service {
        PlatformService::UserBalance => "PLATFORM_ADMIN_API_KEY",
        PlatformService::Catalogue => "PLATFORM_ADMIN_API_KEY",
        _ => "SUB2API_ADMIN_API_KEY",
    }
}

/// Only the subscriptions of the group that is asked for are shown, and all of them.
pub proof fn law_subscriptions_of_the_group_are_shown(
    items: Seq<Sub2ApiSubscription>,
    group_id: i64,
    s: Sub2ApiSubscription,
)
    ensures
        in_group(items, Some(group_id)).contains(s) <==> items.contains(s) && s.group_id
            == group_id,
{
    let p = |s: Sub2ApiSubscription| s.group_id == group_id;
    let kept = in_group(items, Some(group_id));
    if kept.contains(s) {
        items.lemma_filter_contains_rev(p, s);
        let j = choose|j: int| 0 <= j < kept.len() && kept[j] == s;
        items.lemma_filter_pred(p, j);
    }
    if items.contains(s) && s.group_id == group_id {
        let i = choose|i: int| 0 <= i < items.len() && items[i] == s;
        assert(p(items[i]));
        items.lemma_filter_contains(p, i);
    }
}

/// A user's subscriptions are asked for exactly where a number above zero is given for the
/// user, and all of them where none is; anything else that is given is refused. A listing has
/// one page at least, of one to two hundred.
pub proof fn law_subscriptions_are_asked_for_as_written(
    r: Result<SubscriptionsAsk, AppError>,
    q: AdminSubscriptionsQuery,
)
    requires
        ask_is(r, q),
    ensures
        ({
            let given = q.user_id is Some && text::trimmed(q.user_id->0@).len() > 0;
            let number = text::i64_in(text::trimmed(text::trimmed(q.user_id->0@)));
            &&& !given ==> (r matches Ok(SubscriptionsAsk::Listing { params })
                && params.user_id is None && (params.page matches Some(p) ==> p >= 1) && (
            params.page_size matches Some(n) ==> 1 <= n <= 200) && (q.page_size matches Some(n)
                ==> 1 <= n <= 200 ==> params.page_size == Some(n)) && (q.page matches Some(p) ==> p
                >= 1 ==> params.page == Some(p)))
            &&& given && number is Some && number->0 > 0 ==> (r matches Ok(
                SubscriptionsAsk::OfUser { user_id, .. },
            ) && user_id == number->0)
            &&& given && (number is None || number->0 <= 0) ==> r is Err
        }),
{
}

/// The subscriptions of a user that are shown are those of the group asked for, or all, and are
/// counted.
pub proof fn law_users_subscriptions_are_counted(
    r: AdminSubscriptionsResponse,
    items: Seq<Sub2ApiSubscription>,
    group_id: Option<i64>,
    user: Option<Sub2ApiUser>,
    i: int,
)
    requires
        user_page(r, items, group_id, user),
        0 <= i < items.len(),
    ensures
        r.total == r.subscriptions@.len() && r.page_size == r.subscriptions@.len() && r.page == 1,
        r.subscriptions@.contains(items[i]) <==> group_id is None || group_id == Some(
            items[i].group_id,
        ),
        user matches Some(u) ==> (r.user matches Some(v) && v.id == u.id),
        user is None ==> r.user is None,
{
    if let Some(g) = group_id {
        let p = |s: Sub2ApiSubscription| s.group_id == g;
        if p(items[i]) {
            items.lemma_filter_contains(p, i);
        } else if r.subscriptions@.contains(items[i]) {
            let j = choose|j: int|
                0 <= j < r.subscriptions@.len() && r.subscriptions@[j] == items[i];
            items.lemma_filter_pred(p, j);
        }
    }
}

/// The balance that is shown is that of a user with a number above zero, and the platform is
/// asked under the key that is set for it.
pub proof fn law_balances_are_of_a_user(
    user_id: Option<Seq<char>>,
    service: PlatformService,
)
    ensures
        balance_user(user_id) matches Ok(n) ==> n > 0 && user_id is Some && text::i64_in(
            text::trimmed(user_id->0),
        ) == Some(n as int),
        user_id is None ==> balance_user(user_id) is Err,
        user_id is Some && text::i64_in(text::trimmed(user_id->0)) is Some && text::i64_in(
            text::trimmed(user_id->0),
        )->0 > 0 ==> balance_user(user_id) is Ok,
        service is UserBalance || service is Catalogue <==> key_setting(service)
            == "PLATFORM_ADMIN_API_KEY"@,
        service is Groups || service is SearchUsers || service is Subscriptions <==> key_setting(
            service,
        ) == "SUB2API_ADMIN_API_KEY"@,
{
    reveal_strlit("PLATFORM_ADMIN_API_KEY");
    reveal_strlit("SUB2API_ADMIN_API_KEY");
    assert("PLATFORM_ADMIN_API_KEY"@.len() != "SUB2API_ADMIN_API_KEY"@.len());
}

/// A user whom the platform does not know is nobody, which is no fault; any other fault stays
/// one.
pub proof fn law_unknown_users_are_nobody(
    answer: Result<Sub2ApiUser, String>,
    r: Result<Option<Sub2ApiUser>, String>,
)
    requires
        call_ensures(found_user, (answer,), r),
    ensures
        answer matches Ok(u) ==> r == Ok::<Option<Sub2ApiUser>, String>(Some(u)),
        answer matches Err(e) ==> (r is Ok <==> e@ == "USER_NOT_FOUND"@),
        answer is Err && r is Ok ==> r->Ok_0 is None,
        answer is Err && r is Err ==> r->Err_0 == answer->Err_0,
{
}


/// The user of the subscriptions that are shown is named as the platform names them.
pub proof fn law_users_are_named_beside_their_subscriptions(
    r: AdminSubscriptionsResponse,
    items: Seq<Sub2ApiSubscription>,
    group_id: Option<i64>,
    u: Sub2ApiUser,
)
    requires
        user_page(r, items, group_id, Some(u)),
    ensures
        r.user matches Some(v) && v.id == u.id && v.username == u.username && v.email == u.email,
{
}

}
