//! The platform whose users are credited: what is asked of it, and how its answers
//! are read.
use vstd::prelude::*;

use crate::admin_auth;
use crate::db;
use crate::maps;
use crate::text;
use crate::urlencoded;

verus! {

/// A floating-point number that is passed on and not computed with, by its bits.
#[derive(Debug, Clone, Copy, PartialEq, Eq, Structural)]
pub struct Float64 {
    pub bits: u64,
}

#[derive(Debug)]
pub struct Sub2ApiUser {
    pub id: i64,
    pub status: String,
    pub role: Option<String>,
    pub email: Option<String>,
    pub username: Option<String>,
    pub notes: Option<String>,
    pub balance: Option<Float64>,
}

#[derive(Debug)]
pub struct Sub2ApiGroup {
    pub id: i64,
    pub name: String,
    pub status: String,
    pub subscription_type: Option<String>,
    pub description: Option<String>,
    pub platform: Option<String>,
    pub rate_multiplier: Option<Float64>,
    pub daily_limit_usd: Option<Float64>,
    pub weekly_limit_usd: Option<Float64>,
    pub monthly_limit_usd: Option<Float64>,
    pub default_validity_days: Option<i64>,
    pub sort_order: Option<i64>,
    pub supported_model_scopes: Option<Vec<String>>,
    pub allow_messages_dispatch: bool,
    pub default_mapped_model: Option<String>,
}

#[derive(Debug)]
pub struct Sub2ApiSubscription {
    pub id: i64,
    pub user_id: i64,
    pub group_id: i64,
    pub starts_at: String,
    pub status: String,
    pub expires_at: String,
    pub daily_usage_usd: Float64,
    pub weekly_usage_usd: Float64,
    pub monthly_usage_usd: Float64,
    pub daily_window_start: Option<String>,
    pub weekly_window_start: Option<String>,
    pub monthly_window_start: Option<String>,
    pub assigned_by: Option<i64>,
    pub assigned_at: Option<String>,
    pub notes: Option<String>,
    pub created_at: Option<String>,
    pub updated_at: Option<String>,
}

#[derive(Debug)]
pub struct Sub2ApiRedeemCode {
    pub id: Option<i64>,
    pub code: String,
    pub redeem_type: Option<String>,
    pub value: Option<Float64>,
    pub status: Option<String>,
    pub used_by: Option<i64>,
}

#[derive(Debug)]
pub struct PaginatedSubscriptions {
    pub subscriptions: Vec<Sub2ApiSubscription>,
    pub total: i64,
    pub page: i64,
    pub page_size: i64,
}

#[derive(Debug)]
pub struct Sub2ApiSearchUser {
    pub id: i64,
    pub email: Option<String>,
    pub username: Option<String>,
    pub notes: Option<String>,
}

#[derive(Debug)]
pub struct ListSubscriptionsParams {
    pub user_id: Option<i64>,
    pub group_id: Option<i64>,
    pub status: Option<String>,
    pub page: Option<i64>,
    pub page_size: Option<i64>,
}

/// A subscription that is active in a group.
pub open spec fn active_in(s: Sub2ApiSubscription, group_id: i64) -> bool {
    s.group_id == group_id && s.status@ == "active"@
}

/// The first subscription that is active in a group.
pub open spec fn first_active(items: Seq<Sub2ApiSubscription>, group_id: i64) -> Option<
    Sub2ApiSubscription,
>
    decreases items.len(),
{
    if items.len() == 0 {
        None
    } else if active_in(items[0], group_id) {
        Some(items[0])
    } else {
        first_active(items.skip(1), group_id)
    }
}

pub fn find_active(items: &Vec<Sub2ApiSubscription>, group_id: i64) -> (r: Option<usize>)
    ensures
        match r {
            Some(i) => i < items@.len() && first_active(items@, group_id) == Some(items@[i as int]),
            None => first_active(items@, group_id) is None,
        },
{
    let mut i: usize = 0;
    assert(items@.skip(0) == items@);
    while i < items.len()
        invariant
            i <= items@.len(),
            first_active(items@, group_id) == first_active(items@.skip(i as int), group_id),
        decreases items@.len() - i,
    {
        assert(items@.skip(i as int).skip(1) == items@.skip(i + 1));
        if items[i].group_id == group_id && text::same(items[i].status.as_str(), "active") {
            return Some(i);
        }
        i += 1;
    }
    None
}

// ---------------------------------------------------------------------------
// What is sent
// ---------------------------------------------------------------------------
/// What is asked of the platform.
#[derive(Debug, Clone, Copy, PartialEq, Eq, Structural)]
pub enum Call {
    CurrentUser,
    User { user_id: i64 },
    Group { group_id: i64 },
    AllGroups,
    UserSubscriptions { of_user: i64 },
    SearchUsers,
    ListSubscriptions,
    SubtractBalance { from_user: i64 },
    AddBalance { to_user: i64 },
    ExtendSubscription { subscription_id: i64 },
    Redeem,
}

impl Call {
    /// Whether it changes anything, and so is sent as a `POST`.
    pub open spec fn changes(self) -> bool {
        self is SubtractBalance || self is AddBalance || self is ExtendSubscription
            || self is Redeem
    }

    pub fn is_post(&self) -> (r: bool)
        ensures
            r == self.changes(),
    {
        match self {
            Call::SubtractBalance { .. } => true,
            Call::AddBalance { .. } => true,
            Call::ExtendSubscription { .. } => true,
            Call::Redeem => true,
            _ => false,
        }
    }
}

/// What is sent along. Amounts are in cents.
#[derive(Debug)]
pub enum Body {
    Nothing,
    Balance { operation: &'static str, balance_cents: i64, notes: String },
    Extend { days: i64 },
    Redeem {
        code: String,
        redeem_type: &'static str,
        value_cents: i64,
        user_id: i64,
        redeem_notes: String,
        group_id: Option<i64>,
        validity_days: Option<i64>,
    },
}

/// The contents of what is sent along.
pub enum BodyView {
    Nothing,
    Balance { operation: Seq<char>, balance_cents: i64, notes: Seq<char> },
    Extend { days: i64 },
    Redeem {
        code: Seq<char>,
        redeem_type: Seq<char>,
        value_cents: i64,
        user_id: i64,
        redeem_notes: Seq<char>,
        group_id: Option<i64>,
        validity_days: Option<i64>,
    },
}

impl Body {
    pub open spec fn view(&self) -> BodyView {
        match self {
            Body::Nothing => BodyView::Nothing,
            Body::Balance { operation, balance_cents, notes } => BodyView::Balance {
                operation: operation@,
                balance_cents: *balance_cents,
                notes: notes@,
            },
            Body::Extend { days } => BodyView::Extend { days: *days },
            Body::Redeem {
                code,
                redeem_type,
                value_cents,
                user_id,
                redeem_notes,
                group_id,
                validity_days,
            } => BodyView::Redeem {
                code: code@,
                redeem_type: redeem_type@,
                value_cents: *value_cents,
                user_id: *user_id,
                redeem_notes: redeem_notes@,
                group_id: *group_id,
                validity_days: *validity_days,
            },
        }
    }
}

/// A request to the platform.
#[derive(Debug)]
pub struct PlatformRequest {
    pub call: Call,
    pub url: String,
    pub bearer: Option<String>,
    pub api_key: Option<String>,
    pub idempotency_key: Option<String>,
    pub body: Body,
}

/// The contents of a request.
pub struct RequestView {
    pub call: Call,
    pub url: Seq<char>,
    pub bearer: Option<Seq<char>>,
    pub api_key: Option<Seq<char>>,
    pub idempotency_key: Option<Seq<char>>,
    pub body: BodyView,
}

impl PlatformRequest {
    pub open spec fn view(&self) -> RequestView {
        RequestView {
            call: self.call,
            url: self.url@,
            bearer: db::opt_text(self.bearer),
            api_key: db::opt_text(self.api_key),
            idempotency_key: db::opt_text(self.idempotency_key),
            body: self.body@,
        }
    }
}

/// A question put with the administration key.
pub open spec fn question(call: Call, url: Seq<char>, key: Seq<char>) -> RequestView {
    RequestView {
        call,
        url,
        bearer: None,
        api_key: Some(key),
        idempotency_key: None,
        body: BodyView::Nothing,
    }
}

/// A change made with the administration key, at most once for each idempotency key.
pub open spec fn change(
    call: Call,
    url: Seq<char>,
    key: Seq<char>,
    once: Seq<char>,
    body: BodyView,
) -> RequestView {
    RequestView {
        call,
        url,
        bearer: None,
        api_key: Some(key),
        idempotency_key: Some(once),
        body,
    }
}

fn ask(call: Call, url: String, key: &str) -> (r: PlatformRequest)
    ensures
        r@ == question(call, url@, key@),
{
    PlatformRequest {
        call,
        url,
        bearer: None,
        api_key: Some(key.to_owned()),
        idempotency_key: None,
        body: Body::Nothing,
    }
}

fn order(call: Call, url: String, key: &str, once: String, body: Body) -> (r: PlatformRequest)
    ensures
        r@ == change(call, url@, key@, once@, body@),
{
    PlatformRequest {
        call,
        url,
        bearer: None,
        api_key: Some(key.to_owned()),
        idempotency_key: Some(once),
        body,
    }
}

/// The parameters of a search for users.
pub open spec fn search_params(keyword: Seq<char>) -> Seq<(Seq<char>, Seq<char>)> {
    seq![("search"@, text::trimmed(keyword)), ("page"@, "1"@), ("page_size"@, "30"@)]
}

pub open spec fn int_param(key: Seq<char>, value: Option<i64>) -> Seq<(Seq<char>, Seq<char>)> {
    match value {
        Some(n) => seq![(key, text::decimal(n as int))],
        None => seq![],
    }
}

pub open spec fn text_param(key: Seq<char>, value: Option<Seq<char>>) -> Seq<
    (Seq<char>, Seq<char>),
> {
    match value {
        Some(s) => seq![(key, s)],
        None => seq![],
    }
}

/// The parameters of a listing of subscriptions: those that are given.
pub open spec fn list_params(params: ListSubscriptionsParams) -> Seq<(Seq<char>, Seq<char>)> {
    int_param("user_id"@, params.user_id) + int_param("group_id"@, params.group_id) + text_param(
        "status"@,
        admin_auth::filled_trimmed(db::opt_text(params.status)),
    ) + int_param("page"@, params.page) + int_param("page_size"@, params.page_size)
}

fn push_int(query: &mut Vec<(String, String)>, key: &str, value: Option<i64>)
    ensures
        maps::pairs(final(query)@) == maps::pairs(old(query)@) + int_param(key@, value),
{
    if let Some(n) = value {
        query.push((key.to_owned(), text::i64_text(n)));
    }
    assert(maps::pairs(query@) =~= maps::pairs(old(query)@) + int_param(key@, value));
}

fn push_text(query: &mut Vec<(String, String)>, key: &str, value: Option<&str>)
    ensures
        maps::pairs(final(query)@) == maps::pairs(old(query)@) + text_param(
            key@,
            db::opt_str(value),
        ),
{
    if let Some(s) = value {
        query.push((key.to_owned(), s.to_owned()));
    }
    assert(maps::pairs(query@) =~= maps::pairs(old(query)@) + text_param(key@, db::opt_str(value)));
}

pub fn build_list_subscriptions_query(params: &ListSubscriptionsParams) -> (r: Vec<
    (String, String),
>)
    ensures
        maps::pairs(r@) == list_params(*params),
{
    let mut query: Vec<(String, String)> = Vec::new();
    push_int(&mut query, "user_id", params.user_id);
    push_int(&mut query, "group_id", params.group_id);
    push_text(&mut query, "status", admin_auth::trim_filled(db::as_deref(&params.status)));
    push_int(&mut query, "page", params.page);
    push_int(&mut query, "page_size", params.page_size);
    assert(maps::pairs(query@) =~= list_params(*params));
    query
}

/// The page of a listing that names none, and how many stand on it.
pub fn default_page() -> (r: i64)
    ensures
        r == 1,
{
    1
}

pub fn default_page_size() -> (r: i64)
    ensures
        r == 50,
{
    50
}

/// A query after a path, or that it cannot be written.
pub open spec fn with_query(url: Seq<char>, query: Result<Seq<char>, Seq<char>>, what: Seq<char>) -> Result<
    Seq<char>,
    Seq<char>,
> {
    match query {
        Ok(q) => Ok(url + "?"@ + q),
        Err(_) => Err(what),
    }
}

fn add_query(url: &str, query: Result<String, String>, what: &str) -> (r: Result<String, String>)
    ensures
        match r {
            Ok(u) => query matches Ok(q) && u@ == url@ + "?"@ + q@,
            Err(e) => query is Err && e@ == what@,
        },
{
    match query {
        Ok(q) => Ok(text::cat3(url, "?", q.as_str())),
        Err(_) => Err(what.to_owned()),
    }
}

/// The way to the platform.
#[derive(Debug)]
pub struct Sub2ApiClient {
    pub base_url: String,
}

impl Sub2ApiClient {
    pub fn new(base_url: String) -> (r: Sub2ApiClient)
        ensures
            r.base_url@ == base_url@,
    {
        Sub2ApiClient { base_url }
    }

    fn path(&self, path: &str) -> (r: String)
        ensures
            r@ == self.base_url@ + path@,
    {
        text::cat(self.base_url.as_str(), path)
    }

    fn path_of(&self, path: &str, id: i64, rest: &str) -> (r: String)
        ensures
            r@ == self.base_url@ + path@ + text::decimal(id as int) + rest@,
    {
        let mut url = text::cat3(self.base_url.as_str(), path, text::i64_text(id).as_str());
        url.append(rest);
        url
    }

    /// Asks whose token it is.
    pub fn get_current_user_by_token(&self, token: &str) -> (r: PlatformRequest)
        ensures
            r@ == (RequestView {
                call: Call::CurrentUser,
                url: self.base_url@ + "/api/v1/auth/me"@,
                bearer: Some(token@),
                api_key: None,
                idempotency_key: None,
                body: BodyView::Nothing,
            }),
    {
        PlatformRequest {
            call: Call::CurrentUser,
            url: self.path("/api/v1/auth/me"),
            bearer: Some(token.to_owned()),
            api_key: None,
            idempotency_key: None,
            body: Body::Nothing,
        }
    }

    pub fn get_user(&self, user_id: i64, admin_api_key: &str) -> (r: PlatformRequest)
        ensures
            r@ == question(
                Call::User { user_id },
                self.base_url@ + "/api/v1/admin/users/"@ + text::decimal(user_id as int) + ""@,
                admin_api_key@,
            ),
    {
        ask(
            Call::User { user_id },
            self.path_of("/api/v1/admin/users/", user_id, ""),
            admin_api_key,
        )
    }

    pub fn get_group(&self, group_id: i64, admin_api_key: &str) -> (r: PlatformRequest)
        ensures
            r@ == question(
                Call::Group { group_id },
                self.base_url@ + "/api/v1/admin/groups/"@ + text::decimal(group_id as int) + ""@,
                admin_api_key@,
            ),
    {
        ask(
            Call::Group { group_id },
            self.path_of("/api/v1/admin/groups/", group_id, ""),
            admin_api_key,
        )
    }

    pub fn get_all_groups(&self, admin_api_key: &str) -> (r: PlatformRequest)
        ensures
            r@ == question(
                Call::AllGroups,
                self.base_url@ + "/api/v1/admin/groups/all"@,
                admin_api_key@,
            ),
    {
        ask(Call::AllGroups, self.path("/api/v1/admin/groups/all"), admin_api_key)
    }

    pub fn get_user_subscriptions(&self, user_id: i64, admin_api_key: &str) -> (r: PlatformRequest)
        ensures
            r@ == question(
                Call::UserSubscriptions { of_user: user_id },
                self.base_url@ + "/api/v1/admin/users/"@ + text::decimal(user_id as int)
                    + "/subscriptions"@,
                admin_api_key@,
            ),
    {
        ask(
            Call::UserSubscriptions { of_user: user_id },
            self.path_of("/api/v1/admin/users/", user_id, "/subscriptions"),
            admin_api_key,
        )
    }

    /// Asks for users by a keyword; an empty keyword finds nobody and asks nothing.
    pub fn search_users(&self, keyword: &str, admin_api_key: &str) -> (r: Result<
        Option<PlatformRequest>,
        String,
    >)
        ensures
            text::trimmed(keyword@).len() == 0 ==> r == Ok::<Option<PlatformRequest>, String>(None),
            text::trimmed(keyword@).len() > 0 ==> match with_query(
                self.base_url@ + "/api/v1/admin/users"@,
                urlencoded::query_text(search_params(keyword@)),
                "failed to encode user search query"@,
            ) {
                Ok(url) => r matches Ok(Some(q)) && q@ == question(
                    Call::SearchUsers,
                    url,
                    admin_api_key@,
                ),
                Err(e) => r matches Err(m) && m@ == e,
            },
    {
        let trimmed = text::trim(keyword);
        if trimmed.is_empty() {
            return Ok(None);
        }
        let mut query: Vec<(String, String)> = Vec::new();
        push_text(&mut query, "search", Some(trimmed));
        push_text(&mut query, "page", Some("1"));
        push_text(&mut query, "page_size", Some("30"));
        assert(maps::pairs(query@) =~= search_params(keyword@));
        let url = self.path("/api/v1/admin/users");
        match add_query(
            url.as_str(),
            urlencoded::write_query(&query),
            "failed to encode user search query",
        ) {
            Ok(u) => Ok(Some(ask(Call::SearchUsers, u, admin_api_key))),
            Err(e) => Err(e),
        }
    }

    /// Asks for a page of subscriptions.
    pub fn list_subscriptions(&self, params: &ListSubscriptionsParams, admin_api_key: &str) -> (r:
        Result<PlatformRequest, String>)
        ensures
            list_params(*params).len() == 0 ==> (r matches Ok(q) && q@ == question(
                Call::ListSubscriptions,
                self.base_url@ + "/api/v1/admin/subscriptions"@,
                admin_api_key@,
            )),
            list_params(*params).len() > 0 ==> match with_query(
                self.base_url@ + "/api/v1/admin/subscriptions"@,
                urlencoded::query_text(list_params(*params)),
                "failed to encode subscription list query"@,
            ) {
                Ok(url) => r matches Ok(q) && q@ == question(
                    Call::ListSubscriptions,
                    url,
                    admin_api_key@,
                ),
                Err(e) => r matches Err(m) && m@ == e,
            },
    {
        let query = build_list_subscriptions_query(params);
        let url = self.path("/api/v1/admin/subscriptions");
        assert(maps::pairs(query@).len() == query@.len());
        if query.len() == 0 {
            return Ok(ask(Call::ListSubscriptions, url, admin_api_key));
        }
        match add_query(
            url.as_str(),
            urlencoded::write_query(&query),
            "failed to encode subscription list query",
        ) {
            Ok(u) => Ok(ask(Call::ListSubscriptions, u, admin_api_key)),
            Err(e) => Err(e),
        }
    }

    /// Takes an amount off a user's balance.
    pub fn subtract_balance(
        &self,
        user_id: i64,
        amount_cents: i64,
        notes: &str,
        idempotency_key: &str,
        admin_api_key: &str,
    ) -> (r: PlatformRequest)
        ensures
            r@ == change(
                Call::SubtractBalance { from_user: user_id },
                self.base_url@ + "/api/v1/admin/users/"@ + text::decimal(user_id as int)
                    + "/balance"@,
                admin_api_key@,
                idempotency_key@,
                BodyView::Balance {
                    operation: "subtract"@,
                    balance_cents: amount_cents,
                    notes: notes@,
                },
            ),
            takes_money(r@, self.base_url@, user_id, amount_cents),
    {
        order(
            Call::SubtractBalance { from_user: user_id },
            self.path_of("/api/v1/admin/users/", user_id, "/balance"),
            admin_api_key,
            idempotency_key.to_owned(),
            Body::Balance {
                operation: "subtract",
                balance_cents: amount_cents,
                notes: notes.to_owned(),
            },
        )
    }

    /// Puts an amount on a user's balance.
    pub fn add_balance(
        &self,
        user_id: i64,
        amount_cents: i64,
        notes: &str,
        idempotency_key: &str,
        admin_api_key: &str,
    ) -> (r: PlatformRequest)
        ensures
            r@ == change(
                Call::AddBalance { to_user: user_id },
                self.base_url@ + "/api/v1/admin/users/"@ + text::decimal(user_id as int)
                    + "/balance"@,
                admin_api_key@,
                idempotency_key@,
                BodyView::Balance {
                    operation: "add"@,
                    balance_cents: amount_cents,
                    notes: notes@,
                },
            ),
            gives_money(r@, self.base_url@, user_id, amount_cents),
    {
        order(
            Call::AddBalance { to_user: user_id },
            self.path_of("/api/v1/admin/users/", user_id, "/balance"),
            admin_api_key,
            idempotency_key.to_owned(),
            Body::Balance { operation: "add", balance_cents: amount_cents, notes: notes.to_owned() },
        )
    }

    /// Lengthens a subscription, or shortens it by negative days.
    pub fn extend_subscription(
        &self,
        subscription_id: i64,
        days: i64,
        idempotency_key: &str,
        admin_api_key: &str,
    ) -> (r: PlatformRequest)
        ensures
            r@ == change(
                Call::ExtendSubscription { subscription_id },
                self.base_url@ + "/api/v1/admin/subscriptions/"@ + text::decimal(
                    subscription_id as int,
                ) + "/extend"@,
                admin_api_key@,
                idempotency_key@,
                BodyView::Extend { days },
            ),
    {
        order(
            Call::ExtendSubscription { subscription_id },
            self.path_of("/api/v1/admin/subscriptions/", subscription_id, "/extend"),
            admin_api_key,
            idempotency_key.to_owned(),
            Body::Extend { days },
        )
    }

    /// Credits a user, once for each code.
    pub fn create_and_redeem_balance(
        &self,
        code: &str,
        value_cents: i64,
        user_id: i64,
        notes: &str,
        admin_api_key: &str,
    ) -> (r: PlatformRequest)
        ensures
            r@ == change(
                Call::Redeem,
                self.base_url@ + "/api/v1/admin/redeem-codes/create-and-redeem"@,
                admin_api_key@,
                "sub2apipay:recharge:"@ + code@,
                BodyView::Redeem {
                    code: code@,
                    redeem_type: "balance"@,
                    value_cents,
                    user_id,
                    redeem_notes: notes@,
                    group_id: None,
                    validity_days: None,
                },
            ),
    {
        order(
            Call::Redeem,
            self.path("/api/v1/admin/redeem-codes/create-and-redeem"),
            admin_api_key,
            text::cat("sub2apipay:recharge:", code),
            Body::Redeem {
                code: code.to_owned(),
                redeem_type: "balance",
                value_cents,
                user_id,
                redeem_notes: notes.to_owned(),
                group_id: None,
                validity_days: None,
            },
        )
    }

    /// Grants a user a subscription, once for each code.
    pub fn create_and_redeem_subscription(
        &self,
        code: &str,
        value_cents: i64,
        user_id: i64,
        notes: &str,
        group_id: i64,
        validity_days: i64,
        admin_api_key: &str,
    ) -> (r: PlatformRequest)
        ensures
            r@ == change(
                Call::Redeem,
                self.base_url@ + "/api/v1/admin/redeem-codes/create-and-redeem"@,
                admin_api_key@,
                "sub2apipay:recharge:"@ + code@,
                BodyView::Redeem {
                    code: code@,
                    redeem_type: "subscription"@,
                    value_cents,
                    user_id,
                    redeem_notes: notes@,
                    group_id: Some(group_id),
                    validity_days: Some(validity_days),
                },
            ),
    {
        order(
            Call::Redeem,
            self.path("/api/v1/admin/redeem-codes/create-and-redeem"),
            admin_api_key,
            text::cat("sub2apipay:recharge:", code),
            Body::Redeem {
                code: code.to_owned(),
                redeem_type: "subscription",
                value_cents,
                user_id,
                redeem_notes: notes.to_owned(),
                group_id: Some(group_id),
                validity_days: Some(validity_days),
            },
        )
    }
}

// ---------------------------------------------------------------------------
// What comes back
// ---------------------------------------------------------------------------
/// What the status of an answer says.
pub enum Verdict {
    /// The answer is to be read.
    Read,
    /// What was asked for is not there, which is an answer too.
    Absent,
    /// The platform refused.
    Fault { message: String },
}

pub open spec fn succeeded(status: u16) -> bool {
    200 <= status < 300
}

/// What an answer with a status that is no success means.
pub open spec fn fault_text(call: Call, status: u16, body: Seq<char>) -> Seq<char> {
    let code = text::decimal(status as int);
    let detail = code + "): "@ + text::trimmed(body);
    match call {
        Call::CurrentUser => "Failed to get current user: "@ + code,
        Call::User { .. } => if status == 404 {
            "USER_NOT_FOUND"@
        } else {
            "Failed to get user: "@ + code
        },
        Call::Group { group_id } => "Failed to get group "@ + text::decimal(group_id as int)
            + ": "@ + code,
        Call::AllGroups => "Failed to get groups: "@ + code,
        Call::UserSubscriptions { .. } => "Failed to get user subscriptions: "@ + code,
        Call::SearchUsers => "Failed to search users: "@ + code,
        Call::ListSubscriptions => "Failed to list subscriptions: "@ + code,
        Call::SubtractBalance { .. } => "Subtract balance failed ("@ + detail,
        Call::AddBalance { .. } => "Add balance failed ("@ + detail,
        Call::ExtendSubscription { .. } => "Extend subscription failed ("@ + detail,
        Call::Redeem => "Recharge failed ("@ + detail,
    }
}

/// Whether `404` is an answer: there is no such group, or the user has no subscriptions.
pub open spec fn may_be_absent(call: Call) -> bool {
    call is Group || call is UserSubscriptions
}

pub open spec fn verdict_is(v: Verdict, call: Call, status: u16, body: Seq<char>) -> bool {
    if status == 404 && may_be_absent(call) {
        v is Absent
    } else if succeeded(status) {
        v is Read
    } else {
        v matches Verdict::Fault { message } && message@ == fault_text(call, status, body)
    }
}

/// Looks at the status of an answer.
pub fn read_status(call: Call, status: u16, body: &str) -> (r: Verdict)
    ensures
        verdict_is(r, call, status, body@),
{
    let absent = match call {
        Call::Group { .. } => true,
        Call::UserSubscriptions { .. } => true,
        _ => false,
    };
    if status == 404 && absent {
        return Verdict::Absent;
    }
    if 200 <= status && status < 300 {
        return Verdict::Read;
    }
    let code = text::u64_text(status as u64);
    let detail = text::cat3(code.as_str(), "): ", text::trim(body));
    let message = match call {
        Call::CurrentUser => text::cat("Failed to get current user: ", code.as_str()),
        Call::User { .. } => if status == 404 {
            "USER_NOT_FOUND".to_owned()
        } else {
            text::cat("Failed to get user: ", code.as_str())
        },
        Call::Group { group_id } => {
            let id = text::i64_text(group_id);
            let mut s = text::cat3("Failed to get group ", id.as_str(), ": ");
            s.append(code.as_str());
            s
        },
        Call::AllGroups => text::cat("Failed to get groups: ", code.as_str()),
        Call::UserSubscriptions { .. } => text::cat(
            "Failed to get user subscriptions: ",
            code.as_str(),
        ),
        Call::SearchUsers => text::cat("Failed to search users: ", code.as_str()),
        Call::ListSubscriptions => text::cat("Failed to list subscriptions: ", code.as_str()),
        Call::SubtractBalance { .. } => text::cat("Subtract balance failed (", detail.as_str()),
        Call::AddBalance { .. } => text::cat("Add balance failed (", detail.as_str()),
        Call::ExtendSubscription { .. } => text::cat(
            "Extend subscription failed (",
            detail.as_str(),
        ),
        Call::Redeem => text::cat("Recharge failed (", detail.as_str()),
    };
    Verdict::Fault { message }
}

/// What is said when the platform cannot be reached.
pub open spec fn unreached_text(call: Call) -> Seq<char> {
    match call {
        Call::CurrentUser => "failed to call Sub2API auth/me"@,
        Call::User { user_id } => "failed to call Sub2API admin/users/"@ + text::decimal(
            user_id as int,
        ),
        Call::Group { group_id } => "failed to call Sub2API admin/groups/"@ + text::decimal(
            group_id as int,
        ),
        Call::AllGroups => "failed to call Sub2API admin/groups/all"@,
        Call::UserSubscriptions { of_user } => "failed to call Sub2API admin/users/"@
            + text::decimal(of_user as int) + "/subscriptions"@,
        Call::SearchUsers => "failed to call Sub2API admin user search"@,
        Call::ListSubscriptions => "failed to call Sub2API admin/subscriptions"@,
        Call::SubtractBalance { from_user } =>
            "failed to call Sub2API balance operation subtract for user "@ + text::decimal(
            from_user as int,
        ),
        Call::AddBalance { to_user } => "failed to call Sub2API balance operation add for user "@
            + text::decimal(to_user as int),
        Call::ExtendSubscription { subscription_id } =>
            "failed to call Sub2API extend subscription "@ + text::decimal(subscription_id as int),
        Call::Redeem => "failed to call Sub2API create-and-redeem"@,
    }
}

pub fn unreached_message(call: Call) -> (r: String)
    ensures
        r@ == unreached_text(call),
{
    match call {
        Call::CurrentUser => "failed to call Sub2API auth/me".to_owned(),
        Call::User { user_id } => text::cat(
            "failed to call Sub2API admin/users/",
            text::i64_text(user_id).as_str(),
        ),
        Call::Group { group_id } => text::cat(
            "failed to call Sub2API admin/groups/",
            text::i64_text(group_id).as_str(),
        ),
        Call::AllGroups => "failed to call Sub2API admin/groups/all".to_owned(),
        Call::UserSubscriptions { of_user } => text::cat3(
            "failed to call Sub2API admin/users/",
            text::i64_text(of_user).as_str(),
            "/subscriptions",
        ),
        Call::SearchUsers => "failed to call Sub2API admin user search".to_owned(),
        Call::ListSubscriptions => "failed to call Sub2API admin/subscriptions".to_owned(),
        Call::SubtractBalance { from_user } => text::cat(
            "failed to call Sub2API balance operation subtract for user ",
            text::i64_text(from_user).as_str(),
        ),
        Call::AddBalance { to_user } => text::cat(
            "failed to call Sub2API balance operation add for user ",
            text::i64_text(to_user).as_str(),
        ),
        Call::ExtendSubscription { subscription_id } => text::cat(
            "failed to call Sub2API extend subscription ",
            text::i64_text(subscription_id).as_str(),
        ),
        Call::Redeem => "failed to call Sub2API create-and-redeem".to_owned(),
    }
}

/// What is said when an answer that is to be read cannot be.
pub open spec fn unreadable_text(call: Call) -> Seq<char> {
    match call {
        Call::CurrentUser => "failed to decode Sub2API auth/me response"@,
        Call::User { user_id } => "failed to decode Sub2API admin user "@ + text::decimal(
            user_id as int,
        ),
        Call::Group { group_id } => "failed to decode Sub2API group "@ + text::decimal(
            group_id as int,
        ),
        Call::AllGroups => "failed to decode Sub2API groups response"@,
        Call::UserSubscriptions { of_user } => "failed to decode subscriptions for user "@
            + text::decimal(of_user as int),
        Call::SearchUsers => "failed to decode Sub2API user search response"@,
        Call::ListSubscriptions => "failed to decode Sub2API subscriptions list response"@,
        _ => "failed to decode Sub2API create-and-redeem response"@,
    }
}

pub fn unreadable_message(call: Call) -> (r: String)
    ensures
        r@ == unreadable_text(call),
{
    match call {
        Call::CurrentUser => "failed to decode Sub2API auth/me response".to_owned(),
        Call::User { user_id } => text::cat(
            "failed to decode Sub2API admin user ",
            text::i64_text(user_id).as_str(),
        ),
        Call::Group { group_id } => text::cat(
            "failed to decode Sub2API group ",
            text::i64_text(group_id).as_str(),
        ),
        Call::AllGroups => "failed to decode Sub2API groups response".to_owned(),
        Call::UserSubscriptions { of_user } => text::cat(
            "failed to decode subscriptions for user ",
            text::i64_text(of_user).as_str(),
        ),
        Call::SearchUsers => "failed to decode Sub2API user search response".to_owned(),
        Call::ListSubscriptions => {
            "failed to decode Sub2API subscriptions list response".to_owned()
        },
        _ => "failed to decode Sub2API create-and-redeem response".to_owned(),
    }
}

/// A redemption is done only if its code comes back.
pub fn redeemed(code: Option<Sub2ApiRedeemCode>) -> (r: Result<Sub2ApiRedeemCode, String>)
    ensures
        match code {
            Some(c) => r == Ok::<Sub2ApiRedeemCode, String>(c),
            None => r matches Err(e) && e@
                == "Sub2API create-and-redeem response missing redeem_code"@,
        },
{
    match code {
        Some(c) => Ok(c),
        None => Err("Sub2API create-and-redeem response missing redeem_code".to_owned()),
    }
}

/// A user's own token is at fault only where the platform refused it: the texts of the other
/// faults of the question do not begin alike.
pub proof fn law_refused_tokens_are_told_apart(status: u16, body: Seq<char>)
    ensures
        "Failed to get current user:"@.is_prefix_of(fault_text(Call::CurrentUser, status, body)),
        !"Failed to get current user:"@.is_prefix_of(unreached_text(Call::CurrentUser)),
        !"Failed to get current user:"@.is_prefix_of(unreadable_text(Call::CurrentUser)),
{
    let p = "Failed to get current user:"@;
    let q = "Failed to get current user: "@;
    reveal_strlit("Failed to get current user:");
    reveal_strlit("Failed to get current user: ");
    reveal_strlit("failed to call Sub2API auth/me");
    reveal_strlit("failed to decode Sub2API auth/me response");
    let full = fault_text(Call::CurrentUser, status, body);
    assert(p =~= full.take(p.len() as int));
    assert(p[0] == 'F');
    assert("failed to call Sub2API auth/me"@[0] == 'f');
    assert("failed to decode Sub2API auth/me response"@[0] == 'f');
    let a = unreached_text(Call::CurrentUser);
    let b = unreadable_text(Call::CurrentUser);
    if p.is_prefix_of(a) {
        assert(a.take(p.len() as int)[0] == 'f');
    }
    if p.is_prefix_of(b) {
        assert(b.take(p.len() as int)[0] == 'f');
    }
}

/// Two redemptions under one idempotency key are of one code.
pub proof fn law_redemptions_are_keyed_by_their_code(a: Seq<char>, b: Seq<char>)
    ensures
        "sub2apipay:recharge:"@ + a == "sub2apipay:recharge:"@ + b <==> a == b,
{
    let p = "sub2apipay:recharge:"@;
    if p + a == p + b {
        assert((p + a).skip(p.len() as int) =~= a);
        assert((p + b).skip(p.len() as int) =~= b);
    }
}

/// A subscription that is picked for a group stands in the list, belongs to the group and is
/// active, and no earlier one is both; where none is picked, none of the list is both.
pub proof fn law_picked_subscription_is_the_first_active(
    items: Seq<Sub2ApiSubscription>,
    group_id: i64,
)
    ensures
        first_active(items, group_id) matches Some(s) ==> {
            &&& s.group_id == group_id
            &&& s.status@ == "active"@
            &&& exists|i: int| #![trigger items[i]]
                0 <= i < items.len() && items[i] == s && forall|j: int|
                    0 <= j < i ==> (#[trigger] items[j]).group_id != group_id || items[j].status@
                        != "active"@
        },
        first_active(items, group_id) is None ==> forall|j: int|
            0 <= j < items.len() ==> (#[trigger] items[j]).group_id != group_id
                || items[j].status@ != "active"@,
    decreases items.len(),
{
    if items.len() > 0 {
        if items[0].group_id == group_id && items[0].status@ == "active"@ {
            assert(first_active(items, group_id) == Some(items[0]));
        } else {
            let rest = items.skip(1);
            law_picked_subscription_is_the_first_active(rest, group_id);
            assert(forall|j: int| 0 <= j < rest.len() ==> #[trigger] rest[j] == items[j + 1]);
            match first_active(items, group_id) {
                Some(s) => {
                    let k = choose|k: int| #![trigger rest[k]]
                        0 <= k < rest.len() && rest[k] == s && forall|j: int|
                            0 <= j < k ==> (#[trigger] rest[j]).group_id != group_id
                                || rest[j].status@ != "active"@;
                    assert(items[k + 1] == s);
                    assert forall|j: int| 0 <= j < k + 1 implies (
                    #[trigger] items[j]).group_id != group_id || items[j].status@ != "active"@ by {
                        if j > 0 {
                            assert(rest[j - 1] == items[j]);
                        }
                    }
                },
                None => {
                    assert forall|j: int| 0 <= j < items.len() implies (
                    #[trigger] items[j]).group_id != group_id || items[j].status@ != "active"@ by {
                        if j > 0 {
                            assert(rest[j - 1] == items[j]);
                        }
                    }
                },
            }
        }
    }
}

/// The first of the list that belongs to a group and is active is the one that is picked.
pub proof fn law_first_active_subscription_is_picked(
    items: Seq<Sub2ApiSubscription>,
    group_id: i64,
    i: int,
)
    requires
        0 <= i < items.len(),
        items[i].group_id == group_id,
        items[i].status@ == "active"@,
        forall|j: int|
            0 <= j < i ==> (#[trigger] items[j]).group_id != group_id || items[j].status@
                != "active"@,
    ensures
        first_active(items, group_id) == Some(items[i]),
{
    law_picked_subscription_is_the_first_active(items, group_id);
    match first_active(items, group_id) {
        Some(s) => {
            let k = choose|k: int| #![trigger items[k]]
                0 <= k < items.len() && items[k] == s && forall|j: int|
                    0 <= j < k ==> (#[trigger] items[j]).group_id != group_id || items[j].status@
                        != "active"@;
            if k < i {
                assert(items[k].group_id == group_id);
            } else if i < k {
                assert(items[i].group_id == group_id);
            }
        },
        None => {
            assert(items[i].group_id == group_id);
        },
    }
}

/// A question changes nothing: it carries the administration key and no body. A change carries
/// the key, a body, and the key under which it is made at most once.
pub proof fn law_changes_are_made_once(
    call: Call,
    url: Seq<char>,
    key: Seq<char>,
    once: Seq<char>,
    body: BodyView,
)
    ensures
        question(call, url, key).api_key == Some(key),
        question(call, url, key).bearer is None,
        question(call, url, key).idempotency_key is None,
        question(call, url, key).body is Nothing,
        question(call, url, key).url == url,
        question(call, url, key).call == call,
        change(call, url, key, once, body).api_key == Some(key),
        change(call, url, key, once, body).idempotency_key == Some(once),
        change(call, url, key, once, body).body == body,
        change(call, url, key, once, body).url == url,
        change(call, url, key, once, body).call == call,
        change(call, url, key, once, body).bearer is None,
        call.changes() <==> call is SubtractBalance || call is AddBalance
            || call is ExtendSubscription || call is Redeem,
{
}

/// What the platform answers is read exactly where its status tells success. A group or a
/// user's subscriptions that are not found are absent, which is no fault; a user who is not
/// found is told so; anything else is a fault.
pub proof fn law_answers_are_read_by_their_status(
    v: Verdict,
    call: Call,
    status: u16,
    body: Seq<char>,
)
    requires
        verdict_is(v, call, status, body),
    ensures
        v is Read <==> 200 <= status <= 299,
        v is Absent <==> status == 404 && (call is Group || call is UserSubscriptions),
        call is User && status == 404 ==> (v matches Verdict::Fault { message } && message@
            == "USER_NOT_FOUND"@),
{
}

/// The listing of subscriptions asks for just what is given.
pub proof fn law_listings_ask_for_what_is_given(params: ListSubscriptionsParams)
    ensures
        ({
            let q = list_params(params);
            &&& params.group_id matches Some(g) ==> q.contains(
                ("group_id"@, text::decimal(g as int)),
            )
            &&& params.user_id matches Some(u) ==> q.contains(
                ("user_id"@, text::decimal(u as int)),
            )
            &&& params.page matches Some(p) ==> q.contains(("page"@, text::decimal(p as int)))
            &&& params.page_size matches Some(p) ==> q.contains(
                ("page_size"@, text::decimal(p as int)),
            )
            &&& params.status matches Some(s) ==> text::trimmed(s@).len() > 0 ==> q.contains(
                ("status"@, text::trimmed(s@)),
            )
        }),
{
    let a = int_param("user_id"@, params.user_id);
    let b = int_param("group_id"@, params.group_id);
    let c = text_param("status"@, admin_auth::filled_trimmed(db::opt_text(params.status)));
    let d = int_param("page"@, params.page);
    let e = int_param("page_size"@, params.page_size);
    let q = list_params(params);
    assert(q == a + b + c + d + e);
    if params.user_id is Some {
        assert(q[0] == a[0]);
    }
    if params.group_id is Some {
        assert(q[a.len() as int] == b[0]);
    }
    if c.len() > 0 {
        assert(q[(a.len() + b.len()) as int] == c[0]);
    }
    if params.page is Some {
        assert(q[(a.len() + b.len() + c.len()) as int] == d[0]);
    }
    if params.page_size is Some {
        assert(q[(a.len() + b.len() + c.len() + d.len()) as int] == e[0]);
    }
}

/// A request that takes money off a user's balance.
pub open spec fn takes_money(r: RequestView, base: Seq<char>, user_id: i64, cents: i64) -> bool {
    &&& r.call == (Call::SubtractBalance { from_user: user_id })
    &&& r.url == base + "/api/v1/admin/users/"@ + text::decimal(user_id as int) + "/balance"@
    &&& r.body matches BodyView::Balance { operation, balance_cents, .. }
    &&& operation == "subtract"@
    &&& balance_cents == cents
}

/// A request that puts money on a user's balance.
pub open spec fn gives_money(r: RequestView, base: Seq<char>, user_id: i64, cents: i64) -> bool {
    &&& r.call == (Call::AddBalance { to_user: user_id })
    &&& r.url == base + "/api/v1/admin/users/"@ + text::decimal(user_id as int) + "/balance"@
    &&& r.body matches BodyView::Balance { operation, balance_cents, .. }
    &&& operation == "add"@
    &&& balance_cents == cents
}

/// What takes money off a user and what puts it back go to the same balance, for the same
/// amount, under different operations.
pub proof fn law_giving_back_undoes_taking(
    taken: RequestView,
    given: RequestView,
    base: Seq<char>,
    user_id: i64,
    cents: i64,
)
    requires
        takes_money(taken, base, user_id, cents),
        gives_money(given, base, user_id, cents),
    ensures
        taken.url == given.url,
        taken.url == base + "/api/v1/admin/users/"@ + text::decimal(user_id as int) + "/balance"@,
        taken.body->balance_cents == cents && given.body->balance_cents == cents,
        taken.body->operation == "subtract"@ && given.body->operation == "add"@,
        taken.call.changes() && given.call.changes(),
{
}

/// A subscription is lengthened by the days given, shortened by days below zero, and so made
/// what it was by as many days the other way.
pub proof fn law_subscriptions_are_lengthened_by_days(
    client: Sub2ApiClient,
    subscription_id: i64,
    days: i64,
    once: &str,
    key: &str,
    r: PlatformRequest,
)
    requires
        call_ensures(
            Sub2ApiClient::extend_subscription,
            (&client, subscription_id, days, once, key),
            r,
        ),
    ensures
        r@.url == client.base_url@ + "/api/v1/admin/subscriptions/"@ + text::decimal(
            subscription_id as int,
        ) + "/extend"@,
        r@.body == (BodyView::Extend { days }),
        r@.api_key == Some(key@) && r@.idempotency_key == Some(once@),
        r@.call.changes(),
{
}

/// The subscription that is found for a group is active and of that group, and none before it
/// in the list is both; where none is found, none is both.
pub proof fn law_found_subscription_is_active(
    items: Vec<Sub2ApiSubscription>,
    group_id: i64,
    r: Option<usize>,
    j: int,
)
    requires
        call_ensures(find_active, (&items, group_id), r),
        0 <= j < items@.len(),
    ensures
        r matches Some(i) ==> i < items@.len() && items@[i as int].group_id == group_id
            && items@[i as int].status@ == "active"@,
        items@[j].group_id == group_id && items@[j].status@ == "active"@ ==> r is Some,
        items@[j].group_id == group_id && items@[j].status@ == "active"@ && (forall|k: int|
            0 <= k < j ==> (#[trigger] items@[k]).group_id != group_id || items@[k].status@
                != "active"@) ==> items@[r->0 as int] == items@[j],
{
    law_picked_subscription_is_the_first_active(items@, group_id);
    if items@[j].group_id == group_id && items@[j].status@ == "active"@ && (forall|k: int|
        0 <= k < j ==> (#[trigger] items@[k]).group_id != group_id || items@[k].status@
            != "active"@) {
        law_first_active_subscription_is_picked(items@, group_id, j);
    }
}

/// A user is asked about under their own token, and anything else under the administration
/// key, at the address of who or what is asked about.
pub proof fn law_questions_name_whom_they_ask_about(
    client: Sub2ApiClient,
    id: i64,
    key: &str,
    me: PlatformRequest,
    user: PlatformRequest,
    group: PlatformRequest,
    subscriptions: PlatformRequest,
)
    requires
        call_ensures(Sub2ApiClient::get_current_user_by_token, (&client, key), me),
        call_ensures(Sub2ApiClient::get_user, (&client, id, key), user),
        call_ensures(Sub2ApiClient::get_group, (&client, id, key), group),
        call_ensures(Sub2ApiClient::get_user_subscriptions, (&client, id, key), subscriptions),
    ensures
        me@.bearer == Some(key@) && me@.api_key is None,
        me@.url == client.base_url@ + "/api/v1/auth/me"@,
        user@.api_key == Some(key@) && user@.bearer is None,
        group@.api_key == Some(key@) && subscriptions@.api_key == Some(key@),
        user@.url == client.base_url@ + "/api/v1/admin/users/"@ + text::decimal(id as int),
        group@.url == client.base_url@ + "/api/v1/admin/groups/"@ + text::decimal(id as int),
        subscriptions@.url == user@.url + "/subscriptions"@,
        user@.call == (Call::User { user_id: id }) && group@.call == (Call::Group {
            group_id: id,
        }) && subscriptions@.call == (Call::UserSubscriptions { of_user: id }),
        !me@.call.changes() && !user@.call.changes() && !group@.call.changes()
            && !subscriptions@.call.changes(),
{
    reveal_strlit("");
    assert(user@.url =~= client.base_url@ + "/api/v1/admin/users/"@ + text::decimal(id as int));
    assert(group@.url =~= client.base_url@ + "/api/v1/admin/groups/"@ + text::decimal(id as int));
}

/// A code is redeemed once, for the user, the value, the group and the days given: the key that
/// it is sent under depends on the code alone, whatever it is redeemed for.
pub proof fn law_codes_are_redeemed_once(
    client: Sub2ApiClient,
    code: &str,
    value_cents: i64,
    user_id: i64,
    notes: &str,
    group_id: i64,
    days: i64,
    key: &str,
    balance: PlatformRequest,
    subscription: PlatformRequest,
)
    requires
        call_ensures(
            Sub2ApiClient::create_and_redeem_balance,
            (&client, code, value_cents, user_id, notes, key),
            balance,
        ),
        call_ensures(
            Sub2ApiClient::create_and_redeem_subscription,
            (&client, code, value_cents, user_id, notes, group_id, days, key),
            subscription,
        ),
    ensures
        balance@.idempotency_key == Some("sub2apipay:recharge:"@ + code@),
        subscription@.idempotency_key == balance@.idempotency_key,
        balance@.url == client.base_url@ + "/api/v1/admin/redeem-codes/create-and-redeem"@,
        subscription@.url == balance@.url,
        balance@.api_key == Some(key@) && subscription@.api_key == Some(key@),
        balance@.body matches BodyView::Redeem {
            code: c,
            redeem_type,
            value_cents: v,
            user_id: u,
            group_id: None,
            validity_days: None,
            ..
        } && c == code@ && redeem_type == "balance"@ && v == value_cents && u == user_id,
        subscription@.body matches BodyView::Redeem {
            code: c,
            redeem_type,
            value_cents: v,
            user_id: u,
            group_id: Some(g),
            validity_days: Some(d),
            ..
        } && c == code@ && redeem_type == "subscription"@ && v == value_cents && u == user_id && g
            == group_id && d == days,
{
}

/// Money is taken off the user, of the amount and under the key given, and put back likewise.
pub proof fn law_money_is_taken_off_its_user(
    client: Sub2ApiClient,
    user_id: i64,
    cents: i64,
    notes: &str,
    once: &str,
    key: &str,
    taken: PlatformRequest,
    given: PlatformRequest,
)
    requires
        call_ensures(
            Sub2ApiClient::subtract_balance,
            (&client, user_id, cents, notes, once, key),
            taken,
        ),
        call_ensures(Sub2ApiClient::add_balance, (&client, user_id, cents, notes, once, key), given),
    ensures
        taken@.body == (BodyView::Balance {
            operation: "subtract"@,
            balance_cents: cents,
            notes: notes@,
        }),
        given@.body == (BodyView::Balance {
            operation: "add"@,
            balance_cents: cents,
            notes: notes@,
        }),
        taken@.url == client.base_url@ + "/api/v1/admin/users/"@ + text::decimal(user_id as int)
            + "/balance"@,
        given@.url == taken@.url,
        taken@.idempotency_key == Some(once@) && given@.idempotency_key == Some(once@),
        taken@.api_key == Some(key@) && given@.api_key == Some(key@),
{
}

/// Credit counts as given exactly where the platform sent its code back.
pub proof fn law_credit_is_shown_by_its_code(
    code: Option<Sub2ApiRedeemCode>,
    r: Result<Sub2ApiRedeemCode, String>,
)
    requires
        call_ensures(redeemed, (code,), r),
    ensures
        r is Ok <==> code is Some,
        r matches Ok(c) ==> code == Some(c),
{
}

/// Users are searched for by a keyword, thirty at most, and by no keyword not at all.
pub proof fn law_users_are_searched_for_by_keyword(
    client: Sub2ApiClient,
    keyword: &str,
    key: &str,
    r: Result<Option<PlatformRequest>, String>,
    query: Seq<char>,
)
    requires
        call_ensures(Sub2ApiClient::search_users, (&client, keyword, key), r),
    ensures
        text::trimmed(keyword@).len() == 0 ==> r == Ok::<Option<PlatformRequest>, String>(None),
        text::trimmed(keyword@).len() > 0 && urlencoded::query_text(
            seq![("search"@, text::trimmed(keyword@)), ("page"@, "1"@), ("page_size"@, "30"@)],
        ) == Ok::<Seq<char>, Seq<char>>(query) ==> (r matches Ok(Some(q)) && q@.url
            == client.base_url@ + "/api/v1/admin/users"@ + "?"@ + query && q@.api_key == Some(
            key@,
        )),
{
}

}
