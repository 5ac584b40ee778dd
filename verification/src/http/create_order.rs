//! Placing an order and asking for its payment.
use vstd::prelude::*;

use crate::admin_auth;
use crate::clock::Moment;
use crate::db;
use crate::error::{AppError, ErrorKind, Refusal};
use crate::http::common;
use crate::http::common::said;
use crate::maps::TextMap;
use crate::money;
use crate::order::create;
use crate::order::create::CreatePendingOrderInput;
use crate::order::repository::{NewPendingOrder, OrderRecord};
use crate::payment;
use crate::payment::{FeeRate, MethodLimit, PaymentSelection};
use crate::payment_provider::{CreatePaymentRequest, CreatePaymentResponse};
use crate::sub2api::{Float64, Sub2ApiGroup};
use crate::subscription_plan;
use crate::subscription_plan::SubscriptionPlanRecord;
use crate::text;

verus! {

/// What a buyer asks for. The amount is in cents.
#[derive(Debug)]
pub struct Ask {
    pub locale: &'static str,
    pub payment_type: String,
    pub is_mobile: bool,
    pub subscription: bool,
    pub plan_id: Option<String>,
    pub amount_cents: i64,
}

/// The plan that a subscription is bought under, and what follows from it.
#[derive(Debug)]
pub struct SubscriptionOrderContext {
    pub plan: SubscriptionPlanRecord,
    pub payment_subject: String,
    pub amount_cents: i64,
    pub subscription_days: i64,
}

/// What is to be done next.
pub enum CreateAction {
    /// Ask the platform whose token it is.
    GetCurrentUser { token: String },
    /// Work out which payment types are on offer, and within which limits.
    ResolvePaymentConfig,
    LoadPlan { plan_id: String },
    /// Read a setting.
    ReadSetting { key: &'static str },
    GetGroup { group_id: i64, admin_key: String },
    /// Choose the instance that takes the payment.
    SelectPayment { payment_type: String, amount_cents: i64 },
    PlaceOrder { input: CreatePendingOrderInput },
    CreatePayment { payment_request: CreatePaymentRequest },
    DeleteOrder { unpaid_order: String },
    AttachPayment { order_id: String, payment: CreatePaymentResponse },
}

/// What came of it.
pub enum CreateReply {
    Error { message: String },
    Done,
    User { user_id: i64 },
    PaymentConfig { enabled_types: Vec<String>, limits: TextMap<MethodLimit> },
    Plan { plan: Option<SubscriptionPlanRecord> },
    Setting { value: Option<String> },
    Group { group: Option<Sub2ApiGroup> },
    Selection { selection: PaymentSelection },
    Placed { order: OrderRecord },
    Payment { response: CreatePaymentResponse },
}

/// What the buyer is answered.
#[derive(Debug)]
pub struct CreateOrderReceipt {
    pub order_id: String,
    pub amount_cents: i64,
    pub pay_amount_cents: i64,
    /// The rate that the payment was chosen at.
    pub fee_rate: Float64,
    /// That rate in basis points.
    pub fee_rate_bps: i64,
    pub status: String,
    pub payment_type: String,
    pub expires_at: i64,
    pub pay_url: Option<String>,
    pub qr_code: Option<String>,
    pub client_secret: Option<String>,
}

/// How far the work has come.
pub enum CreateOrder {
    Identifying { ask: Ask },
    Configuring { ask: Ask, user_id: i64 },
    FindingPlan { ask: Ask, user_id: i64, limit: MethodLimit },
    FindingKey {
        ask: Ask,
        user_id: i64,
        limit: MethodLimit,
        plan: SubscriptionPlanRecord,
        group_id: i64,
    },
    FindingGroup { ask: Ask, user_id: i64, limit: MethodLimit, plan: SubscriptionPlanRecord },
    Selecting {
        ask: Ask,
        user_id: i64,
        context: Option<SubscriptionOrderContext>,
        amount_cents: i64,
    },
    Placing { ask: Ask, subject: Option<String>, rate: FeeRate },
    Paying { ask: Ask, order: OrderRecord, rate: FeeRate },
    /// The order could not be paid for, and is taken back.
    Withdrawing { refusal: AppError },
    Attaching { receipt: CreateOrderReceipt },
}

pub enum CreateStep {
    Act { action: CreateAction, next: CreateOrder },
    Done { result: Result<CreateOrderReceipt, AppError> },
}

pub open spec fn refuses(out: CreateStep, refusal: Refusal) -> bool {
    out matches CreateStep::Done { result: Err(e) } && e@ == refusal
}

fn refuse(e: AppError) -> (r: CreateStep)
    ensures
        refuses(r, e@),
{
    CreateStep::Done { result: Err(e) }
}

pub open spec fn invalid_parameters(locale: Seq<char>) -> Refusal {
    (ErrorKind::BadRequest, said(locale, "参数错误"@, "Invalid parameters"@))
}

pub open spec fn invalid_token(locale: Seq<char>) -> Seq<char> {
    said(locale, "无效的 token，请重新登录"@, "Invalid token, please login again"@)
}

fn invalid_token_text(locale: &str) -> (r: &'static str)
    ensures
        r@ == invalid_token(locale@),
{
    common::message(locale, "无效的 token，请重新登录", "Invalid token, please login again")
}

/// The text of a refusal that ends with what it is about.
fn refuse_about(message: &str, about: &str) -> (r: AppError)
    ensures
        r@ == (ErrorKind::BadRequest, message@ + ": "@ + about@),
{
    AppError::bad_request(text::cat3(message, ": ", about).as_str())
}

/// A reply that answers something else.
pub open spec fn unexpected() -> Refusal {
    (ErrorKind::Internal, "unexpected reply"@)
}

// ---------------------------------------------------------------------------
// What the request says
// ---------------------------------------------------------------------------
/// What a request for an order says. The amount is in cents, where it is a positive number.
#[derive(Debug)]
pub struct CreateOrderRequest {
    pub token: String,
    pub amount_cents: Option<i64>,
    pub payment_type: String,
    pub is_mobile: Option<bool>,
    pub order_type: Option<String>,
    pub plan_id: Option<String>,
}

/// Why a request is refused before anything is asked, if it is.
pub open spec fn request_refusal(
    request: CreateOrderRequest,
    locale: Seq<char>,
    platform: bool,
) -> Option<Refusal> {
    if text::trimmed(request.token@).len() == 0 {
        Some((ErrorKind::Unauthorized, invalid_token(locale)))
    } else if request.amount_cents is None {
        Some(invalid_parameters(locale))
    } else if request.order_type matches Some(t) && t@ != "balance"@ && t@ != "subscription"@ {
        Some(invalid_parameters(locale))
    } else if !platform {
        Some((ErrorKind::Internal, "PLATFORM_BASE_URL is not configured"@))
    } else {
        None
    }
}

pub open spec fn asks(ask: Ask, request: CreateOrderRequest, locale: Seq<char>) -> bool {
    &&& ask.locale@ == locale
    &&& ask.payment_type@ == request.payment_type@
    &&& ask.is_mobile == (request.is_mobile == Some(true))
    &&& ask.subscription == (db::opt_text(request.order_type) == Some("subscription"@))
    &&& db::opt_text(ask.plan_id) == db::opt_text(request.plan_id)
    &&& Some(ask.amount_cents) == request.amount_cents
}

/// Begins with a request.
pub fn begin_order(request: CreateOrderRequest, lang: Option<&str>, platform: bool) -> (r:
    CreateStep)
    ensures
        match request_refusal(request, common::locale(db::opt_str(lang)), platform) {
            Some(refusal) => refuses(r, refusal),
            None => {
                &&& r matches CreateStep::Act { action, next }
                &&& action matches CreateAction::GetCurrentUser { token }
                &&& token@ == text::trimmed(request.token@)
                &&& next matches CreateOrder::Identifying { ask }
                &&& asks(ask, request, common::locale(db::opt_str(lang)))
            },
        },
{
    let locale = common::resolve_locale(lang);
    let token = text::trim(request.token.as_str());
    if token.is_empty() {
        return refuse(AppError::unauthorized(invalid_token_text(locale)));
    }
    let amount_cents: i64 = match request.amount_cents {
        Some(n) => n,
        None => {
            return refuse(
                AppError::bad_request(common::message(locale, "参数错误", "Invalid parameters")),
            );
        },
    };
    let subscription = match &request.order_type {
        None => false,
        Some(t) => if text::same(t.as_str(), "subscription") {
            true
        } else if text::same(t.as_str(), "balance") {
            false
        } else {
            return refuse(
                AppError::bad_request(common::message(locale, "参数错误", "Invalid parameters")),
            );
        },
    };
    if !platform {
        return refuse(AppError::internal("PLATFORM_BASE_URL is not configured"));
    }
    let is_mobile = match request.is_mobile {
        Some(b) => b,
        None => false,
    };
    let token = token.to_owned();
    proof {
        reveal_strlit("balance");
        reveal_strlit("subscription");
        assert("balance"@.len() != "subscription"@.len());
    }
    let ask = Ask {
        locale,
        payment_type: request.payment_type,
        is_mobile,
        subscription,
        plan_id: request.plan_id,
        amount_cents,
    };
    CreateStep::Act {
        action: CreateAction::GetCurrentUser { token },
        next: CreateOrder::Identifying { ask },
    }
}

// ---------------------------------------------------------------------------
// Which payment types there are
// ---------------------------------------------------------------------------
pub open spec fn unsupported_type(ask: Ask) -> Refusal {
    (
        ErrorKind::BadRequest,
        said(ask.locale@, "不支持的支付方式"@, "Unsupported payment type"@) + ": "@
            + ask.payment_type@,
    )
}

/// Why the payment type cannot be used, if it cannot.
pub open spec fn type_refusal(
    ask: Ask,
    enabled_types: Seq<Seq<char>>,
    limits: Map<Seq<char>, MethodLimit>,
) -> Option<Refusal> {
    if !enabled_types.contains(ask.payment_type@) || !limits.dom().contains(ask.payment_type@) {
        Some(unsupported_type(ask))
    } else if !limits[ask.payment_type@].available {
        Some(
            (
                ErrorKind::BadRequest,
                said(
                    ask.locale@,
                    "当前支付方式暂不可用"@,
                    "Selected payment type is temporarily unavailable"@,
                ),
            ),
        )
    } else {
        None
    }
}

fn check_type(ask: &Ask, enabled_types: &Vec<String>, limits: &TextMap<MethodLimit>) -> (r: Result<
    MethodLimit,
    AppError,
>)
    requires
        limits.wf(),
    ensures
        match type_refusal(*ask, text::texts(enabled_types@), limits@) {
            Some(refusal) => r matches Err(e) && e@ == refusal,
            None => r == Ok::<MethodLimit, AppError>(limits@[ask.payment_type@]),
        },
{
    if !payment::contains_text(enabled_types, ask.payment_type.as_str()) {
        return Err(
            refuse_about(
                common::message(ask.locale, "不支持的支付方式", "Unsupported payment type"),
                ask.payment_type.as_str(),
            ),
        );
    }
    match limits.get(ask.payment_type.as_str()) {
        None => Err(
            refuse_about(
                common::message(ask.locale, "不支持的支付方式", "Unsupported payment type"),
                ask.payment_type.as_str(),
            ),
        ),
        Some(limit) => if limit.available {
            Ok(*limit)
        } else {
            Err(
                AppError::bad_request(
                    common::message(
                        ask.locale,
                        "当前支付方式暂不可用",
                        "Selected payment type is temporarily unavailable",
                    ),
                ),
            )
        },
    }
}

/// Why the amount is outside the limits of the payment type, if it is. A greatest amount of
/// zero is no limit.
pub open spec fn amount_refusal(locale: Seq<char>, limit: MethodLimit, amount_cents: i64) -> Option<
    Refusal,
> {
    if amount_cents < limit.single_min_cents {
        Some(
            (
                ErrorKind::BadRequest,
                said(
                    locale,
                    "充值金额低于该支付方式最小限制"@,
                    "Amount is below the minimum for this payment type"@,
                ) + " "@ + money::amount(limit.single_min_cents as int),
            ),
        )
    } else if limit.single_max_cents > 0 && amount_cents > limit.single_max_cents {
        Some(
            (
                ErrorKind::BadRequest,
                said(
                    locale,
                    "充值金额超过该支付方式上限"@,
                    "Amount exceeds the maximum for this payment type"@,
                ) + " "@ + money::amount(limit.single_max_cents as int),
            ),
        )
    } else {
        None
    }
}

/// Goes on to the choice of an instance, if the amount is within the limits.
pub open spec fn chooses(
    out: CreateStep,
    ask: Ask,
    user_id: i64,
    limit: MethodLimit,
    context: Option<SubscriptionOrderContext>,
    amount_cents: i64,
) -> bool {
    match amount_refusal(ask.locale@, limit, amount_cents) {
        Some(refusal) => refuses(out, refusal),
        None => {
            &&& out matches CreateStep::Act { action, next }
            &&& action matches CreateAction::SelectPayment { payment_type, amount_cents: n }
            &&& payment_type@ == ask.payment_type@
            &&& n == amount_cents
            &&& next == (CreateOrder::Selecting { ask, user_id, context, amount_cents })
        },
    }
}

fn choose_instance(
    ask: Ask,
    user_id: i64,
    limit: MethodLimit,
    context: Option<SubscriptionOrderContext>,
    amount_cents: i64,
) -> (r: CreateStep)
    ensures
        chooses(r, ask, user_id, limit, context, amount_cents),
{
    if amount_cents < limit.single_min_cents {
        let least = money::amount_text(limit.single_min_cents);
        let message = common::message(
            ask.locale,
            "充值金额低于该支付方式最小限制",
            "Amount is below the minimum for this payment type",
        );
        return refuse(AppError::bad_request(text::cat3(message, " ", least.as_str()).as_str()));
    }
    if limit.single_max_cents > 0 && amount_cents > limit.single_max_cents {
        let most = money::amount_text(limit.single_max_cents);
        let message = common::message(
            ask.locale,
            "充值金额超过该支付方式上限",
            "Amount exceeds the maximum for this payment type",
        );
        return refuse(AppError::bad_request(text::cat3(message, " ", most.as_str()).as_str()));
    }
    CreateStep::Act {
        action: CreateAction::SelectPayment {
            payment_type: ask.payment_type.clone(),
            amount_cents,
        },
        next: CreateOrder::Selecting { ask, user_id, context, amount_cents },
    }
}

// ---------------------------------------------------------------------------
// The plan of a subscription
// ---------------------------------------------------------------------------
pub open spec fn plan_required(locale: Seq<char>) -> Refusal {
    (
        ErrorKind::BadRequest,
        said(locale, "订阅订单必须指定套餐"@, "Subscription order requires a plan"@),
    )
}

/// Why the plan cannot be bought, if it cannot: it must be there, for sale and of a group.
pub open spec fn plan_refusal(locale: Seq<char>, plan: Option<SubscriptionPlanRecord>) -> Option<
    Refusal,
> {
    if plan is None || !plan->0.for_sale {
        Some(
            (
                ErrorKind::NotFound,
                said(locale, "该套餐不存在或未上架"@, "Plan not found or not for sale"@),
            ),
        )
    } else if plan->0.group_id is None {
        Some(
            (
                ErrorKind::BadRequest,
                said(
                    locale,
                    "该套餐尚未绑定分组，无法购买"@,
                    "Plan is not bound to a group"@,
                ),
            ),
        )
    } else {
        None
    }
}

/// Looks at the plan that was found.
pub fn check_plan(locale: &str, plan: Option<SubscriptionPlanRecord>) -> (r: Result<
    (SubscriptionPlanRecord, i64),
    AppError,
>)
    ensures
        match plan_refusal(locale@, plan) {
            Some(refusal) => r matches Err(e) && e@ == refusal,
            None => r matches Ok((p, g)) && Some(p) == plan && Some(g) == p.group_id,
        },
{
    let missing = common::message(
        locale,
        "该套餐不存在或未上架",
        "Plan not found or not for sale",
    );
    match plan {
        None => Err(AppError::not_found(missing)),
        Some(p) => if !p.for_sale {
            Err(AppError::not_found(missing))
        } else {
            match p.group_id {
                Some(g) => Ok((p, g)),
                None => Err(
                    AppError::bad_request(
                        common::message(
                            locale,
                            "该套餐尚未绑定分组，无法购买",
                            "Plan is not bound to a group",
                        ),
                    ),
                ),
            }
        },
    }
}

/// Why the group of a plan cannot be bought into, if it cannot.
pub open spec fn group_refusal(locale: Seq<char>, group: Option<Sub2ApiGroup>) -> Option<Refusal> {
    if group is None || group->0.status@ != "active"@ {
        Some(
            (
                ErrorKind::BadRequest,
                said(
                    locale,
                    "订阅分组已下架，无法购买"@,
                    "Subscription group is no longer available"@,
                ),
            ),
        )
    } else if db::opt_text(group->0.subscription_type) != Some("subscription"@) {
        Some(
            (
                ErrorKind::BadRequest,
                said(
                    locale,
                    "该分组不是订阅类型，无法购买订阅"@,
                    "This group is not a subscription type"@,
                ),
            ),
        )
    } else {
        None
    }
}

/// What the buyer reads on the payment.
pub open spec fn plan_subject(plan: SubscriptionPlanRecord, group: Sub2ApiGroup) -> Seq<char> {
    match plan.product_name {
        Some(name) => name@,
        None => "OPay 订阅 "@ + if group.name@.len() == 0 {
            plan.name@
        } else {
            group.name@
        },
    }
}

/// Why what a plan and its group offer cannot be bought, if it cannot.
pub open spec fn context_refusal(
    locale: Seq<char>,
    plan: SubscriptionPlanRecord,
    group: Option<Sub2ApiGroup>,
    now: Moment,
) -> Option<Refusal> {
    if group_refusal(locale, group) is Some {
        group_refusal(locale, group)
    } else {
        match plan_validity(plan, now) {
            Err(why) => Some(
                (
                    ErrorKind::BadRequest,
                    said(
                        locale,
                        "订阅套餐配置无效"@,
                        "Invalid subscription plan configuration"@,
                    ) + ": "@ + why,
                ),
            ),
            Ok(_) => None,
        }
    }
}

/// How many days a plan lasts that is bought now.
pub open spec fn plan_validity(plan: SubscriptionPlanRecord, now: Moment) -> Result<int, Seq<char>> {
    subscription_plan::validity(
        plan.validity_days as int,
        plan.validity_unit@,
        Some(now),
        Seq::empty(),
    )
}

/// What follows from a plan and its group.
pub open spec fn context_holds(
    c: SubscriptionOrderContext,
    plan: SubscriptionPlanRecord,
    group: Sub2ApiGroup,
    now: Moment,
) -> bool {
    &&& c.plan == plan
    &&& c.payment_subject@ == plan_subject(plan, group)
    &&& c.amount_cents == plan.price_cents
    &&& plan_validity(plan, now) == Ok::<int, Seq<char>>(c.subscription_days as int)
}

/// Looks at the group of a plan, and works out what is bought.
pub fn resolve_subscription_order(
    locale: &str,
    plan: SubscriptionPlanRecord,
    group: Option<Sub2ApiGroup>,
    now: Moment,
) -> (r: Result<SubscriptionOrderContext, AppError>)
    requires
        subscription_plan::validity_fits(plan.validity_days as int, plan.validity_unit@),
    ensures
        match context_refusal(locale@, plan, group, now) {
            Some(refusal) => r matches Err(e) && e@ == refusal,
            None => r matches Ok(c) && context_holds(c, plan, group->0, now),
        },
{
    let gone = common::message(
        locale,
        "订阅分组已下架，无法购买",
        "Subscription group is no longer available",
    );
    let group = match group {
        None => {
            return Err(AppError::bad_request(gone));
        },
        Some(g) => g,
    };
    if !text::same(group.status.as_str(), "active") {
        return Err(AppError::bad_request(gone));
    }
    let of_type = match &group.subscription_type {
        Some(t) => text::same(t.as_str(), "subscription"),
        None => false,
    };
    if !of_type {
        return Err(
            AppError::bad_request(
                common::message(
                    locale,
                    "该分组不是订阅类型，无法购买订阅",
                    "This group is not a subscription type",
                ),
            ),
        );
    }
    proof {
        reveal_strlit("");
        assert(""@ =~= Seq::<char>::empty());
    }
    let subscription_days: i64 = match subscription_plan::validity_days_from(
        plan.validity_days,
        plan.validity_unit.as_str(),
        Some(now),
        "",
    ) {
        Ok(days) => days,
        Err(why) => {
            return Err(
                refuse_about(
                    common::message(
                        locale,
                        "订阅套餐配置无效",
                        "Invalid subscription plan configuration",
                    ),
                    why.as_str(),
                ),
            );
        },
    };
    let payment_subject = match &plan.product_name {
        Some(name) => name.clone(),
        None => text::cat(
            "OPay 订阅 ",
            if group.name.as_str().is_empty() {
                plan.name.as_str()
            } else {
                group.name.as_str()
            },
        ),
    };
    let amount_cents: i64 = plan.price_cents;
    Ok(SubscriptionOrderContext { plan, payment_subject, amount_cents, subscription_days })
}

// ---------------------------------------------------------------------------
// The steps
// ---------------------------------------------------------------------------
/// The order that is placed for what was asked.
pub open spec fn input_for(
    input: CreatePendingOrderInput,
    ask: Ask,
    user_id: i64,
    context: Option<SubscriptionOrderContext>,
    amount_cents: i64,
    selection: PaymentSelection,
) -> bool {
    &&& input.user_id == user_id
    &&& input.amount_cents == amount_cents
    &&& input.pay_amount_cents == Some(selection.pay_amount_cents)
    &&& input.fee_rate_bps == Some(selection.fee_rate_bps)
    &&& input.payment_type@ == ask.payment_type@
    &&& input.order_type@ == if ask.subscription {
        "subscription"@
    } else {
        "balance"@
    }
    &&& db::opt_text(input.plan_id) == match context {
        Some(c) => Some(c.plan.id@),
        None => None,
    }
    &&& input.subscription_group_id == match context {
        Some(c) => c.plan.group_id,
        None => None,
    }
    &&& input.subscription_days == match context {
        Some(c) => Some(c.subscription_days),
        None => None,
    }
    &&& db::opt_text(input.provider_instance_id) == db::opt_text(selection.provider_instance_id)
}

pub open spec fn context_subject(context: Option<SubscriptionOrderContext>) -> Option<Seq<char>> {
    match context {
        Some(c) => Some(c.payment_subject@),
        None => None,
    }
}

/// What the buyer of an order pays.
pub open spec fn to_pay(order: OrderRecord) -> i64 {
    match order.pay_amount_cents {
        Some(n) => n,
        None => order.amount_cents,
    }
}

/// The payment that is asked for to settle an order.
pub open spec fn payment_for(
    request: CreatePaymentRequest,
    ask: Ask,
    subject: Option<Seq<char>>,
    order: OrderRecord,
) -> bool {
    &&& request.order_id@ == order.id@
    &&& request.amount_cents == to_pay(order)
    &&& request.payment_type@ == order.payment_type@
    &&& request.subject@ == match subject {
        Some(s) => s,
        None => "OPay "@ + money::amount(to_pay(order) as int) + " CNY"@,
    }
    &&& request.client_ip is None
    &&& request.is_mobile == ask.is_mobile
    &&& db::opt_text(request.provider_instance_id) == db::opt_text(order.provider_instance_id)
}

/// The receipt for an order, the rate that its payment was chosen at, and the payment.
pub open spec fn receipt_for(
    receipt: CreateOrderReceipt,
    order: OrderRecord,
    rate: FeeRate,
    payment: CreatePaymentResponse,
) -> bool {
    &&& receipt.fee_rate == rate.rate
    &&& receipt.fee_rate_bps == rate.bps
    &&& receipt.order_id@ == order.id@
    &&& receipt.amount_cents == order.amount_cents
    &&& receipt.pay_amount_cents == to_pay(order)
    &&& receipt.status@ == order.status@
    &&& receipt.payment_type@ == order.payment_type@
    &&& receipt.expires_at == order.expires_at
    &&& db::opt_text(receipt.pay_url) == db::opt_text(payment.pay_url)
    &&& db::opt_text(receipt.qr_code) == db::opt_text(payment.qr_code)
    &&& db::opt_text(receipt.client_secret) == db::opt_text(payment.client_secret)
}

/// What follows once the payment types are known.
pub open spec fn configured(
    out: CreateStep,
    ask: Ask,
    user_id: i64,
    enabled_types: Seq<Seq<char>>,
    limits: Map<Seq<char>, MethodLimit>,
) -> bool {
    match type_refusal(ask, enabled_types, limits) {
        Some(refusal) => refuses(out, refusal),
        None => {
            let limit = limits[ask.payment_type@];
            if !ask.subscription {
                chooses(out, ask, user_id, limit, None, ask.amount_cents)
            } else {
                match admin_auth::filled_trimmed(db::opt_text(ask.plan_id)) {
                    None => refuses(out, plan_required(ask.locale@)),
                    Some(id) => {
                        &&& out matches CreateStep::Act { action, next }
                        &&& action matches CreateAction::LoadPlan { plan_id }
                        &&& plan_id@ == id
                        &&& next == (CreateOrder::FindingPlan { ask, user_id, limit })
                    },
                }
            }
        },
    }
}

/// What one step does: what follows from a state, the reply to what was asked, and the time.
pub open spec fn create_next(
    state: CreateOrder,
    reply: CreateReply,
    now: Moment,
    out: CreateStep,
) -> bool {
    match state {
        CreateOrder::Identifying { ask } => match reply {
            CreateReply::Error { message } => refuses(
                out,
                common::unknown_user(
                    message@,
                    invalid_token(ask.locale@),
                    (ErrorKind::Internal, message@),
                ),
            ),
            CreateReply::User { user_id } => {
                &&& out matches CreateStep::Act { action, next }
                &&& action is ResolvePaymentConfig
                &&& next == (CreateOrder::Configuring { ask, user_id })
            },
            _ => refuses(out, unexpected()),
        },
        CreateOrder::Configuring { ask, user_id } => match reply {
            CreateReply::Error { message } => refuses(out, (ErrorKind::Internal, message@)),
            CreateReply::PaymentConfig { enabled_types, limits } => configured(
                out,
                ask,
                user_id,
                text::texts(enabled_types@),
                limits@,
            ),
            _ => refuses(out, unexpected()),
        },
        CreateOrder::FindingPlan { ask, user_id, limit } => match reply {
            CreateReply::Error { message } => refuses(out, (ErrorKind::Internal, message@)),
            CreateReply::Plan { plan } => match plan_refusal(ask.locale@, plan) {
                Some(refusal) => refuses(out, refusal),
                None => {
                    &&& out matches CreateStep::Act { action, next }
                    &&& action matches CreateAction::ReadSetting { key }
                    &&& key@ == "PLATFORM_ADMIN_API_KEY"@
                    &&& next == (CreateOrder::FindingKey {
                        ask,
                        user_id,
                        limit,
                        plan: plan->0,
                        group_id: plan->0.group_id->0,
                    })
                },
            },
            _ => refuses(out, unexpected()),
        },
        CreateOrder::FindingKey { ask, user_id, limit, plan, group_id } => match reply {
            CreateReply::Error { message } => refuses(out, (ErrorKind::Internal, message@)),
            CreateReply::Setting { value } => match admin_auth::filled_trimmed(
                db::opt_text(value),
            ) {
                None => refuses(
                    out,
                    (ErrorKind::Internal, "PLATFORM_ADMIN_API_KEY is not configured"@),
                ),
                Some(key) => {
                    &&& out matches CreateStep::Act { action, next }
                    &&& action matches CreateAction::GetGroup { group_id: g, admin_key }
                    &&& g == group_id
                    &&& admin_key@ == key
                    &&& next == (CreateOrder::FindingGroup { ask, user_id, limit, plan })
                },
            },
            _ => refuses(out, unexpected()),
        },
        CreateOrder::FindingGroup { ask, user_id, limit, plan } => match reply {
            CreateReply::Error { message } => refuses(out, (ErrorKind::Internal, message@)),
            CreateReply::Group { group } => match context_refusal(ask.locale@, plan, group, now) {
                Some(refusal) => refuses(out, refusal),
                None => exists|c: SubscriptionOrderContext| #[trigger]
                    context_holds(c, plan, group->0, now) && chooses(
                        out,
                        ask,
                        user_id,
                        limit,
                        Some(c),
                        plan.price_cents,
                    ),
            },
            _ => refuses(out, unexpected()),
        },
        CreateOrder::Selecting { ask, user_id, context, amount_cents } => match reply {
            CreateReply::Error { message } => refuses(out, (ErrorKind::BadRequest, message@)),
            CreateReply::Selection { selection } => {
                &&& out matches CreateStep::Act { action, next }
                &&& action matches CreateAction::PlaceOrder { input }
                &&& input_for(input, ask, user_id, context, amount_cents, selection)
                &&& next matches CreateOrder::Placing { ask: a, subject, rate }
                &&& a == ask
                &&& rate == selection.rate()
                &&& db::opt_text(subject) == context_subject(context)
            },
            _ => refuses(out, unexpected()),
        },
        CreateOrder::Placing { ask, subject, rate } => match reply {
            CreateReply::Error { message } => refuses(out, (ErrorKind::BadRequest, message@)),
            CreateReply::Placed { order } => {
                &&& out matches CreateStep::Act { action, next }
                &&& action matches CreateAction::CreatePayment { payment_request }
                &&& payment_for(payment_request, ask, db::opt_text(subject), order)
                &&& next == (CreateOrder::Paying { ask, order, rate })
            },
            _ => refuses(out, unexpected()),
        },
        CreateOrder::Paying { ask, order, rate } => match reply {
            CreateReply::Error { message } => {
                &&& out matches CreateStep::Act { action, next }
                &&& action matches CreateAction::DeleteOrder { unpaid_order }
                &&& unpaid_order@ == order.id@
                &&& next matches CreateOrder::Withdrawing { refusal }
                &&& refusal@ == (
                    ErrorKind::BadRequest,
                    said(
                        ask.locale@,
                        "支付渠道暂不可用"@,
                        "Payment method is temporarily unavailable"@,
                    ) + ": "@ + message@,
                )
            },
            CreateReply::Payment { response } => {
                &&& out matches CreateStep::Act { action, next }
                &&& action matches CreateAction::AttachPayment { order_id, payment }
                &&& order_id@ == order.id@
                &&& payment == response
                &&& next matches CreateOrder::Attaching { receipt }
                &&& receipt_for(receipt, order, rate, response)
            },
            _ => refuses(out, unexpected()),
        },
        CreateOrder::Withdrawing { refusal } => refuses(out, refusal@),
        CreateOrder::Attaching { receipt } => match reply {
            CreateReply::Error { message } => refuses(out, (ErrorKind::Internal, message@)),
            CreateReply::Done => out == (CreateStep::Done { result: Ok(receipt) }),
            _ => refuses(out, unexpected()),
        },
    }
}

fn unexpected_reply() -> (r: CreateStep)
    ensures
        refuses(r, unexpected()),
{
    refuse(AppError::internal("unexpected reply"))
}

fn after_config(
    ask: Ask,
    user_id: i64,
    enabled_types: &Vec<String>,
    limits: &TextMap<MethodLimit>,
) -> (r: CreateStep)
    requires
        limits.wf(),
    ensures
        configured(r, ask, user_id, text::texts(enabled_types@), limits@),
{
    let limit = match check_type(&ask, enabled_types, limits) {
        Ok(l) => l,
        Err(e) => {
            return refuse(e);
        },
    };
    if !ask.subscription {
        let amount_cents: i64 = ask.amount_cents;
        return choose_instance(ask, user_id, limit, None, amount_cents);
    }
    let plan_id = match admin_auth::trim_filled(db::as_deref(&ask.plan_id)) {
        Some(id) => id.to_owned(),
        None => {
            return refuse(
                AppError::bad_request(
                    common::message(
                        ask.locale,
                        "订阅订单必须指定套餐",
                        "Subscription order requires a plan",
                    ),
                ),
            );
        },
    };
    CreateStep::Act {
        action: CreateAction::LoadPlan { plan_id },
        next: CreateOrder::FindingPlan { ask, user_id, limit },
    }
}

fn place_order(
    ask: Ask,
    user_id: i64,
    context: Option<SubscriptionOrderContext>,
    amount_cents: i64,
    selection: PaymentSelection,
) -> (r: CreateStep)
    ensures
        forall|now: Moment|
            #![auto]
            create_next(
            CreateOrder::Selecting { ask, user_id, context, amount_cents },
            CreateReply::Selection { selection },
            now,
            r,
        ),
{
    let order_type = if ask.subscription {
        "subscription"
    } else {
        "balance"
    };
    let payment_type = ask.payment_type.clone();
    let (plan_id, subscription_group_id, subscription_days, subject) = match context {
        Some(c) => (
            Some(c.plan.id),
            c.plan.group_id,
            Some(c.subscription_days),
            Some(c.payment_subject),
        ),
        None => (None, None, None, None),
    };
    let input = CreatePendingOrderInput {
        user_id,
        amount_cents,
        pay_amount_cents: Some(selection.pay_amount_cents),
        fee_rate_bps: Some(selection.fee_rate_bps),
        payment_type,
        order_type: order_type.to_owned(),
        plan_id,
        subscription_group_id,
        subscription_days,
        provider_instance_id: selection.provider_instance_id,
    };
    let rate = FeeRate { rate: selection.fee_rate, bps: selection.fee_rate_bps };
    CreateStep::Act {
        action: CreateAction::PlaceOrder { input },
        next: CreateOrder::Placing { ask, subject, rate },
    }
}

fn ask_payment(ask: Ask, subject: Option<String>, rate: FeeRate, order: OrderRecord) -> (r:
    CreateStep)
    ensures
        forall|now: Moment|
            #![auto]
            create_next(
            CreateOrder::Placing { ask, subject, rate },
            CreateReply::Placed { order },
            now,
            r,
        ),
{
    let amount_cents: i64 = match order.pay_amount_cents {
        Some(n) => n,
        None => order.amount_cents,
    };
    let subject = match subject {
        Some(s) => s,
        None => text::cat3("OPay ", money::amount_text(amount_cents).as_str(), " CNY"),
    };
    let payment_request = CreatePaymentRequest {
        order_id: order.id.clone(),
        amount_cents,
        payment_type: order.payment_type.clone(),
        subject,
        client_ip: None,
        is_mobile: ask.is_mobile,
        provider_instance_id: db::copy_opt(&order.provider_instance_id),
    };
    CreateStep::Act {
        action: CreateAction::CreatePayment { payment_request },
        next: CreateOrder::Paying { ask, order, rate },
    }
}

fn attach_payment(
    ask: Ask,
    order: OrderRecord,
    rate: FeeRate,
    response: CreatePaymentResponse,
) -> (r: CreateStep)
    ensures
        forall|now: Moment|
            #![auto]
            create_next(
            CreateOrder::Paying { ask, order, rate },
            CreateReply::Payment { response },
            now,
            r,
        ),
{
    let pay_amount_cents: i64 = match order.pay_amount_cents {
        Some(n) => n,
        None => order.amount_cents,
    };
    let order_id = order.id.clone();
    let receipt = CreateOrderReceipt {
        order_id: order.id,
        amount_cents: order.amount_cents,
        pay_amount_cents,
        fee_rate: rate.rate,
        fee_rate_bps: rate.bps,
        status: order.status,
        payment_type: order.payment_type,
        expires_at: order.expires_at,
        pay_url: db::copy_opt(&response.pay_url),
        qr_code: db::copy_opt(&response.qr_code),
        client_secret: db::copy_opt(&response.client_secret),
    };
    CreateStep::Act {
        action: CreateAction::AttachPayment { order_id, payment: response },
        next: CreateOrder::Attaching { receipt },
    }
}

/// Goes one step on from a reply.
pub fn create_order_step(state: CreateOrder, reply: CreateReply, now: Moment) -> (r: CreateStep)
    requires
        reply matches CreateReply::PaymentConfig { limits, .. } ==> limits.wf(),
        state matches CreateOrder::FindingGroup { plan, .. } ==> subscription_plan::validity_fits(
            plan.validity_days as int,
            plan.validity_unit@,
        ),
    ensures
        create_next(state, reply, now, r),
{
    match state {
        CreateOrder::Identifying { ask } => match reply {
            CreateReply::Error { message } => {
                let other = AppError::internal(message.as_str());
                refuse(
                    common::map_user_error(message.as_str(), invalid_token_text(ask.locale), other),
                )
            },
            CreateReply::User { user_id } => CreateStep::Act {
                action: CreateAction::ResolvePaymentConfig,
                next: CreateOrder::Configuring { ask, user_id },
            },
            _ => unexpected_reply(),
        },
        CreateOrder::Configuring { ask, user_id } => match reply {
            CreateReply::Error { message } => refuse(AppError::internal(message.as_str())),
            CreateReply::PaymentConfig { enabled_types, limits } => after_config(
                ask,
                user_id,
                &enabled_types,
                &limits,
            ),
            _ => unexpected_reply(),
        },
        CreateOrder::FindingPlan { ask, user_id, limit } => match reply {
            CreateReply::Error { message } => refuse(AppError::internal(message.as_str())),
            CreateReply::Plan { plan } => match check_plan(ask.locale, plan) {
                Err(e) => refuse(e),
                Ok((plan, group_id)) => CreateStep::Act {
                    action: CreateAction::ReadSetting { key: "PLATFORM_ADMIN_API_KEY" },
                    next: CreateOrder::FindingKey { ask, user_id, limit, plan, group_id },
                },
            },
            _ => unexpected_reply(),
        },
        CreateOrder::FindingKey { ask, user_id, limit, plan, group_id } => match reply {
            CreateReply::Error { message } => refuse(AppError::internal(message.as_str())),
            CreateReply::Setting { value } => {
                let missing = AppError::internal("PLATFORM_ADMIN_API_KEY is not configured");
                match common::require_admin_key(db::as_deref(&value), missing) {
                    Err(e) => refuse(e),
                    Ok(admin_key) => CreateStep::Act {
                        action: CreateAction::GetGroup { group_id, admin_key },
                        next: CreateOrder::FindingGroup { ask, user_id, limit, plan },
                    },
                }
            },
            _ => unexpected_reply(),
        },
        CreateOrder::FindingGroup { ask, user_id, limit, plan } => match reply {
            CreateReply::Error { message } => refuse(AppError::internal(message.as_str())),
            CreateReply::Group { group } => match resolve_subscription_order(
                ask.locale,
                plan,
                group,
                now,
            ) {
                Err(e) => refuse(e),
                Ok(c) => {
                    let amount_cents: i64 = c.amount_cents;
                    assert(context_holds(c, plan, group->0, now));
                    choose_instance(ask, user_id, limit, Some(c), amount_cents)
                },
            },
            _ => unexpected_reply(),
        },
        CreateOrder::Selecting { ask, user_id, context, amount_cents } => match reply {
            CreateReply::Error { message } => refuse(AppError::bad_request(message.as_str())),
            CreateReply::Selection { selection } => place_order(
                ask,
                user_id,
                context,
                amount_cents,
                selection,
            ),
            _ => unexpected_reply(),
        },
        CreateOrder::Placing { ask, subject, rate } => match reply {
            CreateReply::Error { message } => refuse(AppError::bad_request(message.as_str())),
            CreateReply::Placed { order } => ask_payment(ask, subject, rate, order),
            _ => unexpected_reply(),
        },
        CreateOrder::Paying { ask, order, rate } => match reply {
            CreateReply::Error { message } => {
                let refusal = refuse_about(
                    common::message(
                        ask.locale,
                        "支付渠道暂不可用",
                        "Payment method is temporarily unavailable",
                    ),
                    message.as_str(),
                );
                CreateStep::Act {
                    action: CreateAction::DeleteOrder { unpaid_order: order.id },
                    next: CreateOrder::Withdrawing { refusal },
                }
            },
            CreateReply::Payment { response } => attach_payment(ask, order, rate, response),
            _ => unexpected_reply(),
        },
        CreateOrder::Withdrawing { refusal } => refuse(refusal),
        CreateOrder::Attaching { receipt } => match reply {
            CreateReply::Error { message } => refuse(AppError::internal(message.as_str())),
            CreateReply::Done => CreateStep::Done { result: Ok(receipt) },
            _ => unexpected_reply(),
        },
    }
}

// ---------------------------------------------------------------------------
// Laws
// ---------------------------------------------------------------------------
/// A payment type that names a provider without a gateway between is refused as unsupported,
/// whatever the settings are.
pub proof fn law_direct_types_are_refused(
    ask: Ask,
    override_enabled: bool,
    providers: Seq<Seq<char>>,
    configured_types: Option<Seq<char>>,
    instances: Seq<payment::ActiveInstance>,
    limits: Map<Seq<char>, MethodLimit>,
)
    requires
        ask.payment_type@ == "alipay_direct"@ || ask.payment_type@ == "wxpay_direct"@,
    ensures
        type_refusal(
            ask,
            payment::types_on_offer(override_enabled, providers, configured_types, instances),
            limits,
        ) == Some(unsupported_type(ask)),
{
    let t = ask.payment_type@;
    let types = payment::types_on_offer(override_enabled, providers, configured_types, instances);
    if types.contains(t) {
        payment::law_offered_types_are_supported(
            override_enabled,
            providers,
            configured_types,
            instances,
            t,
        );
        reveal_strlit("alipay_direct");
        reveal_strlit("wxpay_direct");
        reveal_strlit("alipay");
        reveal_strlit("wxpay");
        reveal_strlit("stripe");
        assert("alipay_direct"@.len() == 13 && "wxpay_direct"@.len() == 12);
    }
}

/// An instance is chosen only for an amount within the limits of the payment type, and only
/// for a payment type that is on offer and available.
pub proof fn law_orders_keep_to_the_limits(
    ask: Ask,
    user_id: i64,
    enabled_types: Seq<Seq<char>>,
    limits: Map<Seq<char>, MethodLimit>,
    payment_type: String,
    amount_cents: i64,
    next: CreateOrder,
)
    requires
        configured(
            CreateStep::Act {
                action: CreateAction::SelectPayment { payment_type, amount_cents },
                next,
            },
            ask,
            user_id,
            enabled_types,
            limits,
        ),
    ensures
        enabled_types.contains(payment_type@),
        limits.dom().contains(payment_type@),
        limits[payment_type@].available,
        amount_cents >= limits[payment_type@].single_min_cents,
        limits[payment_type@].single_max_cents > 0 ==> amount_cents
            <= limits[payment_type@].single_max_cents,
{
}

/// An order is placed only for a buyer whom the platform named, once an instance was chosen;
/// a payment is asked for only of an order that was placed.
pub proof fn law_work_is_done_in_order(
    state: CreateOrder,
    reply: CreateReply,
    now: Moment,
    action: CreateAction,
    next: CreateOrder,
)
    requires
        create_next(state, reply, now, CreateStep::Act { action, next }),
    ensures
        action is PlaceOrder ==> state is Selecting && reply is Selection,
        action is CreatePayment ==> state is Placing && reply is Placed,
        action is AttachPayment ==> state is Paying && reply is Payment,
        action is DeleteOrder ==> state is Paying && reply is Error,
        next is Configuring ==> reply is User,
{
}

/// An order whose payment cannot be had is taken back, and its buyer refused, whatever
/// comes of taking it back.
pub proof fn law_unpaid_orders_are_withdrawn(
    ask: Ask,
    order: OrderRecord,
    rate: FeeRate,
    message: String,
    reply: CreateReply,
    now: Moment,
    later: Moment,
    action: CreateAction,
    next: CreateOrder,
    out: CreateStep,
)
    requires
        create_next(
            CreateOrder::Paying { ask, order, rate },
            CreateReply::Error { message },
            now,
            CreateStep::Act { action, next },
        ),
        create_next(next, reply, later, out),
    ensures
        action matches CreateAction::DeleteOrder { unpaid_order } && unpaid_order@ == order.id@,
        out matches CreateStep::Done { result: Err(e) } && e.kind == ErrorKind::BadRequest,
{
}

/// A buyer is told the rate that the payment was chosen at, which is the rate that the order
/// was placed with, and for the amounts of that order.
pub proof fn law_told_rate_is_that_of_the_order(
    ask: Ask,
    user_id: i64,
    context: Option<SubscriptionOrderContext>,
    amount_cents: i64,
    selection: PaymentSelection,
    input: CreatePendingOrderInput,
    placed: NewPendingOrder,
    order: OrderRecord,
    response: CreatePaymentResponse,
    receipt: CreateOrderReceipt,
    times: (Moment, Moment, Moment),
    expires_at: int,
    created_at: i64,
    states: (CreateOrder, CreateOrder),
    actions: (CreateAction, CreateAction),
)
    requires
        create_next(
            CreateOrder::Selecting { ask, user_id, context, amount_cents },
            CreateReply::Selection { selection },
            times.0,
            CreateStep::Act { action: CreateAction::PlaceOrder { input }, next: states.0 },
        ),
        create::placed_as(placed, input, expires_at),
        create::pending_record_holds(order, placed, created_at),
        create_next(
            states.0,
            CreateReply::Placed { order },
            times.1,
            CreateStep::Act { action: actions.0, next: states.1 },
        ),
        create_next(
            states.1,
            CreateReply::Payment { response },
            times.2,
            CreateStep::Act { action: actions.1, next: CreateOrder::Attaching { receipt } },
        ),
    ensures
        receipt.fee_rate == selection.fee_rate,
        receipt.fee_rate_bps == selection.fee_rate_bps,
        order.fee_rate_bps == Some(receipt.fee_rate_bps),
        receipt.amount_cents == amount_cents,
        receipt.pay_amount_cents == selection.pay_amount_cents,
{
}

/// A request is turned away at once exactly where its token is blank, it has no amount above
/// zero, its kind is neither a recharge nor a subscription, or there is no platform to ask. A
/// request without a kind is for a recharge, and is of the amount and type that it names.
pub proof fn law_requests_are_read_as_they_are(
    request: CreateOrderRequest,
    locale: Seq<char>,
    platform: bool,
    ask: Ask,
)
    requires
        asks(ask, request, locale),
    ensures
        request_refusal(request, locale, platform) is None <==> {
            &&& text::trimmed(request.token@).len() > 0
            &&& request.amount_cents is Some
            &&& request.order_type matches Some(t) ==> t@ == "balance"@ || t@ == "subscription"@
            &&& platform
        },
        ask.subscription <==> (request.order_type matches Some(t) && t@ == "subscription"@),
        request.amount_cents == Some(ask.amount_cents),
        ask.payment_type@ == request.payment_type@,
        ask.is_mobile <==> request.is_mobile == Some(true),
        ask.plan_id is Some <==> request.plan_id is Some,
        ask.plan_id matches Some(p) ==> p@ == request.plan_id->0@,
{
}

/// A payment type may be used exactly where it is on offer and available; a payment then
/// exactly where it is no less than the least and, unless there is no greatest, no more than
/// the greatest that the type takes.
pub proof fn law_payments_are_checked_against_their_type(
    ask: Ask,
    enabled_types: Seq<Seq<char>>,
    limits: Map<Seq<char>, MethodLimit>,
    locale: Seq<char>,
    limit: MethodLimit,
    amount_cents: i64,
)
    ensures
        type_refusal(ask, enabled_types, limits) is None <==> enabled_types.contains(
            ask.payment_type@,
        ) && limits.dom().contains(ask.payment_type@) && limits[ask.payment_type@].available,
        amount_refusal(locale, limit, amount_cents) is None <==> limit.single_min_cents
            <= amount_cents && (limit.single_max_cents <= 0 || amount_cents
            <= limit.single_max_cents),
{
}

/// A recharge goes on to the choice of an instance for the amount asked for; a subscription to
/// its plan, which it must name.
pub proof fn law_recharges_are_of_the_amount_asked(
    ask: Ask,
    user_id: i64,
    enabled_types: Vec<String>,
    limits: TextMap<MethodLimit>,
    now: Moment,
    out: CreateStep,
)
    requires
        create_next(
            CreateOrder::Configuring { ask, user_id },
            CreateReply::PaymentConfig { enabled_types, limits },
            now,
            out,
        ),
        out is Act,
    ensures
        !ask.subscription ==> (out->action matches CreateAction::SelectPayment {
            payment_type,
            amount_cents,
        } && payment_type@ == ask.payment_type@ && amount_cents == ask.amount_cents && (
        out->next matches CreateOrder::Selecting { user_id: u, context, amount_cents: n, .. } && u
            == user_id && context is None && n == ask.amount_cents)),
        ask.subscription ==> (out->action matches CreateAction::LoadPlan { plan_id }
            && ask.plan_id is Some && plan_id@ == text::trimmed(ask.plan_id->0@) && plan_id@.len()
            > 0),
{
}

/// A plan can be bought exactly where it is for sale and bound to a group that is there, is
/// active and is one of subscriptions, and has a length; it then costs its price, whatever
/// amount was asked for, and lasts as long as it says from now on.
pub proof fn law_plans_are_sold_at_their_price(
    locale: Seq<char>,
    plan: SubscriptionPlanRecord,
    group: Option<Sub2ApiGroup>,
    now: Moment,
    c: SubscriptionOrderContext,
)
    ensures
        plan_refusal(locale, Some(plan)) is None <==> plan.for_sale && plan.group_id is Some,
        plan_refusal(locale, None) is Some,
        group_refusal(locale, group) is None <==> (group matches Some(g) && g.status@ == "active"@
            && (g.subscription_type matches Some(t) && t@ == "subscription"@)),
        context_refusal(locale, plan, group, now) is None ==> group_refusal(locale, group) is None,
        group is Some && context_holds(c, plan, group->0, now) ==> {
            let unit = text::lowered(text::trimmed(plan.validity_unit@));
            &&& c.amount_cents == plan.price_cents
            &&& c.plan == plan
            &&& unit == "day"@ ==> c.subscription_days == plan.validity_days
            &&& unit == "week"@ ==> c.subscription_days == 7 * plan.validity_days
            &&& plan.validity_days > 0
            &&& plan.product_name matches Some(p) ==> c.payment_subject@ == p@
        },
{
    reveal_strlit("day");
    reveal_strlit("week");
    assert("day"@.len() != "week"@.len());
}

/// The amount that a subscription is paid with is the price of its plan.
pub proof fn law_subscriptions_cost_their_price(
    ask: Ask,
    user_id: i64,
    limit: MethodLimit,
    plan: SubscriptionPlanRecord,
    group: Option<Sub2ApiGroup>,
    now: Moment,
    out: CreateStep,
)
    requires
        create_next(
            CreateOrder::FindingGroup { ask, user_id, limit, plan },
            CreateReply::Group { group },
            now,
            out,
        ),
        out is Act,
    ensures
        out->action matches CreateAction::SelectPayment { payment_type, amount_cents }
            && payment_type@ == ask.payment_type@ && amount_cents == plan.price_cents,
        out->next matches CreateOrder::Selecting { user_id: u, context: Some(c), amount_cents, .. }
            && u == user_id && amount_cents == plan.price_cents && c.amount_cents
            == plan.price_cents && c.plan == plan,
        limit.single_min_cents <= plan.price_cents,
        limit.single_max_cents > 0 ==> plan.price_cents <= limit.single_max_cents,
{
}

/// An order is placed for the buyer, of the amount settled, with what is to be paid, the rate
/// and the instance that were chosen; as a subscription with its plan, group and days, and as a
/// recharge with none of them.
pub proof fn law_orders_are_placed_as_settled(
    ask: Ask,
    user_id: i64,
    context: Option<SubscriptionOrderContext>,
    amount_cents: i64,
    selection: PaymentSelection,
    now: Moment,
    out: CreateStep,
)
    requires
        create_next(
            CreateOrder::Selecting { ask, user_id, context, amount_cents },
            CreateReply::Selection { selection },
            now,
            out,
        ),
    ensures
        out is Act,
        out->action matches CreateAction::PlaceOrder { input } && {
            &&& input.user_id == user_id
            &&& input.amount_cents == amount_cents
            &&& input.pay_amount_cents == Some(selection.pay_amount_cents)
            &&& input.fee_rate_bps == Some(selection.fee_rate_bps)
            &&& input.payment_type@ == ask.payment_type@
            &&& ask.subscription ==> input.order_type@ == "subscription"@
            &&& !ask.subscription ==> input.order_type@ == "balance"@
            &&& context is None ==> input.plan_id is None && input.subscription_group_id is None
                && input.subscription_days is None
            &&& context matches Some(c) ==> {
                &&& input.plan_id matches Some(p) && p@ == c.plan.id@
                &&& input.subscription_group_id == c.plan.group_id
                &&& input.subscription_days == Some(c.subscription_days)
            }
            &&& selection.provider_instance_id matches Some(i) ==> (
            input.provider_instance_id matches Some(j) && j@ == i@)
            &&& selection.provider_instance_id is None ==> input.provider_instance_id is None
        },
{
}

/// A payment is asked for of the order that was placed: of what is to be paid for it, of its
/// type, through its instance; and what comes of it is noted with that order and told the
/// buyer.
pub proof fn law_payments_are_of_the_order(
    ask: Ask,
    subject: Option<String>,
    rate: FeeRate,
    order: OrderRecord,
    response: CreatePaymentResponse,
    now: Moment,
    asked: CreateStep,
    later: Moment,
    attached: CreateStep,
)
    requires
        create_next(
            CreateOrder::Placing { ask, subject, rate },
            CreateReply::Placed { order },
            now,
            asked,
        ),
        create_next(
            CreateOrder::Paying { ask, order, rate },
            CreateReply::Payment { response },
            later,
            attached,
        ),
    ensures
        ({
            let cost = match order.pay_amount_cents {
                Some(c) => c,
                None => order.amount_cents,
            };
            &&& asked is Act && attached is Act
            &&& asked->action matches CreateAction::CreatePayment { payment_request }
            &&& payment_request.order_id@ == order.id@
            &&& payment_request.amount_cents == cost
            &&& payment_request.payment_type@ == order.payment_type@
            &&& payment_request.is_mobile == ask.is_mobile
            &&& subject matches Some(s) ==> payment_request.subject@ == s@
            &&& order.provider_instance_id matches Some(i) ==> (
            payment_request.provider_instance_id matches Some(j) && j@ == i@)
            &&& order.provider_instance_id is None ==> payment_request.provider_instance_id is None
            &&& attached->action matches CreateAction::AttachPayment { order_id, payment }
            &&& order_id@ == order.id@
            &&& payment == response
            &&& attached->next matches CreateOrder::Attaching { receipt }
            &&& receipt.order_id@ == order.id@
            &&& receipt.amount_cents == order.amount_cents
            &&& receipt.pay_amount_cents == cost
            &&& receipt.status@ == order.status@
            &&& receipt.expires_at == order.expires_at
            &&& receipt.pay_url is Some <==> response.pay_url is Some
            &&& receipt.pay_url matches Some(u) ==> u@ == response.pay_url->0@
            &&& receipt.qr_code is Some <==> response.qr_code is Some
            &&& receipt.qr_code matches Some(u) ==> u@ == response.qr_code->0@
            &&& receipt.client_secret is Some <==> response.client_secret is Some
            &&& receipt.client_secret matches Some(u) ==> u@ == response.client_secret->0@
        }),
{
}

/// An order is created by steps.
pub proof fn law_orders_are_created_by_steps(
    state: CreateOrder,
    reply: CreateReply,
    now: Moment,
    out: CreateStep,
)
    requires
        call_ensures(create_order_step, (state, reply, now), out),
    ensures
        create_next(state, reply, now, out),
{
}

/// An order begins with whose token it is, and goes on with what was asked.
pub proof fn law_orders_begin_with_their_buyer(
    request: CreateOrderRequest,
    lang: Option<&str>,
    platform: bool,
    out: CreateStep,
)
    requires
        call_ensures(begin_order, (request, lang, platform), out),
        out is Act,
    ensures
        out->action matches CreateAction::GetCurrentUser { token } && token@ == text::trimmed(
            request.token@,
        ) && token@.len() > 0,
        out->next matches CreateOrder::Identifying { ask } && request.amount_cents == Some(
            ask.amount_cents,
        ) && ask.payment_type@ == request.payment_type@,
        platform,
{
}


/// An amount that is refused is refused with the bound that it does not keep.
pub proof fn law_refused_amounts_are_told_their_bound(
    locale: Seq<char>,
    limit: MethodLimit,
    amount_cents: i64,
)
    ensures
        amount_cents < limit.single_min_cents ==> (amount_refusal(
            locale,
            limit,
            amount_cents,
        ) matches Some(e) && e.0 == ErrorKind::BadRequest && text::is_suffix(
            money::amount(limit.single_min_cents as int),
            e.1,
        )),
        amount_cents >= limit.single_min_cents && 0 < limit.single_max_cents < amount_cents ==> (
        amount_refusal(locale, limit, amount_cents) matches Some(e) && e.0 == ErrorKind::BadRequest
            && text::is_suffix(money::amount(limit.single_max_cents as int), e.1)),
{
    let least = money::amount(limit.single_min_cents as int);
    let greatest = money::amount(limit.single_max_cents as int);
    if let Some(e) = amount_refusal(locale, limit, amount_cents) {
        if amount_cents < limit.single_min_cents {
            assert(e.1.skip(e.1.len() - least.len()) =~= least);
        } else {
            assert(e.1.skip(e.1.len() - greatest.len()) =~= greatest);
        }
    }
}

/// What is bought of a plan is worked out from the plan, its group and the time.
pub proof fn law_plans_are_bought_as_they_are(
    locale: &str,
    plan: SubscriptionPlanRecord,
    group: Option<Sub2ApiGroup>,
    now: Moment,
    r: Result<SubscriptionOrderContext, AppError>,
    checked: Result<(SubscriptionPlanRecord, i64), AppError>,
)
    requires
        call_ensures(resolve_subscription_order, (locale, plan, group, now), r),
        call_ensures(check_plan, (locale, Some(plan)), checked),
    ensures
        checked is Ok <==> plan.for_sale && plan.group_id is Some,
        checked matches Ok((p, g)) ==> p == plan && Some(g) == plan.group_id,
        r matches Ok(c) ==> c.plan == plan && c.amount_cents == plan.price_cents && (
        group matches Some(g) && g.status@ == "active"@),
        r matches Ok(c) ==> (subscription_plan::validity(
            plan.validity_days as int,
            plan.validity_unit@,
            Some(now),
            Seq::empty(),
        ) == Ok::<int, Seq<char>>(c.subscription_days as int)),
{
}


/// A recharge is paid for under its amount, and a plan under its product's name, or else under
/// that of its group, or its own where the group has none.
pub proof fn law_payments_are_named_for_what_is_bought(
    request: CreatePaymentRequest,
    ask: Ask,
    order: OrderRecord,
    plan: SubscriptionPlanRecord,
    group: Sub2ApiGroup,
)
    requires
        payment_for(request, ask, None, order),
    ensures
        order.pay_amount_cents matches Some(c) ==> request.subject@ == "OPay "@ + money::amount(
            c as int,
        ) + " CNY"@,
        order.pay_amount_cents is None ==> request.subject@ == "OPay "@ + money::amount(
            order.amount_cents as int,
        ) + " CNY"@,
        plan.product_name matches Some(p) ==> plan_subject(plan, group) == p@,
        plan.product_name is None && group.name@.len() > 0 ==> plan_subject(plan, group)
            == "OPay 订阅 "@ + group.name@,
        plan.product_name is None && group.name@.len() == 0 ==> plan_subject(plan, group)
            == "OPay 订阅 "@ + plan.name@,
{
}

}
