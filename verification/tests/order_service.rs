//! Work on orders, run against a world in memory.
use std::collections::{HashMap, VecDeque};

use opay::crypto;
use opay::error::ErrorKind;
use opay::http::admin::refund as admin_refund;
use opay::http::gate::{self, EntryAction, EntryStep, Service};
use opay::http::orders;
use opay::http::webhooks::{self, Handled};
use opay::json::{JsonData, JsonValue, NumberFacts};
use opay::maps::TextMap;
use opay::order::audit::NewAuditLog;
use opay::order::cancel::{Cancel, CancelOrderOutcome, Canceller};
use opay::order::confirm::{Confirm, ConfirmPaymentOutcome, Payment};
use opay::order::create::{self, CreatePendingOrderInput, OrderRules};
use opay::order::expire::Expiry;
use opay::order::flow::{Action, Reply, Step};
use opay::order::fulfil::Fulfil;
use opay::order::notify::Notification;
use opay::order::refund::{ProcessRefundInput, ProcessRefundResult, Refund};
use opay::order::repository::{MarkPaidInput, NewPendingOrder, OrderRecord};
use opay::order::request::{Request, RequestRefundInput};
use opay::order::retry::Retry;
use opay::payment_provider::{
    self, CallFault, FormRequest, PaymentProvider, StripeRefundResponse,
    VerifiedPaymentNotification,
};
use opay::signing;
use opay::sub2api::{
    self, Body, Float64, PlatformRequest, Sub2ApiClient, Sub2ApiGroup, Sub2ApiSubscription, Verdict,
};
use opay::subscription_plan::SubscriptionPlanRecord;

const ADMIN_TOKEN: &str = "dev-admin-token";

struct World {
    orders: Vec<OrderRecord>,
    audits: Vec<NewAuditLog>,
    settings: HashMap<String, String>,
    plans: Vec<(String, i64, i64, i64, String, Option<String>)>,
    groups: Vec<(i64, String)>,
    users: Vec<(i64, i64)>,
    subscriptions: Vec<(i64, i64, i64, String)>,
    redeem_replies: VecDeque<Result<(), (u16, String)>>,
    balance_replies: VecDeque<Result<(), (u16, String)>>,
    gateway_replies: VecDeque<Result<(), String>>,
    instances: HashMap<String, String>,
    platform_calls: Vec<PlatformRequest>,
    gateway_calls: Vec<FormRequest>,
    now: i64,
}

impl World {
    fn new() -> World {
        World {
            orders: Vec::new(),
            audits: Vec::new(),
            settings: HashMap::new(),
            plans: Vec::new(),
            groups: Vec::new(),
            users: Vec::new(),
            subscriptions: Vec::new(),
            redeem_replies: VecDeque::new(),
            balance_replies: VecDeque::new(),
            gateway_replies: VecDeque::new(),
            instances: HashMap::new(),
            platform_calls: Vec::new(),
            gateway_calls: Vec::new(),
            now: 2000,
        }
    }

    fn with_admin_key() -> World {
        let mut world = World::new();
        world
            .settings
            .insert("SUB2API_ADMIN_API_KEY".to_string(), "test-admin-key".to_string());
        world
    }

    fn insert(&mut self, order: NewPendingOrder) -> OrderRecord {
        let record = create::pending_record(order, 1000);
        self.orders.push(record.clone());
        record
    }

    fn order(&mut self, id: &str) -> Option<&mut OrderRecord> {
        self.orders.iter_mut().find(|order| order.id == id)
    }

    fn saved(&self, id: &str) -> &OrderRecord {
        self.orders.iter().find(|order| order.id == id).unwrap()
    }

    fn audit_count(&self, id: &str, action: &str) -> usize {
        self.audits
            .iter()
            .filter(|entry| entry.order_id == id && entry.action == action)
            .count()
    }

    fn change(&mut self, id: &str, change: impl FnOnce(&mut OrderRecord) -> bool) -> Reply {
        match self.order(id) {
            Some(order) => Reply::Changed { changed: change(order) },
            None => Reply::Changed { changed: false },
        }
    }

    fn insert_stripe_instance(&mut self) -> String {
        let sealed = crypto::encrypt(
            Some(ADMIN_TOKEN),
            r#"{"secretKey":"sk_test_refund","apiBase":"http://stripe.test"}"#,
        )
        .unwrap();
        self.instances.insert("inst_stripe".to_string(), sealed);
        "inst_stripe".to_string()
    }

    fn platform(&mut self, request: PlatformRequest, queue: u8) -> Reply {
        let call = request.call;
        self.platform_calls.push(request);
        let reply = match queue {
            0 => self.redeem_replies.pop_front().unwrap_or(Ok(())),
            _ => self.balance_replies.pop_front().unwrap_or(Ok(())),
        };
        let (status, body) = match reply {
            Ok(()) => (200, String::new()),
            Err((status, body)) => (status, body),
        };
        match sub2api::read_status(call, status, &body) {
            Verdict::Read => Reply::Done,
            Verdict::Absent => Reply::Error { message: "absent".to_string() },
            Verdict::Fault { message } => Reply::Error { message },
        }
    }

    fn perform(&mut self, action: Action) -> Reply {
        let client = Sub2ApiClient::new("http://platform.test".to_string());
        let now = self.now;
        match action {
            Action::LoadOrder { order_id } => {
                Reply::Order { order: self.order(&order_id).map(|order| order.clone()) }
            }
            Action::MarkIfPending { order_id, status } => {
                self.change(&order_id, |o| o.mark_status_if_pending(status.as_str(), now))
            }
            Action::MarkPaid { payment } => {
                let id = payment.order_id.clone();
                self.change(&id, |o| o.mark_paid_if_pending_or_recent_expired(&payment, now))
            }
            Action::ClaimRecharge { order_id } => {
                self.change(&order_id, |o| o.mark_recharging_if_paid_or_failed(now))
            }
            Action::ResetToPaid { order_id } => {
                self.change(&order_id, |o| o.reset_to_paid_if_retryable(now))
            }
            Action::MarkCompleted { order_id, at } => {
                self.change(&order_id, |o| o.mark_completed_after_fulfillment(at, now))
            }
            Action::MarkFailed { order_id, reason, at } => {
                self.change(&order_id, |o| o.mark_failed_if_recharging(&reason, at, now))
            }
            Action::MarkRefundRequested { request } => {
                let id = request.order_id.clone();
                self.change(&id, |o| o.mark_refund_requested(&request, now))
            }
            Action::ClaimRefund { order_id } => {
                self.change(&order_id, |o| o.mark_refunding_if_refundable(now))
            }
            Action::RestoreAfterRefund { order_id, status } => self.change(&order_id, |o| {
                o.restore_after_refund_gateway_failure(status.as_str(), now)
            }),
            Action::MarkRefundFailed { order_id, reason, at } => {
                self.change(&order_id, |o| o.mark_refund_failed(&reason, at, now))
            }
            Action::MarkRefunded { refund } => {
                let id = refund.order_id.clone();
                self.change(&id, |o| o.mark_refunded(&refund, now))
            }
            Action::Audit { entry } => {
                self.audits.push(entry);
                Reply::Done
            }
            Action::ReadSetting { key } => Reply::Setting {
                value: self.settings.get(key).cloned(),
            },
            Action::LoadPlan { plan_id } => Reply::Plan {
                plan: self.plans.iter().find(|plan| plan.0 == plan_id).map(|plan| {
                    SubscriptionPlanRecord {
                        id: plan.0.clone(),
                        group_id: Some(plan.1),
                        name: plan.0.clone(),
                        description: None,
                        price_cents: plan.2,
                        original_price_cents: None,
                        validity_days: plan.3,
                        validity_unit: plan.4.clone(),
                        features: None,
                        product_name: plan.5.clone(),
                        for_sale: true,
                        sort_order: 0,
                        created_at: 0,
                        updated_at: 0,
                    }
                }),
            },
            Action::GetUser { user_id, admin_key } => {
                self.platform_calls.push(client.get_user(user_id, &admin_key));
                match self.users.iter().find(|user| user.0 == user_id) {
                    Some(user) => Reply::User { balance_cents: Some(user.1) },
                    None => Reply::Error { message: "USER_NOT_FOUND".to_string() },
                }
            }
            Action::GetGroup { group_id, admin_key: _ } => Reply::Group {
                group: self
                    .groups
                    .iter()
                    .find(|group| group.0 == group_id)
                    .map(|group| group_named(group.0, &group.1)),
            },
            Action::GetSubscriptions { user_id, admin_key: _ } => Reply::Subscriptions {
                items: self
                    .subscriptions
                    .iter()
                    .filter(|item| item.1 == user_id)
                    .map(|item| subscription(item.0, item.1, item.2, &item.3))
                    .collect(),
            },
            Action::RedeemBalance { code, amount_cents, user_id, notes, admin_key } => {
                let request = client
                    .create_and_redeem_balance(&code, amount_cents, user_id, &notes, &admin_key);
                self.platform(request, 0)
            }
            Action::RedeemSubscription {
                code,
                amount_cents,
                user_id,
                notes,
                group_id,
                days,
                admin_key,
            } => {
                let request = client.create_and_redeem_subscription(
                    &code,
                    amount_cents,
                    user_id,
                    &notes,
                    group_id,
                    days,
                    &admin_key,
                );
                self.platform(request, 0)
            }
            Action::SubtractBalance { user_id, amount_cents, notes, idempotency_key, admin_key } => {
                let request = client
                    .subtract_balance(user_id, amount_cents, &notes, &idempotency_key, &admin_key);
                self.platform(request, 1)
            }
            Action::AddBalance { user_id, amount_cents, notes, idempotency_key, admin_key } => {
                let request = client
                    .add_balance(user_id, amount_cents, &notes, &idempotency_key, &admin_key);
                self.platform(request, 1)
            }
            Action::ExtendSubscription { subscription_id, days, idempotency_key, admin_key } => {
                let request = client
                    .extend_subscription(subscription_id, days, &idempotency_key, &admin_key);
                self.platform(request, 1)
            }
            Action::GatewayRefund { refund_request } => {
                let config = match &refund_request.provider_instance_id {
                    Some(id) => payment_provider::open_settings(
                        Some(ADMIN_TOKEN),
                        self.instances.get(id).unwrap(),
                    )
                    .unwrap(),
                    None => TextMap::new(),
                };
                let provider = payment_provider::build_provider(
                    &refund_request.payment_type,
                    config,
                    TextMap::new(),
                )
                .unwrap();
                match provider.refund(&refund_request) {
                    Ok(form) => self.gateway_calls.push(form),
                    Err(message) => return Reply::Error { message },
                }
                let answer = match self.gateway_replies.pop_front().unwrap_or(Ok(())) {
                    Ok(()) => Ok(StripeRefundResponse {
                        id: "re_1".to_string(),
                        status: "succeeded".to_string(),
                    }),
                    Err(body) => Err(CallFault::Refused {
                        status: "500 Internal Server Error".to_string(),
                        body,
                    }),
                };
                match payment_provider::read_stripe_refund(answer) {
                    Ok(response) => Reply::Refund { response },
                    Err(message) => Reply::Error { message },
                }
            }
        }
    }

    fn run<S, T>(
        &mut self,
        first: Step<S, T>,
        next: impl Fn(S, Reply, i64) -> Step<S, T>,
    ) -> Result<T, String> {
        let mut step = first;
        loop {
            match step {
                Step::Done { result } => return result,
                Step::Act { action, next: state } => {
                    let reply = self.perform(action);
                    step = next(state, reply, self.now);
                }
            }
        }
    }

    fn confirm(&mut self, order_id: &str, trade_no: &str, cents: i64) -> ConfirmPaymentOutcome {
        let payment = Payment {
            order_id: order_id.to_string(),
            trade_no: trade_no.to_string(),
            paid_amount_cents: cents,
            provider_name: "stripe".to_string(),
        };
        self.run(Confirm::start(payment), |s, r, now| s.next(r, now)).unwrap()
    }

    fn notify(&mut self, order_id: &str, trade_no: &str, cents: i64) -> Result<bool, String> {
        let notice = VerifiedPaymentNotification {
            provider_name: "stripe".to_string(),
            trade_no: trade_no.to_string(),
            order_id: order_id.to_string(),
            amount_cents: cents,
            success: true,
        };
        self.run(Notification::start(notice, true), |s, r, now| s.next(r, now))
    }

    fn cancel(&mut self, order_id: &str, by: Canceller) -> Result<CancelOrderOutcome, String> {
        self.run(Cancel::start(order_id, by, true), |s, r, now| s.next(r, now))
    }

    fn refund(&mut self, input: ProcessRefundInput) -> Result<ProcessRefundResult, String> {
        self.run(Refund::start(input, true), |s, r, now| s.next(r, now))
    }

    fn request_refund(&mut self, input: RequestRefundInput) -> Result<(), String> {
        self.run(Request::start(input, true), |s, r, now| s.next(r, now))
    }

    fn retry(&mut self, order_id: &str) -> Result<(), String> {
        self.run(Retry::start(order_id, true), |s, r, now| s.next(r, now))
    }
}

fn group_named(id: i64, name: &str) -> Sub2ApiGroup {
    Sub2ApiGroup {
        id,
        name: name.to_string(),
        status: "active".to_string(),
        subscription_type: Some("subscription".to_string()),
        description: None,
        platform: None,
        rate_multiplier: None,
        daily_limit_usd: None,
        weekly_limit_usd: None,
        monthly_limit_usd: None,
        default_validity_days: None,
        sort_order: None,
        supported_model_scopes: None,
        allow_messages_dispatch: false,
        default_mapped_model: None,
    }
}

fn subscription(id: i64, user_id: i64, group_id: i64, expires_at: &str) -> Sub2ApiSubscription {
    let zero = Float64 { bits: 0 };
    Sub2ApiSubscription {
        id,
        user_id,
        group_id,
        starts_at: String::new(),
        status: "active".to_string(),
        expires_at: expires_at.to_string(),
        daily_usage_usd: zero,
        weekly_usage_usd: zero,
        monthly_usage_usd: zero,
        daily_window_start: None,
        weekly_window_start: None,
        monthly_window_start: None,
        assigned_by: None,
        assigned_at: None,
        notes: None,
        created_at: None,
        updated_at: None,
    }
}

fn pending(user_id: i64, amount: i64, pay: i64, bps: i64, status: &str) -> NewPendingOrder {
    NewPendingOrder {
        user_id,
        amount_cents: amount,
        pay_amount_cents: Some(pay),
        fee_rate_bps: Some(bps),
        status: status.to_string(),
        payment_type: "stripe".to_string(),
        order_type: "balance".to_string(),
        plan_id: None,
        subscription_group_id: None,
        subscription_days: None,
        provider_instance_id: None,
        expires_at: 1000,
    }
}

fn redeem(request: &PlatformRequest) -> (&str, &str, i64, i64, Option<i64>, Option<i64>) {
    match &request.body {
        Body::Redeem { code, redeem_type, value_cents, user_id, group_id, validity_days, .. } => {
            (code, redeem_type, *value_cents, *user_id, *group_id, *validity_days)
        }
        _ => panic!("no redemption"),
    }
}

fn balance(request: &PlatformRequest) -> (&str, i64) {
    match &request.body {
        Body::Balance { operation, balance_cents, .. } => (operation, *balance_cents),
        _ => panic!("no change of a balance"),
    }
}

fn rules() -> OrderRules {
    OrderRules {
        balance_payment_disabled: None,
        min_amount_cents: None,
        max_amount_cents: None,
        max_pending_orders: None,
        order_timeout_minutes: None,
        default_min_amount_cents: 100,
        default_max_amount_cents: 100_000,
    }
}

fn balance_input(user_id: i64, amount_cents: i64) -> CreatePendingOrderInput {
    CreatePendingOrderInput {
        user_id,
        amount_cents,
        pay_amount_cents: Some(550),
        fee_rate_bps: Some(1000),
        payment_type: "alipay".to_string(),
        order_type: "balance".to_string(),
        plan_id: None,
        subscription_group_id: None,
        subscription_days: None,
        provider_instance_id: None,
    }
}

#[test]
fn create_order_writes_audit_log() {
    let mut world = World::new();
    let order = create::plan_new_order(balance_input(1, 500), &rules(), 0, 1000).unwrap();
    assert_eq!(order.expires_at, 1000 + 5 * 60);
    let record = world.insert(order);
    world.audits.push(create::created_entry(&record));
    assert_eq!(world.audit_count(&record.id, "ORDER_CREATED"), 1);
    assert_eq!(record.status, "PENDING");
    assert_eq!(record.amount_cents, 500);
}

#[test]
fn orders_may_be_placed_at_any_time_that_leaves_them_time() {
    let order = create::plan_new_order(balance_input(1, 500), &rules(), 0, -1000).unwrap();
    assert_eq!(order.expires_at, -700);
    assert!(create::timeout_fits(&rules(), i64::MIN));
    assert!(create::timeout_fits(&rules(), i64::MAX - 300));
    assert!(!create::timeout_fits(&rules(), i64::MAX - 299));
    let mut endless = rules();
    endless.order_timeout_minutes = Some(i64::MAX.to_string());
    assert!(!create::timeout_fits(&endless, -1));
    let input = balance_input(1, 500);
    assert_eq!(create::check_rules(&input, &endless, 0), None);
    assert_eq!(
        create::plan_new_order(input, &endless, 3, 0).unwrap_err(),
        "too many pending orders"
    );
}

#[test]
fn new_orders_are_refused_for_a_reason() {
    let refused = |input: CreatePendingOrderInput, rules: OrderRules, pending: i64| {
        create::plan_new_order(input, &rules, pending, 1000).unwrap_err()
    };
    assert_eq!(refused(balance_input(0, 500), rules(), 0), "invalid user id");
    assert_eq!(refused(balance_input(1, 0), rules(), 0), "amount must be positive");
    assert_eq!(refused(balance_input(1, 99), rules(), 0), "amount out of allowed range");
    assert_eq!(refused(balance_input(1, 100_001), rules(), 0), "amount out of allowed range");
    assert_eq!(refused(balance_input(1, 500), rules(), 3), "too many pending orders");
    let off = OrderRules { balance_payment_disabled: Some("true".to_string()), ..rules() };
    assert_eq!(refused(balance_input(1, 500), off, 0), "balance payment is disabled");
    let gift = CreatePendingOrderInput { order_type: "gift".to_string(), ..balance_input(1, 500) };
    assert_eq!(refused(gift, rules(), 0), "unsupported order type gift");
    let subscription = || CreatePendingOrderInput {
        order_type: "subscription".to_string(),
        ..balance_input(1, 500)
    };
    assert_eq!(refused(subscription(), rules(), 0), "subscription plan is required");
    let planned = CreatePendingOrderInput { plan_id: Some("p".to_string()), ..subscription() };
    assert_eq!(refused(planned, rules(), 0), "subscription group is required");
    let grouped = CreatePendingOrderInput {
        plan_id: Some("p".to_string()),
        subscription_group_id: Some(1),
        ..subscription()
    };
    assert_eq!(refused(grouped, rules(), 0), "subscription validity is required");
}

#[test]
fn expire_pending_orders_marks_and_audits() {
    let mut world = World::new();
    let order = world.insert(NewPendingOrder {
        payment_type: "alipay".to_string(),
        ..pending(2, 500, 550, 1000, "PENDING")
    });
    let due: Vec<OrderRecord> = world
        .orders
        .iter()
        .filter(|order| order.status == "PENDING" && order.expires_at < 2000)
        .map(|order| order.clone())
        .take(10)
        .collect();
    let expired = world.run(Expiry::start(&due), |s, r, _| s.next(r)).unwrap();
    assert_eq!(expired, 1);
    assert_eq!(world.saved(&order.id).status, "EXPIRED");
    assert_eq!(world.audit_count(&order.id, "ORDER_EXPIRED"), 1);
}

#[test]
fn orders_that_are_no_longer_pending_are_not_logged_as_expired() {
    let mut world = World::new();
    let first = world.insert(pending(2, 500, 550, 1000, "PENDING"));
    let second = world.insert(pending(3, 500, 550, 1000, "PENDING"));
    let due: Vec<OrderRecord> = world.orders.iter().map(|order| order.clone()).collect();
    world.cancel(&first.id, Canceller::Admin).unwrap();
    let expired = world.run(Expiry::start(&due), |s, r, _| s.next(r)).unwrap();
    assert_eq!(expired, 1);
    assert_eq!(world.saved(&first.id).status, "CANCELLED");
    assert_eq!(world.audit_count(&first.id, "ORDER_EXPIRED"), 0);
    assert_eq!(world.saved(&second.id).status, "EXPIRED");
    assert_eq!(world.run(Expiry::start(&Vec::new()), |s, r, _| s.next(r)), Ok(0));
}

#[test]
fn confirm_payment_marks_paid_and_audits() {
    let mut world = World::new();
    let order = world.insert(pending(3, 500, 550, 1000, "PENDING"));
    let outcome = world.confirm(&order.id, "pi_123", 550);
    assert_eq!(outcome, ConfirmPaymentOutcome::Confirmed);
    let saved = world.saved(&order.id);
    assert_eq!(saved.status, "PAID");
    assert_eq!(saved.payment_trade_no.as_deref(), Some("pi_123"));
    assert_eq!(world.audit_count(&order.id, "ORDER_PAID"), 1);
}

#[test]
fn confirmations_that_do_not_fit_change_nothing() {
    let mut world = World::new();
    let order = world.insert(pending(3, 500, 550, 1000, "PENDING"));
    assert_eq!(world.confirm(&order.id, "pi_1", 500), ConfirmPaymentOutcome::AmountMismatch);
    assert_eq!(world.saved(&order.id).status, "PENDING");
    assert_eq!(world.confirm("nobody", "pi_1", 550), ConfirmPaymentOutcome::OrderNotFound);
    let done = world.insert(pending(3, 500, 550, 1000, "COMPLETED"));
    assert_eq!(world.confirm(&done.id, "pi_1", 550), ConfirmPaymentOutcome::StopRetry);
    assert_eq!(world.saved(&done.id).status, "COMPLETED");
}

#[test]
fn verified_notification_completes_balance_fulfillment() {
    let mut world = World::with_admin_key();
    let order = world.insert(pending(8, 500, 550, 1000, "PENDING"));
    assert!(world.notify(&order.id, "pi_success", 550).unwrap());

    let saved = world.saved(&order.id);
    assert_eq!(saved.status, "COMPLETED");
    assert!(saved.paid_at.is_some());
    assert!(saved.completed_at.is_some());
    assert_eq!(saved.failed_reason, None);
    assert_eq!(world.audit_count(&order.id, "RECHARGE_SUCCESS"), 1);

    assert_eq!(world.platform_calls.len(), 1);
    let call = &world.platform_calls[0];
    assert_eq!(call.api_key.as_deref(), Some("test-admin-key"));
    assert_eq!(
        call.idempotency_key.as_deref(),
        Some(format!("sub2apipay:recharge:{}", order.recharge_code).as_str())
    );
    let (_, redeem_type, cents, user_id, _, _) = redeem(call);
    assert_eq!(redeem_type, "balance");
    assert_eq!(user_id, 8);
    assert_eq!(cents, 500);
}

#[test]
fn failed_fulfillment_retries_on_next_notification() {
    let mut world = World::with_admin_key();
    world
        .redeem_replies
        .push_back(Err((500, r#"{"error":"temporary upstream failure"}"#.to_string())));
    world.redeem_replies.push_back(Ok(()));
    let order = world.insert(pending(9, 500, 550, 1000, "PENDING"));

    assert!(!world.notify(&order.id, "pi_retry", 550).unwrap());
    let failed = world.saved(&order.id);
    assert_eq!(failed.status, "FAILED");
    assert_eq!(
        failed.failed_reason.as_deref(),
        Some(r#"Recharge failed (500): {"error":"temporary upstream failure"}"#)
    );
    assert_eq!(world.audit_count(&order.id, "RECHARGE_FAILED"), 1);

    assert!(world.notify(&order.id, "pi_retry", 550).unwrap());
    let completed = world.saved(&order.id);
    assert_eq!(completed.status, "COMPLETED");
    assert!(completed.completed_at.is_some());
    assert_eq!(world.audit_count(&order.id, "RECHARGE_SUCCESS"), 1);
    assert_eq!(world.platform_calls.len(), 2);
    assert_eq!(
        world.platform_calls[0].idempotency_key,
        world.platform_calls[1].idempotency_key
    );
}

#[test]
fn completed_orders_are_not_credited_again() {
    let mut world = World::with_admin_key();
    let order = world.insert(pending(8, 500, 550, 1000, "PENDING"));
    assert!(world.notify(&order.id, "pi_success", 550).unwrap());
    assert!(world.notify(&order.id, "pi_success", 550).unwrap());
    assert_eq!(world.platform_calls.len(), 1);
    assert_eq!(world.audit_count(&order.id, "RECHARGE_SUCCESS"), 1);
}

#[test]
fn crediting_without_a_key_fails_the_order() {
    let mut world = World::new();
    let order = world.insert(pending(8, 500, 550, 1000, "PENDING"));
    assert!(!world.notify(&order.id, "pi_success", 550).unwrap());
    assert_eq!(world.saved(&order.id).status, "FAILED");
    assert!(world.platform_calls.is_empty());
}

#[test]
fn admin_cancel_order_marks_pending_order_as_cancelled() {
    let mut world = World::new();
    let order = world.insert(pending(17, 500, 550, 1000, "PENDING"));
    let outcome = world.cancel(&order.id, Canceller::Admin).unwrap();
    assert_eq!(outcome, CancelOrderOutcome::Cancelled);
    assert_eq!(world.saved(&order.id).status, "CANCELLED");
    assert_eq!(world.audit_count(&order.id, "ORDER_CANCELLED"), 1);
}

#[test]
fn cancel_order_rejects_other_users() {
    let mut world = World::new();
    let order = world.insert(pending(19, 500, 550, 1000, "PENDING"));
    let error = world.cancel(&order.id, Canceller::User { user_id: 20 }).unwrap_err();
    assert_eq!(error, "forbidden");
    assert_eq!(world.saved(&order.id).status, "PENDING");
    assert_eq!(
        world.cancel("nobody", Canceller::Admin).unwrap_err(),
        "order not found"
    );
    let done = world.insert(pending(19, 500, 550, 1000, "COMPLETED"));
    assert_eq!(
        world.cancel(&done.id, Canceller::User { user_id: 19 }).unwrap_err(),
        "order cannot be cancelled"
    );
}

#[test]
fn retry_recharge_replays_failed_paid_order() {
    let mut world = World::with_admin_key();
    let order = world.insert(pending(18, 600, 660, 1000, "PENDING"));
    let record = world.order(&order.id).unwrap();
    assert!(record.mark_paid_if_pending_or_recent_expired(
        &MarkPaidInput {
            order_id: order.id.clone(),
            trade_no: "pi_retry_manual".to_string(),
            paid_amount_cents: 660,
            paid_at: 2000,
            grace_updated_at_gte: 0,
        },
        2000,
    ));
    assert!(record.mark_recharging_if_paid_or_failed(2500));
    assert!(record.mark_failed_if_recharging("temporary upstream failure", 3000, 3000));

    world.retry(&order.id).unwrap();

    assert_eq!(world.saved(&order.id).status, "COMPLETED");
    assert_eq!(world.audit_count(&order.id, "RECHARGE_RETRY"), 1);
    assert_eq!(world.audit_count(&order.id, "RECHARGE_SUCCESS"), 1);
    assert_eq!(world.platform_calls.len(), 1);
    assert_eq!(redeem(&world.platform_calls[0]).0, order.recharge_code);
}

#[test]
fn retries_are_refused_for_a_reason() {
    let mut world = World::with_admin_key();
    assert_eq!(world.retry("nobody").unwrap_err(), "order not found");
    let unpaid = world.insert(pending(18, 600, 660, 1000, "PENDING"));
    assert_eq!(world.retry(&unpaid.id).unwrap_err(), "order is not paid, retry denied");
    let with_status = |world: &mut World, status: &str| {
        let order = world.insert(pending(18, 600, 660, 1000, status));
        world.order(&order.id).unwrap().paid_at = Some(1500);
        world.retry(&order.id).unwrap_err()
    };
    assert_eq!(with_status(&mut world, "REFUNDED"), "refund-related order cannot retry");
    assert_eq!(with_status(&mut world, "RECHARGING"), "order is recharging, retry later");
    assert_eq!(with_status(&mut world, "COMPLETED"), "order already completed");
    assert_eq!(with_status(&mut world, "EXPIRED"), "only paid and failed orders can retry");
}

fn subscription_order(
    user_id: i64,
    amount: i64,
    pay: i64,
    bps: i64,
    plan: &str,
    group_id: i64,
    status: &str,
) -> NewPendingOrder {
    NewPendingOrder {
        order_type: "subscription".to_string(),
        plan_id: Some(plan.to_string()),
        subscription_group_id: Some(group_id),
        subscription_days: Some(30),
        ..pending(user_id, amount, pay, bps, status)
    }
}

#[test]
fn verified_notification_completes_subscription_fulfillment() {
    let mut world = World::with_admin_key();
    world.groups.push((5, "Pro".to_string()));
    world.plans.push((
        "plan_sub".to_string(),
        5,
        1999,
        30,
        "day".to_string(),
        Some("Sub2API Pro".to_string()),
    ));
    let order = world.insert(subscription_order(10, 1999, 2099, 500, "plan_sub", 5, "PENDING"));
    assert!(world.notify(&order.id, "pi_sub_success", 2099).unwrap());

    let saved = world.saved(&order.id);
    assert_eq!(saved.status, "COMPLETED");
    assert!(saved.completed_at.is_some());
    assert_eq!(world.audit_count(&order.id, "SUBSCRIPTION_SUCCESS"), 1);

    assert_eq!(world.platform_calls.len(), 1);
    let (_, redeem_type, cents, _, group_id, days) = redeem(&world.platform_calls[0]);
    assert_eq!(redeem_type, "subscription");
    assert_eq!(group_id, Some(5));
    assert_eq!(days, Some(30));
    assert_eq!(cents, 1999);
}

#[test]
fn subscription_renewal_recomputes_month_validity_from_active_expiry() {
    let mut world = World::with_admin_key();
    world.groups.push((9, "Max".to_string()));
    world.subscriptions.push((101, 11, 9, "2026-01-31T00:00:00Z".to_string()));
    world.plans.push(("plan_month".to_string(), 9, 2999, 1, "month".to_string(), None));
    let order = world.insert(subscription_order(11, 2999, 3099, 333, "plan_month", 9, "PENDING"));
    assert!(world.notify(&order.id, "pi_sub_renew", 3099).unwrap());

    let detail = world
        .audits
        .iter()
        .rev()
        .find(|entry| entry.order_id == order.id && entry.action == "SUBSCRIPTION_SUCCESS")
        .unwrap()
        .detail
        .clone()
        .unwrap();
    let detail: serde_json::Value = serde_json::from_str(&detail).unwrap();
    assert_eq!(detail["method"], "renew");
    assert_eq!(detail["renewedSubscriptionId"], 101);
    assert_eq!(detail["grantedDays"], 28);

    assert_eq!(world.platform_calls.len(), 1);
    assert_eq!(redeem(&world.platform_calls[0]).5, Some(28));
}

#[test]
fn request_refund_marks_balance_order_as_requested() {
    let mut world = World::with_admin_key();
    world.users.push((21, 1000));
    let order = world.insert(pending(21, 500, 550, 1000, "COMPLETED"));
    world
        .request_refund(RequestRefundInput {
            order_id: order.id.clone(),
            user_id: 21,
            amount_cents: 300,
            reason: Some("user wants refund".to_string()),
        })
        .unwrap();

    let saved = world.saved(&order.id);
    assert_eq!(saved.status, "REFUND_REQUESTED");
    assert_eq!(saved.refund_amount_cents, Some(300));
    assert_eq!(saved.refund_requested_by, Some(21));
    assert_eq!(saved.refund_request_reason.as_deref(), Some("user wants refund"));
    assert_eq!(world.audit_count(&order.id, "REFUND_REQUESTED"), 1);
}

#[test]
fn refund_requests_are_refused_for_a_reason() {
    let mut world = World::with_admin_key();
    world.users.push((21, 200));
    let order = world.insert(pending(21, 500, 550, 1000, "COMPLETED"));
    let open = world.insert(pending(21, 500, 550, 1000, "PENDING"));
    let plan = world.insert(subscription_order(21, 500, 550, 1000, "p", 1, "COMPLETED"));
    let ask = |world: &mut World, id: &str, user_id: i64, amount_cents: i64| {
        world
            .request_refund(RequestRefundInput {
                order_id: id.to_string(),
                user_id,
                amount_cents,
                reason: None,
            })
            .unwrap_err()
    };
    assert_eq!(ask(&mut world, "nobody", 21, 100), "order not found");
    assert_eq!(ask(&mut world, &order.id, 22, 100), "forbidden");
    assert_eq!(
        ask(&mut world, &plan.id, 21, 100),
        "only balance orders support refund request"
    );
    assert_eq!(
        ask(&mut world, &open.id, 21, 100),
        "only completed orders can request refund"
    );
    assert_eq!(ask(&mut world, &order.id, 21, 0), "refund amount must be positive");
    assert_eq!(ask(&mut world, &order.id, 21, 501), "refund amount exceeds recharge amount");
    assert_eq!(ask(&mut world, &order.id, 21, 300), "refund amount exceeds current balance");
    assert_eq!(world.saved(&order.id).status, "COMPLETED");
}

#[test]
fn process_refund_balance_partial_success_calls_gateway_and_balance_deduction() {
    let mut world = World::with_admin_key();
    world.users.push((31, 2000));
    let instance_id = world.insert_stripe_instance();
    let order = world.insert(NewPendingOrder {
        provider_instance_id: Some(instance_id),
        ..pending(31, 1000, 1099, 990, "COMPLETED")
    });
    world
        .order(&order.id)
        .unwrap()
        .set_payment_details("pi_balance_refund", &None, &None, 1500);

    let result = world
        .refund(ProcessRefundInput {
            order_id: order.id.clone(),
            amount_cents: Some(500),
            reason: Some("manual partial".to_string()),
            force: false,
            deduct_balance: true,
        })
        .unwrap();
    assert!(result.success);
    assert_eq!(result.balance_deducted_cents, 500);
    assert_eq!(result.subscription_days_deducted, 0);

    let saved = world.saved(&order.id);
    assert_eq!(saved.status, "PARTIALLY_REFUNDED");
    assert_eq!(saved.refund_amount_cents, Some(500));
    assert_eq!(saved.refund_reason.as_deref(), Some("manual partial"));

    let balance_calls: Vec<&PlatformRequest> =
        world.platform_calls.iter().filter(|call| call.call.is_post()).collect();
    assert_eq!(balance_calls.len(), 1);
    assert!(balance_calls[0].url.ends_with("/api/v1/admin/users/31/balance"));
    assert_eq!(balance(balance_calls[0]), ("subtract", 500));

    assert_eq!(world.gateway_calls.len(), 1);
    let form = &world.gateway_calls[0];
    assert_eq!(form.url, "http://stripe.test/v1/refunds");
    assert_eq!(form.bearer.as_deref(), Some("sk_test_refund"));
    let field = |name: &str| form.params.iter().find(|p| p.0 == name).map(|p| p.1.as_str());
    assert_eq!(field("payment_intent"), Some("pi_balance_refund"));
    assert_eq!(field("amount"), Some("500"));
    assert_eq!(world.audit_count(&order.id, "PARTIAL_REFUND_SUCCESS"), 1);
}

#[test]
fn process_refund_subscription_success_deducts_subscription_days() {
    let mut world = World::with_admin_key();
    world.now = 1_775_404_800;
    world.subscriptions.push((401, 41, 9, "2026-12-31T00:00:00Z".to_string()));
    let instance_id = world.insert_stripe_instance();
    let order = world.insert(NewPendingOrder {
        provider_instance_id: Some(instance_id),
        ..subscription_order(41, 3000, 3099, 330, "plan_sub", 9, "COMPLETED")
    });
    world
        .order(&order.id)
        .unwrap()
        .set_payment_details("pi_subscription_refund", &None, &None, 1500);

    let result = world
        .refund(ProcessRefundInput {
            order_id: order.id.clone(),
            amount_cents: None,
            reason: None,
            force: false,
            deduct_balance: true,
        })
        .unwrap();
    assert!(result.success);
    assert_eq!(result.balance_deducted_cents, 0);
    assert_eq!(result.subscription_days_deducted, 30);
    assert_eq!(world.saved(&order.id).status, "REFUNDED");

    assert_eq!(world.platform_calls.len(), 1);
    let call = &world.platform_calls[0];
    assert!(call.url.ends_with("/api/v1/admin/subscriptions/401/extend"));
    match &call.body {
        Body::Extend { days } => assert_eq!(*days, -30),
        _ => panic!("no extension"),
    }
    assert_eq!(world.gateway_calls.len(), 1);
    let amount = world.gateway_calls[0].params.iter().find(|p| p.0 == "amount").unwrap();
    assert_eq!(amount.1, "3099");
    assert_eq!(world.audit_count(&order.id, "REFUND_SUCCESS"), 1);
}

#[test]
fn process_refund_gateway_failure_rolls_back_balance_and_restores_status() {
    let mut world = World::with_admin_key();
    world.users.push((51, 800));
    world.gateway_replies.push_back(Err("gateway down".to_string()));
    let instance_id = world.insert_stripe_instance();
    let order = world.insert(NewPendingOrder {
        provider_instance_id: Some(instance_id),
        ..pending(51, 400, 450, 1250, "COMPLETED")
    });
    world
        .order(&order.id)
        .unwrap()
        .set_payment_details("pi_gateway_fail", &None, &None, 1500);

    let result = world
        .refund(ProcessRefundInput {
            order_id: order.id.clone(),
            amount_cents: None,
            reason: None,
            force: false,
            deduct_balance: true,
        })
        .unwrap();
    assert!(!result.success);
    assert_eq!(
        result.warning.as_deref(),
        Some("gateway refund failed: Stripe refund failed (500 Internal Server Error): gateway down, deduction rolled back")
    );
    assert_eq!(world.saved(&order.id).status, "COMPLETED");

    let balance_calls: Vec<(&str, i64)> = world
        .platform_calls
        .iter()
        .filter(|call| call.call.is_post())
        .map(balance)
        .collect();
    assert_eq!(balance_calls, vec![("subtract", 400), ("add", 400)]);
    assert_eq!(world.audit_count(&order.id, "REFUND_GATEWAY_FAILED"), 1);
    assert_eq!(world.audit_count(&order.id, "REFUND_FAILED"), 0);
}

#[test]
fn process_refund_rollback_failure_marks_order_refund_failed() {
    let mut world = World::with_admin_key();
    world.users.push((61, 800));
    world.balance_replies.push_back(Ok(()));
    world
        .balance_replies
        .push_back(Err((500, r#"{"error":"rollback failed"}"#.to_string())));
    world.gateway_replies.push_back(Err("gateway still down".to_string()));
    let instance_id = world.insert_stripe_instance();
    let order = world.insert(NewPendingOrder {
        provider_instance_id: Some(instance_id),
        ..pending(61, 400, 450, 1250, "COMPLETED")
    });
    world
        .order(&order.id)
        .unwrap()
        .set_payment_details("pi_gateway_fail_hard", &None, &None, 1500);

    let error = world
        .refund(ProcessRefundInput {
            order_id: order.id.clone(),
            amount_cents: None,
            reason: None,
            force: false,
            deduct_balance: true,
        })
        .unwrap_err();
    assert!(error.contains("Gateway refund failed"));

    let saved = world.saved(&order.id);
    assert_eq!(saved.status, "REFUND_FAILED");
    assert!(saved.failed_reason.is_some());
    assert_eq!(world.audit_count(&order.id, "REFUND_ROLLBACK_FAILED"), 1);
    assert_eq!(world.audit_count(&order.id, "REFUND_FAILED"), 1);
}

#[test]
fn refunds_are_refused_for_a_reason() {
    let mut world = World::with_admin_key();
    let open = world.insert(pending(31, 1000, 1099, 990, "PENDING"));
    let done = world.insert(pending(31, 1000, 1099, 990, "COMPLETED"));
    let ask = |world: &mut World, id: &str, amount_cents: Option<i64>| {
        world
            .refund(ProcessRefundInput {
                order_id: id.to_string(),
                amount_cents,
                reason: None,
                force: false,
                deduct_balance: true,
            })
            .unwrap_err()
    };
    assert_eq!(ask(&mut world, "nobody", None), "order not found");
    assert_eq!(ask(&mut world, &open.id, None), "order is not refundable in current status");
    assert_eq!(ask(&mut world, &done.id, Some(0)), "refund amount must be positive");
    assert_eq!(
        ask(&mut world, &done.id, Some(1001)),
        "refund amount exceeds recharge amount"
    );
}

#[test]
fn refunds_of_users_that_cannot_be_asked_need_force() {
    let mut world = World::with_admin_key();
    let order = world.insert(pending(77, 1000, 1099, 990, "COMPLETED"));
    let input = |force: bool| ProcessRefundInput {
        order_id: order.id.clone(),
        amount_cents: None,
        reason: None,
        force,
        deduct_balance: true,
    };
    let result = world.refund(input(false)).unwrap();
    assert!(!result.success);
    assert!(result.require_force);
    assert_eq!(result.warning.as_deref(), Some("cannot fetch user balance, use force"));
    assert_eq!(world.saved(&order.id).status, "COMPLETED");

    let forced = world.refund(input(true)).unwrap();
    assert!(forced.success);
    assert_eq!(forced.balance_deducted_cents, 0);
    assert_eq!(world.saved(&order.id).status, "REFUNDED");
}

#[test]
fn fulfilment_of_orders_that_are_done_asks_nothing() {
    let mut world = World::with_admin_key();
    let order = world.insert(pending(8, 500, 550, 1000, "COMPLETED"));
    let done = world
        .run(Fulfil::start(&order.id, true), |s, r, now| s.next(r, now))
        .unwrap();
    assert!(done);
    assert!(world.platform_calls.is_empty());
}

fn handled(outcome: Result<bool, String>) -> Handled {
    match outcome {
        Ok(done) => Handled::Done { done },
        Err(_) => Handled::Failed,
    }
}

#[test]
fn webhook_returns_retryable_500_when_fulfillment_fails() {
    let mut world = World::new();
    let order = world.insert(pending(1, 1099, 1099, 0, "PENDING"));
    let notice = VerifiedPaymentNotification {
        provider_name: "stripe".to_string(),
        trade_no: "pi_test_succeeded".to_string(),
        order_id: order.id.clone(),
        amount_cents: 1099,
        success: true,
    };
    let outcome = world.run(Notification::start(notice, false), |s, r, now| s.next(r, now));
    let answer = webhooks::answer_stripe(&handled(outcome));
    assert_eq!(answer.status, 500);
    assert_eq!(answer.error, Some("Processing failed, will retry"));
    assert_eq!(world.saved(&order.id).status, "FAILED");
}

fn easypay_query(order_id: &str, trade_no: &str) -> String {
    let params = [
        ("pid", "easy_route_pid"),
        ("trade_no", trade_no),
        ("out_trade_no", order_id),
        ("money", "12.34"),
        ("trade_status", "TRADE_SUCCESS"),
    ];
    let signed: Vec<(String, String)> =
        params.iter().map(|(k, v)| (k.to_string(), v.to_string())).collect();
    let sign = signing::generate_easy_pay_sign(&signed, "easy_route_key");
    let mut all = params.to_vec();
    all.push(("inst", "inst_easy"));
    all.push(("sign", &sign));
    all.push(("sign_type", "MD5"));
    serde_urlencoded::to_string(all).unwrap()
}

fn easypay_notice(query: &str) -> VerifiedPaymentNotification {
    let read = payment_provider::read_easypay_query(query).unwrap();
    assert_eq!(read.instance.as_deref(), Some("inst_easy"));
    let config = TextMap::from_entries(vec![
        ("pid".to_string(), "easy_route_pid".to_string()),
        ("pkey".to_string(), "easy_route_key".to_string()),
    ]);
    payment_provider::verify_easypay_notification(&config, &TextMap::new(), &read.params, Some(1234))
        .unwrap()
}

#[test]
fn notify_returns_success_for_already_completed_order() {
    let mut world = World::new();
    let mut order = pending(1, 1234, 1234, 0, "COMPLETED");
    order.payment_type = "alipay".to_string();
    let order = world.insert(order);
    let notice = easypay_notice(&easypay_query(&order.id, "easy_route_trade_ok"));
    let outcome = world.run(Notification::start(notice, false), |s, r, now| s.next(r, now));
    assert_eq!(webhooks::answer_easypay(&handled(outcome)), "success");
}

#[test]
fn notify_returns_fail_when_fulfillment_needs_retry() {
    let mut world = World::new();
    let mut order = pending(1, 1234, 1234, 0, "PENDING");
    order.payment_type = "alipay".to_string();
    let order = world.insert(order);
    let notice = easypay_notice(&easypay_query(&order.id, "easy_route_trade_retry"));
    let outcome = world.run(Notification::start(notice, false), |s, r, now| s.next(r, now));
    assert_eq!(webhooks::answer_easypay(&handled(outcome)), "fail");
    assert_eq!(world.saved(&order.id).status, "FAILED");
}

fn json(value: &serde_json::Value) -> JsonValue {
    let data = match value {
        serde_json::Value::Null => JsonData::Null,
        serde_json::Value::Bool(flag) => JsonData::Flag { flag: *flag },
        serde_json::Value::Number(n) => {
            let real = n.as_f64().unwrap();
            let cents = (real * 100.0).round() as i64;
            let positive = if real > 0.0 { Some(cents) } else { None };
            JsonData::Number {
                number: NumberFacts {
                    integer: n.as_i64(),
                    cents: if real >= 0.0 { Some(cents) } else { None },
                    positive_cents: positive,
                    price_cents: if real <= 99_999_999.99 { positive } else { None },
                    positive_bps: if real > 0.0 {
                        Some((real * 10_000.0).round() as i64)
                    } else {
                        None
                    },
                },
            }
        }
        serde_json::Value::String(text) => JsonData::Text { text: text.clone() },
        serde_json::Value::Array(_) => JsonData::List,
        serde_json::Value::Object(members) => JsonData::Object {
            members: TextMap::from_entries(
                members.iter().map(|(k, v)| (k.clone(), json(v))).collect(),
            ),
        },
    };
    JsonValue { shown: value.to_string(), data }
}

fn body(text: &str) -> JsonValue {
    json(&serde_json::from_str(text).unwrap())
}

#[test]
fn route_refunds_completed_order_without_gateway() {
    let mut world = World::with_admin_key();
    let order = world.insert(pending(7, 1200, 1299, 825, "COMPLETED"));
    let input = admin_refund::read_refund(
        &body(&format!(r#"{{"order_id":"{}","deduct_balance":false}}"#, order.id)),
        "zh",
    )
    .unwrap();
    let response = admin_refund::to_response("zh", world.refund(input).unwrap());
    assert!(response.success);
    assert_eq!(response.balance_deducted_cents, Some(0));
    assert_eq!(response.subscription_days_deducted, Some(0));
    let saved = world.saved(&order.id);
    assert_eq!(saved.status, "REFUNDED");
    assert_eq!(saved.refund_amount_cents, Some(1200));
}

#[test]
fn route_rejects_empty_order_id() {
    let error = admin_refund::read_refund(&body(r#"{"order_id":""}"#), "zh").unwrap_err();
    assert_eq!(error.kind, ErrorKind::BadRequest);
    assert_eq!(error.kind.status_code(), 400);
}

#[test]
fn refund_request_marks_order_as_requested() {
    let mut world = World::with_admin_key();
    world.users.push((21, 9900));
    let mut order = pending(21, 800, 800, 0, "COMPLETED");
    order.payment_type = "easypay".to_string();
    let order = world.insert(order);
    let (ask, entry) = orders::begin_refund_request(
        &body(r#"{"amount":6.5,"reason":"user wants refund"}"#),
        Some("user-token"),
        "zh",
        true,
    )
    .unwrap();
    match entry {
        EntryStep::Act { action: EntryAction::GetCurrentUser { token }, .. } => {
            assert_eq!(token, "user-token")
        }
        _ => panic!("the platform is not asked"),
    }
    world
        .request_refund(RequestRefundInput {
            order_id: order.id.clone(),
            user_id: 21,
            amount_cents: ask.amount_cents,
            reason: ask.reason,
        })
        .unwrap();
    let saved = world.saved(&order.id);
    assert_eq!(saved.status, "REFUND_REQUESTED");
    assert_eq!(saved.refund_amount_cents, Some(650));
    assert_eq!(saved.refund_request_reason.as_deref(), Some("user wants refund"));
}

#[test]
fn refund_request_requires_token() {
    let ask = body(r#"{"amount":1.0}"#);
    let error = orders::begin_refund_request(&ask, None, "zh", true).map(|_| ()).unwrap_err();
    assert_eq!(error.kind, ErrorKind::Unauthorized);
    let error = gate::require_user_token(Service::RefundRequest, None, "zh").unwrap_err();
    assert_eq!(error.kind, ErrorKind::Unauthorized);
}

#[test]
fn cancel_order_route_cancels_pending_user_order() {
    let mut world = World::new();
    let mut order = pending(21, 800, 800, 0, "PENDING");
    order.payment_type = "easypay".to_string();
    let order = world.insert(order);
    let outcome = world.cancel(&order.id, Canceller::User { user_id: 21 }).unwrap();
    assert!(orders::cancel_response(outcome, "paid").success);
    assert_eq!(world.saved(&order.id).status, "CANCELLED");
}
