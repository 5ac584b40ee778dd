//! What users ask for.
use opay::channel::ChannelRecord;
use opay::clock::Moment;
use opay::config::{Amounts, AppConfig};
use opay::error::ErrorKind;
use opay::http::common;
use opay::http::create_order::{
    self, CreateAction, CreateOrder, CreateOrderReceipt, CreateOrderRequest, CreateReply, CreateStep,
};
use opay::http::browse::{
    self, Browse, BrowseAction, BrowseReply, BrowseStep, Shelf, Shown,
};
use opay::http::gate::{self, Admitted, EntryAction, EntryReply, EntryStep, Service};
use opay::http::listings::{self, FoundChannel, FoundPlan};
use opay::http::orders::{self, MyOrdersFacts, StatusCaller};
use opay::http::user::{
    self, OfferedMethod, PaymentOffer, ShopSettings, UserAction, UserInfo, UserQuery, UserReply,
    UserResponse, UserStep,
};
use opay::json::{JsonData, JsonValue};
use opay::maps::TextMap;
use opay::order::create;
use opay::order::repository::{NewPendingOrder, OrderRecord, StatusCount};
use opay::order::status::{self, OrderStatus, RechargeStatus};
use opay::payment::{self, MethodFacts, PaymentSelection};
use opay::payment_provider::CreatePaymentResponse;
use opay::provider_instances::ProviderInstanceRecord;
use opay::signing;
use opay::sub2api::{
    self, Call, Float64, Sub2ApiClient, Sub2ApiGroup, Sub2ApiSubscription, Sub2ApiUser, Verdict,
};
use opay::subscription_plan::SubscriptionPlanRecord;

fn group(id: i64, name: &str, status: &str) -> Sub2ApiGroup {
    Sub2ApiGroup {
        id,
        name: name.to_string(),
        status: status.to_string(),
        subscription_type: Some("subscription".to_string()),
        description: None,
        platform: Some("openai".to_string()),
        rate_multiplier: None,
        daily_limit_usd: None,
        weekly_limit_usd: None,
        monthly_limit_usd: None,
        default_validity_days: None,
        sort_order: None,
        supported_model_scopes: None,
        allow_messages_dispatch: true,
        default_mapped_model: None,
    }
}

fn channel(id: &str, group_id: i64) -> ChannelRecord {
    ChannelRecord {
        id: id.to_string(),
        group_id: Some(group_id),
        name: "OpenAI".to_string(),
        platform: "openai".to_string(),
        rate_multiplier_bps: 1500,
        description: Some("desc".to_string()),
        models: Some("[\"gpt-4.1\"]".to_string()),
        features: Some("[\"fast\"]".to_string()),
        sort_order: 1,
        enabled: true,
        created_at: 1,
        updated_at: 1,
    }
}

#[test]
fn filters_out_inactive_group_channels() {
    let found = vec![
        FoundChannel { channel: channel("ch_ok", 9), group: Some(group(9, "Group 9", "active")) },
        FoundChannel {
            channel: channel("ch_skip", 10),
            group: Some(group(10, "Group 10", "disabled")),
        },
        FoundChannel { channel: channel("ch_gone", 11), group: None },
    ];
    let shown = listings::list_channels(&found);
    assert_eq!(shown.len(), 1);
    assert_eq!(shown[0].id, "ch_ok");
    assert_eq!(shown[0].rate_multiplier_bps, 1500);
    assert_eq!(shown[0].models, vec!["gpt-4.1"]);
}

fn plan(id: &str, group_id: i64) -> SubscriptionPlanRecord {
    SubscriptionPlanRecord {
        id: id.to_string(),
        group_id: Some(group_id),
        name: "OpenAI Pro 月包".to_string(),
        description: Some("desc".to_string()),
        price_cents: 1999,
        original_price_cents: Some(2999),
        validity_days: 30,
        validity_unit: "day".to_string(),
        features: Some("[\"GPT\",\"Fast\"]".to_string()),
        product_name: Some("OpenAI Pro".to_string()),
        for_sale: true,
        sort_order: 1,
        created_at: 1,
        updated_at: 1,
    }
}

#[test]
fn returns_only_active_plans_with_group_details() {
    let found = vec![
        FoundPlan { plan: plan("plan_ok", 11), group: Some(group(11, "OpenAI Pro", "active")) },
        FoundPlan { plan: plan("plan_skip", 99), group: Some(group(99, "Gone", "inactive")) },
    ];
    let shown = listings::list_subscription_plans(&found);
    assert_eq!(shown.len(), 1);
    assert_eq!(shown[0].id, "plan_ok");
    assert_eq!(shown[0].features, vec!["GPT", "Fast"]);
    assert_eq!(shown[0].group_name.as_deref(), Some("OpenAI Pro"));
    assert_eq!(shown[0].platform.as_deref(), Some("openai"));
    assert!(shown[0].allow_messages_dispatch);
    assert_eq!(shown[0].price_cents, 1999);
}

fn subscription(id: i64, group_id: i64) -> Sub2ApiSubscription {
    let zero = Float64 { bits: 0 };
    Sub2ApiSubscription {
        id,
        user_id: 1,
        group_id,
        starts_at: String::new(),
        status: "active".to_string(),
        expires_at: String::new(),
        daily_usage_usd: zero,
        weekly_usage_usd: zero,
        monthly_usage_usd: zero,
        daily_window_start: None,
        weekly_window_start: None,
        monthly_window_start: None,
        assigned_by: None,
        assigned_at: None,
        notes: None,
        created_at: None,
        updated_at: None,
    }
}

#[test]
fn my_subscriptions_enriches_group_name_and_platform() {
    let groups = vec![group(8, "Other", "active"), group(9, "OpenAI Group", "active")];
    let shown =
        listings::list_my_subscriptions(vec![subscription(101, 9), subscription(102, 7)], &groups);
    assert_eq!(shown.len(), 2);
    assert_eq!(shown[0].group_name.as_deref(), Some("OpenAI Group"));
    assert_eq!(shown[0].platform.as_deref(), Some("openai"));
    assert_eq!(shown[1].group_name, None);
}

fn order(user_id: i64, amount: i64, pay: i64, status: &str, expires_at: i64) -> OrderRecord {
    create::pending_record(
        NewPendingOrder {
            user_id,
            amount_cents: amount,
            pay_amount_cents: Some(pay),
            fee_rate_bps: Some(1000),
            status: status.to_string(),
            payment_type: "stripe".to_string(),
            order_type: "balance".to_string(),
            plan_id: None,
            subscription_group_id: None,
            subscription_days: None,
            provider_instance_id: None,
            expires_at,
        },
        1000,
    )
}

fn test_user(id: i64) -> Sub2ApiUser {
    Sub2ApiUser {
        id,
        status: "active".to_string(),
        role: None,
        email: Some("user@example.com".to_string()),
        username: Some("test-user".to_string()),
        notes: None,
        balance: Some(Float64 { bits: 100.0f64.to_bits() }),
    }
}

#[test]
fn my_orders_returns_refund_capability_and_summary() {
    let instance = ProviderInstanceRecord {
        id: "inst_1".to_string(),
        provider_key: "stripe".to_string(),
        name: "Stripe #1".to_string(),
        config: String::new(),
        supported_types: "stripe".to_string(),
        enabled: true,
        sort_order: 0,
        limits: None,
        refund_enabled: true,
        created_at: 1,
        updated_at: 1,
    };
    let mut completed = order(1, 800, 880, "COMPLETED", 1000);
    completed.provider_instance_id = Some("inst_1".to_string());
    let mut waiting = order(1, 500, 500, "PENDING", 2000);
    waiting.payment_type = "alipay".to_string();
    waiting.order_type = "subscription".to_string();

    let page = orders::my_orders_page(Some(1), Some(20));
    assert_eq!(orders::page_offset(page), Some(0));
    let response = orders::list_my_orders(
        test_user(1),
        page,
        MyOrdersFacts {
            orders: vec![completed, waiting],
            total: 2,
            counts: vec![
                StatusCount { status: "COMPLETED".to_string(), count: 1 },
                StatusCount { status: "PENDING".to_string(), count: 1 },
            ],
            instances: vec![instance],
        },
    )
    .unwrap();
    assert_eq!(response.summary.total, 2);
    assert_eq!(response.summary.pending, 1);
    assert_eq!(response.summary.completed, 1);
    assert_eq!(response.orders.len(), 2);
    assert!(response.orders.iter().any(|item| item.can_refund_request));
    assert!(!response.orders[1].can_refund_request);
    assert_eq!(response.user.display_name, "test-user");
    assert_eq!(response.total_pages, 1);
}

#[test]
fn order_status_allows_access_token_polling() {
    let saved = order(8, 500, 550, "PENDING", 4_102_444_800);
    let now_ms = 1_700_000_000_000;
    let expires_at_ms = now_ms + 60_000;
    let signature =
        signing::build_order_status_signature("test-admin-token", &saved.id, 8, expires_at_ms);
    let caller = |access_token: Option<String>, token: Option<String>| StatusCaller {
        access_token,
        authorization: None,
        token,
        lang: None,
    };
    let access = Some(format!("{expires_at_ms}.8.{signature}"));
    let authorize = |caller: &StatusCaller, now: i64| {
        orders::authorize_status(caller, Some("test-admin-token"), &saved.id, now)
    };
    assert!(authorize(&caller(access, None), now_ms).is_ok());
    let late = caller(Some(format!("{expires_at_ms}.8.{signature}")), None);
    assert!(authorize(&late, expires_at_ms + 1).is_err());
    assert!(authorize(&caller(None, Some("test-admin-token".to_string())), now_ms).is_ok());
    assert!(authorize(&caller(None, None), now_ms).is_err());

    let response = orders::order_status_response(Some(saved), "zh").unwrap();
    assert_eq!(response.status, "PENDING");
    assert!(!response.payment_success);
    assert_eq!(response.recharge_status, "not_paid");
    assert_eq!(
        orders::order_status_response(None, "en").map(|_| ()).unwrap_err().kind,
        ErrorKind::NotFound
    );
}

fn request(payment_type: &str, order_type: Option<&str>, plan_id: Option<&str>) -> CreateOrderRequest {
    CreateOrderRequest {
        token: "user-token".to_string(),
        amount_cents: Some(1234),
        payment_type: payment_type.to_string(),
        is_mobile: Some(false),
        order_type: order_type.map(|s| s.to_string()),
        plan_id: plan_id.map(|s| s.to_string()),
    }
}

fn offer() -> PaymentOffer {
    let providers: Vec<String> =
        ["easypay", "alipay", "wxpay", "stripe"].iter().map(|s| s.to_string()).collect();
    let types = payment::resolve_offered_types(false, None, &providers, None, &Vec::new());
    let facts: Vec<MethodFacts> = types
        .iter()
        .map(|payment_type| MethodFacts {
            payment_type: payment_type.clone(),
            daily_setting_cents: None,
            single_setting_cents: None,
            used_cents: 0,
        })
        .collect();
    let limits = payment::query_method_limits(&facts, &Vec::new(), &TextMap::new(), false);
    let methods = types
        .iter()
        .zip(limits)
        .map(|(payment_type, limit)| OfferedMethod {
            payment_type: payment_type.clone(),
            limit,
            fee_rate: Float64 { bits: 0.0f64.to_bits() },
        })
        .collect();
    PaymentOffer { enabled_payment_types: types, methods, stripe_publishable_key: None }
}

fn limits() -> CreateReply {
    let offer = offer();
    let limits = offer.methods.into_iter().map(|m| (m.payment_type, m.limit)).collect();
    CreateReply::PaymentConfig {
        enabled_types: offer.enabled_payment_types,
        limits: TextMap::from_entries(limits),
    }
}

const NOW: Moment = Moment { timestamp: 1_700_000_000, offset: 0 };

fn act(step: CreateStep) -> (CreateAction, CreateOrder) {
    match step {
        CreateStep::Act { action, next } => (action, next),
        CreateStep::Done { result } => panic!("{:?}", result.map(|_| ()).map_err(|e| e.message)),
    }
}

fn done(step: CreateStep) -> Result<CreateOrderReceipt, (ErrorKind, String)> {
    match step {
        CreateStep::Act { .. } => panic!("more to do"),
        CreateStep::Done { result } => result.map_err(|e| (e.kind, e.message)),
    }
}

fn identified(request: CreateOrderRequest) -> CreateOrder {
    let (action, state) = act(create_order::begin_order(request, None, true));
    assert!(matches!(action, CreateAction::GetCurrentUser { .. }));
    let (action, state) =
        act(create_order::create_order_step(state, CreateReply::User { user_id: 3 }, NOW));
    assert!(matches!(action, CreateAction::ResolvePaymentConfig));
    state
}

#[test]
fn create_order_rejects_direct_payment_type_in_rust_mvp() {
    let state = identified(request("alipay_direct", None, None));
    let (_, message) = done(create_order::create_order_step(state, limits(), NOW)).unwrap_err();
    assert!(message.contains("不支持的支付方式"));
    assert!(message.contains("alipay_direct"));
}

fn payment() -> CreatePaymentResponse {
    CreatePaymentResponse {
        provider_name: "stripe".to_string(),
        trade_no: "pi_1".to_string(),
        pay_url: None,
        qr_code: None,
        client_secret: Some("cs".to_string()),
    }
}

fn paying() -> (OrderRecord, CreateOrder) {
    let state = identified(request("stripe", None, None));
    let (action, state) = act(create_order::create_order_step(state, limits(), NOW));
    assert!(matches!(action, CreateAction::SelectPayment { amount_cents: 1234, .. }));
    let selection = PaymentSelection {
        fee_rate: Float64 { bits: 2.5f64.to_bits() },
        fee_rate_bps: 250,
        pay_amount_cents: 1265,
        provider_instance_id: Some("inst_1".to_string()),
    };
    let (action, state) =
        act(create_order::create_order_step(state, CreateReply::Selection { selection }, NOW));
    match action {
        CreateAction::PlaceOrder { input } => {
            assert_eq!(input.user_id, 3);
            assert_eq!(input.pay_amount_cents, Some(1265));
            assert_eq!(input.fee_rate_bps, Some(250));
            assert_eq!(input.provider_instance_id.as_deref(), Some("inst_1"));
        }
        _ => panic!("no order"),
    }
    let placed = order(3, 1234, 1265, "PENDING", 2000);
    let (action, state) = act(create_order::create_order_step(
        state,
        CreateReply::Placed { order: placed.clone() },
        NOW,
    ));
    match action {
        CreateAction::CreatePayment { payment_request } => {
            assert_eq!(payment_request.order_id, placed.id);
            assert_eq!(payment_request.amount_cents, 1265);
        }
        _ => panic!("no payment"),
    }
    (placed, state)
}

#[test]
fn orders_are_placed_paid_and_answered() {
    let (placed, state) = paying();
    let (action, state) = act(create_order::create_order_step(
        state,
        CreateReply::Payment { response: payment() },
        NOW,
    ));
    assert!(matches!(action, CreateAction::AttachPayment { .. }));
    let receipt = done(create_order::create_order_step(state, CreateReply::Done, NOW)).unwrap();
    assert_eq!(receipt.order_id, placed.id);
    assert_eq!(receipt.amount_cents, 1234);
    assert_eq!(receipt.pay_amount_cents, 1265);
    assert_eq!(f64::from_bits(receipt.fee_rate.bits), 2.5);
    assert_eq!(receipt.fee_rate_bps, 250);
    assert_eq!(receipt.client_secret.as_deref(), Some("cs"));
}

#[test]
fn orders_that_cannot_be_paid_are_withdrawn() {
    let (placed, state) = paying();
    let (action, state) = act(create_order::create_order_step(
        state,
        CreateReply::Error { message: "down".to_string() },
        NOW,
    ));
    match action {
        CreateAction::DeleteOrder { unpaid_order } => assert_eq!(unpaid_order, placed.id),
        _ => panic!("the order stays"),
    }
    assert!(done(create_order::create_order_step(state, CreateReply::Done, NOW)).is_err());
}

#[test]
fn subscription_orders_cost_what_the_plan_says() {
    let state = identified(request("stripe", Some("subscription"), Some("plan_ok")));
    let (action, state) = act(create_order::create_order_step(state, limits(), NOW));
    assert!(matches!(action, CreateAction::LoadPlan { .. }));
    let (action, state) = act(create_order::create_order_step(
        state,
        CreateReply::Plan { plan: Some(plan("plan_ok", 11)) },
        NOW,
    ));
    assert!(matches!(action, CreateAction::ReadSetting { key: "PLATFORM_ADMIN_API_KEY" }));
    let (action, state) = act(create_order::create_order_step(
        state,
        CreateReply::Setting { value: Some("key".to_string()) },
        NOW,
    ));
    assert!(matches!(action, CreateAction::GetGroup { group_id: 11, .. }));
    let (action, _) = act(create_order::create_order_step(
        state,
        CreateReply::Group { group: Some(group(11, "OpenAI Pro", "active")) },
        NOW,
    ));
    assert!(matches!(action, CreateAction::SelectPayment { amount_cents: 1999, .. }));
}

#[test]
fn plans_that_are_not_on_sale_are_refused() {
    let mut hidden = plan("p", 1);
    hidden.for_sale = false;
    assert_eq!(
        create_order::check_plan("zh", Some(hidden)).map(|_| ()).unwrap_err().kind,
        ErrorKind::NotFound
    );
    let mut unbound = plan("p", 1);
    unbound.group_id = None;
    assert_eq!(
        create_order::check_plan("zh", Some(unbound)).map(|_| ()).unwrap_err().kind,
        ErrorKind::BadRequest
    );
    assert_eq!(create_order::check_plan("zh", Some(plan("p", 1))).unwrap().1, 1);
    let context = create_order::resolve_subscription_order(
        "zh",
        plan("p", 1),
        Some(group(1, "g", "active")),
        NOW,
    )
    .unwrap();
    assert_eq!(context.amount_cents, 1999);
    assert_eq!(context.subscription_days, 30);
    assert!(create_order::resolve_subscription_order("zh", plan("p", 1), None, NOW).is_err());
}

#[test]
fn blank_tokens_are_refused() {
    for service in [Service::MyOrders, Service::CancelOrder, Service::Channels, Service::UserInfo] {
        assert!(gate::require_user_token(service, Some("  "), "zh").is_err());
        assert!(gate::require_user_token(service, None, "zh").is_err());
        assert!(gate::require_user_token(service, Some("t"), "zh").is_ok());
    }
    assert!(user::check_user_id(0, "zh").is_err());
    assert!(user::check_user_id(1, "zh").is_ok());
    assert_eq!(user::check_same_user(1, 2, "zh").unwrap_err().kind, ErrorKind::Forbidden);
    let rules = user::read_shop_rules(Some("true"), Some("7"));
    assert!(rules.balance_disabled);
    assert_eq!(rules.max_pending_orders, 7);
    assert_eq!(user::read_shop_rules(None, None).max_pending_orders, 3);
}

#[test]
fn unknown_users_are_told_apart_from_a_missing_platform() {
    let told = |error: &str| gate::user_unknown_error(Service::MyOrders, "zh", error).kind;
    let invalid = match sub2api::read_status(Call::CurrentUser, 401, "") {
        Verdict::Fault { message } => message,
        _ => panic!("no fault"),
    };
    assert_eq!(told(&invalid), ErrorKind::Unauthorized);
    assert_ne!(told("down"), ErrorKind::Unauthorized);
    assert_eq!(
        gate::platform_missing_error(Service::MyOrders, "zh").kind.status_code(),
        500
    );
}

#[test]
fn platform_requests_carry_their_keys() {
    let client = Sub2ApiClient::new("http://platform.test".to_string());
    let me = client.get_current_user_by_token("tok");
    assert_eq!(me.url, "http://platform.test/api/v1/auth/me");
    assert_eq!(me.bearer.as_deref(), Some("tok"));
    assert_eq!(me.api_key, None);
    let redeem = client.create_and_redeem_balance("code", 500, 3, "n", "key");
    assert_eq!(redeem.idempotency_key.as_deref(), Some("sub2apipay:recharge:code"));
    assert!(redeem.call.is_post());
    assert!(matches!(
        sub2api::read_status(Call::Group { group_id: 1 }, 404, ""),
        Verdict::Absent
    ));
    assert!(matches!(
        sub2api::read_status(Call::AllGroups, 500, "boom"),
        Verdict::Fault { .. }
    ));
}

#[test]
fn pages_hold_everything() {
    assert_eq!(common::total_pages(0, 20), 0);
    assert_eq!(common::total_pages(20, 20), 1);
    assert_eq!(common::total_pages(21, 20), 2);
    assert_eq!(orders::page_offset(orders::my_orders_page(Some(3), Some(20))), Some(40));
    assert_eq!(orders::my_orders_page(None, None).page, 1);
    assert_eq!(common::resolve_locale(Some("EN")), "en");
    assert_eq!(common::resolve_locale(None), "zh");
}

#[test]
fn states_of_orders_are_derived() {
    let mut record = order(1, 100, 100, "PENDING", 1000);
    let derived = |r: &OrderRecord| status::derive_order_state(r).recharge_status;
    assert_eq!(derived(&record), RechargeStatus::NotPaid);
    record.paid_at = Some(1);
    record.status = "PAID".to_string();
    assert_eq!(derived(&record), RechargeStatus::PaidPending);
    record.status = "RECHARGING".to_string();
    assert_eq!(derived(&record), RechargeStatus::Recharging);
    record.status = "FAILED".to_string();
    assert_eq!(derived(&record), RechargeStatus::Failed);
    assert!(status::is_recharge_retryable(&record));
    record.status = "REFUNDED".to_string();
    assert_eq!(derived(&record), RechargeStatus::Closed);
    assert!(status::is_refund_status("REFUNDED"));
    assert_eq!(OrderStatus::RefundRequested.as_str(), "REFUND_REQUESTED");
}

fn turned_away(step: EntryStep) -> (ErrorKind, String) {
    match step {
        EntryStep::Done { result } => result.map(|_| ()).map_err(|e| (e.kind, e.message)).unwrap_err(),
        EntryStep::Act { .. } => panic!("more to do"),
    }
}

fn let_in(step: EntryStep) -> Admitted {
    match step {
        EntryStep::Done { result } => result.unwrap(),
        EntryStep::Act { .. } => panic!("more to do"),
    }
}

#[test]
fn the_token_is_looked_at_before_the_platform() {
    let begin = |token: Option<&str>, platform: bool| {
        gate::begin_entry(Service::MyOrders, token, "en", platform)
    };
    assert_eq!(
        turned_away(begin(Some(" "), false)),
        (ErrorKind::BadRequest, "token is required".to_string())
    );
    assert_eq!(
        turned_away(begin(Some("t"), false)),
        (ErrorKind::PublicInternal, "Failed to load orders".to_string())
    );
    let next = match begin(Some(" t "), true) {
        EntryStep::Act { action: EntryAction::GetCurrentUser { token }, next } => {
            assert_eq!(token, "t");
            next
        }
        _ => panic!("the platform is not asked"),
    };
    let admitted = let_in(gate::entry_step(next, EntryReply::User { user: test_user(7) }));
    assert_eq!(admitted.user.id, 7);
    assert_eq!(admitted.admin_key, None);
}

#[test]
fn what_a_refund_request_says_is_looked_at_before_the_platform() {
    let nothing = JsonValue { shown: "null".to_string(), data: JsonData::Null };
    let begin = |token: Option<&str>, platform: bool| {
        orders::begin_refund_request(&nothing, token, "en", platform).map(|_| ()).unwrap_err()
    };
    assert_eq!(begin(None, false).kind, ErrorKind::Unauthorized);
    assert_eq!(begin(Some("t"), false).message, "Invalid parameters");
}

fn browsing(step: BrowseStep) -> (BrowseAction, Browse) {
    match step {
        BrowseStep::Act { action, next } => (action, next),
        BrowseStep::Done { result } => panic!("{:?}", result.map(|_| ())),
    }
}

fn entered(shelf: Shelf) -> (BrowseAction, Browse) {
    let (action, state) = browsing(browse::begin_browse(shelf, Some("user-token"), None, true));
    assert!(matches!(action, BrowseAction::Enter { action: EntryAction::GetCurrentUser { .. } }));
    let named = BrowseReply::Entry { reply: EntryReply::User { user: test_user(1) } };
    let (action, state) = browsing(browse::browse_step(state, named));
    assert!(matches!(
        action,
        BrowseAction::Enter { action: EntryAction::ReadSetting { key: "SUB2API_ADMIN_API_KEY" } }
    ));
    let value = Some(" test-admin-key ".to_string());
    let found = BrowseReply::Entry { reply: EntryReply::Setting { value } };
    browsing(browse::browse_step(state, found))
}

#[test]
fn channels_are_looked_up_one_after_another() {
    let (action, state) = entered(Shelf::Channels);
    assert!(matches!(action, BrowseAction::ListChannels));
    let mut free = channel("ch_free", 0);
    free.group_id = None;
    let channels = vec![channel("ch_ok", 9), free, channel("ch_skip", 10), channel("ch_gone", 11)];
    let asks = |step: BrowseStep, expected: i64| match browsing(step) {
        (BrowseAction::GetGroup { group_id, admin_key }, next) => {
            assert_eq!((group_id, admin_key.as_str()), (expected, "test-admin-key"));
            next
        }
        _ => panic!("no group is asked for"),
    };
    let state = asks(browse::browse_step(state, BrowseReply::Channels { channels }), 9);
    let open = BrowseReply::Group { group: Some(group(9, "Group 9", "active")) };
    let state = asks(browse::browse_step(state, open), 10);
    let shut = BrowseReply::Group { group: Some(group(10, "Group 10", "disabled")) };
    let state = asks(browse::browse_step(state, shut), 11);
    let fault = BrowseReply::Error { message: "down".to_string() };
    match browse::browse_step(state, fault) {
        BrowseStep::Done { result: Ok(Shown::Channels { channels }) } => {
            let ids: Vec<&str> = channels.iter().map(|c| c.id.as_str()).collect();
            assert_eq!(ids, vec!["ch_ok", "ch_free"]);
        }
        _ => panic!("nothing is shown"),
    }
}

#[test]
fn plans_are_looked_up_one_after_another() {
    let (action, state) = entered(Shelf::Plans);
    assert!(matches!(action, BrowseAction::ListPlans));
    let mut unbound = plan("plan_unbound", 0);
    unbound.group_id = None;
    let plans = vec![unbound, plan("plan_ok", 11)];
    let (action, state) = browsing(browse::browse_step(state, BrowseReply::Plans { plans }));
    assert!(matches!(action, BrowseAction::GetGroup { group_id: 11, .. }));
    let open = BrowseReply::Group { group: Some(group(11, "OpenAI Pro", "active")) };
    match browse::browse_step(state, open) {
        BrowseStep::Done { result: Ok(Shown::Plans { plans }) } => {
            assert_eq!(plans.len(), 1);
            assert_eq!(plans[0].id, "plan_ok");
        }
        _ => panic!("nothing is shown"),
    }
}

#[test]
fn nothing_is_listed_without_a_key() {
    let (_, state) = browsing(browse::begin_browse(Shelf::Subscriptions, Some("t"), None, true));
    let named = BrowseReply::Entry { reply: EntryReply::User { user: test_user(1) } };
    let (_, state) = browsing(browse::browse_step(state, named));
    let blank = BrowseReply::Entry { reply: EntryReply::Setting { value: Some(" ".to_string()) } };
    match browse::browse_step(state, blank) {
        BrowseStep::Done { result: Err(e) } => {
            assert_eq!(e.kind, ErrorKind::PublicInternal);
            assert_eq!(e.message, "Failed to get subscriptions");
        }
        _ => panic!("the listing goes on"),
    }
    let (action, state) = entered(Shelf::Subscriptions);
    assert!(matches!(action, BrowseAction::GetSubscriptions { user_id: 1, .. }));
    let fault = BrowseReply::Error { message: "down".to_string() };
    match browse::browse_step(state, fault) {
        BrowseStep::Done { result: Err(e) } => assert_eq!(e.kind, ErrorKind::Internal),
        _ => panic!("the listing goes on"),
    }
}

fn float(value: f64) -> Float64 {
    Float64 { bits: value.to_bits() }
}

fn shop() -> AppConfig {
    AppConfig {
        host: "127.0.0.1".to_string(),
        port: 8080,
        db_path: "opay.db".to_string(),
        payment_providers: Vec::new(),
        admin_token: Some("test-admin-token".to_string()),
        system_config_cache_ttl_secs: 1,
        sub2api_base_url: None,
        sub2api_timeout_secs: 2,
        min_recharge_amount: float(1.0),
        max_recharge_amount: float(1000.0),
        max_daily_recharge_amount: float(10000.0),
        pay_help_image_url: Some("https://help.test/a.png".to_string()),
        pay_help_text: None,
        stripe_publishable_key: None,
    }
}

fn user_query(user_id: i64, token: Option<&str>) -> UserQuery {
    UserQuery { user_id, token: token.map(|t| t.to_string()), lang: Some("en".to_string()) }
}

fn telling(step: UserStep) -> (UserAction, UserInfo) {
    match step {
        UserStep::Act { action, next } => (action, next),
        UserStep::Done { result } => panic!("{:?}", result.map(|_| ())),
    }
}

fn told(step: UserStep) -> Result<UserResponse, (ErrorKind, String)> {
    match step {
        UserStep::Act { .. } => panic!("more to do"),
        UserStep::Done { result } => result.map_err(|e| (e.kind, e.message)),
    }
}

fn refused(step: UserStep) -> (ErrorKind, String) {
    told(step).map(|_| ()).unwrap_err()
}

#[test]
fn a_user_is_refused_for_the_first_thing_that_is_wrong() {
    let begin = |id: i64, token: Option<&str>, platform: bool| {
        refused(user::begin_user_info(&user_query(id, token), platform))
    };
    assert_eq!(begin(0, None, false), (ErrorKind::BadRequest, "Invalid user ID".to_string()));
    assert_eq!(
        begin(42, None, false),
        (ErrorKind::Unauthorized, "Missing token parameter".to_string())
    );
    assert_eq!(
        begin(42, Some("t"), false),
        (ErrorKind::Internal, "SUB2API_BASE_URL is not configured".to_string())
    );
    let asked = || telling(user::begin_user_info(&user_query(42, Some("t")), true)).1;
    let config = shop();
    let reply = |message: &str| UserReply::Error { message: message.to_string() };
    let rejected = reply("Failed to get current user: 401");
    assert_eq!(
        refused(user::get_user_step(asked(), rejected, &config)),
        (ErrorKind::Unauthorized, "Invalid token".to_string())
    );
    assert_eq!(
        refused(user::get_user_step(asked(), reply("down"), &config)),
        (ErrorKind::Internal, "down".to_string())
    );
    let other = UserReply::User { user: test_user(43) };
    assert_eq!(
        refused(user::get_user_step(asked(), other, &config)),
        (ErrorKind::Forbidden, "Forbidden to access this user".to_string())
    );
}

#[test]
fn a_user_is_told_of_themselves_and_of_the_shop() {
    let config = shop();
    let (action, state) = telling(user::begin_user_info(&user_query(42, Some(" t ")), true));
    assert!(matches!(action, UserAction::GetCurrentUser { token } if token == "t"));
    let named = UserReply::User { user: test_user(42) };
    let (action, state) = telling(user::get_user_step(state, named, &config));
    match action {
        UserAction::ReadShopSettings { keys } => {
            assert_eq!(keys.max_pending_orders, "MAX_PENDING_ORDERS");
            assert_eq!(keys.max_daily, "DAILY_RECHARGE_LIMIT");
        }
        _ => panic!("no settings are read"),
    }
    let settings = ShopSettings {
        balance_payment_disabled: Some("true".to_string()),
        max_pending_orders: Some("x".to_string()),
        amounts: Amounts { min: Some(float(5.0)), max: None, max_daily: None },
    };
    let (action, state) =
        telling(user::get_user_step(state, UserReply::Settings { settings }, &config));
    assert!(matches!(action, UserAction::ResolvePaymentConfig));
    let response =
        told(user::get_user_step(state, UserReply::Offer { offer: offer() }, &config)).unwrap();
    assert_eq!(response.id, 42);
    assert_eq!(response.status, "active");
    assert_eq!(response.offer.enabled_payment_types, vec!["alipay", "wxpay", "stripe"]);
    assert_eq!(response.min_amount, float(5.0));
    assert_eq!(response.max_amount, float(1000.0));
    assert_eq!(response.max_daily_amount, float(10000.0));
    assert_eq!(response.help_image_url.as_deref(), Some("https://help.test/a.png"));
    assert_eq!(response.help_text, None);
    assert!(response.balance_disabled);
    assert_eq!(response.max_pending_orders, 3);
}
