//! What administrators see and change.
use opay::admin_auth::{self, AdminTokenQuery};
use opay::channel::{ChannelRecord, ChannelWrite};
use opay::crypto;
use opay::error::ErrorKind;
use opay::http::admin::channels;
use opay::http::admin::config as admin_config;
use opay::http::admin::dashboard::{
    self, AggregateRow, DailySeriesItem, DashboardFacts, LeaderboardItem, PaymentMethodItem,
};
use opay::http::admin::env_defaults::{self, DefaultFacts};
use opay::http::admin::orders::{self, AdminOrdersQuery};
use opay::http::admin::provider_instances::{
    self as instances, CreateProviderInstanceRequest, InstanceUpdate,
};
use opay::http::admin::refund;
use opay::http::admin::subscription_plans::{self as plans, PlanUpdate};
use opay::http::admin::subscriptions::{
    self, AdminSubscriptionsQuery, PlatformService, SubscriptionsAsk,
};
use opay::json::{JsonData, JsonValue, NumberFacts};
use opay::maps::TextMap;
use opay::clock;
use opay::db::SqlValue;
use opay::order::audit::AuditLogRecord;
use opay::order::create;
use opay::order::repository::{MarkPaidInput, NewPendingOrder, OrderRecord};
use opay::provider_instances::ProviderInstanceRecord;
use opay::response;
use opay::sub2api::{
    self, Call, Float64, PaginatedSubscriptions, Sub2ApiClient, Sub2ApiGroup, Sub2ApiSubscription,
    Sub2ApiUser, Verdict,
};
use opay::subscription_plan::{SubscriptionPlanRecord, SubscriptionPlanWrite};
use opay::system_config::{SystemConfigEntry, UpsertSystemConfig};

fn json(value: &serde_json::Value) -> JsonValue {
    let data = match value {
        serde_json::Value::Null => JsonData::Null,
        serde_json::Value::Bool(flag) => JsonData::Flag { flag: *flag },
        serde_json::Value::Number(n) => {
            let real = n.as_f64().unwrap();
            let cents = (real * 100.0).round() as i64;
            let positive = if real > 0.0 { Some(cents) } else { None };
            JsonData::Number {
                number: NumberFacts {
                    integer: n.as_i64(),
                    cents: if real >= 0.0 { Some(cents) } else { None },
                    positive_cents: positive,
                    price_cents: if real <= 99_999_999.99 { positive } else { None },
                    positive_bps: if real > 0.0 {
                        Some((real * 10_000.0).round() as i64)
                    } else {
                        None
                    },
                },
            }
        }
        serde_json::Value::String(text) => JsonData::Text { text: text.clone() },
        serde_json::Value::Array(_) => JsonData::List,
        serde_json::Value::Object(members) => JsonData::Object {
            members: TextMap::from_entries(
                members.iter().map(|(k, v)| (k.clone(), json(v))).collect(),
            ),
        },
    };
    JsonValue { shown: value.to_string(), data }
}

fn body(text: &str) -> JsonValue {
    json(&serde_json::from_str(text).unwrap())
}

fn object(text: &str) -> TextMap<JsonValue> {
    match body(text).data {
        JsonData::Object { members } => members,
        _ => panic!("no object"),
    }
}

fn map(entries: &[(&str, &str)]) -> TextMap<String> {
    TextMap::from_entries(
        entries.iter().map(|(k, v)| (k.to_string(), v.to_string())).collect(),
    )
}

fn texts(items: &[&str]) -> Vec<String> {
    items.iter().map(|s| s.to_string()).collect()
}

#[test]
fn only_the_admin_token_opens() {
    let verify = |header: Option<&str>, query: Option<&str>, lang: Option<&str>, admin: Option<&str>| {
        let query = AdminTokenQuery {
            token: query.map(|s| s.to_string()),
            lang: lang.map(|s| s.to_string()),
        };
        admin_auth::verify_admin(header, &query, admin)
    };
    assert!(verify(Some("Bearer secret"), None, None, Some("secret")).is_ok());
    assert!(verify(None, Some(" secret "), None, Some("secret")).is_ok());
    assert!(verify(Some("Bearer other"), Some("secret"), None, Some("secret")).is_err());
    assert!(verify(None, None, None, Some("secret")).is_err());
    let refused = verify(None, Some("secret"), Some("en"), None).unwrap_err();
    assert_eq!(refused.kind, ErrorKind::Unauthorized);
    assert_eq!(refused.message, "Admin auth is not configured");
    let refused = verify(None, None, Some(" EN "), None).unwrap_err();
    assert_eq!(refused.message, admin_auth::unauthorized_message(Some("en")));
    assert_ne!(
        admin_auth::unauthorized_message(Some("en")),
        admin_auth::unauthorized_message(None)
    );
}

fn stored_channel(id: &str, write: ChannelWrite) -> ChannelRecord {
    ChannelRecord {
        id: id.to_string(),
        group_id: write.group_id,
        name: write.name,
        platform: write.platform,
        rate_multiplier_bps: write.rate_multiplier_bps,
        description: write.description,
        models: write.models,
        features: write.features,
        sort_order: write.sort_order,
        enabled: write.enabled,
        created_at: 0,
        updated_at: 0,
    }
}

#[test]
fn create_list_update_delete_admin_channel() {
    let created = channels::parse_create_body(&body(
        r#"{"group_id":9,"name":"OpenAI","platform":"openai","rate_multiplier":0.15,
            "description":"desc","models":"[\"gpt-4.1\"]","features":"[\"fast\"]",
            "sort_order":1,"enabled":true}"#,
    ))
    .unwrap();
    assert_eq!(created.group_id, Some(9));
    assert_eq!(created.rate_multiplier_bps, 1500);
    assert!(channels::ensure_group_id_unique(created.group_id, &None, None).is_ok());

    let record = stored_channel("ch_1", created);
    let holder = Some(stored_channel(
        "ch_2",
        ChannelWrite {
            group_id: Some(9),
            name: "Other".to_string(),
            platform: "openai".to_string(),
            rate_multiplier_bps: 1,
            description: None,
            models: None,
            features: None,
            sort_order: 0,
            enabled: true,
        },
    ));
    assert_eq!(
        channels::ensure_group_id_unique(Some(9), &holder, Some("ch_1")).unwrap_err().kind,
        ErrorKind::Conflict
    );
    assert!(channels::ensure_group_id_unique(Some(9), &holder, Some("ch_2")).is_ok());

    let updated =
        channels::merge_update_body(record, &body(r#"{"enabled":false,"rate_multiplier":0.25}"#))
            .unwrap();
    assert!(!updated.enabled);
    assert_eq!(updated.rate_multiplier_bps, 2500);
    assert_eq!(updated.name, "OpenAI");
    assert_eq!(updated.models.as_deref(), Some("[\"gpt-4.1\"]"));

    let view = channels::to_admin_channel_view(stored_channel("ch_1", updated), true);
    assert!(view.group_exists);
    assert_eq!(view.created_at, "1970-01-01T00:00:00+00:00");
    assert!(response::success().success);
    assert_eq!(channels::require_channel(None).map(|_| ()).unwrap_err().kind, ErrorKind::NotFound);
}

#[test]
fn channels_are_refused_for_a_reason() {
    let refuse = |text: &str| channels::parse_create_body(&body(text)).map(|_| ()).unwrap_err().message;
    let rate = refuse(r#"{"group_id":9,"name":"a","platform":"b","rate_multiplier":0}"#);
    assert_eq!(rate, "rate_multiplier 必须是正数");
    assert_eq!(
        refuse(r#"{"group_id":0,"name":"a","platform":"b","rate_multiplier":1}"#),
        "group_id 必须是正整数或 null"
    );
    assert!(channels::parse_create_body(&body("[]")).is_err());
}

#[test]
fn dashboard_aggregates_summary_series_and_leaderboard() {
    let now: i64 = 1_775_404_800;
    let window = dashboard::dashboard_window(Some(7), now);
    let today = clock::get_biz_day_start_utc_timestamp(now);
    assert_eq!(window.days, 7);
    assert_eq!(window.today_start, today);
    let orders = [
        (1, 1000, "COMPLETED", "stripe", "balance", today + 100, Some(today + 200)),
        (2, 2000, "REFUNDED", "alipay", "subscription", today - 86_400 + 100, Some(today - 86_400 + 200)),
        (3, 500, "PENDING", "wxpay", "balance", today + 300, None),
    ];
    let paid = |o: &(i64, i64, &str, &str, &str, i64, Option<i64>)| o.2 != "PENDING";
    let sum = |since: i64, kind: &str| {
        let picked = orders.iter().filter(|o| {
            paid(o) && o.6.unwrap() >= since && (kind.is_empty() || o.4 == kind)
        });
        dashboard::read_aggregate(&vec![
            SqlValue::Integer(picked.clone().map(|o| o.1).sum()),
            SqlValue::Integer(picked.count() as i64),
        ])
        .unwrap()
    };
    let count = |since: i64, kind: &str| {
        orders.iter().filter(|o| o.5 >= since && (kind.is_empty() || o.4 == kind)).count() as i64
    };
    let mut leaderboard: Vec<LeaderboardItem> = orders
        .iter()
        .filter(|o| paid(o))
        .map(|o| LeaderboardItem {
            user_id: o.0,
            user_name: None,
            user_email: None,
            total_amount_cents: o.1,
            order_count: 1,
        })
        .collect();
    leaderboard.sort_by_key(|item| -item.total_amount_cents);
    let facts = DashboardFacts {
        today_paid: sum(window.today_start, ""),
        total_paid: sum(0, ""),
        today_orders: count(window.today_start, ""),
        total_orders: count(0, ""),
        sub_today_paid: sum(window.today_start, "subscription"),
        sub_total_paid: sum(0, "subscription"),
        sub_today_orders: count(window.today_start, "subscription"),
        sub_total_orders: count(0, "subscription"),
        daily_rows: orders
            .iter()
            .filter(|o| paid(o))
            .map(|o| DailySeriesItem {
                date: clock::biz_date_str(o.6.unwrap()),
                amount_cents: o.1,
                count: 1,
            })
            .collect(),
        leaderboard,
        payment_methods: orders
            .iter()
            .filter(|o| paid(o))
            .map(|o| PaymentMethodItem {
                payment_type: o.3.to_string(),
                amount_cents: o.1,
                count: 1,
            })
            .collect(),
    };
    let response = dashboard::build_dashboard_response(facts, window, now);
    assert_eq!(response.today.amount_cents, 1000);
    assert_eq!(response.today.paid_count, 1);
    assert_eq!(response.today.order_count, 2);
    assert_eq!(response.total.amount_cents, 3000);
    assert_eq!(response.total.paid_count, 2);
    assert_eq!(response.total.order_count, 3);
    assert_eq!(response.subscription_total.amount_cents, 2000);
    assert_eq!(response.payment_methods.len(), 2);
    assert_eq!(response.leaderboard[0].user_id, 2);
    assert!(response.daily_series.iter().any(|item| item.amount_cents > 0));
    assert_eq!(response.daily_series.last().unwrap().date, clock::biz_date_str(now));
    assert_eq!(response.daily_series.last().unwrap().amount_cents, 1000);
}

#[test]
fn dashboard_windows_are_bounded() {
    let window = |days: Option<i64>| dashboard::dashboard_window(days, 1_775_404_800).days;
    assert_eq!(window(None), 30);
    assert_eq!(window(Some(0)), 1);
    assert_eq!(window(Some(1000)), 365);
    let early = dashboard::dashboard_window(Some(1), -100_000);
    assert_eq!((early.today_start, early.start), (-28_800, -115_200));
    let row = dashboard::read_day(&vec![
        SqlValue::Text("2026-04-05".to_string()),
        SqlValue::Integer(5),
        SqlValue::Integer(1),
    ])
    .unwrap();
    assert_eq!((row.date.as_str(), row.amount_cents, row.count), ("2026-04-05", 5, 1));
    let _: AggregateRow = dashboard::read_aggregate(&vec![SqlValue::Integer(1), SqlValue::Integer(2)])
        .unwrap();
    assert!(dashboard::read_method(&vec![SqlValue::Null, SqlValue::Integer(1), SqlValue::Integer(1)])
        .is_err());
}

fn default_facts() -> DefaultFacts {
    DefaultFacts {
        min_amount: "1".to_string(),
        max_amount: "1000".to_string(),
        max_daily_amount: "10000".to_string(),
        order_timeout_minutes: None,
        iframe_allow_origins: None,
    }
}

#[test]
fn env_defaults_only_exposes_rust_mvp_providers() {
    let response = env_defaults::env_defaults(
        &texts(&["easypay", "alipay", "wxpay", "stripe"]),
        &TextMap::new(),
        default_facts(),
    );
    assert_eq!(response.available_payment_types, texts(&["alipay", "wxpay", "stripe"]));
    assert_eq!(response.providers.len(), 2);
    assert_eq!(response.providers[0].key, "easypay");
    assert_eq!(response.providers[1].key, "stripe");
    assert!(response.instance_defaults.is_empty());
    assert_eq!(
        response.defaults.get("ENABLED_PAYMENT_TYPES").map(String::as_str),
        Some("alipay,wxpay,stripe")
    );
}

#[test]
fn env_defaults_begin_instances_from_the_environment() {
    let env = map(&[("STRIPE_SECRET_KEY", "sk_1")]);
    let response = env_defaults::env_defaults(&texts(&["stripe", "easypay"]), &env, default_facts());
    assert_eq!(response.instance_defaults.len(), 1);
    assert_eq!(response.instance_defaults[0].provider_key, "stripe");
    assert_eq!(
        response.instance_defaults[0].config.get("secretKey").map(String::as_str),
        Some("sk_1")
    );
}

fn user(id: i64, balance: f64) -> Sub2ApiUser {
    Sub2ApiUser {
        id,
        status: "active".to_string(),
        role: None,
        email: Some("demo@example.com".to_string()),
        username: Some("demo".to_string()),
        notes: None,
        balance: Some(Float64 { bits: balance.to_bits() }),
    }
}

fn subscription(id: i64, user_id: i64, group_id: i64) -> Sub2ApiSubscription {
    let zero = Float64 { bits: 0 };
    Sub2ApiSubscription {
        id,
        user_id,
        group_id,
        starts_at: "2026-04-01T00:00:00Z".to_string(),
        status: "active".to_string(),
        expires_at: "2026-05-01T00:00:00Z".to_string(),
        daily_usage_usd: zero,
        weekly_usage_usd: zero,
        monthly_usage_usd: zero,
        daily_window_start: None,
        weekly_window_start: None,
        monthly_window_start: None,
        assigned_by: None,
        assigned_at: None,
        notes: None,
        created_at: None,
        updated_at: None,
    }
}

#[test]
fn returns_groups_and_search_users() {
    let client = Sub2ApiClient::new("http://platform.test".to_string());
    let groups = client.get_all_groups("test-admin-key");
    assert_eq!(groups.url, "http://platform.test/api/v1/admin/groups/all");
    assert_eq!(groups.api_key.as_deref(), Some("test-admin-key"));
    assert!(!groups.call.is_post());
    let search = client.search_users("demo", "test-admin-key").unwrap().unwrap();
    assert!(search.url.contains("demo"));
    assert!(client.search_users("  ", "test-admin-key").unwrap().is_none());
    assert!(matches!(sub2api::read_status(Call::SearchUsers, 200, ""), Verdict::Read));
}

#[test]
fn admin_subscriptions_supports_user_lookup() {
    let ask = subscriptions::read_query(AdminSubscriptionsQuery {
        user_id: Some("42".to_string()),
        group_id: Some("7".to_string()),
        status: None,
        page: None,
        page_size: None,
    })
    .unwrap();
    let (user_id, group_id) = match ask {
        SubscriptionsAsk::OfUser { user_id, group_id } => (user_id, group_id),
        SubscriptionsAsk::Listing { .. } => panic!("a listing"),
    };
    assert_eq!(user_id, 42);
    assert_eq!(group_id, Some(7));
    let found = subscriptions::found_user(Ok(user(42, 0.0))).unwrap();
    let items = vec![subscription(501, 42, 7), subscription(502, 42, 8)];
    let response = subscriptions::user_subscriptions_response(items, group_id, found);
    assert_eq!(response.subscriptions.len(), 1);
    assert_eq!(response.subscriptions[0].id, 501);
    assert_eq!(response.user.as_ref().unwrap().id, 42);
    assert_eq!(response.total, 1);
}

#[test]
fn admin_subscriptions_supports_global_listing() {
    let ask = subscriptions::read_query(AdminSubscriptionsQuery {
        user_id: None,
        group_id: Some("8".to_string()),
        status: Some("active".to_string()),
        page: Some(2),
        page_size: Some(30),
    })
    .unwrap();
    let params = match ask {
        SubscriptionsAsk::Listing { params } => params,
        SubscriptionsAsk::OfUser { .. } => panic!("of a user"),
    };
    let client = Sub2ApiClient::new("http://platform.test".to_string());
    let request = client.list_subscriptions(&params, "test-admin-key").unwrap();
    assert!(request.url.starts_with("http://platform.test/api/v1/admin/subscriptions?"));
    assert!(request.url.contains("group_id=8"));
    assert!(request.url.contains("page_size=30"));
    let response = subscriptions::to_admin_subscriptions_response(PaginatedSubscriptions {
        subscriptions: vec![subscription(701, 99, 8)],
        total: 1,
        page: 2,
        page_size: 30,
    });
    assert_eq!(response.subscriptions.len(), 1);
    assert_eq!(response.page, 2);
    assert_eq!(response.page_size, 30);
    assert_eq!(response.total, 1);
}

#[test]
fn returns_user_balance() {
    let id = subscriptions::read_balance_user(Some("42")).unwrap();
    assert_eq!(id, 42);
    assert_eq!(f64::from_bits(user(id, 12.5).balance.unwrap().bits), 12.5);
    assert_eq!(
        subscriptions::read_balance_user(Some("0")).unwrap_err().kind,
        ErrorKind::BadRequest
    );
    assert!(subscriptions::read_balance_user(None).is_err());
    assert_ne!(
        subscriptions::platform_fault_error(PlatformService::Groups).message,
        subscriptions::platform_fault_error(PlatformService::UserBalance).message
    );
    assert_eq!(
        subscriptions::key_setting_name(PlatformService::Subscriptions),
        "SUB2API_ADMIN_API_KEY"
    );
    assert_eq!(
        subscriptions::key_setting_name(PlatformService::Catalogue),
        "PLATFORM_ADMIN_API_KEY"
    );
}

fn order(user_id: i64, amount: i64, pay: i64, status: &str) -> OrderRecord {
    create::pending_record(
        NewPendingOrder {
            user_id,
            amount_cents: amount,
            pay_amount_cents: Some(pay),
            fee_rate_bps: Some(1000),
            status: status.to_string(),
            payment_type: "stripe".to_string(),
            order_type: "balance".to_string(),
            plan_id: None,
            subscription_group_id: None,
            subscription_days: None,
            provider_instance_id: None,
            expires_at: 1000,
        },
        1000,
    )
}

fn orders_query(status: Option<&str>, order_type: Option<&str>) -> AdminOrdersQuery {
    AdminOrdersQuery {
        page: Some(1),
        page_size: Some(20),
        status: status.map(|s| s.to_string()),
        order_type: order_type.map(|s| s.to_string()),
        user_id: None,
        date_from: None,
        date_to: None,
    }
}

#[test]
fn list_orders_filters_and_exposes_retryable_flag() {
    let mut first = order(11, 1000, 1100, "PENDING");
    let paid = MarkPaidInput {
        order_id: first.id.clone(),
        trade_no: "pi_test_1".to_string(),
        paid_amount_cents: 1100,
        paid_at: 2000,
        grace_updated_at_gte: 0,
    };
    assert!(first.mark_paid_if_pending_or_recent_expired(&paid, 2000));
    assert!(first.mark_recharging_if_paid_or_failed(2000));
    assert!(first.mark_failed_if_recharging("recharge failed", 3000, 3000));
    let mut second = order(12, 500, 500, "COMPLETED");
    second.order_type = "subscription".to_string();

    let (page, filters) =
        orders::read_query(&orders_query(Some("FAILED"), Some("balance"))).unwrap();
    assert_eq!(page, 1);
    assert_eq!((filters.offset, filters.limit), (0, 20));
    let found: Vec<OrderRecord> = vec![first, second]
        .into_iter()
        .filter(|o| Some(&o.status) == filters.status.as_ref())
        .filter(|o| Some(&o.order_type) == filters.order_type.as_ref())
        .collect();
    let listed = orders::list_orders(&found);
    assert_eq!(listed.len(), 1);
    assert!(listed[0].recharge_retryable);
    assert_eq!(listed[0].status, "FAILED");
    assert_eq!(listed[0].user_id, 11);
}

#[test]
fn get_order_returns_detail_and_audit_logs() {
    let mut saved = order(15, 900, 990, "PENDING");
    let paid = MarkPaidInput {
        order_id: saved.id.clone(),
        trade_no: "pi_test_detail".to_string(),
        paid_amount_cents: 990,
        paid_at: 2000,
        grace_updated_at_gte: 0,
    };
    assert!(saved.mark_paid_if_pending_or_recent_expired(&paid, 2000));
    saved.mark_completed_after_fulfillment(3000, 3000);
    let logs = vec![AuditLogRecord {
        id: "log".to_string(),
        order_id: saved.id.clone(),
        action: "ORDER_CREATED".to_string(),
        detail: Some("created".to_string()),
        operator: Some("user:15".to_string()),
        created_at: 1000,
    }];
    let found = orders::require_order(Some(saved), "zh").unwrap();
    let response = orders::to_admin_order_detail(found, &logs);
    assert_eq!(response.status, "COMPLETED");
    assert!(response.payment_success);
    assert_eq!(response.recharge_status, "success");
    assert_eq!(response.audit_logs.len(), 1);
    assert_eq!(response.audit_logs[0].action, "ORDER_CREATED");
    assert_eq!(
        orders::require_order(None, "en").map(|_| ()).unwrap_err().message,
        "Order not found"
    );
}

#[test]
fn order_refusals_are_told_apart() {
    let retry = |e: &str| orders::map_retry_error(e, "en").kind;
    assert_eq!(retry("order not found"), ErrorKind::NotFound);
    assert_eq!(retry("order is recharging, retry later"), ErrorKind::Conflict);
    assert_eq!(retry("order already completed"), ErrorKind::BadRequest);
    assert_eq!(retry("?"), ErrorKind::PublicInternal);
    assert_eq!(orders::map_cancel_error("order cannot be cancelled", "en").kind, ErrorKind::BadRequest);
    assert_eq!(
        refund::map_process_refund_error("refund amount exceeds recharge amount", "en").message,
        "Refund amount cannot exceed recharge amount"
    );
    assert_eq!(
        refund::localize_refund_warning("zh", "gateway refund failed: down, deduction rolled back"),
        "支付网关退款失败：down，已回滚扣减"
    );
    assert_eq!(
        refund::localize_refund_warning("en", "gateway refund failed: down, deduction rolled back"),
        "gateway refund failed: down, deduction rolled back"
    );
    assert_eq!(orders::parse_positive_i64(Some("7")), Some(7));
    assert_eq!(orders::parse_positive_i64(Some("-7")), None);
}

fn group(id: i64, name: &str) -> Sub2ApiGroup {
    Sub2ApiGroup {
        id,
        name: name.to_string(),
        status: "active".to_string(),
        subscription_type: Some("subscription".to_string()),
        description: None,
        platform: Some("openai".to_string()),
        rate_multiplier: None,
        daily_limit_usd: None,
        weekly_limit_usd: None,
        monthly_limit_usd: None,
        default_validity_days: None,
        sort_order: None,
        supported_model_scopes: None,
        allow_messages_dispatch: false,
        default_mapped_model: None,
    }
}

fn stored_plan(write: SubscriptionPlanWrite) -> SubscriptionPlanRecord {
    SubscriptionPlanRecord {
        id: "plan_1".to_string(),
        group_id: write.group_id,
        name: write.name,
        description: write.description,
        price_cents: write.price_cents,
        original_price_cents: write.original_price_cents,
        validity_days: write.validity_days,
        validity_unit: write.validity_unit,
        features: write.features,
        product_name: write.product_name,
        for_sale: write.for_sale,
        sort_order: write.sort_order,
        created_at: 0,
        updated_at: 0,
    }
}

#[test]
fn admin_subscription_plan_crud_roundtrip() {
    let ask = body(
        r#"{"group_id":11,"name":"Plan A","description":"desc","price":19.99,
            "original_price":29.99,"validity_days":30,"validity_unit":"day",
            "features":["GPT","Fast"],"for_sale":true,"sort_order":1,
            "product_name":"OpenAI Plan"}"#,
    );
    let group_id = plans::read_group_id(&ask).unwrap();
    assert_eq!(group_id, 11);
    let bound = plans::require_group(Ok(Some(group(11, "Group 11")))).unwrap();
    let created = stored_plan(plans::parse_create_body(&ask, group_id).unwrap());
    assert_eq!(created.price_cents, 1999);
    assert_eq!(created.original_price_cents, Some(2999));
    let view = plans::to_admin_plan_view(created, Some(bound));
    assert_eq!(view.name, "Plan A");
    assert!(view.group_exists);
    assert_eq!(view.features, texts(&["GPT", "Fast"]));

    let created = stored_plan(plans::parse_create_body(&ask, group_id).unwrap());
    let change = body(r#"{"group_id":12,"price":25.5,"for_sale":false}"#);
    let group_id = plans::resolve_group_id(created.group_id, &change).unwrap();
    let written = match plans::decide_update(created, &change, group_id, true) {
        PlanUpdate::Replace { write } => write,
        _ => panic!("no change"),
    };
    let updated = plans::to_admin_plan_view(stored_plan(written), Some(group(12, "Group 12")));
    assert_eq!(updated.group_id.as_deref(), Some("12"));
    assert_eq!(updated.price_cents, 2550);
    assert!(!updated.enabled);
    assert_eq!(updated.name, "Plan A");
    assert!(plans::check_delete(0).is_ok());
}

#[test]
fn plans_of_groups_that_are_gone_are_taken_off_sale() {
    let ask = body(
        r#"{"group_id":11,"name":"Plan A","price":19.99,"validity_days":30}"#,
    );
    let created = || stored_plan(plans::parse_create_body(&ask, 11).unwrap());
    assert_eq!(created().validity_unit, "day");
    match plans::decide_update(created(), &body("{}"), 11, false) {
        PlanUpdate::Unbind { unbound, refusal } => {
            assert_eq!(unbound.group_id, None);
            assert!(!unbound.for_sale);
            assert_eq!(refusal.kind, plans::group_gone_error().kind);
        }
        _ => panic!("the plan is kept"),
    }
    assert!(plans::require_group(Ok(None)).is_err());
    assert!(plans::require_group(Err("down".to_string())).is_err());
    assert_eq!(plans::check_delete(2).unwrap_err().kind, ErrorKind::Conflict);
    assert_eq!(
        plans::parse_create_body(
            &body(r#"{"group_id":11,"name":"Plan A","price":100000000,"validity_days":30}"#),
            11
        )
        .map(|_| ())
        .unwrap_err()
        .message,
        "price 必须是 0.01 ~ 99999999.99 之间的数值"
    );
}

fn instance(config: String) -> ProviderInstanceRecord {
    ProviderInstanceRecord {
        id: "i".to_string(),
        provider_key: "stripe".to_string(),
        name: "Stripe".to_string(),
        config,
        supported_types: "stripe".to_string(),
        enabled: true,
        sort_order: 0,
        limits: None,
        refund_enabled: false,
        created_at: 1,
        updated_at: 1,
    }
}

#[test]
fn masks_that_come_back_stand_for_the_secret() {
    let settings = map(&[("secretKey", "sk_live_12345678"), ("apiBase", "http://x")]);
    let sealed = instances::seal_settings(Some("admin"), &settings).unwrap();
    assert!(instances::can_show_settings(&settings));
    let view = instances::to_view(instance(sealed.clone()), &settings);
    assert_eq!(view.config.get("secretKey").map(String::as_str), Some("************5678"));
    assert_eq!(view.config.get("apiBase").map(String::as_str), Some("http://x"));

    let settled = instances::settle_settings(Some("admin"), &sealed, &view.config).unwrap();
    assert!(!settled.credentials_change);
    assert_eq!(settled.merged.get("secretKey").map(String::as_str), Some("sk_live_12345678"));

    let fresh = map(&[("secretKey", "sk_live_other"), ("apiBase", "http://x")]);
    let settled = instances::settle_settings(Some("admin"), &sealed, &fresh).unwrap();
    assert!(settled.credentials_change);
    assert_eq!(instances::check_credential_change(1).unwrap_err().kind, ErrorKind::Conflict);
    assert!(instances::check_credential_change(0).is_ok());
    assert_eq!(instances::check_delete(1).unwrap_err().kind, ErrorKind::Conflict);
    assert!(instances::settle_settings(Some("other"), &sealed, &fresh).is_err());
}

#[test]
fn secrets_stay_while_orders_are_open() {
    let settings = map(&[("secretKey", "sk_live_12345678")]);
    let sealed = instances::seal_settings(Some("admin"), &settings).unwrap();
    let decide = |text: &str, pending: Option<i64>| {
        instances::decide_update(Some("admin"), &instance(sealed.clone()), &object(text), pending)
    };
    let fresh = r#"{"config":{"secretKey":"other"},"limits":{"stripe":{"dailyLimit":5}}}"#;
    assert!(matches!(decide(fresh, None), InstanceUpdate::Count));
    match decide(fresh, Some(2)) {
        InstanceUpdate::Refuse { why } => assert_eq!(why.kind, ErrorKind::Conflict),
        _ => panic!("the secret changes"),
    }
    match decide(fresh, Some(0)) {
        InstanceUpdate::Write { write } => {
            assert_eq!(
                crypto::decrypt(Some("admin"), &write.config),
                Ok(r#"{"secretKey":"other"}"#.to_string())
            );
            assert_eq!(write.limits.as_deref(), Some(r#"{"stripe":{"dailyLimit":5}}"#));
        }
        _ => panic!("nothing is written"),
    }
    assert!(matches!(
        decide(r#"{"config":{"secretKey":"************5678"}}"#, None),
        InstanceUpdate::Write { .. }
    ));
    assert!(matches!(decide(r#"{"enabled":false}"#, None), InstanceUpdate::Write { .. }));
    assert!(matches!(decide(r#"{"enabled":1}"#, None), InstanceUpdate::Refuse { .. }));
}

#[test]
fn instances_are_created_and_changed() {
    let request = |key: &str, name: &str, sort: i64| CreateProviderInstanceRequest {
        provider_key: key.to_string(),
        name: name.to_string(),
        config: map(&[("secretKey", "s")]),
        enabled: None,
        sort_order: Some(sort),
        supported_types: None,
        limits: None,
        refund_enabled: None,
    };
    let write = instances::new_instance(Some("admin"), request("stripe", " Stripe ", 2)).unwrap();
    assert_eq!(write.name, "Stripe");
    assert!(write.enabled);
    assert!(!write.refund_enabled);
    assert_eq!(
        crypto::decrypt(Some("admin"), &write.config),
        Ok(r#"{"secretKey":"s"}"#.to_string())
    );
    let refuse = |key: &str, name: &str, sort: i64| {
        instances::new_instance(Some("admin"), request(key, name, sort)).map(|_| ()).unwrap_err().kind
    };
    assert_eq!(refuse("cash", "n", 0), ErrorKind::BadRequest);
    assert_eq!(refuse("stripe", " ", 0), ErrorKind::BadRequest);
    assert_eq!(refuse("stripe", "n", -1), ErrorKind::BadRequest);

    let change = instances::read_update(
        &instance("kept".to_string()),
        &object(r#"{"name":" New ","enabled":false,"config":{"secretKey":"t"}}"#),
    )
    .unwrap();
    assert_eq!(change.write.name, "New");
    assert!(!change.write.enabled);
    assert_eq!(change.write.config, "kept");
    assert_eq!(
        change.config.unwrap().get("secretKey").map(String::as_str),
        Some("t")
    );
    let refused = |text: &str| {
        instances::read_update(&instance("kept".to_string()), &object(text))
            .map(|_| ())
            .unwrap_err()
            .message
    };
    assert_eq!(refused(r#"{"config":{"secretKey":1}}"#), "config.secretKey 必须是字符串");
    assert_eq!(refused(r#"{"config":[]}"#), "config 必须是对象");
    assert_eq!(refused(r#"{"sortOrder":1.5}"#), "sortOrder 必须是整数");
    assert!(instances::read_update(&instance("kept".to_string()), &object("{}")).is_ok());
}

fn setting(key: &str, value: &str) -> UpsertSystemConfig {
    UpsertSystemConfig { key: key.to_string(), value: value.to_string(), group: None, label: None }
}

#[test]
fn settings_are_masked_and_masks_are_not_written() {
    let entry = |key: &str, value: &str| SystemConfigEntry {
        key: key.to_string(),
        value: value.to_string(),
        group: "payment".to_string(),
        label: None,
        updated_at: 1,
    };
    assert_eq!(
        admin_config::mask_config(entry("SUB2API_ADMIN_API_KEY", "abcdefghijkl")).value,
        "********ijkl"
    );
    assert_eq!(admin_config::mask_config(entry("RECHARGE_MIN_AMOUNT", "12")).value, "12");
    let written = admin_config::filter_written(vec![
        setting("SUB2API_ADMIN_API_KEY", "********ijkl"),
        setting("RECHARGE_MIN_AMOUNT", "********"),
        setting("SUB2API_ADMIN_API_KEY", "new-key"),
    ]);
    assert_eq!(written.len(), 2);
    assert_eq!(written[0].key, "RECHARGE_MIN_AMOUNT");
    assert_eq!(written[1].value, "new-key");
}

#[test]
fn setting_changes_are_refused_for_a_reason() {
    let refuse = |items: Vec<UpsertSystemConfig>| admin_config::check_change(&items).unwrap_err().message;
    assert_eq!(refuse(Vec::new()), "缺少必填字段: configs 数组");
    assert_eq!(refuse(vec![setting(" ", "1")]), "每条配置必须包含 key 和 value");
    assert_eq!(refuse(vec![setting("PATH", "1")]), "不允许修改配置项: PATH");
    assert!(admin_config::check_change(&vec![setting("ENABLED_PROVIDERS", "stripe")]).is_ok());
    let items = vec![setting("ENABLED_PROVIDERS", "stripe")];
    assert_eq!(admin_config::find_providers_wanted(&items), Some("stripe"));
    let mut easypay = instance(String::new());
    easypay.provider_key = "easypay".to_string();
    let all = vec![easypay];
    let validate = |current: Option<&str>, all: &Vec<ProviderInstanceRecord>| {
        admin_config::validate_enabled_providers_change(&items, current, all)
    };
    assert_eq!(validate(Some("easypay,stripe"), &all).unwrap_err().kind, ErrorKind::Conflict);
    assert!(validate(Some("easypay,stripe"), &Vec::new()).is_ok());
    assert!(validate(Some("stripe"), &all).is_ok());
    assert!(validate(None, &all).is_ok());
    let removed = admin_config::find_removed_providers("stripe", "easypay, stripe");
    assert_eq!(removed, texts(&["easypay"]));
    assert_eq!(
        admin_config::check_blocked(&removed).unwrap_err().message,
        "无法关闭服务商类型 [easypay]：存在关联实例，请先删除所有实例"
    );
}
