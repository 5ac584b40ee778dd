//! What is stored reads back, and changes are guarded.
use opay::channel::{self, ChannelWrite};
use opay::db::SqlValue;
use opay::order::audit::{self, NewAuditLog};
use opay::order::codegen;
use opay::order::create;
use opay::order::repository::{self, AdminOrderListFilters, MarkPaidInput, NewPendingOrder, OrderRecord};
use opay::provider_instances::{self, ProviderInstanceWrite};
use opay::subscription_plan::{self, SubscriptionPlanWrite};
use opay::system_config::{self, SettingCache, UpsertSystemConfig};

fn text(s: &str) -> SqlValue {
    SqlValue::Text(s.to_string())
}

fn pending(user_id: i64, status: &str, payment_type: &str) -> NewPendingOrder {
    NewPendingOrder {
        user_id,
        amount_cents: 100,
        pay_amount_cents: Some(120),
        fee_rate_bps: Some(200),
        status: status.to_string(),
        payment_type: payment_type.to_string(),
        order_type: "balance".to_string(),
        plan_id: None,
        subscription_group_id: None,
        subscription_days: None,
        provider_instance_id: None,
        expires_at: 1000,
    }
}

fn stored(order: &OrderRecord) -> OrderRecord {
    repository::parse_order_row(&repository::order_row(order)).unwrap()
}

#[test]
fn insert_and_count_pending_order() {
    let order = create::pending_record(pending(7, "PENDING", "alipay"), 900);
    let saved = stored(&order);
    assert_eq!(saved.user_id, 7);
    assert_eq!(saved.id, order.id);
    assert_eq!(saved.recharge_code, order.recharge_code);
    assert_eq!(saved.pay_amount_cents, Some(120));
    assert_eq!(saved.created_at, 900);
    let rows = vec![saved];
    let count = rows.iter().filter(|o| o.user_id == 7 && o.status == "PENDING").count();
    assert_eq!(count, 1);
}

#[test]
fn list_and_expire_pending_orders() {
    let mut order = create::pending_record(pending(7, "PENDING", "alipay"), 900);
    assert!(order.expires_at < 2000);
    assert!(order.mark_status_if_pending("EXPIRED", 2000));
    assert!(!order.mark_status_if_pending("EXPIRED", 2000));
    assert_eq!(order.status, "EXPIRED");
}

#[test]
fn mark_paid_with_grace_window() {
    let mut order = create::pending_record(pending(9, "PENDING", "stripe"), 900);
    let input = |id: &str, since: i64| MarkPaidInput {
        order_id: id.to_string(),
        trade_no: "pi_123".to_string(),
        paid_amount_cents: 550,
        paid_at: 2000,
        grace_updated_at_gte: since,
    };
    let paid = input(&order.id, 0);
    assert!(order.mark_paid_if_pending_or_recent_expired(&paid, 2000));
    let saved = stored(&order);
    assert_eq!(saved.status, "PAID");
    assert_eq!(saved.payment_trade_no.as_deref(), Some("pi_123"));
    assert_eq!(saved.paid_at, Some(2000));
    assert!(!order.mark_paid_if_pending_or_recent_expired(&paid, 2000));

    let mut late = create::pending_record(pending(9, "PENDING", "stripe"), 900);
    late.mark_status_if_pending("EXPIRED", 1500);
    let too_late = input(&late.id, 1600);
    assert!(!late.mark_paid_if_pending_or_recent_expired(&too_late, 2000));
    let in_time = input(&late.id, 1500);
    assert!(late.mark_paid_if_pending_or_recent_expired(&in_time, 2000));
}

#[test]
fn fulfillment_status_transitions_are_atomic() {
    let mut order = create::pending_record(pending(11, "PAID", "stripe"), 900);
    assert!(order.mark_recharging_if_paid_or_failed(2500));
    assert!(!order.mark_recharging_if_paid_or_failed(2500));
    assert!(order.mark_completed_after_fulfillment(3000, 3000));
    let saved = stored(&order);
    assert_eq!(saved.status, "COMPLETED");
    assert_eq!(saved.completed_at, Some(3000));
    assert_eq!(saved.failed_reason, None);
}

#[test]
fn recharge_codes_are_short_and_carry_the_order() {
    let order = create::pending_record(pending(1, "PENDING", "alipay"), 900);
    assert!(order.recharge_code.len() <= 32);
    let a = codegen::recharge_code_with(&order.id, &[7; 16]);
    assert_eq!(a, codegen::recharge_code_with(&order.id, &[7; 16]));
    assert_ne!(a, codegen::recharge_code_with(&order.id, &[8; 16]));
}

#[test]
fn get_by_id_reads_for_sale_plan() {
    let write = SubscriptionPlanWrite {
        group_id: Some(5),
        name: "Basic".to_string(),
        description: None,
        price_cents: 1999,
        original_price_cents: None,
        validity_days: 30,
        validity_unit: "day".to_string(),
        features: None,
        product_name: Some("Sub2API Basic".to_string()),
        for_sale: true,
        sort_order: 0,
    };
    let mut row = subscription_plan::write_params("plan_basic", &write);
    row.push(SqlValue::Integer(1));
    row.push(SqlValue::Integer(2));
    let plan = subscription_plan::parse_plan_row(&row).unwrap();
    assert_eq!(plan.id, "plan_basic");
    assert_eq!(plan.group_id, Some(5));
    assert_eq!(plan.price_cents, 1999);
    assert_eq!(plan.validity_days, 30);
    assert_eq!(plan.validity_unit, "day");
    assert_eq!(plan.product_name.as_deref(), Some("Sub2API Basic"));
    assert!(plan.for_sale);
    assert_eq!((plan.created_at, plan.updated_at), (1, 2));
}

#[test]
fn rows_that_do_not_fit_are_refused() {
    let write = SubscriptionPlanWrite {
        group_id: None,
        name: "Basic".to_string(),
        description: None,
        price_cents: 1,
        original_price_cents: None,
        validity_days: 1,
        validity_unit: "day".to_string(),
        features: None,
        product_name: None,
        for_sale: false,
        sort_order: 0,
    };
    let mut row = subscription_plan::write_params("p", &write);
    row.push(SqlValue::Integer(1));
    row.push(SqlValue::Integer(2));
    row[2] = SqlValue::Null;
    assert_eq!(
        subscription_plan::parse_plan_row(&row).unwrap_err(),
        "unexpected NULL value"
    );
    row[2] = text("Basic");
    row[4] = text("many");
    assert_eq!(
        subscription_plan::parse_plan_row(&row).unwrap_err(),
        "failed to parse integer from text"
    );
    row[4] = text("12");
    assert_eq!(subscription_plan::parse_plan_row(&row).unwrap().price_cents, 12);
    row[4] = SqlValue::Blob;
    assert_eq!(
        subscription_plan::parse_plan_row(&row).unwrap_err(),
        "unexpected non-integer value"
    );
}

#[test]
fn compute_validity_days_handles_day_week_and_month() {
    let days = subscription_plan::compute_validity_days;
    assert_eq!(days(30, "day", None).unwrap(), 30);
    assert_eq!(days(2, "week", None).unwrap(), 14);
    assert_eq!(days(1, "month", Some("2026-01-31T00:00:00Z")).unwrap(), 28);
}

#[test]
fn validities_without_a_length_are_refused() {
    let days = subscription_plan::compute_validity_days;
    assert_eq!(days(0, "day", None).unwrap_err(), "subscription validity must be positive");
    assert_eq!(
        days(1, " Year ", None).unwrap_err(),
        "unsupported subscription validity unit year"
    );
    assert_eq!(
        days(1, "month", Some("soon")).unwrap_err(),
        "failed to parse subscription timestamp soon"
    );
    assert_eq!(
        days(5_000_000_000, "month", Some("2026-01-31T00:00:00Z")).unwrap_err(),
        "subscription month value exceeds u32"
    );
    assert_eq!(
        days(4_000_000_000, "month", Some("2026-01-31T00:00:00Z")).unwrap_err(),
        "failed to add 4000000000 month(s) to subscription date"
    );
    assert_eq!(days(1, " Month ", Some("2028-01-31T00:00:00+08:00")).unwrap(), 29);
}

#[test]
fn create_list_replace_delete_channel() {
    let write = ChannelWrite {
        group_id: Some(7),
        name: "OpenAI".to_string(),
        platform: "openai".to_string(),
        rate_multiplier_bps: 1500,
        description: Some("desc".to_string()),
        models: Some("[\"gpt-4.1\"]".to_string()),
        features: Some("[\"fast\"]".to_string()),
        sort_order: 1,
        enabled: true,
    };
    let store = |write: &ChannelWrite| {
        let mut row = channel::write_params("ch_1", write);
        row.push(SqlValue::Integer(1));
        row.push(SqlValue::Integer(2));
        channel::parse_channel_row(&row).unwrap()
    };
    let created = store(&write);
    assert_eq!(created.group_id, Some(7));
    assert!(created.enabled);
    assert_eq!(created.models.as_deref(), Some("[\"gpt-4.1\"]"));

    let replaced = store(&ChannelWrite {
        group_id: None,
        name: "Other".to_string(),
        platform: "other".to_string(),
        rate_multiplier_bps: 2500,
        description: None,
        models: None,
        features: None,
        sort_order: 2,
        enabled: false,
    });
    assert_eq!(replaced.name, "Other");
    assert_eq!(replaced.platform, "other");
    assert_eq!(replaced.rate_multiplier_bps, 2500);
    assert!(!replaced.enabled);
    assert_eq!(replaced.group_id, None);
}

#[test]
fn instances_keep_their_limits_as_json() {
    let write = ProviderInstanceWrite {
        provider_key: "stripe".to_string(),
        name: "Stripe #1".to_string(),
        config: "sealed".to_string(),
        supported_types: "stripe".to_string(),
        enabled: true,
        sort_order: 3,
        limits: Some(r#"{"stripe":{"dailyLimit":100}}"#.to_string()),
        refund_enabled: true,
    };
    let mut row = provider_instances::write_params("inst", &write);
    row.push(SqlValue::Integer(1));
    row.push(SqlValue::Integer(2));
    let read = provider_instances::parse_record(&row).unwrap();
    assert_eq!(read.limits, write.limits);
    assert!(read.refund_enabled);
    row[7] = text("{broken");
    assert_eq!(
        provider_instances::parse_record(&row).unwrap_err(),
        "failed to parse JSON text"
    );
}

#[test]
fn audit_entries_read_back() {
    let entry = NewAuditLog {
        order_id: "o".to_string(),
        action: "ORDER_CREATED".to_string(),
        detail: Some("created".to_string()),
        operator: None,
    };
    let mut row = audit::write_params("log", &entry);
    row.push(SqlValue::Integer(5));
    let read = audit::parse_audit_log_row(&row).unwrap();
    assert_eq!(read.id, "log");
    assert_eq!(read.action, "ORDER_CREATED");
    assert_eq!(read.detail.as_deref(), Some("created"));
    assert_eq!(read.operator, None);
    assert_eq!(read.created_at, 5);
}

#[test]
fn admin_listings_number_their_parameters() {
    let filters = AdminOrderListFilters {
        status: Some("FAILED".to_string()),
        order_type: Some("balance".to_string()),
        user_id: Some(3),
        created_from: Some(10),
        created_to: Some(20),
        offset: 40,
        limit: 20,
    };
    let (clause, params) = repository::build_admin_filter_clause(&filters);
    assert_eq!(
        clause,
        " WHERE status = ?1 AND order_type = ?2 AND user_id = ?3 AND created_at >= ?4 AND created_at <= ?5"
    );
    assert_eq!(params.len(), 5);
    let (sql, params) = repository::admin_list_query(&filters);
    assert!(sql.ends_with(" ORDER BY created_at DESC LIMIT ?6 OFFSET ?7"));
    assert_eq!(params.len(), 7);
    let none = AdminOrderListFilters {
        status: None,
        order_type: None,
        user_id: None,
        created_from: None,
        created_to: None,
        offset: 0,
        limit: 20,
    };
    assert_eq!(
        repository::admin_count_query(&none).0,
        "SELECT COUNT(*) FROM orders"
    );
}

fn setting(key: &str, value: &str, group: Option<&str>) -> UpsertSystemConfig {
    UpsertSystemConfig {
        key: key.to_string(),
        value: value.to_string(),
        group: group.map(|g| g.to_string()),
        label: None,
    }
}

#[test]
fn settings_read_back_under_their_group() {
    let mut row = system_config::upsert_params(&setting("A", "1", None));
    row.push(SqlValue::Integer(9));
    let entry = system_config::parse_entry(&row).unwrap();
    assert_eq!((entry.key.as_str(), entry.value.as_str()), ("A", "1"));
    assert_eq!(entry.group, "general");
    assert_eq!(entry.updated_at, 9);
    let row = system_config::upsert_params(&setting("A", "1", Some("payment")));
    match &row[2] {
        SqlValue::Text(group) => assert_eq!(group, "payment"),
        _ => panic!("no group"),
    }
}

#[test]
fn cached_settings_are_good_for_a_time() {
    let mut cache = SettingCache::new(30);
    assert_eq!(cache.get_cached("A", 0), None);
    assert_eq!(
        cache.settle("A", Some("stored".to_string()), Some("env".to_string()), 10),
        Some("stored".to_string())
    );
    assert_eq!(cache.get_cached("A", 40), Some("stored".to_string()));
    assert_eq!(cache.get_cached("A", 41), None);
    assert_eq!(cache.get_cached("A", 20), None);
    assert_eq!(cache.settle("B", None, Some("env".to_string()), 0), Some("env".to_string()));
    assert_eq!(cache.settle("C", None, None, 0), None);
    assert_eq!(cache.get_cached("C", 0), None);
    assert_eq!(cache.get_cached("B", 0), Some("env".to_string()));
}

#[test]
fn written_settings_are_read_anew() {
    let mut cache = SettingCache::new(30);
    cache.set_cached("A".to_string(), "1".to_string(), 0);
    cache.set_cached("B".to_string(), "2".to_string(), 0);
    cache.invalidate_written(&vec![setting("A", "3", None)]);
    assert_eq!(cache.get_cached("A", 1), None);
    assert_eq!(cache.get_cached("B", 1), Some("2".to_string()));
    cache.invalidate(None);
    assert_eq!(cache.get_cached("B", 1), None);
}
