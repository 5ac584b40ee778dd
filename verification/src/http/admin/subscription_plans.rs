//! Subscription plans, as administrators see and change them.
use vstd::prelude::*;

use crate::clock;
use crate::db;
use crate::error;
use crate::error::{AppError, ErrorKind, Refusal};
use crate::http::fields;
use crate::json;
use crate::json::{JsonData, JsonValue};
use crate::maps::TextMap;
use crate::sub2api::{Float64, Sub2ApiGroup};
use crate::subscription_plan::{SubscriptionPlanRecord, SubscriptionPlanWrite};
use crate::text;

verus! {

/// A unit of validity: days, where nothing else is meant.
pub open spec fn unit_of(v: Option<JsonValue>) -> Seq<char> {
    match v {
        Some(j) => match j.data {
            JsonData::Text { text } => if text@ == "day"@ || text@ == "week"@ || text@
                == "month"@ {
                text@
            } else {
                "day"@
            },
            _ => "day"@,
        },
        None => "day"@,
    }
}

pub fn normalize_validity_unit(v: Option<&JsonValue>) -> (r: String)
    ensures
        r@ == unit_of(fields::deref(v)),
{
    if let Some(j) = v {
        if let JsonData::Text { text } = &j.data {
            if text::same(text.as_str(), "week") {
                return "week".to_owned();
            }
            if text::same(text.as_str(), "month") {
                return "month".to_owned();
            }
        }
    }
    "day".to_owned()
}

/// What is read of each field of a plan.
pub struct PlanReading {
    pub name: Result<Seq<char>, Refusal>,
    pub description: Result<Option<Seq<char>>, Refusal>,
    pub price_cents: Result<i64, Refusal>,
    pub original_price_cents: Result<Option<i64>, Refusal>,
    pub validity_days: Result<i64, Refusal>,
    pub validity_unit: Result<Seq<char>, Refusal>,
    pub features: Result<Option<Seq<char>>, Refusal>,
    pub product_name: Result<Option<Seq<char>>, Refusal>,
    pub for_sale: Result<bool, Refusal>,
    pub sort_order: Result<i64, Refusal>,
}

/// The first field that makes a plan be refused, in the order in which they are read.
pub open spec fn plan_failure(r: PlanReading) -> Option<Refusal> {
    if r.name is Err {
        fields::failure(r.name)
    } else if r.description is Err {
        fields::failure(r.description)
    } else if r.price_cents is Err {
        fields::failure(r.price_cents)
    } else if r.original_price_cents is Err {
        fields::failure(r.original_price_cents)
    } else if r.validity_days is Err {
        fields::failure(r.validity_days)
    } else if r.validity_unit is Err {
        fields::failure(r.validity_unit)
    } else if r.features is Err {
        fields::failure(r.features)
    } else if r.product_name is Err {
        fields::failure(r.product_name)
    } else if r.for_sale is Err {
        fields::failure(r.for_sale)
    } else if r.sort_order is Err {
        fields::failure(r.sort_order)
    } else {
        None
    }
}

/// The plan holds what was read.
pub open spec fn write_holds(w: SubscriptionPlanWrite, r: PlanReading) -> bool {
    &&& r.name == Ok::<Seq<char>, Refusal>(w.name@)
    &&& r.description == Ok::<Option<Seq<char>>, Refusal>(db::opt_text(w.description))
    &&& r.price_cents == Ok::<i64, Refusal>(w.price_cents)
    &&& r.original_price_cents == Ok::<Option<i64>, Refusal>(w.original_price_cents)
    &&& r.validity_days == Ok::<i64, Refusal>(w.validity_days)
    &&& r.validity_unit == Ok::<Seq<char>, Refusal>(w.validity_unit@)
    &&& r.features == Ok::<Option<Seq<char>>, Refusal>(db::opt_text(w.features))
    &&& r.product_name == Ok::<Option<Seq<char>>, Refusal>(db::opt_text(w.product_name))
    &&& r.for_sale == Ok::<bool, Refusal>(w.for_sale)
    &&& r.sort_order == Ok::<i64, Refusal>(w.sort_order)
}

/// The fields of a new plan.
pub open spec fn created(o: Map<Seq<char>, JsonValue>) -> PlanReading {
    PlanReading {
        name: fields::limited(
            fields::required_text(fields::field(o, "name"@), "name 不能为空"@),
            100,
            "name 不能超过 100 个字符"@,
        ),
        description: fields::optional_text(
            fields::field(o, "description"@),
            "字段必须是字符串或 null"@,
        ),
        price_cents: fields::required_price(
            fields::field(o, "price"@),
            "price 必须是 0.01 ~ 99999999.99 之间的数值"@,
        ),
        original_price_cents: fields::optional_price(
            fields::field(o, "original_price"@),
            "original_price 必须是 0.01 ~ 99999999.99 之间的数值"@,
        ),
        validity_days: fields::or_int(
            fields::optional_integer(
                fields::field(o, "validity_days"@),
                1,
                "validity_days 必须是正整数"@,
            ),
            30,
        ),
        validity_unit: Ok(unit_of(fields::field(o, "validity_unit"@))),
        features: fields::document(
            fields::field(o, "features"@),
            false,
            "features 字段格式不正确"@,
        ),
        product_name: fields::optional_text(
            fields::field(o, "product_name"@),
            "字段必须是字符串或 null"@,
        ),
        for_sale: fields::or_flag(
            fields::optional_flag(fields::field(o, "for_sale"@), "字段必须是布尔值"@),
            false,
        ),
        sort_order: fields::or_int(
            fields::optional_integer(
                fields::field(o, "sort_order"@),
                0,
                "sort_order 必须是非负整数"@,
            ),
            0,
        ),
    }
}

/// The fields of a plan after a change: those that are given, and the others as they were.
pub open spec fn merged(existing: SubscriptionPlanRecord, o: Map<Seq<char>, JsonValue>) -> PlanReading {
    PlanReading {
        name: fields::kept(
            o,
            "name"@,
            fields::limited(
                fields::required_text(fields::field(o, "name"@), "name 不能为空"@),
                100,
                "name 不能超过 100 个字符"@,
            ),
            existing.name@,
        ),
        description: fields::kept(
            o,
            "description"@,
            fields::optional_text(fields::field(o, "description"@), "字段必须是字符串或 null"@),
            db::opt_text(existing.description),
        ),
        price_cents: fields::kept(
            o,
            "price"@,
            fields::required_price(
                fields::field(o, "price"@),
                "price 必须是 0.01 ~ 99999999.99 之间的数值"@,
            ),
            existing.price_cents,
        ),
        original_price_cents: fields::kept(
            o,
            "original_price"@,
            fields::optional_price(
                fields::field(o, "original_price"@),
                "original_price 必须是 0.01 ~ 99999999.99 之间的数值"@,
            ),
            existing.original_price_cents,
        ),
        validity_days: fields::kept(
            o,
            "validity_days"@,
            fields::or_int(
                fields::optional_integer(
                    fields::field(o, "validity_days"@),
                    1,
                    "validity_days 必须是正整数"@,
                ),
                existing.validity_days,
            ),
            existing.validity_days,
        ),
        validity_unit: fields::kept(
            o,
            "validity_unit"@,
            Ok(unit_of(fields::field(o, "validity_unit"@))),
            existing.validity_unit@,
        ),
        features: fields::kept(
            o,
            "features"@,
            fields::document(fields::field(o, "features"@), false, "features 字段格式不正确"@),
            db::opt_text(existing.features),
        ),
        product_name: fields::kept(
            o,
            "product_name"@,
            fields::optional_text(fields::field(o, "product_name"@), "字段必须是字符串或 null"@),
            db::opt_text(existing.product_name),
        ),
        for_sale: fields::kept(
            o,
            "for_sale"@,
            fields::given_flag(
                fields::optional_flag(fields::field(o, "for_sale"@), "字段必须是布尔值"@),
                "for_sale 必须是布尔值"@,
            ),
            existing.for_sale,
        ),
        sort_order: fields::kept(
            o,
            "sort_order"@,
            fields::or_int(
                fields::optional_integer(
                    fields::field(o, "sort_order"@),
                    0,
                    "sort_order 必须是非负整数"@,
                ),
                existing.sort_order,
            ),
            existing.sort_order,
        ),
    }
}

/// The fields of a request: none where it is no object.
pub open spec fn members_of(body: JsonValue) -> Map<Seq<char>, JsonValue> {
    match body.data {
        JsonData::Object { members } => members@,
        _ => Map::empty(),
    }
}

/// The group of a new plan, which must be given.
pub fn read_group_id(body: &JsonValue) -> (r: Result<i64, AppError>)
    requires
        body.wf(),
    ensures
        fields::plain_result(r) == fields::required_positive(
            fields::field(members_of(*body), "group_id"@),
            "缺少必填字段: group_id, price"@,
        ),
{
    let empty: TextMap<JsonValue> = TextMap::new();
    let object = match &body.data {
        JsonData::Object { members } => members,
        _ => &empty,
    };
    fields::required_positive_i64(
        fields::get_field(object, "group_id"),
        "缺少必填字段: group_id, price",
    )
}

/// The group of a plan after a change, which must not be taken from it.
pub open spec fn group_after(existing: Option<i64>, o: Map<Seq<char>, JsonValue>) -> Result<
    i64,
    Refusal,
> {
    match fields::kept(
        o,
        "group_id"@,
        fields::optional_integer(
            fields::field(o, "group_id"@),
            1,
            "必须关联一个 Platform 分组"@,
        ),
        existing,
    ) {
        Ok(Some(id)) => Ok(id),
        Ok(None) => fields::refused("必须关联一个 Platform 分组"@),
        Err(e) => Err(e),
    }
}

pub fn resolve_group_id(existing: Option<i64>, body: &JsonValue) -> (r: Result<i64, AppError>)
    requires
        body.wf(),
    ensures
        fields::plain_result(r) == group_after(existing, members_of(*body)),
{
    let empty: TextMap<JsonValue> = TextMap::new();
    let object = match &body.data {
        JsonData::Object { members } => members,
        _ => &empty,
    };
    let given = fields::get_field(object, "group_id");
    let found: Option<i64> = if given.is_some() {
        match fields::optional_i64_at_least(given, 1, "必须关联一个 Platform 分组") {
            Ok(v) => v,
            Err(e) => {
                return Err(e);
            },
        }
    } else {
        existing
    };
    match found {
        Some(id) => Ok(id),
        None => Err(AppError::bad_request("必须关联一个 Platform 分组")),
    }
}

/// Reads a new plan of a group.
pub fn parse_create_body(body: &JsonValue, group_id: i64) -> (r: Result<
    SubscriptionPlanWrite,
    AppError,
>)
    requires
        body.wf(),
    ensures
        error::refusal_of(r) == plan_failure(created(members_of(*body))),
        r matches Ok(w) ==> w.group_id == Some(group_id) && write_holds(
            w,
            created(members_of(*body)),
        ),
{
    let empty: TextMap<JsonValue> = TextMap::new();
    let object = match &body.data {
        JsonData::Object { members } => members,
        _ => &empty,
    };
    let name: String = match fields::limit_length(
        fields::required_non_empty_string(fields::get_field(object, "name"), "name 不能为空"),
        100,
        "name 不能超过 100 个字符",
    ) {
        Ok(v) => v,
        Err(e) => {
            return Err(e);
        },
    };
    let description: Option<String> = match fields::optional_trimmed_string(
        fields::get_field(object, "description"),
        "字段必须是字符串或 null",
    ) {
        Ok(v) => v,
        Err(e) => {
            return Err(e);
        },
    };
    let price_cents: i64 = match fields::required_price_cents(
        fields::get_field(object, "price"),
        "price 必须是 0.01 ~ 99999999.99 之间的数值",
    ) {
        Ok(v) => v,
        Err(e) => {
            return Err(e);
        },
    };
    let original_price_cents: Option<i64> = match fields::optional_price_cents(
        fields::get_field(object, "original_price"),
        "original_price 必须是 0.01 ~ 99999999.99 之间的数值",
    ) {
        Ok(v) => v,
        Err(e) => {
            return Err(e);
        },
    };
    let validity_days: i64 = match fields::int_or(
        fields::optional_i64_at_least(
            fields::get_field(object, "validity_days"),
            1,
            "validity_days 必须是正整数",
        ),
        30,
    ) {
        Ok(v) => v,
        Err(e) => {
            return Err(e);
        },
    };
    let validity_unit = normalize_validity_unit(fields::get_field(object, "validity_unit"));
    let features: Option<String> = match fields::normalize_document(
        fields::get_field(object, "features"),
        false,
        "features 字段格式不正确",
    ) {
        Ok(v) => v,
        Err(e) => {
            return Err(e);
        },
    };
    let product_name: Option<String> = match fields::optional_trimmed_string(
        fields::get_field(object, "product_name"),
        "字段必须是字符串或 null",
    ) {
        Ok(v) => v,
        Err(e) => {
            return Err(e);
        },
    };
    let for_sale: bool = match fields::flag_or(
        fields::optional_bool(fields::get_field(object, "for_sale"), "字段必须是布尔值"),
        false,
    ) {
        Ok(v) => v,
        Err(e) => {
            return Err(e);
        },
    };
    let sort_order: i64 = match fields::int_or(
        fields::optional_i64_at_least(
            fields::get_field(object, "sort_order"),
            0,
            "sort_order 必须是非负整数",
        ),
        0,
    ) {
        Ok(v) => v,
        Err(e) => {
            return Err(e);
        },
    };
    Ok(
        SubscriptionPlanWrite {
            group_id: Some(group_id),
            name,
            description,
            price_cents,
            original_price_cents,
            validity_days,
            validity_unit,
            features,
            product_name,
            for_sale,
            sort_order,
        },
    )
}

/// Reads a change of a plan.
pub fn merge_update_body(existing: SubscriptionPlanRecord, body: &JsonValue, group_id: i64) -> (r:
    Result<SubscriptionPlanWrite, AppError>)
    requires
        body.wf(),
    ensures
        error::refusal_of(r) == plan_failure(merged(existing, members_of(*body))),
        r matches Ok(w) ==> w.group_id == Some(group_id) && write_holds(
            w,
            merged(existing, members_of(*body)),
        ),
{
    let empty: TextMap<JsonValue> = TextMap::new();
    let object = match &body.data {
        JsonData::Object { members } => members,
        _ => &empty,
    };
    let name: String = if fields::get_field(object, "name").is_some() {
        match fields::limit_length(
            fields::required_non_empty_string(fields::get_field(object, "name"), "name 不能为空"),
            100,
            "name 不能超过 100 个字符",
        ) {
            Ok(v) => v,
            Err(e) => {
                return Err(e);
            },
        }
    } else {
        existing.name
    };
    let description: Option<String> = if fields::get_field(object, "description").is_some() {
        match fields::optional_trimmed_string(
            fields::get_field(object, "description"),
            "字段必须是字符串或 null",
        ) {
            Ok(v) => v,
            Err(e) => {
                return Err(e);
            },
        }
    } else {
        existing.description
    };
    let price_cents: i64 = if fields::get_field(object, "price").is_some() {
        match fields::required_price_cents(
            fields::get_field(object, "price"),
            "price 必须是 0.01 ~ 99999999.99 之间的数值",
        ) {
            Ok(v) => v,
            Err(e) => {
                return Err(e);
            },
        }
    } else {
        existing.price_cents
    };
    let original_price_cents: Option<i64> = if fields::get_field(
        object,
        "original_price",
    ).is_some() {
        match fields::optional_price_cents(
            fields::get_field(object, "original_price"),
            "original_price 必须是 0.01 ~ 99999999.99 之间的数值",
        ) {
            Ok(v) => v,
            Err(e) => {
                return Err(e);
            },
        }
    } else {
        existing.original_price_cents
    };
    let validity_days: i64 = if fields::get_field(object, "validity_days").is_some() {
        match fields::int_or(
            fields::optional_i64_at_least(
                fields::get_field(object, "validity_days"),
                1,
                "validity_days 必须是正整数",
            ),
            existing.validity_days,
        ) {
            Ok(v) => v,
            Err(e) => {
                return Err(e);
            },
        }
    } else {
        existing.validity_days
    };
    let validity_unit = if fields::get_field(object, "validity_unit").is_some() {
        normalize_validity_unit(fields::get_field(object, "validity_unit"))
    } else {
        existing.validity_unit
    };
    let features: Option<String> = if fields::get_field(object, "features").is_some() {
        match fields::normalize_document(
            fields::get_field(object, "features"),
            false,
            "features 字段格式不正确",
        ) {
            Ok(v) => v,
            Err(e) => {
                return Err(e);
            },
        }
    } else {
        existing.features
    };
    let product_name: Option<String> = if fields::get_field(object, "product_name").is_some() {
        match fields::optional_trimmed_string(
            fields::get_field(object, "product_name"),
            "字段必须是字符串或 null",
        ) {
            Ok(v) => v,
            Err(e) => {
                return Err(e);
            },
        }
    } else {
        existing.product_name
    };
    let for_sale: bool = if fields::get_field(object, "for_sale").is_some() {
        match fields::require_flag(
            fields::optional_bool(fields::get_field(object, "for_sale"), "字段必须是布尔值"),
            "for_sale 必须是布尔值",
        ) {
            Ok(v) => v,
            Err(e) => {
                return Err(e);
            },
        }
    } else {
        existing.for_sale
    };
    let sort_order: i64 = if fields::get_field(object, "sort_order").is_some() {
        match fields::int_or(
            fields::optional_i64_at_least(
                fields::get_field(object, "sort_order"),
                0,
                "sort_order 必须是非负整数",
            ),
            existing.sort_order,
        ) {
            Ok(v) => v,
            Err(e) => {
                return Err(e);
            },
        }
    } else {
        existing.sort_order
    };
    Ok(
        SubscriptionPlanWrite {
            group_id: Some(group_id),
            name,
            description,
            price_cents,
            original_price_cents,
            validity_days,
            validity_unit,
            features,
            product_name,
            for_sale,
            sort_order,
        },
    )
}

/// A plan whose group is gone: it has none, and is not for sale.
pub open spec fn unbound(w: SubscriptionPlanWrite, existing: SubscriptionPlanRecord) -> bool {
    &&& w.group_id is None
    &&& w.name@ == existing.name@
    &&& db::opt_text(w.description) == db::opt_text(existing.description)
    &&& w.price_cents == existing.price_cents
    &&& w.original_price_cents == existing.original_price_cents
    &&& w.validity_days == existing.validity_days
    &&& w.validity_unit@ == existing.validity_unit@
    &&& db::opt_text(w.features) == db::opt_text(existing.features)
    &&& db::opt_text(w.product_name) == db::opt_text(existing.product_name)
    &&& !w.for_sale
    &&& w.sort_order == existing.sort_order
}

pub fn unbind_plan(existing: &SubscriptionPlanRecord) -> (r: SubscriptionPlanWrite)
    ensures
        unbound(r, *existing),
{
    SubscriptionPlanWrite {
        group_id: None,
        name: existing.name.clone(),
        description: db::copy_opt(&existing.description),
        price_cents: existing.price_cents,
        original_price_cents: existing.original_price_cents,
        validity_days: existing.validity_days,
        validity_unit: existing.validity_unit.clone(),
        features: db::copy_opt(&existing.features),
        product_name: db::copy_opt(&existing.product_name),
        for_sale: false,
        sort_order: existing.sort_order,
    }
}

/// What is said when the group of a plan is gone.
pub open spec fn group_gone() -> Refusal {
    (
        ErrorKind::Conflict,
        "该分组在 Platform 中已被删除，已自动解绑，请重新选择分组"@,
    )
}

pub fn group_gone_error() -> (r: AppError)
    ensures
        r@ == group_gone(),
{
    AppError::conflict("该分组在 Platform 中已被删除，已自动解绑，请重新选择分组")
}

/// The group of a plan, which the platform must know.
pub fn require_group(answer: Result<Option<Sub2ApiGroup>, String>) -> (r: Result<
    Sub2ApiGroup,
    AppError,
>)
    ensures
        match answer {
            Ok(Some(g)) => r == Ok::<Sub2ApiGroup, AppError>(g),
            Ok(None) => r matches Err(e) && e@ == group_gone(),
            Err(why) => r matches Err(e) && e@ == (ErrorKind::Internal, why@),
        },
{
    match answer {
        Ok(Some(g)) => Ok(g),
        Ok(None) => Err(group_gone_error()),
        Err(why) => Err(AppError::internal(why.as_str())),
    }
}

/// What comes of a change of a plan, once its group was asked for: where the group is not
/// found, the plan is taken off sale and out of the group, and the change refused.
pub enum PlanUpdate {
    Replace { write: SubscriptionPlanWrite },
    Unbind { unbound: SubscriptionPlanWrite, refusal: AppError },
    Refuse { why: AppError },
}

pub open spec fn update_is(
    r: PlanUpdate,
    existing: SubscriptionPlanRecord,
    o: Map<Seq<char>, JsonValue>,
    group_id: i64,
    group_found: bool,
) -> bool {
    if !group_found {
        r matches PlanUpdate::Unbind { unbound: w, refusal } && unbound(w, existing) && refusal@
            == group_gone()
    } else {
        match plan_failure(merged(existing, o)) {
            Some(e) => r matches PlanUpdate::Refuse { why } && why@ == e,
            None => r matches PlanUpdate::Replace { write } && write.group_id == Some(group_id)
                && write_holds(write, merged(existing, o)),
        }
    }
}

pub fn decide_update(
    existing: SubscriptionPlanRecord,
    body: &JsonValue,
    group_id: i64,
    group_found: bool,
) -> (r: PlanUpdate)
    requires
        body.wf(),
    ensures
        update_is(r, existing, members_of(*body), group_id, group_found),
{
    if !group_found {
        return PlanUpdate::Unbind {
            unbound: unbind_plan(&existing),
            refusal: group_gone_error(),
        };
    }
    match merge_update_body(existing, body, group_id) {
        Ok(write) => PlanUpdate::Replace { write },
        Err(why) => PlanUpdate::Refuse { why },
    }
}

/// Why a plan cannot be deleted, if it cannot: orders for it are under way.
pub open spec fn delete_refusal(active_count: i64) -> Option<Refusal> {
    if active_count > 0 {
        Some(
            (
                ErrorKind::Conflict,
                "该套餐仍有 "@ + text::decimal(active_count as int)
                    + " 个活跃订单，无法删除"@,
            ),
        )
    } else {
        None
    }
}

pub fn check_delete(active_count: i64) -> (r: Result<(), AppError>)
    ensures
        error::refusal_of(r) == delete_refusal(active_count),
{
    if active_count > 0 {
        let message = text::cat3(
            "该套餐仍有 ",
            text::i64_text(active_count).as_str(),
            " 个活跃订单，无法删除",
        );
        return Err(AppError::conflict(message.as_str()));
    }
    Ok(())
}

/// A plan that must be there.
pub fn require_plan(found: Option<SubscriptionPlanRecord>) -> (r: Result<
    SubscriptionPlanRecord,
    AppError,
>)
    ensures
        match found {
            Some(p) => r == Ok::<SubscriptionPlanRecord, AppError>(p),
            None => r matches Err(e) && e@ == (ErrorKind::NotFound, "订阅套餐不存在"@),
        },
{
    match found {
        Some(p) => Ok(p),
        None => Err(AppError::not_found("订阅套餐不存在")),
    }
}

/// A plan as it is shown, with its group where that was found. Prices are in cents.
#[derive(Debug)]
pub struct AdminPlanView {
    pub id: String,
    pub group_id: Option<String>,
    pub group_name: Option<String>,
    pub name: String,
    pub description: Option<String>,
    pub price_cents: i64,
    pub original_price_cents: Option<i64>,
    pub valid_days: i64,
    pub validity_unit: String,
    pub features: Vec<String>,
    pub sort_order: i64,
    pub enabled: bool,
    pub group_exists: bool,
    pub group_platform: Option<String>,
    pub group_rate_multiplier: Option<Float64>,
    pub group_daily_limit: Option<Float64>,
    pub group_weekly_limit: Option<Float64>,
    pub group_monthly_limit: Option<Float64>,
    pub group_model_scopes: Option<Vec<String>>,
    pub group_allow_messages_dispatch: bool,
    pub group_default_mapped_model: Option<String>,
    pub product_name: Option<String>,
    pub created_at: String,
    pub updated_at: String,
}

/// A name that is not empty.
pub open spec fn shown_name(name: Seq<char>) -> Option<Seq<char>> {
    if name.len() == 0 {
        None
    } else {
        Some(name)
    }
}

/// What a plan is shown as: without its group it has none, and is not on sale.
pub open spec fn plan_shown(
    v: AdminPlanView,
    plan: SubscriptionPlanRecord,
    group: Option<Sub2ApiGroup>,
) -> bool {
    &&& v.id == plan.id
    &&& v.name == plan.name
    &&& v.description == plan.description
    &&& v.price_cents == plan.price_cents
    &&& v.original_price_cents == plan.original_price_cents
    &&& v.valid_days == plan.validity_days
    &&& v.validity_unit == plan.validity_unit
    &&& text::texts(v.features@) == json::listed(db::opt_text(plan.features))
    &&& v.sort_order == plan.sort_order
    &&& v.product_name == plan.product_name
    &&& v.created_at@ == clock::shown_time(plan.created_at)
    &&& v.updated_at@ == clock::shown_time(plan.updated_at)
    &&& v.group_exists == group is Some
    &&& match group {
        Some(g) => {
            &&& db::opt_text(v.group_id) == match plan.group_id {
                Some(id) => Some(text::decimal(id as int)),
                None => None,
            }
            &&& db::opt_text(v.group_name) == shown_name(g.name@)
            &&& v.enabled == plan.for_sale
            &&& v.group_platform == g.platform
            &&& v.group_rate_multiplier == g.rate_multiplier
            &&& v.group_daily_limit == g.daily_limit_usd
            &&& v.group_weekly_limit == g.weekly_limit_usd
            &&& v.group_monthly_limit == g.monthly_limit_usd
            &&& v.group_model_scopes == g.supported_model_scopes
            &&& v.group_allow_messages_dispatch == g.allow_messages_dispatch
            &&& v.group_default_mapped_model == g.default_mapped_model
        },
        None => {
            &&& v.group_id is None
            &&& v.group_name is None
            &&& !v.enabled
            &&& v.group_platform is None
            &&& v.group_rate_multiplier is None
            &&& v.group_daily_limit is None
            &&& v.group_weekly_limit is None
            &&& v.group_monthly_limit is None
            &&& v.group_model_scopes is None
            &&& !v.group_allow_messages_dispatch
            &&& v.group_default_mapped_model is None
        },
    }
}

pub fn filled_name(name: String) -> (r: Option<String>)
    ensures
        db::opt_text(r) == shown_name(name@),
{
    if name.as_str().is_empty() {
        None
    } else {
        Some(name)
    }
}

pub fn to_admin_plan_view(plan: SubscriptionPlanRecord, group: Option<Sub2ApiGroup>) -> (r:
    AdminPlanView)
    ensures
        plan_shown(r, plan, group),
{
    let features = json::parse_string_array(db::as_deref(&plan.features));
    let created_at = clock::timestamp_to_rfc3339(plan.created_at);
    let updated_at = clock::timestamp_to_rfc3339(plan.updated_at);
    match group {
        Some(g) => AdminPlanView {
            id: plan.id,
            group_id: match plan.group_id {
                Some(id) => Some(text::i64_text(id)),
                None => None,
            },
            group_name: filled_name(g.name),
            name: plan.name,
            description: plan.description,
            price_cents: plan.price_cents,
            original_price_cents: plan.original_price_cents,
            valid_days: plan.validity_days,
            validity_unit: plan.validity_unit,
            features,
            sort_order: plan.sort_order,
            enabled: plan.for_sale,
            group_exists: true,
            group_platform: g.platform,
            group_rate_multiplier: g.rate_multiplier,
            group_daily_limit: g.daily_limit_usd,
            group_weekly_limit: g.weekly_limit_usd,
            group_monthly_limit: g.monthly_limit_usd,
            group_model_scopes: g.supported_model_scopes,
            group_allow_messages_dispatch: g.allow_messages_dispatch,
            group_default_mapped_model: g.default_mapped_model,
            product_name: plan.product_name,
            created_at,
            updated_at,
        },
        None => AdminPlanView {
            id: plan.id,
            group_id: None,
            group_name: None,
            name: plan.name,
            description: plan.description,
            price_cents: plan.price_cents,
            original_price_cents: plan.original_price_cents,
            valid_days: plan.validity_days,
            validity_unit: plan.validity_unit,
            features,
            sort_order: plan.sort_order,
            enabled: false,
            group_exists: false,
            group_platform: None,
            group_rate_multiplier: None,
            group_daily_limit: None,
            group_weekly_limit: None,
            group_monthly_limit: None,
            group_model_scopes: None,
            group_allow_messages_dispatch: false,
            group_default_mapped_model: None,
            product_name: plan.product_name,
            created_at,
            updated_at,
        },
    }
}

/// A change that gives nothing but leaves the plan in its group changes nothing.
pub proof fn law_empty_change_keeps_the_plan(
    existing: SubscriptionPlanRecord,
    w: SubscriptionPlanWrite,
)
    requires
        existing.group_id is Some,
        w.group_id == Some(group_after(existing.group_id, Map::empty())->Ok_0),
    ensures
        group_after(existing.group_id, Map::empty()) is Ok,
        plan_failure(merged(existing, Map::empty())) is None,
        write_holds(w, merged(existing, Map::empty())) ==> crate::subscription_plan::plan_holds(
            existing,
            w,
        ),
{
}

/// A plan that is written new, or changed in its length and its unit, lasts a positive number
/// of days, weeks or months.
pub proof fn law_written_plans_have_a_length(
    existing: SubscriptionPlanRecord,
    o: Map<Seq<char>, JsonValue>,
    w: SubscriptionPlanWrite,
)
    requires
        write_holds(w, created(o)) || (write_holds(w, merged(existing, o))
            && o.dom().contains("validity_unit"@) && o.dom().contains("validity_days"@)
            && existing.validity_days > 0),
    ensures
        w.validity_days > 0,
        w.validity_unit@ == "day"@ || w.validity_unit@ == "week"@ || w.validity_unit@ == "month"@,
{
}

/// A plan is created as the body says: it must have a name and a price, lasts thirty days
/// unless the body says how long, is counted in days unless it says otherwise, and is not for
/// sale unless it says so.
pub proof fn law_plans_are_created_as_written(
    w: SubscriptionPlanWrite,
    o: Map<Seq<char>, JsonValue>,
)
    requires
        write_holds(w, created(o)),
    ensures
        o.dom().contains("name"@) && (o["name"@].data matches JsonData::Text { text } && w.name@
            == text::trimmed(text@)) && w.name@.len() > 0 && fields::byte_length(w.name@) <= 100,
        o.dom().contains("price"@) && (o["price"@].data matches JsonData::Number { number }
            && number.price_cents == Some(w.price_cents)),
        !o.dom().contains("original_price"@) ==> w.original_price_cents is None,
        o.dom().contains("original_price"@) && !(o["original_price"@].data is Null) ==> (
        o["original_price"@].data matches JsonData::Number { number } && number.price_cents
            == w.original_price_cents && w.original_price_cents is Some),
        !o.dom().contains("validity_days"@) ==> w.validity_days == 30,
        o.dom().contains("validity_days"@) && !(o["validity_days"@].data is Null) ==> (
        o["validity_days"@].data matches JsonData::Number { number } && number.integer == Some(
            w.validity_days,
        )),
        w.validity_days >= 1,
        w.validity_unit@ == "day"@ || w.validity_unit@ == "week"@ || w.validity_unit@ == "month"@,
        !o.dom().contains("validity_unit"@) ==> w.validity_unit@ == "day"@,
        o.dom().contains("validity_unit"@) ==> (o["validity_unit"@].data matches JsonData::Text {
            text,
        } ==> (text@ == "week"@ || text@ == "month"@) ==> w.validity_unit@ == text@),
        !o.dom().contains("for_sale"@) ==> !w.for_sale,
        o.dom().contains("for_sale"@) && o["for_sale"@].data is Flag ==> w.for_sale
            == o["for_sale"@].data->flag,
        !o.dom().contains("sort_order"@) ==> w.sort_order == 0,
        w.sort_order >= 0,
{
}

/// A plan keeps what a change of it does not name, and has what the change names as the change
/// has it; where its group is gone it is bound to none and no longer for sale, and keeps
/// everything else.
pub proof fn law_plans_keep_what_is_not_named(
    r: PlanUpdate,
    existing: SubscriptionPlanRecord,
    o: Map<Seq<char>, JsonValue>,
    group_id: i64,
    group_found: bool,
)
    requires
        update_is(r, existing, o, group_id, group_found),
    ensures
        r is Unbind <==> !group_found,
        r matches PlanUpdate::Unbind { unbound: w, refusal } ==> {
            &&& w.group_id is None && !w.for_sale
            &&& w.name@ == existing.name@ && w.price_cents == existing.price_cents
            &&& w.original_price_cents == existing.original_price_cents
            &&& w.validity_days == existing.validity_days
            &&& w.validity_unit@ == existing.validity_unit@
            &&& w.sort_order == existing.sort_order
            &&& refusal@.0 == ErrorKind::Conflict
        },
        r matches PlanUpdate::Replace { write: w } ==> {
            &&& w.group_id == Some(group_id)
            &&& !o.dom().contains("name"@) ==> w.name@ == existing.name@
            &&& !o.dom().contains("price"@) ==> w.price_cents == existing.price_cents
            &&& o.dom().contains("price"@) ==> (o["price"@].data matches JsonData::Number {
                number,
            } && number.price_cents == Some(w.price_cents))
            &&& !o.dom().contains("original_price"@) ==> w.original_price_cents
                == existing.original_price_cents
            &&& o.dom().contains("original_price"@) && o["original_price"@].data is Null
                ==> w.original_price_cents is None
            &&& !o.dom().contains("validity_days"@) ==> w.validity_days == existing.validity_days
            &&& o.dom().contains("validity_days"@) && o["validity_days"@].data is Number
                ==> o["validity_days"@].data->number.integer == Some(w.validity_days)
                && w.validity_days >= 1
            &&& !o.dom().contains("validity_unit"@) ==> w.validity_unit@
                == existing.validity_unit@
            &&& !o.dom().contains("for_sale"@) ==> w.for_sale == existing.for_sale
            &&& o.dom().contains("for_sale"@) ==> (o["for_sale"@].data matches JsonData::Flag {
                flag,
            } && w.for_sale == flag)
            &&& !o.dom().contains("sort_order"@) ==> w.sort_order == existing.sort_order
            &&& !o.dom().contains("features"@) ==> db::opt_text(w.features) == db::opt_text(
                existing.features,
            )
            &&& !o.dom().contains("product_name"@) ==> db::opt_text(w.product_name)
                == db::opt_text(existing.product_name)
            &&& !o.dom().contains("description"@) ==> db::opt_text(w.description) == db::opt_text(
                existing.description,
            )
        },
{
}

/// A plan can be deleted exactly where no order of it is under way, must be bound to a group,
/// and is shown as it is, for sale only where its group is there.
pub proof fn law_plans_are_shown_as_they_are(
    v: AdminPlanView,
    plan: SubscriptionPlanRecord,
    group: Option<Sub2ApiGroup>,
    active_count: i64,
)
    requires
        plan_shown(v, plan, group),
    ensures
        delete_refusal(active_count) is None <==> active_count <= 0,
        v.id == plan.id && v.name == plan.name,
        v.price_cents == plan.price_cents,
        v.original_price_cents == plan.original_price_cents,
        v.valid_days == plan.validity_days && v.validity_unit == plan.validity_unit,
        v.sort_order == plan.sort_order,
        v.enabled <==> plan.for_sale && group is Some,
        v.group_exists <==> group is Some,
        group matches Some(g) ==> v.group_rate_multiplier == g.rate_multiplier
            && v.group_daily_limit == g.daily_limit_usd && v.group_weekly_limit
            == g.weekly_limit_usd && v.group_monthly_limit == g.monthly_limit_usd,
{
}

/// A plan that is changed is bound to the group that the change names, or stays bound to its
/// own, and must be bound to one.
pub proof fn law_changed_plans_are_bound(existing: Option<i64>, o: Map<Seq<char>, JsonValue>)
    ensures
        !o.dom().contains("group_id"@) && existing is Some ==> group_after(existing, o) == Ok::<
            i64,
            Refusal,
        >(existing->0),
        !o.dom().contains("group_id"@) && existing is None ==> group_after(existing, o) is Err,
        o.dom().contains("group_id"@) && group_after(existing, o) is Ok ==> (
        o["group_id"@].data matches JsonData::Number { number } && number.integer == Some(
            group_after(existing, o)->Ok_0,
        ) && number.integer->0 >= 1),
{
}

/// What is written of a plan is what its body says, under the group given.
pub proof fn law_plans_are_written_from_their_body(
    body: JsonValue,
    group_id: i64,
    new: Result<SubscriptionPlanWrite, AppError>,
    o: Map<Seq<char>, JsonValue>,
)
    requires
        body.data matches JsonData::Object { members } && members@ == o,
        call_ensures(parse_create_body, (&body, group_id), new),
    ensures
        new matches Ok(w) ==> write_holds(w, created(o)) && w.group_id == Some(group_id),
        !o.dom().contains("name"@) ==> new is Err,
        !o.dom().contains("price"@) ==> new is Err,
{
}

/// A plan is shown with its texts and its times, and with what its group says where it is
/// there.
pub proof fn law_plans_are_shown_with_their_group(
    v: AdminPlanView,
    plan: SubscriptionPlanRecord,
    group: Option<Sub2ApiGroup>,
)
    requires
        plan_shown(v, plan, group),
    ensures
        v.created_at@ == clock::shown_time(plan.created_at),
        v.updated_at@ == clock::shown_time(plan.updated_at),
        v.description == plan.description && v.product_name == plan.product_name,
        text::texts(v.features@) == json::listed(db::opt_text(plan.features)),
        group matches Some(g) ==> {
            &&& v.group_platform == g.platform
            &&& v.group_model_scopes == g.supported_model_scopes
            &&& v.group_allow_messages_dispatch == g.allow_messages_dispatch
            &&& v.group_default_mapped_model == g.default_mapped_model
            &&& plan.group_id matches Some(id) ==> (v.group_id matches Some(s) && s@
                == text::decimal(id as int))
            &&& g.name@.len() > 0 ==> (v.group_name matches Some(n) && n@ == g.name@)
        },
        group is None ==> v.group_id is None && v.group_name is None && v.group_platform is None
            && v.group_rate_multiplier is None && v.group_daily_limit is None
            && v.group_weekly_limit is None && v.group_monthly_limit is None,
{
}

/// A body is refused for the first of its faults, and for none exactly where it has none.
pub proof fn law_first_fault_of_a_plan_is_told(r: PlanReading)
    ensures
        plan_failure(r) is None <==> r.name is Ok && r.description is Ok && r.price_cents is Ok
            && r.original_price_cents is Ok && r.validity_days is Ok && r.validity_unit is Ok
            && r.features is Ok && r.product_name is Ok && r.for_sale is Ok && r.sort_order is Ok,
        r.name matches Err(e) ==> plan_failure(r) == Some(e),
        r.name is Ok && r.description is Ok ==> (r.price_cents matches Err(e) ==> plan_failure(r)
            == Some(e)),
        r.name is Ok && r.description is Ok && r.price_cents is Ok && r.original_price_cents is Ok
            ==> (r.validity_days matches Err(e) ==> plan_failure(r) == Some(e)),
{
}


/// A plan that is changed has what the change names as the change has it.
pub proof fn law_plans_have_what_is_named(
    w: SubscriptionPlanWrite,
    existing: SubscriptionPlanRecord,
    o: Map<Seq<char>, JsonValue>,
)
    requires
        write_holds(w, merged(existing, o)),
    ensures
        o.dom().contains("name"@) ==> (o["name"@].data matches JsonData::Text { text } && w.name@
            == text::trimmed(text@)) && 0 < w.name@.len() && fields::byte_length(w.name@) <= 100,
        o.dom().contains("sort_order"@) && o["sort_order"@].data is Number
            ==> o["sort_order"@].data->number.integer == Some(w.sort_order) && w.sort_order >= 0,
        o.dom().contains("original_price"@) && o["original_price"@].data is Number
            ==> o["original_price"@].data->number.price_cents == w.original_price_cents,
        o.dom().contains("validity_unit"@) && o["validity_unit"@].data is Text && (
        o["validity_unit"@].data->text@ == "week"@ || o["validity_unit"@].data->text@
            == "month"@) ==> w.validity_unit@ == o["validity_unit"@].data->text@,
        o.dom().contains("product_name"@) && o["product_name"@].data is Text && text::trimmed(
            o["product_name"@].data->text@,
        ).len() > 0 ==> db::opt_text(w.product_name) == Some(
            text::trimmed(o["product_name"@].data->text@),
        ),
        o.dom().contains("description"@) && o["description"@].data is Null
            ==> w.description is None,
        o.dom().contains("features"@) ==> !(o["features"@].data is Object),
        o.dom().contains("features"@) && o["features"@].data is List ==> db::opt_text(w.features)
            == Some(o["features"@].shown@),
{
}

}
