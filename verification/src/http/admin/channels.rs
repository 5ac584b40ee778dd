//! Channels, as administrators see and change them.
use vstd::prelude::*;

use crate::channel::{ChannelRecord, ChannelWrite};
use crate::clock;
use crate::db;
use crate::error;
use crate::error::{AppError, ErrorKind, Refusal};
use crate::http::fields;
use crate::json::{JsonData, JsonValue};
use crate::text;

verus! {

/// What is read of each field of a channel.
pub struct ChannelReading {
    pub group_id: Result<Option<i64>, Refusal>,
    pub name: Result<Seq<char>, Refusal>,
    pub platform: Result<Seq<char>, Refusal>,
    pub rate_multiplier_bps: Result<i64, Refusal>,
    pub description: Result<Option<Seq<char>>, Refusal>,
    pub models: Result<Option<Seq<char>>, Refusal>,
    pub features: Result<Option<Seq<char>>, Refusal>,
    pub sort_order: Result<i64, Refusal>,
    pub enabled: Result<bool, Refusal>,
}

/// The first field that makes a new channel be refused, in the order in which they are read.
pub open spec fn create_failure(r: ChannelReading) -> Option<Refusal> {
    if r.name is Err {
        fields::failure(r.name)
    } else if r.platform is Err {
        fields::failure(r.platform)
    } else if r.rate_multiplier_bps is Err {
        fields::failure(r.rate_multiplier_bps)
    } else if r.sort_order is Err {
        fields::failure(r.sort_order)
    } else if r.group_id is Err {
        fields::failure(r.group_id)
    } else if r.description is Err {
        fields::failure(r.description)
    } else if r.models is Err {
        fields::failure(r.models)
    } else if r.features is Err {
        fields::failure(r.features)
    } else if r.enabled is Err {
        fields::failure(r.enabled)
    } else {
        None
    }
}

/// The first field that makes a change of a channel be refused.
pub open spec fn update_failure(r: ChannelReading) -> Option<Refusal> {
    if r.group_id is Err {
        fields::failure(r.group_id)
    } else if r.name is Err {
        fields::failure(r.name)
    } else if r.platform is Err {
        fields::failure(r.platform)
    } else if r.rate_multiplier_bps is Err {
        fields::failure(r.rate_multiplier_bps)
    } else if r.description is Err {
        fields::failure(r.description)
    } else if r.models is Err {
        fields::failure(r.models)
    } else if r.features is Err {
        fields::failure(r.features)
    } else if r.sort_order is Err {
        fields::failure(r.sort_order)
    } else if r.enabled is Err {
        fields::failure(r.enabled)
    } else {
        None
    }
}

/// The channel holds what was read.
pub open spec fn write_holds(w: ChannelWrite, r: ChannelReading) -> bool {
    &&& r.group_id == Ok::<Option<i64>, Refusal>(w.group_id)
    &&& r.name == Ok::<Seq<char>, Refusal>(w.name@)
    &&& r.platform == Ok::<Seq<char>, Refusal>(w.platform@)
    &&& r.rate_multiplier_bps == Ok::<i64, Refusal>(w.rate_multiplier_bps)
    &&& r.description == Ok::<Option<Seq<char>>, Refusal>(db::opt_text(w.description))
    &&& r.models == Ok::<Option<Seq<char>>, Refusal>(db::opt_text(w.models))
    &&& r.features == Ok::<Option<Seq<char>>, Refusal>(db::opt_text(w.features))
    &&& r.sort_order == Ok::<i64, Refusal>(w.sort_order)
    &&& r.enabled == Ok::<bool, Refusal>(w.enabled)
}

/// The fields of a new channel.
pub open spec fn created(o: Map<Seq<char>, JsonValue>) -> ChannelReading {
    ChannelReading {
        group_id: fields::optional_integer(
            fields::field(o, "group_id"@),
            1,
            "group_id 必须是正整数或 null"@,
        ),
        name: fields::required_text(fields::field(o, "name"@), "name 必须非空"@),
        platform: fields::required_text(fields::field(o, "platform"@), "platform 必须非空"@),
        rate_multiplier_bps: fields::required_rate(
            fields::field(o, "rate_multiplier"@),
            "rate_multiplier 必须是正数"@,
        ),
        description: fields::optional_text(
            fields::field(o, "description"@),
            "字段必须是字符串或 null"@,
        ),
        models: fields::document(fields::field(o, "models"@), true, "字段格式不正确"@),
        features: fields::document(fields::field(o, "features"@), true, "字段格式不正确"@),
        sort_order: fields::or_int(
            fields::optional_integer(
                fields::field(o, "sort_order"@),
                0,
                "sort_order 必须是非负整数"@,
            ),
            0,
        ),
        enabled: fields::or_flag(
            fields::optional_flag(fields::field(o, "enabled"@), "enabled 必须是布尔值"@),
            true,
        ),
    }
}

/// The fields of a channel after a change: those that are given, and the others as they were.
pub open spec fn merged(existing: ChannelRecord, o: Map<Seq<char>, JsonValue>) -> ChannelReading {
    ChannelReading {
        group_id: fields::kept(
            o,
            "group_id"@,
            fields::optional_integer(
                fields::field(o, "group_id"@),
                1,
                "group_id 必须是正整数或 null"@,
            ),
            existing.group_id,
        ),
        name: fields::kept(
            o,
            "name"@,
            fields::limited(
                fields::required_text(fields::field(o, "name"@), "name 不能为空"@),
                100,
                "name 不能超过 100 个字符"@,
            ),
            existing.name@,
        ),
        platform: fields::kept(
            o,
            "platform"@,
            fields::limited(
                fields::required_text(fields::field(o, "platform"@), "platform 不能为空"@),
                50,
                "platform 不能超过 50 个字符"@,
            ),
            existing.platform@,
        ),
        rate_multiplier_bps: fields::kept(
            o,
            "rate_multiplier"@,
            fields::required_rate(
                fields::field(o, "rate_multiplier"@),
                "rate_multiplier 必须是正数"@,
            ),
            existing.rate_multiplier_bps,
        ),
        description: fields::kept(
            o,
            "description"@,
            fields::optional_text(fields::field(o, "description"@), "字段必须是字符串或 null"@),
            db::opt_text(existing.description),
        ),
        models: fields::kept(
            o,
            "models"@,
            fields::document(fields::field(o, "models"@), true, "字段格式不正确"@),
            db::opt_text(existing.models),
        ),
        features: fields::kept(
            o,
            "features"@,
            fields::document(fields::field(o, "features"@), true, "字段格式不正确"@),
            db::opt_text(existing.features),
        ),
        sort_order: fields::kept(
            o,
            "sort_order"@,
            fields::or_int(
                fields::optional_integer(
                    fields::field(o, "sort_order"@),
                    0,
                    "sort_order 必须是非负整数"@,
                ),
                0,
            ),
            existing.sort_order,
        ),
        enabled: fields::kept(
            o,
            "enabled"@,
            fields::given_flag(
                fields::optional_flag(fields::field(o, "enabled"@), "enabled 必须是布尔值"@),
                "enabled 必须是布尔值"@,
            ),
            existing.enabled,
        ),
    }
}

/// What a request comes to that must be an object.
pub open spec fn object_of(body: JsonValue) -> Result<Map<Seq<char>, JsonValue>, Refusal> {
    match body.data {
        JsonData::Object { members } => Ok(members@),
        _ => fields::refused("请求体必须是 JSON 对象"@),
    }
}

/// Reads a new channel.
pub fn parse_create_body(body: &JsonValue) -> (r: Result<ChannelWrite, AppError>)
    requires
        body.wf(),
    ensures
        match object_of(*body) {
            Err(refusal) => error::refusal_of(r) == Some(refusal),
            Ok(o) => {
                &&& error::refusal_of(r) == create_failure(created(o))
                &&& r matches Ok(w) ==> write_holds(w, created(o))
            },
        },
{
    let object = match fields::require_object(body, "请求体必须是 JSON 对象") {
        Ok(o) => o,
        Err(e) => {
            return Err(e);
        },
    };
    let name: String = match fields::required_non_empty_string(
        fields::get_field(object, "name"),
        "name 必须非空",
    ) {
        Ok(v) => v,
        Err(e) => {
            return Err(e);
        },
    };
    let platform: String = match fields::required_non_empty_string(
        fields::get_field(object, "platform"),
        "platform 必须非空",
    ) {
        Ok(v) => v,
        Err(e) => {
            return Err(e);
        },
    };
    let rate_multiplier_bps: i64 = match fields::required_positive_rate(
        fields::get_field(object, "rate_multiplier"),
        "rate_multiplier 必须是正数",
    ) {
        Ok(v) => v,
        Err(e) => {
            return Err(e);
        },
    };
    let sort_order: i64 = match fields::int_or(
        fields::optional_i64_at_least(
            fields::get_field(object, "sort_order"),
            0,
            "sort_order 必须是非负整数",
        ),
        0,
    ) {
        Ok(v) => v,
        Err(e) => {
            return Err(e);
        },
    };
    let group_id: Option<i64> = match fields::optional_i64_at_least(
        fields::get_field(object, "group_id"),
        1,
        "group_id 必须是正整数或 null",
    ) {
        Ok(v) => v,
        Err(e) => {
            return Err(e);
        },
    };
    let description: Option<String> = match fields::optional_trimmed_string(
        fields::get_field(object, "description"),
        "字段必须是字符串或 null",
    ) {
        Ok(v) => v,
        Err(e) => {
            return Err(e);
        },
    };
    let models: Option<String> = match fields::normalize_document(
        fields::get_field(object, "models"),
        true,
        "字段格式不正确",
    ) {
        Ok(v) => v,
        Err(e) => {
            return Err(e);
        },
    };
    let features: Option<String> = match fields::normalize_document(
        fields::get_field(object, "features"),
        true,
        "字段格式不正确",
    ) {
        Ok(v) => v,
        Err(e) => {
            return Err(e);
        },
    };
    let enabled: bool = match fields::flag_or(
        fields::optional_bool(fields::get_field(object, "enabled"), "enabled 必须是布尔值"),
        true,
    ) {
        Ok(v) => v,
        Err(e) => {
            return Err(e);
        },
    };
    Ok(
        ChannelWrite {
            group_id,
            name,
            platform,
            rate_multiplier_bps,
            description,
            models,
            features,
            sort_order,
            enabled,
        },
    )
}

/// Reads a change of a channel.
pub fn merge_update_body(existing: ChannelRecord, body: &JsonValue) -> (r: Result<
    ChannelWrite,
    AppError,
>)
    requires
        body.wf(),
    ensures
        match object_of(*body) {
            Err(refusal) => error::refusal_of(r) == Some(refusal),
            Ok(o) => {
                &&& error::refusal_of(r) == update_failure(merged(existing, o))
                &&& r matches Ok(w) ==> write_holds(w, merged(existing, o))
            },
        },
{
    let object = match fields::require_object(body, "请求体必须是 JSON 对象") {
        Ok(o) => o,
        Err(e) => {
            return Err(e);
        },
    };
    let group_id: Option<i64> = if fields::get_field(object, "group_id").is_some() {
        match fields::optional_i64_at_least(
            fields::get_field(object, "group_id"),
            1,
            "group_id 必须是正整数或 null",
        ) {
            Ok(v) => v,
            Err(e) => {
                return Err(e);
            },
        }
    } else {
        existing.group_id
    };
    let name: String = if fields::get_field(object, "name").is_some() {
        match fields::limit_length(
            fields::required_non_empty_string(fields::get_field(object, "name"), "name 不能为空"),
            100,
            "name 不能超过 100 个字符",
        ) {
            Ok(v) => v,
            Err(e) => {
                return Err(e);
            },
        }
    } else {
        existing.name
    };
    let platform: String = if fields::get_field(object, "platform").is_some() {
        match fields::limit_length(
            fields::required_non_empty_string(
                fields::get_field(object, "platform"),
                "platform 不能为空",
            ),
            50,
            "platform 不能超过 50 个字符",
        ) {
            Ok(v) => v,
            Err(e) => {
                return Err(e);
            },
        }
    } else {
        existing.platform
    };
    let rate_multiplier_bps: i64 = if fields::get_field(object, "rate_multiplier").is_some() {
        match fields::required_positive_rate(
            fields::get_field(object, "rate_multiplier"),
            "rate_multiplier 必须是正数",
        ) {
            Ok(v) => v,
            Err(e) => {
                return Err(e);
            },
        }
    } else {
        existing.rate_multiplier_bps
    };
    let description: Option<String> = if fields::get_field(object, "description").is_some() {
        match fields::optional_trimmed_string(
            fields::get_field(object, "description"),
            "字段必须是字符串或 null",
        ) {
            Ok(v) => v,
            Err(e) => {
                return Err(e);
            },
        }
    } else {
        existing.description
    };
    let models: Option<String> = if fields::get_field(object, "models").is_some() {
        match fields::normalize_document(
            fields::get_field(object, "models"),
            true,
            "字段格式不正确",
        ) {
            Ok(v) => v,
            Err(e) => {
                return Err(e);
            },
        }
    } else {
        existing.models
    };
    let features: Option<String> = if fields::get_field(object, "features").is_some() {
        match fields::normalize_document(
            fields::get_field(object, "features"),
            true,
            "字段格式不正确",
        ) {
            Ok(v) => v,
            Err(e) => {
                return Err(e);
            },
        }
    } else {
        existing.features
    };
    let sort_order: i64 = if fields::get_field(object, "sort_order").is_some() {
        match fields::int_or(
            fields::optional_i64_at_least(
                fields::get_field(object, "sort_order"),
                0,
                "sort_order 必须是非负整数",
            ),
            0,
        ) {
            Ok(v) => v,
            Err(e) => {
                return Err(e);
            },
        }
    } else {
        existing.sort_order
    };
    let enabled: bool = if fields::get_field(object, "enabled").is_some() {
        match fields::require_flag(
            fields::optional_bool(fields::get_field(object, "enabled"), "enabled 必须是布尔值"),
            "enabled 必须是布尔值",
        ) {
            Ok(v) => v,
            Err(e) => {
                return Err(e);
            },
        }
    } else {
        existing.enabled
    };
    Ok(
        ChannelWrite {
            group_id,
            name,
            platform,
            rate_multiplier_bps,
            description,
            models,
            features,
            sort_order,
            enabled,
        },
    )
}

/// Why a channel cannot have its group, if it cannot: another has it.
pub open spec fn group_taken(
    group_id: Option<i64>,
    holder: Option<ChannelRecord>,
    own_id: Option<Seq<char>>,
) -> Option<Refusal> {
    if group_id is None || holder is None || own_id == Some(holder->0.id@) {
        None
    } else {
        Some(
            (
                ErrorKind::Conflict,
                "分组 ID "@ + text::decimal(group_id->0 as int) + " 已被渠道「"@ + holder->0.name@
                    + "」使用"@,
            ),
        )
    }
}

/// Checks that no other channel has the group. The channel that has it was looked up.
pub fn ensure_group_id_unique(
    group_id: Option<i64>,
    holder: &Option<ChannelRecord>,
    skip_channel_id: Option<&str>,
) -> (r: Result<(), AppError>)
    ensures
        error::refusal_of(r) == group_taken(group_id, *holder, db::opt_str(skip_channel_id)),
{
    if let Some(id) = group_id {
        if let Some(existing) = holder {
            if let Some(own) = skip_channel_id {
                if text::same(own, existing.id.as_str()) {
                    return Ok(());
                }
            }
            let mut message = text::cat3(
                "分组 ID ",
                text::i64_text(id).as_str(),
                " 已被渠道「",
            );
            message.append(existing.name.as_str());
            message.append("」使用");
            return Err(AppError::conflict(message.as_str()));
        }
    }
    Ok(())
}

/// A channel that must be there.
pub fn require_channel(found: Option<ChannelRecord>) -> (r: Result<ChannelRecord, AppError>)
    ensures
        match found {
            Some(c) => r == Ok::<ChannelRecord, AppError>(c),
            None => r matches Err(e) && e@ == (ErrorKind::NotFound, "渠道不存在"@),
        },
{
    match found {
        Some(c) => Ok(c),
        None => Err(AppError::not_found("渠道不存在")),
    }
}

/// A channel as it is shown. The rate is in ten thousandths.
#[derive(Debug)]
pub struct AdminChannelView {
    pub id: String,
    pub group_id: Option<i64>,
    pub name: String,
    pub platform: String,
    pub rate_multiplier_bps: i64,
    pub description: Option<String>,
    pub models: Option<String>,
    pub features: Option<String>,
    pub sort_order: i64,
    pub enabled: bool,
    pub group_exists: bool,
    pub created_at: String,
    pub updated_at: String,
}

pub fn to_admin_channel_view(channel: ChannelRecord, group_exists: bool) -> (r: AdminChannelView)
    ensures
        r.id == channel.id,
        r.group_id == channel.group_id,
        r.name == channel.name,
        r.platform == channel.platform,
        r.rate_multiplier_bps == channel.rate_multiplier_bps,
        r.description == channel.description,
        r.models == channel.models,
        r.features == channel.features,
        r.sort_order == channel.sort_order,
        r.enabled == channel.enabled,
        r.group_exists == group_exists,
        r.created_at@ == clock::shown_time(channel.created_at),
        r.updated_at@ == clock::shown_time(channel.updated_at),
{
    AdminChannelView {
        id: channel.id,
        group_id: channel.group_id,
        name: channel.name,
        platform: channel.platform,
        rate_multiplier_bps: channel.rate_multiplier_bps,
        description: channel.description,
        models: channel.models,
        features: channel.features,
        sort_order: channel.sort_order,
        enabled: channel.enabled,
        group_exists,
        created_at: clock::timestamp_to_rfc3339(channel.created_at),
        updated_at: clock::timestamp_to_rfc3339(channel.updated_at),
    }
}

/// A change that gives nothing changes nothing.
pub proof fn law_empty_change_keeps_the_channel(existing: ChannelRecord, w: ChannelWrite)
    ensures
        update_failure(merged(existing, Map::empty())) is None,
        write_holds(w, merged(existing, Map::empty())) ==> crate::channel::channel_holds(
            existing,
            w,
        ),
{
}

/// What a change gives of a channel is what a new channel would be given, but for the limits
/// on its texts: the texts that are refused there are refused here.
pub proof fn law_changes_are_checked_like_creations(
    existing: ChannelRecord,
    o: Map<Seq<char>, JsonValue>,
)
    ensures
        o.dom().contains("group_id"@) ==> merged(existing, o).group_id == created(o).group_id,
        o.dom().contains("rate_multiplier"@) ==> merged(existing, o).rate_multiplier_bps
            == created(o).rate_multiplier_bps,
        o.dom().contains("sort_order"@) ==> merged(existing, o).sort_order == created(
            o,
        ).sort_order,
        o.dom().contains("description"@) ==> merged(existing, o).description == created(
            o,
        ).description,
        o.dom().contains("models"@) ==> merged(existing, o).models == created(o).models,
        o.dom().contains("features"@) ==> merged(existing, o).features == created(o).features,
        o.dom().contains("name"@) && created(o).name is Err ==> merged(existing, o).name is Err,
        o.dom().contains("platform"@) && created(o).platform is Err ==> merged(
            existing,
            o,
        ).platform is Err,
{
}

/// A channel is created as the body says: it must have a name, a platform and a rate above
/// zero, has no group unless a number above zero is named for one, is enabled unless the body
/// says not, and stands first unless it says where.
pub proof fn law_channels_are_created_as_written(w: ChannelWrite, o: Map<Seq<char>, JsonValue>)
    requires
        write_holds(w, created(o)),
    ensures
        o.dom().contains("name"@) && (o["name"@].data matches JsonData::Text { text } && w.name@
            == text::trimmed(text@)) && w.name@.len() > 0,
        o.dom().contains("platform"@) && (o["platform"@].data matches JsonData::Text { text }
            && w.platform@ == text::trimmed(text@)) && w.platform@.len() > 0,
        o.dom().contains("rate_multiplier"@) && (o["rate_multiplier"@].data matches JsonData::Number {
            number,
        } && number.positive_bps == Some(w.rate_multiplier_bps)),
        !o.dom().contains("group_id"@) ==> w.group_id is None,
        o.dom().contains("group_id"@) && !(o["group_id"@].data is Null) ==> (
        o["group_id"@].data matches JsonData::Number { number } && number.integer == w.group_id
            && w.group_id is Some),
        w.group_id matches Some(g) ==> g >= 1,
        !o.dom().contains("enabled"@) ==> w.enabled,
        o.dom().contains("enabled"@) && o["enabled"@].data is Flag ==> w.enabled
            == o["enabled"@].data->flag,
        !o.dom().contains("sort_order"@) ==> w.sort_order == 0,
        w.sort_order >= 0,
{
}

/// A channel keeps what a change of it does not name, and has what the change names as the
/// change has it.
pub proof fn law_channels_keep_what_is_not_named(
    w: ChannelWrite,
    existing: ChannelRecord,
    o: Map<Seq<char>, JsonValue>,
)
    requires
        write_holds(w, merged(existing, o)),
    ensures
        !o.dom().contains("group_id"@) ==> w.group_id == existing.group_id,
        !o.dom().contains("name"@) ==> w.name@ == existing.name@,
        !o.dom().contains("platform"@) ==> w.platform@ == existing.platform@,
        !o.dom().contains("rate_multiplier"@) ==> w.rate_multiplier_bps
            == existing.rate_multiplier_bps,
        !o.dom().contains("sort_order"@) ==> w.sort_order == existing.sort_order,
        !o.dom().contains("enabled"@) ==> w.enabled == existing.enabled,
        !o.dom().contains("models"@) ==> db::opt_text(w.models) == db::opt_text(existing.models),
        !o.dom().contains("features"@) ==> db::opt_text(w.features) == db::opt_text(
            existing.features,
        ),
        !o.dom().contains("description"@) ==> db::opt_text(w.description) == db::opt_text(
            existing.description,
        ),
        o.dom().contains("name"@) ==> (o["name"@].data matches JsonData::Text { text } && w.name@
            == text::trimmed(text@)) && 0 < w.name@.len() && fields::byte_length(w.name@) <= 100,
        o.dom().contains("platform"@) ==> (o["platform"@].data matches JsonData::Text { text }
            && w.platform@ == text::trimmed(text@)) && fields::byte_length(w.platform@) <= 50,
        o.dom().contains("rate_multiplier"@) ==> (
        o["rate_multiplier"@].data matches JsonData::Number { number } && number.positive_bps
            == Some(w.rate_multiplier_bps)),
        o.dom().contains("group_id"@) && o["group_id"@].data is Null ==> w.group_id is None,
        o.dom().contains("group_id"@) && !(o["group_id"@].data is Null) ==> (
        o["group_id"@].data matches JsonData::Number { number } && number.integer == w.group_id
            && w.group_id is Some && w.group_id->0 >= 1),
        o.dom().contains("enabled"@) ==> (o["enabled"@].data matches JsonData::Flag { flag }
            && w.enabled == flag),
{
}

/// A group can be given to a channel exactly where no other channel has it.
pub proof fn law_groups_have_one_channel(
    group_id: i64,
    holder: Option<ChannelRecord>,
    own_id: Option<Seq<char>>,
)
    ensures
        group_taken(Some(group_id), holder, own_id) is None <==> (holder matches Some(c) ==> own_id
            == Some(c.id@)),
        group_taken(None, holder, own_id) is None,
{
}

/// An administrator is shown a channel as it is, and whether its group is there.
pub proof fn law_channels_are_shown_as_they_are(
    channel: ChannelRecord,
    group_exists: bool,
    v: AdminChannelView,
)
    requires
        call_ensures(to_admin_channel_view, (channel, group_exists), v),
    ensures
        v.id@ == channel.id@ && v.name@ == channel.name@ && v.platform@ == channel.platform@,
        v.rate_multiplier_bps == channel.rate_multiplier_bps,
        v.group_id == channel.group_id && v.sort_order == channel.sort_order,
        v.enabled == channel.enabled && v.group_exists == group_exists,
        v.created_at@ == clock::shown_time(channel.created_at),
        v.updated_at@ == clock::shown_time(channel.updated_at),
{
}

/// What is written of a channel is what its body says, for a new one and for a change.
pub proof fn law_channels_are_written_from_their_body(
    body: JsonValue,
    o: Map<Seq<char>, JsonValue>,
    existing: ChannelRecord,
    new: Result<ChannelWrite, AppError>,
    changed: Result<ChannelWrite, AppError>,
)
    requires
        body.data matches JsonData::Object { members } && members@ == o,
        call_ensures(parse_create_body, (&body,), new),
        call_ensures(merge_update_body, (existing, &body), changed),
    ensures
        new matches Ok(w) ==> write_holds(w, created(o)),
        new is Ok <==> create_failure(created(o)) is None,
        changed matches Ok(w) ==> write_holds(w, merged(existing, o)),
        changed is Ok <==> update_failure(merged(existing, o)) is None,
        !o.dom().contains("name"@) ==> new is Err,
        !o.dom().contains("rate_multiplier"@) ==> new is Err,
{
}

/// A body is refused for the first of its faults, and for none exactly where it has none.
pub proof fn law_first_fault_of_a_channel_is_told(r: ChannelReading)
    ensures
        ({
            let sound = r.name is Ok && r.platform is Ok && r.rate_multiplier_bps is Ok
                && r.sort_order is Ok && r.group_id is Ok && r.description is Ok && r.models is Ok
                && r.features is Ok && r.enabled is Ok;
            &&& create_failure(r) is None <==> sound
            &&& update_failure(r) is None <==> sound
        }),
        r.name matches Err(e) ==> create_failure(r) == Some(e),
        r.name is Ok ==> (r.platform matches Err(e) ==> create_failure(r) == Some(e)),
        r.group_id matches Err(e) ==> update_failure(r) == Some(e),
        r.group_id is Ok ==> (r.name matches Err(e) ==> update_failure(r) == Some(e)),
{
}

/// Whose group it is already is told.
pub proof fn law_taken_groups_name_their_channel(
    group_id: i64,
    holder: ChannelRecord,
    own_id: Option<Seq<char>>,
)
    requires
        own_id != Some(holder.id@),
    ensures
        group_taken(Some(group_id), Some(holder), own_id) matches Some(e) && e.0
            == ErrorKind::Conflict && e.1 == "分组 ID "@ + text::decimal(group_id as int)
            + " 已被渠道「"@ + holder.name@ + "」使用"@,
{
}

}
