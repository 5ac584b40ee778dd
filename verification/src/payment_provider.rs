//! Payment providers: what is asked of them, and what they answer.
use vstd::prelude::*;

use crate::crypto;
use crate::db;
use crate::hash;
use crate::json;
use crate::maps;
use crate::maps::TextMap;
use crate::money;
use crate::payment;
use crate::provider_instances::ProviderInstanceRecord;
use crate::signing;
use crate::text;
use crate::urlencoded;

verus! {

#[derive(Debug)]
pub struct CreatePaymentRequest {
    pub order_id: String,
    pub amount_cents: i64,
    pub payment_type: String,
    pub subject: String,
    pub client_ip: Option<String>,
    pub is_mobile: bool,
    pub provider_instance_id: Option<String>,
}

#[derive(Debug)]
pub struct CreatePaymentResponse {
    pub provider_name: String,
    pub trade_no: String,
    pub pay_url: Option<String>,
    pub qr_code: Option<String>,
    pub client_secret: Option<String>,
}

#[derive(Debug)]
pub struct RefundPaymentRequest {
    pub trade_no: String,
    pub order_id: String,
    pub amount_cents: i64,
    pub payment_type: String,
    pub reason: String,
    pub provider_instance_id: Option<String>,
}

#[derive(Debug)]
pub struct RefundPaymentResponse {
    pub provider_name: String,
    pub refund_id: String,
    pub status: String,
}

#[derive(Debug)]
pub struct VerifiedPaymentNotification {
    pub provider_name: String,
    pub trade_no: String,
    pub order_id: String,
    pub amount_cents: i64,
    pub success: bool,
}

// ---------------------------------------------------------------------------
// Settings
// ---------------------------------------------------------------------------
/// What a value from the environment stands for.
pub enum EnvValue {
    /// Nothing.
    Unset,
    /// Itself.
    Plain { value: String },
    /// The contents of the file of that name, where there is one; otherwise itself.
    FileOrPlain { value: String },
}

pub open spec fn file_path_like(s: Seq<char>) -> bool {
    (s.len() > 0 && s[0] == '/') || (s.len() > 1 && s[1] == ':')
}

pub fn looks_like_file_path(value: &str) -> (r: bool)
    ensures
        r == file_path_like(value@),
{
    let chars = text::chars_of(value);
    (chars.len() > 0 && chars[0] == '/') || (chars.len() > 1 && chars[1] == ':')
}

pub open spec fn env_value_is(r: EnvValue, raw: Seq<char>) -> bool {
    let value = text::trimmed(raw);
    if value.len() == 0 {
        r is Unset
    } else if file_path_like(value) {
        r matches EnvValue::FileOrPlain { value: v } && v@ == value
    } else {
        r matches EnvValue::Plain { value: v } && v@ == value
    }
}

/// Says what a value from the environment stands for.
pub fn classify_env_value(raw: &str) -> (r: EnvValue)
    ensures
        env_value_is(r, raw@),
{
    let value = text::trim(raw);
    if value.is_empty() {
        EnvValue::Unset
    } else if looks_like_file_path(value) {
        EnvValue::FileOrPlain { value: value.to_owned() }
    } else {
        EnvValue::Plain { value: value.to_owned() }
    }
}

/// What is found under the first of the keys that a map holds.
pub open spec fn held(m: Map<Seq<char>, String>, key: Seq<char>) -> Option<Seq<char>> {
    if m.dom().contains(key) {
        Some(m[key]@)
    } else {
        None
    }
}

pub open spec fn either(a: Option<Seq<char>>, b: Option<Seq<char>>) -> Option<Seq<char>> {
    if a is Some {
        a
    } else {
        b
    }
}

/// A setting of a provider: that of its instance comes before that of the environment.
pub open spec fn setting(
    config: Map<Seq<char>, String>,
    env: Map<Seq<char>, String>,
    key: Seq<char>,
    env_key: Seq<char>,
) -> Option<Seq<char>> {
    either(held(config, key), held(env, env_key))
}

pub fn lookup<'a>(m: &'a TextMap<String>, key: &str) -> (r: Option<&'a str>)
    requires
        m.wf(),
    ensures
        db::opt_str(r) == held(m@, key@),
{
    match m.get(key) {
        Some(s) => Some(s.as_str()),
        None => None,
    }
}

pub fn find_setting<'a>(
    config: &'a TextMap<String>,
    env: &'a TextMap<String>,
    key: &str,
    env_key: &str,
) -> (r: Option<&'a str>)
    requires
        config.wf(),
        env.wf(),
    ensures
        db::opt_str(r) == setting(config@, env@, key@, env_key@),
{
    match lookup(config, key) {
        Some(s) => Some(s),
        None => lookup(env, env_key),
    }
}

// ---------------------------------------------------------------------------
// What is sent and what comes of it
// ---------------------------------------------------------------------------
/// A form to send to a gateway.
#[derive(Debug)]
pub struct FormRequest {
    pub url: String,
    pub bearer: Option<String>,
    pub params: Vec<(String, String)>,
}

/// The contents of a form.
pub struct FormView {
    pub url: Seq<char>,
    pub bearer: Option<Seq<char>>,
    pub params: Seq<(Seq<char>, Seq<char>)>,
}

impl FormRequest {
    pub open spec fn view(&self) -> FormView {
        FormView {
            url: self.url@,
            bearer: db::opt_text(self.bearer),
            params: maps::pairs(self.params@),
        }
    }
}

/// The contents of the answer to a request for a payment.
pub struct PaymentView {
    pub provider_name: Seq<char>,
    pub trade_no: Seq<char>,
    pub pay_url: Option<Seq<char>>,
    pub qr_code: Option<Seq<char>>,
    pub client_secret: Option<Seq<char>>,
}

impl CreatePaymentResponse {
    pub open spec fn view(&self) -> PaymentView {
        PaymentView {
            provider_name: self.provider_name@,
            trade_no: self.trade_no@,
            pay_url: db::opt_text(self.pay_url),
            qr_code: db::opt_text(self.qr_code),
            client_secret: db::opt_text(self.client_secret),
        }
    }
}

/// How a payment comes about: by a form that is sent, or at once.
pub enum PaymentPlan {
    Send { form: FormRequest },
    Ready { response: CreatePaymentResponse },
}

pub enum PlanView {
    Send { form: FormView },
    Ready { response: PaymentView },
}

pub open spec fn plan_view(r: Result<PaymentPlan, String>) -> Result<PlanView, Seq<char>> {
    match r {
        Ok(PaymentPlan::Send { form }) => Ok(PlanView::Send { form: form@ }),
        Ok(PaymentPlan::Ready { response }) => Ok(PlanView::Ready { response: response@ }),
        Err(e) => Err(e@),
    }
}

pub open spec fn form_view(r: Result<FormRequest, String>) -> Result<FormView, Seq<char>> {
    match r {
        Ok(form) => Ok(form@),
        Err(e) => Err(e@),
    }
}

fn push_param(params: &mut Vec<(String, String)>, key: &str, value: &str)
    ensures
        maps::pairs(final(params)@) == maps::pairs(old(params)@).push((key@, value@)),
{
    params.push((key.to_owned(), value.to_owned()));
    assert(maps::pairs(params@) =~= maps::pairs(old(params)@).push((key@, value@)));
}

/// A payment provider: what it is called, which payment types it takes, and what it is sent.
pub trait PaymentProvider {
    spec fn label(&self) -> Seq<char>;

    spec fn offers(&self) -> Seq<Seq<char>>;

    spec fn wf(&self) -> bool;

    /// How a payment is asked for, or why it cannot be.
    spec fn payment(&self, request: CreatePaymentRequest) -> Result<PlanView, Seq<char>>;

    /// How a refund is asked for, or why it cannot be.
    spec fn refunding(&self, request: RefundPaymentRequest) -> Result<FormView, Seq<char>>;

    fn name(&self) -> (r: &'static str)
        ensures
            r@ == self.label(),
    ;

    fn supported_types(&self) -> (r: Vec<&'static str>)
        ensures
            payment::str_texts(r@) == self.offers(),
    ;

    fn create_payment(&self, request: &CreatePaymentRequest) -> (r: Result<PaymentPlan, String>)
        requires
            self.wf(),
        ensures
            plan_view(r) == self.payment(*request),
    ;

    fn refund(&self, request: &RefundPaymentRequest) -> (r: Result<FormRequest, String>)
        requires
            self.wf(),
        ensures
            form_view(r) == self.refunding(*request),
    ;
}

// ---------------------------------------------------------------------------
// Payment types
// ---------------------------------------------------------------------------
/// The provider for a payment type.
pub open spec fn key_of_type(t: Seq<char>) -> Option<Seq<char>> {
    if t == "alipay"@ || t == "wxpay"@ {
        Some("easypay"@)
    } else if t == "alipay_direct"@ {
        Some("alipay"@)
    } else if t == "wxpay_direct"@ {
        Some("wxpay"@)
    } else if t == "stripe"@ {
        Some("stripe"@)
    } else {
        None
    }
}

pub fn provider_key_for_type(payment_type: &str) -> (r: Option<&'static str>)
    ensures
        db::opt_str(r) == key_of_type(payment_type@),
{
    if text::same(payment_type, "alipay") || text::same(payment_type, "wxpay") {
        Some("easypay")
    } else if text::same(payment_type, "alipay_direct") {
        Some("alipay")
    } else if text::same(payment_type, "wxpay_direct") {
        Some("wxpay")
    } else if text::same(payment_type, "stripe") {
        Some("stripe")
    } else {
        None
    }
}

/// The method of payment behind a payment type.
pub open spec fn base_type(t: Seq<char>) -> Seq<char> {
    if "alipay"@.is_prefix_of(t) {
        "alipay"@
    } else if "wxpay"@.is_prefix_of(t) {
        "wxpay"@
    } else if "stripe"@.is_prefix_of(t) {
        "stripe"@
    } else {
        ""@
    }
}

pub fn request_base_payment_type(payment_type: &str) -> (r: &'static str)
    ensures
        r@ == base_type(payment_type@),
{
    if text::starts_with(payment_type, "alipay") {
        "alipay"
    } else if text::starts_with(payment_type, "wxpay") {
        "wxpay"
    } else if text::starts_with(payment_type, "stripe") {
        "stripe"
    } else {
        ""
    }
}

// ---------------------------------------------------------------------------
// EasyPay
// ---------------------------------------------------------------------------
/// EasyPay, with the settings of an instance and those of the environment.
#[derive(Debug)]
pub struct EasyPayProvider {
    pub config: TextMap<String>,
    pub env: TextMap<String>,
}

/// The channels of EasyPay for a method of payment, as a list with commas.
pub open spec fn easypay_cid(
    config: Map<Seq<char>, String>,
    env: Map<Seq<char>, String>,
    method: Seq<char>,
) -> Option<Seq<char>> {
    let (key, env_key) = if method == "alipay"@ {
        ("cidAlipay"@, "EASY_PAY_CID_ALIPAY"@)
    } else {
        ("cidWxpay"@, "EASY_PAY_CID_WXPAY"@)
    };
    let raw = either(
        either(held(config, key), held(config, "cid"@)),
        either(held(env, env_key), held(env, "EASY_PAY_CID"@)),
    );
    match raw {
        None => None,
        Some(s) => {
            let cid = text::joined(payment::csv_items(s), ","@);
            if cid.len() == 0 {
                None
            } else {
                Some(cid)
            }
        },
    }
}

/// The parameters of an EasyPay payment, before they are signed.
pub open spec fn easypay_unsigned(
    pid: Seq<char>,
    notify_url: Seq<char>,
    return_url: Seq<char>,
    cid: Option<Seq<char>>,
    request: CreatePaymentRequest,
) -> Seq<(Seq<char>, Seq<char>)> {
    let base = seq![
        ("pid"@, pid),
        ("type"@, base_type(request.payment_type@)),
        ("out_trade_no"@, request.order_id@),
        ("notify_url"@, notify_url),
        ("return_url"@, return_url),
        ("name"@, request.subject@),
        ("money"@, money::amount(request.amount_cents as int)),
        (
            "clientip"@,
            match db::opt_text(request.client_ip) {
                Some(ip) => ip,
                None => "127.0.0.1"@,
            },
        ),
    ];
    let with_cid = match cid {
        Some(c) => base.push(("cid"@, c)),
        None => base,
    };
    if request.is_mobile {
        with_cid.push(("device"@, "mobile"@))
    } else {
        with_cid
    }
}

pub open spec fn easypay_signed(params: Seq<(Seq<char>, Seq<char>)>, pkey: Seq<char>) -> Seq<
    (Seq<char>, Seq<char>),
> {
    params.push(("sign"@, signing::easypay_sign(params, pkey))).push(("sign_type"@, "MD5"@))
}

pub open spec fn easypay_payment(
    config: Map<Seq<char>, String>,
    env: Map<Seq<char>, String>,
    request: CreatePaymentRequest,
) -> Result<FormView, Seq<char>> {
    let pid = setting(config, env, "pid"@, "EASY_PAY_PID"@);
    let pkey = setting(config, env, "pkey"@, "EASY_PAY_PKEY"@);
    let api_base = setting(config, env, "apiBase"@, "EASY_PAY_API_BASE"@);
    let notify_url = setting(config, env, "notifyUrl"@, "EASY_PAY_NOTIFY_URL"@);
    let return_url = setting(config, env, "returnUrl"@, "EASY_PAY_RETURN_URL"@);
    if pid is None {
        Err("EASY_PAY_PID is required for EasyPay"@)
    } else if pkey is None {
        Err("EASY_PAY_PKEY is required for EasyPay"@)
    } else if api_base is None {
        Err("EASY_PAY_API_BASE is required for EasyPay"@)
    } else if notify_url is None {
        Err("EASY_PAY_NOTIFY_URL is required for EasyPay"@)
    } else if return_url is None {
        Err("EASY_PAY_RETURN_URL is required for EasyPay"@)
    } else {
        let cid = easypay_cid(config, env, base_type(request.payment_type@));
        let params = easypay_unsigned(pid->0, notify_url->0, return_url->0, cid, request);
        Ok(
            FormView {
                url: text::without_trailing(api_base->0, '/') + "/mapi.php"@,
                bearer: None,
                params: easypay_signed(params, pkey->0),
            },
        )
    }
}

pub open spec fn easypay_refund(
    config: Map<Seq<char>, String>,
    env: Map<Seq<char>, String>,
    request: RefundPaymentRequest,
) -> Result<FormView, Seq<char>> {
    let pid = setting(config, env, "pid"@, "EASY_PAY_PID"@);
    let pkey = setting(config, env, "pkey"@, "EASY_PAY_PKEY"@);
    let api_base = setting(config, env, "apiBase"@, "EASY_PAY_API_BASE"@);
    if pid is None {
        Err("EASY_PAY_PID is required for EasyPay"@)
    } else if pkey is None {
        Err("EASY_PAY_PKEY is required for EasyPay"@)
    } else if api_base is None {
        Err("EASY_PAY_API_BASE is required for EasyPay"@)
    } else {
        Ok(
            FormView {
                url: text::without_trailing(api_base->0, '/') + "/api.php?act=refund"@,
                bearer: None,
                params: seq![
                    ("pid"@, pid->0),
                    ("key"@, pkey->0),
                    ("trade_no"@, request.trade_no@),
                    ("out_trade_no"@, request.order_id@),
                    ("money"@, money::amount(request.amount_cents as int)),
                ],
            },
        )
    }
}

impl EasyPayProvider {
    fn setting<'a>(&'a self, key: &str, env_key: &str) -> (r: Option<&'a str>)
        requires
            self.config.wf(),
            self.env.wf(),
        ensures
            db::opt_str(r) == setting(self.config@, self.env@, key@, env_key@),
    {
        find_setting(&self.config, &self.env, key, env_key)
    }

    pub fn resolve_cid(&self, payment_type: &str) -> (r: Option<String>)
        requires
            self.config.wf(),
            self.env.wf(),
        ensures
            db::opt_text(r) == easypay_cid(self.config@, self.env@, payment_type@),
    {
        let (key, env_key) = if text::same(payment_type, "alipay") {
            ("cidAlipay", "EASY_PAY_CID_ALIPAY")
        } else {
            ("cidWxpay", "EASY_PAY_CID_WXPAY")
        };
        let raw = match lookup(&self.config, key) {
            Some(s) => Some(s),
            None => match lookup(&self.config, "cid") {
                Some(s) => Some(s),
                None => match lookup(&self.env, env_key) {
                    Some(s) => Some(s),
                    None => lookup(&self.env, "EASY_PAY_CID"),
                },
            },
        };
        match raw {
            None => None,
            Some(s) => {
                let cid = text::join(&payment::split_csv(s), ",");
                if cid.as_str().is_empty() {
                    None
                } else {
                    Some(cid)
                }
            },
        }
    }
}

impl PaymentProvider for EasyPayProvider {
    open spec fn label(&self) -> Seq<char> {
        "easy-pay"@
    }

    open spec fn offers(&self) -> Seq<Seq<char>> {
        seq!["alipay"@, "wxpay"@]
    }

    open spec fn wf(&self) -> bool {
        self.config.wf() && self.env.wf()
    }

    open spec fn payment(&self, request: CreatePaymentRequest) -> Result<PlanView, Seq<char>> {
        match easypay_payment(self.config@, self.env@, request) {
            Ok(form) => Ok(PlanView::Send { form }),
            Err(e) => Err(e),
        }
    }

    open spec fn refunding(&self, request: RefundPaymentRequest) -> Result<FormView, Seq<char>> {
        easypay_refund(self.config@, self.env@, request)
    }

    fn name(&self) -> (r: &'static str) {
        "easy-pay"
    }

    fn supported_types(&self) -> (r: Vec<&'static str>) {
        let r: Vec<&'static str> = vec!["alipay", "wxpay"];
        assert(payment::str_texts(r@) =~= seq!["alipay"@, "wxpay"@]);
        r
    }

    fn create_payment(&self, request: &CreatePaymentRequest) -> (r: Result<PaymentPlan, String>) {
        let pid = match self.setting("pid", "EASY_PAY_PID") {
            Some(s) => s,
            None => {
                return Err("EASY_PAY_PID is required for EasyPay".to_owned());
            },
        };
        let pkey = match self.setting("pkey", "EASY_PAY_PKEY") {
            Some(s) => s,
            None => {
                return Err("EASY_PAY_PKEY is required for EasyPay".to_owned());
            },
        };
        let api_base = match self.setting("apiBase", "EASY_PAY_API_BASE") {
            Some(s) => s,
            None => {
                return Err("EASY_PAY_API_BASE is required for EasyPay".to_owned());
            },
        };
        let notify_url = match self.setting("notifyUrl", "EASY_PAY_NOTIFY_URL") {
            Some(s) => s,
            None => {
                return Err("EASY_PAY_NOTIFY_URL is required for EasyPay".to_owned());
            },
        };
        let return_url = match self.setting("returnUrl", "EASY_PAY_RETURN_URL") {
            Some(s) => s,
            None => {
                return Err("EASY_PAY_RETURN_URL is required for EasyPay".to_owned());
            },
        };
        let method = request_base_payment_type(request.payment_type.as_str());
        let amount = money::amount_text(request.amount_cents);
        let client_ip: &str = match &request.client_ip {
            Some(ip) => ip.as_str(),
            None => "127.0.0.1",
        };
        let mut params: Vec<(String, String)> = Vec::new();
        push_param(&mut params, "pid", pid);
        push_param(&mut params, "type", method);
        push_param(&mut params, "out_trade_no", request.order_id.as_str());
        push_param(&mut params, "notify_url", notify_url);
        push_param(&mut params, "return_url", return_url);
        push_param(&mut params, "name", request.subject.as_str());
        push_param(&mut params, "money", amount.as_str());
        push_param(&mut params, "clientip", client_ip);
        let cid = self.resolve_cid(method);
        if let Some(c) = &cid {
            push_param(&mut params, "cid", c.as_str());
        }
        if request.is_mobile {
            push_param(&mut params, "device", "mobile");
        }
        assert(maps::pairs(params@) =~= easypay_unsigned(
            pid@,
            notify_url@,
            return_url@,
            db::opt_text(cid),
            *request,
        ));
        let sign = signing::generate_easy_pay_sign(&params, pkey);
        push_param(&mut params, "sign", sign.as_str());
        push_param(&mut params, "sign_type", "MD5");
        let url = text::cat(text::trim_end_matches(api_base, '/'), "/mapi.php");
        Ok(PaymentPlan::Send { form: FormRequest { url, bearer: None, params } })
    }

    fn refund(&self, request: &RefundPaymentRequest) -> (r: Result<FormRequest, String>) {
        let pid = match self.setting("pid", "EASY_PAY_PID") {
            Some(s) => s,
            None => {
                return Err("EASY_PAY_PID is required for EasyPay".to_owned());
            },
        };
        let pkey = match self.setting("pkey", "EASY_PAY_PKEY") {
            Some(s) => s,
            None => {
                return Err("EASY_PAY_PKEY is required for EasyPay".to_owned());
            },
        };
        let api_base = match self.setting("apiBase", "EASY_PAY_API_BASE") {
            Some(s) => s,
            None => {
                return Err("EASY_PAY_API_BASE is required for EasyPay".to_owned());
            },
        };
        let amount = money::amount_text(request.amount_cents);
        let mut params: Vec<(String, String)> = Vec::new();
        push_param(&mut params, "pid", pid);
        push_param(&mut params, "key", pkey);
        push_param(&mut params, "trade_no", request.trade_no.as_str());
        push_param(&mut params, "out_trade_no", request.order_id.as_str());
        push_param(&mut params, "money", amount.as_str());
        assert(maps::pairs(params@) =~= seq![
            ("pid"@, pid@),
            ("key"@, pkey@),
            ("trade_no"@, request.trade_no@),
            ("out_trade_no"@, request.order_id@),
            ("money"@, money::amount(request.amount_cents as int)),
        ]);
        let url = text::cat(text::trim_end_matches(api_base, '/'), "/api.php?act=refund");
        Ok(FormRequest { url, bearer: None, params })
    }
}

// ---------------------------------------------------------------------------
// Alipay
// ---------------------------------------------------------------------------
/// Alipay without a gateway between.
#[derive(Debug)]
pub struct AlipayProvider {
    pub config: TextMap<String>,
    pub env: TextMap<String>,
}

/// The link that opens a payment in the Alipay app.
pub open spec fn alipay_link(
    config: Map<Seq<char>, String>,
    env: Map<Seq<char>, String>,
    request: CreatePaymentRequest,
) -> Seq<char> {
    let app_id = match setting(config, env, "appId"@, "ALIPAY_APP_ID"@) {
        Some(id) => id,
        None => "mock-app-id"@,
    };
    "alipay://pay?app_id="@ + app_id + "&out_trade_no="@ + request.order_id@ + "&amount="@
        + money::amount(request.amount_cents as int)
}

pub open spec fn alipay_payment(
    config: Map<Seq<char>, String>,
    env: Map<Seq<char>, String>,
    request: CreatePaymentRequest,
) -> PaymentView {
    let link = alipay_link(config, env, request);
    PaymentView {
        provider_name: "alipay-direct"@,
        trade_no: request.order_id@,
        pay_url: Some(link),
        qr_code: if request.is_mobile { None } else { Some(link) },
        client_secret: None,
    }
}

impl PaymentProvider for AlipayProvider {
    open spec fn label(&self) -> Seq<char> {
        "alipay-direct"@
    }

    open spec fn offers(&self) -> Seq<Seq<char>> {
        seq!["alipay"@]
    }

    open spec fn wf(&self) -> bool {
        self.config.wf() && self.env.wf()
    }

    open spec fn payment(&self, request: CreatePaymentRequest) -> Result<PlanView, Seq<char>> {
        Ok(PlanView::Ready { response: alipay_payment(self.config@, self.env@, request) })
    }

    open spec fn refunding(&self, request: RefundPaymentRequest) -> Result<FormView, Seq<char>> {
        Err("refund is not implemented for alipay-direct in Rust MVP"@)
    }

    fn name(&self) -> (r: &'static str) {
        "alipay-direct"
    }

    fn supported_types(&self) -> (r: Vec<&'static str>) {
        let r: Vec<&'static str> = vec!["alipay"];
        assert(payment::str_texts(r@) =~= seq!["alipay"@]);
        r
    }

    fn create_payment(&self, request: &CreatePaymentRequest) -> (r: Result<PaymentPlan, String>) {
        let app_id = match find_setting(&self.config, &self.env, "appId", "ALIPAY_APP_ID") {
            Some(id) => id,
            None => "mock-app-id",
        };
        let mut link = text::cat("alipay://pay?app_id=", app_id);
        link.append("&out_trade_no=");
        link.append(request.order_id.as_str());
        link.append("&amount=");
        let amount = money::amount_text(request.amount_cents);
        link.append(amount.as_str());
        let (pay_url, qr_code) = if request.is_mobile {
            (Some(link), None)
        } else {
            (Some(link.clone()), Some(link))
        };
        let response = CreatePaymentResponse {
            provider_name: "alipay-direct".to_owned(),
            trade_no: request.order_id.clone(),
            pay_url,
            qr_code,
            client_secret: None,
        };
        Ok(PaymentPlan::Ready { response })
    }

    fn refund(&self, request: &RefundPaymentRequest) -> (r: Result<FormRequest, String>) {
        Err("refund is not implemented for alipay-direct in Rust MVP".to_owned())
    }
}

// ---------------------------------------------------------------------------
// Wxpay
// ---------------------------------------------------------------------------
/// Wxpay without a gateway between.
#[derive(Debug)]
pub struct WxpayProvider {
    pub config: TextMap<String>,
    pub env: TextMap<String>,
}

/// The link that opens a payment in the Wxpay app.
pub open spec fn wxpay_link(
    config: Map<Seq<char>, String>,
    env: Map<Seq<char>, String>,
    request: CreatePaymentRequest,
) -> Seq<char> {
    let app_id = match setting(config, env, "appId"@, "WXPAY_APP_ID"@) {
        Some(id) => id,
        None => "mock-wx-app-id"@,
    };
    "weixin://wxpay/bizpayurl?appid="@ + app_id + "&out_trade_no="@ + request.order_id@ + "&amount="@
        + money::amount(request.amount_cents as int)
}

pub open spec fn wxpay_payment(
    config: Map<Seq<char>, String>,
    env: Map<Seq<char>, String>,
    request: CreatePaymentRequest,
) -> PaymentView {
    let link = wxpay_link(config, env, request);
    PaymentView {
        provider_name: "wxpay-direct"@,
        trade_no: request.order_id@,
        pay_url: if request.is_mobile { Some(link) } else { None },
        qr_code: if request.is_mobile { None } else { Some(link) },
        client_secret: None,
    }
}

impl PaymentProvider for WxpayProvider {
    open spec fn label(&self) -> Seq<char> {
        "wxpay-direct"@
    }

    open spec fn offers(&self) -> Seq<Seq<char>> {
        seq!["wxpay"@]
    }

    open spec fn wf(&self) -> bool {
        self.config.wf() && self.env.wf()
    }

    open spec fn payment(&self, request: CreatePaymentRequest) -> Result<PlanView, Seq<char>> {
        Ok(PlanView::Ready { response: wxpay_payment(self.config@, self.env@, request) })
    }

    open spec fn refunding(&self, request: RefundPaymentRequest) -> Result<FormView, Seq<char>> {
        Err("refund is not implemented for wxpay-direct in Rust MVP"@)
    }

    fn name(&self) -> (r: &'static str) {
        "wxpay-direct"
    }

    fn supported_types(&self) -> (r: Vec<&'static str>) {
        let r: Vec<&'static str> = vec!["wxpay"];
        assert(payment::str_texts(r@) =~= seq!["wxpay"@]);
        r
    }

    fn create_payment(&self, request: &CreatePaymentRequest) -> (r: Result<PaymentPlan, String>) {
        let app_id = match find_setting(&self.config, &self.env, "appId", "WXPAY_APP_ID") {
            Some(id) => id,
            None => "mock-wx-app-id",
        };
        let mut link = text::cat("weixin://wxpay/bizpayurl?appid=", app_id);
        link.append("&out_trade_no=");
        link.append(request.order_id.as_str());
        link.append("&amount=");
        let amount = money::amount_text(request.amount_cents);
        link.append(amount.as_str());
        let (pay_url, qr_code) = if request.is_mobile {
            (Some(link), None)
        } else {
            (None, Some(link))
        };
        let response = CreatePaymentResponse {
            provider_name: "wxpay-direct".to_owned(),
            trade_no: request.order_id.clone(),
            pay_url,
            qr_code,
            client_secret: None,
        };
        Ok(PaymentPlan::Ready { response })
    }

    fn refund(&self, request: &RefundPaymentRequest) -> (r: Result<FormRequest, String>) {
        Err("refund is not implemented for wxpay-direct in Rust MVP".to_owned())
    }
}

// ---------------------------------------------------------------------------
// Stripe
// ---------------------------------------------------------------------------
/// Stripe, with the settings of an instance and those of the environment.
#[derive(Debug)]
pub struct StripeProvider {
    pub config: TextMap<String>,
    pub env: TextMap<String>,
}

pub open spec fn stripe_base(config: Map<Seq<char>, String>, env: Map<Seq<char>, String>) -> Seq<
    char,
> {
    match setting(config, env, "apiBase"@, "STRIPE_API_BASE"@) {
        Some(base) => text::without_trailing(base, '/'),
        None => text::without_trailing("https://api.stripe.com"@, '/'),
    }
}

/// A form to Stripe, which carries the secret key.
pub open spec fn stripe_form(
    config: Map<Seq<char>, String>,
    env: Map<Seq<char>, String>,
    path: Seq<char>,
    params: Seq<(Seq<char>, Seq<char>)>,
) -> Result<FormView, Seq<char>> {
    match setting(config, env, "secretKey"@, "STRIPE_SECRET_KEY"@) {
        None => Err("STRIPE_SECRET_KEY is required for Stripe"@),
        Some(key) => Ok(
            FormView { url: stripe_base(config, env) + path, bearer: Some(key), params },
        ),
    }
}

pub open spec fn stripe_payment(
    config: Map<Seq<char>, String>,
    env: Map<Seq<char>, String>,
    request: CreatePaymentRequest,
) -> Result<FormView, Seq<char>> {
    stripe_form(
        config,
        env,
        "/v1/payment_intents"@,
        seq![
            ("amount"@, text::decimal(request.amount_cents as int)),
            ("currency"@, "cny"@),
            ("automatic_payment_methods[enabled]"@, "true"@),
            ("description"@, request.subject@),
            ("metadata[orderId]"@, request.order_id@),
        ],
    )
}

pub open spec fn stripe_refund(
    config: Map<Seq<char>, String>,
    env: Map<Seq<char>, String>,
    request: RefundPaymentRequest,
) -> Result<FormView, Seq<char>> {
    stripe_form(
        config,
        env,
        "/v1/refunds"@,
        seq![
            ("payment_intent"@, request.trade_no@),
            ("amount"@, text::decimal(request.amount_cents as int)),
            ("reason"@, "requested_by_customer"@),
        ],
    )
}

impl StripeProvider {
    fn form(&self, path: &str, params: Vec<(String, String)>) -> (r: Result<FormRequest, String>)
        requires
            self.config.wf(),
            self.env.wf(),
        ensures
            form_view(r) == stripe_form(self.config@, self.env@, path@, maps::pairs(params@)),
    {
        let key = match find_setting(&self.config, &self.env, "secretKey", "STRIPE_SECRET_KEY") {
            Some(k) => k.to_owned(),
            None => {
                return Err("STRIPE_SECRET_KEY is required for Stripe".to_owned());
            },
        };
        let base = match find_setting(&self.config, &self.env, "apiBase", "STRIPE_API_BASE") {
            Some(b) => b,
            None => "https://api.stripe.com",
        };
        let url = text::cat(text::trim_end_matches(base, '/'), path);
        Ok(FormRequest { url, bearer: Some(key), params })
    }
}

impl PaymentProvider for StripeProvider {
    open spec fn label(&self) -> Seq<char> {
        "stripe"@
    }

    open spec fn offers(&self) -> Seq<Seq<char>> {
        seq!["stripe"@]
    }

    open spec fn wf(&self) -> bool {
        self.config.wf() && self.env.wf()
    }

    open spec fn payment(&self, request: CreatePaymentRequest) -> Result<PlanView, Seq<char>> {
        match stripe_payment(self.config@, self.env@, request) {
            Ok(form) => Ok(PlanView::Send { form }),
            Err(e) => Err(e),
        }
    }

    open spec fn refunding(&self, request: RefundPaymentRequest) -> Result<FormView, Seq<char>> {
        stripe_refund(self.config@, self.env@, request)
    }

    fn name(&self) -> (r: &'static str) {
        "stripe"
    }

    fn supported_types(&self) -> (r: Vec<&'static str>) {
        let r: Vec<&'static str> = vec!["stripe"];
        assert(payment::str_texts(r@) =~= seq!["stripe"@]);
        r
    }

    fn create_payment(&self, request: &CreatePaymentRequest) -> (r: Result<PaymentPlan, String>) {
        let amount = text::i64_text(request.amount_cents);
        let mut params: Vec<(String, String)> = Vec::new();
        push_param(&mut params, "amount", amount.as_str());
        push_param(&mut params, "currency", "cny");
        push_param(&mut params, "automatic_payment_methods[enabled]", "true");
        push_param(&mut params, "description", request.subject.as_str());
        push_param(&mut params, "metadata[orderId]", request.order_id.as_str());
        assert(maps::pairs(params@) =~= seq![
            ("amount"@, text::decimal(request.amount_cents as int)),
            ("currency"@, "cny"@),
            ("automatic_payment_methods[enabled]"@, "true"@),
            ("description"@, request.subject@),
            ("metadata[orderId]"@, request.order_id@),
        ]);
        match self.form("/v1/payment_intents", params) {
            Ok(form) => Ok(PaymentPlan::Send { form }),
            Err(e) => Err(e),
        }
    }

    fn refund(&self, request: &RefundPaymentRequest) -> (r: Result<FormRequest, String>) {
        let amount = text::i64_text(request.amount_cents);
        let mut params: Vec<(String, String)> = Vec::new();
        push_param(&mut params, "payment_intent", request.trade_no.as_str());
        push_param(&mut params, "amount", amount.as_str());
        push_param(&mut params, "reason", "requested_by_customer");
        assert(maps::pairs(params@) =~= seq![
            ("payment_intent"@, request.trade_no@),
            ("amount"@, text::decimal(request.amount_cents as int)),
            ("reason"@, "requested_by_customer"@),
        ]);
        self.form("/v1/refunds", params)
    }
}

// ---------------------------------------------------------------------------
// The provider for a payment type
// ---------------------------------------------------------------------------
/// One of the providers.
#[derive(Debug)]
pub enum Provider {
    EasyPay { easypay: EasyPayProvider },
    Alipay { alipay: AlipayProvider },
    Wxpay { wxpay: WxpayProvider },
    Stripe { stripe: StripeProvider },
}

impl PaymentProvider for Provider {
    open spec fn label(&self) -> Seq<char> {
        match self {
            Provider::EasyPay { easypay } => easypay.label(),
            Provider::Alipay { alipay } => alipay.label(),
            Provider::Wxpay { wxpay } => wxpay.label(),
            Provider::Stripe { stripe } => stripe.label(),
        }
    }

    open spec fn offers(&self) -> Seq<Seq<char>> {
        match self {
            Provider::EasyPay { easypay } => easypay.offers(),
            Provider::Alipay { alipay } => alipay.offers(),
            Provider::Wxpay { wxpay } => wxpay.offers(),
            Provider::Stripe { stripe } => stripe.offers(),
        }
    }

    open spec fn wf(&self) -> bool {
        match self {
            Provider::EasyPay { easypay } => easypay.wf(),
            Provider::Alipay { alipay } => alipay.wf(),
            Provider::Wxpay { wxpay } => wxpay.wf(),
            Provider::Stripe { stripe } => stripe.wf(),
        }
    }

    open spec fn payment(&self, request: CreatePaymentRequest) -> Result<PlanView, Seq<char>> {
        match self {
            Provider::EasyPay { easypay } => easypay.payment(request),
            Provider::Alipay { alipay } => alipay.payment(request),
            Provider::Wxpay { wxpay } => wxpay.payment(request),
            Provider::Stripe { stripe } => stripe.payment(request),
        }
    }

    open spec fn refunding(&self, request: RefundPaymentRequest) -> Result<FormView, Seq<char>> {
        match self {
            Provider::EasyPay { easypay } => easypay.refunding(request),
            Provider::Alipay { alipay } => alipay.refunding(request),
            Provider::Wxpay { wxpay } => wxpay.refunding(request),
            Provider::Stripe { stripe } => stripe.refunding(request),
        }
    }

    fn name(&self) -> (r: &'static str) {
        match self {
            Provider::EasyPay { easypay } => easypay.name(),
            Provider::Alipay { alipay } => alipay.name(),
            Provider::Wxpay { wxpay } => wxpay.name(),
            Provider::Stripe { stripe } => stripe.name(),
        }
    }

    fn supported_types(&self) -> (r: Vec<&'static str>) {
        match self {
            Provider::EasyPay { easypay } => easypay.supported_types(),
            Provider::Alipay { alipay } => alipay.supported_types(),
            Provider::Wxpay { wxpay } => wxpay.supported_types(),
            Provider::Stripe { stripe } => stripe.supported_types(),
        }
    }

    fn create_payment(&self, request: &CreatePaymentRequest) -> (r: Result<PaymentPlan, String>) {
        match self {
            Provider::EasyPay { easypay } => easypay.create_payment(request),
            Provider::Alipay { alipay } => alipay.create_payment(request),
            Provider::Wxpay { wxpay } => wxpay.create_payment(request),
            Provider::Stripe { stripe } => stripe.create_payment(request),
        }
    }

    fn refund(&self, request: &RefundPaymentRequest) -> (r: Result<FormRequest, String>) {
        match self {
            Provider::EasyPay { easypay } => easypay.refund(request),
            Provider::Alipay { alipay } => alipay.refund(request),
            Provider::Wxpay { wxpay } => wxpay.refund(request),
            Provider::Stripe { stripe } => stripe.refund(request),
        }
    }
}

/// The provider that is built for a provider key.
pub open spec fn provider_of(key: Seq<char>, config: TextMap<String>, env: TextMap<String>) -> Option<
    Provider,
> {
    if key == "easypay"@ {
        Some(Provider::EasyPay { easypay: EasyPayProvider { config, env } })
    } else if key == "alipay"@ {
        Some(Provider::Alipay { alipay: AlipayProvider { config, env } })
    } else if key == "wxpay"@ {
        Some(Provider::Wxpay { wxpay: WxpayProvider { config, env } })
    } else if key == "stripe"@ {
        Some(Provider::Stripe { stripe: StripeProvider { config, env } })
    } else {
        None
    }
}

/// The provider that takes a payment type, with the settings of an instance (none without
/// an instance) and of the environment.
pub fn build_provider(payment_type: &str, config: TextMap<String>, env: TextMap<String>) -> (r:
    Result<Provider, String>)
    requires
        config.wf(),
        env.wf(),
    ensures
        match r {
            Ok(p) => p.wf() && key_of_type(payment_type@) is Some && provider_of(
                key_of_type(payment_type@)->0,
                config,
                env,
            ) == Some(p) && p.offers().contains(base_type(payment_type@)),
            Err(e) => key_of_type(payment_type@) is None && e@ == "unsupported payment type "@
                + payment_type@,
        },
{
    let key = match provider_key_for_type(payment_type) {
        Some(k) => k,
        None => {
            return Err(text::cat("unsupported payment type ", payment_type));
        },
    };
    proof {
        lemma_providers_differ();
        lemma_base_types();
    }
    let provider = if text::same(key, "easypay") {
        Provider::EasyPay { easypay: EasyPayProvider { config, env } }
    } else if text::same(key, "alipay") {
        Provider::Alipay { alipay: AlipayProvider { config, env } }
    } else if text::same(key, "wxpay") {
        Provider::Wxpay { wxpay: WxpayProvider { config, env } }
    } else {
        Provider::Stripe { stripe: StripeProvider { config, env } }
    };
    proof {
        assert(provider.offers()[0] == "alipay"@ || provider.offers()[0] == "wxpay"@
            || provider.offers()[0] == "stripe"@);
        assert(provider is EasyPay ==> provider.offers()[1] == "wxpay"@);
    }
    Ok(provider)
}

proof fn lemma_providers_differ()
    ensures
        "easypay"@ != "alipay"@,
        "easypay"@ != "wxpay"@,
        "easypay"@ != "stripe"@,
        "alipay"@ != "wxpay"@,
        "alipay"@ != "stripe"@,
        "wxpay"@ != "stripe"@,
{
    reveal_strlit("easypay");
    reveal_strlit("alipay");
    reveal_strlit("wxpay");
    reveal_strlit("stripe");
    assert("easypay"@[0] != "alipay"@[0]);
    assert("easypay"@[0] != "wxpay"@[0]);
    assert("easypay"@[0] != "stripe"@[0]);
    assert("alipay"@[0] != "wxpay"@[0]);
    assert("alipay"@[0] != "stripe"@[0]);
    assert("wxpay"@[0] != "stripe"@[0]);
}

proof fn lemma_base_types()
    ensures
        base_type("alipay"@) == "alipay"@,
        base_type("alipay_direct"@) == "alipay"@,
        base_type("wxpay"@) == "wxpay"@,
        base_type("wxpay_direct"@) == "wxpay"@,
        base_type("stripe"@) == "stripe"@,
{
    reveal_strlit("alipay");
    reveal_strlit("alipay_direct");
    reveal_strlit("wxpay");
    reveal_strlit("wxpay_direct");
    reveal_strlit("stripe");
    assert("alipay"@.is_prefix_of("alipay"@));
    assert("alipay"@.is_prefix_of("alipay_direct"@));
    assert("wxpay"@.is_prefix_of("wxpay"@));
    assert("wxpay"@.is_prefix_of("wxpay_direct"@));
    assert("stripe"@.is_prefix_of("stripe"@));
    assert("alipay"@[0] == 'a');
    assert("wxpay"@[0] == 'w' && "wxpay_direct"@[0] == 'w' && "stripe"@[0] == 's');
    assert(!"alipay"@.is_prefix_of("wxpay"@)) by {
        if "alipay"@.is_prefix_of("wxpay"@) {
            assert("wxpay"@.take(6)[0] == 'w');
        }
    }
    assert(!"alipay"@.is_prefix_of("wxpay_direct"@)) by {
        if "alipay"@.is_prefix_of("wxpay_direct"@) {
            assert("wxpay_direct"@.take(6)[0] == 'w');
        }
    }
    assert(!"alipay"@.is_prefix_of("stripe"@)) by {
        if "alipay"@.is_prefix_of("stripe"@) {
            assert("stripe"@.take(6)[0] == 's');
        }
    }
    assert(!"wxpay"@.is_prefix_of("stripe"@)) by {
        if "wxpay"@.is_prefix_of("stripe"@) {
            assert("stripe"@.take(5)[0] == 's');
        }
    }
}

// ---------------------------------------------------------------------------
// The answers of the gateways
// ---------------------------------------------------------------------------
/// Why a gateway gave no answer that can be used.
#[derive(Debug)]
pub enum CallFault {
    Unsent { reason: String },
    Refused { status: String, body: String },
    Unreadable { reason: String },
}

pub open spec fn fault_text(what: Seq<char>, fault: CallFault) -> Seq<char> {
    match fault {
        CallFault::Unsent { reason } => what + " request failed: "@ + reason@,
        CallFault::Refused { status, body } => what + " failed ("@ + status@ + "): "@ + body@,
        CallFault::Unreadable { reason } => what + " response decode failed: "@ + reason@,
    }
}

fn fault_message(what: &str, fault: &CallFault) -> (r: String)
    ensures
        r@ == fault_text(what@, *fault),
{
    match fault {
        CallFault::Unsent { reason } => text::cat3(what, " request failed: ", reason.as_str()),
        CallFault::Refused { status, body } => {
            let mut s = text::cat3(what, " failed (", status.as_str());
            s.append("): ");
            s.append(body.as_str());
            s
        },
        CallFault::Unreadable { reason } => text::cat3(
            what,
            " response decode failed: ",
            reason.as_str(),
        ),
    }
}

#[derive(Debug)]
pub struct EasyPayCreateResponse {
    pub code: i64,
    pub msg: Option<String>,
    pub trade_no: String,
    pub payurl: Option<String>,
    pub payurl2: Option<String>,
    pub qrcode: Option<String>,
}

#[derive(Debug)]
pub struct EasyPayRefundResponse {
    pub code: i64,
    pub msg: Option<String>,
}

#[derive(Debug)]
pub struct StripeCreatePaymentIntentResponse {
    pub id: String,
    pub client_secret: Option<String>,
}

#[derive(Debug)]
pub struct StripeRefundResponse {
    pub id: String,
    pub status: String,
}

pub open spec fn payment_view(r: Result<CreatePaymentResponse, String>) -> Result<
    PaymentView,
    Seq<char>,
> {
    match r {
        Ok(p) => Ok(p@),
        Err(e) => Err(e@),
    }
}

/// The contents of the answer to a request for a refund.
pub struct RefundView {
    pub provider_name: Seq<char>,
    pub refund_id: Seq<char>,
    pub status: Seq<char>,
}

impl RefundPaymentResponse {
    pub open spec fn view(&self) -> RefundView {
        RefundView {
            provider_name: self.provider_name@,
            refund_id: self.refund_id@,
            status: self.status@,
        }
    }
}

pub open spec fn refund_view(r: Result<RefundPaymentResponse, String>) -> Result<
    RefundView,
    Seq<char>,
> {
    match r {
        Ok(p) => Ok(p@),
        Err(e) => Err(e@),
    }
}

pub open spec fn or_unknown(msg: Option<Seq<char>>) -> Seq<char> {
    match msg {
        Some(m) => m,
        None => "unknown error"@,
    }
}

pub open spec fn easypay_created(
    answer: Result<EasyPayCreateResponse, CallFault>,
    is_mobile: bool,
) -> Result<PaymentView, Seq<char>> {
    match answer {
        Err(fault) => Err(fault_text("EasyPay create payment"@, fault)),
        Ok(data) => if data.code != 1 {
            Err("EasyPay create payment failed: "@ + or_unknown(db::opt_text(data.msg)))
        } else {
            Ok(
                PaymentView {
                    provider_name: "easy-pay"@,
                    trade_no: data.trade_no@,
                    pay_url: if is_mobile {
                        either(db::opt_text(data.payurl2), db::opt_text(data.payurl))
                    } else {
                        db::opt_text(data.payurl)
                    },
                    qr_code: db::opt_text(data.qrcode),
                    client_secret: None,
                },
            )
        },
    }
}

/// What comes of EasyPay's answer to a request for a payment.
pub fn read_easypay_payment(answer: Result<EasyPayCreateResponse, CallFault>, is_mobile: bool) -> (r:
    Result<CreatePaymentResponse, String>)
    ensures
        payment_view(r) == easypay_created(answer, is_mobile),
{
    let data = match answer {
        Ok(d) => d,
        Err(fault) => {
            return Err(fault_message("EasyPay create payment", &fault));
        },
    };
    if data.code != 1 {
        let why: &str = match &data.msg {
            Some(m) => m.as_str(),
            None => "unknown error",
        };
        return Err(text::cat("EasyPay create payment failed: ", why));
    }
    let pay_url = if is_mobile && data.payurl2.is_some() {
        data.payurl2
    } else {
        data.payurl
    };
    Ok(
        CreatePaymentResponse {
            provider_name: "easy-pay".to_owned(),
            trade_no: data.trade_no,
            pay_url,
            qr_code: data.qrcode,
            client_secret: None,
        },
    )
}

pub open spec fn easypay_refunded(
    answer: Result<EasyPayRefundResponse, CallFault>,
    trade_no: Seq<char>,
) -> Result<RefundView, Seq<char>> {
    match answer {
        Err(fault) => Err(fault_text("EasyPay refund"@, fault)),
        Ok(data) => if data.code != 1 {
            Err("EasyPay refund failed: "@ + or_unknown(db::opt_text(data.msg)))
        } else {
            Ok(
                RefundView {
                    provider_name: "easy-pay"@,
                    refund_id: trade_no + "-refund"@,
                    status: "success"@,
                },
            )
        },
    }
}

/// What comes of EasyPay's answer to a request for a refund.
pub fn read_easypay_refund(answer: Result<EasyPayRefundResponse, CallFault>, trade_no: &str) -> (r:
    Result<RefundPaymentResponse, String>)
    ensures
        refund_view(r) == easypay_refunded(answer, trade_no@),
{
    let data = match answer {
        Ok(d) => d,
        Err(fault) => {
            return Err(fault_message("EasyPay refund", &fault));
        },
    };
    if data.code != 1 {
        let why: &str = match &data.msg {
            Some(m) => m.as_str(),
            None => "unknown error",
        };
        return Err(text::cat("EasyPay refund failed: ", why));
    }
    Ok(
        RefundPaymentResponse {
            provider_name: "easy-pay".to_owned(),
            refund_id: text::cat(trade_no, "-refund"),
            status: "success".to_owned(),
        },
    )
}

pub open spec fn stripe_created(
    answer: Result<StripeCreatePaymentIntentResponse, CallFault>,
) -> Result<PaymentView, Seq<char>> {
    match answer {
        Err(fault) => Err(fault_text("Stripe create payment"@, fault)),
        Ok(data) => Ok(
            PaymentView {
                provider_name: "stripe"@,
                trade_no: data.id@,
                pay_url: None,
                qr_code: None,
                client_secret: db::opt_text(data.client_secret),
            },
        ),
    }
}

/// What comes of Stripe's answer to a request for a payment.
pub fn read_stripe_payment(answer: Result<StripeCreatePaymentIntentResponse, CallFault>) -> (r:
    Result<CreatePaymentResponse, String>)
    ensures
        payment_view(r) == stripe_created(answer),
{
    match answer {
        Err(fault) => Err(fault_message("Stripe create payment", &fault)),
        Ok(data) => Ok(
            CreatePaymentResponse {
                provider_name: "stripe".to_owned(),
                trade_no: data.id,
                pay_url: None,
                qr_code: None,
                client_secret: data.client_secret,
            },
        ),
    }
}

pub open spec fn stripe_refunded(answer: Result<StripeRefundResponse, CallFault>) -> Result<
    RefundView,
    Seq<char>,
> {
    match answer {
        Err(fault) => Err(fault_text("Stripe refund"@, fault)),
        Ok(data) => Ok(
            RefundView { provider_name: "stripe"@, refund_id: data.id@, status: data.status@ },
        ),
    }
}

/// What comes of Stripe's answer to a request for a refund.
pub fn read_stripe_refund(answer: Result<StripeRefundResponse, CallFault>) -> (r: Result<
    RefundPaymentResponse,
    String,
>)
    ensures
        refund_view(r) == stripe_refunded(answer),
{
    match answer {
        Err(fault) => Err(fault_message("Stripe refund", &fault)),
        Ok(data) => Ok(
            RefundPaymentResponse {
                provider_name: "stripe".to_owned(),
                refund_id: data.id,
                status: data.status,
            },
        ),
    }
}

// ---------------------------------------------------------------------------
// The settings of instances
// ---------------------------------------------------------------------------
pub type Settings = Result<Map<Seq<char>, Seq<char>>, Seq<char>>;

/// The settings that a sealed text holds, or why they cannot be read.
pub open spec fn sealed_settings(key: Seq<u8>, sealed: Seq<char>) -> Settings {
    match crypto::opened(key, sealed) {
        Err(e) => Err(e.text()),
        Ok(plain) => plain_settings(json::json_string_map(plain)),
    }
}

/// The settings that came out of their JSON.
pub open spec fn plain_settings(read: Settings) -> Settings {
    match read {
        Err(e) => Err("invalid provider instance config JSON: "@ + e),
        Ok(m) => Ok(m),
    }
}

pub open spec fn settings_view(r: Result<TextMap<String>, String>) -> Settings {
    match r {
        Ok(m) => Ok(maps::text_map(m@)),
        Err(e) => Err(e@),
    }
}

/// Notes what the settings are when they cannot be read.
pub fn read_settings(read: Result<TextMap<String>, String>) -> (r: Result<TextMap<String>, String>)
    requires
        read matches Ok(m) ==> m.wf(),
    ensures
        settings_view(r) == plain_settings(settings_view(read)),
        r matches Ok(m) ==> m.wf(),
{
    match read {
        Ok(m) => Ok(m),
        Err(e) => Err(text::cat("invalid provider instance config JSON: ", e.as_str())),
    }
}

/// Opens the settings of an instance.
pub fn open_settings(admin_token: Option<&str>, sealed: &str) -> (r: Result<TextMap<String>, String>)
    ensures
        settings_view(r) == sealed_settings(crypto::key_of(admin_token), sealed@),
        r matches Ok(m) ==> m.wf(),
{
    match crypto::decrypt(admin_token, sealed) {
        Ok(plain) => read_settings(json::parse_string_map(plain.as_str())),
        Err(e) => Err(e.message().to_owned()),
    }
}

/// The settings of the instance that was asked for, which must be there and, where a
/// provider is named, belong to it.
pub open spec fn instance_settings(
    key: Seq<u8>,
    found: Option<ProviderInstanceRecord>,
    provider: Option<Seq<char>>,
) -> Settings {
    match found {
        None => Err("payment provider instance not found"@),
        Some(record) => if provider matches Some(p) && record.provider_key@ != p {
            Err("payment provider instance type mismatch"@)
        } else {
            sealed_settings(key, record.config@)
        },
    }
}

pub fn load_provider_instance_config(
    admin_token: Option<&str>,
    found: &Option<ProviderInstanceRecord>,
    expected_provider_key: Option<&str>,
) -> (r: Result<TextMap<String>, String>)
    ensures
        settings_view(r) == instance_settings(
            crypto::key_of(admin_token),
            *found,
            db::opt_str(expected_provider_key),
        ),
        r matches Ok(m) ==> m.wf(),
{
    let record = match found {
        None => {
            return Err("payment provider instance not found".to_owned());
        },
        Some(record) => record,
    };
    if let Some(key) = expected_provider_key {
        if !text::same(record.provider_key.as_str(), key) {
            return Err("payment provider instance type mismatch".to_owned());
        }
    }
    open_settings(admin_token, record.config.as_str())
}

// ---------------------------------------------------------------------------
// EasyPay's notifications
// ---------------------------------------------------------------------------
/// The parameters of a notification, and the instance that it names.
#[derive(Debug)]
pub struct EasyPayParams {
    pub params: TextMap<String>,
    pub instance: Option<String>,
}

/// Reads the query of a notification. The instance that it names is no parameter of it.
pub fn read_easypay_query(raw_query: &str) -> (r: Result<EasyPayParams, String>)
    ensures
        match urlencoded::query_map(raw_query@) {
            Err(e) => r matches Err(m) && m@ == "failed to decode EasyPay notification query: "@
                + e,
            Ok(m) => r matches Ok(p) && p.params.wf() && maps::text_map(p.params@) == m.remove(
                "inst"@,
            ) && db::opt_text(p.instance) == maps::found(m, "inst"@),
        },
{
    match urlencoded::parse_query(raw_query) {
        Err(e) => Err(text::cat("failed to decode EasyPay notification query: ", e.as_str())),
        Ok(m) => {
            let mut params = m;
            let ghost before = params@;
            let instance = params.remove("inst");
            assert(maps::text_map(params@) =~= maps::text_map(before).remove("inst"@));
            Ok(EasyPayParams { params, instance })
        },
    }
}

/// The contents of a verified notification.
pub struct NoticeView {
    pub provider_name: Seq<char>,
    pub trade_no: Seq<char>,
    pub order_id: Seq<char>,
    pub amount_cents: i64,
    pub success: bool,
}

impl VerifiedPaymentNotification {
    pub open spec fn view(&self) -> NoticeView {
        NoticeView {
            provider_name: self.provider_name@,
            trade_no: self.trade_no@,
            order_id: self.order_id@,
            amount_cents: self.amount_cents,
            success: self.success,
        }
    }
}

pub open spec fn notice_view(r: Result<VerifiedPaymentNotification, String>) -> Result<
    NoticeView,
    Seq<char>,
> {
    match r {
        Ok(n) => Ok(n@),
        Err(e) => Err(e@),
    }
}

pub open spec fn or_empty(s: Option<Seq<char>>) -> Seq<char> {
    match s {
        Some(t) => t,
        None => ""@,
    }
}

/// What a notification of EasyPay says: it is believed only if the merchant's key signs it,
/// it is for the merchant, and its money, in cents, is more than nothing.
pub open spec fn easypay_notice(
    config: Map<Seq<char>, String>,
    env: Map<Seq<char>, String>,
    params: Map<Seq<char>, Seq<char>>,
    money_cents: Option<i64>,
) -> Result<NoticeView, Seq<char>> {
    let pid = setting(config, env, "pid"@, "EASY_PAY_PID"@);
    let pkey = setting(config, env, "pkey"@, "EASY_PAY_PKEY"@);
    if pid is None {
        Err("EasyPay pid not configured"@)
    } else if pkey is None {
        Err("EasyPay pkey not configured"@)
    } else if !params.dom().contains("sign"@) {
        Err("EasyPay notification missing sign"@)
    } else if params["sign"@] != signing::easypay_map_sign(params, pkey->0) {
        Err("EasyPay notification signature verification failed"@)
    } else if params.dom().contains("pid"@) && params["pid"@] != pid->0 {
        Err("EasyPay notification pid mismatch"@)
    } else if money_cents is None || money_cents->0 <= 0 {
        Err("EasyPay notification invalid amount"@)
    } else {
        Ok(
            NoticeView {
                provider_name: "easy-pay"@,
                trade_no: or_empty(maps::found(params, "trade_no"@)),
                order_id: or_empty(maps::found(params, "out_trade_no"@)),
                amount_cents: money_cents->0,
                success: maps::found(params, "trade_status"@) == Some("TRADE_SUCCESS"@),
            },
        )
    }
}

fn text_under(m: &TextMap<String>, key: &str) -> (r: String)
    requires
        m.wf(),
    ensures
        r@ == or_empty(maps::found(maps::text_map(m@), key@)),
{
    match m.get(key) {
        Some(s) => s.clone(),
        None => "".to_owned(),
    }
}

/// Verifies a notification of EasyPay, whose money is given in cents where it is a number.
pub fn verify_easypay_notification(
    config: &TextMap<String>,
    env: &TextMap<String>,
    params: &TextMap<String>,
    money_cents: Option<i64>,
) -> (r: Result<VerifiedPaymentNotification, String>)
    requires
        config.wf(),
        env.wf(),
        params.wf(),
    ensures
        notice_view(r) == easypay_notice(config@, env@, maps::text_map(params@), money_cents),
{
    let pid = match find_setting(config, env, "pid", "EASY_PAY_PID") {
        Some(s) => s,
        None => {
            return Err("EasyPay pid not configured".to_owned());
        },
    };
    let pkey = match find_setting(config, env, "pkey", "EASY_PAY_PKEY") {
        Some(s) => s,
        None => {
            return Err("EasyPay pkey not configured".to_owned());
        },
    };
    let sign = match params.get("sign") {
        Some(s) => s.as_str(),
        None => {
            return Err("EasyPay notification missing sign".to_owned());
        },
    };
    let expected = signing::sign_params(params, pkey);
    if !hash::secure_equals(expected.as_str(), sign) {
        return Err("EasyPay notification signature verification failed".to_owned());
    }
    if let Some(given) = params.get("pid") {
        if !text::same(given.as_str(), pid) {
            return Err("EasyPay notification pid mismatch".to_owned());
        }
    }
    let amount_cents: i64 = match money_cents {
        Some(n) => n,
        None => 0,
    };
    if amount_cents <= 0 {
        return Err("EasyPay notification invalid amount".to_owned());
    }
    let success = match params.get("trade_status") {
        Some(s) => text::same(s.as_str(), "TRADE_SUCCESS"),
        None => false,
    };
    Ok(
        VerifiedPaymentNotification {
            provider_name: "easy-pay".to_owned(),
            trade_no: text_under(params, "trade_no"),
            order_id: text_under(params, "out_trade_no"),
            amount_cents,
            success,
        },
    )
}

// ---------------------------------------------------------------------------
// Stripe's webhooks
// ---------------------------------------------------------------------------
/// A payment intent, with the order for which it was made.
#[derive(Debug)]
pub struct StripePaymentIntent {
    pub id: String,
    pub amount: i64,
    pub order_id: Option<String>,
}

#[derive(Debug)]
pub struct StripeEvent {
    pub event_type: String,
    pub intent: StripePaymentIntent,
}

/// What an event says of a payment, if it says anything.
pub open spec fn stripe_notice(event: StripeEvent) -> Option<NoticeView> {
    let succeeded = event.event_type@ == "payment_intent.succeeded"@;
    if succeeded || event.event_type@ == "payment_intent.payment_failed"@ {
        Some(
            NoticeView {
                provider_name: "stripe"@,
                trade_no: event.intent.id@,
                order_id: or_empty(db::opt_text(event.intent.order_id)),
                amount_cents: event.intent.amount,
                success: succeeded,
            },
        )
    } else {
        None
    }
}

pub fn stripe_notification(event: StripeEvent) -> (r: Option<VerifiedPaymentNotification>)
    ensures
        match r {
            Some(n) => stripe_notice(event) == Some(n@),
            None => stripe_notice(event) is None,
        },
{
    let succeeded = text::same(event.event_type.as_str(), "payment_intent.succeeded");
    if succeeded || text::same(event.event_type.as_str(), "payment_intent.payment_failed") {
        let order_id = match event.intent.order_id {
            Some(id) => id,
            None => "".to_owned(),
        };
        Some(
            VerifiedPaymentNotification {
                provider_name: "stripe".to_owned(),
                trade_no: event.intent.id,
                order_id,
                amount_cents: event.intent.amount,
                success: succeeded,
            },
        )
    } else {
        None
    }
}

/// What comes of a webhook: its body must be text, be signed by one of the secrets, and be an
/// event.
pub open spec fn webhook_outcome(
    r: Result<Option<VerifiedPaymentNotification>, String>,
    payload: Result<Seq<char>, Seq<char>>,
    secrets: Result<Vec<String>, String>,
    header: Seq<char>,
    now: int,
    event: Result<StripeEvent, String>,
) -> bool {
    match payload {
        Err(why) => r matches Err(e) && e@ == "invalid Stripe webhook body: "@ + why,
        Ok(body) => match secrets {
            Err(why) => r matches Err(e) && e@ == why@,
            Ok(s) => if !signing::any_secret_signs(text::texts(s@), body, header, now) {
                r matches Err(e) && e@ == signing::webhook_refusal(text::texts(s@), header)
            } else {
                match event {
                    Err(why) => r matches Err(e) && e@ == "invalid Stripe event JSON: "@ + why@,
                    Ok(ev) => match stripe_notice(ev) {
                        None => r == Ok::<Option<VerifiedPaymentNotification>, String>(None),
                        Some(notice) => r matches Ok(Some(n)) && n@ == notice,
                    },
                }
            },
        },
    }
}

pub open spec fn read_as(payload: Result<&str, String>) -> Result<Seq<char>, Seq<char>> {
    match payload {
        Ok(s) => Ok(s@),
        Err(why) => Err(why@),
    }
}

/// Judges a webhook by its body as it was read, the secrets as they were found, and the
/// event that the body holds.
pub fn judge_stripe_webhook(
    payload: Result<&str, String>,
    secrets: Result<Vec<String>, String>,
    signature_header: &str,
    now: i64,
    event: Result<StripeEvent, String>,
) -> (r: Result<Option<VerifiedPaymentNotification>, String>)
    ensures
        webhook_outcome(
            r,
            read_as(payload),
            secrets,
            signature_header@,
            now as int,
            event,
        ),
{
    let body = match payload {
        Ok(s) => s,
        Err(why) => {
            return Err(text::cat("invalid Stripe webhook body: ", why.as_str()));
        },
    };
    let secrets = match secrets {
        Ok(s) => s,
        Err(why) => {
            return Err(why);
        },
    };
    match signing::verify_stripe_payload(&secrets, body, signature_header, now) {
        Err(e) => Err(e),
        Ok(()) => match event {
            Err(why) => Err(text::cat("invalid Stripe event JSON: ", why.as_str())),
            Ok(ev) => Ok(stripe_notification(ev)),
        },
    }
}

/// The text that the body of a webhook is, or why it is none.
pub open spec fn body_text(raw_body: Seq<u8>) -> Result<Seq<char>, Seq<char>> {
    if vstd::utf8::valid_utf8(raw_body) {
        Ok(vstd::utf8::decode_utf8(raw_body))
    } else {
        Err(crypto::utf8_fault(raw_body))
    }
}

/// What comes of a webhook. A body that is not UTF-8 is refused before anything else is
/// looked at.
pub fn verify_stripe_webhook(
    raw_body: &[u8],
    secrets: Result<Vec<String>, String>,
    signature_header: &str,
    now: i64,
    event: Result<StripeEvent, String>,
) -> (r: Result<Option<VerifiedPaymentNotification>, String>)
    ensures
        webhook_outcome(
            r,
            body_text(raw_body@),
            secrets,
            signature_header@,
            now as int,
            event,
        ),
{
    let payload = crypto::utf8_str(raw_body);
    proof {
        if payload is Ok {
            let s = payload->Ok_0@;
            vstd::utf8::encode_utf8_valid_utf8(s);
            vstd::utf8::encode_utf8_decode_utf8(s);
        }
    }
    judge_stripe_webhook(payload, secrets, signature_header, now, event)
}

/// The secrets that may sign a webhook: that of the environment, and those of the
/// instances that are enabled; or why they cannot be read.
pub open spec fn webhook_secrets(
    key: Seq<u8>,
    env_secret: Option<Seq<char>>,
    instances: Seq<ProviderInstanceRecord>,
) -> Result<Seq<Seq<char>>, Seq<char>>
    decreases instances.len(),
{
    if instances.len() == 0 {
        Ok(
            match env_secret {
                Some(s) => seq![s],
                None => seq![],
            },
        )
    } else {
        match webhook_secrets(key, env_secret, instances.drop_last()) {
            Err(e) => Err(e),
            Ok(before) => if !instances.last().enabled {
                Ok(before)
            } else {
                match sealed_settings(key, instances.last().config@) {
                    Err(e) => Err(e),
                    Ok(m) => Ok(with_secret(before, maps::found(m, "webhookSecret"@))),
                }
            },
        }
    }
}

/// The list with a secret that is not empty after it.
pub open spec fn with_secret(before: Seq<Seq<char>>, secret: Option<Seq<char>>) -> Seq<Seq<char>> {
    if secret matches Some(s) && s.len() > 0 {
        before.push(secret->0)
    } else {
        before
    }
}

proof fn lemma_secrets_fail(
    key: Seq<u8>,
    env_secret: Option<Seq<char>>,
    instances: Seq<ProviderInstanceRecord>,
    n: int,
)
    requires
        0 <= n <= instances.len(),
        webhook_secrets(key, env_secret, instances.take(n)) is Err,
    ensures
        webhook_secrets(key, env_secret, instances) == webhook_secrets(
            key,
            env_secret,
            instances.take(n),
        ),
    decreases instances.len() - n,
{
    if n < instances.len() {
        assert(instances.take(n + 1).drop_last() =~= instances.take(n));
        lemma_secrets_fail(key, env_secret, instances, n + 1);
    } else {
        assert(instances.take(n) =~= instances);
    }
}

pub fn stripe_webhook_secrets(
    admin_token: Option<&str>,
    env_secret: Option<&str>,
    instances: &Vec<ProviderInstanceRecord>,
) -> (r: Result<Vec<String>, String>)
    ensures
        match r {
            Ok(v) => webhook_secrets(
                crypto::key_of(admin_token),
                db::opt_str(env_secret),
                instances@,
            ) == Ok::<Seq<Seq<char>>, Seq<char>>(text::texts(v@)),
            Err(e) => webhook_secrets(
                crypto::key_of(admin_token),
                db::opt_str(env_secret),
                instances@,
            ) == Err::<Seq<Seq<char>>, Seq<char>>(e@),
        },
{
    let ghost key = crypto::key_of(admin_token);
    let ghost env = db::opt_str(env_secret);
    let mut secrets: Vec<String> = Vec::new();
    if let Some(s) = env_secret {
        secrets.push(s.to_owned());
        assert(text::texts(secrets@) =~= seq![s@]);
    } else {
        assert(text::texts(secrets@) =~= seq![]);
    }
    assert(instances@.take(0) =~= Seq::<ProviderInstanceRecord>::empty());
    let mut i: usize = 0;
    while i < instances.len()
        invariant
            i <= instances@.len(),
            key == crypto::key_of(admin_token),
            env == db::opt_str(env_secret),
            webhook_secrets(key, env, instances@.take(i as int)) == Ok::<
                Seq<Seq<char>>,
                Seq<char>,
            >(text::texts(secrets@)),
        decreases instances@.len() - i,
    {
        assert(instances@.take(i + 1).drop_last() =~= instances@.take(i as int));
        if instances[i].enabled {
            match open_settings(admin_token, instances[i].config.as_str()) {
                Err(e) => {
                    proof {
                        lemma_secrets_fail(key, env, instances@, i + 1);
                    }
                    return Err(e);
                },
                Ok(m) => {
                    if let Some(s) = m.get("webhookSecret") {
                        if !s.as_str().is_empty() {
                            let ghost before = text::texts(secrets@);
                            secrets.push(s.clone());
                            assert(text::texts(secrets@) =~= before.push(s@));
                        }
                    }
                },
            }
        }
        i += 1;
    }
    assert(instances@.take(i as int) =~= instances@);
    Ok(secrets)
}

// ---------------------------------------------------------------------------
// Laws
// ---------------------------------------------------------------------------
/// What EasyPay is sent for a payment carries the signature of everything that it carries.
pub proof fn law_easypay_payments_are_signed(
    config: Map<Seq<char>, String>,
    env: Map<Seq<char>, String>,
    request: CreatePaymentRequest,
)
    requires
        easypay_payment(config, env, request) is Ok,
    ensures
        ({
            let params = easypay_payment(config, env, request)->Ok_0.params;
            let pkey = setting(config, env, "pkey"@, "EASY_PAY_PKEY"@)->0;
            params.contains(("sign"@, signing::easypay_sign(params, pkey)))
        }),
{
    let pid = setting(config, env, "pid"@, "EASY_PAY_PID"@)->0;
    let pkey = setting(config, env, "pkey"@, "EASY_PAY_PKEY"@)->0;
    let notify_url = setting(config, env, "notifyUrl"@, "EASY_PAY_NOTIFY_URL"@)->0;
    let return_url = setting(config, env, "returnUrl"@, "EASY_PAY_RETURN_URL"@)->0;
    let cid = easypay_cid(config, env, base_type(request.payment_type@));
    let plain = easypay_unsigned(pid, notify_url, return_url, cid, request);
    let sign = signing::easypay_sign(plain, pkey);
    signing::law_signatures_are_not_signed(plain, pkey, sign, "MD5"@);
    assert(easypay_signed(plain, pkey)[plain.len() as int] == ("sign"@, sign));
}

/// A notification that is signed with the merchant's key, for the merchant and of a positive
/// amount is believed, whatever else it says, and says what its parameters say.
pub proof fn law_signed_notices_are_believed(
    config: Map<Seq<char>, String>,
    env: Map<Seq<char>, String>,
    params: Seq<(Seq<char>, Seq<char>)>,
    money_cents: i64,
)
    requires
        signing::distinct(params),
        forall|i: int|
            0 <= i < params.len() ==> (#[trigger] params[i]).0 != "sign"@ && params[i].0
                != "sign_type"@,
        setting(config, env, "pid"@, "EASY_PAY_PID"@) is Some,
        setting(config, env, "pkey"@, "EASY_PAY_PKEY"@) is Some,
        maps::found(maps::pairs_map(params), "pid"@) is None || maps::found(
            maps::pairs_map(params),
            "pid"@,
        ) == setting(config, env, "pid"@, "EASY_PAY_PID"@),
        money_cents > 0,
    ensures
        ({
            let pkey = setting(config, env, "pkey"@, "EASY_PAY_PKEY"@)->0;
            let plain = maps::pairs_map(params);
            let sent = maps::pairs_map(easypay_signed(params, pkey));
            easypay_notice(config, env, sent, Some(money_cents)) == Ok::<NoticeView, Seq<char>>(
                NoticeView {
                    provider_name: "easy-pay"@,
                    trade_no: or_empty(maps::found(plain, "trade_no"@)),
                    order_id: or_empty(maps::found(plain, "out_trade_no"@)),
                    amount_cents: money_cents,
                    success: maps::found(plain, "trade_status"@) == Some("TRADE_SUCCESS"@),
                },
            )
        }),
{
    let pkey = setting(config, env, "pkey"@, "EASY_PAY_PKEY"@)->0;
    let plain = maps::pairs_map(params);
    let sign = signing::easypay_sign(params, pkey);
    let a = params.push(("sign"@, sign));
    let b = a.push(("sign_type"@, "MD5"@));
    assert(b.drop_last() =~= a);
    assert(a.drop_last() =~= params);
    let sent = maps::pairs_map(b);
    assert(maps::pairs_map(a) == plain.insert("sign"@, sign));
    assert(sent == plain.insert("sign"@, sign).insert("sign_type"@, "MD5"@));
    lemma_parameter_names();
    assert(signing::distinct(b));
    signing::law_every_list_signs_the_map(b, sent, pkey);
    signing::law_signatures_are_not_signed(params, pkey, sign, "MD5"@);
    assert(sent["sign"@] == sign);
}

proof fn lemma_parameter_names()
    ensures
        "sign"@ != "sign_type"@,
        "sign"@ != "pid"@,
        "sign_type"@ != "pid"@,
        "sign"@ != "trade_no"@,
        "sign_type"@ != "trade_no"@,
        "sign"@ != "out_trade_no"@,
        "sign_type"@ != "out_trade_no"@,
        "sign"@ != "trade_status"@,
        "sign_type"@ != "trade_status"@,
{
    reveal_strlit("sign");
    reveal_strlit("sign_type");
    reveal_strlit("pid");
    reveal_strlit("trade_no");
    reveal_strlit("out_trade_no");
    reveal_strlit("trade_status");
    assert("sign"@.len() == 4 && "sign_type"@.len() == 9 && "pid"@.len() == 3);
    assert("trade_no"@.len() == 8 && "out_trade_no"@.len() == 12 && "trade_status"@.len() == 12);
}

/// The secret of an instance that is not enabled signs nothing: without such instances
/// the secrets are the same.
pub proof fn law_disabled_instances_sign_nothing(
    key: Seq<u8>,
    env_secret: Option<Seq<char>>,
    instances: Seq<ProviderInstanceRecord>,
)
    ensures
        webhook_secrets(key, env_secret, instances) == webhook_secrets(
            key,
            env_secret,
            instances.filter(|i: ProviderInstanceRecord| i.enabled),
        ),
    decreases instances.len(),
{
    reveal(Seq::filter);
    let on = |i: ProviderInstanceRecord| i.enabled;
    if instances.len() > 0 {
        let before = instances.drop_last();
        law_disabled_instances_sign_nothing(key, env_secret, before);
        if instances.last().enabled {
            assert(on(instances.last()));
            let kept = instances.filter(on);
            assert(kept == before.filter(on).push(instances.last()));
            assert(kept.drop_last() =~= before.filter(on));
        } else {
            assert(!on(instances.last()));
        }
    }
}

// ---------------------------------------------------------------------------
// Laws on what the gateways are sent and what they say
// ---------------------------------------------------------------------------
/// A setting of an instance comes before that of the environment.
pub proof fn law_instance_settings_come_first(
    config: Map<Seq<char>, String>,
    env: Map<Seq<char>, String>,
    key: Seq<char>,
    env_key: Seq<char>,
)
    ensures
        config.dom().contains(key) ==> setting(config, env, key, env_key) == Some(config[key]@),
        !config.dom().contains(key) && env.dom().contains(env_key) ==> setting(
            config,
            env,
            key,
            env_key,
        ) == Some(env[env_key]@),
        !config.dom().contains(key) && !env.dom().contains(env_key) ==> setting(
            config,
            env,
            key,
            env_key,
        ) is None,
{
}

/// The parameter stands in the form once, and with the value.
pub open spec fn carries(form: FormView, key: Seq<char>, value: Seq<char>) -> bool {
    &&& form.params.contains((key, value))
    &&& forall|i: int, j: int|
        0 <= i < form.params.len() && 0 <= j < form.params.len() && (#[trigger] form.params[i]).0
            == key && (#[trigger] form.params[j]).0 == key ==> i == j
}

/// A form to Stripe for a payment names the order once, in its metadata, and asks for the cents
/// of the request in cny; and an event that such a payment succeeded, which gives these back,
/// is read as a notice of that amount for that order.
pub proof fn law_stripe_payments_come_back_to_their_order(
    provider: StripeProvider,
    request: CreatePaymentRequest,
    form: FormView,
    event: StripeEvent,
)
    requires
        provider.payment(request) == Ok::<PlanView, Seq<char>>(PlanView::Send { form }),
    ensures
        carries(form, "metadata[orderId]"@, request.order_id@),
        carries(form, "amount"@, text::decimal(request.amount_cents as int)),
        carries(form, "currency"@, "cny"@),
        carries(form, "description"@, request.subject@),
        event.event_type@ == "payment_intent.succeeded"@ && event.intent.order_id is Some
            && form.params.contains(("metadata[orderId]"@, event.intent.order_id->0@))
            && form.params.contains(("amount"@, text::decimal(event.intent.amount as int))) ==> (
        stripe_notice(event) matches Some(n) && n.success && n.order_id == request.order_id@
            && n.amount_cents == request.amount_cents && n.trade_no == event.intent.id@),
{
    lemma_stripe_names();
    let p = form.params;
    assert(p[0] == ("amount"@, text::decimal(request.amount_cents as int)));
    assert(p[1] == ("currency"@, "cny"@));
    assert(p[3] == ("description"@, request.subject@));
    assert(p[4] == ("metadata[orderId]"@, request.order_id@));
    if event.intent.order_id is Some && p.contains(
        ("metadata[orderId]"@, event.intent.order_id->0@),
    ) {
        let i = choose|i: int|
            0 <= i < p.len() && p[i] == ("metadata[orderId]"@, event.intent.order_id->0@);
        assert(i == 4);
    }
    if p.contains(("amount"@, text::decimal(event.intent.amount as int))) {
        let i = choose|i: int|
            0 <= i < p.len() && p[i] == ("amount"@, text::decimal(event.intent.amount as int));
        assert(i == 0);
        text::law_decimal_read_back(event.intent.amount);
        text::law_decimal_read_back(request.amount_cents);
    }
}

proof fn lemma_stripe_names()
    ensures
        "amount"@.len() == 6,
        "currency"@.len() == 8,
        "automatic_payment_methods[enabled]"@.len() == 34,
        "description"@.len() == 11,
        "metadata[orderId]"@.len() == 17,
        "payment_intent"@.len() == 14,
        "reason"@.len() == 6,
        "amount"@[0] == 'a',
        "reason"@[0] == 'r',
{
    reveal_strlit("amount");
    reveal_strlit("currency");
    reveal_strlit("automatic_payment_methods[enabled]");
    reveal_strlit("description");
    reveal_strlit("metadata[orderId]");
    reveal_strlit("payment_intent");
    reveal_strlit("reason");
}

/// A form to Stripe goes to its payments or its refunds, under the secret key; without a key
/// none is made. A refund is of the payment and the cents of the request.
pub proof fn law_stripe_is_asked_under_its_key(
    provider: StripeProvider,
    request: CreatePaymentRequest,
    refund: RefundPaymentRequest,
)
    ensures
        ({
            let key = setting(
                provider.config@,
                provider.env@,
                "secretKey"@,
                "STRIPE_SECRET_KEY"@,
            );
            let base = match setting(
                provider.config@,
                provider.env@,
                "apiBase"@,
                "STRIPE_API_BASE"@,
            ) {
                Some(b) => b,
                None => "https://api.stripe.com"@,
            };
            &&& key is None ==> provider.payment(request) is Err && provider.refunding(
                refund,
            ) is Err
            &&& key is Some ==> (provider.payment(request) matches Ok(PlanView::Send { form })
                && form.bearer == key && form.url == text::without_trailing(base, '/')
                + "/v1/payment_intents"@)
            &&& key is Some ==> (provider.refunding(refund) matches Ok(form) && form.bearer == key
                && form.url == text::without_trailing(base, '/') + "/v1/refunds"@ && carries(
                form,
                "payment_intent"@,
                refund.trade_no@,
            ) && carries(form, "amount"@, text::decimal(refund.amount_cents as int)))
        }),
{
    lemma_stripe_names();
    if let Ok(form) = provider.refunding(refund) {
        assert(form.params[0] == ("payment_intent"@, refund.trade_no@));
        assert(form.params[1] == ("amount"@, text::decimal(refund.amount_cents as int)));
    }
}

/// A form to EasyPay for a payment is for the merchant, names the order, the method, the
/// subject and the money once each, and where the notice is to be sent; and is signed with the
/// merchant's key.
pub proof fn law_easypay_payments_name_their_order(
    provider: EasyPayProvider,
    request: CreatePaymentRequest,
    form: FormView,
)
    requires
        provider.payment(request) == Ok::<PlanView, Seq<char>>(PlanView::Send { form }),
    ensures
        ({
            let c = provider.config@;
            let e = provider.env@;
            &&& setting(c, e, "pid"@, "EASY_PAY_PID"@) is Some
            &&& carries(form, "pid"@, setting(c, e, "pid"@, "EASY_PAY_PID"@)->0)
            &&& carries(form, "out_trade_no"@, request.order_id@)
            &&& carries(form, "money"@, money::amount(request.amount_cents as int))
            &&& carries(form, "name"@, request.subject@)
            &&& "alipay"@.is_prefix_of(request.payment_type@) ==> carries(
                form,
                "type"@,
                "alipay"@,
            )
            &&& "wxpay"@.is_prefix_of(request.payment_type@) ==> carries(form, "type"@, "wxpay"@)
            &&& carries(
                form,
                "notify_url"@,
                setting(c, e, "notifyUrl"@, "EASY_PAY_NOTIFY_URL"@)->0,
            )
            &&& carries(
                form,
                "return_url"@,
                setting(c, e, "returnUrl"@, "EASY_PAY_RETURN_URL"@)->0,
            )
            &&& form.params.contains(("device"@, "mobile"@)) <==> request.is_mobile
            &&& form.params.contains(
                (
                    "sign"@,
                    signing::easypay_sign(
                        form.params,
                        setting(c, e, "pkey"@, "EASY_PAY_PKEY"@)->0,
                    ),
                ),
            )
            &&& form.url == text::without_trailing(
                setting(c, e, "apiBase"@, "EASY_PAY_API_BASE"@)->0,
                '/',
            ) + "/mapi.php"@
        }),
{
    law_easypay_payments_are_signed(provider.config@, provider.env@, request);
    lemma_easypay_names();
    let p = form.params;
    let n = p.len() as int;
    let pid = setting(provider.config@, provider.env@, "pid"@, "EASY_PAY_PID"@)->0;
    assert(p[0] == ("pid"@, pid));
    assert(p[1] == ("type"@, base_type(request.payment_type@)));
    assert(p[2] == ("out_trade_no"@, request.order_id@));
    assert(p[3].0 == "notify_url"@);
    assert(p[4].0 == "return_url"@);
    assert(p[5] == ("name"@, request.subject@));
    assert(p[6] == ("money"@, money::amount(request.amount_cents as int)));
    assert(p[7].0 == "clientip"@);
    assert(p[n - 1].0 == "sign_type"@ && p[n - 2].0 == "sign"@);
    assert forall|i: int| 8 <= i < n implies (#[trigger] p[i]).0 == "cid"@ || p[i].0 == "device"@
        || p[i].0 == "sign"@ || p[i].0 == "sign_type"@ by {}
    if request.is_mobile {
        assert(p[n - 3] == ("device"@, "mobile"@));
    }
    if "wxpay"@.is_prefix_of(request.payment_type@) {
        assert(request.payment_type@.take(5)[0] == 'w');
        if "alipay"@.is_prefix_of(request.payment_type@) {
            assert(request.payment_type@.take(6)[0] == 'a');
        }
    }
}

proof fn lemma_easypay_names()
    ensures
        "pid"@.len() == 3,
        "cid"@.len() == 3,
        "key"@.len() == 3,
        "pid"@[0] == 'p',
        "cid"@[0] == 'c',
        "key"@[0] == 'k',
        "type"@.len() == 4,
        "name"@.len() == 4,
        "sign"@.len() == 4,
        "type"@[0] == 't',
        "name"@[0] == 'n',
        "sign"@[0] == 's',
        "money"@.len() == 5,
        "device"@.len() == 6,
        "trade_no"@.len() == 8,
        "clientip"@.len() == 8,
        "trade_no"@[0] == 't',
        "clientip"@[0] == 'c',
        "sign_type"@.len() == 9,
        "notify_url"@.len() == 10,
        "return_url"@.len() == 10,
        "notify_url"@[0] == 'n',
        "return_url"@[0] == 'r',
        "out_trade_no"@.len() == 12,
        "alipay"@.len() == 6,
        "wxpay"@.len() == 5,
        "alipay"@[0] == 'a',
        "wxpay"@[0] == 'w',
{
    reveal_strlit("pid");
    reveal_strlit("cid");
    reveal_strlit("key");
    reveal_strlit("type");
    reveal_strlit("name");
    reveal_strlit("sign");
    reveal_strlit("money");
    reveal_strlit("device");
    reveal_strlit("trade_no");
    reveal_strlit("clientip");
    reveal_strlit("sign_type");
    reveal_strlit("notify_url");
    reveal_strlit("return_url");
    reveal_strlit("out_trade_no");
    reveal_strlit("alipay");
    reveal_strlit("wxpay");
}

/// EasyPay is asked to pay back the money of the request, of the payment and for the order,
/// by the merchant under its key.
pub proof fn law_easypay_refunds_name_their_payment(
    provider: EasyPayProvider,
    request: RefundPaymentRequest,
    form: FormView,
)
    requires
        provider.refunding(request) == Ok::<FormView, Seq<char>>(form),
    ensures
        ({
            let c = provider.config@;
            let e = provider.env@;
            &&& carries(form, "pid"@, setting(c, e, "pid"@, "EASY_PAY_PID"@)->0)
            &&& carries(form, "key"@, setting(c, e, "pkey"@, "EASY_PAY_PKEY"@)->0)
            &&& carries(form, "trade_no"@, request.trade_no@)
            &&& carries(form, "out_trade_no"@, request.order_id@)
            &&& carries(form, "money"@, money::amount(request.amount_cents as int))
            &&& form.url == text::without_trailing(
                setting(c, e, "apiBase"@, "EASY_PAY_API_BASE"@)->0,
                '/',
            ) + "/api.php?act=refund"@
        }),
{
    lemma_easypay_names();
    let p = form.params;
    assert(p[0].0 == "pid"@ && p[1].0 == "key"@);
    assert(p[2] == ("trade_no"@, request.trade_no@));
    assert(p[3] == ("out_trade_no"@, request.order_id@));
    assert(p[4] == ("money"@, money::amount(request.amount_cents as int)));
}

/// A form is made for EasyPay exactly where the merchant, its key, the address, and, for a
/// payment, where its notice and its buyer go are known.
pub proof fn law_easypay_needs_its_settings(
    provider: EasyPayProvider,
    request: CreatePaymentRequest,
    refund: RefundPaymentRequest,
)
    ensures
        ({
            let c = provider.config@;
            let e = provider.env@;
            let known = setting(c, e, "pid"@, "EASY_PAY_PID"@) is Some && setting(
                c,
                e,
                "pkey"@,
                "EASY_PAY_PKEY"@,
            ) is Some && setting(c, e, "apiBase"@, "EASY_PAY_API_BASE"@) is Some;
            &&& provider.refunding(refund) is Ok <==> known
            &&& provider.payment(request) is Ok <==> known && setting(
                c,
                e,
                "notifyUrl"@,
                "EASY_PAY_NOTIFY_URL"@,
            ) is Some && setting(c, e, "returnUrl"@, "EASY_PAY_RETURN_URL"@) is Some
            &&& provider.payment(request) matches Ok(plan) ==> plan is Send
        }),
{
}

/// Payments by Alipay and Wxpay are made through EasyPay, and those by Stripe through Stripe.
pub proof fn law_types_have_their_provider(config: TextMap<String>, env: TextMap<String>)
    ensures
        key_of_type("alipay"@) is Some,
        key_of_type("wxpay"@) is Some,
        key_of_type("stripe"@) is Some,
        provider_of(key_of_type("alipay"@)->0, config, env) matches Some(Provider::EasyPay {
            easypay,
        }) && easypay.config == config && easypay.env == env,
        provider_of(key_of_type("wxpay"@)->0, config, env) matches Some(Provider::EasyPay {
            easypay,
        }) && easypay.config == config && easypay.env == env,
        provider_of(key_of_type("stripe"@)->0, config, env) matches Some(Provider::Stripe {
            stripe,
        }) && stripe.config == config && stripe.env == env,
{
    lemma_providers_differ();
    reveal_strlit("alipay_direct");
    reveal_strlit("wxpay_direct");
    reveal_strlit("stripe");
    assert("alipay_direct"@.len() == 13 && "wxpay_direct"@.len() == 12 && "stripe"@.len() == 6);
}

/// A notice of EasyPay is believed only where it carries the signature of what it says under
/// the merchant's key, is not for another merchant, and is of some money; it is then of that
/// money, for the order and under the number that it gives, and of a success only where it
/// says so.
pub proof fn law_unsigned_notices_are_not_believed(
    config: Map<Seq<char>, String>,
    env: Map<Seq<char>, String>,
    params: Map<Seq<char>, Seq<char>>,
    money_cents: Option<i64>,
    notice: NoticeView,
)
    requires
        easypay_notice(config, env, params, money_cents) == Ok::<NoticeView, Seq<char>>(notice),
    ensures
        ({
            let pid = setting(config, env, "pid"@, "EASY_PAY_PID"@);
            let pkey = setting(config, env, "pkey"@, "EASY_PAY_PKEY"@);
            &&& pid is Some && pkey is Some
            &&& params.dom().contains("sign"@)
            &&& params["sign"@] == signing::easypay_map_sign(params, pkey->0)
            &&& params.dom().contains("pid"@) ==> params["pid"@] == pid->0
            &&& money_cents == Some(notice.amount_cents) && notice.amount_cents > 0
            &&& params.dom().contains("out_trade_no"@) ==> notice.order_id
                == params["out_trade_no"@]
            &&& params.dom().contains("trade_no"@) ==> notice.trade_no == params["trade_no"@]
            &&& notice.success <==> params.dom().contains("trade_status"@)
                && params["trade_status"@] == "TRADE_SUCCESS"@
            &&& notice.provider_name == "easy-pay"@
        }),
{
}

/// An event of Stripe is a notice exactly where a payment succeeded or failed: of its amount,
/// for the order that it names, and of a success only in the former case.
pub proof fn law_stripe_events_say_what_happened(event: StripeEvent)
    ensures
        ({
            let kind = event.event_type@;
            &&& stripe_notice(event) is Some <==> kind == "payment_intent.succeeded"@ || kind
                == "payment_intent.payment_failed"@
            &&& stripe_notice(event) matches Some(n) ==> {
                &&& n.success <==> kind == "payment_intent.succeeded"@
                &&& n.amount_cents == event.intent.amount
                &&& n.trade_no == event.intent.id@
                &&& event.intent.order_id matches Some(id) ==> n.order_id == id@
                &&& event.intent.order_id is None ==> n.order_id.len() == 0
                &&& n.provider_name == "stripe"@
            }
        }),
{
    reveal_strlit("");
}

/// A webhook of Stripe is believed only where its body is text that one of the secrets signs,
/// and is then what its event says.
pub proof fn law_unsigned_webhooks_are_not_believed(
    r: Result<Option<VerifiedPaymentNotification>, String>,
    payload: Result<Seq<char>, Seq<char>>,
    secrets: Result<Vec<String>, String>,
    header: Seq<char>,
    now: int,
    event: Result<StripeEvent, String>,
)
    requires
        webhook_outcome(r, payload, secrets, header, now, event),
    ensures
        r is Ok ==> payload is Ok && secrets is Ok && event is Ok && exists|i: int|
            0 <= i < secrets->Ok_0@.len() && signing::stripe_verdict(
                (#[trigger] secrets->Ok_0@[i])@,
                payload->Ok_0,
                header,
                now,
            ) == Ok::<bool, Seq<char>>(true),
        r matches Ok(Some(n)) ==> stripe_notice(event->Ok_0) == Some(n@),
        r matches Ok(None) ==> stripe_notice(event->Ok_0) is None,
{
    if r is Ok {
        let texts = text::texts(secrets->Ok_0@);
        let i = choose|i: int|
            0 <= i < texts.len() && signing::stripe_verdict(
                #[trigger] texts[i],
                payload->Ok_0,
                header,
                now,
            ) == Ok::<bool, Seq<char>>(true);
        assert(secrets->Ok_0@[i]@ == texts[i]);
    }
}

/// The secrets that may sign a webhook are that of the environment and those, not empty, of the
/// instances that are switched on; no other.
pub proof fn law_webhooks_are_signed_by_known_secrets(
    key: Seq<u8>,
    env_secret: Option<Seq<char>>,
    instances: Seq<ProviderInstanceRecord>,
    secret: Seq<char>,
)
    requires
        webhook_secrets(key, env_secret, instances) is Ok,
    ensures
        webhook_secrets(key, env_secret, instances)->Ok_0.contains(secret) <==> env_secret == Some(
            secret,
        ) || (secret.len() > 0 && exists|i: int|
            0 <= i < instances.len() && (#[trigger] instances[i]).enabled && (sealed_settings(
                key,
                instances[i].config@,
            ) matches Ok(m) && m.dom().contains("webhookSecret"@) && m["webhookSecret"@]
                == secret)),
    decreases instances.len(),
{
    let all = webhook_secrets(key, env_secret, instances)->Ok_0;
    if instances.len() == 0 {
        if env_secret is Some {
            assert(all[0] == env_secret->0);
        }
    } else {
        let before = instances.drop_last();
        let n = before.len() as int;
        law_webhooks_are_signed_by_known_secrets(key, env_secret, before, secret);
        let earlier = webhook_secrets(key, env_secret, before)->Ok_0;
        assert(instances[n] == instances.last());
        assert forall|i: int| 0 <= i < n implies #[trigger] before[i] == instances[i] by {}
        if earlier.contains(secret) {
            let j = choose|j: int| 0 <= j < earlier.len() && earlier[j] == secret;
            assert(all[j] == secret);
            if env_secret != Some(secret) {
                let i = choose|i: int|
                    0 <= i < before.len() && (#[trigger] before[i]).enabled && (sealed_settings(
                        key,
                        before[i].config@,
                    ) matches Ok(m) && m.dom().contains("webhookSecret"@) && m["webhookSecret"@]
                        == secret);
                assert(instances[i].enabled);
            }
        }
        if all.len() > earlier.len() {
            assert(all[earlier.len() as int] == all.last());
            assert(instances[n].enabled);
        }
        if all.contains(secret) && !earlier.contains(secret) {
            let j = choose|j: int| 0 <= j < all.len() && all[j] == secret;
            if j < earlier.len() {
                assert(earlier[j] == secret);
            }
        }
        if secret.len() > 0 && exists|i: int|
            0 <= i < instances.len() && (#[trigger] instances[i]).enabled && (sealed_settings(
                key,
                instances[i].config@,
            ) matches Ok(m) && m.dom().contains("webhookSecret"@) && m["webhookSecret"@]
                == secret) {
            let i = choose|i: int|
                0 <= i < instances.len() && (#[trigger] instances[i]).enabled && (sealed_settings(
                    key,
                    instances[i].config@,
                ) matches Ok(m) && m.dom().contains("webhookSecret"@) && m["webhookSecret"@]
                    == secret);
            if i < n {
                assert(before[i].enabled);
            }
        }
    }
}

/// What EasyPay answers is a payment or a refund only under the code 1; the payment is under
/// the number that it gives, and its buyer is sent to the address for phones on a phone where
/// there is one, else to the other.
pub proof fn law_easypay_answers_are_taken_by_their_code(
    created: EasyPayCreateResponse,
    is_mobile: bool,
    refunded: EasyPayRefundResponse,
    trade_no: Seq<char>,
)
    ensures
        easypay_created(Ok(created), is_mobile) is Ok <==> created.code == 1,
        easypay_created(Ok(created), is_mobile) matches Ok(p) ==> {
            let phone = is_mobile && created.payurl2 is Some;
            &&& p.trade_no == created.trade_no@
            &&& phone ==> p.pay_url == Some(created.payurl2->0@)
            &&& !phone ==> p.pay_url == db::opt_text(created.payurl)
            &&& p.qr_code == db::opt_text(created.qrcode)
            &&& p.client_secret is None
            &&& p.provider_name == "easy-pay"@
        },
        easypay_refunded(Ok(refunded), trade_no) is Ok <==> refunded.code == 1,
{
}

/// What Stripe answers is a payment under the intent's number, with the secret for the buyer's
/// page; and a refund under its own number, in the state that it gives. No answer is either.
pub proof fn law_stripe_answers_are_taken_as_they_are(
    created: StripeCreatePaymentIntentResponse,
    refunded: StripeRefundResponse,
    fault: CallFault,
)
    ensures
        stripe_created(Ok(created)) matches Ok(p) && p.trade_no == created.id@ && p.client_secret
            == db::opt_text(created.client_secret) && p.pay_url is None && p.qr_code is None
            && p.provider_name == "stripe"@,
        stripe_refunded(Ok(refunded)) matches Ok(p) && p.refund_id == refunded.id@ && p.status
            == refunded.status@ && p.provider_name == "stripe"@,
        stripe_created(Err(fault)) is Err,
        stripe_refunded(Err(fault)) is Err,
        easypay_created(Err(fault), true) is Err,
        easypay_created(Err(fault), false) is Err,
{
}

/// The settings of an instance are used only where it is there and is one of the provider that
/// is asked for; they are then what its sealed text opens to.
pub proof fn law_instances_serve_their_own_provider(
    key: Seq<u8>,
    found: Option<ProviderInstanceRecord>,
    provider: Option<Seq<char>>,
)
    ensures
        instance_settings(key, found, provider) is Ok ==> found is Some && (provider matches Some(
            p,
        ) ==> found->0.provider_key@ == p) && instance_settings(key, found, provider)
            == sealed_settings(key, found->0.config@),
        found is Some && (provider is None || provider == Some(found->0.provider_key@))
            ==> instance_settings(key, found, provider) == sealed_settings(
            key,
            found->0.config@,
        ),
{
}

/// What Stripe is asked names the order of the payment, once, and its amount.
pub proof fn law_stripe_is_told_the_order(
    provider: StripeProvider,
    request: CreatePaymentRequest,
    r: Result<PaymentPlan, String>,
    form: FormRequest,
)
    requires
        call_ensures(
            <StripeProvider as PaymentProvider>::create_payment,
            (&provider, &request),
            r,
        ),
        r == Ok::<PaymentPlan, String>(PaymentPlan::Send { form }),
    ensures
        form@.params.contains(("metadata[orderId]"@, request.order_id@)),
        form@.params.contains(("amount"@, text::decimal(request.amount_cents as int))),
        form@.params.contains(("currency"@, "cny"@)),
        forall|v: Seq<char>| #[trigger]
            form@.params.contains(("metadata[orderId]"@, v)) ==> v == request.order_id@,
{
    let p = form@.params;
    assert(provider.payment(request) == Ok::<PlanView, Seq<char>>(PlanView::Send { form: form@ }));
    lemma_stripe_names();
    assert(p[0] == ("amount"@, text::decimal(request.amount_cents as int)));
    assert(p[1] == ("currency"@, "cny"@));
    assert(p[4] == ("metadata[orderId]"@, request.order_id@));
    assert forall|v: Seq<char>| #[trigger]
        p.contains(("metadata[orderId]"@, v)) implies v == request.order_id@ by {
        let i = choose|i: int| 0 <= i < p.len() && p[i] == ("metadata[orderId]"@, v);
        assert(i == 4);
    }
}

/// The instance that a report names is told apart from the parameters that are signed.
pub proof fn law_reports_name_their_instance(
    query: &str,
    r: Result<EasyPayParams, String>,
    m: Map<Seq<char>, Seq<char>>,
    key: Seq<char>,
)
    requires
        call_ensures(read_easypay_query, (query,), r),
        urlencoded::query_map(query@) == Ok::<Map<Seq<char>, Seq<char>>, Seq<char>>(m),
    ensures
        r matches Ok(p) && {
            let read = maps::text_map(p.params@);
            &&& key != "inst"@ ==> (read.dom().contains(key) <==> m.dom().contains(key)) && (
            m.dom().contains(key) ==> read[key] == m[key])
            &&& !read.dom().contains("inst"@)
            &&& p.instance is Some <==> m.dom().contains("inst"@)
            &&& p.instance matches Some(i) ==> i@ == m["inst"@]
        },
{
}

/// A value of the environment that begins like a path may be the name of a file; anything else
/// stands for itself, without the spaces around it, and nothing for nothing.
pub proof fn law_values_may_name_files(raw: &str, r: EnvValue)
    requires
        call_ensures(classify_env_value, (raw,), r),
    ensures
        ({
            let v = text::trimmed(raw@);
            let path = v.len() >= 1 && v[0] == '/' || v.len() >= 2 && v[1] == ':';
            &&& r is Unset <==> v.len() == 0
            &&& r is FileOrPlain <==> path
            &&& r matches EnvValue::FileOrPlain { value } ==> value@ == v
            &&& r matches EnvValue::Plain { value } ==> value@ == v
        }),
{
}

/// The channels of a payment through Alipay are those set for Alipay, of another those set for
/// WeChat, and else those set for both; what the instance sets comes before the environment.
pub proof fn law_channels_are_those_of_the_method(
    config: Map<Seq<char>, String>,
    env: Map<Seq<char>, String>,
    method: Seq<char>,
)
    ensures
        ({
            let own = if method == "alipay"@ {
                "cidAlipay"@
            } else {
                "cidWxpay"@
            };
            let env_own = if method == "alipay"@ {
                "EASY_PAY_CID_ALIPAY"@
            } else {
                "EASY_PAY_CID_WXPAY"@
            };
            let list = |s: Seq<char>| text::joined(payment::csv_items(s), ","@);
            let told = |s: Seq<char>|
                easypay_cid(config, env, method) == if list(s).len() == 0 {
                    None
                } else {
                    Some(list(s))
                };
            &&& config.dom().contains(own) ==> told(config[own]@)
            &&& !config.dom().contains(own) && config.dom().contains("cid"@) ==> told(
                config["cid"@]@,
            )
            &&& !config.dom().contains(own) && !config.dom().contains("cid"@)
                && env.dom().contains(env_own) ==> told(env[env_own]@)
            &&& !config.dom().contains(own) && !config.dom().contains("cid"@)
                && !env.dom().contains(env_own) && env.dom().contains("EASY_PAY_CID"@) ==> told(
                env["EASY_PAY_CID"@]@,
            )
            &&& !config.dom().contains(own) && !config.dom().contains("cid"@)
                && !env.dom().contains(env_own) && !env.dom().contains("EASY_PAY_CID"@)
                ==> easypay_cid(config, env, method) is None
        }),
{
}

/// A payment type has a provider exactly where it is known, with the settings given.
pub proof fn law_types_are_built_with_their_settings(
    t: &str,
    config: TextMap<String>,
    env: TextMap<String>,
    r: Result<Provider, String>,
)
    requires
        call_ensures(build_provider, (t, config, env), r),
    ensures
        t@ == "alipay"@ || t@ == "wxpay"@ ==> (r matches Ok(Provider::EasyPay { easypay })
            && easypay.config == config && easypay.env == env),
        t@ == "stripe"@ ==> (r matches Ok(Provider::Stripe { stripe }) && stripe.config == config
            && stripe.env == env),
        r is Ok ==> t@ == "alipay"@ || t@ == "wxpay"@ || t@ == "alipay_direct"@ || t@
            == "wxpay_direct"@ || t@ == "stripe"@,
{
    law_types_have_their_provider(config, env);
}


/// The types that are paid for directly have the provider of their own name.
pub proof fn law_direct_types_have_their_provider(config: TextMap<String>, env: TextMap<String>)
    ensures
        key_of_type("alipay_direct"@) is Some && key_of_type("wxpay_direct"@) is Some,
        provider_of(key_of_type("alipay_direct"@)->0, config, env) matches Some(
            Provider::Alipay { alipay },
        ) && alipay.config == config && alipay.env == env,
        provider_of(key_of_type("wxpay_direct"@)->0, config, env) matches Some(
            Provider::Wxpay { wxpay },
        ) && wxpay.config == config && wxpay.env == env,
{
    lemma_providers_differ();
    reveal_strlit("alipay");
    reveal_strlit("wxpay");
    reveal_strlit("easypay");
    reveal_strlit("alipay_direct");
    reveal_strlit("wxpay_direct");
    reveal_strlit("stripe");
    assert("alipay"@.len() == 6 && "wxpay"@.len() == 5 && "easypay"@.len() == 7
        && "alipay_direct"@.len() == 13 && "wxpay_direct"@.len() == 12 && "stripe"@.len() == 6);
}

}
