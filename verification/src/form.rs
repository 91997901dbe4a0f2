//! The form encoder: every request is rendered as an ordered list of
//! `(name, value)` form fields.
//!
//! The order is fixed and deterministic for a given request: the `json`
//! marker first where JSON mode is requested, then the recipient fields,
//! then the option fields that are present. Absent or false options are
//! omitted entirely.

use vstd::prelude::*;
use vstd::string::StringExecFns;

use crate::request::{CheckCallAuthStatus, CheckCost, CheckCostOptions, CheckStatus, JsonMode,
    PerRecipient, SendOptions, SendSms, StartCallAuth};
use crate::text::{comma_join, dec_digits, join_comma_spec, u64_to_string};
use crate::value::{MessageText, RawPhoneNumber};

verus! {

/// The fields as text pairs.
pub open spec fn params_view(p: Seq<(String, String)>) -> Seq<(Seq<char>, Seq<char>)> {
    p.map_values(|f: (String, String)| (f.0@, f.1@))
}

/// The `json=1` marker, emitted only in JSON mode.
pub open spec fn json_marker(j: JsonMode) -> Seq<(Seq<char>, Seq<char>)> {
    if j is Json {
        seq![("json"@, "1"@)]
    } else {
        Seq::empty()
    }
}

/// The texts of a recipient list.
pub open spec fn phone_views(s: Seq<RawPhoneNumber>) -> Seq<Seq<char>> {
    s.map_values(|p: RawPhoneNumber| p@)
}

/// The option fields of a send request, in emission order; absent or false
/// options contribute nothing.
pub open spec fn send_options_params(o: SendOptions) -> Seq<(Seq<char>, Seq<char>)> {
    (match o.from {
        Some(f) => seq![("from"@, f@)],
        None => Seq::empty(),
    }) + (match o.ip {
        Some(ip) => seq![("ip"@, ip@)],
        None => Seq::empty(),
    }) + (match o.time {
        Some(t) => seq![("time"@, dec_digits(t@ as int))],
        None => Seq::empty(),
    }) + (match o.ttl {
        Some(t) => seq![("ttl"@, dec_digits(t@ as int))],
        None => Seq::empty(),
    }) + (if o.daytime {
        seq![("daytime"@, "1"@)]
    } else {
        Seq::empty()
    }) + (if o.translit {
        seq![("translit"@, "1"@)]
    } else {
        Seq::empty()
    }) + (if o.test {
        seq![("test"@, "1"@)]
    } else {
        Seq::empty()
    }) + (match o.partner_id {
        Some(p) => seq![("partner_id"@, p@)],
        None => Seq::empty(),
    })
}

/// The option fields of a cost request, in emission order.
pub open spec fn cost_options_params(o: CheckCostOptions) -> Seq<(Seq<char>, Seq<char>)> {
    (match o.from {
        Some(f) => seq![("from"@, f@)],
        None => Seq::empty(),
    }) + (if o.translit {
        seq![("translit"@, "1"@)]
    } else {
        Seq::empty()
    })
}

/// One bracketed field per entry: `to[<recipient>]` carrying that
/// recipient's text, in entry order.
pub open spec fn per_recipient_fields(msgs: Seq<(RawPhoneNumber, MessageText)>) -> Seq<
    (Seq<char>, Seq<char>),
>
    decreases msgs.len(),
{
    if msgs.len() == 0 {
        Seq::empty()
    } else {
        per_recipient_fields(msgs.drop_last()) + seq![
            ("to["@ + msgs.last().0@ + "]"@, msgs.last().1@),
        ]
    }
}

/// The whole field list of a send request.
pub open spec fn encode_send_sms_spec(req: &SendSms) -> Seq<(Seq<char>, Seq<char>)> {
    match req {
        SendSms::ToMany(t) => json_marker(t.options_spec().json) + seq![
            ("to"@, join_comma_spec(phone_views(t.recipients_spec()))),
            ("msg"@, t.msg_spec()@),
        ] + send_options_params(t.options_spec()),
        SendSms::PerRecipient(p) => json_marker(p.options_spec().json) + per_recipient_fields(
            p.messages_spec(),
        ) + send_options_params(p.options_spec()),
    }
}

/// The whole field list of a cost request.
pub open spec fn encode_check_cost_spec(req: &CheckCost) -> Seq<(Seq<char>, Seq<char>)> {
    match req {
        CheckCost::ToMany(t) => json_marker(t.options_spec().json) + seq![
            ("to"@, join_comma_spec(phone_views(t.recipients_spec()))),
            ("msg"@, t.msg_spec()@),
        ] + cost_options_params(t.options_spec()),
        CheckCost::PerRecipient(p) => json_marker(p.options_spec().json) + per_recipient_fields(
            p.messages_spec(),
        ) + cost_options_params(p.options_spec()),
    }
}

fn push_pair(params: &mut Vec<(String, String)>, name: &str, value: String)
    ensures
        params_view(final (params)@) == params_view(old(params)@) + seq![(name@, value@)],
{
    params.push((name.to_owned(), value));
    proof {
        assert(params_view(params@) =~= params_view(old(params)@) + seq![(name@, value@)]);
    }
}

fn push_json_marker(params: &mut Vec<(String, String)>, json: JsonMode)
    ensures
        params_view(final (params)@) == params_view(old(params)@) + json_marker(json),
{
    match json {
        JsonMode::Json => {
            push_pair(params, "json", "1".to_owned());
        },
        JsonMode::Plain => {
            proof {
                assert(params_view(params@) =~= params_view(params@) + Seq::empty());
            }
        },
    }
}

#[verifier::rlimit(100)]
fn push_send_options(params: &mut Vec<(String, String)>, options: &SendOptions)
    ensures
        params_view(final (params)@) == params_view(old(params)@) + send_options_params(*options),
{
    let ghost base = params_view(params@);
    let ghost o = *options;
    if let Some(from) = options.from.as_ref() {
        push_pair(params, "from", from.as_str().to_owned());
    }
    if let Some(ip) = options.ip.as_ref() {
        push_pair(params, "ip", ip.as_str().to_owned());
    }
    if let Some(time) = options.time {
        push_pair(params, "time", u64_to_string(time.value()));
    }
    if let Some(ttl) = options.ttl {
        push_pair(params, "ttl", u64_to_string(ttl.value() as u64));
    }
    if options.daytime {
        push_pair(params, "daytime", "1".to_owned());
    }
    if options.translit {
        push_pair(params, "translit", "1".to_owned());
    }
    if options.test {
        push_pair(params, "test", "1".to_owned());
    }
    if let Some(partner_id) = options.partner_id.as_ref() {
        push_pair(params, "partner_id", partner_id.as_str().to_owned());
    }
    proof {
        assert(params_view(params@) =~= base + send_options_params(o));
    }
}

fn push_cost_options(params: &mut Vec<(String, String)>, options: &CheckCostOptions)
    ensures
        params_view(final (params)@) == params_view(old(params)@) + cost_options_params(*options),
{
    let ghost base = params_view(params@);
    let ghost o = *options;
    if let Some(from) = options.from.as_ref() {
        push_pair(params, "from", from.as_str().to_owned());
    }
    if options.translit {
        push_pair(params, "translit", "1".to_owned());
    }
    proof {
        assert(params_view(params@) =~= base + cost_options_params(o));
    }
}

#[verifier::loop_isolation(false)]
fn joined_recipients(recipients: &Vec<RawPhoneNumber>) -> (r: String)
    ensures
        r@ == join_comma_spec(phone_views(recipients@)),
{
    let mut texts: Vec<String> = Vec::new();
    let mut i: usize = 0;
    while i < recipients.len()
        invariant
            0 <= i <= recipients@.len(),
            texts.deep_view() == phone_views(recipients@.take(i as int)),
        decreases recipients@.len() - i,
    {
        let ghost pre = texts@;
        texts.push(recipients[i].raw().to_owned());
        proof {
            let dv = texts.deep_view();
            let tgt = phone_views(recipients@.take(i + 1));
            assert forall|j: int| 0 <= j < i + 1 implies dv[j] == tgt[j] by {
                assert(dv[j] == texts@[j]@);
                assert(tgt[j] == recipients@.take(i + 1)[j]@);
                if j < i {
                    assert(texts@[j] == pre[j]);
                    assert(phone_views(recipients@.take(i as int))[j] == pre[j]@);
                }
            }
            assert(dv =~= tgt);
        }
        i = i + 1;
    }
    proof {
        assert(recipients@.take(recipients@.len() as int) =~= recipients@);
    }
    comma_join(&texts)
}

fn bracketed_key(phone: &RawPhoneNumber) -> (r: String)
    ensures
        r@ == "to["@ + phone@ + "]"@,
{
    let mut out = String::new();
    out.append("to[");
    out.append(phone.raw());
    out.append("]");
    proof {
        assert(out@ =~= "to["@ + phone@ + "]"@);
    }
    out
}

#[verifier::loop_isolation(false)]
fn push_per_recipient_fields(params: &mut Vec<(String, String)>, messages: &Vec<
    (RawPhoneNumber, MessageText),
>)
    ensures
        params_view(final (params)@) == params_view(old(params)@) + per_recipient_fields(
            messages@,
        ),
{
    let ghost base = params_view(params@);
    let mut i: usize = 0;
    proof {
        assert(base + per_recipient_fields(messages@.take(0)) =~= base);
    }
    while i < messages.len()
        invariant
            0 <= i <= messages@.len(),
            params_view(params@) == base + per_recipient_fields(messages@.take(i as int)),
        decreases messages@.len() - i,
    {
        let key = bracketed_key(&messages[i].0);
        let ghost pre = params_view(params@);
        params.push((key, messages[i].1.as_str().to_owned()));
        proof {
            let t = messages@.take(i + 1);
            assert(t.drop_last() =~= messages@.take(i as int));
            assert(t.last() == messages@[i as int]);
            assert(params_view(params@) =~= pre + seq![
                ("to["@ + messages@[i as int].0@ + "]"@, messages@[i as int].1@),
            ]);
            assert(params_view(params@) =~= base + per_recipient_fields(t));
        }
        i = i + 1;
    }
    proof {
        assert(messages@.take(messages@.len() as int) =~= messages@);
    }
}

/// Encode a send request as its ordered form fields.
pub fn encode_send_sms_form(request: &SendSms) -> (r: Vec<(String, String)>)
    ensures
        params_view(r@) == encode_send_sms_spec(request),
{
    let mut params: Vec<(String, String)> = Vec::new();
    proof {
        assert(params_view(params@) =~= Seq::<(Seq<char>, Seq<char>)>::empty());
    }
    match request {
        SendSms::ToMany(to_many) => {
            push_json_marker(&mut params, to_many.options().json);
            let to = joined_recipients(to_many.recipients());
            push_pair(&mut params, "to", to);
            push_pair(&mut params, "msg", to_many.msg().as_str().to_owned());
            push_send_options(&mut params, to_many.options());
            proof {
                assert(params_view(params@) =~= encode_send_sms_spec(request));
            }
        },
        SendSms::PerRecipient(per_recipient) => {
            push_json_marker(&mut params, per_recipient.options().json);
            push_per_recipient_fields(&mut params, per_recipient.messages());
            push_send_options(&mut params, per_recipient.options());
            proof {
                assert(params_view(params@) =~= encode_send_sms_spec(request));
            }
        },
    }
    params
}

/// Encode a cost request as its ordered form fields.
pub fn encode_check_cost_form(request: &CheckCost) -> (r: Vec<(String, String)>)
    ensures
        params_view(r@) == encode_check_cost_spec(request),
{
    let mut params: Vec<(String, String)> = Vec::new();
    proof {
        assert(params_view(params@) =~= Seq::<(Seq<char>, Seq<char>)>::empty());
    }
    match request {
        CheckCost::ToMany(to_many) => {
            push_json_marker(&mut params, to_many.options().json);
            let to = joined_recipients(to_many.recipients());
            push_pair(&mut params, "to", to);
            push_pair(&mut params, "msg", to_many.msg().as_str().to_owned());
            push_cost_options(&mut params, to_many.options());
            proof {
                assert(params_view(params@) =~= encode_check_cost_spec(request));
            }
        },
        CheckCost::PerRecipient(per_recipient) => {
            push_json_marker(&mut params, per_recipient.options().json);
            push_per_recipient_fields(&mut params, per_recipient.messages());
            push_cost_options(&mut params, per_recipient.options());
            proof {
                assert(params_view(params@) =~= encode_check_cost_spec(request));
            }
        },
    }
    params
}

/// The field list of a status request: the `json` marker, then the ids
/// joined by commas.
pub open spec fn encode_check_status_spec(req: &CheckStatus) -> Seq<(Seq<char>, Seq<char>)> {
    seq![
        ("json"@, "1"@),
        ("sms_id"@, join_comma_spec(req.sms_ids_spec().map_values(|id: crate::value::SmsId| id@))),
    ]
}

/// Encode a status request as its ordered form fields.
#[verifier::loop_isolation(false)]
pub fn encode_check_status_form(request: &CheckStatus) -> (r: Vec<(String, String)>)
    ensures
        params_view(r@) == encode_check_status_spec(request),
{
    let mut texts: Vec<String> = Vec::new();
    let ids = request.sms_ids();
    let mut i: usize = 0;
    while i < ids.len()
        invariant
            0 <= i <= ids@.len(),
            ids@ == request.sms_ids_spec(),
            texts.deep_view() == ids@.take(i as int).map_values(|id: crate::value::SmsId| id@),
        decreases ids@.len() - i,
    {
        let ghost pre = texts@;
        texts.push(ids[i].as_str().to_owned());
        proof {
            let dv = texts.deep_view();
            let tgt = ids@.take(i + 1).map_values(|id: crate::value::SmsId| id@);
            assert forall|j: int| 0 <= j < i + 1 implies dv[j] == tgt[j] by {
                assert(dv[j] == texts@[j]@);
                assert(tgt[j] == ids@.take(i + 1)[j]@);
                if j < i {
                    assert(texts@[j] == pre[j]);
                    assert(ids@.take(i as int).map_values(|id: crate::value::SmsId| id@)[j] == pre[
                        j
                    ]@);
                }
            }
            assert(dv =~= tgt);
        }
        i = i + 1;
    }
    proof {
        assert(ids@.take(ids@.len() as int) =~= ids@);
    }
    let joined = comma_join(&texts);
    let mut params: Vec<(String, String)> = Vec::new();
    proof {
        assert(params_view(params@) =~= Seq::<(Seq<char>, Seq<char>)>::empty());
    }
    push_pair(&mut params, "json", "1".to_owned());
    push_pair(&mut params, "sms_id", joined);
    proof {
        assert(params_view(params@) =~= encode_check_status_spec(request));
    }
    params
}

/// The field list of a start-call-auth request: the `json` marker in JSON
/// mode, then the phone.
pub open spec fn encode_start_call_auth_spec(req: &StartCallAuth) -> Seq<(Seq<char>, Seq<char>)> {
    json_marker(req.options_spec().json) + seq![("phone"@, req.phone_spec()@)]
}

/// Encode a start-call-auth request as its ordered form fields.
pub fn encode_start_call_auth_form(request: &StartCallAuth) -> (r: Vec<(String, String)>)
    ensures
        params_view(r@) == encode_start_call_auth_spec(request),
{
    let mut params: Vec<(String, String)> = Vec::new();
    proof {
        assert(params_view(params@) =~= Seq::<(Seq<char>, Seq<char>)>::empty());
    }
    push_json_marker(&mut params, request.options().json);
    push_pair(&mut params, "phone", request.phone().raw().to_owned());
    proof {
        assert(params_view(params@) =~= encode_start_call_auth_spec(request));
    }
    params
}

/// The field list of a call-auth status request: the `json` marker in JSON
/// mode, then the check id.
pub open spec fn encode_check_call_auth_status_spec(req: &CheckCallAuthStatus) -> Seq<
    (Seq<char>, Seq<char>),
> {
    json_marker(req.options_spec().json) + seq![("check_id"@, req.check_id_spec()@)]
}

/// Encode a call-auth status request as its ordered form fields.
pub fn encode_check_call_auth_status_form(request: &CheckCallAuthStatus) -> (r: Vec<
    (String, String),
>)
    ensures
        params_view(r@) == encode_check_call_auth_status_spec(request),
{
    let mut params: Vec<(String, String)> = Vec::new();
    proof {
        assert(params_view(params@) =~= Seq::<(Seq<char>, Seq<char>)>::empty());
    }
    push_json_marker(&mut params, request.options().json);
    push_pair(&mut params, "check_id", request.check_id().as_str().to_owned());
    proof {
        assert(params_view(params@) =~= encode_check_call_auth_status_spec(request));
    }
    params
}

/// The field list of every request that carries only the `json` marker.
pub open spec fn json_only_spec() -> Seq<(Seq<char>, Seq<char>)> {
    seq![("json"@, "1"@)]
}

fn encode_json_only_form() -> (r: Vec<(String, String)>)
    ensures
        params_view(r@) == json_only_spec(),
{
    let mut params: Vec<(String, String)> = Vec::new();
    proof {
        assert(params_view(params@) =~= Seq::<(Seq<char>, Seq<char>)>::empty());
    }
    push_pair(&mut params, "json", "1".to_owned());
    proof {
        assert(params_view(params@) =~= json_only_spec());
    }
    params
}

/// Encode an `auth/check` request.
pub fn encode_auth_check_form() -> (r: Vec<(String, String)>)
    ensures
        params_view(r@) == json_only_spec(),
{
    encode_json_only_form()
}

/// Encode a `my/balance` request.
pub fn encode_get_balance_form() -> (r: Vec<(String, String)>)
    ensures
        params_view(r@) == json_only_spec(),
{
    encode_json_only_form()
}

/// Encode a `my/free` request.
pub fn encode_get_free_usage_form() -> (r: Vec<(String, String)>)
    ensures
        params_view(r@) == json_only_spec(),
{
    encode_json_only_form()
}

/// Encode a `my/limit` request.
pub fn encode_get_limit_usage_form() -> (r: Vec<(String, String)>)
    ensures
        params_view(r@) == json_only_spec(),
{
    encode_json_only_form()
}

/// Encode a `my/senders` request.
pub fn encode_get_senders_form() -> (r: Vec<(String, String)>)
    ensures
        params_view(r@) == json_only_spec(),
{
    encode_json_only_form()
}

/// Encode a `callback/get` request.
pub fn encode_get_callbacks_form() -> (r: Vec<(String, String)>)
    ensures
        params_view(r@) == json_only_spec(),
{
    encode_json_only_form()
}

/// Encode a `stoplist/get` request.
pub fn encode_get_stoplist_form() -> (r: Vec<(String, String)>)
    ensures
        params_view(r@) == json_only_spec(),
{
    encode_json_only_form()
}

/// The field list of a `callback/add` or `callback/del` request.
pub open spec fn encode_callback_spec(url: Seq<char>) -> Seq<(Seq<char>, Seq<char>)> {
    seq![("json"@, "1"@), ("url"@, url)]
}

/// Encode a `callback/add` request.
pub fn encode_add_callback_form(request: &crate::request::AddCallback) -> (r: Vec<
    (String, String),
>)
    ensures
        params_view(r@) == encode_callback_spec(request.url_spec()@),
{
    let mut params = encode_json_only_form();
    push_pair(&mut params, "url", request.url().as_str().to_owned());
    proof {
        assert(params_view(params@) =~= encode_callback_spec(request.url_spec()@));
    }
    params
}

/// Encode a `callback/del` request.
pub fn encode_remove_callback_form(request: &crate::request::RemoveCallback) -> (r: Vec<
    (String, String),
>)
    ensures
        params_view(r@) == encode_callback_spec(request.url_spec()@),
{
    let mut params = encode_json_only_form();
    push_pair(&mut params, "url", request.url().as_str().to_owned());
    proof {
        assert(params_view(params@) =~= encode_callback_spec(request.url_spec()@));
    }
    params
}

/// The field list of a `stoplist/add` request.
pub open spec fn encode_add_stoplist_spec(phone: Seq<char>, text: Seq<char>) -> Seq<
    (Seq<char>, Seq<char>),
> {
    seq![("json"@, "1"@), ("stoplist_phone"@, phone), ("stoplist_text"@, text)]
}

/// Encode a `stoplist/add` request.
pub fn encode_add_stoplist_form(request: &crate::request::AddStoplistEntry) -> (r: Vec<
    (String, String),
>)
    ensures
        params_view(r@) == encode_add_stoplist_spec(request.phone_spec()@, request.text_spec()@),
{
    let mut params = encode_json_only_form();
    push_pair(&mut params, "stoplist_phone", request.phone().raw().to_owned());
    push_pair(&mut params, "stoplist_text", request.text().as_str().to_owned());
    proof {
        assert(params_view(params@) =~= encode_add_stoplist_spec(
            request.phone_spec()@,
            request.text_spec()@,
        ));
    }
    params
}

/// The field list of a `stoplist/del` request.
pub open spec fn encode_remove_stoplist_spec(phone: Seq<char>) -> Seq<(Seq<char>, Seq<char>)> {
    seq![("json"@, "1"@), ("stoplist_phone"@, phone)]
}

/// Encode a `stoplist/del` request.
pub fn encode_remove_stoplist_form(request: &crate::request::RemoveStoplistEntry) -> (r: Vec<
    (String, String),
>)
    ensures
        params_view(r@) == encode_remove_stoplist_spec(request.phone_spec()@),
{
    let mut params = encode_json_only_form();
    push_pair(&mut params, "stoplist_phone", request.phone().raw().to_owned());
    proof {
        assert(params_view(params@) =~= encode_remove_stoplist_spec(request.phone_spec()@));
    }
    params
}

} // verus!
