//! The client-facing evaluation layer.
//!
//! Authentication fields, the JSON-mode gate, and the mapping of a raw HTTP
//! exchange (status code plus body text) to a typed outcome all live here;
//! issuing the POST itself is the transport's job. A top-level `status=ERROR`
//! envelope decodes successfully and is then promoted to [`SmsRuError::Api`];
//! a body that cannot be decoded is a [`SmsRuError::Parse`].

use vstd::prelude::*;
use vstd::string::StrSliceExecFns;

use crate::Status;
use crate::account::{decode_balance_json_response, decode_balance_spec,
    decode_free_usage_json_response, decode_free_usage_spec, decode_limit_usage_json_response,
    decode_limit_usage_spec, decode_senders_json_response, decode_senders_spec,
    decode_status_only_json_response, decode_status_only_spec};
use crate::callback::{decode_callbacks_json_response, decode_callbacks_spec};
use crate::callcheck::{decode_check_call_auth_status_json_response,
    decode_check_call_auth_status_spec, decode_start_call_auth_json_response,
    decode_start_call_auth_spec};
use crate::check_cost::{check_cost_phone_views, decode_check_cost_json_response,
    decode_check_cost_spec};
use crate::check_status::{check_status_id_views, decode_check_status_json_response,
    decode_check_status_spec};
use crate::error::{TransportErrModel, TransportError};
use crate::form::{encode_check_call_auth_status_form, encode_check_call_auth_status_spec,
    encode_check_cost_form, encode_check_cost_spec, encode_send_sms_form, encode_send_sms_spec,
    encode_start_call_auth_form, encode_start_call_auth_spec, params_view};
use crate::json::json_text_value;
use crate::request::{CheckCallAuthStatus, CheckCost, CheckCostOptions, JsonMode, SendOptions,
    SendSms, StartCallAuth};
use crate::response::{BalanceResponse, BalanceResponseModel, CallbacksResponse,
    CallbacksResponseModel, CheckCallAuthStatusResponse, CheckCallAuthStatusResponseModel,
    CheckCostResponse, CheckCostResponseModel, CheckStatusResponse, CheckStatusResponseModel,
    FreeUsageResponse, FreeUsageResponseModel, LimitUsageResponse, LimitUsageResponseModel,
    SendSmsResponse, SendSmsResponseModel, SendersResponse, SendersResponseModel,
    StartCallAuthResponse, StartCallAuthResponseModel, StatusOnlyResponse,
    StatusOnlyResponseModel, StoplistResponse, StoplistResponseModel, opt_text};
use crate::send_sms::{decode_send_sms_spec, send_sms_phone_views, decode_send_sms_json_response};
use crate::stoplist::{decode_get_stoplist_json_response, decode_stoplist_spec};
use crate::text::trim_spec;
use crate::validation::ValidationError;
use crate::value::{ApiId, Login, Password, StatusCode, blank};

verus! {

/// Authentication credentials for SMS.RU API calls.
///
/// Use [`Auth::api_id`] with an `api_id` token, or [`Auth::login_password`]
/// with a login/password pair.
#[derive(Debug, Clone)]
pub enum Auth {
    /// Authenticate via SMS.RU `api_id`.
    ApiId(ApiId),
    /// Authenticate via SMS.RU `login` + `password`.
    LoginPassword { login: Login, password: Password },
}

/// The authentication form fields: the token, or the login pair.
pub open spec fn auth_params(a: &Auth) -> Seq<(Seq<char>, Seq<char>)> {
    match a {
        Auth::ApiId(id) => seq![("api_id"@, id@)],
        Auth::LoginPassword { login, password } => seq![
            ("login"@, login@),
            ("password"@, password@),
        ],
    }
}

impl Auth {
    /// Create [`Auth::ApiId`], validating that the value is non-empty after
    /// trimming.
    pub fn api_id(value: &str) -> (r: Result<Self, ValidationError>)
        ensures
            match r {
                Ok(a) => !blank(value@) && (a matches Auth::ApiId(id) && id@ == trim_spec(value@)),
                Err(_) => blank(value@),
            },
    {
        match ApiId::new(value) {
            Ok(id) => Ok(Self::ApiId(id)),
            Err(e) => Err(e),
        }
    }

    /// Create [`Auth::LoginPassword`], validating that both parts are
    /// non-empty.
    pub fn login_password(login: &str, password: &str) -> (r: Result<Self, ValidationError>)
        ensures
            match r {
                Ok(a) => !blank(login@) && password@.len() > 0 && (
                a matches Auth::LoginPassword { login: l, password: p } && l@ == trim_spec(login@)
                    && p@ == password@),
                Err(_) => blank(login@) || password@.len() == 0,
            },
    {
        let login = match Login::new(login) {
            Ok(l) => l,
            Err(e) => {
                return Err(e);
            },
        };
        let password = match Password::new(password) {
            Ok(p) => p,
            Err(e) => {
                return Err(e);
            },
        };
        Ok(Self::LoginPassword { login, password })
    }

    /// Append the authentication fields to a parameter list.
    pub fn push_form_params(&self, params: &mut Vec<(String, String)>)
        ensures
            params_view(final (params)@) == params_view(old(params)@) + auth_params(self),
    {
        match self {
            Auth::ApiId(api_id) => {
                params.push(("api_id".to_owned(), api_id.as_str().to_owned()));
                proof {
                    assert(params_view(params@) =~= params_view(old(params)@) + auth_params(self));
                }
            },
            Auth::LoginPassword { login, password } => {
                params.push(("login".to_owned(), login.as_str().to_owned()));
                params.push(("password".to_owned(), password.as_str().to_owned()));
                proof {
                    assert(params_view(params@) =~= params_view(old(params)@) + auth_params(self));
                }
            },
        }
    }
}

/// Errors surfaced by the client layer.
///
/// This error distinguishes transport failures, non-2xx HTTP statuses,
/// API-level failures (top-level `status != OK`), and decode failures.
#[derive(Debug)]
pub enum SmsRuError {
    /// HTTP client or transport failure (DNS, TLS, timeouts), as a message.
    Transport { message: String },
    /// Non-successful HTTP status code returned by the server.
    HttpStatus { status: u16, body: Option<String> },
    /// SMS.RU returned a top-level `ERROR` status with a code and text.
    Api { status_code: StatusCode, status_text: Option<String> },
    /// The response body could not be decoded.
    Parse(TransportError),
    /// The request asks for a response format the client does not support.
    UnsupportedResponseFormat(&'static str),
    /// A domain constructor rejected an invalid value.
    Validation(ValidationError),
}

/// The mathematical form of an [`SmsRuError`].
pub enum SmsRuErrModel {
    Transport(Seq<char>),
    HttpStatus { status: u16, body: Option<Seq<char>> },
    Api { status_code: i32, status_text: Option<Seq<char>> },
    Parse(TransportErrModel),
    UnsupportedResponseFormat(Seq<char>),
    Validation(ValidationError),
}

impl View for SmsRuError {
    type V = SmsRuErrModel;

    open spec fn view(&self) -> SmsRuErrModel {
        match self {
            SmsRuError::Transport { message } => SmsRuErrModel::Transport(message@),
            SmsRuError::HttpStatus { status, body } => SmsRuErrModel::HttpStatus {
                status: *status,
                body: opt_text(*body),
            },
            SmsRuError::Api { status_code, status_text } => SmsRuErrModel::Api {
                status_code: status_code@,
                status_text: opt_text(*status_text),
            },
            SmsRuError::Parse(e) => SmsRuErrModel::Parse(e@),
            SmsRuError::UnsupportedResponseFormat(m) => SmsRuErrModel::UnsupportedResponseFormat(
                m@,
            ),
            SmsRuError::Validation(e) => SmsRuErrModel::Validation(*e),
        }
    }
}

/// The options of a send request, whichever shape it takes.
pub open spec fn send_options_spec(request: &SendSms) -> SendOptions {
    match request {
        SendSms::ToMany(t) => t.options_spec(),
        SendSms::PerRecipient(p) => p.options_spec(),
    }
}

/// Request options of a send request.
pub fn send_request_options<'a>(request: &'a SendSms) -> (r: &'a SendOptions)
    ensures
        *r == send_options_spec(request),
{
    match request {
        SendSms::ToMany(to_many) => to_many.options(),
        SendSms::PerRecipient(per_recipient) => per_recipient.options(),
    }
}

/// The options of a cost request, whichever shape it takes.
pub open spec fn cost_options_spec(request: &CheckCost) -> CheckCostOptions {
    match request {
        CheckCost::ToMany(t) => t.options_spec(),
        CheckCost::PerRecipient(p) => p.options_spec(),
    }
}

/// Request options of a cost request.
pub fn cost_request_options<'a>(request: &'a CheckCost) -> (r: &'a CheckCostOptions)
    ensures
        *r == cost_options_spec(request),
{
    match request {
        CheckCost::ToMany(to_many) => to_many.options(),
        CheckCost::PerRecipient(per_recipient) => per_recipient.options(),
    }
}

/// Build the full submission parameters of a send request: the
/// authentication fields, then the encoded form. A request asking for a
/// non-JSON response is rejected before anything is encoded.
pub fn prepare_send_sms_params(auth: &Auth, request: &SendSms) -> (r: Result<
    Vec<(String, String)>,
    SmsRuError,
>)
    ensures
        match r {
            Ok(params) => send_options_spec(request).json is Json && params_view(params@)
                == auth_params(auth) + encode_send_sms_spec(request),
            Err(e) => send_options_spec(request).json is Plain && e@ matches
                SmsRuErrModel::UnsupportedResponseFormat(_),
        },
{
    let json_mode = send_request_options(request).json;
    match json_mode {
        JsonMode::Plain => Err(
            SmsRuError::UnsupportedResponseFormat(
                "plain-text responses are not supported; set SendOptions.json = JsonMode::Json",
            ),
        ),
        JsonMode::Json => {
            let mut params: Vec<(String, String)> = Vec::new();
            proof {
                assert(params_view(params@) =~= Seq::<(Seq<char>, Seq<char>)>::empty());
            }
            auth.push_form_params(&mut params);
            let mut encoded = encode_send_sms_form(request);
            params.append(&mut encoded);
            proof {
                assert(params_view(params@) =~= auth_params(auth) + encode_send_sms_spec(request));
            }
            Ok(params)
        },
    }
}

/// Build the full submission parameters of a cost request, rejecting a
/// non-JSON response mode.
pub fn prepare_check_cost_params(auth: &Auth, request: &CheckCost) -> (r: Result<
    Vec<(String, String)>,
    SmsRuError,
>)
    ensures
        match r {
            Ok(params) => cost_options_spec(request).json is Json && params_view(params@)
                == auth_params(auth) + encode_check_cost_spec(request),
            Err(e) => cost_options_spec(request).json is Plain && e@ matches
                SmsRuErrModel::UnsupportedResponseFormat(_),
        },
{
    let json_mode = cost_request_options(request).json;
    match json_mode {
        JsonMode::Plain => Err(
            SmsRuError::UnsupportedResponseFormat(
                "plain-text responses are not supported; set CheckCostOptions.json = JsonMode::Json",
            ),
        ),
        JsonMode::Json => {
            let mut params: Vec<(String, String)> = Vec::new();
            proof {
                assert(params_view(params@) =~= Seq::<(Seq<char>, Seq<char>)>::empty());
            }
            auth.push_form_params(&mut params);
            let mut encoded = encode_check_cost_form(request);
            params.append(&mut encoded);
            proof {
                assert(params_view(params@) =~= auth_params(auth) + encode_check_cost_spec(
                    request,
                ));
            }
            Ok(params)
        },
    }
}

/// Build the full submission parameters of a start-call-auth request,
/// rejecting a non-JSON response mode.
pub fn prepare_start_call_auth_params(auth: &Auth, request: &StartCallAuth) -> (r: Result<
    Vec<(String, String)>,
    SmsRuError,
>)
    ensures
        match r {
            Ok(params) => request.options_spec().json is Json && params_view(params@)
                == auth_params(auth) + encode_start_call_auth_spec(request),
            Err(e) => request.options_spec().json is Plain && e@ matches
                SmsRuErrModel::UnsupportedResponseFormat(_),
        },
{
    let json_mode = request.options().json;
    match json_mode {
        JsonMode::Plain => Err(
            SmsRuError::UnsupportedResponseFormat(
                "plain-text responses are not supported; set StartCallAuthOptions.json = JsonMode::Json",
            ),
        ),
        JsonMode::Json => {
            let mut params: Vec<(String, String)> = Vec::new();
            proof {
                assert(params_view(params@) =~= Seq::<(Seq<char>, Seq<char>)>::empty());
            }
            auth.push_form_params(&mut params);
            let mut encoded = encode_start_call_auth_form(request);
            params.append(&mut encoded);
            proof {
                assert(params_view(params@) =~= auth_params(auth) + encode_start_call_auth_spec(
                    request,
                ));
            }
            Ok(params)
        },
    }
}

/// Build the full submission parameters of a call-auth status request,
/// rejecting a non-JSON response mode.
pub fn prepare_check_call_auth_status_params(auth: &Auth, request: &CheckCallAuthStatus) -> (r:
    Result<Vec<(String, String)>, SmsRuError>)
    ensures
        match r {
            Ok(params) => request.options_spec().json is Json && params_view(params@)
                == auth_params(auth) + encode_check_call_auth_status_spec(request),
            Err(e) => request.options_spec().json is Plain && e@ matches
                SmsRuErrModel::UnsupportedResponseFormat(_),
        },
{
    let json_mode = request.options().json;
    match json_mode {
        JsonMode::Plain => Err(
            SmsRuError::UnsupportedResponseFormat(
                "plain-text responses are not supported; set CheckCallAuthStatusOptions.json = JsonMode::Json",
            ),
        ),
        JsonMode::Json => {
            let mut params: Vec<(String, String)> = Vec::new();
            proof {
                assert(params_view(params@) =~= Seq::<(Seq<char>, Seq<char>)>::empty());
            }
            auth.push_form_params(&mut params);
            let mut encoded = encode_check_call_auth_status_form(request);
            params.append(&mut encoded);
            proof {
                assert(params_view(params@) =~= auth_params(auth)
                    + encode_check_call_auth_status_spec(request));
            }
            Ok(params)
        },
    }
}

/// The error a non-2xx HTTP exchange maps to: the status, and the body
/// unless it is blank.
pub open spec fn http_status_err(status: u16, body: Seq<char>) -> SmsRuErrModel {
    SmsRuErrModel::HttpStatus {
        status,
        body: if trim_spec(body).len() == 0 {
            None
        } else {
            Some(body)
        },
    }
}

fn http_status_error(status: u16, body: &str) -> (r: SmsRuError)
    ensures
        r@ == http_status_err(status, body@),
{
    let trimmed = crate::text::trim_str(body);
    if trimmed.as_str().unicode_len() == 0 {
        SmsRuError::HttpStatus { status, body: None }
    } else {
        SmsRuError::HttpStatus { status, body: Some(body.to_owned()) }
    }
}

/// How a send exchange is judged: a non-2xx status is an HTTP error, an
/// undecodable body is a parse error, a decoded `ERROR` envelope is an API
/// error, and everything else is the decoded response.
pub open spec fn evaluate_send_sms_spec(
    phones: Seq<Seq<char>>,
    status: u16,
    body: Seq<char>,
) -> Result<SendSmsResponseModel, SmsRuErrModel> {
    if !(200 <= status <= 299) {
        Err(http_status_err(status, body))
    } else {
        match decode_send_sms_spec(phones, json_text_value(body)) {
            Err(e) => Err(SmsRuErrModel::Parse(e)),
            Ok(m) => if m.status is Okay {
                Ok(m)
            } else {
                Err(SmsRuErrModel::Api { status_code: m.status_code, status_text: m.status_text })
            },
        }
    }
}

/// Judge a send exchange.
pub fn evaluate_send_sms_response(request: &SendSms, http_status: u16, body: &str) -> (r: Result<
    SendSmsResponse,
    SmsRuError,
>)
    ensures
        match r {
            Ok(resp) => evaluate_send_sms_spec(send_sms_phone_views(request), http_status, body@)
                == Ok::<SendSmsResponseModel, SmsRuErrModel>(resp@),
            Err(e) => evaluate_send_sms_spec(send_sms_phone_views(request), http_status, body@)
                == Err::<SendSmsResponseModel, SmsRuErrModel>(e@),
        },
{
    if http_status < 200 || http_status > 299 {
        return Err(http_status_error(http_status, body));
    }
    match decode_send_sms_json_response(request, body) {
        Err(e) => Err(SmsRuError::Parse(e)),
        Ok(resp) => {
            if resp.status == Status::Okay {
                Ok(resp)
            } else {
                Err(
                    SmsRuError::Api {
                        status_code: resp.status_code,
                        status_text: resp.status_text,
                    },
                )
            }
        },
    }
}

/// How a cost exchange is judged; see [`evaluate_send_sms_spec`].
pub open spec fn evaluate_check_cost_spec(
    phones: Seq<Seq<char>>,
    status: u16,
    body: Seq<char>,
) -> Result<CheckCostResponseModel, SmsRuErrModel> {
    if !(200 <= status <= 299) {
        Err(http_status_err(status, body))
    } else {
        match decode_check_cost_spec(phones, json_text_value(body)) {
            Err(e) => Err(SmsRuErrModel::Parse(e)),
            Ok(m) => if m.status is Okay {
                Ok(m)
            } else {
                Err(SmsRuErrModel::Api { status_code: m.status_code, status_text: m.status_text })
            },
        }
    }
}

/// Judge a cost exchange.
pub fn evaluate_check_cost_response(request: &CheckCost, http_status: u16, body: &str) -> (r:
    Result<CheckCostResponse, SmsRuError>)
    ensures
        match r {
            Ok(resp) => evaluate_check_cost_spec(
                check_cost_phone_views(request),
                http_status,
                body@,
            ) == Ok::<CheckCostResponseModel, SmsRuErrModel>(resp@),
            Err(e) => evaluate_check_cost_spec(check_cost_phone_views(request), http_status, body@)
                == Err::<CheckCostResponseModel, SmsRuErrModel>(e@),
        },
{
    if http_status < 200 || http_status > 299 {
        return Err(http_status_error(http_status, body));
    }
    match decode_check_cost_json_response(request, body) {
        Err(e) => Err(SmsRuError::Parse(e)),
        Ok(resp) => {
            if resp.status == Status::Okay {
                Ok(resp)
            } else {
                Err(
                    SmsRuError::Api {
                        status_code: resp.status_code,
                        status_text: resp.status_text,
                    },
                )
            }
        },
    }
}

/// How a status exchange is judged; see [`evaluate_send_sms_spec`].
pub open spec fn evaluate_check_status_spec(ids: Seq<Seq<char>>, status: u16, body: Seq<char>) -> Result<
    CheckStatusResponseModel,
    SmsRuErrModel,
> {
    if !(200 <= status <= 299) {
        Err(http_status_err(status, body))
    } else {
        match decode_check_status_spec(ids, json_text_value(body)) {
            Err(e) => Err(SmsRuErrModel::Parse(e)),
            Ok(m) => if m.status is Okay {
                Ok(m)
            } else {
                Err(SmsRuErrModel::Api { status_code: m.status_code, status_text: m.status_text })
            },
        }
    }
}

/// Judge a status exchange.
pub fn evaluate_check_status_response(
    request: &crate::request::CheckStatus,
    http_status: u16,
    body: &str,
) -> (r: Result<CheckStatusResponse, SmsRuError>)
    ensures
        match r {
            Ok(resp) => evaluate_check_status_spec(
                check_status_id_views(request),
                http_status,
                body@,
            ) == Ok::<CheckStatusResponseModel, SmsRuErrModel>(resp@),
            Err(e) => evaluate_check_status_spec(
                check_status_id_views(request),
                http_status,
                body@,
            ) == Err::<CheckStatusResponseModel, SmsRuErrModel>(e@),
        },
{
    if http_status < 200 || http_status > 299 {
        return Err(http_status_error(http_status, body));
    }
    match decode_check_status_json_response(request, body) {
        Err(e) => Err(SmsRuError::Parse(e)),
        Ok(resp) => {
            if resp.status == Status::Okay {
                Ok(resp)
            } else {
                Err(
                    SmsRuError::Api {
                        status_code: resp.status_code,
                        status_text: resp.status_text,
                    },
                )
            }
        },
    }
}

/// How a start-call-auth exchange is judged; see [`evaluate_send_sms_spec`].
pub open spec fn evaluate_start_call_auth_spec(status: u16, body: Seq<char>) -> Result<
    StartCallAuthResponseModel,
    SmsRuErrModel,
> {
    if !(200 <= status <= 299) {
        Err(http_status_err(status, body))
    } else {
        match decode_start_call_auth_spec(json_text_value(body)) {
            Err(e) => Err(SmsRuErrModel::Parse(e)),
            Ok(m) => if m.status is Okay {
                Ok(m)
            } else {
                Err(SmsRuErrModel::Api { status_code: m.status_code, status_text: m.status_text })
            },
        }
    }
}

/// Judge a start-call-auth exchange.
pub fn evaluate_start_call_auth_response(http_status: u16, body: &str) -> (r: Result<
    StartCallAuthResponse,
    SmsRuError,
>)
    ensures
        match r {
            Ok(resp) => evaluate_start_call_auth_spec(http_status, body@) == Ok::<
                StartCallAuthResponseModel,
                SmsRuErrModel,
            >(resp@),
            Err(e) => evaluate_start_call_auth_spec(http_status, body@) == Err::<
                StartCallAuthResponseModel,
                SmsRuErrModel,
            >(e@),
        },
{
    if http_status < 200 || http_status > 299 {
        return Err(http_status_error(http_status, body));
    }
    match decode_start_call_auth_json_response(body) {
        Err(e) => Err(SmsRuError::Parse(e)),
        Ok(resp) => {
            if resp.status == Status::Okay {
                Ok(resp)
            } else {
                Err(
                    SmsRuError::Api {
                        status_code: resp.status_code,
                        status_text: resp.status_text,
                    },
                )
            }
        },
    }
}

/// How a call-auth status exchange is judged; see
/// [`evaluate_send_sms_spec`].
pub open spec fn evaluate_check_call_auth_status_spec(status: u16, body: Seq<char>) -> Result<
    CheckCallAuthStatusResponseModel,
    SmsRuErrModel,
> {
    if !(200 <= status <= 299) {
        Err(http_status_err(status, body))
    } else {
        match decode_check_call_auth_status_spec(json_text_value(body)) {
            Err(e) => Err(SmsRuErrModel::Parse(e)),
            Ok(m) => if m.status is Okay {
                Ok(m)
            } else {
                Err(SmsRuErrModel::Api { status_code: m.status_code, status_text: m.status_text })
            },
        }
    }
}

/// Judge a call-auth status exchange.
pub fn evaluate_check_call_auth_status_response(http_status: u16, body: &str) -> (r: Result<
    CheckCallAuthStatusResponse,
    SmsRuError,
>)
    ensures
        match r {
            Ok(resp) => evaluate_check_call_auth_status_spec(http_status, body@) == Ok::<
                CheckCallAuthStatusResponseModel,
                SmsRuErrModel,
            >(resp@),
            Err(e) => evaluate_check_call_auth_status_spec(http_status, body@) == Err::<
                CheckCallAuthStatusResponseModel,
                SmsRuErrModel,
            >(e@),
        },
{
    if http_status < 200 || http_status > 299 {
        return Err(http_status_error(http_status, body));
    }
    match decode_check_call_auth_status_json_response(body) {
        Err(e) => Err(SmsRuError::Parse(e)),
        Ok(resp) => {
            if resp.status == Status::Okay {
                Ok(resp)
            } else {
                Err(
                    SmsRuError::Api {
                        status_code: resp.status_code,
                        status_text: resp.status_text,
                    },
                )
            }
        },
    }
}

/// How a status-only exchange is judged; see [`evaluate_send_sms_spec`].
pub open spec fn evaluate_status_only_spec(status: u16, body: Seq<char>) -> Result<
    StatusOnlyResponseModel,
    SmsRuErrModel,
> {
    if !(200 <= status <= 299) {
        Err(http_status_err(status, body))
    } else {
        match decode_status_only_spec(json_text_value(body)) {
            Err(e) => Err(SmsRuErrModel::Parse(e)),
            Ok(m) => if m.status is Okay {
                Ok(m)
            } else {
                Err(SmsRuErrModel::Api { status_code: m.status_code, status_text: m.status_text })
            },
        }
    }
}

/// Judge a status-only exchange (`auth/check`, `stoplist/add`,
/// `stoplist/del`).
pub fn evaluate_status_only_response(http_status: u16, body: &str) -> (r: Result<
    StatusOnlyResponse,
    SmsRuError,
>)
    ensures
        match r {
            Ok(resp) => evaluate_status_only_spec(http_status, body@) == Ok::<
                StatusOnlyResponseModel,
                SmsRuErrModel,
            >(resp@),
            Err(e) => evaluate_status_only_spec(http_status, body@) == Err::<
                StatusOnlyResponseModel,
                SmsRuErrModel,
            >(e@),
        },
{
    if http_status < 200 || http_status > 299 {
        return Err(http_status_error(http_status, body));
    }
    match decode_status_only_json_response(body) {
        Err(e) => Err(SmsRuError::Parse(e)),
        Ok(resp) => {
            if resp.status == Status::Okay {
                Ok(resp)
            } else {
                Err(
                    SmsRuError::Api {
                        status_code: resp.status_code,
                        status_text: resp.status_text,
                    },
                )
            }
        },
    }
}

/// How a balance exchange is judged; see [`evaluate_send_sms_spec`].
pub open spec fn evaluate_balance_spec(status: u16, body: Seq<char>) -> Result<
    BalanceResponseModel,
    SmsRuErrModel,
> {
    if !(200 <= status <= 299) {
        Err(http_status_err(status, body))
    } else {
        match decode_balance_spec(json_text_value(body)) {
            Err(e) => Err(SmsRuErrModel::Parse(e)),
            Ok(m) => if m.status is Okay {
                Ok(m)
            } else {
                Err(SmsRuErrModel::Api { status_code: m.status_code, status_text: m.status_text })
            },
        }
    }
}

/// Judge a balance exchange.
pub fn evaluate_balance_response(http_status: u16, body: &str) -> (r: Result<
    BalanceResponse,
    SmsRuError,
>)
    ensures
        match r {
            Ok(resp) => evaluate_balance_spec(http_status, body@) == Ok::<
                BalanceResponseModel,
                SmsRuErrModel,
            >(resp@),
            Err(e) => evaluate_balance_spec(http_status, body@) == Err::<
                BalanceResponseModel,
                SmsRuErrModel,
            >(e@),
        },
{
    if http_status < 200 || http_status > 299 {
        return Err(http_status_error(http_status, body));
    }
    match decode_balance_json_response(body) {
        Err(e) => Err(SmsRuError::Parse(e)),
        Ok(resp) => {
            if resp.status == Status::Okay {
                Ok(resp)
            } else {
                Err(
                    SmsRuError::Api {
                        status_code: resp.status_code,
                        status_text: resp.status_text,
                    },
                )
            }
        },
    }
}

/// How a free-usage exchange is judged; see [`evaluate_send_sms_spec`].
pub open spec fn evaluate_free_usage_spec(status: u16, body: Seq<char>) -> Result<
    FreeUsageResponseModel,
    SmsRuErrModel,
> {
    if !(200 <= status <= 299) {
        Err(http_status_err(status, body))
    } else {
        match decode_free_usage_spec(json_text_value(body)) {
            Err(e) => Err(SmsRuErrModel::Parse(e)),
            Ok(m) => if m.status is Okay {
                Ok(m)
            } else {
                Err(SmsRuErrModel::Api { status_code: m.status_code, status_text: m.status_text })
            },
        }
    }
}

/// Judge a free-usage exchange.
pub fn evaluate_free_usage_response(http_status: u16, body: &str) -> (r: Result<
    FreeUsageResponse,
    SmsRuError,
>)
    ensures
        match r {
            Ok(resp) => evaluate_free_usage_spec(http_status, body@) == Ok::<
                FreeUsageResponseModel,
                SmsRuErrModel,
            >(resp@),
            Err(e) => evaluate_free_usage_spec(http_status, body@) == Err::<
                FreeUsageResponseModel,
                SmsRuErrModel,
            >(e@),
        },
{
    if http_status < 200 || http_status > 299 {
        return Err(http_status_error(http_status, body));
    }
    match decode_free_usage_json_response(body) {
        Err(e) => Err(SmsRuError::Parse(e)),
        Ok(resp) => {
            if resp.status == Status::Okay {
                Ok(resp)
            } else {
                Err(
                    SmsRuError::Api {
                        status_code: resp.status_code,
                        status_text: resp.status_text,
                    },
                )
            }
        },
    }
}

/// How a limit-usage exchange is judged; see [`evaluate_send_sms_spec`].
pub open spec fn evaluate_limit_usage_spec(status: u16, body: Seq<char>) -> Result<
    LimitUsageResponseModel,
    SmsRuErrModel,
> {
    if !(200 <= status <= 299) {
        Err(http_status_err(status, body))
    } else {
        match decode_limit_usage_spec(json_text_value(body)) {
            Err(e) => Err(SmsRuErrModel::Parse(e)),
            Ok(m) => if m.status is Okay {
                Ok(m)
            } else {
                Err(SmsRuErrModel::Api { status_code: m.status_code, status_text: m.status_text })
            },
        }
    }
}

/// Judge a limit-usage exchange.
pub fn evaluate_limit_usage_response(http_status: u16, body: &str) -> (r: Result<
    LimitUsageResponse,
    SmsRuError,
>)
    ensures
        match r {
            Ok(resp) => evaluate_limit_usage_spec(http_status, body@) == Ok::<
                LimitUsageResponseModel,
                SmsRuErrModel,
            >(resp@),
            Err(e) => evaluate_limit_usage_spec(http_status, body@) == Err::<
                LimitUsageResponseModel,
                SmsRuErrModel,
            >(e@),
        },
{
    if http_status < 200 || http_status > 299 {
        return Err(http_status_error(http_status, body));
    }
    match decode_limit_usage_json_response(body) {
        Err(e) => Err(SmsRuError::Parse(e)),
        Ok(resp) => {
            if resp.status == Status::Okay {
                Ok(resp)
            } else {
                Err(
                    SmsRuError::Api {
                        status_code: resp.status_code,
                        status_text: resp.status_text,
                    },
                )
            }
        },
    }
}

/// How a senders exchange is judged; see [`evaluate_send_sms_spec`].
pub open spec fn evaluate_senders_spec(status: u16, body: Seq<char>) -> Result<
    SendersResponseModel,
    SmsRuErrModel,
> {
    if !(200 <= status <= 299) {
        Err(http_status_err(status, body))
    } else {
        match decode_senders_spec(json_text_value(body)) {
            Err(e) => Err(SmsRuErrModel::Parse(e)),
            Ok(m) => if m.status is Okay {
                Ok(m)
            } else {
                Err(SmsRuErrModel::Api { status_code: m.status_code, status_text: m.status_text })
            },
        }
    }
}

/// Judge a senders exchange.
pub fn evaluate_senders_response(http_status: u16, body: &str) -> (r: Result<
    SendersResponse,
    SmsRuError,
>)
    ensures
        match r {
            Ok(resp) => evaluate_senders_spec(http_status, body@) == Ok::<
                SendersResponseModel,
                SmsRuErrModel,
            >(resp@),
            Err(e) => evaluate_senders_spec(http_status, body@) == Err::<
                SendersResponseModel,
                SmsRuErrModel,
            >(e@),
        },
{
    if http_status < 200 || http_status > 299 {
        return Err(http_status_error(http_status, body));
    }
    match decode_senders_json_response(body) {
        Err(e) => Err(SmsRuError::Parse(e)),
        Ok(resp) => {
            if resp.status == Status::Okay {
                Ok(resp)
            } else {
                Err(
                    SmsRuError::Api {
                        status_code: resp.status_code,
                        status_text: resp.status_text,
                    },
                )
            }
        },
    }
}

/// How a stoplist-get exchange is judged; see [`evaluate_send_sms_spec`].
pub open spec fn evaluate_stoplist_spec(status: u16, body: Seq<char>) -> Result<
    StoplistResponseModel,
    SmsRuErrModel,
> {
    if !(200 <= status <= 299) {
        Err(http_status_err(status, body))
    } else {
        match decode_stoplist_spec(json_text_value(body)) {
            Err(e) => Err(SmsRuErrModel::Parse(e)),
            Ok(m) => if m.status is Okay {
                Ok(m)
            } else {
                Err(SmsRuErrModel::Api { status_code: m.status_code, status_text: m.status_text })
            },
        }
    }
}

/// Judge a stoplist-get exchange.
pub fn evaluate_stoplist_response(http_status: u16, body: &str) -> (r: Result<
    StoplistResponse,
    SmsRuError,
>)
    ensures
        match r {
            Ok(resp) => evaluate_stoplist_spec(http_status, body@) == Ok::<
                StoplistResponseModel,
                SmsRuErrModel,
            >(resp@),
            Err(e) => evaluate_stoplist_spec(http_status, body@) == Err::<
                StoplistResponseModel,
                SmsRuErrModel,
            >(e@),
        },
{
    if http_status < 200 || http_status > 299 {
        return Err(http_status_error(http_status, body));
    }
    match decode_get_stoplist_json_response(body) {
        Err(e) => Err(SmsRuError::Parse(e)),
        Ok(resp) => {
            if resp.status == Status::Okay {
                Ok(resp)
            } else {
                Err(
                    SmsRuError::Api {
                        status_code: resp.status_code,
                        status_text: resp.status_text,
                    },
                )
            }
        },
    }
}

/// How a callbacks exchange is judged; see [`evaluate_send_sms_spec`].
pub open spec fn evaluate_callbacks_spec(status: u16, body: Seq<char>) -> Result<
    CallbacksResponseModel,
    SmsRuErrModel,
> {
    if !(200 <= status <= 299) {
        Err(http_status_err(status, body))
    } else {
        match decode_callbacks_spec(json_text_value(body)) {
            Err(e) => Err(SmsRuErrModel::Parse(e)),
            Ok(m) => if m.status is Okay {
                Ok(m)
            } else {
                Err(SmsRuErrModel::Api { status_code: m.status_code, status_text: m.status_text })
            },
        }
    }
}

/// Judge a callbacks exchange (`callback/add`, `callback/del`,
/// `callback/get`).
pub fn evaluate_callbacks_response(http_status: u16, body: &str) -> (r: Result<
    CallbacksResponse,
    SmsRuError,
>)
    ensures
        match r {
            Ok(resp) => evaluate_callbacks_spec(http_status, body@) == Ok::<
                CallbacksResponseModel,
                SmsRuErrModel,
            >(resp@),
            Err(e) => evaluate_callbacks_spec(http_status, body@) == Err::<
                CallbacksResponseModel,
                SmsRuErrModel,
            >(e@),
        },
{
    if http_status < 200 || http_status > 299 {
        return Err(http_status_error(http_status, body));
    }
    match decode_callbacks_json_response(body) {
        Err(e) => Err(SmsRuError::Parse(e)),
        Ok(resp) => {
            if resp.status == Status::Okay {
                Ok(resp)
            } else {
                Err(
                    SmsRuError::Api {
                        status_code: resp.status_code,
                        status_text: resp.status_text,
                    },
                )
            }
        },
    }
}

} // verus!
