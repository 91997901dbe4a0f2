//! Validated request types and their option bags.
//!
//! Per-recipient requests keep their entries as a vector sorted strictly by
//! the recipient's canonical text, with later duplicate keys replacing
//! earlier ones, so that form encoding is deterministic.

use vstd::prelude::*;

use crate::text::{lemma_seq_char_lt_trans, lemma_seq_char_lt_trichotomy, seq_char_lt, str_eq,
    str_lt};
use crate::validation::ValidationError;
use crate::value::{CallCheckId, CallbackUrl, IpAddress, MessageText, PartnerId, RawPhoneNumber,
    SenderId, SmsId, StoplistText, TtlMinutes, UnixTimestamp};

verus! {

/// SMS.RU "send SMS" API limit: maximum number of recipients per request.
pub const SEND_SMS_MAX_RECIPIENTS: usize = 100;

/// SMS.RU "check cost" API limit: maximum number of recipients per request.
pub const CHECK_COST_MAX_RECIPIENTS: usize = 100;

/// SMS.RU "check status" API limit: maximum number of ids per request.
pub const CHECK_STATUS_MAX_SMS_IDS: usize = 100;

/// Response format mode requested from SMS.RU.
///
/// The client currently supports only [`JsonMode::Json`].
#[derive(Debug, Clone, Copy, PartialEq, Eq, Structural)]
pub enum JsonMode {
    /// Request JSON responses (`json=1`).
    Json,
    /// Request plain-text responses (`json=0`).
    Plain,
}

impl Default for JsonMode {
    /// The default response mode is JSON.
    fn default() -> (r: Self)
        ensures
            r == JsonMode::Json,
    {
        JsonMode::Json
    }
}

/// Optional parameters for the "send SMS" request.
///
/// These map to SMS.RU form fields; most are optional and default to "not
/// set".
#[derive(Debug, Clone)]
pub struct SendOptions {
    /// Response format requested from SMS.RU (defaults to JSON).
    pub json: JsonMode,
    /// Sender id (`from=`). Must be enabled in the SMS.RU account.
    pub from: Option<SenderId>,
    /// End user IP (`ip=`), used by SMS.RU for anti-fraud limits in some modes.
    pub ip: Option<IpAddress>,
    /// Scheduled send time as a unix timestamp in seconds (`time=`).
    pub time: Option<UnixTimestamp>,
    /// Per-recipient TTL in minutes (`ttl=`). See [`TtlMinutes`] for the range.
    pub ttl: Option<TtlMinutes>,
    /// Send only during daytime (`daytime=1`).
    pub daytime: bool,
    /// Transliterate the message (`translit=1`).
    pub translit: bool,
    /// Test mode (`test=1`): validate the request without sending an SMS.
    pub test: bool,
    /// Optional partner identifier (`partner_id=`).
    pub partner_id: Option<PartnerId>,
}

impl Default for SendOptions {
    /// All options absent, JSON mode on.
    fn default() -> (r: Self)
        ensures
            r.json == JsonMode::Json,
            r.from is None,
            r.ip is None,
            r.time is None,
            r.ttl is None,
            !r.daytime,
            !r.translit,
            !r.test,
            r.partner_id is None,
    {
        SendOptions {
            json: JsonMode::Json,
            from: None,
            ip: None,
            time: None,
            ttl: None,
            daytime: false,
            translit: false,
            test: false,
            partner_id: None,
        }
    }
}

/// Optional parameters for the "check cost" request.
#[derive(Debug, Clone)]
pub struct CheckCostOptions {
    /// Response format requested from SMS.RU (defaults to JSON).
    pub json: JsonMode,
    /// Sender id (`from=`). Must be enabled in the SMS.RU account.
    pub from: Option<SenderId>,
    /// Transliterate the message (`translit=1`).
    pub translit: bool,
}

impl Default for CheckCostOptions {
    /// All options absent, JSON mode on.
    fn default() -> (r: Self)
        ensures
            r.json == JsonMode::Json,
            r.from is None,
            !r.translit,
    {
        CheckCostOptions { json: JsonMode::Json, from: None, translit: false }
    }
}

/// Optional parameters for the "start call authentication" request.
#[derive(Debug, Clone)]
pub struct StartCallAuthOptions {
    /// Response format requested from SMS.RU (defaults to JSON).
    pub json: JsonMode,
}

impl Default for StartCallAuthOptions {
    /// JSON mode on.
    fn default() -> (r: Self)
        ensures
            r.json == JsonMode::Json,
    {
        StartCallAuthOptions { json: JsonMode::Json }
    }
}

/// Optional parameters for the "check call authentication status" request.
#[derive(Debug, Clone)]
pub struct CheckCallAuthStatusOptions {
    /// Response format requested from SMS.RU (defaults to JSON).
    pub json: JsonMode,
}

impl Default for CheckCallAuthStatusOptions {
    /// JSON mode on.
    fn default() -> (r: Self)
        ensures
            r.json == JsonMode::Json,
    {
        CheckCallAuthStatusOptions { json: JsonMode::Json }
    }
}

/// Whether the entries are strictly ascending by recipient text.
pub open spec fn msgs_sorted(s: Seq<(RawPhoneNumber, MessageText)>) -> bool {
    forall|i: int, j: int| 0 <= i < j < s.len() ==> seq_char_lt(s[i].0@, s[j].0@)
}

/// The text registered for key `k`, later entries taking precedence.
pub open spec fn lookup_msg(s: Seq<(RawPhoneNumber, MessageText)>, k: Seq<char>) -> Option<
    Seq<char>,
>
    decreases s.len(),
{
    if s.len() == 0 {
        None
    } else if s.last().0@ == k {
        Some(s.last().1@)
    } else {
        lookup_msg(s.drop_last(), k)
    }
}

/// The set of recipient texts that occur among the entries.
pub open spec fn msg_key_set(s: Seq<(RawPhoneNumber, MessageText)>) -> Set<Seq<char>> {
    Set::new(|k: Seq<char>| exists|i: int| 0 <= i < s.len() && s[i].0@ == k)
}

proof fn lemma_lookup_single(p: (RawPhoneNumber, MessageText), k: Seq<char>)
    ensures
        lookup_msg(seq![p], k) == (if p.0@ == k {
            Some(p.1@)
        } else {
            None::<Seq<char>>
        }),
{
    let s = seq![p];
    assert(s.last() == p);
    if p.0@ != k {
        let e = Seq::<(RawPhoneNumber, MessageText)>::empty();
        assert(s.drop_last() =~= e);
        assert(lookup_msg(e, k) is None);
        assert(lookup_msg(s, k) == lookup_msg(e, k));
    } else {
        assert(lookup_msg(s, k) == Some(p.1@));
    }
}

proof fn lemma_key_set_unfold(s: Seq<(RawPhoneNumber, MessageText)>)
    requires
        s.len() > 0,
    ensures
        msg_key_set(s) == msg_key_set(s.drop_last()).insert(s.last().0@),
{
    let t = s.drop_last();
    let last_k = s.last().0@;
    assert forall|k: Seq<char>|
        msg_key_set(s).contains(k) == msg_key_set(t).insert(last_k).contains(k) by {
        if msg_key_set(s).contains(k) {
            let i = choose|i: int| 0 <= i < s.len() && s[i].0@ == k;
            if i < s.len() - 1 {
                assert(t[i].0@ == k);
                assert(msg_key_set(t).contains(k));
            } else {
                assert(k == last_k);
            }
        }
        if msg_key_set(t).contains(k) {
            let i = choose|i: int| 0 <= i < t.len() && t[i].0@ == k;
            assert(s[i].0@ == k);
            assert(msg_key_set(s).contains(k));
        }
        if k == last_k {
            assert(s[s.len() - 1].0@ == k);
            assert(msg_key_set(s).contains(k));
        }
    }
    assert(msg_key_set(s) =~= msg_key_set(t).insert(last_k));
}

proof fn lemma_lookup_concat(
    s1: Seq<(RawPhoneNumber, MessageText)>,
    s2: Seq<(RawPhoneNumber, MessageText)>,
    k: Seq<char>,
)
    ensures
        lookup_msg(s1 + s2, k) == (match lookup_msg(s2, k) {
            Some(v) => Some(v),
            None => lookup_msg(s1, k),
        }),
    decreases s2.len(),
{
    if s2.len() == 0 {
        assert(s1 + s2 =~= s1);
    } else {
        let whole = s1 + s2;
        assert(whole.last() == s2.last());
        assert(whole.drop_last() =~= s1 + s2.drop_last());
        lemma_lookup_concat(s1, s2.drop_last(), k);
    }
}

proof fn lemma_lookup_absent(s: Seq<(RawPhoneNumber, MessageText)>, k: Seq<char>)
    requires
        forall|i: int| 0 <= i < s.len() ==> s[i].0@ != k,
    ensures
        lookup_msg(s, k) is None,
    decreases s.len(),
{
    if s.len() > 0 {
        lemma_lookup_absent(s.drop_last(), k);
    }
}

proof fn lemma_lookup_present(s: Seq<(RawPhoneNumber, MessageText)>, i: int)
    requires
        0 <= i < s.len(),
    ensures
        lookup_msg(s, s[i].0@) is Some,
    decreases s.len(),
{
    if s.last().0@ != s[i].0@ {
        lemma_lookup_present(s.drop_last(), i);
    }
}

proof fn lemma_sorted_key_set_size(s: Seq<(RawPhoneNumber, MessageText)>)
    requires
        msgs_sorted(s),
    ensures
        msg_key_set(s).finite(),
        msg_key_set(s).len() == s.len(),
    decreases s.len(),
{
    if s.len() == 0 {
        assert(msg_key_set(s) =~= Set::<Seq<char>>::empty());
    } else {
        let t = s.drop_last();
        assert(msgs_sorted(t));
        lemma_sorted_key_set_size(t);
        let last_k = s.last().0@;
        lemma_key_set_unfold(s);
        assert(!msg_key_set(t).contains(last_k)) by {
            if msg_key_set(t).contains(last_k) {
                let i = choose|i: int| 0 <= i < t.len() && t[i].0@ == last_k;
                assert(seq_char_lt(s[i].0@, last_k));
                lemma_seq_char_lt_trichotomy(s[i].0@, last_k);
            }
        }
    }
}

proof fn lemma_lookup_key_set(s: Seq<(RawPhoneNumber, MessageText)>, k: Seq<char>)
    ensures
        lookup_msg(s, k) is Some <==> msg_key_set(s).contains(k),
{
    if msg_key_set(s).contains(k) {
        let i = choose|i: int| 0 <= i < s.len() && s[i].0@ == k;
        lemma_lookup_present(s, i);
        assert(lookup_msg(s, s[i].0@) is Some);
    }
    if lookup_msg(s, k) is Some {
        if forall|i: int| 0 <= i < s.len() ==> s[i].0@ != k {
            lemma_lookup_absent(s, k);
        }
    }
}

/// Insert one entry into a vector sorted by recipient text, replacing the
/// entry with an equal key if one exists.
#[verifier::loop_isolation(false)]
fn insert_msg(v: &mut Vec<(RawPhoneNumber, MessageText)>, phone: RawPhoneNumber, text: MessageText)
    requires
        msgs_sorted(old(v)@),
    ensures
        msgs_sorted(final (v)@),
        final (v)@.len() <= old(v)@.len() + 1,
        forall|k: Seq<char>| #[trigger]
            lookup_msg(final (v)@, k) == (if k == phone@ {
                Some(text@)
            } else {
                lookup_msg(old(v)@, k)
            }),
{
    let mut i: usize = 0;
    while i < v.len() && str_lt(v[i].0.raw(), phone.raw())
        invariant
            0 <= i <= v@.len(),
            forall|j: int| 0 <= j < i ==> seq_char_lt(v@[j].0@, phone@),
        decreases v@.len() - i,
    {
        i = i + 1;
    }
    let ghost pre = v@;
    if i < v.len() && str_eq(v[i].0.raw(), phone.raw()) {
        let ghost old_pair = v@[i as int];
        v[i] = (phone, text);
        proof {
            let now = v@;
            let a = pre.take(i as int);
            let b = pre.skip(i + 1);
            assert(now =~= a + (seq![(phone, text)] + b));
            assert(pre =~= a + (seq![old_pair] + b));
            assert forall|p: int, q: int| 0 <= p < q < now.len() implies seq_char_lt(
                now[p].0@,
                now[q].0@,
            ) by {
                assert(now[p].0@ == pre[p].0@);
                assert(now[q].0@ == pre[q].0@);
            }
            assert forall|k: Seq<char>| #[trigger] lookup_msg(now, k) == (if k == phone@ {
                Some(text@)
            } else {
                lookup_msg(pre, k)
            }) by {
                lemma_lookup_concat(a, seq![(phone, text)] + b, k);
                lemma_lookup_concat(seq![(phone, text)], b, k);
                lemma_lookup_concat(a, seq![old_pair] + b, k);
                lemma_lookup_concat(seq![old_pair], b, k);
                if k == phone@ {
                    assert forall|j: int| 0 <= j < b.len() implies b[j].0@ != k by {
                        assert(b[j] == pre[i + 1 + j]);
                        assert(seq_char_lt(pre[i as int].0@, pre[i + 1 + j].0@));
                        lemma_seq_char_lt_trichotomy(pre[i as int].0@, pre[i + 1 + j].0@);
                    }
                    lemma_lookup_absent(b, k);
                    lemma_lookup_single((phone, text), k);
                } else {
                    lemma_lookup_single((phone, text), k);
                    lemma_lookup_single(old_pair, k);
                }
            }
        }
    } else {
        proof {
            if i < pre.len() {
                lemma_seq_char_lt_trichotomy(pre[i as int].0@, phone@);
            }
        }
        v.insert(i, (phone, text));
        proof {
            let now = v@;
            let a = pre.take(i as int);
            let b = pre.skip(i as int);
            assert(now =~= a + (seq![(phone, text)] + b));
            assert(pre =~= a + b);
            assert forall|j: int| 0 <= j < b.len() implies seq_char_lt(phone@, b[j].0@) by {
                assert(b[j] == pre[i + j]);
                if j > 0 {
                    assert(seq_char_lt(pre[i as int].0@, pre[i + j].0@));
                    lemma_seq_char_lt_trans(phone@, pre[i as int].0@, pre[i + j].0@);
                }
            }
            assert forall|p: int, q: int| 0 <= p < q < now.len() implies seq_char_lt(
                now[p].0@,
                now[q].0@,
            ) by {
                if p < i && q < i {
                    assert(now[p].0@ == pre[p].0@ && now[q].0@ == pre[q].0@);
                } else if p < i && q == i {
                    assert(now[p].0@ == pre[p].0@);
                } else if p < i && q > i {
                    assert(now[p].0@ == pre[p].0@ && now[q].0@ == pre[q - 1].0@);
                } else if p == i {
                    assert(now[q].0@ == b[q - i - 1].0@);
                } else {
                    assert(now[p].0@ == pre[p - 1].0@ && now[q].0@ == pre[q - 1].0@);
                }
            }
            assert forall|k: Seq<char>| #[trigger] lookup_msg(now, k) == (if k == phone@ {
                Some(text@)
            } else {
                lookup_msg(pre, k)
            }) by {
                lemma_lookup_concat(a, seq![(phone, text)] + b, k);
                lemma_lookup_concat(seq![(phone, text)], b, k);
                lemma_lookup_concat(a, b, k);
                if k == phone@ {
                    assert forall|j: int| 0 <= j < b.len() implies b[j].0@ != k by {
                        lemma_seq_char_lt_trichotomy(phone@, b[j].0@);
                    }
                    lemma_lookup_absent(b, k);
                    lemma_lookup_single((phone, text), k);
                } else {
                    lemma_lookup_single((phone, text), k);
                }
            }
        }
    }
}

/// Normalize per-recipient entries: sort strictly by recipient text with
/// later duplicate keys replacing earlier ones.
#[verifier::loop_isolation(false)]
fn sort_messages(messages: Vec<(RawPhoneNumber, MessageText)>) -> (r: Vec<
    (RawPhoneNumber, MessageText),
>)
    ensures
        msgs_sorted(r@),
        forall|k: Seq<char>| #[trigger] lookup_msg(r@, k) == lookup_msg(messages@, k),
        r@.len() == msg_key_set(messages@).len(),
        messages@.len() == 0 ==> r@.len() == 0,
        messages@.len() > 0 ==> r@.len() > 0,
        r@.len() <= messages@.len(),
{
    let mut out: Vec<(RawPhoneNumber, MessageText)> = Vec::new();
    let mut i: usize = 0;
    while i < messages.len()
        invariant
            0 <= i <= messages@.len(),
            msgs_sorted(out@),
            out@.len() <= i,
            forall|k: Seq<char>| #[trigger]
                lookup_msg(out@, k) == lookup_msg(messages@.take(i as int), k),
        decreases messages@.len() - i,
    {
        let phone = messages[i].0.clone();
        let text = messages[i].1.clone();
        insert_msg(&mut out, phone, text);
        proof {
            let t = messages@.take(i + 1);
            assert(t.drop_last() =~= messages@.take(i as int));
            assert(t.last() == messages@[i as int]);
            assert forall|k: Seq<char>| #[trigger] lookup_msg(out@, k) == lookup_msg(t, k) by {
                if k == t.last().0@ {
                    assert(lookup_msg(t, k) == Some(t.last().1@));
                } else {
                    assert(lookup_msg(t, k) == lookup_msg(t.drop_last(), k));
                }
            }
        }
        i = i + 1;
    }
    proof {
        assert(messages@.take(messages@.len() as int) =~= messages@);
        lemma_sorted_key_set_size(out@);
        assert(msg_key_set(out@) =~= msg_key_set(messages@)) by {
            assert forall|k: Seq<char>| msg_key_set(out@).contains(k) == msg_key_set(
                messages@,
            ).contains(k) by {
                lemma_lookup_key_set(out@, k);
                lemma_lookup_key_set(messages@, k);
            }
        }
        if messages@.len() > 0 {
            lemma_lookup_present(messages@, 0);
            lemma_lookup_key_set(messages@, messages@[0].0@);
            lemma_lookup_key_set(out@, messages@[0].0@);
            if out@.len() == 0 {
                lemma_lookup_absent(out@, messages@[0].0@);
            }
        }
        lemma_key_set_bound(messages@);
    }
    out
}

proof fn lemma_key_set_bound(s: Seq<(RawPhoneNumber, MessageText)>)
    ensures
        msg_key_set(s).finite(),
        msg_key_set(s).len() <= s.len(),
    decreases s.len(),
{
    if s.len() == 0 {
        assert(msg_key_set(s) =~= Set::<Seq<char>>::empty());
    } else {
        let t = s.drop_last();
        lemma_key_set_bound(t);
        lemma_key_set_unfold(s);
    }
}

/// A validated "send SMS" request.
///
/// Use [`SendSms::to_many`] to send one message to many recipients, or
/// [`SendSms::per_recipient`] to send per-recipient messages.
#[derive(Debug, Clone)]
pub enum SendSms {
    /// One message to many recipients.
    ToMany(ToMany),
    /// Different messages per recipient.
    PerRecipient(PerRecipient),
}

/// "One message to many recipients" request shape.
#[derive(Debug, Clone)]
pub struct ToMany {
    recipients: Vec<RawPhoneNumber>,
    msg: MessageText,
    options: SendOptions,
}

/// "Per-recipient message" request shape.
#[derive(Debug, Clone)]
pub struct PerRecipient {
    messages: Vec<(RawPhoneNumber, MessageText)>,
    options: SendOptions,
}

impl SendSms {
    /// Whether the request satisfies its construction invariants.
    pub open spec fn wf(&self) -> bool {
        match self {
            SendSms::ToMany(t) => 1 <= t.recipients_spec().len() <= 100,
            SendSms::PerRecipient(p) => 1 <= p.messages_spec().len() <= 100 && msgs_sorted(
                p.messages_spec(),
            ),
        }
    }

    /// Create a "one message to many recipients" request.
    ///
    /// Constraints:
    /// - `recipients` must be non-empty
    /// - `recipients.len()` must be at most [`SEND_SMS_MAX_RECIPIENTS`]
    pub fn to_many(
        recipients: Vec<RawPhoneNumber>,
        msg: MessageText,
        options: SendOptions,
    ) -> (r: Result<Self, ValidationError>)
        ensures
            match r {
                Ok(req) => 1 <= recipients@.len() <= 100 && (req matches SendSms::ToMany(t)
                    && t.recipients_spec() == recipients@ && t.msg_spec() == msg
                    && t.options_spec() == options),
                Err(e) => match e {
                    ValidationError::Empty { field } => recipients@.len() == 0 && field@ == "to"@,
                    ValidationError::TooManyRecipients { max, actual } => recipients@.len() > 100
                        && max == 100 && actual == recipients@.len(),
                    _ => false,
                },
            },
            r is Ok <==> 1 <= recipients@.len() <= 100,
            r matches Ok(req) ==> req.wf(),
    {
        if recipients.is_empty() {
            return Err(ValidationError::Empty { field: RawPhoneNumber::FIELD });
        }
        if recipients.len() > SEND_SMS_MAX_RECIPIENTS {
            return Err(
                ValidationError::TooManyRecipients {
                    max: SEND_SMS_MAX_RECIPIENTS,
                    actual: recipients.len(),
                },
            );
        }
        Ok(Self::ToMany(ToMany { recipients, msg, options }))
    }

    /// Create a "per-recipient message" request.
    ///
    /// Entries are normalized to strictly ascending recipient order; a later
    /// entry for the same recipient replaces an earlier one.
    ///
    /// Constraints:
    /// - `messages` must be non-empty
    /// - the number of distinct recipients must be at most
    ///   [`SEND_SMS_MAX_RECIPIENTS`]
    pub fn per_recipient(
        messages: Vec<(RawPhoneNumber, MessageText)>,
        options: SendOptions,
    ) -> (r: Result<Self, ValidationError>)
        ensures
            match r {
                Ok(req) => messages@.len() > 0 && msg_key_set(messages@).len() <= 100 && (
                req matches SendSms::PerRecipient(p) && msgs_sorted(p.messages_spec())
                    && p.messages_spec().len() == msg_key_set(messages@).len()
                    && p.options_spec() == options && (forall|k: Seq<char>| #[trigger]
                    lookup_msg(p.messages_spec(), k) == lookup_msg(messages@, k))),
                Err(e) => match e {
                    ValidationError::Empty { field } => messages@.len() == 0 && field@ == "to"@,
                    ValidationError::TooManyRecipients { max, actual } => msg_key_set(
                        messages@,
                    ).len() > 100 && max == 100 && actual == msg_key_set(messages@).len(),
                    _ => false,
                },
            },
            r is Ok <==> messages@.len() > 0 && msg_key_set(messages@).len() <= 100,
            r matches Ok(req) ==> req.wf(),
    {
        if messages.is_empty() {
            return Err(ValidationError::Empty { field: RawPhoneNumber::FIELD });
        }
        let sorted = sort_messages(messages);
        if sorted.len() > SEND_SMS_MAX_RECIPIENTS {
            return Err(
                ValidationError::TooManyRecipients {
                    max: SEND_SMS_MAX_RECIPIENTS,
                    actual: sorted.len(),
                },
            );
        }
        Ok(Self::PerRecipient(PerRecipient { messages: sorted, options }))
    }
}

impl ToMany {
    /// The recipient list, in spec form.
    pub closed spec fn recipients_spec(&self) -> Seq<RawPhoneNumber> {
        self.recipients@
    }

    /// The message text, in spec form.
    pub closed spec fn msg_spec(&self) -> MessageText {
        self.msg
    }

    /// The options, in spec form.
    pub closed spec fn options_spec(&self) -> SendOptions {
        self.options
    }

    /// Recipient phone numbers as provided (not normalized).
    pub fn recipients(&self) -> (r: &Vec<RawPhoneNumber>)
        ensures
            r@ == self.recipients_spec(),
    {
        &self.recipients
    }

    /// Message text (non-empty; see [`MessageText`]).
    pub fn msg(&self) -> (r: &MessageText)
        ensures
            *r == self.msg_spec(),
    {
        &self.msg
    }

    /// Request options.
    pub fn options(&self) -> (r: &SendOptions)
        ensures
            *r == self.options_spec(),
    {
        &self.options
    }
}

impl PerRecipient {
    /// The normalized entry list, in spec form.
    pub closed spec fn messages_spec(&self) -> Seq<(RawPhoneNumber, MessageText)> {
        self.messages@
    }

    /// The options, in spec form.
    pub closed spec fn options_spec(&self) -> SendOptions {
        self.options
    }

    /// Per-recipient messages, sorted strictly by recipient text.
    pub fn messages(&self) -> (r: &Vec<(RawPhoneNumber, MessageText)>)
        ensures
            r@ == self.messages_spec(),
    {
        &self.messages
    }

    /// Request options.
    pub fn options(&self) -> (r: &SendOptions)
        ensures
            *r == self.options_spec(),
    {
        &self.options
    }
}

/// A validated "check cost" request.
///
/// Use [`CheckCost::to_many`] to estimate one message for many recipients, or
/// [`CheckCost::per_recipient`] to estimate per-recipient messages.
#[derive(Debug, Clone)]
pub enum CheckCost {
    /// One message to many recipients.
    ToMany(CostToMany),
    /// Different messages per recipient.
    PerRecipient(CostPerRecipient),
}

/// "One message to many recipients" request shape for `sms/cost`.
#[derive(Debug, Clone)]
pub struct CostToMany {
    recipients: Vec<RawPhoneNumber>,
    msg: MessageText,
    options: CheckCostOptions,
}

/// "Per-recipient message" request shape for `sms/cost`.
#[derive(Debug, Clone)]
pub struct CostPerRecipient {
    messages: Vec<(RawPhoneNumber, MessageText)>,
    options: CheckCostOptions,
}

impl CheckCost {
    /// Whether the request satisfies its construction invariants.
    pub open spec fn wf(&self) -> bool {
        match self {
            CheckCost::ToMany(t) => 1 <= t.recipients_spec().len() <= 100,
            CheckCost::PerRecipient(p) => 1 <= p.messages_spec().len() <= 100 && msgs_sorted(
                p.messages_spec(),
            ),
        }
    }

    /// Create a "one message to many recipients" cost request.
    ///
    /// Constraints:
    /// - `recipients` must be non-empty
    /// - `recipients.len()` must be at most [`CHECK_COST_MAX_RECIPIENTS`]
    pub fn to_many(
        recipients: Vec<RawPhoneNumber>,
        msg: MessageText,
        options: CheckCostOptions,
    ) -> (r: Result<Self, ValidationError>)
        ensures
            match r {
                Ok(req) => 1 <= recipients@.len() <= 100 && (req matches CheckCost::ToMany(t)
                    && t.recipients_spec() == recipients@ && t.msg_spec() == msg
                    && t.options_spec() == options),
                Err(e) => match e {
                    ValidationError::Empty { field } => recipients@.len() == 0 && field@ == "to"@,
                    ValidationError::TooManyRecipients { max, actual } => recipients@.len() > 100
                        && max == 100 && actual == recipients@.len(),
                    _ => false,
                },
            },
            r is Ok <==> 1 <= recipients@.len() <= 100,
            r matches Ok(req) ==> req.wf(),
    {
        if recipients.is_empty() {
            return Err(ValidationError::Empty { field: RawPhoneNumber::FIELD });
        }
        if recipients.len() > CHECK_COST_MAX_RECIPIENTS {
            return Err(
                ValidationError::TooManyRecipients {
                    max: CHECK_COST_MAX_RECIPIENTS,
                    actual: recipients.len(),
                },
            );
        }
        Ok(Self::ToMany(CostToMany { recipients, msg, options }))
    }

    /// Create a "per-recipient message" cost request.
    ///
    /// Entries are normalized to strictly ascending recipient order; a later
    /// entry for the same recipient replaces an earlier one.
    ///
    /// Constraints:
    /// - `messages` must be non-empty
    /// - the number of distinct recipients must be at most
    ///   [`CHECK_COST_MAX_RECIPIENTS`]
    pub fn per_recipient(
        messages: Vec<(RawPhoneNumber, MessageText)>,
        options: CheckCostOptions,
    ) -> (r: Result<Self, ValidationError>)
        ensures
            match r {
                Ok(req) => messages@.len() > 0 && msg_key_set(messages@).len() <= 100 && (
                req matches CheckCost::PerRecipient(p) && msgs_sorted(p.messages_spec())
                    && p.messages_spec().len() == msg_key_set(messages@).len()
                    && p.options_spec() == options && (forall|k: Seq<char>| #[trigger]
                    lookup_msg(p.messages_spec(), k) == lookup_msg(messages@, k))),
                Err(e) => match e {
                    ValidationError::Empty { field } => messages@.len() == 0 && field@ == "to"@,
                    ValidationError::TooManyRecipients { max, actual } => msg_key_set(
                        messages@,
                    ).len() > 100 && max == 100 && actual == msg_key_set(messages@).len(),
                    _ => false,
                },
            },
            r is Ok <==> messages@.len() > 0 && msg_key_set(messages@).len() <= 100,
            r matches Ok(req) ==> req.wf(),
    {
        if messages.is_empty() {
            return Err(ValidationError::Empty { field: RawPhoneNumber::FIELD });
        }
        let sorted = sort_messages(messages);
        if sorted.len() > CHECK_COST_MAX_RECIPIENTS {
            return Err(
                ValidationError::TooManyRecipients {
                    max: CHECK_COST_MAX_RECIPIENTS,
                    actual: sorted.len(),
                },
            );
        }
        Ok(Self::PerRecipient(CostPerRecipient { messages: sorted, options }))
    }
}

impl CostToMany {
    /// The recipient list, in spec form.
    pub closed spec fn recipients_spec(&self) -> Seq<RawPhoneNumber> {
        self.recipients@
    }

    /// The message text, in spec form.
    pub closed spec fn msg_spec(&self) -> MessageText {
        self.msg
    }

    /// The options, in spec form.
    pub closed spec fn options_spec(&self) -> CheckCostOptions {
        self.options
    }

    /// Recipient phone numbers as provided (not normalized).
    pub fn recipients(&self) -> (r: &Vec<RawPhoneNumber>)
        ensures
            r@ == self.recipients_spec(),
    {
        &self.recipients
    }

    /// Message text (non-empty; see [`MessageText`]).
    pub fn msg(&self) -> (r: &MessageText)
        ensures
            *r == self.msg_spec(),
    {
        &self.msg
    }

    /// Request options.
    pub fn options(&self) -> (r: &CheckCostOptions)
        ensures
            *r == self.options_spec(),
    {
        &self.options
    }
}

impl CostPerRecipient {
    /// The normalized entry list, in spec form.
    pub closed spec fn messages_spec(&self) -> Seq<(RawPhoneNumber, MessageText)> {
        self.messages@
    }

    /// The options, in spec form.
    pub closed spec fn options_spec(&self) -> CheckCostOptions {
        self.options
    }

    /// Per-recipient messages, sorted strictly by recipient text.
    pub fn messages(&self) -> (r: &Vec<(RawPhoneNumber, MessageText)>)
        ensures
            r@ == self.messages_spec(),
    {
        &self.messages
    }

    /// Request options.
    pub fn options(&self) -> (r: &CheckCostOptions)
        ensures
            *r == self.options_spec(),
    {
        &self.options
    }
}

/// A validated "check status" request.
///
/// Use [`CheckStatus::new`] for one or many ids or [`CheckStatus::one`] as a
/// convenience.
#[derive(Debug, Clone)]
pub struct CheckStatus {
    sms_ids: Vec<SmsId>,
}

impl CheckStatus {
    /// The id list, in spec form.
    pub closed spec fn sms_ids_spec(&self) -> Seq<SmsId> {
        self.sms_ids@
    }

    /// Whether the request satisfies its construction invariants.
    pub open spec fn wf(&self) -> bool {
        1 <= self.sms_ids_spec().len() <= 100
    }

    /// Create a "check status" request.
    ///
    /// Constraints:
    /// - `sms_ids` must be non-empty
    /// - `sms_ids.len()` must be at most [`CHECK_STATUS_MAX_SMS_IDS`]
    pub fn new(sms_ids: Vec<SmsId>) -> (r: Result<Self, ValidationError>)
        ensures
            match r {
                Ok(req) => 1 <= sms_ids@.len() <= 100 && req.sms_ids_spec() == sms_ids@,
                Err(e) => match e {
                    ValidationError::Empty { field } => sms_ids@.len() == 0 && field@ == "sms_id"@,
                    ValidationError::TooManySmsIds { max, actual } => sms_ids@.len() > 100 && max
                        == 100 && actual == sms_ids@.len(),
                    _ => false,
                },
            },
            r is Ok <==> 1 <= sms_ids@.len() <= 100,
            r matches Ok(req) ==> req.wf(),
    {
        if sms_ids.is_empty() {
            return Err(ValidationError::Empty { field: SmsId::FIELD });
        }
        if sms_ids.len() > CHECK_STATUS_MAX_SMS_IDS {
            return Err(
                ValidationError::TooManySmsIds {
                    max: CHECK_STATUS_MAX_SMS_IDS,
                    actual: sms_ids.len(),
                },
            );
        }
        Ok(Self { sms_ids })
    }

    /// Create a "check status" request for one message id.
    pub fn one(sms_id: SmsId) -> (r: Self)
        ensures
            r.sms_ids_spec() == seq![sms_id],
            r.wf(),
    {
        let mut ids: Vec<SmsId> = Vec::new();
        ids.push(sms_id);
        proof {
            assert(ids@ =~= seq![sms_id]);
        }
        Self { sms_ids: ids }
    }

    /// Message ids to query.
    pub fn sms_ids(&self) -> (r: &Vec<SmsId>)
        ensures
            r@ == self.sms_ids_spec(),
    {
        &self.sms_ids
    }
}

/// A validated "start call authentication" request.
#[derive(Debug, Clone)]
pub struct StartCallAuth {
    phone: RawPhoneNumber,
    options: StartCallAuthOptions,
}

impl StartCallAuth {
    /// The phone, in spec form.
    pub closed spec fn phone_spec(&self) -> RawPhoneNumber {
        self.phone
    }

    /// The options, in spec form.
    pub closed spec fn options_spec(&self) -> StartCallAuthOptions {
        self.options
    }

    /// Create a "start call authentication" request.
    pub fn new(phone: RawPhoneNumber, options: StartCallAuthOptions) -> (r: Self)
        ensures
            r.phone_spec() == phone,
            r.options_spec() == options,
    {
        Self { phone, options }
    }

    /// Phone number expected to place the confirmation call.
    pub fn phone(&self) -> (r: &RawPhoneNumber)
        ensures
            *r == self.phone_spec(),
    {
        &self.phone
    }

    /// Request options.
    pub fn options(&self) -> (r: &StartCallAuthOptions)
        ensures
            *r == self.options_spec(),
    {
        &self.options
    }
}

/// A validated "check call authentication status" request.
#[derive(Debug, Clone)]
pub struct CheckCallAuthStatus {
    check_id: CallCheckId,
    options: CheckCallAuthStatusOptions,
}

impl CheckCallAuthStatus {
    /// The check id, in spec form.
    pub closed spec fn check_id_spec(&self) -> CallCheckId {
        self.check_id
    }

    /// The options, in spec form.
    pub closed spec fn options_spec(&self) -> CheckCallAuthStatusOptions {
        self.options
    }

    /// Create a "check call authentication status" request.
    pub fn new(check_id: CallCheckId, options: CheckCallAuthStatusOptions) -> (r: Self)
        ensures
            r.check_id_spec() == check_id,
            r.options_spec() == options,
    {
        Self { check_id, options }
    }

    /// Check id returned by `callcheck/add`.
    pub fn check_id(&self) -> (r: &CallCheckId)
        ensures
            *r == self.check_id_spec(),
    {
        &self.check_id
    }

    /// Request options.
    pub fn options(&self) -> (r: &CheckCallAuthStatusOptions)
        ensures
            *r == self.options_spec(),
    {
        &self.options
    }
}

/// A validated "add callback" request.
#[derive(Debug, Clone)]
pub struct AddCallback {
    url: CallbackUrl,
}

impl AddCallback {
    /// The URL, in spec form.
    pub closed spec fn url_spec(&self) -> CallbackUrl {
        self.url
    }

    /// Create an "add callback" request.
    pub fn new(url: CallbackUrl) -> (r: Self)
        ensures
            r.url_spec() == url,
    {
        Self { url }
    }

    /// The callback handler URL to register.
    pub fn url(&self) -> (r: &CallbackUrl)
        ensures
            *r == self.url_spec(),
    {
        &self.url
    }
}

/// A validated "remove callback" request.
#[derive(Debug, Clone)]
pub struct RemoveCallback {
    url: CallbackUrl,
}

impl RemoveCallback {
    /// The URL, in spec form.
    pub closed spec fn url_spec(&self) -> CallbackUrl {
        self.url
    }

    /// Create a "remove callback" request.
    pub fn new(url: CallbackUrl) -> (r: Self)
        ensures
            r.url_spec() == url,
    {
        Self { url }
    }

    /// The callback handler URL to remove.
    pub fn url(&self) -> (r: &CallbackUrl)
        ensures
            *r == self.url_spec(),
    {
        &self.url
    }
}

/// A validated "add stoplist entry" request.
#[derive(Debug, Clone)]
pub struct AddStoplistEntry {
    phone: RawPhoneNumber,
    text: StoplistText,
}

impl AddStoplistEntry {
    /// The phone, in spec form.
    pub closed spec fn phone_spec(&self) -> RawPhoneNumber {
        self.phone
    }

    /// The note, in spec form.
    pub closed spec fn text_spec(&self) -> StoplistText {
        self.text
    }

    /// Create an "add stoplist entry" request.
    pub fn new(phone: RawPhoneNumber, text: StoplistText) -> (r: Self)
        ensures
            r.phone_spec() == phone,
            r.text_spec() == text,
    {
        Self { phone, text }
    }

    /// The phone number to block.
    pub fn phone(&self) -> (r: &RawPhoneNumber)
        ensures
            *r == self.phone_spec(),
    {
        &self.phone
    }

    /// The note stored with the entry.
    pub fn text(&self) -> (r: &StoplistText)
        ensures
            *r == self.text_spec(),
    {
        &self.text
    }
}

/// A validated "remove stoplist entry" request.
#[derive(Debug, Clone)]
pub struct RemoveStoplistEntry {
    phone: RawPhoneNumber,
}

impl RemoveStoplistEntry {
    /// The phone, in spec form.
    pub closed spec fn phone_spec(&self) -> RawPhoneNumber {
        self.phone
    }

    /// Create a "remove stoplist entry" request.
    pub fn new(phone: RawPhoneNumber) -> (r: Self)
        ensures
            r.phone_spec() == phone,
    {
        Self { phone }
    }

    /// The phone number to unblock.
    pub fn phone(&self) -> (r: &RawPhoneNumber)
        ensures
            *r == self.phone_spec(),
    {
        &self.phone
    }
}

} // verus!
