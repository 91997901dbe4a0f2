//! Cross-cutting properties of the wire-mapping layer, stated and proved
//! over the same spec functions the decoder and encoder contracts use.

use vstd::prelude::*;

use crate::json::{JsonValue, money_spec};
use crate::lookup::{lookup_form, phone_forms, reconcile_spec};
use crate::form::per_recipient_fields;
use crate::send_sms::{resolve_phone_items_spec, sms_item_spec, sms_items_spec};
use crate::response::SmsResultModel;
use crate::text::{plus_variant_spec, trim_spec};
use crate::value::{MessageText, RawPhoneNumber, auth_error_spec, known_code_of, retryable_spec};

verus! {

/// Money survives decoding as the exact source text: a JSON string keeps its
/// content and a JSON number keeps its token, character for character; the
/// decoder never reformats a decimal.
pub proof fn lemma_money_token_preserved(s: String)
    ensures
        money_spec(JsonValue::Number(s)) == Some(s@),
        money_spec(JsonValue::String(s)) == Some(s@),
{
}

proof fn lemma_lookup_form_concat(
    s1: Seq<(Seq<char>, Seq<char>)>,
    s2: Seq<(Seq<char>, Seq<char>)>,
    k: Seq<char>,
)
    ensures
        lookup_form(s1 + s2, k) == (match lookup_form(s1, k) {
            Some(v) => Some(v),
            None => lookup_form(s2, k),
        }),
    decreases s1.len(),
{
    if s1.len() == 0 {
        assert(s1 + s2 =~= s2);
    } else {
        let whole = s1 + s2;
        assert(whole[0] == s1[0]);
        assert(whole.drop_first() =~= s1.drop_first() + s2);
        lemma_lookup_form_concat(s1.drop_first(), s2, k);
    }
}

/// A form is registered exactly for the phones whose canonical or toggled
/// text it is, and what it resolves to is always one of the phones.
pub proof fn lemma_phone_forms_membership(phones: Seq<Seq<char>>, k: Seq<char>)
    ensures
        lookup_form(phone_forms(phones), k) is Some <==> exists|i: int|
            0 <= i < phones.len() && (k == phones[i] || k == plus_variant_spec(phones[i])),
        lookup_form(phone_forms(phones), k) matches Some(p) ==> exists|i: int|
            0 <= i < phones.len() && p == phones[i],
    decreases phones.len(),
{
    if phones.len() > 0 {
        let t = phones.drop_last();
        let last = phones.last();
        let tail = seq![(last, last), (plus_variant_spec(last), last)];
        lemma_lookup_form_concat(phone_forms(t), tail, k);
        lemma_phone_forms_membership(t, k);
        let tail1 = tail.drop_first();
        assert(tail[0] == (last, last));
        assert(tail1 =~= seq![(plus_variant_spec(last), last)]);
        assert(tail1[0] == (plus_variant_spec(last), last));
        assert(tail1.drop_first() =~= Seq::<(Seq<char>, Seq<char>)>::empty());
        assert(lookup_form(tail1.drop_first(), k) is None);
        assert(lookup_form(tail1, k) == (if plus_variant_spec(last) == k {
            Some(last)
        } else {
            None::<Seq<char>>
        }));
        assert(lookup_form(tail, k) == (if last == k {
            Some(last)
        } else if plus_variant_spec(last) == k {
            Some(last)
        } else {
            None::<Seq<char>>
        }));
        assert(phones[phones.len() - 1] == last);
        if lookup_form(phone_forms(phones), k) is Some {
            if lookup_form(phone_forms(t), k) is Some {
                let i = choose|i: int|
                    0 <= i < t.len() && (k == t[i] || k == plus_variant_spec(t[i]));
                assert(phones[i] == t[i]);
                assert(0 <= i < phones.len() && (k == phones[i] || k == plus_variant_spec(
                    phones[i],
                )));
            } else {
                assert(k == last || k == plus_variant_spec(last));
            }
        }
        if exists|i: int|
            0 <= i < phones.len() && (k == phones[i] || k == plus_variant_spec(phones[i])) {
            let i = choose|i: int|
                0 <= i < phones.len() && (k == phones[i] || k == plus_variant_spec(phones[i]));
            if i < phones.len() - 1 {
                assert(t[i] == phones[i]);
                assert(lookup_form(phone_forms(t), k) is Some);
            }
            assert(lookup_form(phone_forms(phones), k) is Some);
        }
        match lookup_form(phone_forms(phones), k) {
            Some(p) => {
                if lookup_form(phone_forms(t), k) is Some {
                    let i = choose|i: int| 0 <= i < t.len() && lookup_form(phone_forms(t), k)->0
                        == t[i];
                    assert(phones[i] == t[i]);
                } else {
                    assert(p == last);
                }
            },
            None => {},
        }
    }
}

/// Key reconciliation tolerance: a response key whose trimmed or untrimmed
/// text is a registered form of some phone of the request resolves, and what
/// it resolves to is a phone of the request; a key with no registered form
/// fails to resolve.
pub proof fn lemma_reconcile_tolerant(phones: Seq<Seq<char>>, k: Seq<char>)
    ensures
        reconcile_spec(phone_forms(phones), k) is Some <==> exists|i: int|
            0 <= i < phones.len() && (trim_spec(k) == phones[i] || trim_spec(k)
                == plus_variant_spec(phones[i]) || k == phones[i] || k == plus_variant_spec(
                phones[i],
            )),
        reconcile_spec(phone_forms(phones), k) matches Some(p) ==> exists|i: int|
            0 <= i < phones.len() && p == phones[i],
{
    lemma_phone_forms_membership(phones, trim_spec(k));
    lemma_phone_forms_membership(phones, k);
}

/// Per-recipient encoding is positional: one bracketed field per entry, in
/// entry order, carrying exactly that entry's text. Together with the
/// strictly ascending entry order a validated request guarantees, the
/// emitted field order is the lexicographic recipient order, the same on
/// every call.
pub proof fn lemma_per_recipient_fields_positional(msgs: Seq<(RawPhoneNumber, MessageText)>)
    ensures
        per_recipient_fields(msgs).len() == msgs.len(),
        forall|i: int| 0 <= i < msgs.len() ==> #[trigger] per_recipient_fields(msgs)[i] == (
        "to["@ + msgs[i].0@ + "]"@, msgs[i].1@),
    decreases msgs.len(),
{
    if msgs.len() > 0 {
        let t = msgs.drop_last();
        lemma_per_recipient_fields_positional(t);
        assert forall|i: int| 0 <= i < msgs.len() implies #[trigger] per_recipient_fields(msgs)[i]
            == ("to["@ + msgs[i].0@ + "]"@, msgs[i].1@) by {
            if i < msgs.len() - 1 {
                assert(per_recipient_fields(msgs)[i] == per_recipient_fields(t)[i]);
                assert(t[i] == msgs[i]);
            }
        }
    }
}

proof fn lemma_items_positional(items: Seq<(String, JsonValue)>)
    requires
        sms_items_spec(items) is Some,
    ensures
        sms_items_spec(items)->Some_0.len() == items.len(),
        forall|i: int| 0 <= i < items.len() ==> sms_item_spec(#[trigger] items[i].1) is Some
            && sms_items_spec(items)->Some_0[i] == (items[i].0@, sms_item_spec(items[i].1)->0),
    decreases items.len(),
{
    if items.len() > 0 {
        let t = items.drop_first();
        lemma_items_positional(t);
        let whole = sms_items_spec(items)->Some_0;
        let rest = sms_items_spec(t)->Some_0;
        assert(whole =~= seq![(items[0].0@, sms_item_spec(items[0].1)->0)] + rest);
        assert forall|i: int| 0 <= i < items.len() implies sms_item_spec(
            #[trigger] items[i].1,
        ) is Some && whole[i] == (items[i].0@, sms_item_spec(items[i].1)->0) by {
            if i > 0 {
                assert(t[i - 1] == items[i]);
                assert(whole[i] == rest[i - 1]);
            }
        }
    }
}

proof fn lemma_resolve_positional(
    t: Seq<(Seq<char>, Seq<char>)>,
    raw: Seq<(Seq<char>, SmsResultModel)>,
)
    requires
        resolve_phone_items_spec(t, raw) is Ok,
    ensures
        resolve_phone_items_spec(t, raw)->Ok_0.len() == raw.len(),
        forall|i: int| 0 <= i < raw.len() ==> #[trigger] resolve_phone_items_spec(t, raw)->Ok_0[i].1
            == raw[i].1,
    decreases raw.len(),
{
    if raw.len() > 0 {
        let rest_in = raw.drop_first();
        lemma_resolve_positional(t, rest_in);
        let whole = resolve_phone_items_spec(t, raw)->Ok_0;
        let rest = resolve_phone_items_spec(t, rest_in)->Ok_0;
        assert(whole =~= seq![(reconcile_spec(t, raw[0].0)->0, raw[0].1)] + rest);
        assert forall|i: int| 0 <= i < raw.len() implies #[trigger] whole[i].1 == raw[i].1 by {
            if i > 0 {
                assert(rest_in[i - 1] == raw[i]);
                assert(whole[i] == rest[i - 1]);
            }
        }
    }
}

/// Partial failure is preserved, not propagated: when a send decode
/// succeeds, the per-recipient results are the response object's entries
/// verbatim, position for position — an entry whose own status is `ERROR`
/// stays in the map exactly as sent and never turns the successful decode
/// into a failure.
pub proof fn lemma_partial_failure_preserved(
    t: Seq<(Seq<char>, Seq<char>)>,
    items: Seq<(String, JsonValue)>,
)
    requires
        sms_items_spec(items) is Some,
        resolve_phone_items_spec(t, sms_items_spec(items)->Some_0) is Ok,
    ensures
        resolve_phone_items_spec(t, sms_items_spec(items)->Some_0)->Ok_0.len() == items.len(),
        forall|i: int| 0 <= i < items.len() ==> #[trigger] resolve_phone_items_spec(
            t,
            sms_items_spec(items)->Some_0,
        )->Ok_0[i].1 == sms_item_spec(items[i].1)->0,
{
    lemma_items_positional(items);
    lemma_resolve_positional(t, sms_items_spec(items)->Some_0);
}

/// An unknown status code carries no classification: it is neither
/// retryable nor an authentication error, and no decode step consults the
/// classification at all.
pub proof fn lemma_unknown_code_unclassified(code: int)
    requires
        known_code_of(code) is None,
    ensures
        !(known_code_of(code) matches Some(k) && retryable_spec(k)),
        !(known_code_of(code) matches Some(k) && auth_error_spec(k)),
{
}

} // verus!
