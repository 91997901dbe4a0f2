//! The key reconciler: response object keys are matched back to the exact
//! identifiers the request was built with.
//!
//! For every phone number the table registers the canonical text and the
//! variant with a leading `+` toggled; for message ids only the canonical
//! text. A response key is looked up trimmed first, then as sent. An
//! unmatched key is a hard decode failure, never skipped: silently dropping
//! one would misattribute a recipient's result.

use vstd::prelude::*;

use crate::error::TransportError;
use crate::text::{plus_variant, plus_variant_spec, str_eq, trim_spec, trim_str};
use crate::value::{RawPhoneNumber, SmsId};

verus! {

/// The registered forms of the phone texts, in registration order: for each
/// phone its canonical text, then the text with a leading `+` toggled, each
/// mapped to the canonical text.
pub open spec fn phone_forms(phones: Seq<Seq<char>>) -> Seq<(Seq<char>, Seq<char>)>
    decreases phones.len(),
{
    if phones.len() == 0 {
        Seq::empty()
    } else {
        phone_forms(phones.drop_last()) + seq![
            (phones.last(), phones.last()),
            (plus_variant_spec(phones.last()), phones.last()),
        ]
    }
}

/// The registered forms of the id texts: each canonical text mapped to
/// itself.
pub open spec fn sms_id_forms(ids: Seq<Seq<char>>) -> Seq<(Seq<char>, Seq<char>)>
    decreases ids.len(),
{
    if ids.len() == 0 {
        Seq::empty()
    } else {
        sms_id_forms(ids.drop_last()) + seq![(ids.last(), ids.last())]
    }
}

/// The first registration of form `k`, if any: an earlier registration is
/// never displaced by a later one.
pub open spec fn lookup_form(t: Seq<(Seq<char>, Seq<char>)>, k: Seq<char>) -> Option<Seq<char>>
    decreases t.len(),
{
    if t.len() == 0 {
        None
    } else if t[0].0 == k {
        Some(t[0].1)
    } else {
        lookup_form(t.drop_first(), k)
    }
}

/// How a raw response key resolves against a table: the trimmed form is
/// tried first, then the form as sent.
pub open spec fn reconcile_spec(t: Seq<(Seq<char>, Seq<char>)>, key: Seq<char>) -> Option<
    Seq<char>,
> {
    match lookup_form(t, trim_spec(key)) {
        Some(p) => Some(p),
        None => lookup_form(t, key),
    }
}

/// The table's pairs, as text.
pub open spec fn phone_table_view(t: Seq<(String, RawPhoneNumber)>) -> Seq<(Seq<char>, Seq<char>)> {
    t.map_values(|p: (String, RawPhoneNumber)| (p.0@, p.1@))
}

/// The table's pairs, as text.
pub open spec fn sms_id_table_view(t: Seq<(String, SmsId)>) -> Seq<(Seq<char>, Seq<char>)> {
    t.map_values(|p: (String, SmsId)| (p.0@, p.1@))
}

/// Build the lookup table for a request's phone numbers.
#[verifier::loop_isolation(false)]
pub fn build_phone_lookup(phones: &Vec<RawPhoneNumber>) -> (r: Vec<(String, RawPhoneNumber)>)
    ensures
        phone_table_view(r@) == phone_forms(phones@.map_values(|p: RawPhoneNumber| p@)),
{
    let mut out: Vec<(String, RawPhoneNumber)> = Vec::new();
    let mut i: usize = 0;
    proof {
        assert(phone_table_view(out@) =~= phone_forms(
            phones@.take(0).map_values(|p: RawPhoneNumber| p@),
        ));
    }
    while i < phones.len()
        invariant
            0 <= i <= phones@.len(),
            phone_table_view(out@) == phone_forms(
                phones@.take(i as int).map_values(|p: RawPhoneNumber| p@),
            ),
        decreases phones@.len() - i,
    {
        let p = &phones[i];
        out.push((p.raw().to_owned(), p.clone()));
        out.push((plus_variant(p.raw()), p.clone()));
        proof {
            let t = phones@.take(i + 1).map_values(|p: RawPhoneNumber| p@);
            assert(t.drop_last() =~= phones@.take(i as int).map_values(|p: RawPhoneNumber| p@));
            assert(t.last() == phones@[i as int]@);
            assert(phone_table_view(out@) =~= phone_forms(
                phones@.take(i as int).map_values(|p: RawPhoneNumber| p@),
            ) + seq![
                (phones@[i as int]@, phones@[i as int]@),
                (plus_variant_spec(phones@[i as int]@), phones@[i as int]@),
            ]);
        }
        i = i + 1;
    }
    proof {
        assert(phones@.take(phones@.len() as int).map_values(|p: RawPhoneNumber| p@)
            =~= phones@.map_values(|p: RawPhoneNumber| p@));
    }
    out
}

/// Build the lookup table for a request's message ids.
#[verifier::loop_isolation(false)]
pub fn build_sms_id_lookup(ids: &Vec<SmsId>) -> (r: Vec<(String, SmsId)>)
    ensures
        sms_id_table_view(r@) == sms_id_forms(ids@.map_values(|id: SmsId| id@)),
{
    let mut out: Vec<(String, SmsId)> = Vec::new();
    let mut i: usize = 0;
    proof {
        assert(sms_id_table_view(out@) =~= sms_id_forms(
            ids@.take(0).map_values(|id: SmsId| id@),
        ));
    }
    while i < ids.len()
        invariant
            0 <= i <= ids@.len(),
            sms_id_table_view(out@) == sms_id_forms(
                ids@.take(i as int).map_values(|id: SmsId| id@),
            ),
        decreases ids@.len() - i,
    {
        let id = &ids[i];
        out.push((id.as_str().to_owned(), id.clone()));
        proof {
            let t = ids@.take(i + 1).map_values(|id: SmsId| id@);
            assert(t.drop_last() =~= ids@.take(i as int).map_values(|id: SmsId| id@));
            assert(t.last() == ids@[i as int]@);
            assert(sms_id_table_view(out@) =~= sms_id_forms(
                ids@.take(i as int).map_values(|id: SmsId| id@),
            ) + seq![(ids@[i as int]@, ids@[i as int]@)]);
        }
        i = i + 1;
    }
    proof {
        assert(ids@.take(ids@.len() as int).map_values(|id: SmsId| id@) =~= ids@.map_values(
            |id: SmsId| id@,
        ));
    }
    out
}

#[verifier::loop_isolation(false)]
fn lookup_phone_form(t: &Vec<(String, RawPhoneNumber)>, k: &str) -> (r: Option<RawPhoneNumber>)
    ensures
        match r {
            Some(p) => lookup_form(phone_table_view(t@), k@) == Some(p@),
            None => lookup_form(phone_table_view(t@), k@) is None,
        },
{
    let ghost tv = phone_table_view(t@);
    let mut i: usize = 0;
    proof {
        assert(tv.skip(0) =~= tv);
    }
    while i < t.len()
        invariant
            0 <= i <= t@.len(),
            tv == phone_table_view(t@),
            lookup_form(tv, k@) == lookup_form(tv.skip(i as int), k@),
        decreases t@.len() - i,
    {
        proof {
            assert(tv.skip(i as int)[0] == tv[i as int]);
            assert(tv.skip(i as int).drop_first() =~= tv.skip(i + 1));
        }
        if str_eq(t[i].0.as_str(), k) {
            return Some(t[i].1.clone());
        }
        i = i + 1;
    }
    proof {
        assert(tv.skip(tv.len() as int) =~= Seq::<(Seq<char>, Seq<char>)>::empty());
    }
    None
}

#[verifier::loop_isolation(false)]
fn lookup_sms_id_form(t: &Vec<(String, SmsId)>, k: &str) -> (r: Option<SmsId>)
    ensures
        match r {
            Some(p) => lookup_form(sms_id_table_view(t@), k@) == Some(p@),
            None => lookup_form(sms_id_table_view(t@), k@) is None,
        },
{
    let ghost tv = sms_id_table_view(t@);
    let mut i: usize = 0;
    proof {
        assert(tv.skip(0) =~= tv);
    }
    while i < t.len()
        invariant
            0 <= i <= t@.len(),
            tv == sms_id_table_view(t@),
            lookup_form(tv, k@) == lookup_form(tv.skip(i as int), k@),
        decreases t@.len() - i,
    {
        proof {
            assert(tv.skip(i as int)[0] == tv[i as int]);
            assert(tv.skip(i as int).drop_first() =~= tv.skip(i + 1));
        }
        if str_eq(t[i].0.as_str(), k) {
            return Some(t[i].1.clone());
        }
        i = i + 1;
    }
    proof {
        assert(tv.skip(tv.len() as int) =~= Seq::<(Seq<char>, Seq<char>)>::empty());
    }
    None
}

/// Resolve a raw response key to a phone number of the request, trimmed form
/// first; an unmatched key fails with [`TransportError::UnknownPhoneNumberKey`].
pub fn match_phone_key(t: &Vec<(String, RawPhoneNumber)>, key: &str) -> (r: Result<
    RawPhoneNumber,
    TransportError,
>)
    ensures
        match r {
            Ok(p) => reconcile_spec(phone_table_view(t@), key@) == Some(p@),
            Err(e) => reconcile_spec(phone_table_view(t@), key@) is None && (
            e matches TransportError::UnknownPhoneNumberKey { key: k } && k@ == key@),
        },
{
    let trimmed = trim_str(key);
    if let Some(found) = lookup_phone_form(t, trimmed.as_str()) {
        return Ok(found);
    }
    if let Some(found) = lookup_phone_form(t, key) {
        return Ok(found);
    }
    Err(TransportError::UnknownPhoneNumberKey { key: key.to_owned() })
}

/// Resolve a raw response key to an sms id of the request, trimmed form
/// first; an unmatched key fails with [`TransportError::UnknownSmsIdKey`].
pub fn match_sms_id_key(t: &Vec<(String, SmsId)>, key: &str) -> (r: Result<SmsId, TransportError>)
    ensures
        match r {
            Ok(p) => reconcile_spec(sms_id_table_view(t@), key@) == Some(p@),
            Err(e) => reconcile_spec(sms_id_table_view(t@), key@) is None && (
            e matches TransportError::UnknownSmsIdKey { key: k } && k@ == key@),
        },
{
    let trimmed = trim_str(key);
    if let Some(found) = lookup_sms_id_form(t, trimmed.as_str()) {
        return Ok(found);
    }
    if let Some(found) = lookup_sms_id_form(t, key) {
        return Ok(found);
    }
    Err(TransportError::UnknownSmsIdKey { key: key.to_owned() })
}

} // verus!
