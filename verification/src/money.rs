//! Money-like values returned by SMS.RU as either a JSON string or a JSON
//! number.

use vstd::prelude::*;

use crate::json::{JsonValue, decode_money, money_spec};

verus! {

/// A money-like value with the server's exact decimal text preserved: a
/// token such as `10.00` stays `10.00`, never `10` or `10.0`.
#[derive(Debug, Clone, PartialEq, Eq)]
pub struct TransportMoney(String);

impl View for TransportMoney {
    type V = Seq<char>;

    closed spec fn view(&self) -> Seq<char> {
        self.0@
    }
}

impl TransportMoney {
    /// Read a money value from a JSON string or number; anything else is no
    /// money value.
    pub fn from_value(v: &JsonValue) -> (r: Option<Self>)
        ensures
            match r {
                Some(m) => money_spec(*v) == Some(m@),
                None => money_spec(*v) is None,
            },
    {
        match decode_money(v) {
            Some(s) => Some(Self(s)),
            None => None,
        }
    }

    /// The preserved decimal text.
    pub fn into_string(self) -> (r: String)
        ensures
            r@ == self@,
    {
        self.0
    }
}

} // verus!
