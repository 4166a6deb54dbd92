//! The payload of a resolved attribute.

use crate::json::{Json, JsonNumber};
use vstd::prelude::*;

verus! {

/// The value of one attribute.
///
/// A floating point value is held by its IEEE 754 binary64 bit pattern, so
/// that two values are equal exactly when their bits are.
#[derive(Debug)]
pub enum AttributeValue {
    Bool(bool),
    I64(i64),
    U128(u128),
    Double { bits: u64 },
    String(String),
}

/// The mathematical value of an [`AttributeValue`].
pub enum AttributeValueView {
    Bool(bool),
    I64(i64),
    U128(u128),
    Double { bits: u64 },
    String(Seq<char>),
}

impl View for AttributeValue {
    type V = AttributeValueView;

    open spec fn view(&self) -> AttributeValueView {
        match self {
            AttributeValue::Bool(b) => AttributeValueView::Bool(*b),
            AttributeValue::I64(n) => AttributeValueView::I64(*n),
            AttributeValue::U128(n) => AttributeValueView::U128(*n),
            AttributeValue::Double { bits } => AttributeValueView::Double { bits: *bits },
            AttributeValue::String(s) => AttributeValueView::String(s@),
        }
    }
}

impl AttributeValue {
    /// A copy with the same value.
    pub fn duplicate(&self) -> (copy: AttributeValue)
        ensures
            copy@ == self@,
    {
        match self {
            AttributeValue::Bool(b) => AttributeValue::Bool(*b),
            AttributeValue::I64(n) => AttributeValue::I64(*n),
            AttributeValue::U128(n) => AttributeValue::U128(*n),
            AttributeValue::Double { bits } => AttributeValue::Double { bits: *bits },
            AttributeValue::String(s) => AttributeValue::String(s.clone()),
        }
    }
}

/// The attribute value that a structured value converts to.
///
/// A truth value, a number and a text convert; nothing else does. A whole
/// number is signed where it fits in 64 bits and unsigned above that.
pub open spec fn attribute_of(json: Json) -> Option<AttributeValueView> {
    match json {
        Json::Bool(b) => Some(AttributeValueView::Bool(b)),
        Json::Number(JsonNumber::Unsigned(n)) => if n <= i64::MAX {
            Some(AttributeValueView::I64(n as i64))
        } else {
            Some(AttributeValueView::U128(n as u128))
        },
        Json::Number(JsonNumber::Signed(n)) => Some(AttributeValueView::I64(n)),
        Json::Number(JsonNumber::Double { bits }) => Some(AttributeValueView::Double { bits }),
        Json::String(s) => Some(AttributeValueView::String(s@)),
        _ => None,
    }
}

/// What a path leads to in a JSON document, as it is found there.
#[derive(Debug)]
pub enum Found {
    Null,
    Bool(bool),
    /// A number, with what it is as an unsigned and as a signed whole
    /// number, where it is one, and as a number with a fraction.
    Number { unsigned: Option<u64>, signed: Option<i64>, bits: Option<u64> },
    String(String),
    Array(Vec<serde_json::Value>),
    Object(serde_json::Map<String, serde_json::Value>),
}

/// The number that was found, as a structured value holds it: unsigned where
/// it is that, else signed, else with a fraction.
pub open spec fn found_number(
    unsigned: Option<u64>,
    signed: Option<i64>,
    bits: Option<u64>,
) -> Option<JsonNumber> {
    match (unsigned, signed, bits) {
        (Some(n), _, _) => Some(JsonNumber::Unsigned(n)),
        (None, Some(n), _) => Some(JsonNumber::Signed(n)),
        (None, None, Some(b)) => Some(JsonNumber::Double { bits: b }),
        (None, None, None) => None,
    }
}

/// The attribute value that what was found converts to: a truth value, a
/// number and a text convert as they do in a structured value; `null`, an
/// array and an object do not.
pub open spec fn found_attribute(found: Found) -> Option<AttributeValueView> {
    match found {
        Found::Bool(b) => Some(AttributeValueView::Bool(b)),
        Found::Number { unsigned, signed, bits } => match found_number(unsigned, signed, bits) {
            Some(n) => attribute_of(Json::Number(n)),
            None => None,
        },
        Found::String(s) => Some(AttributeValueView::String(s@)),
        _ => None,
    }
}

/// What a rule resolves to: the value found, or else the configured default.
pub open spec fn or_default(
    found: Option<AttributeValueView>,
    default: Option<AttributeValueView>,
) -> Option<AttributeValueView> {
    match found {
        Some(v) => Some(v),
        None => default,
    }
}

/// A text as an attribute value.
pub open spec fn text_value(text: Option<Seq<char>>) -> Option<AttributeValueView> {
    match text {
        Some(t) => Some(AttributeValueView::String(t)),
        None => None,
    }
}

/// The view of an optional text.
pub open spec fn text_of(text: Option<String>) -> Option<Seq<char>> {
    match text {
        Some(t) => Some(t@),
        None => None,
    }
}

/// The view of an optional value.
pub open spec fn view_of(value: Option<AttributeValue>) -> Option<AttributeValueView> {
    match value {
        Some(v) => Some(v@),
        None => None,
    }
}

impl AttributeValue {
    /// Converts a structured value.
    pub fn from_json(json: &Json) -> (value: Option<AttributeValue>)
        ensures
            view_of(value) == attribute_of(*json),
    {
        match json {
            Json::Bool(b) => Some(AttributeValue::Bool(*b)),
            Json::Number(JsonNumber::Unsigned(n)) => {
                if *n <= 0x7fff_ffff_ffff_ffff {
                    Some(AttributeValue::I64(*n as i64))
                } else {
                    Some(AttributeValue::U128(*n as u128))
                }
            },
            Json::Number(JsonNumber::Signed(n)) => Some(AttributeValue::I64(*n)),
            Json::Number(JsonNumber::Double { bits }) => Some(
                AttributeValue::Double { bits: *bits },
            ),
            Json::String(s) => Some(AttributeValue::String(s.clone())),
            _ => None,
        }
    }
}

impl AttributeValue {
    /// Converts what a path led to.
    pub fn from_found(found: Found) -> (value: Option<AttributeValue>)
        ensures
            view_of(value) == found_attribute(found),
    {
        match found {
            Found::Bool(b) => Some(AttributeValue::Bool(b)),
            Found::Number { unsigned, signed, bits } => {
                let number = match (unsigned, signed, bits) {
                    (Some(n), _, _) => JsonNumber::Unsigned(n),
                    (None, Some(n), _) => JsonNumber::Signed(n),
                    (None, None, Some(b)) => JsonNumber::Double { bits: b },
                    (None, None, None) => {
                        return None;
                    },
                };
                AttributeValue::from_json(&Json::Number(number))
            },
            Found::String(s) => Some(AttributeValue::String(s)),
            _ => None,
        }
    }
}

/// A copy of an optional value.
pub fn duplicate_value(value: &Option<AttributeValue>) -> (copy: Option<AttributeValue>)
    ensures
        view_of(copy) == view_of(*value),
{
    match value {
        Some(v) => Some(v.duplicate()),
        None => None,
    }
}

/// A text as an attribute value.
pub fn text_attribute(text: Option<String>) -> (value: Option<AttributeValue>)
    ensures
        view_of(value) == text_value(text_of(text)),
{
    match text {
        Some(t) => Some(AttributeValue::String(t)),
        None => None,
    }
}

/// The value found or, where nothing was found, a copy of the default.
pub fn found_or_default(found: Option<AttributeValue>, default: &Option<AttributeValue>) -> (value:
    Option<AttributeValue>)
    ensures
        view_of(value) == or_default(view_of(found), view_of(*default)),
{
    match found {
        Some(v) => Some(v),
        None => duplicate_value(default),
    }
}

/// The value found or, where nothing was found, the default text as a value.
pub fn found_or_text(found: Option<AttributeValue>, default: &Option<String>) -> (value: Option<
    AttributeValue,
>)
    ensures
        view_of(value) == or_default(view_of(found), text_value(text_of(*default))),
{
    match found {
        Some(v) => Some(v),
        None => match default {
            Some(t) => Some(AttributeValue::String(t.clone())),
            None => None,
        },
    }
}

} // verus!
