//! The extraction protocol: what a single rule resolves to for an event, and
//! what a whole set of attributes resolves to.

use crate::events::StageError;
use crate::resolved::Attributes;
use crate::value::{view_of, AttributeValue, AttributeValueView};
use vstd::prelude::*;

verus! {

/// A rule that resolves to at most one value for an event.
///
/// A rule reads either requests or responses. Asked for the other, it
/// resolves to nothing.
pub trait GetAttribute<Request, Response> {
    /// What the rule resolves to for a request.
    spec fn request_value(&self, request: &Request) -> Option<AttributeValueView>;

    /// What the rule resolves to for a response.
    spec fn response_value(&self, response: &Response) -> Option<AttributeValueView>;

    /// Resolves the rule for a request.
    fn on_request(&self, request: &Request) -> (value: Option<AttributeValue>)
        ensures
            view_of(value) == self.request_value(request),
    ;

    /// Resolves the rule for a response.
    fn on_response(&self, response: &Response) -> (value: Option<AttributeValue>)
        ensures
            view_of(value) == self.response_value(response),
    ;
}

/// A set of attributes that resolves to a mapping for an event.
pub trait GetAttributes<Request, Response> {
    /// What the set resolves to for a request.
    spec fn request_attributes(&self, request: &Request) -> Map<Seq<char>, AttributeValueView>;

    /// What the set resolves to for a response.
    spec fn response_attributes(&self, response: &Response) -> Map<Seq<char>, AttributeValueView>;

    /// What the set resolves to for a failure.
    spec fn error_attributes(&self, error: &StageError) -> Map<Seq<char>, AttributeValueView>;

    /// Resolves the set for a request.
    fn on_request(&self, request: &Request) -> (attributes: Attributes)
        ensures
            attributes@ == self.request_attributes(request),
    ;

    /// Resolves the set for a response.
    fn on_response(&self, response: &Response) -> (attributes: Attributes)
        ensures
            attributes@ == self.response_attributes(response),
    ;

    /// Resolves the set for a failure.
    fn on_error(&self, error: &StageError) -> (attributes: Attributes)
        ensures
            attributes@ == self.error_attributes(error),
    ;
}

/// `attributes` with `value` under `key`, provided that the switch is on and
/// there is a value.
pub open spec fn with(
    attributes: Map<Seq<char>, AttributeValueView>,
    switch: Option<bool>,
    key: Seq<char>,
    value: Option<AttributeValueView>,
) -> Map<Seq<char>, AttributeValueView> {
    if switch == Some(true) && value is Some {
        attributes.insert(key, value.unwrap())
    } else {
        attributes
    }
}

/// Whether a switch is on.
pub fn is_on(switch: &Option<bool>) -> (on: bool)
    ensures
        on == (*switch == Some(true)),
{
    match switch {
        Some(true) => true,
        _ => false,
    }
}

/// Puts `value` under `key` if there is a value.
pub fn put(attributes: &mut Attributes, key: &str, value: Option<AttributeValue>)
    ensures
        final(attributes)@ == with(old(attributes)@, Some(true), key@, view_of(value)),
{
    if let Some(v) = value {
        attributes.insert(key.to_owned(), v);
    }
}

} // verus!
