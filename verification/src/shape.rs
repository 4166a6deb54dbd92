//! The shape of a custom attribute rule in configuration: an object with one
//! characteristic field that says where the value comes from, and at most a
//! default and a redaction marker beside it.

use crate::json::{find_member, lookup, Json, Member};
use crate::value::{attribute_of, text_of, view_of, AttributeValue, AttributeValueView};
use vstd::prelude::*;

verus! {

/// The field that holds a rule's default.
pub const DEFAULT: &'static str = "default";

/// The field that holds a rule's redaction marker.
pub const REDACT: &'static str = "redact";

/// Whether a rule with the characteristic field `field` may have a member
/// called `name`.
pub open spec fn allowed_name(
    name: Seq<char>,
    field: Seq<char>,
    with_default: bool,
    with_redact: bool,
) -> bool {
    name == field || (with_default && name == DEFAULT@) || (with_redact && name == REDACT@)
}

/// Whether every member carries a name that the rule may have.
pub open spec fn only_allowed(
    members: Seq<Member>,
    field: Seq<char>,
    with_default: bool,
    with_redact: bool,
) -> bool {
    forall|i: int|
        0 <= i < members.len() ==> allowed_name(
            #[trigger] members[i].name@,
            field,
            with_default,
            with_redact,
        )
}

/// The text that `members` hold under `name`.
pub open spec fn text_field(members: Seq<Member>, name: Seq<char>) -> Option<Seq<char>> {
    match lookup(members, name) {
        Some(m) => match m.value {
            Json::String(s) => Some(s@),
            _ => None,
        },
        None => None,
    }
}

/// Whether the member called `name`, if there is one, holds a text or `null`.
pub open spec fn optional_text(members: Seq<Member>, name: Seq<char>) -> bool {
    match lookup(members, name) {
        Some(m) => m.value is String || m.value is Null,
        None => true,
    }
}

/// Whether the default, if there is one, is `null` or converts to an
/// attribute value.
pub open spec fn optional_value(members: Seq<Member>) -> bool {
    match lookup(members, DEFAULT@) {
        Some(m) => m.value is Null || attribute_of(m.value) is Some,
        None => true,
    }
}

/// The default as an attribute value.
pub open spec fn default_value(members: Seq<Member>) -> Option<AttributeValueView> {
    match lookup(members, DEFAULT@) {
        Some(m) => attribute_of(m.value),
        None => None,
    }
}

/// The shape of a rule whose source is named by a text under `field` and
/// whose default is an attribute value.
pub open spec fn value_rule(members: Seq<Member>, field: Seq<char>) -> bool {
    &&& text_field(members, field) is Some
    &&& only_allowed(members, field, true, false)
    &&& optional_value(members)
}

/// The shape of a rule whose characteristic field holds a text and whose
/// default and redaction marker, where it may have them, are texts.
pub open spec fn text_rule(
    members: Seq<Member>,
    field: Seq<char>,
    with_default: bool,
    with_redact: bool,
) -> bool {
    &&& text_field(members, field) is Some
    &&& only_allowed(members, field, with_default, with_redact)
    &&& optional_text(members, DEFAULT@)
    &&& optional_text(members, REDACT@)
}

/// Reads the text that `members` hold under `name`.
pub fn read_text(members: &Vec<Member>, name: &str) -> (text: Option<String>)
    ensures
        text_of(text) == text_field(members@, name@),
{
    match find_member(members, name) {
        Some(m) => match &m.value {
            Json::String(s) => Some(s.clone()),
            _ => None,
        },
        None => None,
    }
}

fn has_only_allowed(members: &Vec<Member>, field: &str, with_default: bool, with_redact: bool) -> (ok:
    bool)
    ensures
        ok == only_allowed(members@, field@, with_default, with_redact),
{
    let source = field.to_owned();
    let default = DEFAULT.to_owned();
    let redact = REDACT.to_owned();
    let mut i: usize = 0;
    while i < members.len()
        invariant
            i <= members.len(),
            source@ == field@,
            default@ == DEFAULT@,
            redact@ == REDACT@,
            forall|j: int|
                0 <= j < i ==> allowed_name(
                    #[trigger] members[j].name@,
                    field@,
                    with_default,
                    with_redact,
                ),
        decreases members.len() - i,
    {
        let name = &members[i].name;
        let allowed = *name == source || (with_default && *name == default) || (with_redact
            && *name == redact);
        if !allowed {
            return false;
        }
        i += 1;
    }
    true
}

fn has_optional_text(members: &Vec<Member>, name: &str) -> (ok: bool)
    ensures
        ok == optional_text(members@, name@),
{
    match find_member(members, name) {
        Some(m) => match &m.value {
            Json::String(_) => true,
            Json::Null => true,
            _ => false,
        },
        None => true,
    }
}

/// Reads a rule whose source is named by a text under `field` and whose
/// default is an attribute value: the source and the default.
pub fn parse_value_rule(members: &Vec<Member>, field: &str) -> (rule: Option<
    (String, Option<AttributeValue>),
>)
    ensures
        match rule {
            Some((source, default)) => {
                &&& value_rule(members@, field@)
                &&& text_field(members@, field@) == Some(source@)
                &&& view_of(default) == default_value(members@)
            },
            None => !value_rule(members@, field@),
        },
{
    let source = match read_text(members, field) {
        Some(s) => s,
        None => {
            return None;
        },
    };
    if !has_only_allowed(members, field, true, false) {
        return None;
    }
    match find_member(members, DEFAULT) {
        Some(m) => match &m.value {
            Json::Null => Some((source, None)),
            other => match AttributeValue::from_json(other) {
                Some(v) => Some((source, Some(v))),
                None => None,
            },
        },
        None => Some((source, None)),
    }
}

/// Reads a rule whose characteristic field holds a text and whose default
/// and redaction marker are texts: the three of them.
pub fn parse_text_rule(members: &Vec<Member>, field: &str, with_default: bool, with_redact: bool) -> (rule:
    Option<(String, Option<String>, Option<String>)>)
    ensures
        match rule {
            Some((source, default, redact)) => {
                &&& text_rule(members@, field@, with_default, with_redact)
                &&& text_field(members@, field@) == Some(source@)
                &&& text_of(default) == text_field(members@, DEFAULT@)
                &&& text_of(redact) == text_field(members@, REDACT@)
            },
            None => !text_rule(members@, field@, with_default, with_redact),
        },
{
    let source = match read_text(members, field) {
        Some(s) => s,
        None => {
            return None;
        },
    };
    if !has_only_allowed(members, field, with_default, with_redact) {
        return None;
    }
    if !has_optional_text(members, DEFAULT) || !has_optional_text(members, REDACT) {
        return None;
    }
    Some((source, read_text(members, DEFAULT), read_text(members, REDACT)))
}

} // verus!
