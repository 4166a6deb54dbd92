//! The container of a stage's attributes: one typed set of well-known
//! attributes and, beside it, the custom attributes that the operator
//! defined under keys of their own choice.

use crate::config::{first_fault, parse_typed, ConfigError, ConfigErrorView, TypedAttributes};
use crate::events::StageError;
use crate::json::{Json, Member};
use crate::protocol::{GetAttribute, GetAttributes};
use crate::resolved::Attributes;
use crate::rules::CustomAttribute;
use crate::value::AttributeValueView;
use vstd::prelude::*;

verus! {

/// A custom attribute under the key that the operator gave it.
#[derive(Debug)]
pub struct CustomEntry<Ext> {
    pub key: String,
    pub rule: Ext,
}

/// The attributes of a stage: the typed set `Att` and custom attributes of
/// kind `Ext`, in the order of the configuration.
#[derive(Debug)]
pub struct Extendable<Att, Ext> where Att: Default {
    pub attributes: Att,
    pub custom: Vec<CustomEntry<Ext>>,
}

/// The members that denote a custom attribute of kind `Ext`.
pub open spec fn is_custom<Ext: CustomAttribute>() -> spec_fn(Member) -> bool {
    |m: Member| Ext::accepts(m.value)
}

/// The members that do not denote a custom attribute of kind `Ext`.
pub open spec fn is_pending<Ext: CustomAttribute>() -> spec_fn(Member) -> bool {
    |m: Member| !Ext::accepts(m.value)
}

/// The members of a configuration that denote custom attributes, in order.
pub open spec fn custom_members<Ext: CustomAttribute>(members: Seq<Member>) -> Seq<Member> {
    members.filter(is_custom::<Ext>())
}

/// The members of a configuration that are left to the typed set, in order.
pub open spec fn pending_members<Ext: CustomAttribute>(members: Seq<Member>) -> Seq<Member> {
    members.filter(is_pending::<Ext>())
}

/// Whether `entries` are the custom attributes that `members` denote, one
/// for one and in order.
pub open spec fn entries_denoted_by<Ext: CustomAttribute>(
    entries: Seq<CustomEntry<Ext>>,
    members: Seq<Member>,
) -> bool {
    &&& entries.len() == members.len()
    &&& forall|i: int|
        0 <= i < entries.len() ==> (#[trigger] entries[i]).key@ == members[i].name@
            && entries[i].rule.parsed_from(members[i].value)
}

impl Extendable<(), ()> {
    /// The attributes of a stage that has no configuration: the typed set as
    /// `Default` gives it, and no custom attribute.
    pub fn empty<A, E>() -> (attributes: Extendable<A, E>) where A: Default
        ensures
            attributes.custom@.len() == 0,
            A::default.ensures((), attributes.attributes),
    {
        Extendable { attributes: A::default(), custom: Vec::new() }
    }
}

impl<Att, Ext> Extendable<Att, Ext> where Att: Default + TypedAttributes, Ext: CustomAttribute {
    /// Whether these are the attributes that a configuration with the given
    /// members denotes: every member that denotes a custom attribute is one,
    /// under its key, and the others configure the typed set.
    pub open spec fn denoted_by(&self, members: Seq<Member>) -> bool {
        &&& first_fault::<Att>(pending_members::<Ext>(members)) is None
        &&& self.attributes.configured_by(pending_members::<Ext>(members))
        &&& entries_denoted_by(self.custom@, custom_members::<Ext>(members))
    }

    /// What deserializing a configuration ends in: the fault that refuses
    /// it, or nothing where it is accepted.
    pub open spec fn refusal(config: Json) -> Option<ConfigErrorView> {
        match config {
            Json::Object(members) => first_fault::<Att>(pending_members::<Ext>(members@)),
            _ => Some(ConfigErrorView::NotAMapping),
        }
    }

    /// Reads the attributes of a stage from its configuration.
    ///
    /// Every member of the mapping is first tried as a custom attribute. A
    /// member that denotes one becomes a custom attribute under its key. The
    /// members that are left are then read strictly as the typed set: the
    /// first of them that is not a switch of the set refuses the whole
    /// configuration.
    pub fn deserialize(config: Json) -> (parsed: Result<Self, ConfigError>)
        ensures
            match parsed {
                Ok(attributes) => Self::refusal(config) is None && (config matches Json::Object(
                    members,
                ) && attributes.denoted_by(members@)),
                Err(e) => Self::refusal(config) == Some(e@),
            },
    {
        let members = match config {
            Json::Object(members) => members,
            _ => {
                return Err(ConfigError::NotAMapping);
            },
        };
        let ghost all = members@;
        let mut custom: Vec<CustomEntry<Ext>> = Vec::new();
        let mut pending: Vec<Member> = Vec::new();
        for member in it: members.into_iter()
            invariant
                it.seq() == all,
                pending@ == pending_members::<Ext>(all.take(it.index() as int)),
                entries_denoted_by(custom@, custom_members::<Ext>(all.take(it.index() as int))),
        {
            proof {
                let seen = all.take(it.index() as int);
                let next = all.take(it.index() + 1);
                assert(next.drop_last() == seen);
                assert(next.last() == member);
                reveal(Seq::filter);
            }
            match Ext::parse(&member.value) {
                Some(rule) => {
                    custom.push(CustomEntry { key: member.name, rule });
                },
                None => {
                    pending.push(member);
                },
            }
        }
        proof {
            assert(all.take(all.len() as int) == all);
        }
        match parse_typed::<Att>(&pending) {
            Ok(attributes) => Ok(Extendable { attributes, custom }),
            Err(e) => Err(e),
        }
    }
}

impl<Att, Ext> Default for Extendable<Att, Ext> where Att: Default {
    fn default() -> (attributes: Self)
        ensures
            attributes.custom@.len() == 0,
            Att::default.ensures((), attributes.attributes),
    {
        Extendable { attributes: Att::default(), custom: Vec::new() }
    }
}

/// `base` with what the custom attributes resolve to for a request, each
/// under its key and in order. A rule that resolves to nothing adds nothing.
pub open spec fn with_custom_on_request<Ext: GetAttribute<Request, Response>, Request, Response>(
    base: Map<Seq<char>, AttributeValueView>,
    custom: Seq<CustomEntry<Ext>>,
    request: &Request,
) -> Map<Seq<char>, AttributeValueView>
    decreases custom.len(),
{
    if custom.len() == 0 {
        base
    } else {
        let before = with_custom_on_request(base, custom.drop_last(), request);
        match custom.last().rule.request_value(request) {
            Some(v) => before.insert(custom.last().key@, v),
            None => before,
        }
    }
}

/// `base` with what the custom attributes resolve to for a response, each
/// under its key and in order. A rule that resolves to nothing adds nothing.
pub open spec fn with_custom_on_response<Ext: GetAttribute<Request, Response>, Request, Response>(
    base: Map<Seq<char>, AttributeValueView>,
    custom: Seq<CustomEntry<Ext>>,
    response: &Response,
) -> Map<Seq<char>, AttributeValueView>
    decreases custom.len(),
{
    if custom.len() == 0 {
        base
    } else {
        let before = with_custom_on_response(base, custom.drop_last(), response);
        match custom.last().rule.response_value(response) {
            Some(v) => before.insert(custom.last().key@, v),
            None => before,
        }
    }
}

impl<A, E, Request, Response> GetAttributes<Request, Response> for Extendable<A, E> where
    A: Default + GetAttributes<Request, Response>,
    E: GetAttribute<Request, Response>,
 {
    open spec fn request_attributes(&self, request: &Request) -> Map<Seq<char>, AttributeValueView> {
        with_custom_on_request(self.attributes.request_attributes(request), self.custom@, request)
    }

    open spec fn response_attributes(&self, response: &Response) -> Map<
        Seq<char>,
        AttributeValueView,
    > {
        with_custom_on_response(
            self.attributes.response_attributes(response),
            self.custom@,
            response,
        )
    }

    open spec fn error_attributes(&self, error: &StageError) -> Map<Seq<char>, AttributeValueView> {
        self.attributes.error_attributes(error)
    }

    fn on_request(&self, request: &Request) -> (attributes: Attributes) {
        let mut attrs = self.attributes.on_request(request);
        let ghost base = attrs@;
        let mut i: usize = 0;
        while i < self.custom.len()
            invariant
                i <= self.custom.len(),
                base == self.attributes.request_attributes(request),
                attrs@ == with_custom_on_request(base, self.custom@.take(i as int), request),
            decreases self.custom.len() - i,
        {
            assert(self.custom@.take(i + 1).drop_last() == self.custom@.take(i as int));
            let entry = &self.custom[i];
            if let Some(v) = entry.rule.on_request(request) {
                attrs.insert(entry.key.clone(), v);
            }
            i += 1;
        }
        assert(self.custom@.take(i as int) == self.custom@);
        attrs
    }

    fn on_response(&self, response: &Response) -> (attributes: Attributes) {
        let mut attrs = self.attributes.on_response(response);
        let ghost base = attrs@;
        let mut i: usize = 0;
        while i < self.custom.len()
            invariant
                i <= self.custom.len(),
                base == self.attributes.response_attributes(response),
                attrs@ == with_custom_on_response(base, self.custom@.take(i as int), response),
            decreases self.custom.len() - i,
        {
            assert(self.custom@.take(i + 1).drop_last() == self.custom@.take(i as int));
            let entry = &self.custom[i];
            if let Some(v) = entry.rule.on_response(response) {
                attrs.insert(entry.key.clone(), v);
            }
            i += 1;
        }
        assert(self.custom@.take(i as int) == self.custom@);
        attrs
    }

    fn on_error(&self, error: &StageError) -> (attributes: Attributes) {
        self.attributes.on_error(error)
    }
}

} // verus!
