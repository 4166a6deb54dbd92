//! The default policy: which well-known attributes are switched on where
//! configuration leaves them unset.

use crate::attributes::HttpCommonAttributes;
use vstd::prelude::*;

verus! {

/// How many of the well-known attributes are on by default.
#[derive(Clone, Copy, Debug)]
pub enum DefaultAttributeRequirementLevel {
    /// None of them: an attribute is on only where configuration switches
    /// it on.
    Nothing,
    /// Those that the semantic conventions require.
    Required,
    /// Those that the semantic conventions require or recommend.
    Recommended,
}

impl Default for DefaultAttributeRequirementLevel {
    fn default() -> (level: DefaultAttributeRequirementLevel)
        ensures
            level == DefaultAttributeRequirementLevel::Required,
    {
        DefaultAttributeRequirementLevel::Required
    }
}

/// A switch after the default policy has reached it: on if it was not set,
/// else as it was.
pub open spec fn defaulted(switch: Option<bool>) -> Option<bool> {
    match switch {
        Some(b) => Some(b),
        None => Some(true),
    }
}

/// Applies the default policy to a switch.
pub fn default_on(switch: &mut Option<bool>)
    ensures
        *final(switch) == defaulted(*old(switch)),
{
    if switch.is_none() {
        *switch = Some(true);
    }
}

/// A typed set that the default policy can fill in.
pub trait DefaultForLevel: Sized {
    /// The set after the policy of `level` has been applied to it.
    spec fn with_defaults(self, level: DefaultAttributeRequirementLevel) -> Self;

    /// Switches on every attribute that `level` asks for and that is not
    /// set. A switch that is set stays as it is.
    fn defaults_for_level(&mut self, requirement_level: &DefaultAttributeRequirementLevel)
        ensures
            *final(self) == old(self).with_defaults(*requirement_level),
    ;
}

impl HttpCommonAttributes {
    /// The set after the attributes that are required have been defaulted.
    pub open spec fn with_required(self) -> HttpCommonAttributes {
        HttpCommonAttributes {
            error_type: defaulted(self.error_type),
            http_request_method: defaulted(self.http_request_method),
            http_response_status_code: defaulted(self.http_response_status_code),
            ..self
        }
    }

    /// The set after the attributes that are recommended, but not required,
    /// have been defaulted.
    pub open spec fn with_recommended(self) -> HttpCommonAttributes {
        HttpCommonAttributes {
            http_request_body_size: defaulted(self.http_request_body_size),
            http_response_body_size: defaulted(self.http_response_body_size),
            network_protocol_version: defaulted(self.network_protocol_version),
            network_type: defaulted(self.network_type),
            user_agent_original: defaulted(self.user_agent_original),
            ..self
        }
    }
}

impl DefaultForLevel for HttpCommonAttributes {
    open spec fn with_defaults(self, level: DefaultAttributeRequirementLevel) -> HttpCommonAttributes {
        match level {
            DefaultAttributeRequirementLevel::Nothing => self,
            DefaultAttributeRequirementLevel::Required => self.with_required(),
            DefaultAttributeRequirementLevel::Recommended => self.with_required().with_recommended(),
        }
    }

    fn defaults_for_level(&mut self, requirement_level: &DefaultAttributeRequirementLevel) {
        match requirement_level {
            DefaultAttributeRequirementLevel::Nothing => {},
            DefaultAttributeRequirementLevel::Required => {
                default_on(&mut self.error_type);
                default_on(&mut self.http_request_method);
                default_on(&mut self.http_response_status_code);
            },
            DefaultAttributeRequirementLevel::Recommended => {
                default_on(&mut self.error_type);
                default_on(&mut self.http_request_method);
                default_on(&mut self.http_response_status_code);
                default_on(&mut self.http_request_body_size);
                default_on(&mut self.http_response_body_size);
                default_on(&mut self.network_protocol_version);
                default_on(&mut self.network_type);
                default_on(&mut self.user_agent_original);
            },
        }
    }
}

/// The default policy only ever switches on what was not set: a switch that
/// configuration set keeps its position, and one that the policy changed is
/// on.
pub proof fn law_defaults_only_enable(
    set: HttpCommonAttributes,
    level: DefaultAttributeRequirementLevel,
    name: Seq<char>,
)
    ensures
        set.enabled(name) ==> set.with_defaults(level).enabled(name),
        level == DefaultAttributeRequirementLevel::Nothing ==> set.with_defaults(level) == set,
        unchanged_or_on(set.error_type, set.with_defaults(level).error_type),
        unchanged_or_on(set.http_request_body_size, set.with_defaults(level).http_request_body_size),
        unchanged_or_on(set.http_request_method, set.with_defaults(level).http_request_method),
        unchanged_or_on(
            set.http_request_method_original,
            set.with_defaults(level).http_request_method_original,
        ),
        unchanged_or_on(
            set.http_response_body_size,
            set.with_defaults(level).http_response_body_size,
        ),
        unchanged_or_on(
            set.http_response_status_code,
            set.with_defaults(level).http_response_status_code,
        ),
        unchanged_or_on(set.network_protocol_name, set.with_defaults(level).network_protocol_name),
        unchanged_or_on(
            set.network_protocol_version,
            set.with_defaults(level).network_protocol_version,
        ),
        unchanged_or_on(set.network_transport, set.with_defaults(level).network_transport),
        unchanged_or_on(set.network_type, set.with_defaults(level).network_type),
        unchanged_or_on(set.user_agent_original, set.with_defaults(level).user_agent_original),
{
}

/// A switch is as it was, or it was not set and is now on.
pub open spec fn unchanged_or_on(before: Option<bool>, after: Option<bool>) -> bool {
    after == before || (before is None && after == Some(true))
}

/// The policy is monotonic: every attribute that is on after the required
/// defaults is on after the recommended ones, whatever the set was before.
/// So it is for the blank set in particular.
pub proof fn law_recommended_includes_required(set: HttpCommonAttributes, name: Seq<char>)
    ensures
        set.with_defaults(DefaultAttributeRequirementLevel::Required).enabled(name)
            ==> set.with_defaults(DefaultAttributeRequirementLevel::Recommended).enabled(name),
        HttpCommonAttributes::blank().with_defaults(
            DefaultAttributeRequirementLevel::Required,
        ).enabled(name) ==> HttpCommonAttributes::blank().with_defaults(
            DefaultAttributeRequirementLevel::Recommended,
        ).enabled(name),
{
}

/// Applying the policy of a level twice gives what applying it once gives.
pub proof fn law_defaults_idempotent(
    set: HttpCommonAttributes,
    level: DefaultAttributeRequirementLevel,
)
    ensures
        set.with_defaults(level).with_defaults(level) == set.with_defaults(level),
{
}

} // verus!
