//! Typed attribute sets as configuration gives them: a flat record of
//! switches, one per well-known attribute, read strictly from the members of
//! a configuration object.

use crate::json::{find_member, lookup, Json, Member};
use vstd::prelude::*;
use vstd::string::StringExecFns;

verus! {

/// Why a configuration is refused.
#[derive(Debug)]
pub enum ConfigError {
    /// The configuration is not a mapping.
    NotAMapping,
    /// A key is neither the name of a well-known attribute nor configures a
    /// custom attribute.
    UnknownField { key: String },
    /// The value under the name of a well-known attribute is not a switch.
    InvalidType { key: String },
}

/// The mathematical value of a [`ConfigError`].
pub enum ConfigErrorView {
    NotAMapping,
    UnknownField { key: Seq<char> },
    InvalidType { key: Seq<char> },
}

impl View for ConfigError {
    type V = ConfigErrorView;

    open spec fn view(&self) -> ConfigErrorView {
        match self {
            ConfigError::NotAMapping => ConfigErrorView::NotAMapping,
            ConfigError::UnknownField { key } => ConfigErrorView::UnknownField { key: key@ },
            ConfigError::InvalidType { key } => ConfigErrorView::InvalidType { key: key@ },
        }
    }
}

/// What a refusal says, in words.
pub open spec fn message_of(error: ConfigErrorView) -> Seq<char> {
    match error {
        ConfigErrorView::NotAMapping => "invalid type: expected a map structure"@,
        ConfigErrorView::UnknownField { key } => "unknown field `"@ + key + "`"@,
        ConfigErrorView::InvalidType { key } => "invalid type for `"@ + key
            + "`: expected a boolean"@,
    }
}

impl ConfigError {
    /// The error in words, naming the key at fault.
    pub fn message(&self) -> (text: String)
        ensures
            text@ == message_of(self@),
    {
        match self {
            ConfigError::NotAMapping => String::from_str("invalid type: expected a map structure"),
            ConfigError::UnknownField { key } => {
                let mut text = String::from_str("unknown field `");
                text.append(key.as_str());
                text.append("`");
                text
            },
            ConfigError::InvalidType { key } => {
                let mut text = String::from_str("invalid type for `");
                text.append(key.as_str());
                text.append("`: expected a boolean");
                text
            },
        }
    }

    /// The key that the error names, if it names one.
    pub fn key(&self) -> (key: Option<&String>)
        ensures
            match key {
                Some(k) => self@ == (ConfigErrorView::UnknownField { key: k@ }) || self@ == (
                ConfigErrorView::InvalidType { key: k@ }),
                None => self@ == ConfigErrorView::NotAMapping,
            },
    {
        match self {
            ConfigError::NotAMapping => None,
            ConfigError::UnknownField { key } => Some(key),
            ConfigError::InvalidType { key } => Some(key),
        }
    }
}

/// The switch that `members` hold under `name`: on, off, or not set.
pub open spec fn toggle(members: Seq<Member>, name: Seq<char>) -> Option<bool> {
    match lookup(members, name) {
        Some(m) => match m.value {
            Json::Bool(b) => Some(b),
            _ => None,
        },
        None => None,
    }
}

/// Reads the switch that `members` hold under `name`.
pub fn read_toggle(members: &Vec<Member>, name: &str) -> (switch: Option<bool>)
    ensures
        switch == toggle(members@, name@),
{
    match find_member(members, name) {
        Some(m) => match &m.value {
            Json::Bool(b) => Some(*b),
            _ => None,
        },
        None => None,
    }
}

/// A set of well-known attributes that configuration can switch on and off.
pub trait TypedAttributes: Sized {
    /// Whether `name` is the name of an attribute of this set.
    spec fn names(name: Seq<char>) -> bool;

    /// Whether this set holds exactly the switches that `members` give.
    spec fn configured_by(&self, members: Seq<Member>) -> bool;

    /// Whether `name` is the name of an attribute of this set.
    fn knows(name: &str) -> (known: bool)
        ensures
            known == Self::names(name@),
    ;

    /// The set with the switches that `members` give; a switch that they do
    /// not give is not set.
    fn configure(members: &Vec<Member>) -> (set: Self)
        ensures
            set.configured_by(members@),
    ;
}

/// What is wrong with one member of a typed set's configuration, if anything.
pub open spec fn fault_of<A: TypedAttributes>(member: Member) -> Option<ConfigErrorView> {
    if !A::names(member.name@) {
        Some(ConfigErrorView::UnknownField { key: member.name@ })
    } else if !(member.value is Bool || member.value is Null) {
        Some(ConfigErrorView::InvalidType { key: member.name@ })
    } else {
        None
    }
}

/// The fault of the first member that has one.
pub open spec fn first_fault<A: TypedAttributes>(members: Seq<Member>) -> Option<ConfigErrorView>
    decreases members.len(),
{
    if members.len() == 0 {
        None
    } else {
        match fault_of::<A>(members[0]) {
            Some(e) => Some(e),
            None => first_fault::<A>(members.drop_first()),
        }
    }
}

/// Reads a typed set strictly: every member must carry the name of an
/// attribute of the set and hold a switch or `null`. The first member that
/// does not is reported.
pub fn parse_typed<A: TypedAttributes>(members: &Vec<Member>) -> (parsed: Result<A, ConfigError>)
    ensures
        match parsed {
            Ok(set) => first_fault::<A>(members@) is None && set.configured_by(members@),
            Err(e) => first_fault::<A>(members@) == Some(e@),
        },
{
    let mut i: usize = 0;
    assert(members@.skip(0) == members@);
    while i < members.len()
        invariant
            i <= members.len(),
            first_fault::<A>(members@) == first_fault::<A>(members@.skip(i as int)),
        decreases members.len() - i,
    {
        assert(members@.skip(i as int)[0] == members[i as int]);
        assert(members@.skip(i as int).drop_first() == members@.skip(i + 1));
        let member = &members[i];
        if !A::knows(member.name.as_str()) {
            return Err(ConfigError::UnknownField { key: member.name.clone() });
        }
        match &member.value {
            Json::Bool(_) => {},
            Json::Null => {},
            _ => {
                return Err(ConfigError::InvalidType { key: member.name.clone() });
            },
        }
        i += 1;
    }
    Ok(A::configure(members))
}

} // verus!
