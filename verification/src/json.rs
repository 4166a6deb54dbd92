//! Structured values as configuration and request context hold them.

use vstd::prelude::*;

verus! {

/// A number of a structured value.
///
/// A number with a fraction or an exponent is held by its IEEE 754 binary64
/// bit pattern.
#[derive(Clone, Copy, Debug)]
pub enum JsonNumber {
    /// A whole number that is not negative.
    Unsigned(u64),
    /// A whole number in the signed range.
    Signed(i64),
    /// Any other number.
    Double { bits: u64 },
}

/// A structured value: the tree that a JSON or YAML document denotes.
#[derive(Debug)]
pub enum Json {
    Null,
    Bool(bool),
    Number(JsonNumber),
    String(String),
    Array(Vec<Json>),
    Object(Vec<Member>),
}

/// One member of an object: a name and the value under it.
#[derive(Debug)]
pub struct Member {
    pub name: String,
    pub value: Json,
}

/// The first member of `members` called `name`.
pub open spec fn lookup(members: Seq<Member>, name: Seq<char>) -> Option<Member>
    decreases members.len(),
{
    if members.len() == 0 {
        None
    } else if members[0].name@ == name {
        Some(members[0])
    } else {
        lookup(members.drop_first(), name)
    }
}

/// No name occurs twice among `members`: they form a mapping.
pub open spec fn distinct_names(members: Seq<Member>) -> bool {
    forall|i: int, j: int|
        0 <= i < j < members.len() ==> members[i].name@ != members[j].name@
}

/// The first member called `name`.
pub fn find_member<'a>(members: &'a Vec<Member>, name: &str) -> (found: Option<&'a Member>)
    ensures
        match found {
            Some(m) => lookup(members@, name@) == Some(*m),
            None => lookup(members@, name@) is None,
        },
{
    let wanted = name.to_owned();
    let mut i: usize = 0;
    assert(members@.skip(0) == members@);
    while i < members.len()
        invariant
            i <= members.len(),
            wanted@ == name@,
            lookup(members@, name@) == lookup(members@.skip(i as int), name@),
        decreases members.len() - i,
    {
        assert(members@.skip(i as int)[0] == members[i as int]);
        assert(members@.skip(i as int).drop_first() == members@.skip(i + 1));
        if members[i].name == wanted {
            return Some(&members[i]);
        }
        i += 1;
    }
    None
}

} // verus!
