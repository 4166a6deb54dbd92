//! What a stage resolves for one event: attribute values under their keys.

use crate::value::{AttributeValue, AttributeValueView};
use vstd::prelude::*;

verus! {

/// One resolved attribute.
#[derive(Debug)]
pub struct Attribute {
    pub key: String,
    pub value: AttributeValue,
}

/// The attributes resolved for one event, in the order in which they were
/// resolved. Where a key was resolved more than once, the last value counts.
#[derive(Debug)]
pub struct Attributes {
    pub entries: Vec<Attribute>,
}

/// The mapping that a list of resolved attributes stands for.
pub open spec fn mapping_of(entries: Seq<Attribute>) -> Map<Seq<char>, AttributeValueView>
    decreases entries.len(),
{
    if entries.len() == 0 {
        Map::empty()
    } else {
        mapping_of(entries.drop_last()).insert(entries.last().key@, entries.last().value@)
    }
}

/// A key is in the mapping exactly when some entry carries it, and the
/// mapping holds the value of the last entry that does.
pub proof fn lemma_mapping_of(entries: Seq<Attribute>, key: Seq<char>)
    ensures
        mapping_of(entries).contains_key(key) <==> exists|i: int|
            0 <= i < entries.len() && entries[i].key@ == key,
        forall|i: int|
            0 <= i < entries.len() && entries[i].key@ == key && (forall|j: int|
                i < j < entries.len() ==> entries[j].key@ != key) ==> mapping_of(entries)[key]
                == entries[i].value@,
    decreases entries.len(),
{
    if entries.len() > 0 {
        let front = entries.drop_last();
        lemma_mapping_of(front, key);
        if entries.last().key@ == key {
            assert(entries[entries.len() - 1].key@ == key);
        } else {
            if exists|i: int| 0 <= i < entries.len() && entries[i].key@ == key {
                let i = choose|i: int| 0 <= i < entries.len() && entries[i].key@ == key;
                assert(front[i].key@ == key);
            }
            if exists|i: int| 0 <= i < front.len() && front[i].key@ == key {
                let i = choose|i: int| 0 <= i < front.len() && front[i].key@ == key;
                assert(entries[i].key@ == key);
            }
            assert forall|i: int|
                0 <= i < entries.len() && entries[i].key@ == key && (forall|j: int|
                    i < j < entries.len() ==> entries[j].key@ != key) implies mapping_of(
                entries,
            )[key] == entries[i].value@ by {
                assert(front[i] == entries[i]);
                assert forall|j: int| i < j < front.len() implies front[j].key@ != key by {
                    assert(front[j] == entries[j]);
                }
            }
        }
    }
}

impl View for Attributes {
    type V = Map<Seq<char>, AttributeValueView>;

    open spec fn view(&self) -> Map<Seq<char>, AttributeValueView> {
        mapping_of(self.entries@)
    }
}

impl Attributes {
    /// No attributes.
    pub fn new() -> (attributes: Attributes)
        ensures
            attributes@ == Map::<Seq<char>, AttributeValueView>::empty(),
    {
        Attributes { entries: Vec::new() }
    }

    /// Puts `value` under `key`, in place of what was there.
    pub fn insert(&mut self, key: String, value: AttributeValue)
        ensures
            final(self)@ == old(self)@.insert(key@, value@),
    {
        self.entries.push(Attribute { key, value });
        assert(self.entries@.drop_last() == old(self).entries@);
    }

    /// The value under `key`.
    pub fn get(&self, key: &str) -> (found: Option<&AttributeValue>)
        ensures
            match found {
                Some(v) => self@.contains_key(key@) && self@[key@] == v@,
                None => !self@.contains_key(key@),
            },
    {
        let wanted = key.to_owned();
        let mut i: usize = self.entries.len();
        while i > 0
            invariant
                i <= self.entries.len(),
                wanted@ == key@,
                forall|j: int| i <= j < self.entries.len() ==> self.entries[j].key@ != key@,
            decreases i,
        {
            i -= 1;
            if self.entries[i].key == wanted {
                proof {
                    lemma_mapping_of(self.entries@, key@);
                }
                return Some(&self.entries[i].value);
            }
        }
        proof {
            lemma_mapping_of(self.entries@, key@);
        }
        None
    }
}

} // verus!
