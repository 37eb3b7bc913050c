//! Stored records as flat maps from attribute names to attribute values.

use vstd::prelude::*;

verus! {

/// One attribute value of a stored record. Only text and boolean values are
/// read; any other kind of value is `Other`.
#[derive(Debug, PartialEq, Eq)]
pub enum Attribute {
    S(String),
    Bool(bool),
    Other,
}

/// What an attribute holds.
pub enum AttributeView {
    S(Seq<char>),
    Bool(bool),
    Other,
}

impl View for Attribute {
    type V = AttributeView;

    open spec fn view(&self) -> AttributeView {
        match self {
            Attribute::S(text) => AttributeView::S(text@),
            Attribute::Bool(flag) => AttributeView::Bool(*flag),
            Attribute::Other => AttributeView::Other,
        }
    }
}

impl Clone for Attribute {
    fn clone(&self) -> (r: Attribute)
        ensures
            r@ == self@,
    {
        match self {
            Attribute::S(text) => Attribute::S(text.clone()),
            Attribute::Bool(flag) => Attribute::Bool(*flag),
            Attribute::Other => Attribute::Other,
        }
    }
}

impl Attribute {
    /// The text of a text attribute.
    pub fn as_s(&self) -> (r: Option<&String>)
        ensures
            match self@ {
                AttributeView::S(text) => r matches Some(s) && s@ == text,
                _ => r is None,
            },
    {
        match self {
            Attribute::S(text) => Some(text),
            _ => None,
        }
    }

    /// The value of a boolean attribute.
    pub fn as_bool(&self) -> (r: Option<bool>)
        ensures
            match self@ {
                AttributeView::Bool(flag) => r == Some(flag),
                _ => r is None,
            },
    {
        match self {
            Attribute::Bool(flag) => Some(*flag),
            _ => None,
        }
    }
}

/// The map that a sequence of insertions builds: a later entry replaces an
/// earlier one of the same name.
pub open spec fn entries_map(entries: Seq<(String, Attribute)>) -> Map<Seq<char>, AttributeView>
    decreases entries.len(),
{
    if entries.len() == 0 {
        Map::empty()
    } else {
        entries_map(entries.drop_last()).insert(entries.last().0@, entries.last().1@)
    }
}

/// A stored record: attribute values by attribute name.
#[derive(Debug)]
pub struct Item {
    entries: Vec<(String, Attribute)>,
}

impl View for Item {
    type V = Map<Seq<char>, AttributeView>;

    closed spec fn view(&self) -> Map<Seq<char>, AttributeView> {
        entries_map(self.entries@)
    }
}

impl Item {
    /// The record without attributes.
    pub fn new() -> (r: Item)
        ensures
            r@ == Map::<Seq<char>, AttributeView>::empty(),
    {
        Item { entries: Vec::new() }
    }

    /// Sets the attribute `name` to `value`, replacing any earlier value.
    pub fn insert(&mut self, name: String, value: Attribute)
        ensures
            final(self)@ == old(self)@.insert(name@, value@),
    {
        self.entries.push((name, value));
        assert(self.entries@.drop_last() == old(self).entries@);
    }

    /// The value of the attribute `name`, if the record has one.
    pub fn get(&self, name: &str) -> (r: Option<&Attribute>)
        ensures
            self@.contains_key(name@) <==> r is Some,
            r matches Some(value) ==> value@ == self@[name@],
    {
        let wanted = name.to_owned();
        let mut i: usize = self.entries.len();
        assert(self.entries@.take(i as int) == self.entries@);
        while i > 0
            invariant
                i <= self.entries.len(),
                wanted@ == name@,
                entries_map(self.entries@).contains_key(name@) <==> entries_map(
                    self.entries@.take(i as int),
                ).contains_key(name@),
                entries_map(self.entries@).contains_key(name@) ==> entries_map(self.entries@)[name@]
                    == entries_map(self.entries@.take(i as int))[name@],
            decreases i,
        {
            i = i - 1;
            proof {
                let prefix = self.entries@.take(i + 1);
                assert(prefix.drop_last() == self.entries@.take(i as int));
                assert(prefix.last() == self.entries@[i as int]);
            }
            if self.entries[i].0 == wanted {
                return Some(&self.entries[i].1);
            }
        }
        proof {
            assert(self.entries@.take(0) == Seq::<(String, Attribute)>::empty());
        }
        None
    }

    /// The insertions that built the record, oldest first. Where a name
    /// occurs more than once, its last entry is the one that counts.
    pub fn entries(&self) -> (r: &Vec<(String, Attribute)>)
        ensures
            entries_map(r@) == self@,
    {
        &self.entries
    }
}

} // verus!
