//! Routing data: what a backend stores with a subscription so that it can
//! address the device later.

use crate::text::str_eq;
use vstd::prelude::*;

verus! {

/// One stored value.
#[derive(Clone, Debug, PartialEq, Eq)]
pub enum RouterValue {
    /// A text.
    Text(String),
    /// Any value that is no text, kept as the JSON that writes it.
    Json(String),
}

/// What a stored value holds.
pub enum RouterValueView {
    Text(Seq<char>),
    Json(Seq<char>),
}

impl View for RouterValue {
    type V = RouterValueView;

    open spec fn view(&self) -> RouterValueView {
        match self {
            RouterValue::Text(t) => RouterValueView::Text(t@),
            RouterValue::Json(j) => RouterValueView::Json(j@),
        }
    }
}

/// A mapping from keys to stored values. Each backend owns the keys that it
/// writes; nothing is assumed of the others.
#[derive(Clone, Debug, PartialEq, Eq)]
pub struct RouterData {
    /// The writes to the mapping, oldest first. A later write to a key
    /// replaces what an earlier one stored under it.
    pub entries: Vec<(String, RouterValue)>,
}

/// What a list of writes leaves under a key.
pub open spec fn lookup(entries: Seq<(String, RouterValue)>, key: Seq<char>) -> Option<
    RouterValueView,
>
    decreases entries.len(),
{
    if entries.len() == 0 {
        None
    } else if entries.last().0@ == key {
        Some(entries.last().1@)
    } else {
        lookup(entries.drop_last(), key)
    }
}

/// The text stored under a key, if the key is there and holds a text.
pub open spec fn text_at(data: Map<Seq<char>, RouterValueView>, key: Seq<char>) -> Option<
    Seq<char>,
> {
    if data.contains_key(key) {
        match data[key] {
            RouterValueView::Text(t) => Some(t),
            RouterValueView::Json(_) => None,
        }
    } else {
        None
    }
}

impl View for RouterData {
    type V = Map<Seq<char>, RouterValueView>;

    open spec fn view(&self) -> Map<Seq<char>, RouterValueView> {
        Map::new(
            |key: Seq<char>| lookup(self.entries@, key) is Some,
            |key: Seq<char>| lookup(self.entries@, key)->0,
        )
    }
}

impl RouterData {
    /// A mapping with no keys.
    pub fn new() -> (data: RouterData)
        ensures
            data@ == Map::<Seq<char>, RouterValueView>::empty(),
    {
        let data = RouterData { entries: Vec::new() };
        assert(data@ =~= Map::<Seq<char>, RouterValueView>::empty());
        data
    }

    /// Stores a value under a key, in place of what was there.
    pub fn insert(&mut self, key: String, value: RouterValue)
        ensures
            final(self)@ == old(self)@.insert(key@, value@),
    {
        self.entries.push((key, value));
        proof {
            let before = old(self).entries@;
            let after = self.entries@;
            assert(after.drop_last() =~= before);
            assert(after.last() == (key, value));
            assert(self@ =~= old(self)@.insert(key@, value@));
        }
    }

    /// The value stored under a key.
    pub fn get(&self, key: &str) -> (found: Option<&RouterValue>)
        ensures
            match found {
                Some(value) => self@.contains_key(key@) && self@[key@] == value@,
                None => !self@.contains_key(key@),
            },
    {
        let mut i: usize = self.entries.len();
        assert(self.entries@.take(i as int) =~= self.entries@);
        while i > 0
            invariant
                i <= self.entries.len(),
                lookup(self.entries@, key@) == lookup(self.entries@.take(i as int), key@),
            decreases i,
        {
            proof {
                let part = self.entries@.take(i as int);
                assert(part.last() == self.entries@[i - 1]);
                assert(part.drop_last() =~= self.entries@.take(i - 1));
            }
            i = i - 1;
            if str_eq(self.entries[i].0.as_str(), key) {
                return Some(&self.entries[i].1);
            }
        }
        None
    }

    /// The text stored under a key, if the key is there and holds a text.
    pub fn get_str(&self, key: &str) -> (found: Option<&str>)
        ensures
            match found {
                Some(t) => text_at(self@, key@) == Some(t@),
                None => text_at(self@, key@) is None,
            },
    {
        match self.get(key) {
            Some(RouterValue::Text(t)) => Some(t.as_str()),
            _ => None,
        }
    }
}

} // verus!
