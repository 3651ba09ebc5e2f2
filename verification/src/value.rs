//! Dynamically typed property values as they arrive from the bus.

use vstd::prelude::*;

verus! {

/// A value of the bus's variant tree.
///
/// Containers of every kind are sequences: arrays and structures with their
/// items, dictionaries with their keys and values in turn, a variant with the
/// one value that it holds. Everything that is neither text, an integer, a
/// truth value nor a container is `Opaque`.
#[derive(Debug, PartialEq, Eq)]
pub enum Value {
    Text(String),
    Integer(i64),
    Boolean(bool),
    Sequence(Vec<Value>),
    Opaque,
}

impl Value {
    /// The text of a `Text` value.
    pub open spec fn spec_text(self) -> Option<Seq<char>> {
        match self {
            Value::Text(s) => Some(s@),
            _ => None,
        }
    }

    /// The items of a `Sequence` value.
    pub open spec fn spec_items(self) -> Option<Seq<Value>> {
        match self {
            Value::Sequence(items) => Some(items@),
            _ => None,
        }
    }

    /// The first item of a non-empty `Sequence` value.
    pub open spec fn spec_first(self) -> Option<Value> {
        match self.spec_items() {
            Some(items) => if items.len() > 0 {
                Some(items[0])
            } else {
                None
            },
            None => None,
        }
    }

    /// Typed accessor for text: `Some` exactly for a `Text` value.
    pub fn as_text(&self) -> (r: Option<&String>)
        ensures
            match r {
                Some(s) => self.spec_text() == Some(s@) && *self == Value::Text(*s),
                None => self.spec_text() is None,
            },
    {
        match self {
            Value::Text(s) => Some(s),
            _ => None,
        }
    }

    /// Typed accessor for containers: `Some` exactly for a `Sequence` value.
    pub fn as_sequence(&self) -> (r: Option<&Vec<Value>>)
        ensures
            match r {
                Some(items) => self.spec_items() == Some(items@) && *self == Value::Sequence(
                    *items,
                ),
                None => self.spec_items() is None,
            },
    {
        match self {
            Value::Sequence(items) => Some(items),
            _ => None,
        }
    }

    /// The first item of a container, if there is one.
    pub fn first(&self) -> (r: Option<&Value>)
        ensures
            match r {
                Some(v) => self.spec_first() == Some(*v),
                None => self.spec_first() is None,
            },
    {
        match self {
            Value::Sequence(items) => if items.len() > 0 {
                Some(&items[0])
            } else {
                None
            },
            _ => None,
        }
    }
}

} // verus!
