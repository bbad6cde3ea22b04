//! A TOML document as a tree, in the terms in which contracts speak of it.

use vstd::prelude::*;

verus! {

/// What a TOML item holds, as far as this library reads it.
pub enum Node {
    /// A string, with its text.
    Text(Seq<char>),
    /// An array. Of each element, its text where the element is a string.
    Array(Seq<Option<Seq<char>>>),
    /// A table, of either form, with its entries by key.
    Table(Map<Seq<char>, Node>),
    /// Anything else: a number, a date, an array of tables.
    Other,
}

impl Node {
    /// The entry under `key`, where this is a table that has one.
    pub open spec fn child(self, key: Seq<char>) -> Option<Node> {
        match self {
            Node::Table(entries) => if entries.contains_key(key) {
                Some(entries[key])
            } else {
                None
            },
            _ => None,
        }
    }

    /// The text, where this is a string.
    pub open spec fn text(self) -> Option<Seq<char>> {
        match self {
            Node::Text(text) => Some(text),
            _ => None,
        }
    }

    /// Whether a field can be set under `table`: nothing stands there yet, or
    /// a table does.
    pub open spec fn can_take(self, table: Seq<char>) -> bool {
        match self.child(table) {
            None => true,
            Some(entry) => entry is Table,
        }
    }

    /// The entries of this node, where it is a table; none otherwise.
    pub open spec fn entries(self) -> Map<Seq<char>, Node> {
        match self {
            Node::Table(entries) => entries,
            _ => Map::empty(),
        }
    }

    /// This table with the string `text` under `key` of its entry `table`. The
    /// entry is made where there is none, and keeps what else it holds.
    pub open spec fn with_text(self, table: Seq<char>, key: Seq<char>, text: Seq<char>) -> Node {
        let inner = match self.child(table) {
            Some(entry) => entry.entries(),
            None => Map::empty(),
        };
        Node::Table(self.entries().insert(table, Node::Table(inner.insert(key, Node::Text(text)))))
    }

    /// The elements, where this is an array.
    pub open spec fn elements(self) -> Option<Seq<Option<Seq<char>>>> {
        match self {
            Node::Array(elements) => Some(elements),
            _ => None,
        }
    }
}

} // verus!
