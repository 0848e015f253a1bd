//! Dynamically typed structured values: what one decoded record is made of.
//!
//! Text is decoded by `serde_json`; the values it produces are carried over,
//! node by node, into [`JsonValue`], which the rest of the library reads.

use vstd::prelude::*;
use crate::text::{lines_of, same_text};

verus! {

/// `serde_json::Number`, carried through as an opaque value.
#[verifier::external_type_specification]
#[verifier::external_body]
pub struct ExNumber(serde_json::Number);

/// `serde_json::Value`, carried through as an opaque value.
#[verifier::external_type_specification]
#[verifier::external_body]
pub struct ExValue(serde_json::Value);

/// `serde_json::Error`, carried through as an opaque value.
#[verifier::external_type_specification]
#[verifier::external_body]
pub struct ExError(serde_json::Error);

/// `Clone` of `serde_json::Number`: the copy is the same number.
pub assume_specification[ <serde_json::Number as Clone>::clone ](
    number: &serde_json::Number,
) -> (copy: serde_json::Number)
    ensures
        copy == *number,
;

/// What a `serde_json::Value` holds, as a tree.
pub uninterp spec fn value_tree(value: serde_json::Value) -> JsonTree;

/// What `serde_json::from_str` makes of a text: the tree of the value that it
/// returns, or nothing where it reports an error.
pub uninterp spec fn decoded_tree(text: Seq<char>) -> Option<JsonTree>;

/// A structured value: null, a boolean, a number, a text, a list of values,
/// or a record of named values.
///
/// Numbers are held as `serde_json` decoded them and are never looked into.
/// A record keeps its entries in a list; where a name occurs more than once,
/// the last entry is the one that counts.
#[derive(Debug, PartialEq)]
pub enum JsonValue {
    Null,
    Bool(bool),
    Number(serde_json::Number),
    Text(String),
    Array(Vec<JsonValue>),
    Object(Vec<(String, JsonValue)>),
}

/// The mathematical tree that a [`JsonValue`] stands for.
pub enum JsonTree {
    Null,
    Bool(bool),
    Number(serde_json::Number),
    Text(Seq<char>),
    Array(Seq<JsonTree>),
    Object(Seq<(Seq<char>, JsonTree)>),
}

impl JsonValue {
    /// The tree that this value stands for. The bounds inside the two
    /// sequences are there for the termination of the definition.
    pub open spec fn tree(&self) -> JsonTree
        decreases self,
    {
        match self {
            JsonValue::Null => JsonTree::Null,
            JsonValue::Bool(b) => JsonTree::Bool(*b),
            JsonValue::Number(n) => JsonTree::Number(*n),
            JsonValue::Text(s) => JsonTree::Text(s@),
            JsonValue::Array(items) => JsonTree::Array(
                Seq::new(
                    items@.len(),
                    |i: int|
                        if 0 <= i < items@.len() {
                            items@[i].tree()
                        } else {
                            JsonTree::Null
                        },
                ),
            ),
            JsonValue::Object(entries) => JsonTree::Object(
                Seq::new(
                    entries@.len(),
                    |i: int|
                        if 0 <= i < entries@.len() {
                            (entries@[i].0@, entries@[i].1.tree())
                        } else {
                            (Seq::empty(), JsonTree::Null)
                        },
                ),
            ),
        }
    }
}

impl View for JsonValue {
    type V = JsonTree;

    open spec fn view(&self) -> JsonTree {
        self.tree()
    }
}

impl JsonTree {
    /// The value of the last entry of `entries` that is named `key`.
    pub open spec fn lookup(entries: Seq<(Seq<char>, JsonTree)>, key: Seq<char>) -> Option<
        JsonTree,
    >
        decreases entries.len(),
    {
        if entries.len() == 0 {
            None
        } else if entries.last().0 == key {
            Some(entries.last().1)
        } else {
            Self::lookup(entries.drop_last(), key)
        }
    }

    /// The value that a record holds under `key`; nothing where `self` is no
    /// record or has no such entry.
    pub open spec fn field(self, key: Seq<char>) -> Option<JsonTree> {
        match self {
            JsonTree::Object(entries) => Self::lookup(entries, key),
            _ => None,
        }
    }

    /// The characters of a text; nothing for any other value.
    pub open spec fn text(self) -> Option<Seq<char>> {
        match self {
            JsonTree::Text(s) => Some(s),
            _ => None,
        }
    }

    /// The texts of a list, in order, where every element of it is a text;
    /// nothing for a list that holds anything else, or for no list.
    pub open spec fn texts(self) -> Option<Seq<Seq<char>>> {
        match self {
            JsonTree::Array(items) => if forall|i: int|
                0 <= i < items.len() ==> #[trigger] items[i] is Text {
                Some(Seq::new(items.len(), |i: int| items[i]->Text_0))
            } else {
                None
            },
            _ => None,
        }
    }
}

/// The tree of each value of a list of values.
pub open spec fn trees_of(values: Seq<JsonValue>) -> Seq<JsonTree> {
    Seq::new(values.len(), |i: int| values[i]@)
}

/// The name and the tree of each entry of a list of entries.
pub open spec fn entries_of(entries: Seq<(String, JsonValue)>) -> Seq<(Seq<char>, JsonTree)> {
    Seq::new(entries.len(), |i: int| (entries[i].0@, entries[i].1@))
}

/// A copy of a list of entries.
pub fn copy_entries(entries: &Vec<(String, JsonValue)>) -> (copy: Vec<(String, JsonValue)>)
    ensures
        entries_of(copy@) == entries_of(entries@),
{
    let mut copy: Vec<(String, JsonValue)> = Vec::new();
    let mut i: usize = 0;
    while i < entries.len()
        invariant
            i <= entries.len(),
            copy.len() == i,
            forall|j: int|
                0 <= j < i ==> copy[j].0@ == entries[j].0@ && copy[j].1@ == entries[j].1@,
        decreases entries.len() - i,
    {
        copy.push((entries[i].0.clone(), entries[i].1.deep_copy()));
        i += 1;
    }
    proof {
        assert(entries_of(copy@) =~= entries_of(entries@));
    }
    copy
}

/// The value of the last entry of `entries` that is named `key`.
pub fn find_entry<'a>(entries: &'a Vec<(String, JsonValue)>, key: &str) -> (found: Option<
    &'a JsonValue,
>)
    ensures
        match found {
            Some(value) => JsonTree::lookup(entries_of(entries@), key@) == Some(value@),
            None => JsonTree::lookup(entries_of(entries@), key@) is None,
        },
{
    let ghost trees = entries_of(entries@);
    let mut found: Option<&JsonValue> = None;
    let mut i: usize = 0;
    while i < entries.len()
        invariant
            i <= entries.len(),
            trees == entries_of(entries@),
            match found {
                Some(value) => JsonTree::lookup(trees.take(i as int), key@) == Some(value@),
                None => JsonTree::lookup(trees.take(i as int), key@) is None,
            },
        decreases entries.len() - i,
    {
        proof {
            assert(trees.take(i + 1).drop_last() == trees.take(i as int));
        }
        if same_text(entries[i].0.as_str(), key) {
            found = Some(&entries[i].1);
        }
        i += 1;
    }
    proof {
        assert(trees.take(i as int) == trees);
    }
    found
}

impl Clone for JsonValue {
    fn clone(&self) -> (copy: JsonValue)
        ensures
            copy@ == self@,
    {
        self.deep_copy()
    }
}

impl JsonValue {
    /// The value held under `key`, if `self` is a record with such an entry.
    pub fn field(&self, key: &str) -> (found: Option<&JsonValue>)
        ensures
            match found {
                Some(value) => self@.field(key@) == Some(value@),
                None => self@.field(key@) is None,
            },
    {
        match self {
            JsonValue::Object(entries) => {
                proof {
                    assert(self@->Object_0 =~= entries_of(entries@));
                }
                find_entry(entries, key)
            },
            _ => None,
        }
    }

    /// The text that `self` is, if it is one.
    pub fn as_text(&self) -> (text: Option<&str>)
        ensures
            match text {
                Some(t) => self@.text() == Some(t@),
                None => self@.text() is None,
            },
    {
        match self {
            JsonValue::Text(s) => Some(s.as_str()),
            _ => None,
        }
    }

    /// The texts that `self` lists, if it is a list of nothing but texts.
    pub fn as_texts(&self) -> (texts: Option<Vec<String>>)
        ensures
            match texts {
                Some(lines) => self@.texts() == Some(lines_of(lines@)),
                None => self@.texts() is None,
            },
    {
        match self {
            JsonValue::Array(items) => {
                let ghost trees = self@->Array_0;
                let mut lines: Vec<String> = Vec::new();
                let mut i: usize = 0;
                while i < items.len()
                    invariant
                        i <= items.len(),
                        lines.len() == i,
                        self@ == JsonTree::Array(trees),
                        trees.len() == items.len(),
                        forall|j: int| 0 <= j < items.len() ==> trees[j] == items[j]@,
                        forall|j: int| 0 <= j < i ==> #[trigger] trees[j] is Text,
                        forall|j: int| 0 <= j < i ==> lines[j]@ == trees[j]->Text_0,
                    decreases items.len() - i,
                {
                    match &items[i] {
                        JsonValue::Text(s) => {
                            lines.push(s.clone());
                        },
                        _ => {
                            assert(!(trees[i as int] is Text));
                            return None;
                        },
                    }
                    i += 1;
                }
                proof {
                    assert(lines_of(lines@) =~= self@.texts()->0);
                }
                Some(lines)
            },
            _ => None,
        }
    }

    /// The list of the given texts, in their order.
    pub fn from_texts(lines: &Vec<String>) -> (value: JsonValue)
        ensures
            value@ is Array,
            value@.texts() == Some(lines_of(lines@)),
    {
        let mut items: Vec<JsonValue> = Vec::new();
        let mut i: usize = 0;
        while i < lines.len()
            invariant
                i <= lines.len(),
                items.len() == i,
                forall|j: int| 0 <= j < i ==> (#[trigger] items[j])@ == JsonTree::Text(lines[j]@),
            decreases lines.len() - i,
        {
            items.push(JsonValue::Text(lines[i].clone()));
            i += 1;
        }
        let value = JsonValue::Array(items);
        proof {
            let trees = value@->Array_0;
            assert(trees.len() == lines.len());
            assert forall|j: int| 0 <= j < trees.len() implies #[trigger] trees[j] is Text by {
                assert(trees[j] == items[j]@);
            }
            assert(value@.texts()->0 =~= lines_of(lines@)) by {
                assert forall|j: int| 0 <= j < trees.len() implies trees[j]->Text_0
                    == lines[j]@ by {
                    assert(trees[j] == items[j]@);
                }
            }
        }
        value
    }

    /// A copy of the whole value.
    pub fn deep_copy(&self) -> (copy: JsonValue)
        ensures
            copy@ == self@,
        decreases self,
    {
        match self {
            JsonValue::Null => JsonValue::Null,
            JsonValue::Bool(b) => JsonValue::Bool(*b),
            JsonValue::Number(n) => JsonValue::Number(n.clone()),
            JsonValue::Text(s) => JsonValue::Text(s.clone()),
            JsonValue::Array(items) => {
                let mut out: Vec<JsonValue> = Vec::new();
                let mut i: usize = 0;
                while i < items.len()
                    invariant
                        i <= items.len(),
                        out.len() == i,
                        forall|j: int| 0 <= j < i ==> out[j]@ == items[j]@,
                        *self == JsonValue::Array(*items),
                    decreases items.len() - i,
                {
                    proof {
                        assert(decreases_to!(self => self->Array_0[i as int]));
                    }
                    out.push(items[i].deep_copy());
                    i += 1;
                }
                let copy = JsonValue::Array(out);
                proof {
                    assert(copy@->Array_0 =~= self@->Array_0);
                }
                copy
            },
            JsonValue::Object(entries) => {
                let mut out: Vec<(String, JsonValue)> = Vec::new();
                let mut i: usize = 0;
                while i < entries.len()
                    invariant
                        i <= entries.len(),
                        out.len() == i,
                        forall|j: int|
                            0 <= j < i ==> out[j].0@ == entries[j].0@ && out[j].1@
                                == entries[j].1@,
                        *self == JsonValue::Object(*entries),
                    decreases entries.len() - i,
                {
                    proof {
                        assert(decreases_to!(self => self->Object_0[i as int].1));
                    }
                    out.push((entries[i].0.clone(), entries[i].1.deep_copy()));
                    i += 1;
                }
                let copy = JsonValue::Object(out);
                proof {
                    assert(copy@->Object_0 =~= self@->Object_0);
                }
                copy
            },
        }
    }
}

/// The top node of a `serde_json::Value`, its children not yet looked at.
enum ValueNode<'a> {
    Null,
    Bool(bool),
    Number(serde_json::Number),
    Text(&'a String),
    Array(&'a Vec<serde_json::Value>),
    Object(Vec<(&'a String, &'a serde_json::Value)>),
}

impl ValueNode<'_> {
    /// The tree of the value that the node was taken from.
    spec fn tree(self) -> JsonTree {
        match self {
            ValueNode::Null => JsonTree::Null,
            ValueNode::Bool(b) => JsonTree::Bool(b),
            ValueNode::Number(n) => JsonTree::Number(n),
            ValueNode::Text(s) => JsonTree::Text(s@),
            ValueNode::Array(items) => JsonTree::Array(
                Seq::new(items@.len(), |i: int| value_tree(items@[i])),
            ),
            ValueNode::Object(entries) => JsonTree::Object(
                Seq::new(entries@.len(), |i: int| (entries@[i].0@, value_tree(*entries@[i].1))),
            ),
        }
    }
}

/// `serde_json::from_str` at the type `serde_json::Value`. The contract only
/// names the outcome: the call decides whether the text is valid, and which
/// value it stands for.
#[verifier::external_body]
fn read_value(text: &str) -> (res: Result<serde_json::Value, serde_json::Error>)
    ensures
        match res {
            Ok(value) => decoded_tree(text@) == Some(value_tree(value)),
            Err(_) => decoded_tree(text@) is None,
        },
{
    serde_json::from_str::<serde_json::Value>(text)
}

/// The variant of a `serde_json::Value` with what it holds: a null, a
/// boolean, a number, a string, the elements of an array in order, or the
/// entries of an object in the order in which `serde_json::Map::iter` walks
/// them.
#[verifier::external_body]
fn unpack(value: &serde_json::Value) -> (node: ValueNode<'_>)
    ensures
        node.tree() == value_tree(*value),
{
    match value {
        serde_json::Value::Null => ValueNode::Null,
        serde_json::Value::Bool(flag) => ValueNode::Bool(*flag),
        serde_json::Value::Number(number) => ValueNode::Number(number.clone()),
        serde_json::Value::String(text) => ValueNode::Text(text),
        serde_json::Value::Array(items) => ValueNode::Array(items),
        serde_json::Value::Object(entries) => ValueNode::Object(entries.iter().collect()),
    }
}

/// The message of a `serde_json::Error`, as its `Display` writes it. Nothing
/// is claimed of the wording.
#[verifier::external_body]
fn fault_text(fault: &serde_json::Error) -> (detail: String) {
    fault.to_string()
}

/// Carries a decoded value over into a [`JsonValue`], node by node.
fn lift(value: &serde_json::Value) -> (lifted: JsonValue)
    ensures
        lifted@ == value_tree(*value),
    decreases value_tree(*value),
{
    let ghost goal = value_tree(*value);
    match unpack(value) {
        ValueNode::Null => JsonValue::Null,
        ValueNode::Bool(flag) => JsonValue::Bool(flag),
        ValueNode::Number(number) => JsonValue::Number(number),
        ValueNode::Text(text) => JsonValue::Text(text.clone()),
        ValueNode::Array(items) => {
            let mut out: Vec<JsonValue> = Vec::new();
            let mut i: usize = 0;
            while i < items.len()
                invariant
                    i <= items.len(),
                    out.len() == i,
                    goal == value_tree(*value),
                    goal is Array,
                    goal->Array_0.len() == items.len(),
                    forall|j: int|
                        0 <= j < items.len() ==> goal->Array_0[j] == value_tree(items[j]),
                    forall|j: int| 0 <= j < i ==> out[j]@ == goal->Array_0[j],
                decreases items.len() - i,
            {
                proof {
                    assert(decreases_to!(goal => goal->Array_0[i as int]));
                }
                out.push(lift(&items[i]));
                i += 1;
            }
            let lifted = JsonValue::Array(out);
            proof {
                assert(lifted@->Array_0 =~= goal->Array_0);
            }
            lifted
        },
        ValueNode::Object(entries) => {
            let mut out: Vec<(String, JsonValue)> = Vec::new();
            let mut i: usize = 0;
            while i < entries.len()
                invariant
                    i <= entries.len(),
                    out.len() == i,
                    goal == value_tree(*value),
                    goal is Object,
                    goal->Object_0.len() == entries.len(),
                    forall|j: int|
                        0 <= j < entries.len() ==> goal->Object_0[j] == (
                            entries[j].0@,
                            value_tree(*entries[j].1),
                        ),
                    forall|j: int|
                        0 <= j < i ==> (out[j].0@, out[j].1@) == goal->Object_0[j],
                decreases entries.len() - i,
            {
                proof {
                    assert(decreases_to!(goal => goal->Object_0[i as int].1));
                }
                out.push((entries[i].0.clone(), lift(entries[i].1)));
                i += 1;
            }
            let lifted = JsonValue::Object(out);
            proof {
                assert(lifted@->Object_0 =~= goal->Object_0);
            }
            lifted
        },
    }
}

impl JsonValue {
    /// Decodes a text. The value is the one that `serde_json` reads from the
    /// text; where it reads none, its message comes back instead.
    pub fn from_text(text: &str) -> (res: Result<JsonValue, String>)
        ensures
            match res {
                Ok(value) => decoded_tree(text@) == Some(value@),
                Err(_) => decoded_tree(text@) is None,
            },
    {
        match read_value(text) {
            Ok(value) => Ok(lift(&value)),
            Err(fault) => Err(fault_text(&fault)),
        }
    }
}

} // verus!
