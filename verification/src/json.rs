//! JSON documents as trees of plain values.

use crate::text::{push_signed_decimal, same_text, signed_decimal};
use vstd::prelude::*;

verus! {

/// A JSON document. A number is held as the text that stands for it in the
/// document; an object holds its members in the order of the document.
#[derive(Debug)]
pub enum JsonValue {
    Null,
    Bool(bool),
    Number(String),
    Text(String),
    Array(Vec<JsonValue>),
    Object(Vec<(String, JsonValue)>),
}

/// The mathematical value of a JSON document.
pub enum JsonTree {
    Null,
    Bool(bool),
    Number(Seq<char>),
    Text(Seq<char>),
    Array(Seq<JsonTree>),
    Object(Seq<(Seq<char>, JsonTree)>),
}

/// The mathematical value of a document.
pub open spec fn tree_of(value: JsonValue) -> JsonTree
    decreases value,
{
    match value {
        JsonValue::Null => JsonTree::Null,
        JsonValue::Bool(b) => JsonTree::Bool(b),
        JsonValue::Number(digits) => JsonTree::Number(digits@),
        JsonValue::Text(text) => JsonTree::Text(text@),
        JsonValue::Array(items) => JsonTree::Array(
            Seq::new(
                items@.len(),
                |i: int|
                    if 0 <= i < items@.len() {
                        tree_of(items@[i])
                    } else {
                        JsonTree::Null
                    },
            ),
        ),
        JsonValue::Object(members) => JsonTree::Object(
            Seq::new(
                members@.len(),
                |i: int|
                    if 0 <= i < members@.len() {
                        (members@[i].0@, tree_of(members@[i].1))
                    } else {
                        (Seq::empty(), JsonTree::Null)
                    },
            ),
        ),
    }
}

impl View for JsonValue {
    type V = JsonTree;

    open spec fn view(&self) -> JsonTree {
        tree_of(*self)
    }
}

/// The value of the first member of `members` whose name is `name`.
pub open spec fn first_member(members: Seq<(Seq<char>, JsonTree)>, name: Seq<char>) -> Option<
    JsonTree,
>
    decreases members.len(),
{
    if members.len() == 0 {
        None
    } else if members[0].0 == name {
        Some(members[0].1)
    } else {
        first_member(members.drop_first(), name)
    }
}

impl JsonTree {
    /// The value of the first member called `name`, if the tree is an object
    /// that has one.
    pub open spec fn member(self, name: Seq<char>) -> Option<JsonTree> {
        match self {
            JsonTree::Object(members) => first_member(members, name),
            _ => None,
        }
    }
}

impl JsonValue {
    /// A JSON string that holds `text`.
    pub fn text(text: &str) -> (value: JsonValue)
        ensures
            value@ == JsonTree::Text(text@),
    {
        JsonValue::Text(text.to_owned())
    }

    /// The JSON number that stands for `value`.
    pub fn integer(value: i64) -> (number: JsonValue)
        ensures
            number@ == JsonTree::Number(signed_decimal(value as int)),
    {
        let mut digits = String::new();
        push_signed_decimal(&mut digits, value);
        JsonValue::Number(digits)
    }

    /// Whether the value is a JSON string.
    pub fn is_string(&self) -> (yes: bool)
        ensures
            yes == (self@ is Text),
    {
        match self {
            JsonValue::Text(_) => true,
            _ => false,
        }
    }

    /// The text of a JSON string, and nothing for any other value.
    pub fn as_str(&self) -> (text: Option<&str>)
        ensures
            match text {
                Some(t) => self@ == JsonTree::Text(t@),
                None => !(self@ is Text),
            },
    {
        match self {
            JsonValue::Text(text) => Some(text.as_str()),
            _ => None,
        }
    }

    /// The truth value of a JSON boolean, and nothing for any other value.
    pub fn as_bool(&self) -> (flag: Option<bool>)
        ensures
            match flag {
                Some(b) => self@ == JsonTree::Bool(b),
                None => !(self@ is Bool),
            },
    {
        match self {
            JsonValue::Bool(b) => Some(*b),
            _ => None,
        }
    }

    /// The value of the first member called `name`, if this is an object that
    /// has one.
    pub fn get(&self, name: &str) -> (found: Option<&JsonValue>)
        ensures
            match found {
                Some(value) => self@.member(name@) == Some(value@),
                None => self@.member(name@) is None,
            },
    {
        match self {
            JsonValue::Object(members) => {
                let ghost all = self@->Object_0;
                assert(self@ is Object);
                assert(all.len() == members@.len());
                assert forall|k: int| 0 <= k < members@.len() implies #[trigger] all[k] == (
                    members@[k].0@,
                    members@[k].1@,
                ) by {}
                let mut i: usize = 0;
                assert(all.skip(0) == all);
                while i < members.len()
                    invariant
                        i <= members.len(),
                        self@ == JsonTree::Object(all),
                        all.len() == members@.len(),
                        forall|k: int|
                            0 <= k < members@.len() ==> #[trigger] all[k] == (
                                members@[k].0@,
                                members@[k].1@,
                            ),
                        first_member(all, name@) == first_member(all.skip(i as int), name@),
                    decreases members.len() - i,
                {
                    let ghost rest = all.skip(i as int);
                    assert(rest[0] == all[i as int]);
                    assert(rest.drop_first() == all.skip(i + 1));
                    if same_text(members[i].0.as_str(), name) {
                        assert(first_member(rest, name@) == Some(rest[0].1));
                        assert(self@.member(name@) == Some(members@[i as int].1@));
                        return Some(&members[i].1);
                    }
                    i += 1;
                }
                assert(all.skip(i as int).len() == 0);
                None
            },
            _ => None,
        }
    }
}

/// The members of an object as plain values.
pub open spec fn member_trees(members: Seq<(String, JsonValue)>) -> Seq<(Seq<char>, JsonTree)> {
    Seq::new(members.len(), |i: int| (members[i].0@, members[i].1@))
}

/// The items of an array as plain values.
pub open spec fn item_trees(items: Seq<JsonValue>) -> Seq<JsonTree> {
    Seq::new(items.len(), |i: int| items[i]@)
}

/// An object under construction, member by member.
#[derive(Debug)]
pub struct ObjectBuilder {
    pub members: Vec<(String, JsonValue)>,
}

impl ObjectBuilder {
    /// The members added so far, as plain values.
    pub open spec fn trees(self) -> Seq<(Seq<char>, JsonTree)> {
        member_trees(self.members@)
    }

    /// An object without members.
    pub fn new() -> (builder: ObjectBuilder)
        ensures
            builder.trees() == Seq::<(Seq<char>, JsonTree)>::empty(),
    {
        let builder = ObjectBuilder { members: Vec::new() };
        assert(builder.trees() =~= Seq::<(Seq<char>, JsonTree)>::empty());
        builder
    }

    /// The object with one more member at its end.
    pub fn with(self, name: &str, value: JsonValue) -> (builder: ObjectBuilder)
        ensures
            builder.trees() == self.trees().push((name@, value@)),
    {
        let mut members = self.members;
        members.push((name.to_owned(), value));
        let builder = ObjectBuilder { members };
        assert(builder.trees() =~= self.trees().push((name@, value@)));
        builder
    }

    /// The object with one more member at its end, which is a string.
    pub fn with_text(self, name: &str, text: &str) -> (builder: ObjectBuilder)
        ensures
            builder.trees() == self.trees().push((name@, JsonTree::Text(text@))),
    {
        self.with(name, JsonValue::text(text))
    }

    /// The object that was built.
    pub fn build(self) -> (value: JsonValue)
        ensures
            value@ == JsonTree::Object(self.trees()),
    {
        let value = JsonValue::Object(self.members);
        assert(value@->Object_0 =~= self.trees());
        value
    }
}

/// An array under construction, item by item.
#[derive(Debug)]
pub struct ArrayBuilder {
    pub items: Vec<JsonValue>,
}

impl ArrayBuilder {
    /// The items added so far, as plain values.
    pub open spec fn trees(self) -> Seq<JsonTree> {
        item_trees(self.items@)
    }

    /// An array without items.
    pub fn new() -> (builder: ArrayBuilder)
        ensures
            builder.trees() == Seq::<JsonTree>::empty(),
    {
        let builder = ArrayBuilder { items: Vec::new() };
        assert(builder.trees() =~= Seq::<JsonTree>::empty());
        builder
    }

    /// The array with one more item at its end.
    pub fn with(self, value: JsonValue) -> (builder: ArrayBuilder)
        ensures
            builder.trees() == self.trees().push(value@),
    {
        let mut items = self.items;
        items.push(value);
        let builder = ArrayBuilder { items };
        assert(builder.trees() =~= self.trees().push(value@));
        builder
    }

    /// The array with one more item at its end, which is a string.
    pub fn with_text(self, text: &str) -> (builder: ArrayBuilder)
        ensures
            builder.trees() == self.trees().push(JsonTree::Text(text@)),
    {
        self.with(JsonValue::text(text))
    }

    /// The array that was built.
    pub fn build(self) -> (value: JsonValue)
        ensures
            value@ == JsonTree::Array(self.trees()),
    {
        let value = JsonValue::Array(self.items);
        assert(value@->Array_0 =~= self.trees());
        value
    }
}

} // verus!
