//! JSON text: reading documents from it and writing them back, with
//! `serde_json`.

use crate::error::AugmentError;
use crate::json::{JsonTree, JsonValue};
use crate::telemetry::{
    default_lowered_names, has_candidate, plan_mutation, rewritten, MutationResult, MutationStep,
};
use crate::types::BackupResult;
use vstd::prelude::*;

verus! {

/// A JSON value of `serde_json`. Nothing is seen of what it holds but what
/// `value_tree` says.
#[verifier::external_type_specification]
#[verifier::external_body]
pub struct ExValue(serde_json::Value);

/// The document that a value of `serde_json` holds: its kind, its truth
/// value or text, the text that is written for a number, the items of an
/// array, and the members of an object in the order in which the object
/// hands them out.
pub uninterp spec fn value_tree(value: serde_json::Value) -> JsonTree;

/// What `serde_json::from_str` reads from a text as a value: the document,
/// or nothing if the text is not JSON.
pub uninterp spec fn parsed_tree(text: Seq<char>) -> Option<JsonTree>;

/// The text that `serde_json` writes for the number that
/// `serde_json::from_str` reads from a text, or nothing if it reads none.
pub uninterp spec fn number_text(digits: Seq<char>) -> Option<Seq<char>>;

/// What `serde_json::to_string_pretty` writes for a value that holds the
/// document given.
pub uninterp spec fn pretty_text(tree: JsonTree) -> Seq<char>;

/// One level of a value of `serde_json`: what it is, and the values below it.
#[derive(Debug)]
pub enum JsonNode {
    Null,
    Bool(bool),
    Number(String),
    Text(String),
    Items(Vec<serde_json::Value>),
    Members(Vec<(String, serde_json::Value)>),
}

/// The document that one level of a value holds, given the documents of the
/// values below it.
pub open spec fn node_tree(node: JsonNode) -> JsonTree {
    match node {
        JsonNode::Null => JsonTree::Null,
        JsonNode::Bool(b) => JsonTree::Bool(b),
        JsonNode::Number(digits) => JsonTree::Number(digits@),
        JsonNode::Text(text) => JsonTree::Text(text@),
        JsonNode::Items(items) => JsonTree::Array(
            Seq::new(items@.len(), |i: int| value_tree(items@[i])),
        ),
        JsonNode::Members(members) => JsonTree::Object(
            Seq::new(members@.len(), |i: int| (members@[i].0@, value_tree(members@[i].1))),
        ),
    }
}

/// Whether one of the members is called `name`.
pub open spec fn has_name(members: Seq<(Seq<char>, JsonTree)>, name: Seq<char>) -> bool {
    exists|i: int| 0 <= i < members.len() && (#[trigger] members[i]).0 == name
}

/// Whether `member` is one of the members.
pub open spec fn has_member(
    members: Seq<(Seq<char>, JsonTree)>,
    member: (Seq<char>, JsonTree),
) -> bool {
    exists|j: int| 0 <= j < members.len() && #[trigger] members[j] == member
}

/// Whether `made` holds the members `given` as an object does: every name
/// once, with a value that was given under that name.
pub open spec fn selects(
    given: Seq<(Seq<char>, JsonTree)>,
    made: Seq<(Seq<char>, JsonTree)>,
) -> bool {
    &&& forall|i: int, k: int|
        #![trigger made[i], made[k]]
        0 <= i < k < made.len() ==> made[i].0 != made[k].0
    &&& forall|i: int| 0 <= i < made.len() ==> has_member(given, #[trigger] made[i])
    &&& forall|j: int| 0 <= j < given.len() ==> has_name(made, (#[trigger] given[j]).0)
}

/// Whether `made` is the document of the value that is put together from
/// one level whose document is `given`: a number is written as `serde_json`
/// writes it, an object holds every name once, and all else is as given.
pub open spec fn packed(given: JsonTree, made: JsonTree) -> bool {
    match given {
        JsonTree::Number(digits) => number_text(digits) == Some(made->Number_0) && made is Number,
        JsonTree::Object(members) => made is Object && selects(members, made->Object_0),
        _ => made == given,
    }
}

/// `serde_json::from_str` for a `serde_json::Value`: the value read from the
/// text holds the document that `parsed_tree` names, and a text from which
/// none is read has none. A failure is handed on as its message.
#[verifier::external_body]
fn parse_value(text: &str) -> (outcome: Result<serde_json::Value, String>)
    ensures
        match outcome {
            Ok(value) => parsed_tree(text@) == Some(value_tree(value)),
            Err(_) => parsed_tree(text@) is None,
        },
{
    serde_json::from_str::<serde_json::Value>(text).map_err(|e| e.to_string())
}

/// Takes a `serde_json::Value` apart, one arm for each of its variants: the
/// parts are moved out as they are, a number as the text that `to_string`
/// writes for it, and the members of an object in the order of `into_iter`.
/// The text written for a number is read back as that number, so it is
/// written again as it stands.
#[verifier::external_body]
fn unpack_value(value: serde_json::Value) -> (node: JsonNode)
    ensures
        node_tree(node) == value_tree(value),
        node matches JsonNode::Number(digits) ==> number_text(digits@) == Some(digits@),
{
    match value {
        serde_json::Value::Null => JsonNode::Null,
        serde_json::Value::Bool(b) => JsonNode::Bool(b),
        serde_json::Value::Number(n) => JsonNode::Number(n.to_string()),
        serde_json::Value::String(s) => JsonNode::Text(s),
        serde_json::Value::Array(items) => JsonNode::Items(items),
        serde_json::Value::Object(members) => JsonNode::Members(members.into_iter().collect()),
    }
}

/// Puts a `serde_json::Value` together, one variant for each kind of node:
/// the parts are moved in as they are, a number is read from its text with
/// `serde_json::from_str`, and the members go into a `serde_json::Map` with
/// `insert`, which keeps every name once. Only a number can fail to be made.
#[verifier::external_body]
fn pack_node(node: JsonNode) -> (outcome: Option<serde_json::Value>)
    ensures
        match outcome {
            Some(value) => packed(node_tree(node), value_tree(value)),
            None => node matches JsonNode::Number(digits) && number_text(digits@) is None,
        },
{
    Some(match node {
        JsonNode::Null => serde_json::Value::Null,
        JsonNode::Bool(b) => serde_json::Value::Bool(b),
        JsonNode::Number(d) => serde_json::Value::Number(serde_json::from_str(&d).ok()?),
        JsonNode::Text(s) => serde_json::Value::String(s),
        JsonNode::Items(items) => serde_json::Value::Array(items),
        JsonNode::Members(members) => {
            let mut map = serde_json::Map::new();
            for (name, value) in members {
                map.insert(name, value);
            }
            serde_json::Value::Object(map)
        },
    })
}

/// `serde_json::to_string_pretty` for a `serde_json::Value`: the text
/// depends on the document of the value alone. The writer writes into
/// memory, and a value holds nothing that it refuses, so it always succeeds.
#[verifier::external_body]
fn print_value(value: &serde_json::Value) -> (outcome: Result<String, String>)
    ensures
        outcome is Ok,
        outcome matches Ok(text) ==> text@ == pretty_text(value_tree(*value)),
{
    serde_json::to_string_pretty(value).map_err(|e| e.to_string())
}

/// Whether every number of a document can be written: its text is read as
/// a number.
pub open spec fn numbers_valid(tree: JsonTree) -> bool
    decreases tree,
{
    match tree {
        JsonTree::Number(digits) => number_text(digits) is Some,
        JsonTree::Array(items) => forall|i: int|
            0 <= i < items.len() ==> numbers_valid(#[trigger] items[i]),
        JsonTree::Object(members) => forall|i: int|
            0 <= i < members.len() ==> numbers_valid((#[trigger] members[i]).1),
        _ => true,
    }
}

/// Whether `written` is the document that is written for `tree`: every
/// number as `serde_json` writes it, every object with each of its names
/// once, and all else alike.
pub open spec fn normalized(tree: JsonTree, written: JsonTree) -> bool
    decreases tree,
{
    match tree {
        JsonTree::Number(digits) => number_text(digits) == Some(written->Number_0)
            && written is Number,
        JsonTree::Array(items) => {
            &&& written is Array
            &&& written->Array_0.len() == items.len()
            &&& forall|i: int|
                0 <= i < items.len() ==> normalized(items[i], #[trigger] written->Array_0[i])
        },
        JsonTree::Object(members) => {
            let made = written->Object_0;
            &&& written is Object
            &&& forall|i: int, k: int|
                #![trigger made[i], made[k]]
                0 <= i < k < made.len() ==> made[i].0 != made[k].0
            &&& forall|i: int| 0 <= i < made.len() ==> written_member(members, #[trigger] made[i])
            &&& forall|j: int| 0 <= j < members.len() ==> has_name(made, (#[trigger] members[j]).0)
        },
        _ => written == tree,
    }
}

/// Whether every number of a document is written as it stands: its text
/// is what is written for the number that is read from it.
pub open spec fn numbers_kept(tree: JsonTree) -> bool
    decreases tree,
{
    match tree {
        JsonTree::Number(digits) => number_text(digits) == Some(digits),
        JsonTree::Array(items) => forall|i: int|
            0 <= i < items.len() ==> numbers_kept(#[trigger] items[i]),
        JsonTree::Object(members) => forall|i: int|
            0 <= i < members.len() ==> numbers_kept((#[trigger] members[i]).1),
        _ => true,
    }
}

/// A document whose numbers are written as they stand can be written.
pub proof fn lemma_kept_numbers_are_valid(tree: JsonTree)
    requires
        numbers_kept(tree),
    ensures
        numbers_valid(tree),
    decreases tree,
{
    match tree {
        JsonTree::Array(items) => {
            assert forall|i: int| 0 <= i < items.len() implies numbers_valid(
                #[trigger] items[i],
            ) by {
                lemma_kept_numbers_are_valid(items[i]);
            }
        },
        JsonTree::Object(members) => {
            assert forall|i: int| 0 <= i < members.len() implies numbers_valid(
                (#[trigger] members[i]).1,
            ) by {
                lemma_kept_numbers_are_valid(members[i].1);
            }
        },
        _ => {},
    }
}

/// Replacing identifiers touches no number: the rewritten document can be
/// written exactly if the document could, and its numbers are written as
/// they stand if those of the document were.
pub proof fn lemma_rewrite_keeps_numbers(before: JsonTree, after: JsonTree, names: Seq<Seq<char>>)
    requires
        rewritten(before, after, names),
    ensures
        numbers_valid(after) == numbers_valid(before),
        numbers_kept(after) == numbers_kept(before),
    decreases before,
{
    match before {
        JsonTree::Array(items) => {
            let fresh = after->Array_0;
            assert forall|i: int| 0 <= i < items.len() implies numbers_valid(#[trigger] fresh[i])
                == numbers_valid(items[i]) && numbers_kept(fresh[i]) == numbers_kept(items[i]) by {
                lemma_rewrite_keeps_numbers(items[i], fresh[i], names);
            }
            assert(numbers_valid(after) == numbers_valid(before)) by {
                if numbers_valid(before) {
                    assert forall|i: int| 0 <= i < fresh.len() implies numbers_valid(
                        #[trigger] fresh[i],
                    ) by {
                        assert(numbers_valid(items[i]));
                    }
                }
                if numbers_valid(after) {
                    assert forall|i: int| 0 <= i < items.len() implies numbers_valid(
                        #[trigger] items[i],
                    ) by {
                        assert(numbers_valid(fresh[i]));
                    }
                }
            }
            assert(numbers_kept(after) == numbers_kept(before)) by {
                if numbers_kept(before) {
                    assert forall|i: int| 0 <= i < fresh.len() implies numbers_kept(
                        #[trigger] fresh[i],
                    ) by {
                        assert(numbers_kept(items[i]));
                    }
                }
                if numbers_kept(after) {
                    assert forall|i: int| 0 <= i < items.len() implies numbers_kept(
                        #[trigger] items[i],
                    ) by {
                        assert(numbers_kept(fresh[i]));
                    }
                }
            }
        },
        JsonTree::Object(members) => {
            let fresh = after->Object_0;
            assert forall|i: int| 0 <= i < members.len() implies numbers_valid(
                (#[trigger] fresh[i]).1,
            ) == numbers_valid(members[i].1) && numbers_kept(fresh[i].1) == numbers_kept(
                members[i].1,
            ) by {
                if crate::telemetry::is_candidate(members[i].0, names) && members[i].1 is Text {
                } else {
                    lemma_rewrite_keeps_numbers(members[i].1, fresh[i].1, names);
                }
            }
            assert(numbers_valid(after) == numbers_valid(before)) by {
                if numbers_valid(before) {
                    assert forall|i: int| 0 <= i < fresh.len() implies numbers_valid(
                        (#[trigger] fresh[i]).1,
                    ) by {
                        assert(numbers_valid(members[i].1));
                    }
                }
                if numbers_valid(after) {
                    assert forall|i: int| 0 <= i < members.len() implies numbers_valid(
                        (#[trigger] members[i]).1,
                    ) by {
                        assert(numbers_valid(fresh[i].1));
                    }
                }
            }
            assert(numbers_kept(after) == numbers_kept(before)) by {
                if numbers_kept(before) {
                    assert forall|i: int| 0 <= i < fresh.len() implies numbers_kept(
                        (#[trigger] fresh[i]).1,
                    ) by {
                        assert(numbers_kept(members[i].1));
                    }
                }
                if numbers_kept(after) {
                    assert forall|i: int| 0 <= i < members.len() implies numbers_kept(
                        (#[trigger] members[i]).1,
                    ) by {
                        assert(numbers_kept(fresh[i].1));
                    }
                }
            }
        },
        _ => {},
    }
}

/// Whether `entry` is what is written for one of the members: it has the
/// name of the member, and its value is what is written for the value of
/// the member.
pub open spec fn written_member(
    members: Seq<(Seq<char>, JsonTree)>,
    entry: (Seq<char>, JsonTree),
) -> bool
    decreases members,
{
    exists|j: int|
        #![trigger members[j]]
        0 <= j < members.len() && entry.0 == members[j].0 && normalized(members[j].1, entry.1)
}

/// Whether `text` is what is written for a document.
pub open spec fn written_as(tree: JsonTree, text: Seq<char>) -> bool {
    exists|written: JsonTree| #[trigger] normalized(tree, written) && text == pretty_text(written)
}

/// The document that a value of `serde_json` holds, as a tree.
fn tree_of_value(value: serde_json::Value) -> (tree: JsonValue)
    ensures
        tree@ == value_tree(value),
        numbers_kept(tree@),
    decreases value_tree(value),
{
    match unpack_value(value) {
        JsonNode::Null => JsonValue::Null,
        JsonNode::Bool(b) => JsonValue::Bool(b),
        JsonNode::Number(digits) => JsonValue::Number(digits),
        JsonNode::Text(text) => JsonValue::Text(text),
        JsonNode::Items(items) => {
            let ghost all = items@;
            let mut trees: Vec<JsonValue> = Vec::new();
            for item in it: items
                invariant
                    it.seq() == all,
                    value_tree(value) == JsonTree::Array(
                        Seq::new(all.len(), |i: int| value_tree(all[i])),
                    ),
                    trees@.len() == it.index(),
                    forall|k: int|
                        0 <= k < trees@.len() ==> (#[trigger] trees@[k])@ == value_tree(all[k])
                            && numbers_kept(trees@[k]@),
            {
                assert(value_tree(value)->Array_0[it.index() as int] == value_tree(item));
                let tree = tree_of_value(item);
                trees.push(tree);
            }
            let made = JsonValue::Array(trees);
            assert(made@->Array_0 =~= value_tree(value)->Array_0);
            assert forall|k: int| 0 <= k < made@->Array_0.len() implies numbers_kept(
                #[trigger] made@->Array_0[k],
            ) by {
                assert(made@->Array_0[k] == trees@[k]@);
            }
            made
        },
        JsonNode::Members(members) => {
            let ghost all = members@;
            let mut trees: Vec<(String, JsonValue)> = Vec::new();
            for member in it: members
                invariant
                    it.seq() == all,
                    value_tree(value) == JsonTree::Object(
                        Seq::new(all.len(), |i: int| (all[i].0@, value_tree(all[i].1))),
                    ),
                    trees@.len() == it.index(),
                    forall|k: int|
                        0 <= k < trees@.len() ==> (#[trigger] trees@[k]).0@ == all[k].0@
                            && trees@[k].1@ == value_tree(all[k].1) && numbers_kept(trees@[k].1@),
            {
                assert(value_tree(value)->Object_0[it.index() as int] == (
                    member.0@,
                    value_tree(member.1),
                ));
                assert(value_tree(member.1) == value_tree(value)->Object_0[it.index() as int].1);
                let name = member.0;
                let tree = tree_of_value(member.1);
                trees.push((name, tree));
            }
            let made = JsonValue::Object(trees);
            assert(made@->Object_0 =~= value_tree(value)->Object_0);
            assert forall|k: int| 0 <= k < made@->Object_0.len() implies numbers_kept(
                (#[trigger] made@->Object_0[k]).1,
            ) by {
                assert(made@->Object_0[k] == (trees@[k].0@, trees@[k].1@));
            }
            made
        },
    }
}

/// The value of `serde_json` that is written for a tree, or nothing if a
/// number of the tree cannot be written.
fn value_of_tree(tree: &JsonValue) -> (outcome: Option<serde_json::Value>)
    ensures
        match outcome {
            Some(value) => numbers_valid(tree@) && normalized(tree@, value_tree(value)),
            None => !numbers_valid(tree@),
        },
    decreases tree,
{
    match tree {
        JsonValue::Null => pack_node(JsonNode::Null),
        JsonValue::Bool(b) => pack_node(JsonNode::Bool(*b)),
        JsonValue::Number(digits) => pack_node(JsonNode::Number(digits.clone())),
        JsonValue::Text(text) => pack_node(JsonNode::Text(text.clone())),
        JsonValue::Array(items) => {
            let mut values: Vec<serde_json::Value> = Vec::new();
            let mut i: usize = 0;
            while i < items.len()
                invariant
                    i <= items.len(),
                    *tree == JsonValue::Array(*items),
                    values@.len() == i,
                    forall|k: int|
                        0 <= k < i ==> numbers_valid(items@[k]@) && normalized(
                            items@[k]@,
                            value_tree(#[trigger] values@[k]),
                        ),
                decreases items.len() - i,
            {
                match value_of_tree(&items[i]) {
                    Some(value) => {
                        values.push(value);
                    },
                    None => {
                        assert(tree@->Array_0[i as int] == items@[i as int]@);
                        return None;
                    },
                }
                i += 1;
            }
            let made = pack_node(JsonNode::Items(values));
            proof {
                let written = value_tree(made->Some_0)->Array_0;
                assert forall|k: int| 0 <= k < items@.len() implies numbers_valid(
                    #[trigger] tree@->Array_0[k],
                ) && normalized(tree@->Array_0[k], written[k]) by {
                    assert(tree@->Array_0[k] == items@[k]@);
                    assert(written[k] == value_tree(values@[k]));
                }
            }
            made
        },
        JsonValue::Object(members) => {
            let mut values: Vec<(String, serde_json::Value)> = Vec::new();
            let mut i: usize = 0;
            while i < members.len()
                invariant
                    i <= members.len(),
                    *tree == JsonValue::Object(*members),
                    values@.len() == i,
                    forall|k: int|
                        0 <= k < i ==> (#[trigger] values@[k]).0@ == members@[k].0@
                            && numbers_valid(members@[k].1@) && normalized(
                            members@[k].1@,
                            value_tree(values@[k].1),
                        ),
                decreases members.len() - i,
            {
                match value_of_tree(&members[i].1) {
                    Some(value) => {
                        values.push((members[i].0.clone(), value));
                    },
                    None => {
                        assert(tree@->Object_0[i as int] == (members@[i as int].0@, members@[i as int].1@));
                        return None;
                    },
                }
                i += 1;
            }
            let ghost given = node_tree(JsonNode::Members(values));
            let made = pack_node(JsonNode::Members(values));
            proof {
                let written = value_tree(made->Some_0)->Object_0;
                let own = tree@->Object_0;
                let handed = given->Object_0;
                assert(selects(handed, written));
                assert forall|k: int| 0 <= k < own.len() implies numbers_valid(
                    (#[trigger] own[k]).1,
                ) by {
                    assert(own[k] == (members@[k].0@, members@[k].1@));
                    assert(values@[k].0@ == members@[k].0@);
                }
                assert forall|a: int| 0 <= a < written.len() implies written_member(
                    own,
                    #[trigger] written[a],
                ) by {
                    assert(has_member(handed, written[a]));
                    let j = choose|j: int| 0 <= j < handed.len() && #[trigger] handed[j] == written[a];
                    assert(handed[j] == (values@[j].0@, value_tree(values@[j].1)));
                    assert(values@[j].0@ == members@[j].0@);
                    assert(own[j] == (members@[j].0@, members@[j].1@));
                    assert(0 <= j < own.len() && written[a].0 == own[j].0 && normalized(
                        own[j].1,
                        written[a].1,
                    ));
                }
                assert forall|j: int| 0 <= j < own.len() implies has_name(
                    written,
                    (#[trigger] own[j]).0,
                ) by {
                    assert(own[j] == (members@[j].0@, members@[j].1@));
                    assert(handed[j] == (values@[j].0@, value_tree(values@[j].1)));
                    assert(values@[j].0@ == members@[j].0@);
                    assert(has_name(written, handed[j].0));
                }
                assert(numbers_valid(tree@));
            }
            made
        },
    }
}

/// Reads a document from JSON text. Text that is not JSON is a failure of
/// JSON handling. Every number of a document that was read is written back
/// as it stands.
pub fn parse_document(text: &str) -> (outcome: Result<JsonValue, AugmentError>)
    ensures
        match outcome {
            Ok(tree) => parsed_tree(text@) == Some(tree@) && numbers_kept(tree@),
            Err(error) => parsed_tree(text@) is None && error is Json,
        },
{
    match parse_value(text) {
        Ok(value) => Ok(tree_of_value(value)),
        Err(reason) => Err(AugmentError::Json(reason)),
    }
}

/// Writes a document as JSON text, indented. A document is written exactly
/// if each of its numbers can be; one that holds a number that cannot is
/// refused as a failure of JSON handling.
pub fn render_document(tree: &JsonValue) -> (outcome: Result<String, AugmentError>)
    ensures
        match outcome {
            Ok(text) => numbers_valid(tree@) && written_as(tree@, text@),
            Err(error) => !numbers_valid(tree@) && error is Json,
        },
{
    match value_of_tree(tree) {
        Some(value) => match print_value(&value) {
            Ok(text) => {
                assert(normalized(tree@, value_tree(value)) && text@ == pretty_text(
                    value_tree(value),
                ));
                Ok(text)
            },
            Err(reason) => Err(AugmentError::Json(reason)),
        },
        None => Err(
            AugmentError::Json("the document holds a number that cannot be written".to_owned()),
        ),
    }
}

/// Replaces the identifiers in the JSON text of a configuration file.
/// Text that is not JSON is a failure of JSON handling, and nothing else
/// is. Text in which no string stands under an identifier field gives
/// nothing: the file stays as it is. Else the text of the document with
/// every such string replaced is given, to be written once the file is
/// backed up.
pub fn rewrite_document(text: &str) -> (outcome: Result<Option<String>, AugmentError>)
    ensures
        match outcome {
            Ok(None) => parsed_tree(text@) matches Some(tree) && !has_candidate(
                tree,
                default_lowered_names(),
            ),
            Ok(Some(fresh)) => parsed_tree(text@) matches Some(tree) && has_candidate(
                tree,
                default_lowered_names(),
            ) && exists|rewrite: JsonTree|
                #[trigger] rewritten(tree, rewrite, default_lowered_names()) && written_as(
                    rewrite,
                    fresh@,
                ),
            Err(error) => parsed_tree(text@) is None && error is Json,
        },
{
    let document = match parse_document(text) {
        Ok(document) => document,
        Err(error) => {
            return Err(error);
        },
    };
    match plan_mutation(document) {
        MutationStep::Skip => Ok(None),
        MutationStep::BackupThenWrite(rewrite) => {
            proof {
                lemma_rewrite_keeps_numbers(document@, rewrite@, default_lowered_names());
                lemma_kept_numbers_are_valid(rewrite@);
            }
            match render_document(&rewrite) {
                Ok(fresh) => {
                    assert(rewritten(document@, rewrite@, default_lowered_names()) && written_as(
                        rewrite@,
                        fresh@,
                    ));
                    Ok(Some(fresh))
                },
                Err(error) => Err(error),
            }
        },
    }
}

/// Work on a configuration file that the caller carries out.
#[derive(Debug)]
pub enum ConfigCommand {
    /// Read the text of the file.
    ReadText,
    /// Back the file up as it stands.
    Backup,
    /// Write the text given in place of the file, whole or not at all.
    Write(String),
}

/// What came of the work on a configuration file.
#[derive(Debug)]
pub enum ConfigEvent {
    /// The text of the file, or why it could not be read.
    TextRead(Result<String, String>),
    /// The record of the backup.
    BackedUp(BackupResult),
    /// The text was written, or why it could not be.
    Written(Result<(), String>),
}

/// Where the work on a configuration file stands: which event it waits for.
#[derive(Debug)]
pub enum ConfigPhase {
    Reading,
    BackingUp { fresh: String },
    Writing { backup_location: Option<String> },
}

/// What to do next for a configuration file.
#[derive(Debug)]
pub enum ConfigStep {
    /// Carry out the command and come back with its event, in the phase given.
    Issue(ConfigCommand, ConfigPhase),
    /// The work on the file has ended.
    Finish(Result<MutationResult, AugmentError>),
}

/// Whether `fresh` is the text to write in place of `text`: the text of
/// the document read from it with every string under an identifier field
/// replaced.
pub open spec fn is_rewrite_of(text: Seq<char>, fresh: Seq<char>) -> bool {
    parsed_tree(text) matches Some(tree) && has_candidate(tree, default_lowered_names())
        && exists|rewrite: JsonTree|
        #[trigger] rewritten(tree, rewrite, default_lowered_names()) && written_as(rewrite, fresh)
}

/// Whether `step` is the step that follows `event` in `phase` for a
/// configuration file.
pub open spec fn config_follows(phase: ConfigPhase, event: ConfigEvent, step: ConfigStep) -> bool {
    match (phase, event) {
        (ConfigPhase::Reading, ConfigEvent::TextRead(Ok(text))) => match parsed_tree(text@) {
            None => step matches ConfigStep::Finish(Err(error)) && error is Json,
            Some(tree) => if has_candidate(tree, default_lowered_names()) {
                step matches ConfigStep::Issue(ConfigCommand::Backup, ConfigPhase::BackingUp { fresh })
                    && is_rewrite_of(text@, fresh@)
            } else {
                step matches ConfigStep::Finish(Ok(result)) && !result.changed
                    && result.backup_location is None
            },
        },
        (ConfigPhase::Reading, ConfigEvent::TextRead(Err(reason))) => step matches ConfigStep::Finish(
            Err(AugmentError::Filesystem(cause)),
        ) && cause == reason,
        (ConfigPhase::BackingUp { fresh }, ConfigEvent::BackedUp(record)) => step matches ConfigStep::Issue(
            ConfigCommand::Write(text),
            ConfigPhase::Writing { backup_location },
        ) && text == fresh && backup_location == if record.success {
            Some(record.backup_path)
        } else {
            None
        },
        (ConfigPhase::Writing { backup_location }, ConfigEvent::Written(Ok(_))) => step matches ConfigStep::Finish(
            Ok(result),
        ) && result.changed && result.backup_location == backup_location,
        (ConfigPhase::Writing { .. }, ConfigEvent::Written(Err(reason))) => step matches ConfigStep::Finish(
            Err(AugmentError::Filesystem(cause)),
        ) && cause == reason,
        _ => step matches ConfigStep::Finish(Err(error)) && error is Internal,
    }
}

/// The backup of a configuration file is asked for only once its text was
/// read and a change is due, so it holds the text before the change; and
/// the new text is written only in answer to the record of the backup,
/// whether the backup was made or not.
pub proof fn lemma_backup_precedes_write(phase: ConfigPhase, event: ConfigEvent, step: ConfigStep)
    requires
        config_follows(phase, event, step),
    ensures
        step matches ConfigStep::Issue(ConfigCommand::Write(_), _) ==> phase is BackingUp
            && event is BackedUp,
        step matches ConfigStep::Issue(ConfigCommand::Backup, _) ==> (phase is Reading && (
        event matches ConfigEvent::TextRead(Ok(text)) && (parsed_tree(text@) matches Some(tree)
            && has_candidate(tree, default_lowered_names())))),
        step matches ConfigStep::Issue(ConfigCommand::ReadText, _) ==> false,
{
}

/// The first step for a configuration file: read its text.
pub fn start_config_mutation() -> (step: ConfigStep)
    ensures
        step matches ConfigStep::Issue(ConfigCommand::ReadText, ConfigPhase::Reading),
{
    ConfigStep::Issue(ConfigCommand::ReadText, ConfigPhase::Reading)
}

/// The step that follows an event on a configuration file.
///
/// Text that is not JSON ends the work with a failure. Text in which no
/// identifier is found ends it unchanged: nothing is backed up or written.
/// Else the file is backed up, and then the new text is written, whether
/// or not the backup was made; the result names the backup only if it was.
/// A file that cannot be read or written ends the work with a failure of
/// the file system.
pub fn mutate_config(phase: ConfigPhase, event: ConfigEvent) -> (step: ConfigStep)
    ensures
        config_follows(phase, event, step),
{
    match phase {
        ConfigPhase::Reading => match event {
            ConfigEvent::TextRead(Ok(text)) => match rewrite_document(text.as_str()) {
                Ok(Some(fresh)) => ConfigStep::Issue(
                    ConfigCommand::Backup,
                    ConfigPhase::BackingUp { fresh },
                ),
                Ok(None) => ConfigStep::Finish(
                    Ok(MutationResult { changed: false, backup_location: None }),
                ),
                Err(error) => ConfigStep::Finish(Err(error)),
            },
            ConfigEvent::TextRead(Err(reason)) => ConfigStep::Finish(
                Err(AugmentError::Filesystem(reason)),
            ),
            _ => unexpected_event(),
        },
        ConfigPhase::BackingUp { fresh } => match event {
            ConfigEvent::BackedUp(record) => {
                let backup_location = if record.success {
                    Some(record.backup_path)
                } else {
                    None
                };
                ConfigStep::Issue(
                    ConfigCommand::Write(fresh),
                    ConfigPhase::Writing { backup_location },
                )
            },
            _ => unexpected_event(),
        },
        ConfigPhase::Writing { backup_location } => match event {
            ConfigEvent::Written(Ok(_)) => ConfigStep::Finish(
                Ok(MutationResult { changed: true, backup_location }),
            ),
            ConfigEvent::Written(Err(reason)) => ConfigStep::Finish(
                Err(AugmentError::Filesystem(reason)),
            ),
            _ => unexpected_event(),
        },
    }
}

/// The step taken for an event that does not belong to the phase.
fn unexpected_event() -> (step: ConfigStep)
    ensures
        step matches ConfigStep::Finish(Err(error)) && error is Internal,
{
    ConfigStep::Finish(Err(AugmentError::internal("the event does not belong to this step")))
}

} // verus!
