//! Rewriting of identifier-bearing fields in JSON documents.

use crate::idgen::{generate_uuid, is_uuid_text, IdGenerator};
use crate::clock::Timestamp;
use crate::json::{JsonTree, JsonValue};
use crate::text::{
    contains_text, ends_with_text, is_ascii_text, is_hex_text, is_substring, is_suffix,
    lemma_hex_digits_shape, lower, lowered_texts, occurs_at, push_hex, same_text, texts,
};
use vstd::prelude::*;

verus! {

/// Characters in the identifier that replaces one that does not name a machine.
pub const REPLACEMENT_ID_LENGTH: usize = 32;

/// Whether a field whose name in lower case is `lowered` holds an identifier:
/// the name is one of `lowered_names`, or contains one of the marks
/// `machineid`, `deviceid`, `sessionid`, `userid` and `telemetry`.
pub open spec fn lowered_is_candidate(lowered: Seq<char>, lowered_names: Seq<Seq<char>>) -> bool {
    ||| lowered_names.contains(lowered)
    ||| is_substring(lowered, "machineid"@)
    ||| is_substring(lowered, "deviceid"@)
    ||| is_substring(lowered, "sessionid"@)
    ||| is_substring(lowered, "userid"@)
    ||| is_substring(lowered, "telemetry"@)
}

/// Whether a field called `key` holds an identifier, whatever the case of its
/// letters, given the lowercase forms of the names to look for.
pub open spec fn is_candidate(key: Seq<char>, lowered_names: Seq<Seq<char>>) -> bool {
    lowered_is_candidate(lower(key), lowered_names)
}

/// Whether the identifier of a field called `key` names a machine.
pub open spec fn wants_uuid(key: Seq<char>) -> bool {
    is_substring(lower(key), "machine"@)
}

/// Whether `text` can replace the identifier of a field called `key`: a
/// universally unique identifier for a machine, 32 lower-case hexadecimal
/// digits for anything else.
pub open spec fn is_replacement(key: Seq<char>, text: Seq<char>) -> bool {
    if wants_uuid(key) {
        is_uuid_text(text)
    } else {
        is_hex_text(text, REPLACEMENT_ID_LENGTH as nat, false)
    }
}

/// Whether `after` is `before` with every string under an identifier field
/// replaced by a fresh identifier of the right kind, and nothing else changed.
pub open spec fn rewritten(before: JsonTree, after: JsonTree, lowered_names: Seq<Seq<char>>) -> bool
    decreases before,
{
    match before {
        JsonTree::Array(items) => {
            &&& after is Array
            &&& after->Array_0.len() == items.len()
            &&& forall|i: int|
                0 <= i < items.len() ==> rewritten(
                    items[i],
                    #[trigger] after->Array_0[i],
                    lowered_names,
                )
        },
        JsonTree::Object(members) => {
            &&& after is Object
            &&& after->Object_0.len() == members.len()
            &&& forall|i: int|
                0 <= i < members.len() ==> {
                    let now = #[trigger] after->Object_0[i];
                    &&& now.0 == members[i].0
                    &&& if is_candidate(members[i].0, lowered_names) && members[i].1 is Text {
                        now.1 is Text && is_replacement(members[i].0, now.1->Text_0)
                    } else {
                        rewritten(members[i].1, now.1, lowered_names)
                    }
                }
        },
        _ => after == before,
    }
}

/// Whether a string stands under an identifier field somewhere in the tree.
pub open spec fn has_candidate(tree: JsonTree, lowered_names: Seq<Seq<char>>) -> bool
    decreases tree,
{
    match tree {
        JsonTree::Array(items) => exists|i: int|
            0 <= i < items.len() && has_candidate(#[trigger] items[i], lowered_names),
        JsonTree::Object(members) => exists|i: int|
            0 <= i < members.len() && {
                let member = #[trigger] members[i];
                (is_candidate(member.0, lowered_names) && member.1 is Text) || has_candidate(
                    member.1,
                    lowered_names,
                )
            },
        _ => false,
    }
}

/// The names of the fields that hold an identifier, as the editors write them.
pub open spec fn telemetry_field_names() -> Seq<Seq<char>> {
    seq![
        "telemetryMachineId"@,
        "machineId"@,
        "deviceId"@,
        "sessionId"@,
        "userId"@,
        "installationId"@,
        "sqmUserId"@,
        "sqmMachineId"@,
        "telemetry.machineId"@,
        "telemetry.deviceId"@,
        "telemetry.sessionId"@,
        "cursor.deviceId"@,
        "cursor.userId"@,
        "cursor.sessionId"@,
        "augment.deviceId"@,
        "augment.userId"@,
        "augment.sessionId"@,
    ]
}

/// The names of the fields that hold an identifier, as the editors write them.
pub fn default_telemetry_fields() -> (fields: Vec<String>)
    ensures
        texts(fields@) == telemetry_field_names(),
{
    let mut fields: Vec<String> = Vec::new();
    fields.push("telemetryMachineId".to_owned());
    fields.push("machineId".to_owned());
    fields.push("deviceId".to_owned());
    fields.push("sessionId".to_owned());
    fields.push("userId".to_owned());
    fields.push("installationId".to_owned());
    fields.push("sqmUserId".to_owned());
    fields.push("sqmMachineId".to_owned());
    fields.push("telemetry.machineId".to_owned());
    fields.push("telemetry.deviceId".to_owned());
    fields.push("telemetry.sessionId".to_owned());
    fields.push("cursor.deviceId".to_owned());
    fields.push("cursor.userId".to_owned());
    fields.push("cursor.sessionId".to_owned());
    fields.push("augment.deviceId".to_owned());
    fields.push("augment.userId".to_owned());
    fields.push("augment.sessionId".to_owned());
    assert(texts(fields@) =~= telemetry_field_names());
    fields
}

/// The lowercase forms of the given names, in the same order.
pub fn lowered_fields(fields: &Vec<String>) -> (lowered: Vec<String>)
    ensures
        texts(lowered@) == lowered_texts(fields@),
{
    let mut lowered: Vec<String> = Vec::new();
    let mut i: usize = 0;
    while i < fields.len()
        invariant
            i <= fields.len(),
            lowered@.len() == i,
            forall|k: int| 0 <= k < i ==> (#[trigger] lowered@[k])@ == lower(fields@[k]@),
        decreases fields.len() - i,
    {
        lowered.push(fields[i].as_str().to_lowercase());
        i += 1;
    }
    assert(texts(lowered@) =~= lowered_texts(fields@));
    lowered
}

/// Whether a field whose name in lower case is `lowered_key` holds an
/// identifier, given the lowercase forms of the names to look for.
pub fn lowered_key_is_candidate(lowered_key: &str, lowered: &Vec<String>) -> (candidate: bool)
    ensures
        candidate == lowered_is_candidate(lowered_key@, texts(lowered@)),
{
    let mut i: usize = 0;
    while i < lowered.len()
        invariant
            i <= lowered.len(),
            forall|k: int| 0 <= k < i ==> texts(lowered@)[k] != lowered_key@,
        decreases lowered.len() - i,
    {
        if same_text(lowered[i].as_str(), lowered_key) {
            assert(texts(lowered@)[i as int] == lowered_key@);
            return true;
        }
        i += 1;
    }
    assert(!texts(lowered@).contains(lowered_key@));
    contains_text(lowered_key, "machineid") || contains_text(lowered_key, "deviceid")
        || contains_text(lowered_key, "sessionid") || contains_text(lowered_key, "userid")
        || contains_text(lowered_key, "telemetry")
}

/// Whether a field whose name in lower case is `lowered_key` names a machine.
pub fn lowered_key_wants_uuid(lowered_key: &str) -> (machine: bool)
    ensures
        machine == is_substring(lowered_key@, "machine"@),
{
    contains_text(lowered_key, "machine")
}

/// Whether a field called `key` holds an identifier, whatever the case of
/// its letters and of the letters of `fields`.
pub fn is_telemetry_key(key: &str, fields: &Vec<String>) -> (candidate: bool)
    ensures
        candidate == is_candidate(key@, lowered_texts(fields@)),
{
    let lowered = lowered_fields(fields);
    let lowered_key = key.to_lowercase();
    lowered_key_is_candidate(lowered_key.as_str(), &lowered)
}

/// `length` random lower-case hexadecimal digits. Where the system gives
/// no randomness, the digits are those of the seconds of the clock, with
/// zeros before them.
pub fn generate_random_id(length: usize) -> (id: String)
    ensures
        is_hex_text(id@, length as nat, false),
{
    match IdGenerator::generate_secure_random_string(length, false) {
        Ok(id) => id,
        Err(_) => {
            let seconds = Timestamp::now().timestamp();
            let mut id = String::new();
            push_hex(&mut id, seconds as u64, length);
            proof {
                lemma_hex_digits_shape(seconds as nat, length as nat);
            }
            id
        },
    }
}

/// A fresh identifier for the field called `key`: a universally unique
/// identifier if the name holds `machine` in any case, 32 lower-case
/// hexadecimal digits if not.
pub fn generate_replacement(key: &str) -> (id: String)
    ensures
        is_replacement(key@, id@),
{
    let lowered_key = key.to_lowercase();
    if lowered_key_wants_uuid(lowered_key.as_str()) {
        generate_uuid()
    } else {
        generate_random_id(REPLACEMENT_ID_LENGTH)
    }
}

/// What holds of the members of an object once the first `done` of them
/// have been rewritten.
pub open spec fn members_rewritten(
    before: Seq<(String, JsonValue)>,
    after: Seq<(String, JsonValue)>,
    done: int,
    names: Seq<Seq<char>>,
) -> bool {
    &&& after.len() == before.len()
    &&& forall|k: int| done <= k < before.len() ==> after[k] == before[k]
    &&& forall|k: int|
        0 <= k < done ==> {
            let now = #[trigger] after[k];
            &&& now.0@ == before[k].0@
            &&& if is_candidate(before[k].0@, names) && before[k].1@ is Text {
                now.1@ is Text && is_replacement(before[k].0@, now.1@->Text_0)
            } else {
                rewritten(before[k].1@, now.1@, names)
            }
        }
}

/// Whether a string stands under an identifier field in one of the first
/// `done` members.
pub open spec fn members_have_candidate(
    before: Seq<(String, JsonValue)>,
    done: int,
    names: Seq<Seq<char>>,
) -> bool {
    exists|k: int|
        0 <= k < done && {
            let member = #[trigger] before[k];
            (is_candidate(member.0@, names) && member.1@ is Text) || has_candidate(
                member.1@,
                names,
            )
        }
}

/// What holds of the items of an array once the first `done` of them have
/// been rewritten.
pub open spec fn items_rewritten(
    before: Seq<JsonValue>,
    after: Seq<JsonValue>,
    done: int,
    names: Seq<Seq<char>>,
) -> bool {
    &&& after.len() == before.len()
    &&& forall|k: int| done <= k < before.len() ==> after[k] == before[k]
    &&& forall|k: int| 0 <= k < done ==> rewritten(before[k]@, #[trigger] after[k]@, names)
}

/// Whether a string stands under an identifier field in one of the first
/// `done` items.
pub open spec fn items_have_candidate(before: Seq<JsonValue>, done: int, names: Seq<Seq<char>>) -> bool {
    exists|k: int| 0 <= k < done && has_candidate(#[trigger] before[k]@, names)
}

proof fn lemma_array_done(before: Vec<JsonValue>, after: Vec<JsonValue>, names: Seq<Seq<char>>)
    requires
        items_rewritten(before@, after@, before@.len() as int, names),
    ensures
        rewritten(JsonValue::Array(before)@, JsonValue::Array(after)@, names),
        has_candidate(JsonValue::Array(before)@, names) == items_have_candidate(
            before@,
            before@.len() as int,
            names,
        ),
{
    let old_items = JsonValue::Array(before)@->Array_0;
    let new_items = JsonValue::Array(after)@->Array_0;
    assert forall|i: int| 0 <= i < old_items.len() implies rewritten(
        old_items[i],
        #[trigger] new_items[i],
        names,
    ) by {
        assert(new_items[i] == after@[i]@);
    }
    if items_have_candidate(before@, before@.len() as int, names) {
        let k = choose|k: int|
            0 <= k < before@.len() && has_candidate(#[trigger] before@[k]@, names);
        assert(has_candidate(old_items[k], names));
    }
    if has_candidate(JsonValue::Array(before)@, names) {
        let k = choose|k: int|
            0 <= k < old_items.len() && has_candidate(#[trigger] old_items[k], names);
        assert(has_candidate(before@[k]@, names));
    }
}

proof fn lemma_object_done(
    before: Vec<(String, JsonValue)>,
    after: Vec<(String, JsonValue)>,
    names: Seq<Seq<char>>,
)
    requires
        members_rewritten(before@, after@, before@.len() as int, names),
    ensures
        rewritten(JsonValue::Object(before)@, JsonValue::Object(after)@, names),
        has_candidate(JsonValue::Object(before)@, names) == members_have_candidate(
            before@,
            before@.len() as int,
            names,
        ),
{
    let old_members = JsonValue::Object(before)@->Object_0;
    let new_members = JsonValue::Object(after)@->Object_0;
    assert forall|i: int| 0 <= i < old_members.len() implies {
        let now = #[trigger] new_members[i];
        &&& now.0 == old_members[i].0
        &&& if is_candidate(old_members[i].0, names) && old_members[i].1 is Text {
            now.1 is Text && is_replacement(old_members[i].0, now.1->Text_0)
        } else {
            rewritten(old_members[i].1, now.1, names)
        }
    } by {
        let now = after@[i];
        assert(new_members[i] == (now.0@, now.1@));
        assert(old_members[i] == (before@[i].0@, before@[i].1@));
    }
    if members_have_candidate(before@, before@.len() as int, names) {
        let k = choose|k: int|
            0 <= k < before@.len() && {
                let member = #[trigger] before@[k];
                (is_candidate(member.0@, names) && member.1@ is Text) || has_candidate(
                    member.1@,
                    names,
                )
            };
        assert(old_members[k] == (before@[k].0@, before@[k].1@));
    }
    if has_candidate(JsonValue::Object(before)@, names) {
        let k = choose|k: int|
            0 <= k < old_members.len() && {
                let member = #[trigger] old_members[k];
                (is_candidate(member.0, names) && member.1 is Text) || has_candidate(
                    member.1,
                    names,
                )
            };
        let member = before@[k];
        assert(old_members[k] == (member.0@, member.1@));
    }
}

/// Replaces every string under an identifier field by a fresh identifier,
/// given the lowercase forms of the names to look for, and says whether there
/// was one.
#[verifier::loop_isolation(false)]
pub fn rewrite_identifiers(value: &mut JsonValue, lowered: &Vec<String>) -> (changed: bool)
    ensures
        rewritten(old(value)@, final(value)@, texts(lowered@)),
        changed == has_candidate(old(value)@, texts(lowered@)),
    decreases *old(value),
{
    let ghost names = texts(lowered@);
    match value {
        JsonValue::Array(items) => {
            let ghost before = *items;
            assert(*old(value) == JsonValue::Array(before));
            let mut changed = false;
            let mut i: usize = 0;
            while i < items.len()
                invariant
                    i <= items.len(),
                    items_rewritten(before@, items@, i as int, names),
                    changed == items_have_candidate(before@, i as int, names),
                decreases items.len() - i,
            {
                let ghost earlier = *items;
                assert(items@[i as int] == before@[i as int]);
                let one = rewrite_identifiers(&mut items[i], lowered);
                assert(forall|k: int| 0 <= k < items.len() && k != i ==> items@[k] == earlier@[k]);
                if one {
                    changed = true;
                }
                proof {
                    if one {
                        assert(has_candidate(before@[i as int]@, names));
                    }
                    if items_have_candidate(before@, i + 1, names) {
                        let k = choose|k: int|
                            0 <= k < i + 1 && has_candidate(#[trigger] before@[k]@, names);
                        if k < i {
                            assert(items_have_candidate(before@, i as int, names));
                        }
                    }
                }
                i += 1;
            }
            proof {
                lemma_array_done(before, *items, names);
            }
            changed
        },
        JsonValue::Object(members) => {
            let ghost before = *members;
            assert(*old(value) == JsonValue::Object(before));
            let mut changed = false;
            let mut i: usize = 0;
            while i < members.len()
                invariant
                    i <= members.len(),
                    members_rewritten(before@, members@, i as int, names),
                    changed == members_have_candidate(before@, i as int, names),
                decreases members.len() - i,
            {
                let ghost earlier = *members;
                assert(members@[i as int] == before@[i as int]);
                let lowered_key = members[i].0.as_str().to_lowercase();
                let candidate = lowered_key_is_candidate(lowered_key.as_str(), lowered);
                let is_text = members[i].1.is_string();
                let mut one = false;
                if candidate && is_text {
                    let id = generate_replacement(members[i].0.as_str());
                    members[i].1 = JsonValue::Text(id);
                    one = true;
                } else {
                    one = rewrite_identifiers(&mut members[i].1, lowered);
                }
                assert(forall|k: int|
                    0 <= k < members.len() && k != i ==> members@[k] == earlier@[k]);
                assert(members@[i as int].0 == earlier@[i as int].0);
                if one {
                    changed = true;
                }
                proof {
                    let member = before@[i as int];
                    assert(one == ((is_candidate(member.0@, names) && member.1@ is Text)
                        || has_candidate(member.1@, names)));
                    if members_have_candidate(before@, i + 1, names) {
                        let k = choose|k: int|
                            0 <= k < i + 1 && {
                                let member = #[trigger] before@[k];
                                (is_candidate(member.0@, names) && member.1@ is Text)
                                    || has_candidate(member.1@, names)
                            };
                        if k < i {
                            assert(members_have_candidate(before@, i as int, names));
                        }
                    }
                }
                i += 1;
            }
            proof {
                lemma_object_done(before, *members, names);
            }
            changed
        },
        _ => false,
    }
}

/// Replaces every string under an identifier field by a fresh identifier and
/// says whether there was one. A field holds an identifier if its name, in
/// any case, is one of `fields` or contains one of the marks. Values that are
/// not strings stay, and are searched in turn.
pub fn modify_json_recursive(value: &mut JsonValue, fields: &Vec<String>) -> (changed: bool)
    ensures
        rewritten(old(value)@, final(value)@, lowered_texts(fields@)),
        changed == has_candidate(old(value)@, lowered_texts(fields@)),
{
    let lowered = lowered_fields(fields);
    rewrite_identifiers(value, &lowered)
}

/// The lowercase forms of the names that the editors use.
pub open spec fn default_lowered_names() -> Seq<Seq<char>> {
    Seq::new(telemetry_field_names().len(), |i: int| lower(telemetry_field_names()[i]))
}

/// Replaces every string under an identifier field of the document by a fresh
/// identifier, with the names that the editors use, and says whether there
/// was one. A document that comes back unchanged needs no backup and is not
/// written.
pub fn modify_telemetry_ids(document: &mut JsonValue) -> (modified: bool)
    ensures
        rewritten(old(document)@, final(document)@, default_lowered_names()),
        modified == has_candidate(old(document)@, default_lowered_names()),
{
    let fields = default_telemetry_fields();
    proof {
        assert(texts(fields@).len() == 17);
        assert forall|i: int| 0 <= i < 17 implies lowered_texts(fields@)[i]
            == default_lowered_names()[i] by {
            assert(texts(fields@)[i] == fields@[i]@);
        }
        assert(lowered_texts(fields@) =~= default_lowered_names());
    }
    modify_json_recursive(document, &fields)
}

/// Whether a file called `name`, whose name in lower case is `lowered`,
/// holds the identifier of a machine: the name holds `machineid` in any
/// case, or is `machine-id`.
pub open spec fn is_machine_id_name(name: Seq<char>, lowered: Seq<char>) -> bool {
    is_substring(lowered, "machineid"@) || name == "machine-id"@
}

/// Whether a file called `name`, whose name in lower case is `lowered_name`,
/// holds the identifier of a machine.
pub fn lowered_name_is_machine_id(name: &str, lowered_name: &str) -> (yes: bool)
    ensures
        yes == is_machine_id_name(name@, lowered_name@),
{
    contains_text(lowered_name, "machineid") || same_text(name, "machine-id")
}

/// Whether a file called `name` holds the identifier of a machine: its
/// name holds `machineid` in any case, or is `machine-id`.
pub fn is_machine_id_file(name: &str) -> (yes: bool)
    ensures
        yes == is_machine_id_name(name@, lower(name@)),
{
    let lowered = name.to_lowercase();
    lowered_name_is_machine_id(name, lowered.as_str())
}

/// Whether a file called `name` is taken for a JSON document: its name
/// ends in `.json` and has something before that.
pub fn is_json_file(name: &str) -> (yes: bool)
    ensures
        yes == (is_suffix(name@, ".json"@) && name@.len() > 5),
{
    let named = ends_with_text(name, ".json");
    let longer = !same_text(name, ".json");
    proof {
        reveal_strlit(".json");
        if named && longer {
            assert(name@.len() >= 5);
            if name@.len() == 5 {
                assert(name@.subrange(0, 5) == name@);
            }
        }
    }
    named && longer
}

/// What to do with a configuration file once its document was searched.
#[derive(Debug)]
pub enum MutationStep {
    /// No identifier was found: the file is neither backed up nor written.
    Skip,
    /// Identifiers were replaced: back the file up, then write the document
    /// given in its place.
    BackupThenWrite(JsonValue),
}

/// What became of a configuration file.
#[derive(Debug, Clone)]
pub struct MutationResult {
    /// Whether identifiers were replaced.
    pub changed: bool,
    /// Where the backup of the file lies, if one was made.
    pub backup_location: Option<String>,
}

/// What to do with a configuration file that holds `document`: nothing if
/// no string stands under an identifier field; else back it up and write
/// the document with every such string replaced.
pub fn plan_mutation(document: JsonValue) -> (step: MutationStep)
    ensures
        match step {
            MutationStep::Skip => !has_candidate(document@, default_lowered_names()),
            MutationStep::BackupThenWrite(rewrite) => has_candidate(
                document@,
                default_lowered_names(),
            ) && rewritten(document@, rewrite@, default_lowered_names()),
        },
{
    let mut document = document;
    if modify_telemetry_ids(&mut document) {
        MutationStep::BackupThenWrite(document)
    } else {
        MutationStep::Skip
    }
}

/// Whether the path, a child index for each level, leads to a string under an
/// identifier field.
pub open spec fn candidate_at(tree: JsonTree, path: Seq<int>, names: Seq<Seq<char>>) -> bool
    decreases path.len(),
{
    if path.len() == 0 {
        false
    } else {
        match tree {
            JsonTree::Array(items) => 0 <= path[0] < items.len() && candidate_at(
                items[path[0]],
                path.drop_first(),
                names,
            ),
            JsonTree::Object(members) => 0 <= path[0] < members.len() && if path.len() == 1 {
                is_candidate(members[path[0]].0, names) && members[path[0]].1 is Text
            } else {
                candidate_at(members[path[0]].1, path.drop_first(), names)
            },
            _ => false,
        }
    }
}

/// The string that the path leads to, if it leads to a string of an object.
pub open spec fn text_at(tree: JsonTree, path: Seq<int>) -> Seq<char>
    decreases path.len(),
{
    if path.len() == 0 {
        Seq::empty()
    } else {
        match tree {
            JsonTree::Array(items) => if 0 <= path[0] < items.len() {
                text_at(items[path[0]], path.drop_first())
            } else {
                Seq::empty()
            },
            JsonTree::Object(members) => if 0 <= path[0] < members.len() {
                if path.len() == 1 {
                    match members[path[0]].1 {
                        JsonTree::Text(text) => text,
                        _ => Seq::empty(),
                    }
                } else {
                    text_at(members[path[0]].1, path.drop_first())
                }
            } else {
                Seq::empty()
            },
            _ => Seq::empty(),
        }
    }
}

/// A rewritten tree has the kind of the tree it was made from.
pub proof fn lemma_rewrite_keeps_kind(before: JsonTree, after: JsonTree, names: Seq<Seq<char>>)
    requires
        rewritten(before, after, names),
    ensures
        before is Text == after is Text,
        before is Array == after is Array,
        before is Object == after is Object,
{
}

/// Rewriting keeps the places of the identifiers: a path leads to a string
/// under an identifier field after the rewriting exactly if it did before,
/// and the string it then leads to is not empty.
pub proof fn lemma_rewrite_keeps_candidates(
    before: JsonTree,
    after: JsonTree,
    names: Seq<Seq<char>>,
    path: Seq<int>,
)
    requires
        rewritten(before, after, names),
    ensures
        candidate_at(after, path, names) == candidate_at(before, path, names),
        candidate_at(after, path, names) ==> text_at(after, path).len() > 0,
    decreases path.len(),
{
    if path.len() > 0 {
        match before {
            JsonTree::Array(items) => {
                if 0 <= path[0] < items.len() {
                    let now = after->Array_0[path[0]];
                    lemma_rewrite_keeps_candidates(items[path[0]], now, names, path.drop_first());
                }
            },
            JsonTree::Object(members) => {
                if 0 <= path[0] < members.len() {
                    let now = after->Object_0[path[0]];
                    let was = members[path[0]];
                    if is_candidate(was.0, names) && was.1 is Text {
                        if path.len() > 1 {
                            assert(!candidate_at(was.1, path.drop_first(), names));
                            assert(!candidate_at(now.1, path.drop_first(), names));
                        }
                    } else {
                        lemma_rewrite_keeps_kind(was.1, now.1, names);
                        if path.len() > 1 {
                            lemma_rewrite_keeps_candidates(was.1, now.1, names, path.drop_first());
                        }
                    }
                }
            },
            _ => {},
        }
    }
}

/// Rewriting a rewritten tree finds an identifier exactly if the first
/// rewriting found one.
pub proof fn lemma_rewrite_keeps_has_candidate(
    before: JsonTree,
    after: JsonTree,
    names: Seq<Seq<char>>,
)
    requires
        rewritten(before, after, names),
    ensures
        has_candidate(after, names) == has_candidate(before, names),
    decreases before,
{
    match before {
        JsonTree::Array(items) => {
            let new_items = after->Array_0;
            assert forall|i: int| 0 <= i < items.len() implies has_candidate(
                #[trigger] new_items[i],
                names,
            ) == has_candidate(items[i], names) by {
                lemma_rewrite_keeps_has_candidate(items[i], new_items[i], names);
            }
            if has_candidate(before, names) {
                let i = choose|i: int|
                    0 <= i < items.len() && has_candidate(#[trigger] items[i], names);
                assert(has_candidate(new_items[i], names));
            }
            if has_candidate(after, names) {
                let i = choose|i: int|
                    0 <= i < new_items.len() && has_candidate(#[trigger] new_items[i], names);
                assert(has_candidate(items[i], names));
            }
        },
        JsonTree::Object(members) => {
            let new_members = after->Object_0;
            assert forall|i: int| 0 <= i < members.len() implies {
                let now = #[trigger] new_members[i];
                let was = members[i];
                ((is_candidate(now.0, names) && now.1 is Text) || has_candidate(now.1, names)) == ((
                is_candidate(was.0, names) && was.1 is Text) || has_candidate(was.1, names))
            } by {
                let now = new_members[i];
                let was = members[i];
                if is_candidate(was.0, names) && was.1 is Text {
                } else {
                    lemma_rewrite_keeps_kind(was.1, now.1, names);
                    lemma_rewrite_keeps_has_candidate(was.1, now.1, names);
                }
            }
            if has_candidate(before, names) {
                let i = choose|i: int|
                    0 <= i < members.len() && {
                        let member = #[trigger] members[i];
                        (is_candidate(member.0, names) && member.1 is Text) || has_candidate(
                            member.1,
                            names,
                        )
                    };
                let now = new_members[i];
                assert((is_candidate(now.0, names) && now.1 is Text) || has_candidate(
                    now.1,
                    names,
                ));
            }
            if has_candidate(after, names) {
                let i = choose|i: int|
                    0 <= i < new_members.len() && {
                        let member = #[trigger] new_members[i];
                        (is_candidate(member.0, names) && member.1 is Text) || has_candidate(
                            member.1,
                            names,
                        )
                    };
                let was = members[i];
                assert((is_candidate(was.0, names) && was.1 is Text) || has_candidate(
                    was.1,
                    names,
                ));
            }
        },
        _ => {},
    }
}

/// Running the rewriting again on its own result keeps the places of the
/// identifiers of the first document, and every one of them then holds a
/// string that is not empty.
pub proof fn lemma_rerun_keeps_candidates(
    first: JsonTree,
    second: JsonTree,
    third: JsonTree,
    names: Seq<Seq<char>>,
    path: Seq<int>,
)
    requires
        rewritten(first, second, names),
        rewritten(second, third, names),
    ensures
        candidate_at(third, path, names) == candidate_at(first, path, names),
        candidate_at(third, path, names) ==> text_at(third, path).len() > 0,
        has_candidate(second, names) == has_candidate(first, names),
{
    lemma_rewrite_keeps_candidates(first, second, names, path);
    lemma_rewrite_keeps_candidates(second, third, names, path);
    lemma_rewrite_keeps_has_candidate(first, second, names);
}

/// Every name that the editors use has six characters, or eight or more,
/// and so has its lowercase form.
pub proof fn lemma_default_names_are_long()
    ensures
        default_lowered_names().len() == 17,
        forall|i: int|
            0 <= i < 17 ==> (#[trigger] default_lowered_names()[i]).len() == 6
                || default_lowered_names()[i].len() >= 8,
{
    reveal_strlit("telemetryMachineId");
    reveal_strlit("machineId");
    reveal_strlit("deviceId");
    reveal_strlit("sessionId");
    reveal_strlit("userId");
    reveal_strlit("installationId");
    reveal_strlit("sqmUserId");
    reveal_strlit("sqmMachineId");
    reveal_strlit("telemetry.machineId");
    reveal_strlit("telemetry.deviceId");
    reveal_strlit("telemetry.sessionId");
    reveal_strlit("cursor.deviceId");
    reveal_strlit("cursor.userId");
    reveal_strlit("cursor.sessionId");
    reveal_strlit("augment.deviceId");
    reveal_strlit("augment.userId");
    reveal_strlit("augment.sessionId");
    assert forall|i: int| 0 <= i < 17 implies (#[trigger] default_lowered_names()[i]).len() == 6
        || default_lowered_names()[i].len() >= 8 by {
        if i == 0 {
            assert(is_ascii_text("telemetryMachineId"@));
            assert(lower("telemetryMachineId"@).len() == 18);
        }
        if i == 1 {
            assert(is_ascii_text("machineId"@));
            assert(lower("machineId"@).len() == 9);
        }
        if i == 2 {
            assert(is_ascii_text("deviceId"@));
            assert(lower("deviceId"@).len() == 8);
        }
        if i == 3 {
            assert(is_ascii_text("sessionId"@));
            assert(lower("sessionId"@).len() == 9);
        }
        if i == 4 {
            assert(is_ascii_text("userId"@));
            assert(lower("userId"@).len() == 6);
        }
        if i == 5 {
            assert(is_ascii_text("installationId"@));
            assert(lower("installationId"@).len() == 14);
        }
        if i == 6 {
            assert(is_ascii_text("sqmUserId"@));
            assert(lower("sqmUserId"@).len() == 9);
        }
        if i == 7 {
            assert(is_ascii_text("sqmMachineId"@));
            assert(lower("sqmMachineId"@).len() == 12);
        }
        if i == 8 {
            assert(is_ascii_text("telemetry.machineId"@));
            assert(lower("telemetry.machineId"@).len() == 19);
        }
        if i == 9 {
            assert(is_ascii_text("telemetry.deviceId"@));
            assert(lower("telemetry.deviceId"@).len() == 18);
        }
        if i == 10 {
            assert(is_ascii_text("telemetry.sessionId"@));
            assert(lower("telemetry.sessionId"@).len() == 19);
        }
        if i == 11 {
            assert(is_ascii_text("cursor.deviceId"@));
            assert(lower("cursor.deviceId"@).len() == 15);
        }
        if i == 12 {
            assert(is_ascii_text("cursor.userId"@));
            assert(lower("cursor.userId"@).len() == 13);
        }
        if i == 13 {
            assert(is_ascii_text("cursor.sessionId"@));
            assert(lower("cursor.sessionId"@).len() == 16);
        }
        if i == 14 {
            assert(is_ascii_text("augment.deviceId"@));
            assert(lower("augment.deviceId"@).len() == 16);
        }
        if i == 15 {
            assert(is_ascii_text("augment.userId"@));
            assert(lower("augment.userId"@).len() == 14);
        }
        if i == 16 {
            assert(is_ascii_text("augment.sessionId"@));
            assert(lower("augment.sessionId"@).len() == 17);
        }
    }
}

/// The keys of the document `{"augment": {"deviceId": ..}, "other": ..}`:
/// `deviceId` is an identifier field, whatever names are looked for, and
/// does not name a machine; `augment` and `other` are no identifier fields
/// for the names that the editors use.
pub proof fn lemma_scenario_keys(names: Seq<Seq<char>>)
    ensures
        is_candidate("deviceId"@, names),
        !wants_uuid("deviceId"@),
        !is_candidate("other"@, default_lowered_names()),
        !is_candidate("augment"@, default_lowered_names()),
{
    reveal_strlit("deviceId");
    reveal_strlit("deviceid");
    reveal_strlit("other");
    reveal_strlit("augment");
    reveal_strlit("machine");
    reveal_strlit("machineid");
    reveal_strlit("sessionid");
    reveal_strlit("userid");
    reveal_strlit("telemetry");
    lemma_default_names_are_long();
    let device = lower("deviceId"@);
    assert(is_ascii_text("deviceId"@));
    assert(device =~= "deviceid"@);
    assert(device.subrange(0, 8) == device);
    assert(occurs_at(device, "deviceid"@, 0));
    assert forall|offset: int| !occurs_at(device, "machine"@, offset) by {
        if occurs_at(device, "machine"@, offset) {
            assert(device.subrange(offset, offset + 7)[0] == 'm');
        }
    }
    let other = lower("other"@);
    assert(is_ascii_text("other"@));
    assert(other.len() == 5);
    let augment = lower("augment"@);
    assert(is_ascii_text("augment"@));
    assert(augment =~= "augment"@);
    assert forall|offset: int| !occurs_at(augment, "userid"@, offset) by {
        if occurs_at(augment, "userid"@, offset) {
            assert(augment.subrange(offset, offset + 6)[1] == 's');
        }
    }
    assert(!default_lowered_names().contains(other)) by {
        if default_lowered_names().contains(other) {
            let i = choose|i: int| 0 <= i < 17 && default_lowered_names()[i] == other;
        }
    }
    assert(!default_lowered_names().contains(augment)) by {
        if default_lowered_names().contains(augment) {
            let i = choose|i: int| 0 <= i < 17 && default_lowered_names()[i] == augment;
        }
    }
}

/// The document `{"augment": {"deviceId": id}, "other": other}`.
pub open spec fn scenario_tree(id: Seq<char>, other: Seq<char>) -> JsonTree {
    JsonTree::Object(
        seq![
            ("augment"@, JsonTree::Object(seq![("deviceId"@, JsonTree::Text(id))])),
            ("other"@, JsonTree::Text(other)),
        ],
    )
}

/// Rewriting the document `{"augment": {"deviceId": "old"}, "other": "x"}`
/// with the names that the editors use reports a change and gives the same
/// document with 32 lower-case hexadecimal digits in place of `old`.
pub proof fn lemma_scenario_rewrite(id: Seq<char>, other: Seq<char>, after: JsonTree)
    requires
        rewritten(scenario_tree(id, other), after, default_lowered_names()),
    ensures
        has_candidate(scenario_tree(id, other), default_lowered_names()),
        exists|fresh: Seq<char>|
            is_hex_text(fresh, REPLACEMENT_ID_LENGTH as nat, false) && after
                == #[trigger] scenario_tree(fresh, other),
{
    let names = default_lowered_names();
    lemma_scenario_keys(names);
    reveal_with_fuel(rewritten, 3);
    reveal_with_fuel(has_candidate, 3);
    let before = scenario_tree(id, other);
    let members = before->Object_0;
    let inner = members[0].1;
    let made = after->Object_0;
    assert(members[0] == ("augment"@, inner));
    assert(members[1] == ("other"@, JsonTree::Text(other)));
    assert(inner->Object_0[0] == ("deviceId"@, JsonTree::Text(id)));
    let first = made[0];
    let second = made[1];
    assert(rewritten(inner, first.1, names));
    let fresh_member = first.1->Object_0[0];
    let fresh = fresh_member.1->Text_0;
    assert(fresh_member == ("deviceId"@, JsonTree::Text(fresh)));
    assert(first.1->Object_0 =~= seq![("deviceId"@, JsonTree::Text(fresh))]);
    assert(second == ("other"@, JsonTree::Text(other)));
    assert(made =~= scenario_tree(fresh, other)->Object_0);
    assert(after == scenario_tree(fresh, other));
    assert(has_candidate(inner, names)) by {
        let member = inner->Object_0[0];
        assert(is_candidate(member.0, names) && member.1 is Text);
    }
    assert(has_candidate(before, names)) by {
        let member = members[0];
        assert(has_candidate(member.1, names));
    }
}

} // verus!
