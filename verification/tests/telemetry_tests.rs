use augment_reset::json::{ArrayBuilder, JsonValue, ObjectBuilder};
use augment_reset::telemetry::{
    is_json_file, is_machine_id_file, lowered_name_is_machine_id,
    default_telemetry_fields, generate_random_id, generate_replacement, is_telemetry_key,
    lowered_fields, lowered_key_is_candidate, lowered_key_wants_uuid, modify_json_recursive,
    modify_telemetry_ids, plan_mutation, rewrite_identifiers, MutationStep,
};

fn is_hex32(text: &str) -> bool {
    text.chars().count() == 32 && text.chars().all(|c| matches!(c, '0'..='9' | 'a'..='f'))
}

fn is_uuid(text: &str) -> bool {
    let chars: Vec<char> = text.chars().collect();
    chars.len() == 36
        && chars.iter().enumerate().all(|(i, c)| {
            if i == 8 || i == 13 || i == 18 || i == 23 {
                *c == '-'
            } else {
                matches!(c, '0'..='9' | 'a'..='f')
            }
        })
}

fn text_at<'a>(value: &'a JsonValue, names: &[&str]) -> &'a str {
    let mut current = value;
    for name in names {
        current = current.get(name).unwrap();
    }
    current.as_str().unwrap()
}

#[test]
fn nested_device_id_is_replaced_and_the_rest_is_kept() {
    let mut document = ObjectBuilder::new()
        .with("augment", ObjectBuilder::new().with_text("deviceId", "old").build())
        .with_text("other", "x")
        .build();
    let changed = modify_telemetry_ids(&mut document);
    assert!(changed);
    let fresh = text_at(&document, &["augment", "deviceId"]);
    assert!(is_hex32(fresh));
    assert_ne!(fresh, "old");
    assert_eq!(text_at(&document, &["other"]), "x");
}

#[test]
fn a_document_without_identifiers_is_left_alone() {
    let mut document = ObjectBuilder::new()
        .with_text("name", "x")
        .with("list", ArrayBuilder::new().with_text("deviceId").with(JsonValue::Null).build())
        .with("count", JsonValue::integer(3))
        .build();
    let changed = modify_telemetry_ids(&mut document);
    assert!(!changed);
    assert_eq!(text_at(&document, &["name"]), "x");
    match document.get("list").unwrap() {
        JsonValue::Array(items) => {
            assert_eq!(items.len(), 2);
            assert_eq!(items[0].as_str(), Some("deviceId"));
            assert!(matches!(items[1], JsonValue::Null));
        }
        _ => panic!("the list is no longer an array"),
    }
    match document.get("count").unwrap() {
        JsonValue::Number(digits) => assert_eq!(digits, "3"),
        _ => panic!("the count is no longer a number"),
    }
}

#[test]
fn machine_identifiers_become_uuids() {
    let mut document = ObjectBuilder::new()
        .with_text("machineId", "m")
        .with_text("telemetry.machineId", "t")
        .with_text("sqmMachineId", "s")
        .with_text("sessionId", "z")
        .build();
    assert!(modify_telemetry_ids(&mut document));
    assert!(is_uuid(text_at(&document, &["machineId"])));
    assert!(is_uuid(text_at(&document, &["telemetry.machineId"])));
    assert!(is_uuid(text_at(&document, &["sqmMachineId"])));
    assert!(is_hex32(text_at(&document, &["sessionId"])));
}

#[test]
fn names_match_in_any_case() {
    let mut document = ObjectBuilder::new()
        .with_text("DEVICEID", "a")
        .with_text("InstallationID", "b")
        .with_text("MyUserIdHere", "c")
        .with_text("TELEMETRY_FLAG", "d")
        .with_text("MACHINE", "e")
        .build();
    assert!(modify_telemetry_ids(&mut document));
    assert!(is_hex32(text_at(&document, &["DEVICEID"])));
    assert!(is_hex32(text_at(&document, &["InstallationID"])));
    assert!(is_hex32(text_at(&document, &["MyUserIdHere"])));
    assert!(is_hex32(text_at(&document, &["TELEMETRY_FLAG"])));
    assert_eq!(text_at(&document, &["MACHINE"]), "e");
}

#[test]
fn values_that_are_not_strings_stay_and_are_searched() {
    let mut document = ObjectBuilder::new()
        .with("deviceId", JsonValue::integer(5))
        .with("telemetry", ObjectBuilder::new().with_text("plain", "p").with_text("userId", "u").build())
        .with("sessionId", JsonValue::Null)
        .with(
            "items",
            ArrayBuilder::new()
                .with(ObjectBuilder::new().with_text("machineId", "m").build())
                .with(JsonValue::Bool(true))
                .build(),
        )
        .build();
    assert!(modify_telemetry_ids(&mut document));
    assert!(matches!(document.get("deviceId").unwrap(), JsonValue::Number(_)));
    assert!(matches!(document.get("sessionId").unwrap(), JsonValue::Null));
    assert_eq!(text_at(&document, &["telemetry", "plain"]), "p");
    assert!(is_hex32(text_at(&document, &["telemetry", "userId"])));
    match document.get("items").unwrap() {
        JsonValue::Array(items) => {
            assert!(is_uuid(items[0].get("machineId").unwrap().as_str().unwrap()));
            assert!(matches!(items[1], JsonValue::Bool(true)));
        }
        _ => panic!("the items are no longer an array"),
    }
}

#[test]
fn scalars_and_empty_containers_do_not_change() {
    let mut text = JsonValue::text("deviceId");
    assert!(!modify_telemetry_ids(&mut text));
    assert_eq!(text.as_str(), Some("deviceId"));
    let mut empty = ObjectBuilder::new().build();
    assert!(!modify_telemetry_ids(&mut empty));
    let mut list = ArrayBuilder::new().build();
    assert!(!modify_telemetry_ids(&mut list));
}

#[test]
fn a_second_run_finds_the_same_fields() {
    let mut document = ObjectBuilder::new()
        .with("augment", ObjectBuilder::new().with_text("deviceId", "old").build())
        .with_text("machineId", "m")
        .with_text("other", "x")
        .build();
    assert!(modify_telemetry_ids(&mut document));
    let first_device = text_at(&document, &["augment", "deviceId"]).to_string();
    let first_machine = text_at(&document, &["machineId"]).to_string();
    assert!(modify_telemetry_ids(&mut document));
    let second_device = text_at(&document, &["augment", "deviceId"]);
    let second_machine = text_at(&document, &["machineId"]);
    assert!(is_hex32(second_device));
    assert!(is_uuid(second_machine));
    assert_ne!(first_device, second_device);
    assert_ne!(first_machine, second_machine);
    assert_eq!(text_at(&document, &["other"]), "x");
}

#[test]
fn the_list_of_names_is_given() {
    let fields = vec!["serial".to_string(), "Badge".to_string()];
    let mut document = ObjectBuilder::new()
        .with_text("SERIAL", "1")
        .with_text("badge", "2")
        .with_text("installationId", "3")
        .with_text("deviceId", "4")
        .build();
    assert!(modify_json_recursive(&mut document, &fields));
    assert!(is_hex32(text_at(&document, &["SERIAL"])));
    assert!(is_hex32(text_at(&document, &["badge"])));
    assert_eq!(text_at(&document, &["installationId"]), "3");
    assert!(is_hex32(text_at(&document, &["deviceId"])));
}

#[test]
fn the_marks_count_without_any_names() {
    let mut document = ObjectBuilder::new().with_text("deviceId", "4").with_text("x", "5").build();
    assert!(modify_json_recursive(&mut document, &vec![]));
    assert!(is_hex32(text_at(&document, &["deviceId"])));
    assert_eq!(text_at(&document, &["x"]), "5");
}

#[test]
fn lowered_names_are_used_as_they_are() {
    let lowered = vec!["serial".to_string()];
    let mut document = ObjectBuilder::new().with_text("Serial", "1").build();
    assert!(rewrite_identifiers(&mut document, &lowered));
    let upper = vec!["SERIAL".to_string()];
    let mut document = ObjectBuilder::new().with_text("Serial", "1").build();
    assert!(!rewrite_identifiers(&mut document, &upper));
}

#[test]
fn default_names() {
    let fields = default_telemetry_fields();
    assert_eq!(
        fields,
        vec![
            "telemetryMachineId",
            "machineId",
            "deviceId",
            "sessionId",
            "userId",
            "installationId",
            "sqmUserId",
            "sqmMachineId",
            "telemetry.machineId",
            "telemetry.deviceId",
            "telemetry.sessionId",
            "cursor.deviceId",
            "cursor.userId",
            "cursor.sessionId",
            "augment.deviceId",
            "augment.userId",
            "augment.sessionId",
        ]
    );
}

#[test]
fn names_are_lowered_in_order() {
    let lowered = lowered_fields(&vec!["DeviceId".to_string(), "ÄB".to_string()]);
    assert_eq!(lowered, vec!["deviceid", "äb"]);
}

#[test]
fn candidates_by_lowered_name() {
    let names = vec!["installationid".to_string()];
    assert!(lowered_key_is_candidate("installationid", &names));
    assert!(!lowered_key_is_candidate("installationid", &vec![]));
    assert!(!lowered_key_is_candidate("installation", &names));
    assert!(lowered_key_is_candidate("xmachineidx", &vec![]));
    assert!(lowered_key_is_candidate("deviceid", &vec![]));
    assert!(lowered_key_is_candidate("the.sessionid", &vec![]));
    assert!(lowered_key_is_candidate("userid2", &vec![]));
    assert!(lowered_key_is_candidate("telemetry", &vec![]));
    assert!(!lowered_key_is_candidate("DEVICEID", &vec![]));
    assert!(!lowered_key_is_candidate("", &vec![]));
    assert!(!lowered_key_is_candidate("machine", &vec![]));
}

#[test]
fn candidates_by_name_in_any_case() {
    let fields = default_telemetry_fields();
    assert!(is_telemetry_key("INSTALLATIONID", &fields));
    assert!(is_telemetry_key("deviceId", &fields));
    assert!(is_telemetry_key("Telemetry.Enabled", &fields));
    assert!(!is_telemetry_key("other", &fields));
    assert!(!is_telemetry_key("installationId", &vec![]));
}

#[test]
fn machine_names_want_a_uuid() {
    assert!(lowered_key_wants_uuid("machineid"));
    assert!(lowered_key_wants_uuid("the machine"));
    assert!(!lowered_key_wants_uuid("MACHINE"));
    assert!(!lowered_key_wants_uuid("deviceid"));
}

#[test]
fn replacements_by_kind_of_name() {
    assert!(is_uuid(&generate_replacement("MachineId")));
    assert!(is_uuid(&generate_replacement("telemetryMACHINEid")));
    assert!(is_hex32(&generate_replacement("deviceId")));
    assert!(is_hex32(&generate_replacement("")));
}

#[test]
fn random_id_has_the_length_asked_for() {
    assert_eq!(generate_random_id(0), "");
    let id = generate_random_id(48);
    assert_eq!(id.len(), 48);
    assert!(id.chars().all(|c| matches!(c, '0'..='9' | 'a'..='f')));
    assert_ne!(generate_random_id(32), generate_random_id(32));
}

#[test]
fn a_document_that_changes_is_backed_up_and_written() {
    let document = ObjectBuilder::new()
        .with("augment", ObjectBuilder::new().with_text("deviceId", "old").build())
        .with_text("other", "x")
        .build();
    match plan_mutation(document) {
        MutationStep::BackupThenWrite(rewrite) => {
            assert!(is_hex32(text_at(&rewrite, &["augment", "deviceId"])));
            assert_eq!(text_at(&rewrite, &["other"]), "x");
        }
        MutationStep::Skip => panic!("the document was passed over"),
    }
}

#[test]
fn a_document_that_does_not_change_is_passed_over() {
    let document = ObjectBuilder::new().with_text("other", "x").build();
    assert!(matches!(plan_mutation(document), MutationStep::Skip));
    assert!(matches!(plan_mutation(JsonValue::Null), MutationStep::Skip));
}

#[test]
fn files_that_hold_the_identifier_of_the_machine() {
    assert!(is_machine_id_file("machineId"));
    assert!(is_machine_id_file("machine-id"));
    assert!(is_machine_id_file("my.MACHINEID.txt"));
    assert!(!is_machine_id_file("Machine-Id"));
    assert!(!is_machine_id_file("machine_id"));
    assert!(!is_machine_id_file(""));
    assert!(lowered_name_is_machine_id("X", "machineid"));
    assert!(!lowered_name_is_machine_id("machineid", "x"));
    assert!(lowered_name_is_machine_id("machine-id", ""));
}

#[test]
fn files_that_are_taken_for_json() {
    assert!(is_json_file("a.json"));
    assert!(is_json_file("a.b.json"));
    assert!(is_json_file("..json"));
    assert!(!is_json_file(".json"));
    assert!(!is_json_file("json"));
    assert!(!is_json_file("a.JSON"));
    assert!(!is_json_file("a.json.bak"));
    assert!(!is_json_file(""));
}
