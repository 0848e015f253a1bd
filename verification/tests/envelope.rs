use imagind::{
    decode_batch, CommandType, EnvelopeField, GameEventDTO, JsonValue, SchemaError, SchemaVersion,
};

fn text_of(text: &str) -> JsonValue {
    JsonValue::Text(text.to_string())
}

fn record_of(entries: Vec<(&str, JsonValue)>) -> JsonValue {
    JsonValue::Object(entries.into_iter().map(|(name, value)| (name.to_string(), value)).collect())
}

fn malformed(field: EnvelopeField) -> SchemaError {
    SchemaError::MalformedEnvelope { field }
}

fn early_record() -> Vec<(&'static str, JsonValue)> {
    vec![
        ("agentId", text_of("char_39322")),
        ("commandType", text_of("look_around")),
        (
            "description",
            JsonValue::Array(vec![text_of("You look around."), text_of("A tavern...")]),
        ),
    ]
}

fn later_record() -> Vec<(&'static str, JsonValue)> {
    vec![
        ("agentId", text_of("char_7")),
        ("agentName", text_of("Spark")),
        ("commandType", text_of("attack_agent")),
        ("generalDescription", text_of("Spark swings wildly.")),
        ("extraDetail", JsonValue::Array(vec![text_of("You take 3 damage.")])),
    ]
}

fn without(entries: Vec<(&'static str, JsonValue)>, name: &str) -> Vec<(&'static str, JsonValue)> {
    entries.into_iter().filter(|(key, _)| *key != name).collect()
}

fn with(
    entries: Vec<(&'static str, JsonValue)>,
    name: &'static str,
    value: JsonValue,
) -> Vec<(&'static str, JsonValue)> {
    let mut entries = without(entries, name);
    entries.push((name, value));
    entries
}

#[test]
fn early_record_is_read_whole() {
    let event = GameEventDTO::from_record(&record_of(early_record()), SchemaVersion::Early);
    assert_eq!(
        event,
        Ok(GameEventDTO {
            agent_id: "char_39322".to_string(),
            agent_name: None,
            command_type: CommandType::LookAround,
            command_arguments: vec![],
            general_description: vec!["You look around.".to_string(), "A tavern...".to_string()],
            extra_detail: None,
        })
    );
}

#[test]
fn later_record_is_read_whole() {
    let event = GameEventDTO::from_record(&record_of(later_record()), SchemaVersion::Later);
    assert_eq!(
        event,
        Ok(GameEventDTO {
            agent_id: "char_7".to_string(),
            agent_name: Some("Spark".to_string()),
            command_type: CommandType::AttackAgent,
            command_arguments: vec![],
            general_description: vec!["Spark swings wildly.".to_string()],
            extra_detail: Some(vec!["You take 3 damage.".to_string()]),
        })
    );
}

#[test]
fn single_text_narrative_is_one_line_equal_to_the_text() {
    for line in ["Spark swings wildly.", "", "  padded  ", "two\nrows"] {
        for (version, name) in
            [(SchemaVersion::Early, "description"), (SchemaVersion::Later, "generalDescription")]
        {
            let record = record_of(vec![
                ("agentId", text_of("a")),
                ("commandType", text_of("wait")),
                (name, text_of(line)),
            ]);
            let event = GameEventDTO::from_record(&record, version).expect("a valid record");
            assert_eq!(event.general_description, vec![line.to_string()]);
        }
    }
}

#[test]
fn listed_narrative_keeps_its_lines_as_they_are() {
    let lines = vec![" z last ", "a first", "", "a first", "M"];
    let record = record_of(with(
        early_record(),
        "description",
        JsonValue::Array(lines.iter().map(|line| text_of(line)).collect()),
    ));
    let event = GameEventDTO::from_record(&record, SchemaVersion::Early).expect("a valid record");
    assert_eq!(
        event.general_description,
        lines.iter().map(|line| line.to_string()).collect::<Vec<String>>()
    );
}

#[test]
fn narrative_goes_by_the_name_of_the_schema_version() {
    assert_eq!(
        GameEventDTO::from_record(&record_of(early_record()), SchemaVersion::Later),
        Err(malformed(EnvelopeField::Narrative))
    );
    assert_eq!(
        GameEventDTO::from_record(&record_of(later_record()), SchemaVersion::Early),
        Err(malformed(EnvelopeField::Narrative))
    );
    assert_eq!(EnvelopeField::Narrative.wire_name(SchemaVersion::Early), "description");
    assert_eq!(EnvelopeField::Narrative.wire_name(SchemaVersion::Later), "generalDescription");
}

#[test]
fn fields_have_their_wire_names() {
    for version in [SchemaVersion::Early, SchemaVersion::Later] {
        assert_eq!(EnvelopeField::AgentId.wire_name(version), "agentId");
        assert_eq!(EnvelopeField::AgentName.wire_name(version), "agentName");
        assert_eq!(EnvelopeField::CommandType.wire_name(version), "commandType");
        assert_eq!(EnvelopeField::CommandArguments.wire_name(version), "commandArguments");
        assert_eq!(EnvelopeField::ExtraDetail.wire_name(version), "extraDetail");
    }
}

#[test]
fn missing_agent_id_is_a_hard_failure() {
    let record = record_of(without(later_record(), "agentId"));
    assert_eq!(
        GameEventDTO::from_record(&record, SchemaVersion::Later),
        Err(malformed(EnvelopeField::AgentId))
    );
}

#[test]
fn agent_id_must_be_a_text_that_is_not_empty() {
    for bad in [text_of(""), JsonValue::Null, JsonValue::Bool(true), JsonValue::Array(vec![])] {
        let record = record_of(with(later_record(), "agentId", bad));
        assert_eq!(
            GameEventDTO::from_record(&record, SchemaVersion::Later),
            Err(malformed(EnvelopeField::AgentId))
        );
    }
}

#[test]
fn missing_agent_name_is_tolerated_and_the_id_is_the_label() {
    for entries in [
        without(later_record(), "agentName"),
        with(later_record(), "agentName", JsonValue::Null),
    ] {
        let event = GameEventDTO::from_record(&record_of(entries), SchemaVersion::Later)
            .expect("a valid record");
        assert_eq!(event.agent_name, None);
        assert_eq!(event.label(), "char_7");
    }
    let named = GameEventDTO::from_record(&record_of(later_record()), SchemaVersion::Later)
        .expect("a valid record");
    assert_eq!(named.label(), "Spark");
}

#[test]
fn agent_name_that_is_no_text_is_malformed() {
    let record = record_of(with(later_record(), "agentName", JsonValue::Bool(false)));
    assert_eq!(
        GameEventDTO::from_record(&record, SchemaVersion::Later),
        Err(malformed(EnvelopeField::AgentName))
    );
}

#[test]
fn command_type_is_required_and_must_be_a_text() {
    for entries in [
        without(later_record(), "commandType"),
        with(later_record(), "commandType", JsonValue::Null),
        with(later_record(), "commandType", JsonValue::Array(vec![text_of("wait")])),
    ] {
        assert_eq!(
            GameEventDTO::from_record(&record_of(entries), SchemaVersion::Later),
            Err(malformed(EnvelopeField::CommandType))
        );
    }
}

#[test]
fn unknown_command_token_is_a_schema_mismatch() {
    let record = record_of(with(later_record(), "commandType", text_of("teleport_agent")));
    assert_eq!(
        GameEventDTO::from_record(&record, SchemaVersion::Later),
        Err(SchemaError::SchemaMismatch { token: "teleport_agent".to_string() })
    );
}

#[test]
fn arguments_are_kept_as_they_are() {
    let nested = JsonValue::from_text(
        "{\"target\": \"char_9\", \"force\": 3, \"tags\": [true, null, {\"k\": 1.5}]}",
    )
    .expect("valid text");
    let record = record_of(with(later_record(), "commandArguments", nested.clone()));
    let event = GameEventDTO::from_record(&record, SchemaVersion::Later).expect("a valid record");
    assert_eq!(JsonValue::Object(event.command_arguments.clone()), nested);
    assert_eq!(event.argument("target"), Some(&text_of("char_9")));
    assert_eq!(event.argument("force"), nested.field("force"));
    assert_eq!(event.argument("tags"), nested.field("tags"));
    assert_eq!(event.argument("absent"), None);
}

#[test]
fn absent_arguments_are_an_empty_mapping() {
    for entries in [
        without(later_record(), "commandArguments"),
        with(later_record(), "commandArguments", JsonValue::Null),
        with(later_record(), "commandArguments", JsonValue::Object(vec![])),
    ] {
        let event = GameEventDTO::from_record(&record_of(entries), SchemaVersion::Later)
            .expect("a valid record");
        assert_eq!(event.command_arguments, vec![]);
        assert_eq!(event.argument("target"), None);
    }
}

#[test]
fn arguments_that_are_no_record_are_malformed() {
    for bad in [text_of("x"), JsonValue::Array(vec![]), JsonValue::Bool(true)] {
        let record = record_of(with(later_record(), "commandArguments", bad));
        assert_eq!(
            GameEventDTO::from_record(&record, SchemaVersion::Later),
            Err(malformed(EnvelopeField::CommandArguments))
        );
    }
}

#[test]
fn the_last_of_two_arguments_of_one_name_counts() {
    let event = GameEventDTO {
        agent_id: "a".to_string(),
        agent_name: None,
        command_type: CommandType::Wait,
        command_arguments: vec![
            ("k".to_string(), text_of("old")),
            ("k".to_string(), text_of("new")),
        ],
        general_description: vec!["line".to_string()],
        extra_detail: None,
    };
    assert_eq!(event.argument("k"), Some(&text_of("new")));
    assert!(!event.is_well_formed());
}

#[test]
fn arguments_that_name_something_twice_keep_the_last_entry_of_each_name() {
    let arguments = record_of(vec![
        ("k", text_of("old")),
        ("a", text_of("1")),
        ("k", text_of("newer")),
        ("b", JsonValue::Null),
        ("k", text_of("new")),
        ("a", text_of("2")),
    ]);
    let record = record_of(with(later_record(), "commandArguments", arguments));
    let event = GameEventDTO::from_record(&record, SchemaVersion::Later).expect("a valid record");
    assert_eq!(
        event.command_arguments,
        vec![
            ("b".to_string(), JsonValue::Null),
            ("k".to_string(), text_of("new")),
            ("a".to_string(), text_of("2")),
        ]
    );
    assert_eq!(event.argument("k"), Some(&text_of("new")));
    assert_eq!(event.argument("a"), Some(&text_of("2")));
    assert_eq!(event.argument("b"), Some(&JsonValue::Null));
    assert!(event.is_well_formed());
}

#[test]
fn narrative_is_required_and_never_empty() {
    for entries in [
        without(later_record(), "generalDescription"),
        with(later_record(), "generalDescription", JsonValue::Null),
        with(later_record(), "generalDescription", JsonValue::Array(vec![])),
        with(later_record(), "generalDescription", JsonValue::Bool(true)),
        with(
            later_record(),
            "generalDescription",
            JsonValue::Array(vec![text_of("fine"), JsonValue::Null]),
        ),
    ] {
        assert_eq!(
            GameEventDTO::from_record(&record_of(entries), SchemaVersion::Later),
            Err(malformed(EnvelopeField::Narrative))
        );
    }
}

#[test]
fn extra_detail_is_optional_and_a_list_of_texts() {
    let absent = GameEventDTO::from_record(
        &record_of(without(later_record(), "extraDetail")),
        SchemaVersion::Later,
    )
    .expect("a valid record");
    assert_eq!(absent.extra_detail, None);
    let null = GameEventDTO::from_record(
        &record_of(with(later_record(), "extraDetail", JsonValue::Null)),
        SchemaVersion::Later,
    )
    .expect("a valid record");
    assert_eq!(null.extra_detail, None);
    let empty = GameEventDTO::from_record(
        &record_of(with(later_record(), "extraDetail", JsonValue::Array(vec![]))),
        SchemaVersion::Later,
    )
    .expect("a valid record");
    assert_eq!(empty.extra_detail, Some(vec![]));
    let two = GameEventDTO::from_record(
        &record_of(with(
            later_record(),
            "extraDetail",
            JsonValue::Array(vec![text_of("b"), text_of("a")]),
        )),
        SchemaVersion::Later,
    )
    .expect("a valid record");
    assert_eq!(two.extra_detail, Some(vec!["b".to_string(), "a".to_string()]));
    for bad in [
        text_of("one line"),
        JsonValue::Array(vec![JsonValue::Bool(true)]),
        JsonValue::Object(vec![]),
    ] {
        assert_eq!(
            GameEventDTO::from_record(
                &record_of(with(later_record(), "extraDetail", bad)),
                SchemaVersion::Later
            ),
            Err(malformed(EnvelopeField::ExtraDetail))
        );
    }
}

#[test]
fn what_is_no_record_lacks_its_agent_id() {
    for value in [JsonValue::Null, text_of("event"), JsonValue::Array(vec![])] {
        assert_eq!(
            GameEventDTO::from_record(&value, SchemaVersion::Early),
            Err(malformed(EnvelopeField::AgentId))
        );
    }
}

#[test]
fn unknown_token_is_reported_whatever_else_is_wrong_with_the_record() {
    let mismatch = Err(SchemaError::SchemaMismatch { token: "teleport_agent".to_string() });
    let record = record_of(vec![("commandType", text_of("teleport_agent"))]);
    assert_eq!(GameEventDTO::from_record(&record, SchemaVersion::Later), mismatch);
    assert_eq!(GameEventDTO::from_record(&record, SchemaVersion::Early), mismatch);
    let record = record_of(vec![
        ("agentName", JsonValue::Bool(true)),
        ("commandType", text_of("teleport_agent")),
        ("commandArguments", text_of("x")),
    ]);
    assert_eq!(GameEventDTO::from_record(&record, SchemaVersion::Later), mismatch);
    let record = record_of(vec![
        ("agentId", text_of("")),
        ("agentName", JsonValue::Bool(true)),
        ("commandType", text_of("teleport_agent")),
        ("generalDescription", JsonValue::Array(vec![])),
        ("extraDetail", text_of("x")),
    ]);
    assert_eq!(GameEventDTO::from_record(&record, SchemaVersion::Later), mismatch);
    for token in ["Look_Around", "look around", ""] {
        let record = record_of(vec![("commandType", text_of(token))]);
        assert_eq!(
            GameEventDTO::from_record(&record, SchemaVersion::Later),
            Err(SchemaError::SchemaMismatch { token: token.to_string() })
        );
    }
}

#[test]
fn the_first_faulty_field_in_field_order_is_reported() {
    let record = record_of(vec![
        ("agentName", JsonValue::Bool(true)),
        ("commandType", JsonValue::Bool(true)),
        ("commandArguments", text_of("x")),
    ]);
    assert_eq!(
        GameEventDTO::from_record(&record, SchemaVersion::Later),
        Err(malformed(EnvelopeField::AgentId))
    );
    let record = record_of(vec![
        ("agentId", text_of("a")),
        ("agentName", JsonValue::Bool(true)),
        ("commandArguments", text_of("x")),
    ]);
    assert_eq!(
        GameEventDTO::from_record(&record, SchemaVersion::Later),
        Err(malformed(EnvelopeField::AgentName))
    );
    let record = record_of(vec![
        ("agentId", text_of("a")),
        ("commandType", JsonValue::Null),
        ("commandArguments", text_of("x")),
    ]);
    assert_eq!(
        GameEventDTO::from_record(&record, SchemaVersion::Later),
        Err(malformed(EnvelopeField::CommandType))
    );
    let record = record_of(vec![
        ("agentId", text_of("a")),
        ("commandType", text_of("wait")),
        ("commandArguments", text_of("x")),
    ]);
    assert_eq!(
        GameEventDTO::from_record(&record, SchemaVersion::Later),
        Err(malformed(EnvelopeField::CommandArguments))
    );
    let record = record_of(vec![
        ("agentId", text_of("a")),
        ("commandType", text_of("wait")),
        ("extraDetail", text_of("x")),
    ]);
    assert_eq!(
        GameEventDTO::from_record(&record, SchemaVersion::Later),
        Err(malformed(EnvelopeField::Narrative))
    );
}

fn full_event() -> GameEventDTO {
    GameEventDTO {
        agent_id: "char_7".to_string(),
        agent_name: Some("Spark".to_string()),
        command_type: CommandType::GiveItemToAgent,
        command_arguments: vec![
            ("item".to_string(), text_of("lamp")),
            ("count".to_string(), JsonValue::Number(serde_json::Number::from(2u64))),
            (
                "to".to_string(),
                record_of(vec![("id", text_of("char_9")), ("near", JsonValue::Bool(true))]),
            ),
        ],
        general_description: vec![
            "Spark hands over the lamp.".to_string(),
            " It glows. ".to_string(),
        ],
        extra_detail: Some(vec!["You hold a lamp.".to_string()]),
    }
}

#[test]
fn record_of_an_envelope_reads_back_as_the_envelope() {
    let bare = GameEventDTO {
        agent_id: "a".to_string(),
        agent_name: None,
        command_type: CommandType::Wait,
        command_arguments: vec![],
        general_description: vec!["".to_string()],
        extra_detail: None,
    };
    let mut no_extra_lines = full_event();
    no_extra_lines.extra_detail = Some(vec![]);
    for event in [full_event(), bare, no_extra_lines] {
        for version in [SchemaVersion::Early, SchemaVersion::Later] {
            let record = event.to_record(version);
            assert_eq!(GameEventDTO::from_record(&record, version), Ok(event.clone()));
        }
    }
}

#[test]
fn record_holds_the_six_fields_under_their_names() {
    let event = full_event();
    let record = event.to_record(SchemaVersion::Later);
    assert_eq!(record.field("agentId"), Some(&text_of("char_7")));
    assert_eq!(record.field("agentName"), Some(&text_of("Spark")));
    assert_eq!(record.field("commandType"), Some(&text_of("give_item_to_agent")));
    assert_eq!(
        record.field("commandArguments"),
        Some(&JsonValue::Object(event.command_arguments.clone()))
    );
    assert_eq!(
        record.field("generalDescription"),
        Some(&JsonValue::Array(vec![
            text_of("Spark hands over the lamp."),
            text_of(" It glows. "),
        ]))
    );
    assert_eq!(
        record.field("extraDetail"),
        Some(&JsonValue::Array(vec![text_of("You hold a lamp.")]))
    );
    assert_eq!(record.field("description"), None);
    let early = event.to_record(SchemaVersion::Early);
    assert_eq!(early.field("description"), record.field("generalDescription"));
    assert_eq!(early.field("generalDescription"), None);
    let mut bare = full_event();
    bare.agent_name = None;
    bare.extra_detail = None;
    let record = bare.to_record(SchemaVersion::Later);
    assert_eq!(record.field("agentName"), Some(&JsonValue::Null));
    assert_eq!(record.field("extraDetail"), Some(&JsonValue::Null));
}

#[test]
fn record_of_an_envelope_that_is_not_well_formed_cannot_be_read() {
    let mut nameless = full_event();
    nameless.agent_id = String::new();
    assert_eq!(
        GameEventDTO::from_record(&nameless.to_record(SchemaVersion::Later), SchemaVersion::Later),
        Err(malformed(EnvelopeField::AgentId))
    );
    let mut silent = full_event();
    silent.general_description = vec![];
    assert_eq!(
        GameEventDTO::from_record(&silent.to_record(SchemaVersion::Early), SchemaVersion::Early),
        Err(malformed(EnvelopeField::Narrative))
    );
}

#[test]
fn envelopes_that_are_read_are_well_formed() {
    let early = GameEventDTO::from_record(&record_of(early_record()), SchemaVersion::Early)
        .expect("a valid record");
    assert!(early.is_well_formed());
    let later = GameEventDTO::from_record(&record_of(later_record()), SchemaVersion::Later)
        .expect("a valid record");
    assert!(later.is_well_formed());
    let mut broken = later.clone();
    broken.agent_id = String::new();
    assert!(!broken.is_well_formed());
    let mut silent = later;
    silent.general_description = vec![];
    assert!(!silent.is_well_formed());
}

#[test]
fn batch_keeps_the_order_of_its_records() {
    let records = vec![
        record_of(with(later_record(), "agentId", text_of("first"))),
        record_of(with(later_record(), "agentId", text_of("second"))),
        record_of(with(later_record(), "agentId", text_of("third"))),
    ];
    let batch = decode_batch(&records, SchemaVersion::Later).expect("a valid batch");
    let ids: Vec<&str> = batch.iter().map(|event| event.agent_id.as_str()).collect();
    assert_eq!(ids, vec!["first", "second", "third"]);
    assert_eq!(decode_batch(&vec![], SchemaVersion::Later), Ok(vec![]));
}

#[test]
fn batch_is_rejected_with_its_first_fault() {
    let records = vec![
        record_of(later_record()),
        record_of(with(later_record(), "commandType", text_of("teleport_agent"))),
        record_of(without(later_record(), "agentId")),
    ];
    assert_eq!(
        decode_batch(&records, SchemaVersion::Later),
        Err(SchemaError::SchemaMismatch { token: "teleport_agent".to_string() })
    );
    let records = vec![
        record_of(without(later_record(), "agentId")),
        record_of(with(later_record(), "commandType", text_of("teleport_agent"))),
    ];
    assert_eq!(
        decode_batch(&records, SchemaVersion::Later),
        Err(malformed(EnvelopeField::AgentId))
    );
}
