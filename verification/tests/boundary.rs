use wot_parser_lib::json::FieldValue;
use wot_parser_lib::outcome::{
    describe_stage, render_outcome, summary_record, Failure, ParseOutcome, Stage,
};
use wot_parser_lib::summary::MatchSummary;
use wot_parser_lib::{free_string, parse_outcome, parse_replay};

fn container_of(records: &[&[u8]], rest: &[u8]) -> Vec<u8> {
    let mut bytes = vec![0x12, 0x32, 0x34, 0x11];
    bytes.extend_from_slice(&(records.len() as u32).to_le_bytes());
    for record in records {
        bytes.extend_from_slice(&(record.len() as u32).to_le_bytes());
        bytes.extend_from_slice(record);
    }
    bytes.extend_from_slice(rest);
    bytes
}

const ACE_START: &[u8] = br#"{"playerName":"Ace","playerVehicle":"T-34","mapDisplayName":"Prokhorovka","dateTime":"2024-01-01 10:00:00","serverName":"EU","clientVersionFromXml":"1.20.0","damageDealt":450}"#;

const ACE_TEXT: &str = r#"{
  "path": "replays/ace.wotreplay",
  "playerName": "Ace",
  "tank": "T-34",
  "map": "Prokhorovka",
  "date": "2024-01-01 10:00:00",
  "damage": 450,
  "server": "EU",
  "version": "1.20.0"
}"#;

fn ace_summary() -> MatchSummary {
    MatchSummary {
        path: "replays/ace.wotreplay".to_string(),
        player_name: "Ace".to_string(),
        tank: "T-34".to_string(),
        map: "Prokhorovka".to_string(),
        date: "2024-01-01 10:00:00".to_string(),
        damage: 450,
        server: "EU".to_string(),
        version: "1.20.0".to_string(),
    }
}

#[test]
fn example_replay_gives_the_expected_text() {
    let bytes = container_of(&[ACE_START], &[0u8; 8]);
    assert_eq!(parse_replay("replays/ace.wotreplay", Ok(bytes)), ACE_TEXT);
}

#[test]
fn example_replay_gives_the_expected_outcome() {
    let bytes = container_of(&[ACE_START], &[0u8; 8]);
    assert_eq!(parse_outcome("replays/ace.wotreplay", Ok(bytes)), ParseOutcome::Summary(ace_summary()));
}

#[test]
fn example_text_reads_back_as_json() {
    let bytes = container_of(&[ACE_START], &[0u8; 8]);
    let text = parse_replay("replays/ace.wotreplay", Ok(bytes));
    let value: serde_json::Value = serde_json::from_str(&text).unwrap();
    let object = value.as_object().unwrap();
    let keys: Vec<&str> = object.keys().map(|k| k.as_str()).collect();
    assert_eq!(keys, vec!["path", "playerName", "tank", "map", "date", "damage", "server", "version"]);
    assert_eq!(object["path"].as_str(), Some("replays/ace.wotreplay"));
    assert_eq!(object["playerName"].as_str(), Some("Ace"));
    assert_eq!(object["tank"].as_str(), Some("T-34"));
    assert_eq!(object["map"].as_str(), Some("Prokhorovka"));
    assert_eq!(object["date"].as_str(), Some("2024-01-01 10:00:00"));
    assert_eq!(object["damage"].as_i64(), Some(450));
    assert!(object["damage"].is_number());
    assert_eq!(object["server"].as_str(), Some("EU"));
    assert_eq!(object["version"].as_str(), Some("1.20.0"));
}

#[test]
fn rendering_a_summary_writes_eight_fields_in_order() {
    assert_eq!(render_outcome(&ParseOutcome::Summary(ace_summary())), ACE_TEXT);
}

#[test]
fn rendering_a_summary_of_defaults() {
    let summary = MatchSummary {
        path: String::new(),
        player_name: String::new(),
        tank: String::new(),
        map: String::new(),
        date: String::new(),
        damage: 0,
        server: String::new(),
        version: String::new(),
    };
    let expected = "{\n  \"path\": \"\",\n  \"playerName\": \"\",\n  \"tank\": \"\",\n  \"map\": \"\",\n  \"date\": \"\",\n  \"damage\": 0,\n  \"server\": \"\",\n  \"version\": \"\"\n}";
    assert_eq!(render_outcome(&ParseOutcome::Summary(summary)), expected);
}

#[test]
fn rendering_escapes_texts_as_json_strings() {
    let mut summary = ace_summary();
    summary.path = "C:\\replays\\\"last\".wotreplay".to_string();
    summary.player_name = "line\nbreak\ttab\u{1}".to_string();
    summary.tank = "\u{5766}\u{514b}".to_string();
    summary.damage = i64::MIN;
    let text = render_outcome(&ParseOutcome::Summary(summary.clone()));
    assert!(text.contains("\"path\": \"C:\\\\replays\\\\\\\"last\\\".wotreplay\""));
    assert!(text.contains("\"playerName\": \"line\\nbreak\\ttab\\u0001\""));
    assert!(text.contains("\"tank\": \"\u{5766}\u{514b}\""));
    assert!(text.contains("\"damage\": -9223372036854775808,"));
    let value: serde_json::Value = serde_json::from_str(&text).unwrap();
    assert_eq!(value["path"].as_str(), Some(summary.path.as_str()));
    assert_eq!(value["playerName"].as_str(), Some(summary.player_name.as_str()));
    assert_eq!(value["tank"].as_str(), Some(summary.tank.as_str()));
    assert_eq!(value["damage"].as_i64(), Some(i64::MIN));
}

#[test]
fn summary_record_lists_the_fields_under_their_keys() {
    let fields = summary_record(&ace_summary());
    let expected = vec![
        ("path".to_string(), FieldValue::Text("replays/ace.wotreplay".to_string())),
        ("playerName".to_string(), FieldValue::Text("Ace".to_string())),
        ("tank".to_string(), FieldValue::Text("T-34".to_string())),
        ("map".to_string(), FieldValue::Text("Prokhorovka".to_string())),
        ("date".to_string(), FieldValue::Text("2024-01-01 10:00:00".to_string())),
        ("damage".to_string(), FieldValue::Integer(450)),
        ("server".to_string(), FieldValue::Text("EU".to_string())),
        ("version".to_string(), FieldValue::Text("1.20.0".to_string())),
    ];
    assert_eq!(fields, expected);
}

#[test]
fn rendering_a_failure_begins_with_its_stage() {
    let failure = |stage: Stage| ParseOutcome::Failure(Failure { stage, message: "the cause".to_string() });
    assert_eq!(render_outcome(&failure(Stage::PathText)), "Failed to convert CStr to str: the cause");
    assert_eq!(render_outcome(&failure(Stage::Read)), "Failed to parse replay: the cause");
    assert_eq!(render_outcome(&failure(Stage::Parse)), "Failed to parse replay: the cause");
    assert_eq!(render_outcome(&failure(Stage::StartRecord)), "Failed to get start JSON: the cause");
}

#[test]
fn rendering_a_failure_without_a_cause() {
    let outcome = ParseOutcome::Failure(Failure { stage: Stage::Parse, message: String::new() });
    assert_eq!(render_outcome(&outcome), "Failed to parse replay: ");
}

#[test]
fn stages_have_their_words() {
    assert_eq!(describe_stage(Stage::PathText), "Failed to convert CStr to str: ");
    assert_eq!(describe_stage(Stage::Read), "Failed to parse replay: ");
    assert_eq!(describe_stage(Stage::Parse), "Failed to parse replay: ");
    assert_eq!(describe_stage(Stage::StartRecord), "Failed to get start JSON: ");
}

#[test]
fn an_empty_file_gives_a_diagnostic_with_the_word_parse() {
    let text = parse_replay("empty.wotreplay", Ok(Vec::new()));
    assert_eq!(text, "Failed to parse replay: the file does not begin with the magic number of a replay");
    assert!(text.contains("parse"));
    assert!(!text.starts_with('{'));
    assert!(serde_json::from_str::<serde_json::Value>(&text).is_err());
}

#[test]
fn a_file_with_a_corrupt_header_gives_a_diagnostic_with_the_word_parse() {
    for bytes in [
        vec![0xde, 0xad],
        vec![0xff; 4],
        vec![0xff; 7],
        vec![0xff; 64],
        b"{\"playerName\":\"Ace\"}".to_vec(),
        vec![0x12, 0x32, 0x34, 0x11],
        vec![0x12, 0x32, 0x34, 0x11, 1, 0, 0],
        vec![0x12, 0x32, 0x34, 0x11, 0xff, 0xff, 0xff, 0x7f, 1, 0, 0, 0, b'{'],
        vec![0x12, 0x32, 0x34, 0x11, 1, 0, 0, 0, 0xff, 0xff, 0xff, 0xff, b'{', b'}'],
    ] {
        let text = parse_replay("corrupt.wotreplay", Ok(bytes));
        assert!(text.starts_with("Failed to parse replay: "));
        assert!(text.contains("parse"));
        assert!(!text.contains("\"path\""));
        assert!(serde_json::from_str::<serde_json::Value>(&text).is_err());
    }
}

#[test]
fn a_file_that_cannot_be_read_gives_a_diagnostic() {
    let cause = "IoError(Os { code: 2, kind: NotFound, message: \"No such file or directory\" })";
    let text = parse_replay("missing.wotreplay", Err(cause.to_string()));
    assert_eq!(text, format!("Failed to parse replay: {}", cause));
    assert_eq!(
        parse_outcome("missing.wotreplay", Err(cause.to_string())),
        ParseOutcome::Failure(Failure { stage: Stage::Read, message: cause.to_string() })
    );
}

#[test]
fn a_container_without_records_gives_the_start_diagnostic() {
    let text = parse_replay("none.wotreplay", Ok(container_of(&[], &[0u8; 8])));
    assert_eq!(
        text,
        "Failed to get start JSON: ReplayJsonFormatError(\"missing initial json object that is present in all replays\")"
    );
}

#[test]
fn damage_of_the_start_record_is_reported_when_it_is_not_zero() {
    let start = br#"{"playerName":"Ace","damageDealt":1203}"#;
    let end = br#"[{"personal":{"2849":{"damageDealt":77}}}]"#;
    let alone = parse_outcome("p", Ok(container_of(&[start], &[0u8; 8])));
    let both = parse_outcome("p", Ok(container_of(&[start, end], &[0u8; 8])));
    for outcome in [alone, both] {
        match outcome {
            ParseOutcome::Summary(summary) => assert_eq!(summary.damage, 1203),
            ParseOutcome::Failure(failure) => panic!("{:?}", failure),
        }
    }
}

#[test]
fn zero_damage_is_taken_from_the_first_vehicle_of_the_end_record() {
    let start = br#"{"playerName":"Ace","damageDealt":0}"#;
    let end = br#"[{"common":{},"personal":{"9999":{"damageDealt":777},"1111":{"damageDealt":5}}},{}]"#;
    match parse_outcome("p", Ok(container_of(&[start, end], &[0u8; 8]))) {
        ParseOutcome::Summary(summary) => assert_eq!(summary.damage, 777),
        ParseOutcome::Failure(failure) => panic!("{:?}", failure),
    }
    let swapped = br#"[{"common":{},"personal":{"1111":{"damageDealt":5},"9999":{"damageDealt":777}}},{}]"#;
    match parse_outcome("p", Ok(container_of(&[start, swapped], &[0u8; 8]))) {
        ParseOutcome::Summary(summary) => assert_eq!(summary.damage, 5),
        ParseOutcome::Failure(failure) => panic!("{:?}", failure),
    }
}

#[test]
fn a_replay_without_end_record_still_gives_a_summary() {
    let start = br#"{"playerName":"Ace","serverName":"EU"}"#;
    let text = parse_replay("mid/match.wotreplay", Ok(container_of(&[start], &[1u8; 100])));
    let expected = "{\n  \"path\": \"mid/match.wotreplay\",\n  \"playerName\": \"Ace\",\n  \"tank\": \"\",\n  \"map\": \"\",\n  \"date\": \"\",\n  \"damage\": 0,\n  \"server\": \"EU\",\n  \"version\": \"\"\n}";
    assert_eq!(text, expected);
}

#[test]
fn a_broken_end_record_still_gives_a_summary() {
    let start = br#"{"playerName":"Ace","damageDealt":0}"#;
    match parse_outcome("p", Ok(container_of(&[start, b"[{\"personal\""], &[0u8; 8]))) {
        ParseOutcome::Summary(summary) => {
            assert_eq!(summary.player_name, "Ace");
            assert_eq!(summary.damage, 0);
        }
        ParseOutcome::Failure(failure) => panic!("{:?}", failure),
    }
}

#[test]
fn texts_of_the_start_record_reach_the_output_unchanged() {
    let start = "{\"playerName\":\"\u{5766}\u{514b} \\\"Ace\\\" \\\\ \\u00e9\",\"clientVersionFromXml\":\"World\u{a0}of\u{a0}Tanks v.1.9.1.1 #378\"}";
    let text = parse_replay("p", Ok(container_of(&[start.as_bytes()], &[0u8; 8])));
    let value: serde_json::Value = serde_json::from_str(&text).unwrap();
    assert_eq!(value["playerName"].as_str(), Some("\u{5766}\u{514b} \"Ace\" \\ \u{e9}"));
    assert_eq!(value["version"].as_str(), Some("World\u{a0}of\u{a0}Tanks v.1.9.1.1 #378"));
}

#[test]
fn the_path_is_echoed() {
    let bytes = container_of(&[b"{}"], &[0u8; 8]);
    let text = parse_replay("C:\\Games\\replays\\last battle.wotreplay", Ok(bytes));
    let value: serde_json::Value = serde_json::from_str(&text).unwrap();
    assert_eq!(value["path"].as_str(), Some("C:\\Games\\replays\\last battle.wotreplay"));
}

#[test]
fn releasing_a_returned_text_empties_the_handle() {
    let bytes = container_of(&[ACE_START], &[0u8; 8]);
    let mut handle = Some(parse_replay("replays/ace.wotreplay", Ok(bytes)));
    assert!(handle.is_some());
    free_string(&mut handle);
    assert_eq!(handle, None);
}

#[test]
fn releasing_an_empty_handle_does_nothing() {
    let mut handle: Option<String> = None;
    free_string(&mut handle);
    assert_eq!(handle, None);
    free_string(&mut handle);
    assert_eq!(handle, None);
}

#[test]
fn calls_do_not_share_state() {
    let first = parse_replay("a", Ok(container_of(&[br#"{"playerName":"A","damageDealt":1}"#], &[0u8; 8])));
    let failed = parse_replay("b", Ok(Vec::new()));
    let second = parse_replay("a", Ok(container_of(&[br#"{"playerName":"A","damageDealt":1}"#], &[0u8; 8])));
    assert_eq!(first, second);
    assert!(failed.starts_with("Failed to parse replay: "));
}

#[test]
fn a_replay_of_a_finished_match_reports_the_damage_of_its_end_record() {
    let start = "{\"playerVehicle\": \"china-Ch44_114_SP2\", \"clientVersionFromXml\": \"World\\u00a0of\\u00a0Tanks v.1.16.1.0 #1202\", \"vehicles\": {\"9383726\": {\"isGodModeActive\": 0, \"vehicleType\": \"czech:Cz04_T50_51\", \"isAlive\": 1, \"personalMissionIDs\": [], \"personalMissionInfo\": {}}}, \"regionCode\": \"NA\", \"playerID\": 0, \"serverName\": \"US Central\", \"mapDisplayName\": \"Highway\", \"dateTime\": \"21.04.2022 01:17:47\", \"mapName\": \"11_murovanka\", \"gameplayID\": \"ctf\", \"battleType\": 1, \"hasMods\": false, \"playerName\": \"_Dacite\"}";
    let end = "[{\"arenaUniqueID\": 36643412784517925, \"personal\": {\"60977\": {\"eventEventCoinList\": [], \"markOfMastery\": 1, \"directHits\": 8, \"damageAssistedRadio\": 252, \"stunDuration\": 0.0, \"freeXPReplay\": null, \"damageDealt\": 4114, \"xp\": 1548}, \"avatar\": {\"avatarDamageDealt\": 0, \"damageDealt\": 12, \"totalDamaged\": 0}}, \"common\": {\"winnerTeam\": 1}}, {\"9383726\": {\"frags\": 0}}, {\"9383726\": {\"frags\": 0}}]";
    let mut packets = vec![0xf6, 0x4b, 0x4f, 0x00, 0xab, 0x5e, 0x17, 0x00];
    packets.extend((0..4096u32).map(|i| (i.wrapping_mul(2654435761) >> 13) as u8));
    let bytes = container_of(&[start.as_bytes(), end.as_bytes()], &packets);
    let expected = "{\n  \"path\": \"20220421_0117_china-Ch44_114_SP2_10_hills.wotreplay\",\n  \"playerName\": \"_Dacite\",\n  \"tank\": \"china-Ch44_114_SP2\",\n  \"map\": \"Highway\",\n  \"date\": \"21.04.2022 01:17:47\",\n  \"damage\": 4114,\n  \"server\": \"US Central\",\n  \"version\": \"World\u{a0}of\u{a0}Tanks v.1.16.1.0 #1202\"\n}";
    assert_eq!(parse_replay("20220421_0117_china-Ch44_114_SP2_10_hills.wotreplay", Ok(bytes)), expected);
}
