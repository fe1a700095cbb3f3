use game_events::document::Document;
use game_events::error::{DecodeError, SchemaMismatch};
use game_events::event::ServerEvent;
use game_events::number::Number;
use game_events::payload::{
    ActionType, EndType, PlayerDamageReceivedType, RequestMoveType, RoomDataType, RoundStartType,
    SessionIdType,
};
use game_events::schema::Field;
use game_events::types::{Command, GameState, PlayerData, PlayerInfo, RoomData, SessionId};
use game_events::json_text::{decode_parsed, decode_text, encode_text, read_document, write_document};

fn text(value: &str) -> Document {
    Document::Text(value.to_string())
}

fn number(literal: &str) -> Document {
    Document::Number(Number::parse(literal).unwrap())
}

fn object(members: Vec<(&str, Document)>) -> Document {
    Document::Object(members.into_iter().map(|(key, value)| (key.to_string(), value)).collect())
}

fn room() -> RoomData {
    RoomData(object(vec![("name", text("lobby")), ("maxPlayers", number("4"))]))
}

fn state() -> GameState {
    GameState(object(vec![("score", number("7")), ("board", Document::List(vec![]))]))
}

fn damage_event() -> ServerEvent {
    ServerEvent::PlayerDamageReceived {
        payload: PlayerDamageReceivedType {
            session_id: SessionId("abc".to_string()),
            damage: Number::parse("12.5").unwrap(),
            game_state: state(),
        },
    }
}

#[test]
fn a_document_is_read_from_its_text() {
    let document = read_document(
        " { \"a\" : null, \"b\": [true, false, -1.5, \"x\\ny\"], \"c\": {\"d\": 10} } ",
    );
    let expected = object(vec![
        ("a", Document::Null),
        (
            "b",
            Document::List(vec![Document::Bool(true), Document::Bool(false), number("-1.5"), text("x\ny")]),
        ),
        ("c", object(vec![("d", number("10"))])),
    ]);
    assert_eq!(document, Some(expected));
    assert_eq!(read_document("null"), Some(Document::Null));
    assert_eq!(read_document("\"abc\""), Some(text("abc")));
    assert_eq!(read_document("[]"), Some(Document::List(vec![])));
    assert_eq!(read_document("{}"), Some(Document::Object(vec![])));
}

#[test]
fn numbers_are_read_with_their_literal() {
    assert_eq!(read_document("0"), Some(number("0")));
    assert_eq!(read_document("-0"), Some(number("-0")));
    assert_eq!(read_document("12.50"), Some(number("12.50")));
    assert_eq!(read_document("1E5"), Some(number("1e+5")));
    assert_eq!(read_document("2e-3"), Some(number("2e-3")));
    assert_eq!(
        read_document("123456789012345678901234567890.5"),
        Some(number("123456789012345678901234567890.5"))
    );
}

#[test]
fn text_that_is_not_well_formed_gives_no_document() {
    for text in ["", "{", "{\"type\":", "[1,]", "{\"a\" 1}", "nul", "01", "1 2", "{'a': 1}", "\"abc"] {
        assert_eq!(read_document(text), None);
    }
}

#[test]
fn a_document_is_written_in_the_order_of_its_members() {
    let document = object(vec![
        ("z", Document::Null),
        ("a", Document::List(vec![Document::Bool(true), number("-1.5e+3"), text("x\"y")])),
        ("m", object(vec![])),
    ]);
    assert_eq!(
        write_document(&document),
        Some("{\"z\":null,\"a\":[true,-1.5e+3,\"x\\\"y\"],\"m\":{}}".to_string())
    );
    assert_eq!(write_document(&Document::Null), Some("null".to_string()));
    assert_eq!(write_document(&number("12.5")), Some("12.5".to_string()));
}

#[test]
fn a_written_document_reads_back() {
    let document = object(vec![
        ("name", text("lobby \u{e9}")),
        ("sizes", Document::List(vec![number("0"), number("-7"), number("0.125")])),
        ("nested", object(vec![("deep", Document::List(vec![object(vec![])]))])),
    ]);
    let written = write_document(&document).unwrap();
    assert_eq!(read_document(&written), Some(document));
}

#[test]
fn a_repeated_key_keeps_a_document_from_being_written() {
    let repeated = object(vec![("a", number("1")), ("b", number("2")), ("a", number("3"))]);
    assert_eq!(write_document(&repeated), None);
    let nested = Document::List(vec![object(vec![("inner", repeated)])]);
    assert_eq!(write_document(&nested), None);
    let event = ServerEvent::RoomData {
        payload: RoomDataType {
            room_data: RoomData(object(vec![("a", Document::Null), ("a", Document::Null)])),
        },
    };
    assert_eq!(encode_text(&event), None);
}

#[test]
fn read_keeps_the_last_member_of_a_repeated_key() {
    assert_eq!(
        read_document("{\"a\": 1, \"b\": 2, \"a\": 3}"),
        Some(object(vec![("a", number("3")), ("b", number("2"))]))
    );
}

#[test]
fn an_event_is_written_with_its_discriminator_first() {
    assert_eq!(
        encode_text(&damage_event()),
        Some(
            "{\"type\":\"player_damage_received\",\"payload\":{\"sessionId\":\"abc\",\"damage\":12.5,\"gameState\":{\"score\":7,\"board\":[]}}}"
                .to_string()
        )
    );
    assert_eq!(encode_text(&ServerEvent::GameStarted {}), Some("{\"type\":\"game_started\"}".to_string()));
    assert_eq!(
        encode_text(&ServerEvent::Error { payload: "room is full".to_string() }),
        Some("{\"type\":\"error\",\"payload\":\"room is full\"}".to_string())
    );
    assert_eq!(
        encode_text(&ServerEvent::Action { payload: ActionType::new() }),
        Some("{\"type\":\"action\",\"payload\":{\"commands\":[]}}".to_string())
    );
}

#[test]
fn the_written_keys_of_damage_are_camel_case() {
    let written = encode_text(&damage_event()).unwrap();
    let value: serde_json::Value = serde_json::from_str(&written).unwrap();
    let document = value.as_object().unwrap();
    let top: Vec<&str> = document.keys().map(|key| key.as_str()).collect();
    assert_eq!(top, vec!["type", "payload"]);
    assert_eq!(document["type"].as_str(), Some("player_damage_received"));
    let payload = document["payload"].as_object().unwrap();
    let keys: Vec<&str> = payload.keys().map(|key| key.as_str()).collect();
    assert_eq!(keys, vec!["sessionId", "damage", "gameState"]);
    assert_eq!(payload["sessionId"].as_str(), Some("abc"));
    assert_eq!(payload["damage"].as_f64(), Some(12.5f64));
    assert!(!written.contains("session_id"));
    assert!(!written.contains("game_state"));
}

#[test]
fn an_event_is_read_from_its_text() {
    assert_eq!(
        decode_text("{\"type\":\"round_started\",\"payload\":{\"startsAt\":1700000000000,\"roomData\":{\"name\":\"lobby\",\"maxPlayers\":4}}}"),
        Ok(ServerEvent::RoundStarted {
            payload: RoundStartType {
                starts_at: Number::parse("1700000000000").unwrap(),
                room_data: room(),
            },
        })
    );
    assert_eq!(
        decode_text("{\"payload\":{\"sessionId\":\"abc\"},\"type\":\"authenticated\"}"),
        Ok(ServerEvent::Authenticated {
            payload: SessionIdType { session_id: SessionId("abc".to_string()) },
        })
    );
    assert_eq!(
        decode_text("{\"type\":\"request_move\",\"payload\":{\"gameState\":null,\"players\":[{\"name\":\"ann\"},7]}}"),
        Ok(ServerEvent::RequestMove {
            payload: RequestMoveType {
                game_state: GameState(Document::Null),
                players: vec![PlayerData(object(vec![("name", text("ann"))])), PlayerData(number("7"))],
            },
        })
    );
    assert_eq!(
        decode_text("{\"type\":\"action\",\"payload\":{\"commands\":[\"left\",\"drop\"]}}"),
        Ok(ServerEvent::Action {
            payload: ActionType { commands: vec![Command(text("left")), Command(text("drop"))] },
        })
    );
}

#[test]
fn numeric_fields_take_integral_and_fractional_numbers() {
    for (literal, kept) in [("0", "0"), ("-3", "-3"), ("12.5", "12.5"), ("1.0", "1.0"), ("2E3", "2e+3")] {
        let text = format!(
            "{{\"type\":\"player_damage_received\",\"payload\":{{\"sessionId\":\"abc\",\"damage\":{},\"gameState\":null}}}}",
            literal
        );
        assert_eq!(
            decode_text(&text),
            Ok(ServerEvent::PlayerDamageReceived {
                payload: PlayerDamageReceivedType {
                    session_id: SessionId("abc".to_string()),
                    damage: Number::parse(kept).unwrap(),
                    game_state: GameState(Document::Null),
                },
            })
        );
    }
}

#[test]
fn every_written_event_reads_back_from_its_text() {
    let events = vec![
        damage_event(),
        ServerEvent::GameStarted {},
        ServerEvent::Error { payload: "a \"quoted\" word\n".to_string() },
        ServerEvent::RoundOver {
            payload: EndType {
                winner_id: SessionId("abc".to_string()),
                winner_info: PlayerInfo(object(vec![("name", text("ann"))])),
                room_data: room(),
            },
        },
        ServerEvent::Action { payload: ActionType::new() },
    ];
    for event in events {
        let written = encode_text(&event).unwrap();
        assert_eq!(decode_text(&written), Ok(event));
    }
}

#[test]
fn game_started_text_reads_and_writes_the_same() {
    let text = "{\"type\":\"game_started\"}";
    let event = decode_text(text).unwrap();
    assert_eq!(event, ServerEvent::GameStarted {});
    assert_eq!(encode_text(&event), Some(text.to_string()));
}

#[test]
fn malformed_text_is_told_from_a_schema_mismatch() {
    assert_eq!(decode_text("{\"type\":\"game_started\""), Err(DecodeError::MalformedDocument));
    assert_eq!(decode_text(""), Err(DecodeError::MalformedDocument));
    assert_eq!(decode_text("not json"), Err(DecodeError::MalformedDocument));
    assert_eq!(
        decode_text("{\"type\":\"game_paused\"}"),
        Err(DecodeError::SchemaMismatch(SchemaMismatch::UnknownDiscriminator("game_paused".to_string())))
    );
    assert_eq!(decode_text("[]"), Err(DecodeError::SchemaMismatch(SchemaMismatch::NotAnObject)));
    assert_eq!(decode_text("{}"), Err(DecodeError::SchemaMismatch(SchemaMismatch::MissingDiscriminator)));
    assert_eq!(
        decode_text("{\"type\":18}"),
        Err(DecodeError::SchemaMismatch(SchemaMismatch::InvalidDiscriminator(number("18"))))
    );
    assert_eq!(
        decode_text("{\"type\":\"round_started\",\"payload\":{\"roomData\":{}}}"),
        Err(DecodeError::SchemaMismatch(SchemaMismatch::MissingField(Field::StartsAt)))
    );
    assert_eq!(
        decode_text("{\"type\":\"round_started\",\"payload\":{\"startsAt\":\"soon\",\"roomData\":{}}}"),
        Err(DecodeError::SchemaMismatch(SchemaMismatch::InvalidField(Field::StartsAt)))
    );
    assert_eq!(
        decode_text("{\"type\":\"room_data\"}"),
        Err(DecodeError::SchemaMismatch(SchemaMismatch::MissingPayload))
    );
    assert_eq!(
        decode_text("{\"type\":\"room_data\",\"payload\":[]}"),
        Err(DecodeError::SchemaMismatch(SchemaMismatch::InvalidPayload))
    );
}

#[test]
fn a_parsed_text_is_decoded_as_its_document_is() {
    assert_eq!(decode_parsed(None), Err(DecodeError::MalformedDocument));
    assert_eq!(
        decode_parsed(Some(Document::Null)),
        Err(DecodeError::SchemaMismatch(SchemaMismatch::NotAnObject))
    );
    assert_eq!(
        decode_parsed(Some(object(vec![("type", text("game_started"))]))),
        Ok(ServerEvent::GameStarted {})
    );
}

#[test]
fn a_value_and_its_document_hold_the_same() {
    let value: serde_json::Value =
        serde_json::from_str("{\"b\":[1,2.5,null],\"a\":{\"x\":\"y\"},\"t\":true}").unwrap();
    let document = game_events::json_text::document_of(&value).unwrap();
    assert_eq!(
        document,
        object(vec![
            ("b", Document::List(vec![number("1"), number("2.5"), Document::Null])),
            ("a", object(vec![("x", text("y"))])),
            ("t", Document::Bool(true)),
        ])
    );
    assert_eq!(game_events::json_text::value_of(&document), Some(value));
}

#[test]
fn a_number_made_from_a_float_keeps_its_printed_literal() {
    let plain = serde_json::Value::Number(serde_json::Number::from_f64(12.5f64).unwrap());
    assert_eq!(game_events::json_text::document_of(&plain), Some(number("12.5")));
    let large = serde_json::Value::Number(serde_json::Number::from_f64(1e21f64).unwrap());
    assert_eq!(game_events::json_text::document_of(&large), Some(number(&large.to_string())));
    let whole = serde_json::Value::Number(serde_json::Number::from(42u64));
    assert_eq!(game_events::json_text::document_of(&whole), Some(number("42")));
    assert_eq!(game_events::json_text::value_of(&number("42")), Some(whole));
}

#[test]
fn escapes_are_read_as_the_characters_they_stand_for() {
    assert_eq!(read_document("\"\\u00e9\\t\\\\\\/\""), Some(text("\u{e9}\t\\/")));
    assert_eq!(read_document("\"\\ud83d\\ude00\""), Some(text("\u{1f600}")));
    assert_eq!(read_document("{\"k\\u0065y\": 1}"), Some(object(vec![("key", number("1"))])));
    assert_eq!(write_document(&text("a\u{e9}\n\u{1}")), Some("\"a\u{e9}\\n\\u0001\"".to_string()));
}

#[test]
fn nested_documents_keep_their_shape() {
    let mut document = Document::Null;
    for depth in 0..40 {
        document = if depth % 2 == 0 {
            Document::List(vec![document, Document::Bool(false)])
        } else {
            object(vec![("inner", document), ("depth", number("40"))])
        };
    }
    let written = write_document(&document).unwrap();
    assert_eq!(read_document(&written), Some(document));
}
