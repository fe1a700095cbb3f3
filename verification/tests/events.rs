use game_events::document::Document;
use game_events::error::SchemaMismatch;
use game_events::event::ServerEvent;
use game_events::number::Number;
use game_events::payload::{
    ActionType, EndType, PlayerActionType, PlayerDamageReceivedType, PlayerDataType,
    PlayerInfoType, RequestMoveType, RoomDataType, RoundStartType, SessionIdType,
};
use game_events::schema::{EventKind, Field};
use game_events::types::{
    Command, GameEvent, GameState, PlayerData, PlayerInfo, RoomData, SessionId,
};

fn text(value: &str) -> Document {
    Document::Text(value.to_string())
}

fn number(literal: &str) -> Document {
    Document::Number(Number::parse(literal).unwrap())
}

fn object(members: Vec<(&str, Document)>) -> Document {
    Document::Object(members.into_iter().map(|(key, value)| (key.to_string(), value)).collect())
}

fn room() -> RoomData {
    RoomData(object(vec![("name", text("lobby")), ("maxPlayers", number("4"))]))
}

fn player(name: &str) -> PlayerData {
    PlayerData(object(vec![("name", text(name)), ("ready", Document::Bool(true))]))
}

fn info(name: &str) -> PlayerInfo {
    PlayerInfo(object(vec![("name", text(name))]))
}

fn state() -> GameState {
    GameState(object(vec![("score", number("7")), ("board", Document::List(vec![]))]))
}

fn session(id: &str) -> SessionId {
    SessionId(id.to_string())
}

fn command(name: &str) -> Command {
    Command(text(name))
}

fn end() -> EndType {
    EndType { winner_id: session("abc"), winner_info: info("ann"), room_data: room() }
}

fn every_kind_of_event() -> Vec<ServerEvent> {
    vec![
        ServerEvent::RoomData { payload: RoomDataType { room_data: room() } },
        ServerEvent::Authenticated { payload: SessionIdType { session_id: session("abc") } },
        ServerEvent::Error { payload: "room is full".to_string() },
        ServerEvent::PlayerJoined { payload: PlayerDataType { player_data: player("ann") } },
        ServerEvent::PlayerLeft { payload: SessionIdType { session_id: session("") } },
        ServerEvent::PlayerBanned { payload: PlayerInfoType { player_info: info("bob") } },
        ServerEvent::PlayerUnbanned { payload: PlayerInfoType { player_info: info("bob") } },
        ServerEvent::SettingsChanged { payload: RoomDataType { room_data: RoomData(Document::Null) } },
        ServerEvent::HostChanged { payload: PlayerInfoType { player_info: info("ann") } },
        ServerEvent::GameStarted {},
        ServerEvent::RoundStarted {
            payload: RoundStartType { starts_at: Number::parse("1700000000000").unwrap(), room_data: room() },
        },
        ServerEvent::RequestMove {
            payload: RequestMoveType { game_state: state(), players: vec![player("ann"), player("bob")] },
        },
        ServerEvent::Action {
            payload: ActionType { commands: vec![command("left"), command("drop")] },
        },
        ServerEvent::PlayerAction {
            payload: PlayerActionType {
                session_id: session("abc"),
                commands: vec![command("rotate")],
                game_state: state(),
                events: vec![GameEvent(text("line_cleared")), GameEvent(number("2"))],
            },
        },
        ServerEvent::PlayerDamageReceived {
            payload: PlayerDamageReceivedType {
                session_id: session("abc"),
                damage: Number::parse("12.5").unwrap(),
                game_state: state(),
            },
        },
        ServerEvent::RoundOver { payload: end() },
        ServerEvent::GameOver { payload: end() },
        ServerEvent::GameReset { payload: RoomDataType { room_data: room() } },
    ]
}

fn event_document(tag: &str, payload: Document) -> Document {
    object(vec![("type", text(tag)), ("payload", payload)])
}

#[test]
fn every_kind_of_event_reads_back_as_it_was_written() {
    let events = every_kind_of_event();
    assert_eq!(events.len(), 18);
    for event in events {
        let document = event.encode();
        assert_eq!(ServerEvent::decode(&document), Ok(event));
    }
}

#[test]
fn boundary_payloads_read_back_as_they_were_written() {
    let events = vec![
        ServerEvent::Action { payload: ActionType::new() },
        ServerEvent::RequestMove {
            payload: RequestMoveType { game_state: GameState(Document::Null), players: vec![] },
        },
        ServerEvent::PlayerAction {
            payload: PlayerActionType {
                session_id: session(""),
                commands: vec![],
                game_state: state(),
                events: vec![],
            },
        },
        ServerEvent::RoundStarted {
            payload: RoundStartType { starts_at: Number::parse("0").unwrap(), room_data: room() },
        },
        ServerEvent::RoundStarted {
            payload: RoundStartType { starts_at: Number::parse("-5").unwrap(), room_data: room() },
        },
        ServerEvent::PlayerDamageReceived {
            payload: PlayerDamageReceivedType {
                session_id: session("abc"),
                damage: Number::parse("-0.75").unwrap(),
                game_state: state(),
            },
        },
        ServerEvent::Error { payload: String::new() },
    ];
    for event in events {
        let document = event.encode();
        assert_eq!(ServerEvent::decode(&document), Ok(event));
    }
}

#[test]
fn the_kind_of_an_event_is_that_of_its_variant() {
    let kinds: Vec<EventKind> = every_kind_of_event().iter().map(|event| event.kind()).collect();
    assert_eq!(kinds[0], EventKind::RoomData);
    assert_eq!(kinds[9], EventKind::GameStarted);
    assert_eq!(kinds[15], EventKind::RoundOver);
    assert_eq!(kinds[16], EventKind::GameOver);
    assert_eq!(kinds[17], EventKind::GameReset);
    for (i, left) in kinds.iter().enumerate() {
        for (j, right) in kinds.iter().enumerate() {
            assert_eq!(i == j, left == right);
        }
    }
}

#[test]
fn an_event_is_written_as_discriminator_and_payload() {
    let event = ServerEvent::RoundStarted {
        payload: RoundStartType { starts_at: Number::parse("12.5").unwrap(), room_data: room() },
    };
    let expected = object(vec![
        ("type", text("round_started")),
        ("payload", object(vec![("startsAt", number("12.5")), ("roomData", room().0)])),
    ]);
    assert_eq!(event.encode(), expected);
    assert_eq!(event.encode_payload(), Some(object(vec![("startsAt", number("12.5")), ("roomData", room().0)])));
}

#[test]
fn an_error_event_carries_its_text_as_payload() {
    let event = ServerEvent::Error { payload: "room is full".to_string() };
    assert_eq!(event.encode(), event_document("error", text("room is full")));
    assert_eq!(
        ServerEvent::decode(&event_document("error", number("3"))),
        Err(SchemaMismatch::InvalidPayload)
    );
    assert_eq!(
        ServerEvent::decode(&event_document("error", object(vec![]))),
        Err(SchemaMismatch::InvalidPayload)
    );
}

#[test]
fn an_unknown_discriminator_is_rejected_by_name() {
    for tag in ["game_paused", "", "RoomData", "roomData", "room_data ", "GAME_OVER"] {
        let document = event_document(tag, object(vec![("roomData", room().0)]));
        assert_eq!(
            ServerEvent::decode(&document),
            Err(SchemaMismatch::UnknownDiscriminator(tag.to_string()))
        );
    }
}

#[test]
fn a_document_without_a_usable_discriminator_is_rejected() {
    assert_eq!(ServerEvent::decode(&Document::Null), Err(SchemaMismatch::NotAnObject));
    assert_eq!(ServerEvent::decode(&text("game_started")), Err(SchemaMismatch::NotAnObject));
    assert_eq!(
        ServerEvent::decode(&Document::List(vec![text("game_started")])),
        Err(SchemaMismatch::NotAnObject)
    );
    assert_eq!(ServerEvent::decode(&object(vec![])), Err(SchemaMismatch::MissingDiscriminator));
    assert_eq!(
        ServerEvent::decode(&object(vec![("payload", object(vec![("roomData", room().0)]))])),
        Err(SchemaMismatch::MissingDiscriminator)
    );
    assert_eq!(
        ServerEvent::decode(&object(vec![("Type", text("game_started"))])),
        Err(SchemaMismatch::MissingDiscriminator)
    );
    assert_eq!(
        ServerEvent::decode(&object(vec![("type", number("1"))])),
        Err(SchemaMismatch::InvalidDiscriminator(number("1")))
    );
    assert_eq!(
        ServerEvent::decode(&object(vec![("type", Document::Null)])),
        Err(SchemaMismatch::InvalidDiscriminator(Document::Null))
    );
}

#[test]
fn a_round_start_without_its_time_is_rejected() {
    let document = event_document("round_started", object(vec![("roomData", room().0)]));
    assert_eq!(ServerEvent::decode(&document), Err(SchemaMismatch::MissingField(Field::StartsAt)));
}

#[test]
fn a_payload_that_lacks_one_field_is_rejected() {
    let cases: Vec<(&str, Vec<(&str, Document)>, Field)> = vec![
        ("room_data", vec![], Field::RoomData),
        ("authenticated", vec![], Field::SessionId),
        ("player_joined", vec![], Field::PlayerData),
        ("player_left", vec![("session_id", text("abc"))], Field::SessionId),
        ("player_banned", vec![], Field::PlayerInfo),
        ("player_unbanned", vec![("PlayerInfo", info("bob").0)], Field::PlayerInfo),
        ("settings_changed", vec![("room_data", room().0)], Field::RoomData),
        ("host_changed", vec![], Field::PlayerInfo),
        ("round_started", vec![("startsAt", number("1"))], Field::RoomData),
        ("request_move", vec![("players", Document::List(vec![]))], Field::GameState),
        ("request_move", vec![("gameState", state().0)], Field::Players),
        ("action", vec![], Field::Commands),
        (
            "player_action",
            vec![("sessionId", text("abc")), ("commands", Document::List(vec![])), ("gameState", state().0)],
            Field::Events,
        ),
        (
            "player_action",
            vec![("commands", Document::List(vec![])), ("gameState", state().0), ("events", Document::List(vec![]))],
            Field::SessionId,
        ),
        (
            "player_damage_received",
            vec![("sessionId", text("abc")), ("gameState", state().0)],
            Field::Damage,
        ),
        ("round_over", vec![("winnerId", text("abc")), ("roomData", room().0)], Field::WinnerInfo),
        ("game_over", vec![("winnerInfo", info("ann").0), ("roomData", room().0)], Field::WinnerId),
        ("game_reset", vec![], Field::RoomData),
    ];
    for (tag, members, missing) in cases {
        let document = event_document(tag, object(members));
        assert_eq!(ServerEvent::decode(&document), Err(SchemaMismatch::MissingField(missing)));
    }
}

#[test]
fn the_first_missing_field_in_declared_order_is_reported() {
    let document = event_document("player_action", object(vec![("gameState", state().0)]));
    assert_eq!(ServerEvent::decode(&document), Err(SchemaMismatch::MissingField(Field::SessionId)));
    let document = event_document("round_over", object(vec![]));
    assert_eq!(ServerEvent::decode(&document), Err(SchemaMismatch::MissingField(Field::WinnerId)));
}

#[test]
fn a_field_of_the_wrong_type_is_rejected() {
    let cases: Vec<(&str, Vec<(&str, Document)>, Field)> = vec![
        ("authenticated", vec![("sessionId", number("7"))], Field::SessionId),
        ("round_started", vec![("startsAt", text("12.5")), ("roomData", room().0)], Field::StartsAt),
        ("round_started", vec![("startsAt", Document::Null), ("roomData", room().0)], Field::StartsAt),
        ("action", vec![("commands", text("left"))], Field::Commands),
        ("action", vec![("commands", object(vec![]))], Field::Commands),
        ("request_move", vec![("gameState", state().0), ("players", Document::Null)], Field::Players),
        (
            "player_damage_received",
            vec![("sessionId", text("abc")), ("damage", Document::Bool(true)), ("gameState", state().0)],
            Field::Damage,
        ),
        (
            "game_over",
            vec![("winnerId", Document::List(vec![])), ("winnerInfo", info("ann").0), ("roomData", room().0)],
            Field::WinnerId,
        ),
    ];
    for (tag, members, wrong) in cases {
        let document = event_document(tag, object(members));
        assert_eq!(ServerEvent::decode(&document), Err(SchemaMismatch::InvalidField(wrong)));
    }
}

#[test]
fn a_missing_or_misshapen_payload_is_rejected() {
    assert_eq!(
        ServerEvent::decode(&object(vec![("type", text("room_data"))])),
        Err(SchemaMismatch::MissingPayload)
    );
    assert_eq!(
        ServerEvent::decode(&object(vec![("type", text("error"))])),
        Err(SchemaMismatch::MissingPayload)
    );
    assert_eq!(
        ServerEvent::decode(&event_document("room_data", Document::Null)),
        Err(SchemaMismatch::InvalidPayload)
    );
    assert_eq!(
        ServerEvent::decode(&event_document("action", Document::List(vec![]))),
        Err(SchemaMismatch::InvalidPayload)
    );
    assert_eq!(
        ServerEvent::decode(&event_document("round_over", text("abc"))),
        Err(SchemaMismatch::InvalidPayload)
    );
}

#[test]
fn game_started_needs_no_payload() {
    let document = object(vec![("type", text("game_started"))]);
    assert_eq!(ServerEvent::decode(&document), Ok(ServerEvent::GameStarted {}));
    assert_eq!(ServerEvent::GameStarted {}.encode(), document);
    assert_eq!(ServerEvent::GameStarted {}.encode_payload(), None);
    let with_payload = event_document("game_started", object(vec![]));
    assert_eq!(ServerEvent::decode(&with_payload), Ok(ServerEvent::GameStarted {}));
    let with_null = event_document("game_started", Document::Null);
    assert_eq!(ServerEvent::decode(&with_null), Ok(ServerEvent::GameStarted {}));
}

#[test]
fn round_over_and_game_over_differ_by_discriminator_alone() {
    let payload = end().encode();
    let round = event_document("round_over", payload.clone());
    let game = event_document("game_over", payload);
    assert_eq!(ServerEvent::decode(&round), Ok(ServerEvent::RoundOver { payload: end() }));
    assert_eq!(ServerEvent::decode(&game), Ok(ServerEvent::GameOver { payload: end() }));
    assert_ne!(ServerEvent::decode(&round), ServerEvent::decode(&game));
    assert_eq!(
        ServerEvent::RoundOver { payload: end() }.encode_payload(),
        ServerEvent::GameOver { payload: end() }.encode_payload()
    );
}

#[test]
fn damage_is_written_under_camel_case_keys() {
    let event = ServerEvent::PlayerDamageReceived {
        payload: PlayerDamageReceivedType {
            session_id: session("abc"),
            damage: Number::parse("12.5").unwrap(),
            game_state: state(),
        },
    };
    let payload = match event.encode_payload() {
        Some(Document::Object(members)) => members,
        other => panic!("not an object: {:?}", other),
    };
    let keys: Vec<&str> = payload.iter().map(|(key, _)| key.as_str()).collect();
    assert_eq!(keys, vec!["sessionId", "damage", "gameState"]);
    assert_eq!(payload[0].1, text("abc"));
    assert_eq!(payload[1].1, number("12.5"));
    assert_eq!(payload[2].1, state().0);
}

#[test]
fn members_with_other_keys_are_passed_over() {
    let document = object(vec![
        ("version", number("2")),
        ("type", text("authenticated")),
        ("payload", object(vec![("extra", Document::Null), ("sessionId", text("abc"))])),
        ("sentAt", number("1700000000000")),
    ]);
    assert_eq!(
        ServerEvent::decode(&document),
        Ok(ServerEvent::Authenticated { payload: SessionIdType { session_id: session("abc") } })
    );
}

#[test]
fn the_last_member_of_a_repeated_key_counts() {
    let document = object(vec![
        ("type", text("game_paused")),
        ("payload", object(vec![("sessionId", number("1")), ("sessionId", text("abc"))])),
        ("type", text("player_left")),
    ]);
    assert_eq!(
        ServerEvent::decode(&document),
        Ok(ServerEvent::PlayerLeft { payload: SessionIdType { session_id: session("abc") } })
    );
}

#[test]
fn payloads_are_read_and_written_on_their_own() {
    let payload = RoundStartType { starts_at: Number::parse("3").unwrap(), room_data: room() };
    let document = payload.encode();
    assert_eq!(document, object(vec![("startsAt", number("3")), ("roomData", room().0)]));
    assert_eq!(RoundStartType::decode(&document), Ok(payload));
    assert_eq!(RoundStartType::decode(&Document::Null), Err(SchemaMismatch::InvalidPayload));
    assert_eq!(
        ServerEvent::decode_payload(EventKind::GameStarted, &Document::Null),
        Ok(ServerEvent::GameStarted {})
    );
    assert_eq!(
        ServerEvent::decode_payload(EventKind::Action, &object(vec![("commands", Document::List(vec![text("left")]))])),
        Ok(ServerEvent::Action { payload: ActionType { commands: vec![command("left")] } })
    );
}
