//! The events themselves: a closed union of eighteen kinds, and the document
//! that each of them travels as.
//!
//! An event document is an object. Under the key `type` it holds the
//! discriminator of the kind; under the key `payload` it holds the payload,
//! for every kind but `GameStarted`, whose document holds the discriminator
//! alone. A reader passes over members with other keys, and over a payload
//! beside the discriminator of `GameStarted`. Where a key stands more than
//! once in an object, its last member counts.

use crate::document::{find, lemma_view_of_object, lookup, members_view, Document, Json, Member};
use crate::error::{agrees, MismatchView, SchemaMismatch};
use crate::payload::{
    ActionType, ActionView, EndType, EndView, PlayerActionType, PlayerActionView,
    PlayerDamageReceivedType, PlayerDamageReceivedView, PlayerDataType, PlayerDataView,
    PlayerInfoType, PlayerInfoView, RequestMoveType, RequestMoveView, RoomDataType, RoomDataView,
    RoundStartType, RoundStartView, SessionIdType, SessionIdView,
};
use crate::schema::{payload_key, type_key, EventKind};
use vstd::prelude::*;

verus! {

/// The payload of an error event: what went wrong, in words.
pub type ErrorType = String;

/// An event that server and clients exchange.
#[derive(Debug, PartialEq, Eq)]
#[allow(inconsistent_fields)]
pub enum ServerEvent {
    RoomData { payload: RoomDataType },
    Authenticated { payload: SessionIdType },
    Error { payload: ErrorType },
    PlayerJoined { payload: PlayerDataType },
    PlayerLeft { payload: SessionIdType },
    PlayerBanned { payload: PlayerInfoType },
    PlayerUnbanned { payload: PlayerInfoType },
    SettingsChanged { payload: RoomDataType },
    HostChanged { payload: PlayerInfoType },
    GameStarted {},
    RoundStarted { payload: RoundStartType },
    RequestMove { payload: RequestMoveType },
    Action { payload: ActionType },
    PlayerAction { payload: PlayerActionType },
    PlayerDamageReceived { payload: PlayerDamageReceivedType },
    RoundOver { payload: EndType },
    GameOver { payload: EndType },
    GameReset { payload: RoomDataType },
}

/// The model of an event.
#[allow(inconsistent_fields)]
pub enum ServerEventView {
    RoomData { payload: RoomDataView },
    Authenticated { payload: SessionIdView },
    Error { payload: Seq<char> },
    PlayerJoined { payload: PlayerDataView },
    PlayerLeft { payload: SessionIdView },
    PlayerBanned { payload: PlayerInfoView },
    PlayerUnbanned { payload: PlayerInfoView },
    SettingsChanged { payload: RoomDataView },
    HostChanged { payload: PlayerInfoView },
    GameStarted,
    RoundStarted { payload: RoundStartView },
    RequestMove { payload: RequestMoveView },
    Action { payload: ActionView },
    PlayerAction { payload: PlayerActionView },
    PlayerDamageReceived { payload: PlayerDamageReceivedView },
    RoundOver { payload: EndView },
    GameOver { payload: EndView },
    GameReset { payload: RoomDataView },
}

impl View for ServerEvent {
    type V = ServerEventView;

    open spec fn view(&self) -> ServerEventView {
        match self {
            ServerEvent::RoomData { payload } => ServerEventView::RoomData { payload: payload@ },
            ServerEvent::Authenticated { payload } => ServerEventView::Authenticated {
                payload: payload@,
            },
            ServerEvent::Error { payload } => ServerEventView::Error { payload: payload@ },
            ServerEvent::PlayerJoined { payload } => ServerEventView::PlayerJoined {
                payload: payload@,
            },
            ServerEvent::PlayerLeft { payload } => ServerEventView::PlayerLeft {
                payload: payload@,
            },
            ServerEvent::PlayerBanned { payload } => ServerEventView::PlayerBanned {
                payload: payload@,
            },
            ServerEvent::PlayerUnbanned { payload } => ServerEventView::PlayerUnbanned {
                payload: payload@,
            },
            ServerEvent::SettingsChanged { payload } => ServerEventView::SettingsChanged {
                payload: payload@,
            },
            ServerEvent::HostChanged { payload } => ServerEventView::HostChanged {
                payload: payload@,
            },
            ServerEvent::GameStarted {} => ServerEventView::GameStarted,
            ServerEvent::RoundStarted { payload } => ServerEventView::RoundStarted {
                payload: payload@,
            },
            ServerEvent::RequestMove { payload } => ServerEventView::RequestMove {
                payload: payload@,
            },
            ServerEvent::Action { payload } => ServerEventView::Action { payload: payload@ },
            ServerEvent::PlayerAction { payload } => ServerEventView::PlayerAction {
                payload: payload@,
            },
            ServerEvent::PlayerDamageReceived { payload } => ServerEventView::PlayerDamageReceived {
                payload: payload@,
            },
            ServerEvent::RoundOver { payload } => ServerEventView::RoundOver { payload: payload@ },
            ServerEvent::GameOver { payload } => ServerEventView::GameOver { payload: payload@ },
            ServerEvent::GameReset { payload } => ServerEventView::GameReset { payload: payload@ },
        }
    }
}

impl ServerEventView {
    /// The kind of the event.
    pub open spec fn kind(self) -> EventKind {
        match self {
            ServerEventView::RoomData { .. } => EventKind::RoomData,
            ServerEventView::Authenticated { .. } => EventKind::Authenticated,
            ServerEventView::Error { .. } => EventKind::Error,
            ServerEventView::PlayerJoined { .. } => EventKind::PlayerJoined,
            ServerEventView::PlayerLeft { .. } => EventKind::PlayerLeft,
            ServerEventView::PlayerBanned { .. } => EventKind::PlayerBanned,
            ServerEventView::PlayerUnbanned { .. } => EventKind::PlayerUnbanned,
            ServerEventView::SettingsChanged { .. } => EventKind::SettingsChanged,
            ServerEventView::HostChanged { .. } => EventKind::HostChanged,
            ServerEventView::GameStarted => EventKind::GameStarted,
            ServerEventView::RoundStarted { .. } => EventKind::RoundStarted,
            ServerEventView::RequestMove { .. } => EventKind::RequestMove,
            ServerEventView::Action { .. } => EventKind::Action,
            ServerEventView::PlayerAction { .. } => EventKind::PlayerAction,
            ServerEventView::PlayerDamageReceived { .. } => EventKind::PlayerDamageReceived,
            ServerEventView::RoundOver { .. } => EventKind::RoundOver,
            ServerEventView::GameOver { .. } => EventKind::GameOver,
            ServerEventView::GameReset { .. } => EventKind::GameReset,
        }
    }

    /// The payload of the event as it stands on the wire. `GameStarted` has
    /// none.
    pub open spec fn payload_wire(self) -> Option<Json> {
        match self {
            ServerEventView::RoomData { payload } => Some(payload.wire()),
            ServerEventView::Authenticated { payload } => Some(payload.wire()),
            ServerEventView::Error { payload } => Some(Json::Text(payload)),
            ServerEventView::PlayerJoined { payload } => Some(payload.wire()),
            ServerEventView::PlayerLeft { payload } => Some(payload.wire()),
            ServerEventView::PlayerBanned { payload } => Some(payload.wire()),
            ServerEventView::PlayerUnbanned { payload } => Some(payload.wire()),
            ServerEventView::SettingsChanged { payload } => Some(payload.wire()),
            ServerEventView::HostChanged { payload } => Some(payload.wire()),
            ServerEventView::GameStarted => None,
            ServerEventView::RoundStarted { payload } => Some(payload.wire()),
            ServerEventView::RequestMove { payload } => Some(payload.wire()),
            ServerEventView::Action { payload } => Some(payload.wire()),
            ServerEventView::PlayerAction { payload } => Some(payload.wire()),
            ServerEventView::PlayerDamageReceived { payload } => Some(payload.wire()),
            ServerEventView::RoundOver { payload } => Some(payload.wire()),
            ServerEventView::GameOver { payload } => Some(payload.wire()),
            ServerEventView::GameReset { payload } => Some(payload.wire()),
        }
    }

    /// The event as it stands on the wire: the discriminator first, then the
    /// payload, if the kind has one.
    pub open spec fn wire(self) -> Json {
        let discriminator = Member { key: type_key(), value: Json::Text(self.kind().tag()) };
        match self.payload_wire() {
            Some(payload) => Json::Object(
                seq![discriminator, Member { key: payload_key(), value: payload }],
            ),
            None => Json::Object(seq![discriminator]),
        }
    }

    /// What a payload holds when it is read as that of an event of `kind`.
    pub open spec fn read_payload(kind: EventKind, payload: Json) -> Result<
        ServerEventView,
        MismatchView,
    > {
        match kind {
            EventKind::RoomData => match RoomDataView::read(payload) {
                Ok(payload) => Ok(ServerEventView::RoomData { payload }),
                Err(mismatch) => Err(mismatch),
            },
            EventKind::Authenticated => match SessionIdView::read(payload) {
                Ok(payload) => Ok(ServerEventView::Authenticated { payload }),
                Err(mismatch) => Err(mismatch),
            },
            EventKind::Error => match payload {
                Json::Text(text) => Ok(ServerEventView::Error { payload: text }),
                _ => Err(MismatchView::InvalidPayload),
            },
            EventKind::PlayerJoined => match PlayerDataView::read(payload) {
                Ok(payload) => Ok(ServerEventView::PlayerJoined { payload }),
                Err(mismatch) => Err(mismatch),
            },
            EventKind::PlayerLeft => match SessionIdView::read(payload) {
                Ok(payload) => Ok(ServerEventView::PlayerLeft { payload }),
                Err(mismatch) => Err(mismatch),
            },
            EventKind::PlayerBanned => match PlayerInfoView::read(payload) {
                Ok(payload) => Ok(ServerEventView::PlayerBanned { payload }),
                Err(mismatch) => Err(mismatch),
            },
            EventKind::PlayerUnbanned => match PlayerInfoView::read(payload) {
                Ok(payload) => Ok(ServerEventView::PlayerUnbanned { payload }),
                Err(mismatch) => Err(mismatch),
            },
            EventKind::SettingsChanged => match RoomDataView::read(payload) {
                Ok(payload) => Ok(ServerEventView::SettingsChanged { payload }),
                Err(mismatch) => Err(mismatch),
            },
            EventKind::HostChanged => match PlayerInfoView::read(payload) {
                Ok(payload) => Ok(ServerEventView::HostChanged { payload }),
                Err(mismatch) => Err(mismatch),
            },
            EventKind::GameStarted => Ok(ServerEventView::GameStarted),
            EventKind::RoundStarted => match RoundStartView::read(payload) {
                Ok(payload) => Ok(ServerEventView::RoundStarted { payload }),
                Err(mismatch) => Err(mismatch),
            },
            EventKind::RequestMove => match RequestMoveView::read(payload) {
                Ok(payload) => Ok(ServerEventView::RequestMove { payload }),
                Err(mismatch) => Err(mismatch),
            },
            EventKind::Action => match ActionView::read(payload) {
                Ok(payload) => Ok(ServerEventView::Action { payload }),
                Err(mismatch) => Err(mismatch),
            },
            EventKind::PlayerAction => match PlayerActionView::read(payload) {
                Ok(payload) => Ok(ServerEventView::PlayerAction { payload }),
                Err(mismatch) => Err(mismatch),
            },
            EventKind::PlayerDamageReceived => match PlayerDamageReceivedView::read(payload) {
                Ok(payload) => Ok(ServerEventView::PlayerDamageReceived { payload }),
                Err(mismatch) => Err(mismatch),
            },
            EventKind::RoundOver => match EndView::read(payload) {
                Ok(payload) => Ok(ServerEventView::RoundOver { payload }),
                Err(mismatch) => Err(mismatch),
            },
            EventKind::GameOver => match EndView::read(payload) {
                Ok(payload) => Ok(ServerEventView::GameOver { payload }),
                Err(mismatch) => Err(mismatch),
            },
            EventKind::GameReset => match RoomDataView::read(payload) {
                Ok(payload) => Ok(ServerEventView::GameReset { payload }),
                Err(mismatch) => Err(mismatch),
            },
        }
    }

    /// What the members of an event document hold, once the kind is known.
    pub open spec fn read_as(kind: EventKind, members: Seq<Member>) -> Result<
        ServerEventView,
        MismatchView,
    > {
        if kind.has_payload() {
            match lookup(members, payload_key()) {
                Some(payload) => Self::read_payload(kind, payload),
                None => Err(MismatchView::MissingPayload),
            }
        } else {
            Ok(ServerEventView::GameStarted)
        }
    }

    /// What a document holds when it is read as an event: the event, or the
    /// reason why it is none.
    pub open spec fn read(document: Json) -> Result<ServerEventView, MismatchView> {
        match document {
            Json::Object(members) => match lookup(members, type_key()) {
                Some(Json::Text(tag)) => match EventKind::of_tag(tag) {
                    Some(kind) => Self::read_as(kind, members),
                    None => Err(MismatchView::UnknownDiscriminator(tag)),
                },
                Some(other) => Err(MismatchView::InvalidDiscriminator(other)),
                None => Err(MismatchView::MissingDiscriminator),
            },
            _ => Err(MismatchView::NotAnObject),
        }
    }
}

impl ServerEvent {
    /// The kind of the event.
    pub fn kind(&self) -> (kind: EventKind)
        ensures
            kind == self@.kind(),
    {
        match self {
            ServerEvent::RoomData { .. } => EventKind::RoomData,
            ServerEvent::Authenticated { .. } => EventKind::Authenticated,
            ServerEvent::Error { .. } => EventKind::Error,
            ServerEvent::PlayerJoined { .. } => EventKind::PlayerJoined,
            ServerEvent::PlayerLeft { .. } => EventKind::PlayerLeft,
            ServerEvent::PlayerBanned { .. } => EventKind::PlayerBanned,
            ServerEvent::PlayerUnbanned { .. } => EventKind::PlayerUnbanned,
            ServerEvent::SettingsChanged { .. } => EventKind::SettingsChanged,
            ServerEvent::HostChanged { .. } => EventKind::HostChanged,
            ServerEvent::GameStarted {} => EventKind::GameStarted,
            ServerEvent::RoundStarted { .. } => EventKind::RoundStarted,
            ServerEvent::RequestMove { .. } => EventKind::RequestMove,
            ServerEvent::Action { .. } => EventKind::Action,
            ServerEvent::PlayerAction { .. } => EventKind::PlayerAction,
            ServerEvent::PlayerDamageReceived { .. } => EventKind::PlayerDamageReceived,
            ServerEvent::RoundOver { .. } => EventKind::RoundOver,
            ServerEvent::GameOver { .. } => EventKind::GameOver,
            ServerEvent::GameReset { .. } => EventKind::GameReset,
        }
    }

    /// Writes the payload of the event as a document. `GameStarted` has none.
    pub fn encode_payload(&self) -> (payload: Option<Document>)
        ensures
            match self@.payload_wire() {
                Some(wire) => payload matches Some(written) && written@ == wire,
                None => payload is None,
            },
    {
        match self {
            ServerEvent::RoomData { payload } => Some(payload.encode()),
            ServerEvent::Authenticated { payload } => Some(payload.encode()),
            ServerEvent::Error { payload } => Some(Document::Text(payload.clone())),
            ServerEvent::PlayerJoined { payload } => Some(payload.encode()),
            ServerEvent::PlayerLeft { payload } => Some(payload.encode()),
            ServerEvent::PlayerBanned { payload } => Some(payload.encode()),
            ServerEvent::PlayerUnbanned { payload } => Some(payload.encode()),
            ServerEvent::SettingsChanged { payload } => Some(payload.encode()),
            ServerEvent::HostChanged { payload } => Some(payload.encode()),
            ServerEvent::GameStarted {} => None,
            ServerEvent::RoundStarted { payload } => Some(payload.encode()),
            ServerEvent::RequestMove { payload } => Some(payload.encode()),
            ServerEvent::Action { payload } => Some(payload.encode()),
            ServerEvent::PlayerAction { payload } => Some(payload.encode()),
            ServerEvent::PlayerDamageReceived { payload } => Some(payload.encode()),
            ServerEvent::RoundOver { payload } => Some(payload.encode()),
            ServerEvent::GameOver { payload } => Some(payload.encode()),
            ServerEvent::GameReset { payload } => Some(payload.encode()),
        }
    }

    /// Writes the event as a document.
    pub fn encode(&self) -> (document: Document)
        ensures
            document@ == self@.wire(),
    {
        let mut members: Vec<(String, Document)> = Vec::new();
        let tag = self.kind().discriminator();
        members.push(("type".to_owned(), Document::Text(tag.to_owned())));
        match self.encode_payload() {
            Some(payload) => {
                members.push(("payload".to_owned(), payload));
            },
            None => {},
        }
        proof {
            lemma_view_of_object(members);
            assert(members_view(members@) =~= self@.wire()->Object_0);
        }
        Document::Object(members)
    }

    /// Reads a payload as that of an event of `kind`.
    pub fn decode_payload(kind: EventKind, payload: &Document) -> (result: Result<
        ServerEvent,
        SchemaMismatch,
    >)
        ensures
            agrees(result, ServerEventView::read_payload(kind, payload@)),
    {
        match kind {
            EventKind::RoomData => Ok(
                ServerEvent::RoomData { payload: RoomDataType::decode(payload)? },
            ),
            EventKind::Authenticated => Ok(
                ServerEvent::Authenticated { payload: SessionIdType::decode(payload)? },
            ),
            EventKind::Error => match payload {
                Document::Text(text) => Ok(ServerEvent::Error { payload: text.clone() }),
                _ => Err(SchemaMismatch::InvalidPayload),
            },
            EventKind::PlayerJoined => Ok(
                ServerEvent::PlayerJoined { payload: PlayerDataType::decode(payload)? },
            ),
            EventKind::PlayerLeft => Ok(
                ServerEvent::PlayerLeft { payload: SessionIdType::decode(payload)? },
            ),
            EventKind::PlayerBanned => Ok(
                ServerEvent::PlayerBanned { payload: PlayerInfoType::decode(payload)? },
            ),
            EventKind::PlayerUnbanned => Ok(
                ServerEvent::PlayerUnbanned { payload: PlayerInfoType::decode(payload)? },
            ),
            EventKind::SettingsChanged => Ok(
                ServerEvent::SettingsChanged { payload: RoomDataType::decode(payload)? },
            ),
            EventKind::HostChanged => Ok(
                ServerEvent::HostChanged { payload: PlayerInfoType::decode(payload)? },
            ),
            EventKind::GameStarted => Ok(ServerEvent::GameStarted {}),
            EventKind::RoundStarted => Ok(
                ServerEvent::RoundStarted { payload: RoundStartType::decode(payload)? },
            ),
            EventKind::RequestMove => Ok(
                ServerEvent::RequestMove { payload: RequestMoveType::decode(payload)? },
            ),
            EventKind::Action => Ok(ServerEvent::Action { payload: ActionType::decode(payload)? }),
            EventKind::PlayerAction => Ok(
                ServerEvent::PlayerAction { payload: PlayerActionType::decode(payload)? },
            ),
            EventKind::PlayerDamageReceived => Ok(
                ServerEvent::PlayerDamageReceived {
                    payload: PlayerDamageReceivedType::decode(payload)?,
                },
            ),
            EventKind::RoundOver => Ok(
                ServerEvent::RoundOver { payload: EndType::decode(payload)? },
            ),
            EventKind::GameOver => Ok(ServerEvent::GameOver { payload: EndType::decode(payload)? }),
            EventKind::GameReset => Ok(
                ServerEvent::GameReset { payload: RoomDataType::decode(payload)? },
            ),
        }
    }

    /// Reads an event from a document. A document that is no event of the
    /// vocabulary gives the mismatch that `ServerEventView::read` names.
    pub fn decode(document: &Document) -> (result: Result<ServerEvent, SchemaMismatch>)
        ensures
            agrees(result, ServerEventView::read(document@)),
    {
        let members = match document {
            Document::Object(members) => members,
            _ => {
                return Err(SchemaMismatch::NotAnObject);
            },
        };
        proof {
            lemma_view_of_object(*members);
        }
        let tag = match find(members, "type") {
            Some(Document::Text(tag)) => tag,
            Some(other) => {
                return Err(SchemaMismatch::InvalidDiscriminator(other.clone()));
            },
            None => {
                return Err(SchemaMismatch::MissingDiscriminator);
            },
        };
        let kind = match EventKind::from_discriminator(tag.as_str()) {
            Some(kind) => kind,
            None => {
                return Err(SchemaMismatch::UnknownDiscriminator(tag.clone()));
            },
        };
        match kind {
            EventKind::GameStarted => Ok(ServerEvent::GameStarted {}),
            _ => match find(members, "payload") {
                Some(payload) => Self::decode_payload(kind, payload),
                None => Err(SchemaMismatch::MissingPayload),
            },
        }
    }
}

} // verus!
