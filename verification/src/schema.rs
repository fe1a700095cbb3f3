//! The names that stand on the wire: one discriminator for each kind of
//! event, one key for each payload field, and the two keys of an event
//! document itself.
//!
//! The tables are written out name by name: nothing on the wire is derived
//! from an identifier.

use crate::text::same_text;
use vstd::prelude::*;

verus! {

/// The kinds of event. The set is closed.
#[derive(Clone, Copy, Debug, PartialEq, Eq, Structural)]
pub enum EventKind {
    RoomData,
    Authenticated,
    Error,
    PlayerJoined,
    PlayerLeft,
    PlayerBanned,
    PlayerUnbanned,
    SettingsChanged,
    HostChanged,
    GameStarted,
    RoundStarted,
    RequestMove,
    Action,
    PlayerAction,
    PlayerDamageReceived,
    RoundOver,
    GameOver,
    GameReset,
}

/// The fields that payloads are made of.
#[derive(Clone, Copy, Debug, PartialEq, Eq, Structural)]
pub enum Field {
    RoomData,
    SessionId,
    PlayerData,
    PlayerInfo,
    StartsAt,
    GameState,
    Players,
    Commands,
    Events,
    Damage,
    WinnerId,
    WinnerInfo,
}

/// The key under which an event document names its kind.
pub open spec fn type_key() -> Seq<char> {
    "type"@
}

/// The key under which an event document holds its payload.
pub open spec fn payload_key() -> Seq<char> {
    "payload"@
}

/// The two keys of an event document differ.
pub proof fn lemma_document_keys_differ()
    ensures
        type_key() != payload_key(),
{
    reveal_strlit("type");
    reveal_strlit("payload");
    assert(type_key().len() != payload_key().len());
}

impl EventKind {
    /// The discriminator of a kind, as it stands on the wire.
    pub open spec fn tag(self) -> Seq<char> {
        match self {
            EventKind::RoomData => "room_data"@,
            EventKind::Authenticated => "authenticated"@,
            EventKind::Error => "error"@,
            EventKind::PlayerJoined => "player_joined"@,
            EventKind::PlayerLeft => "player_left"@,
            EventKind::PlayerBanned => "player_banned"@,
            EventKind::PlayerUnbanned => "player_unbanned"@,
            EventKind::SettingsChanged => "settings_changed"@,
            EventKind::HostChanged => "host_changed"@,
            EventKind::GameStarted => "game_started"@,
            EventKind::RoundStarted => "round_started"@,
            EventKind::RequestMove => "request_move"@,
            EventKind::Action => "action"@,
            EventKind::PlayerAction => "player_action"@,
            EventKind::PlayerDamageReceived => "player_damage_received"@,
            EventKind::RoundOver => "round_over"@,
            EventKind::GameOver => "game_over"@,
            EventKind::GameReset => "game_reset"@,
        }
    }

    /// Whether `tag` is the discriminator of some kind.
    pub open spec fn is_tag(tag: Seq<char>) -> bool {
        exists|kind: EventKind| kind.tag() == tag
    }

    /// The kind that `tag` is the discriminator of, if it is one.
    pub open spec fn of_tag(tag: Seq<char>) -> Option<EventKind> {
        if Self::is_tag(tag) {
            Some(choose|kind: EventKind| kind.tag() == tag)
        } else {
            None
        }
    }

    /// Every kind but `GameStarted` carries a payload.
    pub open spec fn has_payload(self) -> bool {
        self != EventKind::GameStarted
    }

    /// The fields of the payload of a kind, in the order in which they are
    /// written. The payload of `Error` is a piece of text and has no fields.
    pub open spec fn fields(self) -> Seq<Field> {
        match self {
            EventKind::RoomData => seq![Field::RoomData],
            EventKind::Authenticated => seq![Field::SessionId],
            EventKind::Error => seq![],
            EventKind::PlayerJoined => seq![Field::PlayerData],
            EventKind::PlayerLeft => seq![Field::SessionId],
            EventKind::PlayerBanned => seq![Field::PlayerInfo],
            EventKind::PlayerUnbanned => seq![Field::PlayerInfo],
            EventKind::SettingsChanged => seq![Field::RoomData],
            EventKind::HostChanged => seq![Field::PlayerInfo],
            EventKind::GameStarted => seq![],
            EventKind::RoundStarted => seq![Field::StartsAt, Field::RoomData],
            EventKind::RequestMove => seq![Field::GameState, Field::Players],
            EventKind::Action => seq![Field::Commands],
            EventKind::PlayerAction => seq![
                Field::SessionId,
                Field::Commands,
                Field::GameState,
                Field::Events,
            ],
            EventKind::PlayerDamageReceived => seq![
                Field::SessionId,
                Field::Damage,
                Field::GameState,
            ],
            EventKind::RoundOver => seq![Field::WinnerId, Field::WinnerInfo, Field::RoomData],
            EventKind::GameOver => seq![Field::WinnerId, Field::WinnerInfo, Field::RoomData],
            EventKind::GameReset => seq![Field::RoomData],
        }
    }

    /// No two kinds share a discriminator.
    pub proof fn lemma_tags_differ(self, other: EventKind)
        requires
            self.tag() == other.tag(),
        ensures
            self == other,
    {
        reveal_strlit("room_data");
        reveal_strlit("authenticated");
        reveal_strlit("error");
        reveal_strlit("player_joined");
        reveal_strlit("player_left");
        reveal_strlit("player_banned");
        reveal_strlit("player_unbanned");
        reveal_strlit("settings_changed");
        reveal_strlit("host_changed");
        reveal_strlit("game_started");
        reveal_strlit("round_started");
        reveal_strlit("request_move");
        reveal_strlit("action");
        reveal_strlit("player_action");
        reveal_strlit("player_damage_received");
        reveal_strlit("round_over");
        reveal_strlit("game_over");
        reveal_strlit("game_reset");
        let a = self.tag();
        let b = other.tag();
        assert(a.len() == b.len());
        assert(a[0] == b[0]);
        assert(a[7] == b[7]);
    }

    /// A discriminator names the kind that it belongs to, and no other.
    pub proof fn lemma_of_tag(self)
        ensures
            Self::of_tag(self.tag()) == Some(self),
    {
        let found = choose|kind: EventKind| kind.tag() == self.tag();
        found.lemma_tags_differ(self);
    }

    /// The discriminator of a kind, as it stands on the wire.
    pub fn discriminator(self) -> (name: &'static str)
        ensures
            name@ == self.tag(),
    {
        match self {
            EventKind::RoomData => "room_data",
            EventKind::Authenticated => "authenticated",
            EventKind::Error => "error",
            EventKind::PlayerJoined => "player_joined",
            EventKind::PlayerLeft => "player_left",
            EventKind::PlayerBanned => "player_banned",
            EventKind::PlayerUnbanned => "player_unbanned",
            EventKind::SettingsChanged => "settings_changed",
            EventKind::HostChanged => "host_changed",
            EventKind::GameStarted => "game_started",
            EventKind::RoundStarted => "round_started",
            EventKind::RequestMove => "request_move",
            EventKind::Action => "action",
            EventKind::PlayerAction => "player_action",
            EventKind::PlayerDamageReceived => "player_damage_received",
            EventKind::RoundOver => "round_over",
            EventKind::GameOver => "game_over",
            EventKind::GameReset => "game_reset",
        }
    }

    /// Whether `name` is the discriminator of this kind.
    pub fn is_named(self, name: &str) -> (yes: bool)
        ensures
            yes == (name@ == self.tag()),
    {
        same_text(name, self.discriminator())
    }

    /// The kind that `name` is the discriminator of. A name that belongs to
    /// no kind gives `None`.
    pub fn from_discriminator(name: &str) -> (kind: Option<EventKind>)
        ensures
            kind == Self::of_tag(name@),
    {
        proof {
            assert forall|kind: EventKind| Self::of_tag(kind.tag()) == Some(kind) by {
                kind.lemma_of_tag();
            }
        }
        if EventKind::RoomData.is_named(name) {
            Some(EventKind::RoomData)
        } else if EventKind::Authenticated.is_named(name) {
            Some(EventKind::Authenticated)
        } else if EventKind::Error.is_named(name) {
            Some(EventKind::Error)
        } else if EventKind::PlayerJoined.is_named(name) {
            Some(EventKind::PlayerJoined)
        } else if EventKind::PlayerLeft.is_named(name) {
            Some(EventKind::PlayerLeft)
        } else if EventKind::PlayerBanned.is_named(name) {
            Some(EventKind::PlayerBanned)
        } else if EventKind::PlayerUnbanned.is_named(name) {
            Some(EventKind::PlayerUnbanned)
        } else if EventKind::SettingsChanged.is_named(name) {
            Some(EventKind::SettingsChanged)
        } else if EventKind::HostChanged.is_named(name) {
            Some(EventKind::HostChanged)
        } else if EventKind::GameStarted.is_named(name) {
            Some(EventKind::GameStarted)
        } else if EventKind::RoundStarted.is_named(name) {
            Some(EventKind::RoundStarted)
        } else if EventKind::RequestMove.is_named(name) {
            Some(EventKind::RequestMove)
        } else if EventKind::Action.is_named(name) {
            Some(EventKind::Action)
        } else if EventKind::PlayerAction.is_named(name) {
            Some(EventKind::PlayerAction)
        } else if EventKind::PlayerDamageReceived.is_named(name) {
            Some(EventKind::PlayerDamageReceived)
        } else if EventKind::RoundOver.is_named(name) {
            Some(EventKind::RoundOver)
        } else if EventKind::GameOver.is_named(name) {
            Some(EventKind::GameOver)
        } else if EventKind::GameReset.is_named(name) {
            Some(EventKind::GameReset)
        } else {
            None
        }
    }
}

impl Field {
    /// The key of a field, as it stands on the wire.
    pub open spec fn key(self) -> Seq<char> {
        match self {
            Field::RoomData => "roomData"@,
            Field::SessionId => "sessionId"@,
            Field::PlayerData => "playerData"@,
            Field::PlayerInfo => "playerInfo"@,
            Field::StartsAt => "startsAt"@,
            Field::GameState => "gameState"@,
            Field::Players => "players"@,
            Field::Commands => "commands"@,
            Field::Events => "events"@,
            Field::Damage => "damage"@,
            Field::WinnerId => "winnerId"@,
            Field::WinnerInfo => "winnerInfo"@,
        }
    }

    /// No two fields share a key.
    pub proof fn lemma_keys_differ(self, other: Field)
        requires
            self.key() == other.key(),
        ensures
            self == other,
    {
        reveal_strlit("roomData");
        reveal_strlit("sessionId");
        reveal_strlit("playerData");
        reveal_strlit("playerInfo");
        reveal_strlit("startsAt");
        reveal_strlit("gameState");
        reveal_strlit("players");
        reveal_strlit("commands");
        reveal_strlit("events");
        reveal_strlit("damage");
        reveal_strlit("winnerId");
        reveal_strlit("winnerInfo");
        let a = self.key();
        let b = other.key();
        assert(a.len() == b.len());
        assert(a[0] == b[0]);
        assert(a[6] == b[6]);
    }

    /// The key of a field, as it stands on the wire.
    pub fn wire_name(self) -> (name: &'static str)
        ensures
            name@ == self.key(),
    {
        match self {
            Field::RoomData => "roomData",
            Field::SessionId => "sessionId",
            Field::PlayerData => "playerData",
            Field::PlayerInfo => "playerInfo",
            Field::StartsAt => "startsAt",
            Field::GameState => "gameState",
            Field::Players => "players",
            Field::Commands => "commands",
            Field::Events => "events",
            Field::Damage => "damage",
            Field::WinnerId => "winnerId",
            Field::WinnerInfo => "winnerInfo",
        }
    }
}

} // verus!
