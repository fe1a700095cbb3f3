//! The payloads of the events: their fields, their shape on the wire, and the
//! reading and writing of that shape.
//!
//! A payload travels as an object with one member for each field, under the
//! key of the field. A reader takes the members it knows and passes over any
//! other; every field of the payload has to be there, with a value of its
//! type. Fields are read in the order in which the payload declares them, and
//! the first that is missing or mistyped is the one reported.

use crate::document::{
    find, lemma_view_of_list, lemma_view_of_object, lookup, members_view, Document, Json, Member,
};
use crate::error::{agrees, MismatchView, SchemaMismatch};
use crate::number::Number;
use crate::schema::Field;
use crate::types::{
    carried_from, carried_view, list_of, Carried, Command, GameEvent, GameState, PlayerData,
    PlayerInfo, RoomData, SessionId,
};
use vstd::prelude::*;

verus! {

/// The member that holds `value` under the key of `field`.
pub open spec fn member(field: Field, value: Json) -> Member {
    Member { key: field.key(), value }
}

/// The members of a payload, which has to be an object.
pub open spec fn members_of(payload: Json) -> Result<Seq<Member>, MismatchView> {
    match payload {
        Json::Object(members) => Ok(members),
        _ => Err(MismatchView::InvalidPayload),
    }
}

/// A field whose value is carried as it stands.
pub open spec fn carried_field(members: Seq<Member>, field: Field) -> Result<Json, MismatchView> {
    match lookup(members, field.key()) {
        Some(value) => Ok(value),
        None => Err(MismatchView::MissingField(field)),
    }
}

/// A field whose value has to be text.
pub open spec fn text_field(members: Seq<Member>, field: Field) -> Result<Seq<char>, MismatchView> {
    match lookup(members, field.key()) {
        Some(Json::Text(text)) => Ok(text),
        Some(_) => Err(MismatchView::InvalidField(field)),
        None => Err(MismatchView::MissingField(field)),
    }
}

/// A field whose value has to be a number.
pub open spec fn number_field(members: Seq<Member>, field: Field) -> Result<
    Seq<char>,
    MismatchView,
> {
    match lookup(members, field.key()) {
        Some(Json::Number(literal)) => Ok(literal),
        Some(_) => Err(MismatchView::InvalidField(field)),
        None => Err(MismatchView::MissingField(field)),
    }
}

/// A field whose value has to be a list.
pub open spec fn list_field(members: Seq<Member>, field: Field) -> Result<Seq<Json>, MismatchView> {
    match lookup(members, field.key()) {
        Some(Json::List(items)) => Ok(items),
        Some(_) => Err(MismatchView::InvalidField(field)),
        None => Err(MismatchView::MissingField(field)),
    }
}

/// Among members with distinct keys, each key leads to the value beside it.
pub proof fn lemma_lookup_finds(members: Seq<Member>, i: int)
    requires
        0 <= i < members.len(),
        forall|j: int| 0 <= j < members.len() && j != i ==> members[j].key != members[i].key,
    ensures
        lookup(members, members[i].key) == Some(members[i].value),
    decreases members.len(),
{
    if i < members.len() - 1 {
        lemma_lookup_finds(members.drop_last(), i);
    }
}

/// The keys of the fields are distinct.
pub proof fn lemma_field_keys_distinct()
    ensures
        forall|a: Field, b: Field| #[trigger] a.key() == #[trigger] b.key() ==> a == b,
{
    assert forall|a: Field, b: Field| #[trigger] a.key() == #[trigger] b.key() implies a == b by {
        a.lemma_keys_differ(b);
    }
}

/// The members of a payload.
fn read_members(payload: &Document) -> (result: Result<&Vec<(String, Document)>, SchemaMismatch>)
    ensures
        match members_of(payload@) {
            Ok(members) => result matches Ok(found) && members_view(found@) == members,
            Err(mismatch) => result matches Err(found) && found@ == mismatch,
        },
{
    match payload {
        Document::Object(members) => {
            proof {
                lemma_view_of_object(*members);
            }
            Ok(members)
        },
        _ => Err(SchemaMismatch::InvalidPayload),
    }
}

/// Reads a field whose value is carried as it stands.
fn read_carried<T: Carried>(members: &Vec<(String, Document)>, field: Field) -> (result: Result<
    T,
    SchemaMismatch,
>)
    ensures
        agrees(result, carried_field(members_view(members@), field)),
{
    match find(members, field.wire_name()) {
        Some(value) => Ok(T::wrap(value.clone())),
        None => Err(SchemaMismatch::MissingField(field)),
    }
}

/// Reads a field that holds a session identifier.
fn read_session(members: &Vec<(String, Document)>, field: Field) -> (result: Result<
    SessionId,
    SchemaMismatch,
>)
    ensures
        agrees(result, text_field(members_view(members@), field)),
{
    match find(members, field.wire_name()) {
        Some(Document::Text(text)) => Ok(SessionId(text.clone())),
        Some(_) => Err(SchemaMismatch::InvalidField(field)),
        None => Err(SchemaMismatch::MissingField(field)),
    }
}

/// Reads a field that holds a number.
fn read_number(members: &Vec<(String, Document)>, field: Field) -> (result: Result<
    Number,
    SchemaMismatch,
>)
    ensures
        agrees(result, number_field(members_view(members@), field)),
{
    match find(members, field.wire_name()) {
        Some(Document::Number(number)) => Ok(number.clone()),
        Some(_) => Err(SchemaMismatch::InvalidField(field)),
        None => Err(SchemaMismatch::MissingField(field)),
    }
}

/// Reads a field that holds a list of carried values.
fn read_list<T: Carried>(members: &Vec<(String, Document)>, field: Field) -> (result: Result<
    Vec<T>,
    SchemaMismatch,
>)
    ensures
        match list_field(members_view(members@), field) {
            Ok(items) => result matches Ok(found) && carried_view(found@) == items,
            Err(mismatch) => result matches Err(found) && found@ == mismatch,
        },
{
    match find(members, field.wire_name()) {
        Some(Document::List(items)) => {
            proof {
                lemma_view_of_list(*items);
            }
            Ok(carried_from(items))
        },
        Some(_) => Err(SchemaMismatch::InvalidField(field)),
        None => Err(SchemaMismatch::MissingField(field)),
    }
}

/// Writes a field: the key of the field, and the value under it.
fn write_member(field: Field, value: Document) -> (written: (String, Document))
    ensures
        written.0@ == field.key(),
        written.1@ == value@,
{
    (field.wire_name().to_owned(), value)
}

/// The payload of the events that tell the state of a room.
#[derive(Debug, PartialEq, Eq)]
pub struct RoomDataType {
    pub room_data: RoomData,
}

/// The model of `RoomDataType`.
pub struct RoomDataView {
    pub room_data: Json,
}

impl View for RoomDataType {
    type V = RoomDataView;

    open spec fn view(&self) -> RoomDataView {
        RoomDataView { room_data: self.room_data@ }
    }
}

impl RoomDataView {
    /// The payload as it stands on the wire.
    pub open spec fn wire(self) -> Json {
        Json::Object(
            seq![
                member(Field::RoomData, self.room_data),
            ],
        )
    }

    /// What a document holds when it is read as this payload.
    pub open spec fn read(payload: Json) -> Result<RoomDataView, MismatchView> {
        match members_of(payload) {
            Err(mismatch) => Err(mismatch),
            Ok(members) => match carried_field(members, Field::RoomData) {
                Err(mismatch) => Err(mismatch),
                Ok(room_data) => Ok(RoomDataView { room_data }),
            },
        }
    }

    /// A payload that was written reads back as it was.
    pub proof fn lemma_read_wire(self)
        ensures
            Self::read(self.wire()) matches Ok(back) && back == self,
    {
        lemma_field_keys_distinct();
        let members = self.wire()->Object_0;
        lemma_lookup_finds(members, 0);
    }
}

impl RoomDataType {
    /// Writes the payload as a document.
    pub fn encode(&self) -> (payload: Document)
        ensures
            payload@ == self@.wire(),
    {
        let mut members: Vec<(String, Document)> = Vec::new();
        members.push(write_member(Field::RoomData, self.room_data.document().clone()));
        proof {
            lemma_view_of_object(members);
            assert(members_view(members@) =~= self@.wire()->Object_0);
        }
        Document::Object(members)
    }

    /// Reads the payload from a document. Every field has to be there, with
    /// a value of its type.
    pub fn decode(payload: &Document) -> (result: Result<RoomDataType, SchemaMismatch>)
        ensures
            agrees(result, RoomDataView::read(payload@)),
    {
        let members = read_members(payload)?;
        let room_data = read_carried::<RoomData>(members, Field::RoomData)?;
        Ok(RoomDataType { room_data })
    }
}

/// The payload of the event that tells of a player who joined.
#[derive(Debug, PartialEq, Eq)]
pub struct PlayerDataType {
    pub player_data: PlayerData,
}

/// The model of `PlayerDataType`.
pub struct PlayerDataView {
    pub player_data: Json,
}

impl View for PlayerDataType {
    type V = PlayerDataView;

    open spec fn view(&self) -> PlayerDataView {
        PlayerDataView { player_data: self.player_data@ }
    }
}

impl PlayerDataView {
    /// The payload as it stands on the wire.
    pub open spec fn wire(self) -> Json {
        Json::Object(
            seq![
                member(Field::PlayerData, self.player_data),
            ],
        )
    }

    /// What a document holds when it is read as this payload.
    pub open spec fn read(payload: Json) -> Result<PlayerDataView, MismatchView> {
        match members_of(payload) {
            Err(mismatch) => Err(mismatch),
            Ok(members) => match carried_field(members, Field::PlayerData) {
                Err(mismatch) => Err(mismatch),
                Ok(player_data) => Ok(PlayerDataView { player_data }),
            },
        }
    }

    /// A payload that was written reads back as it was.
    pub proof fn lemma_read_wire(self)
        ensures
            Self::read(self.wire()) matches Ok(back) && back == self,
    {
        lemma_field_keys_distinct();
        let members = self.wire()->Object_0;
        lemma_lookup_finds(members, 0);
    }
}

impl PlayerDataType {
    /// Writes the payload as a document.
    pub fn encode(&self) -> (payload: Document)
        ensures
            payload@ == self@.wire(),
    {
        let mut members: Vec<(String, Document)> = Vec::new();
        members.push(write_member(Field::PlayerData, self.player_data.document().clone()));
        proof {
            lemma_view_of_object(members);
            assert(members_view(members@) =~= self@.wire()->Object_0);
        }
        Document::Object(members)
    }

    /// Reads the payload from a document. Every field has to be there, with
    /// a value of its type.
    pub fn decode(payload: &Document) -> (result: Result<PlayerDataType, SchemaMismatch>)
        ensures
            agrees(result, PlayerDataView::read(payload@)),
    {
        let members = read_members(payload)?;
        let player_data = read_carried::<PlayerData>(members, Field::PlayerData)?;
        Ok(PlayerDataType { player_data })
    }
}

/// The payload of the events that name one session.
#[derive(Debug, PartialEq, Eq)]
pub struct SessionIdType {
    pub session_id: SessionId,
}

/// The model of `SessionIdType`.
pub struct SessionIdView {
    pub session_id: Seq<char>,
}

impl View for SessionIdType {
    type V = SessionIdView;

    open spec fn view(&self) -> SessionIdView {
        SessionIdView { session_id: self.session_id@ }
    }
}

impl SessionIdView {
    /// The payload as it stands on the wire.
    pub open spec fn wire(self) -> Json {
        Json::Object(
            seq![
                member(Field::SessionId, Json::Text(self.session_id)),
            ],
        )
    }

    /// What a document holds when it is read as this payload.
    pub open spec fn read(payload: Json) -> Result<SessionIdView, MismatchView> {
        match members_of(payload) {
            Err(mismatch) => Err(mismatch),
            Ok(members) => match text_field(members, Field::SessionId) {
                Err(mismatch) => Err(mismatch),
                Ok(session_id) => Ok(SessionIdView { session_id }),
            },
        }
    }

    /// A payload that was written reads back as it was.
    pub proof fn lemma_read_wire(self)
        ensures
            Self::read(self.wire()) matches Ok(back) && back == self,
    {
        lemma_field_keys_distinct();
        let members = self.wire()->Object_0;
        lemma_lookup_finds(members, 0);
    }
}

impl SessionIdType {
    /// Writes the payload as a document.
    pub fn encode(&self) -> (payload: Document)
        ensures
            payload@ == self@.wire(),
    {
        let mut members: Vec<(String, Document)> = Vec::new();
        members.push(write_member(Field::SessionId, Document::Text(self.session_id.0.clone())));
        proof {
            lemma_view_of_object(members);
            assert(members_view(members@) =~= self@.wire()->Object_0);
        }
        Document::Object(members)
    }

    /// Reads the payload from a document. Every field has to be there, with
    /// a value of its type.
    pub fn decode(payload: &Document) -> (result: Result<SessionIdType, SchemaMismatch>)
        ensures
            agrees(result, SessionIdView::read(payload@)),
    {
        let members = read_members(payload)?;
        let session_id = read_session(members, Field::SessionId)?;
        Ok(SessionIdType { session_id })
    }
}

/// The payload of the events that name one player.
#[derive(Debug, PartialEq, Eq)]
pub struct PlayerInfoType {
    pub player_info: PlayerInfo,
}

/// The model of `PlayerInfoType`.
pub struct PlayerInfoView {
    pub player_info: Json,
}

impl View for PlayerInfoType {
    type V = PlayerInfoView;

    open spec fn view(&self) -> PlayerInfoView {
        PlayerInfoView { player_info: self.player_info@ }
    }
}

impl PlayerInfoView {
    /// The payload as it stands on the wire.
    pub open spec fn wire(self) -> Json {
        Json::Object(
            seq![
                member(Field::PlayerInfo, self.player_info),
            ],
        )
    }

    /// What a document holds when it is read as this payload.
    pub open spec fn read(payload: Json) -> Result<PlayerInfoView, MismatchView> {
        match members_of(payload) {
            Err(mismatch) => Err(mismatch),
            Ok(members) => match carried_field(members, Field::PlayerInfo) {
                Err(mismatch) => Err(mismatch),
                Ok(player_info) => Ok(PlayerInfoView { player_info }),
            },
        }
    }

    /// A payload that was written reads back as it was.
    pub proof fn lemma_read_wire(self)
        ensures
            Self::read(self.wire()) matches Ok(back) && back == self,
    {
        lemma_field_keys_distinct();
        let members = self.wire()->Object_0;
        lemma_lookup_finds(members, 0);
    }
}

impl PlayerInfoType {
    /// Writes the payload as a document.
    pub fn encode(&self) -> (payload: Document)
        ensures
            payload@ == self@.wire(),
    {
        let mut members: Vec<(String, Document)> = Vec::new();
        members.push(write_member(Field::PlayerInfo, self.player_info.document().clone()));
        proof {
            lemma_view_of_object(members);
            assert(members_view(members@) =~= self@.wire()->Object_0);
        }
        Document::Object(members)
    }

    /// Reads the payload from a document. Every field has to be there, with
    /// a value of its type.
    pub fn decode(payload: &Document) -> (result: Result<PlayerInfoType, SchemaMismatch>)
        ensures
            agrees(result, PlayerInfoView::read(payload@)),
    {
        let members = read_members(payload)?;
        let player_info = read_carried::<PlayerInfo>(members, Field::PlayerInfo)?;
        Ok(PlayerInfoType { player_info })
    }
}

/// The payload of the event that announces a round.
#[derive(Debug, PartialEq, Eq)]
pub struct RoundStartType {
    pub starts_at: Number,
    pub room_data: RoomData,
}

/// The model of `RoundStartType`.
pub struct RoundStartView {
    pub starts_at: Seq<char>,
    pub room_data: Json,
}

impl View for RoundStartType {
    type V = RoundStartView;

    open spec fn view(&self) -> RoundStartView {
        RoundStartView { starts_at: self.starts_at@, room_data: self.room_data@ }
    }
}

impl RoundStartView {
    /// The payload as it stands on the wire.
    pub open spec fn wire(self) -> Json {
        Json::Object(
            seq![
                member(Field::StartsAt, Json::Number(self.starts_at)),
                member(Field::RoomData, self.room_data),
            ],
        )
    }

    /// What a document holds when it is read as this payload.
    pub open spec fn read(payload: Json) -> Result<RoundStartView, MismatchView> {
        match members_of(payload) {
            Err(mismatch) => Err(mismatch),
            Ok(members) => match number_field(members, Field::StartsAt) {
                Err(mismatch) => Err(mismatch),
                Ok(starts_at) => match carried_field(members, Field::RoomData) {
                    Err(mismatch) => Err(mismatch),
                    Ok(room_data) => Ok(RoundStartView { starts_at, room_data }),
                },
            },
        }
    }

    /// A payload that was written reads back as it was.
    pub proof fn lemma_read_wire(self)
        ensures
            Self::read(self.wire()) matches Ok(back) && back == self,
    {
        lemma_field_keys_distinct();
        let members = self.wire()->Object_0;
        lemma_lookup_finds(members, 0);
        lemma_lookup_finds(members, 1);
    }
}

impl RoundStartType {
    /// Writes the payload as a document.
    pub fn encode(&self) -> (payload: Document)
        ensures
            payload@ == self@.wire(),
    {
        let mut members: Vec<(String, Document)> = Vec::new();
        members.push(write_member(Field::StartsAt, Document::Number(self.starts_at.clone())));
        members.push(write_member(Field::RoomData, self.room_data.document().clone()));
        proof {
            lemma_view_of_object(members);
            assert(members_view(members@) =~= self@.wire()->Object_0);
        }
        Document::Object(members)
    }

    /// Reads the payload from a document. Every field has to be there, with
    /// a value of its type.
    pub fn decode(payload: &Document) -> (result: Result<RoundStartType, SchemaMismatch>)
        ensures
            agrees(result, RoundStartView::read(payload@)),
    {
        let members = read_members(payload)?;
        let starts_at = read_number(members, Field::StartsAt)?;
        let room_data = read_carried::<RoomData>(members, Field::RoomData)?;
        Ok(RoundStartType { starts_at, room_data })
    }
}

/// The payload of the event that asks a player for a move.
#[derive(Debug, PartialEq, Eq)]
pub struct RequestMoveType {
    pub game_state: GameState,
    pub players: Vec<PlayerData>,
}

/// The model of `RequestMoveType`.
pub struct RequestMoveView {
    pub game_state: Json,
    pub players: Seq<Json>,
}

impl View for RequestMoveType {
    type V = RequestMoveView;

    open spec fn view(&self) -> RequestMoveView {
        RequestMoveView { game_state: self.game_state@, players: carried_view(self.players@) }
    }
}

impl RequestMoveView {
    /// The payload as it stands on the wire.
    pub open spec fn wire(self) -> Json {
        Json::Object(
            seq![
                member(Field::GameState, self.game_state),
                member(Field::Players, Json::List(self.players)),
            ],
        )
    }

    /// What a document holds when it is read as this payload.
    pub open spec fn read(payload: Json) -> Result<RequestMoveView, MismatchView> {
        match members_of(payload) {
            Err(mismatch) => Err(mismatch),
            Ok(members) => match carried_field(members, Field::GameState) {
                Err(mismatch) => Err(mismatch),
                Ok(game_state) => match list_field(members, Field::Players) {
                    Err(mismatch) => Err(mismatch),
                    Ok(players) => Ok(RequestMoveView { game_state, players }),
                },
            },
        }
    }

    /// A payload that was written reads back as it was.
    pub proof fn lemma_read_wire(self)
        ensures
            Self::read(self.wire()) matches Ok(back) && back == self,
    {
        lemma_field_keys_distinct();
        let members = self.wire()->Object_0;
        lemma_lookup_finds(members, 0);
        lemma_lookup_finds(members, 1);
    }
}

impl RequestMoveType {
    /// Writes the payload as a document.
    pub fn encode(&self) -> (payload: Document)
        ensures
            payload@ == self@.wire(),
    {
        let mut members: Vec<(String, Document)> = Vec::new();
        members.push(write_member(Field::GameState, self.game_state.document().clone()));
        members.push(write_member(Field::Players, list_of(&self.players)));
        proof {
            lemma_view_of_object(members);
            assert(members_view(members@) =~= self@.wire()->Object_0);
        }
        Document::Object(members)
    }

    /// Reads the payload from a document. Every field has to be there, with
    /// a value of its type.
    pub fn decode(payload: &Document) -> (result: Result<RequestMoveType, SchemaMismatch>)
        ensures
            agrees(result, RequestMoveView::read(payload@)),
    {
        let members = read_members(payload)?;
        let game_state = read_carried::<GameState>(members, Field::GameState)?;
        let players = read_list::<PlayerData>(members, Field::Players)?;
        Ok(RequestMoveType { game_state, players })
    }
}

/// The moves that a player sends to the server for the current piece.
#[derive(Debug, PartialEq, Eq)]
pub struct ActionType {
    pub commands: Vec<Command>,
}

/// The model of `ActionType`.
pub struct ActionView {
    pub commands: Seq<Json>,
}

impl View for ActionType {
    type V = ActionView;

    open spec fn view(&self) -> ActionView {
        ActionView { commands: carried_view(self.commands@) }
    }
}

impl ActionView {
    /// The payload as it stands on the wire.
    pub open spec fn wire(self) -> Json {
        Json::Object(
            seq![
                member(Field::Commands, Json::List(self.commands)),
            ],
        )
    }

    /// What a document holds when it is read as this payload.
    pub open spec fn read(payload: Json) -> Result<ActionView, MismatchView> {
        match members_of(payload) {
            Err(mismatch) => Err(mismatch),
            Ok(members) => match list_field(members, Field::Commands) {
                Err(mismatch) => Err(mismatch),
                Ok(commands) => Ok(ActionView { commands }),
            },
        }
    }

    /// A payload that was written reads back as it was.
    pub proof fn lemma_read_wire(self)
        ensures
            Self::read(self.wire()) matches Ok(back) && back == self,
    {
        lemma_field_keys_distinct();
        let members = self.wire()->Object_0;
        lemma_lookup_finds(members, 0);
    }
}

impl ActionType {
    /// A batch with no command in it.
    pub fn new() -> (action: ActionType)
        ensures
            action.commands@ == Seq::<Command>::empty(),
    {
        ActionType { commands: Vec::new() }
    }

    /// Adds a command to the end of the batch, and hands the batch back so
    /// that calls can be chained.
    pub fn push(&mut self, command: Command) -> (same: &mut Self)
        ensures
            same.commands@ == old(self).commands@.push(command),
            *final(self) == *final(same),
    {
        self.commands.push(command);
        self
    }

    /// Moves every command of `commands` to the end of the batch, in the
    /// order in which they stand, leaves `commands` empty, and hands the
    /// batch back so that calls can be chained.
    pub fn append(&mut self, commands: &mut Vec<Command>) -> (same: &mut Self)
        ensures
            same.commands@ == old(self).commands@ + old(commands)@,
            final(commands)@ == Seq::<Command>::empty(),
            *final(self) == *final(same),
    {
        self.commands.append(commands);
        self
    }

    /// Writes the payload as a document.
    pub fn encode(&self) -> (payload: Document)
        ensures
            payload@ == self@.wire(),
    {
        let mut members: Vec<(String, Document)> = Vec::new();
        members.push(write_member(Field::Commands, list_of(&self.commands)));
        proof {
            lemma_view_of_object(members);
            assert(members_view(members@) =~= self@.wire()->Object_0);
        }
        Document::Object(members)
    }

    /// Reads the payload from a document. Every field has to be there, with
    /// a value of its type.
    pub fn decode(payload: &Document) -> (result: Result<ActionType, SchemaMismatch>)
        ensures
            agrees(result, ActionView::read(payload@)),
    {
        let members = read_members(payload)?;
        let commands = read_list::<Command>(members, Field::Commands)?;
        Ok(ActionType { commands })
    }
}

/// The payload of the event that tells what a player did.
#[derive(Debug, PartialEq, Eq)]
pub struct PlayerActionType {
    pub session_id: SessionId,
    pub commands: Vec<Command>,
    pub game_state: GameState,
    pub events: Vec<GameEvent>,
}

/// The model of `PlayerActionType`.
pub struct PlayerActionView {
    pub session_id: Seq<char>,
    pub commands: Seq<Json>,
    pub game_state: Json,
    pub events: Seq<Json>,
}

impl View for PlayerActionType {
    type V = PlayerActionView;

    open spec fn view(&self) -> PlayerActionView {
        PlayerActionView {
            session_id: self.session_id@,
            commands: carried_view(self.commands@),
            game_state: self.game_state@,
            events: carried_view(self.events@),
        }
    }
}

impl PlayerActionView {
    /// The payload as it stands on the wire.
    pub open spec fn wire(self) -> Json {
        Json::Object(
            seq![
                member(Field::SessionId, Json::Text(self.session_id)),
                member(Field::Commands, Json::List(self.commands)),
                member(Field::GameState, self.game_state),
                member(Field::Events, Json::List(self.events)),
            ],
        )
    }

    /// What a document holds when it is read as this payload.
    pub open spec fn read(payload: Json) -> Result<PlayerActionView, MismatchView> {
        match members_of(payload) {
            Err(mismatch) => Err(mismatch),
            Ok(members) => match text_field(members, Field::SessionId) {
                Err(mismatch) => Err(mismatch),
                Ok(session_id) => match list_field(members, Field::Commands) {
                    Err(mismatch) => Err(mismatch),
                    Ok(commands) => match carried_field(members, Field::GameState) {
                        Err(mismatch) => Err(mismatch),
                        Ok(game_state) => match list_field(members, Field::Events) {
                            Err(mismatch) => Err(mismatch),
                            Ok(events) => Ok(
                                PlayerActionView { session_id, commands, game_state, events },
                            ),
                        },
                    },
                },
            },
        }
    }

    /// A payload that was written reads back as it was.
    pub proof fn lemma_read_wire(self)
        ensures
            Self::read(self.wire()) matches Ok(back) && back == self,
    {
        lemma_field_keys_distinct();
        let members = self.wire()->Object_0;
        lemma_lookup_finds(members, 0);
        lemma_lookup_finds(members, 1);
        lemma_lookup_finds(members, 2);
        lemma_lookup_finds(members, 3);
    }
}

impl PlayerActionType {
    /// Writes the payload as a document.
    pub fn encode(&self) -> (payload: Document)
        ensures
            payload@ == self@.wire(),
    {
        let mut members: Vec<(String, Document)> = Vec::new();
        members.push(write_member(Field::SessionId, Document::Text(self.session_id.0.clone())));
        members.push(write_member(Field::Commands, list_of(&self.commands)));
        members.push(write_member(Field::GameState, self.game_state.document().clone()));
        members.push(write_member(Field::Events, list_of(&self.events)));
        proof {
            lemma_view_of_object(members);
            assert(members_view(members@) =~= self@.wire()->Object_0);
        }
        Document::Object(members)
    }

    /// Reads the payload from a document. Every field has to be there, with
    /// a value of its type.
    pub fn decode(payload: &Document) -> (result: Result<PlayerActionType, SchemaMismatch>)
        ensures
            agrees(result, PlayerActionView::read(payload@)),
    {
        let members = read_members(payload)?;
        let session_id = read_session(members, Field::SessionId)?;
        let commands = read_list::<Command>(members, Field::Commands)?;
        let game_state = read_carried::<GameState>(members, Field::GameState)?;
        let events = read_list::<GameEvent>(members, Field::Events)?;
        Ok(PlayerActionType { session_id, commands, game_state, events })
    }
}

/// The payload of the event that tells of damage done to a player.
#[derive(Debug, PartialEq, Eq)]
pub struct PlayerDamageReceivedType {
    pub session_id: SessionId,
    pub damage: Number,
    pub game_state: GameState,
}

/// The model of `PlayerDamageReceivedType`.
pub struct PlayerDamageReceivedView {
    pub session_id: Seq<char>,
    pub damage: Seq<char>,
    pub game_state: Json,
}

impl View for PlayerDamageReceivedType {
    type V = PlayerDamageReceivedView;

    open spec fn view(&self) -> PlayerDamageReceivedView {
        PlayerDamageReceivedView {
            session_id: self.session_id@,
            damage: self.damage@,
            game_state: self.game_state@,
        }
    }
}

impl PlayerDamageReceivedView {
    /// The payload as it stands on the wire.
    pub open spec fn wire(self) -> Json {
        Json::Object(
            seq![
                member(Field::SessionId, Json::Text(self.session_id)),
                member(Field::Damage, Json::Number(self.damage)),
                member(Field::GameState, self.game_state),
            ],
        )
    }

    /// What a document holds when it is read as this payload.
    pub open spec fn read(payload: Json) -> Result<PlayerDamageReceivedView, MismatchView> {
        match members_of(payload) {
            Err(mismatch) => Err(mismatch),
            Ok(members) => match text_field(members, Field::SessionId) {
                Err(mismatch) => Err(mismatch),
                Ok(session_id) => match number_field(members, Field::Damage) {
                    Err(mismatch) => Err(mismatch),
                    Ok(damage) => match carried_field(members, Field::GameState) {
                        Err(mismatch) => Err(mismatch),
                        Ok(game_state) => Ok(
                            PlayerDamageReceivedView { session_id, damage, game_state },
                        ),
                    },
                },
            },
        }
    }

    /// A payload that was written reads back as it was.
    pub proof fn lemma_read_wire(self)
        ensures
            Self::read(self.wire()) matches Ok(back) && back == self,
    {
        lemma_field_keys_distinct();
        let members = self.wire()->Object_0;
        lemma_lookup_finds(members, 0);
        lemma_lookup_finds(members, 1);
        lemma_lookup_finds(members, 2);
    }
}

impl PlayerDamageReceivedType {
    /// Writes the payload as a document.
    pub fn encode(&self) -> (payload: Document)
        ensures
            payload@ == self@.wire(),
    {
        let mut members: Vec<(String, Document)> = Vec::new();
        members.push(write_member(Field::SessionId, Document::Text(self.session_id.0.clone())));
        members.push(write_member(Field::Damage, Document::Number(self.damage.clone())));
        members.push(write_member(Field::GameState, self.game_state.document().clone()));
        proof {
            lemma_view_of_object(members);
            assert(members_view(members@) =~= self@.wire()->Object_0);
        }
        Document::Object(members)
    }

    /// Reads the payload from a document. Every field has to be there, with
    /// a value of its type.
    pub fn decode(payload: &Document) -> (result: Result<PlayerDamageReceivedType, SchemaMismatch>)
        ensures
            agrees(result, PlayerDamageReceivedView::read(payload@)),
    {
        let members = read_members(payload)?;
        let session_id = read_session(members, Field::SessionId)?;
        let damage = read_number(members, Field::Damage)?;
        let game_state = read_carried::<GameState>(members, Field::GameState)?;
        Ok(PlayerDamageReceivedType { session_id, damage, game_state })
    }
}

/// The payload of the events that end a round or a game.
#[derive(Debug, PartialEq, Eq)]
pub struct EndType {
    pub winner_id: SessionId,
    pub winner_info: PlayerInfo,
    pub room_data: RoomData,
}

/// The model of `EndType`.
pub struct EndView {
    pub winner_id: Seq<char>,
    pub winner_info: Json,
    pub room_data: Json,
}

impl View for EndType {
    type V = EndView;

    open spec fn view(&self) -> EndView {
        EndView {
            winner_id: self.winner_id@,
            winner_info: self.winner_info@,
            room_data: self.room_data@,
        }
    }
}

impl EndView {
    /// The payload as it stands on the wire.
    pub open spec fn wire(self) -> Json {
        Json::Object(
            seq![
                member(Field::WinnerId, Json::Text(self.winner_id)),
                member(Field::WinnerInfo, self.winner_info),
                member(Field::RoomData, self.room_data),
            ],
        )
    }

    /// What a document holds when it is read as this payload.
    pub open spec fn read(payload: Json) -> Result<EndView, MismatchView> {
        match members_of(payload) {
            Err(mismatch) => Err(mismatch),
            Ok(members) => match text_field(members, Field::WinnerId) {
                Err(mismatch) => Err(mismatch),
                Ok(winner_id) => match carried_field(members, Field::WinnerInfo) {
                    Err(mismatch) => Err(mismatch),
                    Ok(winner_info) => match carried_field(members, Field::RoomData) {
                        Err(mismatch) => Err(mismatch),
                        Ok(room_data) => Ok(EndView { winner_id, winner_info, room_data }),
                    },
                },
            },
        }
    }

    /// A payload that was written reads back as it was.
    pub proof fn lemma_read_wire(self)
        ensures
            Self::read(self.wire()) matches Ok(back) && back == self,
    {
        lemma_field_keys_distinct();
        let members = self.wire()->Object_0;
        lemma_lookup_finds(members, 0);
        lemma_lookup_finds(members, 1);
        lemma_lookup_finds(members, 2);
    }
}

impl EndType {
    /// Writes the payload as a document.
    pub fn encode(&self) -> (payload: Document)
        ensures
            payload@ == self@.wire(),
    {
        let mut members: Vec<(String, Document)> = Vec::new();
        members.push(write_member(Field::WinnerId, Document::Text(self.winner_id.0.clone())));
        members.push(write_member(Field::WinnerInfo, self.winner_info.document().clone()));
        members.push(write_member(Field::RoomData, self.room_data.document().clone()));
        proof {
            lemma_view_of_object(members);
            assert(members_view(members@) =~= self@.wire()->Object_0);
        }
        Document::Object(members)
    }

    /// Reads the payload from a document. Every field has to be there, with
    /// a value of its type.
    pub fn decode(payload: &Document) -> (result: Result<EndType, SchemaMismatch>)
        ensures
            agrees(result, EndView::read(payload@)),
    {
        let members = read_members(payload)?;
        let winner_id = read_session(members, Field::WinnerId)?;
        let winner_info = read_carried::<PlayerInfo>(members, Field::WinnerInfo)?;
        let room_data = read_carried::<RoomData>(members, Field::RoomData)?;
        Ok(EndType { winner_id, winner_info, room_data })
    }
}

} // verus!
