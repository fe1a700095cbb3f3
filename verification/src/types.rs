//! The values that events carry and that this crate does not look into.
//!
//! Rooms, players, game states, game events and commands are defined by the
//! game, not by the event vocabulary. An event holds each of them as the
//! document that stands for it and hands it on unchanged. A session
//! identifier is a piece of text.

use crate::document::{items_view, lemma_view_of_list, Document, Json};
use vstd::prelude::*;

verus! {

/// A value that is carried as the document that stands for it.
pub trait Carried: View<V = Json> + Sized {
    /// The value that `document` stands for.
    fn wrap(document: Document) -> (value: Self)
        ensures
            value@ == document@,
    ;

    /// The document that stands for the value.
    fn document(&self) -> (document: &Document)
        ensures
            document@ == self@,
    ;
}

/// The identifier of the session of a connected player.
#[derive(Debug, PartialEq, Eq)]
pub struct SessionId(pub String);

/// The state of a room.
#[derive(Debug, PartialEq, Eq)]
pub struct RoomData(pub Document);

/// What a room knows of one of its players.
#[derive(Debug, PartialEq, Eq)]
pub struct PlayerData(pub Document);

/// What is public of a player.
#[derive(Debug, PartialEq, Eq)]
pub struct PlayerInfo(pub Document);

/// The state of a player's game.
#[derive(Debug, PartialEq, Eq)]
pub struct GameState(pub Document);

/// Something that happened in a player's game.
#[derive(Debug, PartialEq, Eq)]
pub struct GameEvent(pub Document);

/// One move that a player asks for.
#[derive(Debug, PartialEq, Eq)]
pub struct Command(pub Document);

impl View for SessionId {
    type V = Seq<char>;

    open spec fn view(&self) -> Seq<char> {
        self.0@
    }
}

impl Clone for SessionId {
    fn clone(&self) -> (copy: SessionId)
        ensures
            copy@ == self@,
    {
        SessionId(self.0.clone())
    }
}

impl View for RoomData {
    type V = Json;

    open spec fn view(&self) -> Json {
        self.0@
    }
}

impl Carried for RoomData {
    fn wrap(document: Document) -> (value: RoomData) {
        RoomData(document)
    }

    fn document(&self) -> (document: &Document) {
        &self.0
    }
}

impl Clone for RoomData {
    fn clone(&self) -> (copy: RoomData)
        ensures
            copy@ == self@,
    {
        RoomData(self.0.clone())
    }
}

impl View for PlayerData {
    type V = Json;

    open spec fn view(&self) -> Json {
        self.0@
    }
}

impl Carried for PlayerData {
    fn wrap(document: Document) -> (value: PlayerData) {
        PlayerData(document)
    }

    fn document(&self) -> (document: &Document) {
        &self.0
    }
}

impl Clone for PlayerData {
    fn clone(&self) -> (copy: PlayerData)
        ensures
            copy@ == self@,
    {
        PlayerData(self.0.clone())
    }
}

impl View for PlayerInfo {
    type V = Json;

    open spec fn view(&self) -> Json {
        self.0@
    }
}

impl Carried for PlayerInfo {
    fn wrap(document: Document) -> (value: PlayerInfo) {
        PlayerInfo(document)
    }

    fn document(&self) -> (document: &Document) {
        &self.0
    }
}

impl Clone for PlayerInfo {
    fn clone(&self) -> (copy: PlayerInfo)
        ensures
            copy@ == self@,
    {
        PlayerInfo(self.0.clone())
    }
}

impl View for GameState {
    type V = Json;

    open spec fn view(&self) -> Json {
        self.0@
    }
}

impl Carried for GameState {
    fn wrap(document: Document) -> (value: GameState) {
        GameState(document)
    }

    fn document(&self) -> (document: &Document) {
        &self.0
    }
}

impl Clone for GameState {
    fn clone(&self) -> (copy: GameState)
        ensures
            copy@ == self@,
    {
        GameState(self.0.clone())
    }
}

impl View for GameEvent {
    type V = Json;

    open spec fn view(&self) -> Json {
        self.0@
    }
}

impl Carried for GameEvent {
    fn wrap(document: Document) -> (value: GameEvent) {
        GameEvent(document)
    }

    fn document(&self) -> (document: &Document) {
        &self.0
    }
}

impl Clone for GameEvent {
    fn clone(&self) -> (copy: GameEvent)
        ensures
            copy@ == self@,
    {
        GameEvent(self.0.clone())
    }
}

impl View for Command {
    type V = Json;

    open spec fn view(&self) -> Json {
        self.0@
    }
}

impl Carried for Command {
    fn wrap(document: Document) -> (value: Command) {
        Command(document)
    }

    fn document(&self) -> (document: &Document) {
        &self.0
    }
}

impl Clone for Command {
    fn clone(&self) -> (copy: Command)
        ensures
            copy@ == self@,
    {
        Command(self.0.clone())
    }
}

/// The models of a run of carried values.
pub open spec fn carried_view<T: Carried>(items: Seq<T>) -> Seq<Json> {
    items.map_values(|item: T| item@)
}

/// Writes carried values as a list of documents.
pub fn list_of<T: Carried>(items: &Vec<T>) -> (list: Document)
    ensures
        list@ == Json::List(carried_view(items@)),
{
    let mut documents: Vec<Document> = Vec::new();
    let mut i: usize = 0;
    while i < items.len()
        invariant
            i <= items@.len(),
            documents@.len() == i,
            forall|k: int| 0 <= k < i ==> documents@[k]@ == items@[k]@,
        decreases items@.len() - i,
    {
        documents.push(items[i].document().clone());
        i += 1;
    }
    proof {
        lemma_view_of_list(documents);
        assert(items_view(documents@) =~= carried_view(items@));
    }
    Document::List(documents)
}

/// Reads carried values from the documents that stand for them.
pub fn carried_from<T: Carried>(documents: &Vec<Document>) -> (items: Vec<T>)
    ensures
        carried_view(items@) == items_view(documents@),
{
    let mut items: Vec<T> = Vec::new();
    let mut i: usize = 0;
    while i < documents.len()
        invariant
            i <= documents@.len(),
            items@.len() == i,
            forall|k: int| 0 <= k < i ==> items@[k]@ == documents@[k]@,
        decreases documents@.len() - i,
    {
        items.push(T::wrap(documents[i].clone()));
        i += 1;
    }
    proof {
        assert(carried_view(items@) =~= items_view(documents@));
    }
    items
}

} // verus!
