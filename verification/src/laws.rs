//! What holds of the vocabulary as a whole, proved from the definitions of
//! its parts.
//!
//! The laws are stated over the models of events and documents, the same
//! that the contracts of `ServerEvent::encode` and `ServerEvent::decode`
//! speak of: what is proved here of `wire` and `read` holds of every
//! document that the one writes and the other reads.

use crate::document::{lookup, Json, Member};
use crate::error::MismatchView;
use crate::event::ServerEventView;
use crate::payload::{lemma_lookup_finds, EndView};
use crate::schema::{lemma_document_keys_differ, payload_key, type_key, EventKind, Field};
use crate::types::Command;
use vstd::prelude::*;

verus! {

/// The keys of members, in the order in which the members stand.
pub open spec fn keys_of(members: Seq<Member>) -> Seq<Seq<char>> {
    members.map_values(|member: Member| member.key)
}

/// The end of a round with the given payload.
pub open spec fn round_over(payload: EndView) -> ServerEventView {
    ServerEventView::RoundOver { payload }
}

/// The end of a game with the given payload.
pub open spec fn game_over(payload: EndView) -> ServerEventView {
    ServerEventView::GameOver { payload }
}

/// The discriminator and the payload of a written event are found again
/// under their keys.
proof fn lemma_written_members(event: ServerEventView)
    ensures
        event.wire() matches Json::Object(members) && {
            &&& lookup(members, type_key()) == Some(Json::Text(event.kind().tag()))
            &&& lookup(members, payload_key()) == event.payload_wire()
        },
{
    lemma_document_keys_differ();
    let members = event.wire()->Object_0;
    lemma_lookup_finds(members, 0);
    if event.payload_wire() is Some {
        lemma_lookup_finds(members, 1);
    } else {
        assert(members.drop_last() =~= Seq::<Member>::empty());
        assert(lookup(members.drop_last(), payload_key()) is None);
    }
}

/// The payload of a written event reads back as the event.
proof fn lemma_payload_round_trip(event: ServerEventView)
    requires
        event.payload_wire() is Some,
    ensures
        ServerEventView::read_payload(event.kind(), event.payload_wire()->Some_0) matches Ok(back)
            && back == event,
{
    match event {
        ServerEventView::RoomData { payload } => payload.lemma_read_wire(),
        ServerEventView::Authenticated { payload } => payload.lemma_read_wire(),
        ServerEventView::Error { payload } => {},
        ServerEventView::PlayerJoined { payload } => payload.lemma_read_wire(),
        ServerEventView::PlayerLeft { payload } => payload.lemma_read_wire(),
        ServerEventView::PlayerBanned { payload } => payload.lemma_read_wire(),
        ServerEventView::PlayerUnbanned { payload } => payload.lemma_read_wire(),
        ServerEventView::SettingsChanged { payload } => payload.lemma_read_wire(),
        ServerEventView::HostChanged { payload } => payload.lemma_read_wire(),
        ServerEventView::GameStarted => {},
        ServerEventView::RoundStarted { payload } => payload.lemma_read_wire(),
        ServerEventView::RequestMove { payload } => payload.lemma_read_wire(),
        ServerEventView::Action { payload } => payload.lemma_read_wire(),
        ServerEventView::PlayerAction { payload } => payload.lemma_read_wire(),
        ServerEventView::PlayerDamageReceived { payload } => payload.lemma_read_wire(),
        ServerEventView::RoundOver { payload } => payload.lemma_read_wire(),
        ServerEventView::GameOver { payload } => payload.lemma_read_wire(),
        ServerEventView::GameReset { payload } => payload.lemma_read_wire(),
    }
}

/// A member under another key does not change what is found under a key.
proof fn lemma_lookup_skips(members: Seq<Member>, at: int, extra: Member, key: Seq<char>)
    requires
        0 <= at <= members.len(),
        extra.key != key,
    ensures
        lookup(members.insert(at, extra), key) == lookup(members, key),
    decreases members.len(),
{
    let longer = members.insert(at, extra);
    if at == members.len() {
        assert(longer.drop_last() =~= members);
    } else {
        assert(longer.last() == members.last());
        assert(longer.drop_last() =~= members.drop_last().insert(at, extra));
        lemma_lookup_skips(members.drop_last(), at, extra, key);
    }
}

/// What stands under the key of a field of the kind is not changed by a
/// member under a key that is none of theirs.
proof fn lemma_field_is_passed_over(
    kind: EventKind,
    i: int,
    payload: Seq<Member>,
    at: int,
    extra: Member,
)
    requires
        0 <= at <= payload.len(),
        forall|field: Field| kind.fields().contains(field) ==> extra.key != #[trigger] field.key(),
    ensures
        0 <= i < kind.fields().len() ==> lookup(payload.insert(at, extra), kind.fields()[i].key())
            == lookup(payload, kind.fields()[i].key()),
{
    if 0 <= i < kind.fields().len() {
        assert(kind.fields().contains(kind.fields()[i]));
        lemma_lookup_skips(payload, at, extra, kind.fields()[i].key());
    }
}

/// An event that is written and read again is the event that it was,
/// whatever its kind and whatever its payload holds.
pub proof fn law_round_trip(event: ServerEventView)
    ensures
        ServerEventView::read(event.wire()) matches Ok(back) && back == event,
{
    lemma_written_members(event);
    event.kind().lemma_of_tag();
    if event.payload_wire() is Some {
        lemma_payload_round_trip(event);
    }
}

/// A document whose discriminator is text that names no kind is rejected,
/// and the mismatch names that text. No kind stands in for an unknown one.
pub proof fn law_unknown_discriminator_is_rejected(members: Seq<Member>, tag: Seq<char>)
    requires
        lookup(members, type_key()) == Some(Json::Text(tag)),
        !EventKind::is_tag(tag),
    ensures
        ServerEventView::read(Json::Object(members)) == Err::<ServerEventView, MismatchView>(
            MismatchView::UnknownDiscriminator(tag),
        ),
{
}

/// A document of a kind whose payload is an object without one of the
/// fields of the kind is rejected.
pub proof fn law_missing_field_is_rejected(
    kind: EventKind,
    field: Field,
    members: Seq<Member>,
    payload: Seq<Member>,
)
    requires
        kind.fields().contains(field),
        lookup(members, type_key()) == Some(Json::Text(kind.tag())),
        lookup(members, payload_key()) == Some(Json::Object(payload)),
        lookup(payload, field.key()) is None,
    ensures
        ServerEventView::read(Json::Object(members)) is Err,
{
    kind.lemma_of_tag();
    let fields = kind.fields();
    let i = choose|i: int| 0 <= i < fields.len() && fields[i] == field;
    assert(fields[i] == field);
}

/// A document with the discriminator of `GameStarted` reads as that event,
/// whatever else it holds; the event is written as the discriminator alone,
/// and what is written reads as the event again.
pub proof fn law_game_started_needs_no_payload(members: Seq<Member>)
    requires
        lookup(members, type_key()) == Some(Json::Text(EventKind::GameStarted.tag())),
    ensures
        ServerEventView::read(Json::Object(members)) == Ok::<ServerEventView, MismatchView>(
            ServerEventView::GameStarted,
        ),
        ServerEventView::GameStarted.wire() == Json::Object(
            seq![Member { key: type_key(), value: Json::Text(EventKind::GameStarted.tag()) }],
        ),
        ServerEventView::read(ServerEventView::GameStarted.wire()) == Ok::<
            ServerEventView,
            MismatchView,
        >(ServerEventView::GameStarted),
{
    EventKind::GameStarted.lemma_of_tag();
    law_round_trip(ServerEventView::GameStarted);
}

/// Pushing two commands one after the other gives the batch that appending
/// the two at once gives.
pub proof fn law_push_twice_is_append(batch: Seq<Command>, first: Command, second: Command)
    ensures
        batch.push(first).push(second) == batch + seq![first, second],
{
    assert(batch.push(first).push(second) =~= batch + seq![first, second]);
}

/// The end of a round and the end of a game are written with the same
/// payload, differ in the discriminator, and each reads back as what it
/// was.
pub proof fn law_end_events_differ_by_discriminator(payload: EndView)
    ensures
        round_over(payload).payload_wire() == game_over(payload).payload_wire(),
        round_over(payload).wire() != game_over(payload).wire(),
        ServerEventView::read(round_over(payload).wire()) matches Ok(back) && back == round_over(
            payload,
        ),
        ServerEventView::read(game_over(payload).wire()) matches Ok(back) && back == game_over(
            payload,
        ),
{
    law_round_trip(round_over(payload));
    law_round_trip(game_over(payload));
}

/// The payload of a written event is an object whose keys are the keys of
/// the fields of its kind, in their order, letter for letter.
pub proof fn law_payload_keys(event: ServerEventView)
    requires
        event.kind() != EventKind::Error,
        event.kind() != EventKind::GameStarted,
    ensures
        event.payload_wire() matches Some(Json::Object(members)) && keys_of(members)
            == event.kind().fields().map_values(|field: Field| field.key()),
{
    let members = event.payload_wire()->Some_0->Object_0;
    assert(keys_of(members) =~= event.kind().fields().map_values(|field: Field| field.key()));
}

/// A member of an event document under a key other than `type` and
/// `payload` is passed over, wherever it stands.
pub proof fn law_other_members_are_passed_over(members: Seq<Member>, at: int, extra: Member)
    requires
        0 <= at <= members.len(),
        extra.key != type_key(),
        extra.key != payload_key(),
    ensures
        ServerEventView::read(Json::Object(members.insert(at, extra))) == ServerEventView::read(
            Json::Object(members),
        ),
{
    lemma_lookup_skips(members, at, extra, type_key());
    lemma_lookup_skips(members, at, extra, payload_key());
}

/// A member of a payload under a key that is none of the keys of the fields
/// of the kind is passed over, wherever it stands.
pub proof fn law_other_payload_members_are_passed_over(
    kind: EventKind,
    payload: Seq<Member>,
    at: int,
    extra: Member,
)
    requires
        0 <= at <= payload.len(),
        forall|field: Field| kind.fields().contains(field) ==> extra.key != #[trigger] field.key(),
    ensures
        ServerEventView::read_payload(kind, Json::Object(payload.insert(at, extra)))
            == ServerEventView::read_payload(kind, Json::Object(payload)),
{
    lemma_field_is_passed_over(kind, 0, payload, at, extra);
    lemma_field_is_passed_over(kind, 1, payload, at, extra);
    lemma_field_is_passed_over(kind, 2, payload, at, extra);
    lemma_field_is_passed_over(kind, 3, payload, at, extra);
}

} // verus!
