//! Documents and events as text.
//!
//! The text of a document is read and written by `serde_json`; this module
//! turns what `serde_json` hands over into documents, documents into what it
//! takes, and joins the two with the reading and writing of events. Its
//! contracts name the outcome of each outside call (`parsed_text`,
//! `printed_text`, `number_read`) and are exact about all that is around it.

use crate::document::{
    items_view, lemma_view_of_list, lemma_view_of_object, members_view, Document, Json,
};
use crate::error::{DecodeError, DecodeErrorView};
use crate::event::{ServerEvent, ServerEventView};
use crate::json_value::{
    bool_of, bool_value, entries_model, entries_of, is_null, items_of, keys_differ, list_value,
    literal_of, members_model, null_value, number_read, number_value, object_value, parse_value,
    parsed_text, print_value, printed_text, text_of, text_value, value_model, values_model,
};
use crate::number::{is_number_literal, Number};
use crate::text::same_text;
use vstd::prelude::*;

verus! {

/// Every number of the document is a literal in normal form.
pub open spec fn numbers_well_formed(document: Json) -> bool
    decreases document,
{
    match document {
        Json::Number(literal) => is_number_literal(literal),
        Json::List(items) => forall|i: int|
            0 <= i < items.len() ==> numbers_well_formed(#[trigger] items[i]),
        Json::Object(members) => forall|i: int|
            0 <= i < members.len() ==> numbers_well_formed((#[trigger] members[i]).value),
        _ => true,
    }
}

/// In no object of the document does a key stand twice.
pub open spec fn keys_unique(document: Json) -> bool
    decreases document,
{
    match document {
        Json::List(items) => forall|i: int|
            0 <= i < items.len() ==> keys_unique(#[trigger] items[i]),
        Json::Object(members) => keys_differ(members) && forall|i: int|
            0 <= i < members.len() ==> keys_unique((#[trigger] members[i]).value),
        _ => true,
    }
}

/// Every number of the document has a literal that `serde_json` reads as a
/// number.
pub open spec fn numbers_read(document: Json) -> bool
    decreases document,
{
    match document {
        Json::Number(literal) => number_read(literal) is Some,
        Json::List(items) => forall|i: int|
            0 <= i < items.len() ==> numbers_read(#[trigger] items[i]),
        Json::Object(members) => forall|i: int|
            0 <= i < members.len() ==> numbers_read((#[trigger] members[i]).value),
        _ => true,
    }
}

/// A value can hold the document: no key stands twice in one object, since
/// a value keeps one member for each key, and every number is one that
/// `serde_json` reads.
pub open spec fn has_value(document: Json) -> bool {
    keys_unique(document) && numbers_read(document)
}

/// What reading a text as a document gives: the document that the text was
/// parsed to, provided that its numbers are in normal form.
pub open spec fn document_in(text: Seq<char>) -> Option<Json> {
    match parsed_text(text) {
        Some(document) => if numbers_well_formed(document) {
            Some(document)
        } else {
            None
        },
        None => None,
    }
}

/// The document that a value holds, as a document of this crate. A value
/// with a number that is not in normal form has none.
pub fn document_of(value: &serde_json::Value) -> (document: Option<Document>)
    ensures
        document matches Some(found) ==> found@ == value_model(*value),
        document is Some <==> numbers_well_formed(value_model(*value)),
    decreases value_model(*value),
{
    let ghost model = value_model(*value);
    if is_null(value) {
        return Some(Document::Null);
    }
    if let Some(b) = bool_of(value) {
        return Some(Document::Bool(b));
    }
    if let Some(literal) = literal_of(value) {
        return match Number::parse(literal) {
            Some(number) => Some(Document::Number(number)),
            None => None,
        };
    }
    if let Some(text) = text_of(value) {
        return Some(Document::Text(text.to_owned()));
    }
    if let Some(items) = items_of(value) {
        let mut documents: Vec<Document> = Vec::new();
        let mut i: usize = 0;
        while i < items.len()
            invariant
                i <= items@.len(),
                model == value_model(*value),
                model == Json::List(values_model(items@)),
                documents@.len() == i,
                forall|k: int| 0 <= k < i ==> documents@[k]@ == value_model(items@[k]),
                forall|k: int| 0 <= k < i ==> numbers_well_formed(value_model(items@[k])),
            decreases items@.len() - i,
        {
            assert(model->List_0[i as int] == value_model(items@[i as int]));
            match document_of(&items[i]) {
                Some(document) => {
                    documents.push(document);
                },
                None => {
                    return None;
                },
            }
            i += 1;
        }
        proof {
            lemma_view_of_list(documents);
            assert(items_view(documents@) =~= values_model(items@));
            assert forall|k: int| 0 <= k < model->List_0.len() implies numbers_well_formed(
                #[trigger] model->List_0[k],
            ) by {
                assert(model->List_0[k] == value_model(items@[k]));
            }
        }
        return Some(Document::List(documents));
    }
    match entries_of(value) {
        Some(entries) => {
            let mut members: Vec<(String, Document)> = Vec::new();
            let mut i: usize = 0;
            while i < entries.len()
                invariant
                    i <= entries@.len(),
                    model == value_model(*value),
                    model == Json::Object(entries_model(entries@)),
                    members@.len() == i,
                    forall|k: int|
                        0 <= k < i ==> members@[k].0@ == entries@[k].0@ && members@[k].1@
                            == value_model(*entries@[k].1),
                    forall|k: int| 0 <= k < i ==> numbers_well_formed(value_model(*entries@[k].1)),
                decreases entries@.len() - i,
            {
                assert(model->Object_0[i as int].value == value_model(*entries@[i as int].1));
                let key = entries[i].0;
                match document_of(entries[i].1) {
                    Some(document) => {
                        members.push((key.clone(), document));
                    },
                    None => {
                        return None;
                    },
                }
                i += 1;
            }
            proof {
                lemma_view_of_object(members);
                assert(members_view(members@) =~= entries_model(entries@));
                assert forall|k: int| 0 <= k < model->Object_0.len() implies numbers_well_formed(
                    (#[trigger] model->Object_0[k]).value,
                ) by {
                    assert(model->Object_0[k].value == value_model(*entries@[k].1));
                }
            }
            Some(Document::Object(members))
        },
        None => None,
    }
}

/// A value that holds the document. There is one exactly where no key stands
/// twice in one object and `serde_json` reads every number.
pub fn value_of(document: &Document) -> (value: Option<serde_json::Value>)
    ensures
        value matches Some(made) ==> value_model(made) == document@,
        value is Some <==> has_value(document@),
    decreases document,
{
    match document {
        Document::Null => Some(null_value()),
        Document::Bool(b) => Some(bool_value(*b)),
        Document::Number(number) => number_value(number.literal()),
        Document::Text(text) => Some(text_value(text.clone())),
        Document::List(items) => {
            proof {
                lemma_view_of_list(*items);
            }
            let mut values: Vec<serde_json::Value> = Vec::new();
            let mut i: usize = 0;
            while i < items.len()
                invariant
                    i <= items@.len(),
                    *document == Document::List(*items),
                    document@ == Json::List(items_view(items@)),
                    values@.len() == i,
                    forall|k: int| 0 <= k < i ==> value_model(values@[k]) == items@[k]@,
                    forall|k: int| 0 <= k < i ==> has_value(items@[k]@),
                decreases items@.len() - i,
            {
                assert(decreases_to!(*document => document->List_0));
                match value_of(&items[i]) {
                    Some(value) => {
                        values.push(value);
                    },
                    None => {
                        proof {
                            let held = document@->List_0;
                            assert(held[i as int] == items@[i as int]@);
                            assert(!keys_unique(held[i as int]) || !numbers_read(held[i as int]));
                        }
                        return None;
                    },
                }
                i += 1;
            }
            proof {
                assert(values_model(values@) =~= items_view(items@));
                assert forall|k: int| 0 <= k < items@.len() implies has_value(
                    #[trigger] items_view(items@)[k],
                ) by {
                    assert(items_view(items@)[k] == items@[k]@);
                }
            }
            Some(list_value(values))
        },
        Document::Object(members) => {
            proof {
                lemma_view_of_object(*members);
            }
            if !keys_are_distinct(members) {
                return None;
            }
            let mut entries: Vec<(String, serde_json::Value)> = Vec::new();
            let mut i: usize = 0;
            while i < members.len()
                invariant
                    i <= members@.len(),
                    *document == Document::Object(*members),
                    document@ == Json::Object(members_view(members@)),
                    keys_differ(members_view(members@)),
                    entries@.len() == i,
                    forall|k: int|
                        0 <= k < i ==> entries@[k].0@ == members@[k].0@ && value_model(
                            entries@[k].1,
                        ) == members@[k].1@,
                    forall|k: int| 0 <= k < i ==> has_value(members@[k].1@),
                decreases members@.len() - i,
            {
                assert(decreases_to!(*document => document->Object_0));
                match value_of(&members[i].1) {
                    Some(value) => {
                        entries.push((members[i].0.clone(), value));
                    },
                    None => {
                        proof {
                            let held = document@->Object_0;
                            assert(held[i as int].value == members@[i as int].1@);
                            assert(!keys_unique(held[i as int].value) || !numbers_read(
                                held[i as int].value,
                            ));
                        }
                        return None;
                    },
                }
                i += 1;
            }
            proof {
                assert(members_model(entries@) =~= members_view(members@));
                assert forall|k: int| 0 <= k < members@.len() implies has_value(
                    (#[trigger] members_view(members@)[k]).value,
                ) by {
                    assert(members_view(members@)[k].value == members@[k].1@);
                }
            }
            Some(object_value(entries))
        },
    }
}

/// What writing a document as text gives: the text that `serde_json` prints
/// for it, provided that a value can hold the document.
pub open spec fn text_for(document: Json) -> Option<Seq<char>> {
    if has_value(document) {
        printed_text(document)
    } else {
        None
    }
}

/// Writes a document as text: the text that `serde_json` prints for a value
/// that holds the document. A document that no value can hold is not
/// written.
pub fn write_document(document: &Document) -> (text: Option<String>)
    ensures
        match text_for(document@) {
            Some(printed) => text matches Some(written) && written@ == printed,
            None => text is None,
        },
{
    match value_of(document) {
        Some(value) => print_value(&value),
        None => None,
    }
}

/// What reading a text as an event gives, once it is read as a document:
/// the event, a schema mismatch, or, without a document, a malformed one.
pub open spec fn event_in(parsed: Option<Json>) -> Result<ServerEventView, DecodeErrorView> {
    match parsed {
        Some(document) => match ServerEventView::read(document) {
            Ok(event) => Ok(event),
            Err(mismatch) => Err(DecodeErrorView::SchemaMismatch(mismatch)),
        },
        None => Err(DecodeErrorView::MalformedDocument),
    }
}

/// The model of what reading a text as a document gave: that of the
/// document, where there is one.
pub open spec fn model_of(parsed: Option<Document>) -> Option<Json> {
    match parsed {
        Some(document) => Some(document@),
        None => None,
    }
}

/// Reads a document from its text. Text that `serde_json` does not parse,
/// or that holds a number out of normal form, gives `None`.
pub fn read_document(text: &str) -> (document: Option<Document>)
    ensures
        match document_in(text@) {
            Some(model) => document matches Some(found) && found@ == model,
            None => document is None,
        },
{
    match parse_value(text) {
        Some(value) => document_of(&value),
        None => None,
    }
}

/// Writes an event as text: the text that `serde_json` prints for the
/// document of the event. An event that carries a document that no value can
/// hold is not written.
pub fn encode_text(event: &ServerEvent) -> (text: Option<String>)
    ensures
        match text_for(event@.wire()) {
            Some(printed) => text matches Some(written) && written@ == printed,
            None => text is None,
        },
{
    write_document(&event.encode())
}

/// Decides what a text is as an event, from what reading it as a document
/// gave.
pub fn decode_parsed(parsed: Option<Document>) -> (result: Result<ServerEvent, DecodeError>)
    ensures
        match event_in(model_of(parsed)) {
            Ok(event) => result matches Ok(found) && found@ == event,
            Err(error) => result matches Err(found) && found@ == error,
        },
{
    match parsed {
        Some(document) => match ServerEvent::decode(&document) {
            Ok(event) => Ok(event),
            Err(mismatch) => Err(DecodeError::SchemaMismatch(mismatch)),
        },
        None => Err(DecodeError::MalformedDocument),
    }
}

/// Reads an event from its text. Text that is not a well-formed document is
/// malformed; a well-formed document that is no event of the vocabulary is a
/// schema mismatch.
pub fn decode_text(text: &str) -> (result: Result<ServerEvent, DecodeError>)
    ensures
        match event_in(document_in(text@)) {
            Ok(event) => result matches Ok(found) && found@ == event,
            Err(error) => result matches Err(found) && found@ == error,
        },
{
    decode_parsed(read_document(text))
}

/// Tells whether the keys of the members of an object differ from one
/// another.
fn keys_are_distinct(members: &Vec<(String, Document)>) -> (distinct: bool)
    ensures
        distinct == keys_differ(members_view(members@)),
{
    let ghost all = members_view(members@);
    let mut j: usize = 0;
    while j < members.len()
        invariant
            j <= members@.len(),
            all == members_view(members@),
            forall|a: int, b: int|
                0 <= a < b < j ==> (#[trigger] all[a]).key != (#[trigger] all[b]).key,
        decreases members@.len() - j,
    {
        let mut i: usize = 0;
        while i < j
            invariant
                i <= j < members@.len(),
                all == members_view(members@),
                forall|a: int| 0 <= a < i ==> (#[trigger] all[a]).key != all[j as int].key,
            decreases j - i,
        {
            if same_text(members[i].0.as_str(), members[j].0.as_str()) {
                assert(all[i as int].key == all[j as int].key);
                return false;
            }
            i += 1;
        }
        j += 1;
    }
    true
}

} // verus!
