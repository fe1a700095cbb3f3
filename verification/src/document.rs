//! Structured documents: the self-describing values that events travel as.
//!
//! `Document` is the executable value; `Json` is its mathematical model, over
//! which every contract of the crate is stated.

use crate::number::Number;
use crate::text::same_text;
use vstd::prelude::*;

verus! {

/// The mathematical model of a document.
pub enum Json {
    Null,
    Bool(bool),
    /// A number, by its literal.
    Number(Seq<char>),
    Text(Seq<char>),
    List(Seq<Json>),
    /// The members of an object, in the order in which they are written.
    Object(Seq<Member>),
}

/// A member of an object in the model: a key and the value under it.
pub struct Member {
    pub key: Seq<char>,
    pub value: Json,
}

/// A structured document.
#[derive(Debug, PartialEq, Eq)]
pub enum Document {
    Null,
    Bool(bool),
    Number(Number),
    Text(String),
    List(Vec<Document>),
    /// The members of an object, in the order in which they are written.
    Object(Vec<(String, Document)>),
}

/// The models of a run of documents.
pub open spec fn items_view(items: Seq<Document>) -> Seq<Json> {
    items.map_values(|item: Document| item@)
}

/// The models of the members of an object.
pub open spec fn members_view(members: Seq<(String, Document)>) -> Seq<Member> {
    members.map_values(|member: (String, Document)| Member { key: member.0@, value: member.1@ })
}

/// The value that members hold under `key`: that of the last member with this
/// key, if there is one.
pub open spec fn lookup(members: Seq<Member>, key: Seq<char>) -> Option<Json>
    decreases members.len(),
{
    if members.len() == 0 {
        None
    } else if members.last().key == key {
        Some(members.last().value)
    } else {
        lookup(members.drop_last(), key)
    }
}

impl View for Document {
    type V = Json;

    /// The model of a document. That of a list holds the models of the
    /// items, that of an object the keys and the models of the values; see
    /// `lemma_view_of_list` and `lemma_view_of_object`.
    open spec fn view(&self) -> Json
        decreases self,
    {
        match self {
            Document::Null => Json::Null,
            Document::Bool(b) => Json::Bool(*b),
            Document::Number(n) => Json::Number(n@),
            Document::Text(s) => Json::Text(s@),
            Document::List(items) => Json::List(
                Seq::new(
                    items@.len(),
                    |i: int|
                        if 0 <= i < items@.len() {
                            items@[i]@
                        } else {
                            Json::Null
                        },
                ),
            ),
            Document::Object(members) => Json::Object(
                Seq::new(
                    members@.len(),
                    |i: int|
                        if 0 <= i < members@.len() {
                            Member { key: members@[i].0@, value: members@[i].1@ }
                        } else {
                            Member { key: Seq::empty(), value: Json::Null }
                        },
                ),
            ),
        }
    }
}

/// The model of a list is the list of the models of its items.
pub proof fn lemma_view_of_list(items: Vec<Document>)
    ensures
        Document::List(items)@ == Json::List(items_view(items@)),
{
    assert(Document::List(items)@->List_0 =~= items_view(items@));
}

/// The model of an object is made of the models of its members.
pub proof fn lemma_view_of_object(members: Vec<(String, Document)>)
    ensures
        Document::Object(members)@ == Json::Object(members_view(members@)),
{
    assert(Document::Object(members)@->Object_0 =~= members_view(members@));
}

/// Looks up the value that members hold under `key`.
pub fn find<'a>(members: &'a Vec<(String, Document)>, key: &str) -> (found: Option<&'a Document>)
    ensures
        match found {
            Some(value) => lookup(members_view(members@), key@) == Some(value@),
            None => lookup(members_view(members@), key@) is None,
        },
{
    let ghost all = members_view(members@);
    let mut i: usize = members.len();
    assert(all.take(i as int) =~= all);
    while i > 0
        invariant
            i <= members@.len(),
            all == members_view(members@),
            lookup(all, key@) == lookup(all.take(i as int), key@),
        decreases i,
    {
        i -= 1;
        assert(all.take(i + 1).drop_last() =~= all.take(i as int));
        if same_text(members[i].0.as_str(), key) {
            return Some(&members[i].1);
        }
    }
    None
}

impl Clone for Document {
    /// A copy of the document, with the same model.
    fn clone(&self) -> (copy: Document)
        ensures
            copy@ == self@,
        decreases self,
    {
        match self {
            Document::Null => Document::Null,
            Document::Bool(b) => Document::Bool(*b),
            Document::Number(n) => Document::Number(n.clone()),
            Document::Text(s) => Document::Text(s.clone()),
            Document::List(items) => {
                let mut copies: Vec<Document> = Vec::new();
                let mut i: usize = 0;
                while i < items.len()
                    invariant
                        i <= items@.len(),
                        *self == Document::List(*items),
                        copies@.len() == i,
                        forall|k: int| 0 <= k < i ==> copies@[k]@ == items@[k]@,
                    decreases items@.len() - i,
                {
                    assert(decreases_to!(*self => self->List_0));
                    copies.push(items[i].clone());
                    i += 1;
                }
                proof {
                    lemma_view_of_list(*items);
                    lemma_view_of_list(copies);
                    assert(items_view(copies@) =~= items_view(items@));
                }
                Document::List(copies)
            },
            Document::Object(members) => {
                let mut copies: Vec<(String, Document)> = Vec::new();
                let mut i: usize = 0;
                while i < members.len()
                    invariant
                        i <= members@.len(),
                        *self == Document::Object(*members),
                        copies@.len() == i,
                        forall|k: int|
                            0 <= k < i ==> copies@[k].0@ == members@[k].0@ && copies@[k].1@
                                == members@[k].1@,
                    decreases members@.len() - i,
                {
                    assert(decreases_to!(*self => self->Object_0));
                    copies.push((members[i].0.clone(), members[i].1.clone()));
                    i += 1;
                }
                proof {
                    lemma_view_of_object(*members);
                    lemma_view_of_object(copies);
                    assert(members_view(copies@) =~= members_view(members@));
                }
                Document::Object(copies)
            },
        }
    }
}

} // verus!
