//! The ways in which a document can fail to be an event.

use crate::document::{Document, Json};
use crate::schema::Field;
use vstd::prelude::*;

verus! {

/// The model of a schema mismatch.
pub enum MismatchView {
    NotAnObject,
    MissingDiscriminator,
    InvalidDiscriminator(Json),
    UnknownDiscriminator(Seq<char>),
    MissingPayload,
    InvalidPayload,
    MissingField(Field),
    InvalidField(Field),
}

/// A well-formed document that is not an event of the vocabulary.
#[derive(Debug, PartialEq, Eq)]
pub enum SchemaMismatch {
    /// The document is not an object.
    NotAnObject,
    /// The document does not name its kind.
    MissingDiscriminator,
    /// What stands in the place of the discriminator, given here, is not
    /// text.
    InvalidDiscriminator(Document),
    /// The discriminator, given here, belongs to no kind of event.
    UnknownDiscriminator(String),
    /// The kind carries a payload and the document holds none.
    MissingPayload,
    /// The payload is not of the shape that every payload of the kind has.
    InvalidPayload,
    /// The payload lacks a field of the kind.
    MissingField(Field),
    /// A field of the payload holds a value of the wrong type.
    InvalidField(Field),
}

impl View for SchemaMismatch {
    type V = MismatchView;

    open spec fn view(&self) -> MismatchView {
        match self {
            SchemaMismatch::NotAnObject => MismatchView::NotAnObject,
            SchemaMismatch::MissingDiscriminator => MismatchView::MissingDiscriminator,
            SchemaMismatch::InvalidDiscriminator(found) => MismatchView::InvalidDiscriminator(
                found@,
            ),
            SchemaMismatch::UnknownDiscriminator(tag) => MismatchView::UnknownDiscriminator(tag@),
            SchemaMismatch::MissingPayload => MismatchView::MissingPayload,
            SchemaMismatch::InvalidPayload => MismatchView::InvalidPayload,
            SchemaMismatch::MissingField(field) => MismatchView::MissingField(*field),
            SchemaMismatch::InvalidField(field) => MismatchView::InvalidField(*field),
        }
    }
}

/// The model of a failed decoding.
pub enum DecodeErrorView {
    MalformedDocument,
    SchemaMismatch(MismatchView),
}

/// Why a text could not be decoded as an event.
#[derive(Debug, PartialEq, Eq)]
pub enum DecodeError {
    /// The text is not a well-formed document.
    MalformedDocument,
    /// The text is a well-formed document that is no event of the vocabulary.
    SchemaMismatch(SchemaMismatch),
}

impl View for DecodeError {
    type V = DecodeErrorView;

    open spec fn view(&self) -> DecodeErrorView {
        match self {
            DecodeError::MalformedDocument => DecodeErrorView::MalformedDocument,
            DecodeError::SchemaMismatch(mismatch) => DecodeErrorView::SchemaMismatch(mismatch@),
        }
    }
}

/// What an executable result has to be for it to agree with its model: a
/// value with the expected model, or the expected mismatch.
pub open spec fn agrees<T: View>(
    result: Result<T, SchemaMismatch>,
    expected: Result<T::V, MismatchView>,
) -> bool {
    match expected {
        Ok(value) => result matches Ok(found) && found@ == value,
        Err(mismatch) => result matches Err(found) && found@ == mismatch,
    }
}

} // verus!
