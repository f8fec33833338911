//! What the service asks of the document store, and what the store may
//! answer. The service never touches the store itself: whoever runs an
//! operation performs each request and hands the reply back.

use vstd::prelude::*;
use crate::document_id::DocumentId;
use crate::todo_model::{Todo, TodoModel};

verus! {

/// A request to the document store.
#[derive(Debug, PartialEq, Eq)]
pub enum StoreRequest {
    /// Insert this record, which has no identifier, and assign it one.
    InsertOne(Todo),
    /// Find the record with this identifier.
    FindOneById(DocumentId),
    /// Open a scan over every record of the collection.
    FindAll,
    /// Advance the open scan by one record.
    NextDocument,
}

/// The answer of the document store to a request.
#[derive(Debug, PartialEq, Eq)]
pub enum StoreReply {
    /// The record was inserted under this identifier.
    Inserted(DocumentId),
    /// The search ran, and found this record or none.
    Found(Option<Todo>),
    /// The scan is open.
    ScanOpened,
    /// The next record of the scan.
    Document(Todo),
    /// The scan has no more records.
    EndOfScan,
    /// The request failed.
    Failed,
}

/// What a request holds.
pub enum StoreRequestModel {
    InsertOne(TodoModel),
    FindOneById(Seq<u8>),
    FindAll,
    NextDocument,
}

/// What a reply holds.
pub enum StoreReplyModel {
    Inserted(Seq<u8>),
    Found(Option<TodoModel>),
    ScanOpened,
    Document(TodoModel),
    EndOfScan,
    Failed,
}

impl View for StoreRequest {
    type V = StoreRequestModel;

    open spec fn view(&self) -> StoreRequestModel {
        match *self {
            StoreRequest::InsertOne(todo) => StoreRequestModel::InsertOne(todo@),
            StoreRequest::FindOneById(id) => StoreRequestModel::FindOneById(id@),
            StoreRequest::FindAll => StoreRequestModel::FindAll,
            StoreRequest::NextDocument => StoreRequestModel::NextDocument,
        }
    }
}

impl View for StoreReply {
    type V = StoreReplyModel;

    open spec fn view(&self) -> StoreReplyModel {
        match *self {
            StoreReply::Inserted(id) => StoreReplyModel::Inserted(id@),
            StoreReply::Found(Some(todo)) => StoreReplyModel::Found(Some(todo@)),
            StoreReply::Found(None) => StoreReplyModel::Found(None),
            StoreReply::ScanOpened => StoreReplyModel::ScanOpened,
            StoreReply::Document(todo) => StoreReplyModel::Document(todo@),
            StoreReply::EndOfScan => StoreReplyModel::EndOfScan,
            StoreReply::Failed => StoreReplyModel::Failed,
        }
    }
}

} // verus!
