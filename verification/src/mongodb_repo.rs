//! The store adapter: where the collection of to-dos lives, and the two
//! operations on it, each as a protocol of requests and replies.
//!
//! An operation begins with a step. A step either asks for one request to
//! be put to the store, and keeps the state to resume with, or is done with
//! a result. Nothing is retried: the first failure ends the operation.

use vstd::prelude::*;
use crate::error::StoreError;
use crate::store_protocol::{StoreReply, StoreReplyModel, StoreRequest, StoreRequestModel};
use crate::todo_model::{todo_models, Todo, TodoModel};

verus! {

/// Where a creation stands while it waits for the store.
#[derive(Clone, Copy, Debug, PartialEq, Eq, Hash, Structural)]
pub enum CreateState {
    /// The insert was asked for.
    Inserting,
    /// The record was inserted and the search for it was asked for.
    ReadingBack,
}

/// One step of a creation.
#[derive(Debug, PartialEq, Eq)]
pub enum CreateStep {
    Ask(CreateState, StoreRequest),
    Done(Result<Todo, StoreError>),
}

/// Where a listing stands while it waits for the store.
#[derive(Debug, PartialEq, Eq)]
pub enum ListState {
    /// The scan was asked for.
    Opening,
    /// The scan is open; these records were read so far, in order.
    Reading(Vec<Todo>),
}

/// One step of a listing.
#[derive(Debug, PartialEq, Eq)]
pub enum ListStep {
    Ask(ListState, StoreRequest),
    Done(Result<Vec<Todo>, StoreError>),
}

/// What a step of a creation holds.
pub enum CreateStepModel {
    Ask(CreateState, StoreRequestModel),
    Done(Result<TodoModel, StoreError>),
}

/// What the state of a listing holds.
pub enum ListStateModel {
    Opening,
    Reading(Seq<TodoModel>),
}

/// What a step of a listing holds.
pub enum ListStepModel {
    Ask(ListStateModel, StoreRequestModel),
    Done(Result<Seq<TodoModel>, StoreError>),
}

impl View for CreateStep {
    type V = CreateStepModel;

    open spec fn view(&self) -> CreateStepModel {
        match *self {
            CreateStep::Ask(state, request) => CreateStepModel::Ask(state, request@),
            CreateStep::Done(Ok(todo)) => CreateStepModel::Done(Ok(todo@)),
            CreateStep::Done(Err(error)) => CreateStepModel::Done(Err(error)),
        }
    }
}

impl View for ListState {
    type V = ListStateModel;

    open spec fn view(&self) -> ListStateModel {
        match *self {
            ListState::Opening => ListStateModel::Opening,
            ListState::Reading(todos) => ListStateModel::Reading(todo_models(todos@)),
        }
    }
}

impl View for ListStep {
    type V = ListStepModel;

    open spec fn view(&self) -> ListStepModel {
        match *self {
            ListStep::Ask(state, request) => ListStepModel::Ask(state@, request@),
            ListStep::Done(Ok(todos)) => ListStepModel::Done(Ok(todo_models(todos@))),
            ListStep::Done(Err(error)) => ListStepModel::Done(Err(error)),
        }
    }
}

/// The first step of a creation: to insert the record without any
/// identifier of the caller's.
pub open spec fn create_begin(new_todo: TodoModel) -> CreateStepModel {
    CreateStepModel::Ask(
        CreateState::Inserting,
        StoreRequestModel::InsertOne(
            TodoModel {
                id: None,
                name: new_todo.name,
                created_at: new_todo.created_at,
                updated_at: new_todo.updated_at,
            },
        ),
    )
}

/// The step of a creation after a reply.
///
/// Once the store has inserted the record, the record is read again by
/// the identifier it was given, and what is read is the result. Any other
/// reply to the insert is a failed write. A search that fails, finds
/// nothing or is answered by anything else is a failed read-back.
pub open spec fn create_resume(state: CreateState, reply: StoreReplyModel) -> CreateStepModel {
    match state {
        CreateState::Inserting => match reply {
            StoreReplyModel::Inserted(id) => CreateStepModel::Ask(
                CreateState::ReadingBack,
                StoreRequestModel::FindOneById(id),
            ),
            _ => CreateStepModel::Done(Err(StoreError::WriteFailed)),
        },
        CreateState::ReadingBack => match reply {
            StoreReplyModel::Found(Some(todo)) => CreateStepModel::Done(Ok(todo)),
            _ => CreateStepModel::Done(Err(StoreError::ReadBackFailed)),
        },
    }
}

/// The first step of a listing: to open a scan over the collection.
pub open spec fn list_begin() -> ListStepModel {
    ListStepModel::Ask(ListStateModel::Opening, StoreRequestModel::FindAll)
}

/// The step of a listing after a reply.
///
/// Once the scan is open, each record that it yields is appended to those
/// read before, and the end of the scan gives them all as the result. Any
/// other reply is a failed read.
pub open spec fn list_resume(state: ListStateModel, reply: StoreReplyModel) -> ListStepModel {
    match state {
        ListStateModel::Opening => match reply {
            StoreReplyModel::ScanOpened => ListStepModel::Ask(
                ListStateModel::Reading(Seq::empty()),
                StoreRequestModel::NextDocument,
            ),
            _ => ListStepModel::Done(Err(StoreError::ReadFailed)),
        },
        ListStateModel::Reading(todos) => match reply {
            StoreReplyModel::Document(todo) => ListStepModel::Ask(
                ListStateModel::Reading(todos.push(todo)),
                StoreRequestModel::NextDocument,
            ),
            StoreReplyModel::EndOfScan => ListStepModel::Done(Ok(todos)),
            _ => ListStepModel::Done(Err(StoreError::ReadFailed)),
        },
    }
}

/// The address to connect to when none is configured.
pub open spec fn unset_uri() -> Seq<char> {
    "Error loading env variable"@
}

/// The name of the database.
pub open spec fn database_name() -> Seq<char> {
    "rustmongo"@
}

/// The name of the collection of to-dos.
pub open spec fn collection_name() -> Seq<char> {
    "todo"@
}

/// The store adapter. It names the one collection that every request
/// goes to.
#[derive(Debug, PartialEq, Eq)]
pub struct MongoRepo {
    pub uri: String,
    pub database: String,
    pub collection: String,
}

/// What the store adapter holds: the address of the server and the names
/// of the database and of the collection in it.
pub struct MongoRepoModel {
    pub uri: Seq<char>,
    pub database: Seq<char>,
    pub collection: Seq<char>,
}

impl View for MongoRepo {
    type V = MongoRepoModel;

    open spec fn view(&self) -> MongoRepoModel {
        MongoRepoModel { uri: self.uri@, database: self.database@, collection: self.collection@ }
    }
}

/// The adapter for the collection of to-dos at the address `uri`, or at
/// none.
pub open spec fn repo_at(uri: Option<Seq<char>>) -> MongoRepoModel {
    MongoRepoModel {
        uri: match uri {
            Some(address) => address,
            None => unset_uri(),
        },
        database: database_name(),
        collection: collection_name(),
    }
}

impl MongoRepo {
    /// The adapter for the collection of to-dos at the configured address
    /// `uri`. Without a configured address the adapter holds a text that is
    /// no address, so that connecting with it fails.
    pub fn init(uri: Option<String>) -> (repo: MongoRepo)
        ensures
            repo@ == repo_at(uri.deep_view()),
    {
        let uri = match uri {
            Some(address) => address,
            None => "Error loading env variable".to_owned(),
        };
        MongoRepo { uri, database: "rustmongo".to_owned(), collection: "todo".to_owned() }
    }

    /// Begins the creation of `new_todo`.
    pub fn create_todo(&self, new_todo: Todo) -> (step: CreateStep)
        ensures
            step@ == create_begin(new_todo@),
    {
        let new_doc = Todo {
            id: None,
            name: new_todo.name,
            created_at: new_todo.created_at,
            updated_at: new_todo.updated_at,
        };
        CreateStep::Ask(CreateState::Inserting, StoreRequest::InsertOne(new_doc))
    }

    /// Resumes a creation in `state` with the store's `reply` to the
    /// request of the step before.
    pub fn create_todo_resume(&self, state: CreateState, reply: StoreReply) -> (step: CreateStep)
        ensures
            step@ == create_resume(state, reply@),
    {
        match state {
            CreateState::Inserting => match reply {
                StoreReply::Inserted(id) => CreateStep::Ask(
                    CreateState::ReadingBack,
                    StoreRequest::FindOneById(id),
                ),
                _ => CreateStep::Done(Err(StoreError::WriteFailed)),
            },
            CreateState::ReadingBack => match reply {
                StoreReply::Found(Some(todo)) => CreateStep::Done(Ok(todo)),
                _ => CreateStep::Done(Err(StoreError::ReadBackFailed)),
            },
        }
    }

    /// Begins a listing of every to-do.
    pub fn get_all_todos(&self) -> (step: ListStep)
        ensures
            step@ == list_begin(),
    {
        ListStep::Ask(ListState::Opening, StoreRequest::FindAll)
    }

    /// Resumes a listing in `state` with the store's `reply` to the request
    /// of the step before.
    pub fn get_all_todos_resume(&self, state: ListState, reply: StoreReply) -> (step: ListStep)
        ensures
            step@ == list_resume(state@, reply@),
    {
        match state {
            ListState::Opening => match reply {
                StoreReply::ScanOpened => {
                    let todos: Vec<Todo> = Vec::new();
                    assert(todo_models(todos@) =~= Seq::empty());
                    ListStep::Ask(ListState::Reading(todos), StoreRequest::NextDocument)
                },
                _ => ListStep::Done(Err(StoreError::ReadFailed)),
            },
            ListState::Reading(mut todos) => match reply {
                StoreReply::Document(todo) => {
                    let ghost before = todos@;
                    todos.push(todo);
                    assert(todo_models(todos@) =~= todo_models(before).push(todo@));
                    ListStep::Ask(ListState::Reading(todos), StoreRequest::NextDocument)
                },
                StoreReply::EndOfScan => ListStep::Done(Ok(todos)),
                _ => ListStep::Done(Err(StoreError::ReadFailed)),
            },
        }
    }
}

} // verus!
