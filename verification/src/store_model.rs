//! The document store as the service expects it to behave, and what an
//! operation comes to when it is carried out against such a store.
//!
//! This is a model for stating laws, not a store: it exists in proofs only.

use vstd::prelude::*;
use crate::error::ResolveError;
use crate::mongodb_repo::{CreateState, ListStateModel};
use crate::resolvers::{
    create_todo_begin, create_todo_resume, todos_begin, todos_resume, CreateTodoStepModel,
    TodosStepModel,
};
use crate::store_protocol::{StoreReplyModel, StoreRequestModel};
use crate::todo_model::{TodoInputModel, TodoModel, TodoqlModel};

verus! {

/// A collection of to-dos: its records in the order in which a scan yields
/// them, and what is left to yield of the scan that is open.
pub struct StoreModel {
    pub docs: Seq<TodoModel>,
    pub scan: Seq<TodoModel>,
}

/// `todo` as the store keeps it under `id`.
pub open spec fn stored(todo: TodoModel, id: Seq<u8>) -> TodoModel {
    TodoModel {
        id: Some(id),
        name: todo.name,
        created_at: todo.created_at,
        updated_at: todo.updated_at,
    }
}

impl StoreModel {
    /// Whether some record has the identifier `id`.
    pub open spec fn holds(self, id: Seq<u8>) -> bool {
        exists|i: int| 0 <= i < self.docs.len() && #[trigger] self.docs[i].id == Some(id)
    }

    /// Every record has an identifier, and no two records share one.
    pub open spec fn valid(self) -> bool {
        &&& forall|i: int| 0 <= i < self.docs.len() ==> (#[trigger] self.docs[i]).id is Some
        &&& forall|i: int, j: int|
            0 <= i < j < self.docs.len() ==> (#[trigger] self.docs[i]).id != (
            #[trigger] self.docs[j]).id
    }

    /// The record with the identifier `id`, if there is one.
    pub open spec fn find(self, id: Seq<u8>) -> Option<TodoModel> {
        if self.holds(id) {
            Some(
                self.docs[choose|i: int|
                    0 <= i < self.docs.len() && #[trigger] self.docs[i].id == Some(id)],
            )
        } else {
            None
        }
    }

    /// The collection after `request`, and the reply to it.
    ///
    /// A store that is `up` carries the request out; it gives an inserted
    /// record the identifier `id`. A store that is not fails the request
    /// and stays as it is.
    pub open spec fn answer(self, up: bool, id: Seq<u8>, request: StoreRequestModel) -> (
        StoreModel,
        StoreReplyModel,
    ) {
        if !up {
            (self, StoreReplyModel::Failed)
        } else {
            match request {
                StoreRequestModel::InsertOne(todo) => (
                    StoreModel { docs: self.docs.push(stored(todo, id)), scan: self.scan },
                    StoreReplyModel::Inserted(id),
                ),
                StoreRequestModel::FindOneById(wanted) => (
                    self,
                    StoreReplyModel::Found(self.find(wanted)),
                ),
                StoreRequestModel::FindAll => (
                    StoreModel { docs: self.docs, scan: self.docs },
                    StoreReplyModel::ScanOpened,
                ),
                StoreRequestModel::NextDocument => if self.scan.len() > 0 {
                    (
                        StoreModel { docs: self.docs, scan: self.scan.drop_first() },
                        StoreReplyModel::Document(self.scan[0]),
                    )
                } else {
                    (self, StoreReplyModel::EndOfScan)
                },
            }
        }
    }
}

/// A bound on the requests that a creation still makes from `step`.
pub open spec fn create_todo_requests_left(step: CreateTodoStepModel) -> nat {
    match step {
        CreateTodoStepModel::Ask(CreateState::Inserting, _) => 2,
        CreateTodoStepModel::Ask(CreateState::ReadingBack, _) => 1,
        CreateTodoStepModel::Done(_) => 0,
    }
}

/// The creation carried on from `step` against `store` until it is done:
/// the collection afterward, and the result.
pub open spec fn run_create_todo(
    store: StoreModel,
    up: bool,
    id: Seq<u8>,
    step: CreateTodoStepModel,
) -> (StoreModel, Result<TodoqlModel, ResolveError>)
    decreases create_todo_requests_left(step),
{
    match step {
        CreateTodoStepModel::Ask(state, request) => {
            let (next, reply) = store.answer(up, id, request);
            run_create_todo(next, up, id, create_todo_resume(true, state, reply))
        },
        CreateTodoStepModel::Done(result) => (store, result),
    }
}

/// A bound on the requests that a listing still makes from `step`.
pub open spec fn todos_requests_left(store: StoreModel, step: TodosStepModel) -> nat {
    match step {
        TodosStepModel::Ask(ListStateModel::Opening, _) => store.docs.len() + 2,
        TodosStepModel::Ask(ListStateModel::Reading(_), _) => store.scan.len() + 1,
        TodosStepModel::Done(_) => 0,
    }
}

/// The listing carried on from `step` against `store` until it is done:
/// the collection afterward, and the result.
pub open spec fn run_todos(store: StoreModel, up: bool, id: Seq<u8>, step: TodosStepModel) -> (
    StoreModel,
    Result<Seq<TodoqlModel>, ResolveError>,
)
    decreases todos_requests_left(store, step),
{
    match step {
        TodosStepModel::Ask(state, request) => {
            let (next, reply) = store.answer(up, id, request);
            run_todos(next, up, id, todos_resume(true, state, reply))
        },
        TodosStepModel::Done(result) => (store, result),
    }
}

/// The whole creation of a to-do from `input` against `store`, with the
/// store in the context.
pub open spec fn create_todo_on(
    store: StoreModel,
    up: bool,
    id: Seq<u8>,
    input: TodoInputModel,
) -> (StoreModel, Result<TodoqlModel, ResolveError>) {
    run_create_todo(store, up, id, create_todo_begin(true, input))
}

/// The whole listing against `store`, with the store in the context. A
/// listing inserts nothing, so it needs no identifier from the store.
pub open spec fn todos_on(store: StoreModel, up: bool) -> (
    StoreModel,
    Result<Seq<TodoqlModel>, ResolveError>,
) {
    run_todos(store, up, Seq::empty(), todos_begin(true))
}

} // verus!
