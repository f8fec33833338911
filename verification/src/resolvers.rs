//! The two operations of the API, and the context that hands them the
//! store.
//!
//! A resolver takes the store from the context, lets the store adapter run
//! its protocol, and shows what the adapter returns in the outside form. A
//! failure of the store reaches the caller as it is.

use vstd::prelude::*;
use crate::error::{ContextError, ResolveError};
use crate::mongodb_repo::{
    create_begin, create_resume, list_begin, list_resume, repo_at, CreateState, CreateStep,
    CreateStepModel, ListState, ListStateModel, ListStep, ListStepModel, MongoRepo,
};
use crate::store_protocol::{StoreReply, StoreReplyModel, StoreRequest, StoreRequestModel};
use crate::todo_model::{
    todo_models, todo_of_input, todoql_models, todoql_of_todo, todoqls_of_todos, Todo,
    TodoInput, TodoInputModel, Todoql, TodoqlModel,
};

verus! {

/// The data sources of the service: the one store adapter.
#[derive(Debug, PartialEq, Eq)]
pub struct Store {
    pub db: MongoRepo,
}

/// What a resolver is given with each request. It carries the store that
/// the service was started with, if it was started with one.
#[derive(Debug, PartialEq, Eq)]
pub struct Context {
    pub store: Option<Store>,
}

/// The resolver of the mutations.
#[derive(Clone, Copy, Debug, PartialEq, Eq, Structural)]
pub struct Mutation;

/// The resolver of the queries.
#[derive(Clone, Copy, Debug, PartialEq, Eq, Structural)]
pub struct Query;

/// One step of the mutation that creates a to-do.
#[derive(Debug, PartialEq, Eq)]
pub enum CreateTodoStep {
    Ask(CreateState, StoreRequest),
    Done(Result<Todoql, ResolveError>),
}

/// One step of the query that lists the to-dos.
#[derive(Debug, PartialEq, Eq)]
pub enum TodosStep {
    Ask(ListState, StoreRequest),
    Done(Result<Vec<Todoql>, ResolveError>),
}

/// What a step of the mutation holds.
pub enum CreateTodoStepModel {
    Ask(CreateState, StoreRequestModel),
    Done(Result<TodoqlModel, ResolveError>),
}

/// What a step of the query holds.
pub enum TodosStepModel {
    Ask(ListStateModel, StoreRequestModel),
    Done(Result<Seq<TodoqlModel>, ResolveError>),
}

impl View for CreateTodoStep {
    type V = CreateTodoStepModel;

    open spec fn view(&self) -> CreateTodoStepModel {
        match *self {
            CreateTodoStep::Ask(state, request) => CreateTodoStepModel::Ask(state, request@),
            CreateTodoStep::Done(Ok(todo)) => CreateTodoStepModel::Done(Ok(todo@)),
            CreateTodoStep::Done(Err(error)) => CreateTodoStepModel::Done(Err(error)),
        }
    }
}

impl View for TodosStep {
    type V = TodosStepModel;

    open spec fn view(&self) -> TodosStepModel {
        match *self {
            TodosStep::Ask(state, request) => TodosStepModel::Ask(state@, request@),
            TodosStep::Done(Ok(todos)) => TodosStepModel::Done(Ok(todoql_models(todos@))),
            TodosStep::Done(Err(error)) => TodosStepModel::Done(Err(error)),
        }
    }
}

/// The failure of a resolver that found no store in its context.
pub open spec fn no_store() -> ResolveError {
    ResolveError::Context(ContextError {  })
}

/// What the mutation makes of a step of the store adapter: a request is
/// passed on, a record is shown in its outside form, a failure is kept.
pub open spec fn create_todo_step(step: CreateStepModel) -> CreateTodoStepModel {
    match step {
        CreateStepModel::Ask(state, request) => CreateTodoStepModel::Ask(state, request),
        CreateStepModel::Done(Ok(todo)) => CreateTodoStepModel::Done(Ok(todoql_of_todo(todo))),
        CreateStepModel::Done(Err(error)) => CreateTodoStepModel::Done(
            Err(ResolveError::Store(error)),
        ),
    }
}

/// What the query makes of a step of the store adapter: a request is
/// passed on, the records are shown in their outside form and in their
/// order, a failure is kept.
pub open spec fn todos_step(step: ListStepModel) -> TodosStepModel {
    match step {
        ListStepModel::Ask(state, request) => TodosStepModel::Ask(state, request),
        ListStepModel::Done(Ok(todos)) => TodosStepModel::Done(Ok(todoqls_of_todos(todos))),
        ListStepModel::Done(Err(error)) => TodosStepModel::Done(Err(ResolveError::Store(error))),
    }
}

/// The first step of the mutation for `input`, with or without a store in
/// the context.
pub open spec fn create_todo_begin(has_store: bool, input: TodoInputModel) -> CreateTodoStepModel {
    if has_store {
        create_todo_step(create_begin(todo_of_input(input)))
    } else {
        CreateTodoStepModel::Done(Err(no_store()))
    }
}

/// The step of the mutation after a reply.
pub open spec fn create_todo_resume(
    has_store: bool,
    state: CreateState,
    reply: StoreReplyModel,
) -> CreateTodoStepModel {
    if has_store {
        create_todo_step(create_resume(state, reply))
    } else {
        CreateTodoStepModel::Done(Err(no_store()))
    }
}

/// The first step of the query, with or without a store in the context.
pub open spec fn todos_begin(has_store: bool) -> TodosStepModel {
    if has_store {
        todos_step(list_begin())
    } else {
        TodosStepModel::Done(Err(no_store()))
    }
}

/// The step of the query after a reply.
pub open spec fn todos_resume(
    has_store: bool,
    state: ListStateModel,
    reply: StoreReplyModel,
) -> TodosStepModel {
    if has_store {
        todos_step(list_resume(state, reply))
    } else {
        TodosStepModel::Done(Err(no_store()))
    }
}

/// The outside form of each record, in the same order.
fn to_views(todos: Vec<Todo>) -> (out: Vec<Todoql>)
    ensures
        todoql_models(out@) == todoqls_of_todos(todo_models(todos@)),
{
    let mut out: Vec<Todoql> = Vec::new();
    for todo in it: todos
        invariant
            it.seq() == todos@,
            out@.len() == it.index(),
            forall|i: int|
                0 <= i < out@.len() ==> out@[i]@ == todoql_of_todo(#[trigger] todos@[i]@),
    {
        out.push(todo.to_view());
    }
    assert(todoql_models(out@) =~= todoqls_of_todos(todo_models(todos@)));
    out
}

impl Store {
    /// The data sources of a service configured with the address `uri`.
    pub fn new(uri: Option<String>) -> (store: Store)
        ensures
            store.db@ == repo_at(uri.deep_view()),
    {
        Store { db: MongoRepo::init(uri) }
    }
}

impl Context {
    /// Whether the context carries a store.
    pub open spec fn has_store(&self) -> bool {
        self.store is Some
    }

    /// The store of the service.
    pub fn data(&self) -> (found: Result<&Store, ContextError>)
        ensures
            match found {
                Ok(store) => self.store == Some(*store),
                Err(_) => self.store is None,
            },
    {
        match &self.store {
            Some(store) => Ok(store),
            None => Err(ContextError {  }),
        }
    }
}

impl Mutation {
    /// Begins the creation of a to-do from `new_todo`. The identifier of
    /// `new_todo` is ignored. Without a store in `ctx` the creation is done
    /// at once, with that failure.
    pub fn create_todo(&self, ctx: &Context, new_todo: TodoInput) -> (step: CreateTodoStep)
        ensures
            step@ == create_todo_begin(ctx.has_store(), new_todo@),
    {
        match ctx.data() {
            Ok(store) => {
                let todo = Todo::from_input(new_todo);
                Mutation::shown(store.db.create_todo(todo))
            },
            Err(error) => CreateTodoStep::Done(Err(ResolveError::Context(error))),
        }
    }

    /// Resumes the creation in `state` with the store's `reply` to the
    /// request of the step before. Without a store in `ctx` the creation
    /// is done, with that failure.
    pub fn create_todo_resume(&self, ctx: &Context, state: CreateState, reply: StoreReply) -> (step:
        CreateTodoStep)
        ensures
            step@ == create_todo_resume(ctx.has_store(), state, reply@),
    {
        match ctx.data() {
            Ok(store) => Mutation::shown(store.db.create_todo_resume(state, reply)),
            Err(error) => CreateTodoStep::Done(Err(ResolveError::Context(error))),
        }
    }

    /// The step of the mutation for a step of the store adapter.
    fn shown(step: CreateStep) -> (out: CreateTodoStep)
        ensures
            out@ == create_todo_step(step@),
    {
        match step {
            CreateStep::Ask(state, request) => CreateTodoStep::Ask(state, request),
            CreateStep::Done(Ok(todo)) => CreateTodoStep::Done(Ok(todo.to_view())),
            CreateStep::Done(Err(error)) => CreateTodoStep::Done(Err(ResolveError::Store(error))),
        }
    }
}

impl Query {
    /// Begins the listing of every to-do. Without a store in `ctx` the
    /// listing is done at once, with that failure.
    pub fn todos(&self, ctx: &Context) -> (step: TodosStep)
        ensures
            step@ == todos_begin(ctx.has_store()),
    {
        match ctx.data() {
            Ok(store) => Query::shown(store.db.get_all_todos()),
            Err(error) => TodosStep::Done(Err(ResolveError::Context(error))),
        }
    }

    /// Resumes the listing in `state` with the store's `reply` to the
    /// request of the step before. Without a store in `ctx` the listing is
    /// done, with that failure.
    pub fn todos_resume(&self, ctx: &Context, state: ListState, reply: StoreReply) -> (step:
        TodosStep)
        ensures
            step@ == todos_resume(ctx.has_store(), state@, reply@),
    {
        match ctx.data() {
            Ok(store) => Query::shown(store.db.get_all_todos_resume(state, reply)),
            Err(error) => TodosStep::Done(Err(ResolveError::Context(error))),
        }
    }

    /// The step of the query for a step of the store adapter.
    fn shown(step: ListStep) -> (out: TodosStep)
        ensures
            out@ == todos_step(step@),
    {
        match step {
            ListStep::Ask(state, request) => TodosStep::Ask(state, request),
            ListStep::Done(Ok(todos)) => TodosStep::Done(Ok(to_views(todos))),
            ListStep::Done(Err(error)) => TodosStep::Done(Err(ResolveError::Store(error))),
        }
    }
}

} // verus!
