use todoql::document_id::DocumentId;
use todoql::error::{ContextError, ResolveError, StoreError};
use todoql::mongodb_repo::{CreateState, ListState};
use todoql::resolvers::{Context, CreateTodoStep, Mutation, Query, Store, TodosStep};
use todoql::store_protocol::{StoreReply, StoreRequest};
use todoql::todo_model::{Todo, TodoInput, Todoql};
use todoql::transport::{recover, ErrorReply, BAD_REQUEST, INTERNAL_SERVER_ERROR};

/// A collection in memory that answers the requests of the service.
struct Collection {
    docs: Vec<Todo>,
    scan: Vec<Todo>,
    assigned: u8,
    requests: usize,
    insert_fails: bool,
    loses_what_it_inserts: bool,
    scan_fails_to_open: bool,
    scan_breaks_after: Option<usize>,
}

impl Collection {
    fn new() -> Collection {
        Collection {
            docs: Vec::new(),
            scan: Vec::new(),
            assigned: 0,
            requests: 0,
            insert_fails: false,
            loses_what_it_inserts: false,
            scan_fails_to_open: false,
            scan_breaks_after: None,
        }
    }

    fn perform(&mut self, request: StoreRequest) -> StoreReply {
        self.requests += 1;
        match request {
            StoreRequest::InsertOne(todo) => {
                if self.insert_fails {
                    return StoreReply::Failed;
                }
                self.assigned += 1;
                let mut bytes = [0xa0u8; 12];
                bytes[11] = self.assigned;
                let id = DocumentId::from_bytes(bytes);
                if !self.loses_what_it_inserts {
                    self.docs.push(Todo { id: Some(id), ..todo });
                }
                StoreReply::Inserted(id)
            }
            StoreRequest::FindOneById(id) => {
                StoreReply::Found(self.docs.iter().find(|todo| todo.id == Some(id)).cloned())
            }
            StoreRequest::FindAll => {
                if self.scan_fails_to_open {
                    return StoreReply::Failed;
                }
                self.scan = self.docs.clone();
                self.scan.reverse();
                StoreReply::ScanOpened
            }
            StoreRequest::NextDocument => {
                if let Some(left) = self.scan_breaks_after {
                    if left == 0 {
                        return StoreReply::Failed;
                    }
                    self.scan_breaks_after = Some(left - 1);
                }
                match self.scan.pop() {
                    Some(todo) => StoreReply::Document(todo),
                    None => StoreReply::EndOfScan,
                }
            }
        }
    }
}

fn wired() -> Context {
    Context { store: Some(Store::new(Some("mongodb://localhost:27017".to_string()))) }
}

fn create_todo(
    ctx: &Context,
    store: &mut Collection,
    input: TodoInput,
) -> Result<Todoql, ResolveError> {
    let mut step = Mutation.create_todo(ctx, input);
    loop {
        match step {
            CreateTodoStep::Ask(state, request) => {
                let reply = store.perform(request);
                step = Mutation.create_todo_resume(ctx, state, reply);
            }
            CreateTodoStep::Done(result) => return result,
        }
    }
}

fn todos(ctx: &Context, store: &mut Collection) -> Result<Vec<Todoql>, ResolveError> {
    let mut step = Query.todos(ctx);
    loop {
        match step {
            TodosStep::Ask(state, request) => {
                let reply = store.perform(request);
                step = Query.todos_resume(ctx, state, reply);
            }
            TodosStep::Done(result) => return result,
        }
    }
}

fn milk() -> TodoInput {
    TodoInput {
        id: None,
        name: "buy milk".to_string(),
        created_at: Some("2024-01-01".to_string()),
        updated_at: None,
    }
}

#[test]
fn create_todo_returns_the_input_under_a_new_identifier() {
    let mut store = Collection::new();
    let made = create_todo(&wired(), &mut store, milk()).unwrap();
    assert_eq!(
        made,
        Todoql {
            name: "buy milk".to_string(),
            id: Some("a0a0a0a0a0a0a0a0a0a0a001".to_string()),
            created_at: Some("2024-01-01".to_string()),
            updated_at: None,
        }
    );
}

#[test]
fn create_todo_returns_an_identifier_of_twenty_four_hexadecimal_digits() {
    let mut store = Collection::new();
    let made = create_todo(&wired(), &mut store, milk()).unwrap();
    let id = made.id.unwrap();
    assert_eq!(id.len(), 24);
    assert!(id.chars().all(|digit| digit.is_ascii_digit() || ('a'..='f').contains(&digit)));
    assert_eq!(made.name, "buy milk");
    assert_eq!(made.created_at, Some("2024-01-01".to_string()));
    assert_eq!(made.updated_at, None);
}

#[test]
fn create_todo_asks_for_an_insert_and_then_for_the_record() {
    let ctx = wired();
    let first = Mutation.create_todo(&ctx, milk());
    let expected = Todo {
        id: None,
        name: "buy milk".to_string(),
        created_at: Some("2024-01-01".to_string()),
        updated_at: None,
    };
    assert_eq!(
        first,
        CreateTodoStep::Ask(CreateState::Inserting, StoreRequest::InsertOne(expected))
    );
    let id = DocumentId::from_bytes([3; 12]);
    let second =
        Mutation.create_todo_resume(&ctx, CreateState::Inserting, StoreReply::Inserted(id));
    assert_eq!(
        second,
        CreateTodoStep::Ask(CreateState::ReadingBack, StoreRequest::FindOneById(id))
    );
}

#[test]
fn create_todo_ignores_the_identifier_of_the_input() {
    let mut store = Collection::new();
    let mut other = Collection::new();
    let with_id = TodoInput { id: Some("0123456789abcdef01234567".to_string()), ..milk() };
    let made = create_todo(&wired(), &mut store, with_id).unwrap();
    let plain = create_todo(&wired(), &mut other, milk()).unwrap();
    assert_eq!(made, plain);
    assert_ne!(made.id, Some("0123456789abcdef01234567".to_string()));
    assert_eq!(store.docs, other.docs);
}

#[test]
fn create_todo_twice_returns_two_identifiers() {
    let mut store = Collection::new();
    let ctx = wired();
    let one = create_todo(&ctx, &mut store, milk()).unwrap();
    let other = create_todo(&ctx, &mut store, milk()).unwrap();
    assert!(one.id.is_some());
    assert!(other.id.is_some());
    assert_ne!(one.id, other.id);
    assert_eq!(one.name, other.name);
    assert_eq!(store.docs.len(), 2);
}

#[test]
fn todos_holds_the_created_todo_exactly_once() {
    let mut store = Collection::new();
    let ctx = wired();
    create_todo(&ctx, &mut store, TodoInput { name: "older".to_string(), ..milk() }).unwrap();
    let made = create_todo(&ctx, &mut store, milk()).unwrap();
    let listed = todos(&ctx, &mut store).unwrap();
    assert_eq!(listed.iter().filter(|todo| **todo == made).count(), 1);
    assert_eq!(listed.len(), 2);
    assert_eq!(listed[1], made);
}

#[test]
fn todos_keeps_the_order_of_the_scan() {
    let mut store = Collection::new();
    let ctx = wired();
    for name in ["one", "two", "three"] {
        create_todo(&ctx, &mut store, TodoInput { name: name.to_string(), ..milk() }).unwrap();
    }
    let listed = todos(&ctx, &mut store).unwrap();
    let names: Vec<&str> = listed.iter().map(|todo| todo.name.as_str()).collect();
    assert_eq!(names, vec!["one", "two", "three"]);
    let ids: Vec<Option<String>> = listed.into_iter().map(|todo| todo.id).collect();
    assert_eq!(
        ids,
        vec![
            Some("a0a0a0a0a0a0a0a0a0a0a001".to_string()),
            Some("a0a0a0a0a0a0a0a0a0a0a002".to_string()),
            Some("a0a0a0a0a0a0a0a0a0a0a003".to_string()),
        ]
    );
}

#[test]
fn todos_of_an_empty_store_is_empty() {
    let mut store = Collection::new();
    assert_eq!(todos(&wired(), &mut store), Ok(vec![]));
}

#[test]
fn todos_shows_a_record_without_identifier_without_one() {
    let mut store = Collection::new();
    store.docs.push(Todo { id: None, name: "odd".to_string(), created_at: None, updated_at: None });
    let listed = todos(&wired(), &mut store).unwrap();
    assert_eq!(
        listed,
        vec![Todoql { name: "odd".to_string(), id: None, created_at: None, updated_at: None }]
    );
}

#[test]
fn a_failed_insert_is_a_failed_write_and_leaves_no_record() {
    let mut store = Collection::new();
    let ctx = wired();
    create_todo(&ctx, &mut store, TodoInput { name: "older".to_string(), ..milk() }).unwrap();
    let before = todos(&ctx, &mut store).unwrap();
    store.insert_fails = true;
    store.requests = 0;
    let failed = create_todo(&ctx, &mut store, milk());
    assert_eq!(failed, Err(ResolveError::Store(StoreError::WriteFailed)));
    assert_eq!(store.requests, 1);
    assert_eq!(todos(&ctx, &mut store), Ok(before));
}

#[test]
fn a_record_that_is_not_read_back_is_a_failed_read_back() {
    let mut store = Collection::new();
    store.loses_what_it_inserts = true;
    let failed = create_todo(&wired(), &mut store, milk());
    assert_eq!(failed, Err(ResolveError::Store(StoreError::ReadBackFailed)));
    assert_eq!(store.requests, 2);
}

#[test]
fn a_search_that_fails_is_a_failed_read_back() {
    let ctx = wired();
    let step = Mutation.create_todo_resume(&ctx, CreateState::ReadingBack, StoreReply::Failed);
    assert_eq!(step, CreateTodoStep::Done(Err(ResolveError::Store(StoreError::ReadBackFailed))));
}

#[test]
fn a_scan_that_does_not_open_is_a_failed_read() {
    let mut store = Collection::new();
    store.scan_fails_to_open = true;
    assert_eq!(todos(&wired(), &mut store), Err(ResolveError::Store(StoreError::ReadFailed)));
    assert_eq!(store.requests, 1);
}

#[test]
fn a_scan_that_breaks_off_is_a_failed_read() {
    let mut store = Collection::new();
    let ctx = wired();
    for name in ["one", "two", "three"] {
        create_todo(&ctx, &mut store, TodoInput { name: name.to_string(), ..milk() }).unwrap();
    }
    store.scan_breaks_after = Some(2);
    assert_eq!(todos(&ctx, &mut store), Err(ResolveError::Store(StoreError::ReadFailed)));
}

#[test]
fn a_context_without_store_fails_every_step() {
    let ctx = Context { store: None };
    let missing = ResolveError::Context(ContextError {});
    assert_eq!(Mutation.create_todo(&ctx, milk()), CreateTodoStep::Done(Err(missing)));
    let inserted = StoreReply::Inserted(DocumentId::from_bytes([1; 12]));
    assert_eq!(
        Mutation.create_todo_resume(&ctx, CreateState::Inserting, inserted),
        CreateTodoStep::Done(Err(missing))
    );
    assert_eq!(Query.todos(&ctx), TodosStep::Done(Err(missing)));
    assert_eq!(
        Query.todos_resume(&ctx, ListState::Opening, StoreReply::ScanOpened),
        TodosStep::Done(Err(missing))
    );
}

#[test]
fn a_context_without_store_makes_no_request() {
    let mut store = Collection::new();
    let ctx = Context { store: None };
    assert_eq!(create_todo(&ctx, &mut store, milk()), Err(ResolveError::Context(ContextError {})));
    assert_eq!(todos(&ctx, &mut store), Err(ResolveError::Context(ContextError {})));
    assert_eq!(store.requests, 0);
}

#[test]
fn data_hands_out_the_store_of_the_context() {
    let ctx = wired();
    let store = ctx.data().unwrap();
    assert_eq!(store.db.uri, "mongodb://localhost:27017");
    assert_eq!(Some(store), ctx.store.as_ref());
    assert_eq!(Context { store: None }.data(), Err(ContextError {}));
}

#[test]
fn new_store_names_the_collection_of_todos() {
    let store = Store::new(None);
    assert_eq!(store.db.uri, "Error loading env variable");
    assert_eq!(store.db.database, "rustmongo");
    assert_eq!(store.db.collection, "todo");
}

#[test]
fn every_failure_has_its_message() {
    assert_eq!(StoreError::WriteFailed.message(), "Error creating todo");
    assert_eq!(StoreError::ReadBackFailed.message(), "Error finding todo");
    assert_eq!(StoreError::ReadFailed.message(), "Error getting list of todos");
    assert_eq!(ContextError {}.message(), "Store is missing from the request context");
    assert_eq!(ResolveError::Store(StoreError::WriteFailed).message(), "Error creating todo");
    assert_eq!(ResolveError::Store(StoreError::ReadBackFailed).message(), "Error finding todo");
    assert_eq!(
        ResolveError::Store(StoreError::ReadFailed).message(),
        "Error getting list of todos"
    );
    assert_eq!(
        ResolveError::Context(ContextError {}).message(),
        "Store is missing from the request context"
    );
}

#[test]
fn a_refused_request_is_told_why() {
    assert_eq!(
        recover(Some("unknown field".to_string())),
        ErrorReply { status: 400, body: "unknown field".to_string() }
    );
    assert_eq!(BAD_REQUEST, 400);
}

#[test]
fn any_other_failure_is_an_internal_error() {
    assert_eq!(
        recover(None),
        ErrorReply { status: 500, body: "INTERNAL_SERVER_ERROR".to_string() }
    );
    assert_eq!(INTERNAL_SERVER_ERROR, 500);
}
