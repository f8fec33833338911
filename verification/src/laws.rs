//! What holds of the two operations when they are carried out against a
//! store that keeps its word.
//!
//! In each law `store` is the collection before the operation. Where a
//! record is inserted, `id` is the identifier that the store assigns to
//! it, which no record of the collection has yet.

use vstd::prelude::*;
use crate::document_id::{hex_string, lemma_hex_string_injective, DocumentId};
use crate::error::{ResolveError, StoreError};
use crate::mongodb_repo::{list_resume, CreateState, ListStateModel};
use crate::resolvers::{
    create_todo_begin, create_todo_resume, todos_step, CreateTodoStepModel, TodosStepModel,
};
use crate::store_model::{create_todo_on, run_create_todo, run_todos, stored, todos_on, StoreModel};
use crate::store_protocol::{StoreReplyModel, StoreRequestModel};
use crate::todo_model::{
    hex_of_id, todo_of_input, todoql_of_todo, todoqls_of_todos, TodoInputModel, TodoModel,
    TodoqlModel,
};

verus! {

/// The outside form of `input` once it is stored under `id`.
pub open spec fn created(input: TodoInputModel, id: Seq<u8>) -> TodoqlModel {
    TodoqlModel {
        name: input.name,
        id: Some(hex_string(id)),
        created_at: input.created_at,
        updated_at: input.updated_at,
    }
}

/// The result of an operation that succeeded with `value`.
pub open spec fn succeeded<T>(value: T) -> Result<T, ResolveError> {
    Ok(value)
}

/// The result of an operation that the store failed with `error`.
pub open spec fn failed<T>(error: StoreError) -> Result<T, ResolveError> {
    Err(ResolveError::Store(error))
}

/// `store` with `todo` inserted under `id`.
pub open spec fn with_inserted(store: StoreModel, todo: TodoModel, id: Seq<u8>) -> StoreModel {
    StoreModel { docs: store.docs.push(stored(todo, id)), scan: store.scan }
}

/// A record inserted under an identifier that no other record has is the
/// one found under that identifier.
proof fn lemma_inserted_is_found(store: StoreModel, todo: TodoModel, id: Seq<u8>)
    requires
        !store.holds(id),
    ensures
        with_inserted(store, todo, id).find(id) == Some(stored(todo, id)),
{
    let after = with_inserted(store, todo, id);
    let last = store.docs.len() as int;
    assert(after.docs[last].id == Some(id));
    assert(after.holds(id));
    let found = choose|i: int| 0 <= i < after.docs.len() && #[trigger] after.docs[i].id == Some(id);
    if found < last {
        assert(store.docs[found].id == Some(id));
    }
}

/// An insert under a new identifier keeps the collection valid.
proof fn lemma_insert_keeps_valid(store: StoreModel, todo: TodoModel, id: Seq<u8>)
    requires
        store.valid(),
        !store.holds(id),
    ensures
        with_inserted(store, todo, id).valid(),
{
    let after = with_inserted(store, todo, id);
    let last = store.docs.len() as int;
    assert forall|i: int, j: int| 0 <= i < j < after.docs.len() implies (
    #[trigger] after.docs[i]).id != (#[trigger] after.docs[j]).id by {
        if j == last {
            assert(store.docs[i].id != Some(id));
        } else {
            assert(store.docs[i].id != store.docs[j].id);
        }
    }
}

/// A record whose identifier is not `id` does not show the text of `id`.
proof fn lemma_other_id_has_other_text(other: Option<Seq<u8>>, id: Seq<u8>)
    requires
        other != Some(id),
    ensures
        hex_of_id(other) != Some(hex_string(id)),
{
    if other is Some && hex_string(other->0) == hex_string(id) {
        lemma_hex_string_injective(other->0, id);
    }
}

/// A scan that is open yields what is left of it, in order, after what was
/// read before.
proof fn lemma_scan_reads_to_the_end(store: StoreModel, id: Seq<u8>, read: Seq<TodoModel>)
    ensures
        run_todos(
            store,
            true,
            id,
            TodosStepModel::Ask(ListStateModel::Reading(read), StoreRequestModel::NextDocument),
        ) == (
            (StoreModel { docs: store.docs, scan: Seq::empty() }),
            succeeded(todoqls_of_todos(read + store.scan)),
        ),
    decreases store.scan.len(),
{
    let step = TodosStepModel::Ask(ListStateModel::Reading(read), StoreRequestModel::NextDocument);
    if store.scan.len() == 0 {
        assert(read + store.scan =~= read);
        assert(store.scan =~= Seq::empty());
        let done = todos_step(
            list_resume(ListStateModel::Reading(read), StoreReplyModel::EndOfScan),
        );
        assert(run_todos(store, true, id, step) == run_todos(store, true, id, done));
    } else {
        let next = StoreModel { docs: store.docs, scan: store.scan.drop_first() };
        lemma_scan_reads_to_the_end(next, id, read.push(store.scan[0]));
        assert(read.push(store.scan[0]) + store.scan.drop_first() =~= read + store.scan);
    }
}

/// A listing returns every record of the collection in its outside form,
/// in the order of the scan, and leaves the records as they are.
pub proof fn law_todos_lists_every_record(store: StoreModel)
    ensures
        todos_on(store, true).1 == succeeded(todoqls_of_todos(store.docs)),
        todos_on(store, true).0.docs == store.docs,
{
    let opened = StoreModel { docs: store.docs, scan: store.docs };
    lemma_scan_reads_to_the_end(opened, Seq::empty(), Seq::empty());
    assert(Seq::<TodoModel>::empty() + store.docs =~= store.docs);
}

/// A listing of a collection without records returns the empty sequence,
/// not a failure.
pub proof fn law_todos_of_empty_store(store: StoreModel)
    requires
        store.docs.len() == 0,
    ensures
        todos_on(store, true).1 == succeeded(Seq::<TodoqlModel>::empty()),
{
    law_todos_lists_every_record(store);
    assert(todoqls_of_todos(store.docs) =~= Seq::empty());
}

/// A listing from a store that fails is a failed read.
pub proof fn law_todos_of_failing_store(store: StoreModel)
    ensures
        todos_on(store, false) == (store, failed::<Seq<TodoqlModel>>(StoreError::ReadFailed)),
{
    assert(todos_on(store, false) == (store, failed::<Seq<TodoqlModel>>(StoreError::ReadFailed)))
        by {
        reveal_with_fuel(run_todos, 2);
    }
}

/// A creation returns the name and the timestamps of its input, under the
/// identifier that the store assigned, whose text has twenty-four digits.
/// The collection then holds the new record behind the others.
pub proof fn law_create_returns_the_stored_input(
    store: StoreModel,
    input: TodoInputModel,
    id: DocumentId,
)
    requires
        !store.holds(id@),
    ensures
        create_todo_on(store, true, id@, input) == (
            with_inserted(store, todo_of_input(input), id@),
            succeeded(created(input, id@)),
        ),
        created(input, id@).name == input.name,
        created(input, id@).id is Some,
        created(input, id@).id->0.len() == 24,
        store.valid() ==> create_todo_on(store, true, id@, input).0.valid(),
{
    let todo = todo_of_input(input);
    lemma_inserted_is_found(store, todo, id@);
    let inserted = create_todo_resume(true, CreateState::Inserting, StoreReplyModel::Inserted(id@));
    assert(inserted == CreateTodoStepModel::Ask(
        CreateState::ReadingBack,
        StoreRequestModel::FindOneById(id@),
    ));
    let read_back = create_todo_resume(
        true,
        CreateState::ReadingBack,
        StoreReplyModel::Found(Some(stored(todo, id@))),
    );
    assert(read_back == CreateTodoStepModel::Done(Ok(todoql_of_todo(stored(todo, id@)))));
    assert(create_todo_on(store, true, id@, input) == (
        with_inserted(store, todo, id@),
        succeeded(created(input, id@)),
    )) by {
        reveal_with_fuel(run_create_todo, 3);
    }
    if store.valid() {
        lemma_insert_keeps_valid(store, todo, id@);
    }
}

/// The identifier that a creation returns is new: it is the text of the
/// identifier of no record that the collection held before.
pub proof fn law_created_id_is_new(store: StoreModel, input: TodoInputModel, id: DocumentId)
    requires
        !store.holds(id@),
    ensures
        create_todo_on(store, true, id@, input).1 is Ok,
        forall|i: int|
            0 <= i < store.docs.len() ==> hex_of_id((#[trigger] store.docs[i]).id)
                != create_todo_on(store, true, id@, input).1->Ok_0.id,
{
    law_create_returns_the_stored_input(store, input, id);
    assert forall|i: int| 0 <= i < store.docs.len() implies hex_of_id(
        (#[trigger] store.docs[i]).id,
    ) != Some(hex_string(id@)) by {
        lemma_other_id_has_other_text(store.docs[i].id, id@);
    }
}

/// The identifier of the input plays no part in a creation: two inputs
/// that differ in nothing else begin the same creation, so the requests
/// made and the result are the same whatever the store does.
pub proof fn law_input_id_is_ignored(
    store: StoreModel,
    up: bool,
    id: Seq<u8>,
    has_store: bool,
    one: TodoInputModel,
    other: TodoInputModel,
)
    requires
        one.name == other.name,
        one.created_at == other.created_at,
        one.updated_at == other.updated_at,
    ensures
        create_todo_begin(has_store, one) == create_todo_begin(has_store, other),
        create_todo_on(store, up, id, one) == create_todo_on(store, up, id, other),
{
}

/// Two creations from the same input, one after the other, make two
/// records and return different identifiers.
pub proof fn law_create_twice_gives_two_ids(
    store: StoreModel,
    input: TodoInputModel,
    first: DocumentId,
    second: DocumentId,
)
    requires
        !store.holds(first@),
        !create_todo_on(store, true, first@, input).0.holds(second@),
    ensures
        ({
            let (between, one) = create_todo_on(store, true, first@, input);
            let (after, other) = create_todo_on(between, true, second@, input);
            &&& one == succeeded(created(input, first@))
            &&& other == succeeded(created(input, second@))
            &&& created(input, first@).id != created(input, second@).id
            &&& after.docs.len() == store.docs.len() + 2
        }),
{
    let between = create_todo_on(store, true, first@, input).0;
    law_create_returns_the_stored_input(store, input, first);
    law_create_returns_the_stored_input(between, input, second);
    assert(between.docs[store.docs.len() as int].id == Some(first@));
    lemma_other_id_has_other_text(Some(first@), second@);
}

/// After a creation, a listing holds the created to-do exactly once: at
/// the end, behind what the collection held before.
pub proof fn law_created_todo_is_listed_once(
    store: StoreModel,
    input: TodoInputModel,
    id: DocumentId,
)
    requires
        !store.holds(id@),
    ensures
        ({
            let (after, made) = create_todo_on(store, true, id@, input);
            let listed = todoqls_of_todos(store.docs).push(created(input, id@));
            &&& made == succeeded(created(input, id@))
            &&& todos_on(after, true).1 == succeeded(listed)
            &&& forall|i: int|
                0 <= i < listed.len() ==> ((#[trigger] listed[i]) == created(input, id@) <==> i
                    == store.docs.len())
        }),
{
    let after = create_todo_on(store, true, id@, input).0;
    law_create_returns_the_stored_input(store, input, id);
    law_todos_lists_every_record(after);
    let listed = todoqls_of_todos(store.docs).push(created(input, id@));
    assert(todoqls_of_todos(after.docs) =~= listed);
    assert forall|i: int| 0 <= i < listed.len() && i != store.docs.len() implies (
    #[trigger] listed[i]) != created(input, id@) by {
        lemma_other_id_has_other_text(store.docs[i].id, id@);
    }
}

/// When the store fails the insert, the creation fails as a write, and a
/// listing afterward returns what it would have returned before.
pub proof fn law_failed_insert_leaves_no_record(
    store: StoreModel,
    input: TodoInputModel,
    id: Seq<u8>,
)
    ensures
        create_todo_on(store, false, id, input) == (
            store,
            failed::<TodoqlModel>(StoreError::WriteFailed),
        ),
        todos_on(create_todo_on(store, false, id, input).0, true) == todos_on(store, true),
        todos_on(store, true).1 == succeeded(todoqls_of_todos(store.docs)),
{
    assert(create_todo_on(store, false, id, input) == (
        store,
        failed::<TodoqlModel>(StoreError::WriteFailed),
    )) by {
        reveal_with_fuel(run_create_todo, 2);
    }
    law_todos_lists_every_record(store);
}

/// When the record just inserted is not found again, the creation fails
/// as a read-back: nothing is made up from the input.
pub proof fn law_missing_read_back_is_a_failure(input: TodoInputModel, id: Seq<u8>)
    ensures
        create_todo_begin(true, input) matches CreateTodoStepModel::Ask(inserting, _)
            && create_todo_resume(true, inserting, StoreReplyModel::Inserted(id))
            matches CreateTodoStepModel::Ask(reading_back, request)
            && request == StoreRequestModel::FindOneById(id)
            && create_todo_resume(true, reading_back, StoreReplyModel::Found(None))
            == CreateTodoStepModel::Done(failed(StoreError::ReadBackFailed)),
{
}

} // verus!
