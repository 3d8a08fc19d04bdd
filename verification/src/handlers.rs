use crate::errors::AppError;
use crate::ids::{fresh_id, is_random_id};
use crate::models::{text_of, views_of, CreateUser, HealthResponse, UpdateUser, User, UserView};
use crate::store::{
    blank, coalesce, deleted, distinct_ids, has_id, index_of, inserted, lemma_deleted_is_gone,
    lemma_index_unique, names_present, row_of, updated, Table,
};
use vstd::prelude::*;
use vstd::string::StringExecFns;

verus! {

/// What every handler is given: access to the users relation.
pub struct AppState {
    pub db: Table,
}

/// The row that a create payload asks for under a given id.
pub open spec fn new_row(id: u128, payload: CreateUser) -> UserView {
    UserView { id, name: payload.name@, email: payload.email@ }
}

/// Liveness probe: always the status "ok".
pub fn health() -> (response: HealthResponse)
    ensures
        response.status@ == "ok"@,
{
    HealthResponse { status: String::from_str("ok") }
}

/// The fixed greeting.
pub fn root() -> (greeting: &'static str)
    ensures
        greeting@ == "Hello, Backend Engineer!"@,
{
    "Hello, Backend Engineer!"
}

/// The outcome of a create, from what the store said of the insert: the
/// stored row, or a `Database` error that carries the store's account.
pub fn user_created(stored: Result<User, String>) -> (outcome: Result<User, AppError>)
    ensures
        match stored {
            Ok(user) => outcome == Ok::<User, AppError>(user),
            Err(cause) => outcome == Err::<User, AppError>(AppError::Database(cause)),
        },
{
    match stored {
        Ok(user) => Ok(user),
        Err(cause) => Err(AppError::Database(cause)),
    }
}

/// The outcome of a get or an update, from what the store said of the row:
/// the row, `NotFound` where the store had none, `Database` where it failed.
pub fn user_found(fetched: Result<Option<User>, String>) -> (outcome: Result<User, AppError>)
    ensures
        match fetched {
            Ok(Some(user)) => outcome == Ok::<User, AppError>(user),
            Ok(None) => outcome == Err::<User, AppError>(AppError::NotFound),
            Err(cause) => outcome == Err::<User, AppError>(AppError::Database(cause)),
        },
{
    match fetched {
        Ok(Some(user)) => Ok(user),
        Ok(None) => Err(AppError::NotFound),
        Err(cause) => Err(AppError::Database(cause)),
    }
}

/// The outcome of a list, from what the store said: its rows as they came,
/// or `Database` where it failed.
pub fn users_listed(fetched: Result<Vec<User>, String>) -> (outcome: Result<Vec<User>, AppError>)
    ensures
        match fetched {
            Ok(users) => outcome == Ok::<Vec<User>, AppError>(users),
            Err(cause) => outcome == Err::<Vec<User>, AppError>(AppError::Database(cause)),
        },
{
    match fetched {
        Ok(users) => Ok(users),
        Err(cause) => Err(AppError::Database(cause)),
    }
}

/// The outcome of a delete, from the number of rows the store removed: a
/// confirmation if any went, `NotFound` if none did, `Database` where the
/// store failed.
pub fn user_deleted(removed: Result<u64, String>) -> (outcome: Result<String, AppError>)
    ensures
        match removed {
            Ok(count) => if count == 0 {
                outcome == Err::<String, AppError>(AppError::NotFound)
            } else {
                outcome is Ok && outcome->Ok_0@ == "User deleted"@
            },
            Err(cause) => outcome == Err::<String, AppError>(AppError::Database(cause)),
        },
{
    match removed {
        Ok(count) => {
            if count == 0 {
                Err(AppError::NotFound)
            } else {
                Ok(String::from_str("User deleted"))
            }
        },
        Err(cause) => Err(AppError::Database(cause)),
    }
}

/// Whether an outcome is a `BadRequest` that names the empty name as the fault.
pub open spec fn rejects_name<T>(outcome: Result<T, AppError>) -> bool {
    outcome is Err && outcome->Err_0 is BadRequest && outcome->Err_0->BadRequest_0@
        == "name must not be empty"@
}

/// Checks a create payload: a user needs a name, so an empty one is a bad
/// request; any other payload passes as it is.
pub fn checked_create(payload: CreateUser) -> (outcome: Result<CreateUser, AppError>)
    ensures
        payload.name@.len() > 0 ==> outcome == Ok::<CreateUser, AppError>(payload),
        payload.name@.len() == 0 ==> rejects_name(outcome),
{
    if payload.name.as_str().is_empty() {
        Err(AppError::BadRequest(String::from_str("name must not be empty")))
    } else {
        Ok(payload)
    }
}

/// Checks an update payload: a name that is given must not be empty; a
/// payload without a name, or with one, passes as it is.
pub fn checked_update(payload: UpdateUser) -> (outcome: Result<UpdateUser, AppError>)
    ensures
        !blank(text_of(payload.name)) ==> outcome == Ok::<UpdateUser, AppError>(payload),
        blank(text_of(payload.name)) ==> rejects_name(outcome),
{
    let refused = match &payload.name {
        Some(name) => name.as_str().is_empty(),
        None => false,
    };
    if refused {
        Err(AppError::BadRequest(String::from_str("name must not be empty")))
    } else {
        Ok(payload)
    }
}

/// Creates a user under a given id. A payload with an empty name is a bad
/// request. Otherwise the row is stored and returned unless the id is taken,
/// which the store refuses with a `Database` error. On every error the rows
/// stay as they were.
pub fn create_user_with_id(state: &mut AppState, id: u128, payload: CreateUser) -> (outcome: Result<
    User,
    AppError,
>)
    requires
        old(state).db.wf(),
    ensures
        final(state).db.wf(),
        payload.name@.len() == 0 ==> rejects_name(outcome) && final(state).db@ == old(state).db@,
        payload.name@.len() > 0 && !has_id(old(state).db@, id) ==> outcome is Ok
            && outcome->Ok_0@ == new_row(id, payload) && final(state).db@ == inserted(
            old(state).db@,
            new_row(id, payload),
        ),
        payload.name@.len() > 0 && has_id(old(state).db@, id) ==> outcome is Err
            && outcome->Err_0 is Database && final(state).db@ == old(state).db@,
{
    match checked_create(payload) {
        Err(e) => Err(e),
        Ok(checked) => {
            let stored = state.db.insert(id, checked.name, checked.email);
            user_created(stored)
        },
    }
}

/// The row for a create payload, under a fresh random id that the service
/// draws: the payload's name and email, whatever id was drawn. A payload with
/// an empty name is a bad request.
pub fn new_user(payload: CreateUser) -> (outcome: Result<User, AppError>)
    ensures
        payload.name@.len() == 0 ==> rejects_name(outcome),
        payload.name@.len() > 0 ==> outcome is Ok && is_random_id(outcome->Ok_0.id)
            && outcome->Ok_0@ == new_row(outcome->Ok_0.id, payload),
{
    match checked_create(payload) {
        Err(e) => Err(e),
        Ok(checked) => {
            let id = fresh_id();
            Ok(User { id, name: checked.name, email: checked.email })
        },
    }
}

/// Creates a user under a fresh random id. A payload with an empty name is a
/// bad request. Otherwise, whatever id was drawn: on success the returned row
/// carries the payload's name and email under an id that no row had, and it is
/// the one row added; the one failure is a `Database` error for an id that was
/// taken, so a create succeeds wherever no random id is taken. On every error
/// the rows stay as they were.
pub fn create_user(state: &mut AppState, payload: CreateUser) -> (outcome: Result<User, AppError>)
    requires
        old(state).db.wf(),
    ensures
        final(state).db.wf(),
        payload.name@.len() == 0 ==> rejects_name(outcome) && final(state).db@ == old(state).db@,
        payload.name@.len() > 0 ==> match outcome {
            Ok(user) => {
                &&& is_random_id(user.id)
                &&& !has_id(old(state).db@, user.id)
                &&& user@ == new_row(user.id, payload)
                &&& final(state).db@ == inserted(old(state).db@, user@)
            },
            Err(e) => {
                &&& e is Database
                &&& final(state).db@ == old(state).db@
                &&& exists|id: u128| #[trigger] is_random_id(id) && has_id(old(state).db@, id)
            },
        },
        payload.name@.len() > 0 && (forall|id: u128| #[trigger]
            is_random_id(id) ==> !has_id(old(state).db@, id)) ==> outcome is Ok,
{
    let id = fresh_id();
    create_user_with_id(state, id, payload)
}

/// The user under `id`, or `NotFound`.
pub fn get_user(state: &AppState, id: u128) -> (outcome: Result<User, AppError>)
    requires
        state.db.wf(),
    ensures
        match outcome {
            Ok(user) => row_of(state.db@, id) == Some(user@) && user@.name.len() > 0,
            Err(e) => e == AppError::NotFound && row_of(state.db@, id) is None,
        },
{
    user_found(Ok(state.db.fetch(id)))
}

/// Every user, in the store's order; an empty store gives an empty list.
pub fn list_users(state: &AppState) -> (outcome: Result<Vec<User>, AppError>)
    ensures
        outcome is Ok,
        views_of(outcome->Ok_0@) == state.db@,
{
    users_listed(Ok(state.db.fetch_all()))
}

/// The error of an update whose payload gives an empty name, from what the
/// store said of the row under the id: `NotFound` where it had none, a bad
/// request where the row is there, `Database` where the store failed.
pub fn update_rejected(fetched: Result<Option<User>, String>) -> (error: AppError)
    ensures
        match fetched {
            Ok(Some(_)) => rejects_name(Err::<User, AppError>(error)),
            Ok(None) => error == AppError::NotFound,
            Err(cause) => error == AppError::Database(cause),
        },
{
    match fetched {
        Ok(Some(_)) => AppError::BadRequest(String::from_str("name must not be empty")),
        Ok(None) => AppError::NotFound,
        Err(cause) => AppError::Database(cause),
    }
}

/// Updates the user under `id`: a field the payload gives replaces the stored
/// one, a field it leaves out stays. Returns the row as it then stands. An id
/// that no row carries is `NotFound`, whatever the payload. A payload that
/// gives an empty name for a row that is there is a bad request. On every
/// error the rows stay as they were.
pub fn update_user(state: &mut AppState, id: u128, payload: UpdateUser) -> (outcome: Result<
    User,
    AppError,
>)
    requires
        old(state).db.wf(),
    ensures
        final(state).db.wf(),
        !has_id(old(state).db@, id) ==> outcome == Err::<User, AppError>(AppError::NotFound)
            && final(state).db@ == old(state).db@,
        has_id(old(state).db@, id) && blank(text_of(payload.name)) ==> rejects_name(outcome)
            && final(state).db@ == old(state).db@,
        has_id(old(state).db@, id) && !blank(text_of(payload.name)) ==> {
            &&& outcome is Ok
            &&& outcome->Ok_0@ == coalesce(
                old(state).db@[index_of(old(state).db@, id)],
                text_of(payload.name),
                text_of(payload.email),
            )
            &&& final(state).db@ == updated(
                old(state).db@,
                id,
                text_of(payload.name),
                text_of(payload.email),
            )
            &&& row_of(final(state).db@, id) == Some(outcome->Ok_0@)
        },
{
    match checked_update(payload) {
        Ok(checked) => user_found(state.db.update(id, checked.name, checked.email)),
        Err(_) => Err(update_rejected(Ok(state.db.fetch(id)))),
    }
}

/// Deletes the user under `id`: a confirmation if the row was there, and then
/// it is gone; `NotFound` if it was not, and then nothing changed.
pub fn delete_user(state: &mut AppState, id: u128) -> (outcome: Result<String, AppError>)
    requires
        old(state).db.wf(),
    ensures
        final(state).db.wf(),
        final(state).db@ == deleted(old(state).db@, id),
        !has_id(final(state).db@, id),
        match outcome {
            Ok(text) => has_id(old(state).db@, id) && text@ == "User deleted"@,
            Err(e) => e == AppError::NotFound && !has_id(old(state).db@, id) && final(state).db@
                == old(state).db@,
        },
{
    user_deleted(Ok(state.db.delete(id)))
}

/// The rows after each of `rows_in` was stored in turn.
pub open spec fn inserted_all(rows: Seq<UserView>, rows_in: Seq<UserView>) -> Seq<UserView>
    decreases rows_in.len(),
{
    if rows_in.len() == 0 {
        rows
    } else {
        inserted(inserted_all(rows, rows_in.drop_last()), rows_in.last())
    }
}

/// A user with a name, created under an id that no row had, is then the row
/// found under that id: the created value, field for field. The relation
/// keeps its constraints.
pub proof fn lemma_create_then_get(rows: Seq<UserView>, id: u128, payload: CreateUser)
    requires
        distinct_ids(rows),
        names_present(rows),
    ensures
        payload.name@.len() > 0 && !has_id(rows, id) ==> {
            &&& distinct_ids(inserted(rows, new_row(id, payload)))
            &&& names_present(inserted(rows, new_row(id, payload)))
            &&& row_of(inserted(rows, new_row(id, payload)), id) == Some(new_row(id, payload))
        },
{
    if payload.name@.len() > 0 && !has_id(rows, id) {
        let row = new_row(id, payload);
        let after = inserted(rows, row);
        assert forall|i: int, j: int| 0 <= i < j < after.len() implies (#[trigger] after[i]).id
            != (#[trigger] after[j]).id by {
            assert(after[i] == rows[i]);
            if j < rows.len() {
                assert(after[j] == rows[j]);
            }
        }
        assert forall|i: int| 0 <= i < after.len() implies (#[trigger] after[i]).name.len()
            > 0 by {
            if i < rows.len() {
                assert(after[i] == rows[i]);
            }
        }
        lemma_index_unique(after, id, rows.len() as int);
    }
}

/// Each of `created` came under an id that no row had when it was stored.
pub open spec fn each_id_new(rows: Seq<UserView>, created: Seq<UserView>) -> bool {
    forall|k: int|
        0 <= k < created.len() ==> !has_id(
            inserted_all(rows, #[trigger] created.subrange(0, k)),
            created[k].id,
        )
}

/// A run of creates, each under an id that no row had, loses no write and
/// doubles none: the relation then holds the rows it had and the created
/// ones, once each, and no two of them share an id.
pub proof fn lemma_creates_keep_every_write(rows: Seq<UserView>, created: Seq<UserView>)
    requires
        distinct_ids(rows),
        each_id_new(rows, created),
    ensures
        inserted_all(rows, created) == rows + created,
        inserted_all(rows, created).len() == rows.len() + created.len(),
        distinct_ids(inserted_all(rows, created)),
        distinct_ids(created),
    decreases created.len(),
{
    if created.len() == 0 {
        assert(rows + created =~= rows);
    } else {
        let before = created.drop_last();
        let last = created.last();
        assert forall|k: int| 0 <= k < before.len() implies !has_id(
            inserted_all(rows, #[trigger] before.subrange(0, k)),
            before[k].id,
        ) by {
            assert(before.subrange(0, k) =~= created.subrange(0, k));
            assert(before[k] == created[k]);
        }
        lemma_creates_keep_every_write(rows, before);
        let held = inserted_all(rows, before);
        assert(created.subrange(0, created.len() - 1) =~= before);
        assert(!has_id(held, last.id));
        let after = inserted_all(rows, created);
        assert(after =~= rows + created);
        assert forall|i: int, j: int| 0 <= i < j < after.len() implies (#[trigger] after[i]).id
            != (#[trigger] after[j]).id by {
            assert(after[i] == held[i]);
            if j < held.len() {
                assert(after[j] == held[j]);
            }
        }
    }
    let all = rows + created;
    assert forall|i: int, j: int| 0 <= i < j < created.len() implies (#[trigger] created[i]).id
        != (#[trigger] created[j]).id by {
        assert(all[rows.len() + i] == created[i]);
        assert(all[rows.len() + j] == created[j]);
    }
}

/// A delete of an id that no row carries finds nothing and changes nothing,
/// whatever went before; and after any delete the id is absent, so a second
/// delete of it finds nothing.
pub proof fn lemma_delete_absent(rows: Seq<UserView>, id: u128)
    requires
        distinct_ids(rows),
    ensures
        !has_id(rows, id) ==> deleted(rows, id) == rows,
        distinct_ids(deleted(rows, id)),
        !has_id(deleted(rows, id), id),
        deleted(deleted(rows, id), id) == deleted(rows, id),
{
    lemma_deleted_is_gone(rows, id);
}

/// An update keeps the number of rows, the id of each row and the key
/// constraint, and the row it returns is the row then found under the id.
pub proof fn lemma_update_keeps_keys(
    rows: Seq<UserView>,
    id: u128,
    name: Option<Seq<char>>,
    email: Option<Seq<char>>,
)
    requires
        distinct_ids(rows),
    ensures
        updated(rows, id, name, email).len() == rows.len(),
        forall|k: int|
            0 <= k < rows.len() ==> (#[trigger] updated(rows, id, name, email)[k]).id == rows[k].id,
        distinct_ids(updated(rows, id, name, email)),
        names_present(rows) && !blank(name) ==> names_present(updated(rows, id, name, email)),
        has_id(rows, id) ==> row_of(updated(rows, id, name, email), id) == Some(
            coalesce(rows[index_of(rows, id)], name, email),
        ),
{
    let after = updated(rows, id, name, email);
    if names_present(rows) && !blank(name) {
        assert forall|k: int| 0 <= k < after.len() implies (#[trigger] after[k]).name.len()
            > 0 by {
            assert(rows[k].name.len() > 0);
        }
    }
    assert forall|i: int, j: int| 0 <= i < j < after.len() implies (#[trigger] after[i]).id
        != (#[trigger] after[j]).id by {
        assert(after[i].id == rows[i].id);
        assert(after[j].id == rows[j].id);
    }
    if has_id(rows, id) {
        lemma_index_unique(after, id, index_of(rows, id));
    }
}

/// An update that gives only a name changes the name of the row under the id
/// and nothing else: every row keeps its email and id, and every other row
/// stays as it was.
pub proof fn lemma_update_name_only(rows: Seq<UserView>, id: u128, name: Seq<char>)
    requires
        distinct_ids(rows),
        name.len() > 0,
    ensures
        updated(rows, id, Some(name), None).len() == rows.len(),
        forall|k: int|
            0 <= k < rows.len() ==> (#[trigger] updated(rows, id, Some(name), None)[k]).email
                == rows[k].email,
        forall|k: int|
            0 <= k < rows.len() && rows[k].id != id ==> (#[trigger] updated(
                rows,
                id,
                Some(name),
                None,
            )[k]) == rows[k],
        has_id(rows, id) ==> row_of(updated(rows, id, Some(name), None), id) == Some(
            UserView { id, name, email: rows[index_of(rows, id)].email },
        ),
{
    lemma_update_keeps_keys(rows, id, Some(name), None);
}

/// An update that gives only an email changes the email of the row under the
/// id and nothing else.
pub proof fn lemma_update_email_only(rows: Seq<UserView>, id: u128, email: Seq<char>)
    requires
        distinct_ids(rows),
    ensures
        updated(rows, id, None, Some(email)).len() == rows.len(),
        forall|k: int|
            0 <= k < rows.len() ==> (#[trigger] updated(rows, id, None, Some(email))[k]).name
                == rows[k].name,
        forall|k: int|
            0 <= k < rows.len() && rows[k].id != id ==> (#[trigger] updated(
                rows,
                id,
                None,
                Some(email),
            )[k]) == rows[k],
        has_id(rows, id) ==> row_of(updated(rows, id, None, Some(email)), id) == Some(
            UserView { id, name: rows[index_of(rows, id)].name, email },
        ),
{
    lemma_update_keeps_keys(rows, id, None, Some(email));
}

/// An update that gives no field leaves every row as it was, and the row it
/// returns is the row that was stored.
pub proof fn lemma_update_nothing(rows: Seq<UserView>, id: u128)
    ensures
        updated(rows, id, None, None) == rows,
        has_id(rows, id) ==> coalesce(rows[index_of(rows, id)], None, None) == rows[index_of(
            rows,
            id,
        )],
{
    assert(updated(rows, id, None, None) =~= rows);
}

/// After storing users under ids that differ from each other, starting from an
/// empty relation and deleting none, the relation holds exactly those users:
/// as many rows as were stored, each row one of them, each of them found under
/// its id.
pub proof fn lemma_list_complete(created: Seq<UserView>)
    requires
        distinct_ids(created),
    ensures
        inserted_all(Seq::empty(), created) == created,
        inserted_all(Seq::empty(), created).len() == created.len(),
        forall|k: int|
            0 <= k < created.len() ==> row_of(
                inserted_all(Seq::empty(), created),
                (#[trigger] created[k]).id,
            ) == Some(created[k]),
    decreases created.len(),
{
    if created.len() > 0 {
        let before = created.drop_last();
        assert forall|i: int, j: int| 0 <= i < j < before.len() implies (#[trigger] before[i]).id
            != (#[trigger] before[j]).id by {
            assert(before[i] == created[i]);
            assert(before[j] == created[j]);
        }
        lemma_list_complete(before);
        assert(before.push(created.last()) =~= created);
    } else {
        assert(inserted_all(Seq::empty(), created) =~= created);
    }
    assert forall|k: int| 0 <= k < created.len() implies row_of(
        inserted_all(Seq::empty(), created),
        (#[trigger] created[k]).id,
    ) == Some(created[k]) by {
        lemma_index_unique(created, created[k].id, k);
    }
}

} // verus!
