use rust_rest_api::errors::AppError;
use rust_rest_api::handlers::{
    checked_create, checked_update, create_user, create_user_with_id, delete_user, get_user,
    health, list_users, new_user, root, update_rejected, update_user, user_created,
    user_deleted, user_found, users_listed, AppState,
};
use rust_rest_api::models::{CreateUser, UpdateUser, User};
use rust_rest_api::store::Table;

fn empty_state() -> AppState {
    AppState { db: Table::new() }
}

fn payload(name: &str, email: &str) -> CreateUser {
    CreateUser { name: name.to_string(), email: email.to_string() }
}

fn user(id: u128, name: &str, email: &str) -> User {
    User { id, name: name.to_string(), email: email.to_string() }
}

#[test]
fn health_reports_ok() {
    assert_eq!(health().status, "ok");
}

#[test]
fn root_greets() {
    assert_eq!(root(), "Hello, Backend Engineer!");
}

#[test]
fn create_then_get_round_trips() {
    let mut state = empty_state();
    let created = create_user(&mut state, payload("Ann", "a@x.com")).unwrap();
    assert_eq!(created.name, "Ann");
    assert_eq!(created.email, "a@x.com");
    let fetched = get_user(&state, created.id).unwrap();
    assert_eq!(fetched, created);
}

#[test]
fn create_draws_a_version_four_id() {
    let mut state = empty_state();
    let created = create_user(&mut state, payload("Ann", "a@x.com")).unwrap();
    assert_eq!((created.id >> 76) & 0xf, 4);
    assert_eq!((created.id >> 62) & 0x3, 2);
    let parsed = uuid::Uuid::from_u128(created.id);
    assert_eq!(parsed.get_version_num(), 4);
}

#[test]
fn new_user_keeps_the_payload() {
    let made = new_user(payload("Bob", "b@x.com")).unwrap();
    assert_eq!(made.name, "Bob");
    assert_eq!(made.email, "b@x.com");
    assert_eq!((made.id >> 76) & 0xf, 4);
}

#[test]
fn creates_draw_distinct_ids() {
    let mut state = empty_state();
    let mut ids: Vec<u128> = Vec::new();
    for i in 0..50 {
        let created = create_user(&mut state, payload(&format!("u{}", i), "same@x.com")).unwrap();
        assert!(!ids.contains(&created.id));
        ids.push(created.id);
    }
    assert_eq!(list_users(&state).unwrap().len(), 50);
}

#[test]
fn create_with_taken_id_is_a_database_error() {
    let mut state = empty_state();
    assert_eq!(create_user_with_id(&mut state, 7, payload("Ann", "a@x.com")), Ok(user(7, "Ann", "a@x.com")));
    let second = create_user_with_id(&mut state, 7, payload("Bob", "b@x.com"));
    assert!(matches!(second, Err(AppError::Database(_))));
    assert_eq!(list_users(&state).unwrap(), vec![user(7, "Ann", "a@x.com")]);
}

#[test]
fn same_email_twice_is_accepted() {
    let mut state = empty_state();
    assert!(create_user_with_id(&mut state, 1, payload("Ann", "a@x.com")).is_ok());
    assert!(create_user_with_id(&mut state, 2, payload("Bob", "a@x.com")).is_ok());
    assert_eq!(list_users(&state).unwrap().len(), 2);
}

#[test]
fn get_of_absent_id_is_not_found() {
    let state = empty_state();
    assert_eq!(get_user(&state, 1), Err(AppError::NotFound));
}

#[test]
fn delete_of_absent_id_is_not_found() {
    let mut state = empty_state();
    assert_eq!(delete_user(&mut state, 9), Err(AppError::NotFound));
    create_user_with_id(&mut state, 1, payload("Ann", "a@x.com")).unwrap();
    assert_eq!(delete_user(&mut state, 9), Err(AppError::NotFound));
    assert_eq!(list_users(&state).unwrap().len(), 1);
}

#[test]
fn delete_twice_is_not_found_the_second_time() {
    let mut state = empty_state();
    create_user_with_id(&mut state, 1, payload("Ann", "a@x.com")).unwrap();
    assert_eq!(delete_user(&mut state, 1), Ok("User deleted".to_string()));
    assert_eq!(delete_user(&mut state, 1), Err(AppError::NotFound));
    assert_eq!(get_user(&state, 1), Err(AppError::NotFound));
}

#[test]
fn delete_removes_only_its_row() {
    let mut state = empty_state();
    create_user_with_id(&mut state, 1, payload("Ann", "a@x.com")).unwrap();
    create_user_with_id(&mut state, 2, payload("Bob", "b@x.com")).unwrap();
    create_user_with_id(&mut state, 3, payload("Cy", "c@x.com")).unwrap();
    assert!(delete_user(&mut state, 2).is_ok());
    assert_eq!(
        list_users(&state).unwrap(),
        vec![user(1, "Ann", "a@x.com"), user(3, "Cy", "c@x.com")]
    );
}

#[test]
fn update_name_only_keeps_email() {
    let mut state = empty_state();
    create_user_with_id(&mut state, 1, payload("Ann", "a@x.com")).unwrap();
    create_user_with_id(&mut state, 2, payload("Bob", "b@x.com")).unwrap();
    let changed = update_user(
        &mut state,
        1,
        UpdateUser { name: Some("Anna".to_string()), email: None },
    );
    assert_eq!(changed, Ok(user(1, "Anna", "a@x.com")));
    assert_eq!(get_user(&state, 1), Ok(user(1, "Anna", "a@x.com")));
    assert_eq!(get_user(&state, 2), Ok(user(2, "Bob", "b@x.com")));
}

#[test]
fn update_email_only_keeps_name() {
    let mut state = empty_state();
    create_user_with_id(&mut state, 1, payload("Ann", "a@x.com")).unwrap();
    let changed = update_user(
        &mut state,
        1,
        UpdateUser { name: None, email: Some("ann@y.org".to_string()) },
    );
    assert_eq!(changed, Ok(user(1, "Ann", "ann@y.org")));
}

#[test]
fn update_both_fields() {
    let mut state = empty_state();
    create_user_with_id(&mut state, 1, payload("Ann", "a@x.com")).unwrap();
    let changed = update_user(
        &mut state,
        1,
        UpdateUser { name: Some("Zed".to_string()), email: Some("z@x.com".to_string()) },
    );
    assert_eq!(changed, Ok(user(1, "Zed", "z@x.com")));
    assert_eq!(list_users(&state).unwrap(), vec![user(1, "Zed", "z@x.com")]);
}

#[test]
fn update_with_no_field_returns_row_unchanged() {
    let mut state = empty_state();
    create_user_with_id(&mut state, 1, payload("Ann", "a@x.com")).unwrap();
    let before = list_users(&state).unwrap();
    let same = update_user(&mut state, 1, UpdateUser { name: None, email: None });
    assert_eq!(same, Ok(user(1, "Ann", "a@x.com")));
    assert_eq!(list_users(&state).unwrap(), before);
}

#[test]
fn update_of_absent_id_is_not_found() {
    let mut state = empty_state();
    create_user_with_id(&mut state, 1, payload("Ann", "a@x.com")).unwrap();
    let missing = update_user(
        &mut state,
        2,
        UpdateUser { name: Some("X".to_string()), email: None },
    );
    assert_eq!(missing, Err(AppError::NotFound));
    assert_eq!(list_users(&state).unwrap(), vec![user(1, "Ann", "a@x.com")]);
}

#[test]
fn list_of_empty_store_is_empty() {
    let state = empty_state();
    assert_eq!(list_users(&state), Ok(Vec::new()));
}

#[test]
fn list_holds_every_created_user() {
    let mut state = empty_state();
    let mut made: Vec<User> = Vec::new();
    for i in 0..10u128 {
        let name = format!("user{}", i);
        let email = format!("{}@x.com", i);
        made.push(create_user_with_id(&mut state, 100 + i, payload(&name, &email)).unwrap());
    }
    let listed = list_users(&state).unwrap();
    assert_eq!(listed.len(), 10);
    for one in made.iter() {
        assert_eq!(listed.iter().filter(|u| *u == one).count(), 1);
    }
}

#[test]
fn store_failure_on_create_is_database() {
    assert_eq!(
        user_created(Err("connection reset".to_string())),
        Err(AppError::Database("connection reset".to_string()))
    );
    assert_eq!(user_created(Ok(user(1, "Ann", "a@x.com"))), Ok(user(1, "Ann", "a@x.com")));
}

#[test]
fn store_reply_on_fetch_maps_three_ways() {
    assert_eq!(user_found(Ok(Some(user(1, "Ann", "a@x.com")))), Ok(user(1, "Ann", "a@x.com")));
    assert_eq!(user_found(Ok(None)), Err(AppError::NotFound));
    assert_eq!(
        user_found(Err("timeout".to_string())),
        Err(AppError::Database("timeout".to_string()))
    );
}

#[test]
fn store_reply_on_list_maps_two_ways() {
    assert_eq!(users_listed(Ok(vec![user(1, "Ann", "a@x.com")])), Ok(vec![user(1, "Ann", "a@x.com")]));
    assert_eq!(users_listed(Ok(Vec::new())), Ok(Vec::new()));
    assert_eq!(
        users_listed(Err("timeout".to_string())),
        Err(AppError::Database("timeout".to_string()))
    );
}

#[test]
fn store_reply_on_delete_goes_by_row_count() {
    assert_eq!(user_deleted(Ok(0)), Err(AppError::NotFound));
    assert_eq!(user_deleted(Ok(1)), Ok("User deleted".to_string()));
    assert_eq!(user_deleted(Ok(2)), Ok("User deleted".to_string()));
    assert_eq!(
        user_deleted(Err("broken pipe".to_string())),
        Err(AppError::Database("broken pipe".to_string()))
    );
}

fn empty_name() -> AppError {
    AppError::BadRequest("name must not be empty".to_string())
}

#[test]
fn create_with_empty_name_is_a_bad_request() {
    let mut state = empty_state();
    assert_eq!(create_user(&mut state, payload("", "a@x.com")), Err(empty_name()));
    assert_eq!(create_user_with_id(&mut state, 1, payload("", "a@x.com")), Err(empty_name()));
    assert_eq!(list_users(&state), Ok(Vec::new()));
    assert_eq!(empty_name().status_code(), 400);
}

#[test]
fn create_with_empty_name_and_taken_id_is_a_bad_request() {
    let mut state = empty_state();
    create_user_with_id(&mut state, 1, payload("Ann", "a@x.com")).unwrap();
    assert_eq!(create_user_with_id(&mut state, 1, payload("", "b@x.com")), Err(empty_name()));
    assert_eq!(list_users(&state).unwrap(), vec![user(1, "Ann", "a@x.com")]);
}

#[test]
fn create_with_empty_email_is_accepted() {
    let mut state = empty_state();
    assert_eq!(create_user_with_id(&mut state, 1, payload("Ann", "")), Ok(user(1, "Ann", "")));
}

#[test]
fn create_on_empty_store_succeeds() {
    let mut state = empty_state();
    assert!(create_user(&mut state, payload("A", "")).is_ok());
    assert_eq!(list_users(&state).unwrap().len(), 1);
}

#[test]
fn new_user_needs_a_name() {
    assert_eq!(new_user(payload("", "b@x.com")), Err(empty_name()));
}

#[test]
fn update_to_empty_name_is_a_bad_request() {
    let mut state = empty_state();
    create_user_with_id(&mut state, 1, payload("Ann", "a@x.com")).unwrap();
    let refused = update_user(
        &mut state,
        1,
        UpdateUser { name: Some(String::new()), email: Some("new@x.com".to_string()) },
    );
    assert_eq!(refused, Err(empty_name()));
    assert_eq!(get_user(&state, 1), Ok(user(1, "Ann", "a@x.com")));
}

#[test]
fn update_of_absent_id_is_not_found_whatever_the_payload() {
    let mut state = empty_state();
    let blank = UpdateUser { name: Some(String::new()), email: None };
    assert_eq!(update_user(&mut state, 1, blank), Err(AppError::NotFound));
    create_user_with_id(&mut state, 1, payload("Ann", "a@x.com")).unwrap();
    let blank = UpdateUser { name: Some(String::new()), email: Some("e".to_string()) };
    assert_eq!(update_user(&mut state, 9, blank), Err(AppError::NotFound));
    let nothing = UpdateUser { name: None, email: None };
    assert_eq!(update_user(&mut state, 9, nothing), Err(AppError::NotFound));
    assert_eq!(list_users(&state).unwrap(), vec![user(1, "Ann", "a@x.com")]);
}

#[test]
fn rejected_update_goes_by_the_row() {
    assert_eq!(update_rejected(Ok(Some(user(1, "Ann", "a@x.com")))), empty_name());
    assert_eq!(update_rejected(Ok(None)), AppError::NotFound);
    assert_eq!(
        update_rejected(Err("timeout".to_string())),
        AppError::Database("timeout".to_string())
    );
}

#[test]
fn update_to_empty_email_is_accepted() {
    let mut state = empty_state();
    create_user_with_id(&mut state, 1, payload("Ann", "a@x.com")).unwrap();
    let changed = update_user(&mut state, 1, UpdateUser { name: None, email: Some(String::new()) });
    assert_eq!(changed, Ok(user(1, "Ann", "")));
}

#[test]
fn checked_payloads_pass_unchanged() {
    assert_eq!(checked_create(payload("Ann", "a@x.com")), Ok(payload("Ann", "a@x.com")));
    assert_eq!(checked_create(payload("", "a@x.com")), Err(empty_name()));
    assert_eq!(
        checked_update(UpdateUser { name: None, email: None }),
        Ok(UpdateUser { name: None, email: None })
    );
    assert_eq!(
        checked_update(UpdateUser { name: Some("Zed".to_string()), email: None }),
        Ok(UpdateUser { name: Some("Zed".to_string()), email: None })
    );
    assert_eq!(
        checked_update(UpdateUser { name: Some(String::new()), email: None }),
        Err(empty_name())
    );
}
