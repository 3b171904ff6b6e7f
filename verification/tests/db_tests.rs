use thought_auth::db::{update_todo, was_deleted, TodoUpdate};
use thought_auth::models::{
    CreateThoughtRequest, CreateTodoRequest, CreateUserRequest, LoginRequest, LoginResponse,
    Thought, Todo, UpdateTodoRequest, User,
};

fn stored() -> Todo {
    Todo {
        id: 7,
        user_id: 42,
        title: String::from("write report"),
        description: Some(String::from("quarterly numbers")),
        completed: false,
        due_date: Some(1_700_000_000_000_000),
        created_at: 1_600_000_000_000_000,
        updated_at: 1_650_000_000_000_000,
    }
}

fn bare() -> Todo {
    Todo {
        id: 8,
        user_id: 42,
        title: String::from("call home"),
        description: None,
        completed: true,
        due_date: None,
        created_at: 1,
        updated_at: 2,
    }
}

fn nothing() -> UpdateTodoRequest {
    UpdateTodoRequest { title: None, description: None, completed: None, due_date: None }
}

#[test]
fn update_of_a_missing_todo_writes_nothing() {
    assert_eq!(update_todo(None, &nothing()), None);
    let all = UpdateTodoRequest {
        title: Some(String::from("t")),
        description: Some(String::from("d")),
        completed: Some(true),
        due_date: Some(5),
    };
    assert_eq!(update_todo(None, &all), None);
}

#[test]
fn empty_update_keeps_every_field() {
    let expected = TodoUpdate {
        title: String::from("write report"),
        description: Some(String::from("quarterly numbers")),
        completed: false,
        due_date: Some(1_700_000_000_000_000),
    };
    assert_eq!(update_todo(Some(&stored()), &nothing()), Some(expected));
    let expected = TodoUpdate {
        title: String::from("call home"),
        description: None,
        completed: true,
        due_date: None,
    };
    assert_eq!(update_todo(Some(&bare()), &nothing()), Some(expected));
}

#[test]
fn full_update_replaces_every_field() {
    let all = UpdateTodoRequest {
        title: Some(String::from("new title")),
        description: Some(String::from("new description")),
        completed: Some(true),
        due_date: Some(99),
    };
    let expected = TodoUpdate {
        title: String::from("new title"),
        description: Some(String::from("new description")),
        completed: true,
        due_date: Some(99),
    };
    assert_eq!(update_todo(Some(&stored()), &all), Some(expected.clone()));
    assert_eq!(update_todo(Some(&bare()), &all), Some(expected));
}

#[test]
fn each_field_is_merged_on_its_own() {
    let mut request = nothing();
    request.title = Some(String::from("only title"));
    let r = update_todo(Some(&stored()), &request).unwrap();
    assert_eq!(r.title, "only title");
    assert_eq!(r.description.as_deref(), Some("quarterly numbers"));
    assert!(!r.completed);
    assert_eq!(r.due_date, Some(1_700_000_000_000_000));

    let mut request = nothing();
    request.description = Some(String::new());
    let r = update_todo(Some(&stored()), &request).unwrap();
    assert_eq!(r.title, "write report");
    assert_eq!(r.description.as_deref(), Some(""));

    let mut request = nothing();
    request.completed = Some(true);
    let r = update_todo(Some(&stored()), &request).unwrap();
    assert!(r.completed);
    assert_eq!(r.title, "write report");

    let mut request = nothing();
    request.completed = Some(false);
    let r = update_todo(Some(&bare()), &request).unwrap();
    assert!(!r.completed);

    let mut request = nothing();
    request.due_date = Some(-3);
    let r = update_todo(Some(&bare()), &request).unwrap();
    assert_eq!(r.due_date, Some(-3));
    assert_eq!(r.description, None);
}

#[test]
fn stored_description_and_due_date_cannot_be_cleared() {
    let r = update_todo(Some(&stored()), &nothing()).unwrap();
    assert!(r.description.is_some());
    assert!(r.due_date.is_some());
}

#[test]
fn update_leaves_its_inputs_alone() {
    let todo = stored();
    let request = UpdateTodoRequest {
        title: Some(String::from("x")),
        description: None,
        completed: None,
        due_date: None,
    };
    let _ = update_todo(Some(&todo), &request);
    assert_eq!(todo, stored());
    assert_eq!(request.title.as_deref(), Some("x"));
}

#[test]
fn delete_reports_whether_a_row_went() {
    assert!(!was_deleted(0));
    assert!(was_deleted(1));
    assert!(was_deleted(2));
    assert!(was_deleted(u64::MAX));
}

#[test]
fn records_hold_plain_values() {
    let user = User {
        id: 1,
        name: String::from("Ada"),
        email: String::from("ada@example.org"),
        password_hash: String::from("$argon2id$..."),
        created_at: 10,
        updated_at: 20,
    };
    let response = LoginResponse { token: String::from("t"), user: user.clone() };
    assert_eq!(response.user, user);
    assert_eq!(response.token, "t");
    let thought = Thought {
        id: 2,
        user_id: user.id,
        content: String::from("hm"),
        created_at: 30,
        updated_at: 30,
    };
    assert_eq!(thought.clone(), thought);
    assert_eq!(thought.user_id, 1);
    let register = CreateUserRequest {
        name: String::from("Ada"),
        email: String::from("ada@example.org"),
        password: String::from("pw"),
    };
    let login = LoginRequest { email: register.email.clone(), password: register.password.clone() };
    assert_eq!(login.email, "ada@example.org");
    assert_eq!(login.password, "pw");
    let note = CreateThoughtRequest { content: String::from("hm") };
    assert_eq!(note.content, thought.content);
    let todo = CreateTodoRequest { title: String::from("t"), description: None, due_date: Some(4) };
    assert_eq!(todo.due_date, Some(4));
    assert_eq!(todo.description, None);
    assert_eq!(todo.title, "t");
}
