use chapter_api::handlers::create_user;
use chapter_api::handlers::delete_user;
use chapter_api::handlers::get_one_user;
use chapter_api::handlers::list_users;
use chapter_api::handlers::update_user;
use chapter_api::model::NewUser;
use chapter_api::store::Db;

fn new_user(name: &str) -> NewUser {
    NewUser { name: name.to_string() }
}

#[test]
fn create_then_get_user_returns_same_name() {
    let mut db = Db::new();
    let (status, created) = create_user(&mut db, new_user("Alice")).unwrap();
    assert_eq!(status, 200);
    assert_eq!(created.id, 1);
    assert_eq!(created.name, "Alice");

    let (status, fetched) = get_one_user(&db, created.id).unwrap();
    assert_eq!(status, 200);
    assert_eq!(fetched.id, created.id);
    assert_eq!(fetched.name, "Alice");
}

#[test]
fn create_user_assigns_sequential_ids() {
    let mut db = Db::new();
    let (_, first) = create_user(&mut db, new_user("Alice")).unwrap();
    let (_, second) = create_user(&mut db, new_user("Bob")).unwrap();
    assert_eq!(first.id, 1);
    assert_eq!(second.id, 2);
}

#[test]
fn list_users_after_three_creates_holds_all_names() {
    let mut db = Db::new();
    let names = ["Alice", "Bob", "Carol"];
    for name in names {
        create_user(&mut db, new_user(name)).unwrap();
    }
    let (status, listed) = list_users(&db).unwrap();
    assert_eq!(status, 200);
    assert_eq!(listed.len(), 3);
    for name in names {
        assert!(listed.iter().any(|u| u.name == name));
    }
}

#[test]
fn list_users_starts_empty() {
    let db = Db::new();
    let (status, listed) = list_users(&db).unwrap();
    assert_eq!(status, 200);
    assert!(listed.is_empty());
}

#[test]
fn update_missing_user_fails_and_leaves_table() {
    let mut db = Db::new();
    create_user(&mut db, new_user("Alice")).unwrap();
    let (status, msg) = update_user(&mut db, 99, new_user("Mallory")).unwrap_err();
    assert_eq!(status, 500);
    assert_eq!(msg, "Record not found");

    let (_, listed) = list_users(&db).unwrap();
    assert_eq!(listed.len(), 1);
    assert_eq!(listed[0].name, "Alice");
}

#[test]
fn update_user_replaces_name() {
    let mut db = Db::new();
    let (_, created) = create_user(&mut db, new_user("Alice")).unwrap();
    let (status, updated) = update_user(&mut db, created.id, new_user("Alicia")).unwrap();
    assert_eq!(status, 200);
    assert_eq!(updated.id, created.id);
    assert_eq!(updated.name, "Alicia");

    let (_, fetched) = get_one_user(&db, created.id).unwrap();
    assert_eq!(fetched.name, "Alicia");
}

#[test]
fn delete_then_get_user_fails_with_not_found() {
    let mut db = Db::new();
    let (_, created) = create_user(&mut db, new_user("Alice")).unwrap();
    let (status, removed) = delete_user(&mut db, created.id).unwrap();
    assert_eq!(status, 200);
    assert_eq!(removed.id, created.id);
    assert_eq!(removed.name, "Alice");

    let (status, msg) = get_one_user(&db, created.id).unwrap_err();
    assert_eq!(status, 500);
    assert_eq!(msg, "Record not found");
}

#[test]
fn delete_missing_user_fails_with_not_found() {
    let mut db = Db::new();
    let (status, msg) = delete_user(&mut db, 4).unwrap_err();
    assert_eq!(status, 500);
    assert_eq!(msg, "Record not found");
}

#[test]
fn get_missing_user_fails_with_not_found() {
    let db = Db::new();
    let (status, msg) = get_one_user(&db, 1).unwrap_err();
    assert_eq!(status, 500);
    assert_eq!(msg, "Record not found");
}
