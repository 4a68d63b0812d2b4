use chapter_api::handlers::create_chapter;
use chapter_api::handlers::create_chapter_member;
use chapter_api::handlers::create_user;
use chapter_api::handlers::delete_chapter;
use chapter_api::handlers::delete_chapter_member;
use chapter_api::handlers::delete_user;
use chapter_api::handlers::get_one_chapter;
use chapter_api::handlers::list_chapters;
use chapter_api::handlers::update_chapter;
use chapter_api::model::NewChapter;
use chapter_api::model::NewChapterMember;
use chapter_api::model::NewUser;
use chapter_api::store::Db;

fn new_chapter(name: &str) -> NewChapter {
    NewChapter { name: name.to_string() }
}

#[test]
fn create_chapter_answers_201() {
    let mut db = Db::new();
    let (status, created) = create_chapter(&mut db, new_chapter("Chapter 1")).unwrap();
    assert_eq!(status, 201);
    assert_eq!(created.id, 1);
    assert_eq!(created.name, "Chapter 1");
}

#[test]
fn list_chapters_returns_all_rows() {
    let mut db = Db::new();
    create_chapter(&mut db, new_chapter("North")).unwrap();
    create_chapter(&mut db, new_chapter("South")).unwrap();
    let (status, listed) = list_chapters(&db).unwrap();
    assert_eq!(status, 200);
    assert_eq!(listed.len(), 2);
    assert!(listed.iter().any(|c| c.name == "North"));
    assert!(listed.iter().any(|c| c.name == "South"));
}

#[test]
fn get_missing_chapter_fails_with_not_found() {
    let db = Db::new();
    let (status, msg) = get_one_chapter(&db, 3).unwrap_err();
    assert_eq!(status, 500);
    assert_eq!(msg, "Record not found");
}

#[test]
fn update_chapter_replaces_name() {
    let mut db = Db::new();
    let (_, created) = create_chapter(&mut db, new_chapter("North")).unwrap();
    let (status, updated) = update_chapter(&mut db, created.id, new_chapter("North East")).unwrap();
    assert_eq!(status, 200);
    assert_eq!(updated.id, created.id);
    assert_eq!(updated.name, "North East");

    let (_, fetched) = get_one_chapter(&db, created.id).unwrap();
    assert_eq!(fetched.name, "North East");
}

#[test]
fn delete_chapter_answers_202() {
    let mut db = Db::new();
    let (_, created) = create_chapter(&mut db, new_chapter("North")).unwrap();
    let (status, removed) = delete_chapter(&mut db, created.id).unwrap();
    assert_eq!(status, 202);
    assert_eq!(removed.id, created.id);
    assert_eq!(removed.name, "North");

    let (status, msg) = get_one_chapter(&db, created.id).unwrap_err();
    assert_eq!(status, 500);
    assert_eq!(msg, "Record not found");
}

#[test]
fn delete_referenced_rows_fails_until_membership_goes() {
    let mut db = Db::new();
    let (_, user) = create_user(&mut db, NewUser { name: "Alice".to_string() }).unwrap();
    let (_, chapter) = create_chapter(&mut db, new_chapter("North")).unwrap();
    create_chapter_member(&mut db, chapter.id, user.id, NewChapterMember { role: None }).unwrap();

    let (status, msg) = delete_chapter(&mut db, chapter.id).unwrap_err();
    assert_eq!(status, 500);
    assert_eq!(msg, "Constraint violation");

    let (status, msg) = delete_user(&mut db, user.id).unwrap_err();
    assert_eq!(status, 500);
    assert_eq!(msg, "Constraint violation");

    let (status, _) = delete_chapter_member(&mut db, chapter.id, user.id).unwrap();
    assert_eq!(status, 202);
    delete_chapter(&mut db, chapter.id).unwrap();
    delete_user(&mut db, user.id).unwrap();
}
