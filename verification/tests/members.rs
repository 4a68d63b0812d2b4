use chapter_api::handlers::create_chapter;
use chapter_api::handlers::create_chapter_member;
use chapter_api::handlers::create_user;
use chapter_api::handlers::delete_chapter_member;
use chapter_api::handlers::get_one_chapter_member;
use chapter_api::handlers::list_chapter_members;
use chapter_api::handlers::update_chapter_member;
use chapter_api::model::ChapterRole;
use chapter_api::model::NewChapter;
use chapter_api::model::NewChapterMember;
use chapter_api::model::NewUser;
use chapter_api::store::Db;
use chapter_api::store::DbError;

fn seed(db: &mut Db, users: usize, chapters: usize) {
    for i in 0..users {
        create_user(db, NewUser { name: format!("user {}", i + 1) }).unwrap();
    }
    for i in 0..chapters {
        create_chapter(db, NewChapter { name: format!("chapter {}", i + 1) }).unwrap();
    }
}

#[test]
fn member_create_with_dangling_chapter_fails() {
    let mut db = Db::new();
    seed(&mut db, 1, 0);
    let (status, msg) =
        create_chapter_member(&mut db, 1, 1, NewChapterMember { role: None }).unwrap_err();
    assert_eq!(status, 500);
    assert_eq!(msg, "Constraint violation");
}

#[test]
fn member_create_with_dangling_user_fails() {
    let mut db = Db::new();
    seed(&mut db, 0, 1);
    let (status, msg) =
        create_chapter_member(&mut db, 1, 1, NewChapterMember { role: None }).unwrap_err();
    assert_eq!(status, 500);
    assert_eq!(msg, "Constraint violation");
}

#[test]
fn duplicate_member_key_fails_on_second_create() {
    let mut db = Db::new();
    seed(&mut db, 1, 1);
    let (status, created) =
        create_chapter_member(&mut db, 1, 1, NewChapterMember { role: None }).unwrap();
    assert_eq!(status, 201);
    assert_eq!(created.chapter_id, 1);
    assert_eq!(created.user_id, 1);

    let (status, msg) = create_chapter_member(
        &mut db,
        1,
        1,
        NewChapterMember { role: Some(ChapterRole::Lead) },
    )
    .unwrap_err();
    assert_eq!(status, 500);
    assert_eq!(msg, "Constraint violation");

    let (_, listed) = list_chapter_members(&db, None).unwrap();
    assert_eq!(listed.len(), 1);
}

#[test]
fn member_create_keeps_supplied_role() {
    let mut db = Db::new();
    seed(&mut db, 1, 1);
    let (_, created) = create_chapter_member(
        &mut db,
        1,
        1,
        NewChapterMember { role: Some(ChapterRole::Lead) },
    )
    .unwrap();
    assert_eq!(created.role, Some(ChapterRole::Lead));
}

#[test]
fn member_update_without_role_stores_contributor() {
    let mut db = Db::new();
    seed(&mut db, 1, 1);
    create_chapter_member(&mut db, 1, 1, NewChapterMember { role: Some(ChapterRole::Lead) })
        .unwrap();

    let (status, updated) =
        update_chapter_member(&mut db, 1, 1, NewChapterMember { role: None }).unwrap();
    assert_eq!(status, 200);
    assert_eq!(updated.role, Some(ChapterRole::Contributor));

    let (_, fetched) = get_one_chapter_member(&db, 1, 1).unwrap();
    assert_eq!(fetched.role, Some(ChapterRole::Contributor));
}

#[test]
fn member_update_with_role_stores_it() {
    let mut db = Db::new();
    seed(&mut db, 1, 1);
    create_chapter_member(&mut db, 1, 1, NewChapterMember { role: None }).unwrap();

    let (status, updated) = update_chapter_member(
        &mut db,
        1,
        1,
        NewChapterMember { role: Some(ChapterRole::Lead) },
    )
    .unwrap();
    assert_eq!(status, 200);
    assert_eq!(updated.role, Some(ChapterRole::Lead));

    let (_, fetched) = get_one_chapter_member(&db, 1, 1).unwrap();
    assert_eq!(fetched.role, Some(ChapterRole::Lead));
}

#[test]
fn member_update_missing_key_fails() {
    let mut db = Db::new();
    seed(&mut db, 1, 1);
    let (status, msg) =
        update_chapter_member(&mut db, 1, 1, NewChapterMember { role: None }).unwrap_err();
    assert_eq!(status, 500);
    assert_eq!(msg, "Record not found");
}

#[test]
fn member_list_filter_returns_only_matching_rows() {
    let mut db = Db::new();
    seed(&mut db, 2, 2);
    create_chapter_member(&mut db, 1, 1, NewChapterMember { role: None }).unwrap();
    create_chapter_member(&mut db, 1, 2, NewChapterMember { role: None }).unwrap();
    create_chapter_member(&mut db, 2, 1, NewChapterMember { role: None }).unwrap();

    let (status, filtered) = list_chapter_members(&db, Some(1)).unwrap();
    assert_eq!(status, 200);
    assert_eq!(filtered.len(), 2);
    assert!(filtered.iter().all(|m| m.chapter_id == 1));
    assert!(filtered.iter().any(|m| m.user_id == 1));
    assert!(filtered.iter().any(|m| m.user_id == 2));

    let (status, all) = list_chapter_members(&db, None).unwrap();
    assert_eq!(status, 200);
    assert_eq!(all.len(), 3);
}

#[test]
fn member_list_filter_on_empty_chapter_is_empty() {
    let mut db = Db::new();
    seed(&mut db, 1, 2);
    create_chapter_member(&mut db, 1, 1, NewChapterMember { role: None }).unwrap();
    let (_, filtered) = list_chapter_members(&db, Some(2)).unwrap();
    assert!(filtered.is_empty());
}

#[test]
fn member_get_returns_row() {
    let mut db = Db::new();
    seed(&mut db, 1, 1);
    create_chapter_member(&mut db, 1, 1, NewChapterMember { role: Some(ChapterRole::Lead) })
        .unwrap();
    let (status, fetched) = get_one_chapter_member(&db, 1, 1).unwrap();
    assert_eq!(status, 200);
    assert_eq!(fetched.chapter_id, 1);
    assert_eq!(fetched.user_id, 1);
    assert_eq!(fetched.role, Some(ChapterRole::Lead));
}

#[test]
fn member_get_missing_key_fails() {
    let db = Db::new();
    let (status, msg) = get_one_chapter_member(&db, 1, 1).unwrap_err();
    assert_eq!(status, 500);
    assert_eq!(msg, "Record not found");
}

#[test]
fn member_delete_answers_202_and_removes_row() {
    let mut db = Db::new();
    seed(&mut db, 1, 1);
    create_chapter_member(&mut db, 1, 1, NewChapterMember { role: None }).unwrap();
    let (status, removed) = delete_chapter_member(&mut db, 1, 1).unwrap();
    assert_eq!(status, 202);
    assert_eq!(removed.chapter_id, 1);
    assert_eq!(removed.user_id, 1);

    let (_, listed) = list_chapter_members(&db, None).unwrap();
    assert!(listed.is_empty());
}

#[test]
fn member_delete_missing_key_fails() {
    let mut db = Db::new();
    let (status, msg) = delete_chapter_member(&mut db, 1, 1).unwrap_err();
    assert_eq!(status, 500);
    assert_eq!(msg, "Record not found");
}

#[test]
fn role_text_round_trip() {
    assert_eq!(ChapterRole::Contributor.as_text(), "Contributor");
    assert_eq!(ChapterRole::Lead.as_text(), "Lead");
    assert_eq!(ChapterRole::from_text("Contributor").unwrap(), ChapterRole::Contributor);
    assert_eq!(ChapterRole::from_text("Lead").unwrap(), ChapterRole::Lead);
    let err = ChapterRole::from_text("Admin").unwrap_err();
    assert_eq!(err, "Unrecognized enum variant");
}

#[test]
fn db_error_messages_are_fixed() {
    assert_eq!(DbError::NotFound.message(), "Record not found");
    assert_eq!(DbError::ConstraintViolation.message(), "Constraint violation");
    assert_eq!(DbError::PersistenceUnavailable.message(), "Persistence unavailable");
}
