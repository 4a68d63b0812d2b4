//! One request flow end to end: a chapter is created and answered with
//! 201 and its row, then a membership is created under the composite key
//! from the path with an empty body, answered with 201 and a row whose
//! role stays absent. The user the membership references has to exist
//! first: the store enforces the foreign keys a creation presumes.

use chapter_api::handlers::create_chapter;
use chapter_api::handlers::create_chapter_member;
use chapter_api::handlers::create_user;
use chapter_api::model::NewChapter;
use chapter_api::model::NewChapterMember;
use chapter_api::model::NewUser;
use chapter_api::store::Db;

#[test]
fn scenario_create_chapter_then_first_member() {
    let mut db = Db::new();
    create_user(&mut db, NewUser { name: "Alice".to_string() }).unwrap();

    let (status, chapter) = create_chapter(&mut db, NewChapter { name: "Chapter 1".to_string() })
        .unwrap();
    assert_eq!(status, 201);
    assert_eq!(chapter.id, 1);
    assert_eq!(chapter.name, "Chapter 1");

    let (status, member) =
        create_chapter_member(&mut db, 1, 1, NewChapterMember { role: None }).unwrap();
    assert_eq!(status, 201);
    assert_eq!(member.chapter_id, 1);
    assert_eq!(member.user_id, 1);
    assert_eq!(member.role, None);
}
