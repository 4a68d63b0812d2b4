//! Request handlers: one repository operation each, shaped for an HTTP
//! layer.
//!
//! A handler returns the success status code and the affected entity, or
//! collapses any repository failure into a single internal-error response
//! carrying the failure's textual description. Creating a chapter or a
//! membership answers 201 and deleting them answers 202; every other
//! success answers 200, and every failure answers 500. On a membership
//! update an absent role is coerced to `Contributor` before the update is
//! applied, so the stored role never stays what it was.

use vstd::prelude::*;

use crate::model::Chapter;
use crate::model::ChapterMember;
use crate::model::ChapterRole;
use crate::model::NewChapter;
use crate::model::NewChapterMember;
use crate::model::NewUser;
use crate::model::User;
use crate::store::has_chapter_id;
use crate::store::has_member_key;
use crate::store::has_user_id;
use crate::store::chapter_index;
use crate::store::chapter_referenced;
use crate::store::member_index;
use crate::store::members_of_chapter;
use crate::store::user_index;
use crate::store::user_referenced;
use crate::store::Db;
use crate::store::DbError;

verus! {

/// What a handler hands the HTTP layer: the status code and the entity on
/// success, the status code and the failure's description otherwise.
pub type HandlerResult<T> = Result<(u16, T), (u16, String)>;

/// The role a membership update stores: the supplied one, or `Contributor`
/// when none was supplied.
pub open spec fn effective_role(role: Option<ChapterRole>) -> ChapterRole {
    match role {
        Some(r) => r,
        None => ChapterRole::Contributor,
    }
}

/// Creates a user from the request body.
pub fn create_user(db: &mut Db, new_user: NewUser) -> (r: HandlerResult<User>)
    requires
        old(db).inv(),
        old(db).next_user_id < i32::MAX,
    ensures
        final(db).inv(),
        r is Ok,
        match r {
            Ok((status, u)) => status == 200 && u.id == old(db).next_user_id && u.name
                == new_user.name && final(db).users@ == old(db).users@.push(u) && final(db).next_user_id == old(db).next_user_id + 1 && final(db).chapters@ == old(db).chapters@
                && final(db).members@ == old(db).members@ && final(db).next_chapter_id == old(
                db,
            ).next_chapter_id,
            Err(_) => false,
        },
{
    let u = db.create_user(new_user);
    Ok((200, u))
}

/// Lists every user.
pub fn list_users(db: &Db) -> (r: HandlerResult<Vec<User>>)
    ensures
        match r {
            Ok((status, us)) => status == 200 && us@ == db.users@,
            Err(_) => false,
        },
{
    Ok((200, db.list_users()))
}

/// Fetches one user by id.
pub fn get_one_user(db: &Db, id: i32) -> (r: HandlerResult<User>)
    ensures
        r is Ok <==> has_user_id(db.users@, id),
        match r {
            Ok((status, u)) => status == 200 && u.id == id && db.users@.contains(u),
            Err((status, msg)) => status == 500 && msg@ == DbError::NotFound.message_spec(),
        },
{
    match db.get_user(id) {
        Ok(u) => Ok((200, u)),
        Err(e) => Err((500, e.message())),
    }
}

/// Replaces the mutable fields of one user by id.
pub fn update_user(db: &mut Db, id: i32, new_user: NewUser) -> (r: HandlerResult<User>)
    requires
        old(db).inv(),
    ensures
        final(db).inv(),
        final(db).chapters@ == old(db).chapters@,
        final(db).members@ == old(db).members@,
        final(db).next_user_id == old(db).next_user_id,
        final(db).next_chapter_id == old(db).next_chapter_id,
        r is Ok <==> has_user_id(old(db).users@, id),
        match r {
            Ok((status, u)) => status == 200 && u.id == id && u.name == new_user.name && final(db).users@ == old(db).users@.update(user_index(old(db).users@, id), u),
            Err((status, msg)) => status == 500 && msg@ == DbError::NotFound.message_spec()
                && final(db).users@ == old(db).users@,
        },
{
    match db.update_user(id, new_user) {
        Ok(u) => Ok((200, u)),
        Err(e) => Err((500, e.message())),
    }
}

/// Deletes one user by id and returns the removed row.
pub fn delete_user(db: &mut Db, id: i32) -> (r: HandlerResult<User>)
    requires
        old(db).inv(),
    ensures
        final(db).inv(),
        final(db).chapters@ == old(db).chapters@,
        final(db).members@ == old(db).members@,
        final(db).next_user_id == old(db).next_user_id,
        final(db).next_chapter_id == old(db).next_chapter_id,
        r is Ok <==> (has_user_id(old(db).users@, id) && !user_referenced(old(db).members@, id)),
        match r {
            Ok((status, u)) => status == 200 && u.id == id && old(db).users@.contains(u) && final(db).users@ == old(db).users@.remove(user_index(old(db).users@, id)),
            Err((status, msg)) => status == 500 && final(db).users@ == old(db).users@ && msg@ == (
            if has_user_id(old(db).users@, id) {
                DbError::ConstraintViolation.message_spec()
            } else {
                DbError::NotFound.message_spec()
            }),
        },
{
    match db.delete_user(id) {
        Ok(u) => Ok((200, u)),
        Err(e) => Err((500, e.message())),
    }
}

/// Creates a chapter from the request body.
pub fn create_chapter(db: &mut Db, new_chapter: NewChapter) -> (r: HandlerResult<Chapter>)
    requires
        old(db).inv(),
        old(db).next_chapter_id < i32::MAX,
    ensures
        final(db).inv(),
        r is Ok,
        match r {
            Ok((status, c)) => status == 201 && c.id == old(db).next_chapter_id && c.name
                == new_chapter.name && final(db).chapters@ == old(db).chapters@.push(c) && final(db).next_chapter_id == old(db).next_chapter_id + 1 && final(db).users@ == old(db).users@
                && final(db).members@ == old(db).members@ && final(db).next_user_id == old(
                db,
            ).next_user_id,
            Err(_) => false,
        },
{
    let c = db.create_chapter(new_chapter);
    Ok((201, c))
}

/// Lists every chapter.
pub fn list_chapters(db: &Db) -> (r: HandlerResult<Vec<Chapter>>)
    ensures
        match r {
            Ok((status, cs)) => status == 200 && cs@ == db.chapters@,
            Err(_) => false,
        },
{
    Ok((200, db.list_chapters()))
}

/// Fetches one chapter by id.
pub fn get_one_chapter(db: &Db, id: i32) -> (r: HandlerResult<Chapter>)
    ensures
        r is Ok <==> has_chapter_id(db.chapters@, id),
        match r {
            Ok((status, c)) => status == 200 && c.id == id && db.chapters@.contains(c),
            Err((status, msg)) => status == 500 && msg@ == DbError::NotFound.message_spec(),
        },
{
    match db.get_chapter(id) {
        Ok(c) => Ok((200, c)),
        Err(e) => Err((500, e.message())),
    }
}

/// Replaces the mutable fields of one chapter by id.
pub fn update_chapter(db: &mut Db, id: i32, new_chapter: NewChapter) -> (r: HandlerResult<Chapter>)
    requires
        old(db).inv(),
    ensures
        final(db).inv(),
        final(db).users@ == old(db).users@,
        final(db).members@ == old(db).members@,
        final(db).next_user_id == old(db).next_user_id,
        final(db).next_chapter_id == old(db).next_chapter_id,
        r is Ok <==> has_chapter_id(old(db).chapters@, id),
        match r {
            Ok((status, c)) => status == 200 && c.id == id && c.name == new_chapter.name && final(db).chapters@ == old(db).chapters@.update(chapter_index(old(db).chapters@, id), c),
            Err((status, msg)) => status == 500 && msg@ == DbError::NotFound.message_spec()
                && final(db).chapters@ == old(db).chapters@,
        },
{
    match db.update_chapter(id, new_chapter) {
        Ok(c) => Ok((200, c)),
        Err(e) => Err((500, e.message())),
    }
}

/// Deletes one chapter by id and returns the removed row.
pub fn delete_chapter(db: &mut Db, id: i32) -> (r: HandlerResult<Chapter>)
    requires
        old(db).inv(),
    ensures
        final(db).inv(),
        final(db).users@ == old(db).users@,
        final(db).members@ == old(db).members@,
        final(db).next_user_id == old(db).next_user_id,
        final(db).next_chapter_id == old(db).next_chapter_id,
        r is Ok <==> (has_chapter_id(old(db).chapters@, id) && !chapter_referenced(
            old(db).members@,
            id,
        )),
        match r {
            Ok((status, c)) => status == 202 && c.id == id && old(db).chapters@.contains(c)
                && final(db).chapters@ == old(db).chapters@.remove(
                chapter_index(old(db).chapters@, id),
            ),
            Err((status, msg)) => status == 500 && final(db).chapters@ == old(db).chapters@ && msg@
                == (if has_chapter_id(old(db).chapters@, id) {
                DbError::ConstraintViolation.message_spec()
            } else {
                DbError::NotFound.message_spec()
            }),
        },
{
    match db.delete_chapter(id) {
        Ok(c) => Ok((202, c)),
        Err(e) => Err((500, e.message())),
    }
}

/// Registers a user as a member of a chapter, with the role from the
/// request body. Role stays absent when the body carries none.
pub fn create_chapter_member(
    db: &mut Db,
    chapter_id: i32,
    user_id: i32,
    new_member: NewChapterMember,
) -> (r: HandlerResult<ChapterMember>)
    requires
        old(db).inv(),
    ensures
        final(db).inv(),
        final(db).users@ == old(db).users@,
        final(db).chapters@ == old(db).chapters@,
        final(db).next_user_id == old(db).next_user_id,
        final(db).next_chapter_id == old(db).next_chapter_id,
        r is Ok <==> (has_chapter_id(old(db).chapters@, chapter_id) && has_user_id(
            old(db).users@,
            user_id,
        ) && !has_member_key(old(db).members@, chapter_id, user_id)),
        match r {
            Ok((status, m)) => status == 201 && m.chapter_id == chapter_id && m.user_id == user_id
                && m.role == new_member.role && final(db).members@ == old(db).members@.push(m),
            Err((status, msg)) => status == 500 && msg@
                == DbError::ConstraintViolation.message_spec() && final(db).members@ == old(
                db,
            ).members@,
        },
{
    match db.create_member(chapter_id, user_id, new_member.role) {
        Ok(m) => Ok((201, m)),
        Err(e) => Err((500, e.message())),
    }
}

/// Lists memberships: those of one chapter when a filter is supplied, all
/// of them otherwise.
pub fn list_chapter_members(db: &Db, chapter_id: Option<i32>) -> (r: HandlerResult<
    Vec<ChapterMember>,
>)
    ensures
        match r {
            Ok((status, ms)) => status == 200 && (match chapter_id {
                Some(c) => ms@ == members_of_chapter(db.members@, c),
                None => ms@ == db.members@,
            }),
            Err(_) => false,
        },
{
    Ok((200, db.list_members(chapter_id)))
}

/// Fetches one membership by its composite key.
pub fn get_one_chapter_member(db: &Db, chapter_id: i32, user_id: i32) -> (r: HandlerResult<
    ChapterMember,
>)
    ensures
        r is Ok <==> has_member_key(db.members@, chapter_id, user_id),
        match r {
            Ok((status, m)) => status == 200 && m.chapter_id == chapter_id && m.user_id == user_id
                && db.members@.contains(m),
            Err((status, msg)) => status == 500 && msg@ == DbError::NotFound.message_spec(),
        },
{
    match db.get_member(chapter_id, user_id) {
        Ok(m) => Ok((200, m)),
        Err(e) => Err((500, e.message())),
    }
}

/// Changes the role of one membership. An absent role in the body is
/// coerced to `Contributor` before the update is applied, whatever role
/// was stored before.
pub fn update_chapter_member(
    db: &mut Db,
    chapter_id: i32,
    user_id: i32,
    new_member: NewChapterMember,
) -> (r: HandlerResult<ChapterMember>)
    requires
        old(db).inv(),
    ensures
        final(db).inv(),
        final(db).users@ == old(db).users@,
        final(db).chapters@ == old(db).chapters@,
        final(db).next_user_id == old(db).next_user_id,
        final(db).next_chapter_id == old(db).next_chapter_id,
        r is Ok <==> has_member_key(old(db).members@, chapter_id, user_id),
        match r {
            Ok((status, m)) => status == 200 && m.chapter_id == chapter_id && m.user_id == user_id
                && m.role == Some(effective_role(new_member.role)) && final(db).members@ == old(
                db,
            ).members@.update(member_index(old(db).members@, chapter_id, user_id), m),
            Err((status, msg)) => status == 500 && msg@ == DbError::NotFound.message_spec()
                && final(db).members@ == old(db).members@,
        },
{
    let role = match new_member.role {
        Some(r) => r,
        None => ChapterRole::Contributor,
    };
    match db.update_member(chapter_id, user_id, Some(role)) {
        Ok(m) => Ok((200, m)),
        Err(e) => Err((500, e.message())),
    }
}

/// Deletes one membership by its composite key and returns the removed
/// row.
pub fn delete_chapter_member(db: &mut Db, chapter_id: i32, user_id: i32) -> (r: HandlerResult<
    ChapterMember,
>)
    requires
        old(db).inv(),
    ensures
        final(db).inv(),
        final(db).users@ == old(db).users@,
        final(db).chapters@ == old(db).chapters@,
        final(db).next_user_id == old(db).next_user_id,
        final(db).next_chapter_id == old(db).next_chapter_id,
        r is Ok <==> has_member_key(old(db).members@, chapter_id, user_id),
        match r {
            Ok((status, m)) => status == 202 && m.chapter_id == chapter_id && m.user_id == user_id
                && old(db).members@.contains(m) && final(db).members@ == old(db).members@.remove(
                member_index(old(db).members@, chapter_id, user_id),
            ),
            Err((status, msg)) => status == 500 && msg@ == DbError::NotFound.message_spec()
                && final(db).members@ == old(db).members@,
        },
{
    match db.delete_member(chapter_id, user_id) {
        Ok(m) => Ok((202, m)),
        Err(e) => Err((500, e.message())),
    }
}

} // verus!
