//! The in-memory table set and its repository operations.
//!
//! [`Db`] holds the three tables and the id counters. Its invariant
//! [`Db::inv`] is the relational contract: user ids and chapter ids are
//! unique and below their counters, membership composite keys are unique,
//! and every membership references an existing chapter and an existing
//! user. Every operation that writes requires and preserves the invariant;
//! each operation runs to completion on its own, so a sequence of calls is
//! all-or-nothing at the granularity of one operation.

use vstd::prelude::*;

use crate::model::Chapter;
use crate::model::ChapterMember;
use crate::model::ChapterRole;
use crate::model::NewChapter;
use crate::model::NewUser;
use crate::model::User;

verus! {

/// How a repository operation can fail.
#[derive(Clone, Copy, Debug, PartialEq, Eq, Structural)]
pub enum DbError {
    /// No row matches the given key.
    NotFound,
    /// A uniqueness or foreign-key rule would be broken.
    ConstraintViolation,
    /// No connection to the table set could be obtained.
    PersistenceUnavailable,
}

impl DbError {
    /// The textual description a response carries for this failure.
    pub open spec fn message_spec(self) -> Seq<char> {
        match self {
            DbError::NotFound => "Record not found"@,
            DbError::ConstraintViolation => "Constraint violation"@,
            DbError::PersistenceUnavailable => "Persistence unavailable"@,
        }
    }

    /// The textual description a response carries for this failure.
    pub fn message(&self) -> (r: String)
        ensures
            r@ == self.message_spec(),
    {
        match self {
            DbError::NotFound => String::from_str("Record not found"),
            DbError::ConstraintViolation => String::from_str("Constraint violation"),
            DbError::PersistenceUnavailable => String::from_str("Persistence unavailable"),
        }
    }
}

/// Some row of `users` carries the id.
pub open spec fn has_user_id(users: Seq<User>, id: i32) -> bool {
    exists|i: int| 0 <= i < users.len() && (#[trigger] users[i]).id == id
}

/// The index of the row of `users` carrying the id, provided one exists.
pub open spec fn user_index(users: Seq<User>, id: i32) -> int {
    choose|i: int| 0 <= i < users.len() && (#[trigger] users[i]).id == id
}

/// Some row of `chapters` carries the id.
pub open spec fn has_chapter_id(chapters: Seq<Chapter>, id: i32) -> bool {
    exists|i: int| 0 <= i < chapters.len() && (#[trigger] chapters[i]).id == id
}

/// The index of the row of `chapters` carrying the id, provided one exists.
pub open spec fn chapter_index(chapters: Seq<Chapter>, id: i32) -> int {
    choose|i: int| 0 <= i < chapters.len() && (#[trigger] chapters[i]).id == id
}

/// Some membership row carries the composite key.
pub open spec fn has_member_key(members: Seq<ChapterMember>, chapter_id: i32, user_id: i32) -> bool {
    exists|i: int|
        0 <= i < members.len() && (#[trigger] members[i]).chapter_id == chapter_id
            && members[i].user_id == user_id
}

/// The index of the membership row carrying the composite key, provided one
/// exists.
pub open spec fn member_index(members: Seq<ChapterMember>, chapter_id: i32, user_id: i32) -> int {
    choose|i: int|
        0 <= i < members.len() && (#[trigger] members[i]).chapter_id == chapter_id
            && members[i].user_id == user_id
}

/// Some membership row references the user.
pub open spec fn user_referenced(members: Seq<ChapterMember>, user_id: i32) -> bool {
    exists|i: int| 0 <= i < members.len() && (#[trigger] members[i]).user_id == user_id
}

/// Some membership row references the chapter.
pub open spec fn chapter_referenced(members: Seq<ChapterMember>, chapter_id: i32) -> bool {
    exists|i: int| 0 <= i < members.len() && (#[trigger] members[i]).chapter_id == chapter_id
}

/// No two rows of `users` share an id.
pub open spec fn user_ids_unique(users: Seq<User>) -> bool {
    forall|i: int, j: int|
        0 <= i < j < users.len() ==> (#[trigger] users[i]).id != (#[trigger] users[j]).id
}

/// No two rows of `chapters` share an id.
pub open spec fn chapter_ids_unique(chapters: Seq<Chapter>) -> bool {
    forall|i: int, j: int|
        0 <= i < j < chapters.len() ==> (#[trigger] chapters[i]).id != (#[trigger] chapters[j]).id
}

/// No two membership rows share the composite key.
pub open spec fn member_keys_unique(members: Seq<ChapterMember>) -> bool {
    forall|i: int, j: int|
        0 <= i < j < members.len() ==> !((#[trigger] members[i]).chapter_id
            == (#[trigger] members[j]).chapter_id && members[i].user_id == members[j].user_id)
}

/// The membership rows of one chapter, in table order.
pub open spec fn members_of_chapter(members: Seq<ChapterMember>, chapter_id: i32) -> Seq<
    ChapterMember,
> {
    members.filter(|m: ChapterMember| m.chapter_id == chapter_id)
}

/// One step of a front-to-back walk of [`members_of_chapter`].
proof fn lemma_members_of_chapter_step(s: Seq<ChapterMember>, chapter_id: i32, i: int)
    requires
        0 <= i < s.len(),
    ensures
        members_of_chapter(s.take(i + 1), chapter_id) == (if s[i].chapter_id == chapter_id {
            members_of_chapter(s.take(i), chapter_id).push(s[i])
        } else {
            members_of_chapter(s.take(i), chapter_id)
        }),
{
    reveal(Seq::filter);
    let t1 = s.take(i + 1);
    assert(t1.drop_last() =~= s.take(i));
    assert(t1.last() == s[i]);
}

/// The in-memory table set: three tables and the two id counters.
pub struct Db {
    pub users: Vec<User>,
    pub chapters: Vec<Chapter>,
    pub members: Vec<ChapterMember>,
    pub next_user_id: i32,
    pub next_chapter_id: i32,
}

impl Db {
    /// Every membership references an existing chapter and an existing user.
    pub open spec fn members_reference_existing(self) -> bool {
        forall|i: int|
            0 <= i < self.members@.len() ==> {
                let m = #[trigger] self.members@[i];
                has_chapter_id(self.chapters@, m.chapter_id) && has_user_id(
                    self.users@,
                    m.user_id,
                )
            }
    }

    /// User ids were assigned by the counter: positive and below it.
    pub open spec fn user_ids_assigned(self) -> bool {
        &&& 1 <= self.next_user_id
        &&& forall|i: int|
            0 <= i < self.users@.len() ==> 1 <= (#[trigger] self.users@[i]).id
                < self.next_user_id
    }

    /// Chapter ids were assigned by the counter: positive and below it.
    pub open spec fn chapter_ids_assigned(self) -> bool {
        &&& 1 <= self.next_chapter_id
        &&& forall|i: int|
            0 <= i < self.chapters@.len() ==> 1 <= (#[trigger] self.chapters@[i]).id
                < self.next_chapter_id
    }

    /// The relational contract of the table set.
    pub open spec fn inv(self) -> bool {
        &&& user_ids_unique(self.users@)
        &&& chapter_ids_unique(self.chapters@)
        &&& member_keys_unique(self.members@)
        &&& self.members_reference_existing()
        &&& self.user_ids_assigned()
        &&& self.chapter_ids_assigned()
    }

    /// An empty table set; ids start at 1.
    pub fn new() -> (r: Db)
        ensures
            r.inv(),
            r.users@ == Seq::<User>::empty(),
            r.chapters@ == Seq::<Chapter>::empty(),
            r.members@ == Seq::<ChapterMember>::empty(),
            r.next_user_id == 1,
            r.next_chapter_id == 1,
    {
        let r = Db {
            users: Vec::new(),
            chapters: Vec::new(),
            members: Vec::new(),
            next_user_id: 1,
            next_chapter_id: 1,
        };
        proof {
            assert(r.users@ =~= Seq::<User>::empty());
            assert(r.chapters@ =~= Seq::<Chapter>::empty());
            assert(r.members@ =~= Seq::<ChapterMember>::empty());
        }
        r
    }

    /// Inserts a user row, assigning the next id, and returns the row.
    pub fn create_user(&mut self, new_user: NewUser) -> (r: User)
        requires
            old(self).inv(),
            old(self).next_user_id < i32::MAX,
        ensures
            final(self).inv(),
            r.id == old(self).next_user_id,
            r.name == new_user.name,
            final(self).users@ == old(self).users@.push(r),
            final(self).next_user_id == old(self).next_user_id + 1,
            final(self).chapters@ == old(self).chapters@,
            final(self).members@ == old(self).members@,
            final(self).next_chapter_id == old(self).next_chapter_id,
    {
        let id = self.next_user_id;
        let user = User { id, name: new_user.name };
        let stored = user.clone();
        self.users.push(stored);
        self.next_user_id = id + 1;
        proof {
            let users0 = old(self).users@;
            let users1 = self.users@;
            assert(users1 == users0.push(user));
            assert forall|i: int, j: int| 0 <= i < j < users1.len() implies (#[trigger] users1[i]).id
                != (#[trigger] users1[j]).id by {
                if j == users0.len() {
                    assert(users1[i] == users0[i]);
                } else {
                    assert(users1[i] == users0[i]);
                    assert(users1[j] == users0[j]);
                }
            }
            assert forall|i: int| 0 <= i < users1.len() implies 1 <= (#[trigger] users1[i]).id
                < self.next_user_id by {
                if i < users0.len() {
                    assert(users1[i] == users0[i]);
                }
            }
            assert forall|i: int| 0 <= i < self.members@.len() implies {
                let m = #[trigger] self.members@[i];
                has_chapter_id(self.chapters@, m.chapter_id) && has_user_id(users1, m.user_id)
            } by {
                let m = self.members@[i];
                assert(has_user_id(users0, m.user_id));
                let w = choose|k: int| 0 <= k < users0.len() && (#[trigger] users0[k]).id
                    == m.user_id;
                assert(users1[w] == users0[w]);
            }
        }
        user
    }

    /// Returns every user row, in table order.
    pub fn list_users(&self) -> (r: Vec<User>)
        ensures
            r@ == self.users@,
    {
        let r = self.users.clone();
        proof {
            assert forall|i: int| 0 <= i < r@.len() implies r@[i] == self.users@[i] by {
                assert(cloned::<User>(self.users@[i], r@[i]));
            }
            assert(r@ =~= self.users@);
        }
        r
    }

    /// Returns the user row with the id, or `NotFound` if no row carries it.
    pub fn get_user(&self, id: i32) -> (r: Result<User, DbError>)
        ensures
            match r {
                Ok(u) => u.id == id && self.users@.contains(u),
                Err(e) => e == DbError::NotFound && !has_user_id(self.users@, id),
            },
    {
        let n = self.users.len();
        let mut i: usize = 0;
        while i < n
            invariant
                n == self.users@.len(),
                i <= n,
                forall|j: int| 0 <= j < i ==> (#[trigger] self.users@[j]).id != id,
            decreases n - i,
        {
            if self.users[i].id == id {
                let u = self.users[i].clone();
                proof {
                    assert(self.users@[i as int] == u);
                }
                return Ok(u);
            }
            i += 1;
        }
        Err(DbError::NotFound)
    }

    /// Replaces the mutable fields of the user row with the id and returns
    /// the new row, or `NotFound` if no row carries the id.
    pub fn update_user(&mut self, id: i32, new_user: NewUser) -> (r: Result<User, DbError>)
        requires
            old(self).inv(),
        ensures
            final(self).inv(),
            final(self).chapters@ == old(self).chapters@,
            final(self).members@ == old(self).members@,
            final(self).next_user_id == old(self).next_user_id,
            final(self).next_chapter_id == old(self).next_chapter_id,
            r is Ok <==> has_user_id(old(self).users@, id),
            match r {
                Ok(u) => u.id == id && u.name == new_user.name && final(self).users@ == old(
                    self,
                ).users@.update(user_index(old(self).users@, id), u),
                Err(e) => e == DbError::NotFound && final(self).users@ == old(self).users@,
            },
    {
        let n = self.users.len();
        let mut i: usize = 0;
        while i < n
            invariant
                *self == *old(self),
                old(self).inv(),
                n == self.users@.len(),
                i <= n,
                forall|j: int| 0 <= j < i ==> (#[trigger] self.users@[j]).id != id,
            decreases n - i,
        {
            if self.users[i].id == id {
                let u = User { id, name: new_user.name };
                let stored = u.clone();
                proof {
                    assert(self.users@[i as int].id == id);
                }
                self.users.set(i, stored);
                proof {
                    let users0 = old(self).users@;
                    let users1 = self.users@;
                    assert(has_user_id(users0, id));
                    let k = user_index(users0, id);
                    assert(0 <= k < users0.len() && users0[k].id == id);
                    assert(k == i);
                    assert forall|m: int| 0 <= m < users1.len() implies (#[trigger] users1[m]).id
                        == users0[m].id by {
                        if m != i {
                            assert(users1[m] == users0[m]);
                        }
                    }
                    assert forall|a: int, b: int| 0 <= a < b < users1.len() implies (
                    #[trigger] users1[a]).id != (#[trigger] users1[b]).id by {
                        assert(users0[a].id != users0[b].id);
                    }
                    assert forall|m: int| 0 <= m < self.members@.len() implies {
                        let mem = #[trigger] self.members@[m];
                        has_chapter_id(self.chapters@, mem.chapter_id) && has_user_id(
                            users1,
                            mem.user_id,
                        )
                    } by {
                        let mem = self.members@[m];
                        assert(has_user_id(users0, mem.user_id));
                        let w = choose|q: int|
                            0 <= q < users0.len() && (#[trigger] users0[q]).id == mem.user_id;
                        assert(users1[w].id == users0[w].id);
                    }
                }
                return Ok(u);
            }
            i += 1;
        }
        Err(DbError::NotFound)
    }

    /// Removes and returns the user row with the id. Fails with `NotFound`
    /// if no row carries the id, and with `ConstraintViolation` if a
    /// membership still references the user.
    pub fn delete_user(&mut self, id: i32) -> (r: Result<User, DbError>)
        requires
            old(self).inv(),
        ensures
            final(self).inv(),
            final(self).chapters@ == old(self).chapters@,
            final(self).members@ == old(self).members@,
            final(self).next_user_id == old(self).next_user_id,
            final(self).next_chapter_id == old(self).next_chapter_id,
            r is Ok <==> (has_user_id(old(self).users@, id) && !user_referenced(
                old(self).members@,
                id,
            )),
            match r {
                Ok(u) => u.id == id && old(self).users@.contains(u) && final(self).users@ == old(
                    self,
                ).users@.remove(user_index(old(self).users@, id)),
                Err(e) => final(self).users@ == old(self).users@ && e == (
                if has_user_id(old(self).users@, id) {
                    DbError::ConstraintViolation
                } else {
                    DbError::NotFound
                }),
            },
    {
        let n = self.users.len();
        let mut i: usize = 0;
        while i < n
            invariant
                *self == *old(self),
                old(self).inv(),
                n == self.users@.len(),
                i <= n,
                forall|j: int| 0 <= j < i ==> (#[trigger] self.users@[j]).id != id,
            decreases n - i,
        {
            if self.users[i].id == id {
                proof {
                    assert(self.users@[i as int].id == id);
                }
                let m = self.members.len();
                let mut j: usize = 0;
                while j < m
                    invariant
                        *self == *old(self),
                        old(self).inv(),
                        i < self.users@.len(),
                        self.users@[i as int].id == id,
                        m == self.members@.len(),
                        j <= m,
                        forall|k: int| 0 <= k < j ==> (#[trigger] self.members@[k]).user_id != id,
                    decreases m - j,
                {
                    if self.members[j].user_id == id {
                        proof {
                            assert(self.members@[j as int].user_id == id);
                        }
                        return Err(DbError::ConstraintViolation);
                    }
                    j += 1;
                }
                let u = self.users.remove(i);
                proof {
                    let users0 = old(self).users@;
                    let users1 = self.users@;
                    assert(users0[i as int] == u);
                    assert(has_user_id(users0, id));
                    let k = user_index(users0, id);
                    assert(0 <= k < users0.len() && users0[k].id == id);
                    assert(k == i);
                    users0.remove_ensures(i as int);
                    assert forall|a: int, b: int| 0 <= a < b < users1.len() implies (
                    #[trigger] users1[a]).id != (#[trigger] users1[b]).id by {
                        let a0: int = if a < i { a } else { a + 1 };
                        let b0: int = if b < i { b } else { b + 1 };
                        assert(users1[a] == users0[a0]);
                        assert(users1[b] == users0[b0]);
                        assert(users0[a0].id != users0[b0].id);
                    }
                    assert forall|a: int| 0 <= a < users1.len() implies 1 <= (
                    #[trigger] users1[a]).id < self.next_user_id by {
                        let a0: int = if a < i { a } else { a + 1 };
                        assert(users1[a] == users0[a0]);
                    }
                    assert forall|a: int| 0 <= a < self.members@.len() implies {
                        let mem = #[trigger] self.members@[a];
                        has_chapter_id(self.chapters@, mem.chapter_id) && has_user_id(
                            users1,
                            mem.user_id,
                        )
                    } by {
                        let mem = self.members@[a];
                        assert(mem.user_id != id);
                        assert(has_user_id(users0, mem.user_id));
                        let w = choose|q: int|
                            0 <= q < users0.len() && (#[trigger] users0[q]).id == mem.user_id;
                        let w1: int = if w < i {
                            w
                        } else {
                            w - 1
                        };
                        assert(users1[w1] == users0[w]);
                    }
                }
                return Ok(u);
            }
            i += 1;
        }
        Err(DbError::NotFound)
    }

    /// Inserts a chapter row, assigning the next id, and returns the row.
    pub fn create_chapter(&mut self, new_chapter: NewChapter) -> (r: Chapter)
        requires
            old(self).inv(),
            old(self).next_chapter_id < i32::MAX,
        ensures
            final(self).inv(),
            r.id == old(self).next_chapter_id,
            r.name == new_chapter.name,
            final(self).chapters@ == old(self).chapters@.push(r),
            final(self).next_chapter_id == old(self).next_chapter_id + 1,
            final(self).users@ == old(self).users@,
            final(self).members@ == old(self).members@,
            final(self).next_user_id == old(self).next_user_id,
    {
        let id = self.next_chapter_id;
        let chapter = Chapter { id, name: new_chapter.name };
        let stored = chapter.clone();
        self.chapters.push(stored);
        self.next_chapter_id = id + 1;
        proof {
            let chapters0 = old(self).chapters@;
            let chapters1 = self.chapters@;
            assert(chapters1 == chapters0.push(chapter));
            assert forall|i: int, j: int| 0 <= i < j < chapters1.len() implies (
            #[trigger] chapters1[i]).id != (#[trigger] chapters1[j]).id by {
                if j == chapters0.len() {
                    assert(chapters1[i] == chapters0[i]);
                } else {
                    assert(chapters1[i] == chapters0[i]);
                    assert(chapters1[j] == chapters0[j]);
                }
            }
            assert forall|i: int| 0 <= i < chapters1.len() implies 1 <= (
            #[trigger] chapters1[i]).id < self.next_chapter_id by {
                if i < chapters0.len() {
                    assert(chapters1[i] == chapters0[i]);
                }
            }
            assert forall|i: int| 0 <= i < self.members@.len() implies {
                let m = #[trigger] self.members@[i];
                has_chapter_id(chapters1, m.chapter_id) && has_user_id(self.users@, m.user_id)
            } by {
                let m = self.members@[i];
                assert(has_chapter_id(chapters0, m.chapter_id));
                let w = choose|k: int|
                    0 <= k < chapters0.len() && (#[trigger] chapters0[k]).id == m.chapter_id;
                assert(chapters1[w] == chapters0[w]);
            }
        }
        chapter
    }

    /// Returns every chapter row, in table order.
    pub fn list_chapters(&self) -> (r: Vec<Chapter>)
        ensures
            r@ == self.chapters@,
    {
        let r = self.chapters.clone();
        proof {
            assert forall|i: int| 0 <= i < r@.len() implies r@[i] == self.chapters@[i] by {
                assert(cloned::<Chapter>(self.chapters@[i], r@[i]));
            }
            assert(r@ =~= self.chapters@);
        }
        r
    }

    /// Returns the chapter row with the id, or `NotFound` if no row carries
    /// it.
    pub fn get_chapter(&self, id: i32) -> (r: Result<Chapter, DbError>)
        ensures
            match r {
                Ok(c) => c.id == id && self.chapters@.contains(c),
                Err(e) => e == DbError::NotFound && !has_chapter_id(self.chapters@, id),
            },
    {
        let n = self.chapters.len();
        let mut i: usize = 0;
        while i < n
            invariant
                n == self.chapters@.len(),
                i <= n,
                forall|j: int| 0 <= j < i ==> (#[trigger] self.chapters@[j]).id != id,
            decreases n - i,
        {
            if self.chapters[i].id == id {
                let c = self.chapters[i].clone();
                proof {
                    assert(self.chapters@[i as int] == c);
                }
                return Ok(c);
            }
            i += 1;
        }
        Err(DbError::NotFound)
    }

    /// Replaces the mutable fields of the chapter row with the id and
    /// returns the new row, or `NotFound` if no row carries the id.
    pub fn update_chapter(&mut self, id: i32, new_chapter: NewChapter) -> (r: Result<
        Chapter,
        DbError,
    >)
        requires
            old(self).inv(),
        ensures
            final(self).inv(),
            final(self).users@ == old(self).users@,
            final(self).members@ == old(self).members@,
            final(self).next_user_id == old(self).next_user_id,
            final(self).next_chapter_id == old(self).next_chapter_id,
            r is Ok <==> has_chapter_id(old(self).chapters@, id),
            match r {
                Ok(c) => c.id == id && c.name == new_chapter.name && final(self).chapters@ == old(
                    self,
                ).chapters@.update(chapter_index(old(self).chapters@, id), c),
                Err(e) => e == DbError::NotFound && final(self).chapters@ == old(self).chapters@,
            },
    {
        let n = self.chapters.len();
        let mut i: usize = 0;
        while i < n
            invariant
                *self == *old(self),
                old(self).inv(),
                n == self.chapters@.len(),
                i <= n,
                forall|j: int| 0 <= j < i ==> (#[trigger] self.chapters@[j]).id != id,
            decreases n - i,
        {
            if self.chapters[i].id == id {
                let c = Chapter { id, name: new_chapter.name };
                let stored = c.clone();
                proof {
                    assert(self.chapters@[i as int].id == id);
                }
                self.chapters.set(i, stored);
                proof {
                    let chapters0 = old(self).chapters@;
                    let chapters1 = self.chapters@;
                    assert(chapters0[i as int].id == id);
                    assert(has_chapter_id(chapters0, id));
                    let k = chapter_index(chapters0, id);
                    assert(0 <= k < chapters0.len() && chapters0[k].id == id);
                    assert(k == i);
                    assert forall|m: int| 0 <= m < chapters1.len() implies (
                    #[trigger] chapters1[m]).id == chapters0[m].id by {
                        if m != i {
                            assert(chapters1[m] == chapters0[m]);
                        }
                    }
                    assert forall|a: int, b: int| 0 <= a < b < chapters1.len() implies (
                    #[trigger] chapters1[a]).id != (#[trigger] chapters1[b]).id by {
                        assert(chapters0[a].id != chapters0[b].id);
                    }
                    assert forall|m: int| 0 <= m < self.members@.len() implies {
                        let mem = #[trigger] self.members@[m];
                        has_chapter_id(chapters1, mem.chapter_id) && has_user_id(
                            self.users@,
                            mem.user_id,
                        )
                    } by {
                        let mem = self.members@[m];
                        assert(has_chapter_id(chapters0, mem.chapter_id));
                        let w = choose|q: int|
                            0 <= q < chapters0.len() && (#[trigger] chapters0[q]).id
                                == mem.chapter_id;
                        assert(chapters1[w].id == chapters0[w].id);
                    }
                }
                return Ok(c);
            }
            i += 1;
        }
        Err(DbError::NotFound)
    }

    /// Removes and returns the chapter row with the id. Fails with
    /// `NotFound` if no row carries the id, and with `ConstraintViolation`
    /// if a membership still references the chapter.
    pub fn delete_chapter(&mut self, id: i32) -> (r: Result<Chapter, DbError>)
        requires
            old(self).inv(),
        ensures
            final(self).inv(),
            final(self).users@ == old(self).users@,
            final(self).members@ == old(self).members@,
            final(self).next_user_id == old(self).next_user_id,
            final(self).next_chapter_id == old(self).next_chapter_id,
            r is Ok <==> (has_chapter_id(old(self).chapters@, id) && !chapter_referenced(
                old(self).members@,
                id,
            )),
            match r {
                Ok(c) => c.id == id && old(self).chapters@.contains(c) && final(self).chapters@
                    == old(self).chapters@.remove(chapter_index(old(self).chapters@, id)),
                Err(e) => final(self).chapters@ == old(self).chapters@ && e == (
                if has_chapter_id(old(self).chapters@, id) {
                    DbError::ConstraintViolation
                } else {
                    DbError::NotFound
                }),
            },
    {
        let n = self.chapters.len();
        let mut i: usize = 0;
        while i < n
            invariant
                *self == *old(self),
                old(self).inv(),
                n == self.chapters@.len(),
                i <= n,
                forall|j: int| 0 <= j < i ==> (#[trigger] self.chapters@[j]).id != id,
            decreases n - i,
        {
            if self.chapters[i].id == id {
                proof {
                    assert(self.chapters@[i as int].id == id);
                }
                let m = self.members.len();
                let mut j: usize = 0;
                while j < m
                    invariant
                        *self == *old(self),
                        old(self).inv(),
                        i < self.chapters@.len(),
                        self.chapters@[i as int].id == id,
                        m == self.members@.len(),
                        j <= m,
                        forall|k: int|
                            0 <= k < j ==> (#[trigger] self.members@[k]).chapter_id != id,
                    decreases m - j,
                {
                    if self.members[j].chapter_id == id {
                        proof {
                            assert(self.members@[j as int].chapter_id == id);
                        }
                        return Err(DbError::ConstraintViolation);
                    }
                    j += 1;
                }
                let c = self.chapters.remove(i);
                proof {
                    let chapters0 = old(self).chapters@;
                    let chapters1 = self.chapters@;
                    assert(chapters0[i as int] == c);
                    assert(has_chapter_id(chapters0, id));
                    let k = chapter_index(chapters0, id);
                    assert(0 <= k < chapters0.len() && chapters0[k].id == id);
                    assert(k == i);
                    chapters0.remove_ensures(i as int);
                    assert forall|a: int, b: int| 0 <= a < b < chapters1.len() implies (
                    #[trigger] chapters1[a]).id != (#[trigger] chapters1[b]).id by {
                        let a0: int = if a < i { a } else { a + 1 };
                        let b0: int = if b < i { b } else { b + 1 };
                        assert(chapters1[a] == chapters0[a0]);
                        assert(chapters1[b] == chapters0[b0]);
                        assert(chapters0[a0].id != chapters0[b0].id);
                    }
                    assert forall|a: int| 0 <= a < chapters1.len() implies 1 <= (
                    #[trigger] chapters1[a]).id < self.next_chapter_id by {
                        let a0: int = if a < i { a } else { a + 1 };
                        assert(chapters1[a] == chapters0[a0]);
                    }
                    assert forall|a: int| 0 <= a < self.members@.len() implies {
                        let mem = #[trigger] self.members@[a];
                        has_chapter_id(chapters1, mem.chapter_id) && has_user_id(
                            self.users@,
                            mem.user_id,
                        )
                    } by {
                        let mem = self.members@[a];
                        assert(mem.chapter_id != id);
                        assert(has_chapter_id(chapters0, mem.chapter_id));
                        let w = choose|q: int|
                            0 <= q < chapters0.len() && (#[trigger] chapters0[q]).id
                                == mem.chapter_id;
                        let w1: int = if w < i {
                            w
                        } else {
                            w - 1
                        };
                        assert(chapters1[w1] == chapters0[w]);
                    }
                }
                return Ok(c);
            }
            i += 1;
        }
        Err(DbError::NotFound)
    }

    /// Whether some user row carries the id.
    fn user_exists(&self, id: i32) -> (r: bool)
        ensures
            r == has_user_id(self.users@, id),
    {
        let n = self.users.len();
        let mut i: usize = 0;
        while i < n
            invariant
                n == self.users@.len(),
                i <= n,
                forall|j: int| 0 <= j < i ==> (#[trigger] self.users@[j]).id != id,
            decreases n - i,
        {
            if self.users[i].id == id {
                proof {
                    assert(self.users@[i as int].id == id);
                }
                return true;
            }
            i += 1;
        }
        false
    }

    /// Whether some chapter row carries the id.
    fn chapter_exists(&self, id: i32) -> (r: bool)
        ensures
            r == has_chapter_id(self.chapters@, id),
    {
        let n = self.chapters.len();
        let mut i: usize = 0;
        while i < n
            invariant
                n == self.chapters@.len(),
                i <= n,
                forall|j: int| 0 <= j < i ==> (#[trigger] self.chapters@[j]).id != id,
            decreases n - i,
        {
            if self.chapters[i].id == id {
                proof {
                    assert(self.chapters@[i as int].id == id);
                }
                return true;
            }
            i += 1;
        }
        false
    }

    /// The position of the membership row with the composite key, if any.
    fn member_position(&self, chapter_id: i32, user_id: i32) -> (r: Option<usize>)
        ensures
            match r {
                Some(i) => i < self.members@.len() && self.members@[i as int].chapter_id
                    == chapter_id && self.members@[i as int].user_id == user_id,
                None => !has_member_key(self.members@, chapter_id, user_id),
            },
    {
        let n = self.members.len();
        let mut i: usize = 0;
        while i < n
            invariant
                n == self.members@.len(),
                i <= n,
                forall|j: int|
                    0 <= j < i ==> !((#[trigger] self.members@[j]).chapter_id == chapter_id
                        && self.members@[j].user_id == user_id),
            decreases n - i,
        {
            if self.members[i].chapter_id == chapter_id && self.members[i].user_id == user_id {
                return Some(i);
            }
            i += 1;
        }
        None
    }

    /// Inserts a membership row under the composite key from the path.
    /// Fails with `ConstraintViolation` if the key is already taken or if
    /// either referenced row is missing.
    pub fn create_member(
        &mut self,
        chapter_id: i32,
        user_id: i32,
        role: Option<ChapterRole>,
    ) -> (r: Result<ChapterMember, DbError>)
        requires
            old(self).inv(),
        ensures
            final(self).inv(),
            final(self).users@ == old(self).users@,
            final(self).chapters@ == old(self).chapters@,
            final(self).next_user_id == old(self).next_user_id,
            final(self).next_chapter_id == old(self).next_chapter_id,
            r is Ok <==> (has_chapter_id(old(self).chapters@, chapter_id) && has_user_id(
                old(self).users@,
                user_id,
            ) && !has_member_key(old(self).members@, chapter_id, user_id)),
            match r {
                Ok(m) => m.chapter_id == chapter_id && m.user_id == user_id && m.role == role
                    && final(self).members@ == old(self).members@.push(m),
                Err(e) => e == DbError::ConstraintViolation && final(self).members@ == old(
                    self,
                ).members@,
            },
    {
        if !self.chapter_exists(chapter_id) {
            return Err(DbError::ConstraintViolation);
        }
        if !self.user_exists(user_id) {
            return Err(DbError::ConstraintViolation);
        }
        if self.member_position(chapter_id, user_id).is_some() {
            return Err(DbError::ConstraintViolation);
        }
        let m = ChapterMember { chapter_id, user_id, role };
        let stored = m.clone();
        self.members.push(stored);
        proof {
            let mems0 = old(self).members@;
            let mems1 = self.members@;
            assert(mems1 == mems0.push(m));
            assert forall|a: int, b: int| 0 <= a < b < mems1.len() implies !(
            (#[trigger] mems1[a]).chapter_id == (#[trigger] mems1[b]).chapter_id
                && mems1[a].user_id == mems1[b].user_id) by {
                if b == mems0.len() {
                    assert(mems1[a] == mems0[a]);
                    assert(!(mems0[a].chapter_id == chapter_id && mems0[a].user_id == user_id));
                } else {
                    assert(mems1[a] == mems0[a]);
                    assert(mems1[b] == mems0[b]);
                }
            }
            assert forall|a: int| 0 <= a < mems1.len() implies {
                let mem = #[trigger] mems1[a];
                has_chapter_id(self.chapters@, mem.chapter_id) && has_user_id(
                    self.users@,
                    mem.user_id,
                )
            } by {
                if a == mems0.len() {
                    assert(mems1[a] == m);
                } else {
                    assert(mems1[a] == mems0[a]);
                }
            }
        }
        Ok(m)
    }

    /// Returns the membership rows, filtered to one chapter when a filter
    /// is supplied and unfiltered otherwise.
    pub fn list_members(&self, chapter_id: Option<i32>) -> (r: Vec<ChapterMember>)
        ensures
            match chapter_id {
                Some(c) => r@ == members_of_chapter(self.members@, c),
                None => r@ == self.members@,
            },
    {
        match chapter_id {
            None => {
                let r = self.members.clone();
                proof {
                    assert forall|i: int| 0 <= i < r@.len() implies r@[i] == self.members@[i] by {
                        assert(cloned::<ChapterMember>(self.members@[i], r@[i]));
                    }
                    assert(r@ =~= self.members@);
                }
                r
            },
            Some(c) => {
                let mut out: Vec<ChapterMember> = Vec::new();
                let n = self.members.len();
                let mut i: usize = 0;
                proof {
                    reveal(Seq::filter);
                    assert(self.members@.take(0).len() == 0);
                    assert(out@ =~= members_of_chapter(self.members@.take(0), c));
                }
                while i < n
                    invariant
                        n == self.members@.len(),
                        i <= n,
                        out@ == members_of_chapter(self.members@.take(i as int), c),
                    decreases n - i,
                {
                    proof {
                        lemma_members_of_chapter_step(self.members@, c, i as int);
                    }
                    if self.members[i].chapter_id == c {
                        out.push(self.members[i].clone());
                    }
                    i += 1;
                }
                proof {
                    assert(self.members@.take(n as int) =~= self.members@);
                }
                out
            },
        }
    }

    /// Returns the membership row with the composite key, or `NotFound` if
    /// no row carries it.
    pub fn get_member(&self, chapter_id: i32, user_id: i32) -> (r: Result<ChapterMember, DbError>)
        ensures
            match r {
                Ok(m) => m.chapter_id == chapter_id && m.user_id == user_id
                    && self.members@.contains(m),
                Err(e) => e == DbError::NotFound && !has_member_key(
                    self.members@,
                    chapter_id,
                    user_id,
                ),
            },
    {
        match self.member_position(chapter_id, user_id) {
            Some(i) => {
                let m = self.members[i].clone();
                proof {
                    assert(self.members@[i as int] == m);
                }
                Ok(m)
            },
            None => Err(DbError::NotFound),
        }
    }

    /// Stores the given role under the composite key and returns the new
    /// row, or `NotFound` if no row carries the key.
    pub fn update_member(
        &mut self,
        chapter_id: i32,
        user_id: i32,
        role: Option<ChapterRole>,
    ) -> (r: Result<ChapterMember, DbError>)
        requires
            old(self).inv(),
        ensures
            final(self).inv(),
            final(self).users@ == old(self).users@,
            final(self).chapters@ == old(self).chapters@,
            final(self).next_user_id == old(self).next_user_id,
            final(self).next_chapter_id == old(self).next_chapter_id,
            r is Ok <==> has_member_key(old(self).members@, chapter_id, user_id),
            match r {
                Ok(m) => m.chapter_id == chapter_id && m.user_id == user_id && m.role == role
                    && final(self).members@ == old(self).members@.update(
                    member_index(old(self).members@, chapter_id, user_id),
                    m,
                ),
                Err(e) => e == DbError::NotFound && final(self).members@ == old(self).members@,
            },
    {
        match self.member_position(chapter_id, user_id) {
            Some(i) => {
                let m = ChapterMember { chapter_id, user_id, role };
                let stored = m.clone();
                proof {
                    assert(self.members@[i as int].chapter_id == chapter_id);
                    assert(self.members@[i as int].user_id == user_id);
                }
                self.members.set(i, stored);
                proof {
                    let mems0 = old(self).members@;
                    let mems1 = self.members@;
                    assert(mems0[i as int].chapter_id == chapter_id && mems0[i as int].user_id
                        == user_id);
                    assert(has_member_key(mems0, chapter_id, user_id));
                    let k = member_index(mems0, chapter_id, user_id);
                    assert(0 <= k < mems0.len() && mems0[k].chapter_id == chapter_id
                        && mems0[k].user_id == user_id);
                    assert(k == i);
                    assert forall|a: int| 0 <= a < mems1.len() implies (
                    #[trigger] mems1[a]).chapter_id == mems0[a].chapter_id && mems1[a].user_id
                        == mems0[a].user_id by {
                        if a != i {
                            assert(mems1[a] == mems0[a]);
                        }
                    }
                    assert forall|a: int, b: int| 0 <= a < b < mems1.len() implies !(
                    (#[trigger] mems1[a]).chapter_id == (#[trigger] mems1[b]).chapter_id
                        && mems1[a].user_id == mems1[b].user_id) by {
                        assert(!(mems0[a].chapter_id == mems0[b].chapter_id && mems0[a].user_id
                            == mems0[b].user_id));
                    }
                    assert forall|a: int| 0 <= a < mems1.len() implies {
                        let mem = #[trigger] mems1[a];
                        has_chapter_id(self.chapters@, mem.chapter_id) && has_user_id(
                            self.users@,
                            mem.user_id,
                        )
                    } by {
                        assert(mems1[a].chapter_id == mems0[a].chapter_id && mems1[a].user_id
                            == mems0[a].user_id);
                    }
                }
                Ok(m)
            },
            None => Err(DbError::NotFound),
        }
    }

    /// Removes and returns the membership row with the composite key, or
    /// `NotFound` if no row carries it.
    pub fn delete_member(&mut self, chapter_id: i32, user_id: i32) -> (r: Result<
        ChapterMember,
        DbError,
    >)
        requires
            old(self).inv(),
        ensures
            final(self).inv(),
            final(self).users@ == old(self).users@,
            final(self).chapters@ == old(self).chapters@,
            final(self).next_user_id == old(self).next_user_id,
            final(self).next_chapter_id == old(self).next_chapter_id,
            r is Ok <==> has_member_key(old(self).members@, chapter_id, user_id),
            match r {
                Ok(m) => m.chapter_id == chapter_id && m.user_id == user_id && old(
                    self,
                ).members@.contains(m) && final(self).members@ == old(self).members@.remove(
                    member_index(old(self).members@, chapter_id, user_id),
                ),
                Err(e) => e == DbError::NotFound && final(self).members@ == old(self).members@,
            },
    {
        match self.member_position(chapter_id, user_id) {
            Some(i) => {
                let m = self.members.remove(i);
                proof {
                    let mems0 = old(self).members@;
                    let mems1 = self.members@;
                    assert(mems0[i as int] == m);
                    assert(has_member_key(mems0, chapter_id, user_id));
                    let k = member_index(mems0, chapter_id, user_id);
                    assert(0 <= k < mems0.len() && mems0[k].chapter_id == chapter_id
                        && mems0[k].user_id == user_id);
                    assert(k == i);
                    mems0.remove_ensures(i as int);
                    assert forall|a: int, b: int| 0 <= a < b < mems1.len() implies !(
                    (#[trigger] mems1[a]).chapter_id == (#[trigger] mems1[b]).chapter_id
                        && mems1[a].user_id == mems1[b].user_id) by {
                        let a0: int = if a < i { a } else { a + 1 };
                        let b0: int = if b < i { b } else { b + 1 };
                        assert(mems1[a] == mems0[a0]);
                        assert(mems1[b] == mems0[b0]);
                        assert(!(mems0[a0].chapter_id == mems0[b0].chapter_id && mems0[a0].user_id
                            == mems0[b0].user_id));
                    }
                    assert forall|a: int| 0 <= a < mems1.len() implies {
                        let mem = #[trigger] mems1[a];
                        has_chapter_id(self.chapters@, mem.chapter_id) && has_user_id(
                            self.users@,
                            mem.user_id,
                        )
                    } by {
                        let a0: int = if a < i { a } else { a + 1 };
                        assert(mems1[a] == mems0[a0]);
                    }
                }
                Ok(m)
            },
            None => Err(DbError::NotFound),
        }
    }
}

} // verus!
