//! The three entities of the data model and the role enumeration.
//!
//! Ids are assigned by the store; a `New*` value carries only the fields a
//! caller supplies. A membership is keyed by the pair `(chapter_id, user_id)`
//! and carries an optional role.

use vstd::prelude::*;

verus! {

/// A registered person. Referenced, never owned, by [`ChapterMember`].
#[derive(Debug)]
pub struct User {
    pub id: i32,
    pub name: String,
}

/// The caller-supplied part of a [`User`]; the store assigns the id.
#[derive(Debug)]
pub struct NewUser {
    pub name: String,
}

/// A chapter. Referenced, never owned, by [`ChapterMember`].
#[derive(Debug)]
pub struct Chapter {
    pub id: i32,
    pub name: String,
}

/// The caller-supplied part of a [`Chapter`]; the store assigns the id.
#[derive(Debug)]
pub struct NewChapter {
    pub name: String,
}

/// A user's membership in a chapter, keyed by `(chapter_id, user_id)`.
#[derive(Debug)]
pub struct ChapterMember {
    pub chapter_id: i32,
    pub user_id: i32,
    pub role: Option<ChapterRole>,
}

/// The caller-supplied part of a [`ChapterMember`]; the key comes from the
/// request path.
#[derive(Debug)]
pub struct NewChapterMember {
    pub role: Option<ChapterRole>,
}

/// The role a member plays in a chapter, stored as text.
#[derive(Clone, Copy, Debug, PartialEq, Eq, Structural)]
pub enum ChapterRole {
    Contributor,
    Lead,
}

impl Clone for User {
    fn clone(&self) -> (r: Self)
        ensures
            r == *self,
    {
        User { id: self.id, name: self.name.clone() }
    }
}

impl Clone for Chapter {
    fn clone(&self) -> (r: Self)
        ensures
            r == *self,
    {
        Chapter { id: self.id, name: self.name.clone() }
    }
}

impl Clone for ChapterMember {
    fn clone(&self) -> (r: Self)
        ensures
            r == *self,
    {
        ChapterMember { chapter_id: self.chapter_id, user_id: self.user_id, role: self.role }
    }
}

impl ChapterRole {
    /// The text under which a role is stored and serialized.
    pub open spec fn text_spec(self) -> Seq<char> {
        match self {
            ChapterRole::Contributor => "Contributor"@,
            ChapterRole::Lead => "Lead"@,
        }
    }

    /// Maps a role to its stored text.
    pub fn as_text(&self) -> (r: &'static str)
        ensures
            r@ == self.text_spec(),
    {
        match self {
            ChapterRole::Lead => "Lead",
            ChapterRole::Contributor => "Contributor",
        }
    }

    /// Reads a role back from stored text; text that names no role is
    /// rejected.
    pub fn from_text(value: &str) -> (r: Result<ChapterRole, String>)
        ensures
            match r {
                Ok(role) => value@ == role.text_spec(),
                Err(e) => value@ != ChapterRole::Contributor.text_spec()
                    && value@ != ChapterRole::Lead.text_spec()
                    && e@ == "Unrecognized enum variant"@,
            },
    {
        if str_eq(value, "Lead") {
            Ok(ChapterRole::Lead)
        } else if str_eq(value, "Contributor") {
            Ok(ChapterRole::Contributor)
        } else {
            Err(String::from_str("Unrecognized enum variant"))
        }
    }
}

/// Character-wise equality of two string slices.
fn str_eq(a: &str, b: &str) -> (r: bool)
    ensures
        r == (a@ == b@),
{
    let a_len = a.unicode_len();
    let b_len = b.unicode_len();
    if a_len != b_len {
        return false;
    }
    let mut i: usize = 0;
    while i < a_len
        invariant
            a_len == a@.len(),
            b_len == b@.len(),
            a_len == b_len,
            i <= a_len,
            forall|j: int| 0 <= j < i ==> a@[j] == b@[j],
        decreases a_len - i,
    {
        if a.get_char(i) != b.get_char(i) {
            return false;
        }
        i += 1;
    }
    proof {
        assert(a@ =~= b@);
    }
    true
}

} // verus!
