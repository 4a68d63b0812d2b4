//! Crate-level guarantees that relate several operations.
//!
//! Each law is stated over the same spec functions the operations'
//! contracts use, so it composes with those contracts: a caller who chains
//! the operations gets the stated conclusion for free.

use vstd::prelude::*;

use crate::model::ChapterMember;
use crate::model::User;
use crate::store::has_member_key;
use crate::store::has_user_id;
use crate::store::members_of_chapter;
use crate::store::user_ids_unique;
use crate::store::user_index;

verus! {

/// Creating a user and then fetching by the returned id yields the created
/// row, name included: creation appends a row whose id no earlier row
/// carries, and any row a fetch by that id can return out of the grown
/// table is the appended one.
pub proof fn lemma_create_then_get_user(users: Seq<User>, created: User, fetched: User)
    requires
        forall|i: int| 0 <= i < users.len() ==> (#[trigger] users[i]).id != created.id,
        users.push(created).contains(fetched),
        fetched.id == created.id,
    ensures
        fetched == created,
{
    let grown = users.push(created);
    let w = choose|i: int| 0 <= i < grown.len() && grown[i] == fetched;
    if w < users.len() {
        assert(grown[w] == users[w]);
    } else {
        assert(grown[w] == created);
    }
}

/// Appending one row is concatenating a one-row table: the form in which a
/// chain of creations becomes one concatenation.
pub proof fn lemma_push_is_concat<A>(s: Seq<A>, x: A)
    ensures
        s.push(x) == s + seq![x],
{
    assert(s.push(x) =~= s + seq![x]);
}

/// After a run of creations, the listing holds exactly the earlier rows
/// followed by the created ones: as many entries as both together, each
/// created row among them.
pub proof fn lemma_list_after_creates(base: Seq<User>, created: Seq<User>)
    ensures
        (base + created).len() == base.len() + created.len(),
        forall|i: int| 0 <= i < created.len() ==> (base + created).contains(#[trigger] created[i]),
{
    assert forall|i: int| 0 <= i < created.len() implies (base + created).contains(
        #[trigger] created[i],
    ) by {
        assert((base + created)[base.len() + i] == created[i]);
    }
}

/// A second membership with an already taken composite key is always
/// refused: after a creation the key is taken, and creation refuses a
/// taken key.
pub proof fn lemma_duplicate_member_key(members: Seq<ChapterMember>, m: ChapterMember)
    ensures
        has_member_key(members.push(m), m.chapter_id, m.user_id),
{
    assert(members.push(m)[members.len() as int] == m);
}

/// The filtered listing is exact: every row it returns belongs to the
/// requested chapter, and every membership row of that chapter is
/// returned.
pub proof fn lemma_member_filter_exact(members: Seq<ChapterMember>, chapter_id: i32)
    ensures
        forall|i: int|
            0 <= i < members_of_chapter(members, chapter_id).len() ==> (
            #[trigger] members_of_chapter(members, chapter_id)[i]).chapter_id == chapter_id,
        forall|i: int|
            0 <= i < members.len() && (#[trigger] members[i]).chapter_id == chapter_id
                ==> members_of_chapter(members, chapter_id).contains(members[i]),
{
    let pred = |m: ChapterMember| m.chapter_id == chapter_id;
    assert forall|i: int| 0 <= i < members_of_chapter(members, chapter_id).len() implies (
    #[trigger] members_of_chapter(members, chapter_id)[i]).chapter_id == chapter_id by {
        members.lemma_filter_pred(pred, i);
    }
    assert forall|i: int|
        0 <= i < members.len() && (#[trigger] members[i]).chapter_id
            == chapter_id implies members_of_chapter(members, chapter_id).contains(
        members[i],
    ) by {
        members.lemma_filter_contains(pred, i);
    }
}

/// Deleting a user and then fetching by the same id fails: once the one
/// row carrying the id is removed, no row carries it.
pub proof fn lemma_delete_then_get_user(users: Seq<User>, id: i32)
    requires
        user_ids_unique(users),
        has_user_id(users, id),
    ensures
        !has_user_id(users.remove(user_index(users, id)), id),
{
    let k = user_index(users, id);
    assert(0 <= k < users.len() && users[k].id == id);
    let shrunk = users.remove(k);
    users.remove_ensures(k);
    assert forall|i: int| 0 <= i < shrunk.len() implies (#[trigger] shrunk[i]).id != id by {
        let i0: int = if i < k {
            i
        } else {
            i + 1
        };
        assert(shrunk[i] == users[i0]);
        assert(users[i0].id != users[k].id);
    }
}

} // verus!
