//! Laws of the conversion: what ends up on disk when the posts of a plan are
//! written in order, folders reused silently and `index.md` files overwritten
//! without warning.
use vstd::prelude::*;
use crate::convert::{plan_ok, Plan, Post};
use crate::model::Export;
use crate::stamp::rfc3339_stamp;

verus! {

/// The index files on disk after writing every post in order: a map from post
/// folder to document text, where a later post silently overwrites an earlier
/// one that shares its folder.
pub open spec fn written_index_files(posts: Seq<Post>) -> Map<Seq<char>, Seq<char>>
    decreases posts.len(),
{
    if posts.len() == 0 {
        Map::empty()
    } else {
        written_index_files(posts.drop_last()).insert(
            posts.last().folder@,
            posts.last().document@,
        )
    }
}

/// Every post's folder receives an index file.
pub proof fn lemma_every_folder_written(posts: Seq<Post>, i: int)
    requires
        0 <= i < posts.len(),
    ensures
        written_index_files(posts).contains_key(posts[i].folder@),
    decreases posts.len(),
{
    if i < posts.len() - 1 {
        lemma_every_folder_written(posts.drop_last(), i);
    }
}

/// Only post folders receive index files.
pub proof fn lemma_written_only_folders(posts: Seq<Post>, f: Seq<char>)
    requires
        written_index_files(posts).contains_key(f),
    ensures
        exists|i: int| 0 <= i < posts.len() && (#[trigger] posts[i]).folder@ == f,
    decreases posts.len(),
{
    if posts.last().folder@ == f {
        assert(posts[posts.len() - 1].folder@ == f);
    } else {
        lemma_written_only_folders(posts.drop_last(), f);
        let j: int = choose|j: int|
            0 <= j < posts.drop_last().len() && (#[trigger] posts.drop_last()[j]).folder@ == f;
        assert(posts[j].folder@ == f);
    }
}

/// The last writer wins: when every later post uses another folder, post `i`'s
/// document is the one that survives in its folder.
pub proof fn lemma_last_write_wins(posts: Seq<Post>, i: int)
    requires
        0 <= i < posts.len(),
        forall|j: int| i < j < posts.len() ==> (#[trigger] posts[j]).folder@ != posts[i].folder@,
    ensures
        written_index_files(posts).contains_key(posts[i].folder@),
        written_index_files(posts)[posts[i].folder@] == posts[i].document@,
    decreases posts.len(),
{
    if i < posts.len() - 1 {
        assert(forall|j: int|
            i < j < posts.drop_last().len() ==> (#[trigger] posts.drop_last()[j]).folder@
                != posts.drop_last()[i].folder@);
        lemma_last_write_wins(posts.drop_last(), i);
        assert(posts[posts.len() - 1].folder@ != posts[i].folder@);
    }
}

/// Appending two different suffixes to one prefix gives two different
/// strings.
pub proof fn lemma_append_injective(prefix: Seq<char>, a: Seq<char>, b: Seq<char>)
    requires
        a != b,
    ensures
        prefix + a != prefix + b,
{
    if prefix + a == prefix + b {
        assert((prefix + a).len() == prefix.len() + a.len());
        assert((prefix + b).len() == prefix.len() + b.len());
        assert(a.len() == b.len());
        assert forall|k: int| 0 <= k < a.len() implies a[k] == b[k] by {
            assert((prefix + a)[prefix.len() + k] == a[k]);
            assert((prefix + b)[prefix.len() + k] == b[k]);
        }
        assert(a =~= b);
    }
}

/// With no timestamp collisions, converting an export of N entries yields N
/// posts in N pairwise distinct folders, and after the plan is written each
/// folder holds exactly its own entry's index document.
pub proof fn lemma_no_collisions_one_post_each(
    plan: Plan,
    export: Export,
    journal_folder: Seq<char>,
    export_path: Seq<char>,
)
    requires
        plan_ok(plan, export, journal_folder, export_path),
        forall|i: int, j: int|
            0 <= i < j < export.entries@.len() ==> rfc3339_stamp(
                #[trigger] export.entries@[i].date@,
            )->0 != rfc3339_stamp(#[trigger] export.entries@[j].date@)->0,
    ensures
        plan.posts@.len() == export.entries@.len(),
        forall|i: int, j: int|
            0 <= i < j < plan.posts@.len() ==> (#[trigger] plan.posts@[i]).folder@ != (
            #[trigger] plan.posts@[j]).folder@,
        forall|i: int|
            0 <= i < plan.posts@.len() ==> written_index_files(plan.posts@)[(
            #[trigger] plan.posts@[i]).folder@] == plan.posts@[i].document@,
        forall|i: int|
            0 <= i < plan.posts@.len() ==> written_index_files(plan.posts@).contains_key(
                (#[trigger] plan.posts@[i]).folder@,
            ),
        forall|f: Seq<char>|
            written_index_files(plan.posts@).contains_key(f) ==> exists|i: int|
                0 <= i < plan.posts@.len() && (#[trigger] plan.posts@[i]).folder@ == f,
{
    let posts = plan.posts@;
    assert forall|i: int, j: int|
        0 <= i < j < posts.len() implies (#[trigger] posts[i]).folder@ != (
    #[trigger] posts[j]).folder@ by {
        let si = rfc3339_stamp(export.entries@[i].date@)->0;
        let sj = rfc3339_stamp(export.entries@[j].date@)->0;
        lemma_append_injective(plan.content_folder@ + "/"@, si, sj);
    }
    assert forall|i: int| 0 <= i < posts.len() implies written_index_files(posts).contains_key(
        (#[trigger] posts[i]).folder@,
    ) && written_index_files(posts)[posts[i].folder@] == posts[i].document@ by {
        lemma_last_write_wins(posts, i);
    }
    assert forall|f: Seq<char>| written_index_files(posts).contains_key(f) implies exists|i: int|
        0 <= i < posts.len() && (#[trigger] posts[i]).folder@ == f by {
        lemma_written_only_folders(posts, f);
    }
}

/// When two entries' formatted timestamps agree, their posts share one folder;
/// once no later post uses that folder again, the document that survives there
/// is the later entry's.
pub proof fn lemma_timestamp_collision_overwrites(
    plan: Plan,
    export: Export,
    journal_folder: Seq<char>,
    export_path: Seq<char>,
    i: int,
    j: int,
)
    requires
        plan_ok(plan, export, journal_folder, export_path),
        0 <= i < j < export.entries@.len(),
        rfc3339_stamp(export.entries@[i].date@)->0 == rfc3339_stamp(export.entries@[j].date@)->0,
        forall|k: int|
            j < k < export.entries@.len() ==> rfc3339_stamp(#[trigger] export.entries@[k].date@)->0
                != rfc3339_stamp(export.entries@[j].date@)->0,
    ensures
        plan.posts@[i].folder@ == plan.posts@[j].folder@,
        written_index_files(plan.posts@).contains_key(plan.posts@[i].folder@),
        written_index_files(plan.posts@)[plan.posts@[i].folder@] == plan.posts@[j].document@,
{
    let posts = plan.posts@;
    assert forall|k: int| j < k < posts.len() implies (#[trigger] posts[k]).folder@
        != posts[j].folder@ by {
        let sk = rfc3339_stamp(export.entries@[k].date@)->0;
        let sj = rfc3339_stamp(export.entries@[j].date@)->0;
        lemma_append_injective(plan.content_folder@ + "/"@, sk, sj);
    }
    lemma_last_write_wins(posts, j);
}

/// An export of exactly two entries whose formatted timestamps agree leaves
/// exactly one index file on disk: the second entry's document, in the shared
/// folder.
pub proof fn lemma_two_entry_collision(
    plan: Plan,
    export: Export,
    journal_folder: Seq<char>,
    export_path: Seq<char>,
)
    requires
        plan_ok(plan, export, journal_folder, export_path),
        export.entries@.len() == 2,
        rfc3339_stamp(export.entries@[0].date@)->0 == rfc3339_stamp(export.entries@[1].date@)->0,
    ensures
        plan.posts@[0].folder@ == plan.posts@[1].folder@,
        written_index_files(plan.posts@) == Map::<Seq<char>, Seq<char>>::empty().insert(
            plan.posts@[1].folder@,
            plan.posts@[1].document@,
        ),
{
    let posts = plan.posts@;
    assert(posts.drop_last().len() == 1);
    assert(posts.drop_last().drop_last() =~= Seq::<Post>::empty());
    assert(posts.drop_last().last() == posts[0]);
    assert(posts.last() == posts[1]);
    assert(written_index_files(Seq::<Post>::empty()) == Map::<Seq<char>, Seq<char>>::empty());
    assert(written_index_files(posts.drop_last()) == Map::<Seq<char>, Seq<char>>::empty().insert(
        posts[0].folder@,
        posts[0].document@,
    ));
    assert(written_index_files(posts) == Map::<Seq<char>, Seq<char>>::empty().insert(
        posts[0].folder@,
        posts[0].document@,
    ).insert(posts[1].folder@, posts[1].document@));
    assert(written_index_files(posts) =~= Map::<Seq<char>, Seq<char>>::empty().insert(
        posts[1].folder@,
        posts[1].document@,
    ));
}

} // verus!
