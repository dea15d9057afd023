//! The registry's laws, each proved once and for all inputs: what persisting
//! and reloading preserves, that reads are stable, and what overwrite and the
//! bulk delete leave behind.

use vstd::prelude::*;

use crate::ops::{keep_not_named, keep_unlisted, name_listed};
use crate::project::{same_record, Project};
use crate::store::{
    contains_record, distinct_records, is_loaded_form, same_record_set, sorted_by_last_opened_desc,
    ProjectStore,
};

verus! {

/// Round trip: persisting a sequence of records and loading it back yields a
/// sequence with the same set of records — names, paths and timestamps all
/// preserved — reordered to most recently opened first, one occurrence each.
pub proof fn lemma_save_load_round_trip(saved: Seq<Project>, loaded: Seq<Project>)
    requires
        is_loaded_form(saved, loaded),
    ensures
        same_record_set(loaded, saved),
        sorted_by_last_opened_desc(loaded),
        distinct_records(loaded),
{
}

/// Idempotence: two reads of the cached sequence without a mutation between
/// them see the very same sequence.
pub proof fn lemma_get_all_idempotent(store: ProjectStore, r1: Seq<Project>, r2: Seq<Project>)
    requires
        r1 == store.records(),
        r2 == store.records(),
    ensures
        r1 == r2,
{
}

/// Dedup: when the persisted input carries two structurally equal records,
/// the loaded sequence still holds that record — but never at two positions.
pub proof fn lemma_load_collapses_duplicates(
    input: Seq<Project>,
    loaded: Seq<Project>,
    i: int,
    j: int,
)
    requires
        is_loaded_form(input, loaded),
        0 <= i < j < input.len(),
        same_record(input[i], input[j]),
    ensures
        contains_record(loaded, input[i]),
        forall|a: int, b: int| 0 <= a < b < loaded.len() ==> !same_record(loaded[a], loaded[b]),
{
    assert(contains_record(loaded, input[i]));
}

/// No record survives a removal by its name.
proof fn lemma_keep_not_named_excludes(s: Seq<Project>, name: Seq<char>)
    ensures
        forall|i: int|
            0 <= i < keep_not_named(s, name).len() ==> (#[trigger] keep_not_named(s, name)[i]).name@
                != name,
        forall|i: int|
            0 <= i < s.len() && (#[trigger] s[i]).name@ != name ==> contains_record(
                keep_not_named(s, name),
                s[i],
            ),
    decreases s.len(),
{
    if s.len() > 0 {
        lemma_keep_not_named_excludes(s.drop_last(), name);
        let rest = keep_not_named(s.drop_last(), name);
        assert forall|i: int|
            0 <= i < s.len() && (#[trigger] s[i]).name@ != name implies contains_record(
            keep_not_named(s, name),
            s[i],
        ) by {
            if i < s.len() - 1 {
                assert(s.drop_last()[i] == s[i]);
                let w = choose|w: int| 0 <= w < rest.len() && same_record(rest[w], s[i]);
                assert(same_record(keep_not_named(s, name)[w], s[i]));
            } else {
                assert(keep_not_named(s, name).last() == s.last());
                assert(same_record(
                    keep_not_named(s, name)[keep_not_named(s, name).len() - 1],
                    s[i],
                ));
            }
        }
    }
}

/// Add-collision resolution: a confirmed overwrite leaves exactly one record
/// carrying the contested name — the candidate, with its new path — while
/// the records of every other name are untouched.
pub proof fn lemma_overwrite_leaves_one_named(pre: Seq<Project>, post: Seq<Project>, c: Project)
    requires
        post == keep_not_named(pre, c.name@).push(c),
    ensures
        post.len() > 0 && post.last() == c,
        forall|i: int| 0 <= i < post.len() && (#[trigger] post[i]).name@ == c.name@ ==> post[i] == c,
        forall|i: int|
            0 <= i < pre.len() && (#[trigger] pre[i]).name@ != c.name@ ==> contains_record(
                post,
                pre[i],
            ),
{
    lemma_keep_not_named_excludes(pre, c.name@);
    let kept = keep_not_named(pre, c.name@);
    assert forall|i: int|
        0 <= i < pre.len() && (#[trigger] pre[i]).name@ != c.name@ implies contains_record(
        post,
        pre[i],
    ) by {
        let w = choose|w: int| 0 <= w < kept.len() && same_record(kept[w], pre[i]);
        assert(same_record(post[w], pre[i]));
    }
}

/// Bulk delete: every record whose name is listed is gone, and every record
/// whose name is not listed is still there — whatever became of the listed
/// projects' directories on disk.
pub proof fn lemma_bulk_delete_removes_all(
    pre: Seq<Project>,
    post: Seq<Project>,
    names: Seq<String>,
)
    requires
        post == keep_unlisted(pre, names),
    ensures
        forall|i: int| 0 <= i < post.len() ==> !name_listed(names, (#[trigger] post[i]).name@),
        forall|i: int|
            0 <= i < pre.len() && !name_listed(names, (#[trigger] pre[i]).name@)
                ==> contains_record(post, pre[i]),
    decreases pre.len(),
{
    if pre.len() > 0 {
        lemma_bulk_delete_removes_all(pre.drop_last(), keep_unlisted(pre.drop_last(), names), names);
        let rest = keep_unlisted(pre.drop_last(), names);
        assert forall|i: int|
            0 <= i < pre.len() && !name_listed(names, (#[trigger] pre[i]).name@)
                implies contains_record(post, pre[i]) by {
            if i < pre.len() - 1 {
                assert(pre.drop_last()[i] == pre[i]);
                let w = choose|w: int| 0 <= w < rest.len() && same_record(rest[w], pre[i]);
                assert(same_record(post[w], pre[i]));
            } else {
                assert(post.last() == pre.last());
                assert(same_record(post[post.len() - 1], pre[i]));
            }
        }
    }
}

} // verus!
