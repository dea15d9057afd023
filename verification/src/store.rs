//! The project registry: the in-memory cache of project records, the
//! normalisation applied when records are loaded from persistence (collapse
//! structurally equal duplicates, order by last-opened descending), and the
//! text of the companion name-list artifact written beside the registry.

use vstd::prelude::*;

use crate::project::{same_record, Project};

verus! {

/// `s` holds a record structurally equal to `p`.
pub open spec fn contains_record(s: Seq<Project>, p: Project) -> bool {
    exists|i: int| 0 <= i < s.len() && same_record(s[i], p)
}

/// No two positions of `s` hold structurally equal records.
pub open spec fn distinct_records(s: Seq<Project>) -> bool {
    forall|i: int, j: int| 0 <= i < j < s.len() ==> !same_record(s[i], s[j])
}

/// The records of `s` are ordered by `last_opened` descending: the most
/// recently opened first.
pub open spec fn sorted_by_last_opened_desc(s: Seq<Project>) -> bool {
    forall|i: int, j: int|
        0 <= i < j < s.len() ==> (#[trigger] s[j].last_opened).spec_le(#[trigger] s[i].last_opened)
}

/// `a` and `b` hold the same set of records, up to structural equality.
pub open spec fn same_record_set(a: Seq<Project>, b: Seq<Project>) -> bool {
    &&& forall|i: int| 0 <= i < a.len() ==> contains_record(b, #[trigger] a[i])
    &&& forall|i: int| 0 <= i < b.len() ==> contains_record(a, #[trigger] b[i])
}

/// `r` is what loading `input` from persistence must produce: the same set of
/// records, collapsed to one occurrence each, most recently opened first.
pub open spec fn is_loaded_form(input: Seq<Project>, r: Seq<Project>) -> bool {
    &&& distinct_records(r)
    &&& sorted_by_last_opened_desc(r)
    &&& same_record_set(r, input)
}

/// `v` holds a record structurally equal to `p`.
pub fn record_in(v: &Vec<Project>, p: &Project) -> (r: bool)
    ensures
        r == contains_record(v@, *p),
{
    let mut i: usize = 0;
    while i < v.len()
        invariant
            0 <= i <= v@.len(),
            forall|k: int| 0 <= k < i ==> !same_record(v@[k], *p),
        decreases v@.len() - i,
    {
        if v[i] == *p {
            proof {
                assert(same_record(v@[i as int], *p));
            }
            return true;
        }
        i = i + 1;
    }
    false
}

/// Keeps the first occurrence of every record of `input`, in order, and drops
/// the structurally equal repeats.
fn dedup_records(input: &Vec<Project>) -> (r: Vec<Project>)
    ensures
        distinct_records(r@),
        forall|k: int| 0 <= k < r@.len() ==> contains_record(input@, #[trigger] r@[k]),
        forall|k: int| 0 <= k < input@.len() ==> contains_record(r@, #[trigger] input@[k]),
{
    let mut out: Vec<Project> = Vec::new();
    let mut i: usize = 0;
    while i < input.len()
        invariant
            0 <= i <= input@.len(),
            distinct_records(out@),
            forall|k: int| 0 <= k < out@.len() ==> contains_record(input@, #[trigger] out@[k]),
            forall|k: int| 0 <= k < i ==> contains_record(out@, #[trigger] input@[k]),
        decreases input@.len() - i,
    {
        let p = input[i].clone();
        let ghost pre = out@;
        if !record_in(&out, &p) {
            out.push(p);
            proof {
                assert(same_record(input@[i as int], p));
                assert(contains_record(input@, out@[pre.len() as int]));
                assert forall|k: int| 0 <= k < i + 1 implies contains_record(out@, #[trigger] input@[k]) by {
                    if k < i {
                        let w = choose|w: int| 0 <= w < pre.len() && same_record(pre[w], input@[k]);
                        assert(same_record(out@[w], input@[k]));
                    } else {
                        assert(same_record(out@[pre.len() as int], input@[k]));
                    }
                }
                assert forall|a: int, b: int| 0 <= a < b < out@.len() implies !same_record(out@[a], out@[b]) by {
                    if b == pre.len() {
                        assert(!same_record(pre[a], p));
                    }
                }
            }
        } else {
            proof {
                assert(same_record(input@[i as int], p));
                let w = choose|w: int| 0 <= w < out@.len() && same_record(out@[w], p);
                assert(contains_record(out@, input@[i as int]));
            }
        }
        i = i + 1;
    }
    out
}

/// All the invariant-preservation reasoning for one step of the insertion
/// sort: `post` is `pre` with `p == input[i]` inserted at position `j`, the
/// first position whose record was opened strictly before `p`.
#[verifier::rlimit(100)]
proof fn lemma_sorted_insert_step(
    input: Seq<Project>,
    pre: Seq<Project>,
    post: Seq<Project>,
    p: Project,
    i: int,
    j: int,
)
    requires
        0 <= i < input.len(),
        0 <= j <= pre.len(),
        post == pre.insert(j, p),
        p == input[i],
        sorted_by_last_opened_desc(pre),
        forall|k: int| 0 <= k < j ==> p.last_opened.spec_le(#[trigger] pre[k].last_opened),
        j < pre.len() ==> !p.last_opened.spec_le(pre[j as int].last_opened),
        forall|k: int| 0 <= k < pre.len() ==> contains_record(input.subrange(0, i), #[trigger] pre[k]),
        forall|k: int| 0 <= k < i ==> contains_record(pre, #[trigger] input[k]),
    ensures
        sorted_by_last_opened_desc(post),
        forall|k: int| 0 <= k < post.len() ==> contains_record(input.subrange(0, i + 1), #[trigger] post[k]),
        forall|k: int| 0 <= k < i + 1 ==> contains_record(post, #[trigger] input[k]),
{
    pre.insert_ensures(j, p);
    assert forall|a: int, b: int|
        0 <= a < b < post.len() implies post[b].last_opened.spec_le(post[a].last_opened) by {
        if a < j && b > j {
            assert(post[a] == pre[a] && post[b] == pre[b - 1]);
        }
    }
    assert forall|k: int| 0 <= k < i + 1 implies contains_record(post, #[trigger] input[k]) by {
        if k < i {
            let w = choose|w: int| 0 <= w < pre.len() && same_record(pre[w], input[k]);
            if w < j {
                assert(same_record(post[w], input[k]));
            } else {
                assert(same_record(post[w + 1], input[k]));
            }
        } else {
            assert(same_record(post[j], input[k]));
        }
    }
    assert forall|k: int|
        0 <= k < post.len() implies contains_record(input.subrange(0, i + 1), #[trigger] post[k]) by {
        if k < j {
            assert(post[k] == pre[k]);
            let w = choose|w: int| 0 <= w < i && same_record(input.subrange(0, i)[w], pre[k]);
            assert(same_record(input.subrange(0, i + 1)[w], post[k]));
        } else if k == j {
            assert(same_record(input.subrange(0, i + 1)[i], post[k]));
        } else {
            assert(post[k] == pre[k - 1]);
            let w = choose|w: int| 0 <= w < i && same_record(input.subrange(0, i)[w], pre[k - 1]);
            assert(same_record(input.subrange(0, i + 1)[w], post[k]));
        }
    }
}

/// The distinctness half of the insertion step: a duplicate-free input keeps
/// the growing output duplicate-free, and no record of the output occurs in
/// the part of the input that is still to come.
proof fn lemma_sorted_insert_distinct(
    input: Seq<Project>,
    pre: Seq<Project>,
    post: Seq<Project>,
    p: Project,
    i: int,
    j: int,
)
    requires
        0 <= i < input.len(),
        0 <= j <= pre.len(),
        post == pre.insert(j, p),
        p == input[i],
        distinct_records(input) ==> distinct_records(pre),
        distinct_records(input) ==> forall|k: int| 0 <= k < pre.len() ==> !contains_record(input.subrange(i, input.len() as int), #[trigger] pre[k]),
    ensures
        distinct_records(input) ==> distinct_records(post),
        distinct_records(input) ==> forall|k: int| 0 <= k < post.len() ==> !contains_record(input.subrange(i + 1, input.len() as int), #[trigger] post[k]),
{
    pre.insert_ensures(j, p);
    if distinct_records(input) {
        assert forall|k: int|
            0 <= k < post.len() implies !contains_record(
            input.subrange(i + 1, input.len() as int),
            #[trigger] post[k],
        ) by {
            let rest = input.subrange(i + 1, input.len() as int);
            if contains_record(rest, post[k]) {
                let w = choose|w: int| 0 <= w < rest.len() && same_record(rest[w], post[k]);
                if k == j {
                    assert(!same_record(input[i], input[i + 1 + w]));
                    assert(false);
                } else {
                    let k0: int = if k < j { k } else { k - 1 };
                    assert(post[k] == pre[k0]);
                    assert(same_record(input.subrange(i, input.len() as int)[w + 1], pre[k0]));
                    assert(false);
                }
            }
        }
        assert forall|a: int, b: int| 0 <= a < b < post.len() implies !same_record(post[a], post[b]) by {
            if a != j && b != j {
                let a0: int = if a < j { a } else { a - 1 };
                let b0: int = if b < j { b } else { b - 1 };
                assert(post[a] == pre[a0] && post[b] == pre[b0]);
            } else if a == j {
                assert(post[b] == pre[b - 1]);
                if same_record(post[a], post[b]) {
                    assert(contains_record(input.subrange(i, input.len() as int), pre[b - 1])) by {
                        assert(same_record(input.subrange(i, input.len() as int)[0], pre[b - 1]));
                    }
                    assert(false);
                }
            } else {
                assert(post[a] == pre[a]);
                if same_record(post[a], post[b]) {
                    assert(contains_record(input.subrange(i, input.len() as int), pre[a])) by {
                        assert(same_record(input.subrange(i, input.len() as int)[0], pre[a]));
                    }
                    assert(false);
                }
            }
        }
    }
}

/// Orders records by `last_opened` descending by inserting each at its place.
/// On a duplicate-free input the result is duplicate-free too.
fn sort_records_desc(input: Vec<Project>) -> (r: Vec<Project>)
    ensures
        sorted_by_last_opened_desc(r@),
        same_record_set(r@, input@),
        distinct_records(input@) ==> distinct_records(r@),
{
    let mut out: Vec<Project> = Vec::new();
    let mut i: usize = 0;
    while i < input.len()
        invariant
            0 <= i <= input@.len(),
            sorted_by_last_opened_desc(out@),
            forall|k: int| 0 <= k < out@.len() ==> contains_record(input@.subrange(0, i as int), #[trigger] out@[k]),
            forall|k: int| 0 <= k < i ==> contains_record(out@, #[trigger] input@[k]),
            distinct_records(input@) ==> distinct_records(out@),
            distinct_records(input@) ==> forall|k: int| 0 <= k < out@.len() ==> !contains_record(input@.subrange(i as int, input@.len() as int), #[trigger] out@[k]),
        decreases input@.len() - i,
    {
        let p = input[i].clone();
        let ghost pre = out@;
        let mut j: usize = 0;
        while j < out.len()
            invariant
                0 <= j <= out@.len(),
                out@ == pre,
                forall|k: int| 0 <= k < j ==> p.last_opened.spec_le(#[trigger] out@[k].last_opened),
            ensures
                0 <= j <= out@.len(),
                out@ == pre,
                forall|k: int| 0 <= k < j ==> p.last_opened.spec_le(#[trigger] out@[k].last_opened),
                j < out@.len() ==> !p.last_opened.spec_le(out@[j as int].last_opened),
            decreases out@.len() - j,
        {
            if !p.last_opened.le(&out[j].last_opened) {
                break;
            }
            j = j + 1;
        }
        out.insert(j, p);
        proof {
            lemma_sorted_insert_step(input@, pre, out@, p, i as int, j as int);
            lemma_sorted_insert_distinct(input@, pre, out@, p, i as int, j as int);
        }
        i = i + 1;
    }
    proof {
        assert(input@.subrange(0, input@.len() as int) =~= input@);
    }
    out
}

/// Clones every record of `v`, in order.
pub fn clone_records(v: &Vec<Project>) -> (r: Vec<Project>)
    ensures
        r@ == v@,
{
    let mut out: Vec<Project> = Vec::new();
    let mut i: usize = 0;
    while i < v.len()
        invariant
            0 <= i <= v@.len(),
            out@ =~= v@.subrange(0, i as int),
        decreases v@.len() - i,
    {
        out.push(v[i].clone());
        i = i + 1;
    }
    proof {
        assert(out@ =~= v@);
    }
    out
}

/// The sequence that loading yields for a parsed file content: duplicates
/// collapsed by structural equality, ordered by `last_opened` descending.
/// A file that could not be read or parsed is handed in as no records at all,
/// so it degrades to an empty registry.
pub fn load_projects(records: Vec<Project>) -> (r: Vec<Project>)
    ensures
        is_loaded_form(records@, r@),
{
    let deduped = dedup_records(&records);
    sort_records_desc(deduped)
}


/// The names of the records, one per line: the text of the companion file a
/// save regenerates for shell completion.
pub open spec fn names_joined(s: Seq<Project>) -> Seq<char>
    decreases s.len(),
{
    if s.len() == 0 {
        Seq::empty()
    } else if s.len() == 1 {
        s[0].name@
    } else {
        names_joined(s.drop_last()) + "\n"@ + s.last().name@
    }
}

/// The content of the companion name-list file that every save rewrites: the
/// project names joined by line feeds.
pub fn names_text(projects: &Vec<Project>) -> (r: String)
    ensures
        r@ == names_joined(projects@),
{
    let mut out = String::new();
    let mut i: usize = 0;
    while i < projects.len()
        invariant
            0 <= i <= projects@.len(),
            out@ == names_joined(projects@.subrange(0, i as int)),
        decreases projects@.len() - i,
    {
        proof {
            assert(projects@.subrange(0, (i + 1) as int).drop_last()
                =~= projects@.subrange(0, i as int));
            assert(projects@.subrange(0, (i + 1) as int).last() == projects@[i as int]);
        }
        if i > 0 {
            out.append("\n");
        }
        out.append(projects[i].name.as_str());
        proof {
            if i == 0 {
                assert(out@ == names_joined(projects@.subrange(0, 1)));
            }
        }
        i = i + 1;
    }
    proof {
        assert(projects@.subrange(0, projects@.len() as int) =~= projects@);
    }
    out
}

/// The authoritative in-process state: the cached project records and the
/// count of visits to the home screen. Owned by the top-level flow controller
/// and threaded through every call.
pub struct ProjectStore {
    projects: Vec<Project>,
    visits: u64,
}

impl ProjectStore {
    /// The cached records, as a mathematical sequence.
    pub closed spec fn records(self) -> Seq<Project> {
        self.projects@
    }

    pub closed spec fn spec_visits(self) -> u64 {
        self.visits
    }

    /// An empty registry, as used before anything was ever persisted.
    pub fn new() -> (r: ProjectStore)
        ensures
            r.records() == Seq::<Project>::empty(),
            r.spec_visits() == 0,
    {
        let r = ProjectStore { projects: Vec::new(), visits: 0 };
        proof {
            assert(r.records() =~= Seq::<Project>::empty());
        }
        r
    }

    /// Builds the cache from the records parsed out of durable storage:
    /// collapses structurally equal duplicates and orders by `last_opened`
    /// descending.
    pub fn load(records: Vec<Project>) -> (r: ProjectStore)
        ensures
            is_loaded_form(records@, r.records()),
            r.spec_visits() == 0,
    {
        ProjectStore { projects: load_projects(records), visits: 0 }
    }

    /// The current cached sequence, exactly as it stands.
    pub fn get_all(&self) -> (r: Vec<Project>)
        ensures
            r@ == self.records(),
    {
        clone_records(&self.projects)
    }

    /// The cached records, borrowed in place.
    pub fn borrow_records(&self) -> (r: &Vec<Project>)
        ensures
            r@ == self.records(),
    {
        &self.projects
    }

    pub fn is_empty(&self) -> (r: bool)
        ensures
            r == (self.records().len() == 0),
    {
        self.projects.len() == 0
    }

    pub fn len(&self) -> (r: usize)
        ensures
            r == self.records().len(),
    {
        self.projects.len()
    }

    /// Replaces the cache with exactly the given sequence. The caller writes
    /// the same sequence to durable storage in the same operation; nothing is
    /// reordered or merged here.
    pub fn save(&mut self, records: Vec<Project>)
        ensures
            final(self).records() == records@,
            final(self).spec_visits() == old(self).spec_visits(),
    {
        self.projects = records;
    }

    /// One more visit to the home screen. The count stops at its maximum
    /// rather than wrap.
    pub fn increment_visits(&mut self)
        ensures
            final(self).spec_visits() == if old(self).spec_visits() < u64::MAX {
                old(self).spec_visits() + 1
            } else {
                old(self).spec_visits() as int
            },
            final(self).records() == old(self).records(),
    {
        if self.visits < u64::MAX {
            self.visits = self.visits + 1;
        }
    }

    pub fn get_visits(&self) -> (r: u64)
        ensures
            r == self.spec_visits(),
    {
        self.visits
    }
}

} // verus!
