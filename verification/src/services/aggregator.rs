//! Merging, truncating and summarising the commits of several repositories.

use crate::error::InputError;
use crate::models::commit::{clone_commits, Commit};
use crate::models::report::RepoGroup;
use crate::services::calendar::{iso_week, iso_week_of, utc_now};
use vstd::prelude::*;

verus! {

/// Figures derived from the commits a report is built from.
#[derive(Debug, Clone, Copy, PartialEq, Eq, Structural)]
pub struct ReportStats {
    pub unique_authors: usize,
    pub files_changed: usize,
}

/// The commits of all groups, group after group, each group's in its order.
pub open spec fn merged(groups: Seq<RepoGroup>) -> Seq<Commit>
    decreases groups.len(),
{
    if groups.len() == 0 {
        Seq::empty()
    } else {
        merged(groups.drop_last()) + groups.last().commits@
    }
}

/// The first `max` commits, or all of them where there are fewer.
pub open spec fn capped(commits: Seq<Commit>, max: nat) -> Seq<Commit> {
    if commits.len() <= max {
        commits
    } else {
        commits.take(max as int)
    }
}

/// How many commits group `i` may still contribute when the merged list is
/// cut at `max`.
pub open spec fn room_before(groups: Seq<RepoGroup>, max: nat, i: int) -> nat {
    let used = merged(groups.take(i)).len();
    if used >= max {
        0
    } else {
        (max - used) as nat
    }
}

/// `kept` holds the groups of `groups`, each cut so that together they hold
/// the first `max` commits of the merged list.
pub open spec fn groups_capped(groups: Seq<RepoGroup>, max: nat, kept: Seq<RepoGroup>) -> bool {
    &&& kept.len() == groups.len()
    &&& forall|i: int|
        0 <= i < groups.len() ==> {
            &&& (#[trigger] kept[i]).repo_id == groups[i].repo_id
            &&& kept[i].repo_name == groups[i].repo_name
            &&& kept[i].repo_path == groups[i].repo_path
            &&& kept[i].commits@ == capped(groups[i].commits@, room_before(groups, max, i))
        }
}

/// The authors of the commits, in order.
pub open spec fn authors(commits: Seq<Commit>) -> Seq<Seq<char>> {
    commits.map_values(|c: Commit| c.author@)
}

/// The number of distinct authors.
pub open spec fn unique_author_count(commits: Seq<Commit>) -> nat {
    authors(commits).to_set().len()
}

/// The calendar week, as ISO year and ISO week, that a commit falls in. A
/// commit whose timestamp the calendar cannot represent falls in `fallback`.
pub open spec fn week_key(commit: Commit, fallback: (int, int)) -> (int, int) {
    match iso_week_of(commit.timestamp as int) {
        Some(week) => week,
        None => fallback,
    }
}

/// The commits that fall in the week `key`.
pub open spec fn in_week(key: (int, int), fallback: (int, int)) -> spec_fn(Commit) -> bool {
    |c: Commit| week_key(c, fallback) == key
}

/// The week of a bucket, which is that of its first commit.
pub open spec fn bucket_key(bucket: Seq<Commit>, fallback: (int, int)) -> (int, int) {
    week_key(bucket[0], fallback)
}

/// The least timestamp among the commits; zero where there is none.
pub open spec fn earliest(commits: Seq<Commit>) -> int
    decreases commits.len(),
{
    if commits.len() == 0 {
        0
    } else if commits.len() == 1 {
        commits[0].timestamp as int
    } else {
        let rest = earliest(commits.drop_last());
        if commits.last().timestamp < rest {
            commits.last().timestamp as int
        } else {
            rest
        }
    }
}

/// Whether some bucket holds the week `key`.
pub open spec fn has_bucket(buckets: Seq<Seq<Commit>>, key: (int, int), fallback: (int, int)) -> bool {
    exists|b: int| 0 <= b < buckets.len() && bucket_key(#[trigger] buckets[b], fallback) == key
}

/// `buckets` are the commits grouped by week: each bucket is not empty and
/// holds exactly the commits of one week in their order, no two buckets hold
/// the same week, every commit's week has a bucket, and the buckets stand in
/// ascending order of their earliest timestamp. No two buckets have the same
/// earliest timestamp, so this fixes their order.
pub open spec fn grouped_by_week(
    commits: Seq<Commit>,
    fallback: (int, int),
    buckets: Seq<Seq<Commit>>,
) -> bool {
    &&& forall|b: int|
        0 <= b < buckets.len() ==> (#[trigger] buckets[b]).len() > 0 && buckets[b]
            == commits.filter(in_week(bucket_key(buckets[b], fallback), fallback))
    &&& forall|a: int, b: int|
        0 <= a < b < buckets.len() ==> bucket_key(#[trigger] buckets[a], fallback) != bucket_key(
            #[trigger] buckets[b],
            fallback,
        )
    &&& forall|i: int|
        0 <= i < commits.len() ==> has_bucket(
            buckets,
            week_key(#[trigger] commits[i], fallback),
            fallback,
        )
    &&& forall|a: int, b: int|
        0 <= a < b < buckets.len() ==> earliest(#[trigger] buckets[a]) < earliest(
            #[trigger] buckets[b],
        )
}

/// The commit lists held by a vector of buckets.
pub open spec fn bucket_seqs(buckets: Seq<Vec<Commit>>) -> Seq<Seq<Commit>> {
    buckets.map_values(|b: Vec<Commit>| b@)
}

/// A week as a pair of mathematical integers.
pub open spec fn key_ints(key: (i32, u32)) -> (int, int) {
    (key.0 as int, key.1 as int)
}

/// `order` lists every index of `values` once, in ascending order of the
/// values; of two equal values the one that stands first comes first.
pub open spec fn is_ordering(order: Seq<usize>, values: Seq<i64>) -> bool {
    &&& order.len() == values.len()
    &&& order.no_duplicates()
    &&& forall|k: int| 0 <= k < order.len() ==> (#[trigger] order[k]) < values.len()
    &&& forall|d: usize| d < values.len() ==> #[trigger] order.contains(d)
    &&& forall|a: int, b: int|
        0 <= a < b < order.len() ==> {
            let first = (#[trigger] order[a]) as int;
            let second = (#[trigger] order[b]) as int;
            values[first] < values[second] || (values[first] == values[second] && first < second)
        }
}

/// Whether `key` stands among the first `n` of `keys`.
pub open spec fn knows_week(keys: Seq<(i32, u32)>, n: int, key: (int, int)) -> bool {
    exists|d: int| 0 <= d < n && d < keys.len() && key_ints(#[trigger] keys[d]) == key
}

/// Whether one of the first `n` commits falls in the week `key`.
pub open spec fn week_occurs(commits: Seq<Commit>, n: int, key: (int, int), fallback: (int, int)) -> bool {
    exists|j: int| 0 <= j < n && j < commits.len() && week_key(#[trigger] commits[j], fallback) == key
}

/// The greatest timestamp among the commits; zero where there is none.
pub open spec fn latest(commits: Seq<Commit>) -> int
    decreases commits.len(),
{
    if commits.len() == 0 {
        0
    } else if commits.len() == 1 {
        commits[0].timestamp as int
    } else {
        let rest = latest(commits.drop_last());
        if commits.last().timestamp > rest {
            commits.last().timestamp as int
        } else {
            rest
        }
    }
}

/// The weeks of the commits, in order.
pub open spec fn week_keys(commits: Seq<Commit>, fallback: (int, int)) -> Seq<(int, int)> {
    commits.map_values(|c: Commit| week_key(c, fallback))
}

/// The distinct weeks among `keys`, each once, in order of first
/// appearance.
pub open spec fn first_appearances(keys: Seq<(int, int)>) -> Seq<(int, int)>
    decreases keys.len(),
{
    if keys.len() == 0 {
        Seq::empty()
    } else {
        let before = first_appearances(keys.drop_last());
        if before.contains(keys.last()) {
            before
        } else {
            before.push(keys.last())
        }
    }
}

/// Weeks as pairs of mathematical integers, in order.
pub open spec fn keys_ints(keys: Seq<(i32, u32)>) -> Seq<(int, int)> {
    keys.map_values(|k: (i32, u32)| key_ints(k))
}

/// The number of distinct weeks the commits fall in.
pub open spec fn week_count(commits: Seq<Commit>, fallback: (int, int)) -> nat {
    week_keys(commits, fallback).to_set().len()
}

/// Grouping by week gives one bucket for each distinct week.
pub proof fn lemma_bucket_count(commits: Seq<Commit>, fallback: (int, int), buckets: Seq<Seq<Commit>>)
    requires
        grouped_by_week(commits, fallback, buckets),
    ensures
        buckets.len() == week_count(commits, fallback),
{
    let keys = buckets.map_values(|b: Seq<Commit>| bucket_key(b, fallback));
    let all = week_keys(commits, fallback);
    assert forall|a: int, b: int| 0 <= a < keys.len() && 0 <= b < keys.len() && a != b implies keys[a]
        != keys[b] by {
        if a < b {
            assert(bucket_key(buckets[a], fallback) != bucket_key(buckets[b], fallback));
        } else {
            assert(bucket_key(buckets[b], fallback) != bucket_key(buckets[a], fallback));
        }
    }
    assert(keys.no_duplicates());
    assert forall|key: (int, int)| keys.to_set().contains(key) implies all.to_set().contains(key) by {
        let b = choose|b: int| 0 <= b < keys.len() && keys[b] == key;
        let pred = in_week(bucket_key(buckets[b], fallback), fallback);
        assert(buckets[b].len() > 0);
        assert(buckets[b] == commits.filter(pred));
        assert(commits.filter(pred).contains(buckets[b][0]));
        commits.lemma_filter_contains_rev(pred, buckets[b][0]);
        let i = choose|i: int| 0 <= i < commits.len() && commits[i] == buckets[b][0];
        assert(all[i] == key);
    }
    assert forall|key: (int, int)| all.to_set().contains(key) implies keys.to_set().contains(key) by {
        let i = choose|i: int| 0 <= i < all.len() && all[i] == key;
        assert(has_bucket(buckets, week_key(commits[i], fallback), fallback));
        let b = choose|b: int|
            0 <= b < buckets.len() && bucket_key(#[trigger] buckets[b], fallback) == key;
        assert(keys[b] == key);
    }
    assert(keys.to_set() =~= all.to_set());
    keys.unique_seq_to_set();
}

/// No commit is earlier than the earliest, and the earliest is one of them.
pub proof fn lemma_earliest_is_least(commits: Seq<Commit>)
    requires
        commits.len() > 0,
    ensures
        forall|i: int| 0 <= i < commits.len() ==> earliest(commits) <= (#[trigger] commits[i]).timestamp,
        exists|i: int| 0 <= i < commits.len() && earliest(commits) == (#[trigger] commits[i]).timestamp,
    decreases commits.len(),
{
    if commits.len() == 1 {
        assert(earliest(commits) == commits[0].timestamp);
    } else {
        let front = commits.drop_last();
        lemma_earliest_is_least(front);
        let w = choose|i: int| 0 <= i < front.len() && earliest(front) == (#[trigger] front[i]).timestamp;
        assert(front[w] == commits[w]);
        assert forall|i: int| 0 <= i < commits.len() implies earliest(commits) <= (
        #[trigger] commits[i]).timestamp by {
            if i < front.len() {
                assert(front[i] == commits[i]);
            }
        }
        if commits.last().timestamp < earliest(front) {
            assert(earliest(commits) == commits[commits.len() - 1].timestamp);
        } else {
            assert(earliest(commits) == commits[w].timestamp);
        }
    }
}

/// Two buckets of commits whose earliest timestamps are the same hold the
/// same week: a commit's week depends on its timestamp alone.
pub proof fn lemma_same_week_at_same_time(
    commits: Seq<Commit>,
    fallback: (int, int),
    one: Seq<Commit>,
    other: Seq<Commit>,
)
    requires
        one.len() > 0,
        other.len() > 0,
        one == commits.filter(in_week(bucket_key(one, fallback), fallback)),
        other == commits.filter(in_week(bucket_key(other, fallback), fallback)),
        earliest(one) == earliest(other),
    ensures
        bucket_key(one, fallback) == bucket_key(other, fallback),
{
    lemma_earliest_is_least(one);
    lemma_earliest_is_least(other);
    let i = choose|i: int| 0 <= i < one.len() && earliest(one) == (#[trigger] one[i]).timestamp;
    let j = choose|j: int| 0 <= j < other.len() && earliest(other) == (#[trigger] other[j]).timestamp;
    commits.lemma_filter_pred(in_week(bucket_key(one, fallback), fallback), i);
    commits.lemma_filter_pred(in_week(bucket_key(other, fallback), fallback), j);
    assert(week_key(one[i], fallback) == bucket_key(one, fallback));
    assert(week_key(other[j], fallback) == bucket_key(other, fallback));
}

/// Filtering one more commit appends it where it passes and changes nothing
/// where it does not.
pub proof fn lemma_filter_step(commits: Seq<Commit>, i: int, pred: spec_fn(Commit) -> bool)
    requires
        0 <= i < commits.len(),
    ensures
        commits.take(i + 1).filter(pred) == if pred(commits[i]) {
            commits.take(i).filter(pred).push(commits[i])
        } else {
            commits.take(i).filter(pred)
        },
{
    reveal(Seq::filter);
    assert(commits.take(i + 1).drop_last() == commits.take(i));
    assert(commits.take(i + 1).last() == commits[i]);
}

/// Merging one more group appends its commits.
pub proof fn lemma_merged_push(groups: Seq<RepoGroup>, group: RepoGroup)
    ensures
        merged(groups.push(group)) == merged(groups) + group.commits@,
{
    assert(groups.push(group).drop_last() == groups);
}

/// Cutting every group to its room and merging gives the first `max` commits
/// of the merged list.
pub proof fn lemma_capped_groups_merge(groups: Seq<RepoGroup>, max: nat, kept: Seq<RepoGroup>)
    requires
        groups_capped(groups, max, kept),
    ensures
        merged(kept) == capped(merged(groups), max),
    decreases groups.len(),
{
    if groups.len() == 0 {
    } else {
        let n = groups.len() - 1;
        let front = groups.drop_last();
        let kept_front = kept.drop_last();
        assert forall|i: int| 0 <= i < front.len() implies {
            &&& (#[trigger] kept_front[i]).repo_id == front[i].repo_id
            &&& kept_front[i].repo_name == front[i].repo_name
            &&& kept_front[i].repo_path == front[i].repo_path
            &&& kept_front[i].commits@ == capped(front[i].commits@, room_before(front, max, i))
        } by {
            assert(kept_front[i] == kept[i]);
            assert(front.take(i) == groups.take(i));
        }
        lemma_capped_groups_merge(front, max, kept_front);
        assert(groups.take(n) == front);
        assert(kept.last() == kept[n]);
        let before = merged(front);
        let last = groups.last().commits@;
        assert(merged(groups) == before + last);
        assert(merged(kept) == capped(before, max) + capped(last, room_before(groups, max, n)));
        if before.len() >= max {
            assert(capped(last, 0) == Seq::<Commit>::empty());
            assert((before + last).take(max as int) == before.take(max as int));
        } else {
            let room = (max - before.len()) as nat;
            if last.len() <= room {
            } else {
                assert((before + last).take(max as int) == before + last.take(room as int));
            }
        }
    }
}

/// The commit aggregator: merges the commits of several repository groups,
/// truncates them and derives statistics.
pub struct CommitAggregator;

impl CommitAggregator {
    /// The commits of all groups, group after group.
    pub fn concat(groups: &Vec<RepoGroup>) -> (all: Vec<Commit>)
        ensures
            all@ == merged(groups@),
    {
        let mut all: Vec<Commit> = Vec::new();
        let mut i: usize = 0;
        while i < groups.len()
            invariant
                i <= groups.len(),
                all@ == merged(groups@.take(i as int)),
            decreases groups.len() - i,
        {
            let group = &groups[i];
            let mut j: usize = 0;
            while j < group.commits.len()
                invariant
                    j <= group.commits.len(),
                    all@ == merged(groups@.take(i as int)) + group.commits@.take(j as int),
                decreases group.commits.len() - j,
            {
                all.push(group.commits[j].clone());
                assert(group.commits@.take(j + 1) == group.commits@.take(j as int).push(
                    group.commits@[j as int],
                ));
                j += 1;
            }
            proof {
                assert(group.commits@.take(j as int) == group.commits@);
                assert(groups@.take(i + 1) == groups@.take(i as int).push(*group));
                lemma_merged_push(groups@.take(i as int), *group);
            }
            i += 1;
        }
        assert(groups@.take(i as int) == groups@);
        all
    }

    /// Concatenates the commits of all groups, keeping each group's order.
    /// Fails where there is no group or no commit at all.
    pub fn merge(groups: &Vec<RepoGroup>) -> (outcome: Result<Vec<Commit>, InputError>)
        ensures
            match outcome {
                Ok(commits) => commits@ == merged(groups@) && commits@.len() > 0,
                Err(e) => merged(groups@).len() == 0 && e == if groups@.len() == 0 {
                    InputError::NoRepositories
                } else {
                    InputError::NoCommits
                },
            },
    {
        if groups.len() == 0 {
            return Err(InputError::NoRepositories);
        }
        let all = Self::concat(groups);
        if all.len() == 0 {
            Err(InputError::NoCommits)
        } else {
            Ok(all)
        }
    }

    /// Keeps the first `max` commits in their order.
    pub fn cap(commits: Vec<Commit>, max: usize) -> (kept: Vec<Commit>)
        ensures
            kept@ == capped(commits@, max as nat),
            kept@.len() <= max,
    {
        let mut kept = commits;
        kept.truncate(max);
        assert(kept@ == capped(commits@, max as nat));
        kept
    }

    /// Cuts the groups' commit lists so that, merged, they are the first `max`
    /// commits of the merged input. Every group stays, possibly empty.
    pub fn cap_groups(groups: &Vec<RepoGroup>, max: usize) -> (kept: Vec<RepoGroup>)
        ensures
            groups_capped(groups@, max as nat, kept@),
            merged(kept@) == capped(merged(groups@), max as nat),
    {
        let mut kept: Vec<RepoGroup> = Vec::new();
        let mut room: usize = max;
        let mut i: usize = 0;
        while i < groups.len()
            invariant
                i <= groups.len(),
                room == room_before(groups@, max as nat, i as int),
                groups_capped(groups@.take(i as int), max as nat, kept@),
            decreases groups.len() - i,
        {
            let group = &groups[i];
            let take: usize = if group.commits.len() <= room {
                group.commits.len()
            } else {
                room
            };
            let mut commits: Vec<Commit> = Vec::new();
            let mut j: usize = 0;
            while j < take
                invariant
                    j <= take <= group.commits.len(),
                    commits@ == group.commits@.take(j as int),
                decreases take - j,
            {
                commits.push(group.commits[j].clone());
                assert(group.commits@.take(j + 1) == group.commits@.take(j as int).push(
                    group.commits@[j as int],
                ));
                j += 1;
            }
            proof {
                let done = groups@.take(i as int);
                let next = groups@.take(i + 1);
                assert(next == done.push(*group));
                lemma_merged_push(done, *group);
                assert(group.commits@.take(group.commits@.len() as int) == group.commits@);
                assert(commits@ == capped(group.commits@, room as nat));
                assert forall|k: int| 0 <= k <= i implies #[trigger] room_before(
                    next,
                    max as nat,
                    k,
                ) == room_before(groups@, max as nat, k) by {
                    assert(next.take(k) == groups@.take(k));
                }
                assert forall|k: int| 0 <= k < i implies #[trigger] room_before(
                    done,
                    max as nat,
                    k,
                ) == room_before(groups@, max as nat, k) by {
                    assert(done.take(k) == groups@.take(k));
                }
            }
            kept.push(
                RepoGroup {
                    repo_id: group.repo_id.clone(),
                    repo_name: group.repo_name.clone(),
                    repo_path: group.repo_path.clone(),
                    commits,
                },
            );
            room = room - take;
            i += 1;
        }
        proof {
            assert(groups@.take(i as int) == groups@);
            lemma_capped_groups_merge(groups@, max as nat, kept@);
        }
        kept
    }

    /// The week a commit falls in, the fallback where the calendar cannot
    /// represent its timestamp.
    pub fn week_of(commit: &Commit, fallback: (i32, u32)) -> (key: (i32, u32))
        ensures
            key_ints(key) == week_key(*commit, key_ints(fallback)),
    {
        match iso_week(commit.timestamp) {
            Some(week) => week,
            None => fallback,
        }
    }

    /// The commits that fall in the week `key`, in their order.
    pub fn commits_in_week(commits: &Vec<Commit>, key: (i32, u32), fallback: (i32, u32)) -> (bucket:
        Vec<Commit>)
        ensures
            bucket@ == commits@.filter(in_week(key_ints(key), key_ints(fallback))),
    {
        let ghost pred = in_week(key_ints(key), key_ints(fallback));
        let mut bucket: Vec<Commit> = Vec::new();
        let mut i: usize = 0;
        proof {
            reveal(Seq::filter);
            assert(commits@.take(0).len() == 0);
        }
        while i < commits.len()
            invariant
                i <= commits.len(),
                pred == in_week(key_ints(key), key_ints(fallback)),
                bucket@ == commits@.take(i as int).filter(pred),
            decreases commits.len() - i,
        {
            let week = Self::week_of(&commits[i], fallback);
            proof {
                lemma_filter_step(commits@, i as int, pred);
            }
            if week.0 == key.0 && week.1 == key.1 {
                bucket.push(commits[i].clone());
            }
            i += 1;
        }
        assert(commits@.take(i as int) == commits@);
        bucket
    }

    /// The least timestamp among the commits; zero where there is none.
    pub fn window_start(commits: &Vec<Commit>) -> (least: i64)
        ensures
            least == earliest(commits@),
    {
        if commits.len() == 0 {
            return 0;
        }
        let mut least: i64 = commits[0].timestamp;
        let mut i: usize = 1;
        assert(commits@.take(1).len() == 1);
        while i < commits.len()
            invariant
                1 <= i <= commits.len(),
                least == earliest(commits@.take(i as int)),
            decreases commits.len() - i,
        {
            assert(commits@.take(i + 1).drop_last() == commits@.take(i as int));
            if commits[i].timestamp < least {
                least = commits[i].timestamp;
            }
            i += 1;
        }
        assert(commits@.take(i as int) == commits@);
        least
    }

    /// The greatest timestamp among the commits; zero where there is none.
    pub fn window_end(commits: &Vec<Commit>) -> (greatest: i64)
        ensures
            greatest == latest(commits@),
    {
        if commits.len() == 0 {
            return 0;
        }
        let mut greatest: i64 = commits[0].timestamp;
        let mut i: usize = 1;
        assert(commits@.take(1).len() == 1);
        while i < commits.len()
            invariant
                1 <= i <= commits.len(),
                greatest == latest(commits@.take(i as int)),
            decreases commits.len() - i,
        {
            assert(commits@.take(i + 1).drop_last() == commits@.take(i as int));
            if commits[i].timestamp > greatest {
                greatest = commits[i].timestamp;
            }
            i += 1;
        }
        assert(commits@.take(i as int) == commits@);
        greatest
    }

    /// The indices of `values` in ascending order of the values; of two equal
    /// values the one that stands first comes first.
    pub fn ascending_order(values: &Vec<i64>) -> (order: Vec<usize>)
        ensures
            is_ordering(order@, values@),
    {
        let mut order: Vec<usize> = Vec::new();
        let mut i: usize = 0;
        while i < values.len()
            invariant
                i <= values.len(),
                is_ordering(order@, values@.take(i as int)),
            decreases values.len() - i,
        {
            let mut pos: usize = 0;
            while pos < order.len() && values[order[pos]] <= values[i]
                invariant
                    pos <= order.len(),
                    i < values.len(),
                    is_ordering(order@, values@.take(i as int)),
                    forall|k: int| 0 <= k < pos ==> values@[(#[trigger] order@[k]) as int] <= values@[i as int],
                decreases order.len() - pos,
            {
                pos += 1;
            }
            let ghost before = order@;
            order.insert(pos, i);
            proof {
                let after = order@;
                before.insert_ensures(pos as int, i);
                let old_values = values@.take(i as int);
                let new_values = values@.take(i + 1);
                assert forall|a: int, b: int| 0 <= a < b < after.len() && after[a] == after[b] implies false by {
                    let a0 = if a < pos { a } else { a - 1 };
                    let b0 = if b < pos { b } else { b - 1 };
                    if a == pos {
                        assert(after[b] == before[b - 1]);
                    } else if b == pos {
                        assert(after[a] == before[a]);
                    } else {
                        assert(after[a] == before[a0]);
                        assert(after[b] == before[b0]);
                    }
                }
                assert(after.no_duplicates());
                assert forall|k: int| 0 <= k < after.len() implies (#[trigger] after[k]) < new_values.len() by {
                    if k < pos {
                        assert(after[k] == before[k]);
                    } else if k > pos {
                        assert(after[k] == before[k - 1]);
                    }
                }
                assert forall|d: usize| d < new_values.len() implies #[trigger] after.contains(d) by {
                    if d == i {
                        assert(after[pos as int] == d);
                    } else {
                        assert(before.contains(d));
                        let k = choose|k: int| 0 <= k < before.len() && before[k] == d;
                        if k < pos {
                            assert(after[k] == d);
                        } else {
                            assert(after[k + 1] == d);
                        }
                    }
                }
                assert forall|a: int, b: int| 0 <= a < b < after.len() implies {
                    let first = (#[trigger] after[a]) as int;
                    let second = (#[trigger] after[b]) as int;
                    new_values[first] < new_values[second] || (new_values[first]
                        == new_values[second] && first < second)
                } by {
                    let a0 = if a < pos { a } else { a - 1 };
                    let b0 = if b < pos { b } else { b - 1 };
                    if a == pos {
                        assert(after[b] == before[b - 1]);
                        assert(values@[before[pos as int] as int] > values@[i as int]);
                        if b - 1 > pos {
                            let head = before[pos as int] as int;
                            let tail = before[b - 1] as int;
                            assert(old_values[head] < old_values[tail] || (old_values[head]
                                == old_values[tail] && head < tail));
                        }
                    } else if b == pos {
                        assert(after[a] == before[a]);
                        assert(values@[before[a] as int] <= values@[i as int]);
                        assert(before[a] < i);
                    } else {
                        assert(after[a] == before[a0]);
                        assert(after[b] == before[b0]);
                        let head = before[a0] as int;
                        let tail = before[b0] as int;
                        assert(old_values[head] < old_values[tail] || (old_values[head]
                            == old_values[tail] && head < tail));
                    }
                }
            }
            i += 1;
        }
        assert(values@.take(i as int) == values@);
        order
    }

    /// The distinct weeks the commits fall in, in order of first appearance.
    pub fn distinct_weeks(commits: &Vec<Commit>, fallback: (i32, u32)) -> (keys: Vec<(i32, u32)>)
        ensures
            keys_ints(keys@) == first_appearances(week_keys(commits@, key_ints(fallback))),
            forall|a: int, b: int|
                0 <= a < b < keys@.len() ==> key_ints(#[trigger] keys@[a]) != key_ints(
                    #[trigger] keys@[b],
                ),
            forall|j: int|
                0 <= j < commits@.len() ==> knows_week(
                    keys@,
                    keys@.len() as int,
                    week_key(#[trigger] commits@[j], key_ints(fallback)),
                ),
            forall|d: int|
                0 <= d < keys@.len() ==> week_occurs(
                    commits@,
                    commits@.len() as int,
                    key_ints(#[trigger] keys@[d]),
                    key_ints(fallback),
                ),
    {
        let ghost fb = key_ints(fallback);
        let mut keys: Vec<(i32, u32)> = Vec::new();
        let mut i: usize = 0;
        assert(week_keys(commits@.take(0), fb).len() == 0);
        assert(keys_ints(keys@) =~= first_appearances(week_keys(commits@.take(0), fb)));
        while i < commits.len()
            invariant
                i <= commits.len(),
                fb == key_ints(fallback),
                keys_ints(keys@) == first_appearances(week_keys(commits@.take(i as int), fb)),
                forall|a: int, b: int|
                    0 <= a < b < keys@.len() ==> key_ints(#[trigger] keys@[a]) != key_ints(
                        #[trigger] keys@[b],
                    ),
                forall|j: int|
                    0 <= j < i ==> knows_week(
                        keys@,
                        keys@.len() as int,
                        week_key(#[trigger] commits@[j], fb),
                    ),
                forall|d: int|
                    0 <= d < keys@.len() ==> week_occurs(
                        commits@,
                        i as int,
                        key_ints(#[trigger] keys@[d]),
                        fb,
                    ),
            decreases commits.len() - i,
        {
            let week = Self::week_of(&commits[i], fallback);
            let mut known = false;
            let mut d: usize = 0;
            while d < keys.len()
                invariant
                    d <= keys.len(),
                    known <==> knows_week(keys@, d as int, key_ints(week)),
                decreases keys.len() - d,
            {
                if keys[d].0 == week.0 && keys[d].1 == week.1 {
                    known = true;
                    assert(key_ints(keys@[d as int]) == key_ints(week));
                }
                proof {
                    if knows_week(keys@, d + 1, key_ints(week)) && !known {
                        let w = choose|w: int|
                            0 <= w < d + 1 && w < keys@.len() && key_ints(#[trigger] keys@[w])
                                == key_ints(week);
                        assert(w < d);
                    }
                }
                d += 1;
            }
            let ghost before = keys@;
            if !known {
                keys.push(week);
            }
            proof {
                let seen = week_keys(commits@.take(i as int), fb);
                let grown = week_keys(commits@.take(i + 1), fb);
                let key = week_key(commits@[i as int], fb);
                assert(commits@.take(i + 1) == commits@.take(i as int).push(commits@[i as int]));
                assert(grown =~= seen.push(key));
                assert(grown.drop_last() =~= seen);
                assert(grown.last() == key);
                let listed = keys_ints(before);
                if known {
                    let w = choose|w: int|
                        0 <= w < before.len() && w < before.len() && key_ints(#[trigger] before[w])
                            == key;
                    assert(listed[w] == key);
                    assert(listed.contains(key));
                } else {
                    if listed.contains(key) {
                        let w = choose|w: int| 0 <= w < listed.len() && listed[w] == key;
                        assert(key_ints(before[w]) == key);
                        assert(knows_week(before, before.len() as int, key));
                    }
                    assert(keys_ints(keys@) =~= listed.push(key));
                }
            }
            proof {
                let after = keys@;
                assert forall|j: int| 0 <= j < i + 1 implies knows_week(
                    after,
                    after.len() as int,
                    week_key(#[trigger] commits@[j], fb),
                ) by {
                    let key = week_key(commits@[j], fb);
                    if j < i {
                        assert(knows_week(before, before.len() as int, key));
                        let w = choose|w: int|
                            0 <= w < before.len() && w < before.len() && key_ints(
                                #[trigger] before[w],
                            ) == key;
                        assert(after[w] == before[w]);
                    } else if known {
                        let w = choose|w: int|
                            0 <= w < before.len() && w < before.len() && key_ints(
                                #[trigger] before[w],
                            ) == key;
                        assert(after[w] == before[w]);
                    } else {
                        assert(key_ints(after[after.len() - 1]) == key);
                    }
                }
                assert forall|k: int| 0 <= k < after.len() implies week_occurs(
                    commits@,
                    i + 1,
                    key_ints(#[trigger] after[k]),
                    fb,
                ) by {
                    if k < before.len() {
                        assert(after[k] == before[k]);
                        assert(week_occurs(commits@, i as int, key_ints(before[k]), fb));
                        let j = choose|j: int|
                            0 <= j < i && j < commits@.len() && week_key(
                                #[trigger] commits@[j],
                                fb,
                            ) == key_ints(before[k]);
                        assert(week_key(commits@[j], fb) == key_ints(after[k]));
                    } else {
                        assert(week_key(commits@[i as int], fb) == key_ints(after[k]));
                    }
                }
                assert forall|a: int, b: int| 0 <= a < b < after.len() implies key_ints(
                    #[trigger] after[a],
                ) != key_ints(#[trigger] after[b]) by {
                    if b < before.len() {
                        assert(after[a] == before[a] && after[b] == before[b]);
                    } else {
                        assert(after[a] == before[a]);
                        if key_ints(after[a]) == key_ints(week) {
                            assert(knows_week(before, before.len() as int, key_ints(week)));
                        }
                    }
                }
            }
            i += 1;
        }
        assert(commits@.take(i as int) == commits@);
        keys
    }

    /// Groups the commits by ISO year and ISO week; a commit whose timestamp
    /// the calendar cannot represent falls in the week `fallback`. Each
    /// bucket keeps the commits' order, and the buckets stand in ascending
    /// order of their earliest timestamp.
    pub fn group_by_week_at(commits: &Vec<Commit>, fallback: (i32, u32)) -> (weeks: Vec<Vec<Commit>>)
        ensures
            grouped_by_week(commits@, key_ints(fallback), bucket_seqs(weeks@)),
    {
        let ghost fb = key_ints(fallback);
        let keys = Self::distinct_weeks(commits, fallback);
        let mut buckets: Vec<Vec<Commit>> = Vec::new();
        let mut firsts: Vec<i64> = Vec::new();
        let mut d: usize = 0;
        while d < keys.len()
            invariant
                d <= keys.len(),
                fb == key_ints(fallback),
                buckets@.len() == d,
                firsts@.len() == d,
                forall|k: int|
                    0 <= k < keys@.len() ==> week_occurs(
                        commits@,
                        commits@.len() as int,
                        key_ints(#[trigger] keys@[k]),
                        fb,
                    ),
                forall|k: int|
                    0 <= k < d ==> {
                        &&& (#[trigger] buckets@[k])@.len() > 0
                        &&& buckets@[k]@ == commits@.filter(in_week(key_ints(keys@[k]), fb))
                        &&& bucket_key(buckets@[k]@, fb) == key_ints(keys@[k])
                        &&& firsts@[k] == earliest(buckets@[k]@)
                    },
            decreases keys.len() - d,
        {
            let bucket = Self::commits_in_week(commits, keys[d], fallback);
            proof {
                let key = key_ints(keys@[d as int]);
                let pred = in_week(key, fb);
                assert(week_occurs(commits@, commits@.len() as int, key, fb));
                let j = choose|j: int|
                    0 <= j < commits@.len() && j < commits@.len() && week_key(
                        #[trigger] commits@[j],
                        fb,
                    ) == key;
                assert(pred(commits@[j]));
                commits@.lemma_filter_contains(pred, j);
                assert(bucket@.len() > 0);
                commits@.lemma_filter_pred(pred, 0);
                assert(pred(bucket@[0]));
            }
            let first = Self::window_start(&bucket);
            firsts.push(first);
            buckets.push(bucket);
            d += 1;
        }
        let order = Self::ascending_order(&firsts);
        let mut weeks: Vec<Vec<Commit>> = Vec::new();
        let mut k: usize = 0;
        while k < order.len()
            invariant
                k <= order.len(),
                is_ordering(order@, firsts@),
                buckets@.len() == firsts@.len(),
                weeks@.len() == k,
                forall|m: int| 0 <= m < k ==> (#[trigger] weeks@[m])@ == buckets@[order@[m] as int]@,
            decreases order.len() - k,
        {
            weeks.push(clone_commits(&buckets[order[k]]));
            k += 1;
        }
        proof {
            let out = bucket_seqs(weeks@);
            assert forall|b: int| 0 <= b < out.len() implies (#[trigger] out[b]).len() > 0 && out[b]
                == commits@.filter(in_week(bucket_key(out[b], fb), fb)) by {
                let src = order@[b] as int;
                assert(out[b] == weeks@[b]@);
                assert(weeks@[b]@ == buckets@[src]@);
            }
            assert forall|a: int, b: int| 0 <= a < b < out.len() implies bucket_key(
                #[trigger] out[a],
                fb,
            ) != bucket_key(#[trigger] out[b], fb) by {
                let sa = order@[a] as int;
                let sb = order@[b] as int;
                assert(out[a] == weeks@[a]@ && out[b] == weeks@[b]@);
                assert(weeks@[a]@ == buckets@[sa]@ && weeks@[b]@ == buckets@[sb]@);
                assert(sa != sb);
                if sa < sb {
                    assert(key_ints(keys@[sa]) != key_ints(keys@[sb]));
                } else {
                    assert(key_ints(keys@[sb]) != key_ints(keys@[sa]));
                }
            }
            assert forall|i: int| 0 <= i < commits@.len() implies has_bucket(
                out,
                week_key(#[trigger] commits@[i], fb),
                fb,
            ) by {
                let key = week_key(commits@[i], fb);
                assert(knows_week(keys@, keys@.len() as int, key));
                let src = choose|src: int|
                    0 <= src < keys@.len() && src < keys@.len() && key_ints(#[trigger] keys@[src])
                        == key;
                assert(order@.contains(src as usize));
                let b = choose|b: int| 0 <= b < order@.len() && order@[b] == src as usize;
                assert(out[b] == weeks@[b]@);
                assert(weeks@[b]@ == buckets@[src]@);
                assert(bucket_key(out[b], fb) == key);
            }
            assert forall|a: int, b: int| 0 <= a < b < out.len() implies earliest(#[trigger] out[a])
                < earliest(#[trigger] out[b]) by {
                let sa = order@[a] as int;
                let sb = order@[b] as int;
                assert(out[a] == weeks@[a]@ && out[b] == weeks@[b]@);
                assert(weeks@[a]@ == buckets@[sa]@ && weeks@[b]@ == buckets@[sb]@);
                assert(firsts@[sa] <= firsts@[sb]);
                assert(bucket_key(out[a], fb) != bucket_key(out[b], fb));
                if earliest(out[a]) == earliest(out[b]) {
                    lemma_same_week_at_same_time(commits@, fb, out[a], out[b]);
                }
            }
        }
        weeks
    }

    /// Groups the commits by ISO year and ISO week. A commit whose timestamp
    /// the calendar cannot represent falls in the week the call is made in.
    pub fn group_by_iso_week(commits: &Vec<Commit>) -> (weeks: Vec<Vec<Commit>>)
        ensures
            exists|current: (int, int)| grouped_by_week(commits@, current, bucket_seqs(weeks@)),
    {
        let now = utc_now();
        let weeks = Self::group_by_week_at(commits, (now.1, now.2));
        assert(grouped_by_week(commits@, key_ints((now.1, now.2)), bucket_seqs(weeks@)));
        weeks
    }

    /// Counts the distinct authors. The number of changed files is not
    /// computed and is reported as zero.
    pub fn stats(commits: &Vec<Commit>) -> (stats: ReportStats)
        ensures
            stats.unique_authors == unique_author_count(commits@),
            stats.unique_authors <= commits@.len(),
            stats.files_changed == 0,
    {
        let mut seen: Vec<String> = Vec::new();
        let ghost mut names: Seq<Seq<char>> = Seq::empty();
        let mut i: usize = 0;
        while i < commits.len()
            invariant
                i <= commits.len(),
                names.len() == seen@.len(),
                forall|k: int| 0 <= k < seen@.len() ==> (#[trigger] seen@[k])@ == names[k],
                names.no_duplicates(),
                names.to_set() == authors(commits@).take(i as int).to_set(),
                names.len() <= i,
            decreases commits.len() - i,
        {
            let author = &commits[i].author;
            let mut known = false;
            let mut j: usize = 0;
            while j < seen.len()
                invariant
                    j <= seen.len(),
                    names.len() == seen@.len(),
                    forall|k: int| 0 <= k < seen@.len() ==> (#[trigger] seen@[k])@ == names[k],
                    known <==> exists|k: int| 0 <= k < j && names[k] == author@,
                decreases seen.len() - j,
            {
                if seen[j] == *author {
                    known = true;
                }
                j += 1;
            }
            proof {
                let before = authors(commits@).take(i as int);
                let after = authors(commits@).take(i + 1);
                assert(after == before.push(author@));
                assert(after.to_set() == before.to_set().insert(author@)) by {
                    assert forall|a: Seq<char>| after.to_set().contains(a) implies before.to_set().insert(
                        author@,
                    ).contains(a) by {
                        let k = choose|k: int| 0 <= k < after.len() && after[k] == a;
                        if k < before.len() {
                            assert(before[k] == a);
                        }
                    }
                    assert forall|a: Seq<char>|
                        before.to_set().insert(author@).contains(a) implies after.to_set().contains(
                        a,
                    ) by {
                        if a == author@ {
                            assert(after[i as int] == a);
                        } else {
                            let k = choose|k: int| 0 <= k < before.len() && before[k] == a;
                            assert(after[k] == a);
                        }
                    }
                }
                if known {
                    assert(names.to_set().contains(author@));
                } else {
                    assert(names.push(author@).to_set() == names.to_set().insert(author@)) by {
                        let grown = names.push(author@);
                        assert forall|a: Seq<char>| grown.to_set().contains(a) implies names.to_set().insert(
                            author@,
                        ).contains(a) by {
                            let k = choose|k: int| 0 <= k < grown.len() && grown[k] == a;
                            if k < names.len() {
                                assert(names[k] == a);
                            }
                        }
                        assert forall|a: Seq<char>|
                            names.to_set().insert(author@).contains(a) implies grown.to_set().contains(
                            a,
                        ) by {
                            if a == author@ {
                                assert(grown[names.len() as int] == a);
                            } else {
                                let k = choose|k: int| 0 <= k < names.len() && names[k] == a;
                                assert(grown[k] == a);
                            }
                        }
                    }
                }
            }
            if !known {
                seen.push(author.clone());
                proof {
                    names = names.push(author@);
                }
            }
            i += 1;
        }
        proof {
            assert(authors(commits@).take(i as int) == authors(commits@));
            names.unique_seq_to_set();
        }
        ReportStats { unique_authors: seen.len(), files_changed: 0 }
    }
}

} // verus!
