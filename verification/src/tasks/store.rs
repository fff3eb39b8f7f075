//! The rules of the Valkey-backed task store: each task is JSON at
//! `task:{id}`, every id is kept in the `tasks` set, and listings come newest
//! first.
use vstd::prelude::*;
use crate::tasks::domain::Task;
use crate::text::join2;

verus! {

/// The key of the set that indexes every task id.
pub const INDEX_KEY: &'static str = "tasks";

/// The key a task is stored under: `task:{id}`.
pub fn task_key(id: &str) -> (k: String)
    ensures
        k@ == "task:"@ + id@,
{
    join2("task:", id)
}

/// `s` with `t` placed after every leading task at least as new as it.
pub open spec fn insert_newest_first(s: Seq<Task>, t: Task) -> Seq<Task>
    decreases s.len(),
{
    if s.len() == 0 {
        seq![t]
    } else if s[0].created_at >= t.created_at {
        seq![s[0]] + insert_newest_first(s.drop_first(), t)
    } else {
        seq![t] + s
    }
}

/// The tasks ordered newest first, tasks created in the same second keeping
/// their relative order (a stable sort by descending `created_at`).
pub open spec fn newest_first_of(s: Seq<Task>) -> Seq<Task>
    decreases s.len(),
{
    if s.len() == 0 {
        s
    } else {
        insert_newest_first(newest_first_of(s.drop_last()), s.last())
    }
}

/// Whether the tasks are ordered by non-increasing creation time.
pub open spec fn is_newest_first(s: Seq<Task>) -> bool {
    forall|i: int, j: int| 0 <= i < j < s.len() ==> #[trigger] s[i].created_at >= #[trigger] s[j].created_at
}

proof fn lemma_insert_at(s: Seq<Task>, t: Task, p: int)
    requires
        0 <= p <= s.len(),
        forall|j: int| 0 <= j < p ==> s[j].created_at >= t.created_at,
        p < s.len() ==> s[p].created_at < t.created_at,
    ensures
        insert_newest_first(s, t) == s.insert(p, t),
    decreases s.len(),
{
    if s.len() == 0 {
        assert(s.insert(p, t) =~= seq![t]);
    } else if p == 0 {
        assert(s.insert(0, t) =~= seq![t] + s);
    } else {
        lemma_insert_at(s.drop_first(), t, p - 1);
        assert(s.insert(p, t) =~= seq![s[0]] + s.drop_first().insert(p - 1, t));
    }
}

proof fn lemma_insert_keeps_order(s: Seq<Task>, t: Task)
    requires
        is_newest_first(s),
    ensures
        is_newest_first(insert_newest_first(s, t)),
        insert_newest_first(s, t).to_multiset() == s.to_multiset().insert(t),
        insert_newest_first(s, t).len() == s.len() + 1,
    decreases s.len(),
{
    broadcast use vstd::seq_lib::group_to_multiset_ensures;
    if s.len() == 0 {
        assert(seq![t].to_multiset() =~= s.to_multiset().insert(t)) by {
            assert(seq![t] =~= s.push(t));
        }
    } else if s[0].created_at >= t.created_at {
        let rest = s.drop_first();
        assert(is_newest_first(rest)) by {
            assert forall|i: int, j: int| 0 <= i < j < rest.len() implies #[trigger] rest[i].created_at
                >= #[trigger] rest[j].created_at by {
                assert(s[i + 1].created_at >= s[j + 1].created_at);
            }
        }
        lemma_insert_keeps_order(rest, t);
        let r = insert_newest_first(s, t);
        let ri = insert_newest_first(rest, t);
        assert(r == seq![s[0]] + ri);
        assert forall|i: int, j: int| 0 <= i < j < r.len() implies #[trigger] r[i].created_at
            >= #[trigger] r[j].created_at by {
            if i == 0 {
                assert(r[j] == ri[j - 1]);
                assert(ri.to_multiset().count(ri[j - 1]) > 0);
                assert(ri.contains(ri[j - 1]));
                if ri[j - 1] == t {
                } else {
                    assert(rest.to_multiset().count(ri[j - 1]) > 0);
                    let k = choose|k: int| 0 <= k < rest.len() && rest[k] == ri[j - 1];
                    assert(s[k + 1] == rest[k]);
                }
            } else {
                assert(r[i] == ri[i - 1]);
                assert(r[j] == ri[j - 1]);
            }
        }
        assert(r =~= seq![s[0]] + ri);
        assert(s =~= seq![s[0]] + rest);
        vstd::seq_lib::lemma_multiset_commutative(seq![s[0]], ri);
        vstd::seq_lib::lemma_multiset_commutative(seq![s[0]], rest);
        assert(r.to_multiset() =~= s.to_multiset().insert(t));
    } else {
        let r = insert_newest_first(s, t);
        assert(r == seq![t] + s);
        assert forall|i: int, j: int| 0 <= i < j < r.len() implies #[trigger] r[i].created_at
            >= #[trigger] r[j].created_at by {
            if i == 0 {
                assert(r[j] == s[j - 1]);
                if j - 1 > 0 {
                    assert(s[0].created_at >= s[j - 1].created_at);
                }
            } else {
                assert(r[i] == s[i - 1]);
                assert(r[j] == s[j - 1]);
            }
        }
        vstd::seq_lib::lemma_multiset_commutative(seq![t], s);
        assert(r.to_multiset() =~= s.to_multiset().insert(t));
    }
}

/// The newest-first order holds every task once and is sorted by
/// non-increasing creation time.
pub proof fn lemma_newest_first_sorts(s: Seq<Task>)
    ensures
        is_newest_first(newest_first_of(s)),
        newest_first_of(s).to_multiset() == s.to_multiset(),
        newest_first_of(s).len() == s.len(),
    decreases s.len(),
{
    broadcast use vstd::seq_lib::group_to_multiset_ensures;
    if s.len() > 0 {
        lemma_newest_first_sorts(s.drop_last());
        lemma_insert_keeps_order(newest_first_of(s.drop_last()), s.last());
        assert(s =~= s.drop_last().push(s.last()));
    }
}

/// Order `tasks` newest first; tasks created in the same second keep their
/// relative order.
pub fn newest_first(tasks: Vec<Task>) -> (r: Vec<Task>)
    ensures
        r@ == newest_first_of(tasks@),
        is_newest_first(r@),
        r@.to_multiset() == tasks@.to_multiset(),
{
    let ghost all = tasks@;
    let mut rest = tasks;
    let mut out: Vec<Task> = Vec::new();
    let n = rest.len();
    let mut i: usize = 0;
    proof {
        assert(all.take(0) =~= Seq::<Task>::empty());
        assert(all.skip(0) =~= all);
    }
    while i < n
        invariant
            n == all.len(),
            i <= n,
            rest@ == all.skip(i as int),
            out@ == newest_first_of(all.take(i as int)),
        decreases n - i,
    {
        let t = rest.remove(0);
        proof {
            assert(t == all[i as int]);
            assert(rest@ =~= all.skip(i + 1));
            assert(all.take(i + 1).drop_last() =~= all.take(i as int));
            assert(all.take(i + 1).last() == t);
            lemma_newest_first_sorts(all.take(i as int));
        }
        let m = out.len();
        let mut p: usize = 0;
        while p < m && out[p].created_at >= t.created_at
            invariant
                m == out@.len(),
                p <= m,
                forall|j: int| 0 <= j < p ==> out@[j].created_at >= t.created_at,
            decreases m - p,
        {
            p = p + 1;
        }
        proof {
            lemma_insert_at(out@, t, p as int);
        }
        out.insert(p, t);
        i = i + 1;
    }
    proof {
        assert(all.take(n as int) =~= all);
        lemma_newest_first_sorts(all);
    }
    out
}

/// The tasks that were found, in the order they were looked up.
pub open spec fn present_of(found: Seq<Option<Task>>) -> Seq<Task>
    decreases found.len(),
{
    if found.len() == 0 {
        Seq::empty()
    } else {
        let rest = present_of(found.drop_last());
        match found.last() {
            Some(t) => rest.push(t),
            None => rest,
        }
    }
}

/// The task listing, from the lookups of every indexed id: ids whose task is
/// gone are left out, and the rest come newest first.
pub fn listing(found: Vec<Option<Task>>) -> (r: Vec<Task>)
    ensures
        r@ == newest_first_of(present_of(found@)),
        is_newest_first(r@),
        r@.to_multiset() == present_of(found@).to_multiset(),
{
    let ghost all = found@;
    let mut rest = found;
    let mut present: Vec<Task> = Vec::new();
    let n = rest.len();
    let mut i: usize = 0;
    proof {
        assert(all.take(0) =~= Seq::<Option<Task>>::empty());
        assert(all.skip(0) =~= all);
    }
    while i < n
        invariant
            n == all.len(),
            i <= n,
            rest@ == all.skip(i as int),
            present@ == present_of(all.take(i as int)),
        decreases n - i,
    {
        let item = rest.remove(0);
        proof {
            assert(item == all[i as int]);
            assert(rest@ =~= all.skip(i + 1));
            assert(all.take(i + 1).drop_last() =~= all.take(i as int));
            assert(all.take(i + 1).last() == item);
        }
        match item {
            Some(t) => present.push(t),
            None => {},
        }
        i = i + 1;
    }
    proof {
        assert(all.take(n as int) =~= all);
    }
    newest_first(present)
}

} // verus!
