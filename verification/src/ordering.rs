use vstd::prelude::*;

use crate::task::{Task, TaskView};
use crate::tasks_component::task_views;
use crate::time::Moment;

verus! {

/// Whether moment `a` is not after moment `b`.
pub open spec fn moment_le(a: Moment, b: Moment) -> bool {
    a.0 < b.0 || (a.0 == b.0 && a.1 <= b.1)
}

/// Whether the tasks in `s` come in order of publication.
pub open spec fn sorted_by_publish_time(s: Seq<TaskView>) -> bool {
    forall|i: int, j: int|
        0 <= i < j < s.len() ==> moment_le(#[trigger] s[i].publish_time, #[trigger] s[j].publish_time)
}

/// Whether a task was published at `m`.
pub open spec fn published_at(m: Moment) -> spec_fn(TaskView) -> bool {
    |t: TaskView| t.publish_time == m
}

/// Whether `a` and `b` hold the same tasks published at each moment, in the
/// same order: `b` is a stable reordering of `a`.
pub open spec fn same_groups(a: Seq<TaskView>, b: Seq<TaskView>) -> bool {
    forall|m: Moment| #[trigger] a.filter(published_at(m)) == b.filter(published_at(m))
}

/// Filtering `s` with `t` pushed adds `t` at the end exactly where it was published at `m`.
proof fn lemma_push_filter(s: Seq<TaskView>, t: TaskView, m: Moment)
    ensures
        s.push(t).filter(published_at(m)) == if t.publish_time == m {
            s.filter(published_at(m)).push(t)
        } else {
            s.filter(published_at(m))
        },
{
    reveal(Seq::filter);
    assert(s.push(t).drop_last() =~= s);
}

/// No task of `s` was published at `m`: filtering keeps none.
proof fn lemma_filter_none(s: Seq<TaskView>, m: Moment)
    requires
        forall|i: int| 0 <= i < s.len() ==> #[trigger] s[i].publish_time != m,
    ensures
        s.filter(published_at(m)) == Seq::<TaskView>::empty(),
    decreases s.len(),
{
    reveal(Seq::filter);
    if s.len() > 0 {
        lemma_filter_none(s.drop_last(), m);
    } else {
        assert(s =~= Seq::<TaskView>::empty());
    }
}

/// Inserting `t` before every later-published task groups like pushing it.
proof fn lemma_insert_groups(s: Seq<TaskView>, p: int, t: TaskView, m: Moment)
    requires
        0 <= p <= s.len(),
        forall|j: int| p <= j < s.len() ==> #[trigger] s[j].publish_time != t.publish_time,
    ensures
        s.insert(p, t).filter(published_at(m)) == s.push(t).filter(published_at(m)),
{
    let f = published_at(m);
    let a = s.take(p);
    let b = s.skip(p);
    let one = Seq::<TaskView>::empty().push(t);
    assert(s.insert(p, t) =~= (a + one) + b);
    assert(s =~= a + b);
    Seq::filter_distributes_over_add(a + one, b, f);
    Seq::filter_distributes_over_add(a, one, f);
    Seq::filter_distributes_over_add(a, b, f);
    lemma_push_filter(s, t, m);
    lemma_push_filter(Seq::<TaskView>::empty(), t, m);
    reveal(Seq::filter);
    assert(Seq::<TaskView>::empty().filter(f) =~= Seq::<TaskView>::empty());
    if t.publish_time == m {
        assert forall|j: int| 0 <= j < b.len() implies #[trigger] b[j].publish_time != m by {
            assert(b[j] == s[p + j]);
        }
        lemma_filter_none(b, m);
        assert(s.filter(f) =~= a.filter(f) + Seq::<TaskView>::empty());
        assert(s.insert(p, t).filter(f) =~= a.filter(f) + one + Seq::<TaskView>::empty());
        assert(s.push(t).filter(f) =~= s.filter(f).push(t));
    } else {
        assert(one.filter(f) =~= Seq::<TaskView>::empty());
    }
}

/// Sorting is determined: two sequences that are both ordered by publication
/// time, of equal length, and hold the same tasks published at each moment in
/// the same order, are equal. So `sort_by_publish_time` has one possible
/// result, and gives back unchanged a sequence that is already ordered.
pub proof fn lemma_sorted_groups_unique(a: Seq<TaskView>, b: Seq<TaskView>)
    requires
        sorted_by_publish_time(a),
        sorted_by_publish_time(b),
        same_groups(a, b),
        a.len() == b.len(),
    ensures
        a == b,
    decreases a.len(),
{
    if a.len() == 0 {
        assert(a =~= b);
        return;
    }
    let ka = a.last().publish_time;
    let kb = b.last().publish_time;
    let a0 = a.drop_last();
    let b0 = b.drop_last();
    assert(a0.push(a.last()) =~= a);
    assert(b0.push(b.last()) =~= b);
    lemma_push_filter(a0, a.last(), ka);
    lemma_push_filter(b0, b.last(), kb);
    lemma_push_filter(a0, a.last(), kb);
    lemma_push_filter(b0, b.last(), ka);
    assert(a.filter(published_at(ka)) == b.filter(published_at(ka)));
    assert(a.filter(published_at(kb)) == b.filter(published_at(kb)));
    // Some task of `b` was published at `ka`, and some task of `a` at `kb`.
    if forall|i: int| 0 <= i < b.len() ==> #[trigger] b[i].publish_time != ka {
        lemma_filter_none(b, ka);
        assert(a.filter(published_at(ka)).len() > 0);
        assert(false);
    }
    if forall|i: int| 0 <= i < a.len() ==> #[trigger] a[i].publish_time != kb {
        lemma_filter_none(a, kb);
        assert(b.filter(published_at(kb)).len() > 0);
        assert(false);
    }
    let jb = choose|i: int| 0 <= i < b.len() && #[trigger] b[i].publish_time == ka;
    let ja = choose|i: int| 0 <= i < a.len() && #[trigger] a[i].publish_time == kb;
    if jb < b.len() - 1 {
        assert(moment_le(b[jb].publish_time, b[b.len() - 1].publish_time));
    }
    if ja < a.len() - 1 {
        assert(moment_le(a[ja].publish_time, a[a.len() - 1].publish_time));
    }
    assert(ka == kb);
    let fa0 = a0.filter(published_at(ka));
    let fb0 = b0.filter(published_at(ka));
    assert(fa0.push(a.last()) == fb0.push(b.last()));
    assert(a.last() == fa0.push(a.last()).last());
    assert(fa0 =~= fa0.push(a.last()).drop_last());
    assert(fb0 =~= fb0.push(b.last()).drop_last());
    assert forall|m: Moment| #[trigger] a0.filter(published_at(m)) == b0.filter(
        published_at(m),
    ) by {
        lemma_push_filter(a0, a.last(), m);
        lemma_push_filter(b0, b.last(), m);
        assert(a.filter(published_at(m)) == b.filter(published_at(m)));
        if m == ka {
        }
    }
    assert forall|i: int, j: int| 0 <= i < j < a0.len() implies moment_le(
        #[trigger] a0[i].publish_time,
        #[trigger] a0[j].publish_time,
    ) by {
        assert(a0[i] == a[i] && a0[j] == a[j]);
    }
    assert forall|i: int, j: int| 0 <= i < j < b0.len() implies moment_le(
        #[trigger] b0[i].publish_time,
        #[trigger] b0[j].publish_time,
    ) by {
        assert(b0[i] == b[i] && b0[j] == b[j]);
    }
    lemma_sorted_groups_unique(a0, b0);
}

/// Whether moment `a` is before moment `b` (the exec comparison).
fn moment_le_exec(a: Moment, b: Moment) -> (r: bool)
    ensures
        r == moment_le(a, b),
{
    a.0 < b.0 || (a.0 == b.0 && a.1 <= b.1)
}

/// The tasks ordered by publication time, earliest first; tasks published
/// at the same moment keep their relative order.
pub fn sort_by_publish_time(tasks: Vec<Task>) -> (r: Vec<Task>)
    ensures
        r@.len() == tasks@.len(),
        sorted_by_publish_time(task_views(r@)),
        same_groups(task_views(r@), task_views(tasks@)),
{
    let ghost input = task_views(tasks@);
    let mut out: Vec<Task> = Vec::new();
    let n = tasks.len();
    let mut i: usize = 0;
    proof {
        assert(task_views(out@) =~= input.take(0));
    }
    while i < n
        invariant
            n == input.len(),
            input == task_views(tasks@),
            i <= n,
            out@.len() == i,
            sorted_by_publish_time(task_views(out@)),
            same_groups(task_views(out@), input.take(i as int)),
        decreases n - i,
    {
        let t = tasks[i].clone();
        let key = t.publish_time();
        let ghost vo = task_views(out@);
        let ghost tv = t@;
        let mut p: usize = 0;
        while p < out.len() && moment_le_exec(out[p].publish_time(), key)
            invariant
                vo == task_views(out@),
                p <= out@.len(),
                forall|j: int| 0 <= j < p ==> moment_le(#[trigger] vo[j].publish_time, key),
            decreases out@.len() - p,
        {
            p = p + 1;
        }
        proof {
            assert forall|j: int| p <= j < vo.len() implies !moment_le(
                #[trigger] vo[j].publish_time,
                key,
            ) by {
                if j > p {
                    assert(moment_le(vo[p as int].publish_time, vo[j].publish_time));
                }
            }
        }
        out.insert(p, t);
        proof {
            vo.insert_ensures(p as int, tv);
            assert(task_views(out@) =~= vo.insert(p as int, tv));
            let nv = task_views(out@);
            assert forall|a: int, b: int| 0 <= a < b < nv.len() implies moment_le(
                #[trigger] nv[a].publish_time,
                #[trigger] nv[b].publish_time,
            ) by {
                if b < p {
                } else if b == p {
                } else if a < p {
                    assert(nv[b] == vo[b - 1]);
                } else if a == p {
                    assert(nv[b] == vo[b - 1]);
                } else {
                    assert(nv[a] == vo[a - 1]);
                    assert(nv[b] == vo[b - 1]);
                }
            }
            assert(input.take(i + 1) =~= input.take(i as int).push(tv));
            assert forall|m: Moment| #[trigger] nv.filter(published_at(m)) == input.take(
                i + 1,
            ).filter(published_at(m)) by {
                lemma_insert_groups(vo, p as int, tv, m);
                lemma_push_filter(vo, tv, m);
                lemma_push_filter(input.take(i as int), tv, m);
                assert(vo.filter(published_at(m)) == input.take(i as int).filter(published_at(m)));
            }
        }
        i = i + 1;
    }
    assert(input.take(n as int) =~= input);
    out
}

} // verus!
