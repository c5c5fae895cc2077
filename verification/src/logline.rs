//! Tagged log lines and their timestamp-based ordering.

use vstd::prelude::*;

verus! {

/// The requested order of a page: by derived timestamp, ascending or
/// descending.
#[derive(Clone, Copy, Debug, PartialEq, Eq, Structural)]
pub enum Order {
    OrderByDate,
    OrderByDateReverse,
}

/// One log line: the raw text, the display name of the source it came from,
/// and the timestamp derived from its leading token (milliseconds since the
/// Unix epoch) when one was derivable.
#[derive(Debug)]
pub struct Log {
    pub date_time: Option<i64>,
    pub data: String,
    pub source_name: String,
}

impl Clone for Log {
    fn clone(&self) -> (r: Self)
        ensures
            r == *self,
    {
        Log {
            date_time: self.date_time,
            data: self.data.clone(),
            source_name: self.source_name.clone(),
        }
    }
}

impl Log {
    /// The timestamp this line sorts by, when one was derivable.
    pub fn get_date(&self) -> (r: Option<i64>)
        ensures
            r == self.date_time,
    {
        self.date_time
    }
}

/// Whether `a` may stand before `b` under the given order: timestamped lines
/// are compared by instant (ascending or descending), and lines without a
/// derivable timestamp sort after all timestamped lines, for either order.
pub open spec fn log_le(order: Order, a: Log, b: Log) -> bool {
    match (a.date_time, b.date_time) {
        (Some(x), Some(y)) => if order == Order::OrderByDate {
            x <= y
        } else {
            y <= x
        },
        (Some(_), None) => true,
        (None, Some(_)) => false,
        (None, None) => true,
    }
}

fn log_le_exec(order: Order, a: &Log, b: &Log) -> (r: bool)
    ensures
        r == log_le(order, *a, *b),
{
    match (a.date_time, b.date_time) {
        (Some(x), Some(y)) => if order == Order::OrderByDate {
            x <= y
        } else {
            y <= x
        },
        (Some(_), None) => true,
        (None, Some(_)) => false,
        (None, None) => true,
    }
}

/// Whether the sequence is ordered under `log_le`.
pub open spec fn sorted_by(order: Order, s: Seq<Log>) -> bool {
    forall|i: int, j: int| 0 <= i < j < s.len() ==> log_le(order, s[i], s[j])
}

/// Inserts `x` into an ordered sequence, after every element that may stand
/// before it.
pub open spec fn insert_ordered(order: Order, s: Seq<Log>, x: Log) -> Seq<Log>
    decreases s.len(),
{
    if s.len() == 0 {
        seq![x]
    } else if log_le(order, s[0], x) {
        seq![s[0]] + insert_ordered(order, s.drop_first(), x)
    } else {
        seq![x] + s
    }
}

/// Insertion sort of a sequence of log lines, taking the elements from left
/// to right. Equal keys keep their input order.
pub open spec fn sort_by_order(order: Order, s: Seq<Log>) -> Seq<Log>
    decreases s.len(),
{
    if s.len() == 0 {
        Seq::empty()
    } else {
        insert_ordered(order, sort_by_order(order, s.drop_last()), s.last())
    }
}

proof fn lemma_insert_ordered_at(order: Order, s: Seq<Log>, x: Log, j: int)
    requires
        0 <= j <= s.len(),
        forall|k: int| 0 <= k < j ==> log_le(order, s[k], x),
        j == s.len() || !log_le(order, s[j], x),
    ensures
        insert_ordered(order, s, x) == s.take(j) + seq![x] + s.skip(j),
    decreases j,
{
    if j == 0 {
        if s.len() == 0 {
            assert(insert_ordered(order, s, x) =~= s.take(0) + seq![x] + s.skip(0));
        } else {
            assert(insert_ordered(order, s, x) =~= s.take(0) + seq![x] + s.skip(0));
        }
    } else {
        lemma_insert_ordered_at(order, s.drop_first(), x, j - 1);
        assert(seq![s[0]] + (s.drop_first().take(j - 1) + seq![x] + s.drop_first().skip(j - 1))
            =~= s.take(j) + seq![x] + s.skip(j));
    }
}

/// Sorts the lines in place by derived timestamp under the requested order;
/// lines without a derivable timestamp end up after all timestamped lines,
/// and lines with equal keys keep their relative order.
pub fn sort_logs(order: Order, logs: &mut Vec<Log>)
    ensures
        final(logs)@ == sort_by_order(order, old(logs)@),
{
    let ghost orig = logs@;
    let mut out: Vec<Log> = Vec::new();
    let mut i: usize = 0;
    while i < logs.len()
        invariant
            0 <= i <= logs@.len(),
            logs@ == orig,
            out@ == sort_by_order(order, orig.take(i as int)),
        decreases logs@.len() - i,
    {
        let x = logs[i].clone();
        let ghost before = out@;
        let mut j: usize = 0;
        while j < out.len() && log_le_exec(order, &out[j], &x)
            invariant
                0 <= j <= out@.len(),
                out@ == before,
                forall|k: int| 0 <= k < j ==> log_le(order, out@[k], x),
            decreases out@.len() - j,
        {
            j = j + 1;
        }
        out.insert(j, x);
        proof {
            lemma_insert_ordered_at(order, before, x, j as int);
            assert(before.insert(j as int, x) =~= before.take(j as int) + seq![x] + before.skip(
                j as int,
            ));
            assert(orig.take(i + 1).drop_last() =~= orig.take(i as int));
            assert(orig.take(i + 1).last() == orig[i as int]);
        }
        i = i + 1;
    }
    proof {
        assert(orig.take(orig.len() as int) =~= orig);
    }
    *logs = out;
}

/// Sorting neither adds nor drops lines: the lengths agree.
pub proof fn lemma_sort_len(order: Order, s: Seq<Log>)
    ensures
        sort_by_order(order, s).len() == s.len(),
    decreases s.len(),
{
    if s.len() > 0 {
        lemma_sort_len(order, s.drop_last());
        lemma_insert_len(order, sort_by_order(order, s.drop_last()), s.last());
    }
}

proof fn lemma_insert_len(order: Order, s: Seq<Log>, x: Log)
    ensures
        insert_ordered(order, s, x).len() == s.len() + 1,
    decreases s.len(),
{
    if s.len() > 0 && log_le(order, s[0], x) {
        lemma_insert_len(order, s.drop_first(), x);
    }
}

/// Law: the sorted sequence is ordered under the requested relation.
pub proof fn lemma_sort_sorted(order: Order, s: Seq<Log>)
    ensures
        sorted_by(order, sort_by_order(order, s)),
    decreases s.len(),
{
    if s.len() > 0 {
        lemma_sort_sorted(order, s.drop_last());
        lemma_insert_keeps_sorted(order, sort_by_order(order, s.drop_last()), s.last());
    }
}

proof fn lemma_insert_keeps_sorted(order: Order, s: Seq<Log>, x: Log)
    requires
        sorted_by(order, s),
    ensures
        sorted_by(order, insert_ordered(order, s, x)),
        insert_ordered(order, s, x).len() == s.len() + 1,
    decreases s.len(),
{
    if s.len() == 0 {
    } else if log_le(order, s[0], x) {
        assert(sorted_by(order, s.drop_first()));
        lemma_insert_keeps_sorted(order, s.drop_first(), x);
        let r = seq![s[0]] + insert_ordered(order, s.drop_first(), x);
        assert forall|i: int, j: int| 0 <= i < j < r.len() implies log_le(order, r[i], r[j]) by {
            if i == 0 {
                if j == 1 && s.len() == 1 {
                } else {
                    lemma_insert_member(order, s.drop_first(), x, j - 1);
                }
            }
        }
    } else {
        let r = seq![x] + s;
        assert forall|i: int, j: int| 0 <= i < j < r.len() implies log_le(order, r[i], r[j]) by {
            if i == 0 {
                lemma_le_total(order, s[0], x);
                if j >= 2 {
                    lemma_le_trans(order, x, s[0], s[j - 1]);
                }
            }
        }
    }
}

proof fn lemma_insert_member(order: Order, s: Seq<Log>, x: Log, j: int)
    requires
        0 <= j < insert_ordered(order, s, x).len(),
    ensures
        insert_ordered(order, s, x)[j] == x || (exists|k: int|
            0 <= k < s.len() && insert_ordered(order, s, x)[j] == s[k]),
    decreases s.len(),
{
    if s.len() == 0 {
    } else if log_le(order, s[0], x) {
        if j > 0 {
            lemma_insert_member(order, s.drop_first(), x, j - 1);
            if insert_ordered(order, s.drop_first(), x)[j - 1] != x {
                let k = choose|k: int|
                    0 <= k < s.drop_first().len() && insert_ordered(order, s.drop_first(), x)[j
                        - 1] == s.drop_first()[k];
                assert(s.drop_first()[k] == s[k + 1]);
            }
        }
    }
}

/// `log_le` is total: of any two lines, one may stand before the other.
proof fn lemma_le_total(order: Order, a: Log, b: Log)
    ensures
        log_le(order, a, b) || log_le(order, b, a),
{
}

/// `log_le` is transitive.
proof fn lemma_le_trans(order: Order, a: Log, b: Log, c: Log)
    requires
        log_le(order, a, b),
        log_le(order, b, c),
    ensures
        log_le(order, a, c),
{
}

} // verus!
