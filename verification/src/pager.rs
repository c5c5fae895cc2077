//! The paged reader: a one-shot pass that filters the lines of every source,
//! merges them into one working set, orders the set by derived timestamp and
//! slices it to the requested page.

use vstd::prelude::*;

use crate::filters::{chain_includes, chain_is_include, first_token, leading_token,
    parse_date_token, parse_instant, Filter};
use crate::logline::{sort_by_order, sort_logs, Log, Order};

verus! {

/// Failure of one paged read, attributable to the offending source: its
/// display name is carried along.
#[derive(Debug)]
pub enum ReadError {
    SourceUnavailable(String),
}

/// The content of one source as handed to the reader: the source's display
/// name and its lines, or `None` for a source that could not be opened.
#[derive(Debug)]
pub struct SourceLines {
    pub name: String,
    pub lines: Option<Vec<String>>,
}

/// The page window: the slice of `s` starting at `offset` and at most
/// `limit` long, clipped to the sequence.
pub open spec fn window<T>(s: Seq<T>, offset: int, limit: int) -> Seq<T> {
    let lo = if offset <= s.len() {
        offset
    } else {
        s.len() as int
    };
    let hi = if offset + limit <= s.len() {
        offset + limit
    } else {
        s.len() as int
    };
    s.subrange(lo, hi)
}

/// The lines of the sequence that every filter of the chain includes, in
/// their original order.
pub open spec fn filtered_lines(filters: Seq<Filter>, lines: Seq<String>) -> Seq<String>
    decreases lines.len(),
{
    if lines.len() == 0 {
        Seq::empty()
    } else {
        let rest = filtered_lines(filters, lines.drop_first());
        if chain_includes(filters, lines[0]@) {
            seq![lines[0]] + rest
        } else {
            rest
        }
    }
}

/// The filter chain that an optional filter list stands for: an absent list
/// filters nothing.
pub open spec fn opt_chain(filters: Option<Vec<Filter>>) -> Seq<Filter> {
    match filters {
        Some(v) => v@,
        None => Seq::empty(),
    }
}

proof fn lemma_filtered_snoc(filters: Seq<Filter>, s: Seq<String>, x: String)
    ensures
        filtered_lines(filters, s.push(x)) == filtered_lines(filters, s) + (if chain_includes(
            filters,
            x@,
        ) {
            seq![x]
        } else {
            Seq::<String>::empty()
        }),
    decreases s.len(),
{
    assert(s.push(x)[0] == if s.len() == 0 {
        x
    } else {
        s[0]
    });
    if s.len() == 0 {
        reveal_with_fuel(filtered_lines, 3);
        assert(s.push(x).drop_first() =~= Seq::<String>::empty());
        if chain_includes(filters, x@) {
            assert(filtered_lines(filters, s.push(x)) =~= filtered_lines(filters, s) + seq![x]);
        } else {
            assert(filtered_lines(filters, s.push(x)) =~= filtered_lines(filters, s));
        }
    } else {
        assert(s.push(x).drop_first() =~= s.drop_first().push(x));
        lemma_filtered_snoc(filters, s.drop_first(), x);
        if chain_includes(filters, s[0]@) {
            assert(seq![s[0]] + (filtered_lines(filters, s.drop_first()) + (if chain_includes(
                filters,
                x@,
            ) {
                seq![x]
            } else {
                Seq::<String>::empty()
            })) =~= (seq![s[0]] + filtered_lines(filters, s.drop_first())) + (if chain_includes(
                filters,
                x@,
            ) {
                seq![x]
            } else {
                Seq::<String>::empty()
            }));
        }
    }
}

/// Selects one page of lines from a single source's content: the lines the
/// chain includes, skipping `offset` of them and keeping at most `limit`.
pub fn select_lines(
    lines: &Vec<String>,
    limit: usize,
    offset: usize,
    filters: &Option<Vec<Filter>>,
) -> (r: Vec<String>)
    ensures
        r@ == window(filtered_lines(opt_chain(*filters), lines@), offset as int, limit as int),
{
    let ghost chain = opt_chain(*filters);
    let mut acc: Vec<String> = Vec::new();
    let mut i: usize = 0;
    while i < lines.len()
        invariant
            0 <= i <= lines@.len(),
            acc@ == filtered_lines(chain, lines@.take(i as int)),
            chain == opt_chain(*filters),
        decreases lines@.len() - i,
    {
        let keep = match filters {
            Some(fv) => chain_is_include(fv, &lines[i]),
            None => true,
        };
        proof {
            assert(lines@.take(i + 1) =~= lines@.take(i as int).push(lines@[i as int]));
            lemma_filtered_snoc(chain, lines@.take(i as int), lines@[i as int]);
        }
        if keep {
            acc.push(lines[i].clone());
        }
        i = i + 1;
    }
    proof {
        assert(lines@.take(lines@.len() as int) =~= lines@);
    }
    let lo = if offset < acc.len() {
        offset
    } else {
        acc.len()
    };
    let remaining = acc.len() - lo;
    let take_n = if limit < remaining {
        limit
    } else {
        remaining
    };
    let mut out: Vec<String> = Vec::new();
    let mut j: usize = 0;
    while j < take_n
        invariant
            0 <= j <= take_n,
            lo + take_n <= acc@.len(),
            acc@.len() <= usize::MAX,
            out@ == acc@.subrange(lo as int, lo + j),
        decreases take_n - j,
    {
        proof {
            assert(acc@.subrange(lo as int, lo + j + 1) =~= acc@.subrange(lo as int, lo + j).push(
                acc@[lo + j],
            ));
        }
        out.push(acc[lo + j].clone());
        j = j + 1;
    }
    proof {
        assert(out@ =~= window(filtered_lines(chain, lines@), offset as int, limit as int));
    }
    out
}

// ---------------------------------------------------------------------------
// The multi-source paged read
// ---------------------------------------------------------------------------

/// The log entry one accepted raw line becomes: tagged with its source's
/// display name and the best-effort timestamp of its leading token.
pub open spec fn log_of(name: String, fmt: Seq<char>, line: String) -> Log {
    Log {
        date_time: parse_instant(first_token(line@), fmt),
        data: line,
        source_name: name,
    }
}

/// The accepted log entries of one source, in line order.
pub open spec fn source_logs(name: String, fmt: Seq<char>, filters: Seq<Filter>, lines: Seq<
    String,
>) -> Seq<Log>
    decreases lines.len(),
{
    if lines.len() == 0 {
        Seq::empty()
    } else {
        let rest = source_logs(name, fmt, filters, lines.drop_first());
        if chain_includes(filters, lines[0]@) {
            seq![log_of(name, fmt, lines[0])] + rest
        } else {
            rest
        }
    }
}

/// The merged working set of a paged read: the accepted entries of every
/// source, source by source in registration order.
pub open spec fn working_set(sources: Seq<SourceLines>, fmt: Seq<char>, filters: Seq<
    Filter,
>) -> Seq<Log>
    decreases sources.len(),
{
    if sources.len() == 0 {
        Seq::empty()
    } else {
        source_logs(sources[0].name, fmt, filters, sources[0].lines->0@) + working_set(
            sources.drop_first(),
            fmt,
            filters,
        )
    }
}

/// The page a read yields on readable sources: the working set, ordered by
/// derived timestamp, sliced by offset and limit.
pub open spec fn page_view(
    sources: Seq<SourceLines>,
    fmt: Seq<char>,
    filters: Seq<Filter>,
    order: Order,
    offset: int,
    limit: int,
) -> Seq<Log> {
    window(sort_by_order(order, working_set(sources, fmt, filters)), offset, limit)
}

proof fn lemma_source_logs_snoc(name: String, fmt: Seq<char>, filters: Seq<Filter>, s: Seq<
    String,
>, x: String)
    ensures
        source_logs(name, fmt, filters, s.push(x)) == source_logs(name, fmt, filters, s) + (
        if chain_includes(filters, x@) {
            seq![log_of(name, fmt, x)]
        } else {
            Seq::<Log>::empty()
        }),
    decreases s.len(),
{
    assert(s.push(x)[0] == if s.len() == 0 {
        x
    } else {
        s[0]
    });
    if s.len() == 0 {
        reveal_with_fuel(source_logs, 3);
        assert(s.push(x).drop_first() =~= Seq::<String>::empty());
        if chain_includes(filters, x@) {
            assert(source_logs(name, fmt, filters, s.push(x)) =~= source_logs(
                name,
                fmt,
                filters,
                s,
            ) + seq![log_of(name, fmt, x)]);
        } else {
            assert(source_logs(name, fmt, filters, s.push(x)) =~= source_logs(
                name,
                fmt,
                filters,
                s,
            ));
        }
    } else {
        assert(s.push(x).drop_first() =~= s.drop_first().push(x));
        lemma_source_logs_snoc(name, fmt, filters, s.drop_first(), x);
        let tail_part = if chain_includes(filters, x@) {
            seq![log_of(name, fmt, x)]
        } else {
            Seq::<Log>::empty()
        };
        if chain_includes(filters, s[0]@) {
            assert(seq![log_of(name, fmt, s[0])] + (source_logs(name, fmt, filters, s.drop_first())
                + tail_part) =~= (seq![log_of(name, fmt, s[0])] + source_logs(
                name,
                fmt,
                filters,
                s.drop_first(),
            )) + tail_part);
        }
    }
}

proof fn lemma_working_set_snoc(sources: Seq<SourceLines>, fmt: Seq<char>, filters: Seq<
    Filter,
>, src: SourceLines)
    ensures
        working_set(sources.push(src), fmt, filters) == working_set(sources, fmt, filters)
            + source_logs(src.name, fmt, filters, src.lines->0@),
    decreases sources.len(),
{
    assert(sources.push(src)[0] == if sources.len() == 0 {
        src
    } else {
        sources[0]
    });
    if sources.len() == 0 {
        reveal_with_fuel(working_set, 3);
        assert(sources.push(src).drop_first() =~= Seq::<SourceLines>::empty());
        assert(working_set(sources.push(src), fmt, filters) =~= working_set(sources, fmt, filters)
            + source_logs(src.name, fmt, filters, src.lines->0@));
    } else {
        assert(sources.push(src).drop_first() =~= sources.drop_first().push(src));
        lemma_working_set_snoc(sources.drop_first(), fmt, filters, src);
        assert(source_logs(sources[0].name, fmt, filters, sources[0].lines->0@) + (working_set(
            sources.drop_first(),
            fmt,
            filters,
        ) + source_logs(src.name, fmt, filters, src.lines->0@)) =~= (source_logs(
            sources[0].name,
            fmt,
            filters,
            sources[0].lines->0@,
        ) + working_set(sources.drop_first(), fmt, filters)) + source_logs(
            src.name,
            fmt,
            filters,
            src.lines->0@,
        ));
    }
}

/// Reads one page from the given sources: every source's lines are run
/// through the filter chain, the accepted lines of all sources are merged,
/// tagged with their source's display name and a timestamp derived from the
/// leading token with `date_format`, ordered by that timestamp under the
/// requested order, and sliced by `offset` and `limit`. A source whose
/// content is absent fails the whole read, naming the first such source —
/// also when `limit` is zero.
pub fn read_page(
    sources: &Vec<SourceLines>,
    filters: &Vec<Filter>,
    order: Order,
    limit: usize,
    offset: usize,
    date_format: &str,
) -> (r: Result<Vec<Log>, ReadError>)
    ensures
        r is Ok <==> (forall|i: int| 0 <= i < sources@.len() ==> sources@[i].lines is Some),
        r is Ok ==> r->Ok_0@ == page_view(
            sources@,
            date_format@,
            filters@,
            order,
            offset as int,
            limit as int,
        ),
        r is Err ==> exists|i: int|
            {
                &&& 0 <= i < sources@.len()
                &&& sources@[i].lines is None
                &&& (forall|k: int| 0 <= k < i ==> sources@[k].lines is Some)
                &&& r->Err_0->0@ == sources@[i].name@
            },
{
    let mut i: usize = 0;
    while i < sources.len()
        invariant
            0 <= i <= sources@.len(),
            forall|k: int| 0 <= k < i ==> sources@[k].lines is Some,
        decreases sources@.len() - i,
    {
        match &sources[i].lines {
            Some(_) => {},
            None => {
                return Err(ReadError::SourceUnavailable(sources[i].name.clone()));
            },
        }
        i = i + 1;
    }
    let ghost fmt = date_format@;
    let mut work: Vec<Log> = Vec::new();
    let mut s: usize = 0;
    while s < sources.len()
        invariant
            0 <= s <= sources@.len(),
            forall|k: int| 0 <= k < sources@.len() ==> sources@[k].lines is Some,
            work@ == working_set(sources@.take(s as int), fmt, filters@),
            fmt == date_format@,
        decreases sources@.len() - s,
    {
        let src = &sources[s];
        let lines = match &src.lines {
            Some(lv) => lv,
            None => {
                proof {
                    assert(sources@[s as int].lines is Some);
                }
                unreached()
            },
        };
        let ghost before_src = work@;
        let mut j: usize = 0;
        while j < lines.len()
            invariant
                0 <= j <= lines@.len(),
                lines@ == sources@[s as int].lines->0@,
                0 <= s < sources@.len(),
                *src == sources@[s as int],
                work@ == before_src + source_logs(
                    sources@[s as int].name,
                    fmt,
                    filters@,
                    lines@.take(j as int),
                ),
                fmt == date_format@,
            decreases lines@.len() - j,
        {
            proof {
                assert(lines@.take(j + 1) =~= lines@.take(j as int).push(lines@[j as int]));
                lemma_source_logs_snoc(
                    sources@[s as int].name,
                    fmt,
                    filters@,
                    lines@.take(j as int),
                    lines@[j as int],
                );
            }
            if chain_is_include(filters, &lines[j]) {
                let token = leading_token(lines[j].as_str());
                let ts = parse_date_token(token.as_str(), date_format);
                let entry = Log {
                    date_time: ts,
                    data: lines[j].clone(),
                    source_name: src.name.clone(),
                };
                proof {
                    assert(entry == log_of(sources@[s as int].name, fmt, lines@[j as int]));
                }
                work.push(entry);
            }
            proof {
                assert(work@ =~= before_src + source_logs(
                    sources@[s as int].name,
                    fmt,
                    filters@,
                    lines@.take(j + 1),
                ));
            }
            j = j + 1;
        }
        proof {
            assert(lines@.take(lines@.len() as int) =~= lines@);
            assert(sources@.take(s + 1) =~= sources@.take(s as int).push(sources@[s as int]));
            lemma_working_set_snoc(sources@.take(s as int), fmt, filters@, sources@[s as int]);
        }
        s = s + 1;
    }
    proof {
        assert(sources@.take(sources@.len() as int) =~= sources@);
        crate::logline::lemma_sort_len(order, work@);
    }
    sort_logs(order, &mut work);
    let lo = if offset < work.len() {
        offset
    } else {
        work.len()
    };
    let remaining = work.len() - lo;
    let take_n = if limit < remaining {
        limit
    } else {
        remaining
    };
    let ghost sorted = work@;
    let mut out: Vec<Log> = Vec::new();
    let mut j: usize = 0;
    while j < take_n
        invariant
            0 <= j <= take_n,
            lo + take_n <= work@.len(),
            work@.len() <= usize::MAX,
            work@ == sorted,
            out@ == work@.subrange(lo as int, lo + j),
        decreases take_n - j,
    {
        proof {
            assert(work@.subrange(lo as int, lo + j + 1) =~= work@.subrange(lo as int, lo + j).push(
                work@[lo + j],
            ));
        }
        out.push(work[lo + j].clone());
        j = j + 1;
    }
    proof {
        assert(out@ =~= window(
            sort_by_order(order, working_set(sources@, fmt, filters@)),
            offset as int,
            limit as int,
        ));
    }
    Ok(out)
}

} // verus!
