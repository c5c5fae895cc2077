//! The live-tail engine's verified core: per-source cursors, reassembly of
//! complete lines out of appended bytes across partial writes, and filtering
//! of the lines that are emitted.

use vstd::prelude::*;
use vstd::utf8::{decode_utf8, valid_utf8};

use crate::filters::{chain_includes, chain_is_include, Filter};

verus! {

/// What decoding a byte sequence to text yields.
pub uninterp spec fn decoded(b: Seq<u8>) -> Seq<char>;

/// Relies on String::from_utf8_lossy: the decoding is a function of the bytes
/// alone, and valid UTF-8 decodes exactly.
#[verifier::external_body]
fn decode_bytes(b: &Vec<u8>) -> (r: String)
    ensures
        r@ == decoded(b@),
        valid_utf8(b@) ==> r@ == decode_utf8(b@),
{
    String::from_utf8_lossy(b.as_slice()).into_owned()
}

/// The line-feed byte that terminates a complete line.
pub const LINE_BREAK: u8 = 10;

/// Splits a byte stream into its complete lines and the trailing
/// unterminated fragment, reading the bytes left to right: `.0` is the list
/// of complete lines without their terminators, `.1` the fragment after the
/// last terminator.
pub open spec fn scan_lines(b: Seq<u8>) -> (Seq<Seq<u8>>, Seq<u8>)
    decreases b.len(),
{
    if b.len() == 0 {
        (Seq::empty(), Seq::empty())
    } else {
        let prev = scan_lines(b.drop_last());
        if b.last() == LINE_BREAK {
            (prev.0.push(prev.1), Seq::empty())
        } else {
            (prev.0, prev.1.push(b.last()))
        }
    }
}

/// The decoded text of the complete lines that the filter chain lets
/// through, in arrival order.
pub open spec fn emitted_lines(filters: Seq<Filter>, lines: Seq<Seq<u8>>) -> Seq<Seq<char>>
    decreases lines.len(),
{
    if lines.len() == 0 {
        Seq::empty()
    } else {
        let prev = emitted_lines(filters, lines.drop_last());
        if chain_includes(filters, decoded(lines.last())) {
            prev.push(decoded(lines.last()))
        } else {
            prev
        }
    }
}

/// Per-source read state of the live tail: the byte offset of the first byte
/// not yet consumed as a complete line, the pending unterminated fragment
/// read after that offset, and whether an incremental read on this source
/// has failed.
#[derive(Debug)]
pub struct TrackedCursor {
    pub path: String,
    pub position: u64,
    pub pending: Vec<u8>,
    pub failed: bool,
}

/// Feeds newly appended bytes through one cursor: every line completed by
/// the new data (the pending fragment first) is decoded and run through the
/// filter chain, accepted lines come back in arrival order, the byte offset
/// advances past every consumed terminator (saturating at the top of `u64`),
/// and a trailing unterminated fragment is retained, unemitted, in the
/// pending buffer.
pub fn feed(cursor: &mut TrackedCursor, data: &Vec<u8>, filters: &Vec<Filter>) -> (out: Vec<
    String,
>)
    ensures
        final(cursor).path == old(cursor).path,
        final(cursor).failed == old(cursor).failed,
        final(cursor).pending@ == scan_lines(old(cursor).pending@ + data@).1,
        final(cursor).position == {
            let consumed = old(cursor).pending@.len() + data@.len() - scan_lines(
                old(cursor).pending@ + data@,
            ).1.len();
            if old(cursor).position + consumed <= u64::MAX {
                (old(cursor).position + consumed) as u64
            } else {
                u64::MAX
            }
        },
        ({
            let emitted = emitted_lines(filters@, scan_lines(old(cursor).pending@ + data@).0);
            out@.len() == emitted.len() && (forall|k: int|
                0 <= k < out@.len() ==> out@[k]@ == emitted[k])
        }),
{
    let ghost combined = old(cursor).pending@ + data@;
    let mut buf = cursor.pending.clone();
    let mut d: usize = 0;
    while d < data.len()
        invariant
            0 <= d <= data@.len(),
            buf@ == old(cursor).pending@ + data@.take(d as int),
        decreases data@.len() - d,
    {
        buf.push(data[d]);
        proof {
            assert(old(cursor).pending@ + data@.take(d + 1) =~= (old(cursor).pending@
                + data@.take(d as int)).push(data@[d as int]));
        }
        d = d + 1;
    }
    proof {
        assert(data@.take(data@.len() as int) =~= data@);
        assert(buf@ == combined);
    }
    let mut out: Vec<String> = Vec::new();
    let mut cur: Vec<u8> = Vec::new();
    let mut consumed: u64 = 0;
    let mut i: usize = 0;
    let buf_len = buf.len();
    while i < buf_len
        invariant
            0 <= i <= buf@.len(),
            buf_len == buf@.len(),
            buf@ == old(cursor).pending@ + data@,
            cur@ == scan_lines(buf@.take(i as int)).1,
            consumed == i - cur@.len(),
            ({
                let emitted = emitted_lines(filters@, scan_lines(buf@.take(i as int)).0);
                out@.len() == emitted.len() && (forall|k: int|
                    0 <= k < out@.len() ==> out@[k]@ == emitted[k])
            }),
        decreases buf@.len() - i,
    {
        proof {
            assert(buf@.take(i + 1).drop_last() =~= buf@.take(i as int));
            assert(buf@.take(i + 1).last() == buf@[i as int]);
        }
        let x = buf[i];
        if x == LINE_BREAK {
            proof {
                let prev = scan_lines(buf@.take(i as int));
                assert(prev.0.push(prev.1).drop_last() =~= prev.0);
                assert(prev.0.push(prev.1).last() == prev.1);
            }
            let line = decode_bytes(&cur);
            consumed = consumed + (cur.len() as u64) + 1;
            if chain_is_include(filters, &line) {
                out.push(line);
            }
            cur.clear();
        } else {
            cur.push(x);
        }
        i = i + 1;
    }
    proof {
        assert(combined == buf@);
        assert(combined.take(combined.len() as int) =~= combined);
    }
    cursor.pending = cur;
    cursor.position = cursor.position.saturating_add(consumed);
    out
}

/// Whether a cursor is fresh for its source: positioned at the recorded end
/// of the file, with nothing pending and nothing failed.
pub open spec fn fresh_cursor(c: TrackedCursor, path: String, size: u64) -> bool {
    c.path == path && c.position == size && c.pending@.len() == 0 && !c.failed
}

/// The abstract state of one cursor: path text, offset, pending bytes,
/// failure flag.
pub open spec fn cursor_model(c: TrackedCursor) -> (Seq<char>, u64, Seq<u8>, bool) {
    (c.path@, c.position, c.pending@, c.failed)
}

/// The abstract state a freshly started session must have: one fresh cursor
/// per source, at the source's recorded size.
pub open spec fn start_model(inputs: Seq<(String, u64)>) -> Seq<(Seq<char>, u64, Seq<u8>, bool)> {
    Seq::new(inputs.len(), |i: int| (inputs[i].0@, inputs[i].1, Seq::<u8>::empty(), false))
}

/// One running live-tail session: the cursors of every watched source,
/// exclusively owned by the session.
#[derive(Debug)]
pub struct TailSession {
    pub cursors: Vec<TrackedCursor>,
}

/// The abstract state of a session: the models of its cursors, in watch
/// order.
pub open spec fn session_model(s: TailSession) -> Seq<(Seq<char>, u64, Seq<u8>, bool)> {
    Seq::new(s.cursors@.len(), |i: int| cursor_model(s.cursors@[i]))
}

/// The first cursor whose path text equals `path`, or -1 when none does.
pub open spec fn cursor_index(s: Seq<TrackedCursor>, path: Seq<char>) -> int
    decreases s.len(),
{
    if s.len() == 0 {
        -1
    } else if s[0].path@ == path {
        0
    } else {
        let r = cursor_index(s.drop_first(), path);
        if r < 0 {
            -1
        } else {
            r + 1
        }
    }
}

proof fn lemma_cursor_index_at(s: Seq<TrackedCursor>, path: Seq<char>, i: int)
    requires
        0 <= i <= s.len(),
        forall|k: int| 0 <= k < i ==> s[k].path@ != path,
        i == s.len() || s[i].path@ == path,
    ensures
        i == s.len() ==> cursor_index(s, path) == -1,
        i < s.len() ==> cursor_index(s, path) == i,
    decreases i, s.len(),
{
    if s.len() == 0 {
    } else if s[0].path@ == path {
    } else {
        lemma_cursor_index_at(s.drop_first(), path, i - 1);
    }
}

impl TailSession {
    /// Opens a session on the given sources, each a path with the file's
    /// size at startup: one fresh cursor per source, positioned at that end.
    /// Watch registration itself is the caller's; a registration failure
    /// means this session is dropped unused, so that nothing is left
    /// running.
    pub fn start(inputs: &Vec<(String, u64)>) -> (r: TailSession)
        ensures
            session_model(r) == start_model(inputs@),
            r.cursors@.len() == inputs@.len(),
            forall|i: int|
                0 <= i < inputs@.len() ==> fresh_cursor(
                    r.cursors@[i],
                    inputs@[i].0,
                    inputs@[i].1,
                ),
    {
        let mut cursors: Vec<TrackedCursor> = Vec::new();
        let mut i: usize = 0;
        while i < inputs.len()
            invariant
                0 <= i <= inputs@.len(),
                cursors@.len() == i,
                forall|k: int|
                    0 <= k < i ==> fresh_cursor(cursors@[k], inputs@[k].0, inputs@[k].1),
            decreases inputs@.len() - i,
        {
            let c = TrackedCursor {
                path: inputs[i].0.clone(),
                position: inputs[i].1,
                pending: Vec::new(),
                failed: false,
            };
            cursors.push(c);
            i = i + 1;
        }
        let r = TailSession { cursors };
        proof {
            assert(session_model(r) =~~= start_model(inputs@));
        }
        r
    }

    /// Handles one change notification: the new bytes of the changed path
    /// are fed through that path's cursor, and the accepted complete lines
    /// come back. A path without a live cursor, or whose cursor is marked
    /// failed, yields nothing and changes nothing.
    pub fn on_change(&mut self, path: &String, data: &Vec<u8>, filters: &Vec<Filter>) -> (out: Vec<
        String,
    >)
        ensures
            final(self).cursors@.len() == old(self).cursors@.len(),
            ({
                let idx = cursor_index(old(self).cursors@, path@);
                if idx < 0 || old(self).cursors@[idx].failed {
                    final(self).cursors@ == old(self).cursors@ && out@.len() == 0
                } else {
                    let c = old(self).cursors@[idx];
                    let emitted = emitted_lines(filters@, scan_lines(c.pending@ + data@).0);
                    &&& (forall|k: int|
                        0 <= k < old(self).cursors@.len() && k != idx ==> final(self).cursors@[k]
                            == old(self).cursors@[k])
                    &&& final(self).cursors@[idx].path == c.path
                    &&& final(self).cursors@[idx].failed == c.failed
                    &&& final(self).cursors@[idx].pending@ == scan_lines(c.pending@ + data@).1
                    &&& final(self).cursors@[idx].position == {
                        let consumed = c.pending@.len() + data@.len() - scan_lines(
                            c.pending@ + data@,
                        ).1.len();
                        if c.position + consumed <= u64::MAX {
                            (c.position + consumed) as u64
                        } else {
                            u64::MAX
                        }
                    }
                    &&& out@.len() == emitted.len()
                    &&& (forall|k: int| 0 <= k < out@.len() ==> out@[k]@ == emitted[k])
                }
            }),
    {
        let mut i: usize = 0;
        while i < self.cursors.len()
            invariant
                0 <= i <= self.cursors@.len(),
                self.cursors@ == old(self).cursors@,
                forall|k: int| 0 <= k < i ==> self.cursors@[k].path@ != path@,
            decreases self.cursors@.len() - i,
        {
            if self.cursors[i].path.eq(path) {
                proof {
                    lemma_cursor_index_at(self.cursors@, path@, i as int);
                }
                if self.cursors[i].failed {
                    return Vec::new();
                }
                let mut cursor = self.cursors.remove(i);
                let out = feed(&mut cursor, data, filters);
                self.cursors.insert(i, cursor);
                proof {
                    assert(self.cursors@ =~= old(self).cursors@.update(i as int, cursor));
                }
                return out;
            }
            i = i + 1;
        }
        proof {
            lemma_cursor_index_at(self.cursors@, path@, self.cursors@.len() as int);
        }
        Vec::new()
    }

    /// Marks the cursor of the given path failed, excluding that source from
    /// further output until a restart; the other cursors are untouched.
    pub fn mark_failed(&mut self, path: &String)
        ensures
            final(self).cursors@.len() == old(self).cursors@.len(),
            ({
                let idx = cursor_index(old(self).cursors@, path@);
                if idx < 0 {
                    final(self).cursors@ == old(self).cursors@
                } else {
                    let c = old(self).cursors@[idx];
                    &&& (forall|k: int|
                        0 <= k < old(self).cursors@.len() && k != idx ==> final(self).cursors@[k]
                            == old(self).cursors@[k])
                    &&& final(self).cursors@[idx].path == c.path
                    &&& final(self).cursors@[idx].position == c.position
                    &&& final(self).cursors@[idx].pending == c.pending
                    &&& final(self).cursors@[idx].failed
                }
            }),
    {
        let mut i: usize = 0;
        while i < self.cursors.len()
            invariant
                0 <= i <= self.cursors@.len(),
                self.cursors@ == old(self).cursors@,
                forall|k: int| 0 <= k < i ==> self.cursors@[k].path@ != path@,
            decreases self.cursors@.len() - i,
        {
            if self.cursors[i].path.eq(path) {
                proof {
                    lemma_cursor_index_at(self.cursors@, path@, i as int);
                }
                let mut cursor = self.cursors.remove(i);
                cursor.failed = true;
                self.cursors.insert(i, cursor);
                proof {
                    assert(self.cursors@ =~= old(self).cursors@.update(i as int, cursor));
                }
                return ;
            }
            i = i + 1;
        }
        proof {
            lemma_cursor_index_at(self.cursors@, path@, self.cursors@.len() as int);
        }
    }

    /// Ends the session: every cursor and its pending buffer is dropped with
    /// it. Releasing the filesystem watches and file handles is the
    /// caller's, done before the session is reported stopped.
    pub fn cancel(self) {
    }

    /// How many sources the session watches.
    pub fn cursor_count(&self) -> (r: usize)
        ensures
            r == self.cursors@.len(),
    {
        self.cursors.len()
    }
}

/// Law: a session started again after an earlier one was cancelled is
/// indistinguishable from a first start. The start state is a function of
/// the sources and their recorded sizes alone, and every cursor of it is
/// fresh: positioned at the recorded end, nothing pending, not failed.
pub proof fn lemma_restart_identical(
    first: TailSession,
    second: TailSession,
    inputs: Seq<(String, u64)>,
)
    requires
        session_model(first) == start_model(inputs),
        session_model(second) == start_model(inputs),
    ensures
        session_model(second) == session_model(first),
        forall|i: int|
            0 <= i < inputs.len() ==> (#[trigger] start_model(inputs)[i].2.len() == 0
                && !start_model(inputs)[i].3),
{
}

/// Law: a write without a line break completes no line — every byte of it
/// is retained in the pending fragment, and nothing is emitted for it.
pub proof fn lemma_fragment_held_back(b: Seq<u8>)
    requires
        forall|i: int| 0 <= i < b.len() ==> b[i] != LINE_BREAK,
    ensures
        scan_lines(b).0 =~= Seq::<Seq<u8>>::empty(),
        scan_lines(b).1 =~= b,
    decreases b.len(),
{
    if b.len() > 0 {
        lemma_fragment_held_back(b.drop_last());
        assert(b.drop_last().push(b.last()) =~= b);
    }
}

} // verus!
