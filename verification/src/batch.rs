//! The paged-read request object: page size, order, sources, filters and
//! offset, immutable per request, plus the stream wrapper that applies a
//! request to lines.

use vstd::prelude::*;

use crate::filters::{chain_includes, chain_is_include, Filter};
use crate::logline::{sort_by_order, sort_logs, Log, Order};
use crate::pager::{page_view, read_page, ReadError, SourceLines};
use crate::registry::Path;

verus! {

/// One watched or readable source inside a request.
#[derive(Debug)]
pub struct Source {
    pub path: Path,
    pub size: Option<usize>,
}

impl Clone for Source {
    fn clone(&self) -> (r: Self)
        ensures
            r == *self,
    {
        Source { path: self.path.clone(), size: self.size }
    }
}

impl Source {
    pub fn new(path: String, name: String) -> (r: Self)
        ensures
            r == (Source { path: Path { path, name }, size: None }),
    {
        Self { path: Path { path, name }, size: None }
    }

    pub fn get_name(&self) -> (r: String)
        ensures
            r@ == self.path.name@,
    {
        self.path.name.clone()
    }

    pub fn get_path(&self) -> (r: String)
        ensures
            r@ == self.path.path@,
    {
        self.path.path.clone()
    }
}

/// One paged-read request: a value object built anew for each page turn.
pub struct Batch {
    pub size: usize,
    pub order: Order,
    pub sources: Vec<Source>,
    pub filters: Vec<Filter>,
    pub offset: Option<usize>,
}

impl Batch {
    /// Builds a request; absent source or filter lists mean empty ones.
    pub fn new(
        size: usize,
        order: Order,
        sources: Option<Vec<Source>>,
        filters: Option<Vec<Filter>>,
        offset: Option<usize>,
    ) -> (r: Self)
        ensures
            r.size == size,
            r.order == order,
            r.offset == offset,
            match sources {
                Some(s) => r.sources@ == s@,
                None => r.sources@.len() == 0,
            },
            match filters {
                Some(f) => r.filters@ == f@,
                None => r.filters@.len() == 0,
            },
    {
        let s = match sources {
            Some(s) => s,
            None => Vec::new(),
        };
        let f = match filters {
            Some(f) => f,
            None => Vec::new(),
        };
        Self { size, order, sources: s, filters: f, offset }
    }

    /// Adds one more source, identified by its path, to the request.
    pub fn add_path(&mut self, p: Path)
        ensures
            final(self).sources@ == old(self).sources@.push(Source { path: p, size: None }),
            final(self).size == old(self).size,
            final(self).order == old(self).order,
            final(self).filters@ == old(self).filters@,
            final(self).offset == old(self).offset,
    {
        let s = Source { path: p, size: None };
        self.sources.push(s);
    }

    pub fn len_sources(&self) -> (r: usize)
        ensures
            r == self.sources@.len(),
    {
        self.sources.len()
    }

    pub fn len_filters(&self) -> (r: usize)
        ensures
            r == self.filters@.len(),
    {
        self.filters.len()
    }

    /// The file paths of the request's sources, in registration order.
    pub fn get_paths(&self) -> (r: Vec<String>)
        ensures
            r@.len() == self.sources@.len(),
            forall|i: int| 0 <= i < r@.len() ==> r@[i]@ == self.sources@[i].path.path@,
    {
        let mut paths: Vec<String> = Vec::new();
        let mut i: usize = 0;
        while i < self.sources.len()
            invariant
                0 <= i <= self.sources@.len(),
                paths@.len() == i,
                forall|k: int| 0 <= k < i ==> paths@[k]@ == self.sources@[k].path.path@,
            decreases self.sources@.len() - i,
        {
            paths.push(self.sources[i].get_path());
            i = i + 1;
        }
        paths
    }

    /// A copy of the request's filter chain.
    pub fn get_filters(&self) -> (r: Vec<Filter>)
        ensures
            r@ == self.filters@,
    {
        let mut out: Vec<Filter> = Vec::new();
        let mut i: usize = 0;
        while i < self.filters.len()
            invariant
                0 <= i <= self.filters@.len(),
                out@ =~= self.filters@.take(i as int),
            decreases self.filters@.len() - i,
        {
            out.push(self.filters[i].clone());
            i = i + 1;
        }
        proof {
            assert(self.filters@.take(self.filters@.len() as int) =~= self.filters@);
        }
        out
    }

    /// Runs this request against the sources' content: the paged read with
    /// this request's filters, order, page size as the limit, and offset (an
    /// absent offset reads from the start). The content must list one entry
    /// per source; an unreadable one fails the whole read.
    pub fn read_page(&self, data: &Vec<SourceLines>, date_format: &str) -> (r: Result<
        Vec<Log>,
        ReadError,
    >)
        ensures
            r is Ok <==> (forall|i: int| 0 <= i < data@.len() ==> data@[i].lines is Some),
            r is Ok ==> r->Ok_0@ == page_view(
                data@,
                date_format@,
                self.filters@,
                self.order,
                match self.offset {
                    Some(o) => o as int,
                    None => 0,
                },
                self.size as int,
            ),
            r is Err ==> exists|i: int|
                {
                    &&& 0 <= i < data@.len()
                    &&& data@[i].lines is None
                    &&& (forall|k: int| 0 <= k < i ==> data@[k].lines is Some)
                    &&& r->Err_0->0@ == data@[i].name@
                },
    {
        let off = match self.offset {
            Some(o) => o,
            None => 0,
        };
        read_page(data, &self.filters, self.order, self.size, off, date_format)
    }

    /// Sorts the lines by their derived timestamp under the requested order.
    pub fn sort(&self, logs: &mut Vec<Log>)
        ensures
            final(logs)@ == sort_by_order(self.order, old(logs)@),
    {
        sort_logs(self.order, logs);
    }
}

/// One running delivery of lines under a fixed request.
pub struct Stream {
    pub batch: Batch,
}

impl Stream {
    /// Wraps a request; the delivery channel itself is the caller's.
    pub fn new(batch: Batch) -> (r: Self)
        ensures
            r.batch == batch,
    {
        Self { batch }
    }

    /// The decision of `send`: whether the request's filter chain lets the
    /// line through to the delivery channel.
    pub fn accepts(&self, log: &String) -> (r: bool)
        ensures
            r == chain_includes(self.batch.filters@, log@),
    {
        chain_is_include(&self.batch.filters, log)
    }

    /// Sorts the collected lines under the request's order and trims them to
    /// one page of the request's size.
    pub fn page(&self, logs: &mut Vec<Log>)
        ensures
            old(logs)@.len() <= self.batch.size ==> final(logs)@ == sort_by_order(
                self.batch.order,
                old(logs)@,
            ),
            old(logs)@.len() > self.batch.size ==> final(logs)@ == sort_by_order(
                self.batch.order,
                old(logs)@,
            ).take(self.batch.size as int),
    {
        proof {
            crate::logline::lemma_sort_len(self.batch.order, logs@);
        }
        self.batch.sort(logs);
        if logs.len() > self.batch.size {
            logs.truncate(self.batch.size);
        }
    }
}

} // verus!
