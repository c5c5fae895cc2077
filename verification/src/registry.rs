//! The configured registry of named sources and persisted filters, edited by
//! the caller and handed to the pipelines as immutable snapshots.

use vstd::prelude::*;

use crate::filters::Filter;

verus! {

/// Failure of the configuration store.
#[derive(Clone, Copy, Debug, PartialEq, Eq, Structural)]
pub enum MemoryError {
    FSError,
    SerdeError,
}

impl MemoryError {
    /// A short description of the error.
    pub fn message(&self) -> (r: String)
        ensures
            *self == MemoryError::FSError ==> r@ == "File system error"@,
            *self == MemoryError::SerdeError ==> r@ == "Serialization/deserialization error"@,
    {
        match self {
            MemoryError::FSError => "File system error".to_owned(),
            MemoryError::SerdeError => "Serialization/deserialization error".to_owned(),
        }
    }
}

/// One named source: a file path and a display name.
#[derive(Debug)]
pub struct Path {
    pub path: String,
    pub name: String,
}

impl Clone for Path {
    fn clone(&self) -> (r: Self)
        ensures
            r == *self,
    {
        Path { path: self.path.clone(), name: self.name.clone() }
    }
}

impl Path {
    pub fn new(path: String, name: String) -> (r: Self)
        ensures
            r == (Path { path, name }),
    {
        Self { path, name }
    }
}

/// The in-memory configuration: the registered paths and the filter chain.
pub struct Memory {
    pub paths: Vec<Path>,
    pub filters: Vec<Filter>,
}

impl Memory {
    /// The empty configuration, used when no prior configuration exists.
    pub fn empty() -> (r: Memory)
        ensures
            r.paths@.len() == 0,
            r.filters@.len() == 0,
    {
        Memory { paths: Vec::new(), filters: Vec::new() }
    }

    /// Appends a filter to the chain.
    pub fn add_filter(&mut self, filter: Filter)
        ensures
            final(self).filters@ == old(self).filters@.push(filter),
            final(self).paths@ == old(self).paths@,
    {
        self.filters.push(filter);
    }

    /// Registers one more path.
    pub fn add_path(&mut self, path: Path)
        ensures
            final(self).paths@ == old(self).paths@.push(path),
            final(self).filters@ == old(self).filters@,
    {
        self.paths.push(path);
    }

    /// Removes the filter at `index`; an out-of-bounds index is reported, not
    /// a panic.
    pub fn remove_filter(&mut self, index: usize) -> (r: Result<(), MemoryError>)
        ensures
            r is Ok <==> index < old(self).filters@.len(),
            r is Ok ==> final(self).filters@ == old(self).filters@.remove(index as int),
            r is Err ==> *final(self) == *old(self) && r->Err_0 == MemoryError::FSError,
            final(self).paths@ == old(self).paths@,
    {
        if index < self.filters.len() {
            self.filters.remove(index);
            Ok(())
        } else {
            Err(MemoryError::FSError)
        }
    }

    /// Removes the path at `index`; an out-of-bounds index is reported, not a
    /// panic.
    pub fn remove_path(&mut self, index: usize) -> (r: Result<(), MemoryError>)
        ensures
            r is Ok <==> index < old(self).paths@.len(),
            r is Ok ==> final(self).paths@ == old(self).paths@.remove(index as int),
            r is Err ==> *final(self) == *old(self) && r->Err_0 == MemoryError::FSError,
            final(self).filters@ == old(self).filters@,
    {
        if index < self.paths.len() {
            self.paths.remove(index);
            Ok(())
        } else {
            Err(MemoryError::FSError)
        }
    }

    pub fn get_paths(&self) -> (r: &Vec<Path>)
        ensures
            r@ == self.paths@,
    {
        &self.paths
    }

    pub fn get_filters(&self) -> (r: &Vec<Filter>)
        ensures
            r@ == self.filters@,
    {
        &self.filters
    }

    /// Replaces the path at `index`; an out-of-bounds index is reported, not
    /// a panic.
    pub fn update_path(&mut self, index: usize, path: Path) -> (r: Result<(), MemoryError>)
        ensures
            r is Ok <==> index < old(self).paths@.len(),
            r is Ok ==> final(self).paths@ == old(self).paths@.update(index as int, path),
            r is Err ==> *final(self) == *old(self) && r->Err_0 == MemoryError::FSError,
            final(self).filters@ == old(self).filters@,
    {
        if index < self.paths.len() {
            self.paths.set(index, path);
            Ok(())
        } else {
            Err(MemoryError::FSError)
        }
    }

    /// Replaces the filter at `index`; an out-of-bounds index is reported,
    /// not a panic.
    pub fn update_filter(&mut self, index: usize, filter: Filter) -> (r: Result<(), MemoryError>)
        ensures
            r is Ok <==> index < old(self).filters@.len(),
            r is Ok ==> final(self).filters@ == old(self).filters@.update(index as int, filter),
            r is Err ==> *final(self) == *old(self) && r->Err_0 == MemoryError::FSError,
            final(self).paths@ == old(self).paths@,
    {
        if index < self.filters.len() {
            self.filters.set(index, filter);
            Ok(())
        } else {
            Err(MemoryError::FSError)
        }
    }
}

/// Appends a filter to a loaded configuration; the store itself is the
/// caller's, which passes the configuration in and persists it back.
pub fn add_filter(memory: &mut Memory, filter: Filter) -> (r: Result<(), MemoryError>)
    ensures
        r is Ok,
        final(memory).filters@ == old(memory).filters@.push(filter),
        final(memory).paths@ == old(memory).paths@,
{
    memory.add_filter(filter);
    Ok(())
}

/// Registers one more path in a loaded configuration; the store itself is
/// the caller's, which passes the configuration in and persists it back.
pub fn add_path(memory: &mut Memory, path: Path) -> (r: Result<(), MemoryError>)
    ensures
        r is Ok,
        final(memory).paths@ == old(memory).paths@.push(path),
        final(memory).filters@ == old(memory).filters@,
{
    memory.add_path(path);
    Ok(())
}

} // verus!
