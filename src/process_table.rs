//! A refreshable snapshot of the local process table, backed by `sysinfo`.
use vstd::prelude::*;
use sysinfo::System;

use crate::matching::{any_contains, any_equals};

verus! {

#[verifier::external_type_specification]
#[verifier::external_body]
pub struct ExSystem(System);

/// The names of the processes that a `System` holds in its cache.
pub uninterp spec fn process_names(s: System) -> Set<Seq<char>>;

/// Relies on `sysinfo::System::new`: a system with nothing loaded, so its
/// process cache is empty.
pub assume_specification[ System::new ]() -> (r: System)
    ensures
        process_names(r) == Set::<Seq<char>>::empty(),
;

/// Relies on `sysinfo::System::refresh_processes`: reloads the process cache
/// from the operating system; what it then holds depends on the machine.
pub assume_specification[ System::refresh_processes ](s: &mut System);

/// Relies on `sysinfo::System::processes_by_name`: it yields the cached
/// processes whose name contains `name`.
#[verifier::external_body]
fn has_process_containing(s: &System, name: &str) -> (r: bool)
    ensures
        r == any_contains(process_names(*s), name@),
{
    s.processes_by_name(name).next().is_some()
}

/// Relies on `sysinfo::System::processes_by_exact_name`: it yields the cached
/// processes whose name equals `name`.
#[verifier::external_body]
fn has_process_named(s: &System, name: &str) -> (r: bool)
    ensures
        r == any_equals(process_names(*s), name@),
{
    s.processes_by_exact_name(name).next().is_some()
}

/// A cache of the local process table, refreshed on demand.
pub struct ProcessTable {
    system: System,
}

impl View for ProcessTable {
    type V = Set<Seq<char>>;

    /// The names of the processes in the cache.
    closed spec fn view(&self) -> Set<Seq<char>> {
        process_names(self.system)
    }
}

impl ProcessTable {
    /// An empty snapshot: nothing is loaded until the first refresh.
    pub fn new() -> (r: ProcessTable)
        ensures
            r@ == Set::<Seq<char>>::empty(),
    {
        ProcessTable { system: System::new() }
    }

    /// Re-reads the process table of the operating system, replacing the
    /// cache. Its new contents are whatever the system reports.
    pub fn refresh(&mut self) {
        self.system.refresh_processes();
    }

    /// Whether a cached process name contains `name` (case-sensitive).
    /// Does not refresh.
    pub fn find_by_substring(&self, name: &str) -> (r: bool)
        ensures
            r == any_contains(self@, name@),
    {
        has_process_containing(&self.system, name)
    }

    /// Whether a cached process name is exactly `name`. Does not refresh.
    pub fn find_by_exact(&self, name: &str) -> (r: bool)
        ensures
            r == any_equals(self@, name@),
    {
        has_process_named(&self.system, name)
    }
}

} // verus!
