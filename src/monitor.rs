//! Liveness probes: check the local system for a service by name, either by
//! substring (`Service`) or by exact name (`ExactService`).
use vstd::prelude::*;
use vstd::string::StringExecFns;

use crate::matching::{any_contains, any_equals, contains_seq, find_by_exact, find_by_substring, name_set};
use crate::process_table::ProcessTable;
use crate::signal::{down_message, expected_signal, report, Action, ActionView};

verus! {

/// The signal of a substring probe for `process_name` over a snapshot `names`.
pub open spec fn substring_signal(process_name: Seq<char>, names: Set<Seq<char>>) -> ActionView {
    expected_signal(process_name, any_contains(names, process_name))
}

/// The signal of an exact probe for `process_name` over a snapshot `names`.
pub open spec fn exact_signal(process_name: Seq<char>, names: Set<Seq<char>>) -> ActionView {
    expected_signal(process_name, any_equals(names, process_name))
}

/// Checks the local system for a service whose process name contains
/// `process_name`.
pub struct Service {
    pub process_name: String,
    system: ProcessTable,
}

/// Checks the local system for a service whose process name is exactly
/// `process_name`.
pub struct ExactService {
    pub process_name: String,
    system: ProcessTable,
}

impl Service {
    /// A probe for `process_name`, kept verbatim, with an empty snapshot.
    pub fn new(process_name: &str) -> (r: Service)
        ensures
            r.target() == process_name@,
            r.snapshot() == Set::<Seq<char>>::empty(),
    {
        Service { process_name: String::from_str(process_name), system: ProcessTable::new() }
    }

    /// The name the probe looks for.
    pub closed spec fn target(&self) -> Seq<char> {
        self.process_name@
    }

    /// The process names of the probe's current snapshot.
    pub closed spec fn snapshot(&self) -> Set<Seq<char>> {
        self.system@
    }

    /// Refreshes the snapshot, then reports `Nothing` if a process name in it
    /// contains the target, and `Notify` with `"<process_name> is down"` if
    /// none does.
    pub fn check(&mut self) -> (r: Action)
        ensures
            final(self).target() == old(self).target(),
            r@ == substring_signal(old(self).target(), final(self).snapshot()),
    {
        self.system.refresh();
        let up = self.system.find_by_substring(self.process_name.as_str());
        report(self.process_name.as_str(), up)
    }

    /// The signal that a check reports when the process table holds `names`.
    pub fn check_names(&self, names: &Vec<String>) -> (r: Action)
        ensures
            r@ == substring_signal(self.target(), name_set(names@)),
    {
        let up = find_by_substring(names, self.process_name.as_str());
        report(self.process_name.as_str(), up)
    }
}

impl ExactService {
    /// A probe for `process_name`, kept verbatim, with an empty snapshot.
    pub fn new(process_name: &str) -> (r: ExactService)
        ensures
            r.target() == process_name@,
            r.snapshot() == Set::<Seq<char>>::empty(),
    {
        ExactService { process_name: String::from_str(process_name), system: ProcessTable::new() }
    }

    /// The name the probe looks for.
    pub closed spec fn target(&self) -> Seq<char> {
        self.process_name@
    }

    /// The process names of the probe's current snapshot.
    pub closed spec fn snapshot(&self) -> Set<Seq<char>> {
        self.system@
    }

    /// Refreshes the snapshot, then reports `Nothing` if a process name in it
    /// equals the target, and `Notify` with `"<process_name> is down"` if none
    /// does.
    pub fn check(&mut self) -> (r: Action)
        ensures
            final(self).target() == old(self).target(),
            r@ == exact_signal(old(self).target(), final(self).snapshot()),
    {
        self.system.refresh();
        let up = self.system.find_by_exact(self.process_name.as_str());
        report(self.process_name.as_str(), up)
    }

    /// The signal that a check reports when the process table holds `names`.
    pub fn check_names(&self, names: &Vec<String>) -> (r: Action)
        ensures
            r@ == exact_signal(self.target(), name_set(names@)),
    {
        let up = find_by_exact(names, self.process_name.as_str());
        report(self.process_name.as_str(), up)
    }
}

/// A substring probe reports `Nothing` whenever some process name of the
/// snapshot contains its target.
pub proof fn lemma_substring_present_is_up(p: Seq<char>, names: Set<Seq<char>>, n: Seq<char>)
    requires
        names.contains(n),
        contains_seq(n, p),
    ensures
        substring_signal(p, names) == ActionView::Nothing,
{
}

/// A substring probe reports `Notify` with `"<p> is down"` whenever no process
/// name of the snapshot contains its target `p`.
pub proof fn lemma_substring_absent_is_down(p: Seq<char>, names: Set<Seq<char>>)
    requires
        forall|n: Seq<char>| names.contains(n) ==> !contains_seq(n, p),
    ensures
        substring_signal(p, names) == (ActionView::Notify { diagnostic: Some(down_message(p)) }),
{
}

/// An exact probe reports `Nothing` if and only if some process name of the
/// snapshot equals its target, and `Notify` with `"<p> is down"` otherwise.
pub proof fn lemma_exact_up_iff_equal(p: Seq<char>, names: Set<Seq<char>>)
    ensures
        (exact_signal(p, names) == ActionView::Nothing) <==> names.contains(p),
        !names.contains(p) ==> exact_signal(p, names) == (ActionView::Notify {
            diagnostic: Some(down_message(p)),
        }),
{
}

/// Two checks over the same process table report the same signal, for
/// either policy.
pub proof fn lemma_check_same_table_same_signal(
    p: Seq<char>,
    first: Set<Seq<char>>,
    second: Set<Seq<char>>,
)
    requires
        first == second,
    ensures
        substring_signal(p, first) == substring_signal(p, second),
        exact_signal(p, first) == exact_signal(p, second),
{
}

/// Over an empty snapshot either probe reports `Notify` with `"<p> is down"`,
/// whatever its target `p`.
pub proof fn lemma_empty_snapshot_is_down(p: Seq<char>)
    ensures
        substring_signal(p, Set::empty()) == (ActionView::Notify {
            diagnostic: Some(down_message(p)),
        }),
        exact_signal(p, Set::empty()) == (ActionView::Notify { diagnostic: Some(down_message(p)) }),
{
}

} // verus!
