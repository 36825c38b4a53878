//! Tracked processes and their handle discipline: a resolved process owns
//! one operating-system handle, hands it out exactly once for release, and
//! every per-cycle path accounts for every handle it was given.

use vstd::prelude::*;

use crate::names::name_matches;
use crate::names::spec_name_matches;
use crate::state::spec_verdict;
use crate::state::CycleVerdict;
use crate::state::LivenessState;
use crate::state::Observation;

verus! {

/// Exit code handed to the terminated process when no other is asked for.
pub const DEFAULT_EXIT_CODE: u32 = 1;

/// The mathematical content of a tracked process: its identifier, its
/// resolved display name, and the handle it still holds, if any.
pub struct TrackedProcessView {
    pub pid: u32,
    pub name: Seq<char>,
    pub handle: Option<u64>,
}

/// A successfully resolved process: identifier, best-effort display name,
/// and exclusive ownership of the operating-system handle it was opened
/// with. The handle leaves through `release` at most once.
pub struct TrackedProcess {
    /// Identifier the operating system assigned to the process.
    pub pid: u32,
    /// Display name read from the process's first module; empty when the
    /// name could not be read.
    pub name: String,
    handle: Option<u64>,
}

impl View for TrackedProcess {
    type V = TrackedProcessView;

    closed spec fn view(&self) -> TrackedProcessView {
        TrackedProcessView { pid: self.pid, name: self.name@, handle: self.handle }
    }
}

/// What `release` does to a tracked process: an open handle comes out and
/// the process is left closed; a closed process gives nothing and does not
/// change.
pub open spec fn spec_release(v: TrackedProcessView) -> (TrackedProcessView, Option<u64>) {
    match v.handle {
        Some(h) => (TrackedProcessView { pid: v.pid, name: v.name, handle: None }, Some(h)),
        None => (v, None),
    }
}

impl TrackedProcess {
    /// A tracked process is well formed when any handle it still holds is
    /// a real one: the operating system never hands out a null handle for
    /// a successful open.
    pub open spec fn wf(&self) -> bool {
        self@.handle matches Some(h) ==> h != 0
    }

    /// Takes ownership of a freshly opened, non-null process handle.
    pub fn track(pid: u32, name: String, raw_handle: u64) -> (t: Self)
        requires
            raw_handle != 0,
        ensures
            t@.pid == pid,
            t@.name == name@,
            t@.handle == Some(raw_handle),
            t.wf(),
    {
        TrackedProcess { pid, name, handle: Some(raw_handle) }
    }

    /// Whether the process still holds its handle.
    pub fn is_open(&self) -> (b: bool)
        ensures
            b == (self@.handle is Some),
    {
        self.handle.is_some()
    }

    /// Gives up the handle, exactly once: the first call on an open
    /// process yields the handle and leaves the process closed; any later
    /// call yields nothing and changes nothing.
    pub fn release(&mut self) -> (r: Option<u64>)
        ensures
            (final(self)@, r) == spec_release(old(self)@),
            final(self)@.pid == old(self)@.pid,
            final(self)@.name == old(self)@.name,
            final(self)@.handle is None,
            old(self).wf() ==> final(self).wf(),
    {
        let r = self.handle;
        self.handle = None;
        r
    }

    /// As `release`, for a process known to be open.
    fn take_handle(&mut self) -> (h: u64)
        requires
            old(self)@.handle is Some,
        ensures
            Some(h) == old(self)@.handle,
            final(self)@.handle is None,
            final(self)@.pid == old(self)@.pid,
            final(self)@.name == old(self)@.name,
    {
        let r = self.handle;
        self.handle = None;
        match r {
            Some(h) => h,
            None => 0,
        }
    }
}

/// Law: for every successful open exactly one release occurs: the first
/// release of an open process yields its handle and closes it, and every
/// further release yields nothing and leaves it as it was.
pub proof fn lemma_release_exactly_once(v: TrackedProcessView)
    requires
        v.handle is Some,
    ensures
        spec_release(v).1 == v.handle,
        spec_release(v).0.handle is None,
        spec_release(spec_release(v).0).1 is None,
        spec_release(spec_release(v).0).0 == spec_release(v).0,
{
}

/// The views of a sequence of tracked processes, in order.
pub open spec fn views_of(s: Seq<TrackedProcess>) -> Seq<TrackedProcessView> {
    s.map_values(|p: TrackedProcess| p@)
}

/// A tracked process matches the query when its display name does,
/// case-insensitively on both sides.
pub open spec fn spec_matches(v: TrackedProcessView, query: Seq<char>) -> bool {
    spec_name_matches(v.name, query)
}

/// The subsequence of `s` whose display names match `query`, in order.
pub open spec fn spec_kept(s: Seq<TrackedProcessView>, query: Seq<char>) -> Seq<TrackedProcessView>
    decreases s.len(),
{
    if s.len() == 0 {
        Seq::empty()
    } else if spec_matches(s.last(), query) {
        spec_kept(s.drop_last(), query).push(s.last())
    } else {
        spec_kept(s.drop_last(), query)
    }
}

/// The handles of the members of `s` that do not match `query`, in order.
pub open spec fn spec_dropped_handles(s: Seq<TrackedProcessView>, query: Seq<char>) -> Seq<u64>
    decreases s.len(),
{
    if s.len() == 0 {
        Seq::empty()
    } else if !spec_matches(s.last(), query) {
        spec_dropped_handles(s.drop_last(), query).push(s.last().handle->0)
    } else {
        spec_dropped_handles(s.drop_last(), query)
    }
}

/// The handles of all members of `s`, in order.
pub open spec fn handles_of(s: Seq<TrackedProcessView>) -> Seq<u64>
    decreases s.len(),
{
    if s.len() == 0 {
        Seq::empty()
    } else {
        handles_of(s.drop_last()).push(s.last().handle->0)
    }
}

/// What a scan keeps and what it lets go: the matching processes, still
/// holding their handles, and the handles of the others, to be released.
pub struct Selection {
    pub kept: Vec<TrackedProcess>,
    pub dropped_handles: Vec<u64>,
}

/// Splits the resolved processes of one scan into those whose display name
/// matches the query, kept in order with their handles, and the handles of
/// the others, which the caller must release. Every handle that came in
/// leaves in exactly one of the two.
pub fn select_matching(procs: Vec<TrackedProcess>, query: &str) -> (sel: Selection)
    requires
        forall|j: int| 0 <= j < procs@.len() ==> (#[trigger] procs@[j])@.handle is Some,
    ensures
        views_of(sel.kept@) == spec_kept(views_of(procs@), query@),
        sel.dropped_handles@ == spec_dropped_handles(views_of(procs@), query@),
        forall|j: int| 0 <= j < sel.kept@.len() ==> (#[trigger] sel.kept@[j])@.handle is Some,
{
    let ghost all: Seq<TrackedProcessView> = views_of(procs@);
    let mut rest = procs;
    let mut kept: Vec<TrackedProcess> = Vec::new();
    let mut dropped: Vec<u64> = Vec::new();
    let ghost mut done: Seq<TrackedProcessView> = Seq::empty();
    proof {
        assert(all =~= done + views_of(rest@));
        assert(views_of(kept@) =~= spec_kept(done, query@));
        assert(dropped@ =~= spec_dropped_handles(done, query@));
    }
    while rest.len() > 0
        invariant
            all == done + views_of(rest@),
            views_of(kept@) == spec_kept(done, query@),
            dropped@ == spec_dropped_handles(done, query@),
            forall|j: int| 0 <= j < rest@.len() ==> (#[trigger] rest@[j])@.handle is Some,
            forall|j: int| 0 <= j < kept@.len() ==> (#[trigger] kept@[j])@.handle is Some,
        decreases rest@.len(),
    {
        let ghost rest_before = rest@;
        let mut p = rest.remove(0);
        let ghost pv = p@;
        proof {
            assert(views_of(rest@) =~= views_of(rest_before).drop_first());
            let done2 = done.push(pv);
            assert(done2.drop_last() =~= done);
            assert(all =~= done2 + views_of(rest@));
        }
        let matched = name_matches(p.name.as_str(), query);
        if matched {
            kept.push(p);
            proof {
                assert(views_of(kept@) =~= spec_kept(done.push(pv), query@));
            }
        } else {
            let h = p.take_handle();
            dropped.push(h);
            proof {
                assert(dropped@ =~= spec_dropped_handles(done.push(pv), query@));
            }
        }
        proof {
            done = done.push(pv);
        }
    }
    proof {
        assert(done =~= all);
    }
    Selection { kept, dropped_handles: dropped }
}

/// Picks the first match of a scan — the design tracks whichever matching
/// process the enumeration visited first — and hands back the handles of
/// every further match, which the caller must release.
pub fn choose_first(kept: Vec<TrackedProcess>) -> (r: (Option<TrackedProcess>, Vec<u64>))
    requires
        forall|j: int| 0 <= j < kept@.len() ==> (#[trigger] kept@[j])@.handle is Some,
    ensures
        kept@.len() == 0 ==> r.0 is None && r.1@ == Seq::<u64>::empty(),
        kept@.len() > 0 ==> r.0 == Some(kept@[0]) && r.1@ == handles_of(
            views_of(kept@).drop_first(),
        ),
{
    let mut rest = kept;
    if rest.len() == 0 {
        return (None, Vec::new());
    }
    let first = rest.remove(0);
    let ghost tail: Seq<TrackedProcessView> = views_of(rest@);
    let mut handles: Vec<u64> = Vec::new();
    let ghost mut done: Seq<TrackedProcessView> = Seq::empty();
    proof {
        assert(tail =~= views_of(kept@).drop_first());
        assert(tail =~= done + views_of(rest@));
        assert(handles@ =~= handles_of(done));
    }
    while rest.len() > 0
        invariant
            tail == done + views_of(rest@),
            handles@ == handles_of(done),
            forall|j: int| 0 <= j < rest@.len() ==> (#[trigger] rest@[j])@.handle is Some,
        decreases rest@.len(),
    {
        let ghost rest_before = rest@;
        let mut p = rest.remove(0);
        let ghost pv = p@;
        proof {
            assert(views_of(rest@) =~= views_of(rest_before).drop_first());
            let done2 = done.push(pv);
            assert(done2.drop_last() =~= done);
            assert(tail =~= done2 + views_of(rest@));
        }
        let h = p.take_handle();
        handles.push(h);
        proof {
            assert(handles@ =~= handles_of(done.push(pv)));
            done = done.push(pv);
        }
    }
    proof {
        assert(done =~= tail);
    }
    (Some(first), handles)
}

/// A terminate decision made concrete: which process to terminate, through
/// which handle, and with which exit code.
#[derive(Clone, Copy, Debug, PartialEq, Eq, Structural)]
pub struct TerminateOrder {
    pub pid: u32,
    pub handle: u64,
    pub exit_code: u32,
}

/// Everything the caller must do after a cycle that inspected a match: the
/// verdict of the state machine, the terminate order when one is to be
/// executed, and the handle that must be released in every case.
#[derive(Clone, Copy, Debug)]
pub struct CyclePlan {
    pub verdict: CycleVerdict,
    pub terminate: Option<TerminateOrder>,
    pub release: u64,
}

/// Turns one inspected match into a plan: steps the state machine, orders a
/// termination exactly when the machine decides one and dry run is off, and
/// surrenders the process's handle for release on every path.
pub fn plan_cycle(
    s: LivenessState,
    t: TrackedProcess,
    has_window: bool,
    dry_run: bool,
) -> (plan: CyclePlan)
    requires
        t@.handle is Some,
    ensures
        plan.verdict == spec_verdict(s, Observation::Matched { has_window }, dry_run),
        Some(plan.release) == t@.handle,
        plan.verdict.execute_terminate ==> plan.terminate == Some(
            TerminateOrder { pid: t@.pid, handle: t@.handle->0, exit_code: DEFAULT_EXIT_CODE },
        ),
        !plan.verdict.execute_terminate ==> plan.terminate is None,
        dry_run ==> plan.terminate is None,
{
    let mut t = t;
    let verdict = crate::state::evaluate_cycle(s, Observation::Matched { has_window }, dry_run);
    let raw = t.take_handle();
    let terminate = if verdict.execute_terminate {
        Some(TerminateOrder { pid: t.pid, handle: raw, exit_code: DEFAULT_EXIT_CODE })
    } else {
        None
    };
    CyclePlan { verdict, terminate, release: raw }
}

/// Law: a selection accounts for every handle exactly once: the handles of
/// the kept processes together with the dropped handles are, as a
/// multiset, exactly the handles that came in — nothing leaks and nothing
/// is released twice.
pub proof fn lemma_selection_conserves_handles(s: Seq<TrackedProcessView>, query: Seq<char>)
    ensures
        handles_of(spec_kept(s, query)).to_multiset().add(
            spec_dropped_handles(s, query).to_multiset(),
        ) == handles_of(s).to_multiset(),
    decreases s.len(),
{
    broadcast use vstd::seq_lib::to_multiset_build;
    broadcast use vstd::seq_lib::to_multiset_contains;
    broadcast use vstd::multiset::group_multiset_axioms;

    if s.len() == 0 {
        assert(handles_of(spec_kept(s, query)) =~= Seq::<u64>::empty());
        assert(spec_dropped_handles(s, query) =~= Seq::<u64>::empty());
        assert(handles_of(s) =~= Seq::<u64>::empty());
        assert forall|x: u64| Seq::<u64>::empty().to_multiset().count(x) == 0 by {
            assert(!Seq::<u64>::empty().contains(x));
        }
        assert(handles_of(spec_kept(s, query)).to_multiset().add(
            spec_dropped_handles(s, query).to_multiset(),
        ) =~= handles_of(s).to_multiset());
    } else {
        let prefix = s.drop_last();
        let v = s.last();
        let h = v.handle->0;
        lemma_selection_conserves_handles(prefix, query);
        assert(handles_of(s) == handles_of(prefix).push(h));
        if spec_matches(v, query) {
            let k2 = spec_kept(prefix, query).push(v);
            assert(k2.drop_last() =~= spec_kept(prefix, query));
            assert(handles_of(k2) == handles_of(spec_kept(prefix, query)).push(h));
            assert(handles_of(spec_kept(s, query)).to_multiset().add(
                spec_dropped_handles(s, query).to_multiset(),
            ) =~= handles_of(s).to_multiset());
        } else {
            assert(spec_dropped_handles(s, query) == spec_dropped_handles(prefix, query).push(h));
            assert(handles_of(spec_kept(s, query)).to_multiset().add(
                spec_dropped_handles(s, query).to_multiset(),
            ) =~= handles_of(s).to_multiset());
        }
    }
}

} // verus!
