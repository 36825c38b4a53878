//! Window lookup: the decision driving the walk over top-level windows,
//! and the disambiguation of its ending. The walk primitive reports its
//! ending through a zero return in two indistinguishable cases — the
//! visitor asked to stop at a match, or the walk itself failed — so the
//! visitor's own record and the error channel read after the walk are both
//! needed to classify it.

use vstd::prelude::*;

verus! {

/// An operating-system failure, as the opaque error code the system
/// reported.
#[derive(Clone, Copy, Debug, PartialEq, Eq, Structural)]
pub struct OsError {
    pub code: u32,
}

/// Decision for one visited window: stop the walk exactly at the first
/// window owned by the watched process.
pub fn window_visit_decision(target_pid: u32, window_pid: u32) -> (stop: bool)
    ensures
        stop == (window_pid == target_pid),
{
    window_pid == target_pid
}

/// What a finished walk means. `completed` says the primitive itself
/// reported running to the end; `found` is the window the visitor
/// recorded, handed back out of band; `last_error` is the error channel
/// read after the walk, cleared to zero before it. A walk that the visitor
/// stopped, or that ended with a clear error channel, is a success; only a
/// walk that ended on its own with no match and a nonzero error channel is
/// a failure.
pub open spec fn spec_classify(completed: bool, found: Option<u64>, last_error: u32) -> Result<
    Option<u64>,
    OsError,
> {
    if completed {
        Ok(found)
    } else if found is Some {
        Ok(found)
    } else if last_error == 0 {
        Ok(None)
    } else {
        Err(OsError { code: last_error })
    }
}

/// Classifies the ending of one walk over the top-level windows.
pub fn classify_window_search(completed: bool, found: Option<u64>, last_error: u32) -> (r: Result<
    Option<u64>,
    OsError,
>)
    ensures
        r == spec_classify(completed, found, last_error),
        found is Some ==> r == Ok::<Option<u64>, OsError>(found),
        r is Err ==> !completed && found is None && last_error != 0 && r->Err_0.code
            == last_error,
{
    if completed {
        Ok(found)
    } else if found.is_some() {
        Ok(found)
    } else if last_error == 0 {
        Ok(None)
    } else {
        Err(OsError { code: last_error })
    }
}

/// Law: a walk that stopped early at a match is never reported as an
/// operating-system error, whatever the primitive returned and whatever
/// the error channel holds.
pub proof fn lemma_early_stop_is_not_error(completed: bool, found: Option<u64>, last_error: u32)
    requires
        found is Some,
    ensures
        spec_classify(completed, found, last_error) == Ok::<Option<u64>, OsError>(found),
{
}

/// A top-level window as one walk saw it: its handle and the process that
/// owned it at observation time.
#[derive(Clone, Copy, Debug, PartialEq, Eq, Structural)]
pub struct WindowInfo {
    pub handle: u64,
    pub owner_pid: u32,
}

/// The first window in walk order owned by `pid`, if any.
pub open spec fn spec_first_owned(s: Seq<WindowInfo>, pid: u32) -> Option<u64>
    decreases s.len(),
{
    if s.len() == 0 {
        None
    } else if s[0].owner_pid == pid {
        Some(s[0].handle)
    } else {
        spec_first_owned(s.drop_first(), pid)
    }
}

/// The walk as a whole, over a snapshot of the windows in walk order: the
/// first window owned by the watched process, stopping at the match.
pub fn find_first_owned(windows: &Vec<WindowInfo>, pid: u32) -> (r: Option<u64>)
    ensures
        r == spec_first_owned(windows@, pid),
{
    let n = windows.len();
    let mut i: usize = 0;
    proof {
        assert(windows@.skip(0) =~= windows@);
    }
    while i < n
        invariant
            n == windows@.len(),
            i <= n,
            spec_first_owned(windows@, pid) == spec_first_owned(windows@.skip(i as int), pid),
        decreases n - i,
    {
        proof {
            let rest = windows@.skip(i as int);
            assert(rest[0] == windows@[i as int]);
            assert(rest.drop_first() =~= windows@.skip(i as int + 1));
        }
        let w = windows[i];
        if w.owner_pid == pid {
            return Some(w.handle);
        }
        i += 1;
    }
    proof {
        assert(windows@.skip(n as int) =~= Seq::<WindowInfo>::empty());
    }
    None
}

/// Whether a classified window search counts as a window sighting for the
/// state machine: only a search that ended at a window does; a failed walk
/// counts as no window, as does a clean walk without a match.
pub open spec fn spec_saw_window(r: Result<Option<u64>, OsError>) -> bool {
    r matches Ok(w) && w is Some
}

/// The window observation a classified search feeds the state machine.
pub fn saw_window(r: &Result<Option<u64>, OsError>) -> (b: bool)
    ensures
        b == spec_saw_window(*r),
{
    match r {
        Ok(w) => w.is_some(),
        Err(_) => false,
    }
}

} // verus!
