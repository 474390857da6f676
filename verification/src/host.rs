//! A platform written down as a value, and what a whole search does on it.
//!
//! Nothing here runs. A [`Host`] says what a platform answers to each call, and
//! [`run`] is the search that a driver performs on it: ask what the scan waits
//! for, step, and again, until the scan has finished. The laws of this library
//! about whole searches are stated over these.

use vstd::prelude::*;
use crate::error::NEXMemoryError;
use crate::platform::{EntryView, ReplyView, Request};
use crate::process::ProcessView;
use crate::scan::{first_candidate, Phase, StepView};
use crate::text::decoded;

verus! {

/// What a platform answers.
pub struct Host {
    /// The identifiers that it lists, or `None` where listing fails.
    pub process_ids: Option<Seq<u32>>,
    /// By identifier, the handle that opening the process gives; zero where
    /// the process cannot be opened.
    pub handles: spec_fn(u32) -> u32,
    /// By handle, the buffer with the path of the executable; `None` where the
    /// query fails.
    pub paths: spec_fn(u32) -> Option<Seq<u8>>,
    /// By handle, whether giving it back succeeds.
    pub closes: spec_fn(u32) -> bool,
    /// The handle of its snapshot; zero where it gives none.
    pub snapshot: u32,
    /// The entries of its snapshot, in the order in which it hands them out.
    pub entries: Seq<EntryView>,
}

/// One call that was made, with its answer.
pub struct Exchange {
    pub request: Request,
    pub reply: ReplyView,
}

/// A search from its beginning to its end.
pub struct Run {
    /// The calls that were made, in order.
    pub calls: Seq<Exchange>,
    /// What the search gave.
    pub result: Result<ProcessView, NEXMemoryError>,
}

impl Host {
    /// The answer to `request`, when `cursor` entries of the snapshot have
    /// been handed out.
    pub open spec fn answer(self, request: Request, cursor: nat) -> ReplyView {
        match request {
            Request::EnumProcesses { .. } => ReplyView::ProcessIds(self.process_ids),
            Request::OpenProcess { pid, .. } => ReplyView::Handle((self.handles)(pid)),
            Request::QueryPath { handle, .. } => ReplyView::Path((self.paths)(handle)),
            Request::TakeSnapshot { .. } => ReplyView::Handle(self.snapshot),
            Request::NextEntry { .. } => ReplyView::Entry(
                if cursor < self.entries.len() {
                    Some(self.entries[cursor as int])
                } else {
                    None
                },
            ),
            Request::CloseHandle { handle } => ReplyView::Accepted((self.closes)(handle)),
            Request::ReadMemory { .. } | Request::WriteMemory { .. } => ReplyView::Transfer {
                accepted: false,
                transferred: 0,
            },
            Request::Terminate { .. } => ReplyView::Accepted(false),
        }
    }

    /// How a search ends that looks at the entry `i` of the snapshot, or `None`
    /// where it passes on to the next entry.
    ///
    /// A name that is no text ends the search. A name that the predicate takes
    /// ends it too: with the process, if it can be opened.
    pub open spec fn entry_verdict(self, pred: spec_fn(Seq<char>) -> bool, i: int) -> Option<
        Result<ProcessView, NEXMemoryError>,
    > {
        let entry = self.entries[i];
        match decoded(entry.exe_file) {
            Err(e) => Some(Err(e)),
            Ok(name) => if !pred(name) {
                None
            } else if (self.handles)(entry.pid) != 0 {
                Some(Ok(ProcessView { handle: (self.handles)(entry.pid), pid: entry.pid }))
            } else {
                Some(Err(NEXMemoryError::OpenProcessError))
            },
        }
    }

    /// How a search ends that looks at the process `pid` of the list, or `None`
    /// where it passes on to the next process.
    ///
    /// The search passes over the identifier zero, over a process that cannot
    /// be opened, and over one that does not give its path. A path that is no
    /// text ends the search, and so does one that the predicate takes.
    pub open spec fn candidate_verdict(self, pred: spec_fn(Seq<char>) -> bool, pid: u32) -> Option<
        Result<ProcessView, NEXMemoryError>,
    > {
        let handle = (self.handles)(pid);
        if pid == 0 || handle == 0 {
            None
        } else {
            match (self.paths)(handle) {
                None => None,
                Some(bytes) => match decoded(bytes) {
                    Err(e) => Some(Err(e)),
                    Ok(path) => if pred(path) {
                        Some(Ok(ProcessView { handle, pid }))
                    } else {
                        None
                    },
                },
            }
        }
    }
}

/// A bound on the number of calls that a search still makes from `phase`.
pub open spec fn budget(host: Host, phase: Phase, cursor: nat) -> nat {
    match phase {
        Phase::Snapshot => entries_left(host, cursor) + 3,
        Phase::Entry { .. } => entries_left(host, cursor) + 2,
        Phase::OpenMatch { .. } => 0,
        Phase::ProcessIds => match host.process_ids {
            Some(pids) => 3 * pids.len() + 3,
            None => 0,
        },
        Phase::Open { pids, index } => 3 * candidates_left(pids, index) + 2,
        Phase::Path { pids, index, .. } => 3 * candidates_left(pids, index) + 1,
        Phase::Close { pids, index, .. } => 3 * candidates_left(pids, index),
    }
}

/// How many entries of the snapshot have not been handed out.
pub open spec fn entries_left(host: Host, cursor: nat) -> nat {
    if cursor < host.entries.len() {
        (host.entries.len() - cursor) as nat
    } else {
        0
    }
}

/// How many processes of the list stand at or after `index`.
pub open spec fn candidates_left(pids: Seq<u32>, index: int) -> nat {
    if index < pids.len() {
        (pids.len() - index) as nat
    } else {
        0
    }
}

/// The first candidate at or after `from` is the first identifier there that
/// is not zero.
pub proof fn lemma_first_candidate(pids: Seq<u32>, from: int)
    requires
        0 <= from,
    ensures
        from <= pids.len() ==> from <= first_candidate(pids, from) <= pids.len(),
        first_candidate(pids, from) < pids.len() ==> pids[first_candidate(pids, from)] != 0,
        forall|i: int| from <= i < first_candidate(pids, from) ==> pids[i] == 0,
    decreases pids.len() - from,
{
    if from < pids.len() && pids[from] == 0 {
        lemma_first_candidate(pids, from + 1);
    }
}

/// What the predicate says when a scan in `phase` gets `reply`, as far as it is
/// asked.
pub open spec fn verdict_on(pred: spec_fn(Seq<char>) -> bool, phase: Phase, reply: ReplyView)
    -> bool {
    match phase.consults(reply) {
        Some(text) => pred(text),
        None => false,
    }
}

/// Where the snapshot stands after `request` was answered.
pub open spec fn cursor_after(request: Request, cursor: nat) -> nat {
    if request is NextEntry {
        cursor + 1
    } else {
        cursor
    }
}

/// Every step that goes on leaves less to do.
pub proof fn lemma_budget_shrinks(
    host: Host,
    pred: spec_fn(Seq<char>) -> bool,
    phase: Phase,
    cursor: nat,
)
    ensures
        ({
            let reply = host.answer(phase.request(), cursor);
            phase.next(reply, verdict_on(pred, phase, reply)) matches StepView::Continue(then)
                ==> budget(host, then, cursor_after(phase.request(), cursor)) < budget(
                host,
                phase,
                cursor,
            )
        }),
{
    match phase {
        Phase::ProcessIds => {
            if let Some(pids) = host.process_ids {
                lemma_first_candidate(pids, 0);
            }
        },
        Phase::Open { pids, index } => {
            if index + 1 >= 0 {
                lemma_first_candidate(pids, index + 1);
            }
        },
        Phase::Close { pids, index, .. } => {
            if index + 1 >= 0 {
                lemma_first_candidate(pids, index + 1);
            }
        },
        _ => {},
    }
}

/// The search that a driver performs on `host` from `phase` on: it asks what
/// the scan waits for, hands the answer to the scan, and goes on until the
/// scan has finished.
pub open spec fn run(host: Host, pred: spec_fn(Seq<char>) -> bool, phase: Phase, cursor: nat)
    -> Run
    decreases budget(host, phase, cursor),
{
    let request = phase.request();
    let reply = host.answer(request, cursor);
    let exchange = Exchange { request, reply };
    match phase.next(reply, verdict_on(pred, phase, reply)) {
        StepView::Finish(result) => Run { calls: seq![exchange], result },
        StepView::Continue(then) => {
            proof {
                lemma_budget_shrinks(host, pred, phase, cursor);
            }
            let rest = run(host, pred, then, cursor_after(request, cursor));
            Run { calls: seq![exchange] + rest.calls, result: rest.result }
        },
    }
}

/// The search that walks the snapshot of `host`.
pub open spec fn search_by_snapshot(host: Host, pred: spec_fn(Seq<char>) -> bool) -> Run {
    run(host, pred, Phase::Snapshot, 0)
}

/// The search that opens the processes that `host` lists.
pub open spec fn search_by_enumeration(host: Host, pred: spec_fn(Seq<char>) -> bool) -> Run {
    run(host, pred, Phase::ProcessIds, 0)
}

} // verus!
