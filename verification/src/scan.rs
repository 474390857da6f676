//! The search for a process by its executable path.
//!
//! A [`Scan`] is a search that is under way. It always waits for the answer to
//! one call of the platform, [`Scan::request`]. [`Scan::step`] takes that answer
//! and either goes on, now waiting for the next answer, or finishes. Whoever
//! drives a scan asks the platform and steps, until the scan has finished.
//!
//! There are two ways to search. [`Scan::by_enumeration`] lists the identifiers
//! of all processes, opens them one after another and asks each for its path;
//! a process that is not the one is closed again before the next is opened.
//! [`Scan::by_snapshot`] walks a snapshot of the process table, whose entries
//! carry the names, and opens only the process that it picked.

use vstd::prelude::*;
use crate::error::NEXMemoryError;
use crate::platform::{
    Reply, ReplyView, Request, PROCESS_ALL_ACCESS, PROCESS_LIST_CAPACITY, PATH_CAPACITY,
    SNAPSHOT_PROCESSES,
};
use crate::process::{Process, ProcessView};
use crate::text::{decode_text, decoded};

verus! {

/// Where a scan stands: which answer it waits for, and what it has to remember.
pub enum Phase {
    /// A snapshot of the process table was asked for.
    Snapshot,
    /// The next entry of the snapshot was asked for.
    Entry { snapshot: u32 },
    /// An entry of the snapshot matched, and its process is being opened.
    OpenMatch { pid: u32 },
    /// The list of process identifiers was asked for.
    ProcessIds,
    /// The process `pids[index]` is being opened.
    Open { pids: Seq<u32>, index: int },
    /// The process `pids[index]` is open as `handle`, and its path was asked for.
    Path { pids: Seq<u32>, index: int, handle: u32 },
    /// The process `pids[index]` was not the one, and `handle` is being given
    /// back. After that the scan goes on with the next process, or ends with
    /// `failure` if there is one.
    Close { pids: Seq<u32>, index: int, handle: u32, failure: Option<NEXMemoryError> },
}

/// What one step of a scan gives.
pub enum StepView {
    /// The scan goes on in this phase.
    Continue(Phase),
    /// The scan is over, with this result.
    Finish(Result<ProcessView, NEXMemoryError>),
}

/// The index of the first identifier at or after `from` that is not zero, or
/// the length of `pids` if there is none.
pub open spec fn first_candidate(pids: Seq<u32>, from: int) -> int
    decreases pids.len() - from,
{
    if from < 0 || from >= pids.len() {
        pids.len() as int
    } else if pids[from] != 0 {
        from
    } else {
        first_candidate(pids, from + 1)
    }
}

/// Going on with the first process at or after `from` that has an identifier
/// other than zero; without one the search has found nothing.
pub open spec fn seek(pids: Seq<u32>, from: int) -> StepView {
    let index = first_candidate(pids, from);
    if index < pids.len() {
        StepView::Continue(Phase::Open { pids, index })
    } else {
        StepView::Finish(Err(NEXMemoryError::ProcessNotFound))
    }
}

impl Phase {
    /// What holds of every phase that a scan reaches: the process at hand is
    /// one of the list and has an identifier other than zero, and a handle that
    /// is held is a real one.
    pub open spec fn wf(self) -> bool {
        match self {
            Phase::Snapshot | Phase::ProcessIds | Phase::OpenMatch { .. } => true,
            Phase::Entry { snapshot } => snapshot != 0,
            Phase::Open { pids, index } => 0 <= index < pids.len() && pids[index] != 0,
            Phase::Path { pids, index, handle } => {
                0 <= index < pids.len() && pids[index] != 0 && handle != 0
            },
            Phase::Close { pids, index, handle, failure } => {
                0 <= index < pids.len() && pids[index] != 0 && handle != 0
            },
        }
    }

    /// The call whose answer the scan waits for.
    pub open spec fn request(self) -> Request {
        match self {
            Phase::Snapshot => Request::TakeSnapshot { flags: SNAPSHOT_PROCESSES },
            Phase::Entry { snapshot } => Request::NextEntry { snapshot },
            Phase::OpenMatch { pid } => Request::OpenProcess {
                access: PROCESS_ALL_ACCESS,
                inherit: true,
                pid,
            },
            Phase::ProcessIds => Request::EnumProcesses { capacity: PROCESS_LIST_CAPACITY },
            Phase::Open { pids, index } => Request::OpenProcess {
                access: PROCESS_ALL_ACCESS,
                inherit: true,
                pid: pids[index],
            },
            Phase::Path { pids, index, handle } => Request::QueryPath {
                handle,
                capacity: PATH_CAPACITY,
            },
            Phase::Close { pids, index, handle, failure } => Request::CloseHandle { handle },
        }
    }

    /// The text that the predicate is asked about when `reply` comes in, if it
    /// is asked at all: the name of a snapshot entry, or the path of a process
    /// that was opened, where the bytes are text.
    pub open spec fn consults(self, reply: ReplyView) -> Option<Seq<char>> {
        match (self, reply) {
            (Phase::Entry { .. }, ReplyView::Entry(Some(entry))) => match decoded(entry.exe_file) {
                Ok(name) => Some(name),
                Err(_) => None,
            },
            (Phase::Path { .. }, ReplyView::Path(Some(bytes))) => match decoded(bytes) {
                Ok(path) => Some(path),
                Err(_) => None,
            },
            _ => None,
        }
    }

    /// The step that the scan takes when `reply` comes in, where `verdict` is
    /// what the predicate says of the text that it is asked about.
    ///
    /// An answer that is not the success of the call that was made counts as
    /// its failure.
    pub open spec fn next(self, reply: ReplyView, verdict: bool) -> StepView {
        match self {
            Phase::Snapshot => match reply {
                ReplyView::Handle(snapshot) => if snapshot != 0 {
                    StepView::Continue(Phase::Entry { snapshot })
                } else {
                    StepView::Finish(Err(NEXMemoryError::UnableToTakeSnapshot))
                },
                _ => StepView::Finish(Err(NEXMemoryError::UnableToTakeSnapshot)),
            },
            Phase::Entry { snapshot } => match reply {
                ReplyView::Entry(Some(entry)) => match decoded(entry.exe_file) {
                    Ok(_) => if verdict {
                        StepView::Continue(Phase::OpenMatch { pid: entry.pid })
                    } else {
                        StepView::Continue(Phase::Entry { snapshot })
                    },
                    Err(e) => StepView::Finish(Err(e)),
                },
                _ => StepView::Finish(Err(NEXMemoryError::ProcessNotFound)),
            },
            Phase::OpenMatch { pid } => match reply {
                ReplyView::Handle(handle) => if handle != 0 {
                    StepView::Finish(Ok(ProcessView { handle, pid }))
                } else {
                    StepView::Finish(Err(NEXMemoryError::OpenProcessError))
                },
                _ => StepView::Finish(Err(NEXMemoryError::OpenProcessError)),
            },
            Phase::ProcessIds => match reply {
                ReplyView::ProcessIds(Some(pids)) => seek(pids, 0),
                _ => StepView::Finish(Err(NEXMemoryError::EnumProcessError)),
            },
            Phase::Open { pids, index } => match reply {
                ReplyView::Handle(handle) => if handle != 0 {
                    StepView::Continue(Phase::Path { pids, index, handle })
                } else {
                    seek(pids, index + 1)
                },
                _ => seek(pids, index + 1),
            },
            Phase::Path { pids, index, handle } => match reply {
                ReplyView::Path(Some(bytes)) => match decoded(bytes) {
                    Ok(_) => if verdict {
                        StepView::Finish(Ok(ProcessView { handle, pid: pids[index] }))
                    } else {
                        StepView::Continue(Phase::Close { pids, index, handle, failure: None })
                    },
                    Err(e) => StepView::Continue(
                        Phase::Close { pids, index, handle, failure: Some(e) },
                    ),
                },
                _ => StepView::Continue(Phase::Close { pids, index, handle, failure: None }),
            },
            Phase::Close { pids, index, handle, failure } => match failure {
                Some(e) => StepView::Finish(Err(e)),
                None => seek(pids, index + 1),
            },
        }
    }
}

#[derive(Debug)]
enum Stage {
    Snapshot,
    Entry { snapshot: u32 },
    OpenMatch { pid: u32 },
    ProcessIds,
    Open { pids: Vec<u32>, index: usize },
    Path { pids: Vec<u32>, index: usize, handle: u32 },
    Close { pids: Vec<u32>, index: usize, handle: u32, failure: Option<NEXMemoryError> },
}

/// A search that is under way.
#[derive(Debug)]
pub struct Scan {
    stage: Stage,
}

impl View for Scan {
    type V = Phase;

    closed spec fn view(&self) -> Phase {
        match self.stage {
            Stage::Snapshot => Phase::Snapshot,
            Stage::Entry { snapshot } => Phase::Entry { snapshot },
            Stage::OpenMatch { pid } => Phase::OpenMatch { pid },
            Stage::ProcessIds => Phase::ProcessIds,
            Stage::Open { pids, index } => Phase::Open { pids: pids@, index: index as int },
            Stage::Path { pids, index, handle } => Phase::Path {
                pids: pids@,
                index: index as int,
                handle,
            },
            Stage::Close { pids, index, handle, failure } => Phase::Close {
                pids: pids@,
                index: index as int,
                handle,
                failure,
            },
        }
    }
}

/// What one step of a scan gave.
#[derive(Debug)]
pub enum Step {
    /// The scan goes on: ask what it now waits for, and step again.
    Continue(Scan),
    /// The scan is over: the process that was found, or why there is none.
    Finish(Result<Process, NEXMemoryError>),
}

impl View for Step {
    type V = StepView;

    open spec fn view(&self) -> StepView {
        match self {
            Step::Continue(scan) => StepView::Continue(scan@),
            Step::Finish(Ok(process)) => StepView::Finish(Ok(process@)),
            Step::Finish(Err(e)) => StepView::Finish(Err(*e)),
        }
    }
}

impl Scan {
    #[verifier::type_invariant]
    closed spec fn inv(self) -> bool {
        self@.wf()
    }

    /// Begins a search that walks a snapshot of the process table.
    pub fn by_snapshot() -> (scan: Scan)
        ensures
            scan@ == Phase::Snapshot,
    {
        Scan { stage: Stage::Snapshot }
    }

    /// Begins a search that lists all processes and opens them in turn.
    pub fn by_enumeration() -> (scan: Scan)
        ensures
            scan@ == Phase::ProcessIds,
    {
        Scan { stage: Stage::ProcessIds }
    }

    /// The call whose answer the scan waits for.
    pub fn request(&self) -> (request: Request)
        ensures
            self@.wf(),
            request == self@.request(),
    {
        proof {
            use_type_invariant(self);
        }
        match &self.stage {
            Stage::Snapshot => Request::TakeSnapshot { flags: SNAPSHOT_PROCESSES },
            Stage::Entry { snapshot } => Request::NextEntry { snapshot: *snapshot },
            Stage::OpenMatch { pid } => Request::OpenProcess {
                access: PROCESS_ALL_ACCESS,
                inherit: true,
                pid: *pid,
            },
            Stage::ProcessIds => Request::EnumProcesses { capacity: PROCESS_LIST_CAPACITY },
            Stage::Open { pids, index } => Request::OpenProcess {
                access: PROCESS_ALL_ACCESS,
                inherit: true,
                pid: pids[*index],
            },
            Stage::Path { pids, index, handle } => Request::QueryPath {
                handle: *handle,
                capacity: PATH_CAPACITY,
            },
            Stage::Close { pids, index, handle, failure } => Request::CloseHandle {
                handle: *handle,
            },
        }
    }

    /// Goes on with the first process at or after `from` whose identifier is
    /// not zero.
    fn seek_from(pids: Vec<u32>, from: usize) -> (step: Step)
        requires
            from <= pids.len(),
        ensures
            step@ == seek(pids@, from as int),
            step@ matches StepView::Continue(phase) ==> phase.wf(),
    {
        let mut index: usize = from;
        while index < pids.len() && pids[index] == 0
            invariant
                from <= index <= pids.len(),
                first_candidate(pids@, from as int) == first_candidate(pids@, index as int),
            decreases pids.len() - index,
        {
            index += 1;
        }
        if index < pids.len() {
            Step::Continue(Scan { stage: Stage::Open { pids, index } })
        } else {
            Step::Finish(Err(NEXMemoryError::ProcessNotFound))
        }
    }

    /// Takes the platform's answer to [`Scan::request`] and decides how the
    /// search goes on.
    ///
    /// The predicate is asked at most once, and only about a name or a path
    /// that the platform gave and that is text. Where it is not asked, the step
    /// is the one that [`Phase::next`] gives for either verdict.
    pub fn step<F: Fn(String) -> bool>(self, reply: Reply, predicate: &F) -> (step: Step)
        requires
            self@.consults(reply@) matches Some(text) ==> forall|s: String|
                s@ == text ==> predicate.requires((s,)),
        ensures
            self@.wf(),
            step@ matches StepView::Continue(phase) ==> phase.wf(),
            match self@.consults(reply@) {
                Some(text) => exists|s: String, verdict: bool|
                    s@ == text && predicate.ensures((s,), verdict) && step@ == self@.next(
                        reply@,
                        verdict,
                    ),
                None => step@ == self@.next(reply@, false),
            },
    {
        proof {
            use_type_invariant(&self);
        }
        match self.stage {
            Stage::Snapshot => match reply {
                Reply::Handle(snapshot) => {
                    if snapshot != 0 {
                        Step::Continue(Scan { stage: Stage::Entry { snapshot } })
                    } else {
                        Step::Finish(Err(NEXMemoryError::UnableToTakeSnapshot))
                    }
                },
                _ => Step::Finish(Err(NEXMemoryError::UnableToTakeSnapshot)),
            },
            Stage::Entry { snapshot } => match reply {
                Reply::Entry(Some(entry)) => {
                    let pid: u32 = entry.pid;
                    match decode_text(entry.exe_file) {
                        Ok(name) => {
                            let ghost asked = name;
                            let verdict: bool = predicate(name);
                            assert(predicate.ensures((asked,), verdict));
                            if verdict {
                                Step::Continue(Scan { stage: Stage::OpenMatch { pid } })
                            } else {
                                Step::Continue(Scan { stage: Stage::Entry { snapshot } })
                            }
                        },
                        Err(e) => Step::Finish(Err(e)),
                    }
                },
                _ => Step::Finish(Err(NEXMemoryError::ProcessNotFound)),
            },
            Stage::OpenMatch { pid } => match reply {
                Reply::Handle(handle) => {
                    if handle != 0 {
                        Step::Finish(Ok(Process::new(handle, pid)))
                    } else {
                        Step::Finish(Err(NEXMemoryError::OpenProcessError))
                    }
                },
                _ => Step::Finish(Err(NEXMemoryError::OpenProcessError)),
            },
            Stage::ProcessIds => match reply {
                Reply::ProcessIds(Some(pids)) => Scan::seek_from(pids, 0),
                _ => Step::Finish(Err(NEXMemoryError::EnumProcessError)),
            },
            Stage::Open { pids, index } => {
                assert(index < pids.len());
                match reply {
                    Reply::Handle(handle) => {
                        if handle != 0 {
                            Step::Continue(Scan { stage: Stage::Path { pids, index, handle } })
                        } else {
                            Scan::seek_from(pids, index + 1)
                        }
                    },
                    _ => Scan::seek_from(pids, index + 1),
                }
            },
            Stage::Path { pids, index, handle } => match reply {
                Reply::Path(Some(bytes)) => match decode_text(bytes) {
                    Ok(path) => {
                        let ghost asked = path;
                        let verdict: bool = predicate(path);
                        assert(predicate.ensures((asked,), verdict));
                        if verdict {
                            Step::Finish(Ok(Process::new(handle, pids[index])))
                        } else {
                            Step::Continue(
                                Scan { stage: Stage::Close { pids, index, handle, failure: None } },
                            )
                        }
                    },
                    Err(e) => Step::Continue(
                        Scan { stage: Stage::Close { pids, index, handle, failure: Some(e) } },
                    ),
                },
                _ => Step::Continue(
                    Scan { stage: Stage::Close { pids, index, handle, failure: None } },
                ),
            },
            Stage::Close { pids, index, handle, failure } => {
                assert(index < pids.len());
                match failure {
                    Some(e) => Step::Finish(Err(e)),
                    None => Scan::seek_from(pids, index + 1),
                }
            },
        }
    }
}

} // verus!
