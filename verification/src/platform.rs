//! What is asked of the platform, and what it answers.
//!
//! The platform is the operating system's process service. This library never
//! calls it. It hands out a [`Request`], and takes the [`Reply`] that the caller
//! got for it.

use vstd::prelude::*;

verus! {

/// The access rights that every process is opened with: all of them.
pub const PROCESS_ALL_ACCESS: u32 = 0x1f0fff;

/// The flag that asks a snapshot to hold the processes of the system.
pub const SNAPSHOT_PROCESSES: u32 = 0x2;

/// How many bytes the buffer for an executable path holds.
pub const PATH_CAPACITY: u32 = 1024;

/// How many identifiers the buffer for the list of processes holds.
pub const PROCESS_LIST_CAPACITY: u32 = 1024;

/// One call of the platform, with its arguments.
#[derive(Debug, Clone, Copy, PartialEq, Eq, Structural)]
pub enum Request {
    /// List the identifiers of all processes, at most `capacity` of them.
    EnumProcesses { capacity: u32 },
    /// Open the process `pid` with the rights `access`.
    OpenProcess { access: u32, inherit: bool, pid: u32 },
    /// Give the full path of the executable of the process behind `handle`.
    QueryPath { handle: u32, capacity: u32 },
    /// Read `size` bytes at `address` in the process behind `handle`.
    ReadMemory { handle: u32, address: u32, size: u32 },
    /// Write `size` bytes at `address` in the process behind `handle`.
    WriteMemory { handle: u32, address: u32, size: u32 },
    /// Take a snapshot of the process table.
    TakeSnapshot { flags: u32 },
    /// Give the next entry of the snapshot.
    NextEntry { snapshot: u32 },
    /// End the process behind `handle` with the exit code `code`.
    Terminate { handle: u32, code: u32 },
    /// Give `handle` back.
    CloseHandle { handle: u32 },
}

/// One entry of a snapshot of the process table.
#[derive(Debug, Clone, PartialEq, Eq)]
pub struct SnapshotEntry {
    /// The identifier of the process.
    pub pid: u32,
    /// The identifier of the process that started it.
    pub parent_pid: u32,
    /// How many threads it runs.
    pub threads: u32,
    /// The name of its executable, padded with zero bytes.
    pub exe_file: Vec<u8>,
}

/// A [`SnapshotEntry`] as a value of specifications.
pub struct EntryView {
    pub pid: u32,
    pub parent_pid: u32,
    pub threads: u32,
    pub exe_file: Seq<u8>,
}

impl View for SnapshotEntry {
    type V = EntryView;

    open spec fn view(&self) -> EntryView {
        EntryView {
            pid: self.pid,
            parent_pid: self.parent_pid,
            threads: self.threads,
            exe_file: self.exe_file@,
        }
    }
}

/// What the platform answered to one call.
#[derive(Debug, Clone, PartialEq, Eq)]
pub enum Reply {
    /// To `EnumProcesses`: the identifiers, or `None` where the call failed.
    ProcessIds(Option<Vec<u32>>),
    /// To `OpenProcess` and `TakeSnapshot`: the handle, or zero where the call failed.
    Handle(u32),
    /// To `QueryPath`: the buffer with the path, or `None` where the call failed.
    Path(Option<Vec<u8>>),
    /// To `NextEntry`: the entry, or `None` where the snapshot has no more.
    Entry(Option<SnapshotEntry>),
    /// To `ReadMemory` and `WriteMemory`: whether the call succeeded, and how
    /// many bytes it moved.
    Transfer { accepted: bool, transferred: u32 },
    /// To `Terminate` and `CloseHandle`: whether the call succeeded.
    Accepted(bool),
}

/// A [`Reply`] as a value of specifications.
pub enum ReplyView {
    ProcessIds(Option<Seq<u32>>),
    Handle(u32),
    Path(Option<Seq<u8>>),
    Entry(Option<EntryView>),
    Transfer { accepted: bool, transferred: u32 },
    Accepted(bool),
}

impl View for Reply {
    type V = ReplyView;

    open spec fn view(&self) -> ReplyView {
        match self {
            Reply::ProcessIds(Some(pids)) => ReplyView::ProcessIds(Some(pids@)),
            Reply::ProcessIds(None) => ReplyView::ProcessIds(None),
            Reply::Handle(handle) => ReplyView::Handle(*handle),
            Reply::Path(Some(bytes)) => ReplyView::Path(Some(bytes@)),
            Reply::Path(None) => ReplyView::Path(None),
            Reply::Entry(Some(entry)) => ReplyView::Entry(Some(entry@)),
            Reply::Entry(None) => ReplyView::Entry(None),
            Reply::Transfer { accepted, transferred } => ReplyView::Transfer {
                accepted: *accepted,
                transferred: *transferred,
            },
            Reply::Accepted(accepted) => ReplyView::Accepted(*accepted),
        }
    }
}

} // verus!
