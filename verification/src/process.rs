//! One process, held through one handle.

use vstd::prelude::*;
use crate::error::NEXMemoryError;
use crate::platform::{Reply, ReplyView, Request, PATH_CAPACITY};
use crate::text::{decode_text, decoded};

verus! {

/// A process that was opened: the handle that the platform gave for it, and
/// its identifier.
///
/// The value stands for the one right to use the handle. It cannot be copied,
/// and [`Process::release`] takes it away for good.
#[derive(Debug, PartialEq, Eq)]
pub struct Process {
    handle: u32,
    pid: u32,
}

/// A [`Process`] as a value of specifications.
pub struct ProcessView {
    pub handle: u32,
    pub pid: u32,
}

impl View for Process {
    type V = ProcessView;

    closed spec fn view(&self) -> ProcessView {
        ProcessView { handle: self.handle, pid: self.pid }
    }
}

/// What a read or a write of `size` bytes gave, by the platform's answer: the
/// number of bytes, if the call succeeded and moved exactly `size` of them.
pub open spec fn transfer_outcome(size: u32, reply: ReplyView, failure: NEXMemoryError) -> Result<
    u32,
    NEXMemoryError,
> {
    if reply == (ReplyView::Transfer { accepted: true, transferred: size }) {
        Ok(size)
    } else {
        Err(failure)
    }
}

/// What a query of the executable path gave, by the platform's answer.
pub open spec fn path_outcome(reply: ReplyView) -> Result<Seq<char>, NEXMemoryError> {
    match reply {
        ReplyView::Path(Some(bytes)) => decoded(bytes),
        _ => Err(NEXMemoryError::ProcessNotFound),
    }
}

impl Process {
    /// Takes over a handle that the platform gave for the process `pid`.
    #[must_use]
    pub fn new(handle: u32, pid: u32) -> (process: Process)
        ensures
            process@ == (ProcessView { handle, pid }),
    {
        Process { handle, pid }
    }

    /// The identifier of the process.
    pub fn pid(&self) -> (pid: u32)
        ensures
            pid == self@.pid,
    {
        self.pid
    }

    /// The call that reads `size` bytes at `address` in the process.
    pub fn read_request(&self, address: u32, size: u32) -> (request: Request)
        ensures
            request == (Request::ReadMemory { handle: self@.handle, address, size }),
    {
        Request::ReadMemory { handle: self.handle, address, size }
    }

    /// Decides what a read of `size` bytes gave, from the platform's answer to
    /// [`Process::read_request`].
    ///
    /// The read counts only if the platform reports success and exactly `size`
    /// bytes: with fewer, the value read into would be half old and half new.
    pub fn read_memory(&self, size: u32, reply: Reply) -> (res: Result<u32, NEXMemoryError>)
        ensures
            res == transfer_outcome(size, reply@, NEXMemoryError::UnableToReadMemory),
    {
        match reply {
            Reply::Transfer { accepted, transferred } => {
                if accepted && transferred == size {
                    Ok(size)
                } else {
                    Err(NEXMemoryError::UnableToReadMemory)
                }
            },
            _ => Err(NEXMemoryError::UnableToReadMemory),
        }
    }

    /// The call that writes `size` bytes at `address` in the process.
    pub fn write_request(&self, address: u32, size: u32) -> (request: Request)
        ensures
            request == (Request::WriteMemory { handle: self@.handle, address, size }),
    {
        Request::WriteMemory { handle: self.handle, address, size }
    }

    /// Decides what a write of `size` bytes gave, from the platform's answer to
    /// [`Process::write_request`]: as for a read, all of it or a failure.
    pub fn write_memory(&self, size: u32, reply: Reply) -> (res: Result<u32, NEXMemoryError>)
        ensures
            res == transfer_outcome(size, reply@, NEXMemoryError::UnableToWriteMemory),
    {
        match reply {
            Reply::Transfer { accepted, transferred } => {
                if accepted && transferred == size {
                    Ok(size)
                } else {
                    Err(NEXMemoryError::UnableToWriteMemory)
                }
            },
            _ => Err(NEXMemoryError::UnableToWriteMemory),
        }
    }

    /// The call that asks for the full path of the process's executable.
    pub fn path_request(&self) -> (request: Request)
        ensures
            request == (Request::QueryPath { handle: self@.handle, capacity: PATH_CAPACITY }),
    {
        Request::QueryPath { handle: self.handle, capacity: PATH_CAPACITY }
    }

    /// The path of the process's executable, from the platform's answer to
    /// [`Process::path_request`].
    ///
    /// Where the query failed the process counts as not found. Else the buffer
    /// is read as text, without the zero bytes at its end.
    pub fn process_name(&self, reply: Reply) -> (res: Result<String, NEXMemoryError>)
        ensures
            match res {
                Ok(path) => path_outcome(reply@) == Ok::<Seq<char>, NEXMemoryError>(path@),
                Err(e) => path_outcome(reply@) == Err::<Seq<char>, NEXMemoryError>(e),
            },
    {
        match reply {
            Reply::Path(Some(bytes)) => decode_text(bytes),
            _ => Err(NEXMemoryError::ProcessNotFound),
        }
    }

    /// The call that ends the process with the exit code `code`.
    pub fn terminate_request(&self, code: u32) -> (request: Request)
        ensures
            request == (Request::Terminate { handle: self@.handle, code }),
    {
        Request::Terminate { handle: self.handle, code }
    }

    /// Whether the platform took the request to end the process, from its
    /// answer to [`Process::terminate_request`]. That it took it does not mean
    /// that the process is gone yet.
    pub fn terminate(&self, reply: Reply) -> (accepted: bool)
        ensures
            accepted == (reply@ == ReplyView::Accepted(true)),
    {
        match reply {
            Reply::Accepted(accepted) => accepted,
            _ => false,
        }
    }

    /// Gives the process up: the call that hands its handle back. Whether that
    /// call succeeds is of no concern to anyone.
    pub fn release(self) -> (request: Request)
        ensures
            request == (Request::CloseHandle { handle: self@.handle }),
    {
        Request::CloseHandle { handle: self.handle }
    }
}

} // verus!
