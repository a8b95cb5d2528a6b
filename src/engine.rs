use vstd::prelude::*;

use crate::config::{admissible, transfer_length, Config};

verus! {

/// Why a transfer stopped before its end.
#[derive(Clone, Copy, Debug, PartialEq, Eq, Structural)]
pub enum CopyError {
    /// The destination could not be opened or created for writing.
    DestinationOpenFailed,
    /// A file could not be positioned at its offset.
    SeekFailed,
    /// A read failed for a reason other than an interruption.
    ReadFailed,
    /// The source ended before the requested number of bytes was read.
    UnexpectedEndOfSource,
    /// A write failed.
    WriteFailed,
}

/// What a read of the source gave.
#[derive(Clone, Copy, Debug, PartialEq, Eq, Structural)]
pub enum ReadOutcome {
    /// The given number of bytes was read into the buffer.
    Data(usize),
    /// The read was interrupted by a signal before it read anything.
    Interrupted,
    /// The read failed.
    Failed,
}

/// What the driver does after a read.
#[derive(Clone, Copy, Debug, PartialEq, Eq, Structural)]
pub enum ReadStep {
    /// Read again, with the same size.
    Retry,
    /// Write the first so many bytes of the buffer to the destination.
    Write(usize),
    /// Stop with this error.
    Abort(CopyError),
}

/// What a write of the destination gave.
#[derive(Clone, Copy, Debug, PartialEq, Eq, Structural)]
pub enum WriteOutcome {
    /// All of the bytes handed to the write were written.
    Written,
    /// The write failed.
    Failed,
}

/// The state of one transfer: how many bytes it moves in all, how many have
/// reached the destination, and the chunk size.
pub struct Transfer {
    pub total: u64,
    pub done: u64,
    pub buffer_size: usize,
    pub verbose: bool,
}

impl Transfer {
    /// The transfer's own invariant.
    pub open spec fn wf(&self) -> bool {
        &&& self.done <= self.total
        &&& self.buffer_size > 0
    }

    /// The size of the next read: a full buffer, or what is left.
    pub open spec fn next_read(&self) -> int {
        if self.buffer_size < self.total - self.done {
            self.buffer_size as int
        } else {
            self.total - self.done
        }
    }

    /// A transfer, with nothing moved yet, of the bytes that `cfg` asks of a
    /// source of the given length.
    pub fn new(cfg: &Config, source_length: u64) -> (r: Transfer)
        requires
            admissible(*cfg, source_length),
        ensures
            r.wf(),
            r.total == transfer_length(*cfg, source_length),
            r.done == 0,
            r.buffer_size == cfg.buffer_size,
            r.verbose == cfg.verbose,
    {
        Transfer {
            total: cfg.transfer_length(source_length),
            done: 0,
            buffer_size: cfg.buffer_size,
            verbose: cfg.verbose,
        }
    }

    /// Whether every byte has been written.
    pub fn is_complete(&self) -> (r: bool)
        ensures
            r == (self.done == self.total),
    {
        self.done == self.total
    }

    /// How many bytes the next read asks for; never zero while bytes remain.
    pub fn read_size(&self) -> (r: usize)
        requires
            self.wf(),
            self.done < self.total,
        ensures
            r == self.next_read(),
            0 < r <= self.buffer_size,
    {
        let left = self.total - self.done;
        if (self.buffer_size as u64) < left {
            self.buffer_size
        } else {
            left as usize
        }
    }

    /// Decides on a read's outcome.  An interruption is retried with nothing
    /// changed, a failure aborts, a read of nothing before the end means the
    /// source shrank, and bytes read are to be written.
    pub fn on_read(&self, outcome: ReadOutcome) -> (r: ReadStep)
        requires
            self.wf(),
            self.done < self.total,
            outcome matches ReadOutcome::Data(n) ==> n <= self.next_read(),
        ensures
            r == match outcome {
                ReadOutcome::Interrupted => ReadStep::Retry,
                ReadOutcome::Failed => ReadStep::Abort(CopyError::ReadFailed),
                ReadOutcome::Data(n) => if n == 0 {
                    ReadStep::Abort(CopyError::UnexpectedEndOfSource)
                } else {
                    ReadStep::Write(n)
                },
            },
    {
        match outcome {
            ReadOutcome::Interrupted => ReadStep::Retry,
            ReadOutcome::Failed => ReadStep::Abort(CopyError::ReadFailed),
            ReadOutcome::Data(n) => if n == 0 {
                ReadStep::Abort(CopyError::UnexpectedEndOfSource)
            } else {
                ReadStep::Write(n)
            },
        }
    }

    /// Records the outcome of writing `n` bytes.  On success the count of
    /// bytes moved grows by `n`, and the result is the progress to report:
    /// `Some(n)` when verbose, else `None`.  A failure aborts and changes
    /// nothing.
    pub fn on_write(&mut self, n: usize, outcome: WriteOutcome) -> (r: Result<Option<u64>, CopyError>)
        requires
            old(self).wf(),
            0 < n <= old(self).next_read(),
        ensures
            final(self).wf(),
            final(self).total == old(self).total,
            final(self).buffer_size == old(self).buffer_size,
            final(self).verbose == old(self).verbose,
            outcome == WriteOutcome::Written ==> {
                &&& final(self).done == old(self).done + n
                &&& r == if old(self).verbose {
                    Ok::<Option<u64>, CopyError>(Some(n as u64))
                } else {
                    Ok(None)
                }
            },
            outcome == WriteOutcome::Failed ==> {
                &&& final(self).done == old(self).done
                &&& r == Err::<Option<u64>, CopyError>(CopyError::WriteFailed)
            },
    {
        match outcome {
            WriteOutcome::Written => {
                self.done = self.done + n as u64;
                if self.verbose {
                    Ok(Some(n as u64))
                } else {
                    Ok(None)
                }
            },
            WriteOutcome::Failed => Err(CopyError::WriteFailed),
        }
    }

    /// The number of bytes written so far.
    pub fn transferred(&self) -> (r: u64)
        ensures
            r == self.done,
    {
        self.done
    }
}

} // verus!
