//! Order of the transport work of the asynchronous client.
//!
//! [`Pump`] decides what to do next: write queued output, flush, run a
//! protocol step, or read input. The caller does it and reports back.

use vstd::prelude::*;

use crate::error;
use crate::error::{Error, ErrorKind};

verus! {

/// Read buffer size used when none is selected.
pub const DEFAULT_READ_BUF_BYTES: usize = 8192;

/// Size of the read buffer. Zero selects the default.
pub fn read_buffer_size(requested: usize) -> (size: usize)
    ensures
        size == if requested == 0 {
            DEFAULT_READ_BUF_BYTES
        } else {
            requested
        },
        size > 0,
{
    if requested == 0 {
        DEFAULT_READ_BUF_BYTES
    } else {
        requested
    }
}

/// What follows once all queued output has been handed over.
#[derive(Debug, Clone, Copy, PartialEq, Eq, Structural)]
pub enum Next {
    /// Run the protocol step.
    Step,
    /// Read input for the step.
    Read,
    /// Nothing: the operation is complete.
    Finish,
}

/// Work to be done by the caller.
#[derive(Debug, Clone, Copy, PartialEq, Eq, Structural)]
pub enum Action {
    /// Write queued output, and remove from the queue what was accepted.
    Write,
    /// Flush the transport. TLS can buffer a partial record after a write
    /// reports progress.
    Flush,
    /// Run the protocol step.
    Step,
    /// Read input and submit it.
    Read,
    /// Return.
    Finish,
}

/// State of an operation.
#[derive(Debug, Clone, Copy, PartialEq, Eq, Structural)]
pub struct Pump {
    /// Whether output was written since the last flush.
    pub wrote: bool,
    pub next: Next,
}

impl Pump {
    /// Operation that only hands over queued output.
    pub fn drain() -> (pump: Self)
        ensures
            pump == (Pump { wrote: false, next: Next::Finish }),
    {
        Pump { wrote: false, next: Next::Finish }
    }

    /// Operation that repeats a protocol step until it is ready.
    pub fn until_ready() -> (pump: Self)
        ensures
            pump == (Pump { wrote: false, next: Next::Step }),
    {
        Pump { wrote: false, next: Next::Step }
    }

    /// Work that comes next while `pending` bytes are queued.
    pub open spec fn spec_action(self, pending: nat) -> Action {
        if pending > 0 {
            Action::Write
        } else if self.wrote {
            Action::Flush
        } else {
            match self.next {
                Next::Step => Action::Step,
                Next::Read => Action::Read,
                Next::Finish => Action::Finish,
            }
        }
    }

    /// Work that comes next while `pending` bytes are queued.
    pub fn action(&self, pending: usize) -> (action: Action)
        ensures
            action == self.spec_action(pending as nat),
    {
        if pending > 0 {
            Action::Write
        } else if self.wrote {
            Action::Flush
        } else {
            match self.next {
                Next::Step => Action::Step,
                Next::Read => Action::Read,
                Next::Finish => Action::Finish,
            }
        }
    }

    /// State after a write that took `n` bytes.
    pub open spec fn spec_written(self, n: nat) -> Result<Pump, error::ErrorView> {
        if n == 0 {
            Err(error::local_error(ErrorKind::Io, "transport write returned zero"@))
        } else {
            Ok(Pump { wrote: true, next: self.next })
        }
    }

    /// Reports a write that took `n` bytes.
    pub fn written(self, n: usize) -> (result: Result<Pump, Error>)
        ensures
            error::outcome(result) == self.spec_written(n as nat),
    {
        if n == 0 {
            Err(Error::new(ErrorKind::Io, "transport write returned zero".to_owned()))
        } else {
            Ok(Pump { wrote: true, next: self.next })
        }
    }

    /// State after a flush.
    pub open spec fn spec_flushed(self) -> Pump {
        Pump { wrote: false, next: self.next }
    }

    /// Reports a flush.
    pub fn flushed(self) -> (pump: Pump)
        ensures
            pump == self.spec_flushed(),
    {
        Pump { wrote: false, next: self.next }
    }

    /// State after a protocol step.
    pub open spec fn spec_stepped(self, ready: bool) -> Pump {
        Pump {
            wrote: self.wrote,
            next: if ready {
                Next::Finish
            } else {
                Next::Read
            },
        }
    }

    /// Reports a protocol step, and whether it was ready.
    pub fn stepped(self, ready: bool) -> (pump: Pump)
        ensures
            pump == self.spec_stepped(ready),
    {
        if ready {
            Pump { wrote: self.wrote, next: Next::Finish }
        } else {
            Pump { wrote: self.wrote, next: Next::Read }
        }
    }

    /// State after a read of `n` bytes.
    pub open spec fn spec_read(self, n: nat) -> Result<Pump, error::ErrorView> {
        if n == 0 {
            Err(error::local_error(ErrorKind::Eof, "transport closed"@))
        } else {
            Ok(Pump { wrote: self.wrote, next: Next::Step })
        }
    }

    /// Reports a read of `n` bytes.
    pub fn read(self, n: usize) -> (result: Result<Pump, Error>)
        ensures
            error::outcome(result) == self.spec_read(n as nat),
    {
        if n == 0 {
            Err(Error::new(ErrorKind::Eof, "transport closed".to_owned()))
        } else {
            Ok(Pump { wrote: self.wrote, next: Next::Step })
        }
    }
}

/// Input is awaited, a step is run and an operation ends only once all queued
/// output has been written and flushed.
pub proof fn law_output_goes_first(pump: Pump, pending: nat)
    ensures
        pump.spec_action(pending) == Action::Read || pump.spec_action(pending) == Action::Step
            || pump.spec_action(pending) == Action::Finish ==> pending == 0 && !pump.wrote,
        pump.spec_action(pending) == Action::Write <==> pending > 0,
{
}

/// Bytes that stay queued when a write takes `n` of `pending` bytes.
pub open spec fn still_pending(pending: nat, n: nat) -> nat {
    if n >= pending {
        0
    } else {
        (pending - n) as nat
    }
}

/// Each write shortens the queue or fails the operation, so that writing ends.
pub proof fn law_write_makes_progress(pump: Pump, pending: nat, n: nat)
    requires
        pump.spec_action(pending) == Action::Write,
        pump.spec_written(n) is Ok,
    ensures
        still_pending(pending, n) < pending,
{
}

/// Written output is flushed once, right after the queue is empty, and then
/// what was due before goes on.
pub proof fn law_written_output_is_flushed(pump: Pump, n: nat)
    requires
        n > 0,
    ensures
        pump.spec_written(n) matches Ok(after) && after.spec_action(0) == Action::Flush
            && after.spec_flushed().spec_action(0) == (Pump {
            wrote: false,
            next: pump.next,
        }).spec_action(0),
{
}

/// A step that needs input is followed by a read and then by the step again,
/// and a ready step by the end of the operation.
pub proof fn law_step_repeats_after_input(pump: Pump, n: nat)
    requires
        pump.spec_action(0) == Action::Step,
        n > 0,
    ensures
        pump.spec_stepped(true).spec_action(0) == Action::Finish,
        pump.spec_stepped(false).spec_action(0) == Action::Read,
        pump.spec_stepped(false).spec_read(n) matches Ok(again) && again == pump,
{
}

/// The selected buffer size is used, and the default where none is selected.
pub proof fn law_read_buffer_is_never_empty(requested: usize, size: usize)
    requires
        call_ensures(read_buffer_size, (requested,), size),
    ensures
        requested > 0 ==> size == requested,
        requested == 0 ==> size == 8192,
{
}

/// Queued output is written first, written output is flushed next, and only
/// then comes what the operation is at.
pub proof fn law_order_of_work(pump: Pump, pending: usize, action: Action)
    requires
        call_ensures(Pump::action, (&pump, pending), action),
    ensures
        action == Action::Write <==> pending > 0,
        action == Action::Flush <==> pending == 0 && pump.wrote,
        action == Action::Step <==> pending == 0 && !pump.wrote && pump.next == Next::Step,
        action == Action::Read <==> pending == 0 && !pump.wrote && pump.next == Next::Read,
        action == Action::Finish <==> pending == 0 && !pump.wrote && pump.next == Next::Finish,
{
}

/// An operation starts without written output: one that only hands over output
/// ends behind it, and another one runs its step.
pub proof fn law_start_of_operations(drain: Pump, step: Pump)
    requires
        call_ensures(Pump::drain, (), drain),
        call_ensures(Pump::until_ready, (), step),
    ensures
        !drain.wrote && drain.next == Next::Finish,
        !step.wrote && step.next == Next::Step,
{
}

/// A write that took bytes calls for a flush, and a flush settles it. Neither
/// changes what the operation is at. A write that took none is an error of the
/// transport.
pub proof fn law_writes_and_flushes(
    pump: Pump,
    n: usize,
    written: Result<Pump, Error>,
    flushed: Pump,
)
    requires
        call_ensures(Pump::written, (pump, n), written),
        call_ensures(Pump::flushed, (pump,), flushed),
    ensures
        written is Ok <==> n > 0,
        written matches Ok(after) ==> after.wrote && after.next == pump.next,
        written matches Err(e) ==> e.kind == ErrorKind::Io && e.message@
            == "transport write returned zero"@ && e.server_code == 0 && e.server_name@.len() == 0,
        !flushed.wrote && flushed.next == pump.next,
{
}

/// A ready step ends the operation, and one that is not ready calls for input.
/// Input calls for the step again, and its end is an error: the stream is cut
/// off. Neither forgets written output.
pub proof fn law_steps_and_reads(
    pump: Pump,
    ready: bool,
    stepped: Pump,
    n: usize,
    read: Result<Pump, Error>,
)
    requires
        call_ensures(Pump::stepped, (pump, ready), stepped),
        call_ensures(Pump::read, (pump, n), read),
    ensures
        ready ==> stepped.next == Next::Finish,
        !ready ==> stepped.next == Next::Read,
        stepped.wrote == pump.wrote,
        read is Ok <==> n > 0,
        read matches Ok(after) ==> after.next == Next::Step && after.wrote == pump.wrote,
        read matches Err(e) ==> e.kind == ErrorKind::Eof && e.message@ == "transport closed"@
            && e.server_code == 0 && e.server_name@.len() == 0,
{
}

} // verus!
