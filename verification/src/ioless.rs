//! Outcomes of the transport-independent client.
//!
//! The client processes protocol bytes without reading or writing a transport.
//! Operations return [`Step::NeedsInput`] when more data is required.

use vstd::prelude::*;

use crate::client;
use crate::client::Event;
use crate::error;
use crate::error::Error;
use crate::sys;

verus! {

/// Result of a protocol operation that may require more input.
#[derive(Debug, Clone, Copy, PartialEq, Eq)]
pub enum Step<T> {
    Ready(T),
    /// Operation requires more bytes. Submit them and repeat operation.
    NeedsInput,
}

impl<T> Step<T> {
    /// Value of a finished operation.
    pub open spec fn spec_ready(self) -> Option<T> {
        match self {
            Step::Ready(value) => Some(value),
            Step::NeedsInput => None,
        }
    }

    pub fn ready(self) -> (value: Option<T>)
        ensures
            value == self.spec_ready(),
    {
        match self {
            Step::Ready(value) => Some(value),
            Step::NeedsInput => None,
        }
    }

    pub fn is_ready(&self) -> (answer: bool)
        ensures
            answer == (self.spec_ready() is Some),
    {
        match self {
            Step::Ready(_) => true,
            Step::NeedsInput => false,
        }
    }

    /// Converts the value of a finished operation.
    pub fn map_ready<U, F: FnOnce(T) -> U>(self, f: F) -> (step: Step<U>)
        requires
            self matches Step::Ready(value) ==> call_requires(f, (value,)),
        ensures
            match self {
                Step::Ready(value) => step matches Step::Ready(mapped) && call_ensures(
                    f,
                    (value,),
                    mapped,
                ),
                Step::NeedsInput => step is NeedsInput,
            },
    {
        match self {
            Step::Ready(value) => Step::Ready(f(value)),
            Step::NeedsInput => Step::NeedsInput,
        }
    }
}

/// Outcome of an operation that may require more input.
pub open spec fn step_outcome(rc: i32, err: sys::chc_err) -> Result<Step<()>, error::ErrorView> {
    if rc == sys::CHC_WOULD_BLOCK {
        Ok(Step::NeedsInput)
    } else {
        match error::checked(rc, err) {
            Ok(()) => Ok(Step::Ready(())),
            Err(e) => Err(e),
        }
    }
}

/// Turns a result code into the outcome of a step.
pub fn step(rc: i32, err: &sys::chc_err) -> (result: Result<Step<()>, Error>)
    ensures
        error::outcome(result) == step_outcome(rc, *err),
{
    if rc == sys::CHC_WOULD_BLOCK {
        Ok(Step::NeedsInput)
    } else {
        match error::check(rc, err) {
            Ok(()) => Ok(Step::Ready(())),
            Err(e) => Err(e),
        }
    }
}

/// Outcome of a handshake step. An exception from the server goes before
/// whatever the result code says.
pub open spec fn handshake_step_outcome(
    rc: i32,
    err: sys::chc_err,
    exc: Option<sys::chc_exception>,
) -> Result<Step<()>, error::ErrorView> {
    match exc {
        Some(raw) => Err(client::exception_error(raw)),
        None => step_outcome(rc, err),
    }
}

/// Turns what a handshake step reported into its outcome.
pub fn finish_handshake(
    rc: i32,
    err: &sys::chc_err,
    exc: Option<sys::chc_exception>,
) -> (result: Result<Step<()>, Error>)
    ensures
        error::outcome(result) == handshake_step_outcome(rc, *err, exc),
{
    match client::take_handshake_exception(exc) {
        Some(e) => Err(e),
        None => step(rc, err),
    }
}

/// Outcome of a receive step.
pub open spec fn receive_step_outcome<'a>(
    rc: i32,
    err: sys::chc_err,
    packet: sys::chc_packet<'a>,
) -> Result<Step<client::EventView<'a>>, error::ErrorView> {
    if rc == sys::CHC_WOULD_BLOCK {
        Ok(Step::NeedsInput)
    } else {
        match client::receive_outcome(rc, err, packet) {
            Ok(event) => Ok(Step::Ready(event)),
            Err(e) => Err(e),
        }
    }
}

/// Outcome that gives a step with an event, taken by its view.
pub open spec fn event_step_outcome<'b>(result: Result<Step<Event<'b>>, Error>) -> Result<
    Step<client::EventView<'b>>,
    error::ErrorView,
> {
    match result {
        Ok(Step::Ready(event)) => Ok(Step::Ready(event@)),
        Ok(Step::NeedsInput) => Ok(Step::NeedsInput),
        Err(e) => Err(e@),
    }
}

/// Turns what a receive step reported into its outcome. Only a success takes
/// the payload out of the packet.
pub fn finish_receive<'b>(
    rc: i32,
    err: &sys::chc_err,
    packet: &mut sys::chc_packet<'b>,
) -> (result: Result<Step<Event<'b>>, Error>)
    requires
        rc == sys::CHC_OK ==> old(packet).wf(),
    ensures
        event_step_outcome(result) == receive_step_outcome(rc, *err, *old(packet)),
        *final(packet) == if rc == sys::CHC_OK {
            old(packet).taken()
        } else {
            *old(packet)
        },
{
    if rc == sys::CHC_WOULD_BLOCK {
        return Ok(Step::NeedsInput);
    }
    match client::finish_receive(rc, err, packet) {
        Ok(event) => Ok(Step::Ready(event)),
        Err(e) => Err(e),
    }
}

/// A step never reports a need for input as an error.
pub proof fn law_would_block_is_no_error(rc: i32, err: sys::chc_err)
    ensures
        step_outcome(rc, err) matches Err(e) ==> e.kind != error::ErrorKind::WouldBlock,
        step_outcome(rc, err) == Ok::<Step<()>, error::ErrorView>(Step::NeedsInput) <==> rc
            == sys::CHC_WOULD_BLOCK,
{
}

/// A rejected handshake is an error of the server in both clients, and the
/// same one.
pub proof fn law_rejection_is_same_in_both_clients(
    rc: i32,
    err: sys::chc_err,
    exc: sys::chc_exception,
)
    ensures
        handshake_step_outcome(rc, err, Some(exc)) matches Err(e) && client::handshake_outcome(
            rc,
            err,
            Some(exc),
        ) == Err::<(), error::ErrorView>(e) && e.kind == error::ErrorKind::Server,
{
}

/// A finished step hands out its value, and one that needs input has none.
pub proof fn law_only_finished_step_has_a_value<T>(
    step: Step<T>,
    value: Option<T>,
    answer: bool,
)
    requires
        call_ensures(Step::<T>::ready, (step,), value),
        call_ensures(Step::<T>::is_ready, (&step,), answer),
    ensures
        match step {
            Step::Ready(v) => value == Some(v) && answer,
            Step::NeedsInput => value is None && !answer,
        },
{
}

/// The value of a finished step is converted, and a step that needs input still
/// needs it.
pub proof fn law_conversion_keeps_readiness<T, U, F: FnOnce(T) -> U>(
    step: Step<T>,
    f: F,
    mapped: Step<U>,
)
    requires
        call_ensures(Step::<T>::map_ready::<U, F>, (step, f), mapped),
    ensures
        match step {
            Step::Ready(v) => mapped matches Step::Ready(w) && call_ensures(f, (v,), w),
            Step::NeedsInput => mapped is NeedsInput,
        },
{
}

/// A step is finished exactly where its code is that of success, and needs
/// input exactly where its code says that it would block. Any other code is the
/// error that the code and the record describe.
pub proof fn law_step_by_result_code(
    rc: i32,
    err: sys::chc_err,
    result: Result<Step<()>, Error>,
    failure: Error,
)
    requires
        call_ensures(step, (rc, &err), result),
        call_ensures(Error::from_raw, (rc, &err), failure),
    ensures
        result matches Ok(Step::Ready(_)) <==> rc == sys::CHC_OK,
        result matches Ok(Step::NeedsInput) <==> rc == sys::CHC_WOULD_BLOCK,
        result matches Err(e) ==> e.kind == failure.kind && e.message@ == failure.message@
            && e.server_code == failure.server_code && e.server_name@ == failure.server_name@
            && e.kind.spec_code() == rc,
{
}

/// A handshake step is finished or needs input only where the server sent no
/// exception. An exception is reported as the error that it describes.
pub proof fn law_handshake_step_proceeds_only_unrejected(
    rc: i32,
    err: sys::chc_err,
    exc: Option<sys::chc_exception>,
    result: Result<Step<()>, Error>,
    failure: Error,
)
    requires
        call_ensures(finish_handshake, (rc, &err, exc), result),
        call_ensures(Error::from_raw, (rc, &err), failure),
    ensures
        result matches Ok(Step::Ready(_)) <==> exc is None && rc == sys::CHC_OK,
        result matches Ok(Step::NeedsInput) <==> exc is None && rc == sys::CHC_WOULD_BLOCK,
        result matches Err(e) ==> match exc {
            Some(raw) => client::describes(raw, e),
            None => e.kind == failure.kind && e.message@ == failure.message@ && e.server_code
                == failure.server_code && e.server_name@ == failure.server_name@
                && e.kind.spec_code() == rc,
        },
{
    if let Some(raw) = exc {
        client::lemma_describes(raw, result->Err_0);
    }
}

/// A receive step gives an event only where its code is that of success, and
/// then the event that the packet says. It needs input exactly where its code
/// says that it would block. Any other code is an error of the category of that
/// code. Only a success takes anything out of the packet.
pub proof fn law_receive_step_gives_events_only_on_success<'b>(
    rc: i32,
    err: sys::chc_err,
    packet: &mut sys::chc_packet<'b>,
    result: Result<Step<Event<'b>>, Error>,
    failure: Error,
)
    requires
        call_ensures(finish_receive, (rc, &err, packet), result),
        call_ensures(Error::from_raw, (rc, &err), failure),
    ensures
        result matches Ok(Step::NeedsInput) <==> rc == sys::CHC_WOULD_BLOCK,
        result matches Ok(Step::Ready(event)) ==> rc == sys::CHC_OK && client::tells(
            *old(packet),
            event,
        ),
        result matches Err(e) ==> if rc == sys::CHC_OK {
            client::says_nothing(*old(packet), e)
        } else {
            e.kind == failure.kind && e.message@ == failure.message@ && e.server_code
                == failure.server_code && e.server_name@ == failure.server_name@
                && e.kind.spec_code() == rc
        },
        rc == sys::CHC_OK ==> client::is_emptied(*old(packet), *final(packet)),
        rc != sys::CHC_OK ==> *final(packet) == *old(packet),
{
}

} // verus!
