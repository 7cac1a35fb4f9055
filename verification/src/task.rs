//! The life of one download task as a state machine. The surrounding
//! process performs the side effects — it sends the request, writes the
//! chunks, drives a progress bar — and feeds what happened back as events;
//! every transition is decided here.
//!
//! A task that sees a non-success response fails alone: no transition
//! carries a failure beyond the one task, which is the batch's isolation
//! policy — sibling tasks and the batch as a whole are unaffected.

use vstd::prelude::*;

verus! {

/// What one task observes, in order: the response to its GET, then each
/// received chunk, then the end of the body.
#[derive(Clone, Copy, PartialEq, Eq, Structural, Debug)]
pub enum TransferEvent {
    /// The response arrived, with its status and its declared content
    /// length, absent when the registry did not declare one.
    Response { success: bool, content_length: Option<u64> },
    /// One chunk of the body was received and written, of `size` bytes.
    Chunk { size: u64 },
    /// The body ended.
    BodyEnd,
}

/// Where one task stands: waiting for its response, receiving the body with
/// its progress so far, failed (logged, never fatal to the batch), or done.
#[derive(Clone, Copy, PartialEq, Eq, Structural, Debug)]
pub enum TransferState {
    /// The GET was issued; nothing was received yet.
    Requesting,
    /// The response was a success: the destination file is being written.
    /// `expected` is the declared content length, 0 when unknown;
    /// `received` the bytes written so far.
    Receiving { expected: u64, received: u64 },
    /// The response was a failure; the task stopped without a file.
    Failed,
    /// The whole body, `received` bytes, was written.
    Done { received: u64 },
}

/// The transition relation of one task. A successful response opens the
/// transfer with the declared length (0 when none was declared); a failed
/// one ends the task. Each chunk advances the received count by its size,
/// saturating rather than overflowing; the body's end completes the task.
/// An event that cannot occur in a state leaves the state unchanged.
pub open spec fn transfer_step(s: TransferState, e: TransferEvent) -> TransferState {
    match (s, e) {
        (TransferState::Requesting, TransferEvent::Response { success, content_length }) => {
            if success {
                TransferState::Receiving {
                    expected: match content_length {
                        Some(n) => n,
                        None => 0,
                    },
                    received: 0,
                }
            } else {
                TransferState::Failed
            }
        },
        (TransferState::Receiving { expected, received }, TransferEvent::Chunk { size }) => {
            TransferState::Receiving {
                expected,
                received: if received + size > u64::MAX {
                    u64::MAX
                } else {
                    (received + size) as u64
                },
            }
        },
        (TransferState::Receiving { expected: _, received }, TransferEvent::BodyEnd) => {
            TransferState::Done { received }
        },
        (_, _) => s,
    }
}

/// Advances one task by one observed event.
pub fn step_transfer(state: TransferState, event: TransferEvent) -> (next: TransferState)
    ensures
        next == transfer_step(state, event),
{
    match (state, event) {
        (TransferState::Requesting, TransferEvent::Response { success, content_length }) => {
            if success {
                let expected = match content_length {
                    Some(n) => n,
                    None => 0,
                };
                TransferState::Receiving { expected, received: 0 }
            } else {
                TransferState::Failed
            }
        },
        (TransferState::Receiving { expected, received }, TransferEvent::Chunk { size }) => {
            TransferState::Receiving { expected, received: received.saturating_add(size) }
        },
        (TransferState::Receiving { expected: _, received }, TransferEvent::BodyEnd) => {
            TransferState::Done { received }
        },
        (s, _) => s,
    }
}

} // verus!
